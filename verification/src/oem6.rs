//! The receiver's frame engine.
//!
//! The engine never touches a transport. It says how many bytes to read
//! next, takes the bytes that were read, and decides: read on, start over, or
//! hand out a frame. Requests come out of it as the bytes to write.

use crate::command::{LogCmd, LogTrigger, Port};
use crate::crc32::{calc_crc, crc_of};
use crate::header::{header_of, Header, MessageID, HDR_LEN};
use crate::logs::{log_of, Log, LogView};
use crate::message::Message;
use crate::response::{response_text, Response, ResponseID};
use crate::wire::{byteorder_write_u32, nom_le_u32, u32_at, u32_bytes};
use vstd::prelude::*;

verus! {

/// What can go wrong when talking to the receiver.
#[derive(Clone, Debug, PartialEq, Eq)]
#[allow(inconsistent_fields)]
pub enum OEMError {
    /// Something could not be decoded; nothing more is known.
    GenericError,
    /// A response arrived, but for another message than the one that was sent.
    ResponseMismatch,
    /// A command was sent, and what came back was no response.
    NoResponse,
    /// The receiver answered the command with an error.
    CommandError {
        /// The receiver's verdict.
        id: ResponseID,
        /// The verdict in the receiver's words.
        description: String,
    },
    /// A well-formed frame whose message has no decoder here.
    UnknownMessage {
        /// The number of the message.
        id: u16,
    },
    /// The serial driver failed.
    SerialError {
        /// What the driver said.
        cause: String,
    },
    /// The operating system failed a read or a write.
    IoError {
        /// What the system said.
        cause: String,
    },
}

/// An error with its text as character sequences.
#[allow(inconsistent_fields)]
pub enum OEMErrorView {
    GenericError,
    ResponseMismatch,
    NoResponse,
    CommandError { id: ResponseID, description: Seq<char> },
    UnknownMessage { id: u16 },
    SerialError { cause: Seq<char> },
    IoError { cause: Seq<char> },
}

impl View for OEMError {
    type V = OEMErrorView;

    open spec fn view(&self) -> OEMErrorView {
        match self {
            OEMError::GenericError => OEMErrorView::GenericError,
            OEMError::ResponseMismatch => OEMErrorView::ResponseMismatch,
            OEMError::NoResponse => OEMErrorView::NoResponse,
            OEMError::CommandError { id, description } => OEMErrorView::CommandError {
                id: *id,
                description: description@,
            },
            OEMError::UnknownMessage { id } => OEMErrorView::UnknownMessage { id: *id },
            OEMError::SerialError { cause } => OEMErrorView::SerialError { cause: cause@ },
            OEMError::IoError { cause } => OEMErrorView::IoError { cause: cause@ },
        }
    }
}

/// The result of an operation on the receiver.
pub type OEMResult<T> = Result<T, OEMError>;

/// What the reader is waiting for, and what it has of the frame so far.
pub enum Waiting {
    /// The 28 bytes of a header.
    Header,
    /// The body that the header announced.
    Body { hdr: Header, message: Seq<u8> },
    /// The four bytes of the check value.
    Trailer { hdr: Header, message: Seq<u8> },
}

/// Where the reader stands after it was handed the bytes of one read.
pub enum Progress {
    /// The frame is not complete; read again.
    More(Waiting),
    /// A frame passed its check: the header and the body.
    Frame(Header, Seq<u8>),
}

impl Waiting {
    /// How many bytes the next read has to fetch.
    pub open spec fn wanted(self) -> nat {
        match self {
            Waiting::Header => HDR_LEN as nat,
            Waiting::Body { hdr, message } => hdr.msg_len as nat,
            Waiting::Trailer { hdr, message } => 4,
        }
    }

    /// The reader's decision on the bytes of one read.
    ///
    /// A read of the wrong length, a header without the sync marker and a
    /// check value that does not match all discard what was gathered, and the
    /// reader waits for a header again.
    pub open spec fn step(self, data: Seq<u8>) -> Progress {
        match self {
            Waiting::Header => if data.len() == HDR_LEN && header_of(data).has_sync_spec() {
                Progress::More(Waiting::Body { hdr: header_of(data), message: data })
            } else {
                Progress::More(Waiting::Header)
            },
            Waiting::Body { hdr, message } => if data.len() == hdr.msg_len {
                Progress::More(Waiting::Trailer { hdr, message: message + data })
            } else {
                Progress::More(Waiting::Header)
            },
            Waiting::Trailer { hdr, message } => if data.len() == 4 && u32_at(data, 0) == crc_of(
                message,
            ) {
                Progress::Frame(hdr, message.skip(HDR_LEN as int))
            } else {
                Progress::More(Waiting::Header)
            },
        }
    }
}

/// What a frame means to someone who waits for the response to `expected`.
pub open spec fn response_verdict(hdr: Header, body: Seq<u8>, expected: MessageID) -> Result<
    (),
    OEMErrorView,
> {
    if !hdr.is_response_spec() {
        Err(OEMErrorView::NoResponse)
    } else if response_text(body) is None {
        Err(OEMErrorView::NoResponse)
    } else if hdr.msg_id != expected {
        Err(OEMErrorView::ResponseMismatch)
    } else if ResponseID::of_code(u32_at(body, 0)) != ResponseID::Accepted {
        Err(
            OEMErrorView::CommandError {
                id: ResponseID::of_code(u32_at(body, 0)),
                description: response_text(body)->0,
            },
        )
    } else {
        Ok(())
    }
}

/// What a frame means to someone who waits for a log. A response means
/// nothing, and so does a frame whose body does not fit the decoder of its
/// message. Any other frame is a log: the decoded one where its message has a
/// decoder, and where it has none the unrecognized one that carries the
/// message's number.
pub open spec fn log_verdict(hdr: Header, body: Seq<u8>) -> Option<LogView> {
    if hdr.is_response_spec() {
        None
    } else {
        log_of(hdr.msg_id, body)
    }
}

/// Judges a frame as the response to the command for `expected`.
pub fn check_response(hdr: &Header, body: Vec<u8>, expected: MessageID) -> (r: OEMResult<()>)
    ensures
        r is Ok <==> response_verdict(*hdr, body@, expected) is Ok,
        r is Err ==> r->Err_0@ == response_verdict(*hdr, body@, expected)->Err_0,
{
    if !hdr.is_response() {
        return Err(OEMError::NoResponse);
    }
    let resp = match Response::new(body) {
        Some(resp) => resp,
        None => {
            return Err(OEMError::NoResponse);
        },
    };
    if hdr.msg_id != expected {
        return Err(OEMError::ResponseMismatch);
    }
    if resp.resp_id != ResponseID::Accepted {
        return Err(OEMError::CommandError { id: resp.resp_id, description: resp.resp_string });
    }
    Ok(())
}

/// Judges a frame as a log. A response and a frame whose body does not fit
/// its decoder yield nothing. A frame whose message has no decoder is no
/// failure: it yields the unrecognized log with the message's number.
pub fn check_log(hdr: &Header, body: Vec<u8>) -> (log: Option<Log>)
    ensures
        log is Some <==> log_verdict(*hdr, body@) is Some,
        log is Some ==> log->0@ == log_verdict(*hdr, body@)->0,
{
    if hdr.is_response() {
        return None;
    }
    Log::new(hdr.msg_id, body)
}

/// Turns a log that has no decoder into the error that names its message.
pub fn known_log(log: Log) -> (r: OEMResult<Log>)
    ensures
        match log {
            Log::Unrecognized(id) => r matches Err(OEMError::UnknownMessage { id: got })
                && got == id,
            _ => r == Ok::<Log, OEMError>(log),
        },
{
    match log {
        Log::Unrecognized(id) => Err(OEMError::UnknownMessage { id }),
        other => Ok(other),
    }
}

/// A command ready to go out.
#[derive(Clone, Debug, PartialEq, Eq)]
pub struct Request {
    /// The bytes to write, check value included.
    pub bytes: Vec<u8>,
    /// The message that the response has to name.
    pub reply: MessageID,
}

/// What the reader is waiting for.
#[derive(Clone, Copy, Debug, PartialEq, Eq, Structural)]
enum Phase {
    Header,
    Body,
    Trailer,
}

/// The engine for one receiver.
pub struct OEM6 {
    phase: Phase,
    hdr: Header,
    message: Vec<u8>,
}

impl View for OEM6 {
    type V = Waiting;

    closed spec fn view(&self) -> Waiting {
        match self.phase {
            Phase::Header => Waiting::Header,
            Phase::Body => Waiting::Body { hdr: self.hdr, message: self.message@ },
            Phase::Trailer => Waiting::Trailer { hdr: self.hdr, message: self.message@ },
        }
    }
}

impl OEM6 {
    /// While a frame is being gathered, what was gathered starts with its
    /// whole header.
    #[verifier::type_invariant]
    spec fn gathered_a_header(&self) -> bool {
        match self.phase {
            Phase::Header => true,
            Phase::Body => self.message@.len() == HDR_LEN,
            Phase::Trailer => self.message@.len() >= HDR_LEN,
        }
    }

    /// An engine that waits for a header.
    pub fn new() -> (oem: OEM6)
        ensures
            oem@ == Waiting::Header,
    {
        OEM6 { phase: Phase::Header, hdr: Header::new(MessageID::Log, 0), message: Vec::new() }
    }

    /// How many bytes the next read has to fetch.
    pub fn wanted(&self) -> (n: usize)
        ensures
            n == self@.wanted(),
    {
        match self.phase {
            Phase::Header => HDR_LEN as usize,
            Phase::Body => self.hdr.msg_len as usize,
            Phase::Trailer => 4,
        }
    }

    /// The bytes of a message with its check value appended, lowest byte
    /// first: what goes to the transport.
    pub fn send_message<T: Message>(&self, msg: &T) -> (framed: Vec<u8>)
        ensures
            framed@ == sealed(msg.wire()),
    {
        seal(msg.serialize())
    }

    /// The request for the log that `cmd` describes, and the message its
    /// response has to name.
    pub fn request_log(&self, cmd: &LogCmd) -> (req: Request)
        ensures
            req.bytes@ == sealed(cmd.wire()),
            req.reply == MessageID::Log,
    {
        Request { bytes: self.send_message(cmd), reply: MessageID::Log }
    }

    /// The request for one version log on the first serial port, and the
    /// message its response has to name.
    pub fn request_version(&self) -> (req: Request)
        ensures
            req.bytes@ == sealed(version_request().wire()),
            req.reply == MessageID::Log,
    {
        let request = LogCmd::new(
            Port::COM1.code(),
            MessageID::Version.code(),
            LogTrigger::Once.code(),
            0,
            0,
            false,
        );
        self.request_log(&request)
    }

    /// The bytes to write for a message that goes out as it is, with no
    /// header and no check value added.
    pub fn passthrough(&self, msg: &[u8]) -> (bytes: Vec<u8>)
        ensures
            bytes@ == msg@,
    {
        vstd::slice::slice_to_vec(msg)
    }

    /// Takes the bytes of the read that `wanted` asked for. Returns a frame
    /// when these bytes complete one that passes its check; otherwise the
    /// engine waits for the next read.
    pub fn get_message(&mut self, data: Vec<u8>) -> (frame: Option<(Header, Vec<u8>)>)
        ensures
            match old(self)@.step(data@) {
                Progress::More(next) => frame is None && final(self)@ == next,
                Progress::Frame(hdr, body) => {
                    &&& final(self)@ == Waiting::Header
                    &&& frame matches Some(got)
                    &&& got.0 == hdr
                    &&& got.1@ == body
                },
            },
    {
        let mut data = data;
        proof {
            use_type_invariant(&*self);
        }
        match self.phase {
            Phase::Header => {
                if data.len() == HDR_LEN as usize {
                    match Header::parse(data.as_slice()) {
                        Some(hdr) => {
                            if hdr.has_sync() {
                                self.hdr = hdr;
                                self.message = data;
                                self.phase = Phase::Body;
                            }
                        },
                        None => {},
                    }
                }
                None
            },
            Phase::Body => {
                self.phase = Phase::Header;
                if data.len() == self.hdr.msg_len as usize {
                    let mut message: Vec<u8> = Vec::new();
                    core::mem::swap(&mut self.message, &mut message);
                    message.append(&mut data);
                    self.message = message;
                    self.phase = Phase::Trailer;
                }
                None
            },
            Phase::Trailer => {
                self.phase = Phase::Header;
                if data.len() != 4 {
                    return None;
                }
                match nom_le_u32(data.as_slice()) {
                    None => None,
                    Some(crc) => {
                        if calc_crc(self.message.as_slice()) == crc {
                            let mut message: Vec<u8> = Vec::new();
                            core::mem::swap(&mut self.message, &mut message);
                            let body = message.split_off(HDR_LEN as usize);
                            Some((self.hdr, body))
                        } else {
                            None
                        }
                    },
                }
            },
        }
    }

    /// Takes the bytes of a read, as `get_message` does, and judges a
    /// completed frame as the response to the command for `expected`.
    /// Returns nothing while the frame is incomplete.
    pub fn get_response(&mut self, expected: MessageID, data: Vec<u8>) -> (r: Option<OEMResult<()>>)
        ensures
            match old(self)@.step(data@) {
                Progress::More(next) => r is None && final(self)@ == next,
                Progress::Frame(hdr, body) => {
                    &&& final(self)@ == Waiting::Header
                    &&& r matches Some(verdict)
                    &&& verdict is Ok <==> response_verdict(hdr, body, expected) is Ok
                    &&& verdict is Err ==> verdict->Err_0@ == response_verdict(
                        hdr,
                        body,
                        expected,
                    )->Err_0
                },
            },
    {
        match self.get_message(data) {
            None => None,
            Some((hdr, body)) => Some(check_response(&hdr, body, expected)),
        }
    }

    /// Takes the bytes of a read, as `get_message` does, and returns the log
    /// of a completed frame. A response frame and a frame whose body does not
    /// fit its decoder are dropped, and the engine waits for the next frame.
    /// A frame whose message has no decoder is returned as the unrecognized
    /// log with the message's number.
    pub fn get_log(&mut self, data: Vec<u8>) -> (log: Option<Log>)
        ensures
            match old(self)@.step(data@) {
                Progress::More(next) => log is None && final(self)@ == next,
                Progress::Frame(hdr, body) => {
                    &&& final(self)@ == Waiting::Header
                    &&& log is Some <==> log_verdict(hdr, body) is Some
                    &&& log is Some ==> log->0@ == log_verdict(hdr, body)->0
                },
            },
    {
        match self.get_message(data) {
            None => None,
            Some((hdr, body)) => check_log(&hdr, body),
        }
    }
}

/// A frame that is no response and whose message has no decoder is a log for
/// all that: the unrecognized one, which carries the message's number. Its
/// body is not looked at.
pub proof fn law_unknown_message_is_a_log(hdr: Header, body: Seq<u8>)
    requires
        !hdr.is_response_spec(),
        hdr.msg_id != MessageID::Version,
        hdr.msg_id != MessageID::BestXYZ,
    ensures
        log_verdict(hdr, body) == Some(LogView::Unrecognized(hdr.msg_id.code_spec())),
{
}

/// A message with its check value appended, lowest byte first.
pub open spec fn sealed(raw: Seq<u8>) -> Seq<u8> {
    raw + u32_bytes(crc_of(raw))
}

/// Appends to `raw` its check value, lowest byte first.
pub fn seal(raw: Vec<u8>) -> (framed: Vec<u8>)
    ensures
        framed@ == sealed(raw@),
{
    let crc: u32 = calc_crc(raw.as_slice());
    let mut framed: Vec<u8> = raw;
    byteorder_write_u32(&mut framed, crc);
    framed
}

/// The request for one version log on the first serial port.
pub open spec fn version_request() -> LogCmd {
    LogCmd::request(
        Port::COM1.code_spec(),
        MessageID::Version.code_spec(),
        LogTrigger::Once.code_spec(),
        0,
        0,
        false,
    )
}

} // verus!
