//! The 28-byte header that opens every receiver frame.

use crate::message::Message;
use crate::wire::{
    byteorder_write_u16, byteorder_write_u32, lemma_u16_round_trip, lemma_u32_round_trip, read_u16,
    read_u32, read_u8, signed32, u16_at, u16_bytes, u32_at, u32_bytes, unsigned32,
};
use vstd::prelude::*;

verus! {

/// The three bytes that open a binary frame.
pub const SYNC: [u8; 3] = [0xAA, 0x44, 0x12];

/// The length of the binary header, sync bytes included.
pub const HDR_LEN: u8 = 28;

/// The bit of the message type that marks a frame as the reply to a command.
pub const RESPONSE_BIT: u8 = 0x80;

/// The messages this library can name. Any other number on the wire is kept
/// as it came, under `Unknown`.
#[derive(Clone, Copy, Debug, PartialEq, Eq, Structural)]
pub enum MessageID {
    /// Request that a log be produced.
    Log,
    /// Stop one log.
    Unlog,
    /// Hardware and software versions of the receiver's components.
    Version,
    /// Stop all logs.
    UnlogAll,
    /// Best available position and velocity in Earth-centred coordinates.
    BestXYZ,
    /// A message number without a name here.
    Unknown(u16),
}

impl MessageID {
    /// The number that stands for this message on the wire.
    pub open spec fn code_spec(self) -> u16 {
        match self {
            MessageID::Log => 1,
            MessageID::Unlog => 36,
            MessageID::Version => 37,
            MessageID::UnlogAll => 38,
            MessageID::BestXYZ => 241,
            MessageID::Unknown(raw) => raw,
        }
    }

    /// The message that a wire number stands for.
    pub open spec fn of_code(code: u16) -> MessageID {
        if code == 1 {
            MessageID::Log
        } else if code == 36 {
            MessageID::Unlog
        } else if code == 37 {
            MessageID::Version
        } else if code == 38 {
            MessageID::UnlogAll
        } else if code == 241 {
            MessageID::BestXYZ
        } else {
            MessageID::Unknown(code)
        }
    }

    /// `Unknown` is reserved for numbers that have no name.
    pub open spec fn wf(self) -> bool {
        Self::of_code(self.code_spec()) == self
    }

    /// The number that stands for this message on the wire.
    #[verifier::when_used_as_spec(code_spec)]
    pub fn code(self) -> (code: u16)
        ensures
            code == self.code_spec(),
    {
        match self {
            MessageID::Log => 1,
            MessageID::Unlog => 36,
            MessageID::Version => 37,
            MessageID::UnlogAll => 38,
            MessageID::BestXYZ => 241,
            MessageID::Unknown(raw) => raw,
        }
    }

    /// The message that a wire number stands for.
    pub fn from_code(code: u16) -> (id: MessageID)
        ensures
            id == Self::of_code(code),
            id.wf(),
            id.code_spec() == code,
    {
        match code {
            1 => MessageID::Log,
            36 => MessageID::Unlog,
            37 => MessageID::Version,
            38 => MessageID::UnlogAll,
            241 => MessageID::BestXYZ,
            _ => MessageID::Unknown(code),
        }
    }
}

/// A decoded frame header.
#[derive(Clone, Copy, Debug, PartialEq, Eq)]
pub struct Header {
    /// The three bytes found where the sync marker belongs.
    pub sync: [u8; 3],
    /// The header length as the sender states it.
    pub hdr_len: u8,
    /// Which message the frame carries.
    pub msg_id: MessageID,
    /// Response bit, format and measurement source.
    pub msg_type: u8,
    /// The port the frame came through.
    pub port_addr: u8,
    /// The length of the body, header and check value not counted.
    pub msg_len: u16,
    /// Countdown over the frames of one multi-frame log.
    pub seq: u16,
    /// Processor idle time.
    pub idle_time: u8,
    /// Quality of the receiver's time.
    pub time_status: u8,
    /// GPS reference week.
    pub week: u16,
    /// Milliseconds into the week.
    pub ms: i32,
    /// Receiver status word.
    pub recv_status: u32,
    /// Receiver software build.
    pub recv_sw_ver: u16,
}

/// The header that the first 28 bytes of `s` spell out.
pub open spec fn header_of(s: Seq<u8>) -> Header {
    Header {
        sync: [s[0], s[1], s[2]],
        hdr_len: s[3],
        msg_id: MessageID::of_code(u16_at(s, 4)),
        msg_type: s[6],
        port_addr: s[7],
        msg_len: u16_at(s, 8),
        seq: u16_at(s, 10),
        idle_time: s[12],
        time_status: s[13],
        week: u16_at(s, 14),
        ms: signed32(u32_at(s, 16)),
        recv_status: u32_at(s, 20),
        recv_sw_ver: u16_at(s, 26),
    }
}

impl Header {
    /// The header of a frame sent to the receiver: everything the receiver
    /// fills in on its own frames is zero.
    pub open spec fn outbound(msg_id: MessageID, msg_len: u16) -> Header {
        Header {
            sync: SYNC,
            hdr_len: HDR_LEN,
            msg_id,
            msg_type: 0,
            port_addr: 0,
            msg_len,
            seq: 0,
            idle_time: 0,
            time_status: 0,
            week: 0,
            ms: 0,
            recv_status: 0,
            recv_sw_ver: 0,
        }
    }

    /// The header of a frame that goes out with message `msg_id` and a body
    /// of `msg_len` bytes.
    pub fn new(msg_id: MessageID, msg_len: u16) -> (hdr: Header)
        ensures
            hdr == Self::outbound(msg_id, msg_len),
    {
        Header {
            sync: SYNC,
            hdr_len: HDR_LEN,
            msg_id,
            msg_type: 0,
            port_addr: 0,
            msg_len,
            seq: 0,
            idle_time: 0,
            time_status: 0,
            week: 0,
            ms: 0,
            recv_status: 0,
            recv_sw_ver: 0,
        }
    }

    /// Whether the frame is the reply to a command rather than a log.
    pub open spec fn is_response_spec(&self) -> bool {
        self.msg_type >= RESPONSE_BIT
    }

    /// Whether the frame is the reply to a command rather than a log.
    #[verifier::when_used_as_spec(is_response_spec)]
    pub fn is_response(&self) -> (r: bool)
        ensures
            r == self.is_response_spec(),
    {
        let kind: u8 = self.msg_type;
        assert((kind & 0x80 == 0x80) == (kind >= 0x80)) by (bit_vector);
        kind & RESPONSE_BIT == RESPONSE_BIT
    }

    /// Whether the header opens with the sync marker.
    pub open spec fn has_sync_spec(&self) -> bool {
        self.sync[0] == SYNC[0] && self.sync[1] == SYNC[1] && self.sync[2] == SYNC[2]
    }

    /// Whether the header opens with the sync marker.
    #[verifier::when_used_as_spec(has_sync_spec)]
    pub fn has_sync(&self) -> (r: bool)
        ensures
            r == self.has_sync_spec(),
    {
        self.sync[0] == SYNC[0] && self.sync[1] == SYNC[1] && self.sync[2] == SYNC[2]
    }

    /// Reads a header from the front of `raw`. Bytes after the header are
    /// not looked at, and neither the sync marker nor the stated header
    /// length is judged here.
    pub fn parse(raw: &[u8]) -> (hdr: Option<Header>)
        ensures
            hdr == if raw@.len() >= HDR_LEN {
                Some(header_of(raw@))
            } else {
                None
            },
    {
        if raw.len() < HDR_LEN as usize {
            return None;
        }
        let ms_bits: u32 = read_u32(raw, 16);
        let ms: i32 = if ms_bits < 0x8000_0000 {
            ms_bits as i32
        } else {
            (ms_bits as i64 - 0x1_0000_0000) as i32
        };
        Some(
            Header {
                sync: [read_u8(raw, 0), read_u8(raw, 1), read_u8(raw, 2)],
                hdr_len: read_u8(raw, 3),
                msg_id: MessageID::from_code(read_u16(raw, 4)),
                msg_type: read_u8(raw, 6),
                port_addr: read_u8(raw, 7),
                msg_len: read_u16(raw, 8),
                seq: read_u16(raw, 10),
                idle_time: read_u8(raw, 12),
                time_status: read_u8(raw, 13),
                week: read_u16(raw, 14),
                ms,
                recv_status: read_u32(raw, 20),
                recv_sw_ver: read_u16(raw, 26),
            },
        )
    }
}

impl Message for Header {
    /// The 28 bytes that carry this header. The two reserved bytes before the
    /// software build are sent as zero.
    open spec fn wire(&self) -> Seq<u8> {
        seq![self.sync[0], self.sync[1], self.sync[2], self.hdr_len]
            + u16_bytes(self.msg_id.code_spec())
            + seq![self.msg_type, self.port_addr]
            + u16_bytes(self.msg_len)
            + u16_bytes(self.seq)
            + seq![self.idle_time, self.time_status]
            + u16_bytes(self.week)
            + u32_bytes(unsigned32(self.ms))
            + u32_bytes(self.recv_status)
            + u16_bytes(0)
            + u16_bytes(self.recv_sw_ver)
    }

    fn serialize(&self) -> (raw: Vec<u8>) {
        let mut raw: Vec<u8> = Vec::new();
        raw.push(self.sync[0]);
        raw.push(self.sync[1]);
        raw.push(self.sync[2]);
        raw.push(self.hdr_len);
        assert(raw@ == seq![self.sync[0], self.sync[1], self.sync[2], self.hdr_len]);
        byteorder_write_u16(&mut raw, self.msg_id.code());
        raw.push(self.msg_type);
        raw.push(self.port_addr);
        assert(raw@ == seq![self.sync[0], self.sync[1], self.sync[2], self.hdr_len]
            + u16_bytes(self.msg_id.code_spec())
            + seq![self.msg_type, self.port_addr]);
        byteorder_write_u16(&mut raw, self.msg_len);
        byteorder_write_u16(&mut raw, self.seq);
        let ghost before = raw@;
        raw.push(self.idle_time);
        raw.push(self.time_status);
        assert(raw@ == before + seq![self.idle_time, self.time_status]);
        byteorder_write_u16(&mut raw, self.week);
        let ms_bits: u32 = if self.ms >= 0 {
            self.ms as u32
        } else {
            (self.ms as i64 + 0x1_0000_0000) as u32
        };
        byteorder_write_u32(&mut raw, ms_bits);
        byteorder_write_u32(&mut raw, self.recv_status);
        byteorder_write_u16(&mut raw, 0);
        byteorder_write_u16(&mut raw, self.recv_sw_ver);
        raw
    }
}

/// A header's wire form is always 28 bytes long.
pub proof fn lemma_wire_len(hdr: Header)
    ensures
        hdr.wire().len() == HDR_LEN,
{
}

/// Writing a header and reading it back gives the header again, whatever
/// follows it on the wire.
#[verifier::rlimit(50)]
pub proof fn law_header_round_trip(hdr: Header, rest: Seq<u8>)
    requires
        hdr.msg_id.wf(),
    ensures
        header_of(hdr.wire() + rest) == hdr,
{
    let s = hdr.wire() + rest;
    let w = hdr.wire();
    assert(w.len() == 28);
    assert forall|i: int| 0 <= i < 28 implies s[i] == w[i] by {}
    lemma_u16_round_trip(hdr.msg_id.code_spec());
    lemma_u16_round_trip(hdr.msg_len);
    lemma_u16_round_trip(hdr.seq);
    lemma_u16_round_trip(hdr.week);
    lemma_u16_round_trip(hdr.recv_sw_ver);
    lemma_u32_round_trip(unsigned32(hdr.ms));
    lemma_u32_round_trip(hdr.recv_status);
    assert(u16_at(s, 4) == hdr.msg_id.code_spec());
    assert(u16_at(s, 8) == hdr.msg_len);
    assert(u16_at(s, 10) == hdr.seq);
    assert(u16_at(s, 14) == hdr.week);
    assert(u32_at(s, 16) == unsigned32(hdr.ms));
    assert(u32_at(s, 20) == hdr.recv_status);
    assert(u16_at(s, 26) == hdr.recv_sw_ver);
    assert(signed32(unsigned32(hdr.ms)) == hdr.ms);
    let back = header_of(s);
    assert(back.sync =~= hdr.sync);
}

} // verus!
