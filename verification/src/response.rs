//! The receiver's replies to commands.

use crate::text::{string_from_utf8, text_of};
use crate::wire::{read_u32, u32_at};
use vstd::prelude::*;

verus! {

/// What the receiver made of a command.
#[derive(Clone, Copy, Debug, PartialEq, Eq, Structural)]
pub enum ResponseID {
    /// The command was accepted.
    Accepted,
    /// The requested log does not exist.
    LogDoesNotExist,
    /// The receiver lacks the resources to do as asked.
    InsufficientResources,
    /// A data packet did not verify.
    PacketNotVerified,
    /// The command was tried and failed.
    CommandFailed,
    /// The message number is not valid.
    InvalidID,
    /// A field of the message is not valid.
    InvalidField,
    /// The check value of the command was wrong.
    InvalidChecksum,
    /// The message lacks a field.
    MissingField,
    /// An array field holds more than it may.
    ArrayOverflow,
    /// A parameter is out of its range.
    ErrorField,
    /// The trigger is not valid for the log.
    InvalidTrigger,
    /// Any other reply, with its number.
    Other(u32),
}

impl ResponseID {
    /// The reply that a wire number stands for.
    pub open spec fn of_code(code: u32) -> ResponseID {
        if code == 1 {
            ResponseID::Accepted
        } else if code == 2 {
            ResponseID::LogDoesNotExist
        } else if code == 3 {
            ResponseID::InsufficientResources
        } else if code == 4 {
            ResponseID::PacketNotVerified
        } else if code == 5 {
            ResponseID::CommandFailed
        } else if code == 6 {
            ResponseID::InvalidID
        } else if code == 7 {
            ResponseID::InvalidField
        } else if code == 8 {
            ResponseID::InvalidChecksum
        } else if code == 9 {
            ResponseID::MissingField
        } else if code == 10 {
            ResponseID::ArrayOverflow
        } else if code == 11 {
            ResponseID::ErrorField
        } else if code == 14 {
            ResponseID::InvalidTrigger
        } else {
            ResponseID::Other(code)
        }
    }

    /// The number that stands for this reply on the wire.
    pub open spec fn code_spec(self) -> u32 {
        match self {
            ResponseID::Accepted => 1,
            ResponseID::LogDoesNotExist => 2,
            ResponseID::InsufficientResources => 3,
            ResponseID::PacketNotVerified => 4,
            ResponseID::CommandFailed => 5,
            ResponseID::InvalidID => 6,
            ResponseID::InvalidField => 7,
            ResponseID::InvalidChecksum => 8,
            ResponseID::MissingField => 9,
            ResponseID::ArrayOverflow => 10,
            ResponseID::ErrorField => 11,
            ResponseID::InvalidTrigger => 14,
            ResponseID::Other(raw) => raw,
        }
    }

    /// The reply that a wire number stands for.
    pub fn from_code(code: u32) -> (id: ResponseID)
        ensures
            id == Self::of_code(code),
            id.code_spec() == code,
    {
        match code {
            1 => ResponseID::Accepted,
            2 => ResponseID::LogDoesNotExist,
            3 => ResponseID::InsufficientResources,
            4 => ResponseID::PacketNotVerified,
            5 => ResponseID::CommandFailed,
            6 => ResponseID::InvalidID,
            7 => ResponseID::InvalidField,
            8 => ResponseID::InvalidChecksum,
            9 => ResponseID::MissingField,
            10 => ResponseID::ArrayOverflow,
            11 => ResponseID::ErrorField,
            14 => ResponseID::InvalidTrigger,
            _ => ResponseID::Other(code),
        }
    }

    /// The number that stands for this reply on the wire.
    #[verifier::when_used_as_spec(code_spec)]
    pub fn code(self) -> (code: u32)
        ensures
            code == self.code_spec(),
    {
        match self {
            ResponseID::Accepted => 1,
            ResponseID::LogDoesNotExist => 2,
            ResponseID::InsufficientResources => 3,
            ResponseID::PacketNotVerified => 4,
            ResponseID::CommandFailed => 5,
            ResponseID::InvalidID => 6,
            ResponseID::InvalidField => 7,
            ResponseID::InvalidChecksum => 8,
            ResponseID::MissingField => 9,
            ResponseID::ArrayOverflow => 10,
            ResponseID::ErrorField => 11,
            ResponseID::InvalidTrigger => 14,
            ResponseID::Other(raw) => raw,
        }
    }
}

/// The body of a response frame.
#[derive(Clone, Debug, PartialEq, Eq)]
pub struct Response {
    /// The receiver's verdict.
    pub resp_id: ResponseID,
    /// The verdict in words.
    pub resp_string: String,
}

/// The text that follows the four-byte verdict, where the body holds a
/// verdict and the rest is well-formed UTF-8.
pub open spec fn response_text(body: Seq<u8>) -> Option<Seq<char>> {
    if body.len() >= 4 {
        text_of(body.subrange(4, body.len() as int))
    } else {
        None
    }
}

impl Response {
    /// Decodes a response body: a four-byte verdict, then text to the end.
    pub fn new(body: Vec<u8>) -> (resp: Option<Response>)
        ensures
            resp is Some <==> response_text(body@) is Some,
            resp matches Some(r) ==> {
                &&& r.resp_id == ResponseID::of_code(u32_at(body@, 0))
                &&& r.resp_string@ == response_text(body@)->0
            },
    {
        let mut verdict: Vec<u8> = body;
        if verdict.len() < 4 {
            return None;
        }
        let text: Vec<u8> = verdict.split_off(4);
        let code: u32 = read_u32(verdict.as_slice(), 0);
        match string_from_utf8(text) {
            None => None,
            Some(resp_string) => Some(Response { resp_id: ResponseID::from_code(code), resp_string }),
        }
    }
}

} // verus!
