//! Requests sent to the receiver.

use crate::message::Message;
use crate::header::{
    header_of, law_header_round_trip, lemma_wire_len, Header, MessageID, HDR_LEN,
};
use crate::wire::{
    byteorder_write_u16, byteorder_write_u32, byteorder_write_u64, lemma_bytes_len,
    lemma_u16_round_trip,
    lemma_u32_round_trip, lemma_u64_round_trip, read_u16, read_u32, read_u64, read_u8, u16_at,
    u16_bytes, u32_at, u32_bytes, u64_at, u64_bytes,
};
use vstd::prelude::*;

verus! {

/// The length of a log request's body.
pub const LOG_CMD_LEN: u16 = 32;

/// The receiver ports a log can be sent to.
#[derive(Clone, Copy, Debug, PartialEq, Eq, Structural)]
pub enum Port {
    /// No port at all.
    NoPorts,
    /// The first serial port.
    COM1,
    /// The second serial port.
    COM2,
    /// The third serial port.
    COM3,
    /// Whichever port the request arrived on.
    ThisPort,
}

impl Port {
    /// The port's number on the wire.
    pub open spec fn code_spec(self) -> u32 {
        match self {
            Port::NoPorts => 0,
            Port::COM1 => 32,
            Port::COM2 => 64,
            Port::COM3 => 96,
            Port::ThisPort => 192,
        }
    }

    /// The port's number on the wire.
    #[verifier::when_used_as_spec(code_spec)]
    pub fn code(self) -> (code: u32)
        ensures
            code == self.code_spec(),
    {
        match self {
            Port::NoPorts => 0,
            Port::COM1 => 32,
            Port::COM2 => 64,
            Port::COM3 => 96,
            Port::ThisPort => 192,
        }
    }
}

/// When the receiver is to produce a requested log.
#[derive(Clone, Copy, Debug, PartialEq, Eq, Structural)]
pub enum LogTrigger {
    /// Whenever the message is updated.
    OnNew,
    /// Whenever the message changes.
    OnChanged,
    /// At a fixed period.
    OnTime,
    /// Once, at the next update.
    OnNext,
    /// Once, now.
    Once,
    /// On a mark input.
    OnMark,
}

impl LogTrigger {
    /// The trigger's number on the wire.
    pub open spec fn code_spec(self) -> u32 {
        match self {
            LogTrigger::OnNew => 0,
            LogTrigger::OnChanged => 1,
            LogTrigger::OnTime => 2,
            LogTrigger::OnNext => 3,
            LogTrigger::Once => 4,
            LogTrigger::OnMark => 5,
        }
    }

    /// The trigger's number on the wire.
    #[verifier::when_used_as_spec(code_spec)]
    pub fn code(self) -> (code: u32)
        ensures
            code == self.code_spec(),
    {
        match self {
            LogTrigger::OnNew => 0,
            LogTrigger::OnChanged => 1,
            LogTrigger::OnTime => 2,
            LogTrigger::OnNext => 3,
            LogTrigger::Once => 4,
            LogTrigger::OnMark => 5,
        }
    }
}

/// A request that the receiver produce a log.
///
/// `period` and `offset` are seconds as IEEE 754 double-precision numbers;
/// they are held here as the 64 bits that travel.
#[derive(Clone, Copy, Debug, PartialEq, Eq)]
pub struct LogCmd {
    /// The frame header; its message is `Log` and its length is that of the body.
    pub hdr: Header,
    /// Where the log is to be sent.
    pub port: u32,
    /// Which message is asked for.
    pub msg_id: u16,
    /// Format of the requested log; zero asks for binary.
    pub msg_type: u8,
    /// Sent as it is held; zero in every request built here.
    pub reserved: u8,
    /// When the log is to be produced.
    pub trigger: u32,
    /// Bits of the period between logs.
    pub period: u64,
    /// Bits of the offset of the first log.
    pub offset: u64,
    /// Non-zero keeps the log through an "unlog all".
    pub hold: u32,
}

/// The request that the first 60 bytes of `s` spell out.
pub open spec fn log_cmd_of(s: Seq<u8>) -> LogCmd {
    LogCmd {
        hdr: header_of(s),
        port: u32_at(s, 28),
        msg_id: u16_at(s, 32),
        msg_type: s[34],
        reserved: s[35],
        trigger: u32_at(s, 36),
        period: u64_at(s, 40),
        offset: u64_at(s, 48),
        hold: u32_at(s, 56),
    }
}

impl LogCmd {
    /// The request that `new` builds.
    pub open spec fn request(
        port: u32,
        msg_id: u16,
        trigger: u32,
        period: u64,
        offset: u64,
        hold: bool,
    ) -> LogCmd {
        LogCmd {
            hdr: Header::outbound(MessageID::Log, LOG_CMD_LEN),
            port,
            msg_id,
            msg_type: 0,
            reserved: 0,
            trigger,
            period,
            offset,
            hold: if hold {
                1
            } else {
                0
            },
        }
    }

    /// A request that the log `msg_id` be sent to `port` as `trigger` says.
    /// `period` and `offset` are the bits of two doubles.
    pub fn new(port: u32, msg_id: u16, trigger: u32, period: u64, offset: u64, hold: bool) -> (cmd:
        LogCmd)
        ensures
            cmd == Self::request(port, msg_id, trigger, period, offset, hold),
    {
        LogCmd {
            hdr: Header::new(MessageID::Log, LOG_CMD_LEN),
            port,
            msg_id,
            msg_type: 0,
            reserved: 0,
            trigger,
            period,
            offset,
            hold: if hold {
                1
            } else {
                0
            },
        }
    }

    /// The 32 bytes of the body, in the order they travel.
    pub open spec fn body_wire(self) -> Seq<u8> {
        u32_bytes(self.port) + u16_bytes(self.msg_id) + seq![self.msg_type, self.reserved]
            + u32_bytes(self.trigger) + u64_bytes(self.period) + u64_bytes(self.offset)
            + u32_bytes(self.hold)
    }

    /// Reads a request from the front of `raw`; bytes after it are not
    /// looked at.
    pub fn parse(raw: &[u8]) -> (cmd: Option<LogCmd>)
        ensures
            cmd == if raw@.len() >= HDR_LEN + LOG_CMD_LEN {
                Some(log_cmd_of(raw@))
            } else {
                None
            },
    {
        if raw.len() < HDR_LEN as usize + LOG_CMD_LEN as usize {
            return None;
        }
        match Header::parse(raw) {
            None => None,
            Some(hdr) => Some(
                LogCmd {
                    hdr,
                    port: read_u32(raw, 28),
                    msg_id: read_u16(raw, 32),
                    msg_type: read_u8(raw, 34),
                    reserved: read_u8(raw, 35),
                    trigger: read_u32(raw, 36),
                    period: read_u64(raw, 40),
                    offset: read_u64(raw, 48),
                    hold: read_u32(raw, 56),
                },
            ),
        }
    }
}

impl Message for LogCmd {
    /// Header and body as they travel, without the closing check value.
    open spec fn wire(&self) -> Seq<u8> {
        self.hdr.wire() + self.body_wire()
    }

    fn serialize(&self) -> (raw: Vec<u8>) {
        let mut raw: Vec<u8> = self.hdr.serialize();
        let ghost head = raw@;
        byteorder_write_u32(&mut raw, self.port);
        byteorder_write_u16(&mut raw, self.msg_id);
        let ghost before = raw@;
        raw.push(self.msg_type);
        raw.push(self.reserved);
        assert(raw@ == before + seq![self.msg_type, self.reserved]);
        byteorder_write_u32(&mut raw, self.trigger);
        byteorder_write_u64(&mut raw, self.period);
        byteorder_write_u64(&mut raw, self.offset);
        byteorder_write_u32(&mut raw, self.hold);
        assert(raw@ == head + self.body_wire());
        raw
    }
}

/// A request's wire form is always 60 bytes long.
pub proof fn lemma_log_cmd_wire_len(cmd: LogCmd)
    ensures
        cmd.wire().len() == HDR_LEN + LOG_CMD_LEN,
        cmd.body_wire().len() == LOG_CMD_LEN,
{
    lemma_bytes_len(0, 0, cmd.period);
    lemma_bytes_len(0, 0, cmd.offset);
    let head = u32_bytes(cmd.port) + u16_bytes(cmd.msg_id) + seq![cmd.msg_type, cmd.reserved]
        + u32_bytes(cmd.trigger);
    assert(head.len() == 12);
    assert(cmd.body_wire() == head + u64_bytes(cmd.period) + u64_bytes(cmd.offset) + u32_bytes(
        cmd.hold,
    ));
    lemma_wire_len(cmd.hdr);
}

/// Writing a request and reading it back gives the request again: port,
/// message, trigger and every other field, whatever follows on the wire.
#[verifier::rlimit(50)]
pub proof fn law_log_cmd_round_trip(cmd: LogCmd, rest: Seq<u8>)
    requires
        cmd.hdr.msg_id.wf(),
    ensures
        log_cmd_of(cmd.wire() + rest) == cmd,
{
    let s = cmd.wire() + rest;
    let b = cmd.body_wire();
    lemma_log_cmd_wire_len(cmd);
    assert(s == cmd.hdr.wire() + (b + rest));
    law_header_round_trip(cmd.hdr, b + rest);
    assert(cmd.hdr.wire().len() == 28);
    assert forall|i: int| 0 <= i < 32 implies s[28 + i] == b[i] by {}
    lemma_u32_round_trip(cmd.port);
    lemma_u16_round_trip(cmd.msg_id);
    lemma_u32_round_trip(cmd.trigger);
    lemma_u64_round_trip(cmd.period);
    lemma_u64_round_trip(cmd.offset);
    lemma_u32_round_trip(cmd.hold);
    let p = u64_bytes(cmd.period);
    let o = u64_bytes(cmd.offset);
    assert forall|i: int| 0 <= i < 8 implies b[12 + i] == p[i] && b[20 + i] == o[i] by {}
    assert(u32_at(s, 28) == cmd.port);
    assert(u16_at(s, 32) == cmd.msg_id);
    assert(u32_at(s, 36) == cmd.trigger);
    assert(u32_at(s, 40) == u32_at(p, 0) && u32_at(s, 44) == u32_at(p, 4));
    assert(u32_at(s, 48) == u32_at(o, 0) && u32_at(s, 52) == u32_at(o, 4));
    assert(u64_at(s, 40) == cmd.period);
    assert(u64_at(s, 48) == cmd.offset);
    assert(u32_at(s, 56) == cmd.hold);
}

} // verus!
