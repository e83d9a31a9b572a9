use device_frames::capture::{first_log, first_response, read_frame};
use device_frames::resync::{find_frame, Scanner};
use device_frames::command::{LogCmd, LogTrigger, Port, LOG_CMD_LEN};
use device_frames::crc32::{calc_crc, crc32_value, CRC32_POLYNOMIAL};
use device_frames::header::{Header, MessageID, HDR_LEN, RESPONSE_BIT, SYNC};
use device_frames::logs::{BestXYZLog, Component, Log, VersionLog};
use device_frames::message::Message;
use device_frames::oem6::{check_log, check_response, known_log, seal, OEMError, Request, OEM6};
use device_frames::response::{Response, ResponseID};

const RESPONSE_OK: [u8; 38] = [
    0xAA, 0x44, 0x12, 0x1C, 0x01, 0x00, 0x80, 0x20, 0x06, 0x00, 0x00, 0x00,
    0x5A, 0xB4, 0x91, 0x07, 0x15, 0xCD, 0x5B, 0x07, 0x20, 0x00, 0x40, 0x00,
    0x00, 0x00, 0x39, 0x30, 0x01, 0x00, 0x00, 0x00, 0x4F, 0x4B, 0xF0, 0xEC,
    0x7C, 0xEB,
];

const RESPONSE_BAD_TRIGGER: [u8; 71] = [
    0xAA, 0x44, 0x12, 0x1C, 0x01, 0x00, 0x80, 0x20, 0x27, 0x00, 0x00, 0x00,
    0x5A, 0xB4, 0x91, 0x07, 0x15, 0xCD, 0x5B, 0x07, 0x20, 0x00, 0x40, 0x00,
    0x00, 0x00, 0x39, 0x30, 0x0E, 0x00, 0x00, 0x00, 0x54, 0x52, 0x49, 0x47,
    0x47, 0x45, 0x52, 0x20, 0x4F, 0x4E, 0x43, 0x45, 0x20, 0x4E, 0x4F, 0x54,
    0x20, 0x56, 0x41, 0x4C, 0x49, 0x44, 0x20, 0x46, 0x4F, 0x52, 0x20, 0x54,
    0x48, 0x49, 0x53, 0x20, 0x4C, 0x4F, 0x47, 0xB9, 0x6D, 0x46, 0xA5,
];

const VERSION_LOG: [u8; 252] = [
    0xAA, 0x44, 0x12, 0x1C, 0x25, 0x00, 0x00, 0x20, 0xDC, 0x00, 0x00, 0x00,
    0x5A, 0xB4, 0x91, 0x07, 0xFB, 0xFF, 0xFF, 0xFF, 0x20, 0x00, 0x40, 0x00,
    0x00, 0x00, 0x39, 0x30, 0x02, 0x00, 0x00, 0x00, 0x01, 0x00, 0x00, 0x00,
    0x4F, 0x45, 0x4D, 0x36, 0x31, 0x35, 0x00, 0x00, 0x00, 0x00, 0x00, 0x00,
    0x00, 0x00, 0x00, 0x00, 0x42, 0x46, 0x4E, 0x31, 0x30, 0x32, 0x36, 0x30,
    0x30, 0x32, 0x36, 0x00, 0x00, 0x00, 0x00, 0x00, 0x4F, 0x45, 0x4D, 0x36,
    0x31, 0x35, 0x2D, 0x31, 0x2E, 0x30, 0x30, 0x00, 0x00, 0x00, 0x00, 0x00,
    0x4F, 0x45, 0x4D, 0x30, 0x36, 0x30, 0x36, 0x30, 0x30, 0x52, 0x4E, 0x30,
    0x30, 0x30, 0x30, 0x00, 0x4F, 0x45, 0x4D, 0x30, 0x36, 0x30, 0x32, 0x30,
    0x31, 0x52, 0x42, 0x30, 0x30, 0x30, 0x30, 0x00, 0x32, 0x30, 0x31, 0x35,
    0x2F, 0x4A, 0x61, 0x6E, 0x2F, 0x32, 0x38, 0x00, 0x31, 0x35, 0x3A, 0x32,
    0x37, 0x3A, 0x32, 0x39, 0x00, 0x00, 0x00, 0x00, 0x03, 0x00, 0x00, 0x00,
    0x00, 0x00, 0x00, 0x00, 0x00, 0x00, 0x00, 0x00, 0x00, 0x00, 0x00, 0x00,
    0x00, 0x00, 0x00, 0x00, 0x00, 0x00, 0x00, 0x00, 0x00, 0x00, 0x00, 0x00,
    0x00, 0x00, 0x00, 0x00, 0x00, 0x00, 0x00, 0x00, 0x00, 0x00, 0x00, 0x00,
    0x00, 0x00, 0x00, 0x00, 0x00, 0x00, 0x00, 0x00, 0x00, 0x00, 0x00, 0x00,
    0x78, 0x78, 0x78, 0x78, 0x78, 0x78, 0x78, 0x78, 0x78, 0x78, 0x78, 0x78,
    0x78, 0x78, 0x78, 0x78, 0x00, 0x00, 0x00, 0x00, 0x00, 0x00, 0x00, 0x00,
    0x00, 0x00, 0x00, 0x00, 0x00, 0x00, 0x00, 0x00, 0x79, 0x79, 0x79, 0x79,
    0x79, 0x79, 0x79, 0x79, 0x79, 0x79, 0x79, 0x79, 0x00, 0x00, 0x00, 0x00,
    0x00, 0x00, 0x00, 0x00, 0x00, 0x00, 0x00, 0x00, 0xDE, 0x54, 0x20, 0x14,
];

const BESTXYZ_LOG: [u8; 144] = [
    0xAA, 0x44, 0x12, 0x1C, 0xF1, 0x00, 0x00, 0x20, 0x70, 0x00, 0x00, 0x00,
    0x5A, 0xB4, 0x91, 0x07, 0x15, 0xCD, 0x5B, 0x07, 0x20, 0x00, 0x40, 0x00,
    0x00, 0x00, 0x39, 0x30, 0x00, 0x00, 0x00, 0x00, 0x10, 0x00, 0x00, 0x00,
    0xDA, 0x1B, 0x7C, 0x91, 0xE3, 0xF0, 0x38, 0xC1, 0x9F, 0x3C, 0x2C, 0x04,
    0x75, 0xF5, 0x4B, 0xC1, 0x68, 0x91, 0xED, 0x14, 0xA8, 0xDA, 0x52, 0x41,
    0x9C, 0x33, 0x22, 0x3C, 0xA1, 0x67, 0xB3, 0x3C, 0x7F, 0x6A, 0x3C, 0x3C,
    0x00, 0x00, 0x00, 0x00, 0x08, 0x00, 0x00, 0x00, 0x2F, 0x6E, 0xA3, 0x01,
    0xBC, 0x05, 0x52, 0x3F, 0x6E, 0xA3, 0x01, 0xBC, 0x05, 0x12, 0x74, 0xBF,
    0x2D, 0x43, 0x1C, 0xEB, 0xE2, 0x36, 0x1A, 0xBF, 0x53, 0x05, 0xA3, 0x3C,
    0x7D, 0xD0, 0x33, 0x3D, 0x7F, 0x6A, 0xBC, 0x3C, 0x41, 0x41, 0x41, 0x41,
    0x00, 0x00, 0x80, 0x3E, 0x00, 0x00, 0x80, 0x3F, 0x00, 0x00, 0x00, 0x00,
    0x0C, 0x0B, 0x0B, 0x0B, 0x00, 0x01, 0x00, 0x33, 0x34, 0xC4, 0x3D, 0xDB,
];

const UNKNOWN_LOG: [u8; 42] = [
    0xAA, 0x44, 0x12, 0x1C, 0x2A, 0x00, 0x00, 0x20, 0x0A, 0x00, 0x00, 0x00,
    0x5A, 0xB4, 0x91, 0x07, 0x15, 0xCD, 0x5B, 0x07, 0x20, 0x00, 0x40, 0x00,
    0x00, 0x00, 0x39, 0x30, 0x00, 0x01, 0x02, 0x03, 0x04, 0x05, 0x06, 0x07,
    0x08, 0x09, 0x02, 0x9D, 0x72, 0xF0,
];

const EMPTY_LOG: [u8; 32] = [
    0xAA, 0x44, 0x12, 0x1C, 0xD2, 0x04, 0x20, 0x20, 0x00, 0x00, 0x00, 0x00,
    0x5A, 0xB4, 0x91, 0x07, 0x15, 0xCD, 0x5B, 0x07, 0x20, 0x00, 0x40, 0x00,
    0x00, 0x00, 0x39, 0x30, 0xD2, 0xF7, 0x8B, 0xF7,
];

const VERSION_REQUEST: [u8; 64] = [
    0xAA, 0x44, 0x12, 0x1C, 0x01, 0x00, 0x00, 0x00, 0x20, 0x00, 0x00, 0x00,
    0x00, 0x00, 0x00, 0x00, 0x00, 0x00, 0x00, 0x00, 0x00, 0x00, 0x00, 0x00,
    0x00, 0x00, 0x00, 0x00, 0x20, 0x00, 0x00, 0x00, 0x25, 0x00, 0x00, 0x00,
    0x04, 0x00, 0x00, 0x00, 0x00, 0x00, 0x00, 0x00, 0x00, 0x00, 0x00, 0x00,
    0x00, 0x00, 0x00, 0x00, 0x00, 0x00, 0x00, 0x00, 0x00, 0x00, 0x00, 0x00,
    0x85, 0x0D, 0xC2, 0x89,
];

/// The header that every frame above carries, but for message, type and length.
fn received(msg_id: MessageID, msg_type: u8, msg_len: u16) -> Header {
    Header {
        sync: SYNC,
        hdr_len: HDR_LEN,
        msg_id,
        msg_type,
        port_addr: 0x20,
        msg_len,
        seq: 0,
        idle_time: 0x5A,
        time_status: 0xB4,
        week: 1937,
        ms: 123456789,
        recv_status: 0x00400020,
        recv_sw_ver: 12345,
    }
}

/// A frame around `body`, built by the library.
fn frame(msg_id: MessageID, msg_type: u8, body: &[u8]) -> Vec<u8> {
    let mut raw = received(msg_id, msg_type, body.len() as u16).serialize();
    raw.extend_from_slice(body);
    seal(raw)
}

/// Serves the engine's reads from `stream` until `get_log` yields a log or
/// the stream runs dry.
fn drive_get_log(stream: &[u8]) -> Option<(Log, usize)> {
    let mut oem = OEM6::new();
    let mut at = 0;
    loop {
        let n = oem.wanted();
        if stream.len() - at < n {
            return None;
        }
        let data = stream[at..at + n].to_vec();
        at += n;
        if let Some(log) = oem.get_log(data) {
            return Some((log, at));
        }
    }
}

fn drive_get_response(stream: &[u8], expected: MessageID) -> Option<Result<(), OEMError>> {
    let mut oem = OEM6::new();
    let mut at = 0;
    loop {
        let n = oem.wanted();
        if stream.len() - at < n {
            return None;
        }
        let data = stream[at..at + n].to_vec();
        at += n;
        if let Some(verdict) = oem.get_response(expected, data) {
            return Some(verdict);
        }
    }
}

fn text(s: &str) -> String {
    String::from(s)
}

fn expected_version() -> VersionLog {
    VersionLog {
        num_components: 2,
        components: vec![
            Component {
                comp_type: 1,
                model: text("OEM615"),
                serial_num: text("BFN10260026"),
                hw_version: text("OEM615-1.00"),
                sw_version: text("OEM060600RN0000"),
                boot_version: text("OEM060201RB0000"),
                compile_date: text("2015/Jan/28"),
                compile_time: text("15:27:29"),
            },
            Component {
                comp_type: 3,
                model: text(""),
                serial_num: text(""),
                hw_version: text(""),
                sw_version: text("xxxxxxxxxxxxxxxx"),
                boot_version: text(""),
                compile_date: text("yyyyyyyyyyyy"),
                compile_time: text(""),
            },
        ],
    }
}

fn expected_best_xyz() -> BestXYZLog {
    BestXYZLog {
        pos_status: 0,
        pos_type: 16,
        position: [
            (-1634531.5683f64).to_bits(),
            (-3664618.0326f64).to_bits(),
            4942496.3270f64.to_bits(),
        ],
        pos_deviation: [0.0099f32.to_bits(), 0.0219f32.to_bits(), 0.0115f32.to_bits()],
        vel_status: 0,
        vel_type: 8,
        velocity: [0.0011f64.to_bits(), (-0.0049f64).to_bits(), (-0.0001f64).to_bits()],
        vel_deviation: [0.0199f32.to_bits(), 0.0439f32.to_bits(), 0.0230f32.to_bits()],
        station_id: [0x41, 0x41, 0x41, 0x41],
        vel_latency: 0.250f32.to_bits(),
        diff_age: 1.0f32.to_bits(),
        sol_age: 0.0f32.to_bits(),
        num_sats: 12,
        num_sol_sats: 11,
        num_l1_sats: 11,
        num_multi_sats: 11,
        ext_sol_status: 0x01,
        gal_bds_mask: 0,
        gps_glo_mask: 0x33,
    }
}

#[test]
fn crc_known_values() {
    assert_eq!(CRC32_POLYNOMIAL, 0xEDB88320);
    assert_eq!(calc_crc(&[]), 0);
    assert_eq!(calc_crc(&[0]), 0);
    assert_eq!(calc_crc(&[1]), 0x77073096);
    assert_eq!(calc_crc(b"a"), 0x3AB551CE);
    assert_eq!(calc_crc(b"123456789"), 0x2DFD2D88);
    assert_eq!(calc_crc(&VERSION_REQUEST[..60]), 0x89C20D85);
}

#[test]
fn crc_single_byte_values() {
    assert_eq!(crc32_value(0), 0);
    assert_eq!(crc32_value(1), 0x77073096);
    assert_eq!(crc32_value(0x80), 0xEDB88320);
    assert_eq!(crc32_value(0xFF), 0x2D02EF8D);
}

#[test]
fn crc_of_a_sealed_message_is_zero() {
    for frame in [&RESPONSE_OK[..], &VERSION_LOG[..], &BESTXYZ_LOG[..], &EMPTY_LOG[..]] {
        assert_eq!(calc_crc(frame), 0);
    }
    let sealed = seal(b"any message at all".to_vec());
    assert_eq!(calc_crc(&sealed), 0);
}

#[test]
fn crc_changes_with_any_one_byte() {
    let good = calc_crc(&BESTXYZ_LOG[..140]);
    for at in 0..140 {
        for bit in 0..8 {
            let mut bad = BESTXYZ_LOG[..140].to_vec();
            bad[at] ^= 1 << bit;
            assert_ne!(calc_crc(&bad), good);
        }
    }
}

#[test]
fn message_ids() {
    let known = [
        (1u16, MessageID::Log),
        (36, MessageID::Unlog),
        (37, MessageID::Version),
        (38, MessageID::UnlogAll),
        (241, MessageID::BestXYZ),
    ];
    for code in 0..=u16::MAX {
        let id = MessageID::from_code(code);
        assert_eq!(id.code(), code);
        match known.iter().find(|(c, _)| *c == code) {
            Some((_, want)) => assert_eq!(id, *want),
            None => assert_eq!(id, MessageID::Unknown(code)),
        }
    }
}

#[test]
fn response_ids() {
    let known = [
        (1u32, ResponseID::Accepted),
        (2, ResponseID::LogDoesNotExist),
        (3, ResponseID::InsufficientResources),
        (4, ResponseID::PacketNotVerified),
        (5, ResponseID::CommandFailed),
        (6, ResponseID::InvalidID),
        (7, ResponseID::InvalidField),
        (8, ResponseID::InvalidChecksum),
        (9, ResponseID::MissingField),
        (10, ResponseID::ArrayOverflow),
        (11, ResponseID::ErrorField),
        (14, ResponseID::InvalidTrigger),
    ];
    for code in (0..40u32).chain([u32::MAX]) {
        let id = ResponseID::from_code(code);
        assert_eq!(id.code(), code);
        match known.iter().find(|(c, _)| *c == code) {
            Some((_, want)) => assert_eq!(id, *want),
            None => assert_eq!(id, ResponseID::Other(code)),
        }
    }
}

#[test]
fn ports_and_triggers() {
    assert_eq!(Port::NoPorts.code(), 0);
    assert_eq!(Port::COM1.code(), 32);
    assert_eq!(Port::COM2.code(), 64);
    assert_eq!(Port::COM3.code(), 96);
    assert_eq!(Port::ThisPort.code(), 192);
    assert_eq!(LogTrigger::OnNew.code(), 0);
    assert_eq!(LogTrigger::OnChanged.code(), 1);
    assert_eq!(LogTrigger::OnTime.code(), 2);
    assert_eq!(LogTrigger::OnNext.code(), 3);
    assert_eq!(LogTrigger::Once.code(), 4);
    assert_eq!(LogTrigger::OnMark.code(), 5);
}

#[test]
fn header_constants() {
    assert_eq!(SYNC, [0xAA, 0x44, 0x12]);
    assert_eq!(HDR_LEN, 28);
    assert_eq!(RESPONSE_BIT, 0x80);
    assert_eq!(LOG_CMD_LEN, 32);
}

#[test]
fn header_is_parsed_field_by_field() {
    let hdr = Header::parse(&RESPONSE_OK).unwrap();
    assert_eq!(hdr, received(MessageID::Log, 0x80, 6));
    assert!(hdr.is_response());
    assert!(hdr.has_sync());

    let hdr = Header::parse(&VERSION_LOG[..28]).unwrap();
    let mut want = received(MessageID::Version, 0, 220);
    want.ms = -5;
    assert_eq!(hdr, want);
    assert!(!hdr.is_response());

    let hdr = Header::parse(&EMPTY_LOG).unwrap();
    assert_eq!(hdr, received(MessageID::Unknown(1234), 0x20, 0));
    assert!(!hdr.is_response());
}

#[test]
fn header_needs_28_bytes() {
    assert_eq!(Header::parse(&[]), None);
    assert_eq!(Header::parse(&RESPONSE_OK[..27]), None);
    assert!(Header::parse(&RESPONSE_OK[..28]).is_some());
}

#[test]
fn header_parse_does_not_judge_sync() {
    let mut raw = RESPONSE_OK;
    raw[0] = 0;
    raw[3] = 99;
    let hdr = Header::parse(&raw).unwrap();
    assert_eq!(hdr.sync, [0, 0x44, 0x12]);
    assert_eq!(hdr.hdr_len, 99);
    assert!(!hdr.has_sync());
}

#[test]
fn response_bit_is_the_top_bit() {
    for kind in 0..=255u8 {
        let hdr = received(MessageID::Log, kind, 0);
        assert_eq!(hdr.is_response(), kind & 0x80 != 0);
    }
}

#[test]
fn header_is_written_as_it_is_read() {
    assert_eq!(received(MessageID::Log, 0x80, 6).serialize(), RESPONSE_OK[..28].to_vec());
    let mut hdr = received(MessageID::Version, 0, 220);
    hdr.ms = -5;
    assert_eq!(hdr.serialize(), VERSION_LOG[..28].to_vec());
    assert_eq!(Header::parse(&hdr.serialize()), Some(hdr));
    let hdr = received(MessageID::Unknown(0xFFFF), 0xFF, 0xFFFF);
    assert_eq!(Header::parse(&hdr.serialize()), Some(hdr));
    let mut hdr = received(MessageID::BestXYZ, 1, 2);
    hdr.ms = i32::MIN;
    hdr.recv_status = u32::MAX;
    assert_eq!(Header::parse(&hdr.serialize()), Some(hdr));
}

#[test]
fn outbound_header() {
    let hdr = Header::new(MessageID::Unlog, 7);
    assert_eq!(
        hdr,
        Header {
            sync: [0xAA, 0x44, 0x12],
            hdr_len: 28,
            msg_id: MessageID::Unlog,
            msg_type: 0,
            port_addr: 0,
            msg_len: 7,
            seq: 0,
            idle_time: 0,
            time_status: 0,
            week: 0,
            ms: 0,
            recv_status: 0,
            recv_sw_ver: 0,
        }
    );
}

#[test]
fn log_request_is_built_as_asked() {
    let cmd = LogCmd::new(32, 37, 4, 0.0f64.to_bits(), 0.0f64.to_bits(), false);
    assert_eq!(cmd.hdr, Header::new(MessageID::Log, 32));
    assert_eq!(cmd.port, 32);
    assert_eq!(cmd.msg_id, 37);
    assert_eq!(cmd.msg_type, 0);
    assert_eq!(cmd.reserved, 0);
    assert_eq!(cmd.trigger, 4);
    assert_eq!(cmd.period, 0);
    assert_eq!(cmd.offset, 0);
    assert_eq!(cmd.hold, 0);
    assert_eq!(LogCmd::new(0, 0, 0, 0, 0, true).hold, 1);
    assert_eq!(cmd.serialize(), VERSION_REQUEST[..60].to_vec());
}

#[test]
fn log_request_round_trip() {
    let requests = [
        LogCmd::new(32, 37, 4, 0, 0, false),
        LogCmd::new(
            Port::ThisPort.code(),
            MessageID::BestXYZ.code(),
            LogTrigger::OnTime.code(),
            0.25f64.to_bits(),
            1.5f64.to_bits(),
            true,
        ),
        LogCmd::new(u32::MAX, u16::MAX, u32::MAX, u64::MAX, 0x0102030405060708, true),
    ];
    for cmd in requests {
        let raw = cmd.serialize();
        assert_eq!(raw.len(), 60);
        let hdr = Header::parse(&raw).unwrap();
        assert_eq!(hdr.msg_id, MessageID::Log);
        assert_eq!(hdr.msg_len, 32);
        let back = LogCmd::parse(&raw).unwrap();
        assert_eq!(back.port, cmd.port);
        assert_eq!(back.msg_id, cmd.msg_id);
        assert_eq!(back.trigger, cmd.trigger);
        assert_eq!(back, cmd);
        let sealed = OEM6::new().send_message(&cmd);
        assert_eq!(sealed, seal(raw));
        assert_eq!(LogCmd::parse(&sealed), Some(cmd));
    }
    let raw = LogCmd::new(1, 2, 3, 0x1112131415161718, 0x2122232425262728, true).serialize();
    assert_eq!(raw[28..32], [1, 0, 0, 0]);
    assert_eq!(raw[32..36], [2, 0, 0, 0]);
    assert_eq!(raw[36..40], [3, 0, 0, 0]);
    assert_eq!(raw[40..48], [0x18, 0x17, 0x16, 0x15, 0x14, 0x13, 0x12, 0x11]);
    assert_eq!(raw[48..56], [0x28, 0x27, 0x26, 0x25, 0x24, 0x23, 0x22, 0x21]);
    assert_eq!(raw[56..60], [1, 0, 0, 0]);
}

#[test]
fn log_request_needs_60_bytes() {
    assert_eq!(LogCmd::parse(&VERSION_REQUEST[..59]), None);
    assert!(LogCmd::parse(&VERSION_REQUEST[..60]).is_some());
}

#[test]
fn version_request_goes_out_sealed() {
    let req = OEM6::new().request_version();
    assert_eq!(req.bytes, VERSION_REQUEST.to_vec());
    assert_eq!(req.reply, MessageID::Log);
}

#[test]
fn seal_appends_the_check_value() {
    assert_eq!(seal(vec![]), vec![0, 0, 0, 0]);
    assert_eq!(seal(vec![1]), vec![1, 0x96, 0x30, 0x07, 0x77]);
    assert_eq!(seal(b"123456789".to_vec()), b"123456789\x88\x2D\xFD\x2D".to_vec());
}

#[test]
fn send_message_seals_what_a_message_serializes_to() {
    let oem = OEM6::new();
    let cmd = LogCmd::new(32, 37, 4, 0, 0, false);
    assert_eq!(oem.send_message(&cmd), VERSION_REQUEST.to_vec());
    let hdr = received(MessageID::Log, 0x80, 6);
    let sent = oem.send_message(&hdr);
    assert_eq!(sent[..28], RESPONSE_OK[..28]);
    assert_eq!(sent.len(), 32);
    assert_eq!(calc_crc(&sent), 0);
}

#[test]
fn any_log_can_be_requested() {
    let oem = OEM6::new();
    let cmd = LogCmd::new(
        Port::COM2.code(),
        MessageID::BestXYZ.code(),
        LogTrigger::OnTime.code(),
        1.0f64.to_bits(),
        0.0f64.to_bits(),
        true,
    );
    let req = oem.request_log(&cmd);
    assert_eq!(req, Request { bytes: seal(cmd.serialize()), reply: MessageID::Log });
    assert_eq!(req.bytes.len(), 64);
    assert_eq!(req.bytes[28..40], [64, 0, 0, 0, 241, 0, 0, 0, 2, 0, 0, 0]);
    assert_eq!(req.bytes[40..48], [0, 0, 0, 0, 0, 0, 0xF0, 0x3F]);
    assert_eq!(req.bytes[56..60], [1, 0, 0, 0]);
}

#[test]
fn passthrough_adds_nothing() {
    let oem = OEM6::new();
    assert_eq!(oem.passthrough(&[]), Vec::<u8>::new());
    assert_eq!(oem.passthrough(b"log versionb once\r\n"), b"log versionb once\r\n".to_vec());
}

#[test]
fn reader_gathers_a_frame_in_three_reads() {
    let mut oem = OEM6::new();
    assert_eq!(oem.wanted(), 28);
    assert_eq!(oem.get_message(RESPONSE_OK[..28].to_vec()), None);
    assert_eq!(oem.wanted(), 6);
    assert_eq!(oem.get_message(RESPONSE_OK[28..34].to_vec()), None);
    assert_eq!(oem.wanted(), 4);
    let (hdr, body) = oem.get_message(RESPONSE_OK[34..].to_vec()).unwrap();
    assert_eq!(hdr, received(MessageID::Log, 0x80, 6));
    assert_eq!(body, vec![1, 0, 0, 0, 0x4F, 0x4B]);
    assert_eq!(oem.wanted(), 28);
}

#[test]
fn reader_takes_an_empty_body() {
    let mut oem = OEM6::new();
    assert_eq!(oem.get_message(EMPTY_LOG[..28].to_vec()), None);
    assert_eq!(oem.wanted(), 0);
    assert_eq!(oem.get_message(vec![]), None);
    assert_eq!(oem.wanted(), 4);
    let (hdr, body) = oem.get_message(EMPTY_LOG[28..].to_vec()).unwrap();
    assert_eq!(hdr.msg_id, MessageID::Unknown(1234));
    assert_eq!(body, Vec::<u8>::new());
}

#[test]
fn reader_starts_over_on_bad_sync() {
    for at in 0..3 {
        let mut oem = OEM6::new();
        let mut head = RESPONSE_OK[..28].to_vec();
        head[at] ^= 0x01;
        assert_eq!(oem.get_message(head), None);
        assert_eq!(oem.wanted(), 28);
        assert_eq!(oem.get_message(RESPONSE_OK[..28].to_vec()), None);
        assert_eq!(oem.wanted(), 6);
    }
}

#[test]
fn reader_starts_over_on_a_read_of_the_wrong_length() {
    let mut oem = OEM6::new();
    assert_eq!(oem.get_message(RESPONSE_OK[..27].to_vec()), None);
    assert_eq!(oem.wanted(), 28);
    assert_eq!(oem.get_message(RESPONSE_OK[..29].to_vec()), None);
    assert_eq!(oem.wanted(), 28);

    assert_eq!(oem.get_message(RESPONSE_OK[..28].to_vec()), None);
    assert_eq!(oem.get_message(RESPONSE_OK[28..33].to_vec()), None);
    assert_eq!(oem.wanted(), 28);

    assert_eq!(oem.get_message(RESPONSE_OK[..28].to_vec()), None);
    assert_eq!(oem.get_message(RESPONSE_OK[28..34].to_vec()), None);
    assert_eq!(oem.get_message(RESPONSE_OK[34..37].to_vec()), None);
    assert_eq!(oem.wanted(), 28);
}

#[test]
fn reader_drops_a_frame_that_fails_its_check() {
    for at in 3..RESPONSE_OK.len() {
        if at == 8 || at == 9 {
            continue;
        }
        for bit in 0..8 {
            let mut bad = RESPONSE_OK;
            bad[at] ^= 1 << bit;
            let mut oem = OEM6::new();
            assert_eq!(oem.get_message(bad[..28].to_vec()), None);
            assert_eq!(oem.get_message(bad[28..34].to_vec()), None);
            assert_eq!(oem.get_message(bad[34..].to_vec()), None);
            assert_eq!(oem.wanted(), 28);
        }
    }
}

#[test]
fn response_is_judged() {
    assert_eq!(drive_get_response(&RESPONSE_OK, MessageID::Log), Some(Ok(())));
    assert_eq!(
        drive_get_response(&RESPONSE_OK, MessageID::Version),
        Some(Err(OEMError::ResponseMismatch))
    );
    assert_eq!(
        drive_get_response(&RESPONSE_BAD_TRIGGER, MessageID::Log),
        Some(Err(OEMError::CommandError {
            id: ResponseID::InvalidTrigger,
            description: text("TRIGGER ONCE NOT VALID FOR THIS LOG"),
        }))
    );
    assert_eq!(
        drive_get_response(&VERSION_LOG, MessageID::Version),
        Some(Err(OEMError::NoResponse))
    );
    assert_eq!(drive_get_response(&RESPONSE_OK[..37], MessageID::Log), None);
}

#[test]
fn response_verdicts_in_order() {
    let log = received(MessageID::Log, 0x00, 6);
    let reply = received(MessageID::Log, 0x80, 6);
    let ok = vec![1, 0, 0, 0, 0x4F, 0x4B];
    assert_eq!(check_response(&reply, ok.clone(), MessageID::Log), Ok(()));
    assert_eq!(check_response(&log, ok.clone(), MessageID::Log), Err(OEMError::NoResponse));
    assert_eq!(check_response(&reply, vec![1, 0, 0], MessageID::Log), Err(OEMError::NoResponse));
    assert_eq!(
        check_response(&reply, vec![1, 0, 0, 0, 0xFF], MessageID::Log),
        Err(OEMError::NoResponse)
    );
    assert_eq!(
        check_response(&reply, vec![1, 0, 0], MessageID::Version),
        Err(OEMError::NoResponse)
    );
    assert_eq!(
        check_response(&reply, vec![6, 0, 0, 0], MessageID::Version),
        Err(OEMError::ResponseMismatch)
    );
    assert_eq!(
        check_response(&reply, vec![6, 0, 0, 0], MessageID::Log),
        Err(OEMError::CommandError { id: ResponseID::InvalidID, description: text("") })
    );
    assert_eq!(
        check_response(&reply, vec![0x78, 0x56, 0x34, 0x12, 0xC3, 0xA9], MessageID::Log),
        Err(OEMError::CommandError {
            id: ResponseID::Other(0x12345678),
            description: text("\u{e9}"),
        })
    );
    assert_eq!(check_response(&reply, vec![1, 0, 0, 0], MessageID::Log), Ok(()));
}

#[test]
fn response_body() {
    assert_eq!(
        Response::new(vec![1, 0, 0, 0, 0x4F, 0x4B]),
        Some(Response { resp_id: ResponseID::Accepted, resp_string: text("OK") })
    );
    assert_eq!(
        Response::new(vec![2, 0, 0, 0]),
        Some(Response { resp_id: ResponseID::LogDoesNotExist, resp_string: text("") })
    );
    assert_eq!(Response::new(vec![]), None);
    assert_eq!(Response::new(vec![1, 0, 0]), None);
    assert_eq!(Response::new(vec![1, 0, 0, 0, 0x80]), None);
    assert_eq!(Response::new(vec![1, 0, 0, 0, 0xC3]), None);
}

#[test]
fn version_log_is_decoded() {
    assert_eq!(VersionLog::new(&VERSION_LOG[28..248]), Some(expected_version()));
    assert_eq!(
        Log::new(MessageID::Version, VERSION_LOG[28..248].to_vec()),
        Some(Log::Version(expected_version()))
    );
}

#[test]
fn version_log_without_components() {
    assert_eq!(
        VersionLog::new(&[0, 0, 0, 0]),
        Some(VersionLog { num_components: 0, components: vec![] })
    );
    assert_eq!(
        VersionLog::new(&[0, 0, 0, 0, 9, 9]),
        Some(VersionLog { num_components: 0, components: vec![] })
    );
}

#[test]
fn version_log_that_does_not_fit() {
    assert_eq!(VersionLog::new(&[]), None);
    assert_eq!(VersionLog::new(&[1, 0, 0]), None);
    assert_eq!(VersionLog::new(&VERSION_LOG[28..247]), None);
    assert_eq!(VersionLog::new(&[0xFF, 0xFF, 0xFF, 0xFF, 0, 0]), None);
    let mut body = VERSION_LOG[28..248].to_vec();
    body[4 + 108 + 4] = 0xFF;
    assert_eq!(VersionLog::new(&body), None);
    let mut body = VERSION_LOG[28..248].to_vec();
    body[4 + 96 + 7] = 0xC3;
    assert_eq!(VersionLog::new(&body), None);
}

#[test]
fn component_text_ends_at_the_first_nul() {
    let mut body = VERSION_LOG[28..248].to_vec();
    body[4 + 4 + 3] = 0;
    body[4 + 4 + 8] = 0xFF;
    let log = VersionLog::new(&body).unwrap();
    assert_eq!(log.components[0].model, "OEM");
    let comp = Component::parse(&body, 4).unwrap();
    assert_eq!(comp, log.components[0]);
    assert_eq!(Component::parse(&body, 112), Some(expected_version().components[1].clone()));
}

#[test]
fn position_log_is_decoded() {
    assert_eq!(BestXYZLog::new(&BESTXYZ_LOG[28..140]), Some(expected_best_xyz()));
    assert_eq!(BestXYZLog::new(&BESTXYZ_LOG[28..]), Some(expected_best_xyz()));
    assert_eq!(BestXYZLog::new(&BESTXYZ_LOG[28..139]), None);
    assert_eq!(
        Log::new(MessageID::BestXYZ, BESTXYZ_LOG[28..140].to_vec()),
        Some(Log::BestXYZ(expected_best_xyz()))
    );
    let log = BestXYZLog::new(&BESTXYZ_LOG[28..140]).unwrap();
    assert_eq!(log.position[0], 0xC138F0E3917C1BDA);
    assert!((f64::from_bits(log.position[2]) - 4942496.3270).abs() < 1e-9);
    assert!((f32::from_bits(log.vel_latency) - 0.25).abs() < 1e-9);
}

#[test]
fn log_without_a_decoder_is_named() {
    assert_eq!(Log::new(MessageID::Unknown(42), vec![1, 2, 3]), Some(Log::Unrecognized(42)));
    assert_eq!(Log::new(MessageID::Log, vec![]), Some(Log::Unrecognized(1)));
    assert_eq!(Log::new(MessageID::Unlog, vec![]), Some(Log::Unrecognized(36)));
    assert_eq!(Log::new(MessageID::UnlogAll, vec![]), Some(Log::Unrecognized(38)));
    assert_eq!(Log::new(MessageID::Version, vec![]), None);
    assert_eq!(Log::new(MessageID::BestXYZ, vec![0; 111]), None);
}

#[test]
fn unknown_log_can_be_surfaced() {
    assert_eq!(
        known_log(Log::Unrecognized(42)),
        Err(OEMError::UnknownMessage { id: 42 })
    );
    assert_eq!(
        known_log(Log::BestXYZ(expected_best_xyz())),
        Ok(Log::BestXYZ(expected_best_xyz()))
    );
    assert_eq!(known_log(Log::Version(expected_version())), Ok(Log::Version(expected_version())));
}

#[test]
fn log_frames_are_judged() {
    let hdr = received(MessageID::BestXYZ, 0, 112);
    assert_eq!(
        check_log(&hdr, BESTXYZ_LOG[28..140].to_vec()),
        Some(Log::BestXYZ(expected_best_xyz()))
    );
    let hdr = received(MessageID::BestXYZ, 0x80, 112);
    assert_eq!(check_log(&hdr, BESTXYZ_LOG[28..140].to_vec()), None);
    let hdr = received(MessageID::BestXYZ, 0, 4);
    assert_eq!(check_log(&hdr, vec![0; 4]), None);
    let hdr = received(MessageID::Unknown(7), 0, 4);
    assert_eq!(check_log(&hdr, vec![0; 4]), Some(Log::Unrecognized(7)));
    let hdr = received(MessageID::Unknown(7), 0x80, 4);
    assert_eq!(check_log(&hdr, vec![0; 4]), None);
    let hdr = received(MessageID::Unlog, 0, 0);
    assert_eq!(check_log(&hdr, vec![]), Some(Log::Unrecognized(36)));
}

#[test]
fn get_log_skips_responses() {
    let mut stream = Vec::new();
    stream.extend_from_slice(&RESPONSE_OK);
    stream.extend_from_slice(&RESPONSE_BAD_TRIGGER);
    stream.extend_from_slice(&frame(MessageID::BestXYZ, 0x80, &BESTXYZ_LOG[28..140]));
    let before = stream.len();
    stream.extend_from_slice(&BESTXYZ_LOG);
    stream.extend_from_slice(&RESPONSE_OK);
    stream.extend_from_slice(&VERSION_LOG);

    let want = Some((Log::BestXYZ(expected_best_xyz()), before + BESTXYZ_LOG.len()));
    assert_eq!(drive_get_log(&stream), want);
    assert_eq!(first_log(&stream), want);

    let (_, next) = want.unwrap();
    assert_eq!(
        first_log(&stream[next..]),
        Some((Log::Version(expected_version()), RESPONSE_OK.len() + VERSION_LOG.len()))
    );
}

#[test]
fn get_log_skips_what_does_not_decode() {
    let mut stream = frame(MessageID::Version, 0, &[1, 0, 0, 0]);
    stream.extend_from_slice(&frame(MessageID::BestXYZ, 0, &[0; 20]));
    stream.extend_from_slice(&RESPONSE_OK);
    stream.extend_from_slice(&BESTXYZ_LOG);
    let end = stream.len();
    stream.extend_from_slice(&VERSION_LOG);
    let want = Some((Log::BestXYZ(expected_best_xyz()), end));
    assert_eq!(drive_get_log(&stream), want);
    assert_eq!(first_log(&stream), want);
}

#[test]
fn get_log_returns_a_log_without_a_decoder_as_unrecognized() {
    let mut stream = RESPONSE_OK.to_vec();
    stream.extend_from_slice(&frame(MessageID::BestXYZ, 0, &[0; 20]));
    let before = stream.len();
    stream.extend_from_slice(&UNKNOWN_LOG);
    stream.extend_from_slice(&BESTXYZ_LOG);
    let want = Some((Log::Unrecognized(42), before + UNKNOWN_LOG.len()));
    assert_eq!(drive_get_log(&stream), want);
    assert_eq!(first_log(&stream), want);

    let (log, next) = want.unwrap();
    assert_eq!(known_log(log), Err(OEMError::UnknownMessage { id: 42 }));
    assert_eq!(
        first_log(&stream[next..]),
        Some((Log::BestXYZ(expected_best_xyz()), BESTXYZ_LOG.len()))
    );

    for (id, code) in [
        (MessageID::Log, 1u16),
        (MessageID::Unlog, 36),
        (MessageID::UnlogAll, 38),
        (MessageID::Unknown(1234), 1234),
        (MessageID::Unknown(0xFFFF), 0xFFFF),
    ] {
        let stream = frame(id, 0x20, &[1, 2, 3]);
        let want = Some((Log::Unrecognized(code), stream.len()));
        assert_eq!(drive_get_log(&stream), want);
        assert_eq!(first_log(&stream), want);
        let (hdr, body, _) = read_frame(&stream, 0).unwrap();
        assert_eq!(check_log(&hdr, body.clone()), Some(Log::Unrecognized(code)));
        assert_eq!(Log::new(hdr.msg_id, body), Some(Log::Unrecognized(code)));
    }
    assert_eq!(first_log(&EMPTY_LOG), Some((Log::Unrecognized(1234), EMPTY_LOG.len())));
}

#[test]
fn an_unrecognized_response_is_still_passed_over() {
    let mut stream = frame(MessageID::Unknown(42), 0x80, &[1, 2, 3]);
    stream.extend_from_slice(&RESPONSE_OK);
    assert_eq!(drive_get_log(&stream), None);
    assert_eq!(first_log(&stream), None);
}

#[test]
fn get_log_finds_nothing_in_responses_alone() {
    let mut stream = Vec::new();
    stream.extend_from_slice(&RESPONSE_OK);
    stream.extend_from_slice(&RESPONSE_OK);
    assert_eq!(drive_get_log(&stream), None);
    assert_eq!(first_log(&stream), None);
    assert_eq!(first_log(&[]), None);
    assert_eq!(first_log(&BESTXYZ_LOG[..143]), None);
}

#[test]
fn corrupt_log_is_passed_over() {
    for at in (3..8).chain(10..BESTXYZ_LOG.len()) {
        let mut stream = BESTXYZ_LOG.to_vec();
        stream[at] ^= 0x40;
        stream.extend_from_slice(&VERSION_LOG);
        let want =
            Some((Log::Version(expected_version()), BESTXYZ_LOG.len() + VERSION_LOG.len()));
        assert_eq!(first_log(&stream), want);
        assert_eq!(drive_get_log(&stream), want);
    }
}

#[test]
fn frames_are_read_from_a_capture() {
    let mut stream = vec![0u8; 28];
    stream.extend_from_slice(&EMPTY_LOG);
    stream.extend_from_slice(&RESPONSE_OK);
    let (hdr, body, next) = read_frame(&stream, 0).unwrap();
    assert_eq!(hdr, received(MessageID::Unknown(1234), 0x20, 0));
    assert_eq!(body, Vec::<u8>::new());
    assert_eq!(next, 60);
    let (hdr, body, next) = read_frame(&stream, next).unwrap();
    assert_eq!(hdr, received(MessageID::Log, 0x80, 6));
    assert_eq!(body, vec![1, 0, 0, 0, 0x4F, 0x4B]);
    assert_eq!(next, stream.len());
    assert_eq!(read_frame(&stream, next), None);
    assert_eq!(read_frame(&stream, 28), Some((received(MessageID::Unknown(1234), 0x20, 0), vec![], 60)));
}

#[test]
fn first_response_in_a_capture() {
    assert_eq!(first_response(&RESPONSE_OK, MessageID::Log), Some(Ok(())));
    assert_eq!(
        first_response(&RESPONSE_OK, MessageID::BestXYZ),
        Some(Err(OEMError::ResponseMismatch))
    );
    assert_eq!(
        first_response(&BESTXYZ_LOG, MessageID::BestXYZ),
        Some(Err(OEMError::NoResponse))
    );
    assert_eq!(first_response(&[], MessageID::Log), None);
    let mut stream = RESPONSE_OK.to_vec();
    stream[30] ^= 1;
    stream.extend_from_slice(&RESPONSE_BAD_TRIGGER);
    assert_eq!(
        first_response(&stream, MessageID::Log),
        Some(Err(OEMError::CommandError {
            id: ResponseID::InvalidTrigger,
            description: text("TRIGGER ONCE NOT VALID FOR THIS LOG"),
        }))
    );
}

#[test]
fn frame_is_found_behind_noise() {
    let noise = [0x00, 0xAA, 0x44, 0x12, 0xAA, 0x44, 0xAA];
    let mut stream = noise.to_vec();
    stream.extend_from_slice(&RESPONSE_OK);
    stream.extend_from_slice(&[0xFF, 0xAA, 0x44, 0x12]);
    stream.extend_from_slice(&EMPTY_LOG);
    let first = (noise.len(), received(MessageID::Log, 0x80, 6), vec![1, 0, 0, 0, 0x4F, 0x4B]);
    assert_eq!(find_frame(&stream, 0), Some(first.clone()));
    assert_eq!(find_frame(&stream, noise.len()), Some(first));
    let second = (
        noise.len() + RESPONSE_OK.len() + 4,
        received(MessageID::Unknown(1234), 0x20, 0),
        vec![],
    );
    assert_eq!(find_frame(&stream, noise.len() + 1), Some(second.clone()));
    assert_eq!(find_frame(&stream, second.0), Some(second.clone()));
    assert_eq!(find_frame(&stream, second.0 + 1), None);
    assert_eq!(find_frame(&stream, stream.len()), None);
    assert_eq!(find_frame(&stream, stream.len() + 1), None);
    assert_eq!(find_frame(&[], 0), None);
    assert_eq!(read_frame(&stream, stream.len() + 1), None);
}

#[test]
fn search_passes_over_a_frame_that_fails_its_check() {
    for at in 0..BESTXYZ_LOG.len() {
        let mut stream = BESTXYZ_LOG.to_vec();
        stream[at] ^= 0x04;
        stream.extend_from_slice(&UNKNOWN_LOG);
        let found = find_frame(&stream, 0).unwrap();
        assert_eq!(found.0, BESTXYZ_LOG.len());
        assert_eq!(found.1.msg_id, MessageID::Unknown(42));
        assert_eq!(found.2, (0..10).collect::<Vec<u8>>());
    }
}

#[test]
fn a_found_frame_is_the_frame_that_is_read() {
    let mut stream = vec![1, 2, 3];
    stream.extend_from_slice(&VERSION_LOG);
    stream.extend_from_slice(&BESTXYZ_LOG);
    let (place, hdr, body) = find_frame(&stream, 0).unwrap();
    assert_eq!(place, 3);
    assert_eq!(read_frame(&stream, place), Some((hdr, body, 3 + VERSION_LOG.len())));
}

/// Feeds `stream` to a scanner in pieces of `piece` bytes and gathers the
/// frames it hands out.
fn scan_in_pieces(stream: &[u8], piece: usize) -> (Vec<(Header, Vec<u8>)>, usize) {
    let mut scanner = Scanner::new();
    let mut frames = Vec::new();
    for chunk in stream.chunks(piece) {
        scanner.feed(chunk);
        while let Some(frame) = scanner.next_frame() {
            frames.push(frame);
        }
    }
    (frames, scanner.held())
}

#[test]
fn scanner_finds_frames_in_pieces_of_any_size() {
    let mut stream = vec![0x12, 0xAA, 0x44, 0x00, 0xAA, 0x44, 0x12, 0x07];
    stream.extend_from_slice(&RESPONSE_OK);
    stream.extend_from_slice(&EMPTY_LOG);
    stream.extend_from_slice(&[0xAA, 0xAA, 0x44, 0x12, 0xAA]);
    stream.extend_from_slice(&BESTXYZ_LOG);
    stream.extend_from_slice(&VERSION_LOG);
    let want = vec![
        (received(MessageID::Log, 0x80, 6), RESPONSE_OK[28..34].to_vec()),
        (received(MessageID::Unknown(1234), 0x20, 0), vec![]),
        (received(MessageID::BestXYZ, 0, 112), BESTXYZ_LOG[28..140].to_vec()),
        (Header::parse(&VERSION_LOG).unwrap(), VERSION_LOG[28..248].to_vec()),
    ];
    for piece in [1, 2, 3, 5, 7, 28, 31, 32, 33, 64, 100, 1000] {
        let (frames, held) = scan_in_pieces(&stream, piece);
        assert_eq!(frames, want, "pieces of {}", piece);
        assert_eq!(held, 0);
    }
}

#[test]
fn scanner_keeps_what_may_become_a_frame() {
    let mut scanner = Scanner::new();
    assert_eq!(scanner.held(), 0);
    assert_eq!(scanner.wanted(), 28);
    assert_eq!(scanner.next_frame(), None);

    scanner.feed(&[1, 2, 3, 0xAA]);
    assert_eq!(scanner.held(), 4);
    assert_eq!(scanner.next_frame(), None);
    assert_eq!(scanner.held(), 1);
    assert_eq!(scanner.wanted(), 27);

    scanner.feed(&[0x44, 0x12]);
    assert_eq!(scanner.next_frame(), None);
    assert_eq!(scanner.held(), 3);

    scanner.feed(&[0x44]);
    scanner.feed(&RESPONSE_OK[4..28]);
    assert_eq!(scanner.next_frame(), None);
    assert_eq!(scanner.held(), 28);
    assert_eq!(scanner.wanted(), 6 + 4);

    let mut scanner = Scanner::new();
    scanner.feed(&RESPONSE_OK[..30]);
    assert_eq!(scanner.next_frame(), None);
    assert_eq!(scanner.held(), 30);
    assert_eq!(scanner.wanted(), 8);
    scanner.feed(&RESPONSE_OK[30..37]);
    assert_eq!(scanner.next_frame(), None);
    assert_eq!(scanner.wanted(), 1);
    scanner.feed(&RESPONSE_OK[37..]);
    assert_eq!(scanner.wanted(), 0);
    assert_eq!(
        scanner.next_frame(),
        Some((received(MessageID::Log, 0x80, 6), vec![1, 0, 0, 0, 0x4F, 0x4B]))
    );
    assert_eq!(scanner.held(), 0);
    assert_eq!(scanner.next_frame(), None);
}

#[test]
fn scanner_drops_noise_and_frames_that_fail() {
    let mut scanner = Scanner::new();
    scanner.feed(&[0u8; 100]);
    assert_eq!(scanner.next_frame(), None);
    assert_eq!(scanner.held(), 0);

    let mut bad = RESPONSE_OK;
    bad[31] ^= 0x20;
    scanner.feed(&bad);
    scanner.feed(&BESTXYZ_LOG);
    let frame = scanner.next_frame().unwrap();
    assert_eq!(frame.0.msg_id, MessageID::BestXYZ);
    assert_eq!(frame.1, BESTXYZ_LOG[28..140].to_vec());
    assert_eq!(scanner.held(), 0);
}

#[test]
fn scanner_finds_a_frame_after_any_lost_bytes() {
    for lost in 1..VERSION_LOG.len() {
        let mut stream = VERSION_LOG[lost..].to_vec();
        stream.extend_from_slice(&BESTXYZ_LOG);
        stream.extend_from_slice(&UNKNOWN_LOG);
        let (frames, held) = scan_in_pieces(&stream, 13);
        assert_eq!(held, 0);
        assert_eq!(frames.len(), 2, "lost {}", lost);
        assert_eq!(frames[0].0.msg_id, MessageID::BestXYZ);
        assert_eq!(frames[1].0.msg_id, MessageID::Unknown(42));
    }
}

#[test]
fn scanner_hands_out_what_a_search_finds() {
    let mut stream = vec![9u8; 40];
    stream.extend_from_slice(&RESPONSE_BAD_TRIGGER);
    stream.extend_from_slice(&[0xAA, 0x44]);
    stream.extend_from_slice(&UNKNOWN_LOG);
    let (frames, _) = scan_in_pieces(&stream, stream.len());
    let mut at = 0;
    let mut found = Vec::new();
    while let Some((place, hdr, body)) = find_frame(&stream, at) {
        at = place + 28 + body.len() + 4;
        found.push((hdr, body));
    }
    assert_eq!(frames, found);
    assert_eq!(frames.len(), 2);
}

/// A frame as a receiver may send it and this library never writes it: the
/// two reserved bytes of the header are not zero.
fn frame_with_reserved_bytes() -> Vec<u8> {
    let mut raw = BESTXYZ_LOG[..140].to_vec();
    raw[24] = 0x12;
    raw[25] = 0x34;
    let crc = calc_crc(&raw);
    raw.extend_from_slice(&[crc as u8, (crc >> 8) as u8, (crc >> 16) as u8, (crc >> 24) as u8]);
    raw
}

#[test]
fn a_frame_with_reserved_bytes_set_is_a_frame() {
    let odd = frame_with_reserved_bytes();
    assert_ne!(odd, BESTXYZ_LOG.to_vec());
    let hdr = received(MessageID::BestXYZ, 0, 112);
    let body = BESTXYZ_LOG[28..140].to_vec();

    let mut stream = RESPONSE_OK.to_vec();
    stream.extend_from_slice(&odd);
    stream.extend_from_slice(&VERSION_LOG);
    let end = RESPONSE_OK.len() + odd.len();
    assert_eq!(read_frame(&stream, RESPONSE_OK.len()), Some((hdr, body.clone(), end)));
    assert_eq!(first_log(&stream), Some((Log::BestXYZ(expected_best_xyz()), end)));
    assert_eq!(drive_get_log(&stream), Some((Log::BestXYZ(expected_best_xyz()), end)));
    assert_eq!(find_frame(&stream, 1), Some((RESPONSE_OK.len(), hdr, body.clone())));

    let mut scanner = Scanner::new();
    scanner.feed(&[7, 7, 7]);
    scanner.feed(&odd);
    assert_eq!(scanner.next_frame(), Some((hdr, body)));

    let mut bad = odd.clone();
    bad[25] ^= 0x01;
    bad.extend_from_slice(&VERSION_LOG);
    assert_eq!(
        first_log(&bad),
        Some((Log::Version(expected_version()), odd.len() + VERSION_LOG.len()))
    );
}

#[test]
fn scanner_judges_logs() {
    let mut scanner = Scanner::new();
    scanner.feed(&[0xAA, 0x00]);
    scanner.feed(&RESPONSE_OK);
    scanner.feed(&frame(MessageID::Version, 0, &[1, 0, 0, 0]));
    scanner.feed(&UNKNOWN_LOG);
    scanner.feed(&BESTXYZ_LOG);
    scanner.feed(&VERSION_LOG[..100]);
    let after_response = UNKNOWN_LOG.len() + BESTXYZ_LOG.len() + 100 + 36;
    assert_eq!(scanner.next_log(), None);
    assert_eq!(scanner.held(), after_response);
    assert_eq!(scanner.next_log(), None);
    assert_eq!(scanner.held(), after_response - 36);
    assert_eq!(scanner.next_log(), Some(Log::Unrecognized(42)));
    assert_eq!(scanner.next_log(), Some(Log::BestXYZ(expected_best_xyz())));
    assert_eq!(scanner.held(), 100);
    assert_eq!(scanner.next_log(), None);
    assert_eq!(scanner.held(), 100);
    assert_eq!(scanner.wanted(), VERSION_LOG.len() - 100);
    scanner.feed(&VERSION_LOG[100..]);
    assert_eq!(scanner.wanted(), 0);
    assert_eq!(scanner.next_log(), Some(Log::Version(expected_version())));
    assert_eq!(scanner.held(), 0);
    assert_eq!(scanner.next_log(), None);
}

#[test]
fn scanner_judges_responses() {
    let mut scanner = Scanner::new();
    scanner.feed(&[1, 2, 3]);
    scanner.feed(&RESPONSE_OK);
    scanner.feed(&RESPONSE_OK);
    scanner.feed(&RESPONSE_BAD_TRIGGER);
    scanner.feed(&BESTXYZ_LOG);
    scanner.feed(&RESPONSE_OK[..20]);
    assert_eq!(scanner.next_response(MessageID::Log), Some(Ok(())));
    assert_eq!(
        scanner.next_response(MessageID::Version),
        Some(Err(OEMError::ResponseMismatch))
    );
    assert_eq!(
        scanner.next_response(MessageID::Log),
        Some(Err(OEMError::CommandError {
            id: ResponseID::InvalidTrigger,
            description: text("TRIGGER ONCE NOT VALID FOR THIS LOG"),
        }))
    );
    assert_eq!(scanner.next_response(MessageID::Log), Some(Err(OEMError::NoResponse)));
    assert_eq!(scanner.next_response(MessageID::Log), None);
    assert_eq!(scanner.held(), 20);
    assert_eq!(scanner.wanted(), 8);
}
