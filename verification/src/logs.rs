//! The bodies of the logs the receiver sends.
//!
//! Floating-point fields are held as the bits that travel: 64 bits for a
//! double-precision field, 32 for a single-precision one.

use crate::header::MessageID;
use crate::text::{field_text, read_text};
use crate::wire::{read_u32, read_u64, read_u8, u32_at, u64_at};
use vstd::prelude::*;
use vstd::slice::slice_subrange;

verus! {

/// The length of one component record in a version log.
pub const COMPONENT_LEN: usize = 108;

/// The length of the body of a position and velocity log.
pub const BEST_XYZ_LEN: usize = 112;

/// One component of the receiver, as the version log describes it.
#[derive(Clone, Debug, PartialEq, Eq)]
pub struct Component {
    /// What kind of component this is.
    pub comp_type: u32,
    /// Model name.
    pub model: String,
    /// Serial number.
    pub serial_num: String,
    /// Hardware version.
    pub hw_version: String,
    /// Software version.
    pub sw_version: String,
    /// Boot code version.
    pub boot_version: String,
    /// Date the software was built.
    pub compile_date: String,
    /// Time the software was built.
    pub compile_time: String,
}

/// A component with its text as character sequences.
pub struct ComponentView {
    pub comp_type: u32,
    pub model: Seq<char>,
    pub serial_num: Seq<char>,
    pub hw_version: Seq<char>,
    pub sw_version: Seq<char>,
    pub boot_version: Seq<char>,
    pub compile_date: Seq<char>,
    pub compile_time: Seq<char>,
}

impl View for Component {
    type V = ComponentView;

    open spec fn view(&self) -> ComponentView {
        ComponentView {
            comp_type: self.comp_type,
            model: self.model@,
            serial_num: self.serial_num@,
            hw_version: self.hw_version@,
            sw_version: self.sw_version@,
            boot_version: self.boot_version@,
            compile_date: self.compile_date@,
            compile_time: self.compile_time@,
        }
    }
}

/// The text of the field of `width` bytes at `at`.
pub open spec fn text_at(s: Seq<u8>, at: int, width: int) -> Option<Seq<char>> {
    field_text(s.subrange(at, at + width))
}

/// The component record that starts at `at`, where each of its seven text
/// fields is well-formed.
pub open spec fn component_at(s: Seq<u8>, at: int) -> Option<ComponentView> {
    if text_at(s, at + 4, 16) is Some && text_at(s, at + 20, 16) is Some && text_at(
        s,
        at + 36,
        16,
    ) is Some && text_at(s, at + 52, 16) is Some && text_at(s, at + 68, 16) is Some && text_at(
        s,
        at + 84,
        12,
    ) is Some && text_at(s, at + 96, 12) is Some {
        Some(
            ComponentView {
                comp_type: u32_at(s, at),
                model: text_at(s, at + 4, 16)->0,
                serial_num: text_at(s, at + 20, 16)->0,
                hw_version: text_at(s, at + 36, 16)->0,
                sw_version: text_at(s, at + 52, 16)->0,
                boot_version: text_at(s, at + 68, 16)->0,
                compile_date: text_at(s, at + 84, 12)->0,
                compile_time: text_at(s, at + 96, 12)->0,
            },
        )
    } else {
        None
    }
}

impl Component {
    /// Decodes the component record that starts at `at`. There is none where
    /// fewer than 108 bytes follow `at`.
    pub fn parse(buf: &[u8], at: usize) -> (comp: Option<Component>)
        ensures
            comp is Some <==> at + COMPONENT_LEN <= buf@.len() && component_at(
                buf@,
                at as int,
            ) is Some,
            comp is Some ==> comp->0@ == component_at(buf@, at as int)->0,
    {
        let len: usize = buf.len();
        if at > len || len - at < COMPONENT_LEN {
            return None;
        }
        let comp_type: u32 = read_u32(buf, at);
        let model = read_text(slice_subrange(buf, at + 4, at + 20));
        let serial_num = read_text(slice_subrange(buf, at + 20, at + 36));
        let hw_version = read_text(slice_subrange(buf, at + 36, at + 52));
        let sw_version = read_text(slice_subrange(buf, at + 52, at + 68));
        let boot_version = read_text(slice_subrange(buf, at + 68, at + 84));
        let compile_date = read_text(slice_subrange(buf, at + 84, at + 96));
        let compile_time = read_text(slice_subrange(buf, at + 96, at + 108));
        match (
            model,
            serial_num,
            hw_version,
            sw_version,
            boot_version,
            compile_date,
            compile_time,
        ) {
            (
                Some(model),
                Some(serial_num),
                Some(hw_version),
                Some(sw_version),
                Some(boot_version),
                Some(compile_date),
                Some(compile_time),
            ) => Some(
                Component {
                    comp_type,
                    model,
                    serial_num,
                    hw_version,
                    sw_version,
                    boot_version,
                    compile_date,
                    compile_time,
                },
            ),
            _ => None,
        }
    }
}

/// The versions of the receiver's components.
#[derive(Clone, Debug, PartialEq, Eq)]
pub struct VersionLog {
    /// How many components the log describes.
    pub num_components: u32,
    /// The components, in the order they were sent.
    pub components: Vec<Component>,
}

/// A version log with its components as a sequence of views.
pub struct VersionView {
    pub num_components: u32,
    pub components: Seq<ComponentView>,
}

impl View for VersionLog {
    type V = VersionView;

    open spec fn view(&self) -> VersionView {
        VersionView {
            num_components: self.num_components,
            components: Seq::new(self.components@.len(), |i: int| self.components@[i]@),
        }
    }
}

/// Whether `body` holds a count and that many well-formed component records.
pub open spec fn version_parsable(body: Seq<u8>) -> bool {
    &&& body.len() >= 4
    &&& body.len() >= 4 + COMPONENT_LEN * u32_at(body, 0)
    &&& forall|i: int|
        0 <= i < u32_at(body, 0) ==> (#[trigger] component_at(body, 4 + COMPONENT_LEN * i)) is Some
}

/// The version log that `body` spells out.
pub open spec fn version_of(body: Seq<u8>) -> VersionView {
    VersionView {
        num_components: u32_at(body, 0),
        components: Seq::new(
            u32_at(body, 0) as nat,
            |i: int| component_at(body, 4 + COMPONENT_LEN * i)->0,
        ),
    }
}

impl VersionLog {
    /// Decodes the body of a version log: a four-byte count, then that many
    /// component records. Bytes after the last record are not looked at.
    pub fn new(body: &[u8]) -> (log: Option<VersionLog>)
        ensures
            log is Some <==> version_parsable(body@),
            log is Some ==> log->0@ == version_of(body@),
    {
        let len: usize = body.len();
        if len < 4 {
            return None;
        }
        let num_components: u32 = read_u32(body, 0);
        let room: usize = (len - 4) / COMPONENT_LEN;
        if room < num_components as usize {
            assert(!(body@.len() >= 4 + COMPONENT_LEN * u32_at(body@, 0)));
            return None;
        }
        let count: usize = num_components as usize;
        assert(4 + COMPONENT_LEN * count <= len);
        let mut components: Vec<Component> = Vec::new();
        let mut i: usize = 0;
        while i < count
            invariant
                len == body@.len(),
                count == u32_at(body@, 0),
                4 + COMPONENT_LEN * count <= len,
                i <= count,
                components@.len() == i,
                forall|k: int|
                    0 <= k < i ==> (#[trigger] component_at(body@, 4 + COMPONENT_LEN * k)) is Some,
                forall|k: int|
                    0 <= k < i ==> components@[k]@ == (#[trigger] component_at(
                        body@,
                        4 + COMPONENT_LEN * k,
                    ))->0,
            decreases count - i,
        {
            assert(4 + COMPONENT_LEN * i + COMPONENT_LEN <= len) by (nonlinear_arith)
                requires
                    i < count,
                    4 + COMPONENT_LEN * count <= len,
            ;
            match Component::parse(body, 4 + COMPONENT_LEN * i) {
                None => {
                    return None;
                },
                Some(comp) => {
                    components.push(comp);
                },
            }
            i = i + 1;
        }
        let log = VersionLog { num_components, components };
        assert(log@.components =~= version_of(body@).components);
        Some(log)
    }
}

/// Best available position and velocity, in Earth-centred, Earth-fixed
/// coordinates.
#[derive(Clone, Copy, Debug, PartialEq, Eq)]
pub struct BestXYZLog {
    /// Status of the position solution.
    pub pos_status: u32,
    /// Kind of position solution.
    pub pos_type: u32,
    /// Position along X, Y and Z in metres; bits of three doubles.
    pub position: [u64; 3],
    /// Standard deviation of the position; bits of three singles.
    pub pos_deviation: [u32; 3],
    /// Status of the velocity solution.
    pub vel_status: u32,
    /// Kind of velocity solution.
    pub vel_type: u32,
    /// Velocity along X, Y and Z in metres per second; bits of three doubles.
    pub velocity: [u64; 3],
    /// Standard deviation of the velocity; bits of three singles.
    pub vel_deviation: [u32; 3],
    /// Identifier of the base station.
    pub station_id: [u8; 4],
    /// Latency of the velocity time tag in seconds; bits of a single.
    pub vel_latency: u32,
    /// Age of the differential corrections in seconds; bits of a single.
    pub diff_age: u32,
    /// Age of the solution in seconds; bits of a single.
    pub sol_age: u32,
    /// Satellites tracked.
    pub num_sats: u8,
    /// Satellites used in the solution.
    pub num_sol_sats: u8,
    /// Satellites with L1/E1/B1 signals used in the solution.
    pub num_l1_sats: u8,
    /// Satellites with multi-frequency signals used in the solution.
    pub num_multi_sats: u8,
    /// Extended solution status.
    pub ext_sol_status: u8,
    /// Galileo and BeiDou signals used.
    pub gal_bds_mask: u8,
    /// GPS and GLONASS signals used.
    pub gps_glo_mask: u8,
}

/// The position and velocity log that the first 112 bytes of `s` spell out.
pub open spec fn best_xyz_of(s: Seq<u8>) -> BestXYZLog {
    BestXYZLog {
        pos_status: u32_at(s, 0),
        pos_type: u32_at(s, 4),
        position: [u64_at(s, 8), u64_at(s, 16), u64_at(s, 24)],
        pos_deviation: [u32_at(s, 32), u32_at(s, 36), u32_at(s, 40)],
        vel_status: u32_at(s, 44),
        vel_type: u32_at(s, 48),
        velocity: [u64_at(s, 52), u64_at(s, 60), u64_at(s, 68)],
        vel_deviation: [u32_at(s, 76), u32_at(s, 80), u32_at(s, 84)],
        station_id: [s[88], s[89], s[90], s[91]],
        vel_latency: u32_at(s, 92),
        diff_age: u32_at(s, 96),
        sol_age: u32_at(s, 100),
        num_sats: s[104],
        num_sol_sats: s[105],
        num_l1_sats: s[106],
        num_multi_sats: s[107],
        ext_sol_status: s[109],
        gal_bds_mask: s[110],
        gps_glo_mask: s[111],
    }
}

impl BestXYZLog {
    /// Decodes the body of a position and velocity log. Bytes after the
    /// 112th are not looked at.
    pub fn new(body: &[u8]) -> (log: Option<BestXYZLog>)
        ensures
            log == if body@.len() >= BEST_XYZ_LEN {
                Some(best_xyz_of(body@))
            } else {
                None
            },
    {
        if body.len() < BEST_XYZ_LEN {
            return None;
        }
        Some(
            BestXYZLog {
                pos_status: read_u32(body, 0),
                pos_type: read_u32(body, 4),
                position: [read_u64(body, 8), read_u64(body, 16), read_u64(body, 24)],
                pos_deviation: [read_u32(body, 32), read_u32(body, 36), read_u32(body, 40)],
                vel_status: read_u32(body, 44),
                vel_type: read_u32(body, 48),
                velocity: [read_u64(body, 52), read_u64(body, 60), read_u64(body, 68)],
                vel_deviation: [read_u32(body, 76), read_u32(body, 80), read_u32(body, 84)],
                station_id: [
                    read_u8(body, 88),
                    read_u8(body, 89),
                    read_u8(body, 90),
                    read_u8(body, 91),
                ],
                vel_latency: read_u32(body, 92),
                diff_age: read_u32(body, 96),
                sol_age: read_u32(body, 100),
                num_sats: read_u8(body, 104),
                num_sol_sats: read_u8(body, 105),
                num_l1_sats: read_u8(body, 106),
                num_multi_sats: read_u8(body, 107),
                ext_sol_status: read_u8(body, 109),
                gal_bds_mask: read_u8(body, 110),
                gps_glo_mask: read_u8(body, 111),
            },
        )
    }
}

/// A decoded log.
#[derive(Clone, Debug, PartialEq, Eq)]
pub enum Log {
    /// Component versions.
    Version(VersionLog),
    /// Position and velocity.
    BestXYZ(BestXYZLog),
    /// A frame whose message has no decoder here, with the message's number.
    Unrecognized(u16),
}

/// A log with its text as character sequences.
pub enum LogView {
    Version(VersionView),
    BestXYZ(BestXYZLog),
    Unrecognized(u16),
}

impl View for Log {
    type V = LogView;

    open spec fn view(&self) -> LogView {
        match self {
            Log::Version(v) => LogView::Version(v@),
            Log::BestXYZ(b) => LogView::BestXYZ(*b),
            Log::Unrecognized(id) => LogView::Unrecognized(*id),
        }
    }
}

/// What a log frame with message `id` and body `body` decodes to: the log
/// where the message has a decoder and the body fits it, the bare message
/// number where it has none, and nothing where the body does not fit.
pub open spec fn log_of(id: MessageID, body: Seq<u8>) -> Option<LogView> {
    match id {
        MessageID::Version => if version_parsable(body) {
            Some(LogView::Version(version_of(body)))
        } else {
            None
        },
        MessageID::BestXYZ => if body.len() >= BEST_XYZ_LEN {
            Some(LogView::BestXYZ(best_xyz_of(body)))
        } else {
            None
        },
        _ => Some(LogView::Unrecognized(id.code_spec())),
    }
}

impl Log {
    /// Decodes the body of a log frame by the frame's message.
    pub fn new(id: MessageID, body: Vec<u8>) -> (log: Option<Log>)
        ensures
            log is Some <==> log_of(id, body@) is Some,
            log is Some ==> log->0@ == log_of(id, body@)->0,
    {
        match id {
            MessageID::Version => match VersionLog::new(body.as_slice()) {
                Some(v) => Some(Log::Version(v)),
                None => None,
            },
            MessageID::BestXYZ => match BestXYZLog::new(body.as_slice()) {
                Some(b) => Some(Log::BestXYZ(b)),
                None => None,
            },
            _ => Some(Log::Unrecognized(id.code())),
        }
    }
}

} // verus!
