//! The attitude unit's telemetry frame.
//!
//! The unit sends one frame of 238 bytes per cycle. It holds three blocks,
//! each with its own sync marker and its own integrity code: the standard
//! telemetry, the horizon sensor block and the inertial block. The standard
//! telemetry is always there. Each of the other two is there when its header
//! announces it.
//!
//! Single-precision fields are held as the 32 bits that travel.

use crate::checksum::{
    calc_crc16, calc_sum16, crc16_of, law_crc16_one_byte_changed, law_sum16_one_byte_changed,
    sum16_of,
};
use crate::wire::{
    lemma_u16_at_one_to_one, read_i16, read_i8, read_u16, read_u32, read_u8, signed16, signed8,
    u16_at, u32_at,
};
use vstd::prelude::*;
use vstd::slice::slice_subrange;

verus! {

/// The length of a whole frame.
pub const FRAME_LEN: usize = 238;

/// The length of the standard telemetry, sync marker and checksum included.
pub const STD_LEN: usize = 161;

/// Where the checksum of the standard telemetry stands.
pub const STD_SUM_AT: usize = 159;

/// Where the horizon sensor block starts.
pub const IREHS_AT: usize = 161;

/// The length of the horizon sensor block, header and check value included.
pub const IREHS_LEN: usize = 56;

/// Where the inertial block starts.
pub const IMU_AT: usize = 217;

/// The length of the inertial block, header and check value included.
pub const IMU_LEN: usize = 21;

/// The two bytes that open the standard telemetry.
pub const SYNC: [u8; 2] = [0x90, 0xEB];

/// The two bytes that open an auxiliary block.
pub const AUX_SYNC: [u8; 2] = [0x91, 0xEA];

/// The length that the header of a horizon sensor block states.
pub const IREHS_DATA_LEN: u16 = 52;

/// The kind that the header of a horizon sensor block states.
pub const IREHS_KIND: u16 = 0x01A6;

/// The length that the header of an inertial block states.
pub const IMU_DATA_LEN: u16 = 17;

/// The kind that the header of an inertial block states.
pub const IMU_KIND: u16 = 0x00C8;

/// What can go wrong when talking to the attitude unit.
#[derive(Clone, Debug, PartialEq, Eq)]
pub enum MAIError {
    /// A frame could not be decoded; nothing more is known.
    GenericError,
    /// The serial driver failed.
    SerialError {
        /// What the driver said.
        cause: String,
    },
    /// The operating system failed a read or a write.
    IoError {
        /// What the system said.
        cause: String,
    },
}

/// The result of an operation on the attitude unit.
pub type MAIResult<T> = Result<T, MAIError>;

/// The bit of a thermopile that does not communicate.
pub const NO_COMM: u8 = 0x08;

/// The conditions that degrade one thermopile's part in the horizon
/// solution, one bit each. No bit set means the thermopile is nominal.
#[derive(Clone, Copy, Debug, PartialEq, Eq, Structural)]
pub struct ThermopileFlags {
    bits: u8,
}

impl ThermopileFlags {
    /// The set with one condition: the thermopile does not communicate.
    pub fn no_comm() -> (flags: ThermopileFlags)
        ensures
            flags == Self::of_bits(NO_COMM),
    {
        ThermopileFlags { bits: NO_COMM }
    }

    /// The flags as the byte that travels.
    pub closed spec fn bits_spec(&self) -> u8 {
        self.bits
    }

    /// The set with the bits of `bits`.
    pub closed spec fn of_bits(bits: u8) -> ThermopileFlags {
        ThermopileFlags { bits }
    }

    /// Whether every condition of `other` is in this set.
    pub open spec fn contains_spec(&self, other: ThermopileFlags) -> bool {
        self.bits_spec() & other.bits_spec() == other.bits_spec()
    }

    /// The set without any condition.
    pub fn empty() -> (flags: ThermopileFlags)
        ensures
            flags == Self::of_bits(0),
    {
        ThermopileFlags { bits: 0 }
    }

    /// The set that a byte of the frame stands for.
    pub fn from_bits(bits: u8) -> (flags: ThermopileFlags)
        ensures
            flags == Self::of_bits(bits),
    {
        ThermopileFlags { bits }
    }

    /// The flags as the byte that travels.
    #[verifier::when_used_as_spec(bits_spec)]
    pub fn bits(&self) -> (bits: u8)
        ensures
            bits == self.bits_spec(),
    {
        self.bits
    }

    /// Whether no condition is set.
    pub fn is_empty(&self) -> (r: bool)
        ensures
            r == (self.bits_spec() == 0),
    {
        self.bits == 0
    }

    /// Whether every condition of `other` is in this set.
    #[verifier::when_used_as_spec(contains_spec)]
    pub fn contains(&self, other: ThermopileFlags) -> (r: bool)
        ensures
            r == self.contains_spec(other),
    {
        self.bits & other.bits == other.bits
    }
}

/// A set of flags and the byte it came from determine each other.
pub proof fn lemma_flags_bits(bits: u8, flags: ThermopileFlags)
    ensures
        ThermopileFlags::of_bits(bits).bits_spec() == bits,
        ThermopileFlags::of_bits(flags.bits_spec()) == flags,
{
}

/// The standard telemetry of one cycle.
#[derive(Clone, Copy, Debug, PartialEq, Eq)]
pub struct StandardTelemetry {
    /// Rolling count of telemetry frames.
    pub tlm_counter: u8,
    /// GPS time in whole seconds.
    pub gps_time: u32,
    /// Fraction of the second.
    pub time_subsec: u8,
    /// Commands accepted.
    pub cmd_valid_cntr: u16,
    /// Commands refused.
    pub cmd_invalid_cntr: u16,
    /// Commands refused for their checksum.
    pub cmd_invalid_chksum_cntr: u16,
    /// The last command received.
    pub last_command: u8,
    /// Attitude control mode.
    pub acs_mode: u8,
    /// Raw readings of the six coarse sun sensors.
    pub css: [u16; 6],
    /// Whether the unit sees itself in eclipse.
    pub eclipse_flag: u8,
    /// Sun vector in the body frame.
    pub sun_vec_b: [i16; 3],
    /// Measured magnetic field in the body frame.
    pub i_b_field_meas: [i16; 3],
    /// Rate of change of the magnetic field; bits of three singles.
    pub bd: [u32; 3],
    /// Commanded reaction wheel speeds.
    pub rws_speed_cmd: [i16; 3],
    /// Measured reaction wheel speeds.
    pub rws_speed_tach: [i16; 3],
    /// Commanded reaction wheel torques; bits of three singles.
    pub rwa_torque_cmd: [u32; 3],
    /// Commanded reaction wheel torques, ground-calibrated.
    pub gc_rwa_torque_cmd: [i8; 3],
    /// Commanded coil torques; bits of three singles.
    pub torque_coil_cmd: [u32; 3],
    /// Commanded coil torques, ground-calibrated.
    pub gc_torque_coil_cmd: [i8; 3],
    /// Commanded orbit-to-body quaternion.
    pub qbo_cmd: [i16; 4],
    /// Estimated orbit-to-body quaternion.
    pub qbo_hat: [i16; 4],
    /// Angle left to the commanded attitude; bits of a single.
    pub angle_to_go: u32,
    /// Error quaternion.
    pub q_error: [i16; 4],
    /// Estimated body rate; bits of three singles.
    pub omega_b: [u32; 3],
    /// First rotating variable; its meaning changes from frame to frame.
    pub rotating_variable_a: u32,
    /// Second rotating variable.
    pub rotating_variable_b: u32,
    /// Third rotating variable.
    pub rotating_variable_c: u32,
    /// Nadir vector in the body frame.
    pub nb: [i16; 3],
    /// Nadir vector in the inertial frame.
    pub neci: [i16; 3],
}

/// Raw readings of the inertial unit.
#[derive(Clone, Copy, Debug, PartialEq, Eq)]
pub struct RawIMU {
    /// Acceleration along X, Y and Z.
    pub accel: [i16; 3],
    /// Rotation about X, Y and Z.
    pub gyro: [i16; 3],
    /// Temperature of the gyroscope.
    pub gyro_temp: i8,
}

/// Readings of the two infra-red horizon sensors.
#[derive(Clone, Copy, Debug, PartialEq, Eq)]
pub struct IREHSTelemetry {
    /// Readings of the four thermopiles of sensor A.
    pub thermopiles_a: [u16; 4],
    /// Readings of the four thermopiles of sensor B.
    pub thermopiles_b: [u16; 4],
    /// Temperatures of the thermopiles of sensor A.
    pub temp_a: [u16; 4],
    /// Temperatures of the thermopiles of sensor B.
    pub temp_b: [u16; 4],
    /// Dip angle seen by sensor A.
    pub dip_angle_a: u32,
    /// Dip angle seen by sensor B.
    pub dip_angle_b: u32,
    /// What degrades each of the eight thermopiles, A's four first.
    pub solution_degraded: [ThermopileFlags; 8],
}

/// The signed 16-bit field at `at`.
pub open spec fn i16_at(f: Seq<u8>, at: int) -> i16 {
    signed16(u16_at(f, at))
}

/// The standard telemetry that the first 159 bytes of `f` spell out.
pub open spec fn std_of(f: Seq<u8>) -> StandardTelemetry {
    StandardTelemetry {
        tlm_counter: f[2],
        gps_time: u32_at(f, 3),
        time_subsec: f[7],
        cmd_valid_cntr: u16_at(f, 8),
        cmd_invalid_cntr: u16_at(f, 10),
        cmd_invalid_chksum_cntr: u16_at(f, 12),
        last_command: f[14],
        acs_mode: f[15],
        css: [
            u16_at(f, 16),
            u16_at(f, 18),
            u16_at(f, 20),
            u16_at(f, 22),
            u16_at(f, 24),
            u16_at(f, 26),
        ],
        eclipse_flag: f[28],
        sun_vec_b: [i16_at(f, 29), i16_at(f, 31), i16_at(f, 33)],
        i_b_field_meas: [i16_at(f, 35), i16_at(f, 37), i16_at(f, 39)],
        bd: [u32_at(f, 41), u32_at(f, 45), u32_at(f, 49)],
        rws_speed_cmd: [i16_at(f, 53), i16_at(f, 55), i16_at(f, 57)],
        rws_speed_tach: [i16_at(f, 59), i16_at(f, 61), i16_at(f, 63)],
        rwa_torque_cmd: [u32_at(f, 65), u32_at(f, 69), u32_at(f, 73)],
        gc_rwa_torque_cmd: [signed8(f[77]), signed8(f[78]), signed8(f[79])],
        torque_coil_cmd: [u32_at(f, 80), u32_at(f, 84), u32_at(f, 88)],
        gc_torque_coil_cmd: [signed8(f[92]), signed8(f[93]), signed8(f[94])],
        qbo_cmd: [i16_at(f, 95), i16_at(f, 97), i16_at(f, 99), i16_at(f, 101)],
        qbo_hat: [i16_at(f, 103), i16_at(f, 105), i16_at(f, 107), i16_at(f, 109)],
        angle_to_go: u32_at(f, 111),
        q_error: [i16_at(f, 115), i16_at(f, 117), i16_at(f, 119), i16_at(f, 121)],
        omega_b: [u32_at(f, 123), u32_at(f, 127), u32_at(f, 131)],
        rotating_variable_a: u32_at(f, 135),
        rotating_variable_b: u32_at(f, 139),
        rotating_variable_c: u32_at(f, 143),
        nb: [i16_at(f, 147), i16_at(f, 149), i16_at(f, 151)],
        neci: [i16_at(f, 153), i16_at(f, 155), i16_at(f, 157)],
    }
}

/// The horizon sensor readings that bytes 167 to 214 of `f` spell out.
pub open spec fn irehs_of(f: Seq<u8>) -> IREHSTelemetry {
    IREHSTelemetry {
        thermopiles_a: [u16_at(f, 167), u16_at(f, 169), u16_at(f, 171), u16_at(f, 173)],
        thermopiles_b: [u16_at(f, 175), u16_at(f, 177), u16_at(f, 179), u16_at(f, 181)],
        temp_a: [u16_at(f, 183), u16_at(f, 185), u16_at(f, 187), u16_at(f, 189)],
        temp_b: [u16_at(f, 191), u16_at(f, 193), u16_at(f, 195), u16_at(f, 197)],
        dip_angle_a: u32_at(f, 199),
        dip_angle_b: u32_at(f, 203),
        solution_degraded: [
            ThermopileFlags::of_bits(f[207]),
            ThermopileFlags::of_bits(f[208]),
            ThermopileFlags::of_bits(f[209]),
            ThermopileFlags::of_bits(f[210]),
            ThermopileFlags::of_bits(f[211]),
            ThermopileFlags::of_bits(f[212]),
            ThermopileFlags::of_bits(f[213]),
            ThermopileFlags::of_bits(f[214]),
        ],
    }
}

/// The inertial readings that bytes 223 to 235 of `f` spell out.
pub open spec fn imu_of(f: Seq<u8>) -> RawIMU {
    RawIMU {
        accel: [i16_at(f, 223), i16_at(f, 225), i16_at(f, 227)],
        gyro: [i16_at(f, 229), i16_at(f, 231), i16_at(f, 233)],
        gyro_temp: signed8(f[235]),
    }
}

/// Whether the first six bytes of `block` are the header of an auxiliary
/// block of the given length and kind: the sync marker, then the length, then
/// the kind.
pub open spec fn announces(block: Seq<u8>, data_len: u16, kind: u16) -> bool {
    &&& block[0] == AUX_SYNC[0]
    &&& block[1] == AUX_SYNC[1]
    &&& u16_at(block, 2) == data_len
    &&& u16_at(block, 4) == kind
}

/// Whether `block` carries in its last two bytes the check value of all its
/// bytes between the sync marker and those two.
pub open spec fn block_checks(block: Seq<u8>) -> bool {
    u16_at(block, block.len() - 2) == crc16_of(block.subrange(2, block.len() - 2))
}

/// The bytes of the horizon sensor block.
pub open spec fn irehs_block(f: Seq<u8>) -> Seq<u8> {
    f.subrange(IREHS_AT as int, IREHS_AT + IREHS_LEN)
}

/// The bytes of the inertial block.
pub open spec fn imu_block(f: Seq<u8>) -> Seq<u8> {
    f.subrange(IMU_AT as int, IMU_AT + IMU_LEN)
}

/// Whether a horizon sensor block is announced.
pub open spec fn has_irehs(f: Seq<u8>) -> bool {
    announces(irehs_block(f), IREHS_DATA_LEN, IREHS_KIND)
}

/// Whether an inertial block is announced.
pub open spec fn has_imu(f: Seq<u8>) -> bool {
    announces(imu_block(f), IMU_DATA_LEN, IMU_KIND)
}

/// Whether the horizon sensor block is announced and does not check.
pub open spec fn irehs_fails(f: Seq<u8>) -> bool {
    has_irehs(f) && !block_checks(irehs_block(f))
}

/// Whether the inertial block is announced and does not check.
pub open spec fn imu_fails(f: Seq<u8>) -> bool {
    has_imu(f) && !block_checks(imu_block(f))
}

/// Why a frame is refused.
#[derive(Clone, Copy, Debug, PartialEq, Eq, Structural)]
pub enum Fault {
    /// The read did not bring a whole frame, or brought more.
    Length,
    /// The frame does not open with the sync marker.
    Sync,
    /// The checksum of the standard telemetry does not match.
    Checksum,
    /// A block that is announced does not match its check value.
    Block,
}

/// The first thing that is wrong with a frame, in the order length, sync
/// marker, checksum, announced blocks; nothing where the frame is sound.
pub open spec fn fault_of(f: Seq<u8>) -> Option<Fault> {
    if f.len() != FRAME_LEN {
        Some(Fault::Length)
    } else if f[0] != SYNC[0] || f[1] != SYNC[1] {
        Some(Fault::Sync)
    } else if u16_at(f, STD_SUM_AT as int) != sum16_of(f.take(STD_SUM_AT as int)) {
        Some(Fault::Checksum)
    } else if irehs_fails(f) || imu_fails(f) {
        Some(Fault::Block)
    } else {
        None
    }
}

/// What one frame carries: the standard telemetry, and with it whichever of
/// the other two blocks the unit sent along.
#[derive(Clone, Copy, Debug, PartialEq, Eq)]
pub enum Telemetry {
    /// The standard telemetry alone.
    Standard(StandardTelemetry),
    /// The standard telemetry and the inertial readings.
    WithImu(StandardTelemetry, RawIMU),
    /// The standard telemetry and the horizon sensor readings.
    WithIrehs(StandardTelemetry, IREHSTelemetry),
    /// All three.
    Complete(StandardTelemetry, RawIMU, IREHSTelemetry),
}

impl Telemetry {
    /// The three blocks, each where the frame carried it.
    pub open spec fn slots_spec(self) -> (
        Option<StandardTelemetry>,
        Option<RawIMU>,
        Option<IREHSTelemetry>,
    ) {
        match self {
            Telemetry::Standard(std) => (Some(std), None, None),
            Telemetry::WithImu(std, imu) => (Some(std), Some(imu), None),
            Telemetry::WithIrehs(std, irehs) => (Some(std), None, Some(irehs)),
            Telemetry::Complete(std, imu, irehs) => (Some(std), Some(imu), Some(irehs)),
        }
    }

    /// The three blocks, each where the frame carried it.
    #[verifier::when_used_as_spec(slots_spec)]
    pub fn slots(self) -> (r: (Option<StandardTelemetry>, Option<RawIMU>, Option<IREHSTelemetry>))
        ensures
            r == self.slots_spec(),
    {
        match self {
            Telemetry::Standard(std) => (Some(std), None, None),
            Telemetry::WithImu(std, imu) => (Some(std), Some(imu), None),
            Telemetry::WithIrehs(std, irehs) => (Some(std), None, Some(irehs)),
            Telemetry::Complete(std, imu, irehs) => (Some(std), Some(imu), Some(irehs)),
        }
    }
}

/// What a frame carries.
///
/// A frame with a fault is refused, whatever the fault. A sound frame
/// carries the standard telemetry, and each of the other two blocks where it
/// is announced.
pub open spec fn content_of(f: Seq<u8>) -> MAIResult<Telemetry> {
    if fault_of(f) is Some {
        Err(MAIError::GenericError)
    } else if has_imu(f) && has_irehs(f) {
        Ok(Telemetry::Complete(std_of(f), imu_of(f), irehs_of(f)))
    } else if has_imu(f) {
        Ok(Telemetry::WithImu(std_of(f), imu_of(f)))
    } else if has_irehs(f) {
        Ok(Telemetry::WithIrehs(std_of(f), irehs_of(f)))
    } else {
        Ok(Telemetry::Standard(std_of(f)))
    }
}

/// What a frame decodes to, block by block: a block that the frame does not
/// carry is absent.
pub open spec fn decoded(f: Seq<u8>) -> MAIResult<
    (Option<StandardTelemetry>, Option<RawIMU>, Option<IREHSTelemetry>),
> {
    match content_of(f) {
        Ok(content) => Ok(content.slots_spec()),
        Err(e) => Err(e),
    }
}

fn parse_std(f: &[u8]) -> (t: StandardTelemetry)
    requires
        f@.len() == FRAME_LEN,
    ensures
        t == std_of(f@),
{
    StandardTelemetry {
        tlm_counter: read_u8(f, 2),
        gps_time: read_u32(f, 3),
        time_subsec: read_u8(f, 7),
        cmd_valid_cntr: read_u16(f, 8),
        cmd_invalid_cntr: read_u16(f, 10),
        cmd_invalid_chksum_cntr: read_u16(f, 12),
        last_command: read_u8(f, 14),
        acs_mode: read_u8(f, 15),
        css: [
            read_u16(f, 16),
            read_u16(f, 18),
            read_u16(f, 20),
            read_u16(f, 22),
            read_u16(f, 24),
            read_u16(f, 26),
        ],
        eclipse_flag: read_u8(f, 28),
        sun_vec_b: [read_i16(f, 29), read_i16(f, 31), read_i16(f, 33)],
        i_b_field_meas: [read_i16(f, 35), read_i16(f, 37), read_i16(f, 39)],
        bd: [read_u32(f, 41), read_u32(f, 45), read_u32(f, 49)],
        rws_speed_cmd: [read_i16(f, 53), read_i16(f, 55), read_i16(f, 57)],
        rws_speed_tach: [read_i16(f, 59), read_i16(f, 61), read_i16(f, 63)],
        rwa_torque_cmd: [read_u32(f, 65), read_u32(f, 69), read_u32(f, 73)],
        gc_rwa_torque_cmd: [read_i8(f, 77), read_i8(f, 78), read_i8(f, 79)],
        torque_coil_cmd: [read_u32(f, 80), read_u32(f, 84), read_u32(f, 88)],
        gc_torque_coil_cmd: [read_i8(f, 92), read_i8(f, 93), read_i8(f, 94)],
        qbo_cmd: [read_i16(f, 95), read_i16(f, 97), read_i16(f, 99), read_i16(f, 101)],
        qbo_hat: [read_i16(f, 103), read_i16(f, 105), read_i16(f, 107), read_i16(f, 109)],
        angle_to_go: read_u32(f, 111),
        q_error: [read_i16(f, 115), read_i16(f, 117), read_i16(f, 119), read_i16(f, 121)],
        omega_b: [read_u32(f, 123), read_u32(f, 127), read_u32(f, 131)],
        rotating_variable_a: read_u32(f, 135),
        rotating_variable_b: read_u32(f, 139),
        rotating_variable_c: read_u32(f, 143),
        nb: [read_i16(f, 147), read_i16(f, 149), read_i16(f, 151)],
        neci: [read_i16(f, 153), read_i16(f, 155), read_i16(f, 157)],
    }
}

fn parse_irehs(f: &[u8]) -> (t: IREHSTelemetry)
    requires
        f@.len() == FRAME_LEN,
    ensures
        t == irehs_of(f@),
{
    IREHSTelemetry {
        thermopiles_a: [read_u16(f, 167), read_u16(f, 169), read_u16(f, 171), read_u16(f, 173)],
        thermopiles_b: [read_u16(f, 175), read_u16(f, 177), read_u16(f, 179), read_u16(f, 181)],
        temp_a: [read_u16(f, 183), read_u16(f, 185), read_u16(f, 187), read_u16(f, 189)],
        temp_b: [read_u16(f, 191), read_u16(f, 193), read_u16(f, 195), read_u16(f, 197)],
        dip_angle_a: read_u32(f, 199),
        dip_angle_b: read_u32(f, 203),
        solution_degraded: [
            ThermopileFlags::from_bits(read_u8(f, 207)),
            ThermopileFlags::from_bits(read_u8(f, 208)),
            ThermopileFlags::from_bits(read_u8(f, 209)),
            ThermopileFlags::from_bits(read_u8(f, 210)),
            ThermopileFlags::from_bits(read_u8(f, 211)),
            ThermopileFlags::from_bits(read_u8(f, 212)),
            ThermopileFlags::from_bits(read_u8(f, 213)),
            ThermopileFlags::from_bits(read_u8(f, 214)),
        ],
    }
}

fn parse_imu(f: &[u8]) -> (t: RawIMU)
    requires
        f@.len() == FRAME_LEN,
    ensures
        t == imu_of(f@),
{
    RawIMU {
        accel: [read_i16(f, 223), read_i16(f, 225), read_i16(f, 227)],
        gyro: [read_i16(f, 229), read_i16(f, 231), read_i16(f, 233)],
        gyro_temp: read_i8(f, 235),
    }
}

fn is_announced(block: &[u8], data_len: u16, kind: u16) -> (r: bool)
    requires
        6 <= block@.len(),
    ensures
        r == announces(block@, data_len, kind),
{
    block[0] == AUX_SYNC[0] && block[1] == AUX_SYNC[1] && read_u16(block, 2) == data_len
        && read_u16(block, 4) == kind
}

fn block_is_sound(block: &[u8]) -> (r: bool)
    requires
        4 <= block@.len(),
    ensures
        r == block_checks(block@),
{
    let end: usize = block.len() - 2;
    read_u16(block, end) == calc_crc16(slice_subrange(block, 2, end))
}

/// The decoder for one attitude unit.
pub struct MAI400 {}

impl MAI400 {
    /// A decoder. It keeps nothing from one frame to the next.
    pub fn new() -> MAI400 {
        MAI400 {  }
    }

    /// How many bytes one read has to fetch: a whole frame.
    pub fn wanted(&self) -> (n: usize)
        ensures
            n == FRAME_LEN,
    {
        FRAME_LEN
    }

    /// Finds the first thing that is wrong with the bytes of one read.
    pub fn fault(&self, frame: &[u8]) -> (r: Option<Fault>)
        ensures
            r == fault_of(frame@),
    {
        if frame.len() != FRAME_LEN {
            return Some(Fault::Length);
        }
        if frame[0] != SYNC[0] || frame[1] != SYNC[1] {
            return Some(Fault::Sync);
        }
        let summed = slice_subrange(frame, 0, STD_SUM_AT);
        assert(summed@ == frame@.take(STD_SUM_AT as int));
        if read_u16(frame, STD_SUM_AT) != calc_sum16(summed) {
            return Some(Fault::Checksum);
        }
        let irehs = slice_subrange(frame, IREHS_AT, IREHS_AT + IREHS_LEN);
        if is_announced(irehs, IREHS_DATA_LEN, IREHS_KIND) && !block_is_sound(irehs) {
            return Some(Fault::Block);
        }
        let imu = slice_subrange(frame, IMU_AT, IMU_AT + IMU_LEN);
        if is_announced(imu, IMU_DATA_LEN, IMU_KIND) && !block_is_sound(imu) {
            return Some(Fault::Block);
        }
        None
    }

    /// Decodes the bytes of one read into what the frame carries.
    pub fn decode(&self, frame: &[u8]) -> (r: MAIResult<Telemetry>)
        ensures
            r == content_of(frame@),
    {
        if self.fault(frame).is_some() {
            return Err(MAIError::GenericError);
        }
        let irehs = slice_subrange(frame, IREHS_AT, IREHS_AT + IREHS_LEN);
        let with_irehs = is_announced(irehs, IREHS_DATA_LEN, IREHS_KIND);
        let imu = slice_subrange(frame, IMU_AT, IMU_AT + IMU_LEN);
        let with_imu = is_announced(imu, IMU_DATA_LEN, IMU_KIND);
        let std = parse_std(frame);
        if with_imu && with_irehs {
            Ok(Telemetry::Complete(std, parse_imu(frame), parse_irehs(frame)))
        } else if with_imu {
            Ok(Telemetry::WithImu(std, parse_imu(frame)))
        } else if with_irehs {
            Ok(Telemetry::WithIrehs(std, parse_irehs(frame)))
        } else {
            Ok(Telemetry::Standard(std))
        }
    }

    /// Decodes the bytes of one read, block by block.
    pub fn get_message(&self, frame: &[u8]) -> (r: MAIResult<
        (Option<StandardTelemetry>, Option<RawIMU>, Option<IREHSTelemetry>),
    >)
        ensures
            r == decoded(frame@),
    {
        match self.decode(frame) {
            Ok(content) => Ok(content.slots()),
            Err(e) => Err(e),
        }
    }
}

/// A frame that does not open with the sync marker is refused, whatever
/// else it holds.
pub proof fn law_bad_sync_is_refused(f: Seq<u8>)
    requires
        f.len() < 2 || f[0] != SYNC[0] || f[1] != SYNC[1],
    ensures
        fault_of(f) == Some(Fault::Length) || fault_of(f) == Some(Fault::Sync),
        decoded(f) == Err::<
            (Option<StandardTelemetry>, Option<RawIMU>, Option<IREHSTelemetry>),
            MAIError,
        >(MAIError::GenericError),
{
}

/// The flags of each thermopile are the byte at that thermopile's place and
/// nothing else: two frames that agree in that byte agree in those flags,
/// whatever the bytes of the other seven thermopiles are.
pub proof fn law_flags_by_position(f: Seq<u8>, g: Seq<u8>, i: int)
    requires
        0 <= i < 8,
        f[207 + i] == g[207 + i],
    ensures
        irehs_of(f).solution_degraded[i] == irehs_of(g).solution_degraded[i],
        irehs_of(f).solution_degraded[i].bits_spec() == f[207 + i],
        irehs_of(f).solution_degraded[i] == ThermopileFlags::of_bits(f[207 + i]),
{
}

/// One changed byte in an auxiliary block that was announced and sound
/// leaves the block either unannounced or unsound.
proof fn lemma_block_changed(good: Seq<u8>, bad: Seq<u8>, at: int, data_len: u16, kind: u16)
    requires
        good.len() == bad.len(),
        6 <= good.len(),
        0 <= at < good.len(),
        good[at] != bad[at],
        forall|i: int| 0 <= i < good.len() && i != at ==> good[i] == bad[i],
        announces(good, data_len, kind),
        block_checks(good),
    ensures
        !announces(bad, data_len, kind) || !block_checks(bad),
{
    let end = good.len() - 2;
    if at < 2 {
    } else if at < 4 {
        if u16_at(bad, 2) == data_len {
            lemma_u16_at_one_to_one(good, bad, 2);
        }
    } else if at < 6 {
        if u16_at(bad, 4) == kind {
            lemma_u16_at_one_to_one(good, bad, 4);
        }
    } else if at < end {
        law_crc16_one_byte_changed(good.subrange(2, end), bad.subrange(2, end), at - 2);
    } else {
        assert(good.subrange(2, end) == bad.subrange(2, end));
        if u16_at(bad, end) == u16_at(good, end) {
            lemma_u16_at_one_to_one(good, bad, end);
        }
    }
}

/// No frame that differs in one byte from a frame that decodes yields
/// anything from the block that holds that byte: a change in the standard
/// telemetry has the frame refused, and a change in an auxiliary block that
/// was there has the frame refused or that block left out.
#[verifier::rlimit(50)]
pub proof fn law_changed_byte_is_caught(good: Seq<u8>, bad: Seq<u8>, at: int)
    requires
        good.len() == bad.len(),
        0 <= at < good.len(),
        good[at] != bad[at],
        forall|i: int| 0 <= i < good.len() && i != at ==> good[i] == bad[i],
        decoded(good) is Ok,
        IREHS_AT <= at < IMU_AT ==> has_irehs(good),
        IMU_AT <= at ==> has_imu(good),
    ensures
        at < 2 ==> fault_of(bad) == Some(Fault::Sync),
        2 <= at < IREHS_AT ==> fault_of(bad) == Some(Fault::Checksum),
        at < IREHS_AT ==> decoded(bad) is Err,
        IREHS_AT <= at < IMU_AT ==> (decoded(bad) matches Ok(t) ==> t.2 is None),
        IMU_AT <= at ==> (decoded(bad) matches Ok(t) ==> t.1 is None),
{
    let sum_at = STD_SUM_AT as int;
    if at < 2 {
    } else if at < sum_at {
        law_sum16_one_byte_changed(good.take(sum_at), bad.take(sum_at), at);
    } else if at < IREHS_AT {
        assert(good.take(sum_at) == bad.take(sum_at));
        if u16_at(bad, sum_at) == u16_at(good, sum_at) {
            lemma_u16_at_one_to_one(good, bad, sum_at);
        }
    } else if at < IMU_AT {
        lemma_block_changed(
            irehs_block(good),
            irehs_block(bad),
            at - IREHS_AT,
            IREHS_DATA_LEN,
            IREHS_KIND,
        );
    } else {
        lemma_block_changed(imu_block(good), imu_block(bad), at - IMU_AT, IMU_DATA_LEN, IMU_KIND);
    }
}

/// A frame that decodes always yields its standard telemetry.
pub proof fn law_standard_is_always_there(f: Seq<u8>)
    requires
        decoded(f) is Ok,
    ensures
        decoded(f) matches Ok(t) && t.0 == Some(std_of(f)),
{
}

} // verus!
