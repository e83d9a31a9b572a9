//! Frame engines for two serial spacecraft peripherals: a GNSS receiver that
//! speaks a CRC-32 protected, length-delimited binary protocol, and an
//! attitude-determination unit that emits fixed-size telemetry frames.
//!
//! Everything here works on bytes that a transport has already delivered and
//! produces bytes for a transport to send; the transport itself lives with the
//! caller.
//!
//! For the receiver, [`header`], [`command`], [`response`] and [`logs`] say
//! what travels, [`message`] how it is written out, [`crc32`] guards it, [`oem6`] is the engine that gathers
//! frames read by read, [`capture`] runs that engine over bytes at hand, and
//! [`resync`] finds frames where the place in the stream is lost.
//! For the attitude unit, [`mai400`] decodes a frame and [`checksum`] guards
//! it. [`wire`] and [`text`] hold what both share.

pub mod capture;
pub mod checksum;
pub mod command;
pub mod crc32;
pub mod header;
pub mod logs;
pub mod mai400;
pub mod message;
pub mod oem6;
pub mod response;
pub mod resync;
pub mod text;
pub mod wire;
