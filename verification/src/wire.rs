//! Little-endian integers on the wire.
//!
//! The layouts of both devices are built from one-, two-, four- and
//! eight-byte little-endian fields. This module says what such a field is
//! worth, reads one at an offset of a received buffer, and appends one to a
//! buffer that is being built.

use byteorder::{LittleEndian, WriteBytesExt};
use vstd::prelude::*;

verus! {

/// The value of the two bytes at `at`, lowest byte first.
pub open spec fn u16_at(s: Seq<u8>, at: int) -> u16 {
    (s[at] as int + 0x100 * (s[at + 1] as int)) as u16
}

/// The value of the four bytes at `at`, lowest byte first.
pub open spec fn u32_at(s: Seq<u8>, at: int) -> u32 {
    (s[at] as int + 0x100 * (s[at + 1] as int) + 0x1_0000 * (s[at + 2] as int) + 0x100_0000 * (
    s[at + 3] as int)) as u32
}

/// The value of the eight bytes at `at`, lowest byte first.
pub open spec fn u64_at(s: Seq<u8>, at: int) -> u64 {
    (u32_at(s, at) as int + 0x1_0000_0000 * (u32_at(s, at + 4) as int)) as u64
}

/// A byte read as a two's-complement number.
pub open spec fn signed8(v: u8) -> i8 {
    if v < 0x80 {
        v as i8
    } else {
        (v as int - 0x100) as i8
    }
}

/// Two bytes read as a two's-complement number.
pub open spec fn signed16(v: u16) -> i16 {
    if v < 0x8000 {
        v as i16
    } else {
        (v as int - 0x1_0000) as i16
    }
}

/// Four bytes read as a two's-complement number.
pub open spec fn signed32(v: u32) -> i32 {
    if v < 0x8000_0000 {
        v as i32
    } else {
        (v as int - 0x1_0000_0000) as i32
    }
}

/// The unsigned number with the same 32 bits as `v`.
pub open spec fn unsigned32(v: i32) -> u32 {
    if v >= 0 {
        v as u32
    } else {
        (v as int + 0x1_0000_0000) as u32
    }
}

/// The two bytes that carry `v`, lowest byte first.
pub open spec fn u16_bytes(v: u16) -> Seq<u8> {
    seq![(v % 0x100) as u8, (v / 0x100) as u8]
}

/// The four bytes that carry `v`, lowest byte first.
pub open spec fn u32_bytes(v: u32) -> Seq<u8> {
    seq![
        (v % 0x100) as u8,
        (v / 0x100 % 0x100) as u8,
        (v / 0x1_0000 % 0x100) as u8,
        (v / 0x100_0000) as u8,
    ]
}

/// The eight bytes that carry `v`, lowest byte first.
pub open spec fn u64_bytes(v: u64) -> Seq<u8> {
    u32_bytes((v % 0x1_0000_0000) as u32) + u32_bytes((v / 0x1_0000_0000) as u32)
}

/// `nom::le_u16`: succeeds exactly when at least two bytes are given, and then
/// yields the little-endian value of the first two. What follows them is not
/// looked at.
#[verifier::external_body]
pub(crate) fn nom_le_u16(input: &[u8]) -> (r: Option<u16>)
    ensures
        r is Some <==> input@.len() >= 2,
        r is Some ==> r->0 == u16_at(input@, 0),
{
    match nom::le_u16(input) {
        Ok((_, v)) => Some(v),
        Err(_) => None,
    }
}

/// `nom::le_u32`: succeeds exactly when at least four bytes are given, and
/// then yields the little-endian value of the first four.
#[verifier::external_body]
pub(crate) fn nom_le_u32(input: &[u8]) -> (r: Option<u32>)
    ensures
        r is Some <==> input@.len() >= 4,
        r is Some ==> r->0 == u32_at(input@, 0),
{
    match nom::le_u32(input) {
        Ok((_, v)) => Some(v),
        Err(_) => None,
    }
}

/// `nom::le_u64`: succeeds exactly when at least eight bytes are given, and
/// then yields the little-endian value of the first eight.
#[verifier::external_body]
pub(crate) fn nom_le_u64(input: &[u8]) -> (r: Option<u64>)
    ensures
        r is Some <==> input@.len() >= 8,
        r is Some ==> r->0 == u64_at(input@, 0),
{
    match nom::le_u64(input) {
        Ok((_, v)) => Some(v),
        Err(_) => None,
    }
}

/// `byteorder::WriteBytesExt::write_u16` with `LittleEndian`, on a vector:
/// the two bytes of `v` are appended, lowest first. Writing to a vector does
/// not fail.
#[verifier::external_body]
pub(crate) fn byteorder_write_u16(buf: &mut Vec<u8>, v: u16)
    ensures
        final(buf)@ == old(buf)@ + u16_bytes(v),
{
    let _ = buf.write_u16::<LittleEndian>(v);
}

/// `byteorder::WriteBytesExt::write_u32` with `LittleEndian`, on a vector:
/// the four bytes of `v` are appended, lowest first.
#[verifier::external_body]
pub(crate) fn byteorder_write_u32(buf: &mut Vec<u8>, v: u32)
    ensures
        final(buf)@ == old(buf)@ + u32_bytes(v),
{
    let _ = buf.write_u32::<LittleEndian>(v);
}

/// `byteorder::WriteBytesExt::write_u64` with `LittleEndian`, on a vector:
/// the eight bytes of `v` are appended, lowest first.
#[verifier::external_body]
pub(crate) fn byteorder_write_u64(buf: &mut Vec<u8>, v: u64)
    ensures
        final(buf)@ == old(buf)@ + u64_bytes(v),
{
    let _ = buf.write_u64::<LittleEndian>(v);
}

/// Whether `width` bytes starting at `at` lie inside a buffer of `len` bytes.
pub open spec fn fits(len: nat, at: int, width: int) -> bool {
    0 <= at && at + width <= len
}

/// Reads the byte at `at`.
pub(crate) fn read_u8(buf: &[u8], at: usize) -> (r: u8)
    requires
        fits(buf@.len(), at as int, 1),
    ensures
        r == buf@[at as int],
{
    buf[at]
}

/// Reads the little-endian `u16` at `at`.
pub(crate) fn read_u16(buf: &[u8], at: usize) -> (r: u16)
    requires
        fits(buf@.len(), at as int, 2),
    ensures
        r == u16_at(buf@, at as int),
{
    let field = vstd::slice::slice_subrange(buf, at, buf.len());
    match nom_le_u16(field) {
        Some(v) => v,
        None => vstd::pervasive::unreached(),
    }
}

/// Reads the little-endian `u32` at `at`.
pub(crate) fn read_u32(buf: &[u8], at: usize) -> (r: u32)
    requires
        fits(buf@.len(), at as int, 4),
    ensures
        r == u32_at(buf@, at as int),
{
    let field = vstd::slice::slice_subrange(buf, at, buf.len());
    match nom_le_u32(field) {
        Some(v) => v,
        None => vstd::pervasive::unreached(),
    }
}

/// Reads the little-endian `u64` at `at`.
pub(crate) fn read_u64(buf: &[u8], at: usize) -> (r: u64)
    requires
        fits(buf@.len(), at as int, 8),
    ensures
        r == u64_at(buf@, at as int),
{
    let field = vstd::slice::slice_subrange(buf, at, buf.len());
    match nom_le_u64(field) {
        Some(v) => v,
        None => vstd::pervasive::unreached(),
    }
}

/// Reads the byte at `at` as a two's-complement number.
pub(crate) fn read_i8(buf: &[u8], at: usize) -> (r: i8)
    requires
        fits(buf@.len(), at as int, 1),
    ensures
        r == signed8(buf@[at as int]),
{
    let v: u8 = buf[at];
    if v < 0x80 {
        v as i8
    } else {
        (v as i16 - 0x100) as i8
    }
}

/// Reads the little-endian two's-complement `i16` at `at`.
pub(crate) fn read_i16(buf: &[u8], at: usize) -> (r: i16)
    requires
        fits(buf@.len(), at as int, 2),
    ensures
        r == signed16(u16_at(buf@, at as int)),
{
    let v: u16 = read_u16(buf, at);
    if v < 0x8000 {
        v as i16
    } else {
        (v as i32 - 0x1_0000) as i16
    }
}

/// How many bytes each width takes.
pub proof fn lemma_bytes_len(a: u16, b: u32, c: u64)
    ensures
        u16_bytes(a).len() == 2,
        u32_bytes(b).len() == 4,
        u64_bytes(c).len() == 8,
{
}

/// The bytes of a `u16` spell that `u16`.
pub proof fn lemma_u16_round_trip(v: u16)
    ensures
        u16_bytes(v).len() == 2,
        u16_at(u16_bytes(v), 0) == v,
        (u16_bytes(v)[0] as int) + 0x100 * (u16_bytes(v)[1] as int) == v,
{
}

/// The bytes of a `u32` spell that `u32`.
pub proof fn lemma_u32_round_trip(v: u32)
    ensures
        u32_bytes(v).len() == 4,
        u32_at(u32_bytes(v), 0) == v,
        (u32_bytes(v)[0] as int) + 0x100 * (u32_bytes(v)[1] as int) + 0x1_0000 * (u32_bytes(
            v,
        )[2] as int) + 0x100_0000 * (u32_bytes(v)[3] as int) == v,
{
}

/// A number is split into its low byte and the rest in one way only.
proof fn lemma_low_byte(lo: int, hi: int, lo2: int, hi2: int)
    requires
        0 <= lo < 0x100,
        0 <= lo2 < 0x100,
        lo + 0x100 * hi == lo2 + 0x100 * hi2,
    ensures
        lo == lo2,
        hi == hi2,
{
}

/// Two bytes are known from the `u16` they spell.
pub proof fn lemma_u16_at_one_to_one(a: Seq<u8>, b: Seq<u8>, at: int)
    requires
        0 <= at,
        at + 2 <= a.len(),
        at + 2 <= b.len(),
        u16_at(a, at) == u16_at(b, at),
    ensures
        a[at] == b[at],
        a[at + 1] == b[at + 1],
{
    lemma_low_byte(a[at] as int, a[at + 1] as int, b[at] as int, b[at + 1] as int);
}

/// Four bytes are known from the `u32` they spell.
pub proof fn lemma_u32_at_one_to_one(a: Seq<u8>, b: Seq<u8>)
    requires
        a.len() == 4,
        b.len() == 4,
        u32_at(a, 0) == u32_at(b, 0),
    ensures
        a == b,
{
    let a2 = a[2] as int + 0x100 * (a[3] as int);
    let b2 = b[2] as int + 0x100 * (b[3] as int);
    let a1 = a[1] as int + 0x100 * a2;
    let b1 = b[1] as int + 0x100 * b2;
    assert(u32_at(a, 0) == a[0] as int + 0x100 * a1);
    assert(u32_at(b, 0) == b[0] as int + 0x100 * b1);
    lemma_low_byte(a[0] as int, a1, b[0] as int, b1);
    lemma_low_byte(a[1] as int, a2, b[1] as int, b2);
    lemma_low_byte(a[2] as int, a[3] as int, b[2] as int, b[3] as int);
    assert(a =~= b);
}

/// The bytes of a `u64` spell that `u64`.
pub proof fn lemma_u64_round_trip(v: u64)
    ensures
        u64_bytes(v).len() == 8,
        u64_at(u64_bytes(v), 0) == v,
{
    let lo = (v % 0x1_0000_0000) as u32;
    let hi = (v / 0x1_0000_0000) as u32;
    lemma_u32_round_trip(lo);
    lemma_u32_round_trip(hi);
    let s = u64_bytes(v);
    assert(s.len() == 8);
    assert forall|i: int| 0 <= i < 4 implies s[i] == u32_bytes(lo)[i] && s[i + 4] == u32_bytes(
        hi,
    )[i] by {}
}

} // verus!
