//! The 32-bit cyclic redundancy check that closes every receiver frame.
//!
//! The check is the reflected CRC-32 with generator `0xEDB88320`, started at
//! zero and not inverted at the end. It is defined here bit by bit, as the
//! shift register it is; the executable code works a byte at a time.

use crate::wire::u32_bytes;
use vstd::prelude::*;

verus! {

/// The generator polynomial, lowest-order coefficient in the highest bit.
pub const CRC32_POLYNOMIAL: u32 = 0xEDB8_8320;

/// One turn of the shift register: the lowest bit leaves, and where it was
/// set the generator is folded in.
pub open spec fn shift_bit(crc: u32) -> u32 {
    if crc & 1 == 1 {
        (crc >> 1) ^ CRC32_POLYNOMIAL
    } else {
        crc >> 1
    }
}

/// Eight turns of the shift register.
pub open spec fn shift_byte(crc: u32) -> u32 {
    shift_bit(shift_bit(shift_bit(shift_bit(shift_bit(shift_bit(shift_bit(shift_bit(crc))))))))
}

/// `n` turns of the shift register.
pub open spec fn shift_bits(crc: u32, n: nat) -> u32
    decreases n,
{
    if n == 0 {
        crc
    } else {
        shift_bit(shift_bits(crc, (n - 1) as nat))
    }
}

/// The register after one more byte of input: the byte is folded into the
/// low end and shifted through.
pub open spec fn crc_step(crc: u32, byte: u8) -> u32 {
    shift_byte(crc ^ (byte as u32))
}

/// The check value of a byte sequence.
pub open spec fn crc_of(bytes: Seq<u8>) -> u32
    decreases bytes.len(),
{
    if bytes.len() == 0 {
        0
    } else {
        crc_step(crc_of(bytes.drop_last()), bytes.last())
    }
}

proof fn lemma_shift_bits_eight(crc: u32)
    ensures
        shift_bits(crc, 8) == shift_byte(crc),
{
    reveal_with_fuel(shift_bits, 9);
}

/// The register value that a single byte leaves behind when it enters an
/// empty register.
pub fn crc32_value(byte: u8) -> (crc: u32)
    ensures
        crc == shift_byte(byte as u32),
{
    let mut crc: u32 = byte as u32;
    let mut turn: u8 = 0;
    while turn < 8
        invariant
            turn <= 8,
            crc == shift_bits(byte as u32, turn as nat),
        decreases 8 - turn,
    {
        if crc & 1 == 1 {
            crc = (crc >> 1) ^ CRC32_POLYNOMIAL;
        } else {
            crc = crc >> 1;
        }
        turn = turn + 1;
    }
    proof {
        lemma_shift_bits_eight(byte as u32);
    }
    crc
}

/// Only the low byte of the register meets the input, so a byte step is a
/// shift by eight and the single-byte value of what met.
#[verifier::rlimit(50)]
proof fn lemma_byte_step(crc: u32, byte: u8)
    ensures
        ((crc ^ (byte as u32)) & 0xFF) < 0x100,
        crc_step(crc, byte) == (crc >> 8) ^ shift_byte((crc ^ (byte as u32)) & 0xFF),
{
    let x: u32 = crc ^ (byte as u32);
    assert((x & 0xFF) < 0x100) by (bit_vector);
    assert(crc >> 8 == x >> 8) by (bit_vector)
        requires
            x == crc ^ (byte as u32),
    ;
    assert(shift_byte(x) == (x >> 8) ^ shift_byte(x & 0xFF)) by (bit_vector);
}

/// Computes the check value of `buffer`.
pub fn calc_crc(buffer: &[u8]) -> (crc: u32)
    ensures
        crc == crc_of(buffer@),
{
    let mut crc: u32 = 0;
    let mut i: usize = 0;
    while i < buffer.len()
        invariant
            i <= buffer@.len(),
            crc == crc_of(buffer@.take(i as int)),
        decreases buffer@.len() - i,
    {
        let byte: u8 = buffer[i];
        let low: u32 = (crc ^ (byte as u32)) & 0xFF;
        proof {
            lemma_byte_step(crc, byte);
            assert(buffer@.take(i + 1).drop_last() == buffer@.take(i as int));
        }
        crc = (crc >> 8) ^ crc32_value(low as u8);
        i = i + 1;
    }
    assert(buffer@.take(i as int) == buffer@);
    crc
}

/// Appending one byte advances the register by one byte step.
pub proof fn lemma_crc_push(bytes: Seq<u8>, byte: u8)
    ensures
        crc_of(bytes.push(byte)) == crc_step(crc_of(bytes), byte),
{
    assert(bytes.push(byte).drop_last() == bytes);
}

proof fn lemma_shift_bit_one_to_one(x: u32, y: u32)
    requires
        shift_bit(x) == shift_bit(y),
    ensures
        x == y,
{
    assert(shift_bit(x) == shift_bit(y) ==> x == y) by (bit_vector);
}

proof fn lemma_shift_byte_one_to_one(x: u32, y: u32)
    requires
        shift_byte(x) == shift_byte(y),
    ensures
        x == y,
{
    let x1 = shift_bit(x);
    let y1 = shift_bit(y);
    let x2 = shift_bit(x1);
    let y2 = shift_bit(y1);
    let x3 = shift_bit(x2);
    let y3 = shift_bit(y2);
    let x4 = shift_bit(x3);
    let y4 = shift_bit(y3);
    let x5 = shift_bit(x4);
    let y5 = shift_bit(y4);
    let x6 = shift_bit(x5);
    let y6 = shift_bit(y5);
    let x7 = shift_bit(x6);
    let y7 = shift_bit(y6);
    lemma_shift_bit_one_to_one(x7, y7);
    lemma_shift_bit_one_to_one(x6, y6);
    lemma_shift_bit_one_to_one(x5, y5);
    lemma_shift_bit_one_to_one(x4, y4);
    lemma_shift_bit_one_to_one(x3, y3);
    lemma_shift_bit_one_to_one(x2, y2);
    lemma_shift_bit_one_to_one(x1, y1);
    lemma_shift_bit_one_to_one(x, y);
}

/// A byte step loses nothing: from the register after the step and either
/// of its two inputs the other input follows.
pub proof fn lemma_crc_step_one_to_one(c: u32, p: u8, d: u32, q: u8)
    requires
        crc_step(c, p) == crc_step(d, q),
    ensures
        c == d <==> p == q,
{
    lemma_shift_byte_one_to_one(c ^ (p as u32), d ^ (q as u32));
    assert(c ^ (p as u32) == d ^ (q as u32) ==> (c == d <==> p == q)) by (bit_vector);
}

/// Two sequences of one length that differ in exactly one byte never share
/// a check value. A flipped bit is the smallest such difference.
pub proof fn law_one_byte_changed(a: Seq<u8>, b: Seq<u8>, at: int)
    requires
        a.len() == b.len(),
        0 <= at < a.len(),
        a[at] != b[at],
        forall|i: int| 0 <= i < a.len() && i != at ==> a[i] == b[i],
    ensures
        crc_of(a) != crc_of(b),
    decreases a.len(),
{
    let a0 = a.drop_last();
    let b0 = b.drop_last();
    if at == a.len() - 1 {
        assert(a0 == b0);
    } else {
        law_one_byte_changed(a0, b0, at);
    }
    if crc_of(a) == crc_of(b) {
        lemma_crc_step_one_to_one(crc_of(a0), a.last(), crc_of(b0), b.last());
    }
}

/// Fed its own low byte, the register simply moves down by eight bits.
proof fn lemma_own_low_byte(c: u32)
    ensures
        crc_step(c, (c % 0x100) as u8) == c >> 8,
{
    assert(shift_byte(c ^ (((c % 0x100) as u8) as u32)) == c >> 8) by (bit_vector);
}

/// A message followed by its own check value, lowest byte first, checks to
/// zero.
pub proof fn law_residue_is_zero(message: Seq<u8>)
    ensures
        crc_of(message + u32_bytes(crc_of(message))) == 0,
{
    let c = crc_of(message);
    let t = u32_bytes(c);
    let c1: u32 = c >> 8;
    let c2: u32 = c1 >> 8;
    let c3: u32 = c2 >> 8;
    assert(c >> 8 == c / 0x100 && (c >> 8) >> 8 == c / 0x1_0000 && ((c >> 8) >> 8) >> 8 == c
        / 0x100_0000 && (((c >> 8) >> 8) >> 8) >> 8 == 0) by (bit_vector);
    let m1 = message.push(t[0]);
    let m2 = m1.push(t[1]);
    let m3 = m2.push(t[2]);
    let m4 = m3.push(t[3]);
    assert(m4 == message + t);
    lemma_crc_push(message, t[0]);
    lemma_own_low_byte(c);
    lemma_crc_push(m1, t[1]);
    lemma_own_low_byte(c1);
    lemma_crc_push(m2, t[2]);
    lemma_own_low_byte(c2);
    lemma_crc_push(m3, t[3]);
    lemma_own_low_byte(c3);
}

} // verus!
