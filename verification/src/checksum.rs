//! The two integrity codes of the attitude unit: the 16-bit byte sum that
//! closes its standard telemetry, and the 16-bit cyclic redundancy check that
//! closes each of its auxiliary blocks.

use vstd::prelude::*;

verus! {

/// The sum of all bytes, as a number without bound.
pub open spec fn byte_sum(bytes: Seq<u8>) -> nat
    decreases bytes.len(),
{
    if bytes.len() == 0 {
        0
    } else {
        byte_sum(bytes.drop_last()) + bytes.last() as nat
    }
}

/// The byte sum, kept to its low 16 bits.
pub open spec fn sum16_of(bytes: Seq<u8>) -> u16 {
    (byte_sum(bytes) % 0x1_0000) as u16
}

/// Computes the 16-bit byte sum of `buffer`.
pub fn calc_sum16(buffer: &[u8]) -> (sum: u16)
    ensures
        sum == sum16_of(buffer@),
{
    let mut sum: u16 = 0;
    let mut i: usize = 0;
    while i < buffer.len()
        invariant
            i <= buffer@.len(),
            sum == sum16_of(buffer@.take(i as int)),
        decreases buffer@.len() - i,
    {
        proof {
            assert(buffer@.take(i + 1).drop_last() == buffer@.take(i as int));
        }
        sum = sum.wrapping_add(buffer[i] as u16);
        i = i + 1;
    }
    assert(buffer@.take(i as int) == buffer@);
    sum
}

/// Changing one byte changes the unbounded sum by the change of that byte.
proof fn lemma_byte_sum_changed(a: Seq<u8>, b: Seq<u8>, at: int)
    requires
        a.len() == b.len(),
        0 <= at < a.len(),
        forall|i: int| 0 <= i < a.len() && i != at ==> a[i] == b[i],
    ensures
        byte_sum(a) - byte_sum(b) == a[at] - b[at],
    decreases a.len(),
{
    let a0 = a.drop_last();
    let b0 = b.drop_last();
    if at == a.len() - 1 {
        assert(a0 == b0);
    } else {
        lemma_byte_sum_changed(a0, b0, at);
    }
}

/// Two sequences of one length that differ in exactly one byte never share
/// a 16-bit byte sum.
pub proof fn law_sum16_one_byte_changed(a: Seq<u8>, b: Seq<u8>, at: int)
    requires
        a.len() == b.len(),
        0 <= at < a.len(),
        a[at] != b[at],
        forall|i: int| 0 <= i < a.len() && i != at ==> a[i] == b[i],
    ensures
        sum16_of(a) != sum16_of(b),
{
    lemma_byte_sum_changed(a, b, at);
}

/// The generator polynomial of the 16-bit check, lowest-order coefficient in
/// the highest bit.
pub const CRC16_POLYNOMIAL: u16 = 0xA001;

/// One turn of the 16-bit shift register.
pub open spec fn shift16_bit(crc: u16) -> u16 {
    if crc & 1 == 1 {
        (crc >> 1) ^ CRC16_POLYNOMIAL
    } else {
        crc >> 1
    }
}

/// Eight turns of the 16-bit shift register.
pub open spec fn shift16_byte(crc: u16) -> u16 {
    shift16_bit(
        shift16_bit(
            shift16_bit(shift16_bit(shift16_bit(shift16_bit(shift16_bit(shift16_bit(crc)))))),
        ),
    )
}

/// `n` turns of the 16-bit shift register.
pub open spec fn shift16_bits(crc: u16, n: nat) -> u16
    decreases n,
{
    if n == 0 {
        crc
    } else {
        shift16_bit(shift16_bits(crc, (n - 1) as nat))
    }
}

/// The register after one more byte of input.
pub open spec fn crc16_step(crc: u16, byte: u8) -> u16 {
    shift16_byte(crc ^ (byte as u16))
}

/// The 16-bit check value of a byte sequence: the register starts at zero
/// and is not inverted at the end.
pub open spec fn crc16_of(bytes: Seq<u8>) -> u16
    decreases bytes.len(),
{
    if bytes.len() == 0 {
        0
    } else {
        crc16_step(crc16_of(bytes.drop_last()), bytes.last())
    }
}

proof fn lemma_shift16_bits_eight(crc: u16)
    ensures
        shift16_bits(crc, 8) == shift16_byte(crc),
{
    reveal_with_fuel(shift16_bits, 9);
}

/// Computes the 16-bit check value of `buffer`.
pub fn calc_crc16(buffer: &[u8]) -> (crc: u16)
    ensures
        crc == crc16_of(buffer@),
{
    let mut crc: u16 = 0;
    let mut i: usize = 0;
    while i < buffer.len()
        invariant
            i <= buffer@.len(),
            crc == crc16_of(buffer@.take(i as int)),
        decreases buffer@.len() - i,
    {
        let ghost before = crc;
        crc = crc ^ (buffer[i] as u16);
        let ghost folded = crc;
        let mut turn: u8 = 0;
        while turn < 8
            invariant
                turn <= 8,
                crc == shift16_bits(folded, turn as nat),
            decreases 8 - turn,
        {
            if crc & 1 == 1 {
                crc = (crc >> 1) ^ CRC16_POLYNOMIAL;
            } else {
                crc = crc >> 1;
            }
            turn = turn + 1;
        }
        proof {
            lemma_shift16_bits_eight(folded);
            assert(buffer@.take(i + 1).drop_last() == buffer@.take(i as int));
        }
        i = i + 1;
    }
    assert(buffer@.take(i as int) == buffer@);
    crc
}

proof fn lemma_shift16_bit_one_to_one(x: u16, y: u16)
    requires
        shift16_bit(x) == shift16_bit(y),
    ensures
        x == y,
{
    assert(shift16_bit(x) == shift16_bit(y) ==> x == y) by (bit_vector);
}

proof fn lemma_shift16_byte_one_to_one(x: u16, y: u16)
    requires
        shift16_byte(x) == shift16_byte(y),
    ensures
        x == y,
{
    let x1 = shift16_bit(x);
    let y1 = shift16_bit(y);
    let x2 = shift16_bit(x1);
    let y2 = shift16_bit(y1);
    let x3 = shift16_bit(x2);
    let y3 = shift16_bit(y2);
    let x4 = shift16_bit(x3);
    let y4 = shift16_bit(y3);
    let x5 = shift16_bit(x4);
    let y5 = shift16_bit(y4);
    let x6 = shift16_bit(x5);
    let y6 = shift16_bit(y5);
    let x7 = shift16_bit(x6);
    let y7 = shift16_bit(y6);
    lemma_shift16_bit_one_to_one(x7, y7);
    lemma_shift16_bit_one_to_one(x6, y6);
    lemma_shift16_bit_one_to_one(x5, y5);
    lemma_shift16_bit_one_to_one(x4, y4);
    lemma_shift16_bit_one_to_one(x3, y3);
    lemma_shift16_bit_one_to_one(x2, y2);
    lemma_shift16_bit_one_to_one(x1, y1);
    lemma_shift16_bit_one_to_one(x, y);
}

/// A byte step of the 16-bit register loses nothing.
pub proof fn lemma_crc16_step_one_to_one(c: u16, p: u8, d: u16, q: u8)
    requires
        crc16_step(c, p) == crc16_step(d, q),
    ensures
        c == d <==> p == q,
{
    lemma_shift16_byte_one_to_one(c ^ (p as u16), d ^ (q as u16));
    assert(c ^ (p as u16) == d ^ (q as u16) ==> (c == d <==> p == q)) by (bit_vector);
}

/// Two sequences of one length that differ in exactly one byte never share
/// a 16-bit check value.
pub proof fn law_crc16_one_byte_changed(a: Seq<u8>, b: Seq<u8>, at: int)
    requires
        a.len() == b.len(),
        0 <= at < a.len(),
        a[at] != b[at],
        forall|i: int| 0 <= i < a.len() && i != at ==> a[i] == b[i],
    ensures
        crc16_of(a) != crc16_of(b),
    decreases a.len(),
{
    let a0 = a.drop_last();
    let b0 = b.drop_last();
    if at == a.len() - 1 {
        assert(a0 == b0);
    } else {
        law_crc16_one_byte_changed(a0, b0, at);
    }
    if crc16_of(a) == crc16_of(b) {
        lemma_crc16_step_one_to_one(crc16_of(a0), a.last(), crc16_of(b0), b.last());
    }
}

} // verus!
