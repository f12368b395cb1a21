//! The arithmetic unit: what each operation computes from the latch Z and the
//! operand, as a value together with its carry and overflow conditions.

use vstd::prelude::*;
use crate::word::spec_is_negative;

verus! {

/// The outcome of an arithmetic operation.
#[derive(Clone, Copy, Debug, PartialEq, Eq, Structural)]
pub struct AluResult {
    /// The sixteen-bit result.
    pub value: u16,
    /// Carry out of bit 15 (addition), or borrow (subtraction).
    pub carry: bool,
    /// The signed result does not fit in sixteen bits.
    pub overflow: bool,
}

/// A word read as a two's-complement number.
pub open spec fn signed(word: u16) -> int {
    if spec_is_negative(word) {
        word - 0x10000
    } else {
        word as int
    }
}

/// Addition: the sum within sixteen bits; carry when the unsigned sum does not
/// fit; overflow when the operands share a sign and the result has the other.
pub open spec fn spec_add_words(z: u16, m: u16) -> AluResult {
    let value = ((z + m) % 0x10000) as u16;
    AluResult {
        value,
        carry: z + m > 0xFFFF,
        overflow: spec_is_negative(z) == spec_is_negative(m) && spec_is_negative(value)
            != spec_is_negative(z),
    }
}

/// Subtraction `z - m`: the difference within sixteen bits; carry is the
/// borrow; overflow when the operands differ in sign and the result's sign
/// differs from that of `z`.
pub open spec fn spec_subtract_words(z: u16, m: u16) -> AluResult {
    let value = ((z - m) % 0x10000) as u16;
    AluResult {
        value,
        carry: z < m,
        overflow: spec_is_negative(z) != spec_is_negative(m) && spec_is_negative(value)
            != spec_is_negative(z),
    }
}

/// The bitwise complement of a word.
pub open spec fn spec_complement(z: u16) -> u16 {
    (0xFFFF - z) as u16
}

/// A word rotated left by one bit: bit 15 moves into bit 0.
pub open spec fn spec_rotate_left(z: u16) -> u16 {
    ((z % 0x8000) * 2 + z / 0x8000) as u16
}

proof fn lemma_sign_bits(x: u16, y: u16)
    by (bit_vector)
    ensures
        ((x ^ y) & 0x8000 != 0) == ((x >= 0x8000) != (y >= 0x8000)),
        ((x ^ y) & 0x8000 == 0) == ((x >= 0x8000) == (y >= 0x8000)),
{
}

#[verifier::when_used_as_spec(spec_add_words)]
pub fn add_words(z: u16, m: u16) -> (result: AluResult)
    ensures
        result == spec_add_words(z, m),
{
    let wide: u32 = z as u32 + m as u32;
    let value: u16 = z.wrapping_add(m);
    proof {
        lemma_sign_bits(z, value);
        lemma_sign_bits(z, m);
    }
    let overflow: bool = ((z ^ value) & 0x8000 != 0) && ((z ^ m) & 0x8000 == 0);
    let carry: bool = wide > 0xFFFF;
    AluResult { value, carry, overflow }
}

#[verifier::when_used_as_spec(spec_subtract_words)]
pub fn subtract_words(z: u16, m: u16) -> (result: AluResult)
    ensures
        result == spec_subtract_words(z, m),
{
    let value: u16 = z.wrapping_sub(m);
    proof {
        lemma_sign_bits(z, value);
        lemma_sign_bits(z, m);
    }
    let carry: bool = z < m;
    let overflow: bool = ((z ^ m) & 0x8000 != 0) && ((z ^ value) & 0x8000 != 0);
    AluResult { value, carry, overflow }
}

#[verifier::when_used_as_spec(spec_complement)]
pub fn complement(z: u16) -> (value: u16)
    ensures
        value == spec_complement(z),
{
    assert(!z == 0xFFFF - z) by (bit_vector);
    !z
}

#[verifier::when_used_as_spec(spec_rotate_left)]
pub fn rotate_left(z: u16) -> (value: u16)
    ensures
        value == spec_rotate_left(z),
{
    assert(((z & 0x8000) >> 15) | (z << 1) == (z % 0x8000) * 2 + z / 0x8000) by (bit_vector);
    ((z & 0x8000) >> 15) | (z << 1)
}

/// The overflow condition of addition is signed overflow: it holds exactly
/// when the sum of the operands, read as two's-complement numbers, leaves the
/// sixteen-bit signed range; when it does not hold, the result is that sum.
pub proof fn lemma_add_overflow_is_signed(z: u16, m: u16)
    ensures
        spec_add_words(z, m).overflow <==> !(-0x8000 <= signed(z) + signed(m) <= 0x7FFF),
        !spec_add_words(z, m).overflow ==> signed(spec_add_words(z, m).value) == signed(z)
            + signed(m),
        !spec_add_words(z, m).carry ==> spec_add_words(z, m).value == z + m,
{
}

/// The overflow condition of subtraction is signed overflow, and the carry is
/// the unsigned borrow.
pub proof fn lemma_subtract_overflow_is_signed(z: u16, m: u16)
    ensures
        spec_subtract_words(z, m).overflow <==> !(-0x8000 <= signed(z) - signed(m) <= 0x7FFF),
        !spec_subtract_words(z, m).overflow ==> signed(spec_subtract_words(z, m).value)
            == signed(z) - signed(m),
        !spec_subtract_words(z, m).carry ==> spec_subtract_words(z, m).value == z - m,
{
}

} // verus!
