//! The flag unit: the status bits that an arithmetic result leaves behind.

use vstd::prelude::*;
use crate::word::spec_is_negative;

verus! {

/// Set when the result is zero.
pub const FLAG_ZERO: u16 = 0b0001;

/// Set when an addition carried out of bit 15, or a subtraction borrowed.
pub const FLAG_CARRY: u16 = 0b0010;

/// Set when the result left the signed range.
pub const FLAG_OVERFLOW: u16 = 0b0100;

/// Set when bit 15 of the result is set.
pub const FLAG_NEGATIVE: u16 = 0b1000;

/// The flag word of a result: each status bit contributes its weight, and no
/// other bit is set.
pub open spec fn spec_flag_word(result: u16, carry: bool, overflow: bool) -> u16 {
    ((if result == 0 { 1int } else { 0int })
        + (if carry { 2int } else { 0int })
        + (if overflow { 4int } else { 0int })
        + (if spec_is_negative(result) { 8int } else { 0int })) as u16
}

pub open spec fn spec_zero_flag(flags: u16) -> bool {
    flags % 2 == 1
}

pub open spec fn spec_carry_flag(flags: u16) -> bool {
    (flags / 2) % 2 == 1
}

pub open spec fn spec_overflow_flag(flags: u16) -> bool {
    (flags / 4) % 2 == 1
}

pub open spec fn spec_negative_flag(flags: u16) -> bool {
    (flags / 8) % 2 == 1
}

proof fn lemma_set_bit(flags: u16)
    by (bit_vector)
    ensures
        flags < 1 ==> flags | 1 == flags + 1,
        flags < 2 ==> flags | 2 == flags + 2,
        flags < 4 ==> flags | 4 == flags + 4,
        flags < 8 ==> flags | 8 == flags + 8,
        (flags & 0x8000 != 0) == (flags >= 0x8000),
{
}

proof fn lemma_test_bit(flags: u16)
    by (bit_vector)
    ensures
        (flags & 1 != 0) == (flags % 2 == 1),
        (flags & 2 != 0) == ((flags / 2) % 2 == 1),
        (flags & 4 != 0) == ((flags / 4) % 2 == 1),
        (flags & 8 != 0) == ((flags / 8) % 2 == 1),
{
}

/// Computes the flag word of an arithmetic result: Zero if and only if the
/// result is zero, Carry and Overflow as given, Negative if and only if bit 15
/// of the result is set.
#[verifier::when_used_as_spec(spec_flag_word)]
pub fn flag_word(result: u16, carry: bool, overflow: bool) -> (flags: u16)
    ensures
        flags == spec_flag_word(result, carry, overflow),
        flags < 16,
{
    let mut flags: u16 = 0;
    if result == 0 {
        proof { lemma_set_bit(flags); }
        flags |= FLAG_ZERO;
    }
    if carry {
        proof { lemma_set_bit(flags); }
        flags |= FLAG_CARRY;
    }
    if overflow {
        proof { lemma_set_bit(flags); }
        flags |= FLAG_OVERFLOW;
    }
    proof { lemma_set_bit(result); }
    if result & 0x8000 != 0 {
        proof { lemma_set_bit(flags); }
        flags |= FLAG_NEGATIVE;
    }
    flags
}

#[verifier::when_used_as_spec(spec_zero_flag)]
pub fn zero_flag(flags: u16) -> (set: bool)
    ensures
        set == spec_zero_flag(flags),
{
    proof { lemma_test_bit(flags); }
    flags & FLAG_ZERO != 0
}

#[verifier::when_used_as_spec(spec_carry_flag)]
pub fn carry_flag(flags: u16) -> (set: bool)
    ensures
        set == spec_carry_flag(flags),
{
    proof { lemma_test_bit(flags); }
    flags & FLAG_CARRY != 0
}

#[verifier::when_used_as_spec(spec_overflow_flag)]
pub fn overflow_flag(flags: u16) -> (set: bool)
    ensures
        set == spec_overflow_flag(flags),
{
    proof { lemma_test_bit(flags); }
    flags & FLAG_OVERFLOW != 0
}

#[verifier::when_used_as_spec(spec_negative_flag)]
pub fn negative_flag(flags: u16) -> (set: bool)
    ensures
        set == spec_negative_flag(flags),
{
    proof { lemma_test_bit(flags); }
    flags & FLAG_NEGATIVE != 0
}

/// Each status bit of a flag word reads back as the condition that set it.
pub proof fn lemma_flag_word_reads_back(result: u16, carry: bool, overflow: bool)
    ensures
        spec_zero_flag(spec_flag_word(result, carry, overflow)) == (result == 0),
        spec_carry_flag(spec_flag_word(result, carry, overflow)) == carry,
        spec_overflow_flag(spec_flag_word(result, carry, overflow)) == overflow,
        spec_negative_flag(spec_flag_word(result, carry, overflow)) == spec_is_negative(result),
        spec_flag_word(result, carry, overflow) < 16,
{
}

} // verus!
