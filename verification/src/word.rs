//! Words, and the fields of an instruction word.
//!
//! The specifications are arithmetic; the executable functions mask and shift,
//! and are proved to compute the same values.

use vstd::prelude::*;

verus! {

/// Total memory capacity in words.
pub const RAM_LENGTH: usize = 4096;

/// The type of every register of the machine.
pub type BlueRegister = u16;

/// The opcode field of an instruction word: its top four bits.
pub open spec fn spec_opcode_field(word: u16) -> u16 {
    word / 0x1000
}

/// The address field of an instruction word: its low twelve bits.
pub open spec fn spec_address_field(word: u16) -> u16 {
    word % 0x1000
}

/// The device field of an input/output instruction: its low six bits.
pub open spec fn spec_device_field(word: u16) -> u16 {
    word % 0x40
}

/// Whether the sign bit (bit 15) of a word is set.
pub open spec fn spec_is_negative(word: u16) -> bool {
    word >= 0x8000
}

/// The address that follows `pc`, within the twelve address bits.
pub open spec fn spec_next_address(pc: u16) -> u16 {
    ((pc + 1) % 0x1000) as u16
}

/// The high byte of a word, moved into the low byte.
pub open spec fn spec_high_byte(word: u16) -> u16 {
    word / 0x100
}

/// The low byte of a word, moved into the high byte.
pub open spec fn spec_into_high_byte(word: u16) -> u16 {
    ((word % 0x100) * 0x100) as u16
}

/// The low byte of a word.
pub open spec fn spec_low_byte(word: u16) -> u8 {
    (word % 0x100) as u8
}

/// The memory cell that an address selects: the address within twelve bits.
pub open spec fn memory_index(address: u16) -> int {
    (address % 0x1000) as int
}

#[verifier::when_used_as_spec(spec_opcode_field)]
pub fn opcode_field(word: u16) -> (field: u16)
    ensures
        field == spec_opcode_field(word),
        field < 16,
{
    assert((word & 0xF000) >> 12 == word / 0x1000) by (bit_vector);
    (word & 0xF000) >> 12
}

#[verifier::when_used_as_spec(spec_address_field)]
pub fn address_field(word: u16) -> (field: u16)
    ensures
        field == spec_address_field(word),
        field < 0x1000,
{
    assert(word & 0x0FFF == word % 0x1000) by (bit_vector);
    word & 0x0FFF
}

#[verifier::when_used_as_spec(spec_device_field)]
pub fn device_field(word: u16) -> (field: u16)
    ensures
        field == spec_device_field(word),
        field < 0x40,
{
    assert(word & 0x003F == word % 0x40) by (bit_vector);
    word & 0x003F
}

#[verifier::when_used_as_spec(spec_is_negative)]
pub fn is_negative(word: u16) -> (negative: bool)
    ensures
        negative == spec_is_negative(word),
{
    assert((word & 0x8000 != 0) == (word >= 0x8000)) by (bit_vector);
    word & 0x8000 != 0
}

#[verifier::when_used_as_spec(spec_next_address)]
pub fn next_address(pc: u16) -> (next: u16)
    ensures
        next == spec_next_address(pc),
        next < 0x1000,
        pc < 0x0FFF ==> next == pc + 1,
{
    let sum: u32 = pc as u32 + 1;
    assert(sum & 0x0FFF == sum % 0x1000) by (bit_vector);
    (sum & 0x0FFF) as u16
}

#[verifier::when_used_as_spec(spec_high_byte)]
pub fn high_byte(word: u16) -> (byte: u16)
    ensures
        byte == spec_high_byte(word),
        byte < 0x100,
{
    assert((word >> 8) & 0x00FF == word / 0x100) by (bit_vector);
    (word >> 8) & 0x00FF
}

#[verifier::when_used_as_spec(spec_into_high_byte)]
pub fn into_high_byte(word: u16) -> (shifted: u16)
    ensures
        shifted == spec_into_high_byte(word),
        spec_high_byte(shifted) == word % 0x100,
{
    assert((word << 8) & 0xFF00 == (word % 0x100) * 0x100) by (bit_vector);
    (word << 8) & 0xFF00
}

#[verifier::when_used_as_spec(spec_low_byte)]
pub fn low_byte(word: u16) -> (byte: u8)
    ensures
        byte == spec_low_byte(word),
{
    assert(word & 0x00FF == word % 0x100) by (bit_vector);
    (word & 0x00FF) as u8
}

/// The index of the memory cell that `address` selects.
pub fn memory_cell(address: u16) -> (index: usize)
    ensures
        index == memory_index(address),
        index < RAM_LENGTH,
{
    address_field(address) as usize
}

} // verus!
