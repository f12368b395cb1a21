use blue_computer::alu::{add_words, complement, rotate_left, subtract_words, AluResult};
use blue_computer::flags::{
    carry_flag, flag_word, negative_flag, overflow_flag, zero_flag, FLAG_CARRY, FLAG_NEGATIVE,
    FLAG_OVERFLOW, FLAG_ZERO,
};
use blue_computer::word::{
    address_field, device_field, high_byte, into_high_byte, is_negative, low_byte, memory_cell,
    next_address, opcode_field,
};

#[test]
fn splits_an_instruction_word() {
    assert_eq!(opcode_field(0x6010), 6);
    assert_eq!(address_field(0x6010), 0x010);
    assert_eq!(opcode_field(0xFFFF), 15);
    assert_eq!(address_field(0xFFFF), 0xFFF);
    assert_eq!(opcode_field(0x0FFF), 0);
    assert_eq!(device_field(0xB0C5), 0x05);
    assert_eq!(device_field(0xB03F), 0x3F);
    assert_eq!(device_field(0xB040), 0x00);
}

#[test]
fn sign_bit_is_bit_fifteen() {
    assert!(is_negative(0x8000));
    assert!(is_negative(0xFFFF));
    assert!(!is_negative(0x7FFF));
    assert!(!is_negative(0));
}

#[test]
fn next_address_wraps_within_twelve_bits() {
    assert_eq!(next_address(0), 1);
    assert_eq!(next_address(0x0FFE), 0x0FFF);
    assert_eq!(next_address(0x0FFF), 0);
    assert_eq!(next_address(0x2000), 1);
    assert_eq!(next_address(0xFFFF), 0);
}

#[test]
fn bytes_move_between_halves() {
    assert_eq!(high_byte(0xAB12), 0xAB);
    assert_eq!(into_high_byte(0x00AA), 0xAA00);
    assert_eq!(into_high_byte(0x12AA), 0xAA00);
    assert_eq!(low_byte(0x12AA), 0xAA);
    assert_eq!(high_byte(into_high_byte(0x00BB)), 0xBB);
}

#[test]
fn memory_cell_masks_the_address() {
    assert_eq!(memory_cell(0x0000), 0);
    assert_eq!(memory_cell(0x0FFF), 4095);
    assert_eq!(memory_cell(0x1000), 0);
    assert_eq!(memory_cell(0xF123), 0x123);
}

#[test]
fn flag_word_sets_each_bit_by_its_condition() {
    assert_eq!(flag_word(0, false, false), FLAG_ZERO);
    assert_eq!(flag_word(5, false, false), 0);
    assert_eq!(flag_word(5, true, false), FLAG_CARRY);
    assert_eq!(flag_word(5, false, true), FLAG_OVERFLOW);
    assert_eq!(flag_word(0x8000, false, false), FLAG_NEGATIVE);
    assert_eq!(flag_word(0x8000, true, true), 0b1110);
    assert_eq!(flag_word(0, true, true), 0b0111);
    assert_eq!(flag_word(0xFFFF, true, false), 0b1010);
}

#[test]
fn flag_constants_have_their_weights() {
    assert_eq!(FLAG_ZERO, 1);
    assert_eq!(FLAG_CARRY, 2);
    assert_eq!(FLAG_OVERFLOW, 4);
    assert_eq!(FLAG_NEGATIVE, 8);
}

#[test]
fn flag_bits_read_back() {
    let flags = flag_word(0x8000, true, false);
    assert!(!zero_flag(flags));
    assert!(carry_flag(flags));
    assert!(!overflow_flag(flags));
    assert!(negative_flag(flags));
    let flags = flag_word(0, false, true);
    assert!(zero_flag(flags));
    assert!(!carry_flag(flags));
    assert!(overflow_flag(flags));
    assert!(!negative_flag(flags));
}

#[test]
fn addition_without_overflow() {
    assert_eq!(add_words(5, 3), AluResult { value: 8, carry: false, overflow: false });
    assert_eq!(add_words(0, 0), AluResult { value: 0, carry: false, overflow: false });
}

#[test]
fn addition_overflows_into_the_sign() {
    assert_eq!(
        add_words(0x7FFF, 0x0001),
        AluResult { value: 0x8000, carry: false, overflow: true }
    );
}

#[test]
fn addition_carries_and_wraps() {
    assert_eq!(add_words(0xFFFF, 0x0001), AluResult { value: 0, carry: true, overflow: false });
    assert_eq!(
        add_words(0x8000, 0x8000),
        AluResult { value: 0, carry: true, overflow: true }
    );
    assert_eq!(
        add_words(0xFFFF, 0xFFFF),
        AluResult { value: 0xFFFE, carry: true, overflow: false }
    );
}

#[test]
fn subtraction_borrows_and_wraps() {
    assert_eq!(subtract_words(5, 3), AluResult { value: 2, carry: false, overflow: false });
    assert_eq!(
        subtract_words(3, 5),
        AluResult { value: 0xFFFE, carry: true, overflow: false }
    );
    assert_eq!(subtract_words(7, 7), AluResult { value: 0, carry: false, overflow: false });
}

#[test]
fn subtraction_overflows_when_the_signs_differ() {
    assert_eq!(
        subtract_words(0x8000, 0x0001),
        AluResult { value: 0x7FFF, carry: false, overflow: true }
    );
    assert_eq!(
        subtract_words(0x7FFF, 0xFFFF),
        AluResult { value: 0x8000, carry: true, overflow: true }
    );
}

#[test]
fn complement_flips_every_bit() {
    assert_eq!(complement(0x0000), 0xFFFF);
    assert_eq!(complement(0x1234), 0xEDCB);
    assert_eq!(complement(complement(0xBEEF)), 0xBEEF);
}

#[test]
fn rotation_moves_bit_fifteen_to_bit_zero() {
    assert_eq!(rotate_left(0x8001), 0x0003);
    assert_eq!(rotate_left(0x4000), 0x8000);
    assert_eq!(rotate_left(0x0001), 0x0002);
    assert_eq!(rotate_left(0xFFFF), 0xFFFF);
    assert_eq!(rotate_left(0x8000), 0x0001);
}
