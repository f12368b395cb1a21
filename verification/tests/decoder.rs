use blue_computer::{DecodeError, Instruction};

const ALL: [Instruction; 18] = [
    Instruction::Hlt,
    Instruction::Add,
    Instruction::Xor,
    Instruction::And,
    Instruction::Ior,
    Instruction::Not,
    Instruction::Lda,
    Instruction::Sta,
    Instruction::Srj,
    Instruction::Jma,
    Instruction::Jmp,
    Instruction::Inp,
    Instruction::Out,
    Instruction::Ral,
    Instruction::Csa,
    Instruction::Nop,
    Instruction::Sub,
    Instruction::Cmp,
];

#[test]
fn every_opcode_names_its_instruction() {
    for (number, instruction) in ALL.iter().enumerate() {
        assert_eq!(Instruction::from_opcode(number as u16), Ok(*instruction));
        assert_eq!(instruction.opcode(), number as u16);
    }
}

#[test]
fn opcodes_beyond_the_set_are_refused() {
    assert_eq!(Instruction::from_opcode(18), Err(DecodeError { opcode: 18 }));
    assert_eq!(Instruction::from_opcode(31), Err(DecodeError { opcode: 31 }));
    assert_eq!(Instruction::from_opcode(0xFFFF), Err(DecodeError { opcode: 0xFFFF }));
}

#[test]
fn decode_error_has_its_message() {
    let error = Instruction::from_opcode(18).unwrap_err();
    assert_eq!(error.message(), "Invalid instruction opcode");
}

#[test]
fn a_word_decodes_by_its_top_four_bits() {
    assert_eq!(Instruction::try_from(0x6010u16), Ok(Instruction::Lda));
    assert_eq!(Instruction::try_from(0x1011u16), Ok(Instruction::Add));
    assert_eq!(Instruction::try_from(0x0000u16), Ok(Instruction::Hlt));
    assert_eq!(Instruction::try_from(0xFFFFu16), Ok(Instruction::Nop));
    assert_eq!(Instruction::of_word(0xD000), Instruction::Ral);
    assert_eq!(Instruction::of_word(0x0FFF), Instruction::Hlt);
}

#[test]
fn every_word_decodes_and_never_to_an_extension() {
    for field in 0u16..16 {
        let word = (field << 12) | 0x0ABC;
        let instruction = Instruction::of_word(word);
        assert_eq!(Instruction::try_from(word), Ok(instruction));
        assert_eq!(instruction.opcode(), field);
        assert_ne!(instruction, Instruction::Sub);
        assert_ne!(instruction, Instruction::Cmp);
    }
}
