//! The instruction set and its decoder.

use vstd::prelude::*;
use crate::word::{opcode_field, spec_opcode_field};

verus! {

/// The instructions of the machine. Sixteen have an opcode that fits the four
/// opcode bits of an instruction word; `Sub` and `Cmp` are extensions with the
/// opcodes 16 and 17.
#[derive(Debug, Clone, Copy, PartialEq, Eq, Structural)]
pub enum Instruction {
    /// Halt the processor.
    Hlt,
    /// Add memory to the accumulator.
    Add,
    /// Bitwise exclusive or.
    Xor,
    /// Bitwise and.
    And,
    /// Bitwise inclusive or.
    Ior,
    /// Bitwise complement.
    Not,
    /// Load the accumulator.
    Lda,
    /// Store the accumulator.
    Sta,
    /// Subroutine jump.
    Srj,
    /// Jump if the accumulator is negative.
    Jma,
    /// Unconditional jump.
    Jmp,
    /// Input from a device.
    Inp,
    /// Output to a device.
    Out,
    /// Rotate the accumulator left.
    Ral,
    /// Copy the switch register to the accumulator.
    Csa,
    /// No operation.
    Nop,
    /// Subtract memory from the accumulator.
    Sub,
    /// Compare memory with the accumulator.
    Cmp,
}

/// An opcode that names no instruction.
#[derive(Debug, Clone, Copy, PartialEq, Eq, Structural)]
pub struct DecodeError {
    /// The opcode that was refused.
    pub opcode: u16,
}

impl DecodeError {
    /// The message of the error.
    pub fn message(&self) -> (text: &'static str)
        ensures
            text@ == "Invalid instruction opcode"@,
    {
        "Invalid instruction opcode"
    }
}

impl Instruction {
    /// The number of an instruction.
    pub open spec fn spec_opcode(self) -> u16 {
        match self {
            Instruction::Hlt => 0,
            Instruction::Add => 1,
            Instruction::Xor => 2,
            Instruction::And => 3,
            Instruction::Ior => 4,
            Instruction::Not => 5,
            Instruction::Lda => 6,
            Instruction::Sta => 7,
            Instruction::Srj => 8,
            Instruction::Jma => 9,
            Instruction::Jmp => 10,
            Instruction::Inp => 11,
            Instruction::Out => 12,
            Instruction::Ral => 13,
            Instruction::Csa => 14,
            Instruction::Nop => 15,
            Instruction::Sub => 16,
            Instruction::Cmp => 17,
        }
    }

    /// The instruction with a given number, or an error that carries the
    /// number where no instruction has it.
    pub open spec fn spec_from_opcode(opcode: u16) -> Result<Instruction, DecodeError> {
        if opcode == 0 {
            Ok(Instruction::Hlt)
        } else if opcode == 1 {
            Ok(Instruction::Add)
        } else if opcode == 2 {
            Ok(Instruction::Xor)
        } else if opcode == 3 {
            Ok(Instruction::And)
        } else if opcode == 4 {
            Ok(Instruction::Ior)
        } else if opcode == 5 {
            Ok(Instruction::Not)
        } else if opcode == 6 {
            Ok(Instruction::Lda)
        } else if opcode == 7 {
            Ok(Instruction::Sta)
        } else if opcode == 8 {
            Ok(Instruction::Srj)
        } else if opcode == 9 {
            Ok(Instruction::Jma)
        } else if opcode == 10 {
            Ok(Instruction::Jmp)
        } else if opcode == 11 {
            Ok(Instruction::Inp)
        } else if opcode == 12 {
            Ok(Instruction::Out)
        } else if opcode == 13 {
            Ok(Instruction::Ral)
        } else if opcode == 14 {
            Ok(Instruction::Csa)
        } else if opcode == 15 {
            Ok(Instruction::Nop)
        } else if opcode == 16 {
            Ok(Instruction::Sub)
        } else if opcode == 17 {
            Ok(Instruction::Cmp)
        } else {
            Err(DecodeError { opcode })
        }
    }

    /// The instruction that a word holds in its opcode field.
    pub open spec fn spec_of_word(word: u16) -> Instruction {
        match Self::spec_from_opcode(spec_opcode_field(word)) {
            Ok(instruction) => instruction,
            Err(_) => Instruction::Hlt,
        }
    }

    #[verifier::when_used_as_spec(spec_opcode)]
    pub fn opcode(self) -> (opcode: u16)
        ensures
            opcode == self.spec_opcode(),
            opcode <= 17,
    {
        match self {
            Instruction::Hlt => 0,
            Instruction::Add => 1,
            Instruction::Xor => 2,
            Instruction::And => 3,
            Instruction::Ior => 4,
            Instruction::Not => 5,
            Instruction::Lda => 6,
            Instruction::Sta => 7,
            Instruction::Srj => 8,
            Instruction::Jma => 9,
            Instruction::Jmp => 10,
            Instruction::Inp => 11,
            Instruction::Out => 12,
            Instruction::Ral => 13,
            Instruction::Csa => 14,
            Instruction::Nop => 15,
            Instruction::Sub => 16,
            Instruction::Cmp => 17,
        }
    }

    /// Decodes an opcode: the numbers 0 to 17 name an instruction, every other
    /// number is refused.
    #[verifier::when_used_as_spec(spec_from_opcode)]
    pub fn from_opcode(opcode: u16) -> (decoded: Result<Instruction, DecodeError>)
        ensures
            decoded == Self::spec_from_opcode(opcode),
            decoded is Ok <==> opcode <= 17,
            decoded matches Ok(i) ==> i.spec_opcode() == opcode,
            decoded matches Err(e) ==> e.opcode == opcode,
    {
        match opcode {
            0 => Ok(Instruction::Hlt),
            1 => Ok(Instruction::Add),
            2 => Ok(Instruction::Xor),
            3 => Ok(Instruction::And),
            4 => Ok(Instruction::Ior),
            5 => Ok(Instruction::Not),
            6 => Ok(Instruction::Lda),
            7 => Ok(Instruction::Sta),
            8 => Ok(Instruction::Srj),
            9 => Ok(Instruction::Jma),
            10 => Ok(Instruction::Jmp),
            11 => Ok(Instruction::Inp),
            12 => Ok(Instruction::Out),
            13 => Ok(Instruction::Ral),
            14 => Ok(Instruction::Csa),
            15 => Ok(Instruction::Nop),
            16 => Ok(Instruction::Sub),
            17 => Ok(Instruction::Cmp),
            _ => Err(DecodeError { opcode }),
        }
    }

    /// Decodes an instruction word by its opcode field. The field has four
    /// bits, so every word holds an instruction, and none of them is `Sub` or
    /// `Cmp`.
    #[verifier::when_used_as_spec(spec_of_word)]
    pub fn of_word(word: u16) -> (instruction: Instruction)
        ensures
            instruction == Self::spec_of_word(word),
            Ok::<Instruction, DecodeError>(instruction) == Self::spec_from_opcode(
                spec_opcode_field(word),
            ),
            instruction.spec_opcode() == spec_opcode_field(word),
    {
        match Instruction::from_opcode(opcode_field(word)) {
            Ok(instruction) => instruction,
            // Never taken: the field is below 16.
            Err(_) => Instruction::Hlt,
        }
    }
}

impl TryFrom<u16> for Instruction {
    type Error = DecodeError;

    /// Decodes an instruction word by its opcode field.
    fn try_from(word: u16) -> (decoded: Result<Instruction, DecodeError>) {
        Instruction::from_opcode(opcode_field(word))
    }
}

impl vstd::std_specs::convert::TryFromSpecImpl<u16> for Instruction {
    open spec fn obeys_try_from_spec() -> bool {
        true
    }

    open spec fn try_from_spec(word: u16) -> Result<Instruction, DecodeError> {
        Instruction::spec_from_opcode(spec_opcode_field(word))
    }
}

/// Decoding undoes numbering: every instruction is recovered from its opcode.
pub proof fn lemma_decode_inverts_opcode(instruction: Instruction)
    ensures
        Instruction::spec_from_opcode(instruction.spec_opcode()) == Ok::<
            Instruction,
            DecodeError,
        >(instruction),
{
}

/// Decoding succeeds on the numbers 0 to 17 and on no others; what it yields
/// has the number it was decoded from, and what it refuses is reported.
pub proof fn lemma_decode_by_opcode(opcode: u16)
    ensures
        Instruction::spec_from_opcode(opcode) is Ok <==> opcode <= 17,
        Instruction::spec_from_opcode(opcode) matches Ok(i) ==> i.spec_opcode() == opcode,
        Instruction::spec_from_opcode(opcode) matches Err(e) ==> e.opcode == opcode,
{
}

/// Every instruction word decodes, to an instruction whose number is the
/// word's opcode field.
pub proof fn lemma_every_word_decodes(word: u16)
    ensures
        Instruction::spec_from_opcode(spec_opcode_field(word)) == Ok::<Instruction, DecodeError>(
            Instruction::spec_of_word(word),
        ),
        Instruction::spec_of_word(word).spec_opcode() == spec_opcode_field(word),
        Instruction::spec_of_word(word) != Instruction::Sub,
        Instruction::spec_of_word(word) != Instruction::Cmp,
{
}

} // verus!
