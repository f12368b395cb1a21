//! The handlers of the instructions that compute: the arithmetic class, which
//! combines the latch with a memory operand, and the unary class.

use vstd::prelude::*;
use crate::alu::{add_words, complement, rotate_left, subtract_words, AluResult};
use crate::computer::BlueComputer;
use crate::instruction::Instruction;
use crate::state::State;
use crate::word::address_field;

verus! {

impl BlueComputer {
    /// ADD instruction - add memory to accumulator. Overflow halts the
    /// machine.
    pub fn do_add(&mut self, tick: u8)
        ensures
            final(self)@ == old(self)@.alu_step(Instruction::Add, tick),
    {
        match self.state {
            State::Fetch => match tick {
                5 => self.z = 0,
                6 => self.z = self.a,
                7 => {
                    self.mar = address_field(self.ir);
                    self.state = State::Execute;
                },
                _ => (),
            },
            State::Execute => match tick {
                2 => {
                    self.a = 0;
                    self.mbr = 0;
                },
                3 => self.mbr = self.read_memory(self.mar),
                6 => {
                    let outcome: AluResult = add_words(self.z, self.mbr);
                    self.a = outcome.value;
                    self.set_flags(self.a, outcome.carry, outcome.overflow);
                    if outcome.overflow {
                        self.power = false;
                    }
                },
                7 => {
                    self.mar = self.pc;
                    self.state = State::Fetch;
                },
                _ => (),
            },
        }
    }

    /// XOR instruction - bitwise exclusive OR.
    pub fn do_xor(&mut self, tick: u8)
        ensures
            final(self)@ == old(self)@.alu_step(Instruction::Xor, tick),
    {
        match self.state {
            State::Fetch => match tick {
                5 => self.z = 0,
                6 => self.z = self.a,
                7 => {
                    self.mar = address_field(self.ir);
                    self.state = State::Execute;
                },
                _ => (),
            },
            State::Execute => match tick {
                2 => {
                    self.a = 0;
                    self.mbr = 0;
                },
                3 => self.mbr = self.read_memory(self.mar),
                6 => {
                    self.a = self.z ^ self.mbr;
                    self.set_flags(self.a, false, false);
                },
                7 => {
                    self.mar = self.pc;
                    self.state = State::Fetch;
                },
                _ => (),
            },
        }
    }

    /// AND instruction - bitwise AND.
    pub fn do_and(&mut self, tick: u8)
        ensures
            final(self)@ == old(self)@.alu_step(Instruction::And, tick),
    {
        match self.state {
            State::Fetch => match tick {
                5 => self.z = 0,
                6 => self.z = self.a,
                7 => {
                    self.mar = address_field(self.ir);
                    self.state = State::Execute;
                },
                _ => (),
            },
            State::Execute => match tick {
                2 => {
                    self.a = 0;
                    self.mbr = 0;
                },
                3 => self.mbr = self.read_memory(self.mar),
                6 => {
                    self.a = self.z & self.mbr;
                    self.set_flags(self.a, false, false);
                },
                7 => {
                    self.mar = self.pc;
                    self.state = State::Fetch;
                },
                _ => (),
            },
        }
    }

    /// IOR instruction - bitwise inclusive OR.
    pub fn do_ior(&mut self, tick: u8)
        ensures
            final(self)@ == old(self)@.alu_step(Instruction::Ior, tick),
    {
        match self.state {
            State::Fetch => match tick {
                5 => self.z = 0,
                6 => self.z = self.a,
                7 => {
                    self.mar = address_field(self.ir);
                    self.state = State::Execute;
                },
                _ => (),
            },
            State::Execute => match tick {
                2 => {
                    self.a = 0;
                    self.mbr = 0;
                },
                3 => self.mbr = self.read_memory(self.mar),
                6 => {
                    self.a = self.z | self.mbr;
                    self.set_flags(self.a, false, false);
                },
                7 => {
                    self.mar = self.pc;
                    self.state = State::Fetch;
                },
                _ => (),
            },
        }
    }

    /// SUB instruction - subtract memory from accumulator (extension).
    pub fn do_sub(&mut self, tick: u8)
        ensures
            final(self)@ == old(self)@.alu_step(Instruction::Sub, tick),
    {
        match self.state {
            State::Fetch => match tick {
                5 => self.z = 0,
                6 => self.z = self.a,
                7 => {
                    self.mar = address_field(self.ir);
                    self.state = State::Execute;
                },
                _ => (),
            },
            State::Execute => match tick {
                2 => {
                    self.a = 0;
                    self.mbr = 0;
                },
                3 => self.mbr = self.read_memory(self.mar),
                6 => {
                    let outcome: AluResult = subtract_words(self.z, self.mbr);
                    self.a = outcome.value;
                    self.set_flags(self.a, outcome.carry, outcome.overflow);
                },
                7 => {
                    self.mar = self.pc;
                    self.state = State::Fetch;
                },
                _ => (),
            },
        }
    }

    /// CMP instruction - compare memory with accumulator (extension). The
    /// accumulator is never written.
    pub fn do_cmp(&mut self, tick: u8)
        ensures
            final(self)@ == old(self)@.alu_step(Instruction::Cmp, tick),
    {
        match self.state {
            State::Fetch => match tick {
                5 => self.z = 0,
                6 => self.z = self.a,
                7 => {
                    self.mar = address_field(self.ir);
                    self.state = State::Execute;
                },
                _ => (),
            },
            State::Execute => match tick {
                3 => self.mbr = self.read_memory(self.mar),
                6 => {
                    let outcome: AluResult = subtract_words(self.z, self.mbr);
                    self.set_flags(outcome.value, outcome.carry, outcome.overflow);
                },
                7 => {
                    self.mar = self.pc;
                    self.state = State::Fetch;
                },
                _ => (),
            },
        }
    }

    /// NOT instruction - bitwise complement.
    pub fn do_not(&mut self, tick: u8)
        ensures
            final(self)@ == old(self)@.unary_step(Instruction::Not, tick),
    {
        match self.state {
            State::Fetch => match tick {
                5 => self.z = 0,
                6 => self.z = self.a,
                7 => self.state = State::Execute,
                _ => (),
            },
            State::Execute => match tick {
                0 => self.a = 0,
                1 => self.a = complement(self.z),
                7 => {
                    self.mar = self.pc;
                    self.state = State::Fetch;
                },
                _ => (),
            },
        }
    }

    /// RAL instruction - rotate accumulator left.
    pub fn do_ral(&mut self, tick: u8)
        ensures
            final(self)@ == old(self)@.unary_step(Instruction::Ral, tick),
    {
        match self.state {
            State::Fetch => match tick {
                5 => self.z = 0,
                6 => self.z = self.a,
                7 => self.state = State::Execute,
                _ => (),
            },
            State::Execute => match tick {
                0 => self.a = 0,
                1 => self.a = rotate_left(self.z),
                7 => {
                    self.mar = self.pc;
                    self.state = State::Fetch;
                },
                _ => (),
            },
        }
    }
}

} // verus!
