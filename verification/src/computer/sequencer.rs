//! The clock sequencer: one tick, and the eight ticks of a cycle.

use vstd::prelude::*;
use crate::computer::BlueComputer;
use crate::instruction::{DecodeError, Instruction};
use crate::state::State;
use crate::word::next_address;

verus! {

impl BlueComputer {
    /// The fetch actions that every instruction shares; they apply in the
    /// fetch sub-state only.
    pub fn fetch_common(&mut self, tick: u8)
        ensures
            final(self)@ == old(self)@.fetch_common(tick),
    {
        match tick {
            2 => {
                if self.state == State::Fetch {
                    self.pc = next_address(self.pc);
                }
            },
            3 => {
                if self.state == State::Fetch {
                    self.mbr = 0x00;
                }
            },
            4 => {
                if self.state == State::Fetch {
                    self.ir = 0x00;
                    self.mbr = self.read_memory(self.mar);
                }
            },
            5 => {
                if self.state == State::Fetch {
                    self.ir = self.mbr;
                }
            },
            _ => (),
        }
    }

    /// One tick of the handler of `instruction`.
    pub fn dispatch(&mut self, instruction: Instruction, tick: u8)
        ensures
            final(self)@ == old(self)@.dispatch(instruction, tick),
    {
        match instruction {
            Instruction::Hlt => self.do_hlt(tick),
            Instruction::Add => self.do_add(tick),
            Instruction::Xor => self.do_xor(tick),
            Instruction::And => self.do_and(tick),
            Instruction::Ior => self.do_ior(tick),
            Instruction::Not => self.do_not(tick),
            Instruction::Lda => self.do_lda(tick),
            Instruction::Sta => self.do_sta(tick),
            Instruction::Srj => self.do_srj(tick),
            Instruction::Jma => self.do_jma(tick),
            Instruction::Jmp => self.do_jmp(tick),
            Instruction::Inp => self.do_inp(tick),
            Instruction::Out => self.do_out(tick),
            Instruction::Ral => self.do_ral(tick),
            Instruction::Csa => self.do_csa(tick),
            Instruction::Nop => self.do_nop(tick),
            Instruction::Sub => self.do_sub(tick),
            Instruction::Cmp => self.do_cmp(tick),
        }
    }

    /// One tick of the handler that an opcode names, for callers that hold an
    /// opcode of the full set, extensions included. An opcode that names no
    /// instruction is reported; the run flag is then cleared and the rest of
    /// the machine is left as it is, for inspection.
    pub fn dispatch_opcode(&mut self, opcode: u16, tick: u8) -> (outcome: Result<(), DecodeError>)
        ensures
            final(self)@ == old(self)@.dispatch_opcode(opcode, tick),
            match outcome {
                Ok(_) => Instruction::spec_from_opcode(opcode) is Ok,
                Err(error) => Instruction::spec_from_opcode(opcode) == Err::<
                    Instruction,
                    DecodeError,
                >(error),
            },
    {
        match Instruction::from_opcode(opcode) {
            Ok(instruction) => {
                self.dispatch(instruction, tick);
                Ok(())
            },
            Err(error) => {
                self.press_off();
                Err(error)
            },
        }
    }

    /// The eight ticks of the handler of `instruction`, without the common
    /// fetch actions: one phase of the instruction, whatever IR holds. This
    /// is how the extension instructions `Sub` and `Cmp` are run, which no
    /// instruction word can name.
    pub fn handler_cycle(&mut self, instruction: Instruction)
        ensures
            final(self)@ == old(self)@.handler_cycle(instruction),
    {
        self.dispatch(instruction, 0);
        self.dispatch(instruction, 1);
        self.dispatch(instruction, 2);
        self.dispatch(instruction, 3);
        self.dispatch(instruction, 4);
        self.dispatch(instruction, 5);
        self.dispatch(instruction, 6);
        self.dispatch(instruction, 7);
    }

    /// Process a single clock tick (0-7): the common fetch actions, then the
    /// handler of the instruction that IR holds after them.
    pub fn process_tick(&mut self, tick: u8)
        ensures
            final(self)@ == old(self)@.process_tick(tick),
    {
        self.fetch_common(tick);
        let instruction: Instruction = self.get_instruction();
        self.dispatch(instruction, tick);
    }

    /// Execute a full 8-tick cycle.
    pub fn emulate_cycle(&mut self)
        ensures
            final(self)@ == old(self)@.emulate_cycle(),
    {
        while self.clock_pulse < 8
            invariant
                self@.remaining_ticks() == old(self)@.remaining_ticks(),
            decreases 8 - self.clock_pulse,
        {
            self.process_tick(self.clock_pulse);
            self.clock_pulse += 1;
        }
        self.clock_pulse = 0;
    }
}

} // verus!
