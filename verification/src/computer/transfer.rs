//! The handlers of the instructions that move words and steer the program:
//! loads and stores, the jumps, and the instructions without an operand.

use vstd::prelude::*;
use crate::computer::BlueComputer;
use crate::state::State;
use crate::word::{address_field, is_negative};

verus! {

impl BlueComputer {
    /// HLT instruction - halt the processor.
    pub fn do_hlt(&mut self, tick: u8)
        ensures
            final(self)@ == old(self)@.hlt_step(tick),
    {
        match tick {
            6 => self.power = false,
            7 => self.mar = self.pc,
            _ => (),
        }
    }

    /// LDA instruction - load accumulator from memory.
    pub fn do_lda(&mut self, tick: u8)
        ensures
            final(self)@ == old(self)@.lda_step(tick),
    {
        match self.state {
            State::Fetch => {
                if tick == 7 {
                    self.state = State::Execute;
                    self.mar = address_field(self.ir);
                }
            },
            State::Execute => match tick {
                1 => self.a = 0,
                2 => self.mbr = 0,
                4 => {
                    self.a = self.read_memory(self.mar);
                    self.mbr = self.a;
                },
                7 => {
                    self.mar = self.pc;
                    self.state = State::Fetch;
                },
                _ => (),
            },
        }
    }

    /// STA instruction - store accumulator to memory.
    pub fn do_sta(&mut self, tick: u8)
        ensures
            final(self)@ == old(self)@.sta_step(tick),
    {
        match self.state {
            State::Fetch => {
                if tick == 7 {
                    self.state = State::Execute;
                    self.mar = address_field(self.ir);
                }
            },
            State::Execute => match tick {
                3 => self.mbr = 0,
                4 => {
                    self.write_memory(self.mar, self.a);
                    self.mbr = self.a;
                },
                7 => {
                    self.mar = self.pc;
                    self.state = State::Fetch;
                },
                _ => (),
            },
        }
    }

    /// SRJ instruction - subroutine jump.
    pub fn do_srj(&mut self, tick: u8)
        ensures
            final(self)@ == old(self)@.srj_step(tick),
    {
        match tick {
            5 => self.a = address_field(self.pc),
            6 => self.pc = 0,
            7 => {
                self.mar = address_field(self.ir);
                self.pc = self.mar;
            },
            _ => (),
        }
    }

    /// JMA instruction - jump if accumulator negative.
    pub fn do_jma(&mut self, tick: u8)
        ensures
            final(self)@ == old(self)@.jma_step(tick),
    {
        match tick {
            5 => {
                if is_negative(self.a) {
                    self.pc = 0;
                }
            },
            6 => {
                if is_negative(self.a) {
                    self.pc = address_field(self.ir);
                }
            },
            7 => self.mar = self.pc,
            _ => (),
        }
    }

    /// JMP instruction - unconditional jump.
    pub fn do_jmp(&mut self, tick: u8)
        ensures
            final(self)@ == old(self)@.jmp_step(tick),
    {
        match tick {
            5 => self.pc = 0,
            6 => self.pc = address_field(self.ir),
            7 => self.mar = self.pc,
            _ => (),
        }
    }

    /// CSA instruction - copy switch register to accumulator.
    pub fn do_csa(&mut self, tick: u8)
        ensures
            final(self)@ == old(self)@.csa_step(tick),
    {
        match tick {
            5 => self.a = 0,
            6 => self.a = self.sr,
            7 => self.mar = self.pc,
            _ => (),
        }
    }

    /// NOP instruction - no operation.
    pub fn do_nop(&mut self, tick: u8)
        ensures
            final(self)@ == old(self)@.nop_step(tick),
    {
        if tick == 7 {
            self.mar = self.pc;
        }
    }
}

} // verus!
