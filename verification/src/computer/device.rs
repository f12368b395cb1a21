//! The handlers of the instructions that talk to a device.

use vstd::prelude::*;
use crate::computer::BlueComputer;
use crate::state::State;
use crate::word::{device_field, high_byte, into_high_byte};

verus! {

impl BlueComputer {
    /// INP instruction - input from device.
    pub fn do_inp(&mut self, tick: u8)
        ensures
            final(self)@ == old(self)@.inp_step(tick),
    {
        match self.state {
            State::Fetch => match tick {
                5 => {
                    self.a = 0;
                    self.dsl = device_field(self.ir);
                },
                6 => self.io.transfer_active = true,
                7 => self.state = State::Execute,
                _ => (),
            },
            State::Execute => match tick {
                4 => {
                    if self.io.ready {
                        self.a = into_high_byte(self.dil);
                    }
                },
                5 => {
                    if self.io.ready {
                        self.io.transfer_active = false;
                    }
                },
                7 => {
                    if !self.io.transfer_active {
                        self.state = State::Fetch;
                        self.mar = self.pc;
                    }
                },
                _ => (),
            },
        }
    }

    /// OUT instruction - output to device.
    pub fn do_out(&mut self, tick: u8)
        ensures
            final(self)@ == old(self)@.out_step(tick),
    {
        match self.state {
            State::Fetch => match tick {
                5 => {
                    self.dol = high_byte(self.a);
                    self.dsl = device_field(self.ir);
                },
                6 => self.io.transfer_active = true,
                7 => self.state = State::Execute,
                _ => (),
            },
            State::Execute => match tick {
                4 => {
                    if self.io.ready {
                        self.io.transfer_active = false;
                    }
                },
                7 => {
                    if !self.io.transfer_active {
                        self.state = State::Fetch;
                        self.mar = self.pc;
                    }
                },
                _ => (),
            },
        }
    }
}

} // verus!
