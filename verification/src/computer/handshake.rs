//! The I/O handshake controller: what the machine asks of its device after a
//! cycle, and how the device's answer enters the machine.
//!
//! The machine never reads or writes a device itself. After each cycle the
//! caller asks `handle_io` what is due, does it, and hands an input byte back.

use vstd::prelude::*;
use crate::computer::BlueComputer;
use crate::instruction::Instruction;
use crate::state::MachineState;
use crate::word::{low_byte, spec_low_byte};

verus! {

/// What the device is asked to do after a cycle.
#[derive(Debug, Clone, Copy, PartialEq, Eq, Structural)]
pub enum IoRequest {
    /// Nothing is due.
    Idle,
    /// An `Inp` waits for a byte: supply one with `provide_input_byte`.
    Input,
    /// An `Out` has offered this byte, the low byte of DOL; it counts as
    /// consumed.
    Output(u8),
}

impl MachineState {
    /// A transfer is open and the device has not yet served it.
    pub open spec fn transfer_pending(self) -> bool {
        self.io.transfer_active && !self.io.ready
    }

    /// What is due after a cycle: a byte for a pending `Inp`, the byte of a
    /// pending `Out`, and else nothing.
    pub open spec fn io_request(self) -> IoRequest {
        if !self.transfer_pending() {
            IoRequest::Idle
        } else if Instruction::spec_of_word(self.ir) == Instruction::Inp {
            IoRequest::Input
        } else if Instruction::spec_of_word(self.ir) == Instruction::Out {
            IoRequest::Output(spec_low_byte(self.dol))
        } else {
            IoRequest::Idle
        }
    }

    /// The machine after the handshake controller has looked at it: a pending
    /// `Out` is served at once, so the device becomes ready; a pending `Inp`
    /// waits for its byte; and where no transfer of the instruction in IR is
    /// open, the device is made not ready, armed for the next transfer.
    pub open spec fn handle_io(self) -> MachineState {
        if Instruction::spec_of_word(self.ir).is_io() && self.io.transfer_active {
            if self.io_request() is Output {
                self.with_ready(true)
            } else {
                self
            }
        } else {
            self.with_ready(false)
        }
    }

    /// The machine with the device ready or not.
    pub open spec fn with_ready(self, ready: bool) -> MachineState {
        MachineState { io: crate::state::IoState { ready, ..self.io }, ..self }
    }

    /// The machine after the device has supplied `byte`: where an `Inp` waits
    /// for one, the byte stands in DIL and the device is ready; else nothing
    /// has changed.
    pub open spec fn provide_input_byte(self, byte: u8) -> MachineState {
        if self.io_request() == IoRequest::Input {
            MachineState { dil: byte as u16, ..self }.with_ready(true)
        } else {
            self
        }
    }
}

impl BlueComputer {
    /// What is due from the device, without any change to the machine.
    pub fn io_request(&self) -> (request: IoRequest)
        ensures
            request == self@.io_request(),
    {
        if !(self.io.transfer_active && !self.io.ready) {
            return IoRequest::Idle;
        }
        match self.get_instruction() {
            Instruction::Inp => IoRequest::Input,
            Instruction::Out => IoRequest::Output(low_byte(self.dol)),
            _ => IoRequest::Idle,
        }
    }

    /// Handle I/O operations based on current instruction. To be called once
    /// after each cycle; returns what the device is asked to do.
    pub fn handle_io(&mut self) -> (request: IoRequest)
        ensures
            request == old(self)@.io_request(),
            final(self)@ == old(self)@.handle_io(),
    {
        let request: IoRequest = self.io_request();
        match self.get_instruction() {
            Instruction::Inp => {
                if !self.io.transfer_active {
                    self.io.ready = false;
                }
            },
            Instruction::Out => {
                if self.io.transfer_active {
                    if !self.io.ready {
                        self.io.ready = true;
                    }
                } else {
                    self.io.ready = false;
                }
            },
            _ => {
                self.io.ready = false;
            },
        }
        request
    }

    /// Hands the machine a byte from the device. The byte is taken if and only
    /// if an `Inp` waits for one: it then stands in DIL and the device is
    /// ready. Otherwise the machine is unchanged.
    pub fn provide_input_byte(&mut self, byte: u8) -> (taken: bool)
        ensures
            taken == (old(self)@.io_request() == IoRequest::Input),
            final(self)@ == old(self)@.provide_input_byte(byte),
    {
        match self.io_request() {
            IoRequest::Input => {
                self.dil = byte as u16;
                self.io.ready = true;
                true
            },
            _ => false,
        }
    }
}

} // verus!
