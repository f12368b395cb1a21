//! The machine itself: its registers and memory, and the operations that the
//! tick engine is built from.

use vstd::prelude::*;
use crate::flags::flag_word;
use crate::instruction::Instruction;
use crate::state::{DebugSettings, IoState, MachineState, State};
use crate::word::{memory_cell, BlueRegister, RAM_LENGTH};

pub mod arithmetic;
pub mod debugger;
pub mod device;
pub mod handshake;
pub mod run;
pub mod sequencer;
pub mod transfer;

verus! {

/// The complete Blue computer emulator.
#[derive(Debug)]
pub struct BlueComputer {
    /// Current processor state (Fetch/Execute).
    state: State,
    /// Debug configuration.
    debug: DebugSettings,
    /// I/O operation state.
    io: IoState,
    /// Power state (on/off).
    power: bool,
    /// Program Counter (12-bit effective).
    pc: BlueRegister,
    /// Accumulator.
    a: BlueRegister,
    /// Temporary calculation register.
    z: BlueRegister,
    /// Console Switch Register.
    sr: BlueRegister,
    /// Memory Address Register.
    mar: BlueRegister,
    /// Memory Buffer Register.
    mbr: BlueRegister,
    /// Instruction Register.
    ir: BlueRegister,
    /// Main memory (4096 words).
    ram: [u16; RAM_LENGTH],
    /// Device Selector.
    dsl: BlueRegister,
    /// Data Input Register.
    dil: BlueRegister,
    /// Data Output Register.
    dol: BlueRegister,
    /// Processor status flags.
    flags: BlueRegister,
    /// Current clock pulse (0-7).
    clock_pulse: u8,
    /// Debug breakpoints.
    breakpoints: Vec<BlueRegister>,
}

impl View for BlueComputer {
    type V = MachineState;

    closed spec fn view(&self) -> MachineState {
        MachineState {
            state: self.state,
            debug: self.debug,
            io: self.io,
            power: self.power,
            pc: self.pc,
            a: self.a,
            z: self.z,
            sr: self.sr,
            mar: self.mar,
            mbr: self.mbr,
            ir: self.ir,
            ram: self.ram@,
            dsl: self.dsl,
            dil: self.dil,
            dol: self.dol,
            flags: self.flags,
            clock_pulse: self.clock_pulse,
            breakpoints: self.breakpoints@,
        }
    }
}

impl BlueComputer {
    /// The model of every machine is well formed: its memory has 4096 words.
    pub proof fn lemma_well_formed(&self)
        ensures
            self@.well_formed(),
    {
    }

    /// Create a new Blue computer instance with all registers zeroed.
    pub fn new() -> (computer: BlueComputer)
        ensures
            computer@ == MachineState::initial(),
    {
        let computer = BlueComputer {
            state: State::Fetch,
            debug: DebugSettings { enabled: true, print_registers: true, manual_input: true },
            io: IoState { transfer_active: false, ready: false },
            power: false,
            pc: 0x00,
            a: 0,
            z: 0,
            sr: 0,
            mar: 0,
            mbr: 0,
            ir: 0,
            ram: [0; RAM_LENGTH],
            dsl: 0,
            dil: 0,
            dol: 0,
            flags: 0,
            clock_pulse: 0,
            breakpoints: Vec::new(),
        };
        assert(computer.ram@ =~= MachineState::initial().ram);
        assert(computer.breakpoints@ =~= MachineState::initial().breakpoints);
        computer
    }

    /// Power on the computer.
    pub fn press_on(&mut self)
        ensures
            final(self)@ == (MachineState { power: true, ..old(self)@ }),
    {
        self.power = true;
    }

    /// Power off the computer.
    pub fn press_off(&mut self)
        ensures
            final(self)@ == (MachineState { power: false, ..old(self)@ }),
    {
        self.power = false;
    }

    /// Get the current instruction from the IR. The opcode field has four
    /// bits and each of its sixteen values names an instruction, so decoding
    /// cannot fail.
    pub fn get_instruction(&self) -> (instruction: Instruction)
        ensures
            instruction == Instruction::spec_of_word(self@.ir),
    {
        Instruction::of_word(self.ir)
    }

    /// Update processor flags based on operation results.
    pub fn set_flags(&mut self, result: u16, carry: bool, overflow: bool)
        ensures
            final(self)@ == (MachineState {
                flags: flag_word(result, carry, overflow),
                ..old(self)@
            }),
    {
        self.flags = flag_word(result, carry, overflow);
    }

    /// Current processor state (Fetch/Execute).
    pub fn state(&self) -> (state: State)
        ensures
            state == self@.state,
    {
        self.state
    }

    /// Debug configuration.
    pub fn debug(&self) -> (settings: DebugSettings)
        ensures
            settings == self@.debug,
    {
        self.debug
    }

    /// I/O operation state.
    pub fn io(&self) -> (io: IoState)
        ensures
            io == self@.io,
    {
        self.io
    }

    /// Power state: whether the machine runs.
    pub fn power(&self) -> (power: bool)
        ensures
            power == self@.power,
    {
        self.power
    }

    /// Program Counter.
    pub fn pc(&self) -> (word: u16)
        ensures
            word == self@.pc,
    {
        self.pc
    }

    /// Accumulator.
    pub fn a(&self) -> (word: u16)
        ensures
            word == self@.a,
    {
        self.a
    }

    /// Temporary calculation register.
    pub fn z(&self) -> (word: u16)
        ensures
            word == self@.z,
    {
        self.z
    }

    /// Console Switch Register.
    pub fn sr(&self) -> (word: u16)
        ensures
            word == self@.sr,
    {
        self.sr
    }

    /// Memory Address Register.
    pub fn mar(&self) -> (word: u16)
        ensures
            word == self@.mar,
    {
        self.mar
    }

    /// Memory Buffer Register.
    pub fn mbr(&self) -> (word: u16)
        ensures
            word == self@.mbr,
    {
        self.mbr
    }

    /// Instruction Register.
    pub fn ir(&self) -> (word: u16)
        ensures
            word == self@.ir,
    {
        self.ir
    }

    /// Device Selector.
    pub fn dsl(&self) -> (word: u16)
        ensures
            word == self@.dsl,
    {
        self.dsl
    }

    /// Data Input Register.
    pub fn dil(&self) -> (word: u16)
        ensures
            word == self@.dil,
    {
        self.dil
    }

    /// Data Output Register.
    pub fn dol(&self) -> (word: u16)
        ensures
            word == self@.dol,
    {
        self.dol
    }

    /// Processor status flags.
    pub fn flags(&self) -> (word: u16)
        ensures
            word == self@.flags,
    {
        self.flags
    }

    /// Current clock pulse.
    pub fn clock_pulse(&self) -> (pulse: u8)
        ensures
            pulse == self@.clock_pulse,
    {
        self.clock_pulse
    }

    /// Main memory.
    pub fn ram(&self) -> (ram: &[u16; RAM_LENGTH])
        ensures
            ram@ == self@.ram,
    {
        &self.ram
    }

    /// Debug breakpoints, in the order they were added.
    pub fn breakpoints(&self) -> (breakpoints: &Vec<u16>)
        ensures
            breakpoints@ == self@.breakpoints,
    {
        &self.breakpoints
    }

    /// The word in the memory cell that `address` selects.
    pub fn read_memory(&self, address: u16) -> (word: u16)
        ensures
            word == self@.word_at(address),
    {
        self.ram[memory_cell(address)]
    }

    /// Stores `value` in the memory cell that `address` selects.
    pub fn write_memory(&mut self, address: u16, value: u16)
        ensures
            final(self)@ == (MachineState {
                ram: old(self)@.ram_with(address, value),
                ..old(self)@
            }),
    {
        let cell: usize = memory_cell(address);
        self.ram[cell] = value;
        assert(self.ram@ =~= old(self)@.ram_with(address, value));
    }
}

} // verus!
