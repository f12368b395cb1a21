//! What the debug layer may do to the machine between cycles: load a program,
//! set breakpoints, patch registers, and resume or single-step a halted run.

use vstd::prelude::*;
use crate::computer::BlueComputer;
use crate::state::{DebugSettings, MachineState};
use crate::word::{next_address, spec_next_address, RAM_LENGTH};

verus! {

/// The registers that the debug layer may patch.
#[derive(Debug, Clone, Copy, PartialEq, Eq, Structural)]
pub enum Register {
    /// Program counter.
    Pc,
    /// Accumulator.
    A,
    /// Latch for the left operand.
    Z,
    /// Console switch register.
    Sr,
    /// Memory address register.
    Mar,
    /// Memory buffer register.
    Mbr,
    /// Instruction register.
    Ir,
    /// Device selector.
    Dsl,
    /// Data input register.
    Dil,
}

/// A command of the debug layer to a halted machine.
#[derive(Debug, Clone, Copy, PartialEq, Eq, Structural)]
pub enum DebugCommand {
    /// Resume the run.
    Continue,
    /// Show the registers.
    ShowRegisters,
    /// Show the memory.
    ShowMemory,
    /// Leave the run.
    Quit,
    /// Run one more instruction: break at the next address and resume.
    Step,
    /// Add a breakpoint at an address.
    Breakpoint(u16),
    /// Give a register a value.
    Patch(Register, u16),
}

/// What the debug layer is to do once a command has been applied.
#[derive(Debug, Clone, Copy, PartialEq, Eq, Structural)]
pub enum DebugAction {
    /// Nothing to show.
    Nothing,
    /// Show the registers.
    ShowRegisters,
    /// Show the memory.
    ShowMemory,
    /// Leave the run at once.
    Quit,
}

impl MachineState {
    /// The memory image of a program: the program from address 0, zero beyond
    /// it.
    pub open spec fn image_of(program: Seq<u16>) -> Seq<u16> {
        Seq::new(
            RAM_LENGTH as nat,
            |i: int|
                if i < program.len() {
                    program[i]
                } else {
                    0u16
                },
        )
    }

    /// The machine with a program in memory and the power on.
    pub open spec fn load_program(self, program: Seq<u16>) -> MachineState {
        MachineState { ram: Self::image_of(program), power: true, ..self }
    }

    /// The machine with a register patched.
    pub open spec fn patch_register(self, register: Register, value: u16) -> MachineState {
        match register {
            Register::Pc => MachineState { pc: value, ..self },
            Register::A => MachineState { a: value, ..self },
            Register::Z => MachineState { z: value, ..self },
            Register::Sr => MachineState { sr: value, ..self },
            Register::Mar => MachineState { mar: value, ..self },
            Register::Mbr => MachineState { mbr: value, ..self },
            Register::Ir => MachineState { ir: value, ..self },
            Register::Dsl => MachineState { dsl: value, ..self },
            Register::Dil => MachineState { dil: value, ..self },
        }
    }

    /// The program counter stands on a breakpoint.
    pub open spec fn at_breakpoint(self) -> bool {
        self.breakpoints.contains(self.pc)
    }

    /// The machine after the breakpoints have been checked: on a breakpoint
    /// the run flag is cleared.
    pub open spec fn check_breakpoint(self) -> MachineState {
        if self.at_breakpoint() {
            MachineState { power: false, ..self }
        } else {
            self
        }
    }

    /// The machine after a command of the debug layer.
    pub open spec fn execute_command(self, command: DebugCommand) -> MachineState {
        match command {
            DebugCommand::Continue => MachineState { power: true, ..self },
            DebugCommand::Step => MachineState {
                breakpoints: self.breakpoints.push(spec_next_address(self.pc)),
                power: true,
                ..self
            },
            DebugCommand::Breakpoint(address) => MachineState {
                breakpoints: self.breakpoints.push(address),
                ..self
            },
            DebugCommand::Patch(register, value) => self.patch_register(register, value),
            _ => self,
        }
    }
}

/// What is to be shown, or done, after a command.
pub open spec fn action_of(command: DebugCommand) -> DebugAction {
    match command {
        DebugCommand::ShowRegisters => DebugAction::ShowRegisters,
        DebugCommand::ShowMemory => DebugAction::ShowMemory,
        DebugCommand::Quit => DebugAction::Quit,
        _ => DebugAction::Nothing,
    }
}

impl BlueComputer {
    /// Replaces the debug settings.
    pub fn set_debug(&mut self, settings: DebugSettings)
        ensures
            final(self)@ == (MachineState { debug: settings, ..old(self)@ }),
    {
        self.debug = settings;
    }

    /// Copies a program into memory from address 0, clears the memory beyond
    /// it, and powers the machine on. The registers are left as they are.
    pub fn load_program(&mut self, program: &[u16])
        requires
            program@.len() <= RAM_LENGTH,
        ensures
            final(self)@ == old(self)@.load_program(program@),
    {
        let mut i: usize = 0;
        while i < RAM_LENGTH
            invariant
                i <= RAM_LENGTH,
                program@.len() <= RAM_LENGTH,
                forall|k: int| 0 <= k < i ==> self.ram@[k] == MachineState::image_of(program@)[k],
                (MachineState { ram: old(self)@.ram, ..self@ }) == old(self)@,
            decreases RAM_LENGTH - i,
        {
            let word: u16 = if i < program.len() {
                program[i]
            } else {
                0
            };
            self.ram[i] = word;
            i += 1;
        }
        assert(self.ram@ =~= MachineState::image_of(program@));
        self.press_on();
    }

    /// Adds a breakpoint at an address.
    pub fn add_breakpoint(&mut self, address: u16)
        ensures
            final(self)@ == (MachineState {
                breakpoints: old(self)@.breakpoints.push(address),
                ..old(self)@
            }),
    {
        self.breakpoints.push(address);
    }

    /// Whether the program counter stands on a breakpoint.
    pub fn at_breakpoint(&self) -> (hit: bool)
        ensures
            hit == self@.at_breakpoint(),
    {
        let mut i: usize = 0;
        while i < self.breakpoints.len()
            invariant
                i <= self.breakpoints@.len(),
                forall|k: int| 0 <= k < i ==> self.breakpoints@[k] != self.pc,
            decreases self.breakpoints@.len() - i,
        {
            if self.breakpoints[i] == self.pc {
                return true;
            }
            i += 1;
        }
        false
    }

    /// Checks the breakpoints against the program counter, once a cycle is
    /// over: on a breakpoint the run flag is cleared.
    pub fn check_breakpoint(&mut self) -> (hit: bool)
        ensures
            hit == old(self)@.at_breakpoint(),
            final(self)@ == old(self)@.check_breakpoint(),
    {
        let hit: bool = self.at_breakpoint();
        if hit {
            self.power = false;
        }
        hit
    }

    /// Gives a register a value.
    pub fn patch_register(&mut self, register: Register, value: u16)
        ensures
            final(self)@ == old(self)@.patch_register(register, value),
    {
        match register {
            Register::Pc => self.pc = value,
            Register::A => self.a = value,
            Register::Z => self.z = value,
            Register::Sr => self.sr = value,
            Register::Mar => self.mar = value,
            Register::Mbr => self.mbr = value,
            Register::Ir => self.ir = value,
            Register::Dsl => self.dsl = value,
            Register::Dil => self.dil = value,
        }
    }

    /// Applies a command of the debug layer, and says what is to be shown.
    pub fn execute_command(&mut self, command: DebugCommand) -> (action: DebugAction)
        ensures
            final(self)@ == old(self)@.execute_command(command),
            action == action_of(command),
    {
        match command {
            DebugCommand::Continue => {
                self.power = true;
                DebugAction::Nothing
            },
            DebugCommand::ShowRegisters => DebugAction::ShowRegisters,
            DebugCommand::ShowMemory => DebugAction::ShowMemory,
            DebugCommand::Quit => DebugAction::Quit,
            DebugCommand::Step => {
                self.breakpoints.push(next_address(self.pc));
                self.power = true;
                DebugAction::Nothing
            },
            DebugCommand::Breakpoint(address) => {
                self.breakpoints.push(address);
                DebugAction::Nothing
            },
            DebugCommand::Patch(register, value) => {
                self.patch_register(register, value);
                DebugAction::Nothing
            },
        }
    }
}

} // verus!
