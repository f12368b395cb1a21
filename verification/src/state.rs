//! The state of the machine: its sub-state, its handshake and debug settings,
//! and the mathematical model that the contracts of the engine speak of.

use vstd::prelude::*;
use crate::word::{memory_index, RAM_LENGTH};

verus! {

/// Current execution state of the processor.
#[derive(Debug, Clone, Copy, PartialEq, Eq, Structural)]
pub enum State {
    /// Instruction execution phase.
    Execute,
    /// Instruction fetch phase.
    Fetch,
}

/// Debug configuration settings.
#[derive(Debug, Clone, Copy, PartialEq, Eq, Structural)]
pub struct DebugSettings {
    /// Enable debug mode (interactive commands, and the check of breakpoints).
    pub enabled: bool,
    /// Automatically print registers after each cycle.
    pub print_registers: bool,
    /// Require manual input for I/O operations.
    pub manual_input: bool,
}

impl Default for DebugSettings {
    fn default() -> (settings: DebugSettings)
        ensures
            settings == (DebugSettings {
                enabled: false,
                print_registers: false,
                manual_input: false,
            }),
    {
        DebugSettings { enabled: false, print_registers: false, manual_input: false }
    }
}

/// Current state of I/O operations.
#[derive(Debug, Clone, Copy, PartialEq, Eq, Structural)]
pub struct IoState {
    /// Whether an I/O transfer is in progress.
    pub transfer_active: bool,
    /// Whether the device has produced or consumed the current byte.
    pub ready: bool,
}

impl Default for IoState {
    fn default() -> (io: IoState)
        ensures
            io == (IoState { transfer_active: false, ready: false }),
    {
        IoState { transfer_active: false, ready: false }
    }
}

/// The machine as a mathematical value: every register, the memory as a
/// sequence of words, and what the debug layer keeps beside them.
pub struct MachineState {
    /// Processor sub-state.
    pub state: State,
    /// Debug configuration.
    pub debug: DebugSettings,
    /// I/O handshake.
    pub io: IoState,
    /// Run flag.
    pub power: bool,
    /// Program counter.
    pub pc: u16,
    /// Accumulator.
    pub a: u16,
    /// Latch for the left operand.
    pub z: u16,
    /// Console switch register.
    pub sr: u16,
    /// Memory address register.
    pub mar: u16,
    /// Memory buffer register.
    pub mbr: u16,
    /// Instruction register.
    pub ir: u16,
    /// Main memory.
    pub ram: Seq<u16>,
    /// Device selector.
    pub dsl: u16,
    /// Data input register.
    pub dil: u16,
    /// Data output register.
    pub dol: u16,
    /// Status flags.
    pub flags: u16,
    /// Current clock pulse.
    pub clock_pulse: u8,
    /// Breakpoints of the debug layer, in the order they were added.
    pub breakpoints: Seq<u16>,
}

impl MachineState {
    /// The memory has its full length. This holds of the view of every
    /// machine.
    pub open spec fn well_formed(self) -> bool {
        self.ram.len() == RAM_LENGTH
    }

    /// The word in the memory cell that `address` selects.
    pub open spec fn word_at(self, address: u16) -> u16 {
        self.ram[memory_index(address)]
    }

    /// The memory with `value` stored in the cell that `address` selects.
    pub open spec fn ram_with(self, address: u16, value: u16) -> Seq<u16> {
        self.ram.update(memory_index(address), value)
    }

    /// The machine at power-on: every register zero, the memory zero, the debug
    /// settings all on, no breakpoint, in the fetch phase, not yet running.
    pub open spec fn initial() -> MachineState {
        MachineState {
            state: State::Fetch,
            debug: DebugSettings { enabled: true, print_registers: true, manual_input: true },
            io: IoState { transfer_active: false, ready: false },
            power: false,
            pc: 0,
            a: 0,
            z: 0,
            sr: 0,
            mar: 0,
            mbr: 0,
            ir: 0,
            ram: Seq::new(RAM_LENGTH as nat, |i: int| 0u16),
            dsl: 0,
            dil: 0,
            dol: 0,
            flags: 0,
            clock_pulse: 0,
            breakpoints: Seq::empty(),
        }
    }
}

} // verus!
