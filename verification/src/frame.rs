//! What the handlers leave alone: the parts of the machine that a tick cannot
//! touch, and the ticks at which a handler does nothing.

use vstd::prelude::*;
use crate::instruction::Instruction;
use crate::state::{MachineState, State};

verus! {

/// In the fetch sub-state no handler acts before tick 5.
pub proof fn lemma_handlers_wait_for_the_fetch(s: MachineState, instruction: Instruction, tick: u8)
    requires
        s.state == State::Fetch,
        tick < 5,
    ensures
        s.dispatch(instruction, tick) == s,
{
}

/// No handler writes IR or the clock pulse, at any tick.
pub proof fn lemma_handlers_keep_the_instruction(
    s: MachineState,
    instruction: Instruction,
    tick: u8,
)
    ensures
        s.dispatch(instruction, tick).ir == s.ir,
        s.dispatch(instruction, tick).clock_pulse == s.clock_pulse,
{
}

/// No handler reads the clock pulse: a handler's tick commutes with setting
/// the clock.
#[verifier::rlimit(100)]
pub proof fn lemma_handlers_ignore_the_clock(
    s: MachineState,
    instruction: Instruction,
    tick: u8,
    clock_pulse: u8,
)
    ensures
        (MachineState { clock_pulse, ..s }).dispatch(instruction, tick) == (MachineState {
            clock_pulse,
            ..s.dispatch(instruction, tick)
        }),
{
}

/// Before tick 7 no handler leaves the execute sub-state.
pub proof fn lemma_handlers_stay_in_execute(s: MachineState, instruction: Instruction, tick: u8)
    requires
        s.state == State::Execute,
        tick < 7,
    ensures
        s.dispatch(instruction, tick).state == State::Execute,
{
}

/// The flags change only at tick 6 of the execute phase of an arithmetic
/// instruction; every other tick of every handler leaves them as they are.
pub proof fn lemma_flags_change_only_in_arithmetic(
    s: MachineState,
    instruction: Instruction,
    tick: u8,
)
    ensures
        s.dispatch(instruction, tick).flags != s.flags ==> instruction.is_alu() && s.state
            == State::Execute && tick == 6,
        s.fetch_common(tick).flags == s.flags,
        s.process_tick(tick).flags != s.flags ==> Instruction::spec_of_word(s.ir).is_alu()
            && s.state == State::Execute && tick == 6,
{
}

/// The memory changes only at tick 4 of the execute phase of `Sta`, and then
/// in the one cell that MAR selects; it never changes its length.
pub proof fn lemma_memory_changes_only_in_store(
    s: MachineState,
    instruction: Instruction,
    tick: u8,
)
    ensures
        s.dispatch(instruction, tick).ram != s.ram ==> instruction == Instruction::Sta && s.state
            == State::Execute && tick == 4,
        s.dispatch(instruction, tick).ram == s.ram || s.dispatch(instruction, tick).ram
            == s.ram_with(s.mar, s.a),
        s.fetch_common(tick).ram == s.ram,
        s.well_formed() ==> s.dispatch(instruction, tick).well_formed(),
        s.well_formed() ==> s.process_tick(tick).well_formed(),
{
}

/// Only `Inp` and `Out` touch the handshake, and no tick of any handler
/// changes whether the device is ready.
pub proof fn lemma_handshake_changes_only_in_io(
    s: MachineState,
    instruction: Instruction,
    tick: u8,
)
    ensures
        s.dispatch(instruction, tick).io != s.io ==> instruction.is_io(),
        s.dispatch(instruction, tick).io.ready == s.io.ready,
        s.fetch_common(tick).io == s.io,
        s.process_tick(tick).io.ready == s.io.ready,
{
}

/// No tick touches what the debug layer keeps: the settings and the
/// breakpoints.
pub proof fn lemma_ticks_keep_debug_state(s: MachineState, instruction: Instruction, tick: u8)
    ensures
        s.dispatch(instruction, tick).debug == s.debug,
        s.dispatch(instruction, tick).breakpoints == s.breakpoints,
        s.process_tick(tick).debug == s.debug,
        s.process_tick(tick).breakpoints == s.breakpoints,
        s.process_tick(tick).clock_pulse == s.clock_pulse,
        s.process_tick(tick).sr == s.sr,
{
}

} // verus!
