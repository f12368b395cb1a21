//! What the engine guarantees of whole cycles: where the program counter
//! goes, what a subroutine jump saves, and how comparison relates to
//! subtraction.

use vstd::prelude::*;
use crate::alu::{spec_add_words, spec_subtract_words};
use crate::computer::handshake::IoRequest;
use crate::computer::run::{Run, RunStop};
use crate::cycle::{lemma_execute_cycle, lemma_fetch_cycle, lemma_handler_cycle};
use crate::instruction::Instruction;
use crate::state::{MachineState, State};
use crate::word::{
    spec_address_field, spec_high_byte, spec_into_high_byte, spec_is_negative, spec_low_byte,
    spec_next_address,
};

verus! {

/// A fetch cycle moves the program counter to the next address unless the
/// instruction that it fetches is a jump. `Jmp` and `Srj` always load the
/// address field. `Jma` loads it if and only if the accumulator was negative
/// when the cycle began, and else lets the counter advance as well. The next
/// address is the counter plus one, except that 0xFFF is followed by 0.
pub proof fn lemma_program_counter_after_fetch(s: MachineState)
    requires
        s.state == State::Fetch,
        s.clock_pulse == 0,
    ensures
        !Instruction::spec_of_word(s.fetched_word()).is_jump() ==> s.emulate_cycle().pc
            == spec_next_address(s.pc),
        Instruction::spec_of_word(s.fetched_word()) == Instruction::Jmp ==> s.emulate_cycle().pc
            == spec_address_field(s.fetched_word()),
        Instruction::spec_of_word(s.fetched_word()) == Instruction::Srj ==> s.emulate_cycle().pc
            == spec_address_field(s.fetched_word()),
        Instruction::spec_of_word(s.fetched_word()) == Instruction::Jma ==> s.emulate_cycle().pc
            == (if spec_is_negative(s.a) {
            spec_address_field(s.fetched_word())
        } else {
            spec_next_address(s.pc)
        }),
        s.pc < 0x0FFF ==> spec_next_address(s.pc) == s.pc + 1,
        s.pc == 0x0FFF ==> spec_next_address(s.pc) == 0,
        s.emulate_cycle().pc < 0x1000,
{
    lemma_fetch_cycle(s);
}

/// An execute cycle of an instruction that has an execute phase leaves the
/// program counter where it is: the counter moves once for each instruction.
pub proof fn lemma_program_counter_after_execute(s: MachineState)
    requires
        s.state == State::Execute,
        s.clock_pulse == 0,
        Instruction::spec_of_word(s.ir).has_execute_phase(),
    ensures
        s.emulate_cycle().pc == s.pc,
{
    lemma_execute_cycle(s);
}

/// The eight ticks of `Srj`, from any state: the accumulator receives the
/// twelve address bits of the program counter, and the program counter and
/// MAR receive the address field of the instruction.
pub proof fn lemma_subroutine_jump(s: MachineState)
    ensures
        s.handler_cycle(Instruction::Srj).a == spec_address_field(s.pc),
        s.handler_cycle(Instruction::Srj).pc == spec_address_field(s.ir),
        s.handler_cycle(Instruction::Srj).mar == spec_address_field(s.ir),
{
    lemma_handler_cycle(s, Instruction::Srj);
}

/// A fetch cycle that brings in an `Srj`: the program counter has advanced
/// before the handler saves it, so the accumulator receives the address of the
/// instruction that follows the `Srj`, the address to return to.
pub proof fn lemma_subroutine_jump_saves_return_address(s: MachineState)
    requires
        s.state == State::Fetch,
        s.clock_pulse == 0,
        Instruction::spec_of_word(s.fetched_word()) == Instruction::Srj,
    ensures
        s.emulate_cycle().a == spec_next_address(s.pc),
        s.emulate_cycle().pc == spec_address_field(s.fetched_word()),
        s.emulate_cycle().mar == spec_address_field(s.fetched_word()),
        s.emulate_cycle().state == State::Fetch,
{
    lemma_fetch_cycle(s);
}

/// Comparison is subtraction without its result. At every tick, from every
/// state, `Cmp` leaves the accumulator as it is and sets the flags that `Sub`
/// sets.
pub proof fn lemma_compare_tick(s: MachineState, tick: u8)
    ensures
        s.dispatch(Instruction::Cmp, tick).a == s.a,
        s.dispatch(Instruction::Cmp, tick).flags == s.dispatch(Instruction::Sub, tick).flags,
{
}

/// Comparison is subtraction without its result, over the eight ticks of the
/// two handlers from one state: `Cmp` leaves the accumulator as it is; in the
/// execute phase `Sub` writes the difference of Z and the operand to it; and
/// the two leave the same flags, and the same machine but for the
/// accumulator.
pub proof fn lemma_compare_cycle(s: MachineState)
    ensures
        s.handler_cycle(Instruction::Cmp).a == s.a,
        s.state == State::Execute ==> s.handler_cycle(Instruction::Sub).a == spec_subtract_words(
            s.z,
            s.word_at(s.mar),
        ).value,
        s.handler_cycle(Instruction::Cmp).flags == s.handler_cycle(Instruction::Sub).flags,
        s.handler_cycle(Instruction::Cmp) == (MachineState {
            a: s.a,
            ..s.handler_cycle(Instruction::Sub)
        }),
{
    lemma_handler_cycle(s, Instruction::Cmp);
    lemma_handler_cycle(s, Instruction::Sub);
}

/// A cycle keeps the addresses within twelve bits: a fetch cycle brings the
/// program counter below 4096 whatever it was, and a cycle that begins with
/// the program counter and MAR below 4096 ends with both below 4096.
pub proof fn lemma_addresses_stay_in_range(s: MachineState)
    requires
        s.clock_pulse == 0,
    ensures
        s.state == State::Fetch ==> s.emulate_cycle().pc < 0x1000,
        s.pc < 0x1000 && s.mar < 0x1000 ==> s.emulate_cycle().pc < 0x1000 && s.emulate_cycle().mar
            < 0x1000,
{
    if s.state == State::Fetch {
        lemma_fetch_cycle(s);
    } else {
        lemma_execute_cycle(s);
    }
}

/// Over a whole cycle the flags change only in the execute cycle of an
/// arithmetic instruction. Fetch cycles, and the execute cycles of all other
/// instructions, hand them on as they are, from one instruction to the next.
pub proof fn lemma_flags_after_cycle(s: MachineState)
    requires
        s.clock_pulse == 0,
    ensures
        s.emulate_cycle().flags != s.flags ==> s.state == State::Execute
            && Instruction::spec_of_word(s.ir).is_alu(),
{
    if s.state == State::Fetch {
        lemma_fetch_cycle(s);
    } else {
        lemma_execute_cycle(s);
    }
}

/// Over a whole cycle the memory changes only in the execute cycle of `Sta`,
/// and then only in the cell that MAR selects, which receives the
/// accumulator. The memory keeps its length.
pub proof fn lemma_memory_after_cycle(s: MachineState)
    requires
        s.clock_pulse == 0,
    ensures
        s.emulate_cycle().ram != s.ram ==> s.state == State::Execute && Instruction::spec_of_word(
            s.ir,
        ) == Instruction::Sta,
        s.emulate_cycle().ram == s.ram || s.emulate_cycle().ram == s.ram_with(s.mar, s.a),
        s.well_formed() ==> s.emulate_cycle().well_formed(),
{
    if s.state == State::Fetch {
        lemma_fetch_cycle(s);
    } else {
        lemma_execute_cycle(s);
    }
}

/// An execute cycle of `Add` that overflows clears the run flag, and no other
/// execute cycle of an arithmetic instruction touches it.
pub proof fn lemma_only_add_overflow_halts(s: MachineState)
    requires
        s.state == State::Execute,
        s.clock_pulse == 0,
        Instruction::spec_of_word(s.ir).is_alu(),
    ensures
        s.emulate_cycle().power == (s.power && !(Instruction::spec_of_word(s.ir)
            == Instruction::Add && spec_add_words(s.z, s.word_at(s.mar)).overflow)),
        Instruction::spec_of_word(s.ir) == Instruction::Add ==> s.emulate_cycle().a
            == spec_add_words(s.z, s.word_at(s.mar)).value,
{
    lemma_execute_cycle(s);
}

/// The controller serves every pending transfer, whatever the debug settings
/// are. A pending `Inp` asks for a byte and keeps the machine as it is; the
/// byte that the device supplies then stands in DIL with the device ready,
/// and nothing else has changed. A pending `Out` hands over the low byte of
/// DOL and makes the device ready, and nothing else has changed.
pub proof fn lemma_pending_transfer_is_served(s: MachineState, byte: u8)
    requires
        s.io.transfer_active,
        !s.io.ready,
    ensures
        Instruction::spec_of_word(s.ir) == Instruction::Inp ==> {
            &&& s.io_request() == IoRequest::Input
            &&& s.handle_io() == s
            &&& s.handle_io().provide_input_byte(byte) == (MachineState {
                dil: byte as u16,
                ..s
            }).with_ready(true)
        },
        Instruction::spec_of_word(s.ir) == Instruction::Out ==> {
            &&& s.io_request() == IoRequest::Output(spec_low_byte(s.dol))
            &&& s.handle_io() == s.with_ready(true)
        },
        !Instruction::spec_of_word(s.ir).is_io() ==> {
            &&& s.io_request() == IoRequest::Idle
            &&& s.handle_io() == s.with_ready(false)
        },
{
}

/// The input handshake, from the fetch of an `Inp` to its end. The fetch
/// cycle opens the transfer and the machine asks for a byte; once the device
/// has supplied one, the next cycle takes it into the high byte of the
/// accumulator, closes the transfer and returns to the fetch phase; and the
/// controller then makes the device not ready, for the next transfer.
pub proof fn lemma_input_round_trip(s: MachineState, byte: u8)
    requires
        s.state == State::Fetch,
        s.clock_pulse == 0,
        Instruction::spec_of_word(s.fetched_word()) == Instruction::Inp,
        !s.io.ready,
    ensures
        s.emulate_cycle().io_request() == IoRequest::Input,
        s.emulate_cycle().handle_io() == s.emulate_cycle(),
        ({
            let supplied = s.emulate_cycle().handle_io().provide_input_byte(byte);
            let taken = supplied.emulate_cycle();
            &&& supplied.io.ready
            &&& supplied.io_request() == IoRequest::Idle
            &&& taken.a == spec_into_high_byte(byte as u16)
            &&& spec_high_byte(taken.a) == byte
            &&& !taken.io.transfer_active
            &&& taken.state == State::Fetch
            &&& taken.mar == taken.pc
            &&& taken.pc == spec_next_address(s.pc)
            &&& !taken.handle_io().io.ready
        }),
{
    lemma_fetch_cycle(s);
    let supplied = s.emulate_cycle().handle_io().provide_input_byte(byte);
    lemma_execute_cycle(supplied);
}

/// The output handshake, from the fetch of an `Out` to its end. The fetch
/// cycle offers the high byte of the accumulator and opens the transfer; the
/// controller hands that byte to the device and makes it ready; the next
/// cycle closes the transfer and returns to the fetch phase; and the
/// controller then makes the device not ready.
pub proof fn lemma_output_round_trip(s: MachineState)
    requires
        s.state == State::Fetch,
        s.clock_pulse == 0,
        Instruction::spec_of_word(s.fetched_word()) == Instruction::Out,
        !s.io.ready,
    ensures
        s.emulate_cycle().io_request() == IoRequest::Output(spec_low_byte(spec_high_byte(s.a))),
        spec_low_byte(spec_high_byte(s.a)) == spec_high_byte(s.a),
        ({
            let served = s.emulate_cycle().handle_io();
            let closed = served.emulate_cycle();
            &&& served.io.ready
            &&& served.io_request() == IoRequest::Idle
            &&& closed.a == s.a
            &&& !closed.io.transfer_active
            &&& closed.state == State::Fetch
            &&& closed.mar == closed.pc
            &&& !closed.handle_io().io.ready
        }),
{
    lemma_fetch_cycle(s);
    let served = s.emulate_cycle().handle_io();
    lemma_execute_cycle(served);
}

/// While a transfer waits for its device, cycles change nothing: the machine
/// stays in the execute phase of its `Inp` or `Out` until the device is ready.
pub proof fn lemma_transfer_waits_for_the_device(s: MachineState)
    requires
        s.state == State::Execute,
        s.clock_pulse == 0,
        Instruction::spec_of_word(s.ir).is_io(),
        s.io.transfer_active,
        !s.io.ready,
    ensures
        s.emulate_cycle() == s,
{
    lemma_execute_cycle(s);
}

/// A run is determined by what it starts from: machines in the same state,
/// loaded with the same program and run against the same script for the same
/// number of cycles, end in the same state, registers and memory alike, after
/// the same number of cycles, with the same output, for the same reason.
pub proof fn lemma_runs_are_determined(
    first: MachineState,
    second: MachineState,
    program: Seq<u16>,
    input: Seq<u8>,
    limit: nat,
)
    requires
        first == second,
    ensures
        Run::start(first.load_program(program)).finish(input, limit) == Run::start(
            second.load_program(program),
        ).finish(input, limit),
{
}

/// A run never goes beyond its cycle limit, never takes more bytes than the
/// script holds, and ends for its limit only when the limit is reached.
pub proof fn lemma_run_stays_in_bounds(run: Run, input: Seq<u8>, limit: nat)
    requires
        run.cycles <= limit,
        run.consumed <= input.len(),
    ensures
        run.finish(input, limit).0.cycles <= limit,
        run.cycles <= run.finish(input, limit).0.cycles,
        run.consumed <= run.finish(input, limit).0.consumed <= input.len(),
        run.finish(input, limit).1 == RunStop::CycleLimit ==> run.finish(input, limit).0.cycles
            == limit,
        run.finish(input, limit).1 == RunStop::Halted ==> !run.finish(input, limit).0.machine.power,
        run.finish(input, limit).1 == RunStop::InputExhausted ==> run.finish(
            input,
            limit,
        ).0.consumed == input.len() && run.finish(input, limit).0.machine.io_request()
            == IoRequest::Input,
    decreases limit - run.cycles,
{
    if run.cycles < limit {
        let cycled = run.machine.run_cycle();
        let served = cycled.handle_io();
        let cycles = run.cycles + 1;
        if cycled.power {
            match cycled.io_request() {
                IoRequest::Idle => lemma_run_stays_in_bounds(
                    Run { machine: served, cycles, ..run },
                    input,
                    limit,
                ),
                IoRequest::Output(byte) => lemma_run_stays_in_bounds(
                    Run { machine: served, cycles, output: run.output.push(byte), ..run },
                    input,
                    limit,
                ),
                IoRequest::Input => if run.consumed < input.len() {
                    lemma_run_stays_in_bounds(
                        Run {
                            machine: served.provide_input_byte(input[run.consumed as int]),
                            cycles,
                            consumed: run.consumed + 1,
                            ..run
                        },
                        input,
                        limit,
                    )
                },
            }
        }
    }
}

} // verus!
