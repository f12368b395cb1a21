//! A run of a program against a scripted device: the bytes that the device
//! will supply are given beforehand, and the bytes that the machine puts out
//! are collected.

use vstd::prelude::*;
use crate::computer::handshake::IoRequest;
use crate::computer::BlueComputer;
use crate::state::MachineState;
use crate::word::RAM_LENGTH;

verus! {

/// Why a run ended.
#[derive(Debug, Clone, Copy, PartialEq, Eq, Structural)]
pub enum RunStop {
    /// The run flag was cleared: by `Hlt`, by an overflow of `Add`, or on a
    /// breakpoint.
    Halted,
    /// An `Inp` waits for a byte and the script has none left.
    InputExhausted,
    /// The allowed number of cycles has been run.
    CycleLimit,
}

/// What a run did.
#[derive(Debug)]
pub struct RunReport {
    /// Why the run ended.
    pub stop: RunStop,
    /// The number of cycles that were run.
    pub cycles: usize,
    /// The number of bytes of the script that the machine took.
    pub consumed: usize,
    /// The bytes that the machine put out, in order.
    pub output: Vec<u8>,
}

/// A run in progress, as a mathematical value.
pub struct Run {
    /// The machine.
    pub machine: MachineState,
    /// The number of cycles run so far.
    pub cycles: nat,
    /// The number of script bytes taken so far.
    pub consumed: nat,
    /// The bytes put out so far.
    pub output: Seq<u8>,
}

impl MachineState {
    /// One cycle of a run: the eight ticks, and in debug mode the check of
    /// the breakpoints.
    pub open spec fn run_cycle(self) -> MachineState {
        let cycled = self.emulate_cycle();
        if cycled.debug.enabled {
            cycled.check_breakpoint()
        } else {
            cycled
        }
    }
}

impl Run {
    /// The start of a run: nothing run, taken or put out yet.
    pub open spec fn start(machine: MachineState) -> Run {
        Run { machine, cycles: 0, consumed: 0, output: Seq::empty() }
    }

    /// The run to its end. Each turn runs one cycle; a halted machine ends
    /// the run; else the device is served: a pending `Inp` takes the next
    /// byte of `input`, or ends the run where there is none, and a pending
    /// `Out` adds its byte to the output. The run also ends once `limit`
    /// cycles have been run.
    pub open spec fn finish(self, input: Seq<u8>, limit: nat) -> (Run, RunStop)
        decreases limit - self.cycles,
    {
        if self.cycles >= limit {
            (self, RunStop::CycleLimit)
        } else {
            let cycled = self.machine.run_cycle();
            let served = cycled.handle_io();
            let cycles = self.cycles + 1;
            if !cycled.power {
                (Run { machine: cycled, cycles, ..self }, RunStop::Halted)
            } else {
                match cycled.io_request() {
                    IoRequest::Idle => Run { machine: served, cycles, ..self }.finish(input, limit),
                    IoRequest::Output(byte) => Run {
                        machine: served,
                        cycles,
                        output: self.output.push(byte),
                        ..self
                    }.finish(input, limit),
                    IoRequest::Input => if self.consumed < input.len() {
                        Run {
                            machine: served.provide_input_byte(input[self.consumed as int]),
                            cycles,
                            consumed: self.consumed + 1,
                            ..self
                        }.finish(input, limit)
                    } else {
                        (Run { machine: served, cycles, ..self }, RunStop::InputExhausted)
                    },
                }
            }
        }
    }
}

impl BlueComputer {
    /// Run a program loaded into memory, against a device that supplies the
    /// bytes of `input` in order, for at most `max_cycles` cycles.
    ///
    /// The program is copied to memory from address 0 and the machine is
    /// powered on. The run ends when the machine halts, when an `Inp` finds
    /// the script empty, or at the cycle limit; the machine is left as it
    /// then stands, for inspection.
    pub fn run_program(&mut self, program: &[u16], input: &[u8], max_cycles: usize) -> (report:
        RunReport)
        requires
            program@.len() <= RAM_LENGTH,
        ensures
            (
                Run {
                    machine: final(self)@,
                    cycles: report.cycles as nat,
                    consumed: report.consumed as nat,
                    output: report.output@,
                },
                report.stop,
            ) == Run::start(old(self)@.load_program(program@)).finish(input@, max_cycles as nat),
    {
        self.load_program(program);
        let mut cycles: usize = 0;
        let mut consumed: usize = 0;
        let mut output: Vec<u8> = Vec::new();
        let ghost goal = Run::start(self@).finish(input@, max_cycles as nat);
        while cycles < max_cycles
            invariant
                cycles <= max_cycles,
                consumed <= input@.len(),
                (Run {
                    machine: self@,
                    cycles: cycles as nat,
                    consumed: consumed as nat,
                    output: output@,
                }).finish(input@, max_cycles as nat) == goal,
                goal == Run::start(old(self)@.load_program(program@)).finish(
                    input@,
                    max_cycles as nat,
                ),
            decreases max_cycles - cycles,
        {
            let ghost before = Run {
                machine: self@,
                cycles: cycles as nat,
                consumed: consumed as nat,
                output: output@,
            };
            assert(before.finish(input@, max_cycles as nat) == goal);
            self.emulate_cycle();
            if self.debug().enabled {
                self.check_breakpoint();
            }
            cycles += 1;
            if !self.power() {
                return RunReport { stop: RunStop::Halted, cycles, consumed, output };
            }
            match self.handle_io() {
                IoRequest::Idle => {},
                IoRequest::Output(byte) => output.push(byte),
                IoRequest::Input => {
                    if consumed < input.len() {
                        self.provide_input_byte(input[consumed]);
                        consumed += 1;
                    } else {
                        return RunReport { stop: RunStop::InputExhausted, cycles, consumed, output };
                    }
                },
            }
        }
        RunReport { stop: RunStop::CycleLimit, cycles, consumed, output }
    }
}

} // verus!
