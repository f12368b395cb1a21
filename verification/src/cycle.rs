//! Whole cycles: what the eight ticks of a cycle amount to, in closed form.

use vstd::prelude::*;
use crate::frame::{
    lemma_handlers_ignore_the_clock, lemma_handlers_keep_the_instruction,
    lemma_handlers_stay_in_execute, lemma_handlers_wait_for_the_fetch,
};
use crate::instruction::Instruction;
use crate::microprogram::unary_outcome;
use crate::state::{IoState, MachineState, State};
use crate::word::{
    spec_address_field, spec_device_field, spec_high_byte, spec_into_high_byte, spec_is_negative,
    spec_next_address,
};

verus! {

impl MachineState {
    /// The eight ticks of the handler of `instruction`, without the common
    /// fetch actions.
    pub open spec fn handler_cycle(self, instruction: Instruction) -> MachineState {
        self.dispatch(instruction, 0).dispatch(instruction, 1).dispatch(instruction, 2).dispatch(
            instruction,
            3,
        ).dispatch(instruction, 4).dispatch(instruction, 5).dispatch(instruction, 6).dispatch(
            instruction,
            7,
        )
    }

    /// What the handler of `instruction` does in a cycle that it begins in the
    /// fetch sub-state, in closed form.
    pub open spec fn fetch_phase(self, instruction: Instruction) -> MachineState {
        let address = spec_address_field(self.ir);
        match instruction {
            Instruction::Hlt => MachineState { power: false, mar: self.pc, ..self },
            Instruction::Add
            | Instruction::Xor
            | Instruction::And
            | Instruction::Ior
            | Instruction::Sub
            | Instruction::Cmp => MachineState {
                z: self.a,
                mar: address,
                state: State::Execute,
                ..self
            },
            Instruction::Not | Instruction::Ral => MachineState {
                z: self.a,
                state: State::Execute,
                ..self
            },
            Instruction::Lda | Instruction::Sta => MachineState {
                mar: address,
                state: State::Execute,
                ..self
            },
            Instruction::Srj => MachineState {
                a: spec_address_field(self.pc),
                pc: address,
                mar: address,
                ..self
            },
            Instruction::Jma => if spec_is_negative(self.a) {
                MachineState { pc: address, mar: address, ..self }
            } else {
                MachineState { mar: self.pc, ..self }
            },
            Instruction::Jmp => MachineState { pc: address, mar: address, ..self },
            Instruction::Inp => MachineState {
                a: 0,
                dsl: spec_device_field(self.ir),
                io: IoState { transfer_active: true, ..self.io },
                state: State::Execute,
                ..self
            },
            Instruction::Out => MachineState {
                dol: spec_high_byte(self.a),
                dsl: spec_device_field(self.ir),
                io: IoState { transfer_active: true, ..self.io },
                state: State::Execute,
                ..self
            },
            Instruction::Csa => MachineState { a: self.sr, mar: self.pc, ..self },
            Instruction::Nop => MachineState { mar: self.pc, ..self },
        }
    }

    /// What the handler of `instruction` does in a cycle that it begins in the
    /// execute sub-state, in closed form. The instructions without an execute
    /// phase do what they do in the fetch phase and leave the sub-state alone.
    pub open spec fn execute_phase(self, instruction: Instruction) -> MachineState {
        match instruction {
            Instruction::Add
            | Instruction::Xor
            | Instruction::And
            | Instruction::Ior
            | Instruction::Sub
            | Instruction::Cmp => {
                let operand = self.word_at(self.mar);
                MachineState { mbr: operand, ..self }.alu_operate(instruction).resume_fetch()
            },
            Instruction::Not | Instruction::Ral => MachineState {
                a: unary_outcome(instruction, self.z),
                ..self
            }.resume_fetch(),
            Instruction::Lda => MachineState {
                a: self.word_at(self.mar),
                mbr: self.word_at(self.mar),
                ..self
            }.resume_fetch(),
            Instruction::Sta => MachineState {
                ram: self.ram_with(self.mar, self.a),
                mbr: self.a,
                ..self
            }.resume_fetch(),
            Instruction::Inp => if self.io.ready {
                MachineState {
                    a: spec_into_high_byte(self.dil),
                    io: IoState { transfer_active: false, ..self.io },
                    ..self
                }.resume_fetch()
            } else {
                self.resume_after_transfer()
            },
            Instruction::Out => if self.io.ready {
                MachineState {
                    io: IoState { transfer_active: false, ..self.io },
                    ..self
                }.resume_fetch()
            } else {
                self.resume_after_transfer()
            },
            _ => self.fetch_phase(instruction),
        }
    }

    /// The instruction word that a fetch cycle brings in: the word that MAR
    /// points at.
    pub open spec fn fetched_word(self) -> u16 {
        self.word_at(self.mar)
    }

    /// A fetch cycle in closed form: the program counter advances, the word
    /// that MAR points at arrives in MBR and IR, and the instruction in it
    /// does its fetch-phase work.
    pub open spec fn fetch_cycle(self) -> MachineState {
        let word = self.fetched_word();
        MachineState { pc: spec_next_address(self.pc), mbr: word, ir: word, ..self }.fetch_phase(
            Instruction::spec_of_word(word),
        )
    }

    /// An execute cycle in closed form: the instruction in IR does its
    /// execute-phase work.
    pub open spec fn execute_cycle(self) -> MachineState {
        self.execute_phase(Instruction::spec_of_word(self.ir))
    }

    /// One turn of the cycle loop: the tick at the current clock pulse, then
    /// the advance of the clock.
    pub open spec fn tick_and_advance(self) -> MachineState {
        let ticked = self.process_tick(self.clock_pulse);
        MachineState { clock_pulse: (ticked.clock_pulse + 1) as u8, ..ticked }
    }
}

/// The eight ticks of `Hlt` amount to its phase.
proof fn lemma_hlt_cycle(s: MachineState)
    ensures
        s.handler_cycle(Instruction::Hlt) == match s.state {
            State::Fetch => s.fetch_phase(Instruction::Hlt),
            State::Execute => s.execute_phase(Instruction::Hlt),
        },
{
}

/// The eight ticks of `Add` amount to its phase.
proof fn lemma_add_cycle(s: MachineState)
    ensures
        s.handler_cycle(Instruction::Add) == match s.state {
            State::Fetch => s.fetch_phase(Instruction::Add),
            State::Execute => s.execute_phase(Instruction::Add),
        },
{
}

/// The eight ticks of `Xor` amount to its phase.
proof fn lemma_xor_cycle(s: MachineState)
    ensures
        s.handler_cycle(Instruction::Xor) == match s.state {
            State::Fetch => s.fetch_phase(Instruction::Xor),
            State::Execute => s.execute_phase(Instruction::Xor),
        },
{
}

/// The eight ticks of `And` amount to its phase.
proof fn lemma_and_cycle(s: MachineState)
    ensures
        s.handler_cycle(Instruction::And) == match s.state {
            State::Fetch => s.fetch_phase(Instruction::And),
            State::Execute => s.execute_phase(Instruction::And),
        },
{
}

/// The eight ticks of `Ior` amount to its phase.
proof fn lemma_ior_cycle(s: MachineState)
    ensures
        s.handler_cycle(Instruction::Ior) == match s.state {
            State::Fetch => s.fetch_phase(Instruction::Ior),
            State::Execute => s.execute_phase(Instruction::Ior),
        },
{
}

/// The eight ticks of `Not` amount to its phase.
proof fn lemma_not_cycle(s: MachineState)
    ensures
        s.handler_cycle(Instruction::Not) == match s.state {
            State::Fetch => s.fetch_phase(Instruction::Not),
            State::Execute => s.execute_phase(Instruction::Not),
        },
{
}

/// The eight ticks of `Lda` amount to its phase.
proof fn lemma_lda_cycle(s: MachineState)
    ensures
        s.handler_cycle(Instruction::Lda) == match s.state {
            State::Fetch => s.fetch_phase(Instruction::Lda),
            State::Execute => s.execute_phase(Instruction::Lda),
        },
{
}

/// The eight ticks of `Sta` amount to its phase.
proof fn lemma_sta_cycle(s: MachineState)
    ensures
        s.handler_cycle(Instruction::Sta) == match s.state {
            State::Fetch => s.fetch_phase(Instruction::Sta),
            State::Execute => s.execute_phase(Instruction::Sta),
        },
{
}

/// The eight ticks of `Srj` amount to its phase.
proof fn lemma_srj_cycle(s: MachineState)
    ensures
        s.handler_cycle(Instruction::Srj) == match s.state {
            State::Fetch => s.fetch_phase(Instruction::Srj),
            State::Execute => s.execute_phase(Instruction::Srj),
        },
{
}

/// The eight ticks of `Jma` amount to its phase.
proof fn lemma_jma_cycle(s: MachineState)
    ensures
        s.handler_cycle(Instruction::Jma) == match s.state {
            State::Fetch => s.fetch_phase(Instruction::Jma),
            State::Execute => s.execute_phase(Instruction::Jma),
        },
{
}

/// The eight ticks of `Jmp` amount to its phase.
proof fn lemma_jmp_cycle(s: MachineState)
    ensures
        s.handler_cycle(Instruction::Jmp) == match s.state {
            State::Fetch => s.fetch_phase(Instruction::Jmp),
            State::Execute => s.execute_phase(Instruction::Jmp),
        },
{
}

/// The eight ticks of `Inp` amount to its phase.
proof fn lemma_inp_cycle(s: MachineState)
    ensures
        s.handler_cycle(Instruction::Inp) == match s.state {
            State::Fetch => s.fetch_phase(Instruction::Inp),
            State::Execute => s.execute_phase(Instruction::Inp),
        },
{
}

/// The eight ticks of `Out` amount to its phase.
proof fn lemma_out_cycle(s: MachineState)
    ensures
        s.handler_cycle(Instruction::Out) == match s.state {
            State::Fetch => s.fetch_phase(Instruction::Out),
            State::Execute => s.execute_phase(Instruction::Out),
        },
{
}

/// The eight ticks of `Ral` amount to its phase.
proof fn lemma_ral_cycle(s: MachineState)
    ensures
        s.handler_cycle(Instruction::Ral) == match s.state {
            State::Fetch => s.fetch_phase(Instruction::Ral),
            State::Execute => s.execute_phase(Instruction::Ral),
        },
{
}

/// The eight ticks of `Csa` amount to its phase.
proof fn lemma_csa_cycle(s: MachineState)
    ensures
        s.handler_cycle(Instruction::Csa) == match s.state {
            State::Fetch => s.fetch_phase(Instruction::Csa),
            State::Execute => s.execute_phase(Instruction::Csa),
        },
{
}

/// The eight ticks of `Nop` amount to its phase.
proof fn lemma_nop_cycle(s: MachineState)
    ensures
        s.handler_cycle(Instruction::Nop) == match s.state {
            State::Fetch => s.fetch_phase(Instruction::Nop),
            State::Execute => s.execute_phase(Instruction::Nop),
        },
{
}

/// The eight ticks of `Sub` amount to its phase.
proof fn lemma_sub_cycle(s: MachineState)
    ensures
        s.handler_cycle(Instruction::Sub) == match s.state {
            State::Fetch => s.fetch_phase(Instruction::Sub),
            State::Execute => s.execute_phase(Instruction::Sub),
        },
{
}

/// The eight ticks of `Cmp` amount to its phase.
proof fn lemma_cmp_cycle(s: MachineState)
    ensures
        s.handler_cycle(Instruction::Cmp) == match s.state {
            State::Fetch => s.fetch_phase(Instruction::Cmp),
            State::Execute => s.execute_phase(Instruction::Cmp),
        },
{
}

/// The eight ticks of a handler amount to its phase, by the sub-state in
/// which they begin.
pub proof fn lemma_handler_cycle(s: MachineState, instruction: Instruction)
    ensures
        s.handler_cycle(instruction) == match s.state {
            State::Fetch => s.fetch_phase(instruction),
            State::Execute => s.execute_phase(instruction),
        },
{
    match instruction {
        Instruction::Hlt => lemma_hlt_cycle(s),
        Instruction::Add => lemma_add_cycle(s),
        Instruction::Xor => lemma_xor_cycle(s),
        Instruction::And => lemma_and_cycle(s),
        Instruction::Ior => lemma_ior_cycle(s),
        Instruction::Not => lemma_not_cycle(s),
        Instruction::Lda => lemma_lda_cycle(s),
        Instruction::Sta => lemma_sta_cycle(s),
        Instruction::Srj => lemma_srj_cycle(s),
        Instruction::Jma => lemma_jma_cycle(s),
        Instruction::Jmp => lemma_jmp_cycle(s),
        Instruction::Inp => lemma_inp_cycle(s),
        Instruction::Out => lemma_out_cycle(s),
        Instruction::Ral => lemma_ral_cycle(s),
        Instruction::Csa => lemma_csa_cycle(s),
        Instruction::Nop => lemma_nop_cycle(s),
        Instruction::Sub => lemma_sub_cycle(s),
        Instruction::Cmp => lemma_cmp_cycle(s),
    }
}

/// The cycle loop, one turn at a time.
pub proof fn lemma_remaining_ticks_unfold(s: MachineState)
    ensures
        s.clock_pulse < 8 ==> s.remaining_ticks() == s.tick_and_advance().remaining_ticks(),
        s.clock_pulse >= 8 ==> s.remaining_ticks() == s,
{
}

/// A cycle that starts at clock pulse 0 is eight turns of the cycle loop and
/// the reset of the clock.
pub proof fn lemma_cycle_is_eight_ticks(s: MachineState)
    requires
        s.clock_pulse == 0,
    ensures
        s.emulate_cycle() == (MachineState {
            clock_pulse: 0,
            ..s.tick_and_advance().tick_and_advance().tick_and_advance().tick_and_advance()
                .tick_and_advance().tick_and_advance().tick_and_advance().tick_and_advance()
        }),
{
    let s1 = s.tick_and_advance();
    let s2 = s1.tick_and_advance();
    let s3 = s2.tick_and_advance();
    let s4 = s3.tick_and_advance();
    let s5 = s4.tick_and_advance();
    let s6 = s5.tick_and_advance();
    let s7 = s6.tick_and_advance();
    let s8 = s7.tick_and_advance();
    lemma_turn_advances_the_clock(s);
    lemma_turn_advances_the_clock(s1);
    lemma_turn_advances_the_clock(s2);
    lemma_turn_advances_the_clock(s3);
    lemma_turn_advances_the_clock(s4);
    lemma_turn_advances_the_clock(s5);
    lemma_turn_advances_the_clock(s6);
    lemma_turn_advances_the_clock(s7);
    lemma_remaining_ticks_unfold(s);
    lemma_remaining_ticks_unfold(s1);
    lemma_remaining_ticks_unfold(s2);
    lemma_remaining_ticks_unfold(s3);
    lemma_remaining_ticks_unfold(s4);
    lemma_remaining_ticks_unfold(s5);
    lemma_remaining_ticks_unfold(s6);
    lemma_remaining_ticks_unfold(s7);
    lemma_remaining_ticks_unfold(s8);
}

/// One turn of the cycle loop advances the clock by one.
proof fn lemma_turn_advances_the_clock(s: MachineState)
    requires
        s.clock_pulse < 8,
    ensures
        s.tick_and_advance().clock_pulse == s.clock_pulse + 1,
{
    let fetched = s.fetch_common(s.clock_pulse);
    lemma_handlers_keep_the_instruction(
        fetched,
        Instruction::spec_of_word(fetched.ir),
        s.clock_pulse,
    );
}

/// If the instruction that is decoded after the common fetch actions is
/// `instruction`, a turn of the cycle loop is those actions, one tick of its
/// handler, and the advance of the clock.
proof fn lemma_turn(s: MachineState, instruction: Instruction)
    requires
        s.clock_pulse < 8,
    ensures
        Instruction::spec_of_word(s.fetch_common(s.clock_pulse).ir) == instruction
            ==> s.tick_and_advance() == (MachineState {
            clock_pulse: (s.clock_pulse + 1) as u8,
            ..s.fetch_common(s.clock_pulse).dispatch(instruction, s.clock_pulse)
        }),
{
    let fetched = s.fetch_common(s.clock_pulse);
    lemma_handlers_keep_the_instruction(
        fetched,
        Instruction::spec_of_word(fetched.ir),
        s.clock_pulse,
    );
}

/// A cycle that starts in the fetch sub-state is a fetch cycle.
pub proof fn lemma_fetch_cycle(s: MachineState)
    requires
        s.state == State::Fetch,
        s.clock_pulse == 0,
    ensures
        s.emulate_cycle() == s.fetch_cycle(),
{
    let word = s.fetched_word();
    let instruction = Instruction::spec_of_word(word);
    let pc = spec_next_address(s.pc);
    let before = Instruction::spec_of_word(s.ir);
    let s1 = s.tick_and_advance();
    let s2 = s1.tick_and_advance();
    let s3 = s2.tick_and_advance();
    let s4 = s3.tick_and_advance();
    let s5 = s4.tick_and_advance();
    let s6 = s5.tick_and_advance();
    let s7 = s6.tick_and_advance();
    let s8 = s7.tick_and_advance();
    lemma_cycle_is_eight_ticks(s);

    // Ticks 0 to 4: only the common fetch actions act.
    lemma_turn(s, before);
    lemma_handlers_wait_for_the_fetch(s, before, 0);
    assert(s1 == MachineState { clock_pulse: 1, ..s });
    lemma_turn(s1, before);
    lemma_handlers_wait_for_the_fetch(s1, before, 1);
    assert(s2 == MachineState { clock_pulse: 2, ..s });
    lemma_turn(s2, before);
    lemma_handlers_wait_for_the_fetch(s2.fetch_common(2), before, 2);
    assert(s3 == MachineState { clock_pulse: 3, pc, ..s });
    lemma_turn(s3, before);
    lemma_handlers_wait_for_the_fetch(s3.fetch_common(3), before, 3);
    assert(s4 == MachineState { clock_pulse: 4, pc, mbr: 0, ..s });
    lemma_turn(s4, Instruction::Hlt);
    lemma_handlers_wait_for_the_fetch(s4.fetch_common(4), Instruction::Hlt, 4);
    assert(s5 == MachineState { clock_pulse: 5, pc, mbr: word, ir: 0, ..s });

    // Ticks 5 to 7: the word is latched into IR and its handler acts.
    let f0 = MachineState { pc, mbr: word, ir: word, ..s };
    let f5 = f0.dispatch(instruction, 5);
    let f6 = f5.dispatch(instruction, 6);
    let f7 = f6.dispatch(instruction, 7);
    lemma_turn(s5, instruction);
    lemma_handlers_ignore_the_clock(f0, instruction, 5, 5);
    assert(s5.fetch_common(5) == MachineState { clock_pulse: 5, ..f0 });
    assert(s6 == MachineState { clock_pulse: 6, ..f5 });
    lemma_handlers_keep_the_instruction(f0, instruction, 5);
    lemma_turn(s6, instruction);
    lemma_handlers_ignore_the_clock(f5, instruction, 6, 6);
    assert(s7 == MachineState { clock_pulse: 7, ..f6 });
    lemma_handlers_keep_the_instruction(f5, instruction, 6);
    lemma_turn(s7, instruction);
    lemma_handlers_ignore_the_clock(f6, instruction, 7, 7);
    assert(s8 == MachineState { clock_pulse: 8, ..f7 });

    // The handler's first five ticks would not have acted either.
    lemma_handlers_wait_for_the_fetch(f0, instruction, 0);
    lemma_handlers_wait_for_the_fetch(f0, instruction, 1);
    lemma_handlers_wait_for_the_fetch(f0, instruction, 2);
    lemma_handlers_wait_for_the_fetch(f0, instruction, 3);
    lemma_handlers_wait_for_the_fetch(f0, instruction, 4);
    assert(f0.handler_cycle(instruction) == f7);
    lemma_handler_cycle(f0, instruction);
    lemma_handlers_keep_the_instruction(f6, instruction, 7);
    assert(f7.clock_pulse == 0) by {
        lemma_handlers_keep_the_instruction(f0, instruction, 5);
        lemma_handlers_keep_the_instruction(f5, instruction, 6);
    }
}

/// One turn of the cycle loop in the execute sub-state: the common fetch
/// actions do nothing, and the handler of the instruction in IR takes its tick.
proof fn lemma_execute_turn(s: MachineState, instruction: Instruction, tick: u8)
    requires
        s.state == State::Execute,
        tick < 8,
        Instruction::spec_of_word(s.ir) == instruction,
    ensures
        (MachineState { clock_pulse: tick, ..s }).tick_and_advance() == (MachineState {
            clock_pulse: (tick + 1) as u8,
            ..s.dispatch(instruction, tick)
        }),
        s.dispatch(instruction, tick).ir == s.ir,
        tick < 7 ==> s.dispatch(instruction, tick).state == State::Execute,
{
    lemma_turn(MachineState { clock_pulse: tick, ..s }, instruction);
    lemma_handlers_ignore_the_clock(s, instruction, tick, tick);
    lemma_handlers_keep_the_instruction(s, instruction, tick);
    if tick < 7 {
        lemma_handlers_stay_in_execute(s, instruction, tick);
    }
}

/// A cycle that starts in the execute sub-state is an execute cycle.
pub proof fn lemma_execute_cycle(s: MachineState)
    requires
        s.state == State::Execute,
        s.clock_pulse == 0,
    ensures
        s.emulate_cycle() == s.execute_cycle(),
{
    let instruction = Instruction::spec_of_word(s.ir);
    let e1 = s.dispatch(instruction, 0);
    let e2 = e1.dispatch(instruction, 1);
    let e3 = e2.dispatch(instruction, 2);
    let e4 = e3.dispatch(instruction, 3);
    let e5 = e4.dispatch(instruction, 4);
    let e6 = e5.dispatch(instruction, 5);
    let e7 = e6.dispatch(instruction, 6);
    let e8 = e7.dispatch(instruction, 7);
    lemma_cycle_is_eight_ticks(s);
    lemma_execute_turn(s, instruction, 0);
    lemma_execute_turn(e1, instruction, 1);
    lemma_execute_turn(e2, instruction, 2);
    lemma_execute_turn(e3, instruction, 3);
    lemma_execute_turn(e4, instruction, 4);
    lemma_execute_turn(e5, instruction, 5);
    lemma_execute_turn(e6, instruction, 6);
    lemma_execute_turn(e7, instruction, 7);
    assert(s == MachineState { clock_pulse: 0, ..s });
    assert(e8 == s.handler_cycle(instruction));
    lemma_handler_cycle(s, instruction);
    assert(e8.clock_pulse == 0) by {
        lemma_handlers_keep_the_instruction(s, instruction, 0);
        lemma_handlers_keep_the_instruction(e1, instruction, 1);
        lemma_handlers_keep_the_instruction(e2, instruction, 2);
        lemma_handlers_keep_the_instruction(e3, instruction, 3);
        lemma_handlers_keep_the_instruction(e4, instruction, 4);
        lemma_handlers_keep_the_instruction(e5, instruction, 5);
        lemma_handlers_keep_the_instruction(e6, instruction, 6);
        lemma_handlers_keep_the_instruction(e7, instruction, 7);
    }
}

} // verus!
