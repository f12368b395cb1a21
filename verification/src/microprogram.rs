//! The microprogram: what each clock tick does to the machine, instruction by
//! instruction, and how eight ticks make a cycle.
//!
//! Everything here is specification. The instructions fall into classes that
//! share a shape; the executable handlers of the machine are proved to follow
//! these tables tick by tick.

use vstd::prelude::*;
use crate::alu::{spec_add_words, spec_complement, spec_rotate_left, spec_subtract_words, AluResult};
use crate::flags::spec_flag_word;
use crate::instruction::Instruction;
use crate::state::{IoState, MachineState, State};
use crate::word::{
    spec_address_field, spec_device_field, spec_high_byte, spec_into_high_byte, spec_is_negative,
    spec_next_address,
};

verus! {

impl Instruction {
    /// The instructions that combine the latch Z with a memory operand.
    pub open spec fn is_alu(self) -> bool {
        self == Instruction::Add || self == Instruction::Xor || self == Instruction::And || self
            == Instruction::Ior || self == Instruction::Sub || self == Instruction::Cmp
    }

    /// The instructions that compute from the latch Z alone.
    pub open spec fn is_unary(self) -> bool {
        self == Instruction::Not || self == Instruction::Ral
    }

    /// The instructions that talk to a device.
    pub open spec fn is_io(self) -> bool {
        self == Instruction::Inp || self == Instruction::Out
    }

    /// The instructions that take a second phase, in the execute sub-state.
    pub open spec fn has_execute_phase(self) -> bool {
        self.is_alu() || self.is_unary() || self.is_io() || self == Instruction::Lda || self
            == Instruction::Sta
    }

    /// The instructions that may load the program counter with their address
    /// field.
    pub open spec fn is_jump(self) -> bool {
        self == Instruction::Srj || self == Instruction::Jma || self == Instruction::Jmp
    }
}

/// What an instruction of the arithmetic class computes from the latch and the
/// operand. The logical operations report neither carry nor overflow.
pub open spec fn alu_outcome(instruction: Instruction, z: u16, m: u16) -> AluResult {
    match instruction {
        Instruction::Add => spec_add_words(z, m),
        Instruction::Sub | Instruction::Cmp => spec_subtract_words(z, m),
        Instruction::Xor => AluResult { value: z ^ m, carry: false, overflow: false },
        Instruction::And => AluResult { value: z & m, carry: false, overflow: false },
        _ => AluResult { value: z | m, carry: false, overflow: false },
    }
}

/// What an instruction of the unary class computes from the latch.
pub open spec fn unary_outcome(instruction: Instruction, z: u16) -> u16 {
    if instruction == Instruction::Not {
        spec_complement(z)
    } else {
        spec_rotate_left(z)
    }
}

impl MachineState {
    /// The actions of the fetch phase that every instruction shares. They run
    /// before the instruction's own handler, and only in the fetch sub-state.
    pub open spec fn fetch_common(self, tick: u8) -> MachineState {
        if self.state != State::Fetch {
            self
        } else if tick == 2 {
            MachineState { pc: spec_next_address(self.pc), ..self }
        } else if tick == 3 {
            MachineState { mbr: 0, ..self }
        } else if tick == 4 {
            MachineState { ir: 0, mbr: self.word_at(self.mar), ..self }
        } else if tick == 5 {
            MachineState { ir: self.mbr, ..self }
        } else {
            self
        }
    }

    /// Ticks 5 and 6 of the instructions that compute: Z is cleared, then
    /// latches the accumulator.
    pub open spec fn latch_accumulator(self, tick: u8) -> MachineState {
        if tick == 5 {
            MachineState { z: 0, ..self }
        } else if tick == 6 {
            MachineState { z: self.a, ..self }
        } else {
            self
        }
    }

    /// The address field of the instruction goes to MAR, and the execute phase
    /// begins.
    pub open spec fn select_operand(self) -> MachineState {
        MachineState { mar: spec_address_field(self.ir), state: State::Execute, ..self }
    }

    /// MAR points at the next instruction, and the fetch phase begins.
    pub open spec fn resume_fetch(self) -> MachineState {
        MachineState { mar: self.pc, state: State::Fetch, ..self }
    }

    /// Tick 6 of the execute phase of the arithmetic class: the operation is
    /// performed on Z and MBR and the flags are set from its outcome. `Cmp`
    /// leaves the accumulator alone; `Add` halts the machine on overflow.
    pub open spec fn alu_operate(self, instruction: Instruction) -> MachineState {
        let outcome = alu_outcome(instruction, self.z, self.mbr);
        MachineState {
            a: if instruction == Instruction::Cmp {
                self.a
            } else {
                outcome.value
            },
            flags: spec_flag_word(outcome.value, outcome.carry, outcome.overflow),
            power: if instruction == Instruction::Add && outcome.overflow {
                false
            } else {
                self.power
            },
            ..self
        }
    }

    /// The arithmetic class: `Add`, `Xor`, `And`, `Ior`, `Sub`, `Cmp`.
    pub open spec fn alu_step(self, instruction: Instruction, tick: u8) -> MachineState {
        match self.state {
            State::Fetch => if tick == 7 {
                self.select_operand()
            } else {
                self.latch_accumulator(tick)
            },
            State::Execute => if tick == 2 {
                if instruction == Instruction::Cmp {
                    self
                } else {
                    MachineState { a: 0, mbr: 0, ..self }
                }
            } else if tick == 3 {
                MachineState { mbr: self.word_at(self.mar), ..self }
            } else if tick == 6 {
                self.alu_operate(instruction)
            } else if tick == 7 {
                self.resume_fetch()
            } else {
                self
            },
        }
    }

    /// The unary class: `Not`, `Ral`.
    pub open spec fn unary_step(self, instruction: Instruction, tick: u8) -> MachineState {
        match self.state {
            State::Fetch => if tick == 7 {
                MachineState { state: State::Execute, ..self }
            } else {
                self.latch_accumulator(tick)
            },
            State::Execute => if tick == 0 {
                MachineState { a: 0, ..self }
            } else if tick == 1 {
                MachineState { a: unary_outcome(instruction, self.z), ..self }
            } else if tick == 7 {
                self.resume_fetch()
            } else {
                self
            },
        }
    }

    /// `Lda`: the accumulator is loaded from memory.
    pub open spec fn lda_step(self, tick: u8) -> MachineState {
        match self.state {
            State::Fetch => if tick == 7 {
                self.select_operand()
            } else {
                self
            },
            State::Execute => if tick == 1 {
                MachineState { a: 0, ..self }
            } else if tick == 2 {
                MachineState { mbr: 0, ..self }
            } else if tick == 4 {
                MachineState { a: self.word_at(self.mar), mbr: self.word_at(self.mar), ..self }
            } else if tick == 7 {
                self.resume_fetch()
            } else {
                self
            },
        }
    }

    /// `Sta`: the accumulator is stored to memory.
    pub open spec fn sta_step(self, tick: u8) -> MachineState {
        match self.state {
            State::Fetch => if tick == 7 {
                self.select_operand()
            } else {
                self
            },
            State::Execute => if tick == 3 {
                MachineState { mbr: 0, ..self }
            } else if tick == 4 {
                MachineState { ram: self.ram_with(self.mar, self.a), mbr: self.a, ..self }
            } else if tick == 7 {
                self.resume_fetch()
            } else {
                self
            },
        }
    }

    /// `Hlt`: the run flag is cleared; MAR still follows the program counter.
    pub open spec fn hlt_step(self, tick: u8) -> MachineState {
        if tick == 6 {
            MachineState { power: false, ..self }
        } else if tick == 7 {
            MachineState { mar: self.pc, ..self }
        } else {
            self
        }
    }

    /// `Srj`: the return address is saved in the accumulator and the program
    /// counter takes the address field.
    pub open spec fn srj_step(self, tick: u8) -> MachineState {
        if tick == 5 {
            MachineState { a: spec_address_field(self.pc), ..self }
        } else if tick == 6 {
            MachineState { pc: 0, ..self }
        } else if tick == 7 {
            MachineState { mar: spec_address_field(self.ir), pc: spec_address_field(self.ir), ..self }
        } else {
            self
        }
    }

    /// `Jma`: the jump is taken when the accumulator is negative.
    pub open spec fn jma_step(self, tick: u8) -> MachineState {
        if tick == 5 {
            if spec_is_negative(self.a) {
                MachineState { pc: 0, ..self }
            } else {
                self
            }
        } else if tick == 6 {
            if spec_is_negative(self.a) {
                MachineState { pc: spec_address_field(self.ir), ..self }
            } else {
                self
            }
        } else if tick == 7 {
            MachineState { mar: self.pc, ..self }
        } else {
            self
        }
    }

    /// `Jmp`: the program counter takes the address field.
    pub open spec fn jmp_step(self, tick: u8) -> MachineState {
        if tick == 5 {
            MachineState { pc: 0, ..self }
        } else if tick == 6 {
            MachineState { pc: spec_address_field(self.ir), ..self }
        } else if tick == 7 {
            MachineState { mar: self.pc, ..self }
        } else {
            self
        }
    }

    /// `Csa`: the accumulator takes the switch register.
    pub open spec fn csa_step(self, tick: u8) -> MachineState {
        if tick == 5 {
            MachineState { a: 0, ..self }
        } else if tick == 6 {
            MachineState { a: self.sr, ..self }
        } else if tick == 7 {
            MachineState { mar: self.pc, ..self }
        } else {
            self
        }
    }

    /// `Nop`: MAR follows the program counter.
    pub open spec fn nop_step(self, tick: u8) -> MachineState {
        if tick == 7 {
            MachineState { mar: self.pc, ..self }
        } else {
            self
        }
    }

    /// The end of an execute cycle of `Inp` and `Out`: the fetch phase begins
    /// once the transfer is over, and not before.
    pub open spec fn resume_after_transfer(self) -> MachineState {
        if !self.io.transfer_active {
            self.resume_fetch()
        } else {
            self
        }
    }

    /// `Inp`: a transfer is opened; once the device is ready its byte is taken
    /// into the high byte of the accumulator and the transfer is closed.
    pub open spec fn inp_step(self, tick: u8) -> MachineState {
        match self.state {
            State::Fetch => if tick == 5 {
                MachineState { a: 0, dsl: spec_device_field(self.ir), ..self }
            } else if tick == 6 {
                MachineState { io: IoState { transfer_active: true, ..self.io }, ..self }
            } else if tick == 7 {
                MachineState { state: State::Execute, ..self }
            } else {
                self
            },
            State::Execute => if tick == 4 {
                if self.io.ready {
                    MachineState { a: spec_into_high_byte(self.dil), ..self }
                } else {
                    self
                }
            } else if tick == 5 {
                if self.io.ready {
                    MachineState { io: IoState { transfer_active: false, ..self.io }, ..self }
                } else {
                    self
                }
            } else if tick == 7 {
                self.resume_after_transfer()
            } else {
                self
            },
        }
    }

    /// `Out`: the high byte of the accumulator is offered to the device and a
    /// transfer is opened; once the device is ready the transfer is closed.
    pub open spec fn out_step(self, tick: u8) -> MachineState {
        match self.state {
            State::Fetch => if tick == 5 {
                MachineState {
                    dol: spec_high_byte(self.a),
                    dsl: spec_device_field(self.ir),
                    ..self
                }
            } else if tick == 6 {
                MachineState { io: IoState { transfer_active: true, ..self.io }, ..self }
            } else if tick == 7 {
                MachineState { state: State::Execute, ..self }
            } else {
                self
            },
            State::Execute => if tick == 4 {
                if self.io.ready {
                    MachineState { io: IoState { transfer_active: false, ..self.io }, ..self }
                } else {
                    self
                }
            } else if tick == 7 {
                self.resume_after_transfer()
            } else {
                self
            },
        }
    }

    /// One tick of the handler of `instruction`.
    pub open spec fn dispatch(self, instruction: Instruction, tick: u8) -> MachineState {
        match instruction {
            Instruction::Hlt => self.hlt_step(tick),
            Instruction::Add => self.alu_step(instruction, tick),
            Instruction::Xor => self.alu_step(instruction, tick),
            Instruction::And => self.alu_step(instruction, tick),
            Instruction::Ior => self.alu_step(instruction, tick),
            Instruction::Not => self.unary_step(instruction, tick),
            Instruction::Lda => self.lda_step(tick),
            Instruction::Sta => self.sta_step(tick),
            Instruction::Srj => self.srj_step(tick),
            Instruction::Jma => self.jma_step(tick),
            Instruction::Jmp => self.jmp_step(tick),
            Instruction::Inp => self.inp_step(tick),
            Instruction::Out => self.out_step(tick),
            Instruction::Ral => self.unary_step(instruction, tick),
            Instruction::Csa => self.csa_step(tick),
            Instruction::Nop => self.nop_step(tick),
            Instruction::Sub => self.alu_step(instruction, tick),
            Instruction::Cmp => self.alu_step(instruction, tick),
        }
    }

    /// One tick of the handler that an opcode names. An opcode that names no
    /// instruction halts the machine and leaves everything else as it is.
    pub open spec fn dispatch_opcode(self, opcode: u16, tick: u8) -> MachineState {
        match Instruction::spec_from_opcode(opcode) {
            Ok(instruction) => self.dispatch(instruction, tick),
            Err(_) => MachineState { power: false, ..self },
        }
    }

    /// One clock tick: the common fetch actions, then the handler of the
    /// instruction that IR holds after them.
    pub open spec fn process_tick(self, tick: u8) -> MachineState {
        let fetched = self.fetch_common(tick);
        fetched.dispatch(Instruction::spec_of_word(fetched.ir), tick)
    }

    /// The ticks from the current clock pulse up to the eighth, each followed
    /// by the advance of the clock.
    pub open spec fn remaining_ticks(self) -> MachineState
        decreases 8 - self.clock_pulse,
    {
        if self.clock_pulse < 8 {
            let ticked = self.process_tick(self.clock_pulse);
            MachineState { clock_pulse: (ticked.clock_pulse + 1) as u8, ..ticked }.remaining_ticks()
        } else {
            self
        }
    }

    /// One instruction cycle: the remaining ticks, then the clock is reset.
    pub open spec fn emulate_cycle(self) -> MachineState {
        MachineState { clock_pulse: 0, ..self.remaining_ticks() }
    }
}

} // verus!
