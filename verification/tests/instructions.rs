use blue_computer::flags::{FLAG_CARRY, FLAG_NEGATIVE, FLAG_OVERFLOW, FLAG_ZERO};
use blue_computer::{BlueComputer, DecodeError, Instruction, Register, State};

/// A machine with `program` at address 0 and `data` at address 0x10, powered
/// on.
fn machine(program: &[u16], data: &[u16]) -> BlueComputer {
    let mut image = vec![0u16; 0x10 + data.len()];
    image[..program.len()].copy_from_slice(program);
    image[0x10..].copy_from_slice(data);
    let mut computer = BlueComputer::new();
    computer.load_program(&image);
    computer
}

fn cycles(computer: &mut BlueComputer, count: usize) {
    for _ in 0..count {
        computer.emulate_cycle();
    }
}

#[test]
fn fresh_machine_is_all_zero() {
    let computer = BlueComputer::new();
    assert_eq!(computer.pc(), 0);
    assert_eq!(computer.a(), 0);
    assert_eq!(computer.z(), 0);
    assert_eq!(computer.sr(), 0);
    assert_eq!(computer.mar(), 0);
    assert_eq!(computer.mbr(), 0);
    assert_eq!(computer.ir(), 0);
    assert_eq!(computer.dsl(), 0);
    assert_eq!(computer.dil(), 0);
    assert_eq!(computer.dol(), 0);
    assert_eq!(computer.flags(), 0);
    assert_eq!(computer.clock_pulse(), 0);
    assert_eq!(computer.state(), State::Fetch);
    assert!(!computer.power());
    assert!(!computer.io().transfer_active);
    assert!(!computer.io().ready);
    assert!(computer.debug().enabled);
    assert!(computer.debug().print_registers);
    assert!(computer.debug().manual_input);
    assert!(computer.breakpoints().is_empty());
    assert!(computer.ram().iter().all(|word| *word == 0));
}

#[test]
fn power_switch_sets_the_run_flag() {
    let mut computer = BlueComputer::new();
    computer.press_on();
    assert!(computer.power());
    computer.press_off();
    assert!(!computer.power());
}

#[test]
fn hlt_clears_the_run_flag() {
    let mut computer = machine(&[0x0000], &[]);
    assert!(computer.power());
    computer.emulate_cycle();
    assert!(!computer.power());
    assert_eq!(computer.pc(), 1);
    assert_eq!(computer.mar(), 1);
    assert_eq!(computer.ir(), 0x0000);
    assert_eq!(computer.state(), State::Fetch);
    assert_eq!(computer.clock_pulse(), 0);
}

#[test]
fn lda_loads_the_accumulator() {
    let mut computer = machine(&[0x6010], &[0x1234]);
    computer.emulate_cycle();
    assert_eq!(computer.pc(), 1);
    assert_eq!(computer.ir(), 0x6010);
    assert_eq!(computer.mbr(), 0x6010);
    assert_eq!(computer.mar(), 0x010);
    assert_eq!(computer.state(), State::Execute);
    computer.emulate_cycle();
    assert_eq!(computer.a(), 0x1234);
    assert_eq!(computer.mbr(), 0x1234);
    assert_eq!(computer.mar(), 1);
    assert_eq!(computer.pc(), 1);
    assert_eq!(computer.state(), State::Fetch);
    assert_eq!(computer.flags(), 0);
}

#[test]
fn sta_stores_the_accumulator() {
    let mut computer = machine(&[0x6010, 0x7020], &[0xBEEF]);
    cycles(&mut computer, 4);
    assert_eq!(computer.ram()[0x20], 0xBEEF);
    assert_eq!(computer.read_memory(0x20), 0xBEEF);
    assert_eq!(computer.mbr(), 0xBEEF);
    assert_eq!(computer.a(), 0xBEEF);
    assert_eq!(computer.pc(), 2);
    assert_eq!(computer.mar(), 2);
    assert_eq!(computer.state(), State::Fetch);
}

#[test]
fn add_of_small_operands() {
    let mut computer = machine(&[0x6010, 0x1011, 0x0000], &[0x0005, 0x0003]);
    cycles(&mut computer, 4);
    assert_eq!(computer.a(), 0x0008);
    assert_eq!(computer.z(), 0x0005);
    assert_eq!(computer.mbr(), 0x0003);
    assert_eq!(computer.flags() & FLAG_CARRY, 0);
    assert_eq!(computer.flags() & FLAG_OVERFLOW, 0);
    assert_eq!(computer.flags() & FLAG_ZERO, 0);
    assert_eq!(computer.flags() & FLAG_NEGATIVE, 0);
    assert!(computer.power());
    computer.emulate_cycle();
    assert!(!computer.power());
    assert_eq!(computer.a(), 0x0008);
}

#[test]
fn add_overflow_halts_the_machine() {
    let mut computer = machine(&[0x6010, 0x1011, 0x0000], &[0x7FFF, 0x0001]);
    cycles(&mut computer, 4);
    assert_eq!(computer.a(), 0x8000);
    assert_ne!(computer.flags() & FLAG_OVERFLOW, 0);
    assert_eq!(computer.flags(), FLAG_OVERFLOW | FLAG_NEGATIVE);
    assert!(!computer.power());
    assert_eq!(computer.pc(), 2);
}

#[test]
fn add_with_carry_wraps_and_runs_on() {
    let mut computer = machine(&[0x6010, 0x1011, 0x0000], &[0xFFFF, 0x0001]);
    cycles(&mut computer, 4);
    assert_eq!(computer.a(), 0x0000);
    assert_eq!(computer.flags(), FLAG_ZERO | FLAG_CARRY);
    assert!(computer.power());
}

#[test]
fn logical_instructions_combine_bitwise() {
    let mut computer = machine(&[0x6010, 0x2011], &[0x0FF0, 0x00FF]);
    cycles(&mut computer, 4);
    assert_eq!(computer.a(), 0x0F0F);
    assert_eq!(computer.flags(), 0);

    let mut computer = machine(&[0x6010, 0x3011], &[0x0FF0, 0x00FF]);
    cycles(&mut computer, 4);
    assert_eq!(computer.a(), 0x00F0);
    assert_eq!(computer.flags(), 0);

    let mut computer = machine(&[0x6010, 0x4011], &[0x8FF0, 0x00FF]);
    cycles(&mut computer, 4);
    assert_eq!(computer.a(), 0x8FFF);
    assert_eq!(computer.flags(), FLAG_NEGATIVE);

    let mut computer = machine(&[0x6010, 0x2010], &[0x1234]);
    cycles(&mut computer, 4);
    assert_eq!(computer.a(), 0);
    assert_eq!(computer.flags(), FLAG_ZERO);
}

#[test]
fn not_complements_without_touching_the_flags() {
    let mut computer = machine(&[0x6010, 0x5000], &[0x1234]);
    cycles(&mut computer, 4);
    assert_eq!(computer.a(), 0xEDCB);
    assert_eq!(computer.z(), 0x1234);
    assert_eq!(computer.flags(), 0);
    assert_eq!(computer.pc(), 2);
    assert_eq!(computer.mar(), 2);
    assert_eq!(computer.state(), State::Fetch);
}

#[test]
fn ral_rotates_without_touching_the_flags() {
    let mut computer = machine(&[0x6010, 0xD000], &[0x8001]);
    cycles(&mut computer, 4);
    assert_eq!(computer.a(), 0x0003);
    assert_eq!(computer.flags(), 0);
}

#[test]
fn flags_survive_the_instructions_that_do_not_set_them() {
    // LDA 0xFFFF; ADD 1 (zero, carry); LDA; NOT; NOP; CSA; STA
    let mut computer = machine(
        &[0x6010, 0x1011, 0x6010, 0x5000, 0xF000, 0xE000, 0x7020],
        &[0xFFFF, 0x0001],
    );
    cycles(&mut computer, 4);
    let flags = computer.flags();
    assert_eq!(flags, FLAG_ZERO | FLAG_CARRY);
    cycles(&mut computer, 2 + 2 + 1 + 1 + 2);
    assert_eq!(computer.pc(), 7);
    assert_eq!(computer.flags(), flags);
}

#[test]
fn srj_saves_the_return_address() {
    let mut computer = machine(&[0x8123], &[]);
    computer.emulate_cycle();
    assert_eq!(computer.a(), 0x001);
    assert_eq!(computer.pc(), 0x123);
    assert_eq!(computer.mar(), 0x123);
    assert_eq!(computer.state(), State::Fetch);
}

#[test]
fn srj_handler_saves_the_program_counter_it_finds() {
    for (pc, target) in [(0x0000u16, 0x0FFFu16), (0x0123, 0x0456), (0x0FFF, 0x0000), (0xF00D, 0x0ABC)]
    {
        let mut computer = BlueComputer::new();
        computer.patch_register(Register::Pc, pc);
        computer.patch_register(Register::Ir, 0x8000 | target);
        computer.handler_cycle(Instruction::Srj);
        assert_eq!(computer.a(), pc & 0x0FFF);
        assert_eq!(computer.pc(), target);
        assert_eq!(computer.mar(), target);
    }
}

#[test]
fn jmp_loads_the_program_counter() {
    let mut computer = machine(&[0xA123], &[]);
    computer.emulate_cycle();
    assert_eq!(computer.pc(), 0x123);
    assert_eq!(computer.mar(), 0x123);
    assert_eq!(computer.a(), 0);
}

#[test]
fn jma_jumps_when_the_accumulator_is_negative() {
    let mut computer = machine(&[0x6010, 0x9123], &[0x8000]);
    cycles(&mut computer, 3);
    assert_eq!(computer.pc(), 0x123);
    assert_eq!(computer.mar(), 0x123);
}

#[test]
fn jma_falls_through_when_the_accumulator_is_not_negative() {
    let mut computer = machine(&[0x6010, 0x9123], &[0x7FFF]);
    cycles(&mut computer, 3);
    assert_eq!(computer.pc(), 2);
    assert_eq!(computer.mar(), 2);
}

#[test]
fn csa_copies_the_switch_register() {
    let mut computer = machine(&[0xE000], &[]);
    computer.patch_register(Register::Sr, 0x0F0F);
    computer.emulate_cycle();
    assert_eq!(computer.a(), 0x0F0F);
    assert_eq!(computer.pc(), 1);
    assert_eq!(computer.mar(), 1);
}

#[test]
fn nop_only_moves_on() {
    let mut computer = machine(&[0xF000], &[]);
    computer.patch_register(Register::A, 0x1111);
    computer.emulate_cycle();
    assert_eq!(computer.a(), 0x1111);
    assert_eq!(computer.pc(), 1);
    assert_eq!(computer.mar(), 1);
    assert_eq!(computer.ir(), 0xF000);
    assert_eq!(computer.state(), State::Fetch);
}

#[test]
fn program_counter_advances_by_one_per_instruction() {
    // NOP; LDA; NOT; CSA; STA: none of them jumps
    let mut computer = machine(&[0xF000, 0x6010, 0x5000, 0xE000, 0x7020], &[0x0001]);
    computer.emulate_cycle();
    assert_eq!(computer.pc(), 1);
    cycles(&mut computer, 2);
    assert_eq!(computer.pc(), 2);
    cycles(&mut computer, 2);
    assert_eq!(computer.pc(), 3);
    computer.emulate_cycle();
    assert_eq!(computer.pc(), 4);
    cycles(&mut computer, 2);
    assert_eq!(computer.pc(), 5);
}

#[test]
fn program_counter_wraps_at_the_end_of_memory() {
    let mut computer = machine(&[0xF000], &[]);
    computer.patch_register(Register::Pc, 0x0FFF);
    computer.emulate_cycle();
    assert_eq!(computer.pc(), 0);
    assert_eq!(computer.mar(), 0);
}

#[test]
fn memory_access_masks_a_patched_address() {
    let mut computer = machine(&[0xF000, 0xA123], &[]);
    computer.patch_register(Register::Mar, 0x1001);
    computer.emulate_cycle();
    assert_eq!(computer.ir(), 0xA123);
    assert_eq!(computer.pc(), 0x123);
}

#[test]
fn sub_writes_the_difference() {
    let mut computer = machine(&[], &[0x0003]);
    computer.patch_register(Register::A, 0x0005);
    computer.patch_register(Register::Ir, 0x0010);
    computer.handler_cycle(Instruction::Sub);
    assert_eq!(computer.state(), State::Execute);
    assert_eq!(computer.z(), 0x0005);
    assert_eq!(computer.mar(), 0x010);
    computer.handler_cycle(Instruction::Sub);
    assert_eq!(computer.a(), 0x0002);
    assert_eq!(computer.mbr(), 0x0003);
    assert_eq!(computer.flags(), 0);
    assert_eq!(computer.state(), State::Fetch);
    assert!(computer.power());
}

#[test]
fn sub_borrows_below_zero() {
    let mut computer = machine(&[], &[0x0005]);
    computer.patch_register(Register::A, 0x0003);
    computer.patch_register(Register::Ir, 0x0010);
    computer.handler_cycle(Instruction::Sub);
    computer.handler_cycle(Instruction::Sub);
    assert_eq!(computer.a(), 0xFFFE);
    assert_eq!(computer.flags(), FLAG_CARRY | FLAG_NEGATIVE);
    assert!(computer.power());
}

#[test]
fn sub_overflow_does_not_halt() {
    let mut computer = machine(&[], &[0x0001]);
    computer.patch_register(Register::A, 0x8000);
    computer.patch_register(Register::Ir, 0x0010);
    computer.handler_cycle(Instruction::Sub);
    computer.handler_cycle(Instruction::Sub);
    assert_eq!(computer.a(), 0x7FFF);
    assert_eq!(computer.flags(), FLAG_OVERFLOW);
    assert!(computer.power());
}

#[test]
fn cmp_sets_the_flags_of_sub_and_keeps_the_accumulator() {
    for (left, right) in [
        (0x0005u16, 0x0003u16),
        (0x0003, 0x0005),
        (0x0007, 0x0007),
        (0x8000, 0x0001),
        (0x7FFF, 0xFFFF),
        (0x0000, 0x0000),
        (0xFFFF, 0x0001),
    ] {
        let mut subtracting = machine(&[], &[right]);
        subtracting.patch_register(Register::A, left);
        subtracting.patch_register(Register::Ir, 0x0010);
        subtracting.handler_cycle(Instruction::Sub);
        subtracting.handler_cycle(Instruction::Sub);

        let mut comparing = machine(&[], &[right]);
        comparing.patch_register(Register::A, left);
        comparing.patch_register(Register::Ir, 0x0010);
        comparing.handler_cycle(Instruction::Cmp);
        comparing.handler_cycle(Instruction::Cmp);

        assert_eq!(comparing.a(), left);
        assert_eq!(subtracting.a(), left.wrapping_sub(right));
        assert_eq!(comparing.flags(), subtracting.flags());
        assert_eq!(comparing.mbr(), subtracting.mbr());
        assert_eq!(comparing.state(), subtracting.state());
    }
}

#[test]
fn handlers_called_by_name_match_the_dispatcher() {
    let mut by_name = machine(&[], &[0x0003]);
    by_name.patch_register(Register::A, 0x0005);
    by_name.patch_register(Register::Ir, 0x0010);
    let mut dispatched = machine(&[], &[0x0003]);
    dispatched.patch_register(Register::A, 0x0005);
    dispatched.patch_register(Register::Ir, 0x0010);
    for _ in 0..2 {
        for tick in 0..8 {
            by_name.do_add(tick);
            dispatched.dispatch(Instruction::Add, tick);
        }
    }
    assert_eq!(by_name.a(), 8);
    assert_eq!(dispatched.a(), 8);
    assert_eq!(by_name.flags(), dispatched.flags());
}

#[test]
fn ticks_of_a_fetch_follow_the_clock() {
    let mut computer = machine(&[0x6010], &[0x1234]);
    computer.process_tick(0);
    computer.process_tick(1);
    assert_eq!(computer.pc(), 0);
    computer.process_tick(2);
    assert_eq!(computer.pc(), 1);
    computer.patch_register(Register::Mbr, 0x5555);
    computer.process_tick(3);
    assert_eq!(computer.mbr(), 0);
    computer.patch_register(Register::Ir, 0xF000);
    computer.process_tick(4);
    assert_eq!(computer.ir(), 0);
    assert_eq!(computer.mbr(), 0x6010);
    computer.process_tick(5);
    assert_eq!(computer.ir(), 0x6010);
    computer.process_tick(6);
    assert_eq!(computer.state(), State::Fetch);
    computer.process_tick(7);
    assert_eq!(computer.state(), State::Execute);
    assert_eq!(computer.mar(), 0x010);
}

#[test]
fn get_instruction_reads_the_instruction_register() {
    let mut computer = BlueComputer::new();
    assert_eq!(computer.get_instruction(), Instruction::Hlt);
    computer.patch_register(Register::Ir, 0xC003);
    assert_eq!(computer.get_instruction(), Instruction::Out);
}

#[test]
fn set_flags_replaces_the_flag_word() {
    let mut computer = BlueComputer::new();
    computer.set_flags(0, true, false);
    assert_eq!(computer.flags(), FLAG_ZERO | FLAG_CARRY);
    computer.set_flags(0x9000, false, false);
    assert_eq!(computer.flags(), FLAG_NEGATIVE);
}

#[test]
fn write_memory_stores_in_the_masked_cell() {
    let mut computer = BlueComputer::new();
    computer.write_memory(0x1005, 0xABCD);
    assert_eq!(computer.read_memory(0x0005), 0xABCD);
    assert_eq!(computer.ram()[5], 0xABCD);
}

#[test]
fn opcodes_of_the_full_set_reach_their_handlers() {
    let mut computer = machine(&[], &[0x0003]);
    computer.patch_register(Register::A, 0x0005);
    computer.patch_register(Register::Ir, 0x0010);
    for _ in 0..2 {
        for tick in 0..8 {
            assert_eq!(computer.dispatch_opcode(16, tick), Ok(()));
        }
    }
    assert_eq!(computer.a(), 0x0002);
    assert!(computer.power());
}

#[test]
fn an_unknown_opcode_halts_the_machine_and_keeps_its_state() {
    let mut computer = machine(&[0x6010], &[0x1234]);
    cycles(&mut computer, 2);
    assert!(computer.power());
    for tick in 0..8 {
        assert_eq!(computer.dispatch_opcode(18, tick), Err(DecodeError { opcode: 18 }));
    }
    assert!(!computer.power());
    assert_eq!(computer.a(), 0x1234);
    assert_eq!(computer.pc(), 1);
    assert_eq!(computer.mar(), 1);
    assert_eq!(computer.ir(), 0x6010);
    assert_eq!(computer.state(), State::Fetch);
    assert_eq!(computer.ram()[0x10], 0x1234);
}
