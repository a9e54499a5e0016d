use ferrous_core::{StepOutcome, CPU};

fn machine_with(program: &[u16]) -> CPU {
    let mut rom = Vec::new();
    for word in program {
        rom.push((word >> 8) as u8);
        rom.push((word & 0xFF) as u8);
    }
    let mut cpu = CPU::new();
    cpu.load_rom(&rom).unwrap();
    cpu
}

#[test]
fn cycle_returns_the_word_and_advances() {
    let mut cpu = machine_with(&[0x6A12]);
    assert_eq!(cpu.execute_cycle(), Some(0x6A12));
    assert_eq!(cpu.pc, 0x202);
    assert_eq!(cpu.register[0xA], 0x12);
}

#[test]
fn jump_sets_program_counter() {
    let mut cpu = machine_with(&[0x1ABC]);
    assert_eq!(cpu.execute_cycle(), Some(0x1ABC));
    assert_eq!(cpu.pc, 0xABC);
}

#[test]
fn call_pushes_address_of_next_instruction() {
    let mut cpu = machine_with(&[0x2300]);
    assert_eq!(cpu.execute_cycle(), Some(0x2300));
    assert_eq!(cpu.pc, 0x300);
    assert_eq!(cpu.sp, 1);
    assert_eq!(cpu.stack[0], 0x202);
}

#[test]
fn return_pops_the_newest_address() {
    let mut cpu = machine_with(&[0x2204, 0x0000, 0x00EE]);
    assert_eq!(cpu.execute_cycle(), Some(0x2204));
    assert_eq!(cpu.pc, 0x204);
    assert_eq!(cpu.execute_cycle(), Some(0x00EE));
    assert_eq!(cpu.pc, 0x202);
    assert_eq!(cpu.sp, 0);
}

#[test]
fn call_on_full_stack_does_nothing() {
    let mut cpu = machine_with(&[0x2300]);
    cpu.sp = 16;
    let stack = cpu.stack;
    assert_eq!(cpu.execute_cycle(), Some(0x2300));
    assert_eq!(cpu.pc, 0x202);
    assert_eq!(cpu.sp, 16);
    assert_eq!(cpu.stack, stack);
}

#[test]
fn sixteen_calls_fill_the_stack_and_the_next_is_dropped() {
    let mut cpu = machine_with(&[0x2200]);
    for depth in 0..16 {
        assert_eq!(cpu.sp, depth);
        assert_eq!(cpu.execute_cycle(), Some(0x2200));
        assert_eq!(cpu.pc, 0x200);
    }
    assert_eq!(cpu.sp, 16);
    assert_eq!(cpu.execute_cycle(), Some(0x2200));
    assert_eq!(cpu.sp, 16);
    assert_eq!(cpu.pc, 0x202);
}

#[test]
fn return_on_empty_stack_does_nothing() {
    let mut cpu = machine_with(&[0x00EE]);
    assert_eq!(cpu.execute_cycle(), Some(0x00EE));
    assert_eq!(cpu.pc, 0x202);
    assert_eq!(cpu.sp, 0);
}

#[test]
fn return_with_stack_pointer_beyond_the_stack_does_nothing() {
    let mut cpu = machine_with(&[0x00EE]);
    cpu.sp = 17;
    assert_eq!(cpu.execute_cycle(), Some(0x00EE));
    assert_eq!(cpu.pc, 0x202);
    assert_eq!(cpu.sp, 17);
}

#[test]
fn skip_if_equal_byte() {
    let mut cpu = machine_with(&[0x3142]);
    cpu.register[1] = 0x42;
    cpu.execute_cycle();
    assert_eq!(cpu.pc, 0x204);
    let mut cpu = machine_with(&[0x3142]);
    cpu.register[1] = 0x43;
    cpu.execute_cycle();
    assert_eq!(cpu.pc, 0x202);
}

#[test]
fn skip_if_not_equal_byte() {
    let mut cpu = machine_with(&[0x4142]);
    cpu.register[1] = 0x42;
    cpu.execute_cycle();
    assert_eq!(cpu.pc, 0x202);
    let mut cpu = machine_with(&[0x4142]);
    cpu.register[1] = 0x43;
    cpu.execute_cycle();
    assert_eq!(cpu.pc, 0x204);
}

#[test]
fn skip_if_registers_equal() {
    let mut cpu = machine_with(&[0x5120]);
    cpu.register[1] = 9;
    cpu.register[2] = 9;
    cpu.execute_cycle();
    assert_eq!(cpu.pc, 0x204);
    let mut cpu = machine_with(&[0x5120]);
    cpu.register[1] = 9;
    cpu.register[2] = 8;
    cpu.execute_cycle();
    assert_eq!(cpu.pc, 0x202);
}

#[test]
fn skip_if_registers_differ() {
    let mut cpu = machine_with(&[0x9120]);
    cpu.register[1] = 9;
    cpu.register[2] = 8;
    cpu.execute_cycle();
    assert_eq!(cpu.pc, 0x204);
    let mut cpu = machine_with(&[0x9120]);
    cpu.register[1] = 9;
    cpu.register[2] = 9;
    cpu.execute_cycle();
    assert_eq!(cpu.pc, 0x202);
}

#[test]
fn jump_offset_adds_v0() {
    let mut cpu = machine_with(&[0xB300]);
    cpu.register[0] = 0x10;
    cpu.register[3] = 0x40;
    cpu.execute_cycle();
    assert_eq!(cpu.pc, 0x310);
}

#[test]
fn jump_offset_with_quirk_adds_register_of_high_nibble() {
    let mut cpu = machine_with(&[0xB300]);
    cpu.set_jump(true);
    cpu.register[0] = 0x10;
    cpu.register[3] = 0x40;
    cpu.execute_cycle();
    assert_eq!(cpu.pc, 0x340);
}

#[test]
fn unknown_word_is_passed_over() {
    let mut cpu = machine_with(&[0x5121, 0x6001]);
    let before = cpu.clone();
    assert_eq!(cpu.execute_cycle(), None);
    assert_eq!(cpu.pc, 0x202);
    assert_eq!(cpu.register, before.register);
    assert_eq!(cpu.memory, before.memory);
    assert_eq!(cpu.vram, before.vram);
    assert_eq!(cpu.stack, before.stack);
    assert_eq!(cpu.sp, before.sp);
    assert_eq!(cpu.i, before.i);
    assert!(!cpu.is_halted);
    assert_eq!(cpu.execute_cycle(), Some(0x6001));
    assert_eq!(cpu.register[0], 1);
}

#[test]
fn every_word_outside_the_instruction_set_reports_nothing() {
    for word in [0x0000u16, 0x00E1, 0x0123, 0x5001, 0x800F, 0x8128, 0x9AB1, 0xE09F, 0xE1A2, 0xF000, 0xF1FF, 0xF875, 0xFF85] {
        let mut cpu = machine_with(&[word]);
        assert_eq!(cpu.execute_cycle(), None);
        assert_eq!(cpu.pc, 0x202);
    }
}

#[test]
fn exit_halts_and_later_cycles_change_nothing() {
    let mut cpu = machine_with(&[0x00FD, 0x6A12, 0x1200]);
    assert_eq!(cpu.execute_cycle(), Some(0x00FD));
    assert!(cpu.is_halted);
    let halted = cpu.clone();
    for _ in 0..5 {
        assert_eq!(cpu.execute_cycle(), None);
        assert_eq!(cpu.pc, halted.pc);
        assert_eq!(cpu.register, halted.register);
        assert_eq!(cpu.memory, halted.memory);
        assert_eq!(cpu.vram, halted.vram);
        assert!(cpu.is_halted);
    }
    assert_eq!(cpu.pc, 0x202);
}

#[test]
fn reset_revives_a_halted_machine() {
    let mut cpu = machine_with(&[0x00FD]);
    cpu.execute_cycle();
    assert!(cpu.is_halted);
    cpu.reset();
    assert!(!cpu.is_halted);
    assert_eq!(cpu.pc, 0x200);
}

#[test]
fn program_counter_wraps_at_sixteen_bits() {
    let mut cpu = CPU::new();
    cpu.pc = 0xFFFF;
    assert_eq!(cpu.execute_cycle(), None);
    assert_eq!(cpu.pc, 0x0001);
}

#[test]
fn fetch_beyond_memory_reads_zero() {
    let mut cpu = CPU::new();
    cpu.memory[0xFFF] = 0x61;
    cpu.pc = 0xFFF;
    assert_eq!(cpu.fetch_opcode(), 0x6100);
    assert_eq!(cpu.execute_cycle(), Some(0x6100));
    assert_eq!(cpu.pc, 0x1001);
    assert_eq!(cpu.fetch_opcode(), 0x0000);
}

#[test]
fn fetch_is_big_endian() {
    let cpu = machine_with(&[0xA1B2]);
    assert_eq!(cpu.memory[0x200], 0xA1);
    assert_eq!(cpu.memory[0x201], 0xB2);
    assert_eq!(cpu.fetch_opcode(), 0xA1B2);
}

#[test]
fn cycle_with_given_random_byte() {
    let mut cpu = machine_with(&[0xC50F, 0xC5F0]);
    assert_eq!(cpu.execute_cycle_with(0xAB), Some(0xC50F));
    assert_eq!(cpu.register[5], 0x0B);
    assert_eq!(cpu.execute_cycle_with(0xAB), Some(0xC5F0));
    assert_eq!(cpu.register[5], 0xA0);
}

#[test]
fn cycle_runs_the_random_instruction() {
    let mut cpu = machine_with(&[0xC503]);
    assert_eq!(cpu.execute_cycle(), Some(0xC503));
    assert!(cpu.register[5] <= 3);
    assert_eq!(cpu.pc, 0x202);
}

#[test]
fn step_says_how_the_cycle_ended() {
    let mut cpu = machine_with(&[0x6A12, 0xFFFF, 0xC1FF, 0x00FD, 0x6B01]);
    assert_eq!(cpu.step(), StepOutcome::Executed(0x6A12));
    assert_eq!(cpu.step(), StepOutcome::Unknown(0xFFFF));
    assert_eq!(cpu.pc, 0x204);
    assert_eq!(cpu.step(), StepOutcome::Executed(0xC1FF));
    assert_eq!(cpu.step_with(7), StepOutcome::Executed(0x00FD));
    assert_eq!(cpu.step(), StepOutcome::Halted);
    assert_eq!(cpu.step_with(7), StepOutcome::Halted);
    assert_eq!(cpu.pc, 0x208);
    assert_eq!(cpu.register[0xB], 0);
}

#[test]
fn step_with_runs_random_with_the_given_byte() {
    let mut cpu = machine_with(&[0xC23C]);
    assert_eq!(cpu.step_with(0xA5), StepOutcome::Executed(0xC23C));
    assert_eq!(cpu.register[2], 0x24);
}
