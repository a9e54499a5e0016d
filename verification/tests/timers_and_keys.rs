use ferrous_core::keymap::{keypad_index, KEY_LAYOUT};
use ferrous_core::{Instruction, CPU};

#[test]
fn timer_write_and_read_back_for_every_register() {
    for x in 0..16usize {
        for y in 0..16usize {
            let mut cpu = CPU::new();
            cpu.execute(Instruction::LoadByte { x, kk: 0x5A }, 0);
            cpu.execute(Instruction::SetDelay { x }, 0);
            assert_eq!(cpu.dt, 0x5A);
            cpu.execute(Instruction::ReadDelay { x: y }, 0);
            assert_eq!(cpu.register[y], 0x5A);
        }
    }
}

#[test]
fn sound_timer_takes_register() {
    let mut cpu = CPU::new();
    cpu.register[6] = 0x21;
    cpu.op_fx18(6);
    assert_eq!(cpu.st, 0x21);
    assert_eq!(cpu.dt, 0);
}

#[test]
fn sound_timer_decays_to_zero_and_stays() {
    let mut cpu = CPU::new();
    cpu.register[0] = 5;
    cpu.op_fx18(0);
    assert_eq!(cpu.st, 5);
    for left in [4u8, 3, 2, 1, 0] {
        cpu.step_timers();
        assert_eq!(cpu.st, left);
    }
    cpu.step_timers();
    assert_eq!(cpu.st, 0);
}

#[test]
fn timers_decay_independently() {
    let mut cpu = CPU::new();
    cpu.dt = 2;
    cpu.st = 0;
    cpu.step_timers();
    assert_eq!((cpu.dt, cpu.st), (1, 0));
    cpu.st = 9;
    cpu.step_timers();
    assert_eq!((cpu.dt, cpu.st), (0, 8));
    cpu.step_timers();
    assert_eq!((cpu.dt, cpu.st), (0, 7));
}

#[test]
fn instructions_do_not_tick_the_timers() {
    let mut cpu = CPU::new();
    cpu.load_rom(&[0x60, 0x01, 0x70, 0x01, 0x12, 0x00]).unwrap();
    cpu.dt = 9;
    cpu.st = 7;
    for _ in 0..50 {
        cpu.execute_cycle();
    }
    assert_eq!((cpu.dt, cpu.st), (9, 7));
}

#[test]
fn keys_are_set_and_reset() {
    let mut cpu = CPU::new();
    cpu.set_key_at_index(0, true);
    cpu.set_key_at_index(15, true);
    assert!(cpu.keypad[0] && cpu.keypad[15]);
    assert!(!cpu.keypad[7]);
    cpu.set_key_at_index(0, false);
    assert!(!cpu.keypad[0]);
    cpu.reset_keys();
    assert_eq!(cpu.keypad, [false; 16]);
}

#[test]
fn skip_if_key_pressed() {
    let mut cpu = CPU::new();
    cpu.register[1] = 0xB;
    cpu.set_key_at_index(0xB, true);
    cpu.op_ex9e(1);
    assert_eq!(cpu.pc, 0x202);
    cpu.set_key_at_index(0xB, false);
    cpu.op_ex9e(1);
    assert_eq!(cpu.pc, 0x202);
}

#[test]
fn skip_if_key_not_pressed() {
    let mut cpu = CPU::new();
    cpu.register[1] = 0xB;
    cpu.op_exa1(1);
    assert_eq!(cpu.pc, 0x202);
    cpu.set_key_at_index(0xB, true);
    cpu.op_exa1(1);
    assert_eq!(cpu.pc, 0x202);
}

#[test]
fn a_register_that_names_no_key_counts_as_released() {
    let mut cpu = CPU::new();
    cpu.keypad = [true; 16];
    cpu.register[1] = 0x10;
    cpu.op_ex9e(1);
    assert_eq!(cpu.pc, 0x200);
    cpu.op_exa1(1);
    assert_eq!(cpu.pc, 0x202);
    assert!(!cpu.is_key_pressed(16));
    assert!(cpu.is_key_pressed(15));
}

#[test]
fn wait_for_key_repeats_until_a_key_is_down() {
    let mut cpu = CPU::new();
    cpu.load_rom(&[0xF3, 0x0A, 0x60, 0x01]).unwrap();
    cpu.register[3] = 0xEE;
    for _ in 0..4 {
        assert_eq!(cpu.execute_cycle(), Some(0xF30A));
        assert_eq!(cpu.pc, 0x200);
        assert_eq!(cpu.register[3], 0xEE);
    }
    cpu.set_key_at_index(0x9, true);
    assert_eq!(cpu.execute_cycle(), Some(0xF30A));
    assert_eq!(cpu.pc, 0x202);
    assert_eq!(cpu.register[3], 0x9);
    assert!(cpu.keypad[9]);
}

#[test]
fn wait_for_key_takes_the_lowest_key_down() {
    let mut cpu = CPU::new();
    cpu.set_key_at_index(0xC, true);
    cpu.set_key_at_index(0x4, true);
    cpu.set_key_at_index(0xF, true);
    cpu.pc = 0x202;
    cpu.op_fx0a(0);
    assert_eq!(cpu.register[0], 0x4);
    assert_eq!(cpu.pc, 0x202);
}

#[test]
fn wait_for_key_zero() {
    let mut cpu = CPU::new();
    cpu.register[5] = 0x33;
    cpu.set_key_at_index(0x0, true);
    cpu.pc = 0x202;
    cpu.op_fx0a(5);
    assert_eq!(cpu.register[5], 0x0);
}

#[test]
fn keyboard_layout() {
    assert_eq!(keypad_index('1'), Some(0x1));
    assert_eq!(keypad_index('2'), Some(0x2));
    assert_eq!(keypad_index('3'), Some(0x3));
    assert_eq!(keypad_index('4'), Some(0xC));
    assert_eq!(keypad_index('q'), Some(0x4));
    assert_eq!(keypad_index('w'), Some(0x5));
    assert_eq!(keypad_index('e'), Some(0x6));
    assert_eq!(keypad_index('r'), Some(0xD));
    assert_eq!(keypad_index('a'), Some(0x7));
    assert_eq!(keypad_index('s'), Some(0x8));
    assert_eq!(keypad_index('d'), Some(0x9));
    assert_eq!(keypad_index('f'), Some(0xE));
    assert_eq!(keypad_index('z'), Some(0xA));
    assert_eq!(keypad_index('x'), Some(0x0));
    assert_eq!(keypad_index('c'), Some(0xB));
    assert_eq!(keypad_index('v'), Some(0xF));
}

#[test]
fn keys_outside_the_layout_stand_for_nothing() {
    for key in ['5', '0', 'g', 'Q', ' ', '\n', 'y'] {
        assert_eq!(keypad_index(key), None);
    }
}

#[test]
fn layout_and_index_agree() {
    for (index, key) in KEY_LAYOUT.iter().enumerate() {
        assert_eq!(keypad_index(*key), Some(index));
    }
}

#[test]
fn key_events_reach_the_pad() {
    let mut cpu = CPU::new();
    assert!(cpu.handle_key('r', true));
    assert!(cpu.keypad[0xD]);
    assert!(cpu.handle_key('r', false));
    assert!(!cpu.keypad[0xD]);
    let before = cpu.keypad;
    assert!(!cpu.handle_key('p', true));
    assert_eq!(cpu.keypad, before);
}
