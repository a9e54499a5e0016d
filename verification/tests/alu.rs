use ferrous_core::{Instruction, CPU};

fn with_registers(values: &[(usize, u8)]) -> CPU {
    let mut cpu = CPU::new();
    for (index, value) in values {
        cpu.register[*index] = *value;
    }
    cpu
}

#[test]
fn add_with_carry_sets_flag_on_overflow() {
    let mut cpu = with_registers(&[(0, 0xFF), (1, 0x01)]);
    cpu.op_8xy4(0, 1);
    assert_eq!(cpu.register[0], 0x00);
    assert_eq!(cpu.register[0xF], 1);
}

#[test]
fn add_with_carry_clears_flag_without_overflow() {
    let mut cpu = with_registers(&[(0, 0x01), (1, 0x01), (0xF, 1)]);
    cpu.op_8xy4(0, 1);
    assert_eq!(cpu.register[0], 0x02);
    assert_eq!(cpu.register[0xF], 0);
}

#[test]
fn add_with_carry_into_flag_register_keeps_the_flag() {
    let mut cpu = with_registers(&[(0xF, 0xF0), (1, 0x20)]);
    cpu.op_8xy4(0xF, 1);
    assert_eq!(cpu.register[0xF], 1);
}

#[test]
fn subtract_without_borrow_sets_flag() {
    let mut cpu = with_registers(&[(2, 0x05), (3, 0x03)]);
    cpu.op_8xy5(2, 3);
    assert_eq!(cpu.register[2], 0x02);
    assert_eq!(cpu.register[0xF], 1);
}

#[test]
fn subtract_with_borrow_clears_flag() {
    let mut cpu = with_registers(&[(2, 0x03), (3, 0x05), (0xF, 1)]);
    cpu.op_8xy5(2, 3);
    assert_eq!(cpu.register[2], 0xFE);
    assert_eq!(cpu.register[0xF], 0);
}

#[test]
fn subtract_equal_values_counts_as_no_borrow() {
    let mut cpu = with_registers(&[(2, 0x44), (3, 0x44)]);
    cpu.op_8xy5(2, 3);
    assert_eq!(cpu.register[2], 0x00);
    assert_eq!(cpu.register[0xF], 1);
}

#[test]
fn reverse_subtract_without_borrow() {
    let mut cpu = with_registers(&[(4, 0x03), (5, 0x05)]);
    cpu.op_8xy7(4, 5);
    assert_eq!(cpu.register[4], 0x02);
    assert_eq!(cpu.register[5], 0x05);
    assert_eq!(cpu.register[0xF], 1);
}

#[test]
fn reverse_subtract_with_borrow() {
    let mut cpu = with_registers(&[(4, 0x05), (5, 0x03)]);
    cpu.op_8xy7(4, 5);
    assert_eq!(cpu.register[4], 0xFE);
    assert_eq!(cpu.register[0xF], 0);
}

#[test]
fn shift_right_without_quirk_shifts_vy_into_vx() {
    let mut cpu = with_registers(&[(1, 0), (2, 0b1010_0001)]);
    cpu.op_8xy6(1, 2);
    assert_eq!(cpu.register[1], 0b0101_0000);
    assert_eq!(cpu.register[2], 0b1010_0001);
    assert_eq!(cpu.register[0xF], 1);
}

#[test]
fn shift_right_with_quirk_shifts_vx_in_place() {
    let mut cpu = with_registers(&[(1, 0b0000_0110), (2, 0b1010_0001)]);
    cpu.set_shift(true);
    cpu.op_8xy6(1, 2);
    assert_eq!(cpu.register[1], 0b0000_0011);
    assert_eq!(cpu.register[2], 0b1010_0001);
    assert_eq!(cpu.register[0xF], 0);
}

#[test]
fn shift_right_with_quirk_does_not_depend_on_vy() {
    let mut first = with_registers(&[(1, 0x35), (2, 0x00)]);
    let mut second = with_registers(&[(1, 0x35), (2, 0xFF)]);
    first.set_shift(true);
    second.set_shift(true);
    first.op_8xy6(1, 2);
    second.op_8xy6(1, 2);
    assert_eq!(first.register[1], 0x1A);
    assert_eq!(second.register[1], 0x1A);
    assert_eq!(first.register[0xF], 1);
    assert_eq!(second.register[0xF], 1);
}

#[test]
fn shift_left_without_quirk_shifts_vy_into_vx() {
    let mut cpu = with_registers(&[(1, 0), (2, 0b1010_0001)]);
    cpu.op_8xye(1, 2);
    assert_eq!(cpu.register[1], 0b0100_0010);
    assert_eq!(cpu.register[0xF], 1);
}

#[test]
fn shift_left_with_quirk_shifts_vx_in_place() {
    let mut cpu = with_registers(&[(1, 0b0100_0001), (2, 0xFF)]);
    cpu.set_shift(true);
    cpu.op_8xye(1, 2);
    assert_eq!(cpu.register[1], 0b1000_0010);
    assert_eq!(cpu.register[0xF], 0);
}

#[test]
fn shift_agrees_with_the_bit_operators() {
    for value in 0..=255u8 {
        let mut right = with_registers(&[(3, value)]);
        right.op_8xy6(0, 3);
        assert_eq!(right.register[0], value >> 1);
        assert_eq!(right.register[0xF], value & 1);
        let mut left = with_registers(&[(3, value)]);
        left.op_8xye(0, 3);
        assert_eq!(left.register[0], value << 1);
        assert_eq!(left.register[0xF], value >> 7);
    }
}

#[test]
fn load_byte_sets_register() {
    let mut cpu = CPU::new();
    cpu.op_6xkk(7, 0xAB);
    assert_eq!(cpu.register[7], 0xAB);
}

#[test]
fn add_byte_wraps_and_leaves_flag() {
    let mut cpu = with_registers(&[(3, 0xFE), (0xF, 0x77)]);
    cpu.op_7xkk(3, 0x05);
    assert_eq!(cpu.register[3], 0x03);
    assert_eq!(cpu.register[0xF], 0x77);
}

#[test]
fn move_copies_vy() {
    let mut cpu = with_registers(&[(1, 0x11), (2, 0x22)]);
    cpu.op_8xy0(1, 2);
    assert_eq!(cpu.register[1], 0x22);
    assert_eq!(cpu.register[2], 0x22);
}

#[test]
fn bitwise_operations() {
    let mut cpu = with_registers(&[(1, 0b1100), (2, 0b1010)]);
    cpu.op_8xy1(1, 2);
    assert_eq!(cpu.register[1], 0b1110);
    let mut cpu = with_registers(&[(1, 0b1100), (2, 0b1010)]);
    cpu.op_8xy2(1, 2);
    assert_eq!(cpu.register[1], 0b1000);
    let mut cpu = with_registers(&[(1, 0b1100), (2, 0b1010)]);
    cpu.op_8xy3(1, 2);
    assert_eq!(cpu.register[1], 0b0110);
}

#[test]
fn random_is_masked_with_kk() {
    let mut cpu = CPU::new();
    for _ in 0..200 {
        cpu.op_cxkk(4, 0x0F);
        assert_eq!(cpu.register[4] & 0xF0, 0);
    }
    cpu.op_cxkk(4, 0x00);
    assert_eq!(cpu.register[4], 0);
}

#[test]
fn random_gives_more_than_one_value() {
    let mut cpu = CPU::new();
    cpu.op_cxkk(4, 0xFF);
    let first = cpu.register[4];
    let mut differs = false;
    for _ in 0..1000 {
        cpu.op_cxkk(4, 0xFF);
        if cpu.register[4] != first {
            differs = true;
        }
    }
    assert!(differs);
}

#[test]
fn random_with_given_byte() {
    let mut cpu = CPU::new();
    cpu.op_cxkk_with(2, 0x3C, 0xA5);
    assert_eq!(cpu.register[2], 0x24);
    cpu.execute(Instruction::Random { x: 3, kk: 0xF0 }, 0x5A);
    assert_eq!(cpu.register[3], 0x50);
}

#[test]
fn add_carry_law_on_all_values() {
    for a in 0..=255u8 {
        for b in [0u8, 1, 127, 128, 255] {
            let mut cpu = with_registers(&[(0, a), (1, b)]);
            cpu.op_8xy4(0, 1);
            let total = cpu.register[0] as u32 + 256 * cpu.register[0xF] as u32;
            assert_eq!(total, a as u32 + b as u32);
        }
    }
}
