use ferrous_core::Vm;

#[test]
fn new_vm_is_all_zero() {
    let vm = Vm::new();
    assert_eq!(vm.id, 0);
    assert_eq!(vm.pc, 0);
    assert_eq!(vm.sp, 0);
    assert!(!vm.is_highres);
    assert_eq!(vm.reg, [0u8; 16]);
    assert_eq!(vm.vram.len(), 0x2000);
    assert_eq!(vm.wram.len(), 0x1000);
    assert!(vm.vram.iter().all(|byte| *byte == 0));
    assert!(vm.wram.iter().all(|byte| *byte == 0));
}

#[test]
fn vm_loads_rom_at_0x200() {
    let mut vm = Vm::new();
    assert_eq!(vm.load_rom(vec![1, 2, 3]), Ok(()));
    assert_eq!(&vm.wram[0x1FF..0x204], &[0, 1, 2, 3, 0]);
}

#[test]
fn vm_rom_boundary() {
    let mut vm = Vm::new();
    assert_eq!(vm.load_rom(vec![9; 3584]), Ok(()));
    assert!(vm.wram[0x200..].iter().all(|byte| *byte == 9));
    assert_eq!(
        vm.load_rom(vec![8; 3585]),
        Err("ROM length is greater than the permissible 3584 bytes")
    );
    assert!(vm.wram[0x200..].iter().all(|byte| *byte == 9));
    assert!(vm.wram[..0x200].iter().all(|byte| *byte == 0));
}

#[test]
fn vm_display_size_is_width_then_height() {
    let mut vm = Vm::new();
    assert_eq!(vm.get_display_size(), (64, 32));
    vm.is_highres = true;
    assert_eq!(vm.get_display_size(), (128, 64));
}

#[test]
fn vm_clear_screen() {
    let mut vm = Vm::new();
    vm.vram = [1; 8192];
    vm.op_00e0();
    assert!(vm.vram.iter().all(|byte| *byte == 0));
}

#[test]
fn vm_jump_and_index() {
    let mut vm = Vm::new();
    vm.op_1nnn(0x345);
    assert_eq!(vm.pc, 0x345);
    vm.op_annn(0x678);
    assert_eq!(vm.id, 0x678);
    assert_eq!(vm.pc, 0x345);
}

#[test]
fn vm_skips() {
    let mut vm = Vm::new();
    vm.reg[1] = 5;
    vm.reg[2] = 5;
    vm.op_3xnn(1, 5);
    assert_eq!(vm.pc, 2);
    vm.op_3xnn(1, 6);
    assert_eq!(vm.pc, 2);
    vm.op_4xnn(1, 6);
    assert_eq!(vm.pc, 4);
    vm.op_4xnn(1, 5);
    assert_eq!(vm.pc, 4);
    vm.op_5xy0(1, 2);
    assert_eq!(vm.pc, 6);
    vm.reg[2] = 4;
    vm.op_5xy0(1, 2);
    assert_eq!(vm.pc, 6);
}

#[test]
fn vm_skip_wraps_program_counter() {
    let mut vm = Vm::new();
    vm.pc = 0xFFFF;
    vm.op_3xnn(0, 0);
    assert_eq!(vm.pc, 1);
}

#[test]
fn vm_load_and_add() {
    let mut vm = Vm::new();
    vm.op_6xnn(0xF, 0xFE);
    assert_eq!(vm.reg[0xF], 0xFE);
    vm.op_7xnn(0xF, 0x03);
    assert_eq!(vm.reg[0xF], 0x01);
}
