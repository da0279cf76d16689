use chip8::{Chip8, Chip8Error};

#[test]
fn new_machine_is_zeroed_and_starts_at_0x200() {
    let chip = Chip8::new();
    assert_eq!(chip.pc, 0x200);
    assert_eq!(chip.sp, 0);
    assert_eq!(chip.index, 0);
    assert_eq!(chip.opcode, 0);
    assert_eq!(chip.delay_timer, 0);
    assert_eq!(chip.sound_timer, 0);
    assert!(chip.registers.iter().all(|r| *r == 0));
    assert!(chip.memory.iter().all(|b| *b == 0));
    assert!(chip.stack.iter().all(|a| *a == 0));
    assert!(chip.keypad.iter().all(|k| !*k));
    assert!(chip.video.iter().all(|p| !*p));
}

#[test]
fn clone_is_equal_field_by_field() {
    let mut chip = Chip8::new();
    chip.registers[3] = 9;
    chip.memory[0x345] = 0x77;
    chip.video[100] = true;
    chip.pc = 0x456;
    let copy = chip.clone();
    assert_eq!(copy.registers, chip.registers);
    assert_eq!(copy.memory[..], chip.memory[..]);
    assert_eq!(copy.video[..], chip.video[..]);
    assert_eq!(copy.pc, 0x456);
}

#[test]
fn jp_sets_pc() {
    let mut chip = Chip8::new();
    chip.opcode = 0x1ABC;
    chip.op_1nnn();
    assert_eq!(chip.pc, 0xABC);
}

#[test]
fn jp_v0_adds_register_zero() {
    let mut chip = Chip8::new();
    chip.registers[0] = 0x10;
    chip.opcode = 0xB300;
    chip.op_bnnnn();
    assert_eq!(chip.pc, 0x310);

    chip.registers[0] = 0xFF;
    chip.opcode = 0xBFFF;
    chip.op_bnnnn();
    assert_eq!(chip.pc, 0x10FE);
}

#[test]
fn call_pushes_pc_and_jumps() {
    let mut chip = Chip8::new();
    chip.pc = 0x202;
    chip.opcode = 0x2400;
    assert_eq!(chip.op_2nnn(), Ok(()));
    assert_eq!(chip.pc, 0x400);
    assert_eq!(chip.sp, 1);
    assert_eq!(chip.stack[0], 0x202);
}

#[test]
fn ret_pops_the_stack_top() {
    let mut chip = Chip8::new();
    chip.stack[0] = 0x222;
    chip.stack[1] = 0x333;
    chip.sp = 2;
    chip.pc = 0x600;
    chip.opcode = 0x00EE;
    assert_eq!(chip.op_00ee(), Ok(()));
    assert_eq!(chip.pc, 0x333);
    assert_eq!(chip.sp, 1);
    assert_eq!(chip.op_00ee(), Ok(()));
    assert_eq!(chip.pc, 0x222);
    assert_eq!(chip.sp, 0);
}

#[test]
fn call_then_ret_restores_pc_and_sp() {
    let mut chip = Chip8::new();
    chip.pc = 0x20A;
    chip.sp = 3;
    chip.opcode = 0x2500;
    assert_eq!(chip.op_2nnn(), Ok(()));
    assert_eq!(chip.pc, 0x500);
    assert_eq!(chip.sp, 4);
    chip.opcode = 0x00EE;
    assert_eq!(chip.op_00ee(), Ok(()));
    assert_eq!(chip.pc, 0x20A);
    assert_eq!(chip.sp, 3);
}

#[test]
fn call_then_ret_through_cycles() {
    let mut chip = Chip8::new();
    // 0x200: CALL 0x300; 0x300: RET
    chip.memory[0x200] = 0x23;
    chip.memory[0x201] = 0x00;
    chip.memory[0x300] = 0x00;
    chip.memory[0x301] = 0xEE;
    assert!(chip.can_step());
    assert_eq!(chip.cycle(), Ok(false));
    assert_eq!(chip.pc, 0x300);
    assert_eq!(chip.sp, 1);
    assert_eq!(chip.stack[0], 0x202);
    assert!(chip.can_step());
    assert_eq!(chip.cycle(), Ok(false));
    assert_eq!(chip.pc, 0x202);
    assert_eq!(chip.sp, 0);
}

#[test]
fn ret_on_empty_stack_is_underflow() {
    let mut chip = Chip8::new();
    chip.pc = 0x208;
    chip.opcode = 0x00EE;
    assert_eq!(chip.op_00ee(), Err(Chip8Error::StackUnderflow));
    assert_eq!(chip.pc, 0x208);
    assert_eq!(chip.sp, 0);
}

#[test]
fn seventeenth_call_is_overflow() {
    let mut chip = Chip8::new();
    chip.opcode = 0x2300;
    for depth in 0..16u8 {
        chip.pc = 0x200 + 2 * depth as u16;
        assert_eq!(chip.op_2nnn(), Ok(()));
        assert_eq!(chip.sp, depth + 1);
    }
    chip.pc = 0x280;
    let stack = chip.stack;
    assert_eq!(chip.op_2nnn(), Err(Chip8Error::StackOverflow));
    assert_eq!(chip.sp, 16);
    assert_eq!(chip.pc, 0x280);
    assert_eq!(chip.stack, stack);
    assert_eq!(chip.stack[15], 0x21E);
}

#[test]
fn failed_cycle_leaves_machine_unchanged() {
    let mut chip = Chip8::new();
    chip.memory[0x200] = 0x00;
    chip.memory[0x201] = 0xEE;
    chip.opcode = 0x1234;
    chip.delay_timer = 9;
    chip.sound_timer = 4;
    assert!(chip.can_step());
    assert_eq!(chip.cycle(), Err(Chip8Error::StackUnderflow));
    assert_eq!(chip.pc, 0x200);
    assert_eq!(chip.opcode, 0x1234);
    assert_eq!(chip.delay_timer, 9);
    assert_eq!(chip.sound_timer, 4);

    let mut chip = Chip8::new();
    chip.memory[0x200] = 0x22;
    chip.memory[0x201] = 0x00;
    chip.sp = 16;
    assert!(chip.can_step());
    assert_eq!(chip.step(), Err(Chip8Error::StackOverflow));
    assert_eq!(chip.pc, 0x200);
    assert_eq!(chip.sp, 16);
}

#[test]
fn se_byte_skips_when_equal() {
    let mut chip = Chip8::new();
    chip.pc = 0x202;
    chip.registers[1] = 0x33;
    chip.opcode = 0x3133;
    chip.op_3xkk();
    assert_eq!(chip.pc, 0x204);
    chip.opcode = 0x3134;
    chip.op_3xkk();
    assert_eq!(chip.pc, 0x204);
}

#[test]
fn sne_byte_skips_when_different() {
    let mut chip = Chip8::new();
    chip.pc = 0x202;
    chip.registers[1] = 0x33;
    chip.opcode = 0x4133;
    chip.op_4xkk();
    assert_eq!(chip.pc, 0x202);
    chip.opcode = 0x4134;
    chip.op_4xkk();
    assert_eq!(chip.pc, 0x204);
}

#[test]
fn se_reg_skips_when_equal() {
    let mut chip = Chip8::new();
    chip.pc = 0x202;
    chip.registers[1] = 8;
    chip.registers[2] = 8;
    chip.registers[3] = 9;
    chip.opcode = 0x5120;
    chip.op_5xy0();
    assert_eq!(chip.pc, 0x204);
    chip.opcode = 0x5130;
    chip.op_5xy0();
    assert_eq!(chip.pc, 0x204);
}

#[test]
fn sne_reg_skips_when_different() {
    let mut chip = Chip8::new();
    chip.pc = 0x202;
    chip.registers[1] = 8;
    chip.registers[2] = 8;
    chip.registers[3] = 9;
    chip.opcode = 0x9120;
    chip.op_9xy0();
    assert_eq!(chip.pc, 0x202);
    chip.opcode = 0x9130;
    chip.op_9xy0();
    assert_eq!(chip.pc, 0x204);
}

#[test]
fn skip_wraps_at_the_end_of_sixteen_bits() {
    let mut chip = Chip8::new();
    chip.pc = 0xFFFF;
    chip.opcode = 0x3000;
    chip.op_3xkk();
    assert_eq!(chip.pc, 0x0001);
}

#[test]
fn op_null_changes_nothing() {
    let mut chip = Chip8::new();
    chip.registers[2] = 5;
    chip.pc = 0x222;
    chip.opcode = 0x5121;
    chip.op_null();
    assert_eq!(chip.registers[2], 5);
    assert_eq!(chip.pc, 0x222);
    assert_eq!(chip.opcode, 0x5121);
}

#[test]
fn error_messages_differ() {
    assert_eq!(Chip8Error::StackOverflow.message(), "call stack overflow");
    assert_eq!(Chip8Error::StackUnderflow.message(), "call stack underflow");
    assert_eq!(Chip8Error::RomTooLarge.message(), "program image too large");
}
