use chip8::{Chip8, Chip8Error};

fn machine_running(program: &[u8]) -> Chip8 {
    let mut chip = Chip8::new();
    chip.load_fonts();
    assert_eq!(chip.load_rom(program), Ok(()));
    chip
}

#[test]
fn next_word_reads_two_bytes_at_pc() {
    let chip = machine_running(&[0xA1, 0x23, 0x60, 0x05]);
    assert_eq!(chip.next_word(), 0xA123);
    let mut chip = chip;
    chip.pc = 0x202;
    assert_eq!(chip.next_word(), 0x6005);
}

#[test]
fn step_fetches_advances_and_executes() {
    let mut chip = machine_running(&[0x6A, 0x42, 0x7A, 0x01]);
    assert!(chip.can_step());
    assert_eq!(chip.step(), Ok(false));
    assert_eq!(chip.opcode, 0x6A42);
    assert_eq!(chip.pc, 0x202);
    assert_eq!(chip.registers[0xA], 0x42);
    assert!(chip.can_step());
    assert_eq!(chip.step(), Ok(false));
    assert_eq!(chip.opcode, 0x7A01);
    assert_eq!(chip.pc, 0x204);
    assert_eq!(chip.registers[0xA], 0x43);
}

#[test]
fn step_does_not_tick_and_cycle_does() {
    let mut chip = machine_running(&[0x60, 0x01, 0x60, 0x02]);
    chip.delay_timer = 5;
    chip.sound_timer = 1;
    assert_eq!(chip.step(), Ok(false));
    assert_eq!((chip.delay_timer, chip.sound_timer), (5, 1));
    assert_eq!(chip.cycle(), Ok(false));
    assert_eq!((chip.delay_timer, chip.sound_timer), (4, 0));
    assert_eq!(chip.registers[0], 2);
}

#[test]
fn timer_set_in_a_cycle_ticks_in_that_cycle() {
    // LD V1, 10; LD DT, V1; LD V2, DT
    let mut chip = machine_running(&[0x61, 0x0A, 0xF1, 0x15, 0xF2, 0x07]);
    assert_eq!(chip.cycle(), Ok(false));
    assert_eq!(chip.cycle(), Ok(false));
    assert_eq!(chip.delay_timer, 9);
    assert_eq!(chip.cycle(), Ok(false));
    assert_eq!(chip.registers[2], 9);
    assert_eq!(chip.delay_timer, 8);
}

#[test]
fn jump_overrides_the_advance() {
    let mut chip = machine_running(&[0x13, 0x00]);
    assert_eq!(chip.cycle(), Ok(false));
    assert_eq!(chip.pc, 0x300);
}

#[test]
fn skip_moves_four_bytes_on() {
    let mut chip = machine_running(&[0x30, 0x00, 0x00, 0x00, 0x40, 0x00]);
    assert_eq!(chip.cycle(), Ok(false));
    assert_eq!(chip.pc, 0x204);
    assert_eq!(chip.cycle(), Ok(false));
    assert_eq!(chip.pc, 0x206);
}

#[test]
fn unknown_words_only_advance_pc() {
    for word in [0x0001u16, 0x8128, 0xE100, 0xF1FF, 0x5121] {
        let mut chip = machine_running(&[(word >> 8) as u8, word as u8]);
        chip.registers = [7; 16];
        chip.index = 0x321;
        chip.video[9] = true;
        let before = chip.clone();
        assert!(chip.can_step());
        let res = chip.step();
        if word == 0x5121 {
            // 5xy1 is in the family of SE Vx, Vy, which has one
            // instruction: the low nibble is not looked at.
            assert_eq!(res, Ok(false));
            assert_eq!(chip.pc, 0x204);
            continue;
        }
        assert_eq!(res, Ok(false));
        assert_eq!(chip.pc, 0x202);
        assert_eq!(chip.opcode, word);
        assert_eq!(chip.registers, before.registers);
        assert_eq!(chip.index, before.index);
        assert_eq!(chip.sp, before.sp);
        assert!(chip.memory[..] == before.memory[..]);
        assert!(chip.video[..] == before.video[..]);
    }
}

#[test]
fn redraw_flag_is_set_by_cls_and_drw_only() {
    let mut chip = machine_running(&[0x00, 0xE0, 0xD0, 0x01, 0xA2, 0x00, 0x60, 0x00]);
    assert_eq!(chip.step(), Ok(true));
    assert_eq!(chip.step(), Ok(true));
    assert_eq!(chip.step(), Ok(false));
    assert_eq!(chip.step(), Ok(false));
}

#[test]
fn clear_loop_returns_to_0x200_every_second_cycle() {
    let mut chip = machine_running(&[0x00, 0xE0, 0x12, 0x00]);
    chip.video[0] = true;
    chip.video[2047] = true;
    for cycle in 1..=1000 {
        assert!(chip.can_step());
        let res = chip.cycle();
        if cycle % 2 == 1 {
            assert_eq!(res, Ok(true));
            assert_eq!(chip.pc, 0x202);
        } else {
            assert_eq!(res, Ok(false));
            assert_eq!(chip.pc, 0x200);
        }
        assert!(chip.video.iter().all(|p| !*p));
    }
    assert_eq!(chip.sp, 0);
}

#[test]
fn step_with_uses_the_given_byte_for_rnd() {
    let mut chip = machine_running(&[0xC1, 0x3C]);
    assert_eq!(chip.step_with(0xFF), Ok(false));
    assert_eq!(chip.registers[1], 0x3C);
    let mut chip = machine_running(&[0xC1, 0x3C]);
    assert_eq!(chip.step_with(0x55), Ok(false));
    assert_eq!(chip.registers[1], 0x14);
    assert_eq!(chip.pc, 0x202);
}

#[test]
fn step_with_ignores_the_byte_elsewhere() {
    let mut a = machine_running(&[0x81, 0x24]);
    a.registers[1] = 3;
    a.registers[2] = 4;
    let mut b = a.clone();
    assert_eq!(a.step_with(0), Ok(false));
    assert_eq!(b.step_with(0xEE), Ok(false));
    assert_eq!(a.registers, b.registers);
    assert_eq!(a.registers[1], 7);
}

#[test]
fn cycle_executes_rnd_under_its_mask() {
    for _ in 0..100 {
        let mut chip = machine_running(&[0xC5, 0x81]);
        chip.registers[5] = 0xFF;
        assert_eq!(chip.cycle(), Ok(false));
        assert_eq!(chip.registers[5] & !0x81, 0);
        assert_eq!(chip.pc, 0x202);
    }
}

#[test]
fn execute_runs_the_instruction_in_opcode() {
    let mut chip = Chip8::new();
    chip.opcode = 0x6B17;
    assert_eq!(chip.execute(0), Ok(false));
    assert_eq!(chip.registers[0xB], 0x17);
    assert_eq!(chip.pc, 0x200);

    chip.opcode = 0x00E0;
    assert_eq!(chip.execute(0), Ok(true));
    chip.opcode = 0x00EE;
    assert_eq!(chip.execute(0), Err(Chip8Error::StackUnderflow));
    chip.opcode = 0xCB0F;
    assert_eq!(chip.execute(0xA7), Ok(false));
    assert_eq!(chip.registers[0xB], 0x07);
}

#[test]
fn every_instruction_is_dispatched_to_its_handler() {
    type Handler = fn(&mut Chip8);
    let cases: [(u16, Handler); 31] = [
        (0x00E0, |c| c.op_00e0()),
        (0x1456, |c| c.op_1nnn()),
        (0x3107, |c| c.op_3xkk()),
        (0x4107, |c| c.op_4xkk()),
        (0x5120, |c| c.op_5xy0()),
        (0x6133, |c| c.op_6xkk()),
        (0x71FE, |c| c.op_7xkk()),
        (0x8120, |c| c.op_8xy0()),
        (0x8121, |c| c.op_8xy1()),
        (0x8122, |c| c.op_8xy2()),
        (0x8123, |c| c.op_8xy3()),
        (0x8124, |c| c.op_8xy4()),
        (0x8125, |c| c.op_8xy5()),
        (0x8126, |c| c.op_8xy6()),
        (0x8127, |c| c.op_8xy7()),
        (0x812E, |c| c.op_8xye()),
        (0x9120, |c| c.op_9xy0()),
        (0xA123, |c| c.op_annn()),
        (0xB123, |c| c.op_bnnnn()),
        (0xC1F0, |c| c.op_cxkk_with(0x5A)),
        (0xD125, |c| c.op_dxyn()),
        (0xE39E, |c| c.op_ex9e()),
        (0xE3A1, |c| c.op_exa1()),
        (0xF107, |c| c.op_fx07()),
        (0xF10A, |c| c.op_fx0a()),
        (0xF115, |c| c.op_fx15()),
        (0xF118, |c| c.op_fx18()),
        (0xF11E, |c| c.op_fx1e()),
        (0xF129, |c| c.op_fx29()),
        (0xF133, |c| c.op_fx33()),
        (0xF255, |c| c.op_fx55()),
    ];
    for (word, handler) in cases {
        let mut chip = machine_running(&[(word >> 8) as u8, word as u8]);
        chip.registers = [7, 200, 100, 5, 9, 1, 2, 3, 4, 5, 6, 7, 8, 9, 10, 3];
        chip.index = 0x50;
        chip.delay_timer = 40;
        chip.keypad[5] = true;
        chip.video[64 * 4 + 8] = true;

        let mut expected = chip.clone();
        expected.opcode = word;
        expected.pc = 0x202;
        handler(&mut expected);

        assert!(chip.can_step());
        assert!(chip.step_with(0x5A).is_ok());
        assert_eq!(chip.opcode, word);
        assert_eq!(chip.pc, expected.pc, "{:04X}", word);
        assert_eq!(chip.registers, expected.registers, "{:04X}", word);
        assert_eq!(chip.index, expected.index, "{:04X}", word);
        assert_eq!(chip.delay_timer, expected.delay_timer, "{:04X}", word);
        assert_eq!(chip.sound_timer, expected.sound_timer, "{:04X}", word);
        assert!(chip.memory[..] == expected.memory[..], "{:04X}", word);
        assert!(chip.video[..] == expected.video[..], "{:04X}", word);
    }
}

#[test]
fn load_through_a_step_reads_inclusive_range() {
    let mut chip = machine_running(&[0xF2, 0x65, 0x11, 0x22, 0x33, 0x44]);
    chip.index = 0x202;
    chip.registers = [0xEE; 16];
    assert_eq!(chip.step(), Ok(false));
    assert_eq!(&chip.registers[0..4], &[0x11, 0x22, 0x33, 0xEE]);
}

#[test]
fn can_step_needs_the_instruction_in_program_memory() {
    let mut chip = Chip8::new();
    chip.pc = 0x200;
    assert!(chip.can_step());
    chip.pc = 0x1FF;
    assert!(!chip.can_step());
    chip.pc = 0;
    assert!(!chip.can_step());
}

#[test]
fn can_step_needs_both_instruction_bytes_in_memory() {
    let mut chip = Chip8::new();
    chip.pc = 0xFFE;
    assert!(chip.can_step());
    chip.pc = 0xFFF;
    assert!(!chip.can_step());
    chip.pc = 0x1000;
    assert!(!chip.can_step());
    chip.pc = 0xFFFF;
    assert!(!chip.can_step());
}

#[test]
fn can_step_needs_a_stack_pointer_within_the_stack() {
    let mut chip = Chip8::new();
    chip.sp = 16;
    assert!(chip.can_step());
    chip.sp = 17;
    assert!(!chip.can_step());
}

#[test]
fn can_step_needs_the_sprite_in_memory() {
    let mut chip = machine_running(&[0xD0, 0x05]);
    chip.index = 4091;
    assert!(chip.can_step());
    chip.index = 4092;
    assert!(!chip.can_step());
    chip.index = 0xFFFF;
    assert!(!chip.can_step());
    let mut chip = machine_running(&[0xD0, 0x00]);
    chip.index = 4096;
    assert!(chip.can_step());
}

#[test]
fn can_step_needs_a_key_that_exists() {
    for low in [0x9Eu8, 0xA1] {
        let mut chip = machine_running(&[0xE4, low]);
        chip.registers[4] = 15;
        assert!(chip.can_step());
        chip.registers[4] = 16;
        assert!(!chip.can_step());
    }
}

#[test]
fn can_step_needs_the_stored_bytes_in_memory() {
    let mut chip = machine_running(&[0xF0, 0x33]);
    chip.index = 0xFFD;
    assert!(chip.can_step());
    chip.index = 0xFFE;
    assert!(!chip.can_step());

    for low in [0x55u8, 0x65] {
        let mut chip = machine_running(&[0xF3, low]);
        chip.index = 0xFFC;
        assert!(chip.can_step());
        chip.index = 0xFFD;
        assert!(!chip.can_step());
    }
}

#[test]
fn can_step_holds_for_instructions_that_touch_no_memory() {
    let mut chip = machine_running(&[0xA1, 0x23]);
    chip.index = 0xFFFF;
    chip.registers = [0xFF; 16];
    assert!(chip.can_step());
}

#[test]
fn small_program_counts_to_three() {
    // V0 = 0; loop: V0 += 1; SE V0, 3; JP loop; LD I, 0x300; LD B, V0
    let program = [
        0x60, 0x00, // 0x200
        0x70, 0x01, // 0x202
        0x30, 0x03, // 0x204
        0x12, 0x02, // 0x206
        0xA3, 0x00, // 0x208
        0xF0, 0x33, // 0x20A
    ];
    let mut chip = machine_running(&program);
    let mut cycles = 0;
    while chip.pc != 0x20C {
        assert!(chip.can_step());
        assert_eq!(chip.cycle(), Ok(false));
        cycles += 1;
        assert!(cycles < 100);
    }
    assert_eq!(cycles, 1 + 3 * 2 + 2 + 2);
    assert_eq!(chip.registers[0], 3);
    assert_eq!(&chip.memory[0x300..0x303], &[0, 0, 3]);
}

#[test]
fn checked_cycle_runs_where_the_machine_can_step() {
    let mut chip = machine_running(&[0x61, 0x09, 0x00, 0xEE]);
    chip.delay_timer = 3;
    assert_eq!(chip.checked_cycle(), Some(Ok(false)));
    assert_eq!(chip.registers[1], 9);
    assert_eq!(chip.pc, 0x202);
    assert_eq!(chip.delay_timer, 2);
    assert_eq!(chip.checked_cycle(), Some(Err(Chip8Error::StackUnderflow)));
    assert_eq!(chip.pc, 0x202);
    assert_eq!(chip.delay_timer, 2);
}

#[test]
fn checked_cycle_refuses_where_the_machine_cannot_step() {
    let mut chip = machine_running(&[0xF0, 0x33]);
    chip.index = 0xFFE;
    chip.delay_timer = 3;
    assert_eq!(chip.checked_cycle(), None);
    assert_eq!(chip.pc, 0x200);
    assert_eq!(chip.opcode, 0);
    assert_eq!(chip.delay_timer, 3);
    assert!(chip.memory[0xFFE..].iter().all(|b| *b == 0));

    let mut chip = machine_running(&[0x1F, 0xFF]);
    assert_eq!(chip.checked_cycle(), Some(Ok(false)));
    assert_eq!(chip.pc, 0xFFF);
    assert_eq!(chip.checked_cycle(), None);
    assert_eq!(chip.pc, 0xFFF);
}
