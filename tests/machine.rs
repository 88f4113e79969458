use chip8::{beep_action, decode, version, BeepAction, Chip8, Fault, Instruction, LoadError};

fn machine_with(program: &[u8]) -> Chip8 {
    let mut chip = Chip8::new();
    chip.load(program).unwrap();
    chip
}

fn lit_pixels(chip: &Chip8) -> usize {
    chip.framebuffer().iter().filter(|p| **p).count()
}

#[test]
fn new_machine_holds_font_and_starts_at_program() {
    let chip = Chip8::new();
    assert_eq!(&chip.memory[0..5], &[0xF0, 0x90, 0x90, 0x90, 0xF0]);
    assert_eq!(&chip.memory[75..80], &[0xF0, 0x80, 0xF0, 0x80, 0x80]);
    assert_eq!(chip.memory[80], 0);
    assert_eq!(chip.pc, 0x200);
    assert_eq!(chip.sp, 0);
    assert!(chip.draw_flag);
    assert!(!chip.make_sound);
    assert_eq!(lit_pixels(&chip), 0);
}

#[test]
fn load_fills_the_whole_program_area() {
    let mut chip = Chip8::new();
    assert_eq!(chip.load(&vec![0xAB; 3584]), Ok(()));
    assert_eq!(chip.memory[0x200], 0xAB);
    assert_eq!(chip.memory[4095], 0xAB);
    assert_eq!(chip.memory[0x1FF], 0);
}

#[test]
fn load_rejects_oversized_program() {
    let mut chip = Chip8::new();
    assert_eq!(
        chip.load(&vec![0xAB; 3585]),
        Err(LoadError::CapacityExceeded { len: 3585 })
    );
    assert_eq!(chip.memory[0x200], 0);
}

#[test]
fn load_of_empty_program_changes_nothing() {
    let mut chip = Chip8::new();
    assert_eq!(chip.load(&[]), Ok(()));
    assert_eq!(chip.memory[0x200], 0);
}

#[test]
fn clear_screen_blanks_display_and_raises_redraw() {
    let mut chip = machine_with(&[0x00, 0xE0]);
    chip.graphics[0] = true;
    chip.graphics[700] = true;
    chip.graphics[2047] = true;
    chip.draw_flag = false;
    chip.emulate_cycle().unwrap();
    assert_eq!(lit_pixels(&chip), 0);
    assert!(chip.draw_flag);
}

#[test]
fn plain_instructions_advance_pc_by_two() {
    let mut chip = machine_with(&[0x60, 0x01, 0x71, 0x02, 0xA3, 0x00, 0x80, 0x14, 0xF0, 0x1E]);
    for expected in [0x202u16, 0x204, 0x206, 0x208, 0x20A] {
        chip.emulate_cycle().unwrap();
        assert_eq!(chip.pc, expected);
    }
}

#[test]
fn draw_twice_toggles_back_and_reports_collision() {
    // glyph 0 of the font, five rows, at (0, 0)
    let mut chip = machine_with(&[0xD0, 0x15, 0xD0, 0x15]);
    chip.emulate_cycle().unwrap();
    assert_eq!(chip.reg[0xF], 0);
    assert_eq!(lit_pixels(&chip), 14);
    assert!(chip.graphics[0] && chip.graphics[3] && !chip.graphics[4]);
    assert!(chip.graphics[64] && !chip.graphics[65] && chip.graphics[67]);
    chip.emulate_cycle().unwrap();
    assert_eq!(chip.reg[0xF], 1);
    assert_eq!(lit_pixels(&chip), 0);
    assert!(chip.draw_flag);
}

#[test]
fn draw_clips_at_the_edges() {
    let mut chip = machine_with(&[0xD0, 0x15]);
    chip.reg[0] = 62;
    chip.reg[1] = 30;
    chip.emulate_cycle().unwrap();
    assert!(chip.graphics[30 * 64 + 62]);
    assert!(chip.graphics[30 * 64 + 63]);
    assert!(chip.graphics[31 * 64 + 62]);
    assert!(!chip.graphics[31 * 64 + 63]);
    assert!(!chip.graphics[30 * 64]);
    assert!(!chip.graphics[62]);
    assert_eq!(lit_pixels(&chip), 3);
    assert_eq!(chip.reg[0xF], 0);
}

#[test]
fn wait_key_stores_lowest_pressed_key() {
    let mut chip = machine_with(&[0xF4, 0x0A]);
    chip.emulate_cycle().unwrap();
    chip.emulate_cycle().unwrap();
    assert_eq!(chip.pc, 0x200);
    chip.set_key(5, true);
    chip.set_key(3, true);
    chip.emulate_cycle().unwrap();
    assert_eq!(chip.pc, 0x202);
    assert_eq!(chip.reg[4], 3);
}

#[test]
fn wait_key_sees_the_highest_key() {
    let mut chip = machine_with(&[0xF2, 0x0A]);
    chip.set_key(15, true);
    chip.emulate_cycle().unwrap();
    assert_eq!(chip.pc, 0x202);
    assert_eq!(chip.reg[2], 15);
}

#[test]
fn set_key_writes_and_clears_the_latch() {
    let mut chip = Chip8::new();
    chip.set_key(7, true);
    assert_eq!(chip.key[7], 1);
    chip.set_key(7, false);
    assert_eq!(chip.key[7], 0);
}

#[test]
fn store_then_load_registers_round_trips() {
    let mut chip = machine_with(&[0xF3, 0x55, 0xF3, 0x65]);
    chip.index = 0x300;
    chip.reg[0] = 0x12;
    chip.reg[1] = 0x34;
    chip.reg[2] = 0x56;
    chip.reg[3] = 0x78;
    chip.reg[4] = 0x9A;
    chip.emulate_cycle().unwrap();
    assert_eq!(&chip.memory[0x300..0x305], &[0x12, 0x34, 0x56, 0x78, 0]);
    let saved = chip.reg;
    chip.reg[0] = 0;
    chip.reg[3] = 0;
    chip.emulate_cycle().unwrap();
    assert_eq!(chip.reg, saved);
    assert_eq!(chip.index, 0x300);
}

#[test]
fn idle_timers_stay_at_zero() {
    let mut chip = machine_with(&[0x60, 0x05, 0x70, 0x01, 0x12, 0x00]);
    for _ in 0..10 {
        chip.emulate_cycle().unwrap();
        assert_eq!(chip.timer_delay, 0);
        assert_eq!(chip.timer_sound, 0);
        assert!(!chip.make_sound);
    }
}

#[test]
fn sound_request_is_raised_on_the_last_tick_only() {
    let mut chip = machine_with(&[0x12, 0x00]);
    chip.timer_sound = 2;
    chip.timer_delay = 1;
    chip.emulate_cycle().unwrap();
    assert_eq!(chip.timer_sound, 1);
    assert_eq!(chip.timer_delay, 0);
    assert!(!chip.make_sound);
    chip.emulate_cycle().unwrap();
    assert_eq!(chip.timer_sound, 0);
    assert!(chip.make_sound);
    chip.emulate_cycle().unwrap();
    assert!(!chip.make_sound);
}

#[test]
fn bcd_stores_decimal_digits() {
    let mut chip = machine_with(&[0xF5, 0x33]);
    chip.reg[5] = 254;
    chip.index = 0x400;
    chip.emulate_cycle().unwrap();
    assert_eq!(&chip.memory[0x400..0x403], &[2, 5, 4]);
    assert_eq!(chip.pc, 0x202);
}

#[test]
fn shifts_report_the_bit_shifted_out() {
    let mut chip = machine_with(&[0x82, 0x06, 0x83, 0x0E]);
    chip.reg[2] = 0b1000_0010;
    chip.reg[3] = 0b0100_0001;
    chip.emulate_cycle().unwrap();
    assert_eq!(chip.reg[2], 0b0100_0001);
    assert_eq!(chip.reg[0xF], 0);
    chip.emulate_cycle().unwrap();
    assert_eq!(chip.reg[3], 0b1000_0010);
    assert_eq!(chip.reg[0xF], 0);
}

#[test]
fn add_index_wraps_at_sixteen_bits() {
    let mut chip = machine_with(&[0xF1, 0x1E]);
    chip.index = 0xFFFF;
    chip.reg[1] = 2;
    chip.emulate_cycle().unwrap();
    assert_eq!(chip.index, 1);
}

#[test]
fn random_byte_is_masked() {
    let mut chip = machine_with(&[0xC3, 0x0F, 0xC4, 0xF0]);
    chip.emulate_cycle_with(0xFF).unwrap();
    assert_eq!(chip.reg[3], 0x0F);
    chip.emulate_cycle_with(0x3C).unwrap();
    assert_eq!(chip.reg[4], 0x30);
    assert_eq!(chip.pc, 0x204);
}

#[test]
fn random_with_zero_mask_gives_zero() {
    let mut chip = machine_with(&[0xC3, 0x00]);
    chip.reg[3] = 0x55;
    chip.emulate_cycle().unwrap();
    assert_eq!(chip.reg[3], 0);
}

#[test]
fn illegal_opcode_is_reported_and_changes_nothing() {
    let mut chip = machine_with(&[0x01, 0x23]);
    chip.timer_delay = 5;
    assert_eq!(
        chip.emulate_cycle(),
        Err(Fault::IllegalOpcode { opcode: 0x0123, pc: 0x200 })
    );
    assert_eq!(chip.pc, 0x200);
    assert_eq!(chip.timer_delay, 5);
    let mut chip = machine_with(&[0x51, 0x21]);
    assert_eq!(
        chip.emulate_cycle(),
        Err(Fault::IllegalOpcode { opcode: 0x5121, pc: 0x200 })
    );
    let mut chip = machine_with(&[0xF1, 0x99]);
    assert_eq!(
        chip.emulate_cycle(),
        Err(Fault::IllegalOpcode { opcode: 0xF199, pc: 0x200 })
    );
}

#[test]
fn return_with_empty_stack_underflows() {
    let mut chip = machine_with(&[0x00, 0xEE]);
    assert_eq!(chip.emulate_cycle(), Err(Fault::StackUnderflow { pc: 0x200 }));
    assert_eq!(chip.sp, 0);
}

#[test]
fn call_with_full_stack_overflows() {
    let mut chip = machine_with(&[0x22, 0x00]);
    for depth in 1..=16u16 {
        chip.emulate_cycle().unwrap();
        assert_eq!(chip.sp, depth);
    }
    assert_eq!(chip.emulate_cycle(), Err(Fault::StackOverflow { pc: 0x200 }));
    assert_eq!(chip.sp, 16);
}

#[test]
fn memory_access_past_the_end_faults() {
    let mut chip = machine_with(&[0xF2, 0x55]);
    chip.index = 4094;
    assert_eq!(chip.emulate_cycle(), Err(Fault::MemoryOutOfBounds { pc: 0x200 }));
    assert_eq!(chip.memory[4094], 0);
    let mut chip = machine_with(&[0xF2, 0x33]);
    chip.index = 4094;
    assert_eq!(chip.emulate_cycle(), Err(Fault::MemoryOutOfBounds { pc: 0x200 }));
    let mut chip = machine_with(&[0xD0, 0x13]);
    chip.index = 4094;
    assert_eq!(chip.emulate_cycle(), Err(Fault::MemoryOutOfBounds { pc: 0x200 }));
}

#[test]
fn key_number_above_fifteen_faults() {
    let mut chip = machine_with(&[0xE1, 0x9E]);
    chip.reg[1] = 16;
    assert_eq!(chip.emulate_cycle(), Err(Fault::InvalidKey { pc: 0x200, key: 16 }));
}

#[test]
fn pc_at_end_of_memory_faults() {
    let mut chip = Chip8::new();
    chip.pc = 4095;
    assert_eq!(chip.emulate_cycle(), Err(Fault::PcOutOfBounds { pc: 4095 }));
}

#[test]
fn decode_picks_family_and_operands() {
    assert_eq!(decode(0x8AB4), Some(Instruction::AddReg { x: 0xA, y: 0xB }));
    assert_eq!(decode(0xD125), Some(Instruction::Draw { x: 1, y: 2, n: 5 }));
    assert_eq!(decode(0xB123), Some(Instruction::JumpOffset { addr: 0x123 }));
    assert_eq!(decode(0xF765), Some(Instruction::LoadRegs { x: 7 }));
    assert_eq!(decode(0x00E0), Some(Instruction::ClearScreen));
    assert_eq!(decode(0x8AB8), None);
    assert_eq!(decode(0xE19F), None);
    assert_eq!(decode(0x0000), None);
}

#[test]
fn beep_is_held_until_its_time_has_passed() {
    assert_eq!(beep_action(true, 0, 250), BeepAction::Start);
    assert_eq!(beep_action(true, 900, 250), BeepAction::Start);
    assert_eq!(beep_action(false, 100, 250), BeepAction::Keep);
    assert_eq!(beep_action(false, 250, 250), BeepAction::Stop);
}

#[test]
fn version_is_reported() {
    assert_eq!(version(), "0.1.0");
}

#[test]
fn timer_ticks_count_sixtieths_of_a_second() {
    assert_eq!(chip8::timer_ticks(0), 0);
    assert_eq!(chip8::timer_ticks(16_666), 0);
    assert_eq!(chip8::timer_ticks(16_667), 1);
    assert_eq!(chip8::timer_ticks(1_000_000), 60);
    assert_eq!(chip8::timer_ticks(2_500_000), 150);
    assert_eq!(chip8::timer_ticks(u64::MAX), u64::MAX / 1_000_000 * 60 + 33);
}

#[test]
fn instruction_alone_leaves_timers_alone() {
    let mut chip = machine_with(&[0xF1, 0x15, 0xF1, 0x07]);
    chip.reg[1] = 5;
    chip.emulate_instruction().unwrap();
    assert_eq!(chip.timer_delay, 5);
    chip.update_timers();
    assert_eq!(chip.timer_delay, 4);
    chip.emulate_instruction_with(0).unwrap();
    assert_eq!(chip.reg[1], 4);
    assert_eq!(chip.pc, 0x204);
}
