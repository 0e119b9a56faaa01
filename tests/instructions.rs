use chip8::{Chip, ChipError, OppCodeData};

fn machine_with(program: &[u8]) -> Chip {
    let mut chip = Chip::new();
    chip.load_rom(program).unwrap();
    chip
}

fn run(chip: &mut Chip, steps: usize) {
    for _ in 0..steps {
        chip.step(0).unwrap();
    }
}

#[test]
fn decoder_extracts_fields() {
    let d = OppCodeData::new(0xD12A);
    assert_eq!(d.nnn, 0x12A);
    assert_eq!(d.nn, 0x2A);
    assert_eq!(d.n, 0xA);
    assert_eq!(d.x, 0x1);
    assert_eq!(d.y, 0x2);
}

#[test]
fn decoder_init_overwrites() {
    let mut d = OppCodeData::new(0xFFFF);
    d.init(0x0000);
    assert_eq!(d, OppCodeData::new(0));
    assert_eq!((d.nnn, d.nn, d.n, d.x, d.y), (0, 0, 0, 0, 0));
}

#[test]
fn new_machine_has_font_and_start_address() {
    let chip = Chip::new();
    assert_eq!(chip.program_counter, 0x200);
    assert_eq!(&chip.memory[0..5], &[0xF0, 0x90, 0x90, 0x90, 0xF0]);
    assert_eq!(&chip.memory[75..80], &[0xF0, 0x80, 0xF0, 0x80, 0x80]);
    assert!(chip.memory[80..].iter().all(|&b| b == 0));
    assert_eq!(chip.stack_pointer, 0);
    assert!(chip.registers.iter().all(|&r| r == 0));
}

#[test]
fn load_rom_copies_image() {
    let chip = machine_with(&[1, 2, 3]);
    assert_eq!(&chip.memory[0x200..0x204], &[1, 2, 3, 0]);
}

#[test]
fn load_rom_accepts_largest_image() {
    let image = vec![7u8; 3584];
    let chip = machine_with(&image);
    assert_eq!(chip.memory[4095], 7);
}

#[test]
fn load_rom_refuses_oversized_image() {
    let mut chip = Chip::new();
    let image = vec![7u8; 3585];
    assert_eq!(chip.load_rom(&image), Err(ChipError::ProgramLoadError));
    assert_eq!(chip.memory[0x200], 0);
}

#[test]
fn clear_screen_scenario() {
    let mut chip = machine_with(&[0x00, 0xE0]);
    chip.texture = [1; 2048];
    chip.step(0).unwrap();
    assert!(chip.texture.iter().all(|&p| p == 0));
    assert_eq!(chip.program_counter, 0x202);
}

#[test]
fn add_scenario_without_carry() {
    let mut chip = machine_with(&[0x6A, 0x05, 0x6B, 0x03, 0x8A, 0xB4]);
    run(&mut chip, 3);
    assert_eq!(chip.registers[0xA], 8);
    assert_eq!(chip.registers[0xF], 0);
}

#[test]
fn add_with_carry_sets_flag() {
    let mut chip = machine_with(&[0x60, 0xFF, 0x61, 0x02, 0x80, 0x14]);
    run(&mut chip, 3);
    assert_eq!(chip.registers[0], 1);
    assert_eq!(chip.registers[0xF], 1);
}

#[test]
fn add_exactly_256_sets_flag() {
    let mut chip = machine_with(&[0x60, 0x80, 0x61, 0x80, 0x80, 0x14]);
    run(&mut chip, 3);
    assert_eq!(chip.registers[0], 0);
    assert_eq!(chip.registers[0xF], 1);
}

#[test]
fn add_immediate_wraps_without_flag() {
    let mut chip = machine_with(&[0x6F, 0x07, 0x60, 0xFF, 0x70, 0x03]);
    run(&mut chip, 3);
    assert_eq!(chip.registers[0], 2);
    assert_eq!(chip.registers[0xF], 7);
}

#[test]
fn subtract_y_from_x_borrow() {
    let mut chip = machine_with(&[0x60, 0x03, 0x61, 0x05, 0x80, 0x15]);
    run(&mut chip, 3);
    assert_eq!(chip.registers[0], 254);
    assert_eq!(chip.registers[0xF], 1);
}

#[test]
fn subtract_y_from_x_no_borrow() {
    let mut chip = machine_with(&[0x60, 0x05, 0x61, 0x05, 0x80, 0x15]);
    run(&mut chip, 3);
    assert_eq!(chip.registers[0], 0);
    assert_eq!(chip.registers[0xF], 0);
}

#[test]
fn subtract_x_from_y_borrow() {
    let mut chip = machine_with(&[0x60, 0x05, 0x61, 0x03, 0x80, 0x17]);
    run(&mut chip, 3);
    assert_eq!(chip.registers[0], 254);
    assert_eq!(chip.registers[0xF], 1);
}

#[test]
fn subtract_x_from_y_no_borrow() {
    let mut chip = machine_with(&[0x60, 0x03, 0x61, 0x05, 0x80, 0x17]);
    run(&mut chip, 3);
    assert_eq!(chip.registers[0], 2);
    assert_eq!(chip.registers[0xF], 0);
}

#[test]
fn flag_register_as_destination_keeps_flag() {
    let mut chip = machine_with(&[0x6F, 0xFF, 0x61, 0x02, 0x8F, 0x14]);
    run(&mut chip, 3);
    assert_eq!(chip.registers[0xF], 1);
}

#[test]
fn shifts_report_bit_shifted_out() {
    let mut chip = machine_with(&[0x60, 0x81, 0x80, 0x06, 0x61, 0x81, 0x81, 0x1E]);
    run(&mut chip, 2);
    assert_eq!(chip.registers[0], 0x40);
    assert_eq!(chip.registers[0xF], 1);
    run(&mut chip, 2);
    assert_eq!(chip.registers[1], 0x02);
    assert_eq!(chip.registers[0xF], 1);
}

#[test]
fn bitwise_operations() {
    let mut chip = machine_with(&[
        0x60, 0x0C, 0x61, 0x0A, 0x82, 0x00, 0x82, 0x11, 0x83, 0x00, 0x83, 0x12, 0x84, 0x00,
        0x84, 0x13,
    ]);
    run(&mut chip, 8);
    assert_eq!(chip.registers[2], 0x0E);
    assert_eq!(chip.registers[3], 0x08);
    assert_eq!(chip.registers[4], 0x06);
}

#[test]
fn skips_advance_past_next_instruction() {
    let mut chip = machine_with(&[0x60, 0x05, 0x30, 0x05]);
    run(&mut chip, 2);
    assert_eq!(chip.program_counter, 0x206);
    let mut chip = machine_with(&[0x60, 0x05, 0x40, 0x05]);
    run(&mut chip, 2);
    assert_eq!(chip.program_counter, 0x204);
    let mut chip = machine_with(&[0x60, 0x05, 0x50, 0x10]);
    run(&mut chip, 2);
    assert_eq!(chip.program_counter, 0x204);
    let mut chip = machine_with(&[0x60, 0x05, 0x90, 0x10]);
    run(&mut chip, 2);
    assert_eq!(chip.program_counter, 0x206);
}

#[test]
fn jumps_set_program_counter() {
    let mut chip = machine_with(&[0x13, 0x45]);
    run(&mut chip, 1);
    assert_eq!(chip.program_counter, 0x345);
    let mut chip = machine_with(&[0x60, 0x10, 0xB3, 0x00]);
    run(&mut chip, 2);
    assert_eq!(chip.program_counter, 0x310);
}

#[test]
fn call_then_return_resumes_after_call() {
    let mut chip = machine_with(&[0x23, 0x00]);
    chip.memory[0x300] = 0x00;
    chip.memory[0x301] = 0xEE;
    chip.step(0).unwrap();
    assert_eq!(chip.program_counter, 0x300);
    assert_eq!(chip.stack_pointer, 1);
    chip.step(0).unwrap();
    assert_eq!(chip.program_counter, 0x202);
    assert_eq!(chip.stack_pointer, 0);
}

#[test]
fn return_on_empty_stack_underflows() {
    let mut chip = machine_with(&[0x00, 0xEE]);
    assert_eq!(chip.step(0), Err(ChipError::CallStackUnderflow));
    assert_eq!(chip.program_counter, 0x200);
}

#[test]
fn call_on_full_stack_overflows() {
    let mut chip = machine_with(&[0x22, 0x00]);
    for _ in 0..16 {
        chip.step(0).unwrap();
    }
    assert_eq!(chip.stack_pointer, 16);
    assert_eq!(chip.step(0), Err(ChipError::CallStackOverflow));
    assert_eq!(chip.stack_pointer, 16);
}

#[test]
fn unsupported_instructions_are_reported() {
    for word in [0x0001u16, 0x800F, 0xE0FF, 0xF0FF] {
        let mut chip = machine_with(&[(word >> 8) as u8, word as u8]);
        assert_eq!(
            chip.step(0),
            Err(ChipError::UnsupportedInstruction { opcode: word, pc: 0x200 })
        );
        assert_eq!(chip.program_counter, 0x200);
    }
}

#[test]
fn fetch_past_memory_end_is_out_of_bounds() {
    let mut chip = Chip::new();
    chip.program_counter = 4095;
    assert_eq!(chip.step(0), Err(ChipError::OutOfBoundsAccess));
}

#[test]
fn index_instructions() {
    let mut chip = machine_with(&[0xA1, 0x23, 0x60, 0x07, 0xF0, 0x1E, 0xF0, 0x29]);
    run(&mut chip, 1);
    assert_eq!(chip.index_register, 0x123);
    run(&mut chip, 2);
    assert_eq!(chip.index_register, 0x12A);
    assert_eq!(chip.registers[0xF], 0);
    run(&mut chip, 1);
    assert_eq!(chip.index_register, 35);
}

#[test]
fn add_to_index_overflow_sets_flag() {
    let mut chip = machine_with(&[0x60, 0x02, 0xF0, 0x1E]);
    chip.index_register = 0xFFFF;
    run(&mut chip, 2);
    assert_eq!(chip.index_register, 1);
    assert_eq!(chip.registers[0xF], 1);
}

#[test]
fn bcd_of_234() {
    let mut chip = machine_with(&[0x63, 234, 0xA3, 0x00, 0xF3, 0x33]);
    run(&mut chip, 3);
    assert_eq!(&chip.memory[0x300..0x303], &[2, 3, 4]);
}

#[test]
fn bcd_of_5() {
    let mut chip = machine_with(&[0x63, 5, 0xA3, 0x00, 0xF3, 0x33]);
    run(&mut chip, 3);
    assert_eq!(&chip.memory[0x300..0x303], &[0, 0, 5]);
}

#[test]
fn bcd_past_memory_end_is_out_of_bounds() {
    let mut chip = machine_with(&[0xF3, 0x33]);
    chip.index_register = 4094;
    assert_eq!(chip.step(0), Err(ChipError::OutOfBoundsAccess));
    assert_eq!(chip.program_counter, 0x200);
}

#[test]
fn dump_scenario() {
    let mut chip = machine_with(&[
        0x60, 1, 0x61, 2, 0x62, 3, 0x63, 4, 0x64, 5, 0xA2, 0xF0, 0xF3, 0x55,
    ]);
    run(&mut chip, 5);
    let mut two = machine_with(&[0xA2, 0xF0, 0xF3, 0x55]);
    two.registers = chip.registers;
    run(&mut two, 2);
    assert_eq!(&two.memory[0x2F0..0x2F4], &two.registers[0..4]);
    assert_eq!(&two.memory[0x2F0..0x2F5], &[1, 2, 3, 4, 0]);
}

#[test]
fn dump_then_load_round_trip() {
    let mut chip = machine_with(&[0xA3, 0x00, 0xF7, 0x55, 0xF7, 0x65]);
    let original = [9, 8, 7, 6, 5, 4, 3, 2, 1, 10, 11, 12, 13, 14, 15, 16];
    chip.registers = original;
    run(&mut chip, 2);
    chip.registers = [0; 16];
    run(&mut chip, 1);
    assert_eq!(&chip.registers[0..8], &original[0..8]);
    assert!(chip.registers[8..].iter().all(|&r| r == 0));
}

#[test]
fn dump_past_memory_end_is_out_of_bounds() {
    let mut chip = machine_with(&[0xFF, 0x55]);
    chip.index_register = 4090;
    assert_eq!(chip.step(0), Err(ChipError::OutOfBoundsAccess));
    let mut chip = machine_with(&[0xFF, 0x65]);
    chip.index_register = 4081;
    assert_eq!(chip.step(0), Err(ChipError::OutOfBoundsAccess));
}

#[test]
fn timers_set_and_read() {
    let mut chip = machine_with(&[0x60, 9, 0xF0, 0x15, 0xF0, 0x18, 0xF1, 0x07]);
    run(&mut chip, 4);
    assert_eq!(chip.delay_timer, 9);
    assert_eq!(chip.sound_timer, 9);
    assert_eq!(chip.registers[1], 9);
}

#[test]
fn sound_timer_beeps_once() {
    let mut chip = Chip::new();
    chip.sound_timer = 1;
    assert!(chip.tick_timers());
    assert_eq!(chip.sound_timer, 0);
    assert!(!chip.tick_timers());
    assert_eq!(chip.sound_timer, 0);
}

#[test]
fn delay_timer_counts_down_to_zero() {
    let mut chip = Chip::new();
    chip.delay_timer = 2;
    chip.sound_timer = 3;
    assert!(!chip.tick_timers());
    assert!(!chip.tick_timers());
    assert_eq!(chip.delay_timer, 0);
    assert!(chip.tick_timers());
    assert!(!chip.tick_timers());
    assert_eq!(chip.delay_timer, 0);
}

#[test]
fn emulate_cycle_ticks_timers() {
    let mut chip = machine_with(&[0x60, 1, 0xF0, 0x18, 0x12, 0x04]);
    assert_eq!(chip.emulate_cycle(), Ok(false));
    assert_eq!(chip.emulate_cycle(), Ok(true));
    assert_eq!(chip.sound_timer, 0);
    assert_eq!(chip.emulate_cycle(), Ok(false));
}

#[test]
fn emulate_cycle_error_leaves_timers() {
    let mut chip = machine_with(&[0x00, 0xEE]);
    chip.delay_timer = 5;
    assert_eq!(chip.emulate_cycle(), Err(ChipError::CallStackUnderflow));
    assert_eq!(chip.delay_timer, 5);
}

#[test]
fn random_and_masks_drawn_byte() {
    let mut chip = machine_with(&[0xC0, 0x0F, 0xC1, 0x00]);
    chip.registers[1] = 0xAA;
    chip.emulate_cycle().unwrap();
    assert!(chip.registers[0] <= 0x0F);
    chip.emulate_cycle().unwrap();
    assert_eq!(chip.registers[1], 0);
}

#[test]
fn random_and_with_given_byte() {
    let mut chip = machine_with(&[0xC2, 0x3C]);
    chip.step(0xF5).unwrap();
    assert_eq!(chip.registers[2], 0x34);
}
