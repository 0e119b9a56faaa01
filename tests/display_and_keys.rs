use chip8::{get_first_pressed_key, was_key_pressed, Chip, ChipError};

fn machine_with(program: &[u8]) -> Chip {
    let mut chip = Chip::new();
    chip.load_rom(program).unwrap();
    chip
}

fn lit(chip: &Chip) -> Vec<usize> {
    (0..2048).filter(|&i| chip.texture[i] == 1).collect()
}

#[test]
fn draw_font_glyph_zero() {
    // V0 = 0, I = glyph 0, draw 5 rows at (0, 0)
    let mut chip = machine_with(&[0xF0, 0x29, 0xD0, 0x05]);
    chip.step(0).unwrap();
    chip.step(0).unwrap();
    assert_eq!(&chip.texture[0..8], &[1, 1, 1, 1, 0, 0, 0, 0]);
    assert_eq!(&chip.texture[64..72], &[1, 0, 0, 1, 0, 0, 0, 0]);
    assert_eq!(&chip.texture[256..264], &[1, 1, 1, 1, 0, 0, 0, 0]);
    assert_eq!(lit(&chip).len(), 14);
    assert_eq!(chip.registers[0xF], 0);
}

#[test]
fn draw_twice_restores_and_collides() {
    let mut chip = machine_with(&[0x61, 10, 0x62, 7, 0xA0, 0x05, 0xD1, 0x25, 0xD1, 0x25]);
    chip.texture[7 * 64 + 30] = 1;
    let before = chip.texture;
    for _ in 0..4 {
        chip.step(0).unwrap();
    }
    assert_ne!(chip.texture, before);
    assert_eq!(chip.registers[0xF], 0);
    chip.step(0).unwrap();
    assert_eq!(chip.texture, before);
    assert_eq!(chip.registers[0xF], 1);
}

#[test]
fn draw_over_lit_pixel_collides() {
    let mut chip = machine_with(&[0xD0, 0x01]);
    chip.memory[0x300] = 0x80;
    chip.index_register = 0x300;
    chip.texture[0] = 1;
    chip.step(0).unwrap();
    assert_eq!(chip.texture[0], 0);
    assert_eq!(chip.registers[0xF], 1);
}

#[test]
fn draw_clips_at_right_and_bottom_edges() {
    let mut chip = machine_with(&[0x60, 60, 0x61, 31, 0xD0, 0x12]);
    chip.memory[0x300] = 0xFF;
    chip.memory[0x301] = 0xFF;
    chip.index_register = 0x300;
    for _ in 0..3 {
        chip.step(0).unwrap();
    }
    assert_eq!(lit(&chip), vec![31 * 64 + 60, 31 * 64 + 61, 31 * 64 + 62, 31 * 64 + 63]);
}

#[test]
fn draw_outside_screen_is_out_of_bounds() {
    let mut chip = machine_with(&[0x60, 64, 0xD0, 0x11]);
    chip.step(0).unwrap();
    assert_eq!(chip.step(0), Err(ChipError::OutOfBoundsAccess));
    let mut chip = machine_with(&[0x61, 32, 0xD0, 0x11]);
    chip.step(0).unwrap();
    assert_eq!(chip.step(0), Err(ChipError::OutOfBoundsAccess));
    let mut chip = machine_with(&[0xD0, 0x03]);
    chip.index_register = 4094;
    assert_eq!(chip.step(0), Err(ChipError::OutOfBoundsAccess));
    assert!(lit(&chip).is_empty());
}

#[test]
fn key_table_queries() {
    let mut keys = [false; 16];
    assert!(!was_key_pressed(&keys));
    assert_eq!(get_first_pressed_key(&keys), 16);
    keys[9] = true;
    keys[4] = true;
    assert!(was_key_pressed(&keys));
    assert_eq!(get_first_pressed_key(&keys), 4);
}

#[test]
fn skip_on_key_state() {
    let mut chip = machine_with(&[0x60, 5, 0xE0, 0x9E]);
    chip.keys[5] = true;
    chip.step(0).unwrap();
    chip.step(0).unwrap();
    assert_eq!(chip.program_counter, 0x206);
    let mut chip = machine_with(&[0x60, 5, 0xE0, 0xA1]);
    chip.keys[5] = true;
    chip.step(0).unwrap();
    chip.step(0).unwrap();
    assert_eq!(chip.program_counter, 0x204);
    let mut chip = machine_with(&[0x60, 5, 0xE0, 0xA1]);
    chip.step(0).unwrap();
    chip.step(0).unwrap();
    assert_eq!(chip.program_counter, 0x206);
}

#[test]
fn skip_on_key_beyond_table_is_out_of_bounds() {
    let mut chip = machine_with(&[0x60, 16, 0xE0, 0x9E]);
    chip.step(0).unwrap();
    assert_eq!(chip.step(0), Err(ChipError::OutOfBoundsAccess));
    assert_eq!(chip.program_counter, 0x202);
}

#[test]
fn wait_for_key_repeats_until_pressed() {
    let mut chip = machine_with(&[0xF3, 0x0A]);
    chip.step(0).unwrap();
    assert_eq!(chip.program_counter, 0x200);
    chip.step(0).unwrap();
    assert_eq!(chip.program_counter, 0x200);
    chip.keys[0xB] = true;
    chip.step(0).unwrap();
    assert_eq!(chip.program_counter, 0x202);
    assert_eq!(chip.registers[3], 0xB);
}
