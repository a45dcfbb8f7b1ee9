use chip8::Chip8;
use chip8::Chip8Error;

fn pixel_on(chip8: &Chip8, y: usize, x: usize) -> bool {
    chip8.vram[y][x].on
}

#[test]
fn clear_display_turns_every_cell_off() {
    let mut chip8 = Chip8::new();
    // Light some cells first: draw the built-in sprite for 0 at (0, 0).
    chip8.index_register = 0;
    chip8.handle_instruction(0xD015).unwrap();
    assert!(pixel_on(&chip8, 0, 0));
    assert!(chip8.vram_changed);

    chip8.handle_instruction(0x00E0).unwrap();
    for y in 0..32 {
        for x in 0..64 {
            assert!(!pixel_on(&chip8, y, x));
        }
    }
    assert!(chip8.vram_changed);
}

#[test]
fn load_immediate_scenario() {
    let mut chip8 = Chip8::new();
    chip8.handle_instruction(0x6A3C).unwrap();
    assert_eq!(0x3C, chip8.registers[0x0A]);
}

#[test]
fn add_immediate_wraps_modulo_256() {
    let mut chip8 = Chip8::new();
    chip8.registers[1] = 250;
    chip8.handle_instruction(0x710A).unwrap();
    assert_eq!(4, chip8.registers[1]);
}

#[test]
fn jump_sets_program_counter_without_advance() {
    let mut chip8 = Chip8::new();
    chip8.handle_instruction(0x1ABC).unwrap();
    assert_eq!(0xABC, chip8.program_counter);
}

#[test]
fn call_pushes_and_return_resumes_after_call() {
    let mut chip8 = Chip8::new();
    chip8.handle_instruction(0x2ABC).unwrap();
    assert_eq!(0xABC, chip8.program_counter);
    assert_eq!(vec![0x200], chip8.stack);

    chip8.handle_instruction(0x00EE).unwrap();
    assert_eq!(0x202, chip8.program_counter);
    assert!(chip8.stack.is_empty());
}

#[test]
fn return_on_empty_stack_is_underflow() {
    let mut chip8 = Chip8::new();
    let result = chip8.handle_instruction(0x00EE);
    assert_eq!(Err(Chip8Error::StackUnderflow), result);
    assert_eq!(0x200, chip8.program_counter);
}

#[test]
fn unrecognized_words_are_fatal_decode_errors() {
    let mut chip8 = Chip8::new();
    assert_eq!(
        Err(Chip8Error::UnrecognizedOpcode(0x8AB8)),
        chip8.handle_instruction(0x8AB8)
    );
    assert_eq!(
        Err(Chip8Error::UnrecognizedOpcode(0x0123)),
        chip8.handle_instruction(0x0123)
    );
    assert_eq!(
        Err(Chip8Error::UnrecognizedOpcode(0xE5AB)),
        chip8.handle_instruction(0xE5AB)
    );
    assert_eq!(
        Err(Chip8Error::UnrecognizedOpcode(0xF5FF)),
        chip8.handle_instruction(0xF5FF)
    );
    assert_eq!(0x200, chip8.program_counter);
}

#[test]
fn store_bcd_past_memory_end_is_fatal() {
    let mut chip8 = Chip8::new();
    chip8.index_register = 4094;
    chip8.registers[0x0C] = 129;
    assert_eq!(
        Err(Chip8Error::MemoryOutOfBounds),
        chip8.handle_instruction(0xFC33)
    );
    assert_eq!(0, chip8.memory[4094]);
}

#[test]
fn register_dump_past_memory_end_is_fatal() {
    let mut chip8 = Chip8::new();
    chip8.index_register = 4090;
    assert_eq!(
        Err(Chip8Error::MemoryOutOfBounds),
        chip8.handle_instruction(0xF655)
    );
    assert_eq!(0, chip8.memory[4090]);
}

#[test]
fn draw_sprite_composites_and_reports_no_collision_on_dark_screen() {
    let mut chip8 = Chip8::new();
    // The built-in sprite for 0 sits at address 0: F0 90 90 90 F0.
    chip8.index_register = 0;
    chip8.handle_instruction(0xD015).unwrap();

    // Top row 0xF0: the four leftmost cells lit, the next four dark.
    for x in 0..4 {
        assert!(pixel_on(&chip8, 0, x));
    }
    for x in 4..8 {
        assert!(!pixel_on(&chip8, 0, x));
    }
    // Second row 0x90: cells 0 and 3 lit.
    assert!(pixel_on(&chip8, 1, 0));
    assert!(!pixel_on(&chip8, 1, 1));
    assert!(!pixel_on(&chip8, 1, 2));
    assert!(pixel_on(&chip8, 1, 3));
    assert_eq!(0, chip8.registers[0x0F]);
    assert!(chip8.vram_changed);
}

#[test]
fn draw_twice_restores_screen_and_reports_collision() {
    let mut chip8 = Chip8::new();
    chip8.index_register = 0;
    chip8.handle_instruction(0xD015).unwrap();
    assert_eq!(0, chip8.registers[0x0F]);

    chip8.handle_instruction(0xD015).unwrap();
    for y in 0..32 {
        for x in 0..64 {
            assert!(!pixel_on(&chip8, y, x));
        }
    }
    assert_eq!(1, chip8.registers[0x0F]);
}

#[test]
fn draw_wraps_around_both_screen_edges() {
    let mut chip8 = Chip8::new();
    chip8.index_register = 0;
    chip8.registers[1] = 62;  // column start, wraps after two cells
    chip8.registers[2] = 31;  // row start, wraps after one row
    chip8.handle_instruction(0xD122).unwrap();

    // Row 31 gets sprite row 0xF0: columns 62, 63, 0, 1 lit.
    assert!(pixel_on(&chip8, 31, 62));
    assert!(pixel_on(&chip8, 31, 63));
    assert!(pixel_on(&chip8, 31, 0));
    assert!(pixel_on(&chip8, 31, 1));
    assert!(!pixel_on(&chip8, 31, 2));
    // Row 0 gets sprite row 0x90: columns 62 and 1 lit.
    assert!(pixel_on(&chip8, 0, 62));
    assert!(!pixel_on(&chip8, 0, 63));
    assert!(!pixel_on(&chip8, 0, 0));
    assert!(pixel_on(&chip8, 0, 1));
}

#[test]
fn draw_reading_past_memory_end_is_fatal() {
    let mut chip8 = Chip8::new();
    chip8.index_register = 4095;
    assert_eq!(
        Err(Chip8Error::MemoryOutOfBounds),
        chip8.handle_instruction(0xD012)
    );
    assert!(!chip8.vram_changed);
}

#[test]
fn skip_if_key_pressed_consults_keyboard() {
    let mut chip8 = Chip8::new();
    let mut keyboard = [false; 16];
    keyboard[3] = true;
    chip8.registers[5] = 3;
    chip8.program_counter = 0x200;
    chip8.memory[0x200] = 0xE5;
    chip8.memory[0x201] = 0x9E;
    chip8.handle_next_instruction(&keyboard).unwrap();
    assert_eq!(0x204, chip8.program_counter);

    let mut chip8 = Chip8::new();
    chip8.registers[5] = 4;
    chip8.memory[0x200] = 0xE5;
    chip8.memory[0x201] = 0x9E;
    chip8.handle_next_instruction(&keyboard).unwrap();
    assert_eq!(0x202, chip8.program_counter);
}

#[test]
fn skip_if_key_not_pressed_consults_keyboard() {
    let mut chip8 = Chip8::new();
    let mut keyboard = [false; 16];
    keyboard[3] = true;
    chip8.registers[5] = 3;
    chip8.memory[0x200] = 0xE5;
    chip8.memory[0x201] = 0xA1;
    chip8.handle_next_instruction(&keyboard).unwrap();
    assert_eq!(0x202, chip8.program_counter);

    let mut chip8 = Chip8::new();
    chip8.registers[5] = 4;
    chip8.memory[0x200] = 0xE5;
    chip8.memory[0x201] = 0xA1;
    chip8.handle_next_instruction(&keyboard).unwrap();
    assert_eq!(0x204, chip8.program_counter);
}

#[test]
fn key_skip_with_register_beyond_keys_is_fatal() {
    let mut chip8 = Chip8::new();
    chip8.registers[5] = 200;
    chip8.memory[0x200] = 0xE5;
    chip8.memory[0x201] = 0x9E;
    let keyboard = [false; 16];
    assert_eq!(
        Err(Chip8Error::KeyOutOfRange),
        chip8.handle_next_instruction(&keyboard)
    );
}

#[test]
fn await_key_stalls_until_a_key_arrives() {
    let mut chip8 = Chip8::new();
    chip8.memory[0x200] = 0xF5;
    chip8.memory[0x201] = 0x0A;
    let no_keys = [false; 16];

    chip8.handle_next_instruction(&no_keys).unwrap();
    assert_eq!(0x200, chip8.program_counter);
    assert!(chip8.awaiting_keypress);

    chip8.handle_next_instruction(&no_keys).unwrap();
    assert_eq!(0x200, chip8.program_counter);
    assert!(chip8.awaiting_keypress);

    let mut keyboard = [false; 16];
    keyboard[7] = true;
    keyboard[2] = true;
    chip8.handle_next_instruction(&keyboard).unwrap();
    assert_eq!(2, chip8.registers[5]);
    assert_eq!(0x202, chip8.program_counter);
    assert!(!chip8.awaiting_keypress);
}

#[test]
fn random_masks_with_nn() {
    let mut chip8 = Chip8::new();
    chip8.handle_instruction(0xC10F).unwrap();
    assert_eq!(0, chip8.registers[1] & 0xF0);

    chip8.handle_instruction(0xC200).unwrap();
    assert_eq!(0, chip8.registers[2]);
}

#[test]
fn dump_then_load_round_trip() {
    let mut chip8 = Chip8::new();
    chip8.registers[0] = 17;
    chip8.registers[1] = 99;
    chip8.registers[2] = 255;
    chip8.registers[3] = 0;
    chip8.index_register = 0x300;
    chip8.handle_instruction(0xF355).unwrap();
    chip8.handle_instruction(0xF365).unwrap();

    assert_eq!(17, chip8.registers[0]);
    assert_eq!(99, chip8.registers[1]);
    assert_eq!(255, chip8.registers[2]);
    assert_eq!(0, chip8.registers[3]);
    for j in 0..4 {
        assert_eq!(chip8.registers[j], chip8.memory[0x300 + j]);
    }
}

#[test]
fn load_program_places_image_at_program_start() {
    let mut chip8 = Chip8::new();
    let program = vec![0x60, 0x01, 0xA2, 0x32];
    chip8.load_program(&program).unwrap();
    assert_eq!(0x60, chip8.memory[0x200]);
    assert_eq!(0x01, chip8.memory[0x201]);
    assert_eq!(0xA2, chip8.memory[0x202]);
    assert_eq!(0x32, chip8.memory[0x203]);
    assert_eq!(0, chip8.memory[0x204]);
}

#[test]
fn load_program_accepts_empty_image() {
    let mut chip8 = Chip8::new();
    let program: Vec<u8> = Vec::new();
    chip8.load_program(&program).unwrap();
    assert_eq!(0, chip8.memory[0x200]);
    assert_eq!(0x200, chip8.program_counter);
}

#[test]
fn load_program_rejects_oversized_image() {
    let mut chip8 = Chip8::new();
    let program = vec![0xAB; 3585];
    assert_eq!(Err(Chip8Error::ProgramTooLarge), chip8.load_program(&program));
    assert_eq!(0, chip8.memory[0x200]);

    let exact = vec![0xAB; 3584];
    chip8.load_program(&exact).unwrap();
    assert_eq!(0xAB, chip8.memory[4095]);
}

#[test]
fn step_fetches_big_endian_word_at_program_counter() {
    let mut chip8 = Chip8::new();
    chip8.memory[0x200] = 0x61;
    chip8.memory[0x201] = 0x05;
    let keyboard = [false; 16];
    chip8.handle_next_instruction(&keyboard).unwrap();
    assert_eq!(5, chip8.registers[1]);
    assert_eq!(0x202, chip8.program_counter);
}

#[test]
fn step_with_program_counter_at_memory_end_is_fatal() {
    let mut chip8 = Chip8::new();
    chip8.program_counter = 4095;
    let keyboard = [false; 16];
    assert_eq!(
        Err(Chip8Error::MemoryOutOfBounds),
        chip8.handle_next_instruction(&keyboard)
    );
    assert_eq!(4095, chip8.program_counter);
}

#[test]
fn reset_restores_construction_state() {
    let mut chip8 = Chip8::new();
    chip8.registers[4] = 77;
    chip8.index_register = 0x321;
    chip8.program_counter = 0x400;
    chip8.delay_timer = 9;
    chip8.stack.push(0x222);
    chip8.handle_instruction(0x00E0).unwrap();

    chip8.reset();
    assert_eq!(0, chip8.registers[4]);
    assert_eq!(0, chip8.index_register);
    assert_eq!(0x200, chip8.program_counter);
    assert_eq!(0, chip8.delay_timer);
    assert!(chip8.stack.is_empty());
    assert!(!chip8.vram_changed);
    assert!(!chip8.awaiting_keypress);
    assert_eq!(0xF0, chip8.memory[0]);
}

#[test]
fn set_register_value_pokes_one_register() {
    let mut chip8 = Chip8::new();
    chip8.set_register_value(0x03, 32);
    chip8.set_register_value(0x05, 16);
    assert_eq!(32, chip8.registers[3]);
    assert_eq!(16, chip8.registers[5]);
    assert_eq!(0, chip8.registers[4]);
}

#[test]
fn initialize_pixels_accepts_matching_scales() {
    let mut chip8 = Chip8::new();
    chip8.initialize_pixels(640, 320).unwrap();
    assert_eq!(10, chip8.vram_scale);
    assert_eq!(32, chip8.vram.len());
    assert_eq!(64, chip8.vram[0].len());
    assert!(!chip8.vram[0][0].on);
    assert_eq!(10, chip8.vram[0][0].x_scale);
}

#[test]
fn initialize_pixels_rejects_mismatched_scales() {
    let mut chip8 = Chip8::new();
    let result = chip8.initialize_pixels(128, 32);
    assert_eq!(
        Err(String::from(
            "Window width scale and window height scale do not match. Width scale: 1, height scale: 2"
        )),
        result
    );
    assert_eq!(1, chip8.vram_scale);
}

#[test]
fn initialize_pixels_rejects_indivisible_width() {
    let mut chip8 = Chip8::new();
    let result = chip8.initialize_pixels(640, 321);
    assert_eq!(
        Err(String::from(
            "Window width is not evenly divisible by default width. Window width: 321, default width: 32"
        )),
        result
    );
}

#[test]
fn decode_combines_bytes_big_endian() {
    assert_eq!(0xABCD, Chip8::decode(0xAB, 0xCD));
    assert_eq!(0x00E0, Chip8::decode(0x00, 0xE0));
    assert_eq!(0xFFFF, Chip8::decode(0xFF, 0xFF));
}

#[test]
fn add_to_index_leaves_program_counter_alone() {
    let mut chip8 = Chip8::new();
    chip8.index_register = 0xFFFF;
    chip8.registers[0x0A] = 2;
    chip8.program_counter = 0x300;
    chip8.handle_instruction(0xFA1E).unwrap();
    assert_eq!(1, chip8.index_register);
    assert_eq!(0x300, chip8.program_counter);
}
