use chip8::Chip8;

#[test]
fn chip8_initialization() {
    let chip8 = Chip8::new();
    let empty_vec: Vec<u16> = Vec::new();

    assert_eq!(4096, chip8.memory.len());
    assert_eq!(16, chip8.registers.len());
    assert_eq!(empty_vec, chip8.stack);
    assert_eq!(0x200, chip8.program_counter);
    assert_eq!(0x200, chip8.program_counter);
    assert_eq!(0, chip8.delay_timer);
    assert_eq!(0, chip8.sound_timer);
}

#[test]
fn load_sprites_into_memory_test() {
    let chip8 = Chip8::new();
    let non_empty_memory_values = chip8.memory.iter().filter(|val| **val != 0).count();

    assert_eq!(80, non_empty_memory_values);
}

#[test]
fn opcode_6xnn_test() {
    let instruction = 0x638F;
    let mut chip8 = Chip8::new();

    chip8.handle_instruction(instruction).unwrap();
    assert_eq!(0x8F, chip8.registers[3]);

    let instruction = 0x6E0A;
    chip8.handle_instruction(instruction).unwrap();
    assert_eq!(0x0A, chip8.registers[0x0E]);
}

#[test]
fn opcode_7xnn_test() {
    let instruction = 0x7843;
    let mut chip8 = Chip8::new();
    chip8.registers[8] = 10;
    let expected_result = 0x43 + 10;

    chip8.handle_instruction(instruction).unwrap();
    assert_eq!(expected_result, chip8.registers[8]);
}

#[test]
fn opcode_8xy0_test() {
    let instruction = 0x8B30;
    let mut chip8 = Chip8::new();
    chip8.registers[0x0B] = 23;
    chip8.registers[3] = 89;

    chip8.handle_instruction(instruction).unwrap();
    assert_eq!(89, chip8.registers[0x0B]);
}

#[test]
fn opcode_8xy1_test() {
    let instruction = 0x85D1;
    let mut chip8 = Chip8::new();
    chip8.registers[0x05] = 0x32;
    chip8.registers[0x0D] = 0xA0;

    chip8.handle_instruction(instruction).unwrap();
    assert_eq!(0xB2, chip8.registers[0x05]);
}

#[test]
fn opcode_8xy2_test() {
    let instruction = 0x8E02;
    let mut chip8 = Chip8::new();
    chip8.registers[0x0E] = 0x78;
    chip8.registers[0x00] = 0x1F;

    chip8.handle_instruction(instruction).unwrap();
    assert_eq!(0x18, chip8.registers[0x0E]);
}

#[test]
fn opcode_8xy3_test() {
    let instruction = 0x80B3;
    let mut chip8 = Chip8::new();
    chip8.registers[0x00] = 0x9E;
    chip8.registers[0x0B] = 0x54;

    chip8.handle_instruction(instruction).unwrap();
    assert_eq!(0xCA, chip8.registers[0x00]);
}

#[test]
fn opcode_8xy4_no_overflow_test() {
    let instruction = 0x85C4;
    let mut chip8 = Chip8::new();
    chip8.registers[0x05] = 90;
    chip8.registers[0x0C] = 56;

    chip8.handle_instruction(instruction).unwrap();
    assert_eq!(146, chip8.registers[0x05]);
    assert_eq!(0, chip8.registers[0x0F]);
}

#[test]
fn opcode_8xy4_overflow_test() {
    let instruction = 0x85C4;
    let mut chip8 = Chip8::new();
    chip8.registers[0x05] = 160;
    chip8.registers[0x0C] = 160;

    chip8.handle_instruction(instruction).unwrap();
    assert_eq!(64, chip8.registers[0x05]);
    assert_eq!(1, chip8.registers[0x0F]);
}

#[test]
fn opcode_8xy5_no_underflow_test() {
    let instruction = 0x85C5;
    let mut chip8 = Chip8::new();
    chip8.registers[0x05] = 56;
    chip8.registers[0x0C] = 19;

    chip8.handle_instruction(instruction).unwrap();
    assert_eq!(37, chip8.registers[0x05]);
    assert_eq!(1, chip8.registers[0x0F]);
}

#[test]
fn opcode_8xy5_underflow_test() {
    let instruction = 0x85C5;
    let mut chip8 = Chip8::new();
    chip8.registers[0x05] = 56;
    chip8.registers[0x0C] = 70;

    chip8.handle_instruction(instruction).unwrap();
    assert_eq!(242, chip8.registers[0x05]);
    assert_eq!(0, chip8.registers[0x0F]);
}

#[test]
fn opcode_8xy6_test() {
    let instruction = 0x85C6;
    let mut chip8 = Chip8::new();
    chip8.registers[0x05] = 0b0110_0110;

    chip8.handle_instruction(instruction).unwrap();
    assert_eq!(51, chip8.registers[0x05]);
    assert_eq!(0, chip8.registers[0x0F]);

    chip8.registers[0x05] = 0b1101_0111;
    chip8.handle_instruction(instruction).unwrap();
    assert_eq!(107, chip8.registers[0x05]);
    assert_eq!(1, chip8.registers[0x0F]);
}

#[test]
fn opcode_8xy7_no_underflow_test() {
    let instruction = 0x85C7;
    let mut chip8 = Chip8::new();
    chip8.registers[0x05] = 56;
    chip8.registers[0x0C] = 100;

    chip8.handle_instruction(instruction).unwrap();
    assert_eq!(44, chip8.registers[0x05]);
    assert_eq!(1, chip8.registers[0x0F]);
}

#[test]
fn opcode_8xy7_underflow_test() {
    let instruction = 0x85C7;
    let mut chip8 = Chip8::new();
    chip8.registers[0x05] = 60;
    chip8.registers[0x0C] = 5;

    chip8.handle_instruction(instruction).unwrap();
    assert_eq!(201, chip8.registers[0x05]);
    assert_eq!(0, chip8.registers[0x0F]);
}

#[test]
fn opcode_8xye_test() {
    let instruction = 0x85CE;
    let mut chip8 = Chip8::new();
    chip8.registers[0x05] = 0b1101_0110;

    chip8.handle_instruction(instruction).unwrap();
    assert_eq!(172, chip8.registers[0x05]);
    assert_eq!(1, chip8.registers[0x0F]);

    chip8.registers[0x05] = 0b0101_0101;
    chip8.handle_instruction(instruction).unwrap();
    assert_eq!(170, chip8.registers[0x05]);
    assert_eq!(0, chip8.registers[0x0F]);
}

#[test]
fn opcode_annn_test() {
    let instruction = 0xA232;
    let mut chip8 = Chip8::new();

    chip8.handle_instruction(instruction).unwrap();
    assert_eq!(0x232, chip8.index_register);
}

#[test]
fn opcode_bnnn_test() {
    let instruction = 0xBA09;
    let mut chip8 = Chip8::new();

    chip8.registers[0x00] = 0x45;
    chip8.handle_instruction(instruction).unwrap();
    assert_eq!(0xA4E, chip8.program_counter);
}

#[test]
fn opcode_fx07_test() {
    let instruction = 0xF407;
    let mut chip8 = Chip8::new();

    chip8.delay_timer = 0x70;
    chip8.handle_instruction(instruction).unwrap();
    assert_eq!(0x70, chip8.registers[0x04]);
}

#[test]
fn opcode_fx15_test() {
    let instruction = 0x0F915;
    let mut chip8 = Chip8::new();

    chip8.registers[0x09] = 0x78;
    chip8.handle_instruction(instruction).unwrap();
    assert_eq!(0x78, chip8.delay_timer);
}

#[test]
fn opcode_fx1e_test() {
    let instruction = 0xFA1E;
    let mut chip8 = Chip8::new();

    chip8.index_register = 0x30;
    chip8.registers[0x0A] = 0x50;

    chip8.handle_instruction(instruction).unwrap();
    assert_eq!(0x80, chip8.index_register);
}

#[test]
fn opcode_fx33_test() {
    let instruction = 0xFC33;
    let mut chip8 = Chip8::new();
    chip8.index_register = 0x0350;
    chip8.registers[0x0C] = 129;

    let index_val = chip8.index_register as usize;
    chip8.handle_instruction(instruction).unwrap();
    assert_eq!(1, chip8.memory[index_val]);
    assert_eq!(2, chip8.memory[index_val + 1]);
    assert_eq!(9, chip8.memory[index_val + 2]);

    chip8.index_register = 0x0450;
    chip8.registers[0x0C] = 65;

    let index_val = chip8.index_register as usize;
    chip8.handle_instruction(instruction).unwrap();
    assert_eq!(0, chip8.memory[index_val]);
    assert_eq!(6, chip8.memory[index_val + 1]);
    assert_eq!(5, chip8.memory[index_val + 2]);
}

#[test]
fn opcode_fx55_test() {
    let instruction = 0xF455;
    let mut chip8 = Chip8::new();

    chip8.registers[0x00] = 31;
    chip8.registers[0x01] = 243;
    chip8.registers[0x02] = 56;
    chip8.registers[0x03] = 0;
    chip8.registers[0x04] = 167;

    chip8.index_register = 0x923;
    chip8.handle_instruction(instruction).unwrap();
    let ip = chip8.index_register as usize;

    assert_eq!(31, chip8.memory[ip]);
    assert_eq!(243, chip8.memory[ip + 1]);
    assert_eq!(56, chip8.memory[ip + 2]);
    assert_eq!(0, chip8.memory[ip + 3]);
    assert_eq!(167, chip8.memory[ip + 4]);
    assert_eq!(0, chip8.memory[ip + 5]);
}

#[test]
fn opcode_fx65_test() {
    let instruction = 0xF565;
    let mut chip8 = Chip8::new();
    chip8.index_register = 0x543;
    let ip = chip8.index_register as usize;

    chip8.memory[ip] = 0x1E;
    chip8.memory[ip + 1] = 0x45;
    chip8.memory[ip + 2] = 0xAA;
    chip8.memory[ip + 3] = 0x7E;
    chip8.memory[ip + 4] = 0xEF;

    chip8.handle_instruction(instruction).unwrap();
    assert_eq!(0x1E, chip8.registers[0x00]);
    assert_eq!(0x45, chip8.registers[0x01]);
    assert_eq!(0xAA, chip8.registers[0x02]);
    assert_eq!(0x7E, chip8.registers[0x03]);
    assert_eq!(0xEF, chip8.registers[0x04]);
    assert_eq!(0x00, chip8.registers[0x05]);
}

#[test]
fn opcode_fx29_test() {
    let instruction = 0xF429;
    let mut chip8 = Chip8::new();
    chip8.registers[0x04] = 0x04;
    chip8.handle_instruction(instruction).unwrap();
    assert_eq!(20, chip8.index_register);

    let instruction = 0xFE29;
    chip8.registers[0x0E] = 0x0A;
    chip8.handle_instruction(instruction).unwrap();
    assert_eq!(50, chip8.index_register);
}

#[test]
fn opcode_3xnn_no_skip_test() {
    let instruction = 0x3B35;
    let mut chip8 = Chip8::new();
    chip8.registers[0x0B] = 0x21;
    chip8.program_counter = 46;
    chip8.handle_instruction(instruction).unwrap();
    assert_eq!(48, chip8.program_counter);
}

#[test]
fn opcode_3xnn_skip_test() {
    let instruction = 0x3B35;
    let mut chip8 = Chip8::new();
    chip8.registers[0x0B] = 0x35;
    chip8.program_counter = 46;
    chip8.handle_instruction(instruction).unwrap();
    assert_eq!(50, chip8.program_counter);
}

#[test]
fn opcode_4xnn_skip_test() {
    let instruction = 0x4B35;
    let mut chip8 = Chip8::new();
    chip8.registers[0x0B] = 0x21;
    chip8.program_counter = 46;
    chip8.handle_instruction(instruction).unwrap();
    assert_eq!(50, chip8.program_counter);
}

#[test]
fn opcode_4xnn_no_skip_test() {
    let instruction = 0x4B35;
    let mut chip8 = Chip8::new();
    chip8.registers[0x0B] = 0x35;
    chip8.program_counter = 46;
    chip8.handle_instruction(instruction).unwrap();
    assert_eq!(48, chip8.program_counter);
}

#[test]
fn opcode_5xy0_no_skip_test() {
    let instruction = 0x5B30;
    let mut chip8 = Chip8::new();
    chip8.registers[0x0B] = 0x35;
    chip8.registers[0x03] = 0x89;
    chip8.program_counter = 46;
    chip8.handle_instruction(instruction).unwrap();
    assert_eq!(48, chip8.program_counter);
}

#[test]
fn opcode_5xy0_skip_test() {
    let instruction = 0x5B30;
    let mut chip8 = Chip8::new();
    chip8.registers[0x0B] = 0x35;
    chip8.registers[0x03] = 0x35;
    chip8.program_counter = 46;
    chip8.handle_instruction(instruction).unwrap();
    assert_eq!(50, chip8.program_counter);
}

#[test]
fn opcode_9xy0_no_skip_test() {
    let instruction = 0x9B30;
    let mut chip8 = Chip8::new();
    chip8.registers[0x0B] = 0x35;
    chip8.registers[0x03] = 0x35;
    chip8.program_counter = 46;
    chip8.handle_instruction(instruction).unwrap();
    assert_eq!(48, chip8.program_counter);
}

#[test]
fn opcode_9xy0_skip_test() {
    let instruction = 0x9B30;
    let mut chip8 = Chip8::new();
    chip8.registers[0x0B] = 0x35;
    chip8.registers[0x03] = 0x89;
    chip8.program_counter = 46;
    chip8.handle_instruction(instruction).unwrap();
    assert_eq!(50, chip8.program_counter);
}
