use chip8::machine::CHIP8;
use chip8::memory::{get_character_sprite, load_font_into_memory, load_program_into_memory};

const FONT: [u8; 80] = [
    0xF0, 0x90, 0x90, 0x90, 0xF0, 0x20, 0x60, 0x20, 0x20, 0x70, 0xF0, 0x10, 0xF0, 0x80, 0xF0, 0xF0,
    0x10, 0xF0, 0x10, 0xF0, 0x90, 0x90, 0xF0, 0x10, 0x10, 0xF0, 0x80, 0xF0, 0x10, 0xF0, 0xF0, 0x80,
    0xF0, 0x90, 0xF0, 0xF0, 0x10, 0x20, 0x40, 0x40, 0xF0, 0x90, 0xF0, 0x90, 0xF0, 0xF0, 0x90, 0xF0,
    0x10, 0xF0, 0xF0, 0x90, 0xF0, 0x90, 0x90, 0xE0, 0x90, 0xE0, 0x90, 0xE0, 0xF0, 0x80, 0x80, 0x80,
    0xF0, 0xE0, 0x90, 0x90, 0x90, 0xE0, 0xF0, 0x80, 0xF0, 0x80, 0xF0, 0xF0, 0x80, 0xF0, 0x80, 0x80,
];

#[test]
fn a_new_machine_starts_at_the_program() {
    let emu = CHIP8::new(vec![0xAA, 0xBB, 0xCC]);
    assert_eq!(emu.pc, 512);
    assert_eq!(emu.index_reg, 0);
    assert_eq!(emu.registers, [0u8; 16]);
    assert!(emu.stack.is_empty());
    assert_eq!(emu.delay_timer, 0);
    assert_eq!(emu.sound_timer, 0);
    assert!(!emu.paused);
    assert!(!emu.key_pressed);
    assert_eq!(emu.last_key, None);
    assert!(emu.super_chip);
    assert!(emu.frame_buffer.export().iter().all(|lit| !lit));
}

#[test]
fn memory_holds_font_padding_and_program() {
    let emu = CHIP8::new(vec![0xAA, 0xBB, 0xCC]);
    assert_eq!(&emu.memory[0..80], &FONT[..]);
    assert!(emu.memory[80..512].iter().all(|byte| *byte == 0));
    assert_eq!(&emu.memory[512..515], &[0xAA, 0xBB, 0xCC]);
    assert!(emu.memory[515..].iter().all(|byte| *byte == 0));
}

#[test]
fn the_longest_program_fills_memory_to_its_end() {
    let program: Vec<u8> = (0..3584u32).map(|i| (i % 251) as u8 + 1).collect();
    let emu = CHIP8::new(program.clone());
    assert_eq!(&emu.memory[512..], &program[..]);
    assert_eq!(&emu.memory[0..80], &FONT[..]);
}

#[test]
fn with_dialect_sets_the_dialect() {
    assert!(CHIP8::with_dialect(vec![], true).super_chip);
    assert!(!CHIP8::with_dialect(vec![], false).super_chip);
}

#[test]
fn load_font_writes_eighty_bytes_only() {
    let mut memory = [0x55u8; 4096];
    load_font_into_memory(&mut memory);
    assert_eq!(&memory[0..80], &FONT[..]);
    assert!(memory[80..].iter().all(|byte| *byte == 0x55));
}

#[test]
fn load_program_writes_from_address_512() {
    let mut memory = [0x55u8; 4096];
    load_program_into_memory(&mut memory, vec![1, 2, 3, 4]);
    assert!(memory[..512].iter().all(|byte| *byte == 0x55));
    assert_eq!(&memory[512..516], &[1, 2, 3, 4]);
    assert!(memory[516..].iter().all(|byte| *byte == 0x55));
    load_program_into_memory(&mut memory, vec![]);
    assert_eq!(&memory[512..516], &[1, 2, 3, 4]);
}

#[test]
fn character_sprites() {
    assert_eq!(get_character_sprite('0'), [0xF0, 0x90, 0x90, 0x90, 0xF0]);
    assert_eq!(get_character_sprite('7'), [0xF0, 0x10, 0x20, 0x40, 0x40]);
    assert_eq!(get_character_sprite('F'), [0xF0, 0x80, 0xF0, 0x80, 0x80]);
    assert_eq!(get_character_sprite('f'), [0, 0, 0, 0, 0]);
    assert_eq!(get_character_sprite('G'), [0, 0, 0, 0, 0]);
}

#[test]
fn reset_loads_a_new_program_and_zeroes_the_registers() {
    let mut emu = CHIP8::with_dialect(vec![0xAA, 0xBB, 0xCC, 0xDD], false);
    emu.registers[3] = 9;
    emu.index_reg = 0x123;
    emu.pc = 0x400;
    emu.push(0x200);
    emu.delay_timer = 5;
    emu.sound_timer = 6;
    emu.memory[100] = 1;
    emu.memory[0] = 0;
    emu.frame_buffer.set(0, 0, 0x80);
    emu.set_key(3);
    emu.pause();

    emu.reset(vec![0x11, 0x22]);

    assert_eq!(emu.registers, [0u8; 16]);
    assert_eq!(emu.index_reg, 0);
    assert_eq!(emu.pc, 512);
    assert!(emu.stack.is_empty());
    assert_eq!(emu.delay_timer, 0);
    assert_eq!(emu.sound_timer, 0);
    assert_eq!(&emu.memory[0..80], &FONT[..]);
    assert!(emu.memory[80..512].iter().all(|byte| *byte == 0));
    assert_eq!(&emu.memory[512..516], &[0x11, 0x22, 0x00, 0x00]);
    assert!(emu.frame_buffer.get(0, 0));
    assert!(emu.key_pressed);
    assert_eq!(emu.last_key, Some(3));
    assert!(emu.paused);
    assert!(!emu.super_chip);
}

#[test]
fn registers_are_read_and_written_by_index() {
    let mut emu = CHIP8::new(vec![]);
    emu.set_register(0, 1);
    emu.set_register(15, 200);
    assert_eq!(emu.register(0), 1);
    assert_eq!(emu.register(15), 200);
    assert_eq!(emu.register(7), 0);
}

#[test]
fn set_key_latches_the_key() {
    let mut emu = CHIP8::new(vec![]);
    emu.set_key(15);
    assert!(emu.key_pressed);
    assert_eq!(emu.last_key, Some(15));
    emu.clear_key();
    assert!(!emu.key_pressed);
    assert_eq!(emu.last_key, Some(15));
}
