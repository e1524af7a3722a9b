use chip8::cartridge::Cartridge;
use chip8::font::FONT_SET;
use chip8::processor::{LoadError, Processor};

#[test]
fn new_starts_at_program_origin() {
    let p = Processor::new();
    assert_eq!(p.pc, 0x200);
    assert_eq!(p.sp, 0);
    assert_eq!(p.i, 0);
    assert_eq!(p.delay_timer, 0);
    assert_eq!(p.sound_timer, 0);
    assert!(!p.keypresswait);
    assert!(!p.vram_changed);
    assert_eq!(p.registers, [0u8; 16]);
    assert_eq!(p.stack, [0usize; 48]);
    assert_eq!(p.keypad, [false; 16]);
}

#[test]
fn new_has_a_dark_screen() {
    let p = Processor::new();
    for row in p.vram.iter() {
        for pixel in row.iter() {
            assert_eq!(*pixel, 0);
        }
    }
}

#[test]
fn new_loads_the_font_below_the_program() {
    let p = Processor::new();
    for a in 0..80 {
        assert_eq!(p.memory[a], FONT_SET[a]);
    }
    for a in 80..4096 {
        assert_eq!(p.memory[a], 0);
    }
}

#[test]
fn font_glyphs_lie_five_bytes_apart() {
    let p = Processor::new();
    assert_eq!(&p.memory[0..5], &[0xF0, 0x90, 0x90, 0x90, 0xF0]);
    assert_eq!(&p.memory[5..10], &[0x20, 0x60, 0x20, 0x20, 0x70]);
    assert_eq!(&p.memory[5 * 0xA..5 * 0xA + 5], &[0xF0, 0x90, 0xF0, 0x90, 0x90]);
    assert_eq!(&p.memory[5 * 0xF..5 * 0xF + 5], &[0xF0, 0x80, 0xF0, 0x80, 0x80]);
}

#[test]
fn load_program_copies_bytes_to_0x200() {
    let mut p = Processor::new();
    let result = p.load_program(vec![0x12, 0x34, 0x56]);
    assert_eq!(result, Ok(()));
    assert_eq!(p.memory[0x1FF], 0);
    assert_eq!(p.memory[0x200], 0x12);
    assert_eq!(p.memory[0x201], 0x34);
    assert_eq!(p.memory[0x202], 0x56);
    assert_eq!(p.memory[0x203], 0);
    assert_eq!(p.pc, 0x200);
}

#[test]
fn load_program_keeps_the_font() {
    let mut p = Processor::new();
    assert_eq!(p.load_program(vec![0xFF; 100]), Ok(()));
    for a in 0..80 {
        assert_eq!(p.memory[a], FONT_SET[a]);
    }
}

#[test]
fn load_program_accepts_an_empty_program() {
    let mut p = Processor::new();
    assert_eq!(p.load_program(Vec::new()), Ok(()));
    for a in 0x200..4096 {
        assert_eq!(p.memory[a], 0);
    }
}

#[test]
fn load_program_accepts_a_program_that_fills_memory() {
    let mut p = Processor::new();
    let mut bytes = vec![0xAB; 3584];
    bytes[3583] = 0xCD;
    assert_eq!(p.load_program(bytes), Ok(()));
    assert_eq!(p.memory[0x200], 0xAB);
    assert_eq!(p.memory[4094], 0xAB);
    assert_eq!(p.memory[4095], 0xCD);
}

#[test]
fn load_program_rejects_a_program_that_is_one_byte_too_long() {
    let mut p = Processor::new();
    let result = p.load_program(vec![0xAB; 3585]);
    assert_eq!(result, Err(LoadError::ProgramTooLarge));
    for a in 0x200..4096 {
        assert_eq!(p.memory[a], 0);
    }
    for a in 0..80 {
        assert_eq!(p.memory[a], FONT_SET[a]);
    }
}

#[test]
fn cartridge_holds_the_bytes_and_their_count() {
    let c = Cartridge::from_bytes(vec![1, 2, 3, 4]);
    assert_eq!(c.rom, vec![1, 2, 3, 4]);
    assert_eq!(c.bytes_read, 4);
}

#[test]
fn cartridge_of_nothing_is_empty() {
    let c = Cartridge::from_bytes(Vec::new());
    assert!(c.rom.is_empty());
    assert_eq!(c.bytes_read, 0);
}
