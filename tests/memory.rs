use chip8::error::Fault;
use chip8::memory_bus::{MemoryBus, FONT_START, MEMORY_SIZE, ROM_START};

#[test]
fn font_glyph_addresses() {
    assert_eq!(MemoryBus::font_sprite_address(0x0), Ok(0x050));
    assert_eq!(MemoryBus::font_sprite_address(0x1), Ok(0x055));
    assert_eq!(MemoryBus::font_sprite_address(0xF), Ok(0x09B));
    assert_eq!(MemoryBus::font_sprite_address(0x10), Err(Fault::InvalidDigit));
    assert_eq!(MemoryBus::font_sprite_address(0xFF), Err(Fault::InvalidDigit));
}

#[test]
fn new_memory_holds_font() {
    let mem = MemoryBus::new();
    // glyph for 0, then the first row of 1
    assert_eq!(mem.read_words(FONT_START, 6), Ok(&[0xF0u8, 0x90, 0x90, 0x90, 0xF0, 0x20][..]));
    // last byte of the glyph for F
    assert_eq!(mem.read_word(0x09F), Ok(0x80));
    assert_eq!(mem.read_word(0x0A0), Ok(0x00));
    assert_eq!(mem.read_word(0x000), Ok(0x00));
    assert_eq!(mem.read_word(ROM_START), Ok(0x00));
}

#[test]
fn byte_access_bounds() {
    let mut mem = MemoryBus::new();
    assert_eq!(mem.write_word(4095, 0xAB), Ok(()));
    assert_eq!(mem.read_word(4095), Ok(0xAB));
    assert_eq!(mem.write_word(4096, 0xAB), Err(Fault::OutOfBounds));
    assert_eq!(mem.read_word(4096), Err(Fault::OutOfBounds));
    assert_eq!(mem.read_word(usize::MAX), Err(Fault::OutOfBounds));
}

#[test]
fn block_access_bounds() {
    let mut mem = MemoryBus::new();
    assert_eq!(mem.write_words(4093, &[1, 2, 3]), Ok(()));
    assert_eq!(mem.read_words(4093, 3), Ok(&[1u8, 2, 3][..]));
    assert_eq!(mem.write_words(4094, &[7, 8, 9]), Err(Fault::OutOfBounds));
    // nothing was written by the refused block
    assert_eq!(mem.read_words(4093, 3), Ok(&[1u8, 2, 3][..]));
    assert_eq!(mem.read_words(4094, 3), Err(Fault::OutOfBounds));
    assert_eq!(mem.read_words(usize::MAX, 2), Err(Fault::OutOfBounds));
    assert_eq!(mem.read_words(MEMORY_SIZE, 0), Ok(&[][..]));
}

#[test]
fn instruction_fetch_is_big_endian() {
    let mut mem = MemoryBus::new();
    mem.load_rom(&[0x12, 0x34, 0xAB, 0xCD]).unwrap();
    assert_eq!(mem.read_instruction(ROM_START), Ok(0x1234));
    assert_eq!(mem.read_instruction(ROM_START + 2), Ok(0xABCD));
}

#[test]
fn sentinel_on_last_byte_is_not_out_of_bounds() {
    let mut mem = MemoryBus::new();
    mem.write_word(4095, 0x0A).unwrap();
    assert_eq!(mem.read_instruction(4095), Ok(0x0A00));
    mem.write_word(4095, 0x12).unwrap();
    assert_eq!(mem.read_instruction(4095), Err(Fault::OutOfBounds));
    assert_eq!(mem.read_instruction(4096), Err(Fault::OutOfBounds));
}

#[test]
fn sentinel_skips_low_byte() {
    let mut mem = MemoryBus::new();
    mem.load_rom(&[0x0A, 0xFF]).unwrap();
    assert_eq!(mem.read_instruction(ROM_START), Ok(0x0A00));
}

#[test]
fn load_rom_limits() {
    let mut mem = MemoryBus::new();
    let largest = vec![0x11u8; MEMORY_SIZE - ROM_START];
    assert_eq!(mem.load_rom(&largest), Ok(()));
    assert_eq!(mem.read_word(4095), Ok(0x11));
    let mut mem = MemoryBus::new();
    let too_large = vec![0x11u8; MEMORY_SIZE - ROM_START + 1];
    assert_eq!(mem.load_rom(&too_large), Err(Fault::ProgramTooLarge));
    assert_eq!(mem.read_word(ROM_START), Ok(0x00));
}
