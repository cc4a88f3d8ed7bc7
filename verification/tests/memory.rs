use chip8::error::Error;
use chip8::memory::{Memory, MAX_PROGRAM_SIZE, MEMORY_SIZE, PROGRAM_START};

#[test]
fn new_memory_holds_the_glyphs_then_zeros() {
    let m = Memory::new();
    // digit 0
    assert_eq!(m.read(0), Ok(0xF0));
    assert_eq!(m.read(1), Ok(0x90));
    assert_eq!(m.read(4), Ok(0xF0));
    // digit 1
    assert_eq!(m.read(5), Ok(0x20));
    assert_eq!(m.read(6), Ok(0x60));
    assert_eq!(m.read(9), Ok(0x70));
    // digit F
    assert_eq!(m.read(75), Ok(0xF0));
    assert_eq!(m.read(76), Ok(0x80));
    assert_eq!(m.read(79), Ok(0x80));
    for a in 80..4096u16 {
        assert_eq!(m.read(a), Ok(0));
    }
}

#[test]
fn read_beyond_the_last_cell_fails() {
    let m = Memory::new();
    assert_eq!(m.read(0x0FFF), Ok(0));
    assert_eq!(m.read(0x1000), Err(Error::AddressOutOfRange));
    assert_eq!(m.read(0xFFFF), Err(Error::AddressOutOfRange));
}

#[test]
fn write_then_read_gives_the_value_back() {
    let mut m = Memory::new();
    assert_eq!(m.write(0x0300, 0xAB), Ok(()));
    assert_eq!(m.read(0x0300), Ok(0xAB));
    assert_eq!(m.read(0x02FF), Ok(0));
    assert_eq!(m.read(0x0301), Ok(0));
    assert_eq!(m.write(0x0FFF, 0x01), Ok(()));
    assert_eq!(m.read(0x0FFF), Ok(0x01));
}

#[test]
fn write_beyond_the_last_cell_fails_and_changes_nothing() {
    let mut m = Memory::new();
    assert_eq!(m.write(0x1000, 0xAB), Err(Error::AddressOutOfRange));
    assert_eq!(m.write(0xFFFF, 0xAB), Err(Error::AddressOutOfRange));
    let fresh = Memory::new();
    for a in 0..4096u16 {
        assert_eq!(m.read(a), fresh.read(a));
    }
}

#[test]
fn write_may_overwrite_a_glyph() {
    let mut m = Memory::new();
    assert_eq!(m.write(0x0000, 0x11), Ok(()));
    assert_eq!(m.read(0x0000), Ok(0x11));
}

#[test]
fn load_program_places_the_image_at_the_entry_point() {
    let mut m = Memory::new();
    assert_eq!(m.load_program(&vec![0x60, 0x05, 0x70, 0x03]), Ok(()));
    assert_eq!(m.read(PROGRAM_START), Ok(0x60));
    assert_eq!(m.read(0x201), Ok(0x05));
    assert_eq!(m.read(0x202), Ok(0x70));
    assert_eq!(m.read(0x203), Ok(0x03));
    assert_eq!(m.read(0x204), Ok(0));
    assert_eq!(m.read(0x1FF), Ok(0));
    assert_eq!(m.read(0), Ok(0xF0));
}

#[test]
fn load_program_of_exactly_the_room_succeeds() {
    let mut m = Memory::new();
    let image = vec![0x5A; 0xE00];
    assert_eq!(image.len(), MAX_PROGRAM_SIZE);
    assert_eq!(m.load_program(&image), Ok(()));
    assert_eq!(m.read(0x200), Ok(0x5A));
    assert_eq!(m.read(0xFFF), Ok(0x5A));
    assert_eq!(m.read(0x1FF), Ok(0));
}

#[test]
fn load_program_one_byte_too_long_fails() {
    let mut m = Memory::new();
    let image = vec![0x5A; 0xE01];
    assert_eq!(m.load_program(&image), Err(Error::ProgramTooLarge));
    let fresh = Memory::new();
    for a in 0..4096u16 {
        assert_eq!(m.read(a), fresh.read(a));
    }
}

#[test]
fn load_program_of_nothing_changes_nothing() {
    let mut m = Memory::new();
    assert_eq!(m.load_program(&Vec::new()), Ok(()));
    assert_eq!(m.read(0x200), Ok(0));
}

#[test]
fn read_word_is_big_endian() {
    let mut m = Memory::new();
    assert_eq!(m.load_program(&vec![0x12, 0x34]), Ok(()));
    assert_eq!(m.read_word(0x200), Ok(0x1234));
    assert_eq!(m.read_word(0x201), Ok(0x3400));
    assert_eq!(m.read_word(0x000), Ok(0xF090));
}

#[test]
fn read_word_needs_both_bytes() {
    let m = Memory::new();
    assert_eq!(m.read_word(0x0FFE), Ok(0));
    assert_eq!(m.read_word(0x0FFF), Err(Error::AddressOutOfRange));
    assert_eq!(m.read_word(0x1000), Err(Error::AddressOutOfRange));
    assert_eq!(m.read_word(0xFFFF), Err(Error::AddressOutOfRange));
}

#[test]
fn span_gives_the_cells_in_order() {
    let m = Memory::new();
    assert_eq!(m.span(0, 5).unwrap(), &[0xF0, 0x90, 0x90, 0x90, 0xF0]);
    assert_eq!(m.span(5, 5).unwrap(), &[0x20, 0x60, 0x20, 0x20, 0x70]);
    assert_eq!(m.span(0x0FFF, 1).unwrap(), &[0]);
    assert_eq!(m.span(0x1000, 0).unwrap().len(), 0);
    assert_eq!(m.span(0, MEMORY_SIZE).unwrap().len(), 4096);
}

#[test]
fn span_beyond_the_last_cell_fails() {
    let m = Memory::new();
    assert_eq!(m.span(0x0FFF, 2), Err(Error::AddressOutOfRange));
    assert_eq!(m.span(0x1001, 0), Err(Error::AddressOutOfRange));
    assert_eq!(m.span(0, 4097), Err(Error::AddressOutOfRange));
    assert_eq!(m.span(0xFFFF, usize::MAX), Err(Error::AddressOutOfRange));
}
