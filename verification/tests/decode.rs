use chip8::alu::{add_with_carry, decimal_digits, shift_left, shift_right, sub_with_flag};
use chip8::instruction::{decode, split, Instruction};

#[test]
fn split_gives_the_nibbles_high_first() {
    assert_eq!(split(0x1234), (1, 2, 3, 4));
    assert_eq!(split(0xABCD), (0xA, 0xB, 0xC, 0xD));
    assert_eq!(split(0x0000), (0, 0, 0, 0));
    assert_eq!(split(0xFFFF), (15, 15, 15, 15));
    assert_eq!(split(0x00E0), (0, 0, 0xE, 0));
}

#[test]
fn decode_names_every_instruction() {
    assert_eq!(decode(0x00E0), Some(Instruction::ClearScreen));
    assert_eq!(decode(0x00EE), Some(Instruction::Return));
    assert_eq!(decode(0x1ABC), Some(Instruction::Jump { addr: 0xABC }));
    assert_eq!(decode(0x2FFF), Some(Instruction::Call { addr: 0xFFF }));
    assert_eq!(decode(0x3A12), Some(Instruction::SkipIfEqual { x: 0xA, kk: 0x12 }));
    assert_eq!(decode(0x4B34), Some(Instruction::SkipIfNotEqual { x: 0xB, kk: 0x34 }));
    assert_eq!(decode(0x5120), Some(Instruction::SkipIfRegistersEqual { x: 1, y: 2 }));
    assert_eq!(decode(0x6005), Some(Instruction::LoadByte { x: 0, kk: 5 }));
    assert_eq!(decode(0x7003), Some(Instruction::AddByte { x: 0, kk: 3 }));
    assert_eq!(decode(0x8120), Some(Instruction::Move { x: 1, y: 2 }));
    assert_eq!(decode(0x8121), Some(Instruction::Or { x: 1, y: 2 }));
    assert_eq!(decode(0x8122), Some(Instruction::And { x: 1, y: 2 }));
    assert_eq!(decode(0x8123), Some(Instruction::Xor { x: 1, y: 2 }));
    assert_eq!(decode(0x8124), Some(Instruction::Add { x: 1, y: 2 }));
    assert_eq!(decode(0x8125), Some(Instruction::Sub { x: 1, y: 2 }));
    assert_eq!(decode(0x8126), Some(Instruction::ShiftRight { x: 1, y: 2 }));
    assert_eq!(decode(0x8127), Some(Instruction::SubFrom { x: 1, y: 2 }));
    assert_eq!(decode(0x812E), Some(Instruction::ShiftLeft { x: 1, y: 2 }));
    assert_eq!(decode(0x9120), Some(Instruction::SkipIfRegistersNotEqual { x: 1, y: 2 }));
    assert_eq!(decode(0xA123), Some(Instruction::LoadIndex { addr: 0x123 }));
    assert_eq!(decode(0xB123), Some(Instruction::JumpOffset { addr: 0x123 }));
    assert_eq!(decode(0xC1F0), Some(Instruction::Random { x: 1, kk: 0xF0 }));
    assert_eq!(decode(0xD125), Some(Instruction::Draw { x: 1, y: 2, n: 5 }));
    assert_eq!(decode(0xE19E), Some(Instruction::SkipIfKey { x: 1 }));
    assert_eq!(decode(0xE1A1), Some(Instruction::SkipIfNotKey { x: 1 }));
    assert_eq!(decode(0xF107), Some(Instruction::ReadDelay { x: 1 }));
    assert_eq!(decode(0xF10A), Some(Instruction::WaitKey { x: 1 }));
    assert_eq!(decode(0xF115), Some(Instruction::SetDelay { x: 1 }));
    assert_eq!(decode(0xF118), Some(Instruction::SetSound { x: 1 }));
    assert_eq!(decode(0xF11E), Some(Instruction::AddIndex { x: 1 }));
    assert_eq!(decode(0xF129), Some(Instruction::LoadGlyph { x: 1 }));
    assert_eq!(decode(0xF133), Some(Instruction::StoreDecimal { x: 1 }));
    assert_eq!(decode(0xF155), Some(Instruction::StoreRegisters { x: 1 }));
    assert_eq!(decode(0xFF65), Some(Instruction::LoadRegisters { x: 15 }));
}

#[test]
fn decode_refuses_words_outside_the_set() {
    for word in [
        0x0000u16, 0x00E1, 0x00EF, 0x01E0, 0x0FFF, 0x5001, 0x512F, 0x8008, 0x8129, 0x812A,
        0x812F, 0x9001, 0x912F, 0xE000, 0xE19F, 0xE1A0, 0xF000, 0xF108, 0xF154, 0xF166,
        0xFFFF,
    ] {
        assert_eq!(decode(word), None, "{:#06x}", word);
    }
}

#[test]
fn decode_accepts_exactly_the_listed_patterns() {
    let mut valid = 0u32;
    for word in 0..=0xFFFFu16 {
        if decode(word).is_some() {
            valid += 1;
        }
    }
    // 2 fixed words; ten families of 4096 words (1, 2, 3, 4, 6, 7, A, B, C,
    // D); 5xy0 and 9xy0 with 256 words each; nine 8xy_ forms with 256 words
    // each; two Ex__ and nine Fx__ forms with 16 words each.
    assert_eq!(valid, 2 + 10 * 4096 + 2 * 256 + 9 * 256 + 11 * 16);
}

#[test]
fn add_with_carry_wraps_at_256() {
    assert_eq!(add_with_carry(250, 10), (4, true));
    assert_eq!(add_with_carry(255, 1), (0, true));
    assert_eq!(add_with_carry(255, 255), (254, true));
    assert_eq!(add_with_carry(200, 55), (255, false));
    assert_eq!(add_with_carry(0, 0), (0, false));
}

#[test]
fn sub_with_flag_reports_no_borrow() {
    assert_eq!(sub_with_flag(10, 3), (7, true));
    assert_eq!(sub_with_flag(3, 10), (249, false));
    assert_eq!(sub_with_flag(5, 5), (0, true));
    assert_eq!(sub_with_flag(0, 1), (255, false));
    assert_eq!(sub_with_flag(0, 255), (1, false));
}

#[test]
fn shift_right_reports_the_low_bit() {
    assert_eq!(shift_right(0b0000_0101), (0b0000_0010, true));
    assert_eq!(shift_right(0b1000_0000), (0b0100_0000, false));
    assert_eq!(shift_right(0xFF), (0x7F, true));
    assert_eq!(shift_right(0), (0, false));
}

#[test]
fn shift_left_reports_the_high_bit() {
    assert_eq!(shift_left(0b1000_0001), (0b0000_0010, true));
    assert_eq!(shift_left(0b0100_0000), (0b1000_0000, false));
    assert_eq!(shift_left(0xFF), (0xFE, true));
    assert_eq!(shift_left(0), (0, false));
}

#[test]
fn decimal_digits_of_a_byte() {
    assert_eq!(decimal_digits(0), (0, 0, 0));
    assert_eq!(decimal_digits(7), (0, 0, 7));
    assert_eq!(decimal_digits(42), (0, 4, 2));
    assert_eq!(decimal_digits(156), (1, 5, 6));
    assert_eq!(decimal_digits(255), (2, 5, 5));
}
