//! The instruction set: one 16-bit word, read as four nibbles, names one of
//! thirty-five operations and its operands.

use vstd::prelude::*;

verus! {

/// A decoded instruction. `x` and `y` are register numbers, `kk` an
/// immediate byte, `addr` a 12-bit address and `n` a sprite height.
#[derive(Clone, Copy, Debug, PartialEq, Eq, Structural)]
pub enum Instruction {
    /// `00E0`: unlight every pixel.
    ClearScreen,
    /// `00EE`: return to the address on top of the call stack.
    Return,
    /// `1nnn`: continue at `addr`.
    Jump { addr: u16 },
    /// `2nnn`: stack the return address and continue at `addr`.
    Call { addr: u16 },
    /// `3xkk`: skip the next instruction if `Vx == kk`.
    SkipIfEqual { x: u8, kk: u8 },
    /// `4xkk`: skip the next instruction if `Vx != kk`.
    SkipIfNotEqual { x: u8, kk: u8 },
    /// `5xy0`: skip the next instruction if `Vx == Vy`.
    SkipIfRegistersEqual { x: u8, y: u8 },
    /// `6xkk`: `Vx = kk`.
    LoadByte { x: u8, kk: u8 },
    /// `7xkk`: `Vx = Vx + kk` modulo 256, no flag.
    AddByte { x: u8, kk: u8 },
    /// `8xy0`: `Vx = Vy`.
    Move { x: u8, y: u8 },
    /// `8xy1`: `Vx = Vx | Vy`.
    Or { x: u8, y: u8 },
    /// `8xy2`: `Vx = Vx & Vy`.
    And { x: u8, y: u8 },
    /// `8xy3`: `Vx = Vx ^ Vy`.
    Xor { x: u8, y: u8 },
    /// `8xy4`: `Vx = Vx + Vy` modulo 256, `VF` = carry.
    Add { x: u8, y: u8 },
    /// `8xy5`: `Vx = Vx - Vy` modulo 256, `VF` = 1 unless it borrowed.
    Sub { x: u8, y: u8 },
    /// `8xy6`: `Vx` shifted right by one, `VF` = the bit shifted out.
    ShiftRight { x: u8, y: u8 },
    /// `8xy7`: `Vx = Vy - Vx` modulo 256, `VF` = 1 unless it borrowed.
    SubFrom { x: u8, y: u8 },
    /// `8xyE`: `Vx` shifted left by one, `VF` = the bit shifted out.
    ShiftLeft { x: u8, y: u8 },
    /// `9xy0`: skip the next instruction if `Vx != Vy`.
    SkipIfRegistersNotEqual { x: u8, y: u8 },
    /// `Annn`: `I = addr`.
    LoadIndex { addr: u16 },
    /// `Bnnn`: continue at `addr + V0`.
    JumpOffset { addr: u16 },
    /// `Cxkk`: `Vx` = a random byte masked by `kk`.
    Random { x: u8, kk: u8 },
    /// `Dxyn`: draw the `n`-row sprite at `I` at column `Vx`, row `Vy`.
    Draw { x: u8, y: u8, n: u8 },
    /// `Ex9E`: skip the next instruction if key `Vx` is down.
    SkipIfKey { x: u8 },
    /// `ExA1`: skip the next instruction if key `Vx` is not down.
    SkipIfNotKey { x: u8 },
    /// `Fx07`: `Vx` = delay timer.
    ReadDelay { x: u8 },
    /// `Fx0A`: suspend until a key is delivered, then `Vx` = that key.
    WaitKey { x: u8 },
    /// `Fx15`: delay timer = `Vx`.
    SetDelay { x: u8 },
    /// `Fx18`: sound timer = `Vx`.
    SetSound { x: u8 },
    /// `Fx1E`: `I = I + Vx`, no flag.
    AddIndex { x: u8 },
    /// `Fx29`: `I` = address of the glyph for the digit in `Vx`.
    LoadGlyph { x: u8 },
    /// `Fx33`: store the three decimal digits of `Vx` at `I`, `I+1`, `I+2`.
    StoreDecimal { x: u8 },
    /// `Fx55`: store `V0` to `Vx` at `I` onwards.
    StoreRegisters { x: u8 },
    /// `Fx65`: load `V0` to `Vx` from `I` onwards.
    LoadRegisters { x: u8 },
}

/// The four nibbles of `word`, most significant first.
pub open spec fn nibbles(word: u16) -> (int, int, int, int) {
    (word as int / 4096, (word as int / 256) % 16, (word as int / 16) % 16, word as int % 16)
}

/// What `word` means, or `None` if it matches no pattern of the set.
pub open spec fn decode_spec(word: u16) -> Option<Instruction> {
    let (op, n2, n3, n4) = nibbles(word);
    let x = n2 as u8;
    let y = n3 as u8;
    let n = n4 as u8;
    let kk = (word as int % 256) as u8;
    let addr = (word as int % 4096) as u16;
    if word == 0x00E0 {
        Some(Instruction::ClearScreen)
    } else if word == 0x00EE {
        Some(Instruction::Return)
    } else if op == 0x1 {
        Some(Instruction::Jump { addr })
    } else if op == 0x2 {
        Some(Instruction::Call { addr })
    } else if op == 0x3 {
        Some(Instruction::SkipIfEqual { x, kk })
    } else if op == 0x4 {
        Some(Instruction::SkipIfNotEqual { x, kk })
    } else if op == 0x5 && n4 == 0x0 {
        Some(Instruction::SkipIfRegistersEqual { x, y })
    } else if op == 0x6 {
        Some(Instruction::LoadByte { x, kk })
    } else if op == 0x7 {
        Some(Instruction::AddByte { x, kk })
    } else if op == 0x8 && n4 == 0x0 {
        Some(Instruction::Move { x, y })
    } else if op == 0x8 && n4 == 0x1 {
        Some(Instruction::Or { x, y })
    } else if op == 0x8 && n4 == 0x2 {
        Some(Instruction::And { x, y })
    } else if op == 0x8 && n4 == 0x3 {
        Some(Instruction::Xor { x, y })
    } else if op == 0x8 && n4 == 0x4 {
        Some(Instruction::Add { x, y })
    } else if op == 0x8 && n4 == 0x5 {
        Some(Instruction::Sub { x, y })
    } else if op == 0x8 && n4 == 0x6 {
        Some(Instruction::ShiftRight { x, y })
    } else if op == 0x8 && n4 == 0x7 {
        Some(Instruction::SubFrom { x, y })
    } else if op == 0x8 && n4 == 0xE {
        Some(Instruction::ShiftLeft { x, y })
    } else if op == 0x9 && n4 == 0x0 {
        Some(Instruction::SkipIfRegistersNotEqual { x, y })
    } else if op == 0xA {
        Some(Instruction::LoadIndex { addr })
    } else if op == 0xB {
        Some(Instruction::JumpOffset { addr })
    } else if op == 0xC {
        Some(Instruction::Random { x, kk })
    } else if op == 0xD {
        Some(Instruction::Draw { x, y, n })
    } else if op == 0xE && kk == 0x9E {
        Some(Instruction::SkipIfKey { x })
    } else if op == 0xE && kk == 0xA1 {
        Some(Instruction::SkipIfNotKey { x })
    } else if op == 0xF && kk == 0x07 {
        Some(Instruction::ReadDelay { x })
    } else if op == 0xF && kk == 0x0A {
        Some(Instruction::WaitKey { x })
    } else if op == 0xF && kk == 0x15 {
        Some(Instruction::SetDelay { x })
    } else if op == 0xF && kk == 0x18 {
        Some(Instruction::SetSound { x })
    } else if op == 0xF && kk == 0x1E {
        Some(Instruction::AddIndex { x })
    } else if op == 0xF && kk == 0x29 {
        Some(Instruction::LoadGlyph { x })
    } else if op == 0xF && kk == 0x33 {
        Some(Instruction::StoreDecimal { x })
    } else if op == 0xF && kk == 0x55 {
        Some(Instruction::StoreRegisters { x })
    } else if op == 0xF && kk == 0x65 {
        Some(Instruction::LoadRegisters { x })
    } else {
        None
    }
}

impl Instruction {
    /// Every operand is within its width: register numbers and sprite
    /// heights below 16, addresses below 4096.
    pub open spec fn well_formed(self) -> bool {
        match self {
            Instruction::ClearScreen | Instruction::Return => true,
            Instruction::Jump { addr }
            | Instruction::Call { addr }
            | Instruction::LoadIndex { addr }
            | Instruction::JumpOffset { addr } => addr < 4096,
            Instruction::SkipIfEqual { x, .. }
            | Instruction::SkipIfNotEqual { x, .. }
            | Instruction::LoadByte { x, .. }
            | Instruction::AddByte { x, .. }
            | Instruction::Random { x, .. }
            | Instruction::SkipIfKey { x }
            | Instruction::SkipIfNotKey { x }
            | Instruction::ReadDelay { x }
            | Instruction::WaitKey { x }
            | Instruction::SetDelay { x }
            | Instruction::SetSound { x }
            | Instruction::AddIndex { x }
            | Instruction::LoadGlyph { x }
            | Instruction::StoreDecimal { x }
            | Instruction::StoreRegisters { x }
            | Instruction::LoadRegisters { x } => x < 16,
            Instruction::SkipIfRegistersEqual { x, y }
            | Instruction::Move { x, y }
            | Instruction::Or { x, y }
            | Instruction::And { x, y }
            | Instruction::Xor { x, y }
            | Instruction::Add { x, y }
            | Instruction::Sub { x, y }
            | Instruction::ShiftRight { x, y }
            | Instruction::SubFrom { x, y }
            | Instruction::ShiftLeft { x, y }
            | Instruction::SkipIfRegistersNotEqual { x, y } => x < 16 && y < 16,
            Instruction::Draw { x, y, n } => x < 16 && y < 16 && n < 16,
        }
    }
}

/// Whatever a word decodes to has all its operands within their widths.
pub proof fn lemma_decoded_well_formed(word: u16)
    ensures
        decode_spec(word) matches Some(ins) ==> ins.well_formed(),
{
}

/// The four nibbles of `word`, most significant first.
pub fn split(word: u16) -> (r: (u8, u8, u8, u8))
    ensures
        (r.0 as int, r.1 as int, r.2 as int, r.3 as int) == nibbles(word),
{
    assert(word >> 12 == word / 4096) by (bit_vector);
    assert((word >> 8) & 0xF == (word / 256) % 16) by (bit_vector);
    assert((word >> 4) & 0xF == (word / 16) % 16) by (bit_vector);
    assert(word & 0xF == word % 16) by (bit_vector);
    ((word >> 12) as u8, ((word >> 8) & 0xF) as u8, ((word >> 4) & 0xF) as u8, (word & 0xF) as u8)
}

/// Splits `word` into nibbles and names the instruction it encodes, or
/// returns `None` if it encodes none.
pub fn decode(word: u16) -> (r: Option<Instruction>)
    ensures
        r == decode_spec(word),
        r matches Some(ins) ==> ins.well_formed(),
{
    let (op, x, y, n) = split(word);
    let kk: u8 = (word & 0xFF) as u8;
    let addr: u16 = word & 0xFFF;
    assert(word & 0xFF == word % 256) by (bit_vector);
    assert(word & 0xFFF == word % 4096) by (bit_vector);
    match (op, x, y, n) {
        (0x0, 0x0, 0xE, 0x0) => Some(Instruction::ClearScreen),
        (0x0, 0x0, 0xE, 0xE) => Some(Instruction::Return),
        (0x1, _, _, _) => Some(Instruction::Jump { addr }),
        (0x2, _, _, _) => Some(Instruction::Call { addr }),
        (0x3, _, _, _) => Some(Instruction::SkipIfEqual { x, kk }),
        (0x4, _, _, _) => Some(Instruction::SkipIfNotEqual { x, kk }),
        (0x5, _, _, 0x0) => Some(Instruction::SkipIfRegistersEqual { x, y }),
        (0x6, _, _, _) => Some(Instruction::LoadByte { x, kk }),
        (0x7, _, _, _) => Some(Instruction::AddByte { x, kk }),
        (0x8, _, _, 0x0) => Some(Instruction::Move { x, y }),
        (0x8, _, _, 0x1) => Some(Instruction::Or { x, y }),
        (0x8, _, _, 0x2) => Some(Instruction::And { x, y }),
        (0x8, _, _, 0x3) => Some(Instruction::Xor { x, y }),
        (0x8, _, _, 0x4) => Some(Instruction::Add { x, y }),
        (0x8, _, _, 0x5) => Some(Instruction::Sub { x, y }),
        (0x8, _, _, 0x6) => Some(Instruction::ShiftRight { x, y }),
        (0x8, _, _, 0x7) => Some(Instruction::SubFrom { x, y }),
        (0x8, _, _, 0xE) => Some(Instruction::ShiftLeft { x, y }),
        (0x9, _, _, 0x0) => Some(Instruction::SkipIfRegistersNotEqual { x, y }),
        (0xA, _, _, _) => Some(Instruction::LoadIndex { addr }),
        (0xB, _, _, _) => Some(Instruction::JumpOffset { addr }),
        (0xC, _, _, _) => Some(Instruction::Random { x, kk }),
        (0xD, _, _, _) => Some(Instruction::Draw { x, y, n }),
        (0xE, _, 0x9, 0xE) => Some(Instruction::SkipIfKey { x }),
        (0xE, _, 0xA, 0x1) => Some(Instruction::SkipIfNotKey { x }),
        (0xF, _, 0x0, 0x7) => Some(Instruction::ReadDelay { x }),
        (0xF, _, 0x0, 0xA) => Some(Instruction::WaitKey { x }),
        (0xF, _, 0x1, 0x5) => Some(Instruction::SetDelay { x }),
        (0xF, _, 0x1, 0x8) => Some(Instruction::SetSound { x }),
        (0xF, _, 0x1, 0xE) => Some(Instruction::AddIndex { x }),
        (0xF, _, 0x2, 0x9) => Some(Instruction::LoadGlyph { x }),
        (0xF, _, 0x3, 0x3) => Some(Instruction::StoreDecimal { x }),
        (0xF, _, 0x5, 0x5) => Some(Instruction::StoreRegisters { x }),
        (0xF, _, 0x6, 0x5) => Some(Instruction::LoadRegisters { x }),
        _ => None,
    }
}

} // verus!
