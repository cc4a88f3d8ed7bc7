//! The machine as a mathematical value, and what one instruction makes of it.

use vstd::prelude::*;
use crate::display::{blank, collides, draw_spec};
use crate::error::Error;
use crate::instruction::{decode_spec, Instruction};
use crate::memory::{initial_memory, word_at, GLYPH_TABLE_SIZE, MEMORY_SIZE, PROGRAM_START};

verus! {

/// Return addresses the call stack can hold.
pub const STACK_DEPTH: usize = 16;

/// Everything the interpreter holds, as plain mathematical values.
pub struct State {
    /// The general registers `V0` to `VF`.
    pub v: Seq<u8>,
    /// The index register `I`.
    pub i: u16,
    /// The address of the next instruction.
    pub pc: u16,
    /// The stacked return addresses, innermost call last.
    pub stack: Seq<u16>,
    /// The delay timer.
    pub delay: u8,
    /// The sound timer.
    pub sound: u8,
    /// The 4096 memory cells.
    pub memory: Seq<u8>,
    /// The 2048 pixels, row by row.
    pub display: Seq<bool>,
    /// Which of the sixteen keys are down.
    pub keys: Seq<bool>,
    /// The register that waits for a key, while the machine is suspended.
    pub awaiting_key: Option<u8>,
}

/// `pc` moved on by `by` bytes, within sixteen bits.
pub open spec fn pc_after(pc: u16, by: int) -> u16 {
    ((pc + by) % 0x1_0000) as u16
}

/// 1 for `true`, 0 for `false`.
pub open spec fn flag(b: bool) -> u8 {
    if b {
        1
    } else {
        0
    }
}

impl State {
    /// The sizes are those of the machine, and a waiting register exists.
    pub open spec fn well_formed(self) -> bool {
        &&& self.v.len() == 16
        &&& self.stack.len() <= STACK_DEPTH
        &&& self.memory.len() == MEMORY_SIZE
        &&& self.display.len() == 2048
        &&& self.keys.len() == 16
        &&& (self.awaiting_key matches Some(x) ==> x < 16)
    }

    /// The program counter and every stacked return address are even, as
    /// instructions are two bytes long and the entry point is even.
    pub open spec fn aligned(self) -> bool {
        &&& self.pc % 2 == 0
        &&& forall|k: int| 0 <= k < self.stack.len() ==> self.stack[k] % 2 == 0
    }

    /// Whether `ins` sends execution to an odd address.
    pub open spec fn jumps_to_odd(self, ins: Instruction) -> bool {
        match ins {
            Instruction::Jump { addr } | Instruction::Call { addr } => addr % 2 == 1,
            Instruction::JumpOffset { addr } => (addr + self.v[0]) % 2 == 1,
            _ => false,
        }
    }

    /// The machine at power-on: glyphs in memory, everything else zero,
    /// ready to run from the entry point.
    pub open spec fn initial() -> State {
        State {
            v: Seq::new(16, |r: int| 0u8),
            i: 0,
            pc: PROGRAM_START,
            stack: Seq::empty(),
            delay: 0,
            sound: 0,
            memory: initial_memory(),
            display: blank(),
            keys: Seq::new(16, |k: int| false),
            awaiting_key: None,
        }
    }

    /// The machine after a reset: as at power-on, but memory and the
    /// keypad are kept.
    pub open spec fn reset(self) -> State {
        State { memory: self.memory, keys: self.keys, ..State::initial() }
    }

    /// Each timer that is not yet zero is one lower.
    pub open spec fn tick(self) -> State {
        State {
            delay: if self.delay > 0 { (self.delay - 1) as u8 } else { 0 },
            sound: if self.sound > 0 { (self.sound - 1) as u8 } else { 0 },
            ..self
        }
    }

    /// `n` timer ticks in a row.
    pub open spec fn ticks(self, n: nat) -> State
        decreases n,
    {
        if n == 0 {
            self
        } else {
            self.tick().ticks((n - 1) as nat)
        }
    }

    /// Key `key` is recorded as down or up. A key that the keypad does not
    /// have changes nothing.
    pub open spec fn with_key(self, key: u8, pressed: bool) -> State {
        if key < 16 {
            State { keys: self.keys.update(key as int, pressed), ..self }
        } else {
            self
        }
    }

    /// Whether key `key` exists and is down.
    pub open spec fn key_down(self, key: u8) -> bool {
        key < 16 && self.keys[key as int]
    }

    /// Whether a key press `key` ends a suspension: the machine waits and
    /// the keypad has that key.
    pub open spec fn accepts_key(self, key: u8) -> bool {
        self.awaiting_key is Some && key < 16
    }

    /// A key press ends a suspension: the waiting register takes the key
    /// and execution moves on. Without a suspension, or for a key that the
    /// keypad does not have, nothing changes.
    pub open spec fn deliver_key(self, key: u8) -> State {
        if self.accepts_key(key) {
            State {
                v: self.v.update(self.awaiting_key->0 as int, key),
                pc: pc_after(self.pc, 2),
                awaiting_key: None,
                ..self
            }
        } else {
            self
        }
    }

    /// The instruction word at `addr`: two cells, high byte first. There is
    /// none where the second cell lies beyond memory.
    pub open spec fn word_at(self, addr: u16) -> Result<u16, Error> {
        word_at(self.memory, addr)
    }

    /// Register `x` set to `value`.
    pub open spec fn set_v(self, x: u8, value: u8) -> State {
        State { v: self.v.update(x as int, value), ..self }
    }

    /// On to the next instruction.
    pub open spec fn advance(self) -> State {
        State { pc: pc_after(self.pc, 2), ..self }
    }

    /// On to the next instruction, or past it if `skip` holds.
    pub open spec fn advance_or_skip(self, skip: bool) -> State {
        State { pc: pc_after(self.pc, if skip { 4int } else { 2int }), ..self }
    }

    /// Register `x` takes `value`, then `VF` takes `carry`: where `x` is
    /// `VF` itself, the flag is what remains.
    pub open spec fn set_with_flag(self, x: u8, value: u8, carry: bool) -> State {
        self.set_v(x, value).set_v(0xF, flag(carry)).advance()
    }

    /// Whether a running program may store at `addr`: the cell exists and
    /// lies behind the glyph table.
    pub open spec fn storable(addr: int) -> bool {
        GLYPH_TABLE_SIZE <= addr < MEMORY_SIZE
    }
}

/// What instruction `ins` makes of machine `s`, where `random_byte` is the
/// byte that chance supplies to `Random`. An instruction that cannot be
/// carried out names its error.
pub open spec fn apply(s: State, ins: Instruction, random_byte: u8) -> Result<State, Error> {
    match ins {
        Instruction::ClearScreen => Ok(State { display: blank(), ..s }.advance()),
        Instruction::Return => if s.stack.len() == 0 {
            Err(Error::StackUnderflow)
        } else {
            Ok(State { pc: s.stack.last(), stack: s.stack.drop_last(), ..s })
        },
        Instruction::Jump { addr } => Ok(State { pc: addr, ..s }),
        Instruction::Call { addr } => if s.stack.len() >= STACK_DEPTH {
            Err(Error::StackOverflow)
        } else {
            Ok(State { pc: addr, stack: s.stack.push(pc_after(s.pc, 2)), ..s })
        },
        Instruction::SkipIfEqual { x, kk } => Ok(s.advance_or_skip(s.v[x as int] == kk)),
        Instruction::SkipIfNotEqual { x, kk } => Ok(s.advance_or_skip(s.v[x as int] != kk)),
        Instruction::SkipIfRegistersEqual { x, y } => Ok(
            s.advance_or_skip(s.v[x as int] == s.v[y as int]),
        ),
        Instruction::SkipIfRegistersNotEqual { x, y } => Ok(
            s.advance_or_skip(s.v[x as int] != s.v[y as int]),
        ),
        Instruction::LoadByte { x, kk } => Ok(s.set_v(x, kk).advance()),
        Instruction::AddByte { x, kk } => Ok(
            s.set_v(x, ((s.v[x as int] + kk) % 256) as u8).advance(),
        ),
        Instruction::Move { x, y } => Ok(s.set_v(x, s.v[y as int]).advance()),
        Instruction::Or { x, y } => Ok(s.set_v(x, s.v[x as int] | s.v[y as int]).advance()),
        Instruction::And { x, y } => Ok(s.set_v(x, s.v[x as int] & s.v[y as int]).advance()),
        Instruction::Xor { x, y } => Ok(s.set_v(x, s.v[x as int] ^ s.v[y as int]).advance()),
        Instruction::Add { x, y } => {
            let sum = s.v[x as int] + s.v[y as int];
            Ok(s.set_with_flag(x, (sum % 256) as u8, sum > 255))
        },
        Instruction::Sub { x, y } => {
            let difference = s.v[x as int] - s.v[y as int];
            Ok(s.set_with_flag(x, (difference % 256) as u8, s.v[x as int] >= s.v[y as int]))
        },
        Instruction::SubFrom { x, y } => {
            let difference = s.v[y as int] - s.v[x as int];
            Ok(s.set_with_flag(x, (difference % 256) as u8, s.v[y as int] >= s.v[x as int]))
        },
        Instruction::ShiftRight { x, y } => Ok(
            s.set_with_flag(x, s.v[x as int] / 2, s.v[x as int] % 2 == 1),
        ),
        Instruction::ShiftLeft { x, y } => Ok(
            s.set_with_flag(x, ((s.v[x as int] * 2) % 256) as u8, s.v[x as int] >= 128),
        ),
        Instruction::LoadIndex { addr } => Ok(State { i: addr, ..s }.advance()),
        Instruction::JumpOffset { addr } => Ok(State { pc: pc_after(addr, s.v[0] as int), ..s }),
        Instruction::Random { x, kk } => Ok(s.set_v(x, random_byte & kk).advance()),
        Instruction::Draw { x, y, n } => if n > 0 && s.i + n > MEMORY_SIZE {
            Err(Error::AddressOutOfRange)
        } else {
            let rows = Seq::new(n as nat, |r: int| s.memory[s.i + r]);
            let col = s.v[x as int] as int;
            let row = s.v[y as int] as int;
            Ok(
                State { display: draw_spec(s.display, col, row, rows), ..s }.set_v(
                    0xF,
                    flag(collides(s.display, col, row, rows)),
                ).advance(),
            )
        },
        Instruction::SkipIfKey { x } => Ok(s.advance_or_skip(s.key_down(s.v[x as int]))),
        Instruction::SkipIfNotKey { x } => Ok(s.advance_or_skip(!s.key_down(s.v[x as int]))),
        Instruction::ReadDelay { x } => Ok(s.set_v(x, s.delay).advance()),
        Instruction::WaitKey { x } => Ok(State { awaiting_key: Some(x), ..s }),
        Instruction::SetDelay { x } => Ok(State { delay: s.v[x as int], ..s }.advance()),
        Instruction::SetSound { x } => Ok(State { sound: s.v[x as int], ..s }.advance()),
        Instruction::AddIndex { x } => Ok(
            State { i: ((s.i + s.v[x as int]) % 0x1_0000) as u16, ..s }.advance(),
        ),
        Instruction::LoadGlyph { x } => Ok(
            State { i: (5 * (s.v[x as int] % 16)) as u16, ..s }.advance(),
        ),
        Instruction::StoreDecimal { x } => if State::storable(s.i as int) && State::storable(
            s.i + 2,
        ) {
            let value = s.v[x as int];
            Ok(
                State {
                    memory: s.memory.update(s.i as int, value / 100).update(
                        s.i + 1,
                        (value / 10) % 10,
                    ).update(s.i + 2, value % 10),
                    ..s
                }.advance(),
            )
        } else {
            Err(Error::AddressOutOfRange)
        },
        Instruction::StoreRegisters { x } => if State::storable(s.i as int) && State::storable(
            s.i + x,
        ) {
            Ok(
                State {
                    memory: Seq::new(
                        s.memory.len(),
                        |a: int| if s.i <= a <= s.i + x { s.v[a - s.i] } else { s.memory[a] },
                    ),
                    ..s
                }.advance(),
            )
        } else {
            Err(Error::AddressOutOfRange)
        },
        Instruction::LoadRegisters { x } => if s.i + x < MEMORY_SIZE {
            Ok(
                State {
                    v: Seq::new(
                        s.v.len(),
                        |r: int| if r <= x { s.memory[s.i + r] } else { s.v[r] },
                    ),
                    ..s
                }.advance(),
            )
        } else {
            Err(Error::AddressOutOfRange)
        },
    }
}

/// What the instruction word `word` makes of machine `s`. A word that
/// encodes no instruction is `InvalidOpcode`. While the machine waits for a
/// key, an instruction is not carried out and changes nothing.
pub open spec fn step(s: State, word: u16, random_byte: u8) -> Result<State, Error> {
    match decode_spec(word) {
        None => Err(Error::InvalidOpcode),
        Some(ins) => if s.awaiting_key is Some {
            Ok(s)
        } else {
            apply(s, ins, random_byte)
        },
    }
}

} // verus!
