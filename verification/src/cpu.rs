//! The interpreter: registers, call stack, timers, keypad, memory and
//! display, driven one instruction at a time.

use vstd::prelude::*;
use crate::alu::{add_with_carry, decimal_digits, shift_left, shift_right, sub_with_flag};
use crate::display::{draw_spec, Display};
use crate::error::Error;
use crate::instruction::{decode, decode_spec, Instruction};
use crate::memory::{
    load_program_spec, Memory, GLYPH_SIZE, GLYPH_TABLE_SIZE, MEMORY_SIZE, PROGRAM_START,
};
use crate::state::{apply, step, State};

verus! {

/// Whether running `word` on machine `before`, with `random_byte` supplied
/// by chance, ends in `result` and machine `after`: a success yields the
/// next state, a failure reports its error and leaves the machine as it
/// was.
pub open spec fn step_outcome(
    before: State,
    word: u16,
    random_byte: u8,
    result: Result<(), Error>,
    after: State,
) -> bool {
    match step(before, word, random_byte) {
        Ok(next) => result == Ok::<(), Error>(()) && after == next,
        Err(e) => result == Err::<(), Error>(e) && after == before,
    }
}

/// Whether `word` encodes the one instruction that draws on chance.
pub open spec fn is_random(word: u16) -> bool {
    decode_spec(word) matches Some(Instruction::Random { .. })
}

/// A byte from `rand`'s thread-local generator (`rand::thread_rng`, read
/// through `rand::Rng::gen`). Nothing is claimed of it: any byte may come
/// back, and two calls may differ. The generator seeds itself from the
/// operating system on first use and panics if that source fails.
#[verifier::external_body]
fn random_byte() -> (byte: u8) {
    rand::Rng::gen::<u8>(&mut rand::thread_rng())
}

/// One CHIP-8 machine. It does nothing by itself: a driving loop fetches and
/// runs instructions at its own pace, ticks the timers sixty times a second
/// and reports the keys.
pub struct Cpu {
    v: [u8; 16],
    i: u16,
    pc: u16,
    sp: u8,
    stack: [u16; 16],
    delay: u8,
    sound: u8,
    ram: Memory,
    display: Display,
    keys: [bool; 16],
    awaiting_key: Option<u8>,
}

impl View for Cpu {
    type V = State;

    closed spec fn view(&self) -> State {
        State {
            v: self.v@,
            i: self.i,
            pc: self.pc,
            stack: self.stack@.take(self.sp as int),
            delay: self.delay,
            sound: self.sound,
            memory: self.ram@,
            display: self.display@,
            keys: self.keys@,
            awaiting_key: self.awaiting_key,
        }
    }
}

impl Cpu {
    /// What every machine built and driven through this interface
    /// satisfies: the call stack is at most sixteen deep, and a register
    /// that waits for a key exists.
    pub closed spec fn well_formed(&self) -> bool {
        &&& self.sp <= 16
        &&& (self.awaiting_key matches Some(x) ==> x < 16)
    }

    /// The model of a well-formed machine is well-formed.
    pub proof fn lemma_view_well_formed(&self)
        requires
            self.well_formed(),
        ensures
            self@.well_formed(),
    {
        self.ram.lemma_size();
        self.display.lemma_size();
    }

    /// A machine at power-on.
    pub fn new() -> (cpu: Cpu)
        ensures
            cpu.well_formed(),
            cpu@ == State::initial(),
    {
        let cpu = Cpu {
            v: [0u8; 16],
            i: 0,
            pc: PROGRAM_START,
            sp: 0,
            stack: [0u16; 16],
            delay: 0,
            sound: 0,
            ram: Memory::new(),
            display: Display::new(),
            keys: [false; 16],
            awaiting_key: None,
        };
        assert(cpu@.v =~= State::initial().v);
        assert(cpu@.stack =~= State::initial().stack);
        assert(cpu@.keys =~= State::initial().keys);
        cpu
    }

    /// Zeroes the registers, the timers and the call stack, clears the
    /// display, ends a suspension and points the program counter at the
    /// entry point. Memory and the keypad are kept.
    pub fn reset(&mut self)
        ensures
            final(self).well_formed(),
            final(self)@ == old(self)@.reset(),
    {
        self.v = [0u8; 16];
        self.i = 0;
        self.pc = PROGRAM_START;
        self.sp = 0;
        self.stack = [0u16; 16];
        self.delay = 0;
        self.sound = 0;
        self.display.clear();
        self.awaiting_key = None;
        assert(self@.v =~= old(self)@.reset().v);
        assert(self@.stack =~= old(self)@.reset().stack);
    }

    /// The byte at `address`, or `AddressOutOfRange` beyond the last cell.
    pub fn read(&self, address: u16) -> (r: Result<u8, Error>)
        ensures
            address < MEMORY_SIZE ==> r == Ok::<u8, Error>(self@.memory[address as int]),
            address >= MEMORY_SIZE ==> r == Err::<u8, Error>(Error::AddressOutOfRange),
    {
        self.ram.read(address)
    }

    /// Stores `value` at `address`, or fails with `AddressOutOfRange` beyond
    /// the last cell and changes nothing. This is the loader's and the
    /// debugger's door into memory: unlike a running program it may write
    /// any cell, the glyph table included.
    pub fn write(&mut self, address: u16, value: u8) -> (r: Result<(), Error>)
        requires
            old(self).well_formed(),
        ensures
            final(self).well_formed(),
            address < MEMORY_SIZE ==> r == Ok::<(), Error>(()) && final(self)@ == (State {
                memory: old(self)@.memory.update(address as int, value),
                ..old(self)@
            }),
            address >= MEMORY_SIZE ==> r == Err::<(), Error>(Error::AddressOutOfRange)
                && final(self)@ == old(self)@,
    {
        self.ram.write(address, value)
    }

    /// Places the program image `data` at the entry point. An image longer
    /// than the room behind the entry point is refused with
    /// `ProgramTooLarge` and nothing is written.
    pub fn load_rom(&mut self, data: &Vec<u8>) -> (r: Result<(), Error>)
        requires
            old(self).well_formed(),
        ensures
            final(self).well_formed(),
            match load_program_spec(old(self)@.memory, data@) {
                Ok(cells) => r == Ok::<(), Error>(()) && final(self)@ == (State {
                    memory: cells,
                    ..old(self)@
                }),
                Err(e) => r == Err::<(), Error>(e) && final(self)@ == old(self)@,
            },
    {
        self.ram.load_program(data)
    }

    /// The instruction word at `addr`: the byte there is its high half, the
    /// next byte its low half. Fails with `AddressOutOfRange` if either
    /// byte lies beyond memory.
    pub fn load_instruction(&self, addr: u16) -> (r: Result<u16, Error>)
        ensures
            r == self@.word_at(addr),
    {
        self.ram.read_word(addr)
    }

    /// The instruction word at the program counter, which stays where it
    /// is: moving on is part of running the instruction.
    pub fn fetch_instruction(&self) -> (r: Result<u16, Error>)
        ensures
            r == self@.word_at(self@.pc),
    {
        self.load_instruction(self.pc)
    }

    /// Decrements each timer that is not yet zero.
    pub fn tick_timers(&mut self)
        requires
            old(self).well_formed(),
        ensures
            final(self).well_formed(),
            final(self)@ == old(self)@.tick(),
    {
        if self.delay > 0 {
            self.delay -= 1;
        }
        if self.sound > 0 {
            self.sound -= 1;
        }
    }

    /// Records that key `key` went down or up. Returns whether the keypad
    /// has such a key; if not, nothing changes.
    pub fn set_key(&mut self, key: u8, pressed: bool) -> (known: bool)
        requires
            old(self).well_formed(),
        ensures
            final(self).well_formed(),
            known == (key < 16),
            final(self)@ == old(self)@.with_key(key, pressed),
    {
        if key < 16 {
            self.keys[key as usize] = pressed;
            true
        } else {
            false
        }
    }

    /// Hands a key press to a machine that waits for one: the waiting
    /// register takes `key`, the suspension ends and execution moves on to
    /// the next instruction. Returns whether the press was taken; it is not
    /// if the machine does not wait or the keypad has no such key, and then
    /// nothing changes.
    pub fn deliver_key(&mut self, key: u8) -> (taken: bool)
        requires
            old(self).well_formed(),
        ensures
            final(self).well_formed(),
            taken == old(self)@.accepts_key(key),
            final(self)@ == old(self)@.deliver_key(key),
    {
        match self.awaiting_key {
            Some(x) => {
                if key < 16 {
                    self.v[x as usize] = key;
                    self.pc = self.pc.wrapping_add(2);
                    self.awaiting_key = None;
                    true
                } else {
                    false
                }
            },
            None => false,
        }
    }

    /// The sixteen general registers, `V0` first.
    pub fn registers(&self) -> (v: [u8; 16])
        ensures
            v@ == self@.v,
    {
        self.v
    }

    /// The index register.
    pub fn index(&self) -> (i: u16)
        ensures
            i == self@.i,
    {
        self.i
    }

    /// The program counter.
    pub fn pc(&self) -> (pc: u16)
        ensures
            pc == self@.pc,
    {
        self.pc
    }

    /// How many return addresses are stacked.
    pub fn stack_depth(&self) -> (depth: u8)
        requires
            self.well_formed(),
        ensures
            depth == self@.stack.len(),
    {
        self.sp
    }

    /// The delay timer.
    pub fn delay(&self) -> (delay: u8)
        ensures
            delay == self@.delay,
    {
        self.delay
    }

    /// The sound timer. A tone sounds while it is not zero.
    pub fn sound(&self) -> (sound: u8)
        ensures
            sound == self@.sound,
    {
        self.sound
    }

    /// The register that waits for a key, while the machine is suspended.
    pub fn awaiting_key(&self) -> (x: Option<u8>)
        ensures
            x == self@.awaiting_key,
    {
        self.awaiting_key
    }

    /// Whether the pixel at column `col`, row `row` is lit. Coordinates
    /// beyond an edge wrap round to the other.
    pub fn pixel(&self, col: u8, row: u8) -> (lit: bool)
        ensures
            lit == self@.display[crate::display::pixel_index(col as int, row as int)],
    {
        self.display.pixel(col, row)
    }
}

impl Cpu {
    /// Moves on to the next instruction.
    fn advance(&mut self)
        requires
            old(self).well_formed(),
        ensures
            final(self).well_formed(),
            final(self)@ == old(self)@.advance(),
    {
        self.pc = self.pc.wrapping_add(2);
    }

    /// Moves on to the next instruction, or past it if `skip` holds.
    fn advance_or_skip(&mut self, skip: bool)
        requires
            old(self).well_formed(),
        ensures
            final(self).well_formed(),
            final(self)@ == old(self)@.advance_or_skip(skip),
    {
        self.pc = self.pc.wrapping_add(if skip { 4 } else { 2 });
    }

    /// Sets register `x` and moves on.
    fn set_v(&mut self, x: u8, value: u8)
        requires
            old(self).well_formed(),
            x < 16,
        ensures
            final(self).well_formed(),
            final(self)@ == old(self)@.set_v(x, value).advance(),
    {
        self.v[x as usize] = value;
        self.pc = self.pc.wrapping_add(2);
    }

    /// Sets register `x`, then the flag register, and moves on.
    fn set_with_flag(&mut self, x: u8, value: u8, carry: bool)
        requires
            old(self).well_formed(),
            x < 16,
        ensures
            final(self).well_formed(),
            final(self)@ == old(self)@.set_with_flag(x, value, carry),
    {
        self.v[x as usize] = value;
        self.v[0xF] = if carry { 1 } else { 0 };
        self.pc = self.pc.wrapping_add(2);
    }

    /// `00EE`.
    fn ret(&mut self) -> (r: Result<(), Error>)
        requires
            old(self).well_formed(),
        ensures
            final(self).well_formed(),
            match apply(old(self)@, Instruction::Return, 0) {
                Ok(next) => r == Ok::<(), Error>(()) && final(self)@ == next,
                Err(e) => r == Err::<(), Error>(e) && final(self)@ == old(self)@,
            },
    {
        if self.sp == 0 {
            return Err(Error::StackUnderflow);
        }
        self.sp -= 1;
        self.pc = self.stack[self.sp as usize];
        assert(self@.stack =~= old(self)@.stack.drop_last());
        Ok(())
    }

    /// `2nnn`.
    fn call(&mut self, addr: u16) -> (r: Result<(), Error>)
        requires
            old(self).well_formed(),
        ensures
            final(self).well_formed(),
            match apply(old(self)@, Instruction::Call { addr }, 0) {
                Ok(next) => r == Ok::<(), Error>(()) && final(self)@ == next,
                Err(e) => r == Err::<(), Error>(e) && final(self)@ == old(self)@,
            },
    {
        if self.sp >= 16 {
            return Err(Error::StackOverflow);
        }
        self.stack[self.sp as usize] = self.pc.wrapping_add(2);
        self.sp += 1;
        self.pc = addr;
        assert(self@.stack =~= old(self)@.stack.push(old(self)@.advance().pc));
        Ok(())
    }

    /// `Dxyn`.
    fn draw(&mut self, x: u8, y: u8, n: u8) -> (r: Result<(), Error>)
        requires
            old(self).well_formed(),
            x < 16,
            y < 16,
            n < 16,
        ensures
            final(self).well_formed(),
            match apply(old(self)@, Instruction::Draw { x, y, n }, 0) {
                Ok(next) => r == Ok::<(), Error>(()) && final(self)@ == next,
                Err(e) => r == Err::<(), Error>(e) && final(self)@ == old(self)@,
            },
    {
        let col = self.v[x as usize];
        let row = self.v[y as usize];
        let ghost sprite = Seq::new(n as nat, |r: int| self@.memory[self.i + r]);
        proof {
            self.ram.lemma_size();
        }
        let hit = if n == 0 {
            assert(draw_spec(self.display@, col as int, row as int, sprite) =~= self.display@);
            false
        } else {
            match self.ram.span(self.i, n as usize) {
                Ok(rows) => {
                    assert(rows@ =~= sprite);
                    self.display.draw_sprite(col, row, rows)
                },
                Err(e) => {
                    return Err(e);
                },
            }
        };
        self.v[0xF] = if hit { 1 } else { 0 };
        self.pc = self.pc.wrapping_add(2);
        Ok(())
    }

    /// `Fx33`.
    fn store_decimal(&mut self, x: u8) -> (r: Result<(), Error>)
        requires
            old(self).well_formed(),
            x < 16,
        ensures
            final(self).well_formed(),
            match apply(old(self)@, Instruction::StoreDecimal { x }, 0) {
                Ok(next) => r == Ok::<(), Error>(()) && final(self)@ == next,
                Err(e) => r == Err::<(), Error>(e) && final(self)@ == old(self)@,
            },
    {
        let at = self.i as usize;
        if at < GLYPH_TABLE_SIZE || at >= MEMORY_SIZE - 2 {
            return Err(Error::AddressOutOfRange);
        }
        proof {
            self.ram.lemma_size();
        }
        let (hundreds, tens, ones) = decimal_digits(self.v[x as usize]);
        self.ram.set_cell(at, hundreds);
        self.ram.set_cell(at + 1, tens);
        self.ram.set_cell(at + 2, ones);
        self.pc = self.pc.wrapping_add(2);
        Ok(())
    }

    /// `Fx55`.
    fn store_registers(&mut self, x: u8) -> (r: Result<(), Error>)
        requires
            old(self).well_formed(),
            x < 16,
        ensures
            final(self).well_formed(),
            match apply(old(self)@, Instruction::StoreRegisters { x }, 0) {
                Ok(next) => r == Ok::<(), Error>(()) && final(self)@ == next,
                Err(e) => r == Err::<(), Error>(e) && final(self)@ == old(self)@,
            },
    {
        let at = self.i as usize;
        if at < GLYPH_TABLE_SIZE || at + x as usize >= MEMORY_SIZE {
            return Err(Error::AddressOutOfRange);
        }
        proof {
            self.ram.lemma_size();
        }
        let ghost before = self@;
        let mut k: usize = 0;
        assert(self@.memory =~= Seq::new(
            MEMORY_SIZE as nat,
            |a: int| if at <= a < at + k { before.v[a - at] } else { before.memory[a] },
        ));
        while k <= x as usize
            invariant
                k <= x + 1,
                x < 16,
                at == before.i,
                at + x < MEMORY_SIZE,
                before.memory.len() == MEMORY_SIZE,
                self.well_formed(),
                self@ == (State {
                    memory: Seq::new(
                        MEMORY_SIZE as nat,
                        |a: int| if at <= a < at + k { before.v[a - at] } else { before.memory[a] },
                    ),
                    ..before
                }),
            decreases x + 1 - k,
        {
            self.ram.set_cell(at + k, self.v[k]);
            k += 1;
            assert(self@.memory =~= Seq::new(
                MEMORY_SIZE as nat,
                |a: int| if at <= a < at + k { before.v[a - at] } else { before.memory[a] },
            ));
        }
        self.pc = self.pc.wrapping_add(2);
        assert(self@.memory =~= apply(before, Instruction::StoreRegisters { x }, 0)->Ok_0.memory);
        Ok(())
    }

    /// `Fx65`.
    fn load_registers(&mut self, x: u8) -> (r: Result<(), Error>)
        requires
            old(self).well_formed(),
            x < 16,
        ensures
            final(self).well_formed(),
            match apply(old(self)@, Instruction::LoadRegisters { x }, 0) {
                Ok(next) => r == Ok::<(), Error>(()) && final(self)@ == next,
                Err(e) => r == Err::<(), Error>(e) && final(self)@ == old(self)@,
            },
    {
        let at = self.i as usize;
        if at + x as usize >= MEMORY_SIZE {
            return Err(Error::AddressOutOfRange);
        }
        let ghost before = self@;
        let mut k: usize = 0;
        assert(self@.v =~= Seq::new(
            16,
            |r: int| if r < k { before.memory[at + r] } else { before.v[r] },
        ));
        while k <= x as usize
            invariant
                k <= x + 1,
                x < 16,
                at == before.i,
                at + x < MEMORY_SIZE,
                self.well_formed(),
                self@ == (State {
                    v: Seq::new(
                        16,
                        |r: int| if r < k { before.memory[at + r] } else { before.v[r] },
                    ),
                    ..before
                }),
            decreases x + 1 - k,
        {
            self.v[k] = self.ram.cell(at + k);
            k += 1;
            assert(self@.v =~= Seq::new(
                16,
                |r: int| if r < k { before.memory[at + r] } else { before.v[r] },
            ));
        }
        self.pc = self.pc.wrapping_add(2);
        assert(self@.v =~= apply(before, Instruction::LoadRegisters { x }, 0)->Ok_0.v);
        Ok(())
    }
}

/// The instructions that only compute a register from registers, an
/// immediate byte or chance.
spec fn is_arithmetic(ins: Instruction) -> bool {
    match ins {
        Instruction::LoadByte { .. }
        | Instruction::AddByte { .. }
        | Instruction::Move { .. }
        | Instruction::Or { .. }
        | Instruction::And { .. }
        | Instruction::Xor { .. }
        | Instruction::Add { .. }
        | Instruction::Sub { .. }
        | Instruction::SubFrom { .. }
        | Instruction::ShiftRight { .. }
        | Instruction::ShiftLeft { .. }
        | Instruction::Random { .. } => true,
        _ => false,
    }
}

/// The instructions that only decide where execution goes on.
spec fn is_control(ins: Instruction) -> bool {
    match ins {
        Instruction::Return
        | Instruction::Jump { .. }
        | Instruction::Call { .. }
        | Instruction::SkipIfEqual { .. }
        | Instruction::SkipIfNotEqual { .. }
        | Instruction::SkipIfRegistersEqual { .. }
        | Instruction::SkipIfRegistersNotEqual { .. }
        | Instruction::JumpOffset { .. }
        | Instruction::SkipIfKey { .. }
        | Instruction::SkipIfNotKey { .. }
        | Instruction::WaitKey { .. } => true,
        _ => false,
    }
}

impl Cpu {
    /// `7xkk`.
    fn add_byte(&mut self, x: u8, kk: u8)
        requires
            old(self).well_formed(),
            x < 16,
        ensures
            final(self).well_formed(),
            apply(old(self)@, Instruction::AddByte { x, kk }, 0) == Ok::<State, Error>(
                final(self)@,
            ),
    {
        self.set_v(x, self.v[x as usize].wrapping_add(kk));
    }

    /// `8xy4`.
    fn add(&mut self, x: u8, y: u8)
        requires
            old(self).well_formed(),
            x < 16,
            y < 16,
        ensures
            final(self).well_formed(),
            apply(old(self)@, Instruction::Add { x, y }, 0) == Ok::<State, Error>(final(self)@),
    {
        let (sum, carry) = add_with_carry(self.v[x as usize], self.v[y as usize]);
        self.set_with_flag(x, sum, carry);
    }

    /// `8xy5`.
    fn sub(&mut self, x: u8, y: u8)
        requires
            old(self).well_formed(),
            x < 16,
            y < 16,
        ensures
            final(self).well_formed(),
            apply(old(self)@, Instruction::Sub { x, y }, 0) == Ok::<State, Error>(final(self)@),
    {
        let (difference, no_borrow) = sub_with_flag(self.v[x as usize], self.v[y as usize]);
        self.set_with_flag(x, difference, no_borrow);
    }

    /// `8xy7`.
    fn sub_from(&mut self, x: u8, y: u8)
        requires
            old(self).well_formed(),
            x < 16,
            y < 16,
        ensures
            final(self).well_formed(),
            apply(old(self)@, Instruction::SubFrom { x, y }, 0) == Ok::<State, Error>(
                final(self)@,
            ),
    {
        let (difference, no_borrow) = sub_with_flag(self.v[y as usize], self.v[x as usize]);
        self.set_with_flag(x, difference, no_borrow);
    }

    /// `8xy6`.
    fn shift_right(&mut self, x: u8, y: u8)
        requires
            old(self).well_formed(),
            x < 16,
        ensures
            final(self).well_formed(),
            apply(old(self)@, Instruction::ShiftRight { x, y }, 0) == Ok::<State, Error>(
                final(self)@,
            ),
    {
        let (shifted, out) = shift_right(self.v[x as usize]);
        self.set_with_flag(x, shifted, out);
    }

    /// `8xyE`.
    fn shift_left(&mut self, x: u8, y: u8)
        requires
            old(self).well_formed(),
            x < 16,
        ensures
            final(self).well_formed(),
            apply(old(self)@, Instruction::ShiftLeft { x, y }, 0) == Ok::<State, Error>(
                final(self)@,
            ),
    {
        let (shifted, out) = shift_left(self.v[x as usize]);
        self.set_with_flag(x, shifted, out);
    }

    /// `Fx1E`.
    fn add_index(&mut self, x: u8)
        requires
            old(self).well_formed(),
            x < 16,
        ensures
            final(self).well_formed(),
            apply(old(self)@, Instruction::AddIndex { x }, 0) == Ok::<State, Error>(final(self)@),
    {
        self.i = self.i.wrapping_add(self.v[x as usize] as u16);
        self.advance();
    }

    /// `Fx29`.
    fn load_glyph(&mut self, x: u8)
        requires
            old(self).well_formed(),
            x < 16,
        ensures
            final(self).well_formed(),
            apply(old(self)@, Instruction::LoadGlyph { x }, 0) == Ok::<State, Error>(
                final(self)@,
            ),
    {
        let vx = self.v[x as usize];
        assert(vx & 0xF == vx % 16) by (bit_vector);
        self.i = GLYPH_SIZE * ((vx & 0xF) as u16);
        self.advance();
    }

    /// Carries out an instruction that computes a register from registers,
    /// an immediate byte or chance.
    fn perform_arithmetic(&mut self, ins: Instruction, random_byte: u8)
        requires
            old(self).well_formed(),
            ins.well_formed(),
            is_arithmetic(ins),
        ensures
            final(self).well_formed(),
            apply(old(self)@, ins, random_byte) == Ok::<State, Error>(final(self)@),
    {
        match ins {
            Instruction::LoadByte { x, kk } => {
                self.set_v(x, kk);
            },
            Instruction::AddByte { x, kk } => {
                self.add_byte(x, kk);
            },
            Instruction::Move { x, y } => {
                self.set_v(x, self.v[y as usize]);
            },
            Instruction::Or { x, y } => {
                self.set_v(x, self.v[x as usize] | self.v[y as usize]);
            },
            Instruction::And { x, y } => {
                self.set_v(x, self.v[x as usize] & self.v[y as usize]);
            },
            Instruction::Xor { x, y } => {
                self.set_v(x, self.v[x as usize] ^ self.v[y as usize]);
            },
            Instruction::Add { x, y } => {
                self.add(x, y);
            },
            Instruction::Sub { x, y } => {
                self.sub(x, y);
            },
            Instruction::SubFrom { x, y } => {
                self.sub_from(x, y);
            },
            Instruction::ShiftRight { x, y } => {
                self.shift_right(x, y);
            },
            Instruction::ShiftLeft { x, y } => {
                self.shift_left(x, y);
            },
            Instruction::Random { x, kk } => {
                self.set_v(x, random_byte & kk);
            },
            _ => {},
        }
    }

    /// Carries out an instruction that decides where execution goes on.
    fn perform_control(&mut self, ins: Instruction) -> (r: Result<(), Error>)
        requires
            old(self).well_formed(),
            ins.well_formed(),
            is_control(ins),
        ensures
            final(self).well_formed(),
            match apply(old(self)@, ins, 0) {
                Ok(next) => r == Ok::<(), Error>(()) && final(self)@ == next,
                Err(e) => r == Err::<(), Error>(e) && final(self)@ == old(self)@,
            },
    {
        match ins {
            Instruction::Return => {
                return self.ret();
            },
            Instruction::Jump { addr } => {
                self.pc = addr;
            },
            Instruction::Call { addr } => {
                return self.call(addr);
            },
            Instruction::SkipIfEqual { x, kk } => {
                self.advance_or_skip(self.v[x as usize] == kk);
            },
            Instruction::SkipIfNotEqual { x, kk } => {
                self.advance_or_skip(self.v[x as usize] != kk);
            },
            Instruction::SkipIfRegistersEqual { x, y } => {
                self.advance_or_skip(self.v[x as usize] == self.v[y as usize]);
            },
            Instruction::SkipIfRegistersNotEqual { x, y } => {
                self.advance_or_skip(self.v[x as usize] != self.v[y as usize]);
            },
            Instruction::JumpOffset { addr } => {
                self.pc = addr + self.v[0] as u16;
            },
            Instruction::SkipIfKey { x } => {
                let key = self.v[x as usize];
                self.advance_or_skip(key < 16 && self.keys[key as usize]);
            },
            Instruction::SkipIfNotKey { x } => {
                let key = self.v[x as usize];
                self.advance_or_skip(!(key < 16 && self.keys[key as usize]));
            },
            Instruction::WaitKey { x } => {
                self.awaiting_key = Some(x);
            },
            _ => {},
        }
        Ok(())
    }

    /// Carries out one decoded instruction.
    fn perform(&mut self, ins: Instruction, random_byte: u8) -> (r: Result<(), Error>)
        requires
            old(self).well_formed(),
            ins.well_formed(),
        ensures
            final(self).well_formed(),
            match apply(old(self)@, ins, random_byte) {
                Ok(next) => r == Ok::<(), Error>(()) && final(self)@ == next,
                Err(e) => r == Err::<(), Error>(e) && final(self)@ == old(self)@,
            },
    {
        match ins {
            Instruction::ClearScreen => {
                self.display.clear();
                self.advance();
            },
            Instruction::LoadIndex { addr } => {
                self.i = addr;
                self.advance();
            },
            Instruction::Draw { x, y, n } => {
                return self.draw(x, y, n);
            },
            Instruction::ReadDelay { x } => {
                self.set_v(x, self.delay);
            },
            Instruction::SetDelay { x } => {
                self.delay = self.v[x as usize];
                self.advance();
            },
            Instruction::SetSound { x } => {
                self.sound = self.v[x as usize];
                self.advance();
            },
            Instruction::AddIndex { x } => {
                self.add_index(x);
            },
            Instruction::LoadGlyph { x } => {
                self.load_glyph(x);
            },
            Instruction::StoreDecimal { x } => {
                return self.store_decimal(x);
            },
            Instruction::StoreRegisters { x } => {
                return self.store_registers(x);
            },
            Instruction::LoadRegisters { x } => {
                return self.load_registers(x);
            },
            Instruction::Return
            | Instruction::Jump { .. }
            | Instruction::Call { .. }
            | Instruction::SkipIfEqual { .. }
            | Instruction::SkipIfNotEqual { .. }
            | Instruction::SkipIfRegistersEqual { .. }
            | Instruction::SkipIfRegistersNotEqual { .. }
            | Instruction::JumpOffset { .. }
            | Instruction::SkipIfKey { .. }
            | Instruction::SkipIfNotKey { .. }
            | Instruction::WaitKey { .. } => {
                return self.perform_control(ins);
            },
            _ => {
                self.perform_arithmetic(ins, random_byte);
            },
        }
        Ok(())
    }

    /// Runs the instruction word `instruction`, with `random_byte` as the
    /// byte that chance supplies should the instruction ask for one. On
    /// success the machine is in the state that `step` describes; on failure
    /// it is exactly as before. While the machine waits for a key, a valid
    /// instruction is accepted and changes nothing.
    pub fn execute(&mut self, instruction: u16, random_byte: u8) -> (r: Result<(), Error>)
        requires
            old(self).well_formed(),
        ensures
            final(self).well_formed(),
            step_outcome(old(self)@, instruction, random_byte, r, final(self)@),
    {
        match decode(instruction) {
            None => Err(Error::InvalidOpcode),
            Some(ins) => {
                if self.awaiting_key.is_some() {
                    Ok(())
                } else {
                    self.perform(ins, random_byte)
                }
            },
        }
    }

    /// Runs the instruction word `instruction`, drawing a byte from the
    /// random number generator if the instruction asks for one. The outcome
    /// is that of `execute` with some byte; for every instruction but
    /// `Cxkk` that byte does not matter.
    pub fn run_instruction(&mut self, instruction: u16) -> (r: Result<(), Error>)
        requires
            old(self).well_formed(),
        ensures
            final(self).well_formed(),
            exists|b: u8| step_outcome(old(self)@, instruction, b, r, final(self)@),
            !is_random(instruction) ==> forall|b: u8|
                step_outcome(old(self)@, instruction, b, r, final(self)@),
    {
        let byte = match decode(instruction) {
            Some(Instruction::Random { .. }) => random_byte(),
            _ => 0,
        };
        self.execute(instruction, byte)
    }
}

} // verus!
