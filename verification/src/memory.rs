//! The flat byte-addressable store of the machine.

use vstd::prelude::*;
use crate::error::Error;

verus! {

/// Number of addressable cells.
pub const MEMORY_SIZE: usize = 4096;

/// Address at which a program image is placed and execution begins.
pub const PROGRAM_START: u16 = 0x200;

/// Number of cells taken by the sixteen built-in glyphs.
pub const GLYPH_TABLE_SIZE: usize = 80;

/// Number of cells taken by one glyph.
pub const GLYPH_SIZE: u16 = 5;

/// Largest program image that fits behind the entry point.
pub const MAX_PROGRAM_SIZE: usize = 0xE00;

/// The sixteen glyphs for the hexadecimal digits, five rows each, digit 0
/// first.
pub open spec fn glyph_table() -> Seq<u8> {
    seq![
        0xF0u8, 0x90, 0x90, 0x90, 0xF0,
        0x20, 0x60, 0x20, 0x20, 0x70,
        0xF0, 0x10, 0xF0, 0x80, 0xF0,
        0xF0, 0x10, 0xF0, 0x10, 0xF0,
        0x90, 0x90, 0xF0, 0x10, 0x10,
        0xF0, 0x80, 0xF0, 0x10, 0xF0,
        0xF0, 0x80, 0xF0, 0x90, 0xF0,
        0xF0, 0x10, 0x20, 0x40, 0x40,
        0xF0, 0x90, 0xF0, 0x90, 0xF0,
        0xF0, 0x90, 0xF0, 0x10, 0xF0,
        0xF0, 0x90, 0xF0, 0x90, 0x90,
        0xE0, 0x90, 0xE0, 0x90, 0xE0,
        0xF0, 0x80, 0x80, 0x80, 0xF0,
        0xE0, 0x90, 0x90, 0x90, 0xE0,
        0xF0, 0x80, 0xF0, 0x80, 0xF0,
        0xF0, 0x80, 0xF0, 0x80, 0x80,
    ]
}

/// What a freshly built memory holds: the glyph table, then zeros.
pub open spec fn initial_memory() -> Seq<u8> {
    Seq::new(
        MEMORY_SIZE as nat,
        |a: int| if a < GLYPH_TABLE_SIZE { glyph_table()[a] } else { 0u8 },
    )
}

/// What memory `cells` holds once the image `bytes` has been placed at the
/// entry point: the image replaces as many cells as it is long, and every
/// other cell keeps its value.
pub open spec fn with_program(cells: Seq<u8>, bytes: Seq<u8>) -> Seq<u8> {
    Seq::new(
        cells.len(),
        |a: int|
            if PROGRAM_START <= a < PROGRAM_START + bytes.len() {
                bytes[a - PROGRAM_START]
            } else {
                cells[a]
            },
    )
}

/// The outcome of placing the image `bytes` into memory `cells`.
pub open spec fn load_program_spec(cells: Seq<u8>, bytes: Seq<u8>) -> Result<Seq<u8>, Error> {
    if bytes.len() <= MAX_PROGRAM_SIZE {
        Ok(with_program(cells, bytes))
    } else {
        Err(Error::ProgramTooLarge)
    }
}

/// The instruction word at `addr` in memory `cells`: two cells, high byte
/// first. There is none where the second cell lies beyond memory.
pub open spec fn word_at(cells: Seq<u8>, addr: u16) -> Result<u16, Error> {
    if addr + 1 < MEMORY_SIZE {
        Ok((cells[addr as int] * 256 + cells[addr + 1]) as u16)
    } else {
        Err(Error::AddressOutOfRange)
    }
}

/// 4096 cells of eight bits, addressed from 0x000 to 0xFFF.
pub struct Memory {
    cells: [u8; 4096],
}

impl View for Memory {
    type V = Seq<u8>;

    closed spec fn view(&self) -> Seq<u8> {
        self.cells@
    }
}

impl Memory {
    /// Every memory has exactly `MEMORY_SIZE` cells.
    pub proof fn lemma_size(&self)
        ensures
            self@.len() == MEMORY_SIZE,
    {
    }

    /// A memory that holds the glyph table and is zero elsewhere.
    pub fn new() -> (m: Memory)
        ensures
            m@ == initial_memory(),
    {
        let glyphs: [u8; 80] = [
            0xF0, 0x90, 0x90, 0x90, 0xF0,
            0x20, 0x60, 0x20, 0x20, 0x70,
            0xF0, 0x10, 0xF0, 0x80, 0xF0,
            0xF0, 0x10, 0xF0, 0x10, 0xF0,
            0x90, 0x90, 0xF0, 0x10, 0x10,
            0xF0, 0x80, 0xF0, 0x10, 0xF0,
            0xF0, 0x80, 0xF0, 0x90, 0xF0,
            0xF0, 0x10, 0x20, 0x40, 0x40,
            0xF0, 0x90, 0xF0, 0x90, 0xF0,
            0xF0, 0x90, 0xF0, 0x10, 0xF0,
            0xF0, 0x90, 0xF0, 0x90, 0x90,
            0xE0, 0x90, 0xE0, 0x90, 0xE0,
            0xF0, 0x80, 0x80, 0x80, 0xF0,
            0xE0, 0x90, 0x90, 0x90, 0xE0,
            0xF0, 0x80, 0xF0, 0x80, 0xF0,
            0xF0, 0x80, 0xF0, 0x80, 0x80,
        ];
        assert(glyphs@ =~= glyph_table());
        let mut cells: [u8; 4096] = [0u8; 4096];
        let mut a: usize = 0;
        while a < 80
            invariant
                a <= 80,
                glyphs@ == glyph_table(),
                forall|k: int| 0 <= k < a ==> cells@[k] == glyph_table()[k],
                forall|k: int| a <= k < 4096 ==> cells@[k] == 0u8,
            decreases 80 - a,
        {
            cells[a] = glyphs[a];
            a += 1;
        }
        assert(cells@ =~= initial_memory());
        Memory { cells }
    }

    /// The byte at an address known to exist.
    pub(crate) fn cell(&self, address: usize) -> (value: u8)
        requires
            address < MEMORY_SIZE,
        ensures
            value == self@[address as int],
    {
        self.cells[address]
    }

    /// Stores `value` at an address known to exist.
    pub(crate) fn set_cell(&mut self, address: usize, value: u8)
        requires
            address < MEMORY_SIZE,
        ensures
            final(self)@ == old(self)@.update(address as int, value),
    {
        self.cells[address] = value;
    }

    /// The byte at `address`, or `AddressOutOfRange` beyond the last cell.
    pub fn read(&self, address: u16) -> (r: Result<u8, Error>)
        ensures
            address < MEMORY_SIZE ==> r == Ok::<u8, Error>(self@[address as int]),
            address >= MEMORY_SIZE ==> r == Err::<u8, Error>(Error::AddressOutOfRange),
    {
        if (address as usize) < MEMORY_SIZE {
            Ok(self.cells[address as usize])
        } else {
            Err(Error::AddressOutOfRange)
        }
    }

    /// The instruction word at `address`: the byte there is its high half,
    /// the next byte its low half. Fails with `AddressOutOfRange` if either
    /// byte lies beyond memory.
    pub fn read_word(&self, address: u16) -> (r: Result<u16, Error>)
        ensures
            r == word_at(self@, address),
    {
        if (address as usize) < MEMORY_SIZE - 1 {
            let hi = self.cells[address as usize];
            let lo = self.cells[address as usize + 1];
            assert(((hi as u16) << 8) | (lo as u16) == hi * 256 + lo) by (bit_vector);
            Ok(((hi as u16) << 8) | (lo as u16))
        } else {
            Err(Error::AddressOutOfRange)
        }
    }

    /// The `len` cells from `start` on, or `AddressOutOfRange` if they do not
    /// all exist.
    pub fn span(&self, start: u16, len: usize) -> (r: Result<&[u8], Error>)
        ensures
            start + len <= MEMORY_SIZE ==> r is Ok && r->Ok_0@ == self@.subrange(
                start as int,
                start + len,
            ),
            start + len > MEMORY_SIZE ==> r == Err::<&[u8], Error>(Error::AddressOutOfRange),
    {
        if len <= MEMORY_SIZE && start as usize <= MEMORY_SIZE - len {
            Ok(&self.cells[start as usize..start as usize + len])
        } else {
            Err(Error::AddressOutOfRange)
        }
    }

    /// Stores `value` at `address`, or fails with `AddressOutOfRange` beyond
    /// the last cell and changes nothing. Any cell may be written here, the
    /// glyph table included; the interpreter guards that table itself.
    pub fn write(&mut self, address: u16, value: u8) -> (r: Result<(), Error>)
        ensures
            address < MEMORY_SIZE ==> r == Ok::<(), Error>(())
                && final(self)@ == old(self)@.update(address as int, value),
            address >= MEMORY_SIZE ==> r == Err::<(), Error>(Error::AddressOutOfRange)
                && final(self)@ == old(self)@,
    {
        if (address as usize) < MEMORY_SIZE {
            self.cells[address as usize] = value;
            Ok(())
        } else {
            Err(Error::AddressOutOfRange)
        }
    }

    /// Places the image `bytes` at the entry point, first byte first. An image
    /// longer than `MAX_PROGRAM_SIZE` is refused with `ProgramTooLarge` and
    /// nothing is written.
    pub fn load_program(&mut self, bytes: &Vec<u8>) -> (r: Result<(), Error>)
        ensures
            match load_program_spec(old(self)@, bytes@) {
                Ok(cells) => r == Ok::<(), Error>(()) && final(self)@ == cells,
                Err(e) => r == Err::<(), Error>(e) && final(self)@ == old(self)@,
            },
    {
        let n = bytes.len();
        if n > MAX_PROGRAM_SIZE {
            return Err(Error::ProgramTooLarge);
        }
        let mut k: usize = 0;
        while k < n
            invariant
                k <= n,
                n == bytes@.len(),
                n <= MAX_PROGRAM_SIZE,
                self@ == with_program(old(self)@, bytes@.take(k as int)),
            decreases n - k,
        {
            self.cells[0x200 + k] = bytes[k];
            k += 1;
            assert(self@ =~= with_program(old(self)@, bytes@.take(k as int)));
        }
        assert(bytes@.take(n as int) =~= bytes@);
        Ok(())
    }
}

} // verus!
