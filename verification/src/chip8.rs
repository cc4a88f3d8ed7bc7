//! A console: a program store beside an interpreter at power-on.

use vstd::prelude::*;
use crate::cpu::Cpu;
use crate::error::Error;
use crate::instruction::{nibbles, split};
use crate::memory::{initial_memory, load_program_spec, word_at, Memory};
use crate::state::State;

verus! {

/// A memory into which a program image is loaded and from which its
/// instructions are read as nibbles, and an interpreter.
pub struct Chip8 {
    /// The program store.
    pub ram: Memory,
    cpu: Cpu,
}

/// The four nibbles of the instruction word at `addr` in memory `cells`,
/// most significant first, or the error that reading the word gives.
pub open spec fn nibbles_at(cells: Seq<u8>, addr: u16) -> Result<(u8, u8, u8, u8), Error> {
    match word_at(cells, addr) {
        Ok(word) => {
            let (n1, n2, n3, n4) = nibbles(word);
            Ok((n1 as u8, n2 as u8, n3 as u8, n4 as u8))
        },
        Err(e) => Err(e),
    }
}

impl Chip8 {
    /// What the program store holds.
    pub closed spec fn memory(&self) -> Seq<u8> {
        self.ram@
    }

    /// The interpreter, as a mathematical value.
    pub closed spec fn cpu(&self) -> State {
        self.cpu@
    }

    /// A console at power-on: the glyphs in memory, the interpreter ready
    /// at the entry point.
    pub fn new() -> (console: Chip8)
        ensures
            console.memory() == initial_memory(),
            console.cpu() == State::initial(),
    {
        Chip8 { ram: Memory::new(), cpu: Cpu::new() }
    }

    /// Places the program image `data` at the entry point of the program
    /// store. An image longer than the room behind the entry point is
    /// refused with `ProgramTooLarge` and nothing is written.
    pub fn load_rom(&mut self, data: &Vec<u8>) -> (r: Result<(), Error>)
        ensures
            final(self).cpu() == old(self).cpu(),
            match load_program_spec(old(self).memory(), data@) {
                Ok(cells) => r == Ok::<(), Error>(()) && final(self).memory() == cells,
                Err(e) => r == Err::<(), Error>(e) && final(self).memory() == old(self).memory(),
            },
    {
        self.ram.load_program(data)
    }

    /// The instruction word at `addr` of the program store, split into its
    /// four nibbles, most significant first. Fails with `AddressOutOfRange`
    /// if either byte of the word lies beyond memory.
    pub fn load_instruction(&self, addr: u16) -> (r: Result<(u8, u8, u8, u8), Error>)
        ensures
            r == nibbles_at(self.memory(), addr),
    {
        match self.ram.read_word(addr) {
            Ok(word) => Ok(split(word)),
            Err(e) => Err(e),
        }
    }
}

} // verus!
