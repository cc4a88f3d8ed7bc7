//! The ways an operation of the machine can fail.

use vstd::prelude::*;

verus! {

/// A failure reported to the caller. Every failing operation leaves the
/// machine exactly as it found it.
#[derive(Clone, Copy, Debug, PartialEq, Eq, Structural)]
pub enum Error {
    /// A memory access at or beyond the end of the address space, or a store
    /// made by a running program into the glyph table.
    AddressOutOfRange,
    /// A program image that does not fit between the entry point and the end
    /// of memory.
    ProgramTooLarge,
    /// A call made while sixteen return addresses are already stacked.
    StackOverflow,
    /// A return made while the call stack is empty.
    StackUnderflow,
    /// An instruction word that matches no pattern of the instruction set.
    InvalidOpcode,
}

} // verus!
