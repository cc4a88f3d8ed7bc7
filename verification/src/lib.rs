//! A CHIP-8 virtual machine core: memory, instruction decoding, the display
//! surface and the fetch-decode-execute engine, each with a verified contract.

pub mod alu;
pub mod chip8;
pub mod cpu;
pub mod display;
pub mod error;
pub mod instruction;
pub mod laws;
pub mod memory;
pub mod state;
