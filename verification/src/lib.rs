//! A MOS 6502 interpreter as found in the Nintendo Entertainment System,
//! with the memory bus it runs on, an iNES cartridge reader and a tracer
//! that prints one line per instruction.

use vstd::prelude::*;

pub mod cpu;
pub mod memory;
pub mod rom;

verus! {

/// Faults raised while emulating.
#[derive(Debug, Clone, Copy, PartialEq, Eq, Structural)]
pub enum EmulationError {
    /// The byte fetched at the program counter is not a documented opcode.
    InvalidOpcode(u8),
    /// The program counter left the addressable range.
    PcOutOfBounds(u16),
    /// A program image does not fit in the cartridge window.
    RomTooLarge,
    /// The bus refused a read.
    InvalidRead,
    /// The bus refused a write.
    InvalidWrite,
    /// The addressing mode names no memory location.
    UnsuportedAddressingMode,
    /// `step` was called on a halted processor.
    Halted,
    /// The address is not mapped.
    InvalidAddress(u16),
}

} // verus!
