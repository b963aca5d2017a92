//! Processing core of a handheld game console: an 8-bit register file,
//! a memory management unit with switchable cartridge banking, a hardware
//! timer with its one-cycle reload quirk, and the instruction execution
//! engine with its interrupt/halt coordinator.

pub mod mmu;
pub mod opcode;
pub mod opcode_helpers;
pub mod registers;
pub mod system;
pub mod timer;
