//! The processor of the NES with the memory it addresses: the instruction
//! table, the execution of instructions, the buses that route addresses to
//! RAM and cartridge, and the cartridge with its mapper.
//!
//! What the code does is stated over [`cpu::Machine`], the registers and
//! the 64 KiB that the CPU bus shows, and proved against it.

pub mod bus;
pub mod cpu;
pub mod emulator;
pub mod error;
pub mod ppu;
pub mod ram;
pub mod rom;
pub mod trace;
