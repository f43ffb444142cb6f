use crate::cpu::CPU;
use crate::ppu::PPU;
use vstd::prelude::*;

verus! {

/// The console: the processor with its bus, and the PPU's registers.
#[allow(dead_code)]
pub struct Emulator {
    cpu: CPU,
    ppu: PPU,
}

} // verus!
