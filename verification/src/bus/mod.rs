pub mod cpu_bus;
pub mod ppu_bus;

pub use cpu_bus::CPUBus;
pub use ppu_bus::PPUBus;
