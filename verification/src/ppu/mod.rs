pub mod controller;
pub mod mask;
pub mod ppu;
pub mod status;

pub use controller::{Controller, SpriteSize};
pub use mask::Mask;
pub use ppu::{IORegisters, PPU};
pub use status::Status;
