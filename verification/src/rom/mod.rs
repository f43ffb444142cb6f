pub mod cartridge;
pub mod mapper;

pub use cartridge::{Cartridge, CartridgeInfo, MirrorType};
