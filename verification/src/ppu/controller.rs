use vstd::prelude::*;

verus! {

/// Height of the sprites.
#[allow(non_camel_case_types)]
#[derive(Clone, Copy, Debug, PartialEq, Eq, Structural)]
pub enum SpriteSize {
    SIZE8X8,
    SIZE8X16,
}

/// The PPU control register.
#[derive(Clone, Copy, Debug, PartialEq, Eq, Structural)]
pub struct Controller {
    pub bits: u8,
}

impl Controller {
    pub const NAME_TABLE1: u8 = 1 << 0;

    pub const NAME_TABLE2: u8 = 1 << 1;

    pub const ADD_INCREMENT: u8 = 1 << 2;

    pub const SPRITE_PATTERN_ADDR: u8 = 1 << 3;

    pub const BACKGROUD_PATTERN_ADDR: u8 = 1 << 4;

    pub const SPRITE_SIZE: u8 = 1 << 5;

    pub const MASTER_SLAVE_SELECT: u8 = 1 << 6;

    pub const GENERATE_NMI: u8 = 1 << 7;

    /// The register with every bit clear.
    pub fn new() -> (r: Self)
        ensures
            r.bits == 0,
    {
        Self { bits: 0 }
    }

    /// Address of the name table that the two lowest bits select: one of
    /// four tables of 0x400 bytes from 0x2000 on.
    pub fn nametable_baseaddr(&self) -> (r: usize)
        ensures
            r == 0x2000 + 0x400 * (self.bits % 4),
    {
        let bits = self.bits;
        assert(bits & 0x3 == bits % 4) by (bit_vector);
        let val = self.bits & 0x3;
        if val == 0 {
            0x2000
        } else if val == 1 {
            0x2400
        } else if val == 2 {
            0x2800
        } else {
            0x2c00
        }
    }

    /// Address of the pattern table for sprites: 0x1000 if bit 3 is set,
    /// else 0.
    pub fn sprite_pattern_address(&self) -> (r: usize)
        ensures
            r == if self.bits & 0x8 != 0 {
                0x1000usize
            } else {
                0x0000usize
            },
    {
        if self.bits & 0x8 != 0 {
            0x1000
        } else {
            0x0000
        }
    }

    /// Address of the pattern table for the background: 0x1000 if bit 4 is
    /// set, else 0.
    pub fn background_pattern_address(&self) -> (r: usize)
        ensures
            r == if self.bits & 0x10 != 0 {
                0x1000usize
            } else {
                0x0000usize
            },
    {
        if self.bits & 0x10 != 0 {
            0x1000
        } else {
            0x0000
        }
    }

    /// By how much the video RAM address grows after an access: 32 if bit 2
    /// is set, else 1.
    pub fn vram_add_increment(&self) -> (r: usize)
        ensures
            r == if self.bits & 0x4 != 0 {
                32usize
            } else {
                1usize
            },
    {
        if self.bits & 0x4 != 0 {
            32
        } else {
            1
        }
    }

    /// The sprite size. This model of the register knows tall sprites
    /// only, whatever bit 5 holds.
    pub fn sprite_size(&self) -> (r: SpriteSize)
        ensures
            r == SpriteSize::SIZE8X16,
    {
        SpriteSize::SIZE8X16
    }

    pub fn update(&mut self, data: u8)
        ensures
            final(self).bits == data,
    {
        self.bits = data
    }
}

} // verus!
