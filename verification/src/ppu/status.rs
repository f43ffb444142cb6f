use vstd::prelude::*;

verus! {

/// The PPU status register.
#[allow(non_upper_case_globals)]
#[derive(Clone, Copy, Debug, PartialEq, Eq, Structural)]
pub struct Status {
    pub bits: u8,
}

#[allow(non_upper_case_globals)]
impl Status {
    pub const SpriteOverflow: u8 = 1 << 5;

    pub const Sprite0Hit: u8 = 1 << 6;

    pub const VBlankStart: u8 = 1 << 7;

    pub fn bits(&self) -> (r: u8)
        ensures
            r == self.bits,
    {
        self.bits
    }
}

} // verus!
