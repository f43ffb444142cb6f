use vstd::prelude::*;

verus! {

/// The PPU mask register.
#[allow(non_upper_case_globals)]
#[derive(Clone, Copy, Debug, PartialEq, Eq, Structural)]
pub struct Mask {
    pub bits: u8,
}

#[allow(non_upper_case_globals)]
impl Mask {
    pub const GrayScale: u8 = 1 << 0;

    pub const ShowBackGroundLeft8px: u8 = 1 << 1;

    pub const ShowSpriteLeft8px: u8 = 1 << 2;

    pub const ShowBackGround: u8 = 1 << 3;

    pub const ShowSprite: u8 = 1 << 4;

    pub const EmphasizeRed: u8 = 1 << 5;

    pub const EmphasizeGreen: u8 = 1 << 6;

    pub const EmphasizeBlue: u8 = 1 << 7;

    /// Every bit of `mask` is set in the register.
    pub open spec fn spec_contains(&self, mask: u8) -> bool {
        self.bits & mask == mask
    }

    #[verifier::when_used_as_spec(spec_contains)]
    pub fn contains(&self, mask: u8) -> (r: bool)
        ensures
            r == self.spec_contains(mask),
    {
        self.bits & mask == mask
    }

    pub fn is_grayscale(&self) -> (r: bool)
        ensures
            r == (self.bits & 0x1 != 0),
    {
        self.bits & 0x1 != 0
    }

    pub fn is_show_background_left_8px(&self) -> (r: bool)
        ensures
            r == (self.bits & 0x2 != 0),
    {
        self.bits & 0x2 != 0
    }

    pub fn is_show_sprite_left_8px(&self) -> (r: bool)
        ensures
            r == (self.bits & 0x4 != 0),
    {
        self.bits & 0x4 != 0
    }

    pub fn is_show_background(&self) -> (r: bool)
        ensures
            r == self.contains(Mask::ShowBackGround),
    {
        self.contains(Mask::ShowBackGround)
    }

    pub fn is_show_sprite(&self) -> (r: bool)
        ensures
            r == self.contains(Mask::ShowSprite),
    {
        self.contains(Mask::ShowSprite)
    }

    pub fn is_emphasize_red(&self) -> (r: bool)
        ensures
            r == self.contains(Mask::EmphasizeRed),
    {
        self.contains(Mask::EmphasizeRed)
    }

    pub fn is_emphasize_green(&self) -> (r: bool)
        ensures
            r == self.contains(Mask::EmphasizeGreen),
    {
        self.contains(Mask::EmphasizeGreen)
    }

    pub fn is_emphasize_blue(&self) -> (r: bool)
        ensures
            r == self.contains(Mask::EmphasizeBlue),
    {
        self.contains(Mask::EmphasizeBlue)
    }

    pub fn update(&mut self, val: u8)
        ensures
            final(self).bits == val,
    {
        self.bits = val
    }
}

} // verus!
