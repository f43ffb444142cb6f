use vstd::prelude::*;

verus! {

/// The processor status register: eight flags in one byte.
#[derive(Clone, Copy, Debug, PartialEq, Eq, Structural)]
pub struct Flags {
    pub bits: u8,
}

impl Flags {
    /// Carry.
    pub const C: u8 = 0b0000_0001;

    /// Zero.
    pub const Z: u8 = 0b0000_0010;

    /// Interrupt disable.
    pub const I: u8 = 0b0000_0100;

    /// Decimal mode. It can be set and cleared and changes no arithmetic.
    pub const D: u8 = 0b0000_1000;

    /// Break.
    pub const B: u8 = 0b0001_0000;

    /// Unused; reads as set.
    pub const U: u8 = 0b0010_0000;

    /// Overflow.
    pub const V: u8 = 0b0100_0000;

    /// Negative.
    pub const N: u8 = 0b1000_0000;

    /// Every flag of `mask` is set.
    pub open spec fn spec_contains(&self, mask: u8) -> bool {
        self.bits & mask == mask
    }

    /// The register with the flags of `mask` set if `value` holds, cleared
    /// if not.
    pub open spec fn with(self, mask: u8, value: bool) -> Flags {
        if value {
            Flags { bits: self.bits | mask }
        } else {
            Flags { bits: self.bits & !mask }
        }
    }

    /// The register after a result `val`: Zero tells whether `val` is 0,
    /// Negative whether its bit 7 is set. No other flag changes.
    pub open spec fn with_zn(self, val: u8) -> Flags {
        self.with(Flags::Z, val == 0).with(Flags::N, val & 0b1000_0000 != 0)
    }

    /// The carry flag as a number: 1 if set, else 0.
    pub open spec fn spec_carry(&self) -> u8 {
        if self.spec_contains(Flags::C) {
            1
        } else {
            0
        }
    }

    /// The register at reset: Unused and InterruptDisable set.
    pub open spec fn spec_new() -> Flags {
        Flags { bits: Flags::U | Flags::I }
    }

    #[verifier::when_used_as_spec(spec_new)]
    pub fn new() -> (r: Self)
        ensures
            r == Flags::spec_new(),
            r.bits == 0x24,
    {
        assert(0b0010_0000u8 | 0b0000_0100u8 == 0x24) by (bit_vector);
        Flags { bits: Flags::U | Flags::I }
    }

    /// The register that holds exactly the bits of `bits`. Every bit is a
    /// flag, so nothing is dropped.
    pub fn from_bits_truncate(bits: u8) -> (r: Self)
        ensures
            r.bits == bits,
    {
        Flags { bits }
    }

    pub fn bits(&self) -> (r: u8)
        ensures
            r == self.bits,
    {
        self.bits
    }

    #[verifier::when_used_as_spec(spec_contains)]
    pub fn contains(&self, mask: u8) -> (r: bool)
        ensures
            r == self.spec_contains(mask),
    {
        self.bits & mask == mask
    }

    pub fn insert(&mut self, mask: u8)
        ensures
            *final(self) == old(self).with(mask, true),
    {
        self.bits = self.bits | mask;
    }

    pub fn remove(&mut self, mask: u8)
        ensures
            *final(self) == old(self).with(mask, false),
    {
        self.bits = self.bits & !mask;
    }

    pub fn set(&mut self, mask: u8, value: bool)
        ensures
            *final(self) == old(self).with(mask, value),
    {
        if value {
            self.insert(mask);
        } else {
            self.remove(mask);
        }
    }

    #[verifier::when_used_as_spec(spec_carry)]
    pub fn carry(&self) -> (r: u8)
        ensures
            r == self.spec_carry(),
    {
        if self.contains(Flags::C) {
            1
        } else {
            0
        }
    }
}

/// Setting or clearing the flags of a mask makes the register contain the
/// mask exactly when they were set (a mask without a bit is always
/// contained), and leaves alone every mask that shares no bit with it.
pub proof fn lemma_with_contains(p: Flags, mask: u8, value: bool, other: u8)
    ensures
        mask != 0 ==> p.with(mask, value).spec_contains(mask) == value,
        other & mask == 0 ==> p.with(mask, value).spec_contains(other) == p.spec_contains(other),
{
    let bits = p.bits;
    assert(mask != 0 ==> ((bits | mask) & mask == mask) && !((bits & !mask) & mask == mask))
        by (bit_vector);
    assert(other & mask == 0 ==> (((bits | mask) & other == other) == (bits & other == other))
        && (((bits & !mask) & other == other) == (bits & other == other))) by (bit_vector);
}

/// `mask` is one of the eight flags.
pub open spec fn is_flag(mask: u8) -> bool {
    ||| mask == Flags::C
    ||| mask == Flags::Z
    ||| mask == Flags::I
    ||| mask == Flags::D
    ||| mask == Flags::B
    ||| mask == Flags::U
    ||| mask == Flags::V
    ||| mask == Flags::N
}

/// Setting or clearing one flag makes the register contain it exactly when
/// it was set, and changes no other flag.
pub proof fn lemma_with_flag(p: Flags, flag: u8, value: bool, other: u8)
    requires
        is_flag(flag),
        is_flag(other),
    ensures
        p.with(flag, value).spec_contains(flag) == value,
        other != flag ==> p.with(flag, value).spec_contains(other) == p.spec_contains(other),
{
    assert(flag != 0);
    assert(other != flag ==> other & flag == 0) by (bit_vector)
        requires
            flag == 1 || flag == 2 || flag == 4 || flag == 8 || flag == 16 || flag == 32 || flag
                == 64 || flag == 128,
            other == 1 || other == 2 || other == 4 || other == 8 || other == 16 || other == 32
                || other == 64 || other == 128,
    ;
    lemma_with_contains(p, flag, value, other);
}

} // verus!
