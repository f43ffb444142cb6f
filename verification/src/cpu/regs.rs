use super::flags::Flags;
use vstd::prelude::*;

verus! {

/// The stack pointer at reset.
pub const RESET_SP: u8 = 0xfd;

/// A snapshot of the registers. Two snapshots are equal when every
/// register is.
#[allow(non_snake_case)]
#[derive(Clone, Copy, Debug, PartialEq, Eq, Structural)]
pub struct Regs {
    /// Accumulator.
    pub A: u8,
    /// Index register X.
    pub X: u8,
    /// Index register Y.
    pub Y: u8,
    /// Stack pointer: the stack's next free byte is at `0x100 + SP`.
    pub SP: u8,
    /// Status flags.
    pub P: Flags,
    /// Program counter.
    pub PC: u16,
}

impl Regs {
    /// The registers at reset, with the program counter at 0.
    pub open spec fn spec_default() -> Regs {
        Regs { A: 0, X: 0, Y: 0, SP: RESET_SP, P: Flags::spec_new(), PC: 0 }
    }
}

impl Default for Regs {
    fn default() -> (r: Self)
        ensures
            r == Regs::spec_default(),
    {
        Self { A: 0, X: 0, Y: 0, SP: RESET_SP, P: Flags::new(), PC: 0 }
    }
}

} // verus!
