use vstd::prelude::*;

verus! {

/// Bank registers of an MMC3 cartridge. The mapper itself is not
/// supported: loading a cartridge that asks for it is an error.
#[allow(dead_code)]
pub struct MMC3 {
    regs: [i8; 8],
}

} // verus!
