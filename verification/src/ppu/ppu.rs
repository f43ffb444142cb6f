use super::controller::Controller;
use super::mask::Mask;
use super::status::Status;
use crate::ram::VRam;
use vstd::prelude::*;

verus! {

/// The registers through which the CPU talks to the PPU. No picture is
/// made from them here.
pub struct PPU {
    vram_port: VRam,
    controller: Controller,
    mask: Mask,
    status: Status,
}

impl PPU {
    /// The control register.
    pub closed spec fn controller(&self) -> Controller {
        self.controller
    }

    /// The mask register.
    pub closed spec fn mask(&self) -> Mask {
        self.mask
    }

    /// The status register.
    pub closed spec fn status(&self) -> Status {
        self.status
    }

    /// The video RAM.
    pub closed spec fn vram(&self) -> VRam {
        self.vram_port
    }

    /// A PPU over `vram_port` with every register clear.
    pub fn new(vram_port: VRam) -> (r: Self)
        ensures
            r.vram() == vram_port,
            r.controller().bits == 0,
            r.mask().bits == 0,
            r.status().bits == 0,
    {
        Self {
            vram_port,
            controller: Controller::new(),
            mask: Mask { bits: 0 },
            status: Status { bits: 0 },
        }
    }

    pub fn write_controller(&mut self, val: u8)
        ensures
            final(self).controller().bits == val,
            final(self).mask() == old(self).mask(),
            final(self).status() == old(self).status(),
            final(self).vram() == old(self).vram(),
    {
        self.controller.update(val)
    }

    pub fn write_mask(&mut self, val: u8)
        ensures
            final(self).mask().bits == val,
            final(self).controller() == old(self).controller(),
            final(self).status() == old(self).status(),
            final(self).vram() == old(self).vram(),
    {
        self.mask.update(val)
    }

    pub fn read_status(&self) -> (r: u8)
        ensures
            r == self.status().bits,
    {
        self.status.bits()
    }
}

/// The I/O registers that belong to the PPU.
#[derive(Debug, Clone, Copy, PartialEq, Eq, Structural)]
pub enum IORegisters {
    Controller,
    Mask,
    Status,
    OamAddress,
    OamData,
    Scroll,
    Address,
    Data,
    OamDma,
}

impl IORegisters {
    /// The CPU address of the register.
    pub open spec fn spec_address(&self) -> usize {
        match self {
            IORegisters::Controller => 0x2000,
            IORegisters::Mask => 0x2001,
            IORegisters::Status => 0x2002,
            IORegisters::OamAddress => 0x2003,
            IORegisters::OamData => 0x2004,
            IORegisters::Scroll => 0x2005,
            IORegisters::Address => 0x2006,
            IORegisters::Data => 0x2007,
            IORegisters::OamDma => 0x4014,
        }
    }

    /// `address` is the address of one of the registers.
    pub open spec fn spec_is_register(address: usize) -> bool {
        0x2000 <= address <= 0x2007 || address == 0x4014
    }

    #[verifier::when_used_as_spec(spec_address)]
    pub fn address(&self) -> (r: usize)
        ensures
            r == self.spec_address(),
    {
        match self {
            IORegisters::Controller => 0x2000,
            IORegisters::Mask => 0x2001,
            IORegisters::Status => 0x2002,
            IORegisters::OamAddress => 0x2003,
            IORegisters::OamData => 0x2004,
            IORegisters::Scroll => 0x2005,
            IORegisters::Address => 0x2006,
            IORegisters::Data => 0x2007,
            IORegisters::OamDma => 0x4014,
        }
    }

    #[verifier::when_used_as_spec(spec_is_register)]
    pub fn is_register(address: usize) -> (r: bool)
        ensures
            r == Self::spec_is_register(address),
    {
        (0x2000 <= address && address <= 0x2007) || address == 0x4014
    }

    /// The register at `address`.
    pub fn from(address: usize) -> (r: Self)
        requires
            Self::is_register(address),
        ensures
            r.address() == address,
    {
        if address == 0x2000 {
            Self::Controller
        } else if address == 0x2001 {
            Self::Mask
        } else if address == 0x2002 {
            Self::Status
        } else if address == 0x2003 {
            Self::OamAddress
        } else if address == 0x2004 {
            Self::OamData
        } else if address == 0x2005 {
            Self::Scroll
        } else if address == 0x2006 {
            Self::Address
        } else if address == 0x2007 {
            Self::Data
        } else {
            Self::OamDma
        }
    }
}

} // verus!
