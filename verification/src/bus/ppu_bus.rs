use crate::ram::{VRam, VRAM_END, VRAM_START};
use crate::rom::Cartridge;
use vstd::prelude::*;

verus! {

/// The address space as the PPU bus shows it: the cartridge's CHR below
/// 0x2000, video RAM from there to 0x4000.
pub open spec fn ppu_bus_view(vram: Seq<u8>, cartridge: Cartridge) -> Seq<u8> {
    Seq::new(
        VRAM_END as nat,
        |a: int|
            if a < VRAM_START {
                cartridge.byte_at(a as u16)
            } else {
                vram[a - VRAM_START]
            },
    )
}

/// The memory after a write of `val` to `address`. Video RAM stores the
/// byte; CHR does not.
pub open spec fn ppu_write_byte(mem: Seq<u8>, address: int, val: u8) -> Seq<u8> {
    if address >= VRAM_START {
        mem.update(address, val)
    } else {
        mem
    }
}

/// The bus on the PPU side. It routes `[0, 0x2000)` to the cartridge and
/// `[0x2000, 0x4000)` to video RAM.
pub struct PPUBus {
    cartridge_port: Cartridge,
    vram_port: VRam,
}

impl View for PPUBus {
    type V = Seq<u8>;

    /// The 0x4000 bytes that reads return, indexed by address.
    closed spec fn view(&self) -> Seq<u8> {
        ppu_bus_view(self.vram_port@, self.cartridge_port)
    }
}

impl PPUBus {
    /// The cartridge on the bus.
    pub closed spec fn spec_cartridge(&self) -> Cartridge {
        self.cartridge_port
    }

    /// The video RAM on the bus.
    pub closed spec fn spec_vram(&self) -> VRam {
        self.vram_port
    }

    pub fn connect(cartridge_port: Cartridge, vram_port: VRam) -> (r: Self)
        ensures
            r.spec_cartridge() == cartridge_port,
            r.spec_vram() == vram_port,
            r@ == ppu_bus_view(vram_port@, cartridge_port),
    {
        Self { cartridge_port, vram_port }
    }

    /// Takes the bus apart, so that its cartridge and video RAM can be
    /// handed on.
    pub fn disconnect(self) -> (r: (Cartridge, VRam))
        ensures
            r.0 == self.spec_cartridge(),
            r.1 == self.spec_vram(),
    {
        (self.cartridge_port, self.vram_port)
    }

    pub fn cartridge_port(&self) -> (r: &Cartridge)
        ensures
            *r == self.spec_cartridge(),
    {
        &self.cartridge_port
    }

    pub fn vram_port(&self) -> (r: &VRam)
        ensures
            *r == self.spec_vram(),
    {
        &self.vram_port
    }

    pub fn read(&self, address: usize) -> (r: u8)
        requires
            address < VRAM_END,
        ensures
            r == self@[address as int],
    {
        if address < VRAM_START {
            self.cartridge_port.read(address as u16)
        } else {
            self.vram_port.read(address)
        }
    }

    pub fn write(&mut self, address: usize, val: u8)
        requires
            address < VRAM_END,
        ensures
            final(self)@ == ppu_write_byte(old(self)@, address as int, val),
    {
        if address < VRAM_START {
            self.cartridge_port.write(address as u16, val);
        } else {
            self.vram_port.write(address, val);
        }
        proof {
            old(self).vram_port.lemma_len();
        }
        assert(self@ =~= ppu_write_byte(old(self)@, address as int, val));
    }
}

} // verus!
