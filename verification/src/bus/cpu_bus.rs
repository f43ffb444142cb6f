use crate::ram::{CPURam, CPU_RAM_END};
use crate::rom::mapper::{join_word, word};
use crate::rom::Cartridge;
use vstd::prelude::*;

verus! {

/// Size of the CPU address space.
pub const ADDRESS_SPACE: usize = 0x10000;

/// First address that the CPU bus does not store writes to: the start of
/// PRG-ROM.
pub const ROM_START: usize = 0x8000;

/// The address space as the CPU bus shows it: RAM and I/O registers below
/// 0x6000, the cartridge from there on.
pub open spec fn bus_view(ram: Seq<u8>, cartridge: Cartridge) -> Seq<u8> {
    Seq::new(
        ADDRESS_SPACE as nat,
        |a: int|
            if a < CPU_RAM_END {
                ram[a]
            } else {
                cartridge.byte_at(a as u16)
            },
    )
}

/// The address from which a 16-bit read at `address` takes its high byte.
///
/// It is the next address, except at the last byte of a 256-byte page
/// below 0x6000, where the read wraps to the start of that page. Past the
/// top of the address space the next address is 0.
pub open spec fn high_byte_address(address: int) -> int {
    if address < CPU_RAM_END && address % 256 == 255 {
        address - 255
    } else {
        (address + 1) % (ADDRESS_SPACE as int)
    }
}

/// What a 16-bit read at `address` returns from the memory `mem`.
pub open spec fn read_word(mem: Seq<u8>, address: int) -> u16 {
    word(mem[address], mem[high_byte_address(address)])
}

/// The memory after a write of `val` to `address`. Addresses below 0x8000
/// store the byte; PRG-ROM does not.
pub open spec fn write_byte(mem: Seq<u8>, address: int, val: u8) -> Seq<u8> {
    if address < ROM_START {
        mem.update(address, val)
    } else {
        mem
    }
}

/// The bus on the CPU side. It routes `[0, 0x6000)` to RAM and I/O register
/// storage and `[0x6000, 0x10000)` to the cartridge, and gives the bytes it
/// moves no meaning.
pub struct CPUBus {
    cartridge_port: Cartridge,
    ram_port: CPURam,
}

impl View for CPUBus {
    type V = Seq<u8>;

    /// The 0x10000 bytes that reads return, indexed by address.
    closed spec fn view(&self) -> Seq<u8> {
        bus_view(self.ram_port@, self.cartridge_port)
    }
}

impl CPUBus {
    /// The cartridge on the bus.
    pub closed spec fn spec_cartridge(&self) -> Cartridge {
        self.cartridge_port
    }

    /// The RAM on the bus.
    pub closed spec fn spec_ram(&self) -> CPURam {
        self.ram_port
    }

    /// The view spans the whole address space.
    pub proof fn lemma_len(self)
        ensures
            self@.len() == ADDRESS_SPACE,
    {
    }

    pub fn connect(cartridge_port: Cartridge, ram_port: CPURam) -> (r: Self)
        ensures
            r.spec_cartridge() == cartridge_port,
            r.spec_ram() == ram_port,
            r@ == bus_view(ram_port@, cartridge_port),
    {
        Self { cartridge_port, ram_port }
    }

    /// Takes the bus apart, so that its cartridge and RAM can be handed
    /// on.
    pub fn disconnect(self) -> (r: (Cartridge, CPURam))
        ensures
            r.0 == self.spec_cartridge(),
            r.1 == self.spec_ram(),
    {
        (self.cartridge_port, self.ram_port)
    }

    pub fn cartridge_port(&self) -> (r: &Cartridge)
        ensures
            *r == self.spec_cartridge(),
    {
        &self.cartridge_port
    }

    pub fn ram_port(&self) -> (r: &CPURam)
        ensures
            *r == self.spec_ram(),
    {
        &self.ram_port
    }

    pub fn read(&self, address: usize) -> (r: u8)
        requires
            address < ADDRESS_SPACE,
        ensures
            r == self@[address as int],
    {
        if address < CPU_RAM_END {
            self.ram_port.read(address)
        } else {
            self.cartridge_port.read(address as u16)
        }
    }

    pub fn read_u16(&self, address: usize) -> (r: u16)
        requires
            address < ADDRESS_SPACE,
        ensures
            r == read_word(self@, address as int),
    {
        let high_address = if address < CPU_RAM_END && address % 256 == 255 {
            address - 255
        } else {
            (address + 1) % ADDRESS_SPACE
        };
        join_word(self.read(address), self.read(high_address))
    }

    pub fn write(&mut self, address: usize, val: u8)
        requires
            address < ADDRESS_SPACE,
        ensures
            final(self)@ == write_byte(old(self)@, address as int, val),
    {
        if address < CPU_RAM_END {
            self.ram_port.write(address, val);
        } else {
            self.cartridge_port.write(address as u16, val);
        }
        proof {
            old(self).ram_port.lemma_len();
        }
        assert(self@ =~= write_byte(old(self)@, address as int, val));
    }
}

} // verus!
