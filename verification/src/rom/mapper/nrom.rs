use super::{join_word, split_word, Mapper};
use vstd::prelude::*;

verus! {

/// Size of one PRG-ROM bank.
pub const PRG_BANK_SIZE: usize = 0x4000;

/// Size of the window through which the CPU sees PRG-ROM.
pub const PRG_WINDOW_SIZE: usize = 0x8000;

/// Size of one CHR bank, and of the window through which the PPU sees CHR.
pub const CHR_BANK_SIZE: usize = 0x2000;

/// Size of the PRG-RAM.
pub const PRG_RAM_SIZE: usize = 0x2000;

/// First address of PRG-RAM.
pub const PRG_RAM_START: u16 = 0x6000;

/// First address of PRG-ROM.
pub const PRG_ROM_START: u16 = 0x8000;

/// Last address that selects CHR.
pub const CHR_LAST: u16 = 0x2000;

/// PRG-ROM as the mapper holds it: a ROM of at most one bank fills the
/// first bank of the window, padded with zeros, and the second bank repeats
/// the first. A larger ROM is held as it is.
pub open spec fn mirrored_prg(prg_rom: Seq<u8>) -> Seq<u8> {
    if prg_rom.len() <= PRG_BANK_SIZE {
        Seq::new(
            PRG_WINDOW_SIZE as nat,
            |i: int|
                if i % (PRG_BANK_SIZE as int) < prg_rom.len() {
                    prg_rom[i % (PRG_BANK_SIZE as int)]
                } else {
                    0u8
                },
        )
    } else {
        prg_rom
    }
}

/// CHR as the mapper holds it: one bank of zeros where the cartridge has
/// none.
pub open spec fn padded_chr(chr_rom: Seq<u8>) -> Seq<u8> {
    if chr_rom.len() == 0 {
        Seq::new(CHR_BANK_SIZE as nat, |i: int| 0u8)
    } else {
        chr_rom
    }
}

/// Offset into PRG-ROM that an address at or above 0x8000 selects: the
/// distance from 0x8000, taken within the first bank when the mirroring
/// flag is set.
pub open spec fn prg_offset(address: u16, is_mirroring: bool) -> int {
    if is_mirroring {
        (address - PRG_ROM_START) % (PRG_BANK_SIZE as int)
    } else {
        address - PRG_ROM_START
    }
}

/// The unbanked mapper: CHR at `[0, 0x2000]`, PRG-RAM at `[0x6000, 0x8000)`
/// and PRG-ROM at `[0x8000, 0x10000)`.
///
/// Only PRG-RAM takes writes. A write to CHR or to PRG-ROM is accepted and
/// changes nothing.
pub struct NRom {
    prg_rom: Vec<u8>,
    chr: Vec<u8>,
    prg_ram: Vec<u8>,
    is_mirroring: bool,
}

impl NRom {
    #[verifier::type_invariant]
    spec fn inv(&self) -> bool {
        &&& self.prg_rom@.len() >= PRG_WINDOW_SIZE
        &&& self.chr@.len() >= CHR_BANK_SIZE
        &&& self.prg_ram@.len() == PRG_RAM_SIZE
    }

    /// The PRG-ROM bytes.
    pub closed spec fn prg_rom(&self) -> Seq<u8> {
        self.prg_rom@
    }

    /// The CHR bytes.
    pub closed spec fn chr(&self) -> Seq<u8> {
        self.chr@
    }

    /// The PRG-RAM bytes.
    pub closed spec fn prg_ram(&self) -> Seq<u8> {
        Seq::new(PRG_RAM_SIZE as nat, |i: int| self.prg_ram@[i])
    }

    /// The mirroring flag.
    pub closed spec fn is_mirroring(&self) -> bool {
        self.is_mirroring
    }

    /// Sizes from which a mapper can be made: the PRG-ROM either fits in
    /// one bank or fills the whole window, and CHR is absent or at least
    /// one bank.
    pub open spec fn fits(prg_len: nat, chr_len: nat) -> bool {
        &&& prg_len <= PRG_BANK_SIZE || prg_len >= PRG_WINDOW_SIZE
        &&& chr_len == 0 || chr_len >= CHR_BANK_SIZE
    }

    pub fn new(prg_rom: Vec<u8>, chr_rom: Vec<u8>, is_mirroring: bool) -> (r: Self)
        requires
            Self::fits(prg_rom@.len(), chr_rom@.len()),
        ensures
            r.prg_rom() == mirrored_prg(prg_rom@),
            r.chr() == padded_chr(chr_rom@),
            r.prg_ram() == Seq::new(PRG_RAM_SIZE as nat, |i: int| 0u8),
            r.is_mirroring() == is_mirroring,
    {
        let mut prg_rom = prg_rom;
        let mut chr_rom = chr_rom;
        if chr_rom.len() == 0 {
            chr_rom.resize(CHR_BANK_SIZE, 0);
            assert(chr_rom@ =~= padded_chr(Seq::empty()));
        }
        if prg_rom.len() <= PRG_BANK_SIZE {
            let ghost given = prg_rom@;
            let len = prg_rom.len();
            prg_rom.resize(PRG_WINDOW_SIZE, 0);
            let mut i: usize = 0;
            while i < len
                invariant
                    len == given.len(),
                    len <= PRG_BANK_SIZE,
                    i <= len,
                    prg_rom@.len() == PRG_WINDOW_SIZE,
                    forall|j: int| 0 <= j < len ==> prg_rom@[j] == given[j],
                    forall|j: int| len <= j < PRG_BANK_SIZE ==> prg_rom@[j] == 0,
                    forall|j: int| 0 <= j < i ==> prg_rom@[PRG_BANK_SIZE + j] == given[j],
                    forall|j: int| PRG_BANK_SIZE + i <= j < PRG_WINDOW_SIZE ==> prg_rom@[j] == 0,
                decreases len - i,
            {
                let byte = prg_rom[i];
                prg_rom[PRG_BANK_SIZE + i] = byte;
                i = i + 1;
            }
            assert(prg_rom@ =~= mirrored_prg(given));
        }
        let prg_ram = vec![0u8; PRG_RAM_SIZE];
        assert(prg_ram@ =~= Seq::new(PRG_RAM_SIZE as nat, |i: int| 0u8));
        Self { prg_rom, chr: chr_rom, prg_ram, is_mirroring }
    }

    /// Index into CHR for an address up to 0x2000, into PRG-ROM for one from
    /// 0x8000 on.
    pub open spec fn spec_parse_address(&self, address: u16) -> int {
        if address <= CHR_LAST {
            address as int
        } else {
            prg_offset(address, self.is_mirroring())
        }
    }

    fn parse_address(&self, address: u16) -> (r: u16)
        requires
            address <= CHR_LAST || address >= PRG_ROM_START,
        ensures
            r == self.spec_parse_address(address),
            address >= PRG_ROM_START ==> r < PRG_WINDOW_SIZE,
    {
        if address <= CHR_LAST {
            address
        } else if self.is_mirroring {
            assert((address & 0b1011_1111_1111_1111) >= 0x8000 && (address
                & 0b1011_1111_1111_1111) - 0x8000 == (address - 0x8000) % 0x4000) by (bit_vector)
                requires
                    address >= 0x8000,
            ;
            (address & 0b1011_1111_1111_1111) - PRG_ROM_START
        } else {
            address - PRG_ROM_START
        }
    }
}

impl Mapper for NRom {
    /// All of CHR's first bank, PRG-RAM and PRG-ROM; address 0x2000 too
    /// where CHR is longer than one bank.
    open spec fn mapped(&self, address: u16) -> bool {
        ||| address < CHR_LAST
        ||| address == CHR_LAST && self.chr().len() > CHR_BANK_SIZE
        ||| address >= PRG_RAM_START
    }

    open spec fn byte_at(&self, address: u16) -> u8 {
        if address <= CHR_LAST {
            self.chr()[address as int]
        } else if address >= PRG_ROM_START {
            self.prg_rom()[prg_offset(address, self.is_mirroring())]
        } else if address >= PRG_RAM_START {
            self.prg_ram()[address - PRG_RAM_START]
        } else {
            0
        }
    }

    open spec fn writable(&self, address: u16) -> bool {
        PRG_RAM_START <= address < PRG_ROM_START
    }

    fn read(&self, address: u16) -> (r: u8) {
        *self.data_ref(address)
    }

    fn write(&mut self, address: u16, data: u8)
        ensures
            final(self).prg_rom() == old(self).prg_rom(),
            final(self).chr() == old(self).chr(),
            final(self).is_mirroring() == old(self).is_mirroring(),
            final(self).prg_ram() == if old(self).writable(address) {
                old(self).prg_ram().update(address - PRG_RAM_START, data)
            } else {
                old(self).prg_ram()
            },
    {
        proof {
            use_type_invariant(&*self);
        }
        if PRG_RAM_START <= address && address < PRG_ROM_START {
            self.prg_ram[(address - PRG_RAM_START) as usize] = data;
        }
    }

    fn read_word(&self, address: u16) -> (r: u16) {
        join_word(self.read(address), self.read(address + 1))
    }

    fn write_word(&mut self, address: u16, data: u16) {
        let (high, low) = split_word(data);
        self.write(address, low);
        self.write(address + 1, high);
    }

    fn data_ref(&self, address: u16) -> (r: &u8) {
        proof {
            use_type_invariant(self);
        }
        if address <= CHR_LAST {
            &self.chr[address as usize]
        } else if address >= PRG_ROM_START {
            &self.prg_rom[self.parse_address(address) as usize]
        } else {
            &self.prg_ram[(address - PRG_RAM_START) as usize]
        }
    }

    fn data_ref_mut(&mut self, address: u16) -> (r: &mut u8) {
        proof {
            use_type_invariant(&*self);
        }
        &mut self.prg_ram[(address - PRG_RAM_START) as usize]
    }
}

/// A mapper made from a PRG-ROM of at most one bank shows that bank twice:
/// the byte at an offset into `[0x8000, 0xc000)` is the byte at the same
/// offset into `[0xc000, 0x10000)`.
pub proof fn lemma_bank_mirroring(mapper: NRom, prg_rom: Seq<u8>, offset: u16)
    requires
        prg_rom.len() <= PRG_BANK_SIZE,
        mapper.prg_rom() == mirrored_prg(prg_rom),
        offset < PRG_BANK_SIZE,
    ensures
        mapper.byte_at((0x8000 + offset) as u16) == mapper.byte_at((0xc000 + offset) as u16),
        offset < prg_rom.len() ==> mapper.byte_at((0x8000 + offset) as u16)
            == prg_rom[offset as int],
        offset >= prg_rom.len() ==> mapper.byte_at((0x8000 + offset) as u16) == 0,
{
}

} // verus!
