use vstd::prelude::*;

verus! {

/// Size of the work RAM at the bottom of the CPU address space.
pub const WORK_RAM_SIZE: usize = 0x2000;

/// First address past the CPU-side RAM and I/O register storage.
pub const CPU_RAM_END: usize = 0x6000;

/// First address of video RAM on the PPU side.
pub const VRAM_START: usize = 0x2000;

/// First address of the palettes.
pub const PALETTE_START: usize = 0x3f00;

/// First address past video RAM.
pub const VRAM_END: usize = 0x4000;

/// CPU-side storage: work RAM in `[0, 0x2000)` and the I/O register area in
/// `[0x2000, 0x6000)`. Both are plain bytes; nothing is mirrored and no
/// register is given a meaning here.
pub struct CPURam {
    ram: Vec<u8>,
    io_registers: Vec<u8>,
}

impl View for CPURam {
    type V = Seq<u8>;

    /// The 0x6000 bytes, indexed by address.
    closed spec fn view(&self) -> Seq<u8> {
        Seq::new(
            CPU_RAM_END as nat,
            |a: int|
                if a < WORK_RAM_SIZE {
                    self.ram@[a]
                } else {
                    self.io_registers@[a - WORK_RAM_SIZE]
                },
        )
    }
}

impl CPURam {
    #[verifier::type_invariant]
    spec fn inv(&self) -> bool {
        self.ram@.len() == WORK_RAM_SIZE && self.io_registers@.len() == CPU_RAM_END - WORK_RAM_SIZE
    }

    /// The view is 0x6000 bytes long.
    pub proof fn lemma_len(self)
        ensures
            self@.len() == CPU_RAM_END,
    {
    }

    pub fn read(&self, address: usize) -> (r: u8)
        requires
            address < CPU_RAM_END,
        ensures
            r == self@[address as int],
    {
        proof {
            use_type_invariant(self);
        }
        if address < WORK_RAM_SIZE {
            self.ram[address]
        } else {
            self.io_registers[address - WORK_RAM_SIZE]
        }
    }

    pub fn write(&mut self, address: usize, val: u8)
        requires
            address < CPU_RAM_END,
        ensures
            final(self)@ == old(self)@.update(address as int, val),
    {
        proof {
            use_type_invariant(&*self);
        }
        if address < WORK_RAM_SIZE {
            self.ram[address] = val;
        } else {
            self.io_registers[address - WORK_RAM_SIZE] = val;
        }
        assert(self@ =~= old(self)@.update(address as int, val));
    }
}

impl Default for CPURam {
    fn default() -> (r: Self)
        ensures
            r@ == Seq::new(CPU_RAM_END as nat, |i: int| 0u8),
    {
        let io_size: usize = CPU_RAM_END - WORK_RAM_SIZE;
        let r = Self { ram: vec![0u8; WORK_RAM_SIZE], io_registers: vec![0u8; io_size] };
        assert(r@ =~= Seq::new(CPU_RAM_END as nat, |i: int| 0u8));
        r
    }
}

/// PPU-side storage: name tables in `[0x2000, 0x3f00)` and palettes in
/// `[0x3f00, 0x4000)`.
pub struct VRam {
    name_tables: Vec<u8>,
    palettes: Vec<u8>,
}

impl View for VRam {
    type V = Seq<u8>;

    /// The 0x2000 bytes; the byte of address `a` stands at `a - 0x2000`.
    closed spec fn view(&self) -> Seq<u8> {
        Seq::new(
            (VRAM_END - VRAM_START) as nat,
            |i: int|
                if i < PALETTE_START - VRAM_START {
                    self.name_tables@[i]
                } else {
                    self.palettes@[i - (PALETTE_START - VRAM_START)]
                },
        )
    }
}

impl VRam {
    #[verifier::type_invariant]
    spec fn inv(&self) -> bool {
        self.name_tables@.len() == PALETTE_START - VRAM_START && self.palettes@.len() == VRAM_END
            - PALETTE_START
    }

    /// The view is 0x2000 bytes long.
    pub proof fn lemma_len(self)
        ensures
            self@.len() == VRAM_END - VRAM_START,
    {
    }

    pub fn read(&self, address: usize) -> (r: u8)
        requires
            VRAM_START <= address < VRAM_END,
        ensures
            r == self@[address - VRAM_START],
    {
        proof {
            use_type_invariant(self);
        }
        if address < PALETTE_START {
            self.name_tables[address - VRAM_START]
        } else {
            self.palettes[address - PALETTE_START]
        }
    }

    pub fn write(&mut self, address: usize, val: u8)
        requires
            VRAM_START <= address < VRAM_END,
        ensures
            final(self)@ == old(self)@.update(address - VRAM_START, val),
    {
        proof {
            use_type_invariant(&*self);
        }
        if address < PALETTE_START {
            self.name_tables[address - VRAM_START] = val;
        } else {
            self.palettes[address - PALETTE_START] = val;
        }
        assert(self@ =~= old(self)@.update(address - VRAM_START, val));
    }
}

impl Default for VRam {
    fn default() -> (r: Self)
        ensures
            r@ == Seq::new((VRAM_END - VRAM_START) as nat, |i: int| 0u8),
    {
        let name_tables_size: usize = PALETTE_START - VRAM_START;
        let palettes_size: usize = VRAM_END - PALETTE_START;
        let r = Self {
            name_tables: vec![0u8; name_tables_size],
            palettes: vec![0u8; palettes_size],
        };
        assert(r@ =~= Seq::new((VRAM_END - VRAM_START) as nat, |i: int| 0u8));
        r
    }
}

} // verus!
