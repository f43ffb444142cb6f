use super::mapper::nrom::{
    mirrored_prg, padded_chr, NRom, CHR_BANK_SIZE, PRG_BANK_SIZE, PRG_RAM_SIZE,
};
use super::mapper::{Mapper, NROM};
use crate::error::EmuError;
use vstd::prelude::*;

verus! {

/// Length of the header at the start of a cartridge image.
pub const HEADER_SIZE: usize = 16;

/// Length of the trainer block that may follow the header.
pub const TRAINER_SIZE: usize = 512;

/// How the cartridge wires the name tables.
#[derive(Debug, Clone, Copy, PartialEq, Eq, Structural)]
pub enum MirrorType {
    Horizontal,
    Vertical,
    FourScreen,
}

impl From<MirrorType> for bool {
    fn from(data: MirrorType) -> (r: bool) {
        !matches!(data, MirrorType::Horizontal)
    }
}

impl vstd::std_specs::convert::FromSpecImpl<MirrorType> for bool {
    open spec fn obeys_from_spec() -> bool {
        true
    }

    /// Every arrangement but the horizontal one counts as mirrored.
    open spec fn from_spec(data: MirrorType) -> bool {
        !(data is Horizontal)
    }
}

impl From<bool> for MirrorType {
    fn from(data: bool) -> (r: MirrorType) {
        if data {
            MirrorType::Vertical
        } else {
            MirrorType::Horizontal
        }
    }
}

impl vstd::std_specs::convert::FromSpecImpl<bool> for MirrorType {
    open spec fn obeys_from_spec() -> bool {
        true
    }

    open spec fn from_spec(data: bool) -> MirrorType {
        if data {
            MirrorType::Vertical
        } else {
            MirrorType::Horizontal
        }
    }
}

/// What the header of a cartridge image says.
#[derive(Debug, Clone, Copy, PartialEq, Eq, Structural)]
pub struct CartridgeInfo {
    /// Number of 16 KiB PRG-ROM banks.
    pub prg: usize,
    /// Number of 8 KiB CHR banks.
    pub chr: usize,
    /// Mapper id.
    pub mapper: usize,
    pub mirror_type: MirrorType,
    /// The cartridge has battery-backed RAM.
    pub has_backed: bool,
    /// Offset of the first PRG-ROM byte in the image.
    pub data_start: usize,
}

/// The header starts with the four bytes `N`, `E`, `S`, `0x1a`.
pub open spec fn has_magic(header: Seq<u8>) -> bool {
    &&& header.len() >= 4
    &&& header[0] == 0x4e
    &&& header[1] == 0x45
    &&& header[2] == 0x53
    &&& header[3] == 0x1a
}

/// The bit of `byte` whose weight is `weight` (a power of two) is set.
pub open spec fn flag_set(byte: u8, weight: int) -> bool {
    (byte as int / weight) % 2 == 1
}

/// Mirroring named by flag byte 6: vertical if bit 0 is set, else four
/// screens if bit 3 is set, else horizontal.
pub open spec fn spec_mirror_type(flags6: u8) -> MirrorType {
    if flag_set(flags6, 1) {
        MirrorType::Vertical
    } else if flag_set(flags6, 8) {
        MirrorType::FourScreen
    } else {
        MirrorType::Horizontal
    }
}

/// Mapper id: the high four bits of flag byte 7, then the high four bits
/// of flag byte 6.
pub open spec fn spec_mapper_id(flags6: u8, flags7: u8) -> int {
    (flags7 as int / 16) * 16 + flags6 as int / 16
}

/// Where the PRG-ROM starts: after the header, and after the trainer if
/// bit 2 of flag byte 6 announces one.
pub open spec fn spec_data_start(flags6: u8) -> int {
    if flag_set(flags6, 4) {
        HEADER_SIZE + TRAINER_SIZE
    } else {
        HEADER_SIZE as int
    }
}

/// The reading of a 16-byte header.
pub open spec fn spec_parse_header(header: Seq<u8>) -> CartridgeInfo {
    CartridgeInfo {
        prg: header[4] as usize,
        chr: header[5] as usize,
        mapper: spec_mapper_id(header[6], header[7]) as usize,
        mirror_type: spec_mirror_type(header[6]),
        has_backed: flag_set(header[6], 2),
        data_start: spec_data_start(header[6]) as usize,
    }
}

/// Reason given when an image does not start with the magic bytes.
pub const BAD_MAGIC: &'static str = "magic check failed ,invalid ines file";

/// Reason given when an image asks for a mapper other than NROM.
pub const UNSUPPORTED_MAPPER: &'static str = "unsupported mapper type";

/// Name under which this module reports errors.
pub const REPORTER: &'static str = "rom::cartridge";

proof fn lemma_flag_bits(byte: u8, high: u8)
    by (bit_vector)
    ensures
        (byte & 0b1 != 0) == ((byte / 1) % 2 == 1),
        (byte & 0b10 != 0) == ((byte / 2) % 2 == 1),
        (byte & 0b100 != 0) == ((byte / 4) % 2 == 1),
        (byte & 0b1000 != 0) == ((byte / 8) % 2 == 1),
        (high & 0xf0 | ((byte & 0xf0) >> 4)) == (high / 16) * 16 + byte / 16,
{
}

impl CartridgeInfo {
    pub fn parse_header(buf: [u8; 16]) -> (r: Result<Self, EmuError>)
        ensures
            r is Ok <==> has_magic(buf@),
            r matches Ok(info) ==> info == spec_parse_header(buf@),
            r matches Err(e) ==> e.spec_reason() == BAD_MAGIC@ && e.spec_file_name() == REPORTER@
                && e.spec_line() == 0,
    {
        if buf[0] != 0x4e || buf[1] != 0x45 || buf[2] != 0x53 || buf[3] != 0x1a {
            return Err(EmuError::new(BAD_MAGIC.to_owned(), REPORTER.to_owned(), 0));
        }
        proof {
            lemma_flag_bits(buf[6], buf[7]);
        }
        let prg = buf[4] as usize;
        let chr = buf[5] as usize;
        let mirror = if buf[6] & 0b1 != 0 {
            MirrorType::Vertical
        } else if buf[6] & 0b1000 != 0 {
            MirrorType::FourScreen
        } else {
            MirrorType::Horizontal
        };
        let backed = buf[6] & 0b10 != 0;
        let mapper = buf[7] & 0xf0 | ((buf[6] & 0xf0) >> 4);
        let data_start: usize = if buf[6] & 0b100 != 0 {
            HEADER_SIZE + TRAINER_SIZE
        } else {
            HEADER_SIZE
        };
        Ok(
            Self {
                prg,
                chr,
                mapper: mapper as usize,
                mirror_type: mirror,
                has_backed: backed,
                data_start,
            },
        )
    }
}

/// The `len` bytes of `image` from `start` on; zero where the image has
/// ended.
pub open spec fn image_window(image: Seq<u8>, start: int, len: int) -> Seq<u8> {
    Seq::new(
        len as nat,
        |i: int|
            if start + i < image.len() {
                image[start + i]
            } else {
                0u8
            },
    )
}

/// The header of an image.
pub open spec fn image_header(image: Seq<u8>) -> Seq<u8> {
    image_window(image, 0, HEADER_SIZE as int)
}

/// The PRG-ROM bytes of an image whose header reads as `info`.
pub open spec fn image_prg(image: Seq<u8>, info: CartridgeInfo) -> Seq<u8> {
    image_window(image, info.data_start as int, info.prg * PRG_BANK_SIZE)
}

/// The CHR bytes of an image whose header reads as `info`.
pub open spec fn image_chr(image: Seq<u8>, info: CartridgeInfo) -> Seq<u8> {
    image_window(image, info.data_start + info.prg * PRG_BANK_SIZE, info.chr * CHR_BANK_SIZE)
}

/// A loaded cartridge: what its header says, and its memory behind the
/// mapper that the header names.
pub struct Cartridge {
    mapper: NRom,
    info: CartridgeInfo,
}

/// Copies `len` bytes of `image` from `start` on, with zeros past its end.
fn copy_window(image: &[u8], start: usize, len: usize) -> (out: Vec<u8>)
    requires
        start + len <= usize::MAX,
    ensures
        out@ == image_window(image@, start as int, len as int),
{
    let mut out: Vec<u8> = vec![0u8; len];
    let mut i: usize = 0;
    while i < len && start + i < image.len()
        invariant
            start + len <= usize::MAX,
            i <= len,
            out@.len() == len,
            forall|j: int| 0 <= j < i ==> out@[j] == image@[start + j],
            forall|j: int| i <= j < len ==> out@[j] == 0,
            i > 0 ==> start + i <= image@.len(),
        decreases len - i,
    {
        out[i] = image[start + i];
        i = i + 1;
    }
    assert(out@ =~= image_window(image@, start as int, len as int));
    out
}

impl Cartridge {
    /// What the header said.
    pub closed spec fn spec_info(&self) -> CartridgeInfo {
        self.info
    }

    /// The mapper and the memory it holds.
    pub closed spec fn mapper(&self) -> NRom {
        self.mapper
    }

    /// The cartridge has a byte for `address`.
    pub open spec fn mapped(&self, address: u16) -> bool {
        self.mapper().mapped(address)
    }

    /// The byte read at `address`.
    pub open spec fn byte_at(&self, address: u16) -> u8 {
        self.mapper().byte_at(address)
    }

    /// A write to `address` is stored.
    pub open spec fn writable(&self, address: u16) -> bool {
        self.mapper().writable(address)
    }

    /// Loads a cartridge from the bytes of an image file: header, optional
    /// trainer, PRG-ROM banks, CHR banks. Where the image ends early the
    /// missing bytes read as zero.
    ///
    /// Fails when the magic bytes are missing and when the header names a
    /// mapper other than NROM.
    pub fn new(image: &[u8]) -> (r: Result<Self, EmuError>)
        ensures
            r is Ok <==> has_magic(image_header(image@)) && spec_parse_header(
                image_header(image@),
            ).mapper == NROM,
            r matches Ok(c) ==> {
                let info = spec_parse_header(image_header(image@));
                &&& c.spec_info() == info
                &&& c.mapper().prg_rom() == mirrored_prg(image_prg(image@, info))
                &&& c.mapper().chr() == padded_chr(image_chr(image@, info))
                &&& c.mapper().prg_ram() == Seq::new(PRG_RAM_SIZE as nat, |i: int| 0u8)
                &&& c.mapper().is_mirroring() == !(info.mirror_type is Horizontal)
            },
            r matches Err(e) ==> {
                &&& e.spec_file_name() == REPORTER@
                &&& e.spec_line() == 0
                &&& e.spec_reason() == if has_magic(image_header(image@)) {
                    UNSUPPORTED_MAPPER@
                } else {
                    BAD_MAGIC@
                }
            },
    {
        let header = copy_window(image, 0, HEADER_SIZE);
        let mut buf = [0u8; 16];
        let mut i: usize = 0;
        while i < HEADER_SIZE
            invariant
                i <= HEADER_SIZE,
                header@.len() == HEADER_SIZE,
                forall|j: int| 0 <= j < i ==> buf@[j] == header@[j],
            decreases HEADER_SIZE - i,
        {
            buf[i] = header[i];
            i = i + 1;
        }
        assert(buf@ =~= image_header(image@));
        let info = match CartridgeInfo::parse_header(buf) {
            Ok(info) => info,
            Err(e) => {
                return Err(e);
            },
        };
        let prg_len: usize = info.prg * PRG_BANK_SIZE;
        let chr_len: usize = info.chr * CHR_BANK_SIZE;
        let prg = copy_window(image, info.data_start, prg_len);
        let chr = copy_window(image, info.data_start + prg_len, chr_len);
        if info.mapper == NROM {
            let nrom = NRom::new(prg, chr, bool::from(info.mirror_type));
            Ok(Self { mapper: nrom, info })
        } else {
            Err(EmuError::new(UNSUPPORTED_MAPPER.to_owned(), REPORTER.to_owned(), 0))
        }
    }

    /// What the header said.
    pub fn info(&self) -> (r: CartridgeInfo)
        ensures
            r == self.spec_info(),
    {
        self.info
    }

    pub fn read(&self, address: u16) -> (r: u8)
        requires
            self.mapped(address),
        ensures
            r == self.byte_at(address),
    {
        self.mapper.read(address)
    }

    pub fn write(&mut self, address: u16, data: u8)
        requires
            old(self).mapped(address),
        ensures
            final(self).spec_info() == old(self).spec_info(),
            forall|a: u16| #[trigger] final(self).mapped(a) == old(self).mapped(a),
            forall|a: u16| #[trigger]
                final(self).byte_at(a) == if a == address && old(self).writable(address) {
                    data
                } else {
                    old(self).byte_at(a)
                },
    {
        self.mapper.write(address, data)
    }
}

} // verus!
