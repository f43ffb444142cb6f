use vstd::prelude::*;

pub mod mmc3;
pub mod nrom;

pub use mmc3::MMC3;
pub use nrom::NRom;

verus! {

/// Mapper id of plain, unbanked cartridges.
pub const NROM: usize = 0;

/// Mapper id of the MMC3 family.
pub const MMC3: usize = 4;

/// The two read-only areas of a cartridge.
pub enum AccessArea {
    ChrRom,
    PrgRom,
}

/// The 16-bit value whose low byte is `low` and whose high byte is `high`.
pub open spec fn word(low: u8, high: u8) -> u16 {
    (low as int + 256 * (high as int)) as u16
}

/// A cartridge's view of the 16-bit address space: which addresses it
/// backs with storage, what it returns for them, and which of them take a
/// write.
pub trait Mapper {
    /// The cartridge has a byte for `address`.
    spec fn mapped(&self, address: u16) -> bool;

    /// The byte read at `address`.
    spec fn byte_at(&self, address: u16) -> u8;

    /// A write to `address` is stored. Elsewhere a write changes nothing.
    spec fn writable(&self, address: u16) -> bool;

    fn read(&self, address: u16) -> (r: u8)
        requires
            self.mapped(address),
        ensures
            r == self.byte_at(address),
    ;

    fn write(&mut self, address: u16, data: u8)
        requires
            old(self).mapped(address),
        ensures
            forall|a: u16| #[trigger] final(self).mapped(a) == old(self).mapped(a),
            forall|a: u16| #[trigger] final(self).writable(a) == old(self).writable(a),
            forall|a: u16| #[trigger]
                final(self).byte_at(a) == if a == address && old(self).writable(address) {
                    data
                } else {
                    old(self).byte_at(a)
                },
    ;

    /// Little-endian 16-bit read of `address` and the address after it.
    fn read_word(&self, address: u16) -> (r: u16)
        requires
            address < 0xffff,
            self.mapped(address),
            self.mapped((address + 1) as u16),
        ensures
            r == word(self.byte_at(address), self.byte_at((address + 1) as u16)),
    ;

    /// Little-endian 16-bit write: the low byte goes to `address`, then the
    /// high byte to the address after it.
    fn write_word(&mut self, address: u16, data: u16)
        requires
            address < 0xffff,
            old(self).mapped(address),
            old(self).mapped((address + 1) as u16),
        ensures
            forall|a: u16| #[trigger] final(self).mapped(a) == old(self).mapped(a),
            forall|a: u16| #[trigger] final(self).writable(a) == old(self).writable(a),
            forall|a: u16| #[trigger]
                final(self).byte_at(a) == if a == address + 1 && old(self).writable(a) {
                    (data / 256) as u8
                } else if a == address && old(self).writable(a) {
                    (data % 256) as u8
                } else {
                    old(self).byte_at(a)
                },
    ;

    /// The stored byte that a read of `address` returns.
    fn data_ref(&self, address: u16) -> (r: &u8)
        requires
            self.mapped(address),
        ensures
            *r == self.byte_at(address),
    ;

    /// The stored byte behind a writable `address`, for changing in place.
    fn data_ref_mut(&mut self, address: u16) -> (r: &mut u8)
        requires
            old(self).mapped(address),
            old(self).writable(address),
        ensures
            *r == old(self).byte_at(address),
            forall|a: u16| #[trigger] final(self).mapped(a) == old(self).mapped(a),
            forall|a: u16| #[trigger] final(self).writable(a) == old(self).writable(a),
            forall|a: u16| #[trigger]
                final(self).byte_at(a) == if a == address {
                    *final(r)
                } else {
                    old(self).byte_at(a)
                },
    ;
}

/// Splits a 16-bit value into its bytes: `(high, low)`.
pub fn split_word(data: u16) -> (r: (u8, u8))
    ensures
        r.0 == data / 256,
        r.1 == data % 256,
        word(r.1, r.0) == data,
{
    assert(((data & 0xff00) >> 8) == data / 256) by (bit_vector);
    assert((data & 0x00ff) == data % 256) by (bit_vector);
    (((data & 0xff00) >> 8) as u8, (data & 0x00ff) as u8)
}

/// Joins two bytes into the 16-bit value `word(low, high)`.
pub fn join_word(low: u8, high: u8) -> (r: u16)
    ensures
        r == word(low, high),
{
    let l: u16 = low as u16;
    let h: u16 = high as u16;
    assert((h << 8 | l) == l + 256 * h) by (bit_vector)
        requires
            l < 256,
            h < 256,
    ;
    h << 8 | l
}

} // verus!
