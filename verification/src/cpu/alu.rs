use super::flags::Flags;
use super::opcode::Opcode;
use vstd::prelude::*;

verus! {

/// `ADC`: accumulator plus operand plus carry. Carry tells whether the sum
/// passed 255, Overflow whether the signs of both inputs differ from the
/// sign of the result.
pub open spec fn spec_adc(p: Flags, a: u8, v: u8) -> (u8, Flags) {
    let sum = a + v + p.spec_carry();
    let r = (sum % 256) as u8;
    (r, p.with(Flags::C, sum > 0xff).with_zn(r).with(Flags::V, (a ^ r) & (v ^ r) & 0x80 != 0))
}

#[verifier::when_used_as_spec(spec_adc)]
pub fn adc(p: Flags, a: u8, v: u8) -> (out: (u8, Flags))
    ensures
        out == spec_adc(p, a, v),
{
    let sum: u16 = a as u16 + v as u16 + p.carry() as u16;
    let r: u8 = (sum % 256) as u8;
    let mut q = p;
    q.set(Flags::C, sum > 0xff);
    q.set(Flags::Z, r == 0);
    q.set(Flags::N, r & 0b1000_0000 != 0);
    q.set(Flags::V, (a ^ r) & (v ^ r) & 0x80 != 0);
    (r, q)
}

/// `SBC`: accumulator minus operand minus borrow, where a clear Carry is a
/// borrow. Carry tells that no borrow was needed.
pub open spec fn spec_sbc(p: Flags, a: u8, v: u8) -> (u8, Flags) {
    let diff = a - v - (1 - p.spec_carry());
    let r = (diff % 256) as u8;
    (
        r,
        p.with(Flags::C, diff >= 0).with(Flags::V, (r ^ a) & (r ^ v ^ 0xff) & 0x80 != 0).with_zn(
            r,
        ),
    )
}

#[verifier::when_used_as_spec(spec_sbc)]
pub fn sbc(p: Flags, a: u8, v: u8) -> (out: (u8, Flags))
    ensures
        out == spec_sbc(p, a, v),
{
    let borrow: u16 = 1 - p.carry() as u16;
    let minuend: u16 = 256 + a as u16;
    let diff: u16 = minuend - v as u16 - borrow;
    let r: u8 = (diff % 256) as u8;
    let mut q = p;
    q.set(Flags::C, diff >= 256);
    q.set(Flags::V, (r ^ a) & (r ^ v ^ 0xff) & 0x80 != 0);
    q.set(Flags::Z, r == 0);
    q.set(Flags::N, r & 0b1000_0000 != 0);
    (r, q)
}

/// `CMP`, `CPX`, `CPY`: Carry tells whether the register is at least the
/// operand; Zero and Negative describe their difference.
pub open spec fn spec_compare(p: Flags, reg: u8, v: u8) -> Flags {
    p.with(Flags::C, reg >= v).with_zn(((reg - v) % 256) as u8)
}

#[verifier::when_used_as_spec(spec_compare)]
pub fn compare(p: Flags, reg: u8, v: u8) -> (out: Flags)
    ensures
        out == spec_compare(p, reg, v),
{
    let r: u8 = reg.wrapping_sub(v);
    let mut q = p;
    q.set(Flags::C, reg >= v);
    q.set(Flags::Z, r == 0);
    q.set(Flags::N, r & 0b1000_0000 != 0);
    q
}

/// `INC`: the operand plus one, wrapping to 0 after 255.
pub open spec fn spec_inc(p: Flags, v: u8) -> (u8, Flags) {
    let r = ((v + 1) % 256) as u8;
    (r, p.with_zn(r))
}

#[verifier::when_used_as_spec(spec_inc)]
pub fn inc(p: Flags, v: u8) -> (out: (u8, Flags))
    ensures
        out == spec_inc(p, v),
{
    let r: u8 = v.wrapping_add(1);
    let mut q = p;
    q.set(Flags::Z, r == 0);
    q.set(Flags::N, r & 0b1000_0000 != 0);
    (r, q)
}

/// `DEC`: the operand minus one, wrapping to 255 below 0.
pub open spec fn spec_dec(p: Flags, v: u8) -> (u8, Flags) {
    let r = ((v - 1) % 256) as u8;
    (r, p.with_zn(r))
}

#[verifier::when_used_as_spec(spec_dec)]
pub fn dec(p: Flags, v: u8) -> (out: (u8, Flags))
    ensures
        out == spec_dec(p, v),
{
    let r: u8 = v.wrapping_sub(1);
    let mut q = p;
    q.set(Flags::Z, r == 0);
    q.set(Flags::N, r & 0b1000_0000 != 0);
    (r, q)
}

/// `ASL`: shift left; bit 7 goes to Carry.
pub open spec fn spec_asl(p: Flags, v: u8) -> (u8, Flags) {
    let r = ((v * 2) % 256) as u8;
    (r, p.with(Flags::C, v & 0x80 != 0).with_zn(r))
}

#[verifier::when_used_as_spec(spec_asl)]
pub fn asl(p: Flags, v: u8) -> (out: (u8, Flags))
    ensures
        out == spec_asl(p, v),
{
    let r: u8 = ((v as u16 * 2) % 256) as u8;
    let mut q = p;
    q.set(Flags::C, v & 0x80 != 0);
    q.set(Flags::Z, r == 0);
    q.set(Flags::N, r & 0b1000_0000 != 0);
    (r, q)
}

/// `LSR`: shift right; bit 0 goes to Carry.
pub open spec fn spec_lsr(p: Flags, v: u8) -> (u8, Flags) {
    let r = (v / 2) as u8;
    (r, p.with(Flags::C, v & 0x1 != 0).with_zn(r))
}

#[verifier::when_used_as_spec(spec_lsr)]
pub fn lsr(p: Flags, v: u8) -> (out: (u8, Flags))
    ensures
        out == spec_lsr(p, v),
{
    let r: u8 = v / 2;
    let mut q = p;
    q.set(Flags::C, v & 0x1 != 0);
    q.set(Flags::Z, r == 0);
    q.set(Flags::N, r & 0b1000_0000 != 0);
    (r, q)
}

/// `ROL`: rotate left through Carry.
pub open spec fn spec_rol(p: Flags, v: u8) -> (u8, Flags) {
    let r = ((v * 2 + p.spec_carry()) % 256) as u8;
    (r, p.with(Flags::C, v & 0x80 != 0).with_zn(r))
}

#[verifier::when_used_as_spec(spec_rol)]
pub fn rol(p: Flags, v: u8) -> (out: (u8, Flags))
    ensures
        out == spec_rol(p, v),
{
    let r: u8 = ((v as u16 * 2 + p.carry() as u16) % 256) as u8;
    let mut q = p;
    q.set(Flags::C, v & 0x80 != 0);
    q.set(Flags::Z, r == 0);
    q.set(Flags::N, r & 0b1000_0000 != 0);
    (r, q)
}

/// `ROR`: rotate right through Carry.
pub open spec fn spec_ror(p: Flags, v: u8) -> (u8, Flags) {
    let r = (v / 2 + 128 * p.spec_carry()) as u8;
    (r, p.with(Flags::C, v & 0x1 != 0).with_zn(r))
}

#[verifier::when_used_as_spec(spec_ror)]
pub fn ror(p: Flags, v: u8) -> (out: (u8, Flags))
    ensures
        out == spec_ror(p, v),
{
    let r: u8 = v / 2 + 128 * p.carry();
    let mut q = p;
    q.set(Flags::C, v & 0x1 != 0);
    q.set(Flags::Z, r == 0);
    q.set(Flags::N, r & 0b1000_0000 != 0);
    (r, q)
}

/// `BIT`: Zero tells whether accumulator and operand share no bit;
/// Overflow and Negative copy bits 6 and 7 of the operand.
pub open spec fn spec_bit(p: Flags, a: u8, v: u8) -> Flags {
    p.with(Flags::Z, (v & a) == 0).with(Flags::V, v & 0b0100_0000 != 0).with(
        Flags::N,
        v & 0b1000_0000 != 0,
    )
}

#[verifier::when_used_as_spec(spec_bit)]
pub fn bit(p: Flags, a: u8, v: u8) -> (out: Flags)
    ensures
        out == spec_bit(p, a, v),
{
    let mut q = p;
    q.set(Flags::Z, (v & a) == 0);
    q.set(Flags::V, v & 0b0100_0000 != 0);
    q.set(Flags::N, v & 0b1000_0000 != 0);
    q
}

/// The flags as `PHP` pushes them: Break and Unused set.
pub open spec fn spec_pushed_flags(p: Flags) -> u8 {
    p.with(Flags::B, true).with(Flags::U, true).bits
}

#[verifier::when_used_as_spec(spec_pushed_flags)]
pub fn pushed_flags(p: Flags) -> (out: u8)
    ensures
        out == spec_pushed_flags(p),
{
    let mut q = p;
    q.set(Flags::B, true);
    q.set(Flags::U, true);
    q.bits()
}

/// The flags as `PLP` and `RTI` restore them from a stack byte: Break
/// clear, Unused set.
pub open spec fn spec_pulled_flags(byte: u8) -> Flags {
    Flags { bits: byte }.with(Flags::B, false).with(Flags::U, true)
}

#[verifier::when_used_as_spec(spec_pulled_flags)]
pub fn pulled_flags(byte: u8) -> (out: Flags)
    ensures
        out == spec_pulled_flags(byte),
{
    let mut q = Flags::from_bits_truncate(byte);
    q.set(Flags::B, false);
    q.set(Flags::U, true);
    q
}

/// Whether a branch operation jumps under the flags `p`.
pub open spec fn spec_branch_taken(opcode: Opcode, p: Flags) -> bool {
    match opcode {
        Opcode::BCC => !p.spec_contains(Flags::C),
        Opcode::BCS => p.spec_contains(Flags::C),
        Opcode::BEQ => p.spec_contains(Flags::Z),
        Opcode::BNE => !p.spec_contains(Flags::Z),
        Opcode::BMI => p.spec_contains(Flags::N),
        Opcode::BPL => !p.spec_contains(Flags::N),
        Opcode::BVC => !p.spec_contains(Flags::V),
        Opcode::BVS => p.spec_contains(Flags::V),
        _ => false,
    }
}

#[verifier::when_used_as_spec(spec_branch_taken)]
pub fn branch_taken(opcode: Opcode, p: Flags) -> (out: bool)
    ensures
        out == spec_branch_taken(opcode, p),
{
    match opcode {
        Opcode::BCC => !p.contains(Flags::C),
        Opcode::BCS => p.contains(Flags::C),
        Opcode::BEQ => p.contains(Flags::Z),
        Opcode::BNE => !p.contains(Flags::Z),
        Opcode::BMI => p.contains(Flags::N),
        Opcode::BPL => !p.contains(Flags::N),
        Opcode::BVC => !p.contains(Flags::V),
        Opcode::BVS => p.contains(Flags::V),
        _ => false,
    }
}

} // verus!
