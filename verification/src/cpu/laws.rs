use super::alu::{
    spec_adc, spec_branch_taken, spec_compare, spec_pulled_flags, spec_pushed_flags, spec_sbc,
};
use super::flags::{is_flag, lemma_with_flag, Flags};
use super::machine::{following_in_page, signed, Machine};
use super::opcode::{AddressingType, Inst};
use crate::bus::cpu_bus::ADDRESS_SPACE;
use crate::rom::mapper::word;
use vstd::prelude::*;

verus! {

/// Zero-page addressing never leaves the zero page: an index is added to
/// the operand byte modulo 256.
pub proof fn lemma_zero_page_wraps(m: Machine)
    ensures
        m.operand_address(AddressingType::ZeroPage) == m.zero_page(),
        m.operand_address(AddressingType::ZeroPageX) == (m.zero_page() + m.regs.X) % 256,
        m.operand_address(AddressingType::ZeroPageY) == (m.zero_page() + m.regs.Y) % 256,
        0 <= m.operand_address(AddressingType::ZeroPage) < 0x100,
        0 <= m.operand_address(AddressingType::ZeroPageX) < 0x100,
        0 <= m.operand_address(AddressingType::ZeroPageY) < 0x100,
{
}

/// Absolute indexed addressing wraps at 16 bits: an index is added to the
/// operand word modulo 0x10000, so the carry into the high byte is kept
/// and only the carry out of it is lost.
pub proof fn lemma_absolute_indexed_wraps(m: Machine)
    ensures
        m.operand_address(AddressingType::AbsoluteX) == (m.absolute() + m.regs.X) % 0x10000,
        m.operand_address(AddressingType::AbsoluteY) == (m.absolute() + m.regs.Y) % 0x10000,
        m.operand_address(AddressingType::IndirectY) == (m.mem_word(m.zero_page() as int)
            + m.regs.Y) % 0x10000,
{
}

/// The target of an indirect jump takes its low byte from the pointer and
/// its high byte from the next address, unless the pointer is the last
/// byte of a page: then the high byte comes from the first byte of that
/// same page.
pub proof fn lemma_indirect_stays_in_page(m: Machine)
    ensures
        m.absolute() % 256 == 255 ==> m.indirect() == word(
            m.mem[m.absolute() as int],
            m.mem[m.absolute() - 255],
        ),
        m.absolute() % 256 != 255 ==> m.indirect() == word(
            m.mem[m.absolute() as int],
            m.mem[m.absolute() + 1],
        ),
{
    let pointer = m.absolute() as int;
    if pointer % 256 == 255 {
        assert(following_in_page(pointer) == pointer - 255);
    } else {
        assert(following_in_page(pointer) == pointer + 1);
    }
}

/// A taken branch lands at the address after the instruction, moved by the
/// signed displacement; a branch that is not taken only steps over the
/// instruction. Either way nothing but the program counter changes.
pub proof fn lemma_branch_target(m: Machine, inst: Inst)
    requires
        inst.opcode.spec_family() is Branch,
        inst.address_type is Relative,
    ensures
        m.step(inst) == m.with_pc(m.step(inst).regs.PC),
        spec_branch_taken(inst.opcode, m.regs.P) ==> m.step(inst).regs.PC == (m.regs.PC
            + inst.inst_len + signed(m.zero_page())) % 0x10000,
        !spec_branch_taken(inst.opcode, m.regs.P) ==> m.step(inst).regs.PC == (m.regs.PC
            + inst.inst_len) % 0x10000,
{
}

/// An instruction that neither sets the program counter itself nor
/// resolves a displacement leaves the program counter at the address
/// after the instruction.
pub proof fn lemma_pc_advances(m: Machine, inst: Inst)
    requires
        !(inst.opcode.spec_family() is Jump),
        !(inst.address_type is Relative),
    ensures
        m.step(inst).regs.PC == (m.regs.PC + inst.inst_len) % 0x10000,
{
}

/// Executing an instruction keeps the memory as long as the address space.
pub proof fn lemma_step_wf(m: Machine, inst: Inst)
    requires
        m.wf(),
    ensures
        m.step(inst).wf(),
{
}

/// Running any number of instructions keeps the memory as long as the
/// address space.
pub proof fn lemma_run_wf(m: Machine, n: nat)
    requires
        m.wf(),
    ensures
        m.run(n).wf(),
    decreases n,
{
    if n > 0 {
        lemma_run_wf(m, (n - 1) as nat);
        let before = m.run((n - 1) as nat);
        lemma_step_wf(before, before.next_inst());
    }
}

/// What is pushed is what is popped next, and the stack pointer is back
/// where it was.
pub proof fn lemma_push_pop(m: Machine, val: u8)
    requires
        m.wf(),
    ensures
        m.push(val).pop().1 == val,
        m.push(val).pop().0.regs == m.regs,
        m.push(val).pop().0.mem == m.push(val).mem,
        m.push(val).wf(),
{
}

/// A subroutine call followed at once by a return continues after the
/// call instruction, with the stack pointer where it was before the call.
pub proof fn lemma_jsr_rts_round_trip(m: Machine, jsr: Inst, rts: Inst)
    requires
        m.wf(),
        jsr.opcode is JSR,
        rts.opcode is RTS,
    ensures
        m.step(jsr).step(rts).regs.PC == (m.regs.PC + jsr.inst_len) % 0x10000,
        jsr.inst_len == 3 ==> m.step(jsr).step(rts).regs.PC == (m.regs.PC + 3) % 0x10000,
        m.step(jsr).step(rts).regs.SP == m.regs.SP,
{
    let ret = (m.regs.PC + jsr.inst_len % ADDRESS_SPACE - 1) % (ADDRESS_SPACE as int);
    let high = (ret / 256) as u8;
    let low = (ret % 256) as u8;
    let pushed_high = m.push(high);
    let pushed_both = pushed_high.push(low);
    let called = pushed_both.with_pc(m.absolute());
    assert(m.step(jsr) == called);
    assert(called.pop().0.pop().1 == high);
    assert(word(low, high) == ret);
}

/// Pushing the flags and pulling them again leaves Break clear and Unused
/// set, whatever they were, and every other flag and the stack pointer
/// as before.
pub proof fn lemma_php_plp(m: Machine, php: Inst, plp: Inst, flag: u8)
    requires
        m.wf(),
        php.opcode is PHP,
        plp.opcode is PLP,
        is_flag(flag),
    ensures
        !m.step(php).step(plp).regs.P.spec_contains(Flags::B),
        m.step(php).step(plp).regs.P.spec_contains(Flags::U),
        flag != Flags::B && flag != Flags::U ==> m.step(php).step(plp).regs.P.spec_contains(flag)
            == m.regs.P.spec_contains(flag),
        m.step(php).step(plp).regs.SP == m.regs.SP,
{
    let p = m.regs.P;
    let pushed = spec_pushed_flags(p);
    let pushed_machine = m.push(pushed);
    let after_php = pushed_machine.advance(php.inst_len);
    assert(m.step(php) == after_php);
    assert(after_php.step(plp).regs.P == spec_pulled_flags(pushed));
    let with_break = p.with(Flags::B, true);
    let pulled = with_break.with(Flags::U, true);
    let without_break = pulled.with(Flags::B, false);
    lemma_with_flag(p, Flags::B, true, flag);
    lemma_with_flag(with_break, Flags::U, true, flag);
    lemma_with_flag(pulled, Flags::B, false, flag);
    lemma_with_flag(without_break, Flags::U, true, flag);
    lemma_with_flag(pulled, Flags::B, false, Flags::B);
    lemma_with_flag(without_break, Flags::U, true, Flags::B);
    lemma_with_flag(without_break, Flags::U, true, Flags::U);
}

/// How the sign bits of two inputs and a result decide the overflow tests,
/// and what bit 7 says of a byte.
proof fn lemma_sign_bits(a: u8, v: u8, r: u8)
    by (bit_vector)
    ensures
        ((a ^ r) & (v ^ r) & 0x80 != 0) == ((a >= 128) == (v >= 128) && (a >= 128) != (r >= 128)),
        ((r ^ a) & (r ^ v ^ 0xff) & 0x80 != 0) == ((a >= 128) != (v >= 128) && (a >= 128) != (r
            >= 128)),
        (r & 0b1000_0000 != 0) == (r >= 128),
{
}

/// Zero and Negative after a result: Zero says that the result is 0,
/// Negative that it is negative as a signed byte. No other flag changes.
pub proof fn lemma_zn_flags(p: Flags, val: u8, flag: u8)
    requires
        is_flag(flag),
    ensures
        p.with_zn(val).spec_contains(Flags::Z) == (val == 0),
        p.with_zn(val).spec_contains(Flags::N) == (signed(val) < 0),
        flag != Flags::Z && flag != Flags::N ==> p.with_zn(val).spec_contains(flag)
            == p.spec_contains(flag),
{
    let with_zero = p.with(Flags::Z, val == 0);
    lemma_sign_bits(0, 0, val);
    lemma_with_flag(p, Flags::Z, val == 0, flag);
    lemma_with_flag(with_zero, Flags::N, val & 0b1000_0000 != 0, flag);
    lemma_with_flag(with_zero, Flags::N, val & 0b1000_0000 != 0, Flags::Z);
    lemma_with_flag(p, Flags::Z, val == 0, Flags::Z);
}

/// The flags after `ADC`: Carry says that the unsigned sum does not fit in
/// a byte, Overflow that the signed sum does not; Zero and Negative
/// describe the result, which is the sum modulo 256.
pub proof fn lemma_adc_flags(p: Flags, a: u8, v: u8)
    ensures
        ({
            let (r, q) = spec_adc(p, a, v);
            let carry = p.spec_carry();
            &&& r == (a + v + carry) % 256
            &&& q.spec_contains(Flags::C) == (a + v + carry > 255)
            &&& q.spec_contains(Flags::V) == !(-128 <= signed(a) + signed(v) + carry <= 127)
            &&& q.spec_contains(Flags::Z) == (r == 0)
            &&& q.spec_contains(Flags::N) == (signed(r) < 0)
        }),
{
    let (r, q) = spec_adc(p, a, v);
    let sum = a + v + p.spec_carry();
    let with_carry = p.with(Flags::C, sum > 0xff);
    let with_result = with_carry.with_zn(r);
    let overflow = (a ^ r) & (v ^ r) & 0x80 != 0;
    lemma_sign_bits(a, v, r);
    lemma_with_flag(p, Flags::C, sum > 0xff, Flags::C);
    lemma_zn_flags(with_carry, r, Flags::C);
    lemma_with_flag(with_result, Flags::V, overflow, Flags::C);
    lemma_with_flag(with_result, Flags::V, overflow, Flags::Z);
    lemma_with_flag(with_result, Flags::V, overflow, Flags::N);
    lemma_with_flag(with_result, Flags::V, overflow, Flags::V);
}

/// The flags after `SBC`: Carry says that no borrow was needed, Overflow
/// that the signed difference does not fit in a byte; Zero and Negative
/// describe the result, which is the difference modulo 256.
pub proof fn lemma_sbc_flags(p: Flags, a: u8, v: u8)
    ensures
        ({
            let (r, q) = spec_sbc(p, a, v);
            let borrow = 1 - p.spec_carry();
            &&& r == (a - v - borrow) % 256
            &&& q.spec_contains(Flags::C) == (a - v - borrow >= 0)
            &&& q.spec_contains(Flags::V) == !(-128 <= signed(a) - signed(v) - borrow <= 127)
            &&& q.spec_contains(Flags::Z) == (r == 0)
            &&& q.spec_contains(Flags::N) == (signed(r) < 0)
        }),
{
    let (r, q) = spec_sbc(p, a, v);
    let diff = a - v - (1 - p.spec_carry());
    let with_carry = p.with(Flags::C, diff >= 0);
    let overflow = (r ^ a) & (r ^ v ^ 0xff) & 0x80 != 0;
    let with_overflow = with_carry.with(Flags::V, overflow);
    lemma_sign_bits(a, v, r);
    lemma_with_flag(p, Flags::C, diff >= 0, Flags::C);
    lemma_with_flag(with_carry, Flags::V, overflow, Flags::C);
    lemma_with_flag(with_carry, Flags::V, overflow, Flags::V);
    lemma_zn_flags(with_overflow, r, Flags::C);
    lemma_zn_flags(with_overflow, r, Flags::V);
}

/// The flags after a comparison order the register and the operand as
/// unsigned bytes: Carry says that the register is at least the operand,
/// Zero that they are equal.
pub proof fn lemma_compare_flags(p: Flags, reg: u8, v: u8)
    ensures
        spec_compare(p, reg, v).spec_contains(Flags::C) == (reg >= v),
        spec_compare(p, reg, v).spec_contains(Flags::Z) == (reg == v),
        spec_compare(p, reg, v).spec_contains(Flags::N) == (signed(((reg - v) % 256) as u8) < 0),
{
    let with_carry = p.with(Flags::C, reg >= v);
    lemma_with_flag(p, Flags::C, reg >= v, Flags::C);
    lemma_zn_flags(with_carry, ((reg - v) % 256) as u8, Flags::C);
}

} // verus!
