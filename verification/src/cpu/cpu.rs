use super::alu;
use super::flags::Flags;
use super::machine::{Machine, STACK_BASE};
use super::opcode::{lookup, AddressingType, Family, Inst, Opcode};
use super::regs::{Regs, RESET_SP};
use crate::bus::cpu_bus::ADDRESS_SPACE;
use crate::bus::CPUBus;
use crate::rom::mapper::{join_word, split_word};
use vstd::prelude::*;

verus! {

/// The processor, with the bus it drives.
///
/// Between instructions the program counter points at an opcode byte.
/// [`CPU::get_next_inst`] decodes it and [`CPU::exec_once`] executes what
/// was decoded.
pub struct CPU {
    regs: Regs,
    bus_port: CPUBus,
}

impl View for CPU {
    type V = Machine;

    closed spec fn view(&self) -> Machine {
        Machine { regs: self.regs, mem: self.bus_port@ }
    }
}

impl CPU {
    /// The bus that the processor drives.
    pub closed spec fn spec_bus(&self) -> CPUBus {
        self.bus_port
    }

    /// A processor in its reset state that starts executing at `pc`, of
    /// which the low 16 bits count.
    pub fn new(port: CPUBus, pc: usize) -> (r: Self)
        ensures
            r@.regs == (Regs { PC: (pc % ADDRESS_SPACE) as u16, ..Regs::spec_default() }),
            r@.mem == port@,
            r@.wf(),
            r.spec_bus() == port,
    {
        proof {
            port.lemma_len();
        }
        let regs = Regs {
            A: 0,
            X: 0,
            Y: 0,
            SP: RESET_SP,
            P: Flags::new(),
            PC: (pc % ADDRESS_SPACE) as u16,
        };
        Self { regs, bus_port: port }
    }

    pub fn get_regs(&self) -> (r: Regs)
        ensures
            r == self@.regs,
    {
        self.regs
    }

    pub fn bus_port(&self) -> (r: &CPUBus)
        ensures
            *r == self.spec_bus(),
            r@ == self@.mem,
            self@.wf(),
    {
        proof {
            self.bus_port.lemma_len();
        }
        &self.bus_port
    }

    /// The bus, for the host to read and write between instructions. The
    /// registers stay as they are.
    pub fn bus_port_mut(&mut self) -> (r: &mut CPUBus)
        ensures
            *r == old(self).spec_bus(),
            final(self).spec_bus() == *final(r),
            final(self)@.regs == old(self)@.regs,
            final(self)@.mem == final(r)@,
    {
        &mut self.bus_port
    }

    /// Takes the processor apart: its registers and its bus.
    pub fn into_bus(self) -> (r: (Regs, CPUBus))
        ensures
            r.0 == self@.regs,
            r.1 == self.spec_bus(),
            r.1@ == self@.mem,
    {
        (self.regs, self.bus_port)
    }

    /// The descriptor of the opcode byte at the program counter.
    pub fn get_next_inst(&self) -> (r: Inst)
        ensures
            r == self@.next_inst(),
            r.executable(),
            1 <= r.inst_len <= 3,
    {
        let opcode = self.bus_port.read(self.get_pc());
        lookup(opcode)
    }

    fn get_pc(&self) -> (r: usize)
        ensures
            r == self@.regs.PC,
    {
        self.regs.PC as usize
    }

    fn accumulator(&self) -> (r: u8)
        ensures
            r == self@.regs.A,
    {
        self.regs.A
    }

    fn immediate(&self) -> (r: u16)
        ensures
            r == self@.immediate(),
    {
        self.regs.PC.wrapping_add(1)
    }

    fn zero_page(&self) -> (r: u8)
        ensures
            r == self@.zero_page(),
    {
        self.bus_port.read(self.immediate() as usize)
    }

    fn zero_page_x(&self) -> (r: u8)
        ensures
            r == self@.zero_page_x(),
    {
        self.zero_page().wrapping_add(self.regs.X)
    }

    fn zero_page_y(&self) -> (r: u8)
        ensures
            r == self@.zero_page_y(),
    {
        self.zero_page().wrapping_add(self.regs.Y)
    }

    fn relative(&mut self)
        ensures
            final(self)@ == old(self)@.relative(),
    {
        let imm = self.zero_page();
        if imm >= 0x80 {
            self.regs.PC = self.regs.PC.wrapping_sub(0x100 - imm as u16);
        } else {
            self.regs.PC = self.regs.PC.wrapping_add(imm as u16);
        }
    }

    fn absolute(&self) -> (r: u16)
        ensures
            r == self@.absolute(),
    {
        self.bus_port.read_u16(self.immediate() as usize)
    }

    fn absolute_x(&self) -> (r: u16)
        ensures
            r == self@.absolute_x(),
    {
        self.absolute().wrapping_add(self.regs.X as u16)
    }

    fn absolute_y(&self) -> (r: u16)
        ensures
            r == self@.absolute_y(),
    {
        self.absolute().wrapping_add(self.regs.Y as u16)
    }

    fn indirect(&self) -> (r: u16)
        ensures
            r == self@.indirect(),
    {
        let pointer = self.absolute() as usize;
        let high_address = pointer - pointer % 256 + (pointer + 1) % 256;
        join_word(self.bus_port.read(pointer), self.bus_port.read(high_address))
    }

    fn indirect_x(&self) -> (r: u16)
        ensures
            r == self@.indirect_x(),
    {
        let address = self.zero_page_x();
        self.bus_port.read_u16(address as usize)
    }

    fn indirect_y(&self) -> (r: u16)
        ensures
            r == self@.indirect_y(),
    {
        let address = self.zero_page();
        self.bus_port.read_u16(address as usize).wrapping_add(self.regs.Y as u16)
    }

    fn increase_pc(&mut self, val: usize)
        ensures
            final(self)@ == old(self)@.advance(val),
    {
        self.regs.PC = self.regs.PC.wrapping_add((val % ADDRESS_SPACE) as u16);
    }

    /// Resolves an addressing mode at the program counter: the address of
    /// the operand for a mode that names a byte in memory, the jump target
    /// for `Indirect`.
    pub fn operand_address(&self, address_type: &AddressingType) -> (r: u16)
        requires
            address_type.in_memory() || address_type is Indirect,
        ensures
            r == self@.operand_address(*address_type),
    {
        match address_type {
            AddressingType::Immediate => self.immediate(),
            AddressingType::Indirect => self.indirect(),
            AddressingType::ZeroPage => self.zero_page() as u16,
            AddressingType::ZeroPageX => self.zero_page_x() as u16,
            AddressingType::ZeroPageY => self.zero_page_y() as u16,
            AddressingType::Absolute => self.absolute(),
            AddressingType::AbsoluteX => self.absolute_x(),
            AddressingType::AbsoluteY => self.absolute_y(),
            AddressingType::IndirectX => self.indirect_x(),
            _ => self.indirect_y(),
        }
    }

    fn handle_mem_read(&mut self, address_type: &AddressingType) -> (r: u8)
        requires
            address_type.readable(),
        ensures
            (final(self)@, r) == old(self)@.mem_read(*address_type),
    {
        match address_type {
            AddressingType::Accumulator => self.accumulator(),
            AddressingType::Implied | AddressingType::Indirect => 0,
            AddressingType::Relative => {
                self.relative();
                0
            },
            _ => {
                let address = self.operand_address(address_type);
                self.bus_port.read(address as usize)
            },
        }
    }

    fn handle_mem_write(&mut self, address_type: &AddressingType, val: u8)
        requires
            address_type.writable(),
        ensures
            final(self)@ == old(self)@.mem_write(*address_type, val),
    {
        match address_type {
            AddressingType::Accumulator => {
                self.regs.A = val;
            },
            _ => {
                let address = self.operand_address(address_type);
                self.bus_port.write(address as usize, val);
            },
        }
    }

    /// Sets Zero if `val` is 0 and Negative if bit 7 of `val` is set, and
    /// clears them otherwise. Carry and Overflow are left to the operation.
    pub fn handle_flag_update(&mut self, val: u8)
        ensures
            final(self)@ == old(self)@.flag_update(val),
    {
        self.regs.P.set(Flags::Z, val == 0);
        self.regs.P.set(Flags::N, val & 0b1000_0000 != 0);
    }

    fn get_real_sp(&self) -> (r: usize)
        ensures
            r == self@.real_sp(),
    {
        self.regs.SP as usize + STACK_BASE
    }

    pub fn push_stack(&mut self, val: u8)
        ensures
            final(self)@ == old(self)@.push(val),
    {
        let address = self.get_real_sp();
        self.bus_port.write(address, val);
        self.regs.SP = self.regs.SP.wrapping_sub(1);
    }

    pub fn pop_stack(&mut self) -> (r: u8)
        ensures
            (final(self)@, r) == old(self)@.pop(),
    {
        self.regs.SP = self.regs.SP.wrapping_add(1);
        self.bus_port.read(self.get_real_sp())
    }

    fn add_with_carry(&mut self, val: u8)
        ensures
            final(self)@ == old(self)@.add_with_carry(val),
    {
        let (res, p) = alu::adc(self.regs.P, self.regs.A, val);
        self.regs.P = p;
        self.regs.A = res;
    }

    fn subtract_with_borrow(&mut self, val: u8)
        ensures
            final(self)@ == old(self)@.subtract_with_borrow(val),
    {
        let (res, p) = alu::sbc(self.regs.P, self.regs.A, val);
        self.regs.P = p;
        self.regs.A = res;
    }

    fn compare(&mut self, reg: u8, val: u8)
        ensures
            final(self)@ == old(self)@.compare(reg, val),
    {
        self.regs.P = alu::compare(self.regs.P, reg, val);
    }

    fn load_a(&mut self, val: u8)
        ensures
            final(self)@ == old(self)@.load_a(val),
    {
        self.regs.A = val;
        self.handle_flag_update(val);
    }

    fn load_x(&mut self, val: u8)
        ensures
            final(self)@ == old(self)@.load_x(val),
    {
        self.regs.X = val;
        self.handle_flag_update(val);
    }

    fn load_y(&mut self, val: u8)
        ensures
            final(self)@ == old(self)@.load_y(val),
    {
        self.regs.Y = val;
        self.handle_flag_update(val);
    }

    fn jsr(&mut self, len: usize)
        ensures
            final(self)@ == old(self)@.jsr(len),
    {
        let target_address = self.absolute();
        let len_low: u16 = (len % ADDRESS_SPACE) as u16;
        let ret_address = self.regs.PC.wrapping_add(len_low).wrapping_sub(1);
        assert(ret_address == (self.regs.PC + len % ADDRESS_SPACE - 1) % (ADDRESS_SPACE as int));
        let (high, low) = split_word(ret_address);
        self.push_stack(high);
        self.push_stack(low);
        self.regs.PC = target_address;
    }

    fn rts(&mut self)
        ensures
            final(self)@ == old(self)@.rts(),
    {
        let low = self.pop_stack();
        let high = self.pop_stack();
        self.regs.PC = join_word(low, high).wrapping_add(1);
    }

    fn plp(&mut self)
        ensures
            final(self)@ == old(self)@.plp(),
    {
        let val = self.pop_stack();
        self.regs.P = alu::pulled_flags(val);
    }

    fn rti(&mut self)
        ensures
            final(self)@ == old(self)@.rti(),
    {
        self.plp();
        let low = self.pop_stack();
        let high = self.pop_stack();
        self.regs.PC = join_word(low, high);
    }

    /// Writes a result back through `address_type` and installs the flags
    /// that come with it.
    fn modify(&mut self, address_type: &AddressingType, result: (u8, Flags))
        requires
            address_type.writable(),
        ensures
            final(self)@ == old(self)@.modify(*address_type, result),
    {
        self.handle_mem_write(address_type, result.0);
        self.regs.P = result.1;
    }

    /// Executes an instruction that fetches an operand and works it into
    /// registers and flags.
    fn exec_read(&mut self, inst: &Inst)
        requires
            inst.executable(),
            inst.opcode.spec_family() is Read,
        ensures
            final(self)@ == old(self)@.operate(*inst),
    {
        let mode = &inst.address_type;
        let p = self.regs.P;
        match inst.opcode {
            Opcode::ADC => {
                let val = self.handle_mem_read(mode);
                self.add_with_carry(val);
            },
            Opcode::AND => {
                let val = self.handle_mem_read(mode);
                self.load_a(self.regs.A & val);
            },
            Opcode::BIT => {
                let val = self.handle_mem_read(mode);
                self.regs.P = alu::bit(p, self.regs.A, val);
            },
            Opcode::CMP => {
                let val = self.handle_mem_read(mode);
                self.compare(self.regs.A, val);
            },
            Opcode::CPX => {
                let val = self.handle_mem_read(mode);
                self.compare(self.regs.X, val);
            },
            Opcode::CPY => {
                let val = self.handle_mem_read(mode);
                self.compare(self.regs.Y, val);
            },
            Opcode::EOR => {
                let val = self.handle_mem_read(mode);
                self.load_a(self.regs.A ^ val);
            },
            Opcode::LDA => {
                let val = self.handle_mem_read(mode);
                self.load_a(val);
            },
            Opcode::LDX => {
                let val = self.handle_mem_read(mode);
                self.load_x(val);
            },
            Opcode::LDY => {
                let val = self.handle_mem_read(mode);
                self.load_y(val);
            },
            Opcode::ORA => {
                let val = self.handle_mem_read(mode);
                self.load_a(self.regs.A | val);
            },
            Opcode::SBC => {
                let val = self.handle_mem_read(mode);
                self.subtract_with_borrow(val);
            },
            Opcode::LAX => {
                let val = self.handle_mem_read(mode);
                self.regs.X = val;
                self.load_a(val);
            },
            _ => {},
        }
    }

    /// Executes an instruction that fetches an operand, changes it and
    /// writes it back.
    fn exec_modify(&mut self, inst: &Inst)
        requires
            inst.executable(),
            inst.opcode.spec_family() is Modify,
        ensures
            final(self)@ == old(self)@.operate(*inst),
    {
        let mode = &inst.address_type;
        let p = self.regs.P;
        match inst.opcode {
            Opcode::ASL => {
                let val = self.handle_mem_read(mode);
                self.modify(mode, alu::asl(p, val));
            },
            Opcode::LSR => {
                let val = self.handle_mem_read(mode);
                self.modify(mode, alu::lsr(p, val));
            },
            Opcode::ROL => {
                let val = self.handle_mem_read(mode);
                self.modify(mode, alu::rol(p, val));
            },
            Opcode::ROR => {
                let val = self.handle_mem_read(mode);
                self.modify(mode, alu::ror(p, val));
            },
            Opcode::INC => {
                let val = self.handle_mem_read(mode);
                self.modify(mode, alu::inc(p, val));
            },
            Opcode::DEC => {
                let val = self.handle_mem_read(mode);
                self.modify(mode, alu::dec(p, val));
            },
            _ => {},
        }
    }

    /// Executes one of the combined operations: the operand is changed in
    /// place, and its new value is worked into the accumulator.
    fn exec_combined(&mut self, inst: &Inst)
        requires
            inst.executable(),
            inst.opcode.spec_family() is Combined,
        ensures
            final(self)@ == old(self)@.operate(*inst),
    {
        let mode = &inst.address_type;
        let p = self.regs.P;
        match inst.opcode {
            Opcode::DCP => {
                let val = self.handle_mem_read(mode);
                let decremented = alu::dec(p, val);
                self.modify(mode, decremented);
                self.compare(self.regs.A, decremented.0);
            },
            Opcode::ISC => {
                let val = self.handle_mem_read(mode);
                let incremented = alu::inc(p, val);
                self.modify(mode, incremented);
                self.subtract_with_borrow(incremented.0);
            },
            Opcode::SLO => {
                let val = self.handle_mem_read(mode);
                let shifted = alu::asl(p, val);
                self.modify(mode, shifted);
                self.load_a(self.regs.A | shifted.0);
            },
            Opcode::RLA => {
                let val = self.handle_mem_read(mode);
                let rotated = alu::rol(p, val);
                self.modify(mode, rotated);
                self.load_a(self.regs.A & rotated.0);
            },
            Opcode::SRE => {
                let val = self.handle_mem_read(mode);
                let shifted = alu::lsr(p, val);
                self.modify(mode, shifted);
                self.load_a(self.regs.A ^ shifted.0);
            },
            Opcode::RRA => {
                let val = self.handle_mem_read(mode);
                let rotated = alu::ror(p, val);
                self.modify(mode, rotated);
                self.add_with_carry(rotated.0);
            },
            _ => {},
        }
    }

    /// Executes a conditional branch.
    fn exec_branch(&mut self, inst: &Inst)
        requires
            inst.executable(),
            inst.opcode.spec_family() is Branch,
        ensures
            final(self)@ == old(self)@.operate(*inst),
    {
        let mode = &inst.address_type;
        let p = self.regs.P;
        match inst.opcode {
            Opcode::BCC
            | Opcode::BCS
            | Opcode::BEQ
            | Opcode::BMI
            | Opcode::BNE
            | Opcode::BPL
            | Opcode::BVC
            | Opcode::BVS => {
                if alu::branch_taken(inst.opcode, p) {
                    self.handle_mem_read(mode);
                }
            },
            _ => {},
        }
    }

    /// Executes an instruction that sets the program counter itself.
    fn exec_jump(&mut self, inst: &Inst)
        requires
            inst.executable(),
            inst.opcode.spec_family() is Jump,
        ensures
            final(self)@ == old(self)@.operate(*inst),
    {
        match inst.opcode {
            Opcode::JMP => {
                let target_address = match inst.address_type {
                    AddressingType::Indirect => self.indirect(),
                    _ => self.absolute(),
                };
                self.regs.PC = target_address;
            },
            Opcode::JSR => {
                self.jsr(inst.inst_len);
            },
            Opcode::RTI => {
                self.rti();
            },
            Opcode::RTS => {
                self.rts();
            },
            _ => {},
        }
    }

    /// Executes an instruction that pushes or pulls a register.
    fn exec_stack(&mut self, inst: &Inst)
        requires
            inst.executable(),
            inst.opcode.spec_family() is Stack,
        ensures
            final(self)@ == old(self)@.operate(*inst),
    {
        let p = self.regs.P;
        match inst.opcode {
            Opcode::PHA => {
                self.push_stack(self.regs.A);
            },
            Opcode::PHP => {
                self.push_stack(alu::pushed_flags(p));
            },
            Opcode::PLA => {
                let val = self.pop_stack();
                self.load_a(val);
            },
            Opcode::PLP => {
                self.plp();
            },
            _ => {},
        }
    }

    /// Executes an instruction that writes registers to its operand.
    fn exec_store(&mut self, inst: &Inst)
        requires
            inst.executable(),
            inst.opcode.spec_family() is Store,
        ensures
            final(self)@ == old(self)@.operate(*inst),
    {
        let mode = &inst.address_type;
        match inst.opcode {
            Opcode::STA => {
                self.handle_mem_write(mode, self.regs.A);
            },
            Opcode::STX => {
                self.handle_mem_write(mode, self.regs.X);
            },
            Opcode::STY => {
                self.handle_mem_write(mode, self.regs.Y);
            },
            Opcode::SAX => {
                self.handle_mem_write(mode, self.regs.A & self.regs.X);
            },
            _ => {},
        }
    }

    /// Executes an instruction that works on registers and flags alone.
    fn exec_implied(&mut self, inst: &Inst)
        requires
            inst.executable(),
            inst.opcode.spec_family() is Implied,
        ensures
            final(self)@ == old(self)@.operate(*inst),
    {
        match inst.opcode {
            Opcode::BRK => {},
            Opcode::CLC => {
                self.regs.P.remove(Flags::C);
            },
            Opcode::CLD => {
                self.regs.P.remove(Flags::D);
            },
            Opcode::CLI => {
                self.regs.P.remove(Flags::I);
            },
            Opcode::CLV => {
                self.regs.P.remove(Flags::V);
            },
            Opcode::DEX => {
                self.load_x(self.regs.X.wrapping_sub(1));
            },
            Opcode::DEY => {
                self.load_y(self.regs.Y.wrapping_sub(1));
            },
            Opcode::INX => {
                self.load_x(self.regs.X.wrapping_add(1));
            },
            Opcode::INY => {
                self.load_y(self.regs.Y.wrapping_add(1));
            },
            Opcode::NOP => {},
            Opcode::SEC => {
                self.regs.P.insert(Flags::C);
            },
            Opcode::SED => {
                self.regs.P.insert(Flags::D);
            },
            Opcode::SEI => {
                self.regs.P.insert(Flags::I);
            },
            Opcode::TAX => {
                self.load_x(self.regs.A);
            },
            Opcode::TAY => {
                self.load_y(self.regs.A);
            },
            Opcode::TSX => {
                self.load_x(self.regs.SP);
            },
            Opcode::TXA => {
                self.load_a(self.regs.X);
            },
            Opcode::TXS => {
                self.regs.SP = self.regs.X;
            },
            Opcode::TYA => {
                self.load_a(self.regs.Y);
            },
            _ => {},
        }
    }

    /// Executes `inst`, which was decoded at the program counter, and
    /// leaves the program counter at the next instruction.
    pub fn exec_once(&mut self, inst: &Inst)
        requires
            inst.executable(),
        ensures
            final(self)@ == old(self)@.step(*inst),
            final(self)@.wf(),
    {
        match inst.opcode.family() {
            Family::Read => self.exec_read(inst),
            Family::Modify => self.exec_modify(inst),
            Family::Combined => self.exec_combined(inst),
            Family::Branch => self.exec_branch(inst),
            Family::Jump => {
                self.exec_jump(inst);
                proof {
                    self.bus_port.lemma_len();
                }
                return ;
            },
            Family::Stack => self.exec_stack(inst),
            Family::Store => self.exec_store(inst),
            Family::Implied => self.exec_implied(inst),
        }
        self.increase_pc(inst.inst_len);
        proof {
            self.bus_port.lemma_len();
        }
    }
}

} // verus!
