use super::alu::{
    spec_adc, spec_asl, spec_bit, spec_branch_taken, spec_compare, spec_dec, spec_inc, spec_lsr,
    spec_pulled_flags, spec_pushed_flags, spec_rol, spec_ror, spec_sbc,
};
use super::flags::Flags;
use super::opcode::{spec_lookup, AddressingType, Inst, Opcode};
use super::regs::Regs;
use crate::bus::cpu_bus::{read_word, write_byte, ADDRESS_SPACE};
use crate::rom::mapper::word;
use vstd::prelude::*;

verus! {

/// First address of the stack page.
pub const STACK_BASE: usize = 0x100;

/// A byte read as a signed displacement.
pub open spec fn signed(val: u8) -> int {
    if val >= 128 {
        val - 256
    } else {
        val as int
    }
}

/// The address after `address`, wrapping at the top of the address space.
pub open spec fn following(address: int) -> int {
    (address + 1) % (ADDRESS_SPACE as int)
}

/// The address after `address` within its 256-byte page: the last byte of
/// a page is followed by the first byte of the same page.
pub open spec fn following_in_page(address: int) -> int {
    address - address % 256 + (address + 1) % 256
}

/// The processor and all it can address: the registers and the 0x10000
/// bytes that the bus shows.
pub struct Machine {
    pub regs: Regs,
    pub mem: Seq<u8>,
}

impl Machine {
    /// The memory spans the whole address space.
    pub open spec fn wf(self) -> bool {
        self.mem.len() == ADDRESS_SPACE
    }

    /// The machine with another accumulator.
    pub open spec fn with_a(self, val: u8) -> Machine {
        Machine { regs: Regs { A: val, ..self.regs }, ..self }
    }

    /// The machine with another X.
    pub open spec fn with_x(self, val: u8) -> Machine {
        Machine { regs: Regs { X: val, ..self.regs }, ..self }
    }

    /// The machine with another Y.
    pub open spec fn with_y(self, val: u8) -> Machine {
        Machine { regs: Regs { Y: val, ..self.regs }, ..self }
    }

    /// The machine with another stack pointer.
    pub open spec fn with_sp(self, val: u8) -> Machine {
        Machine { regs: Regs { SP: val, ..self.regs }, ..self }
    }

    /// The machine with other flags.
    pub open spec fn with_flags(self, p: Flags) -> Machine {
        Machine { regs: Regs { P: p, ..self.regs }, ..self }
    }

    /// The machine with another program counter.
    pub open spec fn with_pc(self, pc: u16) -> Machine {
        Machine { regs: Regs { PC: pc, ..self.regs }, ..self }
    }

    /// A bus write of `val` to `address`.
    pub open spec fn store(self, address: int, val: u8) -> Machine {
        Machine { mem: write_byte(self.mem, address, val), ..self }
    }

    /// Zero and Negative follow `val`.
    pub open spec fn flag_update(self, val: u8) -> Machine {
        self.with_flags(self.regs.P.with_zn(val))
    }

    /// Address of the byte after the opcode byte.
    pub open spec fn immediate(self) -> int {
        following(self.regs.PC as int)
    }

    /// The byte after the opcode byte.
    pub open spec fn zero_page(self) -> u8 {
        self.mem[self.immediate()]
    }

    /// The zero-page address indexed by X: the sum wraps within the zero
    /// page.
    pub open spec fn zero_page_x(self) -> u8 {
        ((self.zero_page() + self.regs.X) % 256) as u8
    }

    /// The zero-page address indexed by Y: the sum wraps within the zero
    /// page.
    pub open spec fn zero_page_y(self) -> u8 {
        ((self.zero_page() + self.regs.Y) % 256) as u8
    }

    /// The 16-bit word at `address`, read as the bus reads words.
    pub open spec fn mem_word(self, address: int) -> u16 {
        read_word(self.mem, address)
    }

    /// The 16-bit word after the opcode byte, read as the bus reads words.
    pub open spec fn absolute(self) -> u16 {
        self.mem_word(self.immediate())
    }

    /// The absolute address indexed by X: the sum wraps at 16 bits.
    pub open spec fn absolute_x(self) -> u16 {
        ((self.absolute() + self.regs.X) % (ADDRESS_SPACE as int)) as u16
    }

    /// The absolute address indexed by Y: the sum wraps at 16 bits.
    pub open spec fn absolute_y(self) -> u16 {
        ((self.absolute() + self.regs.Y) % (ADDRESS_SPACE as int)) as u16
    }

    /// Target of an indirect jump: the word at the pointer that follows the
    /// opcode byte, with its high byte taken from the pointer's own page.
    pub open spec fn indirect(self) -> u16 {
        let pointer = self.absolute() as int;
        word(self.mem[pointer], self.mem[following_in_page(pointer)])
    }

    /// Indexed indirect: the word at the zero-page address indexed by X.
    pub open spec fn indirect_x(self) -> u16 {
        self.mem_word(self.zero_page_x() as int)
    }

    /// Indirect indexed: the word at the zero-page address, plus Y; the
    /// sum wraps at 16 bits.
    pub open spec fn indirect_y(self) -> u16 {
        ((self.mem_word(self.zero_page() as int) + self.regs.Y) % (ADDRESS_SPACE as int)) as u16
    }

    /// The program counter moved by the signed displacement that follows
    /// the opcode byte.
    pub open spec fn relative(self) -> Machine {
        self.with_pc(
            ((self.regs.PC + signed(self.zero_page())) % (ADDRESS_SPACE as int)) as u16,
        )
    }

    /// The effective address that `mode` resolves to: the address of the
    /// operand for a mode that names a byte in memory, the jump target for
    /// `Indirect`.
    pub open spec fn operand_address(self, mode: AddressingType) -> int {
        match mode {
            AddressingType::Immediate => self.immediate(),
            AddressingType::ZeroPage => self.zero_page() as int,
            AddressingType::ZeroPageX => self.zero_page_x() as int,
            AddressingType::ZeroPageY => self.zero_page_y() as int,
            AddressingType::Absolute => self.absolute() as int,
            AddressingType::AbsoluteX => self.absolute_x() as int,
            AddressingType::AbsoluteY => self.absolute_y() as int,
            AddressingType::Indirect => self.indirect() as int,
            AddressingType::IndirectX => self.indirect_x() as int,
            AddressingType::IndirectY => self.indirect_y() as int,
            _ => 0,
        }
    }

    /// Fetching the operand through `mode`: the machine afterwards and the
    /// operand. `Accumulator` yields the accumulator, `Implied` yields 0,
    /// and `Relative` performs the jump and yields 0.
    pub open spec fn mem_read(self, mode: AddressingType) -> (Machine, u8) {
        match mode {
            AddressingType::Accumulator => (self, self.regs.A),
            AddressingType::Implied | AddressingType::Indirect => (self, 0),
            AddressingType::Relative => (self.relative(), 0),
            _ => (self, self.mem[self.operand_address(mode)]),
        }
    }

    /// Writing `val` where `mode` points: into the accumulator or to the
    /// operand's address.
    pub open spec fn mem_write(self, mode: AddressingType, val: u8) -> Machine {
        if mode is Accumulator {
            self.with_a(val)
        } else if mode.writable() {
            self.store(self.operand_address(mode), val)
        } else {
            self
        }
    }

    /// Address of the stack's next free byte.
    pub open spec fn real_sp(self) -> int {
        self.regs.SP + STACK_BASE
    }

    /// `val` goes to the stack's free byte, and the stack pointer moves
    /// down, wrapping within the stack page.
    pub open spec fn push(self, val: u8) -> Machine {
        self.store(self.real_sp(), val).with_sp(((self.regs.SP - 1) % 256) as u8)
    }

    /// The stack pointer moves up, wrapping within the stack page, and the
    /// byte it then points at is the value.
    pub open spec fn pop(self) -> (Machine, u8) {
        let m = self.with_sp(((self.regs.SP + 1) % 256) as u8);
        (m, m.mem[m.real_sp()])
    }

    /// The program counter moved past an instruction of `len` bytes.
    pub open spec fn advance(self, len: usize) -> Machine {
        self.with_pc(((self.regs.PC + len) % (ADDRESS_SPACE as int)) as u16)
    }

    /// `ADC` of `v` into the accumulator.
    pub open spec fn add_with_carry(self, v: u8) -> Machine {
        let (r, p) = spec_adc(self.regs.P, self.regs.A, v);
        self.with_flags(p).with_a(r)
    }

    /// `SBC` of `v` from the accumulator.
    pub open spec fn subtract_with_borrow(self, v: u8) -> Machine {
        let (r, p) = spec_sbc(self.regs.P, self.regs.A, v);
        self.with_flags(p).with_a(r)
    }

    /// The flags of a comparison of `reg` with `v`.
    pub open spec fn compare(self, reg: u8, v: u8) -> Machine {
        self.with_flags(spec_compare(self.regs.P, reg, v))
    }

    /// `v` goes to the accumulator, and Zero and Negative follow it.
    pub open spec fn load_a(self, v: u8) -> Machine {
        self.with_a(v).flag_update(v)
    }

    /// `v` goes to X, and Zero and Negative follow it.
    pub open spec fn load_x(self, v: u8) -> Machine {
        self.with_x(v).flag_update(v)
    }

    /// `v` goes to Y, and Zero and Negative follow it.
    pub open spec fn load_y(self, v: u8) -> Machine {
        self.with_y(v).flag_update(v)
    }

    /// The operand is replaced by `result`, and the flags by `p`.
    pub open spec fn modify(self, mode: AddressingType, result: (u8, Flags)) -> Machine {
        self.mem_write(mode, result.0).with_flags(result.1)
    }

    /// A conditional branch: the jump if the condition holds.
    pub open spec fn branch(self, taken: bool, mode: AddressingType) -> Machine {
        if taken {
            self.mem_read(mode).0
        } else {
            self
        }
    }

    /// `JSR`: the address of the instruction's last byte goes to the stack,
    /// high byte first, and the program counter to the operand word.
    pub open spec fn jsr(self, len: usize) -> Machine {
        let ret = (self.regs.PC + len % ADDRESS_SPACE - 1) % (ADDRESS_SPACE as int);
        self.push((ret / 256) as u8).push((ret % 256) as u8).with_pc(self.absolute())
    }

    /// `RTS`: the program counter is the word on the stack, plus one.
    pub open spec fn rts(self) -> Machine {
        let (m1, low) = self.pop();
        let (m2, high) = m1.pop();
        m2.with_pc(((word(low, high) + 1) % (ADDRESS_SPACE as int)) as u16)
    }

    /// `PLP`: the flags come off the stack.
    pub open spec fn plp(self) -> Machine {
        let (m, byte) = self.pop();
        m.with_flags(spec_pulled_flags(byte))
    }

    /// `RTI`: the flags come off the stack, then the program counter.
    pub open spec fn rti(self) -> Machine {
        let m0 = self.plp();
        let (m1, low) = m0.pop();
        let (m2, high) = m1.pop();
        m2.with_pc(word(low, high))
    }

    /// The effect of an operation, before the program counter moves past
    /// the instruction. `JMP`, `JSR`, `RTS` and `RTI` set the program
    /// counter themselves.
    pub open spec fn operate(self, inst: Inst) -> Machine {
        let mode = inst.address_type;
        let (m, v) = self.mem_read(mode);
        let p = self.regs.P;
        match inst.opcode {
            Opcode::ADC => m.add_with_carry(v),
            Opcode::AND => m.load_a(m.regs.A & v),
            Opcode::ASL => m.modify(mode, spec_asl(p, v)),
            Opcode::BCC
            | Opcode::BCS
            | Opcode::BEQ
            | Opcode::BMI
            | Opcode::BNE
            | Opcode::BPL
            | Opcode::BVC
            | Opcode::BVS => self.branch(spec_branch_taken(inst.opcode, p), mode),
            Opcode::BIT => m.with_flags(spec_bit(p, m.regs.A, v)),
            Opcode::BRK => self,
            Opcode::CLC => self.with_flags(p.with(Flags::C, false)),
            Opcode::CLD => self.with_flags(p.with(Flags::D, false)),
            Opcode::CLI => self.with_flags(p.with(Flags::I, false)),
            Opcode::CLV => self.with_flags(p.with(Flags::V, false)),
            Opcode::CMP => m.compare(m.regs.A, v),
            Opcode::CPX => m.compare(m.regs.X, v),
            Opcode::CPY => m.compare(m.regs.Y, v),
            Opcode::DEC => m.modify(mode, spec_dec(p, v)),
            Opcode::DEX => self.load_x(((self.regs.X - 1) % 256) as u8),
            Opcode::DEY => self.load_y(((self.regs.Y - 1) % 256) as u8),
            Opcode::EOR => m.load_a(m.regs.A ^ v),
            Opcode::INC => m.modify(mode, spec_inc(p, v)),
            Opcode::INX => self.load_x(((self.regs.X + 1) % 256) as u8),
            Opcode::INY => self.load_y(((self.regs.Y + 1) % 256) as u8),
            Opcode::JMP => self.with_pc(
                if mode is Indirect {
                    self.indirect()
                } else {
                    self.absolute()
                },
            ),
            Opcode::JSR => self.jsr(inst.inst_len),
            Opcode::LDA => m.load_a(v),
            Opcode::LDX => m.load_x(v),
            Opcode::LDY => m.load_y(v),
            Opcode::LSR => m.modify(mode, spec_lsr(p, v)),
            Opcode::NOP => self,
            Opcode::ORA => m.load_a(m.regs.A | v),
            Opcode::PHA => self.push(self.regs.A),
            Opcode::PHP => self.push(spec_pushed_flags(p)),
            Opcode::PLA => {
                let (m1, byte) = self.pop();
                m1.load_a(byte)
            },
            Opcode::PLP => self.plp(),
            Opcode::ROL => m.modify(mode, spec_rol(p, v)),
            Opcode::ROR => m.modify(mode, spec_ror(p, v)),
            Opcode::RTI => self.rti(),
            Opcode::RTS => self.rts(),
            Opcode::SBC => m.subtract_with_borrow(v),
            Opcode::SEC => self.with_flags(p.with(Flags::C, true)),
            Opcode::SED => self.with_flags(p.with(Flags::D, true)),
            Opcode::SEI => self.with_flags(p.with(Flags::I, true)),
            Opcode::STA => self.mem_write(mode, self.regs.A),
            Opcode::STX => self.mem_write(mode, self.regs.X),
            Opcode::STY => self.mem_write(mode, self.regs.Y),
            Opcode::TAX => self.load_x(self.regs.A),
            Opcode::TAY => self.load_y(self.regs.A),
            Opcode::TSX => self.load_x(self.regs.SP),
            Opcode::TXA => self.load_a(self.regs.X),
            Opcode::TXS => self.with_sp(self.regs.X),
            Opcode::TYA => self.load_a(self.regs.Y),
            Opcode::LAX => m.with_x(v).load_a(v),
            Opcode::SAX => self.mem_write(mode, self.regs.A & self.regs.X),
            Opcode::DCP => {
                let decremented = spec_dec(p, v);
                let m1 = m.modify(mode, decremented);
                m1.compare(m1.regs.A, decremented.0)
            },
            Opcode::ISC => {
                let incremented = spec_inc(p, v);
                m.modify(mode, incremented).subtract_with_borrow(incremented.0)
            },
            Opcode::SLO => {
                let shifted = spec_asl(p, v);
                let m1 = m.modify(mode, shifted);
                m1.load_a(m1.regs.A | shifted.0)
            },
            Opcode::RLA => {
                let rotated = spec_rol(p, v);
                let m1 = m.modify(mode, rotated);
                m1.load_a(m1.regs.A & rotated.0)
            },
            Opcode::SRE => {
                let shifted = spec_lsr(p, v);
                let m1 = m.modify(mode, shifted);
                m1.load_a(m1.regs.A ^ shifted.0)
            },
            Opcode::RRA => {
                let rotated = spec_ror(p, v);
                m.modify(mode, rotated).add_with_carry(rotated.0)
            },
        }
    }

    /// The machine after the instruction `inst`, found at the program
    /// counter, has been executed.
    pub open spec fn step(self, inst: Inst) -> Machine {
        if inst.opcode.spec_family() is Jump {
            self.operate(inst)
        } else {
            self.operate(inst).advance(inst.inst_len)
        }
    }

    /// The descriptor of the opcode byte at the program counter.
    pub open spec fn next_inst(self) -> Inst {
        spec_lookup(self.mem[self.regs.PC as int])
    }

    /// The machine after `n` instructions have been fetched and executed.
    pub open spec fn run(self, n: nat) -> Machine
        decreases n,
    {
        if n == 0 {
            self
        } else {
            let before = self.run((n - 1) as nat);
            before.step(before.next_inst())
        }
    }
}

} // verus!
