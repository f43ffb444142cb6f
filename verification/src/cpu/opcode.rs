use std::collections::HashMap;
use vstd::prelude::*;

verus! {

/// The operations of the instruction set: the 56 documented mnemonics and
/// the eight combined operations that real software relies on.
#[allow(clippy::upper_case_acronyms)]
#[derive(Clone, Copy, Debug, PartialEq, Eq, Structural)]
pub enum Opcode {
    ADC,
    AND,
    ASL,
    BCC,
    BCS,
    BEQ,
    BIT,
    BMI,
    BNE,
    BPL,
    BRK,
    BVC,
    BVS,
    CLC,
    CLD,
    CLI,
    CLV,
    CMP,
    CPX,
    CPY,
    DEC,
    DEX,
    DEY,
    EOR,
    INC,
    INX,
    INY,
    JMP,
    JSR,
    LDA,
    LDX,
    LDY,
    LSR,
    NOP,
    ORA,
    PHA,
    PHP,
    PLA,
    PLP,
    ROL,
    ROR,
    RTI,
    RTS,
    SBC,
    SEC,
    SED,
    SEI,
    STA,
    STX,
    STY,
    TAX,
    TAY,
    TSX,
    TXA,
    TXS,
    TYA,
    // combined operations
    LAX,
    SAX,
    DCP,
    ISC,
    SLO,
    RLA,
    SRE,
    RRA,
}

/// How an instruction locates its operand.
#[derive(Clone, Copy, Debug, PartialEq, Eq, Structural)]
pub enum AddressingType {
    Accumulator,
    Immediate,
    ZeroPage,
    ZeroPageX,
    ZeroPageY,
    Absolute,
    AbsoluteX,
    AbsoluteY,
    Indirect,
    IndirectX,
    IndirectY,
    Implied,
    Relative,
}

/// One row of the instruction table.
#[derive(Clone, Copy, Debug, PartialEq, Eq, Structural)]
pub struct Inst {
    pub address_type: AddressingType,
    pub opcode: Opcode,
    /// Length of the instruction in bytes, the opcode byte included.
    pub inst_len: usize,
    /// Base number of cycles. Execution does not count cycles.
    pub cycles: usize,
    /// A further cycle is due when indexing crosses a page.
    pub page_crossed_add: bool,
}

/// The families of operations. The operations of one family are executed
/// in one way and differ in the register or the arithmetic they use.
#[derive(Clone, Copy, Debug, PartialEq, Eq, Structural)]
pub enum Family {
    /// Fetches an operand and works it into registers and flags.
    Read,
    /// Fetches an operand, changes it and writes it back where it was.
    Modify,
    /// Changes its operand in place as `Modify` does, then works the new
    /// value into the accumulator.
    Combined,
    /// Jumps by its operand if a flag is as it asks.
    Branch,
    /// Sets the program counter itself.
    Jump,
    /// Pushes or pulls a register.
    Stack,
    /// Writes registers to its operand.
    Store,
    /// Works on registers and flags alone.
    Implied,
}

impl Opcode {
    /// The family of the operation.
    pub open spec fn spec_family(self) -> Family {
        match self {
            Opcode::ADC
            | Opcode::AND
            | Opcode::BIT
            | Opcode::CMP
            | Opcode::CPX
            | Opcode::CPY
            | Opcode::EOR
            | Opcode::LDA
            | Opcode::LDX
            | Opcode::LDY
            | Opcode::ORA
            | Opcode::SBC
            | Opcode::LAX => Family::Read,
            Opcode::ASL
            | Opcode::LSR
            | Opcode::ROL
            | Opcode::ROR
            | Opcode::INC
            | Opcode::DEC => Family::Modify,
            Opcode::DCP
            | Opcode::ISC
            | Opcode::SLO
            | Opcode::RLA
            | Opcode::SRE
            | Opcode::RRA => Family::Combined,
            Opcode::BCC
            | Opcode::BCS
            | Opcode::BEQ
            | Opcode::BMI
            | Opcode::BNE
            | Opcode::BPL
            | Opcode::BVC
            | Opcode::BVS => Family::Branch,
            Opcode::JMP
            | Opcode::JSR
            | Opcode::RTI
            | Opcode::RTS => Family::Jump,
            Opcode::PHA
            | Opcode::PHP
            | Opcode::PLA
            | Opcode::PLP => Family::Stack,
            Opcode::STA
            | Opcode::STX
            | Opcode::STY
            | Opcode::SAX => Family::Store,
            _ => Family::Implied,
        }
    }

    #[verifier::when_used_as_spec(spec_family)]
    pub fn family(self) -> (r: Family)
        ensures
            r == self.spec_family(),
    {
        match self {
            Opcode::ADC
            | Opcode::AND
            | Opcode::BIT
            | Opcode::CMP
            | Opcode::CPX
            | Opcode::CPY
            | Opcode::EOR
            | Opcode::LDA
            | Opcode::LDX
            | Opcode::LDY
            | Opcode::ORA
            | Opcode::SBC
            | Opcode::LAX => Family::Read,
            Opcode::ASL
            | Opcode::LSR
            | Opcode::ROL
            | Opcode::ROR
            | Opcode::INC
            | Opcode::DEC => Family::Modify,
            Opcode::DCP
            | Opcode::ISC
            | Opcode::SLO
            | Opcode::RLA
            | Opcode::SRE
            | Opcode::RRA => Family::Combined,
            Opcode::BCC
            | Opcode::BCS
            | Opcode::BEQ
            | Opcode::BMI
            | Opcode::BNE
            | Opcode::BPL
            | Opcode::BVC
            | Opcode::BVS => Family::Branch,
            Opcode::JMP
            | Opcode::JSR
            | Opcode::RTI
            | Opcode::RTS => Family::Jump,
            Opcode::PHA
            | Opcode::PHP
            | Opcode::PLA
            | Opcode::PLP => Family::Stack,
            Opcode::STA
            | Opcode::STX
            | Opcode::STY
            | Opcode::SAX => Family::Store,
            _ => Family::Implied,
        }
    }

    /// The operation fetches an operand value through its addressing mode.
    /// Branches are among them: a taken branch resolves its operand.
    pub open spec fn reads_operand(self) -> bool {
        ||| self.spec_family() is Read
        ||| self.spec_family() is Modify
        ||| self.spec_family() is Combined
        ||| self.spec_family() is Branch
    }

    /// The operation writes to the place its addressing mode names.
    pub open spec fn writes_operand(self) -> bool {
        ||| self.spec_family() is Modify
        ||| self.spec_family() is Combined
        ||| self.spec_family() is Store
    }
}

impl AddressingType {
    /// The mode names a byte in memory (the operand byte itself for
    /// `Immediate`).
    pub open spec fn in_memory(self) -> bool {
        ||| self is Immediate
        ||| self is ZeroPage
        ||| self is ZeroPageX
        ||| self is ZeroPageY
        ||| self is Absolute
        ||| self is AbsoluteX
        ||| self is AbsoluteY
        ||| self is IndirectX
        ||| self is IndirectY
    }

    /// An operand can be fetched through the mode. Only `Indirect`, which
    /// belongs to `JMP` alone, yields none.
    pub open spec fn readable(self) -> bool {
        !(self is Indirect)
    }

    /// A result can be written back through the mode: to the accumulator or
    /// to a memory location other than the instruction's own operand byte.
    pub open spec fn writable(self) -> bool {
        self is Accumulator || (self.in_memory() && !(self is Immediate))
    }

    /// Number of operand bytes that follow the opcode byte.
    pub open spec fn operand_bytes(self) -> int {
        match self {
            AddressingType::Accumulator | AddressingType::Implied => 0,
            AddressingType::Absolute
            | AddressingType::AbsoluteX
            | AddressingType::AbsoluteY
            | AddressingType::Indirect => 2,
            _ => 1,
        }
    }

    #[verifier::when_used_as_spec(readable)]
    pub fn is_readable(self) -> (r: bool)
        ensures
            r == self.readable(),
    {
        !matches!(self, AddressingType::Indirect)
    }

    #[verifier::when_used_as_spec(writable)]
    pub fn is_writable(self) -> (r: bool)
        ensures
            r == self.writable(),
    {
        match self {
            AddressingType::Accumulator
            | AddressingType::ZeroPage
            | AddressingType::ZeroPageX
            | AddressingType::ZeroPageY
            | AddressingType::Absolute
            | AddressingType::AbsoluteX
            | AddressingType::AbsoluteY
            | AddressingType::IndirectX
            | AddressingType::IndirectY => true,
            _ => false,
        }
    }
}

impl Inst {
    pub open spec fn spec_new(
        address_type: AddressingType,
        opcode: Opcode,
        inst_len: usize,
        cycles: usize,
        page_crossed_add: bool,
    ) -> Inst {
        Inst { address_type, opcode, inst_len, cycles, page_crossed_add }
    }

    #[verifier::when_used_as_spec(spec_new)]
    pub fn new(
        address_type: AddressingType,
        opcode: Opcode,
        inst_len: usize,
        cycles: usize,
        page_crossed_add: bool,
    ) -> (r: Inst)
        ensures
            r == Inst::spec_new(address_type, opcode, inst_len, cycles, page_crossed_add),
    {
        Self { address_type, opcode, inst_len, cycles, page_crossed_add }
    }

    /// The pairing of operation and addressing mode can be executed: the
    /// operation finds the operand it needs where the mode points.
    pub open spec fn executable(&self) -> bool {
        &&& self.opcode.reads_operand() ==> self.address_type.readable()
        &&& self.opcode.writes_operand() ==> self.address_type.writable()
        &&& self.opcode is JMP ==> (self.address_type is Absolute
            || self.address_type is Indirect)
    }

    /// Run-time test of [`Inst::executable`], for descriptors that do not
    /// come out of the table.
    #[verifier::when_used_as_spec(executable)]
    pub fn is_executable(&self) -> (r: bool)
        ensures
            r == self.executable(),
    {
        match self.opcode.family() {
            Family::Read | Family::Branch => self.address_type.is_readable(),
            Family::Modify | Family::Combined | Family::Store => self.address_type.is_writable(),
            Family::Jump => !matches!(self.opcode, Opcode::JMP) || matches!(
                self.address_type,
                AddressingType::Absolute | AddressingType::Indirect
            ),
            Family::Stack | Family::Implied => true,
        }
    }
}

/// The instruction table: the descriptor of every opcode byte.
///
/// Rows are grouped by the high four bits of the opcode byte, then by the
/// low four. Bytes outside the documented set that are not one of the
/// combined operations are no-ops of the length their encoding has.
pub open spec fn spec_lookup(opcode: u8) -> Inst {
    match opcode / 16 {
        0x0 => match opcode % 16 {
            0x0 => Inst::new(AddressingType::Implied, Opcode::BRK, 2, 7, false),
            0x1 => Inst::new(AddressingType::IndirectX, Opcode::ORA, 2, 6, false),
            0x2 => Inst::new(AddressingType::Implied, Opcode::NOP, 1, 1, true),
            0x3 => Inst::new(AddressingType::IndirectX, Opcode::SLO, 2, 1, true),
            0x4 => Inst::new(AddressingType::Implied, Opcode::NOP, 2, 1, true),
            0x5 => Inst::new(AddressingType::ZeroPage, Opcode::ORA, 2, 3, false),
            0x6 => Inst::new(AddressingType::ZeroPage, Opcode::ASL, 2, 5, false),
            0x7 => Inst::new(AddressingType::ZeroPage, Opcode::SLO, 2, 1, true),
            0x8 => Inst::new(AddressingType::Implied, Opcode::PHP, 1, 3, false),
            0x9 => Inst::new(AddressingType::Immediate, Opcode::ORA, 2, 2, false),
            0xa => Inst::new(AddressingType::Accumulator, Opcode::ASL, 1, 2, false),
            0xb => Inst::new(AddressingType::Implied, Opcode::NOP, 2, 1, true),
            0xc => Inst::new(AddressingType::Implied, Opcode::NOP, 3, 1, true),
            0xd => Inst::new(AddressingType::Absolute, Opcode::ORA, 3, 4, false),
            0xe => Inst::new(AddressingType::Absolute, Opcode::ASL, 3, 6, false),
            _ => Inst::new(AddressingType::Absolute, Opcode::SLO, 3, 1, true),
        },
        0x1 => match opcode % 16 {
            0x0 => Inst::new(AddressingType::Relative, Opcode::BPL, 2, 2, true),
            0x1 => Inst::new(AddressingType::IndirectY, Opcode::ORA, 2, 5, true),
            0x2 => Inst::new(AddressingType::Implied, Opcode::NOP, 1, 1, true),
            0x3 => Inst::new(AddressingType::IndirectY, Opcode::SLO, 2, 1, true),
            0x4 => Inst::new(AddressingType::Implied, Opcode::NOP, 2, 1, true),
            0x5 => Inst::new(AddressingType::ZeroPageX, Opcode::ORA, 2, 4, false),
            0x6 => Inst::new(AddressingType::ZeroPageX, Opcode::ASL, 2, 6, false),
            0x7 => Inst::new(AddressingType::ZeroPageX, Opcode::SLO, 2, 1, true),
            0x8 => Inst::new(AddressingType::Implied, Opcode::CLC, 1, 2, false),
            0x9 => Inst::new(AddressingType::AbsoluteY, Opcode::ORA, 3, 4, true),
            0xa => Inst::new(AddressingType::Implied, Opcode::NOP, 1, 1, true),
            0xb => Inst::new(AddressingType::AbsoluteY, Opcode::SLO, 3, 1, true),
            0xc => Inst::new(AddressingType::Implied, Opcode::NOP, 3, 1, true),
            0xd => Inst::new(AddressingType::AbsoluteX, Opcode::ORA, 3, 4, true),
            0xe => Inst::new(AddressingType::AbsoluteX, Opcode::ASL, 3, 7, false),
            _ => Inst::new(AddressingType::AbsoluteX, Opcode::SLO, 3, 1, true),
        },
        0x2 => match opcode % 16 {
            0x0 => Inst::new(AddressingType::Absolute, Opcode::JSR, 3, 6, false),
            0x1 => Inst::new(AddressingType::IndirectX, Opcode::AND, 2, 6, false),
            0x2 => Inst::new(AddressingType::Implied, Opcode::NOP, 1, 1, true),
            0x3 => Inst::new(AddressingType::IndirectX, Opcode::RLA, 2, 1, true),
            0x4 => Inst::new(AddressingType::ZeroPage, Opcode::BIT, 2, 3, false),
            0x5 => Inst::new(AddressingType::ZeroPage, Opcode::AND, 2, 3, false),
            0x6 => Inst::new(AddressingType::ZeroPage, Opcode::ROL, 2, 5, false),
            0x7 => Inst::new(AddressingType::ZeroPage, Opcode::RLA, 2, 1, true),
            0x8 => Inst::new(AddressingType::Implied, Opcode::PLP, 1, 4, false),
            0x9 => Inst::new(AddressingType::Immediate, Opcode::AND, 2, 2, false),
            0xa => Inst::new(AddressingType::Accumulator, Opcode::ROL, 1, 2, false),
            0xb => Inst::new(AddressingType::Implied, Opcode::NOP, 2, 1, true),
            0xc => Inst::new(AddressingType::Absolute, Opcode::BIT, 3, 4, false),
            0xd => Inst::new(AddressingType::Absolute, Opcode::AND, 3, 4, false),
            0xe => Inst::new(AddressingType::Absolute, Opcode::ROL, 3, 6, false),
            _ => Inst::new(AddressingType::Absolute, Opcode::RLA, 3, 1, true),
        },
        0x3 => match opcode % 16 {
            0x0 => Inst::new(AddressingType::Relative, Opcode::BMI, 2, 2, true),
            0x1 => Inst::new(AddressingType::IndirectY, Opcode::AND, 2, 5, true),
            0x2 => Inst::new(AddressingType::Implied, Opcode::NOP, 1, 1, true),
            0x3 => Inst::new(AddressingType::IndirectY, Opcode::RLA, 2, 1, true),
            0x4 => Inst::new(AddressingType::Implied, Opcode::NOP, 2, 1, true),
            0x5 => Inst::new(AddressingType::ZeroPageX, Opcode::AND, 2, 4, false),
            0x6 => Inst::new(AddressingType::ZeroPageX, Opcode::ROL, 2, 6, false),
            0x7 => Inst::new(AddressingType::ZeroPageX, Opcode::RLA, 2, 1, true),
            0x8 => Inst::new(AddressingType::Implied, Opcode::SEC, 1, 2, false),
            0x9 => Inst::new(AddressingType::AbsoluteY, Opcode::AND, 3, 4, true),
            0xa => Inst::new(AddressingType::Implied, Opcode::NOP, 1, 1, true),
            0xb => Inst::new(AddressingType::AbsoluteY, Opcode::RLA, 3, 1, true),
            0xc => Inst::new(AddressingType::Implied, Opcode::NOP, 3, 1, true),
            0xd => Inst::new(AddressingType::AbsoluteX, Opcode::AND, 3, 4, true),
            0xe => Inst::new(AddressingType::AbsoluteX, Opcode::ROL, 3, 7, false),
            _ => Inst::new(AddressingType::AbsoluteX, Opcode::RLA, 3, 1, true),
        },
        0x4 => match opcode % 16 {
            0x0 => Inst::new(AddressingType::Implied, Opcode::RTI, 1, 6, false),
            0x1 => Inst::new(AddressingType::IndirectX, Opcode::EOR, 2, 6, false),
            0x2 => Inst::new(AddressingType::Implied, Opcode::NOP, 1, 1, true),
            0x3 => Inst::new(AddressingType::IndirectX, Opcode::SRE, 2, 1, true),
            0x4 => Inst::new(AddressingType::Implied, Opcode::NOP, 2, 1, true),
            0x5 => Inst::new(AddressingType::ZeroPage, Opcode::EOR, 2, 3, false),
            0x6 => Inst::new(AddressingType::ZeroPage, Opcode::LSR, 2, 5, false),
            0x7 => Inst::new(AddressingType::ZeroPage, Opcode::SRE, 2, 1, true),
            0x8 => Inst::new(AddressingType::Implied, Opcode::PHA, 1, 3, false),
            0x9 => Inst::new(AddressingType::Immediate, Opcode::EOR, 2, 2, false),
            0xa => Inst::new(AddressingType::Accumulator, Opcode::LSR, 1, 2, false),
            0xb => Inst::new(AddressingType::Implied, Opcode::NOP, 2, 1, true),
            0xc => Inst::new(AddressingType::Absolute, Opcode::JMP, 3, 3, false),
            0xd => Inst::new(AddressingType::Absolute, Opcode::EOR, 3, 4, false),
            0xe => Inst::new(AddressingType::Absolute, Opcode::LSR, 3, 6, false),
            _ => Inst::new(AddressingType::Absolute, Opcode::SRE, 3, 1, true),
        },
        0x5 => match opcode % 16 {
            0x0 => Inst::new(AddressingType::Relative, Opcode::BVC, 2, 2, true),
            0x1 => Inst::new(AddressingType::IndirectY, Opcode::EOR, 2, 5, true),
            0x2 => Inst::new(AddressingType::Implied, Opcode::NOP, 1, 1, true),
            0x3 => Inst::new(AddressingType::IndirectY, Opcode::SRE, 2, 1, true),
            0x4 => Inst::new(AddressingType::Implied, Opcode::NOP, 2, 1, true),
            0x5 => Inst::new(AddressingType::ZeroPageX, Opcode::EOR, 2, 4, false),
            0x6 => Inst::new(AddressingType::ZeroPageX, Opcode::LSR, 2, 6, false),
            0x7 => Inst::new(AddressingType::ZeroPageX, Opcode::SRE, 2, 1, true),
            0x8 => Inst::new(AddressingType::Implied, Opcode::CLI, 1, 2, false),
            0x9 => Inst::new(AddressingType::AbsoluteY, Opcode::EOR, 3, 4, true),
            0xa => Inst::new(AddressingType::Implied, Opcode::NOP, 1, 1, true),
            0xb => Inst::new(AddressingType::AbsoluteY, Opcode::SRE, 3, 1, true),
            0xc => Inst::new(AddressingType::Implied, Opcode::NOP, 3, 1, true),
            0xd => Inst::new(AddressingType::AbsoluteX, Opcode::EOR, 3, 4, true),
            0xe => Inst::new(AddressingType::AbsoluteX, Opcode::LSR, 3, 7, false),
            _ => Inst::new(AddressingType::AbsoluteX, Opcode::SRE, 3, 1, true),
        },
        0x6 => match opcode % 16 {
            0x0 => Inst::new(AddressingType::Implied, Opcode::RTS, 1, 6, false),
            0x1 => Inst::new(AddressingType::IndirectX, Opcode::ADC, 2, 6, false),
            0x2 => Inst::new(AddressingType::Implied, Opcode::NOP, 1, 1, true),
            0x3 => Inst::new(AddressingType::IndirectX, Opcode::RRA, 2, 1, true),
            0x4 => Inst::new(AddressingType::Implied, Opcode::NOP, 2, 1, true),
            0x5 => Inst::new(AddressingType::ZeroPage, Opcode::ADC, 2, 3, false),
            0x6 => Inst::new(AddressingType::ZeroPage, Opcode::ROR, 2, 5, false),
            0x7 => Inst::new(AddressingType::ZeroPage, Opcode::RRA, 2, 1, true),
            0x8 => Inst::new(AddressingType::Implied, Opcode::PLA, 1, 4, false),
            0x9 => Inst::new(AddressingType::Immediate, Opcode::ADC, 2, 2, false),
            0xa => Inst::new(AddressingType::Accumulator, Opcode::ROR, 1, 2, false),
            0xb => Inst::new(AddressingType::Implied, Opcode::NOP, 2, 1, true),
            0xc => Inst::new(AddressingType::Indirect, Opcode::JMP, 3, 5, false),
            0xd => Inst::new(AddressingType::Absolute, Opcode::ADC, 3, 4, false),
            0xe => Inst::new(AddressingType::Absolute, Opcode::ROR, 3, 6, false),
            _ => Inst::new(AddressingType::Absolute, Opcode::RRA, 3, 1, true),
        },
        0x7 => match opcode % 16 {
            0x0 => Inst::new(AddressingType::Relative, Opcode::BVS, 2, 2, true),
            0x1 => Inst::new(AddressingType::IndirectY, Opcode::ADC, 2, 5, true),
            0x2 => Inst::new(AddressingType::Implied, Opcode::NOP, 1, 1, true),
            0x3 => Inst::new(AddressingType::IndirectY, Opcode::RRA, 2, 1, true),
            0x4 => Inst::new(AddressingType::Implied, Opcode::NOP, 2, 1, true),
            0x5 => Inst::new(AddressingType::ZeroPageX, Opcode::ADC, 2, 4, false),
            0x6 => Inst::new(AddressingType::ZeroPageX, Opcode::ROR, 2, 6, false),
            0x7 => Inst::new(AddressingType::ZeroPageX, Opcode::RRA, 2, 1, true),
            0x8 => Inst::new(AddressingType::Implied, Opcode::SEI, 1, 2, false),
            0x9 => Inst::new(AddressingType::AbsoluteY, Opcode::ADC, 3, 4, true),
            0xa => Inst::new(AddressingType::Implied, Opcode::NOP, 1, 1, true),
            0xb => Inst::new(AddressingType::AbsoluteY, Opcode::RRA, 3, 1, true),
            0xc => Inst::new(AddressingType::Implied, Opcode::NOP, 3, 1, true),
            0xd => Inst::new(AddressingType::AbsoluteX, Opcode::ADC, 3, 4, true),
            0xe => Inst::new(AddressingType::AbsoluteX, Opcode::ROR, 3, 7, false),
            _ => Inst::new(AddressingType::AbsoluteX, Opcode::RRA, 3, 1, true),
        },
        0x8 => match opcode % 16 {
            0x0 => Inst::new(AddressingType::Implied, Opcode::NOP, 2, 1, true),
            0x1 => Inst::new(AddressingType::IndirectX, Opcode::STA, 2, 6, false),
            0x2 => Inst::new(AddressingType::Implied, Opcode::NOP, 2, 1, true),
            0x3 => Inst::new(AddressingType::IndirectX, Opcode::SAX, 2, 1, true),
            0x4 => Inst::new(AddressingType::ZeroPage, Opcode::STY, 2, 3, false),
            0x5 => Inst::new(AddressingType::ZeroPage, Opcode::STA, 2, 3, false),
            0x6 => Inst::new(AddressingType::ZeroPage, Opcode::STX, 2, 3, false),
            0x7 => Inst::new(AddressingType::ZeroPage, Opcode::SAX, 2, 1, true),
            0x8 => Inst::new(AddressingType::Implied, Opcode::DEY, 1, 2, false),
            0x9 => Inst::new(AddressingType::Implied, Opcode::NOP, 2, 1, true),
            0xa => Inst::new(AddressingType::Implied, Opcode::TXA, 1, 2, false),
            0xb => Inst::new(AddressingType::Implied, Opcode::NOP, 2, 1, true),
            0xc => Inst::new(AddressingType::Absolute, Opcode::STY, 3, 4, false),
            0xd => Inst::new(AddressingType::Absolute, Opcode::STA, 3, 4, false),
            0xe => Inst::new(AddressingType::Absolute, Opcode::STX, 3, 4, false),
            _ => Inst::new(AddressingType::Absolute, Opcode::SAX, 3, 1, true),
        },
        0x9 => match opcode % 16 {
            0x0 => Inst::new(AddressingType::Relative, Opcode::BCC, 2, 2, true),
            0x1 => Inst::new(AddressingType::IndirectY, Opcode::STA, 2, 6, false),
            0x2 => Inst::new(AddressingType::Implied, Opcode::NOP, 1, 1, true),
            0x3 => Inst::new(AddressingType::Implied, Opcode::NOP, 2, 1, true),
            0x4 => Inst::new(AddressingType::ZeroPageX, Opcode::STY, 2, 4, false),
            0x5 => Inst::new(AddressingType::ZeroPageX, Opcode::STA, 2, 4, false),
            0x6 => Inst::new(AddressingType::ZeroPageY, Opcode::STX, 2, 4, false),
            0x7 => Inst::new(AddressingType::ZeroPageY, Opcode::SAX, 2, 1, true),
            0x8 => Inst::new(AddressingType::Implied, Opcode::TYA, 1, 2, false),
            0x9 => Inst::new(AddressingType::AbsoluteY, Opcode::STA, 3, 5, false),
            0xa => Inst::new(AddressingType::Implied, Opcode::TXS, 1, 2, false),
            0xb => Inst::new(AddressingType::Implied, Opcode::NOP, 3, 1, true),
            0xc => Inst::new(AddressingType::Implied, Opcode::NOP, 3, 1, true),
            0xd => Inst::new(AddressingType::AbsoluteX, Opcode::STA, 3, 5, false),
            0xe => Inst::new(AddressingType::Implied, Opcode::NOP, 3, 1, true),
            _ => Inst::new(AddressingType::Implied, Opcode::NOP, 3, 1, true),
        },
        0xa => match opcode % 16 {
            0x0 => Inst::new(AddressingType::Immediate, Opcode::LDY, 2, 2, false),
            0x1 => Inst::new(AddressingType::IndirectX, Opcode::LDA, 2, 6, false),
            0x2 => Inst::new(AddressingType::Immediate, Opcode::LDX, 2, 2, false),
            0x3 => Inst::new(AddressingType::IndirectX, Opcode::LAX, 2, 1, true),
            0x4 => Inst::new(AddressingType::ZeroPage, Opcode::LDY, 2, 3, false),
            0x5 => Inst::new(AddressingType::ZeroPage, Opcode::LDA, 2, 4, false),
            0x6 => Inst::new(AddressingType::ZeroPage, Opcode::LDX, 2, 3, false),
            0x7 => Inst::new(AddressingType::ZeroPage, Opcode::LAX, 2, 1, true),
            0x8 => Inst::new(AddressingType::Implied, Opcode::TAY, 1, 2, false),
            0x9 => Inst::new(AddressingType::Immediate, Opcode::LDA, 2, 2, false),
            0xa => Inst::new(AddressingType::Implied, Opcode::TAX, 1, 2, false),
            0xb => Inst::new(AddressingType::Implied, Opcode::NOP, 2, 1, true),
            0xc => Inst::new(AddressingType::Absolute, Opcode::LDY, 3, 4, false),
            0xd => Inst::new(AddressingType::Absolute, Opcode::LDA, 3, 4, false),
            0xe => Inst::new(AddressingType::Absolute, Opcode::LDX, 3, 4, false),
            _ => Inst::new(AddressingType::Absolute, Opcode::LAX, 3, 1, true),
        },
        0xb => match opcode % 16 {
            0x0 => Inst::new(AddressingType::Relative, Opcode::BCS, 2, 2, true),
            0x1 => Inst::new(AddressingType::IndirectY, Opcode::LDA, 2, 5, true),
            0x2 => Inst::new(AddressingType::Implied, Opcode::NOP, 1, 1, true),
            0x3 => Inst::new(AddressingType::IndirectY, Opcode::LAX, 2, 1, true),
            0x4 => Inst::new(AddressingType::ZeroPageX, Opcode::LDY, 2, 4, false),
            0x5 => Inst::new(AddressingType::ZeroPageX, Opcode::LDA, 2, 4, false),
            0x6 => Inst::new(AddressingType::ZeroPageY, Opcode::LDX, 2, 4, false),
            0x7 => Inst::new(AddressingType::ZeroPageY, Opcode::LAX, 2, 1, true),
            0x8 => Inst::new(AddressingType::Implied, Opcode::CLV, 1, 2, false),
            0x9 => Inst::new(AddressingType::AbsoluteY, Opcode::LDA, 3, 4, true),
            0xa => Inst::new(AddressingType::Implied, Opcode::TSX, 1, 2, false),
            0xb => Inst::new(AddressingType::Implied, Opcode::NOP, 3, 1, true),
            0xc => Inst::new(AddressingType::AbsoluteX, Opcode::LDY, 3, 4, true),
            0xd => Inst::new(AddressingType::AbsoluteX, Opcode::LDA, 3, 4, true),
            0xe => Inst::new(AddressingType::AbsoluteY, Opcode::LDX, 3, 4, true),
            _ => Inst::new(AddressingType::AbsoluteY, Opcode::LAX, 3, 1, true),
        },
        0xc => match opcode % 16 {
            0x0 => Inst::new(AddressingType::Immediate, Opcode::CPY, 2, 2, false),
            0x1 => Inst::new(AddressingType::IndirectX, Opcode::CMP, 2, 6, false),
            0x2 => Inst::new(AddressingType::Implied, Opcode::NOP, 2, 1, true),
            0x3 => Inst::new(AddressingType::IndirectX, Opcode::DCP, 2, 1, true),
            0x4 => Inst::new(AddressingType::ZeroPage, Opcode::CPY, 2, 3, false),
            0x5 => Inst::new(AddressingType::ZeroPage, Opcode::CMP, 2, 3, false),
            0x6 => Inst::new(AddressingType::ZeroPage, Opcode::DEC, 2, 5, false),
            0x7 => Inst::new(AddressingType::ZeroPage, Opcode::DCP, 2, 1, true),
            0x8 => Inst::new(AddressingType::Implied, Opcode::INY, 1, 2, false),
            0x9 => Inst::new(AddressingType::Immediate, Opcode::CMP, 2, 2, false),
            0xa => Inst::new(AddressingType::Implied, Opcode::DEX, 1, 2, false),
            0xb => Inst::new(AddressingType::Implied, Opcode::NOP, 2, 1, true),
            0xc => Inst::new(AddressingType::Absolute, Opcode::CPY, 3, 4, false),
            0xd => Inst::new(AddressingType::Absolute, Opcode::CMP, 3, 4, false),
            0xe => Inst::new(AddressingType::Absolute, Opcode::DEC, 3, 6, false),
            _ => Inst::new(AddressingType::Absolute, Opcode::DCP, 3, 1, true),
        },
        0xd => match opcode % 16 {
            0x0 => Inst::new(AddressingType::Relative, Opcode::BNE, 2, 2, true),
            0x1 => Inst::new(AddressingType::IndirectY, Opcode::CMP, 2, 5, true),
            0x2 => Inst::new(AddressingType::Implied, Opcode::NOP, 1, 1, true),
            0x3 => Inst::new(AddressingType::IndirectY, Opcode::DCP, 2, 1, true),
            0x4 => Inst::new(AddressingType::Implied, Opcode::NOP, 2, 1, true),
            0x5 => Inst::new(AddressingType::ZeroPageX, Opcode::CMP, 2, 4, false),
            0x6 => Inst::new(AddressingType::ZeroPageX, Opcode::DEC, 2, 6, false),
            0x7 => Inst::new(AddressingType::ZeroPageX, Opcode::DCP, 2, 1, true),
            0x8 => Inst::new(AddressingType::Implied, Opcode::CLD, 1, 2, false),
            0x9 => Inst::new(AddressingType::AbsoluteY, Opcode::CMP, 3, 4, true),
            0xa => Inst::new(AddressingType::Implied, Opcode::NOP, 1, 1, true),
            0xb => Inst::new(AddressingType::AbsoluteY, Opcode::DCP, 3, 1, true),
            0xc => Inst::new(AddressingType::Implied, Opcode::NOP, 3, 1, true),
            0xd => Inst::new(AddressingType::AbsoluteX, Opcode::CMP, 3, 4, true),
            0xe => Inst::new(AddressingType::AbsoluteX, Opcode::DEC, 3, 7, false),
            _ => Inst::new(AddressingType::AbsoluteX, Opcode::DCP, 3, 1, true),
        },
        0xe => match opcode % 16 {
            0x0 => Inst::new(AddressingType::Immediate, Opcode::CPX, 2, 2, false),
            0x1 => Inst::new(AddressingType::IndirectX, Opcode::SBC, 2, 6, false),
            0x2 => Inst::new(AddressingType::Implied, Opcode::NOP, 2, 1, true),
            0x3 => Inst::new(AddressingType::IndirectX, Opcode::ISC, 2, 1, true),
            0x4 => Inst::new(AddressingType::ZeroPage, Opcode::CPX, 2, 3, false),
            0x5 => Inst::new(AddressingType::ZeroPage, Opcode::SBC, 2, 3, false),
            0x6 => Inst::new(AddressingType::ZeroPage, Opcode::INC, 2, 5, false),
            0x7 => Inst::new(AddressingType::ZeroPage, Opcode::ISC, 2, 1, true),
            0x8 => Inst::new(AddressingType::Implied, Opcode::INX, 1, 2, false),
            0x9 => Inst::new(AddressingType::Immediate, Opcode::SBC, 2, 2, false),
            0xa => Inst::new(AddressingType::Implied, Opcode::NOP, 1, 2, false),
            0xb => Inst::new(AddressingType::Immediate, Opcode::SBC, 2, 1, true),
            0xc => Inst::new(AddressingType::Absolute, Opcode::CPX, 3, 4, false),
            0xd => Inst::new(AddressingType::Absolute, Opcode::SBC, 3, 4, false),
            0xe => Inst::new(AddressingType::Absolute, Opcode::INC, 3, 6, false),
            _ => Inst::new(AddressingType::Absolute, Opcode::ISC, 3, 1, true),
        },
        _ => match opcode % 16 {
            0x0 => Inst::new(AddressingType::Relative, Opcode::BEQ, 2, 2, true),
            0x1 => Inst::new(AddressingType::IndirectY, Opcode::SBC, 2, 5, true),
            0x2 => Inst::new(AddressingType::Implied, Opcode::NOP, 1, 1, true),
            0x3 => Inst::new(AddressingType::IndirectY, Opcode::ISC, 2, 1, true),
            0x4 => Inst::new(AddressingType::Implied, Opcode::NOP, 2, 1, true),
            0x5 => Inst::new(AddressingType::ZeroPageX, Opcode::SBC, 2, 4, false),
            0x6 => Inst::new(AddressingType::ZeroPageX, Opcode::INC, 2, 6, false),
            0x7 => Inst::new(AddressingType::ZeroPageX, Opcode::ISC, 2, 1, true),
            0x8 => Inst::new(AddressingType::Implied, Opcode::SED, 1, 2, false),
            0x9 => Inst::new(AddressingType::AbsoluteY, Opcode::SBC, 3, 4, true),
            0xa => Inst::new(AddressingType::Implied, Opcode::NOP, 1, 1, true),
            0xb => Inst::new(AddressingType::AbsoluteY, Opcode::ISC, 3, 1, true),
            0xc => Inst::new(AddressingType::Implied, Opcode::NOP, 3, 1, true),
            0xd => Inst::new(AddressingType::AbsoluteX, Opcode::SBC, 3, 4, true),
            0xe => Inst::new(AddressingType::AbsoluteX, Opcode::INC, 3, 7, false),
            _ => Inst::new(AddressingType::AbsoluteX, Opcode::ISC, 3, 1, true),
        },
    }
}

/// Descriptor of an opcode byte. Every byte has one.
pub fn lookup(opcode: u8) -> (r: Inst)
    ensures
        r == spec_lookup(opcode),
        1 <= r.inst_len <= 3,
        r.executable(),
{
    let r = match opcode / 16 {
        0x0 => match opcode % 16 {
            0x0 => Inst::new(AddressingType::Implied, Opcode::BRK, 2, 7, false),
            0x1 => Inst::new(AddressingType::IndirectX, Opcode::ORA, 2, 6, false),
            0x2 => Inst::new(AddressingType::Implied, Opcode::NOP, 1, 1, true),
            0x3 => Inst::new(AddressingType::IndirectX, Opcode::SLO, 2, 1, true),
            0x4 => Inst::new(AddressingType::Implied, Opcode::NOP, 2, 1, true),
            0x5 => Inst::new(AddressingType::ZeroPage, Opcode::ORA, 2, 3, false),
            0x6 => Inst::new(AddressingType::ZeroPage, Opcode::ASL, 2, 5, false),
            0x7 => Inst::new(AddressingType::ZeroPage, Opcode::SLO, 2, 1, true),
            0x8 => Inst::new(AddressingType::Implied, Opcode::PHP, 1, 3, false),
            0x9 => Inst::new(AddressingType::Immediate, Opcode::ORA, 2, 2, false),
            0xa => Inst::new(AddressingType::Accumulator, Opcode::ASL, 1, 2, false),
            0xb => Inst::new(AddressingType::Implied, Opcode::NOP, 2, 1, true),
            0xc => Inst::new(AddressingType::Implied, Opcode::NOP, 3, 1, true),
            0xd => Inst::new(AddressingType::Absolute, Opcode::ORA, 3, 4, false),
            0xe => Inst::new(AddressingType::Absolute, Opcode::ASL, 3, 6, false),
            _ => Inst::new(AddressingType::Absolute, Opcode::SLO, 3, 1, true),
        },
        0x1 => match opcode % 16 {
            0x0 => Inst::new(AddressingType::Relative, Opcode::BPL, 2, 2, true),
            0x1 => Inst::new(AddressingType::IndirectY, Opcode::ORA, 2, 5, true),
            0x2 => Inst::new(AddressingType::Implied, Opcode::NOP, 1, 1, true),
            0x3 => Inst::new(AddressingType::IndirectY, Opcode::SLO, 2, 1, true),
            0x4 => Inst::new(AddressingType::Implied, Opcode::NOP, 2, 1, true),
            0x5 => Inst::new(AddressingType::ZeroPageX, Opcode::ORA, 2, 4, false),
            0x6 => Inst::new(AddressingType::ZeroPageX, Opcode::ASL, 2, 6, false),
            0x7 => Inst::new(AddressingType::ZeroPageX, Opcode::SLO, 2, 1, true),
            0x8 => Inst::new(AddressingType::Implied, Opcode::CLC, 1, 2, false),
            0x9 => Inst::new(AddressingType::AbsoluteY, Opcode::ORA, 3, 4, true),
            0xa => Inst::new(AddressingType::Implied, Opcode::NOP, 1, 1, true),
            0xb => Inst::new(AddressingType::AbsoluteY, Opcode::SLO, 3, 1, true),
            0xc => Inst::new(AddressingType::Implied, Opcode::NOP, 3, 1, true),
            0xd => Inst::new(AddressingType::AbsoluteX, Opcode::ORA, 3, 4, true),
            0xe => Inst::new(AddressingType::AbsoluteX, Opcode::ASL, 3, 7, false),
            _ => Inst::new(AddressingType::AbsoluteX, Opcode::SLO, 3, 1, true),
        },
        0x2 => match opcode % 16 {
            0x0 => Inst::new(AddressingType::Absolute, Opcode::JSR, 3, 6, false),
            0x1 => Inst::new(AddressingType::IndirectX, Opcode::AND, 2, 6, false),
            0x2 => Inst::new(AddressingType::Implied, Opcode::NOP, 1, 1, true),
            0x3 => Inst::new(AddressingType::IndirectX, Opcode::RLA, 2, 1, true),
            0x4 => Inst::new(AddressingType::ZeroPage, Opcode::BIT, 2, 3, false),
            0x5 => Inst::new(AddressingType::ZeroPage, Opcode::AND, 2, 3, false),
            0x6 => Inst::new(AddressingType::ZeroPage, Opcode::ROL, 2, 5, false),
            0x7 => Inst::new(AddressingType::ZeroPage, Opcode::RLA, 2, 1, true),
            0x8 => Inst::new(AddressingType::Implied, Opcode::PLP, 1, 4, false),
            0x9 => Inst::new(AddressingType::Immediate, Opcode::AND, 2, 2, false),
            0xa => Inst::new(AddressingType::Accumulator, Opcode::ROL, 1, 2, false),
            0xb => Inst::new(AddressingType::Implied, Opcode::NOP, 2, 1, true),
            0xc => Inst::new(AddressingType::Absolute, Opcode::BIT, 3, 4, false),
            0xd => Inst::new(AddressingType::Absolute, Opcode::AND, 3, 4, false),
            0xe => Inst::new(AddressingType::Absolute, Opcode::ROL, 3, 6, false),
            _ => Inst::new(AddressingType::Absolute, Opcode::RLA, 3, 1, true),
        },
        0x3 => match opcode % 16 {
            0x0 => Inst::new(AddressingType::Relative, Opcode::BMI, 2, 2, true),
            0x1 => Inst::new(AddressingType::IndirectY, Opcode::AND, 2, 5, true),
            0x2 => Inst::new(AddressingType::Implied, Opcode::NOP, 1, 1, true),
            0x3 => Inst::new(AddressingType::IndirectY, Opcode::RLA, 2, 1, true),
            0x4 => Inst::new(AddressingType::Implied, Opcode::NOP, 2, 1, true),
            0x5 => Inst::new(AddressingType::ZeroPageX, Opcode::AND, 2, 4, false),
            0x6 => Inst::new(AddressingType::ZeroPageX, Opcode::ROL, 2, 6, false),
            0x7 => Inst::new(AddressingType::ZeroPageX, Opcode::RLA, 2, 1, true),
            0x8 => Inst::new(AddressingType::Implied, Opcode::SEC, 1, 2, false),
            0x9 => Inst::new(AddressingType::AbsoluteY, Opcode::AND, 3, 4, true),
            0xa => Inst::new(AddressingType::Implied, Opcode::NOP, 1, 1, true),
            0xb => Inst::new(AddressingType::AbsoluteY, Opcode::RLA, 3, 1, true),
            0xc => Inst::new(AddressingType::Implied, Opcode::NOP, 3, 1, true),
            0xd => Inst::new(AddressingType::AbsoluteX, Opcode::AND, 3, 4, true),
            0xe => Inst::new(AddressingType::AbsoluteX, Opcode::ROL, 3, 7, false),
            _ => Inst::new(AddressingType::AbsoluteX, Opcode::RLA, 3, 1, true),
        },
        0x4 => match opcode % 16 {
            0x0 => Inst::new(AddressingType::Implied, Opcode::RTI, 1, 6, false),
            0x1 => Inst::new(AddressingType::IndirectX, Opcode::EOR, 2, 6, false),
            0x2 => Inst::new(AddressingType::Implied, Opcode::NOP, 1, 1, true),
            0x3 => Inst::new(AddressingType::IndirectX, Opcode::SRE, 2, 1, true),
            0x4 => Inst::new(AddressingType::Implied, Opcode::NOP, 2, 1, true),
            0x5 => Inst::new(AddressingType::ZeroPage, Opcode::EOR, 2, 3, false),
            0x6 => Inst::new(AddressingType::ZeroPage, Opcode::LSR, 2, 5, false),
            0x7 => Inst::new(AddressingType::ZeroPage, Opcode::SRE, 2, 1, true),
            0x8 => Inst::new(AddressingType::Implied, Opcode::PHA, 1, 3, false),
            0x9 => Inst::new(AddressingType::Immediate, Opcode::EOR, 2, 2, false),
            0xa => Inst::new(AddressingType::Accumulator, Opcode::LSR, 1, 2, false),
            0xb => Inst::new(AddressingType::Implied, Opcode::NOP, 2, 1, true),
            0xc => Inst::new(AddressingType::Absolute, Opcode::JMP, 3, 3, false),
            0xd => Inst::new(AddressingType::Absolute, Opcode::EOR, 3, 4, false),
            0xe => Inst::new(AddressingType::Absolute, Opcode::LSR, 3, 6, false),
            _ => Inst::new(AddressingType::Absolute, Opcode::SRE, 3, 1, true),
        },
        0x5 => match opcode % 16 {
            0x0 => Inst::new(AddressingType::Relative, Opcode::BVC, 2, 2, true),
            0x1 => Inst::new(AddressingType::IndirectY, Opcode::EOR, 2, 5, true),
            0x2 => Inst::new(AddressingType::Implied, Opcode::NOP, 1, 1, true),
            0x3 => Inst::new(AddressingType::IndirectY, Opcode::SRE, 2, 1, true),
            0x4 => Inst::new(AddressingType::Implied, Opcode::NOP, 2, 1, true),
            0x5 => Inst::new(AddressingType::ZeroPageX, Opcode::EOR, 2, 4, false),
            0x6 => Inst::new(AddressingType::ZeroPageX, Opcode::LSR, 2, 6, false),
            0x7 => Inst::new(AddressingType::ZeroPageX, Opcode::SRE, 2, 1, true),
            0x8 => Inst::new(AddressingType::Implied, Opcode::CLI, 1, 2, false),
            0x9 => Inst::new(AddressingType::AbsoluteY, Opcode::EOR, 3, 4, true),
            0xa => Inst::new(AddressingType::Implied, Opcode::NOP, 1, 1, true),
            0xb => Inst::new(AddressingType::AbsoluteY, Opcode::SRE, 3, 1, true),
            0xc => Inst::new(AddressingType::Implied, Opcode::NOP, 3, 1, true),
            0xd => Inst::new(AddressingType::AbsoluteX, Opcode::EOR, 3, 4, true),
            0xe => Inst::new(AddressingType::AbsoluteX, Opcode::LSR, 3, 7, false),
            _ => Inst::new(AddressingType::AbsoluteX, Opcode::SRE, 3, 1, true),
        },
        0x6 => match opcode % 16 {
            0x0 => Inst::new(AddressingType::Implied, Opcode::RTS, 1, 6, false),
            0x1 => Inst::new(AddressingType::IndirectX, Opcode::ADC, 2, 6, false),
            0x2 => Inst::new(AddressingType::Implied, Opcode::NOP, 1, 1, true),
            0x3 => Inst::new(AddressingType::IndirectX, Opcode::RRA, 2, 1, true),
            0x4 => Inst::new(AddressingType::Implied, Opcode::NOP, 2, 1, true),
            0x5 => Inst::new(AddressingType::ZeroPage, Opcode::ADC, 2, 3, false),
            0x6 => Inst::new(AddressingType::ZeroPage, Opcode::ROR, 2, 5, false),
            0x7 => Inst::new(AddressingType::ZeroPage, Opcode::RRA, 2, 1, true),
            0x8 => Inst::new(AddressingType::Implied, Opcode::PLA, 1, 4, false),
            0x9 => Inst::new(AddressingType::Immediate, Opcode::ADC, 2, 2, false),
            0xa => Inst::new(AddressingType::Accumulator, Opcode::ROR, 1, 2, false),
            0xb => Inst::new(AddressingType::Implied, Opcode::NOP, 2, 1, true),
            0xc => Inst::new(AddressingType::Indirect, Opcode::JMP, 3, 5, false),
            0xd => Inst::new(AddressingType::Absolute, Opcode::ADC, 3, 4, false),
            0xe => Inst::new(AddressingType::Absolute, Opcode::ROR, 3, 6, false),
            _ => Inst::new(AddressingType::Absolute, Opcode::RRA, 3, 1, true),
        },
        0x7 => match opcode % 16 {
            0x0 => Inst::new(AddressingType::Relative, Opcode::BVS, 2, 2, true),
            0x1 => Inst::new(AddressingType::IndirectY, Opcode::ADC, 2, 5, true),
            0x2 => Inst::new(AddressingType::Implied, Opcode::NOP, 1, 1, true),
            0x3 => Inst::new(AddressingType::IndirectY, Opcode::RRA, 2, 1, true),
            0x4 => Inst::new(AddressingType::Implied, Opcode::NOP, 2, 1, true),
            0x5 => Inst::new(AddressingType::ZeroPageX, Opcode::ADC, 2, 4, false),
            0x6 => Inst::new(AddressingType::ZeroPageX, Opcode::ROR, 2, 6, false),
            0x7 => Inst::new(AddressingType::ZeroPageX, Opcode::RRA, 2, 1, true),
            0x8 => Inst::new(AddressingType::Implied, Opcode::SEI, 1, 2, false),
            0x9 => Inst::new(AddressingType::AbsoluteY, Opcode::ADC, 3, 4, true),
            0xa => Inst::new(AddressingType::Implied, Opcode::NOP, 1, 1, true),
            0xb => Inst::new(AddressingType::AbsoluteY, Opcode::RRA, 3, 1, true),
            0xc => Inst::new(AddressingType::Implied, Opcode::NOP, 3, 1, true),
            0xd => Inst::new(AddressingType::AbsoluteX, Opcode::ADC, 3, 4, true),
            0xe => Inst::new(AddressingType::AbsoluteX, Opcode::ROR, 3, 7, false),
            _ => Inst::new(AddressingType::AbsoluteX, Opcode::RRA, 3, 1, true),
        },
        0x8 => match opcode % 16 {
            0x0 => Inst::new(AddressingType::Implied, Opcode::NOP, 2, 1, true),
            0x1 => Inst::new(AddressingType::IndirectX, Opcode::STA, 2, 6, false),
            0x2 => Inst::new(AddressingType::Implied, Opcode::NOP, 2, 1, true),
            0x3 => Inst::new(AddressingType::IndirectX, Opcode::SAX, 2, 1, true),
            0x4 => Inst::new(AddressingType::ZeroPage, Opcode::STY, 2, 3, false),
            0x5 => Inst::new(AddressingType::ZeroPage, Opcode::STA, 2, 3, false),
            0x6 => Inst::new(AddressingType::ZeroPage, Opcode::STX, 2, 3, false),
            0x7 => Inst::new(AddressingType::ZeroPage, Opcode::SAX, 2, 1, true),
            0x8 => Inst::new(AddressingType::Implied, Opcode::DEY, 1, 2, false),
            0x9 => Inst::new(AddressingType::Implied, Opcode::NOP, 2, 1, true),
            0xa => Inst::new(AddressingType::Implied, Opcode::TXA, 1, 2, false),
            0xb => Inst::new(AddressingType::Implied, Opcode::NOP, 2, 1, true),
            0xc => Inst::new(AddressingType::Absolute, Opcode::STY, 3, 4, false),
            0xd => Inst::new(AddressingType::Absolute, Opcode::STA, 3, 4, false),
            0xe => Inst::new(AddressingType::Absolute, Opcode::STX, 3, 4, false),
            _ => Inst::new(AddressingType::Absolute, Opcode::SAX, 3, 1, true),
        },
        0x9 => match opcode % 16 {
            0x0 => Inst::new(AddressingType::Relative, Opcode::BCC, 2, 2, true),
            0x1 => Inst::new(AddressingType::IndirectY, Opcode::STA, 2, 6, false),
            0x2 => Inst::new(AddressingType::Implied, Opcode::NOP, 1, 1, true),
            0x3 => Inst::new(AddressingType::Implied, Opcode::NOP, 2, 1, true),
            0x4 => Inst::new(AddressingType::ZeroPageX, Opcode::STY, 2, 4, false),
            0x5 => Inst::new(AddressingType::ZeroPageX, Opcode::STA, 2, 4, false),
            0x6 => Inst::new(AddressingType::ZeroPageY, Opcode::STX, 2, 4, false),
            0x7 => Inst::new(AddressingType::ZeroPageY, Opcode::SAX, 2, 1, true),
            0x8 => Inst::new(AddressingType::Implied, Opcode::TYA, 1, 2, false),
            0x9 => Inst::new(AddressingType::AbsoluteY, Opcode::STA, 3, 5, false),
            0xa => Inst::new(AddressingType::Implied, Opcode::TXS, 1, 2, false),
            0xb => Inst::new(AddressingType::Implied, Opcode::NOP, 3, 1, true),
            0xc => Inst::new(AddressingType::Implied, Opcode::NOP, 3, 1, true),
            0xd => Inst::new(AddressingType::AbsoluteX, Opcode::STA, 3, 5, false),
            0xe => Inst::new(AddressingType::Implied, Opcode::NOP, 3, 1, true),
            _ => Inst::new(AddressingType::Implied, Opcode::NOP, 3, 1, true),
        },
        0xa => match opcode % 16 {
            0x0 => Inst::new(AddressingType::Immediate, Opcode::LDY, 2, 2, false),
            0x1 => Inst::new(AddressingType::IndirectX, Opcode::LDA, 2, 6, false),
            0x2 => Inst::new(AddressingType::Immediate, Opcode::LDX, 2, 2, false),
            0x3 => Inst::new(AddressingType::IndirectX, Opcode::LAX, 2, 1, true),
            0x4 => Inst::new(AddressingType::ZeroPage, Opcode::LDY, 2, 3, false),
            0x5 => Inst::new(AddressingType::ZeroPage, Opcode::LDA, 2, 4, false),
            0x6 => Inst::new(AddressingType::ZeroPage, Opcode::LDX, 2, 3, false),
            0x7 => Inst::new(AddressingType::ZeroPage, Opcode::LAX, 2, 1, true),
            0x8 => Inst::new(AddressingType::Implied, Opcode::TAY, 1, 2, false),
            0x9 => Inst::new(AddressingType::Immediate, Opcode::LDA, 2, 2, false),
            0xa => Inst::new(AddressingType::Implied, Opcode::TAX, 1, 2, false),
            0xb => Inst::new(AddressingType::Implied, Opcode::NOP, 2, 1, true),
            0xc => Inst::new(AddressingType::Absolute, Opcode::LDY, 3, 4, false),
            0xd => Inst::new(AddressingType::Absolute, Opcode::LDA, 3, 4, false),
            0xe => Inst::new(AddressingType::Absolute, Opcode::LDX, 3, 4, false),
            _ => Inst::new(AddressingType::Absolute, Opcode::LAX, 3, 1, true),
        },
        0xb => match opcode % 16 {
            0x0 => Inst::new(AddressingType::Relative, Opcode::BCS, 2, 2, true),
            0x1 => Inst::new(AddressingType::IndirectY, Opcode::LDA, 2, 5, true),
            0x2 => Inst::new(AddressingType::Implied, Opcode::NOP, 1, 1, true),
            0x3 => Inst::new(AddressingType::IndirectY, Opcode::LAX, 2, 1, true),
            0x4 => Inst::new(AddressingType::ZeroPageX, Opcode::LDY, 2, 4, false),
            0x5 => Inst::new(AddressingType::ZeroPageX, Opcode::LDA, 2, 4, false),
            0x6 => Inst::new(AddressingType::ZeroPageY, Opcode::LDX, 2, 4, false),
            0x7 => Inst::new(AddressingType::ZeroPageY, Opcode::LAX, 2, 1, true),
            0x8 => Inst::new(AddressingType::Implied, Opcode::CLV, 1, 2, false),
            0x9 => Inst::new(AddressingType::AbsoluteY, Opcode::LDA, 3, 4, true),
            0xa => Inst::new(AddressingType::Implied, Opcode::TSX, 1, 2, false),
            0xb => Inst::new(AddressingType::Implied, Opcode::NOP, 3, 1, true),
            0xc => Inst::new(AddressingType::AbsoluteX, Opcode::LDY, 3, 4, true),
            0xd => Inst::new(AddressingType::AbsoluteX, Opcode::LDA, 3, 4, true),
            0xe => Inst::new(AddressingType::AbsoluteY, Opcode::LDX, 3, 4, true),
            _ => Inst::new(AddressingType::AbsoluteY, Opcode::LAX, 3, 1, true),
        },
        0xc => match opcode % 16 {
            0x0 => Inst::new(AddressingType::Immediate, Opcode::CPY, 2, 2, false),
            0x1 => Inst::new(AddressingType::IndirectX, Opcode::CMP, 2, 6, false),
            0x2 => Inst::new(AddressingType::Implied, Opcode::NOP, 2, 1, true),
            0x3 => Inst::new(AddressingType::IndirectX, Opcode::DCP, 2, 1, true),
            0x4 => Inst::new(AddressingType::ZeroPage, Opcode::CPY, 2, 3, false),
            0x5 => Inst::new(AddressingType::ZeroPage, Opcode::CMP, 2, 3, false),
            0x6 => Inst::new(AddressingType::ZeroPage, Opcode::DEC, 2, 5, false),
            0x7 => Inst::new(AddressingType::ZeroPage, Opcode::DCP, 2, 1, true),
            0x8 => Inst::new(AddressingType::Implied, Opcode::INY, 1, 2, false),
            0x9 => Inst::new(AddressingType::Immediate, Opcode::CMP, 2, 2, false),
            0xa => Inst::new(AddressingType::Implied, Opcode::DEX, 1, 2, false),
            0xb => Inst::new(AddressingType::Implied, Opcode::NOP, 2, 1, true),
            0xc => Inst::new(AddressingType::Absolute, Opcode::CPY, 3, 4, false),
            0xd => Inst::new(AddressingType::Absolute, Opcode::CMP, 3, 4, false),
            0xe => Inst::new(AddressingType::Absolute, Opcode::DEC, 3, 6, false),
            _ => Inst::new(AddressingType::Absolute, Opcode::DCP, 3, 1, true),
        },
        0xd => match opcode % 16 {
            0x0 => Inst::new(AddressingType::Relative, Opcode::BNE, 2, 2, true),
            0x1 => Inst::new(AddressingType::IndirectY, Opcode::CMP, 2, 5, true),
            0x2 => Inst::new(AddressingType::Implied, Opcode::NOP, 1, 1, true),
            0x3 => Inst::new(AddressingType::IndirectY, Opcode::DCP, 2, 1, true),
            0x4 => Inst::new(AddressingType::Implied, Opcode::NOP, 2, 1, true),
            0x5 => Inst::new(AddressingType::ZeroPageX, Opcode::CMP, 2, 4, false),
            0x6 => Inst::new(AddressingType::ZeroPageX, Opcode::DEC, 2, 6, false),
            0x7 => Inst::new(AddressingType::ZeroPageX, Opcode::DCP, 2, 1, true),
            0x8 => Inst::new(AddressingType::Implied, Opcode::CLD, 1, 2, false),
            0x9 => Inst::new(AddressingType::AbsoluteY, Opcode::CMP, 3, 4, true),
            0xa => Inst::new(AddressingType::Implied, Opcode::NOP, 1, 1, true),
            0xb => Inst::new(AddressingType::AbsoluteY, Opcode::DCP, 3, 1, true),
            0xc => Inst::new(AddressingType::Implied, Opcode::NOP, 3, 1, true),
            0xd => Inst::new(AddressingType::AbsoluteX, Opcode::CMP, 3, 4, true),
            0xe => Inst::new(AddressingType::AbsoluteX, Opcode::DEC, 3, 7, false),
            _ => Inst::new(AddressingType::AbsoluteX, Opcode::DCP, 3, 1, true),
        },
        0xe => match opcode % 16 {
            0x0 => Inst::new(AddressingType::Immediate, Opcode::CPX, 2, 2, false),
            0x1 => Inst::new(AddressingType::IndirectX, Opcode::SBC, 2, 6, false),
            0x2 => Inst::new(AddressingType::Implied, Opcode::NOP, 2, 1, true),
            0x3 => Inst::new(AddressingType::IndirectX, Opcode::ISC, 2, 1, true),
            0x4 => Inst::new(AddressingType::ZeroPage, Opcode::CPX, 2, 3, false),
            0x5 => Inst::new(AddressingType::ZeroPage, Opcode::SBC, 2, 3, false),
            0x6 => Inst::new(AddressingType::ZeroPage, Opcode::INC, 2, 5, false),
            0x7 => Inst::new(AddressingType::ZeroPage, Opcode::ISC, 2, 1, true),
            0x8 => Inst::new(AddressingType::Implied, Opcode::INX, 1, 2, false),
            0x9 => Inst::new(AddressingType::Immediate, Opcode::SBC, 2, 2, false),
            0xa => Inst::new(AddressingType::Implied, Opcode::NOP, 1, 2, false),
            0xb => Inst::new(AddressingType::Immediate, Opcode::SBC, 2, 1, true),
            0xc => Inst::new(AddressingType::Absolute, Opcode::CPX, 3, 4, false),
            0xd => Inst::new(AddressingType::Absolute, Opcode::SBC, 3, 4, false),
            0xe => Inst::new(AddressingType::Absolute, Opcode::INC, 3, 6, false),
            _ => Inst::new(AddressingType::Absolute, Opcode::ISC, 3, 1, true),
        },
        _ => match opcode % 16 {
            0x0 => Inst::new(AddressingType::Relative, Opcode::BEQ, 2, 2, true),
            0x1 => Inst::new(AddressingType::IndirectY, Opcode::SBC, 2, 5, true),
            0x2 => Inst::new(AddressingType::Implied, Opcode::NOP, 1, 1, true),
            0x3 => Inst::new(AddressingType::IndirectY, Opcode::ISC, 2, 1, true),
            0x4 => Inst::new(AddressingType::Implied, Opcode::NOP, 2, 1, true),
            0x5 => Inst::new(AddressingType::ZeroPageX, Opcode::SBC, 2, 4, false),
            0x6 => Inst::new(AddressingType::ZeroPageX, Opcode::INC, 2, 6, false),
            0x7 => Inst::new(AddressingType::ZeroPageX, Opcode::ISC, 2, 1, true),
            0x8 => Inst::new(AddressingType::Implied, Opcode::SED, 1, 2, false),
            0x9 => Inst::new(AddressingType::AbsoluteY, Opcode::SBC, 3, 4, true),
            0xa => Inst::new(AddressingType::Implied, Opcode::NOP, 1, 1, true),
            0xb => Inst::new(AddressingType::AbsoluteY, Opcode::ISC, 3, 1, true),
            0xc => Inst::new(AddressingType::Implied, Opcode::NOP, 3, 1, true),
            0xd => Inst::new(AddressingType::AbsoluteX, Opcode::SBC, 3, 4, true),
            0xe => Inst::new(AddressingType::AbsoluteX, Opcode::INC, 3, 7, false),
            _ => Inst::new(AddressingType::AbsoluteX, Opcode::ISC, 3, 1, true),
        },
    };
    proof {
        lemma_lookup_total(opcode);
    }
    r
}

/// Every row of the table is between one and three bytes long and pairs
/// its operation with an addressing mode that the operation can execute.
pub proof fn lemma_lookup_total(opcode: u8)
    ensures
        1 <= spec_lookup(opcode).inst_len <= 3,
        spec_lookup(opcode).executable(),
{
}

/// Apart from `BRK` and `NOP`, whose rows carry padding bytes, the length
/// of a row is the opcode byte plus the operand bytes of its addressing
/// mode.
pub proof fn lemma_lookup_length(opcode: u8)
    ensures
        !(spec_lookup(opcode).opcode is BRK) && !(spec_lookup(opcode).opcode is NOP)
            ==> spec_lookup(opcode).inst_len == 1 + spec_lookup(
            opcode,
        ).address_type.operand_bytes(),
{
}

/// Among the opcode bytes whose two low bits are `01`, the three high
/// bits select the operation and the three bits between select the
/// addressing mode. The one byte of the group without a row of this shape
/// is 0x89: a store has no immediate operand.
pub proof fn lemma_accumulator_group(opcode: u8)
    requires
        opcode % 4 == 1,
        opcode != 0x89,
    ensures
        spec_lookup(opcode).opcode == match opcode / 32 {
            0 => Opcode::ORA,
            1 => Opcode::AND,
            2 => Opcode::EOR,
            3 => Opcode::ADC,
            4 => Opcode::STA,
            5 => Opcode::LDA,
            6 => Opcode::CMP,
            _ => Opcode::SBC,
        },
        spec_lookup(opcode).address_type == match (opcode / 4) % 8 {
            0 => AddressingType::IndirectX,
            1 => AddressingType::ZeroPage,
            2 => AddressingType::Immediate,
            3 => AddressingType::Absolute,
            4 => AddressingType::IndirectY,
            5 => AddressingType::ZeroPageX,
            6 => AddressingType::AbsoluteY,
            _ => AddressingType::AbsoluteX,
        },
{
}

/// The conditional branches are the opcode bytes whose five low bits are
/// `10000`. Bits 7 and 6 select the flag that is tested, bit 5 the value
/// that it must have; all of them take a relative operand.
pub proof fn lemma_branch_group(opcode: u8)
    ensures
        spec_lookup(opcode).opcode.spec_family() is Branch <==> opcode % 32 == 16,
        opcode % 32 == 16 ==> spec_lookup(opcode).address_type is Relative && spec_lookup(
            opcode,
        ).inst_len == 2,
        opcode % 32 == 16 ==> spec_lookup(opcode).opcode == match opcode / 32 {
            0 => Opcode::BPL,
            1 => Opcode::BMI,
            2 => Opcode::BVC,
            3 => Opcode::BVS,
            4 => Opcode::BCC,
            5 => Opcode::BCS,
            6 => Opcode::BNE,
            _ => Opcode::BEQ,
        },
{
}

/// The whole table as a map from opcode byte to descriptor.
pub fn generate_inst_table() -> (table: HashMap<u8, Inst>)
    ensures
        forall|opcode: u8| table@.contains_key(opcode),
        forall|opcode: u8| table@[opcode] == spec_lookup(opcode),
        table@.len() == 256,
{
    let mut table: HashMap<u8, Inst> = HashMap::new();
    let mut next: u16 = 0;
    while next < 256
        invariant
            next <= 256,
            forall|opcode: u8| table@.contains_key(opcode) <==> (opcode as int) < next,
            forall|opcode: u8| (opcode as int) < next ==> table@[opcode] == spec_lookup(opcode),
        decreases 256 - next,
    {
        let opcode: u8 = next as u8;
        table.insert(opcode, lookup(opcode));
        next = next + 1;
    }
    proof {
        lemma_full_byte_map(table@);
    }
    table
}

/// A finite map that holds every byte as a key has 256 entries.
proof fn lemma_full_byte_map(m: Map<u8, Inst>)
    requires
        m.dom().finite(),
        forall|k: u8| m.contains_key(k),
    ensures
        m.len() == 256,
{
    let below = |n: int| Set::new(|k: u8| (k as int) < n);
    assert forall|n: int| 0 <= n <= 256 implies (#[trigger] below(n)).finite() && below(n).len()
        == n by {
        lemma_bytes_below(n);
    }
    assert(m.dom() =~= below(256));
}

proof fn lemma_bytes_below(n: int)
    requires
        0 <= n <= 256,
    ensures
        Set::new(|k: u8| (k as int) < n).finite(),
        Set::new(|k: u8| (k as int) < n).len() == n,
    decreases n,
{
    let s = Set::new(|k: u8| (k as int) < n);
    if n == 0 {
        assert(s =~= Set::<u8>::empty());
    } else {
        lemma_bytes_below(n - 1);
        let prev = Set::new(|k: u8| (k as int) < n - 1);
        assert(s =~= prev.insert((n - 1) as u8));
    }
}

} // verus!
