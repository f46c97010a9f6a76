use vstd::prelude::*;
use crate::errors::EmulationError;
use crate::memory::MemMapped;
use crate::bits::{wadd16, word};

verus! {

/// How an instruction finds its operand, with the operand bytes that follow the opcode.
#[derive(Debug, Clone, Copy)]
pub enum AddressingMode {
    ZeroPageIndexedX(u8),
    ZeroPageIndexedY(u8),
    AbsoluteIndexedX(u16),
    AbsoluteIndexedY(u16),
    IndexedIndirectX(u8),
    IndirectIndexedY(u8),
    Implicit,
    Immediate(u8),
    Accumulator,
    ZeroPage(u8),
    Absolute(u16),
    Relative(i8),
    Indirect(u16),
    Invalid,
}

impl AddressingMode {
    /// Length in bytes of an instruction with this addressing mode, opcode included.
    pub open spec fn spec_byte_count(self) -> u16 {
        match self {
            AddressingMode::ZeroPageIndexedX(_) => 2,
            AddressingMode::ZeroPageIndexedY(_) => 2,
            AddressingMode::AbsoluteIndexedX(_) => 3,
            AddressingMode::AbsoluteIndexedY(_) => 3,
            AddressingMode::IndexedIndirectX(_) => 2,
            AddressingMode::IndirectIndexedY(_) => 2,
            AddressingMode::Implicit => 1,
            AddressingMode::Immediate(_) => 2,
            AddressingMode::Accumulator => 1,
            AddressingMode::ZeroPage(_) => 2,
            AddressingMode::Absolute(_) => 3,
            AddressingMode::Relative(_) => 2,
            AddressingMode::Indirect(_) => 3,
            AddressingMode::Invalid => 1,
        }
    }

    pub fn byte_count(&self) -> (r: u16)
        ensures
            r == self.spec_byte_count(),
    {
        match *self {
            AddressingMode::ZeroPageIndexedX(_) => 2,
            AddressingMode::ZeroPageIndexedY(_) => 2,
            AddressingMode::AbsoluteIndexedX(_) => 3,
            AddressingMode::AbsoluteIndexedY(_) => 3,
            AddressingMode::IndexedIndirectX(_) => 2,
            AddressingMode::IndirectIndexedY(_) => 2,
            AddressingMode::Implicit => 1,
            AddressingMode::Immediate(_) => 2,
            AddressingMode::Accumulator => 1,
            AddressingMode::ZeroPage(_) => 2,
            AddressingMode::Absolute(_) => 3,
            AddressingMode::Relative(_) => 2,
            AddressingMode::Indirect(_) => 3,
            AddressingMode::Invalid => 1,
        }
    }
}

/// The operation that an opcode names.
#[derive(Debug, Clone, Copy)]
pub enum InstructionToken {
    ORA, AND, EOR, ADC, CMP, SBC,
    ASL, ROL, LSR, ROR, DEC, INC,
    BIT, JMP, CPY, CPX, BPL, BMI, BVC, BVS, BCC, BCS, BNE, BEQ,
    STA, LDA, STX, LDX, STY, LDY,
    BRK, JSR, RTI, RTS,
    PHP, PLP, PHA, PLA, DEY, TAY, INY, INX, CLC, SEC, CLI, SEI, TYA, CLV, CLD, SED, TXA, TXS, TAX, TSX, DEX, NOP,
    IGN, LAX, SAX, ALR, ANC, ARR, AXS, DCP, ISC, RLA, RRA, SLO, SRE,
    Unknown,
}

/// The shape of the operand that follows an opcode.
#[derive(Debug, Clone, Copy)]
pub enum OperandKind {
    Implicit,
    Accumulator,
    Immediate,
    ZeroPage,
    ZeroPageX,
    ZeroPageY,
    Absolute,
    AbsoluteX,
    AbsoluteY,
    IndexedIndirectX,
    IndirectIndexedY,
    Relative,
    Indirect,
    Invalid,
}

impl OperandKind {
    /// How many bytes of operand follow the opcode.
    pub open spec fn operand_len(self) -> u16 {
        match self {
            OperandKind::Implicit | OperandKind::Accumulator | OperandKind::Invalid => 0,
            OperandKind::Absolute | OperandKind::AbsoluteX | OperandKind::AbsoluteY | OperandKind::Indirect => 2,
            _ => 1,
        }
    }

    /// The addressing mode of this shape with operand bytes `lo` and `hi` (`hi` unused for one-byte operands).
    pub open spec fn to_mode(self, lo: u8, hi: u8) -> AddressingMode {
        match self {
            OperandKind::Implicit => AddressingMode::Implicit,
            OperandKind::Accumulator => AddressingMode::Accumulator,
            OperandKind::Invalid => AddressingMode::Invalid,
            OperandKind::Immediate => AddressingMode::Immediate(lo),
            OperandKind::ZeroPage => AddressingMode::ZeroPage(lo),
            OperandKind::ZeroPageX => AddressingMode::ZeroPageIndexedX(lo),
            OperandKind::ZeroPageY => AddressingMode::ZeroPageIndexedY(lo),
            OperandKind::IndexedIndirectX => AddressingMode::IndexedIndirectX(lo),
            OperandKind::IndirectIndexedY => AddressingMode::IndirectIndexedY(lo),
            OperandKind::Relative => AddressingMode::Relative(lo as i8),
            OperandKind::Absolute => AddressingMode::Absolute(word(lo, hi)),
            OperandKind::AbsoluteX => AddressingMode::AbsoluteIndexedX(word(lo, hi)),
            OperandKind::AbsoluteY => AddressingMode::AbsoluteIndexedY(word(lo, hi)),
            OperandKind::Indirect => AddressingMode::Indirect(word(lo, hi)),
        }
    }
}

/// What the opcode table says of one opcode.
#[derive(Debug, Clone, Copy)]
pub struct OpcodeInfo {
    pub token: InstructionToken,
    pub operand: OperandKind,
    pub cycles: u8,
    pub advances_pc: bool,
}

/// The opcode table of the 2A03 as this emulator knows it, unofficial opcodes included.
pub open spec fn opcode_info(op_code: u8) -> OpcodeInfo {
    match op_code {
        0x00 => OpcodeInfo { token: InstructionToken::BRK, operand: OperandKind::Implicit, cycles: 7, advances_pc: false },
        0xEA => OpcodeInfo { token: InstructionToken::NOP, operand: OperandKind::Implicit, cycles: 2, advances_pc: true },
        0x20 => OpcodeInfo { token: InstructionToken::JSR, operand: OperandKind::Absolute, cycles: 6, advances_pc: false },
        0x4C => OpcodeInfo { token: InstructionToken::JMP, operand: OperandKind::Absolute, cycles: 3, advances_pc: false },
        0x6C => OpcodeInfo { token: InstructionToken::JMP, operand: OperandKind::Indirect, cycles: 5, advances_pc: false },
        0x40 => OpcodeInfo { token: InstructionToken::RTI, operand: OperandKind::Implicit, cycles: 6, advances_pc: false },
        0x60 => OpcodeInfo { token: InstructionToken::RTS, operand: OperandKind::Implicit, cycles: 6, advances_pc: false },
        0x10 => OpcodeInfo { token: InstructionToken::BPL, operand: OperandKind::Relative, cycles: 2, advances_pc: true },
        0x30 => OpcodeInfo { token: InstructionToken::BMI, operand: OperandKind::Relative, cycles: 2, advances_pc: true },
        0x50 => OpcodeInfo { token: InstructionToken::BVC, operand: OperandKind::Relative, cycles: 2, advances_pc: true },
        0x70 => OpcodeInfo { token: InstructionToken::BVS, operand: OperandKind::Relative, cycles: 2, advances_pc: true },
        0x90 => OpcodeInfo { token: InstructionToken::BCC, operand: OperandKind::Relative, cycles: 2, advances_pc: true },
        0xB0 => OpcodeInfo { token: InstructionToken::BCS, operand: OperandKind::Relative, cycles: 2, advances_pc: true },
        0xD0 => OpcodeInfo { token: InstructionToken::BNE, operand: OperandKind::Relative, cycles: 2, advances_pc: true },
        0xF0 => OpcodeInfo { token: InstructionToken::BEQ, operand: OperandKind::Relative, cycles: 2, advances_pc: true },
        0x9A => OpcodeInfo { token: InstructionToken::TXS, operand: OperandKind::Implicit, cycles: 2, advances_pc: true },
        0xBA => OpcodeInfo { token: InstructionToken::TSX, operand: OperandKind::Implicit, cycles: 2, advances_pc: true },
        0x48 => OpcodeInfo { token: InstructionToken::PHA, operand: OperandKind::Implicit, cycles: 3, advances_pc: true },
        0x68 => OpcodeInfo { token: InstructionToken::PLA, operand: OperandKind::Implicit, cycles: 4, advances_pc: true },
        0x08 => OpcodeInfo { token: InstructionToken::PHP, operand: OperandKind::Implicit, cycles: 3, advances_pc: true },
        0x28 => OpcodeInfo { token: InstructionToken::PLP, operand: OperandKind::Implicit, cycles: 4, advances_pc: true },
        0x18 => OpcodeInfo { token: InstructionToken::CLC, operand: OperandKind::Implicit, cycles: 2, advances_pc: true },
        0x38 => OpcodeInfo { token: InstructionToken::SEC, operand: OperandKind::Implicit, cycles: 2, advances_pc: true },
        0x58 => OpcodeInfo { token: InstructionToken::CLI, operand: OperandKind::Implicit, cycles: 2, advances_pc: true },
        0x78 => OpcodeInfo { token: InstructionToken::SEI, operand: OperandKind::Implicit, cycles: 2, advances_pc: true },
        0xB8 => OpcodeInfo { token: InstructionToken::CLV, operand: OperandKind::Implicit, cycles: 2, advances_pc: true },
        0xD8 => OpcodeInfo { token: InstructionToken::CLD, operand: OperandKind::Implicit, cycles: 2, advances_pc: true },
        0xF8 => OpcodeInfo { token: InstructionToken::SED, operand: OperandKind::Implicit, cycles: 2, advances_pc: true },
        0x09 => OpcodeInfo { token: InstructionToken::ORA, operand: OperandKind::Immediate, cycles: 2, advances_pc: true },
        0x05 => OpcodeInfo { token: InstructionToken::ORA, operand: OperandKind::ZeroPage, cycles: 3, advances_pc: true },
        0x15 => OpcodeInfo { token: InstructionToken::ORA, operand: OperandKind::ZeroPageX, cycles: 4, advances_pc: true },
        0x0D => OpcodeInfo { token: InstructionToken::ORA, operand: OperandKind::Absolute, cycles: 4, advances_pc: true },
        0x1D => OpcodeInfo { token: InstructionToken::ORA, operand: OperandKind::AbsoluteX, cycles: 4, advances_pc: true },
        0x19 => OpcodeInfo { token: InstructionToken::ORA, operand: OperandKind::AbsoluteY, cycles: 4, advances_pc: true },
        0x01 => OpcodeInfo { token: InstructionToken::ORA, operand: OperandKind::IndexedIndirectX, cycles: 6, advances_pc: true },
        0x11 => OpcodeInfo { token: InstructionToken::ORA, operand: OperandKind::IndirectIndexedY, cycles: 5, advances_pc: true },
        0x29 => OpcodeInfo { token: InstructionToken::AND, operand: OperandKind::Immediate, cycles: 2, advances_pc: true },
        0x25 => OpcodeInfo { token: InstructionToken::AND, operand: OperandKind::ZeroPage, cycles: 3, advances_pc: true },
        0x35 => OpcodeInfo { token: InstructionToken::AND, operand: OperandKind::ZeroPageX, cycles: 4, advances_pc: true },
        0x2D => OpcodeInfo { token: InstructionToken::AND, operand: OperandKind::Absolute, cycles: 4, advances_pc: true },
        0x3D => OpcodeInfo { token: InstructionToken::AND, operand: OperandKind::AbsoluteX, cycles: 4, advances_pc: true },
        0x39 => OpcodeInfo { token: InstructionToken::AND, operand: OperandKind::AbsoluteY, cycles: 4, advances_pc: true },
        0x21 => OpcodeInfo { token: InstructionToken::AND, operand: OperandKind::IndexedIndirectX, cycles: 6, advances_pc: true },
        0x31 => OpcodeInfo { token: InstructionToken::AND, operand: OperandKind::IndirectIndexedY, cycles: 5, advances_pc: true },
        0x49 => OpcodeInfo { token: InstructionToken::EOR, operand: OperandKind::Immediate, cycles: 2, advances_pc: true },
        0x45 => OpcodeInfo { token: InstructionToken::EOR, operand: OperandKind::ZeroPage, cycles: 3, advances_pc: true },
        0x55 => OpcodeInfo { token: InstructionToken::EOR, operand: OperandKind::ZeroPageX, cycles: 4, advances_pc: true },
        0x4D => OpcodeInfo { token: InstructionToken::EOR, operand: OperandKind::Absolute, cycles: 4, advances_pc: true },
        0x5D => OpcodeInfo { token: InstructionToken::EOR, operand: OperandKind::AbsoluteX, cycles: 4, advances_pc: true },
        0x59 => OpcodeInfo { token: InstructionToken::EOR, operand: OperandKind::AbsoluteY, cycles: 4, advances_pc: true },
        0x41 => OpcodeInfo { token: InstructionToken::EOR, operand: OperandKind::IndexedIndirectX, cycles: 6, advances_pc: true },
        0x51 => OpcodeInfo { token: InstructionToken::EOR, operand: OperandKind::IndirectIndexedY, cycles: 5, advances_pc: true },
        0x69 => OpcodeInfo { token: InstructionToken::ADC, operand: OperandKind::Immediate, cycles: 2, advances_pc: true },
        0x65 => OpcodeInfo { token: InstructionToken::ADC, operand: OperandKind::ZeroPage, cycles: 3, advances_pc: true },
        0x75 => OpcodeInfo { token: InstructionToken::ADC, operand: OperandKind::ZeroPageX, cycles: 4, advances_pc: true },
        0x6D => OpcodeInfo { token: InstructionToken::ADC, operand: OperandKind::Absolute, cycles: 4, advances_pc: true },
        0x7D => OpcodeInfo { token: InstructionToken::ADC, operand: OperandKind::AbsoluteX, cycles: 4, advances_pc: true },
        0x79 => OpcodeInfo { token: InstructionToken::ADC, operand: OperandKind::AbsoluteY, cycles: 4, advances_pc: true },
        0x61 => OpcodeInfo { token: InstructionToken::ADC, operand: OperandKind::IndexedIndirectX, cycles: 6, advances_pc: true },
        0x71 => OpcodeInfo { token: InstructionToken::ADC, operand: OperandKind::IndirectIndexedY, cycles: 5, advances_pc: true },
        0xC9 => OpcodeInfo { token: InstructionToken::CMP, operand: OperandKind::Immediate, cycles: 2, advances_pc: true },
        0xC5 => OpcodeInfo { token: InstructionToken::CMP, operand: OperandKind::ZeroPage, cycles: 3, advances_pc: true },
        0xD5 => OpcodeInfo { token: InstructionToken::CMP, operand: OperandKind::ZeroPageX, cycles: 4, advances_pc: true },
        0xCD => OpcodeInfo { token: InstructionToken::CMP, operand: OperandKind::Absolute, cycles: 4, advances_pc: true },
        0xDD => OpcodeInfo { token: InstructionToken::CMP, operand: OperandKind::AbsoluteX, cycles: 4, advances_pc: true },
        0xD9 => OpcodeInfo { token: InstructionToken::CMP, operand: OperandKind::AbsoluteY, cycles: 4, advances_pc: true },
        0xC1 => OpcodeInfo { token: InstructionToken::CMP, operand: OperandKind::IndexedIndirectX, cycles: 6, advances_pc: true },
        0xD1 => OpcodeInfo { token: InstructionToken::CMP, operand: OperandKind::IndirectIndexedY, cycles: 5, advances_pc: true },
        0xE9 => OpcodeInfo { token: InstructionToken::SBC, operand: OperandKind::Immediate, cycles: 2, advances_pc: true },
        0xE5 => OpcodeInfo { token: InstructionToken::SBC, operand: OperandKind::ZeroPage, cycles: 3, advances_pc: true },
        0xF5 => OpcodeInfo { token: InstructionToken::SBC, operand: OperandKind::ZeroPageX, cycles: 4, advances_pc: true },
        0xED => OpcodeInfo { token: InstructionToken::SBC, operand: OperandKind::Absolute, cycles: 4, advances_pc: true },
        0xFD => OpcodeInfo { token: InstructionToken::SBC, operand: OperandKind::AbsoluteX, cycles: 4, advances_pc: true },
        0xF9 => OpcodeInfo { token: InstructionToken::SBC, operand: OperandKind::AbsoluteY, cycles: 4, advances_pc: true },
        0xE1 => OpcodeInfo { token: InstructionToken::SBC, operand: OperandKind::IndexedIndirectX, cycles: 6, advances_pc: true },
        0xF1 => OpcodeInfo { token: InstructionToken::SBC, operand: OperandKind::IndirectIndexedY, cycles: 5, advances_pc: true },
        0xE0 => OpcodeInfo { token: InstructionToken::CPX, operand: OperandKind::Immediate, cycles: 2, advances_pc: true },
        0xE4 => OpcodeInfo { token: InstructionToken::CPX, operand: OperandKind::ZeroPage, cycles: 3, advances_pc: true },
        0xEC => OpcodeInfo { token: InstructionToken::CPX, operand: OperandKind::Absolute, cycles: 4, advances_pc: true },
        0xC0 => OpcodeInfo { token: InstructionToken::CPY, operand: OperandKind::Immediate, cycles: 2, advances_pc: true },
        0xC4 => OpcodeInfo { token: InstructionToken::CPY, operand: OperandKind::ZeroPage, cycles: 3, advances_pc: true },
        0xCC => OpcodeInfo { token: InstructionToken::CPY, operand: OperandKind::Absolute, cycles: 4, advances_pc: true },
        0x24 => OpcodeInfo { token: InstructionToken::BIT, operand: OperandKind::ZeroPage, cycles: 3, advances_pc: true },
        0x2C => OpcodeInfo { token: InstructionToken::BIT, operand: OperandKind::Absolute, cycles: 4, advances_pc: true },
        0x0A => OpcodeInfo { token: InstructionToken::ASL, operand: OperandKind::Accumulator, cycles: 2, advances_pc: true },
        0x06 => OpcodeInfo { token: InstructionToken::ASL, operand: OperandKind::ZeroPage, cycles: 5, advances_pc: true },
        0x16 => OpcodeInfo { token: InstructionToken::ASL, operand: OperandKind::ZeroPageX, cycles: 6, advances_pc: true },
        0x0E => OpcodeInfo { token: InstructionToken::ASL, operand: OperandKind::Absolute, cycles: 6, advances_pc: true },
        0x1E => OpcodeInfo { token: InstructionToken::ASL, operand: OperandKind::AbsoluteX, cycles: 7, advances_pc: true },
        0x2A => OpcodeInfo { token: InstructionToken::ROL, operand: OperandKind::Accumulator, cycles: 2, advances_pc: true },
        0x26 => OpcodeInfo { token: InstructionToken::ROL, operand: OperandKind::ZeroPage, cycles: 5, advances_pc: true },
        0x36 => OpcodeInfo { token: InstructionToken::ROL, operand: OperandKind::ZeroPageX, cycles: 6, advances_pc: true },
        0x2E => OpcodeInfo { token: InstructionToken::ROL, operand: OperandKind::Absolute, cycles: 6, advances_pc: true },
        0x3E => OpcodeInfo { token: InstructionToken::ROL, operand: OperandKind::AbsoluteX, cycles: 7, advances_pc: true },
        0x4A => OpcodeInfo { token: InstructionToken::LSR, operand: OperandKind::Accumulator, cycles: 2, advances_pc: true },
        0x46 => OpcodeInfo { token: InstructionToken::LSR, operand: OperandKind::ZeroPage, cycles: 5, advances_pc: true },
        0x56 => OpcodeInfo { token: InstructionToken::LSR, operand: OperandKind::ZeroPageX, cycles: 6, advances_pc: true },
        0x4E => OpcodeInfo { token: InstructionToken::LSR, operand: OperandKind::Absolute, cycles: 6, advances_pc: true },
        0x5E => OpcodeInfo { token: InstructionToken::LSR, operand: OperandKind::AbsoluteX, cycles: 7, advances_pc: true },
        0x6A => OpcodeInfo { token: InstructionToken::ROR, operand: OperandKind::Accumulator, cycles: 2, advances_pc: true },
        0x66 => OpcodeInfo { token: InstructionToken::ROR, operand: OperandKind::ZeroPage, cycles: 5, advances_pc: true },
        0x76 => OpcodeInfo { token: InstructionToken::ROR, operand: OperandKind::ZeroPageX, cycles: 6, advances_pc: true },
        0x6E => OpcodeInfo { token: InstructionToken::ROR, operand: OperandKind::Absolute, cycles: 6, advances_pc: true },
        0x7E => OpcodeInfo { token: InstructionToken::ROR, operand: OperandKind::AbsoluteX, cycles: 7, advances_pc: true },
        0xC6 => OpcodeInfo { token: InstructionToken::DEC, operand: OperandKind::ZeroPage, cycles: 5, advances_pc: true },
        0xD6 => OpcodeInfo { token: InstructionToken::DEC, operand: OperandKind::ZeroPageX, cycles: 6, advances_pc: true },
        0xCE => OpcodeInfo { token: InstructionToken::DEC, operand: OperandKind::Absolute, cycles: 6, advances_pc: true },
        0xDE => OpcodeInfo { token: InstructionToken::DEC, operand: OperandKind::AbsoluteX, cycles: 7, advances_pc: true },
        0xE6 => OpcodeInfo { token: InstructionToken::INC, operand: OperandKind::ZeroPage, cycles: 5, advances_pc: true },
        0xF6 => OpcodeInfo { token: InstructionToken::INC, operand: OperandKind::ZeroPageX, cycles: 6, advances_pc: true },
        0xEE => OpcodeInfo { token: InstructionToken::INC, operand: OperandKind::Absolute, cycles: 6, advances_pc: true },
        0xFE => OpcodeInfo { token: InstructionToken::INC, operand: OperandKind::AbsoluteX, cycles: 7, advances_pc: true },
        0xAA => OpcodeInfo { token: InstructionToken::TAX, operand: OperandKind::Implicit, cycles: 2, advances_pc: true },
        0x8A => OpcodeInfo { token: InstructionToken::TXA, operand: OperandKind::Implicit, cycles: 2, advances_pc: true },
        0xCA => OpcodeInfo { token: InstructionToken::DEX, operand: OperandKind::Implicit, cycles: 2, advances_pc: true },
        0xE8 => OpcodeInfo { token: InstructionToken::INX, operand: OperandKind::Implicit, cycles: 2, advances_pc: true },
        0xA8 => OpcodeInfo { token: InstructionToken::TAY, operand: OperandKind::Implicit, cycles: 2, advances_pc: true },
        0x98 => OpcodeInfo { token: InstructionToken::TYA, operand: OperandKind::Implicit, cycles: 2, advances_pc: true },
        0x88 => OpcodeInfo { token: InstructionToken::DEY, operand: OperandKind::Implicit, cycles: 2, advances_pc: true },
        0xC8 => OpcodeInfo { token: InstructionToken::INY, operand: OperandKind::Implicit, cycles: 2, advances_pc: true },
        0xA9 => OpcodeInfo { token: InstructionToken::LDA, operand: OperandKind::Immediate, cycles: 2, advances_pc: true },
        0xA5 => OpcodeInfo { token: InstructionToken::LDA, operand: OperandKind::ZeroPage, cycles: 3, advances_pc: true },
        0xB5 => OpcodeInfo { token: InstructionToken::LDA, operand: OperandKind::ZeroPageX, cycles: 4, advances_pc: true },
        0xAD => OpcodeInfo { token: InstructionToken::LDA, operand: OperandKind::Absolute, cycles: 4, advances_pc: true },
        0xBD => OpcodeInfo { token: InstructionToken::LDA, operand: OperandKind::AbsoluteX, cycles: 4, advances_pc: true },
        0xB9 => OpcodeInfo { token: InstructionToken::LDA, operand: OperandKind::AbsoluteY, cycles: 4, advances_pc: true },
        0xA1 => OpcodeInfo { token: InstructionToken::LDA, operand: OperandKind::IndexedIndirectX, cycles: 6, advances_pc: true },
        0xB1 => OpcodeInfo { token: InstructionToken::LDA, operand: OperandKind::IndirectIndexedY, cycles: 5, advances_pc: true },
        0xA2 => OpcodeInfo { token: InstructionToken::LDX, operand: OperandKind::Immediate, cycles: 2, advances_pc: true },
        0xA6 => OpcodeInfo { token: InstructionToken::LDX, operand: OperandKind::ZeroPage, cycles: 3, advances_pc: true },
        0xB6 => OpcodeInfo { token: InstructionToken::LDX, operand: OperandKind::ZeroPageY, cycles: 4, advances_pc: true },
        0xAE => OpcodeInfo { token: InstructionToken::LDX, operand: OperandKind::Absolute, cycles: 4, advances_pc: true },
        0xBE => OpcodeInfo { token: InstructionToken::LDX, operand: OperandKind::AbsoluteY, cycles: 4, advances_pc: true },
        0xA0 => OpcodeInfo { token: InstructionToken::LDY, operand: OperandKind::Immediate, cycles: 2, advances_pc: true },
        0xA4 => OpcodeInfo { token: InstructionToken::LDY, operand: OperandKind::ZeroPage, cycles: 3, advances_pc: true },
        0xB4 => OpcodeInfo { token: InstructionToken::LDY, operand: OperandKind::ZeroPageX, cycles: 4, advances_pc: true },
        0xAC => OpcodeInfo { token: InstructionToken::LDY, operand: OperandKind::Absolute, cycles: 4, advances_pc: true },
        0xBC => OpcodeInfo { token: InstructionToken::LDY, operand: OperandKind::AbsoluteX, cycles: 4, advances_pc: true },
        0x85 => OpcodeInfo { token: InstructionToken::STA, operand: OperandKind::ZeroPage, cycles: 3, advances_pc: true },
        0x95 => OpcodeInfo { token: InstructionToken::STA, operand: OperandKind::ZeroPageX, cycles: 4, advances_pc: true },
        0x8D => OpcodeInfo { token: InstructionToken::STA, operand: OperandKind::Absolute, cycles: 4, advances_pc: true },
        0x9D => OpcodeInfo { token: InstructionToken::STA, operand: OperandKind::AbsoluteX, cycles: 5, advances_pc: true },
        0x99 => OpcodeInfo { token: InstructionToken::STA, operand: OperandKind::AbsoluteY, cycles: 5, advances_pc: true },
        0x81 => OpcodeInfo { token: InstructionToken::STA, operand: OperandKind::IndexedIndirectX, cycles: 6, advances_pc: true },
        0x91 => OpcodeInfo { token: InstructionToken::STA, operand: OperandKind::IndirectIndexedY, cycles: 6, advances_pc: true },
        0x86 => OpcodeInfo { token: InstructionToken::STX, operand: OperandKind::ZeroPage, cycles: 3, advances_pc: true },
        0x96 => OpcodeInfo { token: InstructionToken::STX, operand: OperandKind::ZeroPageY, cycles: 4, advances_pc: true },
        0x8E => OpcodeInfo { token: InstructionToken::STX, operand: OperandKind::Absolute, cycles: 4, advances_pc: true },
        0x84 => OpcodeInfo { token: InstructionToken::STY, operand: OperandKind::ZeroPage, cycles: 3, advances_pc: true },
        0x94 => OpcodeInfo { token: InstructionToken::STY, operand: OperandKind::ZeroPageX, cycles: 4, advances_pc: true },
        0x8C => OpcodeInfo { token: InstructionToken::STY, operand: OperandKind::Absolute, cycles: 4, advances_pc: true },
        0x1A | 0x3A | 0x5A | 0x7A | 0xDA | 0xFA => OpcodeInfo { token: InstructionToken::NOP, operand: OperandKind::Implicit, cycles: 2, advances_pc: true },
        0x04 | 0x14 | 0x34 | 0x44 | 0x54 | 0x64 | 0x74 | 0x80 | 0x82 | 0x89 | 0xC2 | 0xE2 | 0xEB | 0xD4 | 0xF4 => OpcodeInfo { token: InstructionToken::NOP, operand: OperandKind::Immediate, cycles: 2, advances_pc: true },
        0x1C | 0x3C | 0x5C | 0x7C | 0xDC | 0xFC => OpcodeInfo { token: InstructionToken::NOP, operand: OperandKind::Absolute, cycles: 2, advances_pc: true },
        0x0C => OpcodeInfo { token: InstructionToken::IGN, operand: OperandKind::Absolute, cycles: 4, advances_pc: true },
        0xAF => OpcodeInfo { token: InstructionToken::LAX, operand: OperandKind::Absolute, cycles: 4, advances_pc: true },
        0x8F => OpcodeInfo { token: InstructionToken::SAX, operand: OperandKind::Absolute, cycles: 4, advances_pc: true },
        0x4B => OpcodeInfo { token: InstructionToken::ALR, operand: OperandKind::Immediate, cycles: 2, advances_pc: true },
        0x0B | 0x2B => OpcodeInfo { token: InstructionToken::ANC, operand: OperandKind::Immediate, cycles: 2, advances_pc: true },
        0x6B => OpcodeInfo { token: InstructionToken::ARR, operand: OperandKind::Immediate, cycles: 2, advances_pc: true },
        0xCB => OpcodeInfo { token: InstructionToken::AXS, operand: OperandKind::Immediate, cycles: 2, advances_pc: true },
        0xCF => OpcodeInfo { token: InstructionToken::DCP, operand: OperandKind::Absolute, cycles: 6, advances_pc: true },
        0xEF => OpcodeInfo { token: InstructionToken::ISC, operand: OperandKind::Absolute, cycles: 6, advances_pc: true },
        0x2F => OpcodeInfo { token: InstructionToken::RLA, operand: OperandKind::Absolute, cycles: 6, advances_pc: true },
        0x6F => OpcodeInfo { token: InstructionToken::RRA, operand: OperandKind::Absolute, cycles: 6, advances_pc: true },
        0x0F => OpcodeInfo { token: InstructionToken::SLO, operand: OperandKind::Absolute, cycles: 6, advances_pc: true },
        0x4F => OpcodeInfo { token: InstructionToken::SRE, operand: OperandKind::Absolute, cycles: 6, advances_pc: true },
        _ => OpcodeInfo { token: InstructionToken::Unknown, operand: OperandKind::Invalid, cycles: 0, advances_pc: true },
    }
}

/// Looks an opcode up in the opcode table.
pub fn lookup_opcode(op_code: u8) -> (r: OpcodeInfo)
    ensures
        r == opcode_info(op_code),
{
    match op_code {
        0x00 => OpcodeInfo { token: InstructionToken::BRK, operand: OperandKind::Implicit, cycles: 7, advances_pc: false },
        0xEA => OpcodeInfo { token: InstructionToken::NOP, operand: OperandKind::Implicit, cycles: 2, advances_pc: true },
        0x20 => OpcodeInfo { token: InstructionToken::JSR, operand: OperandKind::Absolute, cycles: 6, advances_pc: false },
        0x4C => OpcodeInfo { token: InstructionToken::JMP, operand: OperandKind::Absolute, cycles: 3, advances_pc: false },
        0x6C => OpcodeInfo { token: InstructionToken::JMP, operand: OperandKind::Indirect, cycles: 5, advances_pc: false },
        0x40 => OpcodeInfo { token: InstructionToken::RTI, operand: OperandKind::Implicit, cycles: 6, advances_pc: false },
        0x60 => OpcodeInfo { token: InstructionToken::RTS, operand: OperandKind::Implicit, cycles: 6, advances_pc: false },
        0x10 => OpcodeInfo { token: InstructionToken::BPL, operand: OperandKind::Relative, cycles: 2, advances_pc: true },
        0x30 => OpcodeInfo { token: InstructionToken::BMI, operand: OperandKind::Relative, cycles: 2, advances_pc: true },
        0x50 => OpcodeInfo { token: InstructionToken::BVC, operand: OperandKind::Relative, cycles: 2, advances_pc: true },
        0x70 => OpcodeInfo { token: InstructionToken::BVS, operand: OperandKind::Relative, cycles: 2, advances_pc: true },
        0x90 => OpcodeInfo { token: InstructionToken::BCC, operand: OperandKind::Relative, cycles: 2, advances_pc: true },
        0xB0 => OpcodeInfo { token: InstructionToken::BCS, operand: OperandKind::Relative, cycles: 2, advances_pc: true },
        0xD0 => OpcodeInfo { token: InstructionToken::BNE, operand: OperandKind::Relative, cycles: 2, advances_pc: true },
        0xF0 => OpcodeInfo { token: InstructionToken::BEQ, operand: OperandKind::Relative, cycles: 2, advances_pc: true },
        0x9A => OpcodeInfo { token: InstructionToken::TXS, operand: OperandKind::Implicit, cycles: 2, advances_pc: true },
        0xBA => OpcodeInfo { token: InstructionToken::TSX, operand: OperandKind::Implicit, cycles: 2, advances_pc: true },
        0x48 => OpcodeInfo { token: InstructionToken::PHA, operand: OperandKind::Implicit, cycles: 3, advances_pc: true },
        0x68 => OpcodeInfo { token: InstructionToken::PLA, operand: OperandKind::Implicit, cycles: 4, advances_pc: true },
        0x08 => OpcodeInfo { token: InstructionToken::PHP, operand: OperandKind::Implicit, cycles: 3, advances_pc: true },
        0x28 => OpcodeInfo { token: InstructionToken::PLP, operand: OperandKind::Implicit, cycles: 4, advances_pc: true },
        0x18 => OpcodeInfo { token: InstructionToken::CLC, operand: OperandKind::Implicit, cycles: 2, advances_pc: true },
        0x38 => OpcodeInfo { token: InstructionToken::SEC, operand: OperandKind::Implicit, cycles: 2, advances_pc: true },
        0x58 => OpcodeInfo { token: InstructionToken::CLI, operand: OperandKind::Implicit, cycles: 2, advances_pc: true },
        0x78 => OpcodeInfo { token: InstructionToken::SEI, operand: OperandKind::Implicit, cycles: 2, advances_pc: true },
        0xB8 => OpcodeInfo { token: InstructionToken::CLV, operand: OperandKind::Implicit, cycles: 2, advances_pc: true },
        0xD8 => OpcodeInfo { token: InstructionToken::CLD, operand: OperandKind::Implicit, cycles: 2, advances_pc: true },
        0xF8 => OpcodeInfo { token: InstructionToken::SED, operand: OperandKind::Implicit, cycles: 2, advances_pc: true },
        0x09 => OpcodeInfo { token: InstructionToken::ORA, operand: OperandKind::Immediate, cycles: 2, advances_pc: true },
        0x05 => OpcodeInfo { token: InstructionToken::ORA, operand: OperandKind::ZeroPage, cycles: 3, advances_pc: true },
        0x15 => OpcodeInfo { token: InstructionToken::ORA, operand: OperandKind::ZeroPageX, cycles: 4, advances_pc: true },
        0x0D => OpcodeInfo { token: InstructionToken::ORA, operand: OperandKind::Absolute, cycles: 4, advances_pc: true },
        0x1D => OpcodeInfo { token: InstructionToken::ORA, operand: OperandKind::AbsoluteX, cycles: 4, advances_pc: true },
        0x19 => OpcodeInfo { token: InstructionToken::ORA, operand: OperandKind::AbsoluteY, cycles: 4, advances_pc: true },
        0x01 => OpcodeInfo { token: InstructionToken::ORA, operand: OperandKind::IndexedIndirectX, cycles: 6, advances_pc: true },
        0x11 => OpcodeInfo { token: InstructionToken::ORA, operand: OperandKind::IndirectIndexedY, cycles: 5, advances_pc: true },
        0x29 => OpcodeInfo { token: InstructionToken::AND, operand: OperandKind::Immediate, cycles: 2, advances_pc: true },
        0x25 => OpcodeInfo { token: InstructionToken::AND, operand: OperandKind::ZeroPage, cycles: 3, advances_pc: true },
        0x35 => OpcodeInfo { token: InstructionToken::AND, operand: OperandKind::ZeroPageX, cycles: 4, advances_pc: true },
        0x2D => OpcodeInfo { token: InstructionToken::AND, operand: OperandKind::Absolute, cycles: 4, advances_pc: true },
        0x3D => OpcodeInfo { token: InstructionToken::AND, operand: OperandKind::AbsoluteX, cycles: 4, advances_pc: true },
        0x39 => OpcodeInfo { token: InstructionToken::AND, operand: OperandKind::AbsoluteY, cycles: 4, advances_pc: true },
        0x21 => OpcodeInfo { token: InstructionToken::AND, operand: OperandKind::IndexedIndirectX, cycles: 6, advances_pc: true },
        0x31 => OpcodeInfo { token: InstructionToken::AND, operand: OperandKind::IndirectIndexedY, cycles: 5, advances_pc: true },
        0x49 => OpcodeInfo { token: InstructionToken::EOR, operand: OperandKind::Immediate, cycles: 2, advances_pc: true },
        0x45 => OpcodeInfo { token: InstructionToken::EOR, operand: OperandKind::ZeroPage, cycles: 3, advances_pc: true },
        0x55 => OpcodeInfo { token: InstructionToken::EOR, operand: OperandKind::ZeroPageX, cycles: 4, advances_pc: true },
        0x4D => OpcodeInfo { token: InstructionToken::EOR, operand: OperandKind::Absolute, cycles: 4, advances_pc: true },
        0x5D => OpcodeInfo { token: InstructionToken::EOR, operand: OperandKind::AbsoluteX, cycles: 4, advances_pc: true },
        0x59 => OpcodeInfo { token: InstructionToken::EOR, operand: OperandKind::AbsoluteY, cycles: 4, advances_pc: true },
        0x41 => OpcodeInfo { token: InstructionToken::EOR, operand: OperandKind::IndexedIndirectX, cycles: 6, advances_pc: true },
        0x51 => OpcodeInfo { token: InstructionToken::EOR, operand: OperandKind::IndirectIndexedY, cycles: 5, advances_pc: true },
        0x69 => OpcodeInfo { token: InstructionToken::ADC, operand: OperandKind::Immediate, cycles: 2, advances_pc: true },
        0x65 => OpcodeInfo { token: InstructionToken::ADC, operand: OperandKind::ZeroPage, cycles: 3, advances_pc: true },
        0x75 => OpcodeInfo { token: InstructionToken::ADC, operand: OperandKind::ZeroPageX, cycles: 4, advances_pc: true },
        0x6D => OpcodeInfo { token: InstructionToken::ADC, operand: OperandKind::Absolute, cycles: 4, advances_pc: true },
        0x7D => OpcodeInfo { token: InstructionToken::ADC, operand: OperandKind::AbsoluteX, cycles: 4, advances_pc: true },
        0x79 => OpcodeInfo { token: InstructionToken::ADC, operand: OperandKind::AbsoluteY, cycles: 4, advances_pc: true },
        0x61 => OpcodeInfo { token: InstructionToken::ADC, operand: OperandKind::IndexedIndirectX, cycles: 6, advances_pc: true },
        0x71 => OpcodeInfo { token: InstructionToken::ADC, operand: OperandKind::IndirectIndexedY, cycles: 5, advances_pc: true },
        0xC9 => OpcodeInfo { token: InstructionToken::CMP, operand: OperandKind::Immediate, cycles: 2, advances_pc: true },
        0xC5 => OpcodeInfo { token: InstructionToken::CMP, operand: OperandKind::ZeroPage, cycles: 3, advances_pc: true },
        0xD5 => OpcodeInfo { token: InstructionToken::CMP, operand: OperandKind::ZeroPageX, cycles: 4, advances_pc: true },
        0xCD => OpcodeInfo { token: InstructionToken::CMP, operand: OperandKind::Absolute, cycles: 4, advances_pc: true },
        0xDD => OpcodeInfo { token: InstructionToken::CMP, operand: OperandKind::AbsoluteX, cycles: 4, advances_pc: true },
        0xD9 => OpcodeInfo { token: InstructionToken::CMP, operand: OperandKind::AbsoluteY, cycles: 4, advances_pc: true },
        0xC1 => OpcodeInfo { token: InstructionToken::CMP, operand: OperandKind::IndexedIndirectX, cycles: 6, advances_pc: true },
        0xD1 => OpcodeInfo { token: InstructionToken::CMP, operand: OperandKind::IndirectIndexedY, cycles: 5, advances_pc: true },
        0xE9 => OpcodeInfo { token: InstructionToken::SBC, operand: OperandKind::Immediate, cycles: 2, advances_pc: true },
        0xE5 => OpcodeInfo { token: InstructionToken::SBC, operand: OperandKind::ZeroPage, cycles: 3, advances_pc: true },
        0xF5 => OpcodeInfo { token: InstructionToken::SBC, operand: OperandKind::ZeroPageX, cycles: 4, advances_pc: true },
        0xED => OpcodeInfo { token: InstructionToken::SBC, operand: OperandKind::Absolute, cycles: 4, advances_pc: true },
        0xFD => OpcodeInfo { token: InstructionToken::SBC, operand: OperandKind::AbsoluteX, cycles: 4, advances_pc: true },
        0xF9 => OpcodeInfo { token: InstructionToken::SBC, operand: OperandKind::AbsoluteY, cycles: 4, advances_pc: true },
        0xE1 => OpcodeInfo { token: InstructionToken::SBC, operand: OperandKind::IndexedIndirectX, cycles: 6, advances_pc: true },
        0xF1 => OpcodeInfo { token: InstructionToken::SBC, operand: OperandKind::IndirectIndexedY, cycles: 5, advances_pc: true },
        0xE0 => OpcodeInfo { token: InstructionToken::CPX, operand: OperandKind::Immediate, cycles: 2, advances_pc: true },
        0xE4 => OpcodeInfo { token: InstructionToken::CPX, operand: OperandKind::ZeroPage, cycles: 3, advances_pc: true },
        0xEC => OpcodeInfo { token: InstructionToken::CPX, operand: OperandKind::Absolute, cycles: 4, advances_pc: true },
        0xC0 => OpcodeInfo { token: InstructionToken::CPY, operand: OperandKind::Immediate, cycles: 2, advances_pc: true },
        0xC4 => OpcodeInfo { token: InstructionToken::CPY, operand: OperandKind::ZeroPage, cycles: 3, advances_pc: true },
        0xCC => OpcodeInfo { token: InstructionToken::CPY, operand: OperandKind::Absolute, cycles: 4, advances_pc: true },
        0x24 => OpcodeInfo { token: InstructionToken::BIT, operand: OperandKind::ZeroPage, cycles: 3, advances_pc: true },
        0x2C => OpcodeInfo { token: InstructionToken::BIT, operand: OperandKind::Absolute, cycles: 4, advances_pc: true },
        0x0A => OpcodeInfo { token: InstructionToken::ASL, operand: OperandKind::Accumulator, cycles: 2, advances_pc: true },
        0x06 => OpcodeInfo { token: InstructionToken::ASL, operand: OperandKind::ZeroPage, cycles: 5, advances_pc: true },
        0x16 => OpcodeInfo { token: InstructionToken::ASL, operand: OperandKind::ZeroPageX, cycles: 6, advances_pc: true },
        0x0E => OpcodeInfo { token: InstructionToken::ASL, operand: OperandKind::Absolute, cycles: 6, advances_pc: true },
        0x1E => OpcodeInfo { token: InstructionToken::ASL, operand: OperandKind::AbsoluteX, cycles: 7, advances_pc: true },
        0x2A => OpcodeInfo { token: InstructionToken::ROL, operand: OperandKind::Accumulator, cycles: 2, advances_pc: true },
        0x26 => OpcodeInfo { token: InstructionToken::ROL, operand: OperandKind::ZeroPage, cycles: 5, advances_pc: true },
        0x36 => OpcodeInfo { token: InstructionToken::ROL, operand: OperandKind::ZeroPageX, cycles: 6, advances_pc: true },
        0x2E => OpcodeInfo { token: InstructionToken::ROL, operand: OperandKind::Absolute, cycles: 6, advances_pc: true },
        0x3E => OpcodeInfo { token: InstructionToken::ROL, operand: OperandKind::AbsoluteX, cycles: 7, advances_pc: true },
        0x4A => OpcodeInfo { token: InstructionToken::LSR, operand: OperandKind::Accumulator, cycles: 2, advances_pc: true },
        0x46 => OpcodeInfo { token: InstructionToken::LSR, operand: OperandKind::ZeroPage, cycles: 5, advances_pc: true },
        0x56 => OpcodeInfo { token: InstructionToken::LSR, operand: OperandKind::ZeroPageX, cycles: 6, advances_pc: true },
        0x4E => OpcodeInfo { token: InstructionToken::LSR, operand: OperandKind::Absolute, cycles: 6, advances_pc: true },
        0x5E => OpcodeInfo { token: InstructionToken::LSR, operand: OperandKind::AbsoluteX, cycles: 7, advances_pc: true },
        0x6A => OpcodeInfo { token: InstructionToken::ROR, operand: OperandKind::Accumulator, cycles: 2, advances_pc: true },
        0x66 => OpcodeInfo { token: InstructionToken::ROR, operand: OperandKind::ZeroPage, cycles: 5, advances_pc: true },
        0x76 => OpcodeInfo { token: InstructionToken::ROR, operand: OperandKind::ZeroPageX, cycles: 6, advances_pc: true },
        0x6E => OpcodeInfo { token: InstructionToken::ROR, operand: OperandKind::Absolute, cycles: 6, advances_pc: true },
        0x7E => OpcodeInfo { token: InstructionToken::ROR, operand: OperandKind::AbsoluteX, cycles: 7, advances_pc: true },
        0xC6 => OpcodeInfo { token: InstructionToken::DEC, operand: OperandKind::ZeroPage, cycles: 5, advances_pc: true },
        0xD6 => OpcodeInfo { token: InstructionToken::DEC, operand: OperandKind::ZeroPageX, cycles: 6, advances_pc: true },
        0xCE => OpcodeInfo { token: InstructionToken::DEC, operand: OperandKind::Absolute, cycles: 6, advances_pc: true },
        0xDE => OpcodeInfo { token: InstructionToken::DEC, operand: OperandKind::AbsoluteX, cycles: 7, advances_pc: true },
        0xE6 => OpcodeInfo { token: InstructionToken::INC, operand: OperandKind::ZeroPage, cycles: 5, advances_pc: true },
        0xF6 => OpcodeInfo { token: InstructionToken::INC, operand: OperandKind::ZeroPageX, cycles: 6, advances_pc: true },
        0xEE => OpcodeInfo { token: InstructionToken::INC, operand: OperandKind::Absolute, cycles: 6, advances_pc: true },
        0xFE => OpcodeInfo { token: InstructionToken::INC, operand: OperandKind::AbsoluteX, cycles: 7, advances_pc: true },
        0xAA => OpcodeInfo { token: InstructionToken::TAX, operand: OperandKind::Implicit, cycles: 2, advances_pc: true },
        0x8A => OpcodeInfo { token: InstructionToken::TXA, operand: OperandKind::Implicit, cycles: 2, advances_pc: true },
        0xCA => OpcodeInfo { token: InstructionToken::DEX, operand: OperandKind::Implicit, cycles: 2, advances_pc: true },
        0xE8 => OpcodeInfo { token: InstructionToken::INX, operand: OperandKind::Implicit, cycles: 2, advances_pc: true },
        0xA8 => OpcodeInfo { token: InstructionToken::TAY, operand: OperandKind::Implicit, cycles: 2, advances_pc: true },
        0x98 => OpcodeInfo { token: InstructionToken::TYA, operand: OperandKind::Implicit, cycles: 2, advances_pc: true },
        0x88 => OpcodeInfo { token: InstructionToken::DEY, operand: OperandKind::Implicit, cycles: 2, advances_pc: true },
        0xC8 => OpcodeInfo { token: InstructionToken::INY, operand: OperandKind::Implicit, cycles: 2, advances_pc: true },
        0xA9 => OpcodeInfo { token: InstructionToken::LDA, operand: OperandKind::Immediate, cycles: 2, advances_pc: true },
        0xA5 => OpcodeInfo { token: InstructionToken::LDA, operand: OperandKind::ZeroPage, cycles: 3, advances_pc: true },
        0xB5 => OpcodeInfo { token: InstructionToken::LDA, operand: OperandKind::ZeroPageX, cycles: 4, advances_pc: true },
        0xAD => OpcodeInfo { token: InstructionToken::LDA, operand: OperandKind::Absolute, cycles: 4, advances_pc: true },
        0xBD => OpcodeInfo { token: InstructionToken::LDA, operand: OperandKind::AbsoluteX, cycles: 4, advances_pc: true },
        0xB9 => OpcodeInfo { token: InstructionToken::LDA, operand: OperandKind::AbsoluteY, cycles: 4, advances_pc: true },
        0xA1 => OpcodeInfo { token: InstructionToken::LDA, operand: OperandKind::IndexedIndirectX, cycles: 6, advances_pc: true },
        0xB1 => OpcodeInfo { token: InstructionToken::LDA, operand: OperandKind::IndirectIndexedY, cycles: 5, advances_pc: true },
        0xA2 => OpcodeInfo { token: InstructionToken::LDX, operand: OperandKind::Immediate, cycles: 2, advances_pc: true },
        0xA6 => OpcodeInfo { token: InstructionToken::LDX, operand: OperandKind::ZeroPage, cycles: 3, advances_pc: true },
        0xB6 => OpcodeInfo { token: InstructionToken::LDX, operand: OperandKind::ZeroPageY, cycles: 4, advances_pc: true },
        0xAE => OpcodeInfo { token: InstructionToken::LDX, operand: OperandKind::Absolute, cycles: 4, advances_pc: true },
        0xBE => OpcodeInfo { token: InstructionToken::LDX, operand: OperandKind::AbsoluteY, cycles: 4, advances_pc: true },
        0xA0 => OpcodeInfo { token: InstructionToken::LDY, operand: OperandKind::Immediate, cycles: 2, advances_pc: true },
        0xA4 => OpcodeInfo { token: InstructionToken::LDY, operand: OperandKind::ZeroPage, cycles: 3, advances_pc: true },
        0xB4 => OpcodeInfo { token: InstructionToken::LDY, operand: OperandKind::ZeroPageX, cycles: 4, advances_pc: true },
        0xAC => OpcodeInfo { token: InstructionToken::LDY, operand: OperandKind::Absolute, cycles: 4, advances_pc: true },
        0xBC => OpcodeInfo { token: InstructionToken::LDY, operand: OperandKind::AbsoluteX, cycles: 4, advances_pc: true },
        0x85 => OpcodeInfo { token: InstructionToken::STA, operand: OperandKind::ZeroPage, cycles: 3, advances_pc: true },
        0x95 => OpcodeInfo { token: InstructionToken::STA, operand: OperandKind::ZeroPageX, cycles: 4, advances_pc: true },
        0x8D => OpcodeInfo { token: InstructionToken::STA, operand: OperandKind::Absolute, cycles: 4, advances_pc: true },
        0x9D => OpcodeInfo { token: InstructionToken::STA, operand: OperandKind::AbsoluteX, cycles: 5, advances_pc: true },
        0x99 => OpcodeInfo { token: InstructionToken::STA, operand: OperandKind::AbsoluteY, cycles: 5, advances_pc: true },
        0x81 => OpcodeInfo { token: InstructionToken::STA, operand: OperandKind::IndexedIndirectX, cycles: 6, advances_pc: true },
        0x91 => OpcodeInfo { token: InstructionToken::STA, operand: OperandKind::IndirectIndexedY, cycles: 6, advances_pc: true },
        0x86 => OpcodeInfo { token: InstructionToken::STX, operand: OperandKind::ZeroPage, cycles: 3, advances_pc: true },
        0x96 => OpcodeInfo { token: InstructionToken::STX, operand: OperandKind::ZeroPageY, cycles: 4, advances_pc: true },
        0x8E => OpcodeInfo { token: InstructionToken::STX, operand: OperandKind::Absolute, cycles: 4, advances_pc: true },
        0x84 => OpcodeInfo { token: InstructionToken::STY, operand: OperandKind::ZeroPage, cycles: 3, advances_pc: true },
        0x94 => OpcodeInfo { token: InstructionToken::STY, operand: OperandKind::ZeroPageX, cycles: 4, advances_pc: true },
        0x8C => OpcodeInfo { token: InstructionToken::STY, operand: OperandKind::Absolute, cycles: 4, advances_pc: true },
        0x1A | 0x3A | 0x5A | 0x7A | 0xDA | 0xFA => OpcodeInfo { token: InstructionToken::NOP, operand: OperandKind::Implicit, cycles: 2, advances_pc: true },
        0x04 | 0x14 | 0x34 | 0x44 | 0x54 | 0x64 | 0x74 | 0x80 | 0x82 | 0x89 | 0xC2 | 0xE2 | 0xEB | 0xD4 | 0xF4 => OpcodeInfo { token: InstructionToken::NOP, operand: OperandKind::Immediate, cycles: 2, advances_pc: true },
        0x1C | 0x3C | 0x5C | 0x7C | 0xDC | 0xFC => OpcodeInfo { token: InstructionToken::NOP, operand: OperandKind::Absolute, cycles: 2, advances_pc: true },
        0x0C => OpcodeInfo { token: InstructionToken::IGN, operand: OperandKind::Absolute, cycles: 4, advances_pc: true },
        0xAF => OpcodeInfo { token: InstructionToken::LAX, operand: OperandKind::Absolute, cycles: 4, advances_pc: true },
        0x8F => OpcodeInfo { token: InstructionToken::SAX, operand: OperandKind::Absolute, cycles: 4, advances_pc: true },
        0x4B => OpcodeInfo { token: InstructionToken::ALR, operand: OperandKind::Immediate, cycles: 2, advances_pc: true },
        0x0B | 0x2B => OpcodeInfo { token: InstructionToken::ANC, operand: OperandKind::Immediate, cycles: 2, advances_pc: true },
        0x6B => OpcodeInfo { token: InstructionToken::ARR, operand: OperandKind::Immediate, cycles: 2, advances_pc: true },
        0xCB => OpcodeInfo { token: InstructionToken::AXS, operand: OperandKind::Immediate, cycles: 2, advances_pc: true },
        0xCF => OpcodeInfo { token: InstructionToken::DCP, operand: OperandKind::Absolute, cycles: 6, advances_pc: true },
        0xEF => OpcodeInfo { token: InstructionToken::ISC, operand: OperandKind::Absolute, cycles: 6, advances_pc: true },
        0x2F => OpcodeInfo { token: InstructionToken::RLA, operand: OperandKind::Absolute, cycles: 6, advances_pc: true },
        0x6F => OpcodeInfo { token: InstructionToken::RRA, operand: OperandKind::Absolute, cycles: 6, advances_pc: true },
        0x0F => OpcodeInfo { token: InstructionToken::SLO, operand: OperandKind::Absolute, cycles: 6, advances_pc: true },
        0x4F => OpcodeInfo { token: InstructionToken::SRE, operand: OperandKind::Absolute, cycles: 6, advances_pc: true },
        _ => OpcodeInfo { token: InstructionToken::Unknown, operand: OperandKind::Invalid, cycles: 0, advances_pc: true },
    }
}

/// A decoded instruction.
#[derive(Debug, Clone, Copy)]
pub struct Instruction {
    pub op_code: u8,
    pub address: u16,
    pub token: InstructionToken,
    pub addressing_mode: AddressingMode,
    pub cycle_count: u8,
    pub should_advance_pc: bool,
}

/// The result of decoding the instruction at `addr` from a device in state `v`, with the state after the reads.
pub open spec fn spec_decode<M: MemMapped>(v: M::V, addr: u16) -> (Result<Instruction, EmulationError>, M::V) {
    let op_code = M::peek(v, addr);
    let v1 = M::after_read(v, addr);
    let info = opcode_info(op_code);
    let arg = wadd16(addr, 1);
    if info.token is Unknown {
        (Err(EmulationError::InstructionDecoding(addr, op_code)), v1)
    } else {
        let lo = M::peek(v1, arg);
        let v2 = M::after_read(v1, arg);
        let hi = M::peek(v2, wadd16(arg, 1));
        let v3 = M::after_read(v2, wadd16(arg, 1));
        let (mode, v_end) = if info.operand.operand_len() == 0 {
            (info.operand.to_mode(0, 0), v1)
        } else if info.operand.operand_len() == 1 {
            (info.operand.to_mode(lo, 0), v2)
        } else {
            (info.operand.to_mode(lo, hi), v3)
        };
        (Ok(Instruction {
            op_code,
            address: addr,
            token: info.token,
            addressing_mode: mode,
            cycle_count: info.cycles,
            should_advance_pc: info.advances_pc,
        }), v_end)
    }
}

impl Instruction {
    pub fn new(
        token: InstructionToken,
        addressing_mode: AddressingMode,
        cycle_count: u8,
        should_advance_pc: bool,
    ) -> (r: Instruction)
        ensures
            r == (Instruction { op_code: 0, address: 0, token, addressing_mode, cycle_count, should_advance_pc }),
    {
        Instruction { op_code: 0, address: 0, token, addressing_mode, cycle_count, should_advance_pc }
    }

    /// Decodes the instruction at `addr`: the opcode byte and the operand bytes that its addressing mode needs.
    pub fn decode<M: MemMapped>(mem_map: &mut M, addr: u16) -> (r: Result<Instruction, EmulationError>)
        ensures
            (r, final(mem_map)@) == spec_decode::<M>(old(mem_map)@, addr),
    {
        let op_code = mem_map.read(addr);
        let arg_index = addr.wrapping_add(1);
        let info = lookup_opcode(op_code);
        if let InstructionToken::Unknown = info.token {
            return Err(EmulationError::InstructionDecoding(addr, op_code));
        }
        let ghost v1 = mem_map@;
        let addressing_mode = match info.operand {
            OperandKind::Implicit => AddressingMode::Implicit,
            OperandKind::Accumulator => AddressingMode::Accumulator,
            OperandKind::Invalid => AddressingMode::Invalid,
            OperandKind::Immediate => AddressingMode::Immediate(mem_map.read(arg_index)),
            OperandKind::ZeroPage => AddressingMode::ZeroPage(mem_map.read(arg_index)),
            OperandKind::ZeroPageX => AddressingMode::ZeroPageIndexedX(mem_map.read(arg_index)),
            OperandKind::ZeroPageY => AddressingMode::ZeroPageIndexedY(mem_map.read(arg_index)),
            OperandKind::IndexedIndirectX => AddressingMode::IndexedIndirectX(mem_map.read(arg_index)),
            OperandKind::IndirectIndexedY => AddressingMode::IndirectIndexedY(mem_map.read(arg_index)),
            OperandKind::Relative => AddressingMode::Relative(mem_map.read(arg_index) as i8),
            OperandKind::Absolute => AddressingMode::Absolute(mem_map.read_word(arg_index)),
            OperandKind::AbsoluteX => AddressingMode::AbsoluteIndexedX(mem_map.read_word(arg_index)),
            OperandKind::AbsoluteY => AddressingMode::AbsoluteIndexedY(mem_map.read_word(arg_index)),
            OperandKind::Indirect => AddressingMode::Indirect(mem_map.read_word(arg_index)),
        };
        Ok(Instruction {
            op_code,
            address: addr,
            token: info.token,
            addressing_mode,
            cycle_count: info.cycles,
            should_advance_pc: info.advances_pc,
        })
    }
}

} // verus!
