//! The instruction decoder: a single-byte lookup from opcode to
//! (mnemonic, addressing mode, base cycle count).
//!
//! The 151-entry table is authoritative; any byte outside it is a decode
//! error. Base cycle counts are the minimum for the instruction;
//! page-cross and branch-taken extras are charged by the CPU.

use vstd::prelude::*;

verus! {

/// The 56 documented 6502 instruction mnemonics.
#[derive(Clone, Copy, Debug, PartialEq, Eq, Structural)]
pub enum Mnemonic {
    ADC, AND,
    ASL, BCC,
    BCS, BEQ,
    BIT, BMI,
    BNE, BPL,
    BRK, BVC,
    BVS, CLC,
    CLD, CLI,
    CLV, CMP,
    CPX, CPY,
    DEC, DEX,
    DEY, EOR,
    INC, INX,
    INY, JMP,
    JSR, LDA,
    LDX, LDY,
    LSR, NOP,
    ORA, PHA,
    PHP, PLA,
    PLP, ROL,
    ROR, RTI,
    RTS, SBC,
    SEC, SED,
    SEI, STA,
    STX, STY,
    TAX, TAY,
    TSX, TXA,
    TXS, TYA,
}

/// The thirteen addressing modes.
#[derive(Clone, Copy, Debug, PartialEq, Eq, Structural)]
pub enum AddressMode {
    Accumulator,
    Absolute,
    AbsoluteXIndexed,
    AbsoluteYIndexed,
    Immediate,
    Implied,
    Indirect,
    XIndexedIndirect,
    IndirectYIndexed,
    Relative,
    ZeroPage,
    ZeroPageXIndexed,
    ZeroPageYIndexed,
}

/// How many operand bytes a mode reads beyond the opcode byte.
pub open spec fn operand_len_s(a: AddressMode) -> int {
    match a {
        AddressMode::Accumulator => 0,
        AddressMode::Implied => 0,
        AddressMode::Immediate => 1,
        AddressMode::Relative => 1,
        AddressMode::ZeroPage => 1,
        AddressMode::ZeroPageXIndexed => 1,
        AddressMode::ZeroPageYIndexed => 1,
        AddressMode::XIndexedIndirect => 1,
        AddressMode::IndirectYIndexed => 1,
        AddressMode::Absolute => 2,
        AddressMode::AbsoluteXIndexed => 2,
        AddressMode::AbsoluteYIndexed => 2,
        AddressMode::Indirect => 2,
    }
}

/// One decoded instruction: the opcode byte it came from, its mnemonic,
/// its addressing mode and its base cycle count.
#[derive(Clone, Copy, Debug, PartialEq, Eq, Structural)]
pub struct Instruction {
    pub code: u8,
    pub mnemonic: Mnemonic,
    pub address_mode: AddressMode,
    pub cycles: u64,
}

pub open spec fn ins_s(code: u8, mnemonic: Mnemonic, address_mode: AddressMode, cycles: u64) -> Option<Instruction> {
    Some(Instruction { code, mnemonic, address_mode, cycles })
}

fn ins(code: u8, mnemonic: Mnemonic, address_mode: AddressMode, cycles: u64) -> (r: Option<Instruction>)
    ensures
        r == ins_s(code, mnemonic, address_mode, cycles),
{
    Some(Instruction { code, mnemonic, address_mode, cycles })
}

/// The decode table as a mathematical function.
pub open spec fn decode_s(code: u8) -> Option<Instruction> {
    match code {
            0x00 => ins_s(code, Mnemonic::BRK, AddressMode::Implied, 7),
            0x01 => ins_s(code, Mnemonic::ORA, AddressMode::XIndexedIndirect, 6),
            0x05 => ins_s(code, Mnemonic::ORA, AddressMode::ZeroPage, 3),
            0x06 => ins_s(code, Mnemonic::ASL, AddressMode::ZeroPage, 5),
            0x08 => ins_s(code, Mnemonic::PHP, AddressMode::Implied, 3),
            0x09 => ins_s(code, Mnemonic::ORA, AddressMode::Immediate, 2),
            0x0a => ins_s(code, Mnemonic::ASL, AddressMode::Accumulator, 2),
            0x0d => ins_s(code, Mnemonic::ORA, AddressMode::Absolute, 4),
            0x0e => ins_s(code, Mnemonic::ASL, AddressMode::Absolute, 6),
            0x10 => ins_s(code, Mnemonic::BPL, AddressMode::Relative, 2),
            0x11 => ins_s(code, Mnemonic::ORA, AddressMode::IndirectYIndexed, 5),
            0x15 => ins_s(code, Mnemonic::ORA, AddressMode::ZeroPageXIndexed, 4),
            0x16 => ins_s(code, Mnemonic::ASL, AddressMode::ZeroPageXIndexed, 6),
            0x18 => ins_s(code, Mnemonic::CLC, AddressMode::Implied, 2),
            0x19 => ins_s(code, Mnemonic::ORA, AddressMode::AbsoluteYIndexed, 4),
            0x1d => ins_s(code, Mnemonic::ORA, AddressMode::AbsoluteXIndexed, 4),
            0x1e => ins_s(code, Mnemonic::ASL, AddressMode::AbsoluteXIndexed, 7),
            0x20 => ins_s(code, Mnemonic::JSR, AddressMode::Absolute, 6),
            0x21 => ins_s(code, Mnemonic::AND, AddressMode::XIndexedIndirect, 6),
            0x24 => ins_s(code, Mnemonic::BIT, AddressMode::ZeroPage, 3),
            0x25 => ins_s(code, Mnemonic::AND, AddressMode::ZeroPage, 3),
            0x26 => ins_s(code, Mnemonic::ROL, AddressMode::ZeroPage, 5),
            0x28 => ins_s(code, Mnemonic::PLP, AddressMode::Implied, 4),
            0x29 => ins_s(code, Mnemonic::AND, AddressMode::Immediate, 2),
            0x2a => ins_s(code, Mnemonic::ROL, AddressMode::Accumulator, 2),
            0x2c => ins_s(code, Mnemonic::BIT, AddressMode::Absolute, 4),
            0x2d => ins_s(code, Mnemonic::AND, AddressMode::Absolute, 4),
            0x2e => ins_s(code, Mnemonic::ROL, AddressMode::Absolute, 6),
            0x30 => ins_s(code, Mnemonic::BMI, AddressMode::Relative, 2),
            0x31 => ins_s(code, Mnemonic::AND, AddressMode::IndirectYIndexed, 5),
            0x35 => ins_s(code, Mnemonic::AND, AddressMode::ZeroPageXIndexed, 4),
            0x36 => ins_s(code, Mnemonic::ROL, AddressMode::ZeroPageXIndexed, 6),
            0x38 => ins_s(code, Mnemonic::SEC, AddressMode::Implied, 2),
            0x39 => ins_s(code, Mnemonic::AND, AddressMode::AbsoluteYIndexed, 4),
            0x3d => ins_s(code, Mnemonic::AND, AddressMode::AbsoluteXIndexed, 4),
            0x3e => ins_s(code, Mnemonic::ROL, AddressMode::AbsoluteXIndexed, 7),
            0x40 => ins_s(code, Mnemonic::RTI, AddressMode::Implied, 6),
            0x41 => ins_s(code, Mnemonic::EOR, AddressMode::XIndexedIndirect, 6),
            0x45 => ins_s(code, Mnemonic::EOR, AddressMode::ZeroPage, 3),
            0x46 => ins_s(code, Mnemonic::LSR, AddressMode::ZeroPage, 5),
            0x48 => ins_s(code, Mnemonic::PHA, AddressMode::Implied, 3),
            0x49 => ins_s(code, Mnemonic::EOR, AddressMode::Immediate, 2),
            0x4a => ins_s(code, Mnemonic::LSR, AddressMode::Accumulator, 2),
            0x4c => ins_s(code, Mnemonic::JMP, AddressMode::Absolute, 3),
            0x4d => ins_s(code, Mnemonic::EOR, AddressMode::Absolute, 4),
            0x4e => ins_s(code, Mnemonic::LSR, AddressMode::Absolute, 6),
            0x50 => ins_s(code, Mnemonic::BVC, AddressMode::Relative, 2),
            0x51 => ins_s(code, Mnemonic::EOR, AddressMode::IndirectYIndexed, 5),
            0x55 => ins_s(code, Mnemonic::EOR, AddressMode::ZeroPageXIndexed, 4),
            0x56 => ins_s(code, Mnemonic::LSR, AddressMode::ZeroPageXIndexed, 6),
            0x58 => ins_s(code, Mnemonic::CLI, AddressMode::Implied, 2),
            0x59 => ins_s(code, Mnemonic::EOR, AddressMode::AbsoluteYIndexed, 4),
            0x5d => ins_s(code, Mnemonic::EOR, AddressMode::AbsoluteXIndexed, 4),
            0x5e => ins_s(code, Mnemonic::LSR, AddressMode::AbsoluteXIndexed, 7),
            0x60 => ins_s(code, Mnemonic::RTS, AddressMode::Implied, 6),
            0x61 => ins_s(code, Mnemonic::ADC, AddressMode::XIndexedIndirect, 6),
            0x65 => ins_s(code, Mnemonic::ADC, AddressMode::ZeroPage, 3),
            0x66 => ins_s(code, Mnemonic::ROR, AddressMode::ZeroPage, 5),
            0x68 => ins_s(code, Mnemonic::PLA, AddressMode::Implied, 4),
            0x69 => ins_s(code, Mnemonic::ADC, AddressMode::Immediate, 2),
            0x6a => ins_s(code, Mnemonic::ROR, AddressMode::Accumulator, 2),
            0x6c => ins_s(code, Mnemonic::JMP, AddressMode::Indirect, 5),
            0x6d => ins_s(code, Mnemonic::ADC, AddressMode::Absolute, 4),
            0x6e => ins_s(code, Mnemonic::ROR, AddressMode::Absolute, 6),
            0x70 => ins_s(code, Mnemonic::BVS, AddressMode::Relative, 2),
            0x71 => ins_s(code, Mnemonic::ADC, AddressMode::IndirectYIndexed, 5),
            0x75 => ins_s(code, Mnemonic::ADC, AddressMode::ZeroPageXIndexed, 4),
            0x76 => ins_s(code, Mnemonic::ROR, AddressMode::ZeroPageXIndexed, 6),
            0x78 => ins_s(code, Mnemonic::SEI, AddressMode::Implied, 2),
            0x79 => ins_s(code, Mnemonic::ADC, AddressMode::AbsoluteYIndexed, 4),
            0x7d => ins_s(code, Mnemonic::ADC, AddressMode::AbsoluteXIndexed, 4),
            0x7e => ins_s(code, Mnemonic::ROR, AddressMode::AbsoluteXIndexed, 7),
            0x81 => ins_s(code, Mnemonic::STA, AddressMode::XIndexedIndirect, 6),
            0x84 => ins_s(code, Mnemonic::STY, AddressMode::ZeroPage, 3),
            0x85 => ins_s(code, Mnemonic::STA, AddressMode::ZeroPage, 3),
            0x86 => ins_s(code, Mnemonic::STX, AddressMode::ZeroPage, 3),
            0x88 => ins_s(code, Mnemonic::DEY, AddressMode::Implied, 2),
            0x8a => ins_s(code, Mnemonic::TXA, AddressMode::Implied, 2),
            0x8c => ins_s(code, Mnemonic::STY, AddressMode::Absolute, 4),
            0x8d => ins_s(code, Mnemonic::STA, AddressMode::Absolute, 4),
            0x8e => ins_s(code, Mnemonic::STX, AddressMode::Absolute, 4),
            0x90 => ins_s(code, Mnemonic::BCC, AddressMode::Relative, 2),
            0x91 => ins_s(code, Mnemonic::STA, AddressMode::IndirectYIndexed, 6),
            0x94 => ins_s(code, Mnemonic::STY, AddressMode::ZeroPageXIndexed, 4),
            0x95 => ins_s(code, Mnemonic::STA, AddressMode::ZeroPageXIndexed, 4),
            0x96 => ins_s(code, Mnemonic::STX, AddressMode::ZeroPageYIndexed, 4),
            0x98 => ins_s(code, Mnemonic::TYA, AddressMode::Implied, 2),
            0x99 => ins_s(code, Mnemonic::STA, AddressMode::AbsoluteYIndexed, 5),
            0x9a => ins_s(code, Mnemonic::TXS, AddressMode::Implied, 2),
            0x9d => ins_s(code, Mnemonic::STA, AddressMode::AbsoluteXIndexed, 5),
            0xa0 => ins_s(code, Mnemonic::LDY, AddressMode::Immediate, 2),
            0xa1 => ins_s(code, Mnemonic::LDA, AddressMode::XIndexedIndirect, 6),
            0xa2 => ins_s(code, Mnemonic::LDX, AddressMode::Immediate, 2),
            0xa4 => ins_s(code, Mnemonic::LDY, AddressMode::ZeroPage, 3),
            0xa5 => ins_s(code, Mnemonic::LDA, AddressMode::ZeroPage, 3),
            0xa6 => ins_s(code, Mnemonic::LDX, AddressMode::ZeroPage, 3),
            0xa8 => ins_s(code, Mnemonic::TAY, AddressMode::Implied, 2),
            0xa9 => ins_s(code, Mnemonic::LDA, AddressMode::Immediate, 2),
            0xaa => ins_s(code, Mnemonic::TAX, AddressMode::Implied, 2),
            0xac => ins_s(code, Mnemonic::LDY, AddressMode::Absolute, 4),
            0xad => ins_s(code, Mnemonic::LDA, AddressMode::Absolute, 4),
            0xae => ins_s(code, Mnemonic::LDX, AddressMode::Absolute, 4),
            0xb0 => ins_s(code, Mnemonic::BCS, AddressMode::Relative, 2),
            0xb1 => ins_s(code, Mnemonic::LDA, AddressMode::IndirectYIndexed, 5),
            0xb4 => ins_s(code, Mnemonic::LDY, AddressMode::ZeroPageXIndexed, 4),
            0xb5 => ins_s(code, Mnemonic::LDA, AddressMode::ZeroPageXIndexed, 4),
            0xb6 => ins_s(code, Mnemonic::LDX, AddressMode::ZeroPageYIndexed, 4),
            0xb8 => ins_s(code, Mnemonic::CLV, AddressMode::Implied, 2),
            0xb9 => ins_s(code, Mnemonic::LDA, AddressMode::AbsoluteYIndexed, 4),
            0xba => ins_s(code, Mnemonic::TSX, AddressMode::Implied, 2),
            0xbc => ins_s(code, Mnemonic::LDY, AddressMode::AbsoluteXIndexed, 4),
            0xbd => ins_s(code, Mnemonic::LDA, AddressMode::AbsoluteXIndexed, 4),
            0xbe => ins_s(code, Mnemonic::LDX, AddressMode::AbsoluteYIndexed, 4),
            0xc0 => ins_s(code, Mnemonic::CPY, AddressMode::Immediate, 2),
            0xc1 => ins_s(code, Mnemonic::CMP, AddressMode::XIndexedIndirect, 6),
            0xc4 => ins_s(code, Mnemonic::CPY, AddressMode::ZeroPage, 3),
            0xc5 => ins_s(code, Mnemonic::CMP, AddressMode::ZeroPage, 3),
            0xc6 => ins_s(code, Mnemonic::DEC, AddressMode::ZeroPage, 5),
            0xc8 => ins_s(code, Mnemonic::INY, AddressMode::Implied, 2),
            0xc9 => ins_s(code, Mnemonic::CMP, AddressMode::Immediate, 2),
            0xca => ins_s(code, Mnemonic::DEX, AddressMode::Implied, 2),
            0xcc => ins_s(code, Mnemonic::CPY, AddressMode::Absolute, 4),
            0xcd => ins_s(code, Mnemonic::CMP, AddressMode::Absolute, 4),
            0xce => ins_s(code, Mnemonic::DEC, AddressMode::Absolute, 3),
            0xd0 => ins_s(code, Mnemonic::BNE, AddressMode::Relative, 2),
            0xd1 => ins_s(code, Mnemonic::CMP, AddressMode::IndirectYIndexed, 5),
            0xd5 => ins_s(code, Mnemonic::CMP, AddressMode::ZeroPageXIndexed, 4),
            0xd6 => ins_s(code, Mnemonic::DEC, AddressMode::ZeroPageXIndexed, 6),
            0xd8 => ins_s(code, Mnemonic::CLD, AddressMode::Implied, 2),
            0xd9 => ins_s(code, Mnemonic::CMP, AddressMode::AbsoluteYIndexed, 4),
            0xdd => ins_s(code, Mnemonic::CMP, AddressMode::AbsoluteXIndexed, 4),
            0xde => ins_s(code, Mnemonic::DEC, AddressMode::AbsoluteXIndexed, 7),
            0xe0 => ins_s(code, Mnemonic::CPX, AddressMode::Immediate, 2),
            0xe1 => ins_s(code, Mnemonic::SBC, AddressMode::XIndexedIndirect, 6),
            0xe4 => ins_s(code, Mnemonic::CPX, AddressMode::ZeroPage, 3),
            0xe5 => ins_s(code, Mnemonic::SBC, AddressMode::ZeroPage, 3),
            0xe6 => ins_s(code, Mnemonic::INC, AddressMode::ZeroPage, 5),
            0xe8 => ins_s(code, Mnemonic::INX, AddressMode::Implied, 2),
            0xe9 => ins_s(code, Mnemonic::SBC, AddressMode::Immediate, 2),
            0xea => ins_s(code, Mnemonic::NOP, AddressMode::Implied, 2),
            0xec => ins_s(code, Mnemonic::CPX, AddressMode::Absolute, 4),
            0xed => ins_s(code, Mnemonic::SBC, AddressMode::Absolute, 4),
            0xee => ins_s(code, Mnemonic::INC, AddressMode::Absolute, 6),
            0xf0 => ins_s(code, Mnemonic::BEQ, AddressMode::Relative, 2),
            0xf1 => ins_s(code, Mnemonic::SBC, AddressMode::IndirectYIndexed, 5),
            0xf5 => ins_s(code, Mnemonic::SBC, AddressMode::ZeroPageXIndexed, 4),
            0xf6 => ins_s(code, Mnemonic::INC, AddressMode::ZeroPageXIndexed, 6),
            0xf8 => ins_s(code, Mnemonic::SED, AddressMode::Implied, 2),
            0xf9 => ins_s(code, Mnemonic::SBC, AddressMode::AbsoluteYIndexed, 4),
            0xfd => ins_s(code, Mnemonic::SBC, AddressMode::AbsoluteXIndexed, 4),
            0xfe => ins_s(code, Mnemonic::INC, AddressMode::AbsoluteXIndexed, 7),
            _ => None,
    }
}

impl Instruction {
    /// Look an opcode byte up in the table. `None` is a decode error:
    /// the byte names no documented instruction.
    #[verifier::rlimit(100)]
    pub fn from_code(code: u8) -> (r: Option<Instruction>)
        ensures
            r == decode_s(code),
    {
        match code {
            0x00 => ins(code, Mnemonic::BRK, AddressMode::Implied, 7),
            0x01 => ins(code, Mnemonic::ORA, AddressMode::XIndexedIndirect, 6),
            0x05 => ins(code, Mnemonic::ORA, AddressMode::ZeroPage, 3),
            0x06 => ins(code, Mnemonic::ASL, AddressMode::ZeroPage, 5),
            0x08 => ins(code, Mnemonic::PHP, AddressMode::Implied, 3),
            0x09 => ins(code, Mnemonic::ORA, AddressMode::Immediate, 2),
            0x0a => ins(code, Mnemonic::ASL, AddressMode::Accumulator, 2),
            0x0d => ins(code, Mnemonic::ORA, AddressMode::Absolute, 4),
            0x0e => ins(code, Mnemonic::ASL, AddressMode::Absolute, 6),
            0x10 => ins(code, Mnemonic::BPL, AddressMode::Relative, 2),
            0x11 => ins(code, Mnemonic::ORA, AddressMode::IndirectYIndexed, 5),
            0x15 => ins(code, Mnemonic::ORA, AddressMode::ZeroPageXIndexed, 4),
            0x16 => ins(code, Mnemonic::ASL, AddressMode::ZeroPageXIndexed, 6),
            0x18 => ins(code, Mnemonic::CLC, AddressMode::Implied, 2),
            0x19 => ins(code, Mnemonic::ORA, AddressMode::AbsoluteYIndexed, 4),
            0x1d => ins(code, Mnemonic::ORA, AddressMode::AbsoluteXIndexed, 4),
            0x1e => ins(code, Mnemonic::ASL, AddressMode::AbsoluteXIndexed, 7),
            0x20 => ins(code, Mnemonic::JSR, AddressMode::Absolute, 6),
            0x21 => ins(code, Mnemonic::AND, AddressMode::XIndexedIndirect, 6),
            0x24 => ins(code, Mnemonic::BIT, AddressMode::ZeroPage, 3),
            0x25 => ins(code, Mnemonic::AND, AddressMode::ZeroPage, 3),
            0x26 => ins(code, Mnemonic::ROL, AddressMode::ZeroPage, 5),
            0x28 => ins(code, Mnemonic::PLP, AddressMode::Implied, 4),
            0x29 => ins(code, Mnemonic::AND, AddressMode::Immediate, 2),
            0x2a => ins(code, Mnemonic::ROL, AddressMode::Accumulator, 2),
            0x2c => ins(code, Mnemonic::BIT, AddressMode::Absolute, 4),
            0x2d => ins(code, Mnemonic::AND, AddressMode::Absolute, 4),
            0x2e => ins(code, Mnemonic::ROL, AddressMode::Absolute, 6),
            0x30 => ins(code, Mnemonic::BMI, AddressMode::Relative, 2),
            0x31 => ins(code, Mnemonic::AND, AddressMode::IndirectYIndexed, 5),
            0x35 => ins(code, Mnemonic::AND, AddressMode::ZeroPageXIndexed, 4),
            0x36 => ins(code, Mnemonic::ROL, AddressMode::ZeroPageXIndexed, 6),
            0x38 => ins(code, Mnemonic::SEC, AddressMode::Implied, 2),
            0x39 => ins(code, Mnemonic::AND, AddressMode::AbsoluteYIndexed, 4),
            0x3d => ins(code, Mnemonic::AND, AddressMode::AbsoluteXIndexed, 4),
            0x3e => ins(code, Mnemonic::ROL, AddressMode::AbsoluteXIndexed, 7),
            0x40 => ins(code, Mnemonic::RTI, AddressMode::Implied, 6),
            0x41 => ins(code, Mnemonic::EOR, AddressMode::XIndexedIndirect, 6),
            0x45 => ins(code, Mnemonic::EOR, AddressMode::ZeroPage, 3),
            0x46 => ins(code, Mnemonic::LSR, AddressMode::ZeroPage, 5),
            0x48 => ins(code, Mnemonic::PHA, AddressMode::Implied, 3),
            0x49 => ins(code, Mnemonic::EOR, AddressMode::Immediate, 2),
            0x4a => ins(code, Mnemonic::LSR, AddressMode::Accumulator, 2),
            0x4c => ins(code, Mnemonic::JMP, AddressMode::Absolute, 3),
            0x4d => ins(code, Mnemonic::EOR, AddressMode::Absolute, 4),
            0x4e => ins(code, Mnemonic::LSR, AddressMode::Absolute, 6),
            0x50 => ins(code, Mnemonic::BVC, AddressMode::Relative, 2),
            0x51 => ins(code, Mnemonic::EOR, AddressMode::IndirectYIndexed, 5),
            0x55 => ins(code, Mnemonic::EOR, AddressMode::ZeroPageXIndexed, 4),
            0x56 => ins(code, Mnemonic::LSR, AddressMode::ZeroPageXIndexed, 6),
            0x58 => ins(code, Mnemonic::CLI, AddressMode::Implied, 2),
            0x59 => ins(code, Mnemonic::EOR, AddressMode::AbsoluteYIndexed, 4),
            0x5d => ins(code, Mnemonic::EOR, AddressMode::AbsoluteXIndexed, 4),
            0x5e => ins(code, Mnemonic::LSR, AddressMode::AbsoluteXIndexed, 7),
            0x60 => ins(code, Mnemonic::RTS, AddressMode::Implied, 6),
            0x61 => ins(code, Mnemonic::ADC, AddressMode::XIndexedIndirect, 6),
            0x65 => ins(code, Mnemonic::ADC, AddressMode::ZeroPage, 3),
            0x66 => ins(code, Mnemonic::ROR, AddressMode::ZeroPage, 5),
            0x68 => ins(code, Mnemonic::PLA, AddressMode::Implied, 4),
            0x69 => ins(code, Mnemonic::ADC, AddressMode::Immediate, 2),
            0x6a => ins(code, Mnemonic::ROR, AddressMode::Accumulator, 2),
            0x6c => ins(code, Mnemonic::JMP, AddressMode::Indirect, 5),
            0x6d => ins(code, Mnemonic::ADC, AddressMode::Absolute, 4),
            0x6e => ins(code, Mnemonic::ROR, AddressMode::Absolute, 6),
            0x70 => ins(code, Mnemonic::BVS, AddressMode::Relative, 2),
            0x71 => ins(code, Mnemonic::ADC, AddressMode::IndirectYIndexed, 5),
            0x75 => ins(code, Mnemonic::ADC, AddressMode::ZeroPageXIndexed, 4),
            0x76 => ins(code, Mnemonic::ROR, AddressMode::ZeroPageXIndexed, 6),
            0x78 => ins(code, Mnemonic::SEI, AddressMode::Implied, 2),
            0x79 => ins(code, Mnemonic::ADC, AddressMode::AbsoluteYIndexed, 4),
            0x7d => ins(code, Mnemonic::ADC, AddressMode::AbsoluteXIndexed, 4),
            0x7e => ins(code, Mnemonic::ROR, AddressMode::AbsoluteXIndexed, 7),
            0x81 => ins(code, Mnemonic::STA, AddressMode::XIndexedIndirect, 6),
            0x84 => ins(code, Mnemonic::STY, AddressMode::ZeroPage, 3),
            0x85 => ins(code, Mnemonic::STA, AddressMode::ZeroPage, 3),
            0x86 => ins(code, Mnemonic::STX, AddressMode::ZeroPage, 3),
            0x88 => ins(code, Mnemonic::DEY, AddressMode::Implied, 2),
            0x8a => ins(code, Mnemonic::TXA, AddressMode::Implied, 2),
            0x8c => ins(code, Mnemonic::STY, AddressMode::Absolute, 4),
            0x8d => ins(code, Mnemonic::STA, AddressMode::Absolute, 4),
            0x8e => ins(code, Mnemonic::STX, AddressMode::Absolute, 4),
            0x90 => ins(code, Mnemonic::BCC, AddressMode::Relative, 2),
            0x91 => ins(code, Mnemonic::STA, AddressMode::IndirectYIndexed, 6),
            0x94 => ins(code, Mnemonic::STY, AddressMode::ZeroPageXIndexed, 4),
            0x95 => ins(code, Mnemonic::STA, AddressMode::ZeroPageXIndexed, 4),
            0x96 => ins(code, Mnemonic::STX, AddressMode::ZeroPageYIndexed, 4),
            0x98 => ins(code, Mnemonic::TYA, AddressMode::Implied, 2),
            0x99 => ins(code, Mnemonic::STA, AddressMode::AbsoluteYIndexed, 5),
            0x9a => ins(code, Mnemonic::TXS, AddressMode::Implied, 2),
            0x9d => ins(code, Mnemonic::STA, AddressMode::AbsoluteXIndexed, 5),
            0xa0 => ins(code, Mnemonic::LDY, AddressMode::Immediate, 2),
            0xa1 => ins(code, Mnemonic::LDA, AddressMode::XIndexedIndirect, 6),
            0xa2 => ins(code, Mnemonic::LDX, AddressMode::Immediate, 2),
            0xa4 => ins(code, Mnemonic::LDY, AddressMode::ZeroPage, 3),
            0xa5 => ins(code, Mnemonic::LDA, AddressMode::ZeroPage, 3),
            0xa6 => ins(code, Mnemonic::LDX, AddressMode::ZeroPage, 3),
            0xa8 => ins(code, Mnemonic::TAY, AddressMode::Implied, 2),
            0xa9 => ins(code, Mnemonic::LDA, AddressMode::Immediate, 2),
            0xaa => ins(code, Mnemonic::TAX, AddressMode::Implied, 2),
            0xac => ins(code, Mnemonic::LDY, AddressMode::Absolute, 4),
            0xad => ins(code, Mnemonic::LDA, AddressMode::Absolute, 4),
            0xae => ins(code, Mnemonic::LDX, AddressMode::Absolute, 4),
            0xb0 => ins(code, Mnemonic::BCS, AddressMode::Relative, 2),
            0xb1 => ins(code, Mnemonic::LDA, AddressMode::IndirectYIndexed, 5),
            0xb4 => ins(code, Mnemonic::LDY, AddressMode::ZeroPageXIndexed, 4),
            0xb5 => ins(code, Mnemonic::LDA, AddressMode::ZeroPageXIndexed, 4),
            0xb6 => ins(code, Mnemonic::LDX, AddressMode::ZeroPageYIndexed, 4),
            0xb8 => ins(code, Mnemonic::CLV, AddressMode::Implied, 2),
            0xb9 => ins(code, Mnemonic::LDA, AddressMode::AbsoluteYIndexed, 4),
            0xba => ins(code, Mnemonic::TSX, AddressMode::Implied, 2),
            0xbc => ins(code, Mnemonic::LDY, AddressMode::AbsoluteXIndexed, 4),
            0xbd => ins(code, Mnemonic::LDA, AddressMode::AbsoluteXIndexed, 4),
            0xbe => ins(code, Mnemonic::LDX, AddressMode::AbsoluteYIndexed, 4),
            0xc0 => ins(code, Mnemonic::CPY, AddressMode::Immediate, 2),
            0xc1 => ins(code, Mnemonic::CMP, AddressMode::XIndexedIndirect, 6),
            0xc4 => ins(code, Mnemonic::CPY, AddressMode::ZeroPage, 3),
            0xc5 => ins(code, Mnemonic::CMP, AddressMode::ZeroPage, 3),
            0xc6 => ins(code, Mnemonic::DEC, AddressMode::ZeroPage, 5),
            0xc8 => ins(code, Mnemonic::INY, AddressMode::Implied, 2),
            0xc9 => ins(code, Mnemonic::CMP, AddressMode::Immediate, 2),
            0xca => ins(code, Mnemonic::DEX, AddressMode::Implied, 2),
            0xcc => ins(code, Mnemonic::CPY, AddressMode::Absolute, 4),
            0xcd => ins(code, Mnemonic::CMP, AddressMode::Absolute, 4),
            0xce => ins(code, Mnemonic::DEC, AddressMode::Absolute, 3),
            0xd0 => ins(code, Mnemonic::BNE, AddressMode::Relative, 2),
            0xd1 => ins(code, Mnemonic::CMP, AddressMode::IndirectYIndexed, 5),
            0xd5 => ins(code, Mnemonic::CMP, AddressMode::ZeroPageXIndexed, 4),
            0xd6 => ins(code, Mnemonic::DEC, AddressMode::ZeroPageXIndexed, 6),
            0xd8 => ins(code, Mnemonic::CLD, AddressMode::Implied, 2),
            0xd9 => ins(code, Mnemonic::CMP, AddressMode::AbsoluteYIndexed, 4),
            0xdd => ins(code, Mnemonic::CMP, AddressMode::AbsoluteXIndexed, 4),
            0xde => ins(code, Mnemonic::DEC, AddressMode::AbsoluteXIndexed, 7),
            0xe0 => ins(code, Mnemonic::CPX, AddressMode::Immediate, 2),
            0xe1 => ins(code, Mnemonic::SBC, AddressMode::XIndexedIndirect, 6),
            0xe4 => ins(code, Mnemonic::CPX, AddressMode::ZeroPage, 3),
            0xe5 => ins(code, Mnemonic::SBC, AddressMode::ZeroPage, 3),
            0xe6 => ins(code, Mnemonic::INC, AddressMode::ZeroPage, 5),
            0xe8 => ins(code, Mnemonic::INX, AddressMode::Implied, 2),
            0xe9 => ins(code, Mnemonic::SBC, AddressMode::Immediate, 2),
            0xea => ins(code, Mnemonic::NOP, AddressMode::Implied, 2),
            0xec => ins(code, Mnemonic::CPX, AddressMode::Absolute, 4),
            0xed => ins(code, Mnemonic::SBC, AddressMode::Absolute, 4),
            0xee => ins(code, Mnemonic::INC, AddressMode::Absolute, 6),
            0xf0 => ins(code, Mnemonic::BEQ, AddressMode::Relative, 2),
            0xf1 => ins(code, Mnemonic::SBC, AddressMode::IndirectYIndexed, 5),
            0xf5 => ins(code, Mnemonic::SBC, AddressMode::ZeroPageXIndexed, 4),
            0xf6 => ins(code, Mnemonic::INC, AddressMode::ZeroPageXIndexed, 6),
            0xf8 => ins(code, Mnemonic::SED, AddressMode::Implied, 2),
            0xf9 => ins(code, Mnemonic::SBC, AddressMode::AbsoluteYIndexed, 4),
            0xfd => ins(code, Mnemonic::SBC, AddressMode::AbsoluteXIndexed, 4),
            0xfe => ins(code, Mnemonic::INC, AddressMode::AbsoluteXIndexed, 7),
            _ => None,
        }
    }
}

/// How many operand bytes a mode reads beyond the opcode byte.
pub fn operand_len(a: AddressMode) -> (r: u8)
    ensures
        r == operand_len_s(a),
{
    match a {
        AddressMode::Accumulator => 0,
        AddressMode::Implied => 0,
        AddressMode::Immediate => 1,
        AddressMode::Relative => 1,
        AddressMode::ZeroPage => 1,
        AddressMode::ZeroPageXIndexed => 1,
        AddressMode::ZeroPageYIndexed => 1,
        AddressMode::XIndexedIndirect => 1,
        AddressMode::IndirectYIndexed => 1,
        AddressMode::Absolute => 2,
        AddressMode::AbsoluteXIndexed => 2,
        AddressMode::AbsoluteYIndexed => 2,
        AddressMode::Indirect => 2,
    }
}

/// The eight conditional branches.
pub open spec fn is_branch_s(m: Mnemonic) -> bool {
    m == Mnemonic::BCC || m == Mnemonic::BCS || m == Mnemonic::BEQ || m == Mnemonic::BMI
        || m == Mnemonic::BNE || m == Mnemonic::BPL || m == Mnemonic::BVC || m == Mnemonic::BVS
}

/// Instructions that resolve an effective address without loading the
/// operand first: branches, jumps and stores.
pub open spec fn takes_address_s(m: Mnemonic) -> bool {
    is_branch_s(m) || m == Mnemonic::JMP || m == Mnemonic::JSR || m == Mnemonic::STA
        || m == Mnemonic::STX || m == Mnemonic::STY
}

/// Instructions that load their operand: loads, arithmetic, logic,
/// compares and BIT.
pub open spec fn reads_value_s(m: Mnemonic) -> bool {
    m == Mnemonic::ADC || m == Mnemonic::AND || m == Mnemonic::BIT || m == Mnemonic::CMP
        || m == Mnemonic::CPX || m == Mnemonic::CPY || m == Mnemonic::EOR || m == Mnemonic::LDA
        || m == Mnemonic::LDX || m == Mnemonic::LDY || m == Mnemonic::ORA || m == Mnemonic::SBC
}

/// The six read-modify-write instructions, which store their result back
/// to the accumulator or to the resolved address.
pub open spec fn is_rmw_s(m: Mnemonic) -> bool {
    m == Mnemonic::ASL || m == Mnemonic::LSR || m == Mnemonic::ROL || m == Mnemonic::ROR
        || m == Mnemonic::INC || m == Mnemonic::DEC
}

/// Instructions that take no operand at all: the stack, flag, register
/// and return instructions, which the table pairs only with Implied.
pub open spec fn is_implied_only_s(m: Mnemonic) -> bool {
    m == Mnemonic::BRK || m == Mnemonic::CLC || m == Mnemonic::CLD || m == Mnemonic::CLI
        || m == Mnemonic::CLV || m == Mnemonic::DEX || m == Mnemonic::DEY || m == Mnemonic::INX
        || m == Mnemonic::INY || m == Mnemonic::NOP || m == Mnemonic::PHA || m == Mnemonic::PHP
        || m == Mnemonic::PLA || m == Mnemonic::PLP || m == Mnemonic::RTI || m == Mnemonic::RTS
        || m == Mnemonic::SEC || m == Mnemonic::SED || m == Mnemonic::SEI || m == Mnemonic::TAX
        || m == Mnemonic::TAY || m == Mnemonic::TSX || m == Mnemonic::TXA || m == Mnemonic::TXS
        || m == Mnemonic::TYA
}

/// The addressing modes each execution path can resolve. Every entry of
/// the decode table satisfies this.
pub open spec fn mode_ok_s(m: Mnemonic, a: AddressMode) -> bool {
    &&& takes_address_s(m) ==> a != AddressMode::Accumulator && a != AddressMode::Implied
        && a != AddressMode::Immediate
    &&& reads_value_s(m) ==> a != AddressMode::Implied
    &&& is_rmw_s(m) ==> a != AddressMode::Implied && a != AddressMode::Immediate
    &&& is_implied_only_s(m) ==> a == AddressMode::Implied
}

/// Every table entry echoes its opcode byte, charges between two and
/// seven base cycles, and pairs its mnemonic only with modes its
/// execution path resolves.
#[verifier::rlimit(100)]
pub proof fn lemma_decode_wf(code: u8)
    ensures
        decode_s(code) matches Some(i) ==> i.code == code && 2 <= i.cycles <= 7 && mode_ok_s(
            i.mnemonic,
            i.address_mode,
        ),
{
}

/// For every opcode byte that decodes successfully, the decoded base
/// cycle count is at least 2.
pub proof fn lemma_decode_min_cycles(code: u8)
    ensures
        decode_s(code) matches Some(i) ==> i.cycles >= 2,
{
    lemma_decode_wf(code);
}

/// The mnemonic that bits 7-5 select among opcodes whose low two bits
/// are 00, and the mode bits 4-2 select; pairs outside the documented
/// set decode to nothing.
pub open spec fn match_cc_00_s(aaa: u8, bbb: u8) -> Option<(Mnemonic, AddressMode)> {
    let m = match aaa {
        0b001u8 => Some(Mnemonic::BIT),
        0b010u8 => Some(Mnemonic::JMP),
        0b011u8 => Some(Mnemonic::JMP),
        0b100u8 => Some(Mnemonic::STY),
        0b101u8 => Some(Mnemonic::LDY),
        0b110u8 => Some(Mnemonic::CPY),
        0b111u8 => Some(Mnemonic::CPX),
        _ => None,
    };
    let a = match bbb {
        0b000u8 => Some(AddressMode::Immediate),
        0b001u8 => Some(AddressMode::ZeroPage),
        0b011u8 => Some(AddressMode::Absolute),
        0b101u8 => Some(AddressMode::ZeroPageXIndexed),
        0b111u8 => Some(AddressMode::AbsoluteXIndexed),
        _ => None,
    };
    match (m, a) {
        (Some(m2), Some(a2)) => Some((m2, a2)),
        _ => None,
    }
}

pub fn match_cc_00(aaa: u8, bbb: u8) -> (r: Option<(Mnemonic, AddressMode)>)
    ensures
        r == match_cc_00_s(aaa, bbb),
{
    let m = match aaa {
        0b001u8 => Some(Mnemonic::BIT),
        0b010u8 => Some(Mnemonic::JMP),
        0b011u8 => Some(Mnemonic::JMP),
        0b100u8 => Some(Mnemonic::STY),
        0b101u8 => Some(Mnemonic::LDY),
        0b110u8 => Some(Mnemonic::CPY),
        0b111u8 => Some(Mnemonic::CPX),
        _ => None,
    };
    let a = match bbb {
        0b000u8 => Some(AddressMode::Immediate),
        0b001u8 => Some(AddressMode::ZeroPage),
        0b011u8 => Some(AddressMode::Absolute),
        0b101u8 => Some(AddressMode::ZeroPageXIndexed),
        0b111u8 => Some(AddressMode::AbsoluteXIndexed),
        _ => None,
    };
    match (m, a) {
        (Some(m2), Some(a2)) => Some((m2, a2)),
        _ => None,
    }
}

/// As `match_cc_00_s`, for opcodes whose low two bits are 01.
pub open spec fn match_cc_01_s(aaa: u8, bbb: u8) -> Option<(Mnemonic, AddressMode)> {
    let m = match aaa {
        0b000u8 => Some(Mnemonic::ORA),
        0b001u8 => Some(Mnemonic::AND),
        0b010u8 => Some(Mnemonic::EOR),
        0b011u8 => Some(Mnemonic::ADC),
        0b100u8 => Some(Mnemonic::STA),
        0b101u8 => Some(Mnemonic::LDA),
        0b110u8 => Some(Mnemonic::CMP),
        0b111u8 => Some(Mnemonic::SBC),
        _ => None,
    };
    let a = match bbb {
        0b000u8 => Some(AddressMode::XIndexedIndirect),
        0b001u8 => Some(AddressMode::ZeroPage),
        0b010u8 => Some(AddressMode::Immediate),
        0b011u8 => Some(AddressMode::Absolute),
        0b100u8 => Some(AddressMode::IndirectYIndexed),
        0b101u8 => Some(AddressMode::ZeroPageXIndexed),
        0b110u8 => Some(AddressMode::AbsoluteYIndexed),
        0b111u8 => Some(AddressMode::AbsoluteXIndexed),
        _ => None,
    };
    match (m, a) {
        (Some(m2), Some(a2)) => Some((m2, a2)),
        _ => None,
    }
}

pub fn match_cc_01(aaa: u8, bbb: u8) -> (r: Option<(Mnemonic, AddressMode)>)
    ensures
        r == match_cc_01_s(aaa, bbb),
{
    let m = match aaa {
        0b000u8 => Some(Mnemonic::ORA),
        0b001u8 => Some(Mnemonic::AND),
        0b010u8 => Some(Mnemonic::EOR),
        0b011u8 => Some(Mnemonic::ADC),
        0b100u8 => Some(Mnemonic::STA),
        0b101u8 => Some(Mnemonic::LDA),
        0b110u8 => Some(Mnemonic::CMP),
        0b111u8 => Some(Mnemonic::SBC),
        _ => None,
    };
    let a = match bbb {
        0b000u8 => Some(AddressMode::XIndexedIndirect),
        0b001u8 => Some(AddressMode::ZeroPage),
        0b010u8 => Some(AddressMode::Immediate),
        0b011u8 => Some(AddressMode::Absolute),
        0b100u8 => Some(AddressMode::IndirectYIndexed),
        0b101u8 => Some(AddressMode::ZeroPageXIndexed),
        0b110u8 => Some(AddressMode::AbsoluteYIndexed),
        0b111u8 => Some(AddressMode::AbsoluteXIndexed),
        _ => None,
    };
    match (m, a) {
        (Some(m2), Some(a2)) => Some((m2, a2)),
        _ => None,
    }
}

/// As `match_cc_00_s`, for opcodes whose low two bits are 10; STX and
/// LDX take the Y-indexed forms where the others take X-indexed.
pub open spec fn match_cc_10_s(aaa: u8, bbb: u8) -> Option<(Mnemonic, AddressMode)> {
    let m = match aaa {
        0b000u8 => Some(Mnemonic::ASL),
        0b001u8 => Some(Mnemonic::ROL),
        0b010u8 => Some(Mnemonic::LSR),
        0b011u8 => Some(Mnemonic::ROR),
        0b100u8 => Some(Mnemonic::STX),
        0b101u8 => Some(Mnemonic::LDX),
        0b110u8 => Some(Mnemonic::DEC),
        0b111u8 => Some(Mnemonic::INC),
        _ => None,
    };
    match m {
        Some(m2) => {
            let a = match bbb {
                0b000u8 => Some(AddressMode::Immediate),
                0b001u8 => Some(AddressMode::ZeroPage),
                0b010u8 => Some(AddressMode::Accumulator),
                0b011u8 => Some(AddressMode::Absolute),
                0b101u8 => if m2 == Mnemonic::STX || m2 == Mnemonic::LDX {
                    Some(AddressMode::ZeroPageYIndexed)
                } else {
                    Some(AddressMode::ZeroPageXIndexed)
                },
                0b111u8 => if m2 == Mnemonic::LDX {
                    Some(AddressMode::AbsoluteYIndexed)
                } else {
                    Some(AddressMode::AbsoluteXIndexed)
                },
                _ => None,
            };
            match a {
                Some(a2) => Some((m2, a2)),
                None => None,
            }
        },
        None => None,
    }
}

pub fn match_cc_10(aaa: u8, bbb: u8) -> (r: Option<(Mnemonic, AddressMode)>)
    ensures
        r == match_cc_10_s(aaa, bbb),
{
    let m = match aaa {
        0b000u8 => Some(Mnemonic::ASL),
        0b001u8 => Some(Mnemonic::ROL),
        0b010u8 => Some(Mnemonic::LSR),
        0b011u8 => Some(Mnemonic::ROR),
        0b100u8 => Some(Mnemonic::STX),
        0b101u8 => Some(Mnemonic::LDX),
        0b110u8 => Some(Mnemonic::DEC),
        0b111u8 => Some(Mnemonic::INC),
        _ => None,
    };
    match m {
        Some(m2) => {
            let a = match bbb {
                0b000u8 => Some(AddressMode::Immediate),
                0b001u8 => Some(AddressMode::ZeroPage),
                0b010u8 => Some(AddressMode::Accumulator),
                0b011u8 => Some(AddressMode::Absolute),
                0b101u8 => if m2 == Mnemonic::STX || m2 == Mnemonic::LDX {
                    Some(AddressMode::ZeroPageYIndexed)
                } else {
                    Some(AddressMode::ZeroPageXIndexed)
                },
                0b111u8 => if m2 == Mnemonic::LDX {
                    Some(AddressMode::AbsoluteYIndexed)
                } else {
                    Some(AddressMode::AbsoluteXIndexed)
                },
                _ => None,
            };
            match a {
                Some(a2) => Some((m2, a2)),
                None => None,
            }
        },
        None => None,
    }
}

} // verus!