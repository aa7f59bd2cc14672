//! Static instruction decode table of the 6502 core.
//!
//! A dense 256-entry table maps an opcode byte to a mnemonic, an addressing
//! mode and a base cycle count. Opcode bytes outside the supported set decode
//! to the sentinel [`Opcode::UnknownOperation`], which the CPU turns into a
//! fatal `BadOpcode` fault: the core does not emulate illegal opcodes. The
//! table here is the normative source; [`spec_decode`] is its mathematical
//! form and [`spec_encode`] is its inverse on the supported subset.

use vstd::prelude::*;

verus! {

/// Mnemonic of a decoded instruction. `JMPI` is the indirect form of `JMP`,
/// kept as a mnemonic of its own so that the table stays injective by
/// mnemonic and mode together.
#[derive(Clone, Copy, Debug, PartialEq, Eq, Structural)]
pub enum Opcode {
    NOP,
    BRK,
    JSR,
    RTI,
    RTS,
    JMP,
    JMPI,
    PHP,
    PLP,
    PHA,
    PLA,
    DEY,
    DEX,
    TAY,
    INY,
    INX,
    CLC,
    SEC,
    CLI,
    SEI,
    TYA,
    CLV,
    CLD,
    SED,
    TXA,
    TXS,
    TAX,
    TSX,
    ADC,
    SBC,
    AND,
    ORA,
    EOR,
    ASL,
    LSR,
    ROL,
    ROR,
    BIT,
    LDA,
    LDX,
    LDY,
    STA,
    STX,
    STY,
    CMP,
    CPX,
    CPY,
    INC,
    DEC,
    BCC,
    BCS,
    BEQ,
    BNE,
    BMI,
    BPL,
    BVC,
    BVS,
    UnknownOperation,
}

/// Rule for turning the operand bytes that follow an opcode into an effective
/// address or a branch displacement. `Implied` also stands for accumulator
/// operands of the shift and rotate instructions.
#[derive(Clone, Copy, Debug, PartialEq, Eq, Structural)]
pub enum AddressingMode {
    Implied,
    Immediate,
    ZeroPage,
    ZeroPageX,
    ZeroPageY,
    Relative,
    Absolute,
    AbsoluteX,
    AbsoluteY,
    Indirect,
    IndirectX,
    IndirectY,
}

/// One row of the decode table: mnemonic, addressing mode and base cycle
/// count (penalties for page crossings and taken branches come on top).
#[derive(Clone, Copy, Debug, PartialEq, Eq, Structural)]
pub struct Instruction {
    pub opcode: Opcode,
    pub addr_mode: AddressingMode,
    pub cycles: u8,
}

/// Builds one table row.
pub open spec fn entry(opcode: Opcode, addr_mode: AddressingMode, cycles: u8) -> Instruction {
    Instruction { opcode, addr_mode, cycles }
}

/// The decode table as a mathematical function: opcode byte to table row.
/// Unmapped bytes yield the `UnknownOperation` sentinel with zero cycles.
#[verifier::opaque]
pub open spec fn spec_decode(value: u8) -> Instruction {
    match value {
        0x00 => entry(Opcode::BRK, AddressingMode::Implied, 7),
        0x01 => entry(Opcode::ORA, AddressingMode::IndirectX, 6),
        0x05 => entry(Opcode::ORA, AddressingMode::ZeroPage, 3),
        0x06 => entry(Opcode::ASL, AddressingMode::ZeroPage, 5),
        0x08 => entry(Opcode::PHP, AddressingMode::Implied, 3),
        0x09 => entry(Opcode::ORA, AddressingMode::Immediate, 2),
        0x0A => entry(Opcode::ASL, AddressingMode::Implied, 2),
        0x0D => entry(Opcode::ORA, AddressingMode::Absolute, 4),
        0x0E => entry(Opcode::ASL, AddressingMode::Absolute, 6),
        0x10 => entry(Opcode::BPL, AddressingMode::Relative, 2),
        0x11 => entry(Opcode::ORA, AddressingMode::IndirectY, 5),
        0x15 => entry(Opcode::ORA, AddressingMode::ZeroPageX, 4),
        0x16 => entry(Opcode::ASL, AddressingMode::ZeroPageX, 6),
        0x18 => entry(Opcode::CLC, AddressingMode::Implied, 2),
        0x19 => entry(Opcode::ORA, AddressingMode::AbsoluteY, 4),
        0x1D => entry(Opcode::ORA, AddressingMode::AbsoluteX, 4),
        0x1E => entry(Opcode::ASL, AddressingMode::AbsoluteX, 7),
        0x20 => entry(Opcode::JSR, AddressingMode::Absolute, 6),
        0x21 => entry(Opcode::AND, AddressingMode::IndirectX, 6),
        0x24 => entry(Opcode::BIT, AddressingMode::ZeroPage, 3),
        0x25 => entry(Opcode::AND, AddressingMode::ZeroPage, 3),
        0x26 => entry(Opcode::ROL, AddressingMode::ZeroPage, 5),
        0x28 => entry(Opcode::PLP, AddressingMode::Implied, 4),
        0x29 => entry(Opcode::AND, AddressingMode::Immediate, 2),
        0x2A => entry(Opcode::ROL, AddressingMode::Implied, 2),
        0x2C => entry(Opcode::BIT, AddressingMode::Absolute, 4),
        0x2D => entry(Opcode::AND, AddressingMode::Absolute, 4),
        0x2E => entry(Opcode::ROL, AddressingMode::Absolute, 6),
        0x30 => entry(Opcode::BMI, AddressingMode::Relative, 2),
        0x31 => entry(Opcode::AND, AddressingMode::IndirectY, 5),
        0x35 => entry(Opcode::AND, AddressingMode::ZeroPageX, 4),
        0x36 => entry(Opcode::ROL, AddressingMode::ZeroPageX, 6),
        0x38 => entry(Opcode::SEC, AddressingMode::Implied, 2),
        0x39 => entry(Opcode::AND, AddressingMode::AbsoluteY, 4),
        0x3D => entry(Opcode::AND, AddressingMode::AbsoluteX, 4),
        0x3E => entry(Opcode::ROL, AddressingMode::AbsoluteX, 7),
        0x40 => entry(Opcode::RTI, AddressingMode::Implied, 6),
        0x41 => entry(Opcode::EOR, AddressingMode::IndirectX, 6),
        0x45 => entry(Opcode::EOR, AddressingMode::ZeroPage, 3),
        0x46 => entry(Opcode::LSR, AddressingMode::ZeroPage, 5),
        0x48 => entry(Opcode::PHA, AddressingMode::Implied, 3),
        0x49 => entry(Opcode::EOR, AddressingMode::Immediate, 2),
        0x4A => entry(Opcode::LSR, AddressingMode::Implied, 2),
        0x4C => entry(Opcode::JMP, AddressingMode::Absolute, 3),
        0x4D => entry(Opcode::EOR, AddressingMode::Absolute, 4),
        0x4E => entry(Opcode::LSR, AddressingMode::Absolute, 6),
        0x50 => entry(Opcode::BVC, AddressingMode::Relative, 2),
        0x51 => entry(Opcode::EOR, AddressingMode::IndirectY, 5),
        0x55 => entry(Opcode::EOR, AddressingMode::ZeroPageX, 4),
        0x56 => entry(Opcode::LSR, AddressingMode::ZeroPageX, 6),
        0x58 => entry(Opcode::CLI, AddressingMode::Implied, 2),
        0x59 => entry(Opcode::EOR, AddressingMode::AbsoluteY, 4),
        0x5D => entry(Opcode::EOR, AddressingMode::AbsoluteX, 4),
        0x5E => entry(Opcode::LSR, AddressingMode::AbsoluteX, 7),
        0x60 => entry(Opcode::RTS, AddressingMode::Implied, 6),
        0x61 => entry(Opcode::ADC, AddressingMode::IndirectX, 6),
        0x65 => entry(Opcode::ADC, AddressingMode::ZeroPage, 3),
        0x66 => entry(Opcode::ROR, AddressingMode::ZeroPage, 5),
        0x68 => entry(Opcode::PLA, AddressingMode::Implied, 4),
        0x69 => entry(Opcode::ADC, AddressingMode::Immediate, 2),
        0x6A => entry(Opcode::ROR, AddressingMode::Implied, 2),
        0x6C => entry(Opcode::JMPI, AddressingMode::Indirect, 5),
        0x6D => entry(Opcode::ADC, AddressingMode::Absolute, 4),
        0x6E => entry(Opcode::ROR, AddressingMode::Absolute, 6),
        0x70 => entry(Opcode::BVS, AddressingMode::Relative, 2),
        0x71 => entry(Opcode::ADC, AddressingMode::IndirectY, 5),
        0x75 => entry(Opcode::ADC, AddressingMode::ZeroPageX, 4),
        0x76 => entry(Opcode::ROR, AddressingMode::ZeroPageX, 6),
        0x78 => entry(Opcode::SEI, AddressingMode::Implied, 2),
        0x79 => entry(Opcode::ADC, AddressingMode::AbsoluteY, 4),
        0x7D => entry(Opcode::ADC, AddressingMode::AbsoluteX, 4),
        0x7E => entry(Opcode::ROR, AddressingMode::AbsoluteX, 7),
        0x81 => entry(Opcode::STA, AddressingMode::IndirectX, 6),
        0x84 => entry(Opcode::STY, AddressingMode::ZeroPage, 3),
        0x85 => entry(Opcode::STA, AddressingMode::ZeroPage, 3),
        0x86 => entry(Opcode::STX, AddressingMode::ZeroPage, 3),
        0x88 => entry(Opcode::DEY, AddressingMode::Implied, 2),
        0x8A => entry(Opcode::TXA, AddressingMode::Implied, 2),
        0x8C => entry(Opcode::STY, AddressingMode::Absolute, 4),
        0x8D => entry(Opcode::STA, AddressingMode::Absolute, 4),
        0x8E => entry(Opcode::STX, AddressingMode::Absolute, 4),
        0x90 => entry(Opcode::BCC, AddressingMode::Relative, 2),
        0x91 => entry(Opcode::STA, AddressingMode::IndirectY, 6),
        0x94 => entry(Opcode::STY, AddressingMode::ZeroPageX, 4),
        0x95 => entry(Opcode::STA, AddressingMode::ZeroPageX, 4),
        0x96 => entry(Opcode::STX, AddressingMode::ZeroPageY, 4),
        0x98 => entry(Opcode::TYA, AddressingMode::Implied, 2),
        0x99 => entry(Opcode::STA, AddressingMode::AbsoluteY, 5),
        0x9A => entry(Opcode::TXS, AddressingMode::Implied, 2),
        0x9D => entry(Opcode::STA, AddressingMode::AbsoluteX, 5),
        0xA0 => entry(Opcode::LDY, AddressingMode::Immediate, 2),
        0xA1 => entry(Opcode::LDA, AddressingMode::IndirectX, 6),
        0xA2 => entry(Opcode::LDX, AddressingMode::Immediate, 2),
        0xA4 => entry(Opcode::LDY, AddressingMode::ZeroPage, 3),
        0xA5 => entry(Opcode::LDA, AddressingMode::ZeroPage, 3),
        0xA6 => entry(Opcode::LDX, AddressingMode::ZeroPage, 3),
        0xA8 => entry(Opcode::TAY, AddressingMode::Implied, 2),
        0xA9 => entry(Opcode::LDA, AddressingMode::Immediate, 2),
        0xAA => entry(Opcode::TAX, AddressingMode::Implied, 2),
        0xAC => entry(Opcode::LDY, AddressingMode::Absolute, 4),
        0xAD => entry(Opcode::LDA, AddressingMode::Absolute, 4),
        0xAE => entry(Opcode::LDX, AddressingMode::Absolute, 4),
        0xB0 => entry(Opcode::BCS, AddressingMode::Relative, 2),
        0xB1 => entry(Opcode::LDA, AddressingMode::IndirectY, 5),
        0xB4 => entry(Opcode::LDY, AddressingMode::ZeroPageX, 4),
        0xB5 => entry(Opcode::LDA, AddressingMode::ZeroPageX, 4),
        0xB6 => entry(Opcode::LDX, AddressingMode::ZeroPageY, 4),
        0xB8 => entry(Opcode::CLV, AddressingMode::Implied, 2),
        0xB9 => entry(Opcode::LDA, AddressingMode::AbsoluteY, 4),
        0xBA => entry(Opcode::TSX, AddressingMode::Implied, 2),
        0xBC => entry(Opcode::LDY, AddressingMode::AbsoluteX, 4),
        0xBD => entry(Opcode::LDA, AddressingMode::AbsoluteX, 4),
        0xBE => entry(Opcode::LDX, AddressingMode::AbsoluteY, 4),
        0xC0 => entry(Opcode::CPY, AddressingMode::Immediate, 2),
        0xC1 => entry(Opcode::CMP, AddressingMode::IndirectX, 6),
        0xC4 => entry(Opcode::CPY, AddressingMode::ZeroPage, 3),
        0xC5 => entry(Opcode::CMP, AddressingMode::ZeroPage, 3),
        0xC6 => entry(Opcode::DEC, AddressingMode::ZeroPage, 5),
        0xC8 => entry(Opcode::INY, AddressingMode::Implied, 2),
        0xC9 => entry(Opcode::CMP, AddressingMode::Immediate, 2),
        0xCA => entry(Opcode::DEX, AddressingMode::Implied, 2),
        0xCC => entry(Opcode::CPY, AddressingMode::Absolute, 4),
        0xCD => entry(Opcode::CMP, AddressingMode::Absolute, 4),
        0xCE => entry(Opcode::DEC, AddressingMode::Absolute, 6),
        0xD0 => entry(Opcode::BNE, AddressingMode::Relative, 2),
        0xD1 => entry(Opcode::CMP, AddressingMode::IndirectY, 5),
        0xD5 => entry(Opcode::CMP, AddressingMode::ZeroPageX, 4),
        0xD6 => entry(Opcode::DEC, AddressingMode::ZeroPageX, 6),
        0xD8 => entry(Opcode::CLD, AddressingMode::Implied, 2),
        0xD9 => entry(Opcode::CMP, AddressingMode::AbsoluteY, 4),
        0xDD => entry(Opcode::CMP, AddressingMode::AbsoluteX, 4),
        0xDE => entry(Opcode::DEC, AddressingMode::AbsoluteX, 7),
        0xE0 => entry(Opcode::CPX, AddressingMode::Immediate, 2),
        0xE1 => entry(Opcode::SBC, AddressingMode::IndirectX, 6),
        0xE4 => entry(Opcode::CPX, AddressingMode::ZeroPage, 3),
        0xE5 => entry(Opcode::SBC, AddressingMode::ZeroPage, 3),
        0xE6 => entry(Opcode::INC, AddressingMode::ZeroPage, 5),
        0xE8 => entry(Opcode::INX, AddressingMode::Implied, 2),
        0xE9 => entry(Opcode::SBC, AddressingMode::Immediate, 2),
        0xEA => entry(Opcode::NOP, AddressingMode::Implied, 2),
        0xEC => entry(Opcode::CPX, AddressingMode::Absolute, 4),
        0xED => entry(Opcode::SBC, AddressingMode::Absolute, 4),
        0xEE => entry(Opcode::INC, AddressingMode::Absolute, 6),
        0xF0 => entry(Opcode::BEQ, AddressingMode::Relative, 2),
        0xF1 => entry(Opcode::SBC, AddressingMode::IndirectY, 5),
        0xF5 => entry(Opcode::SBC, AddressingMode::ZeroPageX, 4),
        0xF6 => entry(Opcode::INC, AddressingMode::ZeroPageX, 6),
        0xF8 => entry(Opcode::SED, AddressingMode::Implied, 2),
        0xF9 => entry(Opcode::SBC, AddressingMode::AbsoluteY, 4),
        0xFD => entry(Opcode::SBC, AddressingMode::AbsoluteX, 4),
        0xFE => entry(Opcode::INC, AddressingMode::AbsoluteX, 7),
        _ => entry(Opcode::UnknownOperation, AddressingMode::Implied, 0),
    }
}

/// The decode table as executable code. Every row equals the mathematical
/// table [`spec_decode`].
fn row(opcode: Opcode, addr_mode: AddressingMode, cycles: u8) -> (r: Instruction)
    ensures
        r == entry(opcode, addr_mode, cycles),
{
    Instruction { opcode, addr_mode, cycles }
}

impl Instruction {
    /// Decodes an opcode byte into its table row.
    #[verifier::rlimit(60)]
    pub fn from_u8(value: u8) -> (r: Instruction)
        ensures
            r == spec_decode(value),
    {
        proof {
            reveal(spec_decode);
        }
        match value {
            0x00 => row(Opcode::BRK, AddressingMode::Implied, 7),
            0x01 => row(Opcode::ORA, AddressingMode::IndirectX, 6),
            0x05 => row(Opcode::ORA, AddressingMode::ZeroPage, 3),
            0x06 => row(Opcode::ASL, AddressingMode::ZeroPage, 5),
            0x08 => row(Opcode::PHP, AddressingMode::Implied, 3),
            0x09 => row(Opcode::ORA, AddressingMode::Immediate, 2),
            0x0A => row(Opcode::ASL, AddressingMode::Implied, 2),
            0x0D => row(Opcode::ORA, AddressingMode::Absolute, 4),
            0x0E => row(Opcode::ASL, AddressingMode::Absolute, 6),
            0x10 => row(Opcode::BPL, AddressingMode::Relative, 2),
            0x11 => row(Opcode::ORA, AddressingMode::IndirectY, 5),
            0x15 => row(Opcode::ORA, AddressingMode::ZeroPageX, 4),
            0x16 => row(Opcode::ASL, AddressingMode::ZeroPageX, 6),
            0x18 => row(Opcode::CLC, AddressingMode::Implied, 2),
            0x19 => row(Opcode::ORA, AddressingMode::AbsoluteY, 4),
            0x1D => row(Opcode::ORA, AddressingMode::AbsoluteX, 4),
            0x1E => row(Opcode::ASL, AddressingMode::AbsoluteX, 7),
            0x20 => row(Opcode::JSR, AddressingMode::Absolute, 6),
            0x21 => row(Opcode::AND, AddressingMode::IndirectX, 6),
            0x24 => row(Opcode::BIT, AddressingMode::ZeroPage, 3),
            0x25 => row(Opcode::AND, AddressingMode::ZeroPage, 3),
            0x26 => row(Opcode::ROL, AddressingMode::ZeroPage, 5),
            0x28 => row(Opcode::PLP, AddressingMode::Implied, 4),
            0x29 => row(Opcode::AND, AddressingMode::Immediate, 2),
            0x2A => row(Opcode::ROL, AddressingMode::Implied, 2),
            0x2C => row(Opcode::BIT, AddressingMode::Absolute, 4),
            0x2D => row(Opcode::AND, AddressingMode::Absolute, 4),
            0x2E => row(Opcode::ROL, AddressingMode::Absolute, 6),
            0x30 => row(Opcode::BMI, AddressingMode::Relative, 2),
            0x31 => row(Opcode::AND, AddressingMode::IndirectY, 5),
            0x35 => row(Opcode::AND, AddressingMode::ZeroPageX, 4),
            0x36 => row(Opcode::ROL, AddressingMode::ZeroPageX, 6),
            0x38 => row(Opcode::SEC, AddressingMode::Implied, 2),
            0x39 => row(Opcode::AND, AddressingMode::AbsoluteY, 4),
            0x3D => row(Opcode::AND, AddressingMode::AbsoluteX, 4),
            0x3E => row(Opcode::ROL, AddressingMode::AbsoluteX, 7),
            0x40 => row(Opcode::RTI, AddressingMode::Implied, 6),
            0x41 => row(Opcode::EOR, AddressingMode::IndirectX, 6),
            0x45 => row(Opcode::EOR, AddressingMode::ZeroPage, 3),
            0x46 => row(Opcode::LSR, AddressingMode::ZeroPage, 5),
            0x48 => row(Opcode::PHA, AddressingMode::Implied, 3),
            0x49 => row(Opcode::EOR, AddressingMode::Immediate, 2),
            0x4A => row(Opcode::LSR, AddressingMode::Implied, 2),
            0x4C => row(Opcode::JMP, AddressingMode::Absolute, 3),
            0x4D => row(Opcode::EOR, AddressingMode::Absolute, 4),
            0x4E => row(Opcode::LSR, AddressingMode::Absolute, 6),
            0x50 => row(Opcode::BVC, AddressingMode::Relative, 2),
            0x51 => row(Opcode::EOR, AddressingMode::IndirectY, 5),
            0x55 => row(Opcode::EOR, AddressingMode::ZeroPageX, 4),
            0x56 => row(Opcode::LSR, AddressingMode::ZeroPageX, 6),
            0x58 => row(Opcode::CLI, AddressingMode::Implied, 2),
            0x59 => row(Opcode::EOR, AddressingMode::AbsoluteY, 4),
            0x5D => row(Opcode::EOR, AddressingMode::AbsoluteX, 4),
            0x5E => row(Opcode::LSR, AddressingMode::AbsoluteX, 7),
            0x60 => row(Opcode::RTS, AddressingMode::Implied, 6),
            0x61 => row(Opcode::ADC, AddressingMode::IndirectX, 6),
            0x65 => row(Opcode::ADC, AddressingMode::ZeroPage, 3),
            0x66 => row(Opcode::ROR, AddressingMode::ZeroPage, 5),
            0x68 => row(Opcode::PLA, AddressingMode::Implied, 4),
            0x69 => row(Opcode::ADC, AddressingMode::Immediate, 2),
            0x6A => row(Opcode::ROR, AddressingMode::Implied, 2),
            0x6C => row(Opcode::JMPI, AddressingMode::Indirect, 5),
            0x6D => row(Opcode::ADC, AddressingMode::Absolute, 4),
            0x6E => row(Opcode::ROR, AddressingMode::Absolute, 6),
            0x70 => row(Opcode::BVS, AddressingMode::Relative, 2),
            0x71 => row(Opcode::ADC, AddressingMode::IndirectY, 5),
            0x75 => row(Opcode::ADC, AddressingMode::ZeroPageX, 4),
            0x76 => row(Opcode::ROR, AddressingMode::ZeroPageX, 6),
            0x78 => row(Opcode::SEI, AddressingMode::Implied, 2),
            0x79 => row(Opcode::ADC, AddressingMode::AbsoluteY, 4),
            0x7D => row(Opcode::ADC, AddressingMode::AbsoluteX, 4),
            0x7E => row(Opcode::ROR, AddressingMode::AbsoluteX, 7),
            0x81 => row(Opcode::STA, AddressingMode::IndirectX, 6),
            0x84 => row(Opcode::STY, AddressingMode::ZeroPage, 3),
            0x85 => row(Opcode::STA, AddressingMode::ZeroPage, 3),
            0x86 => row(Opcode::STX, AddressingMode::ZeroPage, 3),
            0x88 => row(Opcode::DEY, AddressingMode::Implied, 2),
            0x8A => row(Opcode::TXA, AddressingMode::Implied, 2),
            0x8C => row(Opcode::STY, AddressingMode::Absolute, 4),
            0x8D => row(Opcode::STA, AddressingMode::Absolute, 4),
            0x8E => row(Opcode::STX, AddressingMode::Absolute, 4),
            0x90 => row(Opcode::BCC, AddressingMode::Relative, 2),
            0x91 => row(Opcode::STA, AddressingMode::IndirectY, 6),
            0x94 => row(Opcode::STY, AddressingMode::ZeroPageX, 4),
            0x95 => row(Opcode::STA, AddressingMode::ZeroPageX, 4),
            0x96 => row(Opcode::STX, AddressingMode::ZeroPageY, 4),
            0x98 => row(Opcode::TYA, AddressingMode::Implied, 2),
            0x99 => row(Opcode::STA, AddressingMode::AbsoluteY, 5),
            0x9A => row(Opcode::TXS, AddressingMode::Implied, 2),
            0x9D => row(Opcode::STA, AddressingMode::AbsoluteX, 5),
            0xA0 => row(Opcode::LDY, AddressingMode::Immediate, 2),
            0xA1 => row(Opcode::LDA, AddressingMode::IndirectX, 6),
            0xA2 => row(Opcode::LDX, AddressingMode::Immediate, 2),
            0xA4 => row(Opcode::LDY, AddressingMode::ZeroPage, 3),
            0xA5 => row(Opcode::LDA, AddressingMode::ZeroPage, 3),
            0xA6 => row(Opcode::LDX, AddressingMode::ZeroPage, 3),
            0xA8 => row(Opcode::TAY, AddressingMode::Implied, 2),
            0xA9 => row(Opcode::LDA, AddressingMode::Immediate, 2),
            0xAA => row(Opcode::TAX, AddressingMode::Implied, 2),
            0xAC => row(Opcode::LDY, AddressingMode::Absolute, 4),
            0xAD => row(Opcode::LDA, AddressingMode::Absolute, 4),
            0xAE => row(Opcode::LDX, AddressingMode::Absolute, 4),
            0xB0 => row(Opcode::BCS, AddressingMode::Relative, 2),
            0xB1 => row(Opcode::LDA, AddressingMode::IndirectY, 5),
            0xB4 => row(Opcode::LDY, AddressingMode::ZeroPageX, 4),
            0xB5 => row(Opcode::LDA, AddressingMode::ZeroPageX, 4),
            0xB6 => row(Opcode::LDX, AddressingMode::ZeroPageY, 4),
            0xB8 => row(Opcode::CLV, AddressingMode::Implied, 2),
            0xB9 => row(Opcode::LDA, AddressingMode::AbsoluteY, 4),
            0xBA => row(Opcode::TSX, AddressingMode::Implied, 2),
            0xBC => row(Opcode::LDY, AddressingMode::AbsoluteX, 4),
            0xBD => row(Opcode::LDA, AddressingMode::AbsoluteX, 4),
            0xBE => row(Opcode::LDX, AddressingMode::AbsoluteY, 4),
            0xC0 => row(Opcode::CPY, AddressingMode::Immediate, 2),
            0xC1 => row(Opcode::CMP, AddressingMode::IndirectX, 6),
            0xC4 => row(Opcode::CPY, AddressingMode::ZeroPage, 3),
            0xC5 => row(Opcode::CMP, AddressingMode::ZeroPage, 3),
            0xC6 => row(Opcode::DEC, AddressingMode::ZeroPage, 5),
            0xC8 => row(Opcode::INY, AddressingMode::Implied, 2),
            0xC9 => row(Opcode::CMP, AddressingMode::Immediate, 2),
            0xCA => row(Opcode::DEX, AddressingMode::Implied, 2),
            0xCC => row(Opcode::CPY, AddressingMode::Absolute, 4),
            0xCD => row(Opcode::CMP, AddressingMode::Absolute, 4),
            0xCE => row(Opcode::DEC, AddressingMode::Absolute, 6),
            0xD0 => row(Opcode::BNE, AddressingMode::Relative, 2),
            0xD1 => row(Opcode::CMP, AddressingMode::IndirectY, 5),
            0xD5 => row(Opcode::CMP, AddressingMode::ZeroPageX, 4),
            0xD6 => row(Opcode::DEC, AddressingMode::ZeroPageX, 6),
            0xD8 => row(Opcode::CLD, AddressingMode::Implied, 2),
            0xD9 => row(Opcode::CMP, AddressingMode::AbsoluteY, 4),
            0xDD => row(Opcode::CMP, AddressingMode::AbsoluteX, 4),
            0xDE => row(Opcode::DEC, AddressingMode::AbsoluteX, 7),
            0xE0 => row(Opcode::CPX, AddressingMode::Immediate, 2),
            0xE1 => row(Opcode::SBC, AddressingMode::IndirectX, 6),
            0xE4 => row(Opcode::CPX, AddressingMode::ZeroPage, 3),
            0xE5 => row(Opcode::SBC, AddressingMode::ZeroPage, 3),
            0xE6 => row(Opcode::INC, AddressingMode::ZeroPage, 5),
            0xE8 => row(Opcode::INX, AddressingMode::Implied, 2),
            0xE9 => row(Opcode::SBC, AddressingMode::Immediate, 2),
            0xEA => row(Opcode::NOP, AddressingMode::Implied, 2),
            0xEC => row(Opcode::CPX, AddressingMode::Absolute, 4),
            0xED => row(Opcode::SBC, AddressingMode::Absolute, 4),
            0xEE => row(Opcode::INC, AddressingMode::Absolute, 6),
            0xF0 => row(Opcode::BEQ, AddressingMode::Relative, 2),
            0xF1 => row(Opcode::SBC, AddressingMode::IndirectY, 5),
            0xF5 => row(Opcode::SBC, AddressingMode::ZeroPageX, 4),
            0xF6 => row(Opcode::INC, AddressingMode::ZeroPageX, 6),
            0xF8 => row(Opcode::SED, AddressingMode::Implied, 2),
            0xF9 => row(Opcode::SBC, AddressingMode::AbsoluteY, 4),
            0xFD => row(Opcode::SBC, AddressingMode::AbsoluteX, 4),
            0xFE => row(Opcode::INC, AddressingMode::AbsoluteX, 7),
            _ => row(Opcode::UnknownOperation, AddressingMode::Implied, 0),
        }
    }
}

impl Opcode {
    /// Decodes an opcode byte into its mnemonic alone.
    pub fn from_u8(value: u8) -> (r: Opcode)
        ensures
            r == spec_decode(value).opcode,
    {
        Instruction::from_u8(value).opcode
    }
}

/// Re-encodes a mnemonic and addressing mode into the opcode byte that
/// decodes to them, or `None` when the pair is not in the table.
pub open spec fn spec_encode(opcode: Opcode, addr_mode: AddressingMode) -> Option<u8> {
    match (opcode, addr_mode) {
        (Opcode::BRK, AddressingMode::Implied) => Some(0x00u8),
        (Opcode::ORA, AddressingMode::IndirectX) => Some(0x01u8),
        (Opcode::ORA, AddressingMode::ZeroPage) => Some(0x05u8),
        (Opcode::ASL, AddressingMode::ZeroPage) => Some(0x06u8),
        (Opcode::PHP, AddressingMode::Implied) => Some(0x08u8),
        (Opcode::ORA, AddressingMode::Immediate) => Some(0x09u8),
        (Opcode::ASL, AddressingMode::Implied) => Some(0x0Au8),
        (Opcode::ORA, AddressingMode::Absolute) => Some(0x0Du8),
        (Opcode::ASL, AddressingMode::Absolute) => Some(0x0Eu8),
        (Opcode::BPL, AddressingMode::Relative) => Some(0x10u8),
        (Opcode::ORA, AddressingMode::IndirectY) => Some(0x11u8),
        (Opcode::ORA, AddressingMode::ZeroPageX) => Some(0x15u8),
        (Opcode::ASL, AddressingMode::ZeroPageX) => Some(0x16u8),
        (Opcode::CLC, AddressingMode::Implied) => Some(0x18u8),
        (Opcode::ORA, AddressingMode::AbsoluteY) => Some(0x19u8),
        (Opcode::ORA, AddressingMode::AbsoluteX) => Some(0x1Du8),
        (Opcode::ASL, AddressingMode::AbsoluteX) => Some(0x1Eu8),
        (Opcode::JSR, AddressingMode::Absolute) => Some(0x20u8),
        (Opcode::AND, AddressingMode::IndirectX) => Some(0x21u8),
        (Opcode::BIT, AddressingMode::ZeroPage) => Some(0x24u8),
        (Opcode::AND, AddressingMode::ZeroPage) => Some(0x25u8),
        (Opcode::ROL, AddressingMode::ZeroPage) => Some(0x26u8),
        (Opcode::PLP, AddressingMode::Implied) => Some(0x28u8),
        (Opcode::AND, AddressingMode::Immediate) => Some(0x29u8),
        (Opcode::ROL, AddressingMode::Implied) => Some(0x2Au8),
        (Opcode::BIT, AddressingMode::Absolute) => Some(0x2Cu8),
        (Opcode::AND, AddressingMode::Absolute) => Some(0x2Du8),
        (Opcode::ROL, AddressingMode::Absolute) => Some(0x2Eu8),
        (Opcode::BMI, AddressingMode::Relative) => Some(0x30u8),
        (Opcode::AND, AddressingMode::IndirectY) => Some(0x31u8),
        (Opcode::AND, AddressingMode::ZeroPageX) => Some(0x35u8),
        (Opcode::ROL, AddressingMode::ZeroPageX) => Some(0x36u8),
        (Opcode::SEC, AddressingMode::Implied) => Some(0x38u8),
        (Opcode::AND, AddressingMode::AbsoluteY) => Some(0x39u8),
        (Opcode::AND, AddressingMode::AbsoluteX) => Some(0x3Du8),
        (Opcode::ROL, AddressingMode::AbsoluteX) => Some(0x3Eu8),
        (Opcode::RTI, AddressingMode::Implied) => Some(0x40u8),
        (Opcode::EOR, AddressingMode::IndirectX) => Some(0x41u8),
        (Opcode::EOR, AddressingMode::ZeroPage) => Some(0x45u8),
        (Opcode::LSR, AddressingMode::ZeroPage) => Some(0x46u8),
        (Opcode::PHA, AddressingMode::Implied) => Some(0x48u8),
        (Opcode::EOR, AddressingMode::Immediate) => Some(0x49u8),
        (Opcode::LSR, AddressingMode::Implied) => Some(0x4Au8),
        (Opcode::JMP, AddressingMode::Absolute) => Some(0x4Cu8),
        (Opcode::EOR, AddressingMode::Absolute) => Some(0x4Du8),
        (Opcode::LSR, AddressingMode::Absolute) => Some(0x4Eu8),
        (Opcode::BVC, AddressingMode::Relative) => Some(0x50u8),
        (Opcode::EOR, AddressingMode::IndirectY) => Some(0x51u8),
        (Opcode::EOR, AddressingMode::ZeroPageX) => Some(0x55u8),
        (Opcode::LSR, AddressingMode::ZeroPageX) => Some(0x56u8),
        (Opcode::CLI, AddressingMode::Implied) => Some(0x58u8),
        (Opcode::EOR, AddressingMode::AbsoluteY) => Some(0x59u8),
        (Opcode::EOR, AddressingMode::AbsoluteX) => Some(0x5Du8),
        (Opcode::LSR, AddressingMode::AbsoluteX) => Some(0x5Eu8),
        (Opcode::RTS, AddressingMode::Implied) => Some(0x60u8),
        (Opcode::ADC, AddressingMode::IndirectX) => Some(0x61u8),
        (Opcode::ADC, AddressingMode::ZeroPage) => Some(0x65u8),
        (Opcode::ROR, AddressingMode::ZeroPage) => Some(0x66u8),
        (Opcode::PLA, AddressingMode::Implied) => Some(0x68u8),
        (Opcode::ADC, AddressingMode::Immediate) => Some(0x69u8),
        (Opcode::ROR, AddressingMode::Implied) => Some(0x6Au8),
        (Opcode::JMPI, AddressingMode::Indirect) => Some(0x6Cu8),
        (Opcode::ADC, AddressingMode::Absolute) => Some(0x6Du8),
        (Opcode::ROR, AddressingMode::Absolute) => Some(0x6Eu8),
        (Opcode::BVS, AddressingMode::Relative) => Some(0x70u8),
        (Opcode::ADC, AddressingMode::IndirectY) => Some(0x71u8),
        (Opcode::ADC, AddressingMode::ZeroPageX) => Some(0x75u8),
        (Opcode::ROR, AddressingMode::ZeroPageX) => Some(0x76u8),
        (Opcode::SEI, AddressingMode::Implied) => Some(0x78u8),
        (Opcode::ADC, AddressingMode::AbsoluteY) => Some(0x79u8),
        (Opcode::ADC, AddressingMode::AbsoluteX) => Some(0x7Du8),
        (Opcode::ROR, AddressingMode::AbsoluteX) => Some(0x7Eu8),
        (Opcode::STA, AddressingMode::IndirectX) => Some(0x81u8),
        (Opcode::STY, AddressingMode::ZeroPage) => Some(0x84u8),
        (Opcode::STA, AddressingMode::ZeroPage) => Some(0x85u8),
        (Opcode::STX, AddressingMode::ZeroPage) => Some(0x86u8),
        (Opcode::DEY, AddressingMode::Implied) => Some(0x88u8),
        (Opcode::TXA, AddressingMode::Implied) => Some(0x8Au8),
        (Opcode::STY, AddressingMode::Absolute) => Some(0x8Cu8),
        (Opcode::STA, AddressingMode::Absolute) => Some(0x8Du8),
        (Opcode::STX, AddressingMode::Absolute) => Some(0x8Eu8),
        (Opcode::BCC, AddressingMode::Relative) => Some(0x90u8),
        (Opcode::STA, AddressingMode::IndirectY) => Some(0x91u8),
        (Opcode::STY, AddressingMode::ZeroPageX) => Some(0x94u8),
        (Opcode::STA, AddressingMode::ZeroPageX) => Some(0x95u8),
        (Opcode::STX, AddressingMode::ZeroPageY) => Some(0x96u8),
        (Opcode::TYA, AddressingMode::Implied) => Some(0x98u8),
        (Opcode::STA, AddressingMode::AbsoluteY) => Some(0x99u8),
        (Opcode::TXS, AddressingMode::Implied) => Some(0x9Au8),
        (Opcode::STA, AddressingMode::AbsoluteX) => Some(0x9Du8),
        (Opcode::LDY, AddressingMode::Immediate) => Some(0xA0u8),
        (Opcode::LDA, AddressingMode::IndirectX) => Some(0xA1u8),
        (Opcode::LDX, AddressingMode::Immediate) => Some(0xA2u8),
        (Opcode::LDY, AddressingMode::ZeroPage) => Some(0xA4u8),
        (Opcode::LDA, AddressingMode::ZeroPage) => Some(0xA5u8),
        (Opcode::LDX, AddressingMode::ZeroPage) => Some(0xA6u8),
        (Opcode::TAY, AddressingMode::Implied) => Some(0xA8u8),
        (Opcode::LDA, AddressingMode::Immediate) => Some(0xA9u8),
        (Opcode::TAX, AddressingMode::Implied) => Some(0xAAu8),
        (Opcode::LDY, AddressingMode::Absolute) => Some(0xACu8),
        (Opcode::LDA, AddressingMode::Absolute) => Some(0xADu8),
        (Opcode::LDX, AddressingMode::Absolute) => Some(0xAEu8),
        (Opcode::BCS, AddressingMode::Relative) => Some(0xB0u8),
        (Opcode::LDA, AddressingMode::IndirectY) => Some(0xB1u8),
        (Opcode::LDY, AddressingMode::ZeroPageX) => Some(0xB4u8),
        (Opcode::LDA, AddressingMode::ZeroPageX) => Some(0xB5u8),
        (Opcode::LDX, AddressingMode::ZeroPageY) => Some(0xB6u8),
        (Opcode::CLV, AddressingMode::Implied) => Some(0xB8u8),
        (Opcode::LDA, AddressingMode::AbsoluteY) => Some(0xB9u8),
        (Opcode::TSX, AddressingMode::Implied) => Some(0xBAu8),
        (Opcode::LDY, AddressingMode::AbsoluteX) => Some(0xBCu8),
        (Opcode::LDA, AddressingMode::AbsoluteX) => Some(0xBDu8),
        (Opcode::LDX, AddressingMode::AbsoluteY) => Some(0xBEu8),
        (Opcode::CPY, AddressingMode::Immediate) => Some(0xC0u8),
        (Opcode::CMP, AddressingMode::IndirectX) => Some(0xC1u8),
        (Opcode::CPY, AddressingMode::ZeroPage) => Some(0xC4u8),
        (Opcode::CMP, AddressingMode::ZeroPage) => Some(0xC5u8),
        (Opcode::DEC, AddressingMode::ZeroPage) => Some(0xC6u8),
        (Opcode::INY, AddressingMode::Implied) => Some(0xC8u8),
        (Opcode::CMP, AddressingMode::Immediate) => Some(0xC9u8),
        (Opcode::DEX, AddressingMode::Implied) => Some(0xCAu8),
        (Opcode::CPY, AddressingMode::Absolute) => Some(0xCCu8),
        (Opcode::CMP, AddressingMode::Absolute) => Some(0xCDu8),
        (Opcode::DEC, AddressingMode::Absolute) => Some(0xCEu8),
        (Opcode::BNE, AddressingMode::Relative) => Some(0xD0u8),
        (Opcode::CMP, AddressingMode::IndirectY) => Some(0xD1u8),
        (Opcode::CMP, AddressingMode::ZeroPageX) => Some(0xD5u8),
        (Opcode::DEC, AddressingMode::ZeroPageX) => Some(0xD6u8),
        (Opcode::CLD, AddressingMode::Implied) => Some(0xD8u8),
        (Opcode::CMP, AddressingMode::AbsoluteY) => Some(0xD9u8),
        (Opcode::CMP, AddressingMode::AbsoluteX) => Some(0xDDu8),
        (Opcode::DEC, AddressingMode::AbsoluteX) => Some(0xDEu8),
        (Opcode::CPX, AddressingMode::Immediate) => Some(0xE0u8),
        (Opcode::SBC, AddressingMode::IndirectX) => Some(0xE1u8),
        (Opcode::CPX, AddressingMode::ZeroPage) => Some(0xE4u8),
        (Opcode::SBC, AddressingMode::ZeroPage) => Some(0xE5u8),
        (Opcode::INC, AddressingMode::ZeroPage) => Some(0xE6u8),
        (Opcode::INX, AddressingMode::Implied) => Some(0xE8u8),
        (Opcode::SBC, AddressingMode::Immediate) => Some(0xE9u8),
        (Opcode::NOP, AddressingMode::Implied) => Some(0xEAu8),
        (Opcode::CPX, AddressingMode::Absolute) => Some(0xECu8),
        (Opcode::SBC, AddressingMode::Absolute) => Some(0xEDu8),
        (Opcode::INC, AddressingMode::Absolute) => Some(0xEEu8),
        (Opcode::BEQ, AddressingMode::Relative) => Some(0xF0u8),
        (Opcode::SBC, AddressingMode::IndirectY) => Some(0xF1u8),
        (Opcode::SBC, AddressingMode::ZeroPageX) => Some(0xF5u8),
        (Opcode::INC, AddressingMode::ZeroPageX) => Some(0xF6u8),
        (Opcode::SED, AddressingMode::Implied) => Some(0xF8u8),
        (Opcode::SBC, AddressingMode::AbsoluteY) => Some(0xF9u8),
        (Opcode::SBC, AddressingMode::AbsoluteX) => Some(0xFDu8),
        (Opcode::INC, AddressingMode::AbsoluteX) => Some(0xFEu8),
        _ => None,
    }
}

/// Decoding is injective on the supported subset: re-encoding the mnemonic
/// and mode of any decoded table row yields the opcode byte it came from.
#[verifier::rlimit(100)]
pub proof fn lemma_decode_encode(value: u8)
    ensures
        spec_decode(value).opcode != Opcode::UnknownOperation ==> spec_encode(
            spec_decode(value).opcode,
            spec_decode(value).addr_mode,
        ) == Some(value),
{
    reveal(spec_decode);
}

/// Base cycle counts in the table lie between 2 and 7 for every supported
/// opcode; the sentinel row carries 0.
#[verifier::rlimit(60)]
pub proof fn lemma_decode_cycles(value: u8)
    ensures
        spec_decode(value).cycles <= 7,
        spec_decode(value).opcode != Opcode::UnknownOperation ==> spec_decode(value).cycles >= 2,
{
    reveal(spec_decode);
}

/// The eight conditional branch mnemonics.
pub open spec fn spec_is_branch(opcode: Opcode) -> bool {
    ||| opcode == Opcode::BCC
    ||| opcode == Opcode::BCS
    ||| opcode == Opcode::BEQ
    ||| opcode == Opcode::BNE
    ||| opcode == Opcode::BMI
    ||| opcode == Opcode::BPL
    ||| opcode == Opcode::BVC
    ||| opcode == Opcode::BVS
}

/// How many operand bytes follow the opcode byte under each addressing mode.
pub open spec fn spec_operand_len(addr_mode: AddressingMode) -> int {
    match addr_mode {
        AddressingMode::Implied => 0,
        AddressingMode::Immediate => 1,
        AddressingMode::ZeroPage => 1,
        AddressingMode::ZeroPageX => 1,
        AddressingMode::ZeroPageY => 1,
        AddressingMode::Relative => 1,
        AddressingMode::IndirectX => 1,
        AddressingMode::IndirectY => 1,
        AddressingMode::Absolute => 2,
        AddressingMode::AbsoluteX => 2,
        AddressingMode::AbsoluteY => 2,
        AddressingMode::Indirect => 2,
    }
}

/// How many operand bytes follow the opcode byte, as executable code.
pub fn operand_count(addr_mode: AddressingMode) -> (r: usize)
    ensures
        r == spec_operand_len(addr_mode),
{
    match addr_mode {
        AddressingMode::Implied => 0,
        AddressingMode::Immediate => 1,
        AddressingMode::ZeroPage => 1,
        AddressingMode::ZeroPageX => 1,
        AddressingMode::ZeroPageY => 1,
        AddressingMode::Relative => 1,
        AddressingMode::IndirectX => 1,
        AddressingMode::IndirectY => 1,
        AddressingMode::Absolute => 2,
        AddressingMode::AbsoluteX => 2,
        AddressingMode::AbsoluteY => 2,
        AddressingMode::Indirect => 2,
    }
}

} // verus!
