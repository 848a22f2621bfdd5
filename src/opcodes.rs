//! The 6502 instruction set: mnemonics, addressing modes and the table of the
//! 151 documented opcodes, shared by the interpreter and the assembler.
use vstd::prelude::*;

verus! {

/// A 6502 mnemonic.
#[derive(Clone, Copy, PartialEq, Eq, Structural, Debug)]
pub enum Instruction {
    ADC,
    AND,
    ASL,
    BCC,
    BCS,
    BEQ,
    BIT,
    BMI,
    BNE,
    BPL,
    BRK,
    BVC,
    BVS,
    CLC,
    CLD,
    CLI,
    CLV,
    CMP,
    CPX,
    CPY,
    DEC,
    DEX,
    DEY,
    EOR,
    INC,
    INX,
    INY,
    JMP,
    JSR,
    LDA,
    LDX,
    LDY,
    LSR,
    NOP,
    ORA,
    PHA,
    PHP,
    PLA,
    PLP,
    ROL,
    ROR,
    RTI,
    RTS,
    SBC,
    SEC,
    SED,
    SEI,
    STA,
    STX,
    STY,
    TAX,
    TAY,
    TSX,
    TXA,
    TXS,
    TYA,
}

/// An addressing mode as written in assembly; the accumulator form of the shifts
/// is written `IMP`.
#[derive(Clone, Copy, PartialEq, Eq, Structural, Debug)]
pub enum AddrMode {
    IMP,
    IMM,
    ZP,
    ZPX,
    ZPY,
    REL,
    ABS,
    ABSX,
    ABSY,
    IND,
    INDX,
    INDY,
}

/// The instruction and addressing mode that a documented opcode encodes.
pub open spec fn opcode_info(opcode: u8) -> Option<(Instruction, AddrMode)> {
    match opcode {
        0x69u8 => Some((Instruction::ADC, AddrMode::IMM)),
        0x65u8 => Some((Instruction::ADC, AddrMode::ZP)),
        0x75u8 => Some((Instruction::ADC, AddrMode::ZPX)),
        0x6Du8 => Some((Instruction::ADC, AddrMode::ABS)),
        0x7Du8 => Some((Instruction::ADC, AddrMode::ABSX)),
        0x79u8 => Some((Instruction::ADC, AddrMode::ABSY)),
        0x61u8 => Some((Instruction::ADC, AddrMode::INDX)),
        0x71u8 => Some((Instruction::ADC, AddrMode::INDY)),
        0x29u8 => Some((Instruction::AND, AddrMode::IMM)),
        0x25u8 => Some((Instruction::AND, AddrMode::ZP)),
        0x35u8 => Some((Instruction::AND, AddrMode::ZPX)),
        0x2Du8 => Some((Instruction::AND, AddrMode::ABS)),
        0x3Du8 => Some((Instruction::AND, AddrMode::ABSX)),
        0x39u8 => Some((Instruction::AND, AddrMode::ABSY)),
        0x21u8 => Some((Instruction::AND, AddrMode::INDX)),
        0x31u8 => Some((Instruction::AND, AddrMode::INDY)),
        0x0Au8 => Some((Instruction::ASL, AddrMode::IMP)),
        0x06u8 => Some((Instruction::ASL, AddrMode::ZP)),
        0x16u8 => Some((Instruction::ASL, AddrMode::ZPX)),
        0x0Eu8 => Some((Instruction::ASL, AddrMode::ABS)),
        0x1Eu8 => Some((Instruction::ASL, AddrMode::ABSX)),
        0x90u8 => Some((Instruction::BCC, AddrMode::REL)),
        0xB0u8 => Some((Instruction::BCS, AddrMode::REL)),
        0xF0u8 => Some((Instruction::BEQ, AddrMode::REL)),
        0x24u8 => Some((Instruction::BIT, AddrMode::ZP)),
        0x2Cu8 => Some((Instruction::BIT, AddrMode::ABS)),
        0x30u8 => Some((Instruction::BMI, AddrMode::REL)),
        0xD0u8 => Some((Instruction::BNE, AddrMode::REL)),
        0x10u8 => Some((Instruction::BPL, AddrMode::REL)),
        0x00u8 => Some((Instruction::BRK, AddrMode::IMP)),
        0x50u8 => Some((Instruction::BVC, AddrMode::REL)),
        0x70u8 => Some((Instruction::BVS, AddrMode::REL)),
        0x18u8 => Some((Instruction::CLC, AddrMode::IMP)),
        0xD8u8 => Some((Instruction::CLD, AddrMode::IMP)),
        0x58u8 => Some((Instruction::CLI, AddrMode::IMP)),
        0xB8u8 => Some((Instruction::CLV, AddrMode::IMP)),
        0xC9u8 => Some((Instruction::CMP, AddrMode::IMM)),
        0xC5u8 => Some((Instruction::CMP, AddrMode::ZP)),
        0xD5u8 => Some((Instruction::CMP, AddrMode::ZPX)),
        0xCDu8 => Some((Instruction::CMP, AddrMode::ABS)),
        0xDDu8 => Some((Instruction::CMP, AddrMode::ABSX)),
        0xD9u8 => Some((Instruction::CMP, AddrMode::ABSY)),
        0xC1u8 => Some((Instruction::CMP, AddrMode::INDX)),
        0xD1u8 => Some((Instruction::CMP, AddrMode::INDY)),
        0xE0u8 => Some((Instruction::CPX, AddrMode::IMM)),
        0xE4u8 => Some((Instruction::CPX, AddrMode::ZP)),
        0xECu8 => Some((Instruction::CPX, AddrMode::ABS)),
        0xC0u8 => Some((Instruction::CPY, AddrMode::IMM)),
        0xC4u8 => Some((Instruction::CPY, AddrMode::ZP)),
        0xCCu8 => Some((Instruction::CPY, AddrMode::ABS)),
        0xC6u8 => Some((Instruction::DEC, AddrMode::ZP)),
        0xD6u8 => Some((Instruction::DEC, AddrMode::ZPX)),
        0xCEu8 => Some((Instruction::DEC, AddrMode::ABS)),
        0xDEu8 => Some((Instruction::DEC, AddrMode::ABSX)),
        0xCAu8 => Some((Instruction::DEX, AddrMode::IMP)),
        0x88u8 => Some((Instruction::DEY, AddrMode::IMP)),
        0x49u8 => Some((Instruction::EOR, AddrMode::IMM)),
        0x45u8 => Some((Instruction::EOR, AddrMode::ZP)),
        0x55u8 => Some((Instruction::EOR, AddrMode::ZPX)),
        0x4Du8 => Some((Instruction::EOR, AddrMode::ABS)),
        0x5Du8 => Some((Instruction::EOR, AddrMode::ABSX)),
        0x59u8 => Some((Instruction::EOR, AddrMode::ABSY)),
        0x41u8 => Some((Instruction::EOR, AddrMode::INDX)),
        0x51u8 => Some((Instruction::EOR, AddrMode::INDY)),
        0xE6u8 => Some((Instruction::INC, AddrMode::ZP)),
        0xF6u8 => Some((Instruction::INC, AddrMode::ZPX)),
        0xEEu8 => Some((Instruction::INC, AddrMode::ABS)),
        0xFEu8 => Some((Instruction::INC, AddrMode::ABSX)),
        0xE8u8 => Some((Instruction::INX, AddrMode::IMP)),
        0xC8u8 => Some((Instruction::INY, AddrMode::IMP)),
        0x4Cu8 => Some((Instruction::JMP, AddrMode::ABS)),
        0x6Cu8 => Some((Instruction::JMP, AddrMode::IND)),
        0x20u8 => Some((Instruction::JSR, AddrMode::ABS)),
        0xA9u8 => Some((Instruction::LDA, AddrMode::IMM)),
        0xA5u8 => Some((Instruction::LDA, AddrMode::ZP)),
        0xB5u8 => Some((Instruction::LDA, AddrMode::ZPX)),
        0xADu8 => Some((Instruction::LDA, AddrMode::ABS)),
        0xBDu8 => Some((Instruction::LDA, AddrMode::ABSX)),
        0xB9u8 => Some((Instruction::LDA, AddrMode::ABSY)),
        0xA1u8 => Some((Instruction::LDA, AddrMode::INDX)),
        0xB1u8 => Some((Instruction::LDA, AddrMode::INDY)),
        0xA2u8 => Some((Instruction::LDX, AddrMode::IMM)),
        0xA6u8 => Some((Instruction::LDX, AddrMode::ZP)),
        0xB6u8 => Some((Instruction::LDX, AddrMode::ZPY)),
        0xAEu8 => Some((Instruction::LDX, AddrMode::ABS)),
        0xBEu8 => Some((Instruction::LDX, AddrMode::ABSY)),
        0xA0u8 => Some((Instruction::LDY, AddrMode::IMM)),
        0xA4u8 => Some((Instruction::LDY, AddrMode::ZP)),
        0xB4u8 => Some((Instruction::LDY, AddrMode::ZPX)),
        0xACu8 => Some((Instruction::LDY, AddrMode::ABS)),
        0xBCu8 => Some((Instruction::LDY, AddrMode::ABSX)),
        0x4Au8 => Some((Instruction::LSR, AddrMode::IMP)),
        0x46u8 => Some((Instruction::LSR, AddrMode::ZP)),
        0x56u8 => Some((Instruction::LSR, AddrMode::ZPX)),
        0x4Eu8 => Some((Instruction::LSR, AddrMode::ABS)),
        0x5Eu8 => Some((Instruction::LSR, AddrMode::ABSX)),
        0xEAu8 => Some((Instruction::NOP, AddrMode::IMP)),
        0x09u8 => Some((Instruction::ORA, AddrMode::IMM)),
        0x05u8 => Some((Instruction::ORA, AddrMode::ZP)),
        0x15u8 => Some((Instruction::ORA, AddrMode::ZPX)),
        0x0Du8 => Some((Instruction::ORA, AddrMode::ABS)),
        0x1Du8 => Some((Instruction::ORA, AddrMode::ABSX)),
        0x19u8 => Some((Instruction::ORA, AddrMode::ABSY)),
        0x01u8 => Some((Instruction::ORA, AddrMode::INDX)),
        0x11u8 => Some((Instruction::ORA, AddrMode::INDY)),
        0x48u8 => Some((Instruction::PHA, AddrMode::IMP)),
        0x08u8 => Some((Instruction::PHP, AddrMode::IMP)),
        0x68u8 => Some((Instruction::PLA, AddrMode::IMP)),
        0x28u8 => Some((Instruction::PLP, AddrMode::IMP)),
        0x2Au8 => Some((Instruction::ROL, AddrMode::IMP)),
        0x26u8 => Some((Instruction::ROL, AddrMode::ZP)),
        0x36u8 => Some((Instruction::ROL, AddrMode::ZPX)),
        0x2Eu8 => Some((Instruction::ROL, AddrMode::ABS)),
        0x3Eu8 => Some((Instruction::ROL, AddrMode::ABSX)),
        0x6Au8 => Some((Instruction::ROR, AddrMode::IMP)),
        0x66u8 => Some((Instruction::ROR, AddrMode::ZP)),
        0x76u8 => Some((Instruction::ROR, AddrMode::ZPX)),
        0x6Eu8 => Some((Instruction::ROR, AddrMode::ABS)),
        0x7Eu8 => Some((Instruction::ROR, AddrMode::ABSX)),
        0x40u8 => Some((Instruction::RTI, AddrMode::IMP)),
        0x60u8 => Some((Instruction::RTS, AddrMode::IMP)),
        0xE9u8 => Some((Instruction::SBC, AddrMode::IMM)),
        0xE5u8 => Some((Instruction::SBC, AddrMode::ZP)),
        0xF5u8 => Some((Instruction::SBC, AddrMode::ZPX)),
        0xEDu8 => Some((Instruction::SBC, AddrMode::ABS)),
        0xFDu8 => Some((Instruction::SBC, AddrMode::ABSX)),
        0xF9u8 => Some((Instruction::SBC, AddrMode::ABSY)),
        0xE1u8 => Some((Instruction::SBC, AddrMode::INDX)),
        0xF1u8 => Some((Instruction::SBC, AddrMode::INDY)),
        0x38u8 => Some((Instruction::SEC, AddrMode::IMP)),
        0xF8u8 => Some((Instruction::SED, AddrMode::IMP)),
        0x78u8 => Some((Instruction::SEI, AddrMode::IMP)),
        0x85u8 => Some((Instruction::STA, AddrMode::ZP)),
        0x95u8 => Some((Instruction::STA, AddrMode::ZPX)),
        0x8Du8 => Some((Instruction::STA, AddrMode::ABS)),
        0x9Du8 => Some((Instruction::STA, AddrMode::ABSX)),
        0x99u8 => Some((Instruction::STA, AddrMode::ABSY)),
        0x81u8 => Some((Instruction::STA, AddrMode::INDX)),
        0x91u8 => Some((Instruction::STA, AddrMode::INDY)),
        0x86u8 => Some((Instruction::STX, AddrMode::ZP)),
        0x96u8 => Some((Instruction::STX, AddrMode::ZPY)),
        0x8Eu8 => Some((Instruction::STX, AddrMode::ABS)),
        0x84u8 => Some((Instruction::STY, AddrMode::ZP)),
        0x94u8 => Some((Instruction::STY, AddrMode::ZPX)),
        0x8Cu8 => Some((Instruction::STY, AddrMode::ABS)),
        0xAAu8 => Some((Instruction::TAX, AddrMode::IMP)),
        0xA8u8 => Some((Instruction::TAY, AddrMode::IMP)),
        0xBAu8 => Some((Instruction::TSX, AddrMode::IMP)),
        0x8Au8 => Some((Instruction::TXA, AddrMode::IMP)),
        0x9Au8 => Some((Instruction::TXS, AddrMode::IMP)),
        0x98u8 => Some((Instruction::TYA, AddrMode::IMP)),
        _ => None,
    }
}

/// Decodes an opcode byte; `None` for an opcode outside the documented set.
pub fn decode(opcode: u8) -> (r: Option<(Instruction, AddrMode)>)
    ensures
        r == opcode_info(opcode),
{
    match opcode {
        0x69 => Some((Instruction::ADC, AddrMode::IMM)),
        0x65 => Some((Instruction::ADC, AddrMode::ZP)),
        0x75 => Some((Instruction::ADC, AddrMode::ZPX)),
        0x6D => Some((Instruction::ADC, AddrMode::ABS)),
        0x7D => Some((Instruction::ADC, AddrMode::ABSX)),
        0x79 => Some((Instruction::ADC, AddrMode::ABSY)),
        0x61 => Some((Instruction::ADC, AddrMode::INDX)),
        0x71 => Some((Instruction::ADC, AddrMode::INDY)),
        0x29 => Some((Instruction::AND, AddrMode::IMM)),
        0x25 => Some((Instruction::AND, AddrMode::ZP)),
        0x35 => Some((Instruction::AND, AddrMode::ZPX)),
        0x2D => Some((Instruction::AND, AddrMode::ABS)),
        0x3D => Some((Instruction::AND, AddrMode::ABSX)),
        0x39 => Some((Instruction::AND, AddrMode::ABSY)),
        0x21 => Some((Instruction::AND, AddrMode::INDX)),
        0x31 => Some((Instruction::AND, AddrMode::INDY)),
        0x0A => Some((Instruction::ASL, AddrMode::IMP)),
        0x06 => Some((Instruction::ASL, AddrMode::ZP)),
        0x16 => Some((Instruction::ASL, AddrMode::ZPX)),
        0x0E => Some((Instruction::ASL, AddrMode::ABS)),
        0x1E => Some((Instruction::ASL, AddrMode::ABSX)),
        0x90 => Some((Instruction::BCC, AddrMode::REL)),
        0xB0 => Some((Instruction::BCS, AddrMode::REL)),
        0xF0 => Some((Instruction::BEQ, AddrMode::REL)),
        0x24 => Some((Instruction::BIT, AddrMode::ZP)),
        0x2C => Some((Instruction::BIT, AddrMode::ABS)),
        0x30 => Some((Instruction::BMI, AddrMode::REL)),
        0xD0 => Some((Instruction::BNE, AddrMode::REL)),
        0x10 => Some((Instruction::BPL, AddrMode::REL)),
        0x00 => Some((Instruction::BRK, AddrMode::IMP)),
        0x50 => Some((Instruction::BVC, AddrMode::REL)),
        0x70 => Some((Instruction::BVS, AddrMode::REL)),
        0x18 => Some((Instruction::CLC, AddrMode::IMP)),
        0xD8 => Some((Instruction::CLD, AddrMode::IMP)),
        0x58 => Some((Instruction::CLI, AddrMode::IMP)),
        0xB8 => Some((Instruction::CLV, AddrMode::IMP)),
        0xC9 => Some((Instruction::CMP, AddrMode::IMM)),
        0xC5 => Some((Instruction::CMP, AddrMode::ZP)),
        0xD5 => Some((Instruction::CMP, AddrMode::ZPX)),
        0xCD => Some((Instruction::CMP, AddrMode::ABS)),
        0xDD => Some((Instruction::CMP, AddrMode::ABSX)),
        0xD9 => Some((Instruction::CMP, AddrMode::ABSY)),
        0xC1 => Some((Instruction::CMP, AddrMode::INDX)),
        0xD1 => Some((Instruction::CMP, AddrMode::INDY)),
        0xE0 => Some((Instruction::CPX, AddrMode::IMM)),
        0xE4 => Some((Instruction::CPX, AddrMode::ZP)),
        0xEC => Some((Instruction::CPX, AddrMode::ABS)),
        0xC0 => Some((Instruction::CPY, AddrMode::IMM)),
        0xC4 => Some((Instruction::CPY, AddrMode::ZP)),
        0xCC => Some((Instruction::CPY, AddrMode::ABS)),
        0xC6 => Some((Instruction::DEC, AddrMode::ZP)),
        0xD6 => Some((Instruction::DEC, AddrMode::ZPX)),
        0xCE => Some((Instruction::DEC, AddrMode::ABS)),
        0xDE => Some((Instruction::DEC, AddrMode::ABSX)),
        0xCA => Some((Instruction::DEX, AddrMode::IMP)),
        0x88 => Some((Instruction::DEY, AddrMode::IMP)),
        0x49 => Some((Instruction::EOR, AddrMode::IMM)),
        0x45 => Some((Instruction::EOR, AddrMode::ZP)),
        0x55 => Some((Instruction::EOR, AddrMode::ZPX)),
        0x4D => Some((Instruction::EOR, AddrMode::ABS)),
        0x5D => Some((Instruction::EOR, AddrMode::ABSX)),
        0x59 => Some((Instruction::EOR, AddrMode::ABSY)),
        0x41 => Some((Instruction::EOR, AddrMode::INDX)),
        0x51 => Some((Instruction::EOR, AddrMode::INDY)),
        0xE6 => Some((Instruction::INC, AddrMode::ZP)),
        0xF6 => Some((Instruction::INC, AddrMode::ZPX)),
        0xEE => Some((Instruction::INC, AddrMode::ABS)),
        0xFE => Some((Instruction::INC, AddrMode::ABSX)),
        0xE8 => Some((Instruction::INX, AddrMode::IMP)),
        0xC8 => Some((Instruction::INY, AddrMode::IMP)),
        0x4C => Some((Instruction::JMP, AddrMode::ABS)),
        0x6C => Some((Instruction::JMP, AddrMode::IND)),
        0x20 => Some((Instruction::JSR, AddrMode::ABS)),
        0xA9 => Some((Instruction::LDA, AddrMode::IMM)),
        0xA5 => Some((Instruction::LDA, AddrMode::ZP)),
        0xB5 => Some((Instruction::LDA, AddrMode::ZPX)),
        0xAD => Some((Instruction::LDA, AddrMode::ABS)),
        0xBD => Some((Instruction::LDA, AddrMode::ABSX)),
        0xB9 => Some((Instruction::LDA, AddrMode::ABSY)),
        0xA1 => Some((Instruction::LDA, AddrMode::INDX)),
        0xB1 => Some((Instruction::LDA, AddrMode::INDY)),
        0xA2 => Some((Instruction::LDX, AddrMode::IMM)),
        0xA6 => Some((Instruction::LDX, AddrMode::ZP)),
        0xB6 => Some((Instruction::LDX, AddrMode::ZPY)),
        0xAE => Some((Instruction::LDX, AddrMode::ABS)),
        0xBE => Some((Instruction::LDX, AddrMode::ABSY)),
        0xA0 => Some((Instruction::LDY, AddrMode::IMM)),
        0xA4 => Some((Instruction::LDY, AddrMode::ZP)),
        0xB4 => Some((Instruction::LDY, AddrMode::ZPX)),
        0xAC => Some((Instruction::LDY, AddrMode::ABS)),
        0xBC => Some((Instruction::LDY, AddrMode::ABSX)),
        0x4A => Some((Instruction::LSR, AddrMode::IMP)),
        0x46 => Some((Instruction::LSR, AddrMode::ZP)),
        0x56 => Some((Instruction::LSR, AddrMode::ZPX)),
        0x4E => Some((Instruction::LSR, AddrMode::ABS)),
        0x5E => Some((Instruction::LSR, AddrMode::ABSX)),
        0xEA => Some((Instruction::NOP, AddrMode::IMP)),
        0x09 => Some((Instruction::ORA, AddrMode::IMM)),
        0x05 => Some((Instruction::ORA, AddrMode::ZP)),
        0x15 => Some((Instruction::ORA, AddrMode::ZPX)),
        0x0D => Some((Instruction::ORA, AddrMode::ABS)),
        0x1D => Some((Instruction::ORA, AddrMode::ABSX)),
        0x19 => Some((Instruction::ORA, AddrMode::ABSY)),
        0x01 => Some((Instruction::ORA, AddrMode::INDX)),
        0x11 => Some((Instruction::ORA, AddrMode::INDY)),
        0x48 => Some((Instruction::PHA, AddrMode::IMP)),
        0x08 => Some((Instruction::PHP, AddrMode::IMP)),
        0x68 => Some((Instruction::PLA, AddrMode::IMP)),
        0x28 => Some((Instruction::PLP, AddrMode::IMP)),
        0x2A => Some((Instruction::ROL, AddrMode::IMP)),
        0x26 => Some((Instruction::ROL, AddrMode::ZP)),
        0x36 => Some((Instruction::ROL, AddrMode::ZPX)),
        0x2E => Some((Instruction::ROL, AddrMode::ABS)),
        0x3E => Some((Instruction::ROL, AddrMode::ABSX)),
        0x6A => Some((Instruction::ROR, AddrMode::IMP)),
        0x66 => Some((Instruction::ROR, AddrMode::ZP)),
        0x76 => Some((Instruction::ROR, AddrMode::ZPX)),
        0x6E => Some((Instruction::ROR, AddrMode::ABS)),
        0x7E => Some((Instruction::ROR, AddrMode::ABSX)),
        0x40 => Some((Instruction::RTI, AddrMode::IMP)),
        0x60 => Some((Instruction::RTS, AddrMode::IMP)),
        0xE9 => Some((Instruction::SBC, AddrMode::IMM)),
        0xE5 => Some((Instruction::SBC, AddrMode::ZP)),
        0xF5 => Some((Instruction::SBC, AddrMode::ZPX)),
        0xED => Some((Instruction::SBC, AddrMode::ABS)),
        0xFD => Some((Instruction::SBC, AddrMode::ABSX)),
        0xF9 => Some((Instruction::SBC, AddrMode::ABSY)),
        0xE1 => Some((Instruction::SBC, AddrMode::INDX)),
        0xF1 => Some((Instruction::SBC, AddrMode::INDY)),
        0x38 => Some((Instruction::SEC, AddrMode::IMP)),
        0xF8 => Some((Instruction::SED, AddrMode::IMP)),
        0x78 => Some((Instruction::SEI, AddrMode::IMP)),
        0x85 => Some((Instruction::STA, AddrMode::ZP)),
        0x95 => Some((Instruction::STA, AddrMode::ZPX)),
        0x8D => Some((Instruction::STA, AddrMode::ABS)),
        0x9D => Some((Instruction::STA, AddrMode::ABSX)),
        0x99 => Some((Instruction::STA, AddrMode::ABSY)),
        0x81 => Some((Instruction::STA, AddrMode::INDX)),
        0x91 => Some((Instruction::STA, AddrMode::INDY)),
        0x86 => Some((Instruction::STX, AddrMode::ZP)),
        0x96 => Some((Instruction::STX, AddrMode::ZPY)),
        0x8E => Some((Instruction::STX, AddrMode::ABS)),
        0x84 => Some((Instruction::STY, AddrMode::ZP)),
        0x94 => Some((Instruction::STY, AddrMode::ZPX)),
        0x8C => Some((Instruction::STY, AddrMode::ABS)),
        0xAA => Some((Instruction::TAX, AddrMode::IMP)),
        0xA8 => Some((Instruction::TAY, AddrMode::IMP)),
        0xBA => Some((Instruction::TSX, AddrMode::IMP)),
        0x8A => Some((Instruction::TXA, AddrMode::IMP)),
        0x9A => Some((Instruction::TXS, AddrMode::IMP)),
        0x98 => Some((Instruction::TYA, AddrMode::IMP)),
        _ => None,
    }
}

} // verus!
