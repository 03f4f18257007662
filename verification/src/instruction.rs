use vstd::prelude::*;

use crate::errors::EmuError;

verus! {

/// The 56 documented 6502 operations.
#[derive(Clone, Copy, Debug, PartialEq, Eq, Structural)]
pub enum Opcode {
    ADC,
    AND,
    ASL,
    BCC,
    BCS,
    BEQ,
    BIT,
    BMI,
    BNE,
    BPL,
    BRK,
    BVC,
    BVS,
    CLC,
    CLD,
    CLI,
    CLV,
    CMP,
    CPX,
    CPY,
    DEC,
    DEX,
    DEY,
    EOR,
    INC,
    INX,
    INY,
    JMP,
    JSR,
    LDA,
    LDX,
    LDY,
    LSR,
    NOP,
    ORA,
    PHA,
    PHP,
    PLA,
    PLP,
    ROL,
    ROR,
    RTI,
    RTS,
    SBC,
    SEC,
    SED,
    SEI,
    STA,
    STX,
    STY,
    TAX,
    TAY,
    TSX,
    TXA,
    TXS,
    TYA,
}

/// The rule for locating an instruction's operand.
#[derive(Clone, Copy, Debug, PartialEq, Eq, Structural)]
pub enum AddrMode {
    /// No operand at all.
    IMP,
    /// The operand is the accumulator.
    ACC,
    /// The operand is the byte following the opcode.
    IMM,
    /// One byte, zero-extended to an address in page zero.
    ZP,
    /// Zero page plus X, wrapping within page zero.
    ZPX,
    /// Zero page plus Y, wrapping within page zero.
    ZPY,
    /// One signed offset byte, consumed but applied only by branches.
    REL,
    /// Two bytes, little-endian, forming the full address.
    ABS,
    /// Absolute plus X, wrapping at 16 bits.
    ABX,
    /// Absolute plus Y, wrapping at 16 bits.
    ABY,
    /// A 16-bit pointer dereferenced little-endian, with the documented
    /// page-boundary quirk when its low byte is 0xFF.
    IND,
    /// A zero-page pointer at (byte + X) mod 256, dereferenced 16-bit.
    IDX,
    /// A zero-page pointer at byte, dereferenced 16-bit, then plus Y.
    IDY,
}

/// An immutable decoded instruction: operation, addressing mode and the
/// base cycle count of the standard 6502 cycle table. The cycle count is
/// informative metadata for a future timing model; nothing consumes it yet.
#[derive(Clone, Copy, Debug, PartialEq, Eq, Structural)]
pub struct Instruction(pub Opcode, pub AddrMode, pub u8);

/// The full mapping from opcode bytes to instructions: exhaustive over the
/// documented 6502 instruction set, `None` for every illegal byte.
pub open spec fn spec_decode(byte: u8) -> Option<Instruction> {
    match byte {
            0x69 => Some(Instruction(Opcode::ADC, AddrMode::IMM, 2)),
            0x65 => Some(Instruction(Opcode::ADC, AddrMode::ZP, 3)),
            0x75 => Some(Instruction(Opcode::ADC, AddrMode::ZPX, 4)),
            0x6D => Some(Instruction(Opcode::ADC, AddrMode::ABS, 4)),
            0x7D => Some(Instruction(Opcode::ADC, AddrMode::ABX, 4)),
            0x79 => Some(Instruction(Opcode::ADC, AddrMode::ABY, 4)),
            0x61 => Some(Instruction(Opcode::ADC, AddrMode::IDX, 6)),
            0x71 => Some(Instruction(Opcode::ADC, AddrMode::IDY, 5)),
            0x29 => Some(Instruction(Opcode::AND, AddrMode::IMM, 2)),
            0x25 => Some(Instruction(Opcode::AND, AddrMode::ZP, 3)),
            0x35 => Some(Instruction(Opcode::AND, AddrMode::ZPX, 4)),
            0x2D => Some(Instruction(Opcode::AND, AddrMode::ABS, 4)),
            0x3D => Some(Instruction(Opcode::AND, AddrMode::ABX, 4)),
            0x39 => Some(Instruction(Opcode::AND, AddrMode::ABY, 4)),
            0x21 => Some(Instruction(Opcode::AND, AddrMode::IDX, 6)),
            0x31 => Some(Instruction(Opcode::AND, AddrMode::IDY, 5)),
            0x0A => Some(Instruction(Opcode::ASL, AddrMode::ACC, 2)),
            0x06 => Some(Instruction(Opcode::ASL, AddrMode::ZP, 5)),
            0x16 => Some(Instruction(Opcode::ASL, AddrMode::ZPX, 6)),
            0x0E => Some(Instruction(Opcode::ASL, AddrMode::ABS, 6)),
            0x1E => Some(Instruction(Opcode::ASL, AddrMode::ABX, 7)),
            0x90 => Some(Instruction(Opcode::BCC, AddrMode::REL, 2)),
            0xB0 => Some(Instruction(Opcode::BCS, AddrMode::REL, 2)),
            0xF0 => Some(Instruction(Opcode::BEQ, AddrMode::REL, 2)),
            0x30 => Some(Instruction(Opcode::BMI, AddrMode::REL, 2)),
            0xD0 => Some(Instruction(Opcode::BNE, AddrMode::REL, 2)),
            0x10 => Some(Instruction(Opcode::BPL, AddrMode::REL, 2)),
            0x50 => Some(Instruction(Opcode::BVC, AddrMode::REL, 2)),
            0x70 => Some(Instruction(Opcode::BVS, AddrMode::REL, 2)),
            0x24 => Some(Instruction(Opcode::BIT, AddrMode::ZP, 3)),
            0x2C => Some(Instruction(Opcode::BIT, AddrMode::ABS, 4)),
            0x00 => Some(Instruction(Opcode::BRK, AddrMode::IMP, 7)),
            0x18 => Some(Instruction(Opcode::CLC, AddrMode::IMP, 2)),
            0xD8 => Some(Instruction(Opcode::CLD, AddrMode::IMP, 2)),
            0x58 => Some(Instruction(Opcode::CLI, AddrMode::IMP, 2)),
            0xB8 => Some(Instruction(Opcode::CLV, AddrMode::IMP, 2)),
            0xC5 => Some(Instruction(Opcode::CMP, AddrMode::ZP, 3)),
            0xC9 => Some(Instruction(Opcode::CMP, AddrMode::IMM, 2)),
            0xD5 => Some(Instruction(Opcode::CMP, AddrMode::ZPX, 4)),
            0xCD => Some(Instruction(Opcode::CMP, AddrMode::ABS, 4)),
            0xDD => Some(Instruction(Opcode::CMP, AddrMode::ABX, 4)),
            0xD9 => Some(Instruction(Opcode::CMP, AddrMode::ABY, 4)),
            0xC1 => Some(Instruction(Opcode::CMP, AddrMode::IDX, 6)),
            0xD1 => Some(Instruction(Opcode::CMP, AddrMode::IDY, 5)),
            0xE0 => Some(Instruction(Opcode::CPX, AddrMode::IMM, 2)),
            0xE4 => Some(Instruction(Opcode::CPX, AddrMode::ZP, 3)),
            0xEC => Some(Instruction(Opcode::CPX, AddrMode::ABS, 4)),
            0xC0 => Some(Instruction(Opcode::CPY, AddrMode::IMM, 2)),
            0xC4 => Some(Instruction(Opcode::CPY, AddrMode::ZP, 3)),
            0xCC => Some(Instruction(Opcode::CPY, AddrMode::ABS, 4)),
            0xC6 => Some(Instruction(Opcode::DEC, AddrMode::ZP, 5)),
            0xD6 => Some(Instruction(Opcode::DEC, AddrMode::ZPX, 6)),
            0xCE => Some(Instruction(Opcode::DEC, AddrMode::ABS, 6)),
            0xDE => Some(Instruction(Opcode::DEC, AddrMode::ABX, 7)),
            0xCA => Some(Instruction(Opcode::DEX, AddrMode::IMP, 2)),
            0x88 => Some(Instruction(Opcode::DEY, AddrMode::IMP, 2)),
            0x49 => Some(Instruction(Opcode::EOR, AddrMode::IMM, 2)),
            0x45 => Some(Instruction(Opcode::EOR, AddrMode::ZP, 3)),
            0x55 => Some(Instruction(Opcode::EOR, AddrMode::ZPX, 4)),
            0x4D => Some(Instruction(Opcode::EOR, AddrMode::ABS, 4)),
            0x5D => Some(Instruction(Opcode::EOR, AddrMode::ABX, 4)),
            0x59 => Some(Instruction(Opcode::EOR, AddrMode::ABY, 4)),
            0x41 => Some(Instruction(Opcode::EOR, AddrMode::IDX, 6)),
            0x51 => Some(Instruction(Opcode::EOR, AddrMode::IDY, 5)),
            0xE6 => Some(Instruction(Opcode::INC, AddrMode::ZP, 5)),
            0xF6 => Some(Instruction(Opcode::INC, AddrMode::ZPX, 6)),
            0xEE => Some(Instruction(Opcode::INC, AddrMode::ABS, 6)),
            0xFE => Some(Instruction(Opcode::INC, AddrMode::ABX, 7)),
            0xE8 => Some(Instruction(Opcode::INX, AddrMode::IMP, 2)),
            0xC8 => Some(Instruction(Opcode::INY, AddrMode::IMP, 2)),
            0x4C => Some(Instruction(Opcode::JMP, AddrMode::ABS, 3)),
            0x6C => Some(Instruction(Opcode::JMP, AddrMode::IND, 5)),
            0x20 => Some(Instruction(Opcode::JSR, AddrMode::ABS, 6)),
            0xA9 => Some(Instruction(Opcode::LDA, AddrMode::IMM, 2)),
            0xA5 => Some(Instruction(Opcode::LDA, AddrMode::ZP, 3)),
            0xB5 => Some(Instruction(Opcode::LDA, AddrMode::ZPX, 4)),
            0xAD => Some(Instruction(Opcode::LDA, AddrMode::ABS, 4)),
            0xBD => Some(Instruction(Opcode::LDA, AddrMode::ABX, 4)),
            0xB9 => Some(Instruction(Opcode::LDA, AddrMode::ABY, 4)),
            0xA1 => Some(Instruction(Opcode::LDA, AddrMode::IDX, 6)),
            0xB1 => Some(Instruction(Opcode::LDA, AddrMode::IDY, 5)),
            0xA2 => Some(Instruction(Opcode::LDX, AddrMode::IMM, 2)),
            0xA6 => Some(Instruction(Opcode::LDX, AddrMode::ZP, 3)),
            0xB6 => Some(Instruction(Opcode::LDX, AddrMode::ZPY, 4)),
            0xAE => Some(Instruction(Opcode::LDX, AddrMode::ABS, 4)),
            0xBE => Some(Instruction(Opcode::LDX, AddrMode::ABY, 4)),
            0xA0 => Some(Instruction(Opcode::LDY, AddrMode::IMM, 2)),
            0xA4 => Some(Instruction(Opcode::LDY, AddrMode::ZP, 3)),
            0xB4 => Some(Instruction(Opcode::LDY, AddrMode::ZPX, 4)),
            0xAC => Some(Instruction(Opcode::LDY, AddrMode::ABS, 4)),
            0xBC => Some(Instruction(Opcode::LDY, AddrMode::ABX, 4)),
            0x4A => Some(Instruction(Opcode::LSR, AddrMode::ACC, 2)),
            0x46 => Some(Instruction(Opcode::LSR, AddrMode::ZP, 5)),
            0x56 => Some(Instruction(Opcode::LSR, AddrMode::ZPX, 6)),
            0x4E => Some(Instruction(Opcode::LSR, AddrMode::ABS, 6)),
            0x5E => Some(Instruction(Opcode::LSR, AddrMode::ABX, 7)),
            0xEA => Some(Instruction(Opcode::NOP, AddrMode::IMP, 2)),
            0x09 => Some(Instruction(Opcode::ORA, AddrMode::IMM, 2)),
            0x05 => Some(Instruction(Opcode::ORA, AddrMode::ZP, 3)),
            0x15 => Some(Instruction(Opcode::ORA, AddrMode::ZPX, 4)),
            0x0D => Some(Instruction(Opcode::ORA, AddrMode::ABS, 4)),
            0x1D => Some(Instruction(Opcode::ORA, AddrMode::ABX, 4)),
            0x19 => Some(Instruction(Opcode::ORA, AddrMode::ABY, 4)),
            0x01 => Some(Instruction(Opcode::ORA, AddrMode::IDX, 6)),
            0x11 => Some(Instruction(Opcode::ORA, AddrMode::IDY, 5)),
            0x48 => Some(Instruction(Opcode::PHA, AddrMode::IMP, 3)),
            0x08 => Some(Instruction(Opcode::PHP, AddrMode::IMP, 3)),
            0x68 => Some(Instruction(Opcode::PLA, AddrMode::IMP, 4)),
            0x28 => Some(Instruction(Opcode::PLP, AddrMode::IMP, 4)),
            0x2A => Some(Instruction(Opcode::ROL, AddrMode::ACC, 2)),
            0x26 => Some(Instruction(Opcode::ROL, AddrMode::ZP, 5)),
            0x36 => Some(Instruction(Opcode::ROL, AddrMode::ZPX, 6)),
            0x2E => Some(Instruction(Opcode::ROL, AddrMode::ABS, 6)),
            0x3E => Some(Instruction(Opcode::ROL, AddrMode::ABX, 7)),
            0x6A => Some(Instruction(Opcode::ROR, AddrMode::ACC, 2)),
            0x66 => Some(Instruction(Opcode::ROR, AddrMode::ZP, 5)),
            0x76 => Some(Instruction(Opcode::ROR, AddrMode::ZPX, 6)),
            0x6E => Some(Instruction(Opcode::ROR, AddrMode::ABS, 6)),
            0x7E => Some(Instruction(Opcode::ROR, AddrMode::ABX, 7)),
            0x40 => Some(Instruction(Opcode::RTI, AddrMode::IMP, 6)),
            0x60 => Some(Instruction(Opcode::RTS, AddrMode::IMP, 6)),
            0xE9 => Some(Instruction(Opcode::SBC, AddrMode::IMM, 2)),
            0xE5 => Some(Instruction(Opcode::SBC, AddrMode::ZP, 3)),
            0xF5 => Some(Instruction(Opcode::SBC, AddrMode::ZPX, 4)),
            0xED => Some(Instruction(Opcode::SBC, AddrMode::ABS, 4)),
            0xFD => Some(Instruction(Opcode::SBC, AddrMode::ABX, 4)),
            0xF9 => Some(Instruction(Opcode::SBC, AddrMode::ABY, 4)),
            0xE1 => Some(Instruction(Opcode::SBC, AddrMode::IDX, 6)),
            0xF1 => Some(Instruction(Opcode::SBC, AddrMode::IDY, 5)),
            0x38 => Some(Instruction(Opcode::SEC, AddrMode::IMP, 2)),
            0xF8 => Some(Instruction(Opcode::SED, AddrMode::IMP, 2)),
            0x78 => Some(Instruction(Opcode::SEI, AddrMode::IMP, 2)),
            0x85 => Some(Instruction(Opcode::STA, AddrMode::ZP, 3)),
            0x95 => Some(Instruction(Opcode::STA, AddrMode::ZPX, 4)),
            0x8D => Some(Instruction(Opcode::STA, AddrMode::ABS, 4)),
            0x9D => Some(Instruction(Opcode::STA, AddrMode::ABX, 5)),
            0x99 => Some(Instruction(Opcode::STA, AddrMode::ABY, 5)),
            0x81 => Some(Instruction(Opcode::STA, AddrMode::IDX, 6)),
            0x91 => Some(Instruction(Opcode::STA, AddrMode::IDY, 6)),
            0x86 => Some(Instruction(Opcode::STX, AddrMode::ZP, 3)),
            0x96 => Some(Instruction(Opcode::STX, AddrMode::ZPY, 4)),
            0x8E => Some(Instruction(Opcode::STX, AddrMode::ABS, 4)),
            0x84 => Some(Instruction(Opcode::STY, AddrMode::ZP, 3)),
            0x94 => Some(Instruction(Opcode::STY, AddrMode::ZPX, 4)),
            0x8C => Some(Instruction(Opcode::STY, AddrMode::ABS, 4)),
            0xAA => Some(Instruction(Opcode::TAX, AddrMode::IMP, 2)),
            0xA8 => Some(Instruction(Opcode::TAY, AddrMode::IMP, 2)),
            0xBA => Some(Instruction(Opcode::TSX, AddrMode::IMP, 2)),
            0x8A => Some(Instruction(Opcode::TXA, AddrMode::IMP, 2)),
            0x9A => Some(Instruction(Opcode::TXS, AddrMode::IMP, 2)),
            0x98 => Some(Instruction(Opcode::TYA, AddrMode::IMP, 2)),
            _ => None,
    }
}

impl Instruction {
    /// Decodes one opcode byte. Succeeds with the documented
    /// (operation, mode, cycles) triple exactly when the byte has a
    /// defined mapping; every other byte is reported as unsupported,
    /// never mapped to a default operation. Decoding is a pure function
    /// of the byte, so it is total and deterministic over the legal set.
    pub fn from_byte(byte: u8) -> (r: Result<Instruction, EmuError>)
        ensures
            (match spec_decode(byte) {
                Some(instr) => r == Ok::<Instruction, EmuError>(instr),
                None => r == Err::<Instruction, EmuError>(EmuError::UnsupportedOpcode(byte)),
            }),
    {
        match byte {
            0x69 => Ok(Instruction(Opcode::ADC, AddrMode::IMM, 2)),
            0x65 => Ok(Instruction(Opcode::ADC, AddrMode::ZP, 3)),
            0x75 => Ok(Instruction(Opcode::ADC, AddrMode::ZPX, 4)),
            0x6D => Ok(Instruction(Opcode::ADC, AddrMode::ABS, 4)),
            0x7D => Ok(Instruction(Opcode::ADC, AddrMode::ABX, 4)),
            0x79 => Ok(Instruction(Opcode::ADC, AddrMode::ABY, 4)),
            0x61 => Ok(Instruction(Opcode::ADC, AddrMode::IDX, 6)),
            0x71 => Ok(Instruction(Opcode::ADC, AddrMode::IDY, 5)),
            0x29 => Ok(Instruction(Opcode::AND, AddrMode::IMM, 2)),
            0x25 => Ok(Instruction(Opcode::AND, AddrMode::ZP, 3)),
            0x35 => Ok(Instruction(Opcode::AND, AddrMode::ZPX, 4)),
            0x2D => Ok(Instruction(Opcode::AND, AddrMode::ABS, 4)),
            0x3D => Ok(Instruction(Opcode::AND, AddrMode::ABX, 4)),
            0x39 => Ok(Instruction(Opcode::AND, AddrMode::ABY, 4)),
            0x21 => Ok(Instruction(Opcode::AND, AddrMode::IDX, 6)),
            0x31 => Ok(Instruction(Opcode::AND, AddrMode::IDY, 5)),
            0x0A => Ok(Instruction(Opcode::ASL, AddrMode::ACC, 2)),
            0x06 => Ok(Instruction(Opcode::ASL, AddrMode::ZP, 5)),
            0x16 => Ok(Instruction(Opcode::ASL, AddrMode::ZPX, 6)),
            0x0E => Ok(Instruction(Opcode::ASL, AddrMode::ABS, 6)),
            0x1E => Ok(Instruction(Opcode::ASL, AddrMode::ABX, 7)),
            0x90 => Ok(Instruction(Opcode::BCC, AddrMode::REL, 2)),
            0xB0 => Ok(Instruction(Opcode::BCS, AddrMode::REL, 2)),
            0xF0 => Ok(Instruction(Opcode::BEQ, AddrMode::REL, 2)),
            0x30 => Ok(Instruction(Opcode::BMI, AddrMode::REL, 2)),
            0xD0 => Ok(Instruction(Opcode::BNE, AddrMode::REL, 2)),
            0x10 => Ok(Instruction(Opcode::BPL, AddrMode::REL, 2)),
            0x50 => Ok(Instruction(Opcode::BVC, AddrMode::REL, 2)),
            0x70 => Ok(Instruction(Opcode::BVS, AddrMode::REL, 2)),
            0x24 => Ok(Instruction(Opcode::BIT, AddrMode::ZP, 3)),
            0x2C => Ok(Instruction(Opcode::BIT, AddrMode::ABS, 4)),
            0x00 => Ok(Instruction(Opcode::BRK, AddrMode::IMP, 7)),
            0x18 => Ok(Instruction(Opcode::CLC, AddrMode::IMP, 2)),
            0xD8 => Ok(Instruction(Opcode::CLD, AddrMode::IMP, 2)),
            0x58 => Ok(Instruction(Opcode::CLI, AddrMode::IMP, 2)),
            0xB8 => Ok(Instruction(Opcode::CLV, AddrMode::IMP, 2)),
            0xC5 => Ok(Instruction(Opcode::CMP, AddrMode::ZP, 3)),
            0xC9 => Ok(Instruction(Opcode::CMP, AddrMode::IMM, 2)),
            0xD5 => Ok(Instruction(Opcode::CMP, AddrMode::ZPX, 4)),
            0xCD => Ok(Instruction(Opcode::CMP, AddrMode::ABS, 4)),
            0xDD => Ok(Instruction(Opcode::CMP, AddrMode::ABX, 4)),
            0xD9 => Ok(Instruction(Opcode::CMP, AddrMode::ABY, 4)),
            0xC1 => Ok(Instruction(Opcode::CMP, AddrMode::IDX, 6)),
            0xD1 => Ok(Instruction(Opcode::CMP, AddrMode::IDY, 5)),
            0xE0 => Ok(Instruction(Opcode::CPX, AddrMode::IMM, 2)),
            0xE4 => Ok(Instruction(Opcode::CPX, AddrMode::ZP, 3)),
            0xEC => Ok(Instruction(Opcode::CPX, AddrMode::ABS, 4)),
            0xC0 => Ok(Instruction(Opcode::CPY, AddrMode::IMM, 2)),
            0xC4 => Ok(Instruction(Opcode::CPY, AddrMode::ZP, 3)),
            0xCC => Ok(Instruction(Opcode::CPY, AddrMode::ABS, 4)),
            0xC6 => Ok(Instruction(Opcode::DEC, AddrMode::ZP, 5)),
            0xD6 => Ok(Instruction(Opcode::DEC, AddrMode::ZPX, 6)),
            0xCE => Ok(Instruction(Opcode::DEC, AddrMode::ABS, 6)),
            0xDE => Ok(Instruction(Opcode::DEC, AddrMode::ABX, 7)),
            0xCA => Ok(Instruction(Opcode::DEX, AddrMode::IMP, 2)),
            0x88 => Ok(Instruction(Opcode::DEY, AddrMode::IMP, 2)),
            0x49 => Ok(Instruction(Opcode::EOR, AddrMode::IMM, 2)),
            0x45 => Ok(Instruction(Opcode::EOR, AddrMode::ZP, 3)),
            0x55 => Ok(Instruction(Opcode::EOR, AddrMode::ZPX, 4)),
            0x4D => Ok(Instruction(Opcode::EOR, AddrMode::ABS, 4)),
            0x5D => Ok(Instruction(Opcode::EOR, AddrMode::ABX, 4)),
            0x59 => Ok(Instruction(Opcode::EOR, AddrMode::ABY, 4)),
            0x41 => Ok(Instruction(Opcode::EOR, AddrMode::IDX, 6)),
            0x51 => Ok(Instruction(Opcode::EOR, AddrMode::IDY, 5)),
            0xE6 => Ok(Instruction(Opcode::INC, AddrMode::ZP, 5)),
            0xF6 => Ok(Instruction(Opcode::INC, AddrMode::ZPX, 6)),
            0xEE => Ok(Instruction(Opcode::INC, AddrMode::ABS, 6)),
            0xFE => Ok(Instruction(Opcode::INC, AddrMode::ABX, 7)),
            0xE8 => Ok(Instruction(Opcode::INX, AddrMode::IMP, 2)),
            0xC8 => Ok(Instruction(Opcode::INY, AddrMode::IMP, 2)),
            0x4C => Ok(Instruction(Opcode::JMP, AddrMode::ABS, 3)),
            0x6C => Ok(Instruction(Opcode::JMP, AddrMode::IND, 5)),
            0x20 => Ok(Instruction(Opcode::JSR, AddrMode::ABS, 6)),
            0xA9 => Ok(Instruction(Opcode::LDA, AddrMode::IMM, 2)),
            0xA5 => Ok(Instruction(Opcode::LDA, AddrMode::ZP, 3)),
            0xB5 => Ok(Instruction(Opcode::LDA, AddrMode::ZPX, 4)),
            0xAD => Ok(Instruction(Opcode::LDA, AddrMode::ABS, 4)),
            0xBD => Ok(Instruction(Opcode::LDA, AddrMode::ABX, 4)),
            0xB9 => Ok(Instruction(Opcode::LDA, AddrMode::ABY, 4)),
            0xA1 => Ok(Instruction(Opcode::LDA, AddrMode::IDX, 6)),
            0xB1 => Ok(Instruction(Opcode::LDA, AddrMode::IDY, 5)),
            0xA2 => Ok(Instruction(Opcode::LDX, AddrMode::IMM, 2)),
            0xA6 => Ok(Instruction(Opcode::LDX, AddrMode::ZP, 3)),
            0xB6 => Ok(Instruction(Opcode::LDX, AddrMode::ZPY, 4)),
            0xAE => Ok(Instruction(Opcode::LDX, AddrMode::ABS, 4)),
            0xBE => Ok(Instruction(Opcode::LDX, AddrMode::ABY, 4)),
            0xA0 => Ok(Instruction(Opcode::LDY, AddrMode::IMM, 2)),
            0xA4 => Ok(Instruction(Opcode::LDY, AddrMode::ZP, 3)),
            0xB4 => Ok(Instruction(Opcode::LDY, AddrMode::ZPX, 4)),
            0xAC => Ok(Instruction(Opcode::LDY, AddrMode::ABS, 4)),
            0xBC => Ok(Instruction(Opcode::LDY, AddrMode::ABX, 4)),
            0x4A => Ok(Instruction(Opcode::LSR, AddrMode::ACC, 2)),
            0x46 => Ok(Instruction(Opcode::LSR, AddrMode::ZP, 5)),
            0x56 => Ok(Instruction(Opcode::LSR, AddrMode::ZPX, 6)),
            0x4E => Ok(Instruction(Opcode::LSR, AddrMode::ABS, 6)),
            0x5E => Ok(Instruction(Opcode::LSR, AddrMode::ABX, 7)),
            0xEA => Ok(Instruction(Opcode::NOP, AddrMode::IMP, 2)),
            0x09 => Ok(Instruction(Opcode::ORA, AddrMode::IMM, 2)),
            0x05 => Ok(Instruction(Opcode::ORA, AddrMode::ZP, 3)),
            0x15 => Ok(Instruction(Opcode::ORA, AddrMode::ZPX, 4)),
            0x0D => Ok(Instruction(Opcode::ORA, AddrMode::ABS, 4)),
            0x1D => Ok(Instruction(Opcode::ORA, AddrMode::ABX, 4)),
            0x19 => Ok(Instruction(Opcode::ORA, AddrMode::ABY, 4)),
            0x01 => Ok(Instruction(Opcode::ORA, AddrMode::IDX, 6)),
            0x11 => Ok(Instruction(Opcode::ORA, AddrMode::IDY, 5)),
            0x48 => Ok(Instruction(Opcode::PHA, AddrMode::IMP, 3)),
            0x08 => Ok(Instruction(Opcode::PHP, AddrMode::IMP, 3)),
            0x68 => Ok(Instruction(Opcode::PLA, AddrMode::IMP, 4)),
            0x28 => Ok(Instruction(Opcode::PLP, AddrMode::IMP, 4)),
            0x2A => Ok(Instruction(Opcode::ROL, AddrMode::ACC, 2)),
            0x26 => Ok(Instruction(Opcode::ROL, AddrMode::ZP, 5)),
            0x36 => Ok(Instruction(Opcode::ROL, AddrMode::ZPX, 6)),
            0x2E => Ok(Instruction(Opcode::ROL, AddrMode::ABS, 6)),
            0x3E => Ok(Instruction(Opcode::ROL, AddrMode::ABX, 7)),
            0x6A => Ok(Instruction(Opcode::ROR, AddrMode::ACC, 2)),
            0x66 => Ok(Instruction(Opcode::ROR, AddrMode::ZP, 5)),
            0x76 => Ok(Instruction(Opcode::ROR, AddrMode::ZPX, 6)),
            0x6E => Ok(Instruction(Opcode::ROR, AddrMode::ABS, 6)),
            0x7E => Ok(Instruction(Opcode::ROR, AddrMode::ABX, 7)),
            0x40 => Ok(Instruction(Opcode::RTI, AddrMode::IMP, 6)),
            0x60 => Ok(Instruction(Opcode::RTS, AddrMode::IMP, 6)),
            0xE9 => Ok(Instruction(Opcode::SBC, AddrMode::IMM, 2)),
            0xE5 => Ok(Instruction(Opcode::SBC, AddrMode::ZP, 3)),
            0xF5 => Ok(Instruction(Opcode::SBC, AddrMode::ZPX, 4)),
            0xED => Ok(Instruction(Opcode::SBC, AddrMode::ABS, 4)),
            0xFD => Ok(Instruction(Opcode::SBC, AddrMode::ABX, 4)),
            0xF9 => Ok(Instruction(Opcode::SBC, AddrMode::ABY, 4)),
            0xE1 => Ok(Instruction(Opcode::SBC, AddrMode::IDX, 6)),
            0xF1 => Ok(Instruction(Opcode::SBC, AddrMode::IDY, 5)),
            0x38 => Ok(Instruction(Opcode::SEC, AddrMode::IMP, 2)),
            0xF8 => Ok(Instruction(Opcode::SED, AddrMode::IMP, 2)),
            0x78 => Ok(Instruction(Opcode::SEI, AddrMode::IMP, 2)),
            0x85 => Ok(Instruction(Opcode::STA, AddrMode::ZP, 3)),
            0x95 => Ok(Instruction(Opcode::STA, AddrMode::ZPX, 4)),
            0x8D => Ok(Instruction(Opcode::STA, AddrMode::ABS, 4)),
            0x9D => Ok(Instruction(Opcode::STA, AddrMode::ABX, 5)),
            0x99 => Ok(Instruction(Opcode::STA, AddrMode::ABY, 5)),
            0x81 => Ok(Instruction(Opcode::STA, AddrMode::IDX, 6)),
            0x91 => Ok(Instruction(Opcode::STA, AddrMode::IDY, 6)),
            0x86 => Ok(Instruction(Opcode::STX, AddrMode::ZP, 3)),
            0x96 => Ok(Instruction(Opcode::STX, AddrMode::ZPY, 4)),
            0x8E => Ok(Instruction(Opcode::STX, AddrMode::ABS, 4)),
            0x84 => Ok(Instruction(Opcode::STY, AddrMode::ZP, 3)),
            0x94 => Ok(Instruction(Opcode::STY, AddrMode::ZPX, 4)),
            0x8C => Ok(Instruction(Opcode::STY, AddrMode::ABS, 4)),
            0xAA => Ok(Instruction(Opcode::TAX, AddrMode::IMP, 2)),
            0xA8 => Ok(Instruction(Opcode::TAY, AddrMode::IMP, 2)),
            0xBA => Ok(Instruction(Opcode::TSX, AddrMode::IMP, 2)),
            0x8A => Ok(Instruction(Opcode::TXA, AddrMode::IMP, 2)),
            0x9A => Ok(Instruction(Opcode::TXS, AddrMode::IMP, 2)),
            0x98 => Ok(Instruction(Opcode::TYA, AddrMode::IMP, 2)),
            _ => Err(EmuError::UnsupportedOpcode(byte)),
        }
    }
}

} // verus!
