use crate::address_mode::AddressMode;
use crate::error::CpuError;
use crate::instruction::Instruction;
use vstd::prelude::*;

verus! {

/// What one opcode byte decodes to: the mnemonic, the addressing mode and
/// the base cycle count before any page-crossing or branch penalty.
#[derive(Copy, Clone, Debug, PartialEq, Eq, Structural)]
pub struct DecodeEntry {
    pub instruction: Instruction,
    pub mode: AddressMode,
    pub cycles: u8,
}

/// The documented 6502 instruction set: the entry of each legal opcode,
/// `None` for the illegal ones.
pub open spec fn opcode_spec(op: u8) -> Option<DecodeEntry> {
    match op {
        0x00 => Some(DecodeEntry { instruction: Instruction::BRK, mode: AddressMode::Implied, cycles: 7 }),
        0x01 => Some(DecodeEntry { instruction: Instruction::ORA, mode: AddressMode::IndirectX, cycles: 6 }),
        0x05 => Some(DecodeEntry { instruction: Instruction::ORA, mode: AddressMode::ZeroPage, cycles: 3 }),
        0x06 => Some(DecodeEntry { instruction: Instruction::ASL, mode: AddressMode::ZeroPage, cycles: 5 }),
        0x08 => Some(DecodeEntry { instruction: Instruction::PHP, mode: AddressMode::Implied, cycles: 3 }),
        0x09 => Some(DecodeEntry { instruction: Instruction::ORA, mode: AddressMode::Immediate, cycles: 2 }),
        0x0A => Some(DecodeEntry { instruction: Instruction::ASL, mode: AddressMode::Accumulator, cycles: 2 }),
        0x0D => Some(DecodeEntry { instruction: Instruction::ORA, mode: AddressMode::Absolute, cycles: 4 }),
        0x0E => Some(DecodeEntry { instruction: Instruction::ASL, mode: AddressMode::Absolute, cycles: 6 }),
        0x10 => Some(DecodeEntry { instruction: Instruction::BPL, mode: AddressMode::Relative, cycles: 2 }),
        0x11 => Some(DecodeEntry { instruction: Instruction::ORA, mode: AddressMode::IndirectY, cycles: 5 }),
        0x15 => Some(DecodeEntry { instruction: Instruction::ORA, mode: AddressMode::ZeroPageX, cycles: 4 }),
        0x16 => Some(DecodeEntry { instruction: Instruction::ASL, mode: AddressMode::ZeroPageX, cycles: 6 }),
        0x18 => Some(DecodeEntry { instruction: Instruction::CLC, mode: AddressMode::Implied, cycles: 2 }),
        0x19 => Some(DecodeEntry { instruction: Instruction::ORA, mode: AddressMode::AbsoluteY, cycles: 4 }),
        0x1D => Some(DecodeEntry { instruction: Instruction::ORA, mode: AddressMode::AbsoluteX, cycles: 4 }),
        0x1E => Some(DecodeEntry { instruction: Instruction::ASL, mode: AddressMode::AbsoluteX, cycles: 7 }),
        0x20 => Some(DecodeEntry { instruction: Instruction::JSR, mode: AddressMode::Absolute, cycles: 6 }),
        0x21 => Some(DecodeEntry { instruction: Instruction::AND, mode: AddressMode::IndirectX, cycles: 6 }),
        0x24 => Some(DecodeEntry { instruction: Instruction::BIT, mode: AddressMode::ZeroPage, cycles: 3 }),
        0x25 => Some(DecodeEntry { instruction: Instruction::AND, mode: AddressMode::ZeroPage, cycles: 3 }),
        0x26 => Some(DecodeEntry { instruction: Instruction::ROL, mode: AddressMode::ZeroPage, cycles: 5 }),
        0x28 => Some(DecodeEntry { instruction: Instruction::PLP, mode: AddressMode::Implied, cycles: 4 }),
        0x29 => Some(DecodeEntry { instruction: Instruction::AND, mode: AddressMode::Immediate, cycles: 2 }),
        0x2A => Some(DecodeEntry { instruction: Instruction::ROL, mode: AddressMode::Accumulator, cycles: 2 }),
        0x2C => Some(DecodeEntry { instruction: Instruction::BIT, mode: AddressMode::Absolute, cycles: 4 }),
        0x2D => Some(DecodeEntry { instruction: Instruction::AND, mode: AddressMode::Absolute, cycles: 4 }),
        0x2E => Some(DecodeEntry { instruction: Instruction::ROL, mode: AddressMode::Absolute, cycles: 6 }),
        0x30 => Some(DecodeEntry { instruction: Instruction::BMI, mode: AddressMode::Relative, cycles: 2 }),
        0x31 => Some(DecodeEntry { instruction: Instruction::AND, mode: AddressMode::IndirectY, cycles: 5 }),
        0x35 => Some(DecodeEntry { instruction: Instruction::AND, mode: AddressMode::ZeroPageX, cycles: 4 }),
        0x36 => Some(DecodeEntry { instruction: Instruction::ROL, mode: AddressMode::ZeroPageX, cycles: 6 }),
        0x38 => Some(DecodeEntry { instruction: Instruction::SEC, mode: AddressMode::Implied, cycles: 2 }),
        0x39 => Some(DecodeEntry { instruction: Instruction::AND, mode: AddressMode::AbsoluteY, cycles: 4 }),
        0x3D => Some(DecodeEntry { instruction: Instruction::AND, mode: AddressMode::AbsoluteX, cycles: 4 }),
        0x3E => Some(DecodeEntry { instruction: Instruction::ROL, mode: AddressMode::AbsoluteX, cycles: 7 }),
        0x40 => Some(DecodeEntry { instruction: Instruction::RTI, mode: AddressMode::Implied, cycles: 6 }),
        0x41 => Some(DecodeEntry { instruction: Instruction::EOR, mode: AddressMode::IndirectX, cycles: 6 }),
        0x45 => Some(DecodeEntry { instruction: Instruction::EOR, mode: AddressMode::ZeroPage, cycles: 3 }),
        0x46 => Some(DecodeEntry { instruction: Instruction::LSR, mode: AddressMode::ZeroPage, cycles: 5 }),
        0x48 => Some(DecodeEntry { instruction: Instruction::PHA, mode: AddressMode::Implied, cycles: 3 }),
        0x49 => Some(DecodeEntry { instruction: Instruction::EOR, mode: AddressMode::Immediate, cycles: 2 }),
        0x4A => Some(DecodeEntry { instruction: Instruction::LSR, mode: AddressMode::Accumulator, cycles: 2 }),
        0x4C => Some(DecodeEntry { instruction: Instruction::JMP, mode: AddressMode::Absolute, cycles: 3 }),
        0x4D => Some(DecodeEntry { instruction: Instruction::EOR, mode: AddressMode::Absolute, cycles: 4 }),
        0x4E => Some(DecodeEntry { instruction: Instruction::LSR, mode: AddressMode::Absolute, cycles: 6 }),
        0x50 => Some(DecodeEntry { instruction: Instruction::BVC, mode: AddressMode::Relative, cycles: 2 }),
        0x51 => Some(DecodeEntry { instruction: Instruction::EOR, mode: AddressMode::IndirectY, cycles: 5 }),
        0x55 => Some(DecodeEntry { instruction: Instruction::EOR, mode: AddressMode::ZeroPageX, cycles: 4 }),
        0x56 => Some(DecodeEntry { instruction: Instruction::LSR, mode: AddressMode::ZeroPageX, cycles: 6 }),
        0x58 => Some(DecodeEntry { instruction: Instruction::CLI, mode: AddressMode::Implied, cycles: 2 }),
        0x59 => Some(DecodeEntry { instruction: Instruction::EOR, mode: AddressMode::AbsoluteY, cycles: 4 }),
        0x5D => Some(DecodeEntry { instruction: Instruction::EOR, mode: AddressMode::AbsoluteX, cycles: 4 }),
        0x5E => Some(DecodeEntry { instruction: Instruction::LSR, mode: AddressMode::AbsoluteX, cycles: 7 }),
        0x60 => Some(DecodeEntry { instruction: Instruction::RTS, mode: AddressMode::Implied, cycles: 6 }),
        0x61 => Some(DecodeEntry { instruction: Instruction::ADC, mode: AddressMode::IndirectX, cycles: 6 }),
        0x65 => Some(DecodeEntry { instruction: Instruction::ADC, mode: AddressMode::ZeroPage, cycles: 3 }),
        0x66 => Some(DecodeEntry { instruction: Instruction::ROR, mode: AddressMode::ZeroPage, cycles: 5 }),
        0x68 => Some(DecodeEntry { instruction: Instruction::PLA, mode: AddressMode::Implied, cycles: 4 }),
        0x69 => Some(DecodeEntry { instruction: Instruction::ADC, mode: AddressMode::Immediate, cycles: 2 }),
        0x6A => Some(DecodeEntry { instruction: Instruction::ROR, mode: AddressMode::Accumulator, cycles: 2 }),
        0x6C => Some(DecodeEntry { instruction: Instruction::JMP, mode: AddressMode::Indirect, cycles: 5 }),
        0x6D => Some(DecodeEntry { instruction: Instruction::ADC, mode: AddressMode::Absolute, cycles: 4 }),
        0x6E => Some(DecodeEntry { instruction: Instruction::ROR, mode: AddressMode::Absolute, cycles: 6 }),
        0x70 => Some(DecodeEntry { instruction: Instruction::BVS, mode: AddressMode::Relative, cycles: 2 }),
        0x71 => Some(DecodeEntry { instruction: Instruction::ADC, mode: AddressMode::IndirectY, cycles: 5 }),
        0x75 => Some(DecodeEntry { instruction: Instruction::ADC, mode: AddressMode::ZeroPageX, cycles: 4 }),
        0x76 => Some(DecodeEntry { instruction: Instruction::ROR, mode: AddressMode::ZeroPageX, cycles: 6 }),
        0x78 => Some(DecodeEntry { instruction: Instruction::SEI, mode: AddressMode::Implied, cycles: 2 }),
        0x79 => Some(DecodeEntry { instruction: Instruction::ADC, mode: AddressMode::AbsoluteY, cycles: 4 }),
        0x7D => Some(DecodeEntry { instruction: Instruction::ADC, mode: AddressMode::AbsoluteX, cycles: 4 }),
        0x7E => Some(DecodeEntry { instruction: Instruction::ROR, mode: AddressMode::AbsoluteX, cycles: 7 }),
        0x81 => Some(DecodeEntry { instruction: Instruction::STA, mode: AddressMode::IndirectX, cycles: 6 }),
        0x84 => Some(DecodeEntry { instruction: Instruction::STY, mode: AddressMode::ZeroPage, cycles: 3 }),
        0x85 => Some(DecodeEntry { instruction: Instruction::STA, mode: AddressMode::ZeroPage, cycles: 3 }),
        0x86 => Some(DecodeEntry { instruction: Instruction::STX, mode: AddressMode::ZeroPage, cycles: 3 }),
        0x88 => Some(DecodeEntry { instruction: Instruction::DEY, mode: AddressMode::Implied, cycles: 2 }),
        0x8A => Some(DecodeEntry { instruction: Instruction::TXA, mode: AddressMode::Implied, cycles: 2 }),
        0x8C => Some(DecodeEntry { instruction: Instruction::STY, mode: AddressMode::Absolute, cycles: 4 }),
        0x8D => Some(DecodeEntry { instruction: Instruction::STA, mode: AddressMode::Absolute, cycles: 4 }),
        0x8E => Some(DecodeEntry { instruction: Instruction::STX, mode: AddressMode::Absolute, cycles: 4 }),
        0x90 => Some(DecodeEntry { instruction: Instruction::BCC, mode: AddressMode::Relative, cycles: 2 }),
        0x91 => Some(DecodeEntry { instruction: Instruction::STA, mode: AddressMode::IndirectY, cycles: 6 }),
        0x94 => Some(DecodeEntry { instruction: Instruction::STY, mode: AddressMode::ZeroPageX, cycles: 4 }),
        0x95 => Some(DecodeEntry { instruction: Instruction::STA, mode: AddressMode::ZeroPageX, cycles: 4 }),
        0x96 => Some(DecodeEntry { instruction: Instruction::STX, mode: AddressMode::ZeroPageY, cycles: 4 }),
        0x98 => Some(DecodeEntry { instruction: Instruction::TYA, mode: AddressMode::Implied, cycles: 2 }),
        0x99 => Some(DecodeEntry { instruction: Instruction::STA, mode: AddressMode::AbsoluteY, cycles: 5 }),
        0x9A => Some(DecodeEntry { instruction: Instruction::TXS, mode: AddressMode::Implied, cycles: 2 }),
        0x9D => Some(DecodeEntry { instruction: Instruction::STA, mode: AddressMode::AbsoluteX, cycles: 5 }),
        0xA0 => Some(DecodeEntry { instruction: Instruction::LDY, mode: AddressMode::Immediate, cycles: 2 }),
        0xA1 => Some(DecodeEntry { instruction: Instruction::LDA, mode: AddressMode::IndirectX, cycles: 6 }),
        0xA2 => Some(DecodeEntry { instruction: Instruction::LDX, mode: AddressMode::Immediate, cycles: 2 }),
        0xA4 => Some(DecodeEntry { instruction: Instruction::LDY, mode: AddressMode::ZeroPage, cycles: 3 }),
        0xA5 => Some(DecodeEntry { instruction: Instruction::LDA, mode: AddressMode::ZeroPage, cycles: 3 }),
        0xA6 => Some(DecodeEntry { instruction: Instruction::LDX, mode: AddressMode::ZeroPage, cycles: 3 }),
        0xA8 => Some(DecodeEntry { instruction: Instruction::TAY, mode: AddressMode::Implied, cycles: 2 }),
        0xA9 => Some(DecodeEntry { instruction: Instruction::LDA, mode: AddressMode::Immediate, cycles: 2 }),
        0xAA => Some(DecodeEntry { instruction: Instruction::TAX, mode: AddressMode::Implied, cycles: 2 }),
        0xAC => Some(DecodeEntry { instruction: Instruction::LDY, mode: AddressMode::Absolute, cycles: 4 }),
        0xAD => Some(DecodeEntry { instruction: Instruction::LDA, mode: AddressMode::Absolute, cycles: 4 }),
        0xAE => Some(DecodeEntry { instruction: Instruction::LDX, mode: AddressMode::Absolute, cycles: 4 }),
        0xB0 => Some(DecodeEntry { instruction: Instruction::BCS, mode: AddressMode::Relative, cycles: 2 }),
        0xB1 => Some(DecodeEntry { instruction: Instruction::LDA, mode: AddressMode::IndirectY, cycles: 5 }),
        0xB4 => Some(DecodeEntry { instruction: Instruction::LDY, mode: AddressMode::ZeroPageX, cycles: 4 }),
        0xB5 => Some(DecodeEntry { instruction: Instruction::LDA, mode: AddressMode::ZeroPageX, cycles: 4 }),
        0xB6 => Some(DecodeEntry { instruction: Instruction::LDX, mode: AddressMode::ZeroPageY, cycles: 4 }),
        0xB8 => Some(DecodeEntry { instruction: Instruction::CLV, mode: AddressMode::Implied, cycles: 2 }),
        0xB9 => Some(DecodeEntry { instruction: Instruction::LDA, mode: AddressMode::AbsoluteY, cycles: 4 }),
        0xBA => Some(DecodeEntry { instruction: Instruction::TSX, mode: AddressMode::Implied, cycles: 2 }),
        0xBC => Some(DecodeEntry { instruction: Instruction::LDY, mode: AddressMode::AbsoluteX, cycles: 4 }),
        0xBD => Some(DecodeEntry { instruction: Instruction::LDA, mode: AddressMode::AbsoluteX, cycles: 4 }),
        0xBE => Some(DecodeEntry { instruction: Instruction::LDX, mode: AddressMode::AbsoluteY, cycles: 4 }),
        0xC0 => Some(DecodeEntry { instruction: Instruction::CPY, mode: AddressMode::Immediate, cycles: 2 }),
        0xC1 => Some(DecodeEntry { instruction: Instruction::CMP, mode: AddressMode::IndirectX, cycles: 6 }),
        0xC4 => Some(DecodeEntry { instruction: Instruction::CPY, mode: AddressMode::ZeroPage, cycles: 3 }),
        0xC5 => Some(DecodeEntry { instruction: Instruction::CMP, mode: AddressMode::ZeroPage, cycles: 3 }),
        0xC6 => Some(DecodeEntry { instruction: Instruction::DEC, mode: AddressMode::ZeroPage, cycles: 5 }),
        0xC8 => Some(DecodeEntry { instruction: Instruction::INY, mode: AddressMode::Implied, cycles: 2 }),
        0xC9 => Some(DecodeEntry { instruction: Instruction::CMP, mode: AddressMode::Immediate, cycles: 2 }),
        0xCA => Some(DecodeEntry { instruction: Instruction::DEX, mode: AddressMode::Implied, cycles: 2 }),
        0xCC => Some(DecodeEntry { instruction: Instruction::CPY, mode: AddressMode::Absolute, cycles: 4 }),
        0xCD => Some(DecodeEntry { instruction: Instruction::CMP, mode: AddressMode::Absolute, cycles: 4 }),
        0xCE => Some(DecodeEntry { instruction: Instruction::DEC, mode: AddressMode::Absolute, cycles: 6 }),
        0xD0 => Some(DecodeEntry { instruction: Instruction::BNE, mode: AddressMode::Relative, cycles: 2 }),
        0xD1 => Some(DecodeEntry { instruction: Instruction::CMP, mode: AddressMode::IndirectY, cycles: 5 }),
        0xD5 => Some(DecodeEntry { instruction: Instruction::CMP, mode: AddressMode::ZeroPageX, cycles: 4 }),
        0xD6 => Some(DecodeEntry { instruction: Instruction::DEC, mode: AddressMode::ZeroPageX, cycles: 6 }),
        0xD8 => Some(DecodeEntry { instruction: Instruction::CLD, mode: AddressMode::Implied, cycles: 2 }),
        0xD9 => Some(DecodeEntry { instruction: Instruction::CMP, mode: AddressMode::AbsoluteY, cycles: 4 }),
        0xDD => Some(DecodeEntry { instruction: Instruction::CMP, mode: AddressMode::AbsoluteX, cycles: 4 }),
        0xDE => Some(DecodeEntry { instruction: Instruction::DEC, mode: AddressMode::AbsoluteX, cycles: 7 }),
        0xE0 => Some(DecodeEntry { instruction: Instruction::CPX, mode: AddressMode::Immediate, cycles: 2 }),
        0xE1 => Some(DecodeEntry { instruction: Instruction::SBC, mode: AddressMode::IndirectX, cycles: 6 }),
        0xE4 => Some(DecodeEntry { instruction: Instruction::CPX, mode: AddressMode::ZeroPage, cycles: 3 }),
        0xE5 => Some(DecodeEntry { instruction: Instruction::SBC, mode: AddressMode::ZeroPage, cycles: 3 }),
        0xE6 => Some(DecodeEntry { instruction: Instruction::INC, mode: AddressMode::ZeroPage, cycles: 5 }),
        0xE8 => Some(DecodeEntry { instruction: Instruction::INX, mode: AddressMode::Implied, cycles: 2 }),
        0xE9 => Some(DecodeEntry { instruction: Instruction::SBC, mode: AddressMode::Immediate, cycles: 2 }),
        0xEA => Some(DecodeEntry { instruction: Instruction::NOP, mode: AddressMode::Implied, cycles: 2 }),
        0xEC => Some(DecodeEntry { instruction: Instruction::CPX, mode: AddressMode::Absolute, cycles: 4 }),
        0xED => Some(DecodeEntry { instruction: Instruction::SBC, mode: AddressMode::Absolute, cycles: 4 }),
        0xEE => Some(DecodeEntry { instruction: Instruction::INC, mode: AddressMode::Absolute, cycles: 6 }),
        0xF0 => Some(DecodeEntry { instruction: Instruction::BEQ, mode: AddressMode::Relative, cycles: 2 }),
        0xF1 => Some(DecodeEntry { instruction: Instruction::SBC, mode: AddressMode::IndirectY, cycles: 5 }),
        0xF5 => Some(DecodeEntry { instruction: Instruction::SBC, mode: AddressMode::ZeroPageX, cycles: 4 }),
        0xF6 => Some(DecodeEntry { instruction: Instruction::INC, mode: AddressMode::ZeroPageX, cycles: 6 }),
        0xF8 => Some(DecodeEntry { instruction: Instruction::SED, mode: AddressMode::Implied, cycles: 2 }),
        0xF9 => Some(DecodeEntry { instruction: Instruction::SBC, mode: AddressMode::AbsoluteY, cycles: 4 }),
        0xFD => Some(DecodeEntry { instruction: Instruction::SBC, mode: AddressMode::AbsoluteX, cycles: 4 }),
        0xFE => Some(DecodeEntry { instruction: Instruction::INC, mode: AddressMode::AbsoluteX, cycles: 7 }),
        _ => None,
    }
}

/// Decodes one opcode byte against the documented instruction set.
pub fn lookup(op: u8) -> (r: Option<DecodeEntry>)
    ensures
        r == opcode_spec(op),
{
    match op {
        0x00 => Some(DecodeEntry { instruction: Instruction::BRK, mode: AddressMode::Implied, cycles: 7 }),
        0x01 => Some(DecodeEntry { instruction: Instruction::ORA, mode: AddressMode::IndirectX, cycles: 6 }),
        0x05 => Some(DecodeEntry { instruction: Instruction::ORA, mode: AddressMode::ZeroPage, cycles: 3 }),
        0x06 => Some(DecodeEntry { instruction: Instruction::ASL, mode: AddressMode::ZeroPage, cycles: 5 }),
        0x08 => Some(DecodeEntry { instruction: Instruction::PHP, mode: AddressMode::Implied, cycles: 3 }),
        0x09 => Some(DecodeEntry { instruction: Instruction::ORA, mode: AddressMode::Immediate, cycles: 2 }),
        0x0A => Some(DecodeEntry { instruction: Instruction::ASL, mode: AddressMode::Accumulator, cycles: 2 }),
        0x0D => Some(DecodeEntry { instruction: Instruction::ORA, mode: AddressMode::Absolute, cycles: 4 }),
        0x0E => Some(DecodeEntry { instruction: Instruction::ASL, mode: AddressMode::Absolute, cycles: 6 }),
        0x10 => Some(DecodeEntry { instruction: Instruction::BPL, mode: AddressMode::Relative, cycles: 2 }),
        0x11 => Some(DecodeEntry { instruction: Instruction::ORA, mode: AddressMode::IndirectY, cycles: 5 }),
        0x15 => Some(DecodeEntry { instruction: Instruction::ORA, mode: AddressMode::ZeroPageX, cycles: 4 }),
        0x16 => Some(DecodeEntry { instruction: Instruction::ASL, mode: AddressMode::ZeroPageX, cycles: 6 }),
        0x18 => Some(DecodeEntry { instruction: Instruction::CLC, mode: AddressMode::Implied, cycles: 2 }),
        0x19 => Some(DecodeEntry { instruction: Instruction::ORA, mode: AddressMode::AbsoluteY, cycles: 4 }),
        0x1D => Some(DecodeEntry { instruction: Instruction::ORA, mode: AddressMode::AbsoluteX, cycles: 4 }),
        0x1E => Some(DecodeEntry { instruction: Instruction::ASL, mode: AddressMode::AbsoluteX, cycles: 7 }),
        0x20 => Some(DecodeEntry { instruction: Instruction::JSR, mode: AddressMode::Absolute, cycles: 6 }),
        0x21 => Some(DecodeEntry { instruction: Instruction::AND, mode: AddressMode::IndirectX, cycles: 6 }),
        0x24 => Some(DecodeEntry { instruction: Instruction::BIT, mode: AddressMode::ZeroPage, cycles: 3 }),
        0x25 => Some(DecodeEntry { instruction: Instruction::AND, mode: AddressMode::ZeroPage, cycles: 3 }),
        0x26 => Some(DecodeEntry { instruction: Instruction::ROL, mode: AddressMode::ZeroPage, cycles: 5 }),
        0x28 => Some(DecodeEntry { instruction: Instruction::PLP, mode: AddressMode::Implied, cycles: 4 }),
        0x29 => Some(DecodeEntry { instruction: Instruction::AND, mode: AddressMode::Immediate, cycles: 2 }),
        0x2A => Some(DecodeEntry { instruction: Instruction::ROL, mode: AddressMode::Accumulator, cycles: 2 }),
        0x2C => Some(DecodeEntry { instruction: Instruction::BIT, mode: AddressMode::Absolute, cycles: 4 }),
        0x2D => Some(DecodeEntry { instruction: Instruction::AND, mode: AddressMode::Absolute, cycles: 4 }),
        0x2E => Some(DecodeEntry { instruction: Instruction::ROL, mode: AddressMode::Absolute, cycles: 6 }),
        0x30 => Some(DecodeEntry { instruction: Instruction::BMI, mode: AddressMode::Relative, cycles: 2 }),
        0x31 => Some(DecodeEntry { instruction: Instruction::AND, mode: AddressMode::IndirectY, cycles: 5 }),
        0x35 => Some(DecodeEntry { instruction: Instruction::AND, mode: AddressMode::ZeroPageX, cycles: 4 }),
        0x36 => Some(DecodeEntry { instruction: Instruction::ROL, mode: AddressMode::ZeroPageX, cycles: 6 }),
        0x38 => Some(DecodeEntry { instruction: Instruction::SEC, mode: AddressMode::Implied, cycles: 2 }),
        0x39 => Some(DecodeEntry { instruction: Instruction::AND, mode: AddressMode::AbsoluteY, cycles: 4 }),
        0x3D => Some(DecodeEntry { instruction: Instruction::AND, mode: AddressMode::AbsoluteX, cycles: 4 }),
        0x3E => Some(DecodeEntry { instruction: Instruction::ROL, mode: AddressMode::AbsoluteX, cycles: 7 }),
        0x40 => Some(DecodeEntry { instruction: Instruction::RTI, mode: AddressMode::Implied, cycles: 6 }),
        0x41 => Some(DecodeEntry { instruction: Instruction::EOR, mode: AddressMode::IndirectX, cycles: 6 }),
        0x45 => Some(DecodeEntry { instruction: Instruction::EOR, mode: AddressMode::ZeroPage, cycles: 3 }),
        0x46 => Some(DecodeEntry { instruction: Instruction::LSR, mode: AddressMode::ZeroPage, cycles: 5 }),
        0x48 => Some(DecodeEntry { instruction: Instruction::PHA, mode: AddressMode::Implied, cycles: 3 }),
        0x49 => Some(DecodeEntry { instruction: Instruction::EOR, mode: AddressMode::Immediate, cycles: 2 }),
        0x4A => Some(DecodeEntry { instruction: Instruction::LSR, mode: AddressMode::Accumulator, cycles: 2 }),
        0x4C => Some(DecodeEntry { instruction: Instruction::JMP, mode: AddressMode::Absolute, cycles: 3 }),
        0x4D => Some(DecodeEntry { instruction: Instruction::EOR, mode: AddressMode::Absolute, cycles: 4 }),
        0x4E => Some(DecodeEntry { instruction: Instruction::LSR, mode: AddressMode::Absolute, cycles: 6 }),
        0x50 => Some(DecodeEntry { instruction: Instruction::BVC, mode: AddressMode::Relative, cycles: 2 }),
        0x51 => Some(DecodeEntry { instruction: Instruction::EOR, mode: AddressMode::IndirectY, cycles: 5 }),
        0x55 => Some(DecodeEntry { instruction: Instruction::EOR, mode: AddressMode::ZeroPageX, cycles: 4 }),
        0x56 => Some(DecodeEntry { instruction: Instruction::LSR, mode: AddressMode::ZeroPageX, cycles: 6 }),
        0x58 => Some(DecodeEntry { instruction: Instruction::CLI, mode: AddressMode::Implied, cycles: 2 }),
        0x59 => Some(DecodeEntry { instruction: Instruction::EOR, mode: AddressMode::AbsoluteY, cycles: 4 }),
        0x5D => Some(DecodeEntry { instruction: Instruction::EOR, mode: AddressMode::AbsoluteX, cycles: 4 }),
        0x5E => Some(DecodeEntry { instruction: Instruction::LSR, mode: AddressMode::AbsoluteX, cycles: 7 }),
        0x60 => Some(DecodeEntry { instruction: Instruction::RTS, mode: AddressMode::Implied, cycles: 6 }),
        0x61 => Some(DecodeEntry { instruction: Instruction::ADC, mode: AddressMode::IndirectX, cycles: 6 }),
        0x65 => Some(DecodeEntry { instruction: Instruction::ADC, mode: AddressMode::ZeroPage, cycles: 3 }),
        0x66 => Some(DecodeEntry { instruction: Instruction::ROR, mode: AddressMode::ZeroPage, cycles: 5 }),
        0x68 => Some(DecodeEntry { instruction: Instruction::PLA, mode: AddressMode::Implied, cycles: 4 }),
        0x69 => Some(DecodeEntry { instruction: Instruction::ADC, mode: AddressMode::Immediate, cycles: 2 }),
        0x6A => Some(DecodeEntry { instruction: Instruction::ROR, mode: AddressMode::Accumulator, cycles: 2 }),
        0x6C => Some(DecodeEntry { instruction: Instruction::JMP, mode: AddressMode::Indirect, cycles: 5 }),
        0x6D => Some(DecodeEntry { instruction: Instruction::ADC, mode: AddressMode::Absolute, cycles: 4 }),
        0x6E => Some(DecodeEntry { instruction: Instruction::ROR, mode: AddressMode::Absolute, cycles: 6 }),
        0x70 => Some(DecodeEntry { instruction: Instruction::BVS, mode: AddressMode::Relative, cycles: 2 }),
        0x71 => Some(DecodeEntry { instruction: Instruction::ADC, mode: AddressMode::IndirectY, cycles: 5 }),
        0x75 => Some(DecodeEntry { instruction: Instruction::ADC, mode: AddressMode::ZeroPageX, cycles: 4 }),
        0x76 => Some(DecodeEntry { instruction: Instruction::ROR, mode: AddressMode::ZeroPageX, cycles: 6 }),
        0x78 => Some(DecodeEntry { instruction: Instruction::SEI, mode: AddressMode::Implied, cycles: 2 }),
        0x79 => Some(DecodeEntry { instruction: Instruction::ADC, mode: AddressMode::AbsoluteY, cycles: 4 }),
        0x7D => Some(DecodeEntry { instruction: Instruction::ADC, mode: AddressMode::AbsoluteX, cycles: 4 }),
        0x7E => Some(DecodeEntry { instruction: Instruction::ROR, mode: AddressMode::AbsoluteX, cycles: 7 }),
        0x81 => Some(DecodeEntry { instruction: Instruction::STA, mode: AddressMode::IndirectX, cycles: 6 }),
        0x84 => Some(DecodeEntry { instruction: Instruction::STY, mode: AddressMode::ZeroPage, cycles: 3 }),
        0x85 => Some(DecodeEntry { instruction: Instruction::STA, mode: AddressMode::ZeroPage, cycles: 3 }),
        0x86 => Some(DecodeEntry { instruction: Instruction::STX, mode: AddressMode::ZeroPage, cycles: 3 }),
        0x88 => Some(DecodeEntry { instruction: Instruction::DEY, mode: AddressMode::Implied, cycles: 2 }),
        0x8A => Some(DecodeEntry { instruction: Instruction::TXA, mode: AddressMode::Implied, cycles: 2 }),
        0x8C => Some(DecodeEntry { instruction: Instruction::STY, mode: AddressMode::Absolute, cycles: 4 }),
        0x8D => Some(DecodeEntry { instruction: Instruction::STA, mode: AddressMode::Absolute, cycles: 4 }),
        0x8E => Some(DecodeEntry { instruction: Instruction::STX, mode: AddressMode::Absolute, cycles: 4 }),
        0x90 => Some(DecodeEntry { instruction: Instruction::BCC, mode: AddressMode::Relative, cycles: 2 }),
        0x91 => Some(DecodeEntry { instruction: Instruction::STA, mode: AddressMode::IndirectY, cycles: 6 }),
        0x94 => Some(DecodeEntry { instruction: Instruction::STY, mode: AddressMode::ZeroPageX, cycles: 4 }),
        0x95 => Some(DecodeEntry { instruction: Instruction::STA, mode: AddressMode::ZeroPageX, cycles: 4 }),
        0x96 => Some(DecodeEntry { instruction: Instruction::STX, mode: AddressMode::ZeroPageY, cycles: 4 }),
        0x98 => Some(DecodeEntry { instruction: Instruction::TYA, mode: AddressMode::Implied, cycles: 2 }),
        0x99 => Some(DecodeEntry { instruction: Instruction::STA, mode: AddressMode::AbsoluteY, cycles: 5 }),
        0x9A => Some(DecodeEntry { instruction: Instruction::TXS, mode: AddressMode::Implied, cycles: 2 }),
        0x9D => Some(DecodeEntry { instruction: Instruction::STA, mode: AddressMode::AbsoluteX, cycles: 5 }),
        0xA0 => Some(DecodeEntry { instruction: Instruction::LDY, mode: AddressMode::Immediate, cycles: 2 }),
        0xA1 => Some(DecodeEntry { instruction: Instruction::LDA, mode: AddressMode::IndirectX, cycles: 6 }),
        0xA2 => Some(DecodeEntry { instruction: Instruction::LDX, mode: AddressMode::Immediate, cycles: 2 }),
        0xA4 => Some(DecodeEntry { instruction: Instruction::LDY, mode: AddressMode::ZeroPage, cycles: 3 }),
        0xA5 => Some(DecodeEntry { instruction: Instruction::LDA, mode: AddressMode::ZeroPage, cycles: 3 }),
        0xA6 => Some(DecodeEntry { instruction: Instruction::LDX, mode: AddressMode::ZeroPage, cycles: 3 }),
        0xA8 => Some(DecodeEntry { instruction: Instruction::TAY, mode: AddressMode::Implied, cycles: 2 }),
        0xA9 => Some(DecodeEntry { instruction: Instruction::LDA, mode: AddressMode::Immediate, cycles: 2 }),
        0xAA => Some(DecodeEntry { instruction: Instruction::TAX, mode: AddressMode::Implied, cycles: 2 }),
        0xAC => Some(DecodeEntry { instruction: Instruction::LDY, mode: AddressMode::Absolute, cycles: 4 }),
        0xAD => Some(DecodeEntry { instruction: Instruction::LDA, mode: AddressMode::Absolute, cycles: 4 }),
        0xAE => Some(DecodeEntry { instruction: Instruction::LDX, mode: AddressMode::Absolute, cycles: 4 }),
        0xB0 => Some(DecodeEntry { instruction: Instruction::BCS, mode: AddressMode::Relative, cycles: 2 }),
        0xB1 => Some(DecodeEntry { instruction: Instruction::LDA, mode: AddressMode::IndirectY, cycles: 5 }),
        0xB4 => Some(DecodeEntry { instruction: Instruction::LDY, mode: AddressMode::ZeroPageX, cycles: 4 }),
        0xB5 => Some(DecodeEntry { instruction: Instruction::LDA, mode: AddressMode::ZeroPageX, cycles: 4 }),
        0xB6 => Some(DecodeEntry { instruction: Instruction::LDX, mode: AddressMode::ZeroPageY, cycles: 4 }),
        0xB8 => Some(DecodeEntry { instruction: Instruction::CLV, mode: AddressMode::Implied, cycles: 2 }),
        0xB9 => Some(DecodeEntry { instruction: Instruction::LDA, mode: AddressMode::AbsoluteY, cycles: 4 }),
        0xBA => Some(DecodeEntry { instruction: Instruction::TSX, mode: AddressMode::Implied, cycles: 2 }),
        0xBC => Some(DecodeEntry { instruction: Instruction::LDY, mode: AddressMode::AbsoluteX, cycles: 4 }),
        0xBD => Some(DecodeEntry { instruction: Instruction::LDA, mode: AddressMode::AbsoluteX, cycles: 4 }),
        0xBE => Some(DecodeEntry { instruction: Instruction::LDX, mode: AddressMode::AbsoluteY, cycles: 4 }),
        0xC0 => Some(DecodeEntry { instruction: Instruction::CPY, mode: AddressMode::Immediate, cycles: 2 }),
        0xC1 => Some(DecodeEntry { instruction: Instruction::CMP, mode: AddressMode::IndirectX, cycles: 6 }),
        0xC4 => Some(DecodeEntry { instruction: Instruction::CPY, mode: AddressMode::ZeroPage, cycles: 3 }),
        0xC5 => Some(DecodeEntry { instruction: Instruction::CMP, mode: AddressMode::ZeroPage, cycles: 3 }),
        0xC6 => Some(DecodeEntry { instruction: Instruction::DEC, mode: AddressMode::ZeroPage, cycles: 5 }),
        0xC8 => Some(DecodeEntry { instruction: Instruction::INY, mode: AddressMode::Implied, cycles: 2 }),
        0xC9 => Some(DecodeEntry { instruction: Instruction::CMP, mode: AddressMode::Immediate, cycles: 2 }),
        0xCA => Some(DecodeEntry { instruction: Instruction::DEX, mode: AddressMode::Implied, cycles: 2 }),
        0xCC => Some(DecodeEntry { instruction: Instruction::CPY, mode: AddressMode::Absolute, cycles: 4 }),
        0xCD => Some(DecodeEntry { instruction: Instruction::CMP, mode: AddressMode::Absolute, cycles: 4 }),
        0xCE => Some(DecodeEntry { instruction: Instruction::DEC, mode: AddressMode::Absolute, cycles: 6 }),
        0xD0 => Some(DecodeEntry { instruction: Instruction::BNE, mode: AddressMode::Relative, cycles: 2 }),
        0xD1 => Some(DecodeEntry { instruction: Instruction::CMP, mode: AddressMode::IndirectY, cycles: 5 }),
        0xD5 => Some(DecodeEntry { instruction: Instruction::CMP, mode: AddressMode::ZeroPageX, cycles: 4 }),
        0xD6 => Some(DecodeEntry { instruction: Instruction::DEC, mode: AddressMode::ZeroPageX, cycles: 6 }),
        0xD8 => Some(DecodeEntry { instruction: Instruction::CLD, mode: AddressMode::Implied, cycles: 2 }),
        0xD9 => Some(DecodeEntry { instruction: Instruction::CMP, mode: AddressMode::AbsoluteY, cycles: 4 }),
        0xDD => Some(DecodeEntry { instruction: Instruction::CMP, mode: AddressMode::AbsoluteX, cycles: 4 }),
        0xDE => Some(DecodeEntry { instruction: Instruction::DEC, mode: AddressMode::AbsoluteX, cycles: 7 }),
        0xE0 => Some(DecodeEntry { instruction: Instruction::CPX, mode: AddressMode::Immediate, cycles: 2 }),
        0xE1 => Some(DecodeEntry { instruction: Instruction::SBC, mode: AddressMode::IndirectX, cycles: 6 }),
        0xE4 => Some(DecodeEntry { instruction: Instruction::CPX, mode: AddressMode::ZeroPage, cycles: 3 }),
        0xE5 => Some(DecodeEntry { instruction: Instruction::SBC, mode: AddressMode::ZeroPage, cycles: 3 }),
        0xE6 => Some(DecodeEntry { instruction: Instruction::INC, mode: AddressMode::ZeroPage, cycles: 5 }),
        0xE8 => Some(DecodeEntry { instruction: Instruction::INX, mode: AddressMode::Implied, cycles: 2 }),
        0xE9 => Some(DecodeEntry { instruction: Instruction::SBC, mode: AddressMode::Immediate, cycles: 2 }),
        0xEA => Some(DecodeEntry { instruction: Instruction::NOP, mode: AddressMode::Implied, cycles: 2 }),
        0xEC => Some(DecodeEntry { instruction: Instruction::CPX, mode: AddressMode::Absolute, cycles: 4 }),
        0xED => Some(DecodeEntry { instruction: Instruction::SBC, mode: AddressMode::Absolute, cycles: 4 }),
        0xEE => Some(DecodeEntry { instruction: Instruction::INC, mode: AddressMode::Absolute, cycles: 6 }),
        0xF0 => Some(DecodeEntry { instruction: Instruction::BEQ, mode: AddressMode::Relative, cycles: 2 }),
        0xF1 => Some(DecodeEntry { instruction: Instruction::SBC, mode: AddressMode::IndirectY, cycles: 5 }),
        0xF5 => Some(DecodeEntry { instruction: Instruction::SBC, mode: AddressMode::ZeroPageX, cycles: 4 }),
        0xF6 => Some(DecodeEntry { instruction: Instruction::INC, mode: AddressMode::ZeroPageX, cycles: 6 }),
        0xF8 => Some(DecodeEntry { instruction: Instruction::SED, mode: AddressMode::Implied, cycles: 2 }),
        0xF9 => Some(DecodeEntry { instruction: Instruction::SBC, mode: AddressMode::AbsoluteY, cycles: 4 }),
        0xFD => Some(DecodeEntry { instruction: Instruction::SBC, mode: AddressMode::AbsoluteX, cycles: 4 }),
        0xFE => Some(DecodeEntry { instruction: Instruction::INC, mode: AddressMode::AbsoluteX, cycles: 7 }),
        _ => None,
    }
}

/// The 256-slot opcode table, built once and read-only afterwards.
pub struct DecodeTable {
    slots: Vec<Option<DecodeEntry>>,
}

impl View for DecodeTable {
    type V = Seq<Option<DecodeEntry>>;

    closed spec fn view(&self) -> Seq<Option<DecodeEntry>> {
        self.slots@
    }
}

impl DecodeTable {
    /// Every slot holds exactly the documented entry of its opcode.
    pub open spec fn wf(&self) -> bool {
        &&& self@.len() == 256
        &&& forall|i: int| 0 <= i < 256 ==> #[trigger] self@[i] == opcode_spec(i as u8)
    }

    /// Fills an empty slot; a slot that is already taken is a conflict and
    /// leaves the table as it was.
    pub fn define(&mut self, op: u8, e: DecodeEntry) -> (r: Result<(), CpuError>)
        requires
            old(self)@.len() == 256,
        ensures
            old(self)@[op as int] is Some ==> r == Err::<(), CpuError>(
                CpuError::TableConstructionConflict { opcode: op },
            ) && final(self)@ == old(self)@,
            old(self)@[op as int] is None ==> r is Ok && final(self)@ == old(self)@.update(
                op as int,
                Some(e),
            ),
    {
        if self.slots[op as usize].is_some() {
            Err(CpuError::TableConstructionConflict { opcode: op })
        } else {
            self.slots.set(op as usize, Some(e));
            Ok(())
        }
    }

    /// The documented table; its construction never meets a conflict.
    pub fn new() -> (t: DecodeTable)
        ensures
            t.wf(),
    {
        match generate_decoder() {
            Ok(t) => t,
            Err(_) => DecodeTable { slots: Vec::new() },
        }
    }

    /// The entry of `op`, or `None` when the opcode is not mapped.
    pub fn get(&self, op: u8) -> (r: Option<DecodeEntry>)
        requires
            self.wf(),
        ensures
            r == opcode_spec(op),
    {
        self.slots[op as usize]
    }
}

/// Builds the opcode table, defining each legal opcode once; a slot claimed
/// twice would fail with `TableConstructionConflict`, which the proof below
/// shows cannot happen.
pub fn generate_decoder() -> (r: Result<DecodeTable, CpuError>)
    ensures
        r matches Ok(t) && t.wf(),
{
    let mut table = DecodeTable { slots: Vec::new() };
    let mut n: usize = 0;
    while n < 256
        invariant
            n <= 256,
            table@.len() == n,
            forall|i: int| 0 <= i < n ==> #[trigger] table@[i] is None,
        decreases 256 - n,
    {
        table.slots.push(None);
        n = n + 1;
    }
    let mut op: usize = 0;
    while op < 256
        invariant
            op <= 256,
            table@.len() == 256,
            forall|i: int| 0 <= i < op ==> #[trigger] table@[i] == opcode_spec(i as u8),
            forall|i: int| op <= i < 256 ==> #[trigger] table@[i] is None,
        decreases 256 - op,
    {
        match lookup(op as u8) {
            Some(e) => {
                match table.define(op as u8, e) {
                    Ok(()) => {},
                    Err(err) => {
                        return Err(err);
                    },
                }
            },
            None => {},
        }
        op = op + 1;
    }
    Ok(table)
}

} // verus!
