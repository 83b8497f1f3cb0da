use vstd::prelude::*;
use crate::error::NesError;
use crate::instructions::{AddressingMode, Opcode};

verus! {

/// The official opcode table: mnemonic, addressing mode and base cycle count of each
/// legal opcode byte; `None` for the bytes outside the official set.
pub open spec fn opcode_table(opcode: u8) -> Option<(Opcode, AddressingMode, u8)> {
    match opcode {
        0x69 => Some((Opcode::ADC, AddressingMode::Immediate, 2u8)),
        0x65 => Some((Opcode::ADC, AddressingMode::ZeroPage, 3u8)),
        0x75 => Some((Opcode::ADC, AddressingMode::ZeroPageIndexX, 4u8)),
        0x6D => Some((Opcode::ADC, AddressingMode::Absolute, 4u8)),
        0x7D => Some((Opcode::ADC, AddressingMode::AbsoluteIndexX, 4u8)),
        0x79 => Some((Opcode::ADC, AddressingMode::AbsoluteIndexY, 4u8)),
        0x61 => Some((Opcode::ADC, AddressingMode::IndirectX, 6u8)),
        0x71 => Some((Opcode::ADC, AddressingMode::IndirectY, 5u8)),
        0x29 => Some((Opcode::AND, AddressingMode::Immediate, 2u8)),
        0x25 => Some((Opcode::AND, AddressingMode::ZeroPage, 3u8)),
        0x35 => Some((Opcode::AND, AddressingMode::ZeroPageIndexX, 4u8)),
        0x2D => Some((Opcode::AND, AddressingMode::Absolute, 4u8)),
        0x3D => Some((Opcode::AND, AddressingMode::AbsoluteIndexX, 4u8)),
        0x39 => Some((Opcode::AND, AddressingMode::AbsoluteIndexY, 4u8)),
        0x21 => Some((Opcode::AND, AddressingMode::IndirectX, 6u8)),
        0x31 => Some((Opcode::AND, AddressingMode::IndirectY, 5u8)),
        0x0A => Some((Opcode::ASL, AddressingMode::Accumulator, 2u8)),
        0x06 => Some((Opcode::ASL, AddressingMode::ZeroPage, 5u8)),
        0x16 => Some((Opcode::ASL, AddressingMode::ZeroPageIndexX, 6u8)),
        0x0E => Some((Opcode::ASL, AddressingMode::Absolute, 6u8)),
        0x1E => Some((Opcode::ASL, AddressingMode::AbsoluteIndexX, 7u8)),
        0x10 => Some((Opcode::BPL, AddressingMode::Relative, 2u8)),
        0x30 => Some((Opcode::BMI, AddressingMode::Relative, 2u8)),
        0x50 => Some((Opcode::BVC, AddressingMode::Relative, 2u8)),
        0x70 => Some((Opcode::BVS, AddressingMode::Relative, 2u8)),
        0x90 => Some((Opcode::BCC, AddressingMode::Relative, 2u8)),
        0xB0 => Some((Opcode::BCS, AddressingMode::Relative, 2u8)),
        0xD0 => Some((Opcode::BNE, AddressingMode::Relative, 2u8)),
        0xF0 => Some((Opcode::BEQ, AddressingMode::Relative, 2u8)),
        0x24 => Some((Opcode::BIT, AddressingMode::ZeroPage, 3u8)),
        0x2C => Some((Opcode::BIT, AddressingMode::Absolute, 4u8)),
        0x00 => Some((Opcode::BRK, AddressingMode::Implicit, 7u8)),
        0xC9 => Some((Opcode::CMP, AddressingMode::Immediate, 2u8)),
        0xC5 => Some((Opcode::CMP, AddressingMode::ZeroPage, 3u8)),
        0xD5 => Some((Opcode::CMP, AddressingMode::ZeroPageIndexX, 4u8)),
        0xCD => Some((Opcode::CMP, AddressingMode::Absolute, 4u8)),
        0xDD => Some((Opcode::CMP, AddressingMode::AbsoluteIndexX, 4u8)),
        0xD9 => Some((Opcode::CMP, AddressingMode::AbsoluteIndexY, 4u8)),
        0xC1 => Some((Opcode::CMP, AddressingMode::IndirectX, 6u8)),
        0xD1 => Some((Opcode::CMP, AddressingMode::IndirectY, 5u8)),
        0xE0 => Some((Opcode::CPX, AddressingMode::Immediate, 2u8)),
        0xE4 => Some((Opcode::CPX, AddressingMode::ZeroPage, 3u8)),
        0xEC => Some((Opcode::CPX, AddressingMode::Absolute, 4u8)),
        0xC0 => Some((Opcode::CPY, AddressingMode::Immediate, 2u8)),
        0xC4 => Some((Opcode::CPY, AddressingMode::ZeroPage, 3u8)),
        0xCC => Some((Opcode::CPY, AddressingMode::Absolute, 4u8)),
        0xC6 => Some((Opcode::DEC, AddressingMode::ZeroPage, 5u8)),
        0xD6 => Some((Opcode::DEC, AddressingMode::ZeroPageIndexX, 6u8)),
        0xCE => Some((Opcode::DEC, AddressingMode::Absolute, 6u8)),
        0xDE => Some((Opcode::DEC, AddressingMode::AbsoluteIndexX, 7u8)),
        0x49 => Some((Opcode::EOR, AddressingMode::Immediate, 2u8)),
        0x45 => Some((Opcode::EOR, AddressingMode::ZeroPage, 3u8)),
        0x55 => Some((Opcode::EOR, AddressingMode::ZeroPageIndexX, 4u8)),
        0x4D => Some((Opcode::EOR, AddressingMode::Absolute, 4u8)),
        0x5D => Some((Opcode::EOR, AddressingMode::AbsoluteIndexX, 4u8)),
        0x59 => Some((Opcode::EOR, AddressingMode::AbsoluteIndexY, 4u8)),
        0x41 => Some((Opcode::EOR, AddressingMode::IndirectX, 6u8)),
        0x51 => Some((Opcode::EOR, AddressingMode::IndirectY, 5u8)),
        0x18 => Some((Opcode::CLC, AddressingMode::Implicit, 2u8)),
        0x38 => Some((Opcode::SEC, AddressingMode::Implicit, 2u8)),
        0x58 => Some((Opcode::CLI, AddressingMode::Implicit, 2u8)),
        0x78 => Some((Opcode::SEI, AddressingMode::Implicit, 2u8)),
        0xB8 => Some((Opcode::CLV, AddressingMode::Implicit, 2u8)),
        0xD8 => Some((Opcode::CLD, AddressingMode::Implicit, 2u8)),
        0xF8 => Some((Opcode::SED, AddressingMode::Implicit, 2u8)),
        0xE6 => Some((Opcode::INC, AddressingMode::ZeroPage, 5u8)),
        0xF6 => Some((Opcode::INC, AddressingMode::ZeroPageIndexX, 6u8)),
        0xEE => Some((Opcode::INC, AddressingMode::Absolute, 6u8)),
        0xFE => Some((Opcode::INC, AddressingMode::AbsoluteIndexX, 7u8)),
        0x4C => Some((Opcode::JMP, AddressingMode::AbsoluteJump, 3u8)),
        0x6C => Some((Opcode::JMP, AddressingMode::IndirectJump, 5u8)),
        0x20 => Some((Opcode::JSR, AddressingMode::AbsoluteJump, 6u8)),
        0xA9 => Some((Opcode::LDA, AddressingMode::Immediate, 2u8)),
        0xA5 => Some((Opcode::LDA, AddressingMode::ZeroPage, 3u8)),
        0xB5 => Some((Opcode::LDA, AddressingMode::ZeroPageIndexX, 4u8)),
        0xAD => Some((Opcode::LDA, AddressingMode::Absolute, 4u8)),
        0xBD => Some((Opcode::LDA, AddressingMode::AbsoluteIndexX, 4u8)),
        0xB9 => Some((Opcode::LDA, AddressingMode::AbsoluteIndexY, 4u8)),
        0xA1 => Some((Opcode::LDA, AddressingMode::IndirectX, 6u8)),
        0xB1 => Some((Opcode::LDA, AddressingMode::IndirectY, 5u8)),
        0xA2 => Some((Opcode::LDX, AddressingMode::Immediate, 2u8)),
        0xA6 => Some((Opcode::LDX, AddressingMode::ZeroPage, 3u8)),
        0xB6 => Some((Opcode::LDX, AddressingMode::ZeroPageIndexY, 4u8)),
        0xAE => Some((Opcode::LDX, AddressingMode::Absolute, 4u8)),
        0xBE => Some((Opcode::LDX, AddressingMode::AbsoluteIndexY, 4u8)),
        0xA0 => Some((Opcode::LDY, AddressingMode::Immediate, 2u8)),
        0xA4 => Some((Opcode::LDY, AddressingMode::ZeroPage, 3u8)),
        0xB4 => Some((Opcode::LDY, AddressingMode::ZeroPageIndexX, 4u8)),
        0xAC => Some((Opcode::LDY, AddressingMode::Absolute, 4u8)),
        0xBC => Some((Opcode::LDY, AddressingMode::AbsoluteIndexX, 4u8)),
        0x4A => Some((Opcode::LSR, AddressingMode::Accumulator, 2u8)),
        0x46 => Some((Opcode::LSR, AddressingMode::ZeroPage, 5u8)),
        0x56 => Some((Opcode::LSR, AddressingMode::ZeroPageIndexX, 6u8)),
        0x4E => Some((Opcode::LSR, AddressingMode::Absolute, 6u8)),
        0x5E => Some((Opcode::LSR, AddressingMode::AbsoluteIndexX, 7u8)),
        0xEA => Some((Opcode::NOP, AddressingMode::Implicit, 2u8)),
        0x09 => Some((Opcode::ORA, AddressingMode::Immediate, 2u8)),
        0x05 => Some((Opcode::ORA, AddressingMode::ZeroPage, 3u8)),
        0x15 => Some((Opcode::ORA, AddressingMode::ZeroPageIndexX, 4u8)),
        0x0D => Some((Opcode::ORA, AddressingMode::Absolute, 4u8)),
        0x1D => Some((Opcode::ORA, AddressingMode::AbsoluteIndexX, 4u8)),
        0x19 => Some((Opcode::ORA, AddressingMode::AbsoluteIndexY, 4u8)),
        0x01 => Some((Opcode::ORA, AddressingMode::IndirectX, 6u8)),
        0x11 => Some((Opcode::ORA, AddressingMode::IndirectY, 5u8)),
        0xAA => Some((Opcode::TAX, AddressingMode::Implicit, 2u8)),
        0x8A => Some((Opcode::TXA, AddressingMode::Implicit, 2u8)),
        0xCA => Some((Opcode::DEX, AddressingMode::Implicit, 2u8)),
        0xE8 => Some((Opcode::INX, AddressingMode::Implicit, 2u8)),
        0xA8 => Some((Opcode::TAY, AddressingMode::Implicit, 2u8)),
        0x98 => Some((Opcode::TYA, AddressingMode::Implicit, 2u8)),
        0x88 => Some((Opcode::DEY, AddressingMode::Implicit, 2u8)),
        0xC8 => Some((Opcode::INY, AddressingMode::Implicit, 2u8)),
        0x2A => Some((Opcode::ROL, AddressingMode::Accumulator, 2u8)),
        0x26 => Some((Opcode::ROL, AddressingMode::ZeroPage, 5u8)),
        0x36 => Some((Opcode::ROL, AddressingMode::ZeroPageIndexX, 6u8)),
        0x2E => Some((Opcode::ROL, AddressingMode::Absolute, 6u8)),
        0x3E => Some((Opcode::ROL, AddressingMode::AbsoluteIndexX, 7u8)),
        0x6A => Some((Opcode::ROR, AddressingMode::Accumulator, 2u8)),
        0x66 => Some((Opcode::ROR, AddressingMode::ZeroPage, 5u8)),
        0x76 => Some((Opcode::ROR, AddressingMode::ZeroPageIndexX, 6u8)),
        0x6E => Some((Opcode::ROR, AddressingMode::Absolute, 6u8)),
        0x7E => Some((Opcode::ROR, AddressingMode::AbsoluteIndexX, 7u8)),
        0x40 => Some((Opcode::RTI, AddressingMode::Implicit, 6u8)),
        0x60 => Some((Opcode::RTS, AddressingMode::Implicit, 6u8)),
        0xE9 => Some((Opcode::SBC, AddressingMode::Immediate, 2u8)),
        0xE5 => Some((Opcode::SBC, AddressingMode::ZeroPage, 3u8)),
        0xF5 => Some((Opcode::SBC, AddressingMode::ZeroPageIndexX, 4u8)),
        0xED => Some((Opcode::SBC, AddressingMode::Absolute, 4u8)),
        0xFD => Some((Opcode::SBC, AddressingMode::AbsoluteIndexX, 4u8)),
        0xF9 => Some((Opcode::SBC, AddressingMode::AbsoluteIndexY, 4u8)),
        0xE1 => Some((Opcode::SBC, AddressingMode::IndirectX, 6u8)),
        0xF1 => Some((Opcode::SBC, AddressingMode::IndirectY, 5u8)),
        0x85 => Some((Opcode::STA, AddressingMode::ZeroPage, 3u8)),
        0x95 => Some((Opcode::STA, AddressingMode::ZeroPageIndexX, 4u8)),
        0x8D => Some((Opcode::STA, AddressingMode::Absolute, 4u8)),
        0x9D => Some((Opcode::STA, AddressingMode::AbsoluteIndexX, 5u8)),
        0x99 => Some((Opcode::STA, AddressingMode::AbsoluteIndexY, 5u8)),
        0x81 => Some((Opcode::STA, AddressingMode::IndirectX, 6u8)),
        0x91 => Some((Opcode::STA, AddressingMode::IndirectY, 6u8)),
        0x9A => Some((Opcode::TXS, AddressingMode::Implicit, 2u8)),
        0xBA => Some((Opcode::TSX, AddressingMode::Implicit, 2u8)),
        0x48 => Some((Opcode::PHA, AddressingMode::Implicit, 3u8)),
        0x68 => Some((Opcode::PLA, AddressingMode::Implicit, 4u8)),
        0x08 => Some((Opcode::PHP, AddressingMode::Implicit, 3u8)),
        0x28 => Some((Opcode::PLP, AddressingMode::Implicit, 4u8)),
        0x86 => Some((Opcode::STX, AddressingMode::ZeroPage, 3u8)),
        0x96 => Some((Opcode::STX, AddressingMode::ZeroPageIndexY, 4u8)),
        0x8E => Some((Opcode::STX, AddressingMode::Absolute, 4u8)),
        0x84 => Some((Opcode::STY, AddressingMode::ZeroPage, 3u8)),
        0x94 => Some((Opcode::STY, AddressingMode::ZeroPageIndexX, 4u8)),
        0x8C => Some((Opcode::STY, AddressingMode::Absolute, 4u8)),
        _ => None,
    }
}

/// Decodes an opcode byte into its mnemonic, addressing mode and base cycle count.
pub fn decode_opcode(opcode: u8) -> (r: Result<(Opcode, AddressingMode, u8), NesError>)
    ensures
        opcode_table(opcode) matches Some(t) ==> r == Ok::<(Opcode, AddressingMode, u8), NesError>(t),
        opcode_table(opcode) is None ==> r == Err::<(Opcode, AddressingMode, u8), NesError>(NesError::IllegalOpcode(opcode)),
{
    let result = match opcode {
        0x69 => (Opcode::ADC, AddressingMode::Immediate, 2u8),
        0x65 => (Opcode::ADC, AddressingMode::ZeroPage, 3u8),
        0x75 => (Opcode::ADC, AddressingMode::ZeroPageIndexX, 4u8),
        0x6D => (Opcode::ADC, AddressingMode::Absolute, 4u8),
        0x7D => (Opcode::ADC, AddressingMode::AbsoluteIndexX, 4u8),
        0x79 => (Opcode::ADC, AddressingMode::AbsoluteIndexY, 4u8),
        0x61 => (Opcode::ADC, AddressingMode::IndirectX, 6u8),
        0x71 => (Opcode::ADC, AddressingMode::IndirectY, 5u8),
        0x29 => (Opcode::AND, AddressingMode::Immediate, 2u8),
        0x25 => (Opcode::AND, AddressingMode::ZeroPage, 3u8),
        0x35 => (Opcode::AND, AddressingMode::ZeroPageIndexX, 4u8),
        0x2D => (Opcode::AND, AddressingMode::Absolute, 4u8),
        0x3D => (Opcode::AND, AddressingMode::AbsoluteIndexX, 4u8),
        0x39 => (Opcode::AND, AddressingMode::AbsoluteIndexY, 4u8),
        0x21 => (Opcode::AND, AddressingMode::IndirectX, 6u8),
        0x31 => (Opcode::AND, AddressingMode::IndirectY, 5u8),
        0x0A => (Opcode::ASL, AddressingMode::Accumulator, 2u8),
        0x06 => (Opcode::ASL, AddressingMode::ZeroPage, 5u8),
        0x16 => (Opcode::ASL, AddressingMode::ZeroPageIndexX, 6u8),
        0x0E => (Opcode::ASL, AddressingMode::Absolute, 6u8),
        0x1E => (Opcode::ASL, AddressingMode::AbsoluteIndexX, 7u8),
        0x10 => (Opcode::BPL, AddressingMode::Relative, 2u8),
        0x30 => (Opcode::BMI, AddressingMode::Relative, 2u8),
        0x50 => (Opcode::BVC, AddressingMode::Relative, 2u8),
        0x70 => (Opcode::BVS, AddressingMode::Relative, 2u8),
        0x90 => (Opcode::BCC, AddressingMode::Relative, 2u8),
        0xB0 => (Opcode::BCS, AddressingMode::Relative, 2u8),
        0xD0 => (Opcode::BNE, AddressingMode::Relative, 2u8),
        0xF0 => (Opcode::BEQ, AddressingMode::Relative, 2u8),
        0x24 => (Opcode::BIT, AddressingMode::ZeroPage, 3u8),
        0x2C => (Opcode::BIT, AddressingMode::Absolute, 4u8),
        0x00 => (Opcode::BRK, AddressingMode::Implicit, 7u8),
        0xC9 => (Opcode::CMP, AddressingMode::Immediate, 2u8),
        0xC5 => (Opcode::CMP, AddressingMode::ZeroPage, 3u8),
        0xD5 => (Opcode::CMP, AddressingMode::ZeroPageIndexX, 4u8),
        0xCD => (Opcode::CMP, AddressingMode::Absolute, 4u8),
        0xDD => (Opcode::CMP, AddressingMode::AbsoluteIndexX, 4u8),
        0xD9 => (Opcode::CMP, AddressingMode::AbsoluteIndexY, 4u8),
        0xC1 => (Opcode::CMP, AddressingMode::IndirectX, 6u8),
        0xD1 => (Opcode::CMP, AddressingMode::IndirectY, 5u8),
        0xE0 => (Opcode::CPX, AddressingMode::Immediate, 2u8),
        0xE4 => (Opcode::CPX, AddressingMode::ZeroPage, 3u8),
        0xEC => (Opcode::CPX, AddressingMode::Absolute, 4u8),
        0xC0 => (Opcode::CPY, AddressingMode::Immediate, 2u8),
        0xC4 => (Opcode::CPY, AddressingMode::ZeroPage, 3u8),
        0xCC => (Opcode::CPY, AddressingMode::Absolute, 4u8),
        0xC6 => (Opcode::DEC, AddressingMode::ZeroPage, 5u8),
        0xD6 => (Opcode::DEC, AddressingMode::ZeroPageIndexX, 6u8),
        0xCE => (Opcode::DEC, AddressingMode::Absolute, 6u8),
        0xDE => (Opcode::DEC, AddressingMode::AbsoluteIndexX, 7u8),
        0x49 => (Opcode::EOR, AddressingMode::Immediate, 2u8),
        0x45 => (Opcode::EOR, AddressingMode::ZeroPage, 3u8),
        0x55 => (Opcode::EOR, AddressingMode::ZeroPageIndexX, 4u8),
        0x4D => (Opcode::EOR, AddressingMode::Absolute, 4u8),
        0x5D => (Opcode::EOR, AddressingMode::AbsoluteIndexX, 4u8),
        0x59 => (Opcode::EOR, AddressingMode::AbsoluteIndexY, 4u8),
        0x41 => (Opcode::EOR, AddressingMode::IndirectX, 6u8),
        0x51 => (Opcode::EOR, AddressingMode::IndirectY, 5u8),
        0x18 => (Opcode::CLC, AddressingMode::Implicit, 2u8),
        0x38 => (Opcode::SEC, AddressingMode::Implicit, 2u8),
        0x58 => (Opcode::CLI, AddressingMode::Implicit, 2u8),
        0x78 => (Opcode::SEI, AddressingMode::Implicit, 2u8),
        0xB8 => (Opcode::CLV, AddressingMode::Implicit, 2u8),
        0xD8 => (Opcode::CLD, AddressingMode::Implicit, 2u8),
        0xF8 => (Opcode::SED, AddressingMode::Implicit, 2u8),
        0xE6 => (Opcode::INC, AddressingMode::ZeroPage, 5u8),
        0xF6 => (Opcode::INC, AddressingMode::ZeroPageIndexX, 6u8),
        0xEE => (Opcode::INC, AddressingMode::Absolute, 6u8),
        0xFE => (Opcode::INC, AddressingMode::AbsoluteIndexX, 7u8),
        0x4C => (Opcode::JMP, AddressingMode::AbsoluteJump, 3u8),
        0x6C => (Opcode::JMP, AddressingMode::IndirectJump, 5u8),
        0x20 => (Opcode::JSR, AddressingMode::AbsoluteJump, 6u8),
        0xA9 => (Opcode::LDA, AddressingMode::Immediate, 2u8),
        0xA5 => (Opcode::LDA, AddressingMode::ZeroPage, 3u8),
        0xB5 => (Opcode::LDA, AddressingMode::ZeroPageIndexX, 4u8),
        0xAD => (Opcode::LDA, AddressingMode::Absolute, 4u8),
        0xBD => (Opcode::LDA, AddressingMode::AbsoluteIndexX, 4u8),
        0xB9 => (Opcode::LDA, AddressingMode::AbsoluteIndexY, 4u8),
        0xA1 => (Opcode::LDA, AddressingMode::IndirectX, 6u8),
        0xB1 => (Opcode::LDA, AddressingMode::IndirectY, 5u8),
        0xA2 => (Opcode::LDX, AddressingMode::Immediate, 2u8),
        0xA6 => (Opcode::LDX, AddressingMode::ZeroPage, 3u8),
        0xB6 => (Opcode::LDX, AddressingMode::ZeroPageIndexY, 4u8),
        0xAE => (Opcode::LDX, AddressingMode::Absolute, 4u8),
        0xBE => (Opcode::LDX, AddressingMode::AbsoluteIndexY, 4u8),
        0xA0 => (Opcode::LDY, AddressingMode::Immediate, 2u8),
        0xA4 => (Opcode::LDY, AddressingMode::ZeroPage, 3u8),
        0xB4 => (Opcode::LDY, AddressingMode::ZeroPageIndexX, 4u8),
        0xAC => (Opcode::LDY, AddressingMode::Absolute, 4u8),
        0xBC => (Opcode::LDY, AddressingMode::AbsoluteIndexX, 4u8),
        0x4A => (Opcode::LSR, AddressingMode::Accumulator, 2u8),
        0x46 => (Opcode::LSR, AddressingMode::ZeroPage, 5u8),
        0x56 => (Opcode::LSR, AddressingMode::ZeroPageIndexX, 6u8),
        0x4E => (Opcode::LSR, AddressingMode::Absolute, 6u8),
        0x5E => (Opcode::LSR, AddressingMode::AbsoluteIndexX, 7u8),
        0xEA => (Opcode::NOP, AddressingMode::Implicit, 2u8),
        0x09 => (Opcode::ORA, AddressingMode::Immediate, 2u8),
        0x05 => (Opcode::ORA, AddressingMode::ZeroPage, 3u8),
        0x15 => (Opcode::ORA, AddressingMode::ZeroPageIndexX, 4u8),
        0x0D => (Opcode::ORA, AddressingMode::Absolute, 4u8),
        0x1D => (Opcode::ORA, AddressingMode::AbsoluteIndexX, 4u8),
        0x19 => (Opcode::ORA, AddressingMode::AbsoluteIndexY, 4u8),
        0x01 => (Opcode::ORA, AddressingMode::IndirectX, 6u8),
        0x11 => (Opcode::ORA, AddressingMode::IndirectY, 5u8),
        0xAA => (Opcode::TAX, AddressingMode::Implicit, 2u8),
        0x8A => (Opcode::TXA, AddressingMode::Implicit, 2u8),
        0xCA => (Opcode::DEX, AddressingMode::Implicit, 2u8),
        0xE8 => (Opcode::INX, AddressingMode::Implicit, 2u8),
        0xA8 => (Opcode::TAY, AddressingMode::Implicit, 2u8),
        0x98 => (Opcode::TYA, AddressingMode::Implicit, 2u8),
        0x88 => (Opcode::DEY, AddressingMode::Implicit, 2u8),
        0xC8 => (Opcode::INY, AddressingMode::Implicit, 2u8),
        0x2A => (Opcode::ROL, AddressingMode::Accumulator, 2u8),
        0x26 => (Opcode::ROL, AddressingMode::ZeroPage, 5u8),
        0x36 => (Opcode::ROL, AddressingMode::ZeroPageIndexX, 6u8),
        0x2E => (Opcode::ROL, AddressingMode::Absolute, 6u8),
        0x3E => (Opcode::ROL, AddressingMode::AbsoluteIndexX, 7u8),
        0x6A => (Opcode::ROR, AddressingMode::Accumulator, 2u8),
        0x66 => (Opcode::ROR, AddressingMode::ZeroPage, 5u8),
        0x76 => (Opcode::ROR, AddressingMode::ZeroPageIndexX, 6u8),
        0x6E => (Opcode::ROR, AddressingMode::Absolute, 6u8),
        0x7E => (Opcode::ROR, AddressingMode::AbsoluteIndexX, 7u8),
        0x40 => (Opcode::RTI, AddressingMode::Implicit, 6u8),
        0x60 => (Opcode::RTS, AddressingMode::Implicit, 6u8),
        0xE9 => (Opcode::SBC, AddressingMode::Immediate, 2u8),
        0xE5 => (Opcode::SBC, AddressingMode::ZeroPage, 3u8),
        0xF5 => (Opcode::SBC, AddressingMode::ZeroPageIndexX, 4u8),
        0xED => (Opcode::SBC, AddressingMode::Absolute, 4u8),
        0xFD => (Opcode::SBC, AddressingMode::AbsoluteIndexX, 4u8),
        0xF9 => (Opcode::SBC, AddressingMode::AbsoluteIndexY, 4u8),
        0xE1 => (Opcode::SBC, AddressingMode::IndirectX, 6u8),
        0xF1 => (Opcode::SBC, AddressingMode::IndirectY, 5u8),
        0x85 => (Opcode::STA, AddressingMode::ZeroPage, 3u8),
        0x95 => (Opcode::STA, AddressingMode::ZeroPageIndexX, 4u8),
        0x8D => (Opcode::STA, AddressingMode::Absolute, 4u8),
        0x9D => (Opcode::STA, AddressingMode::AbsoluteIndexX, 5u8),
        0x99 => (Opcode::STA, AddressingMode::AbsoluteIndexY, 5u8),
        0x81 => (Opcode::STA, AddressingMode::IndirectX, 6u8),
        0x91 => (Opcode::STA, AddressingMode::IndirectY, 6u8),
        0x9A => (Opcode::TXS, AddressingMode::Implicit, 2u8),
        0xBA => (Opcode::TSX, AddressingMode::Implicit, 2u8),
        0x48 => (Opcode::PHA, AddressingMode::Implicit, 3u8),
        0x68 => (Opcode::PLA, AddressingMode::Implicit, 4u8),
        0x08 => (Opcode::PHP, AddressingMode::Implicit, 3u8),
        0x28 => (Opcode::PLP, AddressingMode::Implicit, 4u8),
        0x86 => (Opcode::STX, AddressingMode::ZeroPage, 3u8),
        0x96 => (Opcode::STX, AddressingMode::ZeroPageIndexY, 4u8),
        0x8E => (Opcode::STX, AddressingMode::Absolute, 4u8),
        0x84 => (Opcode::STY, AddressingMode::ZeroPage, 3u8),
        0x94 => (Opcode::STY, AddressingMode::ZeroPageIndexX, 4u8),
        0x8C => (Opcode::STY, AddressingMode::Absolute, 4u8),
        _ => {
            return Err(NesError::IllegalOpcode(opcode));
        }
    };
    Ok(result)
}


/// Every official opcode takes at least two and at most seven base cycles.
pub proof fn lemma_base_cycles(opcode: u8)
    ensures
        opcode_table(opcode) matches Some(t) ==> 2 <= t.2 <= 7,
{
}


/// The eight branch opcodes use relative addressing and two base cycles.
pub proof fn lemma_branch_entries(opcode: u8)
    ensures
        opcode_table(opcode) matches Some(t) ==> ((t.0 == Opcode::BPL || t.0 == Opcode::BMI || t.0 == Opcode::BVC
            || t.0 == Opcode::BVS || t.0 == Opcode::BCC || t.0 == Opcode::BCS || t.0 == Opcode::BNE
            || t.0 == Opcode::BEQ) ==> t.1 == AddressingMode::Relative && t.2 == 2),
{
}

} // verus!
