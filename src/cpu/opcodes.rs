//! The 256-entry opcode table: instruction, addressing mode and base cycles.
use vstd::prelude::*;

use crate::cpu::addressing::AddressingMode;

verus! {

#[derive(Clone, Copy, Debug, PartialEq, Eq, Structural)]
pub enum Instruction {
    LDA,
    LDX,
    LDY,
    STA,
    STX,
    STY,
    TAX,
    TAY,
    TXA,
    TYA,
    TSX,
    TXS,
    PHA,
    PHP,
    PLA,
    PLP,
    AND,
    EOR,
    ORA,
    BIT,
    ADC,
    SBC,
    CMP,
    CPX,
    CPY,
    INC,
    INX,
    INY,
    DEC,
    DEX,
    DEY,
    ASL,
    LSR,
    ROL,
    ROR,
    JMP,
    JSR,
    RTS,
    RTI,
    BCC,
    BCS,
    BEQ,
    BNE,
    BMI,
    BPL,
    BVC,
    BVS,
    CLC,
    CLD,
    CLI,
    CLV,
    SEC,
    SED,
    SEI,
    BRK,
    NOP,
}

#[derive(Clone, Copy, Debug, PartialEq, Eq, Structural)]
pub struct Opcode {
    pub instruction: Instruction,
    pub mode: AddressingMode,
    pub cycles: u8,
}

/// The official opcodes with their published base cycle counts; every other
/// byte is absent.
pub open spec fn opcode_table(op: u8) -> Option<Opcode> {
    match op {
        0x00 => Some(Opcode { instruction: Instruction::BRK, mode: AddressingMode::Implicit, cycles: 7 }),
        0x01 => Some(Opcode { instruction: Instruction::ORA, mode: AddressingMode::IndirectX, cycles: 6 }),
        0x05 => Some(Opcode { instruction: Instruction::ORA, mode: AddressingMode::ZeroPage, cycles: 3 }),
        0x06 => Some(Opcode { instruction: Instruction::ASL, mode: AddressingMode::ZeroPage, cycles: 5 }),
        0x08 => Some(Opcode { instruction: Instruction::PHP, mode: AddressingMode::Implicit, cycles: 3 }),
        0x09 => Some(Opcode { instruction: Instruction::ORA, mode: AddressingMode::Immediate, cycles: 2 }),
        0x0A => Some(Opcode { instruction: Instruction::ASL, mode: AddressingMode::Accumulator, cycles: 2 }),
        0x0D => Some(Opcode { instruction: Instruction::ORA, mode: AddressingMode::Absolute, cycles: 4 }),
        0x0E => Some(Opcode { instruction: Instruction::ASL, mode: AddressingMode::Absolute, cycles: 6 }),
        0x10 => Some(Opcode { instruction: Instruction::BPL, mode: AddressingMode::Relative, cycles: 2 }),
        0x11 => Some(Opcode { instruction: Instruction::ORA, mode: AddressingMode::IndirectY, cycles: 5 }),
        0x15 => Some(Opcode { instruction: Instruction::ORA, mode: AddressingMode::ZeroPageX, cycles: 4 }),
        0x16 => Some(Opcode { instruction: Instruction::ASL, mode: AddressingMode::ZeroPageX, cycles: 6 }),
        0x18 => Some(Opcode { instruction: Instruction::CLC, mode: AddressingMode::Implicit, cycles: 2 }),
        0x19 => Some(Opcode { instruction: Instruction::ORA, mode: AddressingMode::AbsoluteY, cycles: 4 }),
        0x1D => Some(Opcode { instruction: Instruction::ORA, mode: AddressingMode::AbsoluteX, cycles: 4 }),
        0x1E => Some(Opcode { instruction: Instruction::ASL, mode: AddressingMode::AbsoluteX, cycles: 7 }),
        0x20 => Some(Opcode { instruction: Instruction::JSR, mode: AddressingMode::Absolute, cycles: 6 }),
        0x21 => Some(Opcode { instruction: Instruction::AND, mode: AddressingMode::IndirectX, cycles: 6 }),
        0x24 => Some(Opcode { instruction: Instruction::BIT, mode: AddressingMode::ZeroPage, cycles: 3 }),
        0x25 => Some(Opcode { instruction: Instruction::AND, mode: AddressingMode::ZeroPage, cycles: 3 }),
        0x26 => Some(Opcode { instruction: Instruction::ROL, mode: AddressingMode::ZeroPage, cycles: 5 }),
        0x28 => Some(Opcode { instruction: Instruction::PLP, mode: AddressingMode::Implicit, cycles: 4 }),
        0x29 => Some(Opcode { instruction: Instruction::AND, mode: AddressingMode::Immediate, cycles: 2 }),
        0x2A => Some(Opcode { instruction: Instruction::ROL, mode: AddressingMode::Accumulator, cycles: 2 }),
        0x2C => Some(Opcode { instruction: Instruction::BIT, mode: AddressingMode::Absolute, cycles: 4 }),
        0x2D => Some(Opcode { instruction: Instruction::AND, mode: AddressingMode::Absolute, cycles: 4 }),
        0x2E => Some(Opcode { instruction: Instruction::ROL, mode: AddressingMode::Absolute, cycles: 6 }),
        0x30 => Some(Opcode { instruction: Instruction::BMI, mode: AddressingMode::Relative, cycles: 2 }),
        0x31 => Some(Opcode { instruction: Instruction::AND, mode: AddressingMode::IndirectY, cycles: 5 }),
        0x35 => Some(Opcode { instruction: Instruction::AND, mode: AddressingMode::ZeroPageX, cycles: 4 }),
        0x36 => Some(Opcode { instruction: Instruction::ROL, mode: AddressingMode::ZeroPageX, cycles: 6 }),
        0x38 => Some(Opcode { instruction: Instruction::SEC, mode: AddressingMode::Implicit, cycles: 2 }),
        0x39 => Some(Opcode { instruction: Instruction::AND, mode: AddressingMode::AbsoluteY, cycles: 4 }),
        0x3D => Some(Opcode { instruction: Instruction::AND, mode: AddressingMode::AbsoluteX, cycles: 4 }),
        0x3E => Some(Opcode { instruction: Instruction::ROL, mode: AddressingMode::AbsoluteX, cycles: 7 }),
        0x40 => Some(Opcode { instruction: Instruction::RTI, mode: AddressingMode::Implicit, cycles: 6 }),
        0x41 => Some(Opcode { instruction: Instruction::EOR, mode: AddressingMode::IndirectX, cycles: 6 }),
        0x45 => Some(Opcode { instruction: Instruction::EOR, mode: AddressingMode::ZeroPage, cycles: 3 }),
        0x46 => Some(Opcode { instruction: Instruction::LSR, mode: AddressingMode::ZeroPage, cycles: 5 }),
        0x48 => Some(Opcode { instruction: Instruction::PHA, mode: AddressingMode::Implicit, cycles: 3 }),
        0x49 => Some(Opcode { instruction: Instruction::EOR, mode: AddressingMode::Immediate, cycles: 2 }),
        0x4A => Some(Opcode { instruction: Instruction::LSR, mode: AddressingMode::Accumulator, cycles: 2 }),
        0x4C => Some(Opcode { instruction: Instruction::JMP, mode: AddressingMode::Absolute, cycles: 3 }),
        0x4D => Some(Opcode { instruction: Instruction::EOR, mode: AddressingMode::Absolute, cycles: 4 }),
        0x4E => Some(Opcode { instruction: Instruction::LSR, mode: AddressingMode::Absolute, cycles: 6 }),
        0x50 => Some(Opcode { instruction: Instruction::BVC, mode: AddressingMode::Relative, cycles: 2 }),
        0x51 => Some(Opcode { instruction: Instruction::EOR, mode: AddressingMode::IndirectY, cycles: 5 }),
        0x55 => Some(Opcode { instruction: Instruction::EOR, mode: AddressingMode::ZeroPageX, cycles: 4 }),
        0x56 => Some(Opcode { instruction: Instruction::LSR, mode: AddressingMode::ZeroPageX, cycles: 6 }),
        0x58 => Some(Opcode { instruction: Instruction::CLI, mode: AddressingMode::Implicit, cycles: 2 }),
        0x59 => Some(Opcode { instruction: Instruction::EOR, mode: AddressingMode::AbsoluteY, cycles: 4 }),
        0x5D => Some(Opcode { instruction: Instruction::EOR, mode: AddressingMode::AbsoluteX, cycles: 4 }),
        0x5E => Some(Opcode { instruction: Instruction::LSR, mode: AddressingMode::AbsoluteX, cycles: 7 }),
        0x60 => Some(Opcode { instruction: Instruction::RTS, mode: AddressingMode::Implicit, cycles: 6 }),
        0x61 => Some(Opcode { instruction: Instruction::ADC, mode: AddressingMode::IndirectX, cycles: 6 }),
        0x65 => Some(Opcode { instruction: Instruction::ADC, mode: AddressingMode::ZeroPage, cycles: 3 }),
        0x66 => Some(Opcode { instruction: Instruction::ROR, mode: AddressingMode::ZeroPage, cycles: 5 }),
        0x68 => Some(Opcode { instruction: Instruction::PLA, mode: AddressingMode::Implicit, cycles: 4 }),
        0x69 => Some(Opcode { instruction: Instruction::ADC, mode: AddressingMode::Immediate, cycles: 2 }),
        0x6A => Some(Opcode { instruction: Instruction::ROR, mode: AddressingMode::Accumulator, cycles: 2 }),
        0x6C => Some(Opcode { instruction: Instruction::JMP, mode: AddressingMode::Indirect, cycles: 5 }),
        0x6D => Some(Opcode { instruction: Instruction::ADC, mode: AddressingMode::Absolute, cycles: 4 }),
        0x6E => Some(Opcode { instruction: Instruction::ROR, mode: AddressingMode::Absolute, cycles: 6 }),
        0x70 => Some(Opcode { instruction: Instruction::BVS, mode: AddressingMode::Relative, cycles: 2 }),
        0x71 => Some(Opcode { instruction: Instruction::ADC, mode: AddressingMode::IndirectY, cycles: 5 }),
        0x75 => Some(Opcode { instruction: Instruction::ADC, mode: AddressingMode::ZeroPageX, cycles: 4 }),
        0x76 => Some(Opcode { instruction: Instruction::ROR, mode: AddressingMode::ZeroPageX, cycles: 6 }),
        0x78 => Some(Opcode { instruction: Instruction::SEI, mode: AddressingMode::Implicit, cycles: 2 }),
        0x79 => Some(Opcode { instruction: Instruction::ADC, mode: AddressingMode::AbsoluteY, cycles: 4 }),
        0x7D => Some(Opcode { instruction: Instruction::ADC, mode: AddressingMode::AbsoluteX, cycles: 4 }),
        0x7E => Some(Opcode { instruction: Instruction::ROR, mode: AddressingMode::AbsoluteX, cycles: 7 }),
        0x81 => Some(Opcode { instruction: Instruction::STA, mode: AddressingMode::IndirectX, cycles: 6 }),
        0x84 => Some(Opcode { instruction: Instruction::STY, mode: AddressingMode::ZeroPage, cycles: 3 }),
        0x85 => Some(Opcode { instruction: Instruction::STA, mode: AddressingMode::ZeroPage, cycles: 3 }),
        0x86 => Some(Opcode { instruction: Instruction::STX, mode: AddressingMode::ZeroPage, cycles: 3 }),
        0x88 => Some(Opcode { instruction: Instruction::DEY, mode: AddressingMode::Implicit, cycles: 2 }),
        0x8A => Some(Opcode { instruction: Instruction::TXA, mode: AddressingMode::Implicit, cycles: 2 }),
        0x8C => Some(Opcode { instruction: Instruction::STY, mode: AddressingMode::Absolute, cycles: 4 }),
        0x8D => Some(Opcode { instruction: Instruction::STA, mode: AddressingMode::Absolute, cycles: 4 }),
        0x8E => Some(Opcode { instruction: Instruction::STX, mode: AddressingMode::Absolute, cycles: 4 }),
        0x90 => Some(Opcode { instruction: Instruction::BCC, mode: AddressingMode::Relative, cycles: 2 }),
        0x91 => Some(Opcode { instruction: Instruction::STA, mode: AddressingMode::IndirectY, cycles: 6 }),
        0x94 => Some(Opcode { instruction: Instruction::STY, mode: AddressingMode::ZeroPageX, cycles: 4 }),
        0x95 => Some(Opcode { instruction: Instruction::STA, mode: AddressingMode::ZeroPageX, cycles: 4 }),
        0x96 => Some(Opcode { instruction: Instruction::STX, mode: AddressingMode::ZeroPageY, cycles: 4 }),
        0x98 => Some(Opcode { instruction: Instruction::TYA, mode: AddressingMode::Implicit, cycles: 2 }),
        0x99 => Some(Opcode { instruction: Instruction::STA, mode: AddressingMode::AbsoluteY, cycles: 5 }),
        0x9A => Some(Opcode { instruction: Instruction::TXS, mode: AddressingMode::Implicit, cycles: 2 }),
        0x9D => Some(Opcode { instruction: Instruction::STA, mode: AddressingMode::AbsoluteX, cycles: 5 }),
        0xA0 => Some(Opcode { instruction: Instruction::LDY, mode: AddressingMode::Immediate, cycles: 2 }),
        0xA1 => Some(Opcode { instruction: Instruction::LDA, mode: AddressingMode::IndirectX, cycles: 6 }),
        0xA2 => Some(Opcode { instruction: Instruction::LDX, mode: AddressingMode::Immediate, cycles: 2 }),
        0xA4 => Some(Opcode { instruction: Instruction::LDY, mode: AddressingMode::ZeroPage, cycles: 3 }),
        0xA5 => Some(Opcode { instruction: Instruction::LDA, mode: AddressingMode::ZeroPage, cycles: 3 }),
        0xA6 => Some(Opcode { instruction: Instruction::LDX, mode: AddressingMode::ZeroPage, cycles: 3 }),
        0xA8 => Some(Opcode { instruction: Instruction::TAY, mode: AddressingMode::Implicit, cycles: 2 }),
        0xA9 => Some(Opcode { instruction: Instruction::LDA, mode: AddressingMode::Immediate, cycles: 2 }),
        0xAA => Some(Opcode { instruction: Instruction::TAX, mode: AddressingMode::Implicit, cycles: 2 }),
        0xAC => Some(Opcode { instruction: Instruction::LDY, mode: AddressingMode::Absolute, cycles: 4 }),
        0xAD => Some(Opcode { instruction: Instruction::LDA, mode: AddressingMode::Absolute, cycles: 4 }),
        0xAE => Some(Opcode { instruction: Instruction::LDX, mode: AddressingMode::Absolute, cycles: 4 }),
        0xB0 => Some(Opcode { instruction: Instruction::BCS, mode: AddressingMode::Relative, cycles: 2 }),
        0xB1 => Some(Opcode { instruction: Instruction::LDA, mode: AddressingMode::IndirectY, cycles: 5 }),
        0xB4 => Some(Opcode { instruction: Instruction::LDY, mode: AddressingMode::ZeroPageX, cycles: 4 }),
        0xB5 => Some(Opcode { instruction: Instruction::LDA, mode: AddressingMode::ZeroPageX, cycles: 4 }),
        0xB6 => Some(Opcode { instruction: Instruction::LDX, mode: AddressingMode::ZeroPageY, cycles: 4 }),
        0xB8 => Some(Opcode { instruction: Instruction::CLV, mode: AddressingMode::Implicit, cycles: 2 }),
        0xB9 => Some(Opcode { instruction: Instruction::LDA, mode: AddressingMode::AbsoluteY, cycles: 4 }),
        0xBA => Some(Opcode { instruction: Instruction::TSX, mode: AddressingMode::Implicit, cycles: 2 }),
        0xBC => Some(Opcode { instruction: Instruction::LDY, mode: AddressingMode::AbsoluteX, cycles: 4 }),
        0xBD => Some(Opcode { instruction: Instruction::LDA, mode: AddressingMode::AbsoluteX, cycles: 4 }),
        0xBE => Some(Opcode { instruction: Instruction::LDX, mode: AddressingMode::AbsoluteY, cycles: 4 }),
        0xC0 => Some(Opcode { instruction: Instruction::CPY, mode: AddressingMode::Immediate, cycles: 2 }),
        0xC1 => Some(Opcode { instruction: Instruction::CMP, mode: AddressingMode::IndirectX, cycles: 6 }),
        0xC4 => Some(Opcode { instruction: Instruction::CPY, mode: AddressingMode::ZeroPage, cycles: 3 }),
        0xC5 => Some(Opcode { instruction: Instruction::CMP, mode: AddressingMode::ZeroPage, cycles: 3 }),
        0xC6 => Some(Opcode { instruction: Instruction::DEC, mode: AddressingMode::ZeroPage, cycles: 5 }),
        0xC8 => Some(Opcode { instruction: Instruction::INY, mode: AddressingMode::Implicit, cycles: 2 }),
        0xC9 => Some(Opcode { instruction: Instruction::CMP, mode: AddressingMode::Immediate, cycles: 2 }),
        0xCA => Some(Opcode { instruction: Instruction::DEX, mode: AddressingMode::Implicit, cycles: 2 }),
        0xCC => Some(Opcode { instruction: Instruction::CPY, mode: AddressingMode::Absolute, cycles: 4 }),
        0xCD => Some(Opcode { instruction: Instruction::CMP, mode: AddressingMode::Absolute, cycles: 4 }),
        0xCE => Some(Opcode { instruction: Instruction::DEC, mode: AddressingMode::Absolute, cycles: 6 }),
        0xD0 => Some(Opcode { instruction: Instruction::BNE, mode: AddressingMode::Relative, cycles: 2 }),
        0xD1 => Some(Opcode { instruction: Instruction::CMP, mode: AddressingMode::IndirectY, cycles: 5 }),
        0xD5 => Some(Opcode { instruction: Instruction::CMP, mode: AddressingMode::ZeroPageX, cycles: 4 }),
        0xD6 => Some(Opcode { instruction: Instruction::DEC, mode: AddressingMode::ZeroPageX, cycles: 6 }),
        0xD8 => Some(Opcode { instruction: Instruction::CLD, mode: AddressingMode::Implicit, cycles: 2 }),
        0xD9 => Some(Opcode { instruction: Instruction::CMP, mode: AddressingMode::AbsoluteY, cycles: 4 }),
        0xDD => Some(Opcode { instruction: Instruction::CMP, mode: AddressingMode::AbsoluteX, cycles: 4 }),
        0xDE => Some(Opcode { instruction: Instruction::DEC, mode: AddressingMode::AbsoluteX, cycles: 7 }),
        0xE0 => Some(Opcode { instruction: Instruction::CPX, mode: AddressingMode::Immediate, cycles: 2 }),
        0xE1 => Some(Opcode { instruction: Instruction::SBC, mode: AddressingMode::IndirectX, cycles: 6 }),
        0xE4 => Some(Opcode { instruction: Instruction::CPX, mode: AddressingMode::ZeroPage, cycles: 3 }),
        0xE5 => Some(Opcode { instruction: Instruction::SBC, mode: AddressingMode::ZeroPage, cycles: 3 }),
        0xE6 => Some(Opcode { instruction: Instruction::INC, mode: AddressingMode::ZeroPage, cycles: 5 }),
        0xE8 => Some(Opcode { instruction: Instruction::INX, mode: AddressingMode::Implicit, cycles: 2 }),
        0xE9 => Some(Opcode { instruction: Instruction::SBC, mode: AddressingMode::Immediate, cycles: 2 }),
        0xEA => Some(Opcode { instruction: Instruction::NOP, mode: AddressingMode::Implicit, cycles: 2 }),
        0xEC => Some(Opcode { instruction: Instruction::CPX, mode: AddressingMode::Absolute, cycles: 4 }),
        0xED => Some(Opcode { instruction: Instruction::SBC, mode: AddressingMode::Absolute, cycles: 4 }),
        0xEE => Some(Opcode { instruction: Instruction::INC, mode: AddressingMode::Absolute, cycles: 6 }),
        0xF0 => Some(Opcode { instruction: Instruction::BEQ, mode: AddressingMode::Relative, cycles: 2 }),
        0xF1 => Some(Opcode { instruction: Instruction::SBC, mode: AddressingMode::IndirectY, cycles: 5 }),
        0xF5 => Some(Opcode { instruction: Instruction::SBC, mode: AddressingMode::ZeroPageX, cycles: 4 }),
        0xF6 => Some(Opcode { instruction: Instruction::INC, mode: AddressingMode::ZeroPageX, cycles: 6 }),
        0xF8 => Some(Opcode { instruction: Instruction::SED, mode: AddressingMode::Implicit, cycles: 2 }),
        0xF9 => Some(Opcode { instruction: Instruction::SBC, mode: AddressingMode::AbsoluteY, cycles: 4 }),
        0xFD => Some(Opcode { instruction: Instruction::SBC, mode: AddressingMode::AbsoluteX, cycles: 4 }),
        0xFE => Some(Opcode { instruction: Instruction::INC, mode: AddressingMode::AbsoluteX, cycles: 7 }),
        _ => None,
    }
}

/// Looks up an opcode byte in the table.
pub fn decode(op: u8) -> (r: Option<Opcode>)
    ensures
        r == opcode_table(op),
{
    match op {
        0x00 => Some(Opcode { instruction: Instruction::BRK, mode: AddressingMode::Implicit, cycles: 7 }),
        0x01 => Some(Opcode { instruction: Instruction::ORA, mode: AddressingMode::IndirectX, cycles: 6 }),
        0x05 => Some(Opcode { instruction: Instruction::ORA, mode: AddressingMode::ZeroPage, cycles: 3 }),
        0x06 => Some(Opcode { instruction: Instruction::ASL, mode: AddressingMode::ZeroPage, cycles: 5 }),
        0x08 => Some(Opcode { instruction: Instruction::PHP, mode: AddressingMode::Implicit, cycles: 3 }),
        0x09 => Some(Opcode { instruction: Instruction::ORA, mode: AddressingMode::Immediate, cycles: 2 }),
        0x0A => Some(Opcode { instruction: Instruction::ASL, mode: AddressingMode::Accumulator, cycles: 2 }),
        0x0D => Some(Opcode { instruction: Instruction::ORA, mode: AddressingMode::Absolute, cycles: 4 }),
        0x0E => Some(Opcode { instruction: Instruction::ASL, mode: AddressingMode::Absolute, cycles: 6 }),
        0x10 => Some(Opcode { instruction: Instruction::BPL, mode: AddressingMode::Relative, cycles: 2 }),
        0x11 => Some(Opcode { instruction: Instruction::ORA, mode: AddressingMode::IndirectY, cycles: 5 }),
        0x15 => Some(Opcode { instruction: Instruction::ORA, mode: AddressingMode::ZeroPageX, cycles: 4 }),
        0x16 => Some(Opcode { instruction: Instruction::ASL, mode: AddressingMode::ZeroPageX, cycles: 6 }),
        0x18 => Some(Opcode { instruction: Instruction::CLC, mode: AddressingMode::Implicit, cycles: 2 }),
        0x19 => Some(Opcode { instruction: Instruction::ORA, mode: AddressingMode::AbsoluteY, cycles: 4 }),
        0x1D => Some(Opcode { instruction: Instruction::ORA, mode: AddressingMode::AbsoluteX, cycles: 4 }),
        0x1E => Some(Opcode { instruction: Instruction::ASL, mode: AddressingMode::AbsoluteX, cycles: 7 }),
        0x20 => Some(Opcode { instruction: Instruction::JSR, mode: AddressingMode::Absolute, cycles: 6 }),
        0x21 => Some(Opcode { instruction: Instruction::AND, mode: AddressingMode::IndirectX, cycles: 6 }),
        0x24 => Some(Opcode { instruction: Instruction::BIT, mode: AddressingMode::ZeroPage, cycles: 3 }),
        0x25 => Some(Opcode { instruction: Instruction::AND, mode: AddressingMode::ZeroPage, cycles: 3 }),
        0x26 => Some(Opcode { instruction: Instruction::ROL, mode: AddressingMode::ZeroPage, cycles: 5 }),
        0x28 => Some(Opcode { instruction: Instruction::PLP, mode: AddressingMode::Implicit, cycles: 4 }),
        0x29 => Some(Opcode { instruction: Instruction::AND, mode: AddressingMode::Immediate, cycles: 2 }),
        0x2A => Some(Opcode { instruction: Instruction::ROL, mode: AddressingMode::Accumulator, cycles: 2 }),
        0x2C => Some(Opcode { instruction: Instruction::BIT, mode: AddressingMode::Absolute, cycles: 4 }),
        0x2D => Some(Opcode { instruction: Instruction::AND, mode: AddressingMode::Absolute, cycles: 4 }),
        0x2E => Some(Opcode { instruction: Instruction::ROL, mode: AddressingMode::Absolute, cycles: 6 }),
        0x30 => Some(Opcode { instruction: Instruction::BMI, mode: AddressingMode::Relative, cycles: 2 }),
        0x31 => Some(Opcode { instruction: Instruction::AND, mode: AddressingMode::IndirectY, cycles: 5 }),
        0x35 => Some(Opcode { instruction: Instruction::AND, mode: AddressingMode::ZeroPageX, cycles: 4 }),
        0x36 => Some(Opcode { instruction: Instruction::ROL, mode: AddressingMode::ZeroPageX, cycles: 6 }),
        0x38 => Some(Opcode { instruction: Instruction::SEC, mode: AddressingMode::Implicit, cycles: 2 }),
        0x39 => Some(Opcode { instruction: Instruction::AND, mode: AddressingMode::AbsoluteY, cycles: 4 }),
        0x3D => Some(Opcode { instruction: Instruction::AND, mode: AddressingMode::AbsoluteX, cycles: 4 }),
        0x3E => Some(Opcode { instruction: Instruction::ROL, mode: AddressingMode::AbsoluteX, cycles: 7 }),
        0x40 => Some(Opcode { instruction: Instruction::RTI, mode: AddressingMode::Implicit, cycles: 6 }),
        0x41 => Some(Opcode { instruction: Instruction::EOR, mode: AddressingMode::IndirectX, cycles: 6 }),
        0x45 => Some(Opcode { instruction: Instruction::EOR, mode: AddressingMode::ZeroPage, cycles: 3 }),
        0x46 => Some(Opcode { instruction: Instruction::LSR, mode: AddressingMode::ZeroPage, cycles: 5 }),
        0x48 => Some(Opcode { instruction: Instruction::PHA, mode: AddressingMode::Implicit, cycles: 3 }),
        0x49 => Some(Opcode { instruction: Instruction::EOR, mode: AddressingMode::Immediate, cycles: 2 }),
        0x4A => Some(Opcode { instruction: Instruction::LSR, mode: AddressingMode::Accumulator, cycles: 2 }),
        0x4C => Some(Opcode { instruction: Instruction::JMP, mode: AddressingMode::Absolute, cycles: 3 }),
        0x4D => Some(Opcode { instruction: Instruction::EOR, mode: AddressingMode::Absolute, cycles: 4 }),
        0x4E => Some(Opcode { instruction: Instruction::LSR, mode: AddressingMode::Absolute, cycles: 6 }),
        0x50 => Some(Opcode { instruction: Instruction::BVC, mode: AddressingMode::Relative, cycles: 2 }),
        0x51 => Some(Opcode { instruction: Instruction::EOR, mode: AddressingMode::IndirectY, cycles: 5 }),
        0x55 => Some(Opcode { instruction: Instruction::EOR, mode: AddressingMode::ZeroPageX, cycles: 4 }),
        0x56 => Some(Opcode { instruction: Instruction::LSR, mode: AddressingMode::ZeroPageX, cycles: 6 }),
        0x58 => Some(Opcode { instruction: Instruction::CLI, mode: AddressingMode::Implicit, cycles: 2 }),
        0x59 => Some(Opcode { instruction: Instruction::EOR, mode: AddressingMode::AbsoluteY, cycles: 4 }),
        0x5D => Some(Opcode { instruction: Instruction::EOR, mode: AddressingMode::AbsoluteX, cycles: 4 }),
        0x5E => Some(Opcode { instruction: Instruction::LSR, mode: AddressingMode::AbsoluteX, cycles: 7 }),
        0x60 => Some(Opcode { instruction: Instruction::RTS, mode: AddressingMode::Implicit, cycles: 6 }),
        0x61 => Some(Opcode { instruction: Instruction::ADC, mode: AddressingMode::IndirectX, cycles: 6 }),
        0x65 => Some(Opcode { instruction: Instruction::ADC, mode: AddressingMode::ZeroPage, cycles: 3 }),
        0x66 => Some(Opcode { instruction: Instruction::ROR, mode: AddressingMode::ZeroPage, cycles: 5 }),
        0x68 => Some(Opcode { instruction: Instruction::PLA, mode: AddressingMode::Implicit, cycles: 4 }),
        0x69 => Some(Opcode { instruction: Instruction::ADC, mode: AddressingMode::Immediate, cycles: 2 }),
        0x6A => Some(Opcode { instruction: Instruction::ROR, mode: AddressingMode::Accumulator, cycles: 2 }),
        0x6C => Some(Opcode { instruction: Instruction::JMP, mode: AddressingMode::Indirect, cycles: 5 }),
        0x6D => Some(Opcode { instruction: Instruction::ADC, mode: AddressingMode::Absolute, cycles: 4 }),
        0x6E => Some(Opcode { instruction: Instruction::ROR, mode: AddressingMode::Absolute, cycles: 6 }),
        0x70 => Some(Opcode { instruction: Instruction::BVS, mode: AddressingMode::Relative, cycles: 2 }),
        0x71 => Some(Opcode { instruction: Instruction::ADC, mode: AddressingMode::IndirectY, cycles: 5 }),
        0x75 => Some(Opcode { instruction: Instruction::ADC, mode: AddressingMode::ZeroPageX, cycles: 4 }),
        0x76 => Some(Opcode { instruction: Instruction::ROR, mode: AddressingMode::ZeroPageX, cycles: 6 }),
        0x78 => Some(Opcode { instruction: Instruction::SEI, mode: AddressingMode::Implicit, cycles: 2 }),
        0x79 => Some(Opcode { instruction: Instruction::ADC, mode: AddressingMode::AbsoluteY, cycles: 4 }),
        0x7D => Some(Opcode { instruction: Instruction::ADC, mode: AddressingMode::AbsoluteX, cycles: 4 }),
        0x7E => Some(Opcode { instruction: Instruction::ROR, mode: AddressingMode::AbsoluteX, cycles: 7 }),
        0x81 => Some(Opcode { instruction: Instruction::STA, mode: AddressingMode::IndirectX, cycles: 6 }),
        0x84 => Some(Opcode { instruction: Instruction::STY, mode: AddressingMode::ZeroPage, cycles: 3 }),
        0x85 => Some(Opcode { instruction: Instruction::STA, mode: AddressingMode::ZeroPage, cycles: 3 }),
        0x86 => Some(Opcode { instruction: Instruction::STX, mode: AddressingMode::ZeroPage, cycles: 3 }),
        0x88 => Some(Opcode { instruction: Instruction::DEY, mode: AddressingMode::Implicit, cycles: 2 }),
        0x8A => Some(Opcode { instruction: Instruction::TXA, mode: AddressingMode::Implicit, cycles: 2 }),
        0x8C => Some(Opcode { instruction: Instruction::STY, mode: AddressingMode::Absolute, cycles: 4 }),
        0x8D => Some(Opcode { instruction: Instruction::STA, mode: AddressingMode::Absolute, cycles: 4 }),
        0x8E => Some(Opcode { instruction: Instruction::STX, mode: AddressingMode::Absolute, cycles: 4 }),
        0x90 => Some(Opcode { instruction: Instruction::BCC, mode: AddressingMode::Relative, cycles: 2 }),
        0x91 => Some(Opcode { instruction: Instruction::STA, mode: AddressingMode::IndirectY, cycles: 6 }),
        0x94 => Some(Opcode { instruction: Instruction::STY, mode: AddressingMode::ZeroPageX, cycles: 4 }),
        0x95 => Some(Opcode { instruction: Instruction::STA, mode: AddressingMode::ZeroPageX, cycles: 4 }),
        0x96 => Some(Opcode { instruction: Instruction::STX, mode: AddressingMode::ZeroPageY, cycles: 4 }),
        0x98 => Some(Opcode { instruction: Instruction::TYA, mode: AddressingMode::Implicit, cycles: 2 }),
        0x99 => Some(Opcode { instruction: Instruction::STA, mode: AddressingMode::AbsoluteY, cycles: 5 }),
        0x9A => Some(Opcode { instruction: Instruction::TXS, mode: AddressingMode::Implicit, cycles: 2 }),
        0x9D => Some(Opcode { instruction: Instruction::STA, mode: AddressingMode::AbsoluteX, cycles: 5 }),
        0xA0 => Some(Opcode { instruction: Instruction::LDY, mode: AddressingMode::Immediate, cycles: 2 }),
        0xA1 => Some(Opcode { instruction: Instruction::LDA, mode: AddressingMode::IndirectX, cycles: 6 }),
        0xA2 => Some(Opcode { instruction: Instruction::LDX, mode: AddressingMode::Immediate, cycles: 2 }),
        0xA4 => Some(Opcode { instruction: Instruction::LDY, mode: AddressingMode::ZeroPage, cycles: 3 }),
        0xA5 => Some(Opcode { instruction: Instruction::LDA, mode: AddressingMode::ZeroPage, cycles: 3 }),
        0xA6 => Some(Opcode { instruction: Instruction::LDX, mode: AddressingMode::ZeroPage, cycles: 3 }),
        0xA8 => Some(Opcode { instruction: Instruction::TAY, mode: AddressingMode::Implicit, cycles: 2 }),
        0xA9 => Some(Opcode { instruction: Instruction::LDA, mode: AddressingMode::Immediate, cycles: 2 }),
        0xAA => Some(Opcode { instruction: Instruction::TAX, mode: AddressingMode::Implicit, cycles: 2 }),
        0xAC => Some(Opcode { instruction: Instruction::LDY, mode: AddressingMode::Absolute, cycles: 4 }),
        0xAD => Some(Opcode { instruction: Instruction::LDA, mode: AddressingMode::Absolute, cycles: 4 }),
        0xAE => Some(Opcode { instruction: Instruction::LDX, mode: AddressingMode::Absolute, cycles: 4 }),
        0xB0 => Some(Opcode { instruction: Instruction::BCS, mode: AddressingMode::Relative, cycles: 2 }),
        0xB1 => Some(Opcode { instruction: Instruction::LDA, mode: AddressingMode::IndirectY, cycles: 5 }),
        0xB4 => Some(Opcode { instruction: Instruction::LDY, mode: AddressingMode::ZeroPageX, cycles: 4 }),
        0xB5 => Some(Opcode { instruction: Instruction::LDA, mode: AddressingMode::ZeroPageX, cycles: 4 }),
        0xB6 => Some(Opcode { instruction: Instruction::LDX, mode: AddressingMode::ZeroPageY, cycles: 4 }),
        0xB8 => Some(Opcode { instruction: Instruction::CLV, mode: AddressingMode::Implicit, cycles: 2 }),
        0xB9 => Some(Opcode { instruction: Instruction::LDA, mode: AddressingMode::AbsoluteY, cycles: 4 }),
        0xBA => Some(Opcode { instruction: Instruction::TSX, mode: AddressingMode::Implicit, cycles: 2 }),
        0xBC => Some(Opcode { instruction: Instruction::LDY, mode: AddressingMode::AbsoluteX, cycles: 4 }),
        0xBD => Some(Opcode { instruction: Instruction::LDA, mode: AddressingMode::AbsoluteX, cycles: 4 }),
        0xBE => Some(Opcode { instruction: Instruction::LDX, mode: AddressingMode::AbsoluteY, cycles: 4 }),
        0xC0 => Some(Opcode { instruction: Instruction::CPY, mode: AddressingMode::Immediate, cycles: 2 }),
        0xC1 => Some(Opcode { instruction: Instruction::CMP, mode: AddressingMode::IndirectX, cycles: 6 }),
        0xC4 => Some(Opcode { instruction: Instruction::CPY, mode: AddressingMode::ZeroPage, cycles: 3 }),
        0xC5 => Some(Opcode { instruction: Instruction::CMP, mode: AddressingMode::ZeroPage, cycles: 3 }),
        0xC6 => Some(Opcode { instruction: Instruction::DEC, mode: AddressingMode::ZeroPage, cycles: 5 }),
        0xC8 => Some(Opcode { instruction: Instruction::INY, mode: AddressingMode::Implicit, cycles: 2 }),
        0xC9 => Some(Opcode { instruction: Instruction::CMP, mode: AddressingMode::Immediate, cycles: 2 }),
        0xCA => Some(Opcode { instruction: Instruction::DEX, mode: AddressingMode::Implicit, cycles: 2 }),
        0xCC => Some(Opcode { instruction: Instruction::CPY, mode: AddressingMode::Absolute, cycles: 4 }),
        0xCD => Some(Opcode { instruction: Instruction::CMP, mode: AddressingMode::Absolute, cycles: 4 }),
        0xCE => Some(Opcode { instruction: Instruction::DEC, mode: AddressingMode::Absolute, cycles: 6 }),
        0xD0 => Some(Opcode { instruction: Instruction::BNE, mode: AddressingMode::Relative, cycles: 2 }),
        0xD1 => Some(Opcode { instruction: Instruction::CMP, mode: AddressingMode::IndirectY, cycles: 5 }),
        0xD5 => Some(Opcode { instruction: Instruction::CMP, mode: AddressingMode::ZeroPageX, cycles: 4 }),
        0xD6 => Some(Opcode { instruction: Instruction::DEC, mode: AddressingMode::ZeroPageX, cycles: 6 }),
        0xD8 => Some(Opcode { instruction: Instruction::CLD, mode: AddressingMode::Implicit, cycles: 2 }),
        0xD9 => Some(Opcode { instruction: Instruction::CMP, mode: AddressingMode::AbsoluteY, cycles: 4 }),
        0xDD => Some(Opcode { instruction: Instruction::CMP, mode: AddressingMode::AbsoluteX, cycles: 4 }),
        0xDE => Some(Opcode { instruction: Instruction::DEC, mode: AddressingMode::AbsoluteX, cycles: 7 }),
        0xE0 => Some(Opcode { instruction: Instruction::CPX, mode: AddressingMode::Immediate, cycles: 2 }),
        0xE1 => Some(Opcode { instruction: Instruction::SBC, mode: AddressingMode::IndirectX, cycles: 6 }),
        0xE4 => Some(Opcode { instruction: Instruction::CPX, mode: AddressingMode::ZeroPage, cycles: 3 }),
        0xE5 => Some(Opcode { instruction: Instruction::SBC, mode: AddressingMode::ZeroPage, cycles: 3 }),
        0xE6 => Some(Opcode { instruction: Instruction::INC, mode: AddressingMode::ZeroPage, cycles: 5 }),
        0xE8 => Some(Opcode { instruction: Instruction::INX, mode: AddressingMode::Implicit, cycles: 2 }),
        0xE9 => Some(Opcode { instruction: Instruction::SBC, mode: AddressingMode::Immediate, cycles: 2 }),
        0xEA => Some(Opcode { instruction: Instruction::NOP, mode: AddressingMode::Implicit, cycles: 2 }),
        0xEC => Some(Opcode { instruction: Instruction::CPX, mode: AddressingMode::Absolute, cycles: 4 }),
        0xED => Some(Opcode { instruction: Instruction::SBC, mode: AddressingMode::Absolute, cycles: 4 }),
        0xEE => Some(Opcode { instruction: Instruction::INC, mode: AddressingMode::Absolute, cycles: 6 }),
        0xF0 => Some(Opcode { instruction: Instruction::BEQ, mode: AddressingMode::Relative, cycles: 2 }),
        0xF1 => Some(Opcode { instruction: Instruction::SBC, mode: AddressingMode::IndirectY, cycles: 5 }),
        0xF5 => Some(Opcode { instruction: Instruction::SBC, mode: AddressingMode::ZeroPageX, cycles: 4 }),
        0xF6 => Some(Opcode { instruction: Instruction::INC, mode: AddressingMode::ZeroPageX, cycles: 6 }),
        0xF8 => Some(Opcode { instruction: Instruction::SED, mode: AddressingMode::Implicit, cycles: 2 }),
        0xF9 => Some(Opcode { instruction: Instruction::SBC, mode: AddressingMode::AbsoluteY, cycles: 4 }),
        0xFD => Some(Opcode { instruction: Instruction::SBC, mode: AddressingMode::AbsoluteX, cycles: 4 }),
        0xFE => Some(Opcode { instruction: Instruction::INC, mode: AddressingMode::AbsoluteX, cycles: 7 }),
        _ => None,
    }
}

} // verus!
