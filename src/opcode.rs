use vstd::prelude::*;
use crate::cpu::CPU;
use crate::error::MemError;
use crate::mem::{MemView, NESMemory};
use crate::model::{add16, word, CpuView};

verus! {

/// Instruction mnemonics, the documented set and the undocumented LAX, SAX,
/// DCP and ANC; `Illegal` marks an unassigned opcode byte.
#[derive(Clone, Copy, Debug, PartialEq, Eq, Structural)]
pub enum Instruction {
    ADC, AND, ASL, BCC, BCS, BEQ, BIT, BMI, BNE, BPL, BRK, BVC, BVS, CLC, CLD, CLI, CLV, CMP, CPX,
    CPY, DEC, DEX, DEY, EOR, INC, INX, INY, JMP, JSR, LDA, LDX, LDY, LSR, NOP, ORA, PHA, PHP, PLA,
    PLP, ROL, ROR, RTI, RTS, SBC, SEC, SED, SEI, STA, STX, STY, TAX, TAY, TSX, TXA, TXS, TYA, LAX,
    SAX, DCP, ANC, Illegal,
}

/// How an instruction finds its operand. `Unknown` has no rule.
#[derive(Clone, Copy, Debug, PartialEq, Eq, Structural)]
pub enum AddressingMode {
    Unknown,
    Immediate,
    ZeroPageAbsolute,
    Absolute,
    Implied,
    Accumulator,
    /// Absolute address plus X.
    IndexedX,
    /// Absolute address plus Y.
    IndexedY,
    ZeroPageIndexedX,
    ZeroPageIndexedY,
    Indirect,
    PreIndexedIndirect,
    PostIndexedIndirect,
    Relative,
}

/// One opcode's mnemonic, addressing mode, base cycle cost and the extra
/// cycles charged when the operand access crosses a page.
#[derive(Clone, Copy, Debug, PartialEq, Eq, Structural)]
pub struct Opcode(pub Instruction, pub AddressingMode, pub u8, pub u8);

/// The opcode table.
#[verifier::opaque]
pub open spec fn opcode_of(b: u8) -> Opcode {
    match b {
        0x00 => Opcode(Instruction::BRK, AddressingMode::Implied, 7, 0),
        0x01 => Opcode(Instruction::ORA, AddressingMode::PreIndexedIndirect, 6, 0),
        0x05 => Opcode(Instruction::ORA, AddressingMode::ZeroPageAbsolute, 3, 0),
        0x06 => Opcode(Instruction::ASL, AddressingMode::ZeroPageAbsolute, 5, 0),
        0x08 => Opcode(Instruction::PHP, AddressingMode::Implied, 3, 0),
        0x09 => Opcode(Instruction::ORA, AddressingMode::Immediate, 2, 0),
        0x0A => Opcode(Instruction::ASL, AddressingMode::Accumulator, 2, 0),
        0x0D => Opcode(Instruction::ORA, AddressingMode::Absolute, 4, 0),
        0x0E => Opcode(Instruction::ASL, AddressingMode::Absolute, 6, 0),
        0x10 => Opcode(Instruction::BPL, AddressingMode::Relative, 2, 0),
        0x11 => Opcode(Instruction::ORA, AddressingMode::PostIndexedIndirect, 5, 1),
        0x15 => Opcode(Instruction::ORA, AddressingMode::ZeroPageIndexedX, 4, 0),
        0x16 => Opcode(Instruction::ASL, AddressingMode::ZeroPageIndexedX, 6, 0),
        0x18 => Opcode(Instruction::CLC, AddressingMode::Implied, 2, 0),
        0x19 => Opcode(Instruction::ORA, AddressingMode::IndexedY, 4, 1),
        0x1D => Opcode(Instruction::ORA, AddressingMode::IndexedX, 4, 1),
        0x1E => Opcode(Instruction::ASL, AddressingMode::IndexedX, 7, 0),
        0x20 => Opcode(Instruction::JSR, AddressingMode::Absolute, 6, 0),
        0x21 => Opcode(Instruction::AND, AddressingMode::PreIndexedIndirect, 6, 0),
        0x24 => Opcode(Instruction::BIT, AddressingMode::ZeroPageAbsolute, 3, 0),
        0x25 => Opcode(Instruction::AND, AddressingMode::ZeroPageAbsolute, 3, 0),
        0x26 => Opcode(Instruction::ROL, AddressingMode::ZeroPageAbsolute, 5, 0),
        0x28 => Opcode(Instruction::PLP, AddressingMode::Implied, 4, 0),
        0x29 => Opcode(Instruction::AND, AddressingMode::Immediate, 2, 0),
        0x2A => Opcode(Instruction::ROL, AddressingMode::Accumulator, 2, 0),
        0x2C => Opcode(Instruction::BIT, AddressingMode::Absolute, 4, 0),
        0x2D => Opcode(Instruction::AND, AddressingMode::Absolute, 4, 0),
        0x2E => Opcode(Instruction::ROL, AddressingMode::Absolute, 6, 0),
        0x30 => Opcode(Instruction::BMI, AddressingMode::Relative, 2, 0),
        0x31 => Opcode(Instruction::AND, AddressingMode::PostIndexedIndirect, 5, 1),
        0x35 => Opcode(Instruction::AND, AddressingMode::ZeroPageIndexedX, 4, 0),
        0x36 => Opcode(Instruction::ROL, AddressingMode::ZeroPageIndexedX, 6, 0),
        0x38 => Opcode(Instruction::SEC, AddressingMode::Implied, 2, 0),
        0x39 => Opcode(Instruction::AND, AddressingMode::IndexedY, 4, 1),
        0x3D => Opcode(Instruction::AND, AddressingMode::IndexedX, 4, 1),
        0x3E => Opcode(Instruction::ROL, AddressingMode::IndexedX, 7, 0),
        0x40 => Opcode(Instruction::RTI, AddressingMode::Implied, 6, 0),
        0x41 => Opcode(Instruction::EOR, AddressingMode::PreIndexedIndirect, 6, 0),
        0x45 => Opcode(Instruction::EOR, AddressingMode::ZeroPageAbsolute, 3, 0),
        0x46 => Opcode(Instruction::LSR, AddressingMode::ZeroPageAbsolute, 5, 0),
        0x48 => Opcode(Instruction::PHA, AddressingMode::Implied, 3, 0),
        0x49 => Opcode(Instruction::EOR, AddressingMode::Immediate, 2, 0),
        0x4A => Opcode(Instruction::LSR, AddressingMode::Accumulator, 2, 0),
        0x4C => Opcode(Instruction::JMP, AddressingMode::Absolute, 3, 0),
        0x4D => Opcode(Instruction::EOR, AddressingMode::Absolute, 4, 0),
        0x4E => Opcode(Instruction::LSR, AddressingMode::Absolute, 6, 0),
        0x50 => Opcode(Instruction::BVC, AddressingMode::Relative, 2, 0),
        0x51 => Opcode(Instruction::EOR, AddressingMode::PostIndexedIndirect, 5, 1),
        0x55 => Opcode(Instruction::EOR, AddressingMode::ZeroPageIndexedX, 4, 0),
        0x56 => Opcode(Instruction::LSR, AddressingMode::ZeroPageIndexedX, 6, 0),
        0x58 => Opcode(Instruction::CLI, AddressingMode::Implied, 2, 0),
        0x59 => Opcode(Instruction::EOR, AddressingMode::IndexedY, 4, 1),
        0x5D => Opcode(Instruction::EOR, AddressingMode::IndexedX, 4, 1),
        0x5E => Opcode(Instruction::LSR, AddressingMode::IndexedX, 7, 0),
        0x60 => Opcode(Instruction::RTS, AddressingMode::Implied, 6, 0),
        0x61 => Opcode(Instruction::ADC, AddressingMode::PreIndexedIndirect, 6, 0),
        0x65 => Opcode(Instruction::ADC, AddressingMode::ZeroPageAbsolute, 3, 0),
        0x66 => Opcode(Instruction::ROR, AddressingMode::ZeroPageAbsolute, 5, 0),
        0x68 => Opcode(Instruction::PLA, AddressingMode::Implied, 4, 0),
        0x69 => Opcode(Instruction::ADC, AddressingMode::Immediate, 2, 0),
        0x6A => Opcode(Instruction::ROR, AddressingMode::Accumulator, 2, 0),
        0x6C => Opcode(Instruction::JMP, AddressingMode::Indirect, 5, 0),
        0x6D => Opcode(Instruction::ADC, AddressingMode::Absolute, 4, 0),
        0x6E => Opcode(Instruction::ROR, AddressingMode::Absolute, 6, 0),
        0x70 => Opcode(Instruction::BVS, AddressingMode::Relative, 2, 0),
        0x71 => Opcode(Instruction::ADC, AddressingMode::PostIndexedIndirect, 5, 1),
        0x75 => Opcode(Instruction::ADC, AddressingMode::ZeroPageIndexedX, 4, 0),
        0x76 => Opcode(Instruction::ROR, AddressingMode::ZeroPageIndexedX, 6, 0),
        0x78 => Opcode(Instruction::SEI, AddressingMode::Implied, 2, 0),
        0x79 => Opcode(Instruction::ADC, AddressingMode::IndexedY, 4, 1),
        0x7D => Opcode(Instruction::ADC, AddressingMode::IndexedX, 4, 1),
        0x7E => Opcode(Instruction::ROR, AddressingMode::IndexedX, 7, 0),
        0x81 => Opcode(Instruction::STA, AddressingMode::PreIndexedIndirect, 6, 0),
        0x83 => Opcode(Instruction::SAX, AddressingMode::PreIndexedIndirect, 6, 0),
        0x84 => Opcode(Instruction::STY, AddressingMode::ZeroPageAbsolute, 3, 0),
        0x85 => Opcode(Instruction::STA, AddressingMode::ZeroPageAbsolute, 3, 0),
        0x86 => Opcode(Instruction::STX, AddressingMode::ZeroPageAbsolute, 3, 0),
        0x87 => Opcode(Instruction::SAX, AddressingMode::ZeroPageAbsolute, 3, 0),
        0x88 => Opcode(Instruction::DEY, AddressingMode::Implied, 2, 0),
        0x8A => Opcode(Instruction::TXA, AddressingMode::Implied, 2, 0),
        0x8C => Opcode(Instruction::STY, AddressingMode::Absolute, 4, 0),
        0x8D => Opcode(Instruction::STA, AddressingMode::Absolute, 4, 0),
        0x8E => Opcode(Instruction::STX, AddressingMode::Absolute, 4, 0),
        0x8F => Opcode(Instruction::SAX, AddressingMode::Absolute, 4, 0),
        0x90 => Opcode(Instruction::BCC, AddressingMode::Relative, 2, 0),
        0x91 => Opcode(Instruction::STA, AddressingMode::PostIndexedIndirect, 6, 0),
        0x94 => Opcode(Instruction::STY, AddressingMode::ZeroPageIndexedX, 4, 0),
        0x95 => Opcode(Instruction::STA, AddressingMode::ZeroPageIndexedX, 4, 0),
        0x96 => Opcode(Instruction::STX, AddressingMode::ZeroPageIndexedY, 4, 0),
        0x97 => Opcode(Instruction::SAX, AddressingMode::ZeroPageIndexedY, 4, 0),
        0x98 => Opcode(Instruction::TYA, AddressingMode::Implied, 2, 0),
        0x99 => Opcode(Instruction::STA, AddressingMode::IndexedY, 5, 0),
        0x9A => Opcode(Instruction::TXS, AddressingMode::Implied, 2, 0),
        0x9D => Opcode(Instruction::STA, AddressingMode::IndexedX, 5, 0),
        0xA0 => Opcode(Instruction::LDY, AddressingMode::Immediate, 2, 0),
        0xA1 => Opcode(Instruction::LDA, AddressingMode::PreIndexedIndirect, 6, 0),
        0xA2 => Opcode(Instruction::LDX, AddressingMode::Immediate, 2, 0),
        0xA3 => Opcode(Instruction::LAX, AddressingMode::PreIndexedIndirect, 6, 0),
        0xA4 => Opcode(Instruction::LDY, AddressingMode::ZeroPageAbsolute, 3, 0),
        0xA5 => Opcode(Instruction::LDA, AddressingMode::ZeroPageAbsolute, 3, 0),
        0xA6 => Opcode(Instruction::LDX, AddressingMode::ZeroPageAbsolute, 3, 0),
        0xA7 => Opcode(Instruction::LAX, AddressingMode::ZeroPageAbsolute, 3, 0),
        0xA8 => Opcode(Instruction::TAY, AddressingMode::Implied, 2, 0),
        0xA9 => Opcode(Instruction::LDA, AddressingMode::Immediate, 2, 0),
        0xAA => Opcode(Instruction::TAX, AddressingMode::Implied, 2, 0),
        0xAC => Opcode(Instruction::LDY, AddressingMode::Absolute, 4, 0),
        0xAD => Opcode(Instruction::LDA, AddressingMode::Absolute, 4, 0),
        0xAE => Opcode(Instruction::LDX, AddressingMode::Absolute, 4, 0),
        0xAF => Opcode(Instruction::LAX, AddressingMode::Absolute, 4, 0),
        0xB0 => Opcode(Instruction::BCS, AddressingMode::Relative, 2, 0),
        0xB1 => Opcode(Instruction::LDA, AddressingMode::PostIndexedIndirect, 5, 1),
        0xB3 => Opcode(Instruction::LAX, AddressingMode::PostIndexedIndirect, 5, 1),
        0xB4 => Opcode(Instruction::LDY, AddressingMode::ZeroPageIndexedX, 4, 0),
        0xB5 => Opcode(Instruction::LDA, AddressingMode::ZeroPageIndexedX, 4, 0),
        0xB6 => Opcode(Instruction::LDX, AddressingMode::ZeroPageIndexedY, 4, 0),
        0xB7 => Opcode(Instruction::LAX, AddressingMode::ZeroPageIndexedY, 4, 0),
        0xB8 => Opcode(Instruction::CLV, AddressingMode::Implied, 2, 0),
        0xB9 => Opcode(Instruction::LDA, AddressingMode::IndexedY, 4, 1),
        0xBA => Opcode(Instruction::TSX, AddressingMode::Implied, 2, 0),
        0xBC => Opcode(Instruction::LDY, AddressingMode::IndexedX, 4, 1),
        0xBD => Opcode(Instruction::LDA, AddressingMode::IndexedX, 4, 1),
        0xBE => Opcode(Instruction::LDX, AddressingMode::IndexedY, 4, 1),
        0xBF => Opcode(Instruction::LAX, AddressingMode::IndexedY, 4, 1),
        0xC0 => Opcode(Instruction::CPY, AddressingMode::Immediate, 2, 0),
        0xC1 => Opcode(Instruction::CMP, AddressingMode::PreIndexedIndirect, 6, 0),
        0xC3 => Opcode(Instruction::DCP, AddressingMode::PreIndexedIndirect, 8, 0),
        0xC4 => Opcode(Instruction::CPY, AddressingMode::ZeroPageAbsolute, 3, 0),
        0xC5 => Opcode(Instruction::CMP, AddressingMode::ZeroPageAbsolute, 3, 0),
        0xC6 => Opcode(Instruction::DEC, AddressingMode::ZeroPageAbsolute, 5, 0),
        0xC7 => Opcode(Instruction::DCP, AddressingMode::ZeroPageAbsolute, 5, 0),
        0xC8 => Opcode(Instruction::INY, AddressingMode::Implied, 2, 0),
        0xC9 => Opcode(Instruction::CMP, AddressingMode::Immediate, 2, 0),
        0xCA => Opcode(Instruction::DEX, AddressingMode::Implied, 2, 0),
        0xCC => Opcode(Instruction::CPY, AddressingMode::Absolute, 4, 0),
        0xCD => Opcode(Instruction::CMP, AddressingMode::Absolute, 4, 0),
        0xCE => Opcode(Instruction::DEC, AddressingMode::Absolute, 6, 0),
        0xCF => Opcode(Instruction::DCP, AddressingMode::Absolute, 6, 0),
        0xD0 => Opcode(Instruction::BNE, AddressingMode::Relative, 2, 0),
        0xD1 => Opcode(Instruction::CMP, AddressingMode::PostIndexedIndirect, 5, 1),
        0xD3 => Opcode(Instruction::DCP, AddressingMode::PostIndexedIndirect, 8, 0),
        0xD5 => Opcode(Instruction::CMP, AddressingMode::ZeroPageIndexedX, 4, 0),
        0xD6 => Opcode(Instruction::DEC, AddressingMode::ZeroPageIndexedX, 6, 0),
        0xD7 => Opcode(Instruction::DCP, AddressingMode::ZeroPageIndexedX, 6, 0),
        0xD8 => Opcode(Instruction::CLD, AddressingMode::Implied, 2, 0),
        0xD9 => Opcode(Instruction::CMP, AddressingMode::IndexedY, 4, 1),
        0xDB => Opcode(Instruction::DCP, AddressingMode::IndexedY, 7, 0),
        0xDD => Opcode(Instruction::CMP, AddressingMode::IndexedX, 4, 1),
        0xDE => Opcode(Instruction::DEC, AddressingMode::IndexedX, 7, 0),
        0xDF => Opcode(Instruction::DCP, AddressingMode::IndexedX, 7, 0),
        0xE0 => Opcode(Instruction::CPX, AddressingMode::Immediate, 2, 0),
        0xE1 => Opcode(Instruction::SBC, AddressingMode::PreIndexedIndirect, 6, 0),
        0xE4 => Opcode(Instruction::CPX, AddressingMode::ZeroPageAbsolute, 3, 0),
        0xE5 => Opcode(Instruction::SBC, AddressingMode::ZeroPageAbsolute, 3, 0),
        0xE6 => Opcode(Instruction::INC, AddressingMode::ZeroPageAbsolute, 5, 0),
        0xE8 => Opcode(Instruction::INX, AddressingMode::Implied, 2, 0),
        0xE9 => Opcode(Instruction::SBC, AddressingMode::Immediate, 2, 0),
        0xEA => Opcode(Instruction::NOP, AddressingMode::Implied, 2, 0),
        0xEC => Opcode(Instruction::CPX, AddressingMode::Absolute, 4, 0),
        0xED => Opcode(Instruction::SBC, AddressingMode::Absolute, 4, 0),
        0xEE => Opcode(Instruction::INC, AddressingMode::Absolute, 6, 0),
        0xF0 => Opcode(Instruction::BEQ, AddressingMode::Relative, 2, 0),
        0xF1 => Opcode(Instruction::SBC, AddressingMode::PostIndexedIndirect, 5, 1),
        0xF5 => Opcode(Instruction::SBC, AddressingMode::ZeroPageIndexedX, 4, 0),
        0xF6 => Opcode(Instruction::INC, AddressingMode::ZeroPageIndexedX, 6, 0),
        0xF8 => Opcode(Instruction::SED, AddressingMode::Implied, 2, 0),
        0xF9 => Opcode(Instruction::SBC, AddressingMode::IndexedY, 4, 1),
        0xFD => Opcode(Instruction::SBC, AddressingMode::IndexedX, 4, 1),
        0xFE => Opcode(Instruction::INC, AddressingMode::IndexedX, 7, 0),
        _ => Opcode(Instruction::Illegal, AddressingMode::Unknown, 0, 0),
    }
}

/// Looks up the table entry of an opcode byte.
pub fn opcode(b: u8) -> (r: Opcode)
    ensures
        r == opcode_of(b),
{
    reveal(opcode_of);
    match b {
        0x00 => Opcode(Instruction::BRK, AddressingMode::Implied, 7, 0),
        0x01 => Opcode(Instruction::ORA, AddressingMode::PreIndexedIndirect, 6, 0),
        0x05 => Opcode(Instruction::ORA, AddressingMode::ZeroPageAbsolute, 3, 0),
        0x06 => Opcode(Instruction::ASL, AddressingMode::ZeroPageAbsolute, 5, 0),
        0x08 => Opcode(Instruction::PHP, AddressingMode::Implied, 3, 0),
        0x09 => Opcode(Instruction::ORA, AddressingMode::Immediate, 2, 0),
        0x0A => Opcode(Instruction::ASL, AddressingMode::Accumulator, 2, 0),
        0x0D => Opcode(Instruction::ORA, AddressingMode::Absolute, 4, 0),
        0x0E => Opcode(Instruction::ASL, AddressingMode::Absolute, 6, 0),
        0x10 => Opcode(Instruction::BPL, AddressingMode::Relative, 2, 0),
        0x11 => Opcode(Instruction::ORA, AddressingMode::PostIndexedIndirect, 5, 1),
        0x15 => Opcode(Instruction::ORA, AddressingMode::ZeroPageIndexedX, 4, 0),
        0x16 => Opcode(Instruction::ASL, AddressingMode::ZeroPageIndexedX, 6, 0),
        0x18 => Opcode(Instruction::CLC, AddressingMode::Implied, 2, 0),
        0x19 => Opcode(Instruction::ORA, AddressingMode::IndexedY, 4, 1),
        0x1D => Opcode(Instruction::ORA, AddressingMode::IndexedX, 4, 1),
        0x1E => Opcode(Instruction::ASL, AddressingMode::IndexedX, 7, 0),
        0x20 => Opcode(Instruction::JSR, AddressingMode::Absolute, 6, 0),
        0x21 => Opcode(Instruction::AND, AddressingMode::PreIndexedIndirect, 6, 0),
        0x24 => Opcode(Instruction::BIT, AddressingMode::ZeroPageAbsolute, 3, 0),
        0x25 => Opcode(Instruction::AND, AddressingMode::ZeroPageAbsolute, 3, 0),
        0x26 => Opcode(Instruction::ROL, AddressingMode::ZeroPageAbsolute, 5, 0),
        0x28 => Opcode(Instruction::PLP, AddressingMode::Implied, 4, 0),
        0x29 => Opcode(Instruction::AND, AddressingMode::Immediate, 2, 0),
        0x2A => Opcode(Instruction::ROL, AddressingMode::Accumulator, 2, 0),
        0x2C => Opcode(Instruction::BIT, AddressingMode::Absolute, 4, 0),
        0x2D => Opcode(Instruction::AND, AddressingMode::Absolute, 4, 0),
        0x2E => Opcode(Instruction::ROL, AddressingMode::Absolute, 6, 0),
        0x30 => Opcode(Instruction::BMI, AddressingMode::Relative, 2, 0),
        0x31 => Opcode(Instruction::AND, AddressingMode::PostIndexedIndirect, 5, 1),
        0x35 => Opcode(Instruction::AND, AddressingMode::ZeroPageIndexedX, 4, 0),
        0x36 => Opcode(Instruction::ROL, AddressingMode::ZeroPageIndexedX, 6, 0),
        0x38 => Opcode(Instruction::SEC, AddressingMode::Implied, 2, 0),
        0x39 => Opcode(Instruction::AND, AddressingMode::IndexedY, 4, 1),
        0x3D => Opcode(Instruction::AND, AddressingMode::IndexedX, 4, 1),
        0x3E => Opcode(Instruction::ROL, AddressingMode::IndexedX, 7, 0),
        0x40 => Opcode(Instruction::RTI, AddressingMode::Implied, 6, 0),
        0x41 => Opcode(Instruction::EOR, AddressingMode::PreIndexedIndirect, 6, 0),
        0x45 => Opcode(Instruction::EOR, AddressingMode::ZeroPageAbsolute, 3, 0),
        0x46 => Opcode(Instruction::LSR, AddressingMode::ZeroPageAbsolute, 5, 0),
        0x48 => Opcode(Instruction::PHA, AddressingMode::Implied, 3, 0),
        0x49 => Opcode(Instruction::EOR, AddressingMode::Immediate, 2, 0),
        0x4A => Opcode(Instruction::LSR, AddressingMode::Accumulator, 2, 0),
        0x4C => Opcode(Instruction::JMP, AddressingMode::Absolute, 3, 0),
        0x4D => Opcode(Instruction::EOR, AddressingMode::Absolute, 4, 0),
        0x4E => Opcode(Instruction::LSR, AddressingMode::Absolute, 6, 0),
        0x50 => Opcode(Instruction::BVC, AddressingMode::Relative, 2, 0),
        0x51 => Opcode(Instruction::EOR, AddressingMode::PostIndexedIndirect, 5, 1),
        0x55 => Opcode(Instruction::EOR, AddressingMode::ZeroPageIndexedX, 4, 0),
        0x56 => Opcode(Instruction::LSR, AddressingMode::ZeroPageIndexedX, 6, 0),
        0x58 => Opcode(Instruction::CLI, AddressingMode::Implied, 2, 0),
        0x59 => Opcode(Instruction::EOR, AddressingMode::IndexedY, 4, 1),
        0x5D => Opcode(Instruction::EOR, AddressingMode::IndexedX, 4, 1),
        0x5E => Opcode(Instruction::LSR, AddressingMode::IndexedX, 7, 0),
        0x60 => Opcode(Instruction::RTS, AddressingMode::Implied, 6, 0),
        0x61 => Opcode(Instruction::ADC, AddressingMode::PreIndexedIndirect, 6, 0),
        0x65 => Opcode(Instruction::ADC, AddressingMode::ZeroPageAbsolute, 3, 0),
        0x66 => Opcode(Instruction::ROR, AddressingMode::ZeroPageAbsolute, 5, 0),
        0x68 => Opcode(Instruction::PLA, AddressingMode::Implied, 4, 0),
        0x69 => Opcode(Instruction::ADC, AddressingMode::Immediate, 2, 0),
        0x6A => Opcode(Instruction::ROR, AddressingMode::Accumulator, 2, 0),
        0x6C => Opcode(Instruction::JMP, AddressingMode::Indirect, 5, 0),
        0x6D => Opcode(Instruction::ADC, AddressingMode::Absolute, 4, 0),
        0x6E => Opcode(Instruction::ROR, AddressingMode::Absolute, 6, 0),
        0x70 => Opcode(Instruction::BVS, AddressingMode::Relative, 2, 0),
        0x71 => Opcode(Instruction::ADC, AddressingMode::PostIndexedIndirect, 5, 1),
        0x75 => Opcode(Instruction::ADC, AddressingMode::ZeroPageIndexedX, 4, 0),
        0x76 => Opcode(Instruction::ROR, AddressingMode::ZeroPageIndexedX, 6, 0),
        0x78 => Opcode(Instruction::SEI, AddressingMode::Implied, 2, 0),
        0x79 => Opcode(Instruction::ADC, AddressingMode::IndexedY, 4, 1),
        0x7D => Opcode(Instruction::ADC, AddressingMode::IndexedX, 4, 1),
        0x7E => Opcode(Instruction::ROR, AddressingMode::IndexedX, 7, 0),
        0x81 => Opcode(Instruction::STA, AddressingMode::PreIndexedIndirect, 6, 0),
        0x83 => Opcode(Instruction::SAX, AddressingMode::PreIndexedIndirect, 6, 0),
        0x84 => Opcode(Instruction::STY, AddressingMode::ZeroPageAbsolute, 3, 0),
        0x85 => Opcode(Instruction::STA, AddressingMode::ZeroPageAbsolute, 3, 0),
        0x86 => Opcode(Instruction::STX, AddressingMode::ZeroPageAbsolute, 3, 0),
        0x87 => Opcode(Instruction::SAX, AddressingMode::ZeroPageAbsolute, 3, 0),
        0x88 => Opcode(Instruction::DEY, AddressingMode::Implied, 2, 0),
        0x8A => Opcode(Instruction::TXA, AddressingMode::Implied, 2, 0),
        0x8C => Opcode(Instruction::STY, AddressingMode::Absolute, 4, 0),
        0x8D => Opcode(Instruction::STA, AddressingMode::Absolute, 4, 0),
        0x8E => Opcode(Instruction::STX, AddressingMode::Absolute, 4, 0),
        0x8F => Opcode(Instruction::SAX, AddressingMode::Absolute, 4, 0),
        0x90 => Opcode(Instruction::BCC, AddressingMode::Relative, 2, 0),
        0x91 => Opcode(Instruction::STA, AddressingMode::PostIndexedIndirect, 6, 0),
        0x94 => Opcode(Instruction::STY, AddressingMode::ZeroPageIndexedX, 4, 0),
        0x95 => Opcode(Instruction::STA, AddressingMode::ZeroPageIndexedX, 4, 0),
        0x96 => Opcode(Instruction::STX, AddressingMode::ZeroPageIndexedY, 4, 0),
        0x97 => Opcode(Instruction::SAX, AddressingMode::ZeroPageIndexedY, 4, 0),
        0x98 => Opcode(Instruction::TYA, AddressingMode::Implied, 2, 0),
        0x99 => Opcode(Instruction::STA, AddressingMode::IndexedY, 5, 0),
        0x9A => Opcode(Instruction::TXS, AddressingMode::Implied, 2, 0),
        0x9D => Opcode(Instruction::STA, AddressingMode::IndexedX, 5, 0),
        0xA0 => Opcode(Instruction::LDY, AddressingMode::Immediate, 2, 0),
        0xA1 => Opcode(Instruction::LDA, AddressingMode::PreIndexedIndirect, 6, 0),
        0xA2 => Opcode(Instruction::LDX, AddressingMode::Immediate, 2, 0),
        0xA3 => Opcode(Instruction::LAX, AddressingMode::PreIndexedIndirect, 6, 0),
        0xA4 => Opcode(Instruction::LDY, AddressingMode::ZeroPageAbsolute, 3, 0),
        0xA5 => Opcode(Instruction::LDA, AddressingMode::ZeroPageAbsolute, 3, 0),
        0xA6 => Opcode(Instruction::LDX, AddressingMode::ZeroPageAbsolute, 3, 0),
        0xA7 => Opcode(Instruction::LAX, AddressingMode::ZeroPageAbsolute, 3, 0),
        0xA8 => Opcode(Instruction::TAY, AddressingMode::Implied, 2, 0),
        0xA9 => Opcode(Instruction::LDA, AddressingMode::Immediate, 2, 0),
        0xAA => Opcode(Instruction::TAX, AddressingMode::Implied, 2, 0),
        0xAC => Opcode(Instruction::LDY, AddressingMode::Absolute, 4, 0),
        0xAD => Opcode(Instruction::LDA, AddressingMode::Absolute, 4, 0),
        0xAE => Opcode(Instruction::LDX, AddressingMode::Absolute, 4, 0),
        0xAF => Opcode(Instruction::LAX, AddressingMode::Absolute, 4, 0),
        0xB0 => Opcode(Instruction::BCS, AddressingMode::Relative, 2, 0),
        0xB1 => Opcode(Instruction::LDA, AddressingMode::PostIndexedIndirect, 5, 1),
        0xB3 => Opcode(Instruction::LAX, AddressingMode::PostIndexedIndirect, 5, 1),
        0xB4 => Opcode(Instruction::LDY, AddressingMode::ZeroPageIndexedX, 4, 0),
        0xB5 => Opcode(Instruction::LDA, AddressingMode::ZeroPageIndexedX, 4, 0),
        0xB6 => Opcode(Instruction::LDX, AddressingMode::ZeroPageIndexedY, 4, 0),
        0xB7 => Opcode(Instruction::LAX, AddressingMode::ZeroPageIndexedY, 4, 0),
        0xB8 => Opcode(Instruction::CLV, AddressingMode::Implied, 2, 0),
        0xB9 => Opcode(Instruction::LDA, AddressingMode::IndexedY, 4, 1),
        0xBA => Opcode(Instruction::TSX, AddressingMode::Implied, 2, 0),
        0xBC => Opcode(Instruction::LDY, AddressingMode::IndexedX, 4, 1),
        0xBD => Opcode(Instruction::LDA, AddressingMode::IndexedX, 4, 1),
        0xBE => Opcode(Instruction::LDX, AddressingMode::IndexedY, 4, 1),
        0xBF => Opcode(Instruction::LAX, AddressingMode::IndexedY, 4, 1),
        0xC0 => Opcode(Instruction::CPY, AddressingMode::Immediate, 2, 0),
        0xC1 => Opcode(Instruction::CMP, AddressingMode::PreIndexedIndirect, 6, 0),
        0xC3 => Opcode(Instruction::DCP, AddressingMode::PreIndexedIndirect, 8, 0),
        0xC4 => Opcode(Instruction::CPY, AddressingMode::ZeroPageAbsolute, 3, 0),
        0xC5 => Opcode(Instruction::CMP, AddressingMode::ZeroPageAbsolute, 3, 0),
        0xC6 => Opcode(Instruction::DEC, AddressingMode::ZeroPageAbsolute, 5, 0),
        0xC7 => Opcode(Instruction::DCP, AddressingMode::ZeroPageAbsolute, 5, 0),
        0xC8 => Opcode(Instruction::INY, AddressingMode::Implied, 2, 0),
        0xC9 => Opcode(Instruction::CMP, AddressingMode::Immediate, 2, 0),
        0xCA => Opcode(Instruction::DEX, AddressingMode::Implied, 2, 0),
        0xCC => Opcode(Instruction::CPY, AddressingMode::Absolute, 4, 0),
        0xCD => Opcode(Instruction::CMP, AddressingMode::Absolute, 4, 0),
        0xCE => Opcode(Instruction::DEC, AddressingMode::Absolute, 6, 0),
        0xCF => Opcode(Instruction::DCP, AddressingMode::Absolute, 6, 0),
        0xD0 => Opcode(Instruction::BNE, AddressingMode::Relative, 2, 0),
        0xD1 => Opcode(Instruction::CMP, AddressingMode::PostIndexedIndirect, 5, 1),
        0xD3 => Opcode(Instruction::DCP, AddressingMode::PostIndexedIndirect, 8, 0),
        0xD5 => Opcode(Instruction::CMP, AddressingMode::ZeroPageIndexedX, 4, 0),
        0xD6 => Opcode(Instruction::DEC, AddressingMode::ZeroPageIndexedX, 6, 0),
        0xD7 => Opcode(Instruction::DCP, AddressingMode::ZeroPageIndexedX, 6, 0),
        0xD8 => Opcode(Instruction::CLD, AddressingMode::Implied, 2, 0),
        0xD9 => Opcode(Instruction::CMP, AddressingMode::IndexedY, 4, 1),
        0xDB => Opcode(Instruction::DCP, AddressingMode::IndexedY, 7, 0),
        0xDD => Opcode(Instruction::CMP, AddressingMode::IndexedX, 4, 1),
        0xDE => Opcode(Instruction::DEC, AddressingMode::IndexedX, 7, 0),
        0xDF => Opcode(Instruction::DCP, AddressingMode::IndexedX, 7, 0),
        0xE0 => Opcode(Instruction::CPX, AddressingMode::Immediate, 2, 0),
        0xE1 => Opcode(Instruction::SBC, AddressingMode::PreIndexedIndirect, 6, 0),
        0xE4 => Opcode(Instruction::CPX, AddressingMode::ZeroPageAbsolute, 3, 0),
        0xE5 => Opcode(Instruction::SBC, AddressingMode::ZeroPageAbsolute, 3, 0),
        0xE6 => Opcode(Instruction::INC, AddressingMode::ZeroPageAbsolute, 5, 0),
        0xE8 => Opcode(Instruction::INX, AddressingMode::Implied, 2, 0),
        0xE9 => Opcode(Instruction::SBC, AddressingMode::Immediate, 2, 0),
        0xEA => Opcode(Instruction::NOP, AddressingMode::Implied, 2, 0),
        0xEC => Opcode(Instruction::CPX, AddressingMode::Absolute, 4, 0),
        0xED => Opcode(Instruction::SBC, AddressingMode::Absolute, 4, 0),
        0xEE => Opcode(Instruction::INC, AddressingMode::Absolute, 6, 0),
        0xF0 => Opcode(Instruction::BEQ, AddressingMode::Relative, 2, 0),
        0xF1 => Opcode(Instruction::SBC, AddressingMode::PostIndexedIndirect, 5, 1),
        0xF5 => Opcode(Instruction::SBC, AddressingMode::ZeroPageIndexedX, 4, 0),
        0xF6 => Opcode(Instruction::INC, AddressingMode::ZeroPageIndexedX, 6, 0),
        0xF8 => Opcode(Instruction::SED, AddressingMode::Implied, 2, 0),
        0xF9 => Opcode(Instruction::SBC, AddressingMode::IndexedY, 4, 1),
        0xFD => Opcode(Instruction::SBC, AddressingMode::IndexedX, 4, 1),
        0xFE => Opcode(Instruction::INC, AddressingMode::IndexedX, 7, 0),
        _ => Opcode(Instruction::Illegal, AddressingMode::Unknown, 0, 0),
    }
}

/// What a read of `address` gives, as a one-byte result.
pub open spec fn fetch(m: MemView, address: u16, crossed: bool) -> Result<(u16, u8, bool), MemError> {
    match m.read(address) {
        Ok(v) => Ok((address, v, crossed)),
        Err(e) => Err(e),
    }
}

/// An indexed address and whether indexing left the base's page.
pub open spec fn indexed(base: u16, index: u8) -> (u16, bool) {
    let a = add16(base, index as int);
    (a, a / 256 != base / 256)
}

/// Operand of a branch: its target.
pub open spec fn operand_relative(m: MemView, pc: u16) -> Result<(u16, u8, bool), MemError> {
    match m.read(add16(pc, 1)) {
        Ok(o) => Ok((branch_target(pc, o), 0, false)),
        Err(e) => Err(e),
    }
}

/// Operand of the zero-page modes, indexed by `index` within the page.
pub open spec fn operand_zero_page(m: MemView, pc: u16, index: u8) -> Result<(u16, u8, bool), MemError> {
    match m.read(add16(pc, 1)) {
        Ok(lo) => fetch(m, ((lo as int + index as int) % 256) as u16, false),
        Err(e) => Err(e),
    }
}

/// A branch target: the address after the two-byte instruction, displaced by
/// `offset` read as a signed byte.
pub open spec fn branch_target(pc: u16, offset: u8) -> u16 {
    add16(pc, 2 + if offset < 128 { offset as int } else { offset as int - 256 })
}

impl AddressingMode {
    /// Instruction length in bytes; `None` where the mode has no rule.
    pub open spec fn len(self) -> Option<u16> {
        match self {
            AddressingMode::Unknown => None,
            AddressingMode::Implied | AddressingMode::Accumulator => Some(1),
            AddressingMode::Absolute | AddressingMode::IndexedX | AddressingMode::IndexedY
            | AddressingMode::Indirect => Some(3),
            _ => Some(2),
        }
    }

    pub fn n_bytes(&self) -> (r: Option<u16>)
        ensures
            r == self.len(),
    {
        match self {
            AddressingMode::Unknown => None,
            AddressingMode::Implied | AddressingMode::Accumulator => Some(1),
            AddressingMode::Absolute | AddressingMode::IndexedX | AddressingMode::IndexedY
            | AddressingMode::Indirect => Some(3),
            _ => Some(2),
        }
    }

    /// Effective address, fetched value and page crossing of the instruction
    /// at `pc`.
    #[verifier::opaque]
    pub open spec fn operand(self, s: CpuView, pc: u16) -> Result<(u16, u8, bool), MemError> {
        let m = s.mem;
        match self {
            AddressingMode::Implied | AddressingMode::Unknown => Ok((0, 0, false)),
            AddressingMode::Accumulator => Ok((0, s.a, false)),
            AddressingMode::Immediate => fetch(m, add16(pc, 1), false),
            AddressingMode::Relative => operand_relative(m, pc),
            AddressingMode::ZeroPageAbsolute => operand_zero_page(m, pc, 0),
            AddressingMode::ZeroPageIndexedX => operand_zero_page(m, pc, s.x),
            AddressingMode::ZeroPageIndexedY => operand_zero_page(m, pc, s.y),
            AddressingMode::Absolute | AddressingMode::IndexedX | AddressingMode::IndexedY
            | AddressingMode::Indirect => match (m.read(add16(pc, 1)), m.read(add16(pc, 2))) {
                (Ok(lo), Ok(hi)) => self.operand_at(s, word(lo, hi)),
                (Err(e), _) => Err(e),
                (_, Err(e)) => Err(e),
            },
            AddressingMode::PreIndexedIndirect | AddressingMode::PostIndexedIndirect => match m.read(
                add16(pc, 1),
            ) {
                Ok(zp) => self.operand_via_zero_page(s, zp),
                Err(e) => Err(e),
            },
        }
    }

    /// Operand of the absolute-address modes, from the address word `base`.
    pub open spec fn operand_at(self, s: CpuView, base: u16) -> Result<(u16, u8, bool), MemError> {
        let m = s.mem;
        match self {
            AddressingMode::IndexedX => fetch(m, indexed(base, s.x).0, indexed(base, s.x).1),
            AddressingMode::IndexedY => fetch(m, indexed(base, s.y).0, indexed(base, s.y).1),
            AddressingMode::Indirect => {
                // The pointer's high byte comes from the same page.
                let next = ((base as int / 256) * 256 + (base as int + 1) % 256) as u16;
                match (m.read(base), m.read(next)) {
                    (Ok(lo), Ok(hi)) => Ok((word(lo, hi), 0, false)),
                    (Err(e), _) => Err(e),
                    (_, Err(e)) => Err(e),
                }
            },
            _ => fetch(m, base, false),
        }
    }

    /// Operand of the two indirect modes, from the zero-page pointer `zp`.
    pub open spec fn operand_via_zero_page(self, s: CpuView, zp: u8) -> Result<(u16, u8, bool), MemError> {
        let m = s.mem;
        let p: int = if self == AddressingMode::PreIndexedIndirect {
            (zp as int + s.x as int) % 256
        } else {
            zp as int
        };
        match (m.read(p as u16), m.read(((p + 1) % 256) as u16)) {
            (Ok(lo), Ok(hi)) => if self == AddressingMode::PreIndexedIndirect {
                fetch(m, word(lo, hi), false)
            } else {
                fetch(m, indexed(word(lo, hi), s.y).0, indexed(word(lo, hi), s.y).1)
            },
            (Err(e), _) => Err(e),
            (_, Err(e)) => Err(e),
        }
    }
}

/// Reads the two bytes of a little-endian word.
fn read_word(m: &NESMemory, lo_at: u16, hi_at: u16) -> (r: Result<u16, MemError>)
    requires
        m.wf(),
    ensures
        match (m@.read(lo_at), m@.read(hi_at)) {
            (Ok(lo), Ok(hi)) => r == Ok::<u16, MemError>(word(lo, hi)),
            (Err(e), _) => r == Err::<u16, MemError>(e),
            (_, Err(e)) => r == Err::<u16, MemError>(e),
        },
{
    let lo = match m.read(lo_at) {
        Ok(v) => v,
        Err(e) => return Err(e),
    };
    let hi = match m.read(hi_at) {
        Ok(v) => v,
        Err(e) => return Err(e),
    };
    Ok(hi as u16 * 256 + lo as u16)
}

fn relative_at(m: &NESMemory, pc: u16) -> (r: Result<(u16, u8, bool), MemError>)
    requires
        m.wf(),
    ensures
        r == operand_relative(m@, pc),
{
    let o = match m.read(pc.wrapping_add(1)) {
        Ok(v) => v,
        Err(e) => return Err(e),
    };
    let next = pc.wrapping_add(2);
    let target = if o < 128 {
        next.wrapping_add(o as u16)
    } else {
        next.wrapping_sub(256 - o as u16)
    };
    Ok((target, 0, false))
}

fn zero_page_at(m: &NESMemory, pc: u16, index: u8) -> (r: Result<(u16, u8, bool), MemError>)
    requires
        m.wf(),
    ensures
        r == operand_zero_page(m@, pc, index),
{
    let lo = match m.read(pc.wrapping_add(1)) {
        Ok(v) => v,
        Err(e) => return Err(e),
    };
    fetch_at(m, (lo as u16 + index as u16) % 256, false)
}

/// Reads the operand at `address`.
fn fetch_at(m: &NESMemory, address: u16, crossed: bool) -> (r: Result<(u16, u8, bool), MemError>)
    requires
        m.wf(),
    ensures
        r == fetch(m@, address, crossed),
{
    match m.read(address) {
        Ok(v) => Ok((address, v, crossed)),
        Err(e) => Err(e),
    }
}

impl AddressingMode {
    /// The bytes of the instruction at the program counter, for a trace.
    pub fn get_bytes(&self, cpu: &CPU) -> (r: Result<Vec<u8>, MemError>)
        requires
            cpu.wf(),
            self.len() is Some,
        ensures
            match r {
                Ok(v) => v@.len() == self.len()->0 && forall|k: int|
                    0 <= k < v@.len() ==> cpu@.mem.read(add16(cpu.pc, k)) == Ok::<u8, MemError>(
                        v@[k],
                    ),
                Err(e) => exists|k: int|
                    0 <= k < self.len()->0 && cpu@.mem.read(add16(cpu.pc, k)) == Err::<u8, MemError>(
                        e,
                    ),
            },
    {
        let n = match self.n_bytes() {
            Some(n) => n,
            None => 0,
        };
        let mut out: Vec<u8> = Vec::new();
        let mut k: u16 = 0;
        while k < n
            invariant
                cpu.wf(),
                n == self.len()->0,
                n <= 3,
                k <= n,
                out@.len() == k,
                forall|j: int|
                    0 <= j < k ==> cpu@.mem.read(add16(cpu.pc, j)) == Ok::<u8, MemError>(out@[j]),
            decreases n - k,
        {
            match cpu.mem.read(cpu.pc.wrapping_add(k)) {
                Ok(b) => out.push(b),
                Err(e) => {
                    assert(cpu@.mem.read(add16(cpu.pc, k as int)) == Err::<u8, MemError>(e));
                    return Err(e);
                },
            }
            k = k + 1;
        }
        Ok(out)
    }

    pub fn get_data(&self, cpu: &CPU, pc: u16) -> (r: Result<(u16, u8, bool), MemError>)
        requires
            cpu.wf(),
        ensures
            r == self.operand(cpu@, pc),
    {
        reveal(AddressingMode::operand);
        let m = &cpu.mem;
        match self {
            AddressingMode::Implied | AddressingMode::Unknown => Ok((0, 0, false)),
            AddressingMode::Accumulator => Ok((0, cpu.a, false)),
            AddressingMode::Immediate => fetch_at(m, pc.wrapping_add(1), false),
            AddressingMode::Relative => relative_at(m, pc),
            AddressingMode::ZeroPageAbsolute => zero_page_at(m, pc, 0),
            AddressingMode::ZeroPageIndexedX => zero_page_at(m, pc, cpu.x),
            AddressingMode::ZeroPageIndexedY => zero_page_at(m, pc, cpu.y),
            AddressingMode::Absolute | AddressingMode::IndexedX | AddressingMode::IndexedY
            | AddressingMode::Indirect => {
                let base = match read_word(m, pc.wrapping_add(1), pc.wrapping_add(2)) {
                    Ok(w) => w,
                    Err(e) => return Err(e),
                };
                self.data_at(cpu, base)
            },
            AddressingMode::PreIndexedIndirect | AddressingMode::PostIndexedIndirect => {
                let zp = match m.read(pc.wrapping_add(1)) {
                    Ok(v) => v,
                    Err(e) => return Err(e),
                };
                self.data_via_zero_page(cpu, zp)
            },
        }
    }

    fn data_at(&self, cpu: &CPU, base: u16) -> (r: Result<(u16, u8, bool), MemError>)
        requires
            cpu.wf(),
        ensures
            r == self.operand_at(cpu@, base),
    {
        let m = &cpu.mem;
        match self {
            AddressingMode::IndexedX => {
                let a = base.wrapping_add(cpu.x as u16);
                fetch_at(m, a, a / 256 != base / 256)
            },
            AddressingMode::IndexedY => {
                let a = base.wrapping_add(cpu.y as u16);
                fetch_at(m, a, a / 256 != base / 256)
            },
            AddressingMode::Indirect => {
                let next = (base / 256) * 256 + (base % 256 + 1) % 256;
                match read_word(m, base, next) {
                    Ok(t) => Ok((t, 0, false)),
                    Err(e) => Err(e),
                }
            },
            _ => fetch_at(m, base, false),
        }
    }

    fn data_via_zero_page(&self, cpu: &CPU, zp: u8) -> (r: Result<(u16, u8, bool), MemError>)
        requires
            cpu.wf(),
        ensures
            r == self.operand_via_zero_page(cpu@, zp),
    {
        let m = &cpu.mem;
        let pre = *self == AddressingMode::PreIndexedIndirect;
        let p: u16 = if pre {
            (zp as u16 + cpu.x as u16) % 256
        } else {
            zp as u16
        };
        let w = match read_word(m, p, (p + 1) % 256) {
            Ok(w) => w,
            Err(e) => return Err(e),
        };
        if pre {
            fetch_at(m, w, false)
        } else {
            let a = w.wrapping_add(cpu.y as u16);
            fetch_at(m, a, a / 256 != w / 256)
        }
    }
}

} // verus!
