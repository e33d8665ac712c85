use vstd::prelude::*;

use crate::cpu::addr_mode::AddrMode;
use crate::cpu::op::Op;

verus! {

/// What an opcode stands for: the operation, the addressing mode, and the
/// number of cycles that the instruction takes at least.
#[derive(Debug, Clone, Copy, PartialEq, Eq, Structural)]
pub struct Instr {
    pub op: Op,
    pub addr_mode: AddrMode,
    pub cycles: u8,
}

impl Instr {
    pub fn op(&self) -> (r: Op)
        ensures
            r == self.op,
    {
        self.op
    }

    pub fn addr_mode(&self) -> (r: AddrMode)
        ensures
            r == self.addr_mode,
    {
        self.addr_mode
    }

    pub fn cycles(&self) -> (r: u8)
        ensures
            r == self.cycles,
    {
        self.cycles
    }

    /// Whether the instruction has an operand address where its operation
    /// is a jump or a branch.
    pub open spec fn spec_has_target(self) -> bool {
        self.op.takes_target() ==> self.addr_mode != AddrMode::IMP && self.addr_mode
            != AddrMode::ACC && self.addr_mode != AddrMode::_XXX
    }

    /// The number of bytes that follow the opcode: none without an
    /// operand, two for an address of sixteen bits, else one.
    pub open spec fn spec_operand_len(self) -> u16 {
        match self.addr_mode {
            AddrMode::IMP | AddrMode::ACC | AddrMode::_XXX => 0,
            AddrMode::ABS | AddrMode::ABX | AddrMode::ABY | AddrMode::IND => 2,
            _ => 1,
        }
    }

    pub fn operand_len(&self) -> (r: u16)
        ensures
            r == self.spec_operand_len(),
    {
        match self.addr_mode {
            AddrMode::IMP | AddrMode::ACC | AddrMode::_XXX => 0,
            AddrMode::ABS | AddrMode::ABX | AddrMode::ABY | AddrMode::IND => 2,
            _ => 1,
        }
    }
}

/// The operand of an instruction as it stands in memory after the opcode.
#[derive(Debug, Clone, Copy, PartialEq, Eq, Structural)]
pub enum Operand {
    Unary,
    Byte(u8),
    Word(u16),
}

impl Operand {
    /// The number of bytes that the operand takes.
    pub fn len(&self) -> (r: u16)
        ensures
            r == (match self {
                Operand::Byte(_) => 1u16,
                Operand::Word(_) => 2u16,
                Operand::Unary => 0u16,
            }),
    {
        match self {
            Operand::Byte(_) => 1,
            Operand::Word(_) => 2,
            Operand::Unary => 0,
        }
    }
}

/// The instruction table: the 151 opcodes of the 56 operations, each with
/// its addressing mode and its cycles; every other opcode does nothing, has
/// no operand and takes two cycles.
pub open spec fn spec_decode(opcode: u8) -> Instr {
    match opcode {
        0x00 => Instr { op: Op::BRK, addr_mode: AddrMode::IMP, cycles: 7 },
        0x01 => Instr { op: Op::ORA, addr_mode: AddrMode::IDX, cycles: 6 },
        0x05 => Instr { op: Op::ORA, addr_mode: AddrMode::ZP0, cycles: 3 },
        0x06 => Instr { op: Op::ASL, addr_mode: AddrMode::ZP0, cycles: 5 },
        0x08 => Instr { op: Op::PHP, addr_mode: AddrMode::IMP, cycles: 3 },
        0x09 => Instr { op: Op::ORA, addr_mode: AddrMode::IMM, cycles: 2 },
        0x0A => Instr { op: Op::ASL, addr_mode: AddrMode::ACC, cycles: 2 },
        0x0D => Instr { op: Op::ORA, addr_mode: AddrMode::ABS, cycles: 4 },
        0x0E => Instr { op: Op::ASL, addr_mode: AddrMode::ABS, cycles: 6 },
        0x10 => Instr { op: Op::BPL, addr_mode: AddrMode::REL, cycles: 2 },
        0x11 => Instr { op: Op::ORA, addr_mode: AddrMode::IDY, cycles: 5 },
        0x15 => Instr { op: Op::ORA, addr_mode: AddrMode::ZPX, cycles: 4 },
        0x16 => Instr { op: Op::ASL, addr_mode: AddrMode::ZPX, cycles: 6 },
        0x18 => Instr { op: Op::CLC, addr_mode: AddrMode::IMP, cycles: 2 },
        0x19 => Instr { op: Op::ORA, addr_mode: AddrMode::ABY, cycles: 4 },
        0x1D => Instr { op: Op::ORA, addr_mode: AddrMode::ABX, cycles: 4 },
        0x1E => Instr { op: Op::ASL, addr_mode: AddrMode::ABX, cycles: 7 },
        0x20 => Instr { op: Op::JSR, addr_mode: AddrMode::ABS, cycles: 6 },
        0x21 => Instr { op: Op::AND, addr_mode: AddrMode::IDX, cycles: 6 },
        0x24 => Instr { op: Op::BIT, addr_mode: AddrMode::ZP0, cycles: 3 },
        0x25 => Instr { op: Op::AND, addr_mode: AddrMode::ZP0, cycles: 3 },
        0x26 => Instr { op: Op::ROL, addr_mode: AddrMode::ZP0, cycles: 5 },
        0x28 => Instr { op: Op::PLP, addr_mode: AddrMode::IMP, cycles: 4 },
        0x29 => Instr { op: Op::AND, addr_mode: AddrMode::IMM, cycles: 2 },
        0x2A => Instr { op: Op::ROL, addr_mode: AddrMode::ACC, cycles: 2 },
        0x2C => Instr { op: Op::BIT, addr_mode: AddrMode::ABS, cycles: 4 },
        0x2D => Instr { op: Op::AND, addr_mode: AddrMode::ABS, cycles: 4 },
        0x2E => Instr { op: Op::ROL, addr_mode: AddrMode::ABS, cycles: 6 },
        0x30 => Instr { op: Op::BMI, addr_mode: AddrMode::REL, cycles: 2 },
        0x31 => Instr { op: Op::AND, addr_mode: AddrMode::IDY, cycles: 5 },
        0x35 => Instr { op: Op::AND, addr_mode: AddrMode::ZPX, cycles: 4 },
        0x36 => Instr { op: Op::ROL, addr_mode: AddrMode::ZPX, cycles: 6 },
        0x38 => Instr { op: Op::SEC, addr_mode: AddrMode::IMP, cycles: 2 },
        0x39 => Instr { op: Op::AND, addr_mode: AddrMode::ABY, cycles: 4 },
        0x3D => Instr { op: Op::AND, addr_mode: AddrMode::ABX, cycles: 4 },
        0x3E => Instr { op: Op::ROL, addr_mode: AddrMode::ABX, cycles: 7 },
        0x40 => Instr { op: Op::RTI, addr_mode: AddrMode::IMP, cycles: 6 },
        0x41 => Instr { op: Op::EOR, addr_mode: AddrMode::IDX, cycles: 6 },
        0x45 => Instr { op: Op::EOR, addr_mode: AddrMode::ZP0, cycles: 3 },
        0x46 => Instr { op: Op::LSR, addr_mode: AddrMode::ZP0, cycles: 5 },
        0x48 => Instr { op: Op::PHA, addr_mode: AddrMode::IMP, cycles: 3 },
        0x49 => Instr { op: Op::EOR, addr_mode: AddrMode::IMM, cycles: 2 },
        0x4A => Instr { op: Op::LSR, addr_mode: AddrMode::ACC, cycles: 2 },
        0x4C => Instr { op: Op::JMP, addr_mode: AddrMode::ABS, cycles: 3 },
        0x4D => Instr { op: Op::EOR, addr_mode: AddrMode::ABS, cycles: 4 },
        0x4E => Instr { op: Op::LSR, addr_mode: AddrMode::ABS, cycles: 6 },
        0x50 => Instr { op: Op::BVC, addr_mode: AddrMode::REL, cycles: 2 },
        0x51 => Instr { op: Op::EOR, addr_mode: AddrMode::IDY, cycles: 5 },
        0x55 => Instr { op: Op::EOR, addr_mode: AddrMode::ZPX, cycles: 4 },
        0x56 => Instr { op: Op::LSR, addr_mode: AddrMode::ZPX, cycles: 6 },
        0x58 => Instr { op: Op::CLI, addr_mode: AddrMode::IMP, cycles: 2 },
        0x59 => Instr { op: Op::EOR, addr_mode: AddrMode::ABY, cycles: 4 },
        0x5D => Instr { op: Op::EOR, addr_mode: AddrMode::ABX, cycles: 4 },
        0x5E => Instr { op: Op::LSR, addr_mode: AddrMode::ABX, cycles: 7 },
        0x60 => Instr { op: Op::RTS, addr_mode: AddrMode::IMP, cycles: 6 },
        0x61 => Instr { op: Op::ADC, addr_mode: AddrMode::IDX, cycles: 6 },
        0x65 => Instr { op: Op::ADC, addr_mode: AddrMode::ZP0, cycles: 3 },
        0x66 => Instr { op: Op::ROR, addr_mode: AddrMode::ZP0, cycles: 5 },
        0x68 => Instr { op: Op::PLA, addr_mode: AddrMode::IMP, cycles: 4 },
        0x69 => Instr { op: Op::ADC, addr_mode: AddrMode::IMM, cycles: 2 },
        0x6A => Instr { op: Op::ROR, addr_mode: AddrMode::ACC, cycles: 2 },
        0x6C => Instr { op: Op::JMP, addr_mode: AddrMode::IND, cycles: 5 },
        0x6D => Instr { op: Op::ADC, addr_mode: AddrMode::ABS, cycles: 4 },
        0x6E => Instr { op: Op::ROR, addr_mode: AddrMode::ABS, cycles: 6 },
        0x70 => Instr { op: Op::BVS, addr_mode: AddrMode::REL, cycles: 2 },
        0x71 => Instr { op: Op::ADC, addr_mode: AddrMode::IDY, cycles: 5 },
        0x75 => Instr { op: Op::ADC, addr_mode: AddrMode::ZPX, cycles: 4 },
        0x76 => Instr { op: Op::ROR, addr_mode: AddrMode::ZPX, cycles: 6 },
        0x78 => Instr { op: Op::SEI, addr_mode: AddrMode::IMP, cycles: 2 },
        0x79 => Instr { op: Op::ADC, addr_mode: AddrMode::ABY, cycles: 4 },
        0x7D => Instr { op: Op::ADC, addr_mode: AddrMode::ABX, cycles: 4 },
        0x7E => Instr { op: Op::ROR, addr_mode: AddrMode::ABX, cycles: 7 },
        0x81 => Instr { op: Op::STA, addr_mode: AddrMode::IDX, cycles: 6 },
        0x84 => Instr { op: Op::STY, addr_mode: AddrMode::ZP0, cycles: 3 },
        0x85 => Instr { op: Op::STA, addr_mode: AddrMode::ZP0, cycles: 3 },
        0x86 => Instr { op: Op::STX, addr_mode: AddrMode::ZP0, cycles: 3 },
        0x88 => Instr { op: Op::DEY, addr_mode: AddrMode::IMP, cycles: 2 },
        0x8A => Instr { op: Op::TXA, addr_mode: AddrMode::IMP, cycles: 2 },
        0x8C => Instr { op: Op::STY, addr_mode: AddrMode::ABS, cycles: 4 },
        0x8D => Instr { op: Op::STA, addr_mode: AddrMode::ABS, cycles: 4 },
        0x8E => Instr { op: Op::STX, addr_mode: AddrMode::ABS, cycles: 4 },
        0x90 => Instr { op: Op::BCC, addr_mode: AddrMode::REL, cycles: 2 },
        0x91 => Instr { op: Op::STA, addr_mode: AddrMode::IDY, cycles: 6 },
        0x94 => Instr { op: Op::STY, addr_mode: AddrMode::ZPX, cycles: 4 },
        0x95 => Instr { op: Op::STA, addr_mode: AddrMode::ZPX, cycles: 4 },
        0x96 => Instr { op: Op::STX, addr_mode: AddrMode::ZPY, cycles: 4 },
        0x98 => Instr { op: Op::TYA, addr_mode: AddrMode::IMP, cycles: 2 },
        0x99 => Instr { op: Op::STA, addr_mode: AddrMode::ABY, cycles: 5 },
        0x9A => Instr { op: Op::TXS, addr_mode: AddrMode::IMP, cycles: 2 },
        0x9D => Instr { op: Op::STA, addr_mode: AddrMode::ABX, cycles: 5 },
        0xA0 => Instr { op: Op::LDY, addr_mode: AddrMode::IMM, cycles: 2 },
        0xA1 => Instr { op: Op::LDA, addr_mode: AddrMode::IDX, cycles: 6 },
        0xA2 => Instr { op: Op::LDX, addr_mode: AddrMode::IMM, cycles: 2 },
        0xA4 => Instr { op: Op::LDY, addr_mode: AddrMode::ZP0, cycles: 3 },
        0xA5 => Instr { op: Op::LDA, addr_mode: AddrMode::ZP0, cycles: 3 },
        0xA6 => Instr { op: Op::LDX, addr_mode: AddrMode::ZP0, cycles: 3 },
        0xA8 => Instr { op: Op::TAY, addr_mode: AddrMode::IMP, cycles: 2 },
        0xA9 => Instr { op: Op::LDA, addr_mode: AddrMode::IMM, cycles: 2 },
        0xAA => Instr { op: Op::TAX, addr_mode: AddrMode::IMP, cycles: 2 },
        0xAC => Instr { op: Op::LDY, addr_mode: AddrMode::ABS, cycles: 4 },
        0xAD => Instr { op: Op::LDA, addr_mode: AddrMode::ABS, cycles: 4 },
        0xAE => Instr { op: Op::LDX, addr_mode: AddrMode::ABS, cycles: 4 },
        0xB0 => Instr { op: Op::BCS, addr_mode: AddrMode::REL, cycles: 2 },
        0xB1 => Instr { op: Op::LDA, addr_mode: AddrMode::IDY, cycles: 5 },
        0xB4 => Instr { op: Op::LDY, addr_mode: AddrMode::ZPX, cycles: 4 },
        0xB5 => Instr { op: Op::LDA, addr_mode: AddrMode::ZPX, cycles: 4 },
        0xB6 => Instr { op: Op::LDX, addr_mode: AddrMode::ZPY, cycles: 4 },
        0xB8 => Instr { op: Op::CLV, addr_mode: AddrMode::IMP, cycles: 2 },
        0xB9 => Instr { op: Op::LDA, addr_mode: AddrMode::ABY, cycles: 4 },
        0xBA => Instr { op: Op::TSX, addr_mode: AddrMode::IMP, cycles: 2 },
        0xBC => Instr { op: Op::LDY, addr_mode: AddrMode::ABX, cycles: 4 },
        0xBD => Instr { op: Op::LDA, addr_mode: AddrMode::ABX, cycles: 4 },
        0xBE => Instr { op: Op::LDX, addr_mode: AddrMode::ABY, cycles: 4 },
        0xC0 => Instr { op: Op::CPY, addr_mode: AddrMode::IMM, cycles: 2 },
        0xC1 => Instr { op: Op::CMP, addr_mode: AddrMode::IDX, cycles: 6 },
        0xC4 => Instr { op: Op::CPY, addr_mode: AddrMode::ZP0, cycles: 3 },
        0xC5 => Instr { op: Op::CMP, addr_mode: AddrMode::ZP0, cycles: 3 },
        0xC6 => Instr { op: Op::DEC, addr_mode: AddrMode::ZP0, cycles: 5 },
        0xC8 => Instr { op: Op::INY, addr_mode: AddrMode::IMP, cycles: 2 },
        0xC9 => Instr { op: Op::CMP, addr_mode: AddrMode::IMM, cycles: 2 },
        0xCA => Instr { op: Op::DEX, addr_mode: AddrMode::IMP, cycles: 2 },
        0xCC => Instr { op: Op::CPY, addr_mode: AddrMode::ABS, cycles: 4 },
        0xCD => Instr { op: Op::CMP, addr_mode: AddrMode::ABS, cycles: 4 },
        0xCE => Instr { op: Op::DEC, addr_mode: AddrMode::ABS, cycles: 6 },
        0xD0 => Instr { op: Op::BNE, addr_mode: AddrMode::REL, cycles: 2 },
        0xD1 => Instr { op: Op::CMP, addr_mode: AddrMode::IDY, cycles: 5 },
        0xD5 => Instr { op: Op::CMP, addr_mode: AddrMode::ZPX, cycles: 4 },
        0xD6 => Instr { op: Op::DEC, addr_mode: AddrMode::ZPX, cycles: 6 },
        0xD8 => Instr { op: Op::CLD, addr_mode: AddrMode::IMP, cycles: 2 },
        0xD9 => Instr { op: Op::CMP, addr_mode: AddrMode::ABY, cycles: 4 },
        0xDD => Instr { op: Op::CMP, addr_mode: AddrMode::ABX, cycles: 4 },
        0xDE => Instr { op: Op::DEC, addr_mode: AddrMode::ABX, cycles: 7 },
        0xE0 => Instr { op: Op::CPX, addr_mode: AddrMode::IMM, cycles: 2 },
        0xE1 => Instr { op: Op::SBC, addr_mode: AddrMode::IDX, cycles: 6 },
        0xE4 => Instr { op: Op::CPX, addr_mode: AddrMode::ZP0, cycles: 3 },
        0xE5 => Instr { op: Op::SBC, addr_mode: AddrMode::ZP0, cycles: 3 },
        0xE6 => Instr { op: Op::INC, addr_mode: AddrMode::ZP0, cycles: 5 },
        0xE8 => Instr { op: Op::INX, addr_mode: AddrMode::IMP, cycles: 2 },
        0xE9 => Instr { op: Op::SBC, addr_mode: AddrMode::IMM, cycles: 2 },
        0xEA => Instr { op: Op::NOP, addr_mode: AddrMode::IMP, cycles: 2 },
        0xEC => Instr { op: Op::CPX, addr_mode: AddrMode::ABS, cycles: 4 },
        0xED => Instr { op: Op::SBC, addr_mode: AddrMode::ABS, cycles: 4 },
        0xEE => Instr { op: Op::INC, addr_mode: AddrMode::ABS, cycles: 6 },
        0xF0 => Instr { op: Op::BEQ, addr_mode: AddrMode::REL, cycles: 2 },
        0xF1 => Instr { op: Op::SBC, addr_mode: AddrMode::IDY, cycles: 5 },
        0xF5 => Instr { op: Op::SBC, addr_mode: AddrMode::ZPX, cycles: 4 },
        0xF6 => Instr { op: Op::INC, addr_mode: AddrMode::ZPX, cycles: 6 },
        0xF8 => Instr { op: Op::SED, addr_mode: AddrMode::IMP, cycles: 2 },
        0xF9 => Instr { op: Op::SBC, addr_mode: AddrMode::ABY, cycles: 4 },
        0xFD => Instr { op: Op::SBC, addr_mode: AddrMode::ABX, cycles: 4 },
        0xFE => Instr { op: Op::INC, addr_mode: AddrMode::ABX, cycles: 7 },
        _ => Instr { op: Op::XXX, addr_mode: AddrMode::_XXX, cycles: 2 },
    }
}

/// Looks an opcode up in the instruction table.
pub fn decode(opcode: u8) -> (r: Instr)
    ensures
        r == spec_decode(opcode),
        2 <= r.cycles <= 7,
        r.spec_has_target(),
{
    match opcode {
        0x00 => Instr { op: Op::BRK, addr_mode: AddrMode::IMP, cycles: 7 },
        0x01 => Instr { op: Op::ORA, addr_mode: AddrMode::IDX, cycles: 6 },
        0x05 => Instr { op: Op::ORA, addr_mode: AddrMode::ZP0, cycles: 3 },
        0x06 => Instr { op: Op::ASL, addr_mode: AddrMode::ZP0, cycles: 5 },
        0x08 => Instr { op: Op::PHP, addr_mode: AddrMode::IMP, cycles: 3 },
        0x09 => Instr { op: Op::ORA, addr_mode: AddrMode::IMM, cycles: 2 },
        0x0A => Instr { op: Op::ASL, addr_mode: AddrMode::ACC, cycles: 2 },
        0x0D => Instr { op: Op::ORA, addr_mode: AddrMode::ABS, cycles: 4 },
        0x0E => Instr { op: Op::ASL, addr_mode: AddrMode::ABS, cycles: 6 },
        0x10 => Instr { op: Op::BPL, addr_mode: AddrMode::REL, cycles: 2 },
        0x11 => Instr { op: Op::ORA, addr_mode: AddrMode::IDY, cycles: 5 },
        0x15 => Instr { op: Op::ORA, addr_mode: AddrMode::ZPX, cycles: 4 },
        0x16 => Instr { op: Op::ASL, addr_mode: AddrMode::ZPX, cycles: 6 },
        0x18 => Instr { op: Op::CLC, addr_mode: AddrMode::IMP, cycles: 2 },
        0x19 => Instr { op: Op::ORA, addr_mode: AddrMode::ABY, cycles: 4 },
        0x1D => Instr { op: Op::ORA, addr_mode: AddrMode::ABX, cycles: 4 },
        0x1E => Instr { op: Op::ASL, addr_mode: AddrMode::ABX, cycles: 7 },
        0x20 => Instr { op: Op::JSR, addr_mode: AddrMode::ABS, cycles: 6 },
        0x21 => Instr { op: Op::AND, addr_mode: AddrMode::IDX, cycles: 6 },
        0x24 => Instr { op: Op::BIT, addr_mode: AddrMode::ZP0, cycles: 3 },
        0x25 => Instr { op: Op::AND, addr_mode: AddrMode::ZP0, cycles: 3 },
        0x26 => Instr { op: Op::ROL, addr_mode: AddrMode::ZP0, cycles: 5 },
        0x28 => Instr { op: Op::PLP, addr_mode: AddrMode::IMP, cycles: 4 },
        0x29 => Instr { op: Op::AND, addr_mode: AddrMode::IMM, cycles: 2 },
        0x2A => Instr { op: Op::ROL, addr_mode: AddrMode::ACC, cycles: 2 },
        0x2C => Instr { op: Op::BIT, addr_mode: AddrMode::ABS, cycles: 4 },
        0x2D => Instr { op: Op::AND, addr_mode: AddrMode::ABS, cycles: 4 },
        0x2E => Instr { op: Op::ROL, addr_mode: AddrMode::ABS, cycles: 6 },
        0x30 => Instr { op: Op::BMI, addr_mode: AddrMode::REL, cycles: 2 },
        0x31 => Instr { op: Op::AND, addr_mode: AddrMode::IDY, cycles: 5 },
        0x35 => Instr { op: Op::AND, addr_mode: AddrMode::ZPX, cycles: 4 },
        0x36 => Instr { op: Op::ROL, addr_mode: AddrMode::ZPX, cycles: 6 },
        0x38 => Instr { op: Op::SEC, addr_mode: AddrMode::IMP, cycles: 2 },
        0x39 => Instr { op: Op::AND, addr_mode: AddrMode::ABY, cycles: 4 },
        0x3D => Instr { op: Op::AND, addr_mode: AddrMode::ABX, cycles: 4 },
        0x3E => Instr { op: Op::ROL, addr_mode: AddrMode::ABX, cycles: 7 },
        0x40 => Instr { op: Op::RTI, addr_mode: AddrMode::IMP, cycles: 6 },
        0x41 => Instr { op: Op::EOR, addr_mode: AddrMode::IDX, cycles: 6 },
        0x45 => Instr { op: Op::EOR, addr_mode: AddrMode::ZP0, cycles: 3 },
        0x46 => Instr { op: Op::LSR, addr_mode: AddrMode::ZP0, cycles: 5 },
        0x48 => Instr { op: Op::PHA, addr_mode: AddrMode::IMP, cycles: 3 },
        0x49 => Instr { op: Op::EOR, addr_mode: AddrMode::IMM, cycles: 2 },
        0x4A => Instr { op: Op::LSR, addr_mode: AddrMode::ACC, cycles: 2 },
        0x4C => Instr { op: Op::JMP, addr_mode: AddrMode::ABS, cycles: 3 },
        0x4D => Instr { op: Op::EOR, addr_mode: AddrMode::ABS, cycles: 4 },
        0x4E => Instr { op: Op::LSR, addr_mode: AddrMode::ABS, cycles: 6 },
        0x50 => Instr { op: Op::BVC, addr_mode: AddrMode::REL, cycles: 2 },
        0x51 => Instr { op: Op::EOR, addr_mode: AddrMode::IDY, cycles: 5 },
        0x55 => Instr { op: Op::EOR, addr_mode: AddrMode::ZPX, cycles: 4 },
        0x56 => Instr { op: Op::LSR, addr_mode: AddrMode::ZPX, cycles: 6 },
        0x58 => Instr { op: Op::CLI, addr_mode: AddrMode::IMP, cycles: 2 },
        0x59 => Instr { op: Op::EOR, addr_mode: AddrMode::ABY, cycles: 4 },
        0x5D => Instr { op: Op::EOR, addr_mode: AddrMode::ABX, cycles: 4 },
        0x5E => Instr { op: Op::LSR, addr_mode: AddrMode::ABX, cycles: 7 },
        0x60 => Instr { op: Op::RTS, addr_mode: AddrMode::IMP, cycles: 6 },
        0x61 => Instr { op: Op::ADC, addr_mode: AddrMode::IDX, cycles: 6 },
        0x65 => Instr { op: Op::ADC, addr_mode: AddrMode::ZP0, cycles: 3 },
        0x66 => Instr { op: Op::ROR, addr_mode: AddrMode::ZP0, cycles: 5 },
        0x68 => Instr { op: Op::PLA, addr_mode: AddrMode::IMP, cycles: 4 },
        0x69 => Instr { op: Op::ADC, addr_mode: AddrMode::IMM, cycles: 2 },
        0x6A => Instr { op: Op::ROR, addr_mode: AddrMode::ACC, cycles: 2 },
        0x6C => Instr { op: Op::JMP, addr_mode: AddrMode::IND, cycles: 5 },
        0x6D => Instr { op: Op::ADC, addr_mode: AddrMode::ABS, cycles: 4 },
        0x6E => Instr { op: Op::ROR, addr_mode: AddrMode::ABS, cycles: 6 },
        0x70 => Instr { op: Op::BVS, addr_mode: AddrMode::REL, cycles: 2 },
        0x71 => Instr { op: Op::ADC, addr_mode: AddrMode::IDY, cycles: 5 },
        0x75 => Instr { op: Op::ADC, addr_mode: AddrMode::ZPX, cycles: 4 },
        0x76 => Instr { op: Op::ROR, addr_mode: AddrMode::ZPX, cycles: 6 },
        0x78 => Instr { op: Op::SEI, addr_mode: AddrMode::IMP, cycles: 2 },
        0x79 => Instr { op: Op::ADC, addr_mode: AddrMode::ABY, cycles: 4 },
        0x7D => Instr { op: Op::ADC, addr_mode: AddrMode::ABX, cycles: 4 },
        0x7E => Instr { op: Op::ROR, addr_mode: AddrMode::ABX, cycles: 7 },
        0x81 => Instr { op: Op::STA, addr_mode: AddrMode::IDX, cycles: 6 },
        0x84 => Instr { op: Op::STY, addr_mode: AddrMode::ZP0, cycles: 3 },
        0x85 => Instr { op: Op::STA, addr_mode: AddrMode::ZP0, cycles: 3 },
        0x86 => Instr { op: Op::STX, addr_mode: AddrMode::ZP0, cycles: 3 },
        0x88 => Instr { op: Op::DEY, addr_mode: AddrMode::IMP, cycles: 2 },
        0x8A => Instr { op: Op::TXA, addr_mode: AddrMode::IMP, cycles: 2 },
        0x8C => Instr { op: Op::STY, addr_mode: AddrMode::ABS, cycles: 4 },
        0x8D => Instr { op: Op::STA, addr_mode: AddrMode::ABS, cycles: 4 },
        0x8E => Instr { op: Op::STX, addr_mode: AddrMode::ABS, cycles: 4 },
        0x90 => Instr { op: Op::BCC, addr_mode: AddrMode::REL, cycles: 2 },
        0x91 => Instr { op: Op::STA, addr_mode: AddrMode::IDY, cycles: 6 },
        0x94 => Instr { op: Op::STY, addr_mode: AddrMode::ZPX, cycles: 4 },
        0x95 => Instr { op: Op::STA, addr_mode: AddrMode::ZPX, cycles: 4 },
        0x96 => Instr { op: Op::STX, addr_mode: AddrMode::ZPY, cycles: 4 },
        0x98 => Instr { op: Op::TYA, addr_mode: AddrMode::IMP, cycles: 2 },
        0x99 => Instr { op: Op::STA, addr_mode: AddrMode::ABY, cycles: 5 },
        0x9A => Instr { op: Op::TXS, addr_mode: AddrMode::IMP, cycles: 2 },
        0x9D => Instr { op: Op::STA, addr_mode: AddrMode::ABX, cycles: 5 },
        0xA0 => Instr { op: Op::LDY, addr_mode: AddrMode::IMM, cycles: 2 },
        0xA1 => Instr { op: Op::LDA, addr_mode: AddrMode::IDX, cycles: 6 },
        0xA2 => Instr { op: Op::LDX, addr_mode: AddrMode::IMM, cycles: 2 },
        0xA4 => Instr { op: Op::LDY, addr_mode: AddrMode::ZP0, cycles: 3 },
        0xA5 => Instr { op: Op::LDA, addr_mode: AddrMode::ZP0, cycles: 3 },
        0xA6 => Instr { op: Op::LDX, addr_mode: AddrMode::ZP0, cycles: 3 },
        0xA8 => Instr { op: Op::TAY, addr_mode: AddrMode::IMP, cycles: 2 },
        0xA9 => Instr { op: Op::LDA, addr_mode: AddrMode::IMM, cycles: 2 },
        0xAA => Instr { op: Op::TAX, addr_mode: AddrMode::IMP, cycles: 2 },
        0xAC => Instr { op: Op::LDY, addr_mode: AddrMode::ABS, cycles: 4 },
        0xAD => Instr { op: Op::LDA, addr_mode: AddrMode::ABS, cycles: 4 },
        0xAE => Instr { op: Op::LDX, addr_mode: AddrMode::ABS, cycles: 4 },
        0xB0 => Instr { op: Op::BCS, addr_mode: AddrMode::REL, cycles: 2 },
        0xB1 => Instr { op: Op::LDA, addr_mode: AddrMode::IDY, cycles: 5 },
        0xB4 => Instr { op: Op::LDY, addr_mode: AddrMode::ZPX, cycles: 4 },
        0xB5 => Instr { op: Op::LDA, addr_mode: AddrMode::ZPX, cycles: 4 },
        0xB6 => Instr { op: Op::LDX, addr_mode: AddrMode::ZPY, cycles: 4 },
        0xB8 => Instr { op: Op::CLV, addr_mode: AddrMode::IMP, cycles: 2 },
        0xB9 => Instr { op: Op::LDA, addr_mode: AddrMode::ABY, cycles: 4 },
        0xBA => Instr { op: Op::TSX, addr_mode: AddrMode::IMP, cycles: 2 },
        0xBC => Instr { op: Op::LDY, addr_mode: AddrMode::ABX, cycles: 4 },
        0xBD => Instr { op: Op::LDA, addr_mode: AddrMode::ABX, cycles: 4 },
        0xBE => Instr { op: Op::LDX, addr_mode: AddrMode::ABY, cycles: 4 },
        0xC0 => Instr { op: Op::CPY, addr_mode: AddrMode::IMM, cycles: 2 },
        0xC1 => Instr { op: Op::CMP, addr_mode: AddrMode::IDX, cycles: 6 },
        0xC4 => Instr { op: Op::CPY, addr_mode: AddrMode::ZP0, cycles: 3 },
        0xC5 => Instr { op: Op::CMP, addr_mode: AddrMode::ZP0, cycles: 3 },
        0xC6 => Instr { op: Op::DEC, addr_mode: AddrMode::ZP0, cycles: 5 },
        0xC8 => Instr { op: Op::INY, addr_mode: AddrMode::IMP, cycles: 2 },
        0xC9 => Instr { op: Op::CMP, addr_mode: AddrMode::IMM, cycles: 2 },
        0xCA => Instr { op: Op::DEX, addr_mode: AddrMode::IMP, cycles: 2 },
        0xCC => Instr { op: Op::CPY, addr_mode: AddrMode::ABS, cycles: 4 },
        0xCD => Instr { op: Op::CMP, addr_mode: AddrMode::ABS, cycles: 4 },
        0xCE => Instr { op: Op::DEC, addr_mode: AddrMode::ABS, cycles: 6 },
        0xD0 => Instr { op: Op::BNE, addr_mode: AddrMode::REL, cycles: 2 },
        0xD1 => Instr { op: Op::CMP, addr_mode: AddrMode::IDY, cycles: 5 },
        0xD5 => Instr { op: Op::CMP, addr_mode: AddrMode::ZPX, cycles: 4 },
        0xD6 => Instr { op: Op::DEC, addr_mode: AddrMode::ZPX, cycles: 6 },
        0xD8 => Instr { op: Op::CLD, addr_mode: AddrMode::IMP, cycles: 2 },
        0xD9 => Instr { op: Op::CMP, addr_mode: AddrMode::ABY, cycles: 4 },
        0xDD => Instr { op: Op::CMP, addr_mode: AddrMode::ABX, cycles: 4 },
        0xDE => Instr { op: Op::DEC, addr_mode: AddrMode::ABX, cycles: 7 },
        0xE0 => Instr { op: Op::CPX, addr_mode: AddrMode::IMM, cycles: 2 },
        0xE1 => Instr { op: Op::SBC, addr_mode: AddrMode::IDX, cycles: 6 },
        0xE4 => Instr { op: Op::CPX, addr_mode: AddrMode::ZP0, cycles: 3 },
        0xE5 => Instr { op: Op::SBC, addr_mode: AddrMode::ZP0, cycles: 3 },
        0xE6 => Instr { op: Op::INC, addr_mode: AddrMode::ZP0, cycles: 5 },
        0xE8 => Instr { op: Op::INX, addr_mode: AddrMode::IMP, cycles: 2 },
        0xE9 => Instr { op: Op::SBC, addr_mode: AddrMode::IMM, cycles: 2 },
        0xEA => Instr { op: Op::NOP, addr_mode: AddrMode::IMP, cycles: 2 },
        0xEC => Instr { op: Op::CPX, addr_mode: AddrMode::ABS, cycles: 4 },
        0xED => Instr { op: Op::SBC, addr_mode: AddrMode::ABS, cycles: 4 },
        0xEE => Instr { op: Op::INC, addr_mode: AddrMode::ABS, cycles: 6 },
        0xF0 => Instr { op: Op::BEQ, addr_mode: AddrMode::REL, cycles: 2 },
        0xF1 => Instr { op: Op::SBC, addr_mode: AddrMode::IDY, cycles: 5 },
        0xF5 => Instr { op: Op::SBC, addr_mode: AddrMode::ZPX, cycles: 4 },
        0xF6 => Instr { op: Op::INC, addr_mode: AddrMode::ZPX, cycles: 6 },
        0xF8 => Instr { op: Op::SED, addr_mode: AddrMode::IMP, cycles: 2 },
        0xF9 => Instr { op: Op::SBC, addr_mode: AddrMode::ABY, cycles: 4 },
        0xFD => Instr { op: Op::SBC, addr_mode: AddrMode::ABX, cycles: 4 },
        0xFE => Instr { op: Op::INC, addr_mode: AddrMode::ABX, cycles: 7 },
        _ => Instr { op: Op::XXX, addr_mode: AddrMode::_XXX, cycles: 2 },
    }
}

} // verus!
