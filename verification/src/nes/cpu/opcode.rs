//! The instruction set: what each opcode does and how it addresses its
//! operand.

use vstd::prelude::*;

verus! {

/// How an instruction finds its operand.
#[derive(Debug, Clone, Copy, PartialEq, Eq)]
pub enum Addressing {
    Implied,
    Accumulator,
    Immediate,
    ZeroPage,
    ZeroPageX,
    ZeroPageY,
    Relative,
    Absolute,
    AbsoluteX,
    AbsoluteY,
    Indirect,
    XIdxedInd,
    IndYIdxed,
}

/// Instructions with a sequence of their own.
#[derive(Debug, Clone, Copy, PartialEq, Eq)]
pub enum Unique {
    JAM, BRK, RTI, RTS, PHA, PHP, PLA, PLP, JSR, JMP,
}

/// One-byte instructions on registers.
#[derive(Debug, Clone, Copy, PartialEq, Eq)]
pub enum Short {
    INX, INY, DEX, DEY, CLC, CLD, CLI, CLV, SEC, SED, SEI, TAX, TAY, TSX, TXA, TYA, TXS,
}

/// Conditional branches.
#[derive(Debug, Clone, Copy, PartialEq, Eq)]
pub enum Branch {
    BCC, BCS, BNE, BEQ, BVC, BVS, BPL, BMI,
}

/// Instructions that read their operand.
#[derive(Debug, Clone, Copy, PartialEq, Eq)]
pub enum Read {
    NOP, ADC, SBC, AND, ORA, EOR, BIT, CMP, CPX, CPY, LDA, LDX, LDY, LAX, LXA, LAS, ALR, ARR, ANC, AXS, ANE,
}

/// Instructions that read, change and write back their operand.
#[derive(Debug, Clone, Copy, PartialEq, Eq)]
pub enum Modify {
    ASL, LSR, ROL, ROR, INC, DEC, DCP, ISB, RRA, RLA, SLO, SRE,
}

/// Instructions that store a register.
#[derive(Debug, Clone, Copy, PartialEq, Eq)]
pub enum Write {
    STA, STX, STY, SAX,
}

/// Stores whose value involves the high byte of the target address.
#[derive(Debug, Clone, Copy, PartialEq, Eq)]
pub enum UnstableWrite {
    SHA, SHX, SHY, SHS,
}

/// An instruction by the way it uses the bus.
#[derive(Debug, Clone, Copy, PartialEq, Eq)]
pub enum Mnemonic {
    Unique(Unique),
    Short(Short),
    Branch(Branch),
    Read(Read),
    Modify(Modify),
    Write(Write),
    UnstableWrite(UnstableWrite),
}

/// Addressing modes that compute an operand.
pub open spec fn has_operand(a: Addressing) -> bool {
    !(a is Implied || a is Relative || a is Indirect)
}

/// The pairs of instruction and addressing mode the CPU can execute.
pub open spec fn executable(m: Mnemonic, a: Addressing) -> bool {
    match m {
        Mnemonic::Unique(u) => u == Unique::JMP ==> (a is Absolute || a is Indirect),
        Mnemonic::Short(_) => true,
        Mnemonic::Branch(_) => true,
        Mnemonic::Read(_) => has_operand(a),
        Mnemonic::Modify(_) => has_operand(a) && !(a is Immediate),
        Mnemonic::Write(_) => has_operand(a) && !(a is Immediate) && !(a is Accumulator),
        Mnemonic::UnstableWrite(_) => a is AbsoluteX || a is AbsoluteY || a is IndYIdxed,
    }
}

/// The opcode map of the 2A03 (a 6502 without decimal mode), the
/// undocumented opcodes included.
#[verifier::opaque]
pub open spec fn opcode_entry(opcode: u8) -> (Mnemonic, Addressing) {
    match opcode {
        0x00 => (Mnemonic::Unique(Unique::BRK), Addressing::Implied),
        0x01 => (Mnemonic::Read(Read::ORA), Addressing::XIdxedInd),
        0x02 => (Mnemonic::Unique(Unique::JAM), Addressing::Implied),
        0x03 => (Mnemonic::Modify(Modify::SLO), Addressing::XIdxedInd),
        0x04 => (Mnemonic::Read(Read::NOP), Addressing::ZeroPage),
        0x05 => (Mnemonic::Read(Read::ORA), Addressing::ZeroPage),
        0x06 => (Mnemonic::Modify(Modify::ASL), Addressing::ZeroPage),
        0x07 => (Mnemonic::Modify(Modify::SLO), Addressing::ZeroPage),
        0x08 => (Mnemonic::Unique(Unique::PHP), Addressing::Implied),
        0x09 => (Mnemonic::Read(Read::ORA), Addressing::Immediate),
        0x0A => (Mnemonic::Modify(Modify::ASL), Addressing::Accumulator),
        0x0B => (Mnemonic::Read(Read::ANC), Addressing::Immediate),
        0x0C => (Mnemonic::Read(Read::NOP), Addressing::Absolute),
        0x0D => (Mnemonic::Read(Read::ORA), Addressing::Absolute),
        0x0E => (Mnemonic::Modify(Modify::ASL), Addressing::Absolute),
        0x0F => (Mnemonic::Modify(Modify::SLO), Addressing::Absolute),
        0x10 => (Mnemonic::Branch(Branch::BPL), Addressing::Relative),
        0x11 => (Mnemonic::Read(Read::ORA), Addressing::IndYIdxed),
        0x12 => (Mnemonic::Unique(Unique::JAM), Addressing::Implied),
        0x13 => (Mnemonic::Modify(Modify::SLO), Addressing::IndYIdxed),
        0x14 => (Mnemonic::Read(Read::NOP), Addressing::ZeroPageX),
        0x15 => (Mnemonic::Read(Read::ORA), Addressing::ZeroPageX),
        0x16 => (Mnemonic::Modify(Modify::ASL), Addressing::ZeroPageX),
        0x17 => (Mnemonic::Modify(Modify::SLO), Addressing::ZeroPageX),
        0x18 => (Mnemonic::Short(Short::CLC), Addressing::Implied),
        0x19 => (Mnemonic::Read(Read::ORA), Addressing::AbsoluteY),
        0x1A => (Mnemonic::Read(Read::NOP), Addressing::Accumulator),
        0x1B => (Mnemonic::Modify(Modify::SLO), Addressing::AbsoluteY),
        0x1C => (Mnemonic::Read(Read::NOP), Addressing::AbsoluteX),
        0x1D => (Mnemonic::Read(Read::ORA), Addressing::AbsoluteX),
        0x1E => (Mnemonic::Modify(Modify::ASL), Addressing::AbsoluteX),
        0x1F => (Mnemonic::Modify(Modify::SLO), Addressing::AbsoluteX),
        0x20 => (Mnemonic::Unique(Unique::JSR), Addressing::Absolute),
        0x21 => (Mnemonic::Read(Read::AND), Addressing::XIdxedInd),
        0x22 => (Mnemonic::Unique(Unique::JAM), Addressing::Implied),
        0x23 => (Mnemonic::Modify(Modify::RLA), Addressing::XIdxedInd),
        0x24 => (Mnemonic::Read(Read::BIT), Addressing::ZeroPage),
        0x25 => (Mnemonic::Read(Read::AND), Addressing::ZeroPage),
        0x26 => (Mnemonic::Modify(Modify::ROL), Addressing::ZeroPage),
        0x27 => (Mnemonic::Modify(Modify::RLA), Addressing::ZeroPage),
        0x28 => (Mnemonic::Unique(Unique::PLP), Addressing::Implied),
        0x29 => (Mnemonic::Read(Read::AND), Addressing::Immediate),
        0x2A => (Mnemonic::Modify(Modify::ROL), Addressing::Accumulator),
        0x2B => (Mnemonic::Read(Read::ANC), Addressing::Immediate),
        0x2C => (Mnemonic::Read(Read::BIT), Addressing::Absolute),
        0x2D => (Mnemonic::Read(Read::AND), Addressing::Absolute),
        0x2E => (Mnemonic::Modify(Modify::ROL), Addressing::Absolute),
        0x2F => (Mnemonic::Modify(Modify::RLA), Addressing::Absolute),
        0x30 => (Mnemonic::Branch(Branch::BMI), Addressing::Relative),
        0x31 => (Mnemonic::Read(Read::AND), Addressing::IndYIdxed),
        0x32 => (Mnemonic::Unique(Unique::JAM), Addressing::Implied),
        0x33 => (Mnemonic::Modify(Modify::RLA), Addressing::IndYIdxed),
        0x34 => (Mnemonic::Read(Read::NOP), Addressing::ZeroPageX),
        0x35 => (Mnemonic::Read(Read::AND), Addressing::ZeroPageX),
        0x36 => (Mnemonic::Modify(Modify::ROL), Addressing::ZeroPageX),
        0x37 => (Mnemonic::Modify(Modify::RLA), Addressing::ZeroPageX),
        0x38 => (Mnemonic::Short(Short::SEC), Addressing::Implied),
        0x39 => (Mnemonic::Read(Read::AND), Addressing::AbsoluteY),
        0x3A => (Mnemonic::Read(Read::NOP), Addressing::Accumulator),
        0x3B => (Mnemonic::Modify(Modify::RLA), Addressing::AbsoluteY),
        0x3C => (Mnemonic::Read(Read::NOP), Addressing::AbsoluteX),
        0x3D => (Mnemonic::Read(Read::AND), Addressing::AbsoluteX),
        0x3E => (Mnemonic::Modify(Modify::ROL), Addressing::AbsoluteX),
        0x3F => (Mnemonic::Modify(Modify::RLA), Addressing::AbsoluteX),
        0x40 => (Mnemonic::Unique(Unique::RTI), Addressing::Implied),
        0x41 => (Mnemonic::Read(Read::EOR), Addressing::XIdxedInd),
        0x42 => (Mnemonic::Unique(Unique::JAM), Addressing::Implied),
        0x43 => (Mnemonic::Modify(Modify::SRE), Addressing::XIdxedInd),
        0x44 => (Mnemonic::Read(Read::NOP), Addressing::ZeroPage),
        0x45 => (Mnemonic::Read(Read::EOR), Addressing::ZeroPage),
        0x46 => (Mnemonic::Modify(Modify::LSR), Addressing::ZeroPage),
        0x47 => (Mnemonic::Modify(Modify::SRE), Addressing::ZeroPage),
        0x48 => (Mnemonic::Unique(Unique::PHA), Addressing::Implied),
        0x49 => (Mnemonic::Read(Read::EOR), Addressing::Immediate),
        0x4A => (Mnemonic::Modify(Modify::LSR), Addressing::Accumulator),
        0x4B => (Mnemonic::Read(Read::ALR), Addressing::Immediate),
        0x4C => (Mnemonic::Unique(Unique::JMP), Addressing::Absolute),
        0x4D => (Mnemonic::Read(Read::EOR), Addressing::Absolute),
        0x4E => (Mnemonic::Modify(Modify::LSR), Addressing::Absolute),
        0x4F => (Mnemonic::Modify(Modify::SRE), Addressing::Absolute),
        0x50 => (Mnemonic::Branch(Branch::BVC), Addressing::Relative),
        0x51 => (Mnemonic::Read(Read::EOR), Addressing::IndYIdxed),
        0x52 => (Mnemonic::Unique(Unique::JAM), Addressing::Implied),
        0x53 => (Mnemonic::Modify(Modify::SRE), Addressing::IndYIdxed),
        0x54 => (Mnemonic::Read(Read::NOP), Addressing::ZeroPageX),
        0x55 => (Mnemonic::Read(Read::EOR), Addressing::ZeroPageX),
        0x56 => (Mnemonic::Modify(Modify::LSR), Addressing::ZeroPageX),
        0x57 => (Mnemonic::Modify(Modify::SRE), Addressing::ZeroPageX),
        0x58 => (Mnemonic::Short(Short::CLI), Addressing::Implied),
        0x59 => (Mnemonic::Read(Read::EOR), Addressing::AbsoluteY),
        0x5A => (Mnemonic::Read(Read::NOP), Addressing::Accumulator),
        0x5B => (Mnemonic::Modify(Modify::SRE), Addressing::AbsoluteY),
        0x5C => (Mnemonic::Read(Read::NOP), Addressing::AbsoluteX),
        0x5D => (Mnemonic::Read(Read::EOR), Addressing::AbsoluteX),
        0x5E => (Mnemonic::Modify(Modify::LSR), Addressing::AbsoluteX),
        0x5F => (Mnemonic::Modify(Modify::SRE), Addressing::AbsoluteX),
        0x60 => (Mnemonic::Unique(Unique::RTS), Addressing::Implied),
        0x61 => (Mnemonic::Read(Read::ADC), Addressing::XIdxedInd),
        0x62 => (Mnemonic::Unique(Unique::JAM), Addressing::Implied),
        0x63 => (Mnemonic::Modify(Modify::RRA), Addressing::XIdxedInd),
        0x64 => (Mnemonic::Read(Read::NOP), Addressing::ZeroPage),
        0x65 => (Mnemonic::Read(Read::ADC), Addressing::ZeroPage),
        0x66 => (Mnemonic::Modify(Modify::ROR), Addressing::ZeroPage),
        0x67 => (Mnemonic::Modify(Modify::RRA), Addressing::ZeroPage),
        0x68 => (Mnemonic::Unique(Unique::PLA), Addressing::Implied),
        0x69 => (Mnemonic::Read(Read::ADC), Addressing::Immediate),
        0x6A => (Mnemonic::Modify(Modify::ROR), Addressing::Accumulator),
        0x6B => (Mnemonic::Read(Read::ARR), Addressing::Immediate),
        0x6C => (Mnemonic::Unique(Unique::JMP), Addressing::Indirect),
        0x6D => (Mnemonic::Read(Read::ADC), Addressing::Absolute),
        0x6E => (Mnemonic::Modify(Modify::ROR), Addressing::Absolute),
        0x6F => (Mnemonic::Modify(Modify::RRA), Addressing::Absolute),
        0x70 => (Mnemonic::Branch(Branch::BVS), Addressing::Relative),
        0x71 => (Mnemonic::Read(Read::ADC), Addressing::IndYIdxed),
        0x72 => (Mnemonic::Unique(Unique::JAM), Addressing::Implied),
        0x73 => (Mnemonic::Modify(Modify::RRA), Addressing::IndYIdxed),
        0x74 => (Mnemonic::Read(Read::NOP), Addressing::ZeroPageX),
        0x75 => (Mnemonic::Read(Read::ADC), Addressing::ZeroPageX),
        0x76 => (Mnemonic::Modify(Modify::ROR), Addressing::ZeroPageX),
        0x77 => (Mnemonic::Modify(Modify::RRA), Addressing::ZeroPageX),
        0x78 => (Mnemonic::Short(Short::SEI), Addressing::Implied),
        0x79 => (Mnemonic::Read(Read::ADC), Addressing::AbsoluteY),
        0x7A => (Mnemonic::Read(Read::NOP), Addressing::Accumulator),
        0x7B => (Mnemonic::Modify(Modify::RRA), Addressing::AbsoluteY),
        0x7C => (Mnemonic::Read(Read::NOP), Addressing::AbsoluteX),
        0x7D => (Mnemonic::Read(Read::ADC), Addressing::AbsoluteX),
        0x7E => (Mnemonic::Modify(Modify::ROR), Addressing::AbsoluteX),
        0x7F => (Mnemonic::Modify(Modify::RRA), Addressing::AbsoluteX),
        0x80 => (Mnemonic::Read(Read::NOP), Addressing::Immediate),
        0x81 => (Mnemonic::Write(Write::STA), Addressing::XIdxedInd),
        0x82 => (Mnemonic::Read(Read::NOP), Addressing::Immediate),
        0x83 => (Mnemonic::Write(Write::SAX), Addressing::XIdxedInd),
        0x84 => (Mnemonic::Write(Write::STY), Addressing::ZeroPage),
        0x85 => (Mnemonic::Write(Write::STA), Addressing::ZeroPage),
        0x86 => (Mnemonic::Write(Write::STX), Addressing::ZeroPage),
        0x87 => (Mnemonic::Write(Write::SAX), Addressing::ZeroPage),
        0x88 => (Mnemonic::Short(Short::DEY), Addressing::Implied),
        0x89 => (Mnemonic::Read(Read::NOP), Addressing::Immediate),
        0x8A => (Mnemonic::Short(Short::TXA), Addressing::Implied),
        0x8B => (Mnemonic::Read(Read::ANE), Addressing::Immediate),
        0x8C => (Mnemonic::Write(Write::STY), Addressing::Absolute),
        0x8D => (Mnemonic::Write(Write::STA), Addressing::Absolute),
        0x8E => (Mnemonic::Write(Write::STX), Addressing::Absolute),
        0x8F => (Mnemonic::Write(Write::SAX), Addressing::Absolute),
        0x90 => (Mnemonic::Branch(Branch::BCC), Addressing::Relative),
        0x91 => (Mnemonic::Write(Write::STA), Addressing::IndYIdxed),
        0x92 => (Mnemonic::Unique(Unique::JAM), Addressing::Implied),
        0x93 => (Mnemonic::UnstableWrite(UnstableWrite::SHA), Addressing::IndYIdxed),
        0x94 => (Mnemonic::Write(Write::STY), Addressing::ZeroPageX),
        0x95 => (Mnemonic::Write(Write::STA), Addressing::ZeroPageX),
        0x96 => (Mnemonic::Write(Write::STX), Addressing::ZeroPageY),
        0x97 => (Mnemonic::Write(Write::SAX), Addressing::ZeroPageY),
        0x98 => (Mnemonic::Short(Short::TYA), Addressing::Implied),
        0x99 => (Mnemonic::Write(Write::STA), Addressing::AbsoluteY),
        0x9A => (Mnemonic::Short(Short::TXS), Addressing::Implied),
        0x9B => (Mnemonic::UnstableWrite(UnstableWrite::SHS), Addressing::AbsoluteY),
        0x9C => (Mnemonic::UnstableWrite(UnstableWrite::SHY), Addressing::AbsoluteX),
        0x9D => (Mnemonic::Write(Write::STA), Addressing::AbsoluteX),
        0x9E => (Mnemonic::UnstableWrite(UnstableWrite::SHX), Addressing::AbsoluteY),
        0x9F => (Mnemonic::UnstableWrite(UnstableWrite::SHA), Addressing::AbsoluteY),
        0xA0 => (Mnemonic::Read(Read::LDY), Addressing::Immediate),
        0xA1 => (Mnemonic::Read(Read::LDA), Addressing::XIdxedInd),
        0xA2 => (Mnemonic::Read(Read::LDX), Addressing::Immediate),
        0xA3 => (Mnemonic::Read(Read::LAX), Addressing::XIdxedInd),
        0xA4 => (Mnemonic::Read(Read::LDY), Addressing::ZeroPage),
        0xA5 => (Mnemonic::Read(Read::LDA), Addressing::ZeroPage),
        0xA6 => (Mnemonic::Read(Read::LDX), Addressing::ZeroPage),
        0xA7 => (Mnemonic::Read(Read::LAX), Addressing::ZeroPage),
        0xA8 => (Mnemonic::Short(Short::TAY), Addressing::Implied),
        0xA9 => (Mnemonic::Read(Read::LDA), Addressing::Immediate),
        0xAA => (Mnemonic::Short(Short::TAX), Addressing::Implied),
        0xAB => (Mnemonic::Read(Read::LXA), Addressing::Immediate),
        0xAC => (Mnemonic::Read(Read::LDY), Addressing::Absolute),
        0xAD => (Mnemonic::Read(Read::LDA), Addressing::Absolute),
        0xAE => (Mnemonic::Read(Read::LDX), Addressing::Absolute),
        0xAF => (Mnemonic::Read(Read::LAX), Addressing::Absolute),
        0xB0 => (Mnemonic::Branch(Branch::BCS), Addressing::Relative),
        0xB1 => (Mnemonic::Read(Read::LDA), Addressing::IndYIdxed),
        0xB2 => (Mnemonic::Unique(Unique::JAM), Addressing::Implied),
        0xB3 => (Mnemonic::Read(Read::LAX), Addressing::IndYIdxed),
        0xB4 => (Mnemonic::Read(Read::LDY), Addressing::ZeroPageX),
        0xB5 => (Mnemonic::Read(Read::LDA), Addressing::ZeroPageX),
        0xB6 => (Mnemonic::Read(Read::LDX), Addressing::ZeroPageY),
        0xB7 => (Mnemonic::Read(Read::LAX), Addressing::ZeroPageY),
        0xB8 => (Mnemonic::Short(Short::CLV), Addressing::Implied),
        0xB9 => (Mnemonic::Read(Read::LDA), Addressing::AbsoluteY),
        0xBA => (Mnemonic::Short(Short::TSX), Addressing::Implied),
        0xBB => (Mnemonic::Read(Read::LAS), Addressing::AbsoluteY),
        0xBC => (Mnemonic::Read(Read::LDY), Addressing::AbsoluteX),
        0xBD => (Mnemonic::Read(Read::LDA), Addressing::AbsoluteX),
        0xBE => (Mnemonic::Read(Read::LDX), Addressing::AbsoluteY),
        0xBF => (Mnemonic::Read(Read::LAX), Addressing::AbsoluteY),
        0xC0 => (Mnemonic::Read(Read::CPY), Addressing::Immediate),
        0xC1 => (Mnemonic::Read(Read::CMP), Addressing::XIdxedInd),
        0xC2 => (Mnemonic::Read(Read::NOP), Addressing::Immediate),
        0xC3 => (Mnemonic::Modify(Modify::DCP), Addressing::XIdxedInd),
        0xC4 => (Mnemonic::Read(Read::CPY), Addressing::ZeroPage),
        0xC5 => (Mnemonic::Read(Read::CMP), Addressing::ZeroPage),
        0xC6 => (Mnemonic::Modify(Modify::DEC), Addressing::ZeroPage),
        0xC7 => (Mnemonic::Modify(Modify::DCP), Addressing::ZeroPage),
        0xC8 => (Mnemonic::Short(Short::INY), Addressing::Implied),
        0xC9 => (Mnemonic::Read(Read::CMP), Addressing::Immediate),
        0xCA => (Mnemonic::Short(Short::DEX), Addressing::Implied),
        0xCB => (Mnemonic::Read(Read::AXS), Addressing::Immediate),
        0xCC => (Mnemonic::Read(Read::CPY), Addressing::Absolute),
        0xCD => (Mnemonic::Read(Read::CMP), Addressing::Absolute),
        0xCE => (Mnemonic::Modify(Modify::DEC), Addressing::Absolute),
        0xCF => (Mnemonic::Modify(Modify::DCP), Addressing::Absolute),
        0xD0 => (Mnemonic::Branch(Branch::BNE), Addressing::Relative),
        0xD1 => (Mnemonic::Read(Read::CMP), Addressing::IndYIdxed),
        0xD2 => (Mnemonic::Unique(Unique::JAM), Addressing::Implied),
        0xD3 => (Mnemonic::Modify(Modify::DCP), Addressing::IndYIdxed),
        0xD4 => (Mnemonic::Read(Read::NOP), Addressing::ZeroPageX),
        0xD5 => (Mnemonic::Read(Read::CMP), Addressing::ZeroPageX),
        0xD6 => (Mnemonic::Modify(Modify::DEC), Addressing::ZeroPageX),
        0xD7 => (Mnemonic::Modify(Modify::DCP), Addressing::ZeroPageX),
        0xD8 => (Mnemonic::Short(Short::CLD), Addressing::Implied),
        0xD9 => (Mnemonic::Read(Read::CMP), Addressing::AbsoluteY),
        0xDA => (Mnemonic::Read(Read::NOP), Addressing::Accumulator),
        0xDB => (Mnemonic::Modify(Modify::DCP), Addressing::AbsoluteY),
        0xDC => (Mnemonic::Read(Read::NOP), Addressing::AbsoluteX),
        0xDD => (Mnemonic::Read(Read::CMP), Addressing::AbsoluteX),
        0xDE => (Mnemonic::Modify(Modify::DEC), Addressing::AbsoluteX),
        0xDF => (Mnemonic::Modify(Modify::DCP), Addressing::AbsoluteX),
        0xE0 => (Mnemonic::Read(Read::CPX), Addressing::Immediate),
        0xE1 => (Mnemonic::Read(Read::SBC), Addressing::XIdxedInd),
        0xE2 => (Mnemonic::Read(Read::NOP), Addressing::Immediate),
        0xE3 => (Mnemonic::Modify(Modify::ISB), Addressing::XIdxedInd),
        0xE4 => (Mnemonic::Read(Read::CPX), Addressing::ZeroPage),
        0xE5 => (Mnemonic::Read(Read::SBC), Addressing::ZeroPage),
        0xE6 => (Mnemonic::Modify(Modify::INC), Addressing::ZeroPage),
        0xE7 => (Mnemonic::Modify(Modify::ISB), Addressing::ZeroPage),
        0xE8 => (Mnemonic::Short(Short::INX), Addressing::Implied),
        0xE9 => (Mnemonic::Read(Read::SBC), Addressing::Immediate),
        0xEA => (Mnemonic::Read(Read::NOP), Addressing::Accumulator),
        0xEB => (Mnemonic::Read(Read::SBC), Addressing::Immediate),
        0xEC => (Mnemonic::Read(Read::CPX), Addressing::Absolute),
        0xED => (Mnemonic::Read(Read::SBC), Addressing::Absolute),
        0xEE => (Mnemonic::Modify(Modify::INC), Addressing::Absolute),
        0xEF => (Mnemonic::Modify(Modify::ISB), Addressing::Absolute),
        0xF0 => (Mnemonic::Branch(Branch::BEQ), Addressing::Relative),
        0xF1 => (Mnemonic::Read(Read::SBC), Addressing::IndYIdxed),
        0xF2 => (Mnemonic::Unique(Unique::JAM), Addressing::Implied),
        0xF3 => (Mnemonic::Modify(Modify::ISB), Addressing::IndYIdxed),
        0xF4 => (Mnemonic::Read(Read::NOP), Addressing::ZeroPageX),
        0xF5 => (Mnemonic::Read(Read::SBC), Addressing::ZeroPageX),
        0xF6 => (Mnemonic::Modify(Modify::INC), Addressing::ZeroPageX),
        0xF7 => (Mnemonic::Modify(Modify::ISB), Addressing::ZeroPageX),
        0xF8 => (Mnemonic::Short(Short::SED), Addressing::Implied),
        0xF9 => (Mnemonic::Read(Read::SBC), Addressing::AbsoluteY),
        0xFA => (Mnemonic::Read(Read::NOP), Addressing::Accumulator),
        0xFB => (Mnemonic::Modify(Modify::ISB), Addressing::AbsoluteY),
        0xFC => (Mnemonic::Read(Read::NOP), Addressing::AbsoluteX),
        0xFD => (Mnemonic::Read(Read::SBC), Addressing::AbsoluteX),
        0xFE => (Mnemonic::Modify(Modify::INC), Addressing::AbsoluteX),
        0xFF => (Mnemonic::Modify(Modify::ISB), Addressing::AbsoluteX),
    }
}

/// Decodes an opcode.
pub fn decode(opcode: u8) -> (r: (Mnemonic, Addressing))
    ensures
        r == opcode_entry(opcode),
        executable(r.0, r.1),
{
    reveal(opcode_entry);
    match opcode {
        0x00 => (Mnemonic::Unique(Unique::BRK), Addressing::Implied),
        0x01 => (Mnemonic::Read(Read::ORA), Addressing::XIdxedInd),
        0x02 => (Mnemonic::Unique(Unique::JAM), Addressing::Implied),
        0x03 => (Mnemonic::Modify(Modify::SLO), Addressing::XIdxedInd),
        0x04 => (Mnemonic::Read(Read::NOP), Addressing::ZeroPage),
        0x05 => (Mnemonic::Read(Read::ORA), Addressing::ZeroPage),
        0x06 => (Mnemonic::Modify(Modify::ASL), Addressing::ZeroPage),
        0x07 => (Mnemonic::Modify(Modify::SLO), Addressing::ZeroPage),
        0x08 => (Mnemonic::Unique(Unique::PHP), Addressing::Implied),
        0x09 => (Mnemonic::Read(Read::ORA), Addressing::Immediate),
        0x0A => (Mnemonic::Modify(Modify::ASL), Addressing::Accumulator),
        0x0B => (Mnemonic::Read(Read::ANC), Addressing::Immediate),
        0x0C => (Mnemonic::Read(Read::NOP), Addressing::Absolute),
        0x0D => (Mnemonic::Read(Read::ORA), Addressing::Absolute),
        0x0E => (Mnemonic::Modify(Modify::ASL), Addressing::Absolute),
        0x0F => (Mnemonic::Modify(Modify::SLO), Addressing::Absolute),
        0x10 => (Mnemonic::Branch(Branch::BPL), Addressing::Relative),
        0x11 => (Mnemonic::Read(Read::ORA), Addressing::IndYIdxed),
        0x12 => (Mnemonic::Unique(Unique::JAM), Addressing::Implied),
        0x13 => (Mnemonic::Modify(Modify::SLO), Addressing::IndYIdxed),
        0x14 => (Mnemonic::Read(Read::NOP), Addressing::ZeroPageX),
        0x15 => (Mnemonic::Read(Read::ORA), Addressing::ZeroPageX),
        0x16 => (Mnemonic::Modify(Modify::ASL), Addressing::ZeroPageX),
        0x17 => (Mnemonic::Modify(Modify::SLO), Addressing::ZeroPageX),
        0x18 => (Mnemonic::Short(Short::CLC), Addressing::Implied),
        0x19 => (Mnemonic::Read(Read::ORA), Addressing::AbsoluteY),
        0x1A => (Mnemonic::Read(Read::NOP), Addressing::Accumulator),
        0x1B => (Mnemonic::Modify(Modify::SLO), Addressing::AbsoluteY),
        0x1C => (Mnemonic::Read(Read::NOP), Addressing::AbsoluteX),
        0x1D => (Mnemonic::Read(Read::ORA), Addressing::AbsoluteX),
        0x1E => (Mnemonic::Modify(Modify::ASL), Addressing::AbsoluteX),
        0x1F => (Mnemonic::Modify(Modify::SLO), Addressing::AbsoluteX),
        0x20 => (Mnemonic::Unique(Unique::JSR), Addressing::Absolute),
        0x21 => (Mnemonic::Read(Read::AND), Addressing::XIdxedInd),
        0x22 => (Mnemonic::Unique(Unique::JAM), Addressing::Implied),
        0x23 => (Mnemonic::Modify(Modify::RLA), Addressing::XIdxedInd),
        0x24 => (Mnemonic::Read(Read::BIT), Addressing::ZeroPage),
        0x25 => (Mnemonic::Read(Read::AND), Addressing::ZeroPage),
        0x26 => (Mnemonic::Modify(Modify::ROL), Addressing::ZeroPage),
        0x27 => (Mnemonic::Modify(Modify::RLA), Addressing::ZeroPage),
        0x28 => (Mnemonic::Unique(Unique::PLP), Addressing::Implied),
        0x29 => (Mnemonic::Read(Read::AND), Addressing::Immediate),
        0x2A => (Mnemonic::Modify(Modify::ROL), Addressing::Accumulator),
        0x2B => (Mnemonic::Read(Read::ANC), Addressing::Immediate),
        0x2C => (Mnemonic::Read(Read::BIT), Addressing::Absolute),
        0x2D => (Mnemonic::Read(Read::AND), Addressing::Absolute),
        0x2E => (Mnemonic::Modify(Modify::ROL), Addressing::Absolute),
        0x2F => (Mnemonic::Modify(Modify::RLA), Addressing::Absolute),
        0x30 => (Mnemonic::Branch(Branch::BMI), Addressing::Relative),
        0x31 => (Mnemonic::Read(Read::AND), Addressing::IndYIdxed),
        0x32 => (Mnemonic::Unique(Unique::JAM), Addressing::Implied),
        0x33 => (Mnemonic::Modify(Modify::RLA), Addressing::IndYIdxed),
        0x34 => (Mnemonic::Read(Read::NOP), Addressing::ZeroPageX),
        0x35 => (Mnemonic::Read(Read::AND), Addressing::ZeroPageX),
        0x36 => (Mnemonic::Modify(Modify::ROL), Addressing::ZeroPageX),
        0x37 => (Mnemonic::Modify(Modify::RLA), Addressing::ZeroPageX),
        0x38 => (Mnemonic::Short(Short::SEC), Addressing::Implied),
        0x39 => (Mnemonic::Read(Read::AND), Addressing::AbsoluteY),
        0x3A => (Mnemonic::Read(Read::NOP), Addressing::Accumulator),
        0x3B => (Mnemonic::Modify(Modify::RLA), Addressing::AbsoluteY),
        0x3C => (Mnemonic::Read(Read::NOP), Addressing::AbsoluteX),
        0x3D => (Mnemonic::Read(Read::AND), Addressing::AbsoluteX),
        0x3E => (Mnemonic::Modify(Modify::ROL), Addressing::AbsoluteX),
        0x3F => (Mnemonic::Modify(Modify::RLA), Addressing::AbsoluteX),
        0x40 => (Mnemonic::Unique(Unique::RTI), Addressing::Implied),
        0x41 => (Mnemonic::Read(Read::EOR), Addressing::XIdxedInd),
        0x42 => (Mnemonic::Unique(Unique::JAM), Addressing::Implied),
        0x43 => (Mnemonic::Modify(Modify::SRE), Addressing::XIdxedInd),
        0x44 => (Mnemonic::Read(Read::NOP), Addressing::ZeroPage),
        0x45 => (Mnemonic::Read(Read::EOR), Addressing::ZeroPage),
        0x46 => (Mnemonic::Modify(Modify::LSR), Addressing::ZeroPage),
        0x47 => (Mnemonic::Modify(Modify::SRE), Addressing::ZeroPage),
        0x48 => (Mnemonic::Unique(Unique::PHA), Addressing::Implied),
        0x49 => (Mnemonic::Read(Read::EOR), Addressing::Immediate),
        0x4A => (Mnemonic::Modify(Modify::LSR), Addressing::Accumulator),
        0x4B => (Mnemonic::Read(Read::ALR), Addressing::Immediate),
        0x4C => (Mnemonic::Unique(Unique::JMP), Addressing::Absolute),
        0x4D => (Mnemonic::Read(Read::EOR), Addressing::Absolute),
        0x4E => (Mnemonic::Modify(Modify::LSR), Addressing::Absolute),
        0x4F => (Mnemonic::Modify(Modify::SRE), Addressing::Absolute),
        0x50 => (Mnemonic::Branch(Branch::BVC), Addressing::Relative),
        0x51 => (Mnemonic::Read(Read::EOR), Addressing::IndYIdxed),
        0x52 => (Mnemonic::Unique(Unique::JAM), Addressing::Implied),
        0x53 => (Mnemonic::Modify(Modify::SRE), Addressing::IndYIdxed),
        0x54 => (Mnemonic::Read(Read::NOP), Addressing::ZeroPageX),
        0x55 => (Mnemonic::Read(Read::EOR), Addressing::ZeroPageX),
        0x56 => (Mnemonic::Modify(Modify::LSR), Addressing::ZeroPageX),
        0x57 => (Mnemonic::Modify(Modify::SRE), Addressing::ZeroPageX),
        0x58 => (Mnemonic::Short(Short::CLI), Addressing::Implied),
        0x59 => (Mnemonic::Read(Read::EOR), Addressing::AbsoluteY),
        0x5A => (Mnemonic::Read(Read::NOP), Addressing::Accumulator),
        0x5B => (Mnemonic::Modify(Modify::SRE), Addressing::AbsoluteY),
        0x5C => (Mnemonic::Read(Read::NOP), Addressing::AbsoluteX),
        0x5D => (Mnemonic::Read(Read::EOR), Addressing::AbsoluteX),
        0x5E => (Mnemonic::Modify(Modify::LSR), Addressing::AbsoluteX),
        0x5F => (Mnemonic::Modify(Modify::SRE), Addressing::AbsoluteX),
        0x60 => (Mnemonic::Unique(Unique::RTS), Addressing::Implied),
        0x61 => (Mnemonic::Read(Read::ADC), Addressing::XIdxedInd),
        0x62 => (Mnemonic::Unique(Unique::JAM), Addressing::Implied),
        0x63 => (Mnemonic::Modify(Modify::RRA), Addressing::XIdxedInd),
        0x64 => (Mnemonic::Read(Read::NOP), Addressing::ZeroPage),
        0x65 => (Mnemonic::Read(Read::ADC), Addressing::ZeroPage),
        0x66 => (Mnemonic::Modify(Modify::ROR), Addressing::ZeroPage),
        0x67 => (Mnemonic::Modify(Modify::RRA), Addressing::ZeroPage),
        0x68 => (Mnemonic::Unique(Unique::PLA), Addressing::Implied),
        0x69 => (Mnemonic::Read(Read::ADC), Addressing::Immediate),
        0x6A => (Mnemonic::Modify(Modify::ROR), Addressing::Accumulator),
        0x6B => (Mnemonic::Read(Read::ARR), Addressing::Immediate),
        0x6C => (Mnemonic::Unique(Unique::JMP), Addressing::Indirect),
        0x6D => (Mnemonic::Read(Read::ADC), Addressing::Absolute),
        0x6E => (Mnemonic::Modify(Modify::ROR), Addressing::Absolute),
        0x6F => (Mnemonic::Modify(Modify::RRA), Addressing::Absolute),
        0x70 => (Mnemonic::Branch(Branch::BVS), Addressing::Relative),
        0x71 => (Mnemonic::Read(Read::ADC), Addressing::IndYIdxed),
        0x72 => (Mnemonic::Unique(Unique::JAM), Addressing::Implied),
        0x73 => (Mnemonic::Modify(Modify::RRA), Addressing::IndYIdxed),
        0x74 => (Mnemonic::Read(Read::NOP), Addressing::ZeroPageX),
        0x75 => (Mnemonic::Read(Read::ADC), Addressing::ZeroPageX),
        0x76 => (Mnemonic::Modify(Modify::ROR), Addressing::ZeroPageX),
        0x77 => (Mnemonic::Modify(Modify::RRA), Addressing::ZeroPageX),
        0x78 => (Mnemonic::Short(Short::SEI), Addressing::Implied),
        0x79 => (Mnemonic::Read(Read::ADC), Addressing::AbsoluteY),
        0x7A => (Mnemonic::Read(Read::NOP), Addressing::Accumulator),
        0x7B => (Mnemonic::Modify(Modify::RRA), Addressing::AbsoluteY),
        0x7C => (Mnemonic::Read(Read::NOP), Addressing::AbsoluteX),
        0x7D => (Mnemonic::Read(Read::ADC), Addressing::AbsoluteX),
        0x7E => (Mnemonic::Modify(Modify::ROR), Addressing::AbsoluteX),
        0x7F => (Mnemonic::Modify(Modify::RRA), Addressing::AbsoluteX),
        0x80 => (Mnemonic::Read(Read::NOP), Addressing::Immediate),
        0x81 => (Mnemonic::Write(Write::STA), Addressing::XIdxedInd),
        0x82 => (Mnemonic::Read(Read::NOP), Addressing::Immediate),
        0x83 => (Mnemonic::Write(Write::SAX), Addressing::XIdxedInd),
        0x84 => (Mnemonic::Write(Write::STY), Addressing::ZeroPage),
        0x85 => (Mnemonic::Write(Write::STA), Addressing::ZeroPage),
        0x86 => (Mnemonic::Write(Write::STX), Addressing::ZeroPage),
        0x87 => (Mnemonic::Write(Write::SAX), Addressing::ZeroPage),
        0x88 => (Mnemonic::Short(Short::DEY), Addressing::Implied),
        0x89 => (Mnemonic::Read(Read::NOP), Addressing::Immediate),
        0x8A => (Mnemonic::Short(Short::TXA), Addressing::Implied),
        0x8B => (Mnemonic::Read(Read::ANE), Addressing::Immediate),
        0x8C => (Mnemonic::Write(Write::STY), Addressing::Absolute),
        0x8D => (Mnemonic::Write(Write::STA), Addressing::Absolute),
        0x8E => (Mnemonic::Write(Write::STX), Addressing::Absolute),
        0x8F => (Mnemonic::Write(Write::SAX), Addressing::Absolute),
        0x90 => (Mnemonic::Branch(Branch::BCC), Addressing::Relative),
        0x91 => (Mnemonic::Write(Write::STA), Addressing::IndYIdxed),
        0x92 => (Mnemonic::Unique(Unique::JAM), Addressing::Implied),
        0x93 => (Mnemonic::UnstableWrite(UnstableWrite::SHA), Addressing::IndYIdxed),
        0x94 => (Mnemonic::Write(Write::STY), Addressing::ZeroPageX),
        0x95 => (Mnemonic::Write(Write::STA), Addressing::ZeroPageX),
        0x96 => (Mnemonic::Write(Write::STX), Addressing::ZeroPageY),
        0x97 => (Mnemonic::Write(Write::SAX), Addressing::ZeroPageY),
        0x98 => (Mnemonic::Short(Short::TYA), Addressing::Implied),
        0x99 => (Mnemonic::Write(Write::STA), Addressing::AbsoluteY),
        0x9A => (Mnemonic::Short(Short::TXS), Addressing::Implied),
        0x9B => (Mnemonic::UnstableWrite(UnstableWrite::SHS), Addressing::AbsoluteY),
        0x9C => (Mnemonic::UnstableWrite(UnstableWrite::SHY), Addressing::AbsoluteX),
        0x9D => (Mnemonic::Write(Write::STA), Addressing::AbsoluteX),
        0x9E => (Mnemonic::UnstableWrite(UnstableWrite::SHX), Addressing::AbsoluteY),
        0x9F => (Mnemonic::UnstableWrite(UnstableWrite::SHA), Addressing::AbsoluteY),
        0xA0 => (Mnemonic::Read(Read::LDY), Addressing::Immediate),
        0xA1 => (Mnemonic::Read(Read::LDA), Addressing::XIdxedInd),
        0xA2 => (Mnemonic::Read(Read::LDX), Addressing::Immediate),
        0xA3 => (Mnemonic::Read(Read::LAX), Addressing::XIdxedInd),
        0xA4 => (Mnemonic::Read(Read::LDY), Addressing::ZeroPage),
        0xA5 => (Mnemonic::Read(Read::LDA), Addressing::ZeroPage),
        0xA6 => (Mnemonic::Read(Read::LDX), Addressing::ZeroPage),
        0xA7 => (Mnemonic::Read(Read::LAX), Addressing::ZeroPage),
        0xA8 => (Mnemonic::Short(Short::TAY), Addressing::Implied),
        0xA9 => (Mnemonic::Read(Read::LDA), Addressing::Immediate),
        0xAA => (Mnemonic::Short(Short::TAX), Addressing::Implied),
        0xAB => (Mnemonic::Read(Read::LXA), Addressing::Immediate),
        0xAC => (Mnemonic::Read(Read::LDY), Addressing::Absolute),
        0xAD => (Mnemonic::Read(Read::LDA), Addressing::Absolute),
        0xAE => (Mnemonic::Read(Read::LDX), Addressing::Absolute),
        0xAF => (Mnemonic::Read(Read::LAX), Addressing::Absolute),
        0xB0 => (Mnemonic::Branch(Branch::BCS), Addressing::Relative),
        0xB1 => (Mnemonic::Read(Read::LDA), Addressing::IndYIdxed),
        0xB2 => (Mnemonic::Unique(Unique::JAM), Addressing::Implied),
        0xB3 => (Mnemonic::Read(Read::LAX), Addressing::IndYIdxed),
        0xB4 => (Mnemonic::Read(Read::LDY), Addressing::ZeroPageX),
        0xB5 => (Mnemonic::Read(Read::LDA), Addressing::ZeroPageX),
        0xB6 => (Mnemonic::Read(Read::LDX), Addressing::ZeroPageY),
        0xB7 => (Mnemonic::Read(Read::LAX), Addressing::ZeroPageY),
        0xB8 => (Mnemonic::Short(Short::CLV), Addressing::Implied),
        0xB9 => (Mnemonic::Read(Read::LDA), Addressing::AbsoluteY),
        0xBA => (Mnemonic::Short(Short::TSX), Addressing::Implied),
        0xBB => (Mnemonic::Read(Read::LAS), Addressing::AbsoluteY),
        0xBC => (Mnemonic::Read(Read::LDY), Addressing::AbsoluteX),
        0xBD => (Mnemonic::Read(Read::LDA), Addressing::AbsoluteX),
        0xBE => (Mnemonic::Read(Read::LDX), Addressing::AbsoluteY),
        0xBF => (Mnemonic::Read(Read::LAX), Addressing::AbsoluteY),
        0xC0 => (Mnemonic::Read(Read::CPY), Addressing::Immediate),
        0xC1 => (Mnemonic::Read(Read::CMP), Addressing::XIdxedInd),
        0xC2 => (Mnemonic::Read(Read::NOP), Addressing::Immediate),
        0xC3 => (Mnemonic::Modify(Modify::DCP), Addressing::XIdxedInd),
        0xC4 => (Mnemonic::Read(Read::CPY), Addressing::ZeroPage),
        0xC5 => (Mnemonic::Read(Read::CMP), Addressing::ZeroPage),
        0xC6 => (Mnemonic::Modify(Modify::DEC), Addressing::ZeroPage),
        0xC7 => (Mnemonic::Modify(Modify::DCP), Addressing::ZeroPage),
        0xC8 => (Mnemonic::Short(Short::INY), Addressing::Implied),
        0xC9 => (Mnemonic::Read(Read::CMP), Addressing::Immediate),
        0xCA => (Mnemonic::Short(Short::DEX), Addressing::Implied),
        0xCB => (Mnemonic::Read(Read::AXS), Addressing::Immediate),
        0xCC => (Mnemonic::Read(Read::CPY), Addressing::Absolute),
        0xCD => (Mnemonic::Read(Read::CMP), Addressing::Absolute),
        0xCE => (Mnemonic::Modify(Modify::DEC), Addressing::Absolute),
        0xCF => (Mnemonic::Modify(Modify::DCP), Addressing::Absolute),
        0xD0 => (Mnemonic::Branch(Branch::BNE), Addressing::Relative),
        0xD1 => (Mnemonic::Read(Read::CMP), Addressing::IndYIdxed),
        0xD2 => (Mnemonic::Unique(Unique::JAM), Addressing::Implied),
        0xD3 => (Mnemonic::Modify(Modify::DCP), Addressing::IndYIdxed),
        0xD4 => (Mnemonic::Read(Read::NOP), Addressing::ZeroPageX),
        0xD5 => (Mnemonic::Read(Read::CMP), Addressing::ZeroPageX),
        0xD6 => (Mnemonic::Modify(Modify::DEC), Addressing::ZeroPageX),
        0xD7 => (Mnemonic::Modify(Modify::DCP), Addressing::ZeroPageX),
        0xD8 => (Mnemonic::Short(Short::CLD), Addressing::Implied),
        0xD9 => (Mnemonic::Read(Read::CMP), Addressing::AbsoluteY),
        0xDA => (Mnemonic::Read(Read::NOP), Addressing::Accumulator),
        0xDB => (Mnemonic::Modify(Modify::DCP), Addressing::AbsoluteY),
        0xDC => (Mnemonic::Read(Read::NOP), Addressing::AbsoluteX),
        0xDD => (Mnemonic::Read(Read::CMP), Addressing::AbsoluteX),
        0xDE => (Mnemonic::Modify(Modify::DEC), Addressing::AbsoluteX),
        0xDF => (Mnemonic::Modify(Modify::DCP), Addressing::AbsoluteX),
        0xE0 => (Mnemonic::Read(Read::CPX), Addressing::Immediate),
        0xE1 => (Mnemonic::Read(Read::SBC), Addressing::XIdxedInd),
        0xE2 => (Mnemonic::Read(Read::NOP), Addressing::Immediate),
        0xE3 => (Mnemonic::Modify(Modify::ISB), Addressing::XIdxedInd),
        0xE4 => (Mnemonic::Read(Read::CPX), Addressing::ZeroPage),
        0xE5 => (Mnemonic::Read(Read::SBC), Addressing::ZeroPage),
        0xE6 => (Mnemonic::Modify(Modify::INC), Addressing::ZeroPage),
        0xE7 => (Mnemonic::Modify(Modify::ISB), Addressing::ZeroPage),
        0xE8 => (Mnemonic::Short(Short::INX), Addressing::Implied),
        0xE9 => (Mnemonic::Read(Read::SBC), Addressing::Immediate),
        0xEA => (Mnemonic::Read(Read::NOP), Addressing::Accumulator),
        0xEB => (Mnemonic::Read(Read::SBC), Addressing::Immediate),
        0xEC => (Mnemonic::Read(Read::CPX), Addressing::Absolute),
        0xED => (Mnemonic::Read(Read::SBC), Addressing::Absolute),
        0xEE => (Mnemonic::Modify(Modify::INC), Addressing::Absolute),
        0xEF => (Mnemonic::Modify(Modify::ISB), Addressing::Absolute),
        0xF0 => (Mnemonic::Branch(Branch::BEQ), Addressing::Relative),
        0xF1 => (Mnemonic::Read(Read::SBC), Addressing::IndYIdxed),
        0xF2 => (Mnemonic::Unique(Unique::JAM), Addressing::Implied),
        0xF3 => (Mnemonic::Modify(Modify::ISB), Addressing::IndYIdxed),
        0xF4 => (Mnemonic::Read(Read::NOP), Addressing::ZeroPageX),
        0xF5 => (Mnemonic::Read(Read::SBC), Addressing::ZeroPageX),
        0xF6 => (Mnemonic::Modify(Modify::INC), Addressing::ZeroPageX),
        0xF7 => (Mnemonic::Modify(Modify::ISB), Addressing::ZeroPageX),
        0xF8 => (Mnemonic::Short(Short::SED), Addressing::Implied),
        0xF9 => (Mnemonic::Read(Read::SBC), Addressing::AbsoluteY),
        0xFA => (Mnemonic::Read(Read::NOP), Addressing::Accumulator),
        0xFB => (Mnemonic::Modify(Modify::ISB), Addressing::AbsoluteY),
        0xFC => (Mnemonic::Read(Read::NOP), Addressing::AbsoluteX),
        0xFD => (Mnemonic::Read(Read::SBC), Addressing::AbsoluteX),
        0xFE => (Mnemonic::Modify(Modify::INC), Addressing::AbsoluteX),
        0xFF => (Mnemonic::Modify(Modify::ISB), Addressing::AbsoluteX),
    }
}

/// The addressing mode the middle three bits (`op / 4 % 8`) of an opcode
/// select in the documented column layout: `(zp,X)`, zp, `#imm`, abs,
/// `(zp),Y`, `zp,X`, `abs,Y`, `abs,X`.
pub open spec fn column_mode(bbb: u8) -> Addressing {
    if bbb == 0 {
        Addressing::XIdxedInd
    } else if bbb == 1 {
        Addressing::ZeroPage
    } else if bbb == 2 {
        Addressing::Immediate
    } else if bbb == 3 {
        Addressing::Absolute
    } else if bbb == 4 {
        Addressing::IndYIdxed
    } else if bbb == 5 {
        Addressing::ZeroPageX
    } else if bbb == 6 {
        Addressing::AbsoluteY
    } else {
        Addressing::AbsoluteX
    }
}

/// The accumulator instructions the top three bits (`op / 32`) select in
/// the column of opcodes ending in binary `01`.
pub open spec fn alu_row(aaa: u8) -> Mnemonic {
    if aaa == 0 {
        Mnemonic::Read(Read::ORA)
    } else if aaa == 1 {
        Mnemonic::Read(Read::AND)
    } else if aaa == 2 {
        Mnemonic::Read(Read::EOR)
    } else if aaa == 3 {
        Mnemonic::Read(Read::ADC)
    } else if aaa == 4 {
        Mnemonic::Write(Write::STA)
    } else if aaa == 5 {
        Mnemonic::Read(Read::LDA)
    } else if aaa == 6 {
        Mnemonic::Read(Read::CMP)
    } else {
        Mnemonic::Read(Read::SBC)
    }
}

/// The read-modify-write instructions the top three bits select in the
/// column of opcodes ending in binary `10` (rows 4 and 5 hold the X
/// register's stores and loads).
pub open spec fn shift_row(aaa: u8) -> Modify {
    if aaa == 0 {
        Modify::ASL
    } else if aaa == 1 {
        Modify::ROL
    } else if aaa == 2 {
        Modify::LSR
    } else if aaa == 3 {
        Modify::ROR
    } else if aaa == 6 {
        Modify::DEC
    } else {
        Modify::INC
    }
}

/// The undocumented read-modify-write instructions of the column of
/// opcodes ending in binary `11`: each does the shift of its row, then the
/// accumulator operation of its row.
pub open spec fn combo_row(aaa: u8) -> Modify {
    if aaa == 0 {
        Modify::SLO
    } else if aaa == 1 {
        Modify::RLA
    } else if aaa == 2 {
        Modify::SRE
    } else if aaa == 3 {
        Modify::RRA
    } else if aaa == 6 {
        Modify::DCP
    } else {
        Modify::ISB
    }
}

/// The branches, by the top three bits: the flag tested (N, V, C, Z) is
/// `op / 64`, the value branched on is bit 5.
pub open spec fn branch_row(aaa: u8) -> Branch {
    if aaa == 0 {
        Branch::BPL
    } else if aaa == 1 {
        Branch::BMI
    } else if aaa == 2 {
        Branch::BVC
    } else if aaa == 3 {
        Branch::BVS
    } else if aaa == 4 {
        Branch::BCC
    } else if aaa == 5 {
        Branch::BCS
    } else if aaa == 6 {
        Branch::BNE
    } else {
        Branch::BEQ
    }
}

/// The accumulator instructions follow the documented layout `aaabbb01`:
/// the operation from `aaa`, the addressing mode from `bbb` (STA has no
/// immediate form; `0x89` reads and discards an immediate byte).
pub proof fn lemma_decode_alu_column(op: u8)
    requires
        op % 4 == 1,
        op != 0x89,
    ensures
        opcode_entry(op) == (alu_row(op / 32), column_mode((op / 4) % 8)),
{
    reveal(opcode_entry);
}

/// The shifts, rotates, increments and decrements follow the layout
/// `aaabbb10`: zero page, accumulator, absolute, `zp,X` and `abs,X` for
/// `bbb` 1, 2, 3, 5, 7.
pub proof fn lemma_decode_shift_column(op: u8)
    requires
        op % 4 == 2,
        op / 32 != 4 && op / 32 != 5,
        (op / 4) % 8 == 1 || (op / 4) % 8 == 3 || (op / 4) % 8 == 5 || (op / 4) % 8 == 7
            || ((op / 4) % 8 == 2 && op / 32 < 4),
    ensures
        opcode_entry(op) == (Mnemonic::Modify(shift_row(op / 32)), if (op / 4) % 8 == 2 {
            Addressing::Accumulator
        } else {
            column_mode((op / 4) % 8)
        }),
{
    reveal(opcode_entry);
}

/// The undocumented combined instructions follow the layout `aaabbb11`
/// with the addressing modes of the accumulator column.
pub proof fn lemma_decode_combo_column(op: u8)
    requires
        op % 4 == 3,
        op / 32 != 4 && op / 32 != 5,
        (op / 4) % 8 != 2,
    ensures
        opcode_entry(op) == (Mnemonic::Modify(combo_row(op / 32)), column_mode((op / 4) % 8)),
{
    reveal(opcode_entry);
}

/// The branches are the opcodes `xxx10000`, relative.
pub proof fn lemma_decode_branches(op: u8)
    requires
        op % 32 == 0x10,
    ensures
        opcode_entry(op) == (Mnemonic::Branch(branch_row(op / 32)), Addressing::Relative),
{
    reveal(opcode_entry);
}

/// The one-byte flag and transfer instructions `xxx11000`, by the top three
/// bits: CLC, SEC, CLI, SEI, TYA, CLV, CLD, SED.
pub open spec fn flag_row(aaa: u8) -> Short {
    if aaa == 0 {
        Short::CLC
    } else if aaa == 1 {
        Short::SEC
    } else if aaa == 2 {
        Short::CLI
    } else if aaa == 3 {
        Short::SEI
    } else if aaa == 4 {
        Short::TYA
    } else if aaa == 5 {
        Short::CLV
    } else if aaa == 6 {
        Short::CLD
    } else {
        Short::SED
    }
}

/// The opcodes `xxx11000` are the implied flag instructions of their row.
pub proof fn lemma_decode_flag_column(op: u8)
    requires
        op % 32 == 0x18,
    ensures
        opcode_entry(op) == (Mnemonic::Short(flag_row(op / 32)), Addressing::Implied),
{
    reveal(opcode_entry);
}

/// The Y and X register instructions of the column ending in binary `00`,
/// rows 4 to 7: STY, LDY, CPY, CPX.
pub open spec fn index_row(aaa: u8) -> Mnemonic {
    if aaa == 4 {
        Mnemonic::Write(Write::STY)
    } else if aaa == 5 {
        Mnemonic::Read(Read::LDY)
    } else if aaa == 6 {
        Mnemonic::Read(Read::CPY)
    } else {
        Mnemonic::Read(Read::CPX)
    }
}

/// The index register instructions follow the layout `aaabbb00`: in rows
/// 5 to 7 (LDY, CPY, CPX) `bbb` 0, 1, 3 give `#imm`, zp and abs; STY has
/// zp, abs and `zp,X`; LDY also has `zp,X` and `abs,X`.
pub proof fn lemma_decode_index_column(op: u8)
    requires
        op % 4 == 0,
        op / 32 >= 4,
        (op / 4) % 8 == 1 || (op / 4) % 8 == 3 || ((op / 4) % 8 == 0 && op / 32 >= 5)
            || ((op / 4) % 8 == 5 && op / 32 <= 5) || ((op / 4) % 8 == 7 && op / 32 == 5),
    ensures
        opcode_entry(op) == (index_row(op / 32), if (op / 4) % 8 == 0 {
            Addressing::Immediate
        } else {
            column_mode((op / 4) % 8)
        }),
{
    reveal(opcode_entry);
}

/// The X register's loads and stores, rows 4 and 5 of the column ending in
/// binary `10`: the indexed forms use Y in place of X.
pub proof fn lemma_decode_x_register_column(op: u8)
    requires
        op % 4 == 2,
        op / 32 == 4 || op / 32 == 5,
        (op / 4) % 8 == 1 || (op / 4) % 8 == 3 || (op / 4) % 8 == 5
            || (op / 32 == 5 && ((op / 4) % 8 == 0 || (op / 4) % 8 == 7)),
    ensures
        opcode_entry(op) == (if op / 32 == 4 {
            Mnemonic::Write(Write::STX)
        } else {
            Mnemonic::Read(Read::LDX)
        }, if (op / 4) % 8 == 0 {
            Addressing::Immediate
        } else if (op / 4) % 8 == 5 {
            Addressing::ZeroPageY
        } else if (op / 4) % 8 == 7 {
            Addressing::AbsoluteY
        } else {
            column_mode((op / 4) % 8)
        }),
{
    reveal(opcode_entry);
}

/// The implied instructions `xxx01000`, by the top three bits: the stack
/// pushes and pulls PHP, PLP, PHA, PLA, then DEY, TAY, INY, INX.
pub open spec fn implied_row(aaa: u8) -> Mnemonic {
    if aaa == 0 {
        Mnemonic::Unique(Unique::PHP)
    } else if aaa == 1 {
        Mnemonic::Unique(Unique::PLP)
    } else if aaa == 2 {
        Mnemonic::Unique(Unique::PHA)
    } else if aaa == 3 {
        Mnemonic::Unique(Unique::PLA)
    } else if aaa == 4 {
        Mnemonic::Short(Short::DEY)
    } else if aaa == 5 {
        Mnemonic::Short(Short::TAY)
    } else if aaa == 6 {
        Mnemonic::Short(Short::INY)
    } else {
        Mnemonic::Short(Short::INX)
    }
}

/// The opcodes `xxx01000` are the implied instructions of their row, and
/// the X register transfers and decrement sit at `0x8A` (TXA), `0x9A`
/// (TXS), `0xAA` (TAX), `0xBA` (TSX) and `0xCA` (DEX).
pub proof fn lemma_decode_implied_column(op: u8)
    requires
        op % 32 == 0x08,
    ensures
        opcode_entry(op) == (implied_row(op / 32), Addressing::Implied),
        opcode_entry(0x8A) == (Mnemonic::Short(Short::TXA), Addressing::Implied),
        opcode_entry(0x9A) == (Mnemonic::Short(Short::TXS), Addressing::Implied),
        opcode_entry(0xAA) == (Mnemonic::Short(Short::TAX), Addressing::Implied),
        opcode_entry(0xBA) == (Mnemonic::Short(Short::TSX), Addressing::Implied),
        opcode_entry(0xCA) == (Mnemonic::Short(Short::DEX), Addressing::Implied),
{
    reveal(opcode_entry);
}

/// The control transfers of the column ending in binary `00`: BRK, RTI
/// and RTS (implied), JSR and JMP (absolute), and JMP through a pointer.
pub proof fn lemma_decode_control_transfers()
    ensures
        opcode_entry(0x00) == (Mnemonic::Unique(Unique::BRK), Addressing::Implied),
        opcode_entry(0x20) == (Mnemonic::Unique(Unique::JSR), Addressing::Absolute),
        opcode_entry(0x40) == (Mnemonic::Unique(Unique::RTI), Addressing::Implied),
        opcode_entry(0x60) == (Mnemonic::Unique(Unique::RTS), Addressing::Implied),
        opcode_entry(0x4C) == (Mnemonic::Unique(Unique::JMP), Addressing::Absolute),
        opcode_entry(0x6C) == (Mnemonic::Unique(Unique::JMP), Addressing::Indirect),
{
    reveal(opcode_entry);
}

} // verus!
