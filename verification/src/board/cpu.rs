use vstd::prelude::*;

verus! {

/// A CPU-side bus: whatever answers the CPU's reads and takes its writes.
pub trait Bus {
    fn read(&mut self, addr: u16) -> u8;
    fn write(&mut self, addr: u16, data: u8);
}

/// Whether an indexed access may cross a page.
#[derive(Debug, Clone, Copy, PartialEq, Eq)]
pub enum Bounding {
    Safe,
    Unsafe,
}

/// The index register of an indexed access.
#[derive(Debug, Clone, Copy, PartialEq, Eq)]
pub enum Indexer {
    X,
    Y,
}

/// How a memory operand is indexed.
#[derive(Debug, Clone, Copy, PartialEq, Eq)]
pub enum IndexType {
    Unindexed,
    Indexed(Bounding, Indexer),
}

/// The kinds of bus cycles instructions are made of.
#[derive(Debug, Clone, Copy, PartialEq, Eq)]
pub enum Cycle {
    ReadAtPc,
    ReadAtPcInc,
    ReadAtSp,
    ReadAtSpInc,
    ReadAtSpDec,
    PushPchDec,
    PushPclDec,
    PushPSetBDec,
    PushPDec,
    PushADec,
    PullPInc,
    PullP,
    PullA,
    PullPclInc,
    PullPch,
    FetchAdlIncPc,
    FetchAdhApplyPc,
    FetchResVcl,
    FetchResVch,
    FetchBrkVcl,
    FetchBrkVch,
}

/// The 6502 instruction mnemonics, official and unofficial.
#[allow(non_camel_case_types)]
#[derive(Debug, Clone, Copy, PartialEq, Eq)]
pub enum Mnemonic {
    JAM, BRK, RTI, RTS, JSR, JMP, PHA, PHP, PLA, PLP,
    BCC, BCS, BNE, BEQ, BVC, BVS, BPL, BMI,
    INX, INY, DEX, DEY, CLC, CLD, CLI, CLV, SEC, SED, SEI, TAX, TAY, TSX, TXA, TYA, TXS,
    NOP, ADC, SBC, AND, ORA, EOR, BIT, CMP, CPX, CPY, LDA, LDX, LDY, LAX, LXA, LAS, ALR, ARR,
    ANC, AXS, ANE,
    ASL, LSR, ROL, ROR, INC, DEC, DCP, ISB, RRA, RLA, SLO, SRE,
    STA, STY, SAX, STX, SHA, SHX, SHY, SHS,
}

} // verus!
