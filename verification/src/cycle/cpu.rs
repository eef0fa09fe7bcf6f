//! A cycle-stepped CPU core: each `tick` issues one bus request and each
//! `tock` delivers what a read returned. It executes the implied and the
//! branch instructions.

use vstd::prelude::*;
use crate::bits::{hi_of, lo_of, word_of};
use super::IoRequest;
use super::address::{Address, CrossingState, ZeropageAddress, crossing_of, wrap_byte};
use super::status::{StatusRegister, FLAG_C, FLAG_Z, FLAG_I, FLAG_D, FLAG_V, FLAG_N};

verus! {

/// Implied (one-byte) instructions; JAM halts the CPU.
#[derive(Clone, Copy, Debug, PartialEq, Eq)]
pub enum Implicit {
    JAM, INX, INY, DEX, DEY, CLC, CLD, CLI, CLV, SEC, SED, SEI, TAX, TAY, TSX, TXA, TYA, TXS,
}

/// Conditional branches.
#[derive(Clone, Copy, Debug, PartialEq, Eq)]
pub enum Branch {
    BCC, BCS, BNE, BEQ, BVC, BVS, BPL, BMI,
}

/// Addressing modes.
#[derive(Clone, Copy, Debug, PartialEq, Eq)]
pub enum Addressing {
    Implied,
    Accumulator,
    Immediate,
    ZeroPage,
    ZeroPageX,
    ZeroPageY,
    Absolute,
    AbsoluteX,
    AbsoluteY,
    Relative,
    XIdxedInd,
    IndYIdxed,
}

/// The instructions this core executes.
#[derive(Clone, Copy, Debug, PartialEq, Eq)]
pub enum Operator {
    Implicit(Implicit),
    Branch(Branch),
}

/// Where the byte a read returns goes.
#[derive(Clone, Copy, Debug, PartialEq, Eq)]
pub enum Destination {
    Discard,
    OpcodeLatch,
    DataLatch,
    AddressLow,
    AddressHigh,
    ZeropagePointer,
    PCLow,
    PCHigh,
}

/// The step of the instruction cycle: fetching the opcode, resolving the
/// operand (cycle n), executing (cycle n).
#[derive(Clone, Copy, Debug, PartialEq, Eq)]
pub enum Phase {
    FetchOpcode,
    ResolveAddressing(u8),
    ExcuteInstruction(u8),
}

/// Decodes an opcode: the implied and branch instructions; every other
/// opcode halts the core as JAM does.
pub open spec fn decoded(v: u8) -> (Operator, Addressing) {
    let i = |o: Implicit| (Operator::Implicit(o), Addressing::Implied);
    let b = |o: Branch| (Operator::Branch(o), Addressing::Relative);
    if v == 0xE8 { i(Implicit::INX) }
    else if v == 0xC8 { i(Implicit::INY) }
    else if v == 0xCA { i(Implicit::DEX) }
    else if v == 0x88 { i(Implicit::DEY) }
    else if v == 0x18 { i(Implicit::CLC) }
    else if v == 0xD8 { i(Implicit::CLD) }
    else if v == 0x58 { i(Implicit::CLI) }
    else if v == 0xB8 { i(Implicit::CLV) }
    else if v == 0x38 { i(Implicit::SEC) }
    else if v == 0xF8 { i(Implicit::SED) }
    else if v == 0x78 { i(Implicit::SEI) }
    else if v == 0xAA { i(Implicit::TAX) }
    else if v == 0xA8 { i(Implicit::TAY) }
    else if v == 0xBA { i(Implicit::TSX) }
    else if v == 0x8A { i(Implicit::TXA) }
    else if v == 0x98 { i(Implicit::TYA) }
    else if v == 0x9A { i(Implicit::TXS) }
    else if v == 0x90 { b(Branch::BCC) }
    else if v == 0xB0 { b(Branch::BCS) }
    else if v == 0xD0 { b(Branch::BNE) }
    else if v == 0xF0 { b(Branch::BEQ) }
    else if v == 0x50 { b(Branch::BVC) }
    else if v == 0x70 { b(Branch::BVS) }
    else if v == 0x10 { b(Branch::BPL) }
    else if v == 0x30 { b(Branch::BMI) }
    else { i(Implicit::JAM) }
}

/// Decodes an opcode.
pub fn decode(v: u8) -> (r: (Operator, Addressing))
    ensures
        r == decoded(v),
{
    let o: Option<Implicit> = match v {
        0xE8 => Some(Implicit::INX),
        0xC8 => Some(Implicit::INY),
        0xCA => Some(Implicit::DEX),
        0x88 => Some(Implicit::DEY),
        0x18 => Some(Implicit::CLC),
        0xD8 => Some(Implicit::CLD),
        0x58 => Some(Implicit::CLI),
        0xB8 => Some(Implicit::CLV),
        0x38 => Some(Implicit::SEC),
        0xF8 => Some(Implicit::SED),
        0x78 => Some(Implicit::SEI),
        0xAA => Some(Implicit::TAX),
        0xA8 => Some(Implicit::TAY),
        0xBA => Some(Implicit::TSX),
        0x8A => Some(Implicit::TXA),
        0x98 => Some(Implicit::TYA),
        0x9A => Some(Implicit::TXS),
        _ => None,
    };
    if let Some(op) = o {
        return (Operator::Implicit(op), Addressing::Implied);
    }
    let b: Option<Branch> = match v {
        0x90 => Some(Branch::BCC),
        0xB0 => Some(Branch::BCS),
        0xD0 => Some(Branch::BNE),
        0xF0 => Some(Branch::BEQ),
        0x50 => Some(Branch::BVC),
        0x70 => Some(Branch::BVS),
        0x10 => Some(Branch::BPL),
        0x30 => Some(Branch::BMI),
        _ => None,
    };
    match b {
        Some(op) => (Operator::Branch(op), Addressing::Relative),
        None => (Operator::Implicit(Implicit::JAM), Addressing::Implied),
    }
}

/// The cycles an addressing mode takes to resolve.
pub open spec fn resolve_cycles(a: Addressing) -> int {
    match a {
        Addressing::ZeroPageX | Addressing::ZeroPageY | Addressing::Absolute | Addressing::AbsoluteX
        | Addressing::AbsoluteY => 2,
        Addressing::XIdxedInd => 4,
        Addressing::IndYIdxed => 3,
        _ => 1,
    }
}

/// The most cycles an instruction takes to execute.
pub open spec fn exec_cycles(o: Operator) -> int {
    match o {
        Operator::Implicit(_) => 1,
        Operator::Branch(_) => 2,
    }
}

/// The state of the core, as plain values.
pub struct CycleView {
    pub is_jammed: bool,
    pub phase: Phase,
    pub operator: Operator,
    pub addressing: Addressing,
    pub pc: Address,
    pub sp: u8,
    pub a: u8,
    pub x: u8,
    pub y: u8,
    pub p: u8,
    pub dst: Destination,
    pub ad: Address,
    pub zpg_ptr: u8,
    pub dl: u8,
    pub is_branched: bool,
}

/// The cycle-stepped core.
pub struct Cpu {
    is_jammed: bool,
    phase: Phase,
    operator: Operator,
    addressing: Addressing,

    pc: Address,
    sp: u8,
    a: u8,
    x: u8,
    y: u8,
    p: StatusRegister,

    dst: Destination,
    ad: Address,
    zpg_ptr: u8,
    dl: u8,
    is_branched: bool,
}

impl View for Cpu {
    type V = CycleView;

    closed spec fn view(&self) -> CycleView {
        CycleView {
            is_jammed: self.is_jammed,
            phase: self.phase,
            operator: self.operator,
            addressing: self.addressing,
            pc: self.pc,
            sp: self.sp,
            a: self.a,
            x: self.x,
            y: self.y,
            p: self.p.value(),
            dst: self.dst,
            ad: self.ad,
            zpg_ptr: self.zpg_ptr,
            dl: self.dl,
            is_branched: self.is_branched,
        }
    }
}

/// `p` with N and Z describing `v`.
pub open spec fn nz(p: u8, v: u8) -> u8 {
    let p1 = if v & 0x80 != 0 { p | FLAG_N } else { p & !FLAG_N };
    if v == 0 { p1 | FLAG_Z } else { p1 & !FLAG_Z }
}

impl CycleView {
    /// The phase is one the instruction in progress has.
    pub open spec fn wf(self) -> bool {
        match self.phase {
            Phase::FetchOpcode => true,
            Phase::ResolveAddressing(c) => 1 <= c <= resolve_cycles(self.addressing),
            Phase::ExcuteInstruction(c) => 1 <= c <= exec_cycles(self.operator),
        }
    }

    /// What an implied instruction does to the registers.
    pub open spec fn implicit_applied(self, o: Implicit) -> CycleView {
        match o {
            Implicit::JAM => CycleView { is_jammed: true, ..self },
            Implicit::INX => CycleView { x: ((self.x + 1) % 256) as u8, p: nz(self.p, ((self.x + 1) % 256) as u8), ..self },
            Implicit::INY => CycleView { y: ((self.y + 1) % 256) as u8, p: nz(self.p, ((self.y + 1) % 256) as u8), ..self },
            Implicit::DEX => CycleView { x: ((self.x - 1) % 256) as u8, p: nz(self.p, self.y), ..self },
            Implicit::DEY => CycleView { y: ((self.y - 1) % 256) as u8, p: nz(self.p, ((self.y - 1) % 256) as u8), ..self },
            Implicit::CLC => CycleView { p: self.p & !FLAG_C, ..self },
            Implicit::CLD => CycleView { p: self.p & !FLAG_D, ..self },
            Implicit::CLI => CycleView { p: self.p & !FLAG_I, ..self },
            Implicit::CLV => CycleView { p: self.p & !FLAG_V, ..self },
            Implicit::SEC => CycleView { p: self.p | FLAG_C, ..self },
            Implicit::SED => CycleView { p: self.p | FLAG_D, ..self },
            Implicit::SEI => CycleView { p: self.p | FLAG_I, ..self },
            Implicit::TAX => CycleView { x: self.a, p: nz(self.p, self.a), ..self },
            Implicit::TAY => CycleView { y: self.a, p: nz(self.p, self.a), ..self },
            Implicit::TSX => CycleView { sp: self.x, p: nz(self.p, self.x), ..self },
            Implicit::TXA => CycleView { a: self.x, p: nz(self.p, self.x), ..self },
            Implicit::TYA => CycleView { a: self.y, p: nz(self.p, self.y), ..self },
            Implicit::TXS => CycleView { sp: self.x, ..self },
        }
    }

    /// Whether a branch is taken.
    pub open spec fn branch_taken(self, o: Branch) -> bool {
        match o {
            Branch::BCC => self.p & FLAG_C != FLAG_C,
            Branch::BCS => self.p & FLAG_C == FLAG_C,
            Branch::BNE => self.p & FLAG_Z != FLAG_Z,
            Branch::BEQ => self.p & FLAG_Z == FLAG_Z,
            Branch::BVC => self.p & FLAG_V != FLAG_V,
            Branch::BVS => self.p & FLAG_V == FLAG_V,
            Branch::BPL => self.p & FLAG_N != FLAG_N,
            Branch::BMI => self.p & FLAG_N == FLAG_N,
        }
    }

    /// One cycle of operand resolution: the request, the state, and whether
    /// the operand is resolved.
    pub open spec fn resolved(self, c: u8) -> (IoRequest, CycleView, bool) {
        let pc_read = IoRequest::Read(self.pc.value());
        match self.addressing {
            Addressing::Immediate => (pc_read, CycleView { dst: Destination::DataLatch, pc: self.pc.incremented(), ..self }, true),
            Addressing::Relative => (pc_read, CycleView { dst: Destination::DataLatch, pc: self.pc.incremented(), ..self }, true),
            Addressing::ZeroPage => (
                IoRequest::Read(self.pc.zeropage().value()),
                CycleView { dst: Destination::AddressLow, pc: self.pc.incremented(), ..self },
                true,
            ),
            Addressing::ZeroPageX | Addressing::ZeroPageY => {
                let idx = if self.addressing is ZeroPageX { self.x } else { self.y };
                if c == 1 {
                    (pc_read, CycleView { dst: Destination::AddressLow, pc: self.pc.incremented(), ..self }, false)
                } else {
                    (IoRequest::Read(self.ad.zeropage().value()), CycleView { dst: Destination::Discard, ad: self.ad.indexed(idx as int), ..self }, true)
                }
            },
            Addressing::Absolute => if c == 1 {
                (pc_read, CycleView { dst: Destination::AddressLow, pc: self.pc.incremented(), ..self }, false)
            } else {
                (pc_read, CycleView { dst: Destination::AddressHigh, pc: self.pc.incremented(), ..self }, true)
            },
            Addressing::AbsoluteX | Addressing::AbsoluteY => {
                let idx = if self.addressing is AbsoluteX { self.x } else { self.y };
                if c == 1 {
                    (pc_read, CycleView { dst: Destination::AddressLow, pc: self.pc.incremented(), ..self }, false)
                } else {
                    (pc_read, CycleView { dst: Destination::AddressHigh, ad: self.ad.indexed(idx as int), pc: self.pc.incremented(), ..self }, true)
                }
            },
            Addressing::XIdxedInd => if c == 1 {
                (pc_read, CycleView { dst: Destination::ZeropagePointer, pc: self.pc.incremented(), ..self }, false)
            } else if c == 2 {
                (IoRequest::Read(self.zpg_ptr as u16), CycleView { dst: Destination::Discard, zpg_ptr: ((self.zpg_ptr + self.x) % 256) as u8, ..self }, false)
            } else if c == 3 {
                (IoRequest::Read(self.zpg_ptr as u16), CycleView { dst: Destination::AddressLow, ..self }, false)
            } else {
                (IoRequest::Read(((self.zpg_ptr + 1) % 256) as u16), CycleView { dst: Destination::AddressHigh, ..self }, true)
            },
            Addressing::IndYIdxed => if c == 1 {
                (pc_read, CycleView { dst: Destination::ZeropagePointer, pc: self.pc.incremented(), ..self }, false)
            } else if c == 2 {
                (IoRequest::Read(self.zpg_ptr as u16), CycleView { dst: Destination::AddressLow, ..self }, false)
            } else {
                (IoRequest::Read(((self.zpg_ptr + 1) % 256) as u16), CycleView { dst: Destination::AddressHigh, ad: self.ad.indexed(self.y as int), ..self }, true)
            },
            _ => (pc_read, CycleView { dst: Destination::Discard, ..self }, true),
        }
    }

    /// The opcode fetch: the request at PC and the state after it.
    pub open spec fn fetched(self) -> (IoRequest, CycleView) {
        (IoRequest::Read(self.pc.value()), CycleView {
            phase: Phase::ResolveAddressing(1),
            dst: Destination::OpcodeLatch,
            pc: self.pc.incremented(),
            ..self
        })
    }

    /// One cycle of execution: the request, the state, and whether the
    /// instruction is done.
    pub open spec fn executed(self, c: u8) -> (IoRequest, CycleView, bool) {
        match self.operator {
            Operator::Implicit(o) => {
                let s = self.implicit_applied(o);
                (IoRequest::Read(s.pc.value()), CycleView { dst: Destination::Discard, ..s }, true)
            },
            Operator::Branch(o) => if c == 1 {
                let s = CycleView { is_branched: self.branch_taken(o), ..self };
                if s.is_branched {
                    let off = if self.dl >= 128 { self.dl - 256 } else { self.dl as int };
                    (IoRequest::Read(s.pc.value()), CycleView { dst: Destination::Discard, pc: s.pc.indexed(off), ..s }, false)
                } else {
                    (s.fetched().0, s.fetched().1, true)
                }
            } else {
                if !(self.pc.crossing() is CurrentPage) {
                    (IoRequest::Read(self.pc.value()), CycleView { dst: Destination::Discard, pc: self.pc.page_fixed(), ..self }, true)
                } else {
                    (self.fetched().0, self.fetched().1, true)
                }
            },
        }
    }

    /// One cycle: the request and the state after it.
    pub open spec fn ticked(self) -> (IoRequest, CycleView) {
        match self.phase {
            Phase::FetchOpcode => self.fetched(),
            Phase::ResolveAddressing(c) => {
                let (r, s, done) = self.resolved(c);
                (r, CycleView { phase: if done { Phase::ExcuteInstruction(1) } else { Phase::ResolveAddressing((c + 1) as u8) }, ..s })
            },
            Phase::ExcuteInstruction(c) => {
                let (r, s, done) = self.executed(c);
                (r, CycleView { phase: if done { Phase::FetchOpcode } else { Phase::ExcuteInstruction((c + 1) as u8) }, ..s })
            },
        }
    }

    /// The state after `tock` delivered `v`.
    pub open spec fn tocked(self, v: u8) -> CycleView {
        match self.dst {
            Destination::Discard => self,
            Destination::OpcodeLatch => CycleView { operator: decoded(v).0, addressing: decoded(v).1, ..self },
            Destination::DataLatch => CycleView { dl: v, ..self },
            Destination::AddressLow => CycleView { ad: self.ad.with_lo(v), ..self },
            Destination::AddressHigh => CycleView { ad: self.ad.with_hi(v), ..self },
            Destination::ZeropagePointer => CycleView { zpg_ptr: v, ..self },
            Destination::PCLow => CycleView { pc: self.pc.with_lo(v), ..self },
            Destination::PCHigh => CycleView { pc: self.pc.with_hi(v), ..self },
        }
    }
}

impl Cpu {
    /// A core about to fetch the opcode at `pc`: A, X, Y, SP and the
    /// latches zero, P at its power-up value `0x24`.
    pub fn new(pc: u16) -> (r: Self)
        ensures
            r@.wf(),
            r@.phase == Phase::FetchOpcode,
            r@.pc.value() == pc,
            r@.pc.crossing() is CurrentPage,
            !r@.is_jammed,
            r@.a == 0 && r@.x == 0 && r@.y == 0 && r@.sp == 0 && r@.p == 0x24,
    {
        Self {
            is_jammed: false,
            phase: Phase::FetchOpcode,
            operator: Operator::Implicit(Implicit::JAM),
            addressing: Addressing::Implied,
            pc: Address::new(pc),
            sp: 0,
            a: 0,
            x: 0,
            y: 0,
            p: StatusRegister::new(),
            dst: Destination::Discard,
            ad: Address::new(0),
            zpg_ptr: 0,
            dl: 0,
            is_branched: false,
        }
    }

    /// Delivers the byte a read returned to where the request said.
    pub fn tock(&mut self, v: u8)
        ensures
            final(self)@ == old(self)@.tocked(v),
    {
        match self.dst {
            Destination::Discard => (),
            Destination::OpcodeLatch => {
                let (operator, addressing) = decode(v);
                self.operator = operator;
                self.addressing = addressing;
            },
            Destination::DataLatch => self.dl = v,
            Destination::AddressLow => self.ad.set_lo(v),
            Destination::AddressHigh => self.ad.set_hi(v),
            Destination::ZeropagePointer => self.zpg_ptr = v,
            Destination::PCLow => self.pc.set_lo(v),
            Destination::PCHigh => self.pc.set_hi(v),
        }
    }

    /// Runs one cycle: the bus request it makes.
    pub fn tick(&mut self) -> (r: IoRequest)
        requires
            old(self)@.wf(),
        ensures
            (r, final(self)@) == old(self)@.ticked(),
            final(self)@.wf(),
    {
        match self.phase {
            Phase::FetchOpcode => self.fetch_opcode(),

            Phase::ResolveAddressing(c) => {
                let (res, done) = self.resolve_addressing(c);
                if done {
                    self.phase = Phase::ExcuteInstruction(1);
                } else {
                    self.phase = Phase::ResolveAddressing(c + 1);
                }
                res
            },

            Phase::ExcuteInstruction(c) => {
                let (res, done) = self.exec_instruction(c);
                if done {
                    self.phase = Phase::FetchOpcode;
                } else {
                    self.phase = Phase::ExcuteInstruction(c + 1);
                }
                res
            },
        }
    }

    fn fetch_opcode(&mut self) -> (r: IoRequest)
        ensures
            (r, final(self)@) == old(self)@.fetched(),
    {
        self.phase = Phase::ResolveAddressing(1);
        let res = self.issue_read(self.pc, Destination::OpcodeLatch);
        self.pc.increment();
        res
    }

    fn issue_read(&mut self, addr: Address, dst: Destination) -> (r: IoRequest)
        ensures
            r == IoRequest::Read(addr.value()),
            final(self)@ == (CycleView { dst, ..old(self)@ }),
    {
        self.dst = dst;
        IoRequest::Read(addr.as_u16())
    }

    fn update_nz(&mut self, v: u8)
        ensures
            final(self)@ == (CycleView { p: nz(old(self)@.p, v), ..old(self)@ }),
    {
        self.p.set(FLAG_N, v & 0x80 != 0);
        self.p.set(FLAG_Z, v == 0);
    }
}

impl Cpu {
    fn resolve_addressing(&mut self, cycle: u8) -> (r: (IoRequest, bool))
        requires
            1 <= cycle <= resolve_cycles(old(self)@.addressing),
        ensures
            (r.0, final(self)@, r.1) == old(self)@.resolved(cycle),
    {
        match self.addressing {
            Addressing::Implied | Addressing::Accumulator => self.resolve_implicit(),
            Addressing::Immediate => self.resolve_immediate(),
            Addressing::ZeroPage => self.resolve_zeropage(),
            Addressing::ZeroPageX => self.resolve_zeropage_indexed(cycle, self.x),
            Addressing::ZeroPageY => self.resolve_zeropage_indexed(cycle, self.y),
            Addressing::Absolute => self.resolve_absolute(cycle),
            Addressing::AbsoluteX => self.resolve_absolute_indexed(cycle, self.x),
            Addressing::AbsoluteY => self.resolve_absolute_indexed(cycle, self.y),
            Addressing::Relative => self.resolve_relative(cycle),
            Addressing::XIdxedInd => self.resolve_x_indexed_indirect(cycle),
            Addressing::IndYIdxed => self.resolve_indirect_y_indexed(cycle),
        }
    }

    fn resolve_implicit(&mut self) -> (r: (IoRequest, bool))
        ensures
            r == (IoRequest::Read(old(self)@.pc.value()), true),
            final(self)@ == (CycleView { dst: Destination::Discard, ..old(self)@ }),
    {
        (self.issue_read(self.pc, Destination::Discard), true)
    }

    fn resolve_immediate(&mut self) -> (r: (IoRequest, bool))
        ensures
            r == (IoRequest::Read(old(self)@.pc.value()), true),
            final(self)@ == (CycleView { dst: Destination::DataLatch, pc: old(self)@.pc.incremented(), ..old(self)@ }),
    {
        let res = self.issue_read(self.pc, Destination::DataLatch);
        self.pc.increment();
        (res, true)
    }

    fn resolve_zeropage(&mut self) -> (r: (IoRequest, bool))
        ensures
            r == (IoRequest::Read(old(self)@.pc.zeropage().value()), true),
            final(self)@ == (CycleView { dst: Destination::AddressLow, pc: old(self)@.pc.incremented(), ..old(self)@ }),
    {
        let res = self.issue_read(self.pc.as_zeropage(), Destination::AddressLow);
        self.pc.increment();
        (res, true)
    }

    fn resolve_zeropage_indexed(&mut self, cycle: u8, idx: u8) -> (r: (IoRequest, bool))
        requires
            cycle == 1 || cycle == 2,
        ensures
            cycle == 1 ==> r == (IoRequest::Read(old(self)@.pc.value()), false)
                && final(self)@ == (CycleView { dst: Destination::AddressLow, pc: old(self)@.pc.incremented(), ..old(self)@ }),
            cycle == 2 ==> r == (IoRequest::Read(old(self)@.ad.zeropage().value()), true)
                && final(self)@ == (CycleView { dst: Destination::Discard, ad: old(self)@.ad.indexed(idx as int), ..old(self)@ }),
    {
        if cycle == 1 {
            let res = self.issue_read(self.pc, Destination::AddressLow);
            self.pc.increment();
            (res, false)
        } else {
            let res = self.issue_read(self.ad.as_zeropage(), Destination::Discard);
            self.ad.apply_index(idx); // Zeropage does not cause a page crossing.
            (res, true)
        }
    }

    fn resolve_absolute(&mut self, cycle: u8) -> (r: (IoRequest, bool))
        requires
            cycle == 1 || cycle == 2,
        ensures
            r == (IoRequest::Read(old(self)@.pc.value()), cycle == 2),
            final(self)@ == (CycleView {
                dst: if cycle == 1 { Destination::AddressLow } else { Destination::AddressHigh },
                pc: old(self)@.pc.incremented(),
                ..old(self)@
            }),
    {
        if cycle == 1 {
            let res = self.issue_read(self.pc, Destination::AddressLow);
            self.pc.increment();
            (res, false)
        } else {
            let res = self.issue_read(self.pc, Destination::AddressHigh);
            self.pc.increment();
            (res, true)
        }
    }

    fn resolve_absolute_indexed(&mut self, cycle: u8, idx: u8) -> (r: (IoRequest, bool))
        requires
            cycle == 1 || cycle == 2,
        ensures
            r == (IoRequest::Read(old(self)@.pc.value()), cycle == 2),
            cycle == 1 ==> final(self)@ == (CycleView { dst: Destination::AddressLow, pc: old(self)@.pc.incremented(), ..old(self)@ }),
            cycle == 2 ==> final(self)@ == (CycleView {
                dst: Destination::AddressHigh,
                ad: old(self)@.ad.indexed(idx as int),
                pc: old(self)@.pc.incremented(),
                ..old(self)@
            }),
    {
        if cycle == 1 {
            let res = self.issue_read(self.pc, Destination::AddressLow);
            self.pc.increment();
            (res, false)
        } else {
            let res = self.issue_read(self.pc, Destination::AddressHigh);
            self.ad.apply_index(idx); // The address may be invalid here.
            self.pc.increment();
            (res, true)
        }
    }

    fn resolve_relative(&mut self, cycle: u8) -> (r: (IoRequest, bool))
        requires
            cycle == 1,
        ensures
            r == (IoRequest::Read(old(self)@.pc.value()), true),
            final(self)@ == (CycleView { dst: Destination::DataLatch, pc: old(self)@.pc.incremented(), ..old(self)@ }),
    {
        let res = self.issue_read(self.pc, Destination::DataLatch);
        self.pc.increment();
        (res, true)
    }

    fn resolve_x_indexed_indirect(&mut self, cycle: u8) -> (r: (IoRequest, bool))
        requires
            1 <= cycle <= 4,
            old(self)@.addressing == Addressing::XIdxedInd,
        ensures
            (r.0, final(self)@, r.1) == old(self)@.resolved(cycle),
    {
        if cycle == 1 {
            let res = self.issue_read(self.pc, Destination::ZeropagePointer);
            self.pc.increment();
            (res, false)
        } else if cycle == 2 {
            let res = self.issue_read(self.zpg_ptr.as_address(), Destination::Discard);
            self.zpg_ptr = self.zpg_ptr.wrapping_add(self.x);
            (res, false)
        } else if cycle == 3 {
            (self.issue_read(self.zpg_ptr.as_address(), Destination::AddressLow), false)
        } else {
            let res = self.issue_read(self.zpg_ptr.wrapping_add(1).as_address(), Destination::AddressHigh);
            (res, true)
        }
    }

    fn resolve_indirect_y_indexed(&mut self, cycle: u8) -> (r: (IoRequest, bool))
        requires
            1 <= cycle <= 3,
            old(self)@.addressing == Addressing::IndYIdxed,
        ensures
            (r.0, final(self)@, r.1) == old(self)@.resolved(cycle),
    {
        if cycle == 1 {
            let res = self.issue_read(self.pc, Destination::ZeropagePointer);
            self.pc.increment();
            (res, false)
        } else if cycle == 2 {
            let res = self.issue_read(self.zpg_ptr.as_address(), Destination::AddressLow);
            (res, false)
        } else {
            let res = self.issue_read(self.zpg_ptr.wrapping_add(1).as_address(), Destination::AddressHigh);
            self.ad.apply_index(self.y);
            (res, true)
        }
    }

    fn exec_instruction(&mut self, cycle: u8) -> (r: (IoRequest, bool))
        requires
            1 <= cycle <= exec_cycles(old(self)@.operator),
        ensures
            (r.0, final(self)@, r.1) == old(self)@.executed(cycle),
    {
        match self.operator {
            Operator::Implicit(o) => self.exec_implicit(o, cycle),
            Operator::Branch(o) => self.exec_branch(o, cycle),
        }
    }

    fn exec_implicit(&mut self, operator: Implicit, _cycle: u8) -> (r: (IoRequest, bool))
        ensures
            r == (IoRequest::Read(old(self)@.implicit_applied(operator).pc.value()), true),
            final(self)@ == (CycleView { dst: Destination::Discard, ..old(self)@.implicit_applied(operator) }),
    {
        self.apply_implicit(operator);
        (self.issue_read(self.pc, Destination::Discard), true)
    }

    fn exec_branch(&mut self, operator: Branch, cycle: u8) -> (r: (IoRequest, bool))
        requires
            cycle == 1 || cycle == 2,
            old(self)@.operator == Operator::Branch(operator),
        ensures
            (r.0, final(self)@, r.1) == old(self)@.executed(cycle),
    {
        if cycle == 1 {
            self.apply_branch(operator);

            if self.is_branched {
                let res = self.issue_read(self.pc, Destination::Discard);
                let off: i8 = if self.dl >= 128 { (self.dl as i16 - 256) as i8 } else { self.dl as i8 };
                self.pc.apply_index_signed(off);
                (res, false)
            } else {
                (self.fetch_opcode(), true)
            }
        } else {
            if self.pc.is_crossed() {
                let res = self.issue_read(self.pc, Destination::Discard);
                self.pc.fix_page();
                (res, true)
            } else {
                (self.fetch_opcode(), true)
            }
        }
    }

    fn apply_implicit(&mut self, operator: Implicit)
        ensures
            final(self)@ == old(self)@.implicit_applied(operator),
    {
        match operator {
            Implicit::JAM => self.is_jammed = true,
            Implicit::INX => {
                self.x = self.x.wrapping_add(1);
                self.update_nz(self.x);
            },
            Implicit::INY => {
                self.y = self.y.wrapping_add(1);
                self.update_nz(self.y);
            },
            Implicit::DEX => {
                self.x = self.x.wrapping_sub(1);
                self.update_nz(self.y);
            },
            Implicit::DEY => {
                self.y = self.y.wrapping_sub(1);
                self.update_nz(self.y);
            },
            Implicit::CLC => self.p.remove(FLAG_C),
            Implicit::CLD => self.p.remove(FLAG_D),
            Implicit::CLI => self.p.remove(FLAG_I),
            Implicit::CLV => self.p.remove(FLAG_V),
            Implicit::SEC => self.p.insert(FLAG_C),
            Implicit::SED => self.p.insert(FLAG_D),
            Implicit::SEI => self.p.insert(FLAG_I),
            Implicit::TAX => {
                self.x = self.a;
                self.update_nz(self.x);
            },
            Implicit::TAY => {
                self.y = self.a;
                self.update_nz(self.y);
            },
            Implicit::TSX => {
                self.sp = self.x;
                self.update_nz(self.sp);
            },
            Implicit::TXA => {
                self.a = self.x;
                self.update_nz(self.a);
            },
            Implicit::TYA => {
                self.a = self.y;
                self.update_nz(self.a);
            },
            Implicit::TXS => self.sp = self.x,
        }
    }

    fn apply_branch(&mut self, operator: Branch)
        ensures
            final(self)@ == (CycleView { is_branched: old(self)@.branch_taken(operator), ..old(self)@ }),
    {
        self.is_branched = match operator {
            Branch::BCC => !self.p.contains(FLAG_C),
            Branch::BCS => self.p.contains(FLAG_C),
            Branch::BNE => !self.p.contains(FLAG_Z),
            Branch::BEQ => self.p.contains(FLAG_Z),
            Branch::BVC => !self.p.contains(FLAG_V),
            Branch::BVS => self.p.contains(FLAG_V),
            Branch::BPL => !self.p.contains(FLAG_N),
            Branch::BMI => self.p.contains(FLAG_N),
        };
    }
}

} // verus!
