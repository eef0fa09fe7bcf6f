//! The bus accesses of each instruction, cycle by cycle.
//!
//! Each function here reads a record of accesses `t` from index `k` on and
//! checks that it is exactly what the CPU does from the given registers:
//! which addresses it reads (the bytes read are taken from the record) and
//! which bytes it writes where. It gives the registers afterwards and the
//! index after the last access, or `None` when the record differs.

use vstd::prelude::*;
use crate::bits::{word_of, lo_of, hi_of};
use super::{Access, ZERO_PAGE, STACK_PAGE, OAMADDR, NMI_VECTOR, IRQ_VECTOR, BRK_VECTOR, RESET_VECTOR, OamDmaStat,
    dec8, inc8, inc16, interrupted};
use super::registers::{Register, Status, status_of, FLAG_I, STACK_B, STACK_R};
use super::opcode::{Addressing, Mnemonic, Unique, Branch, Read, Modify, Write, UnstableWrite, opcode_entry};
use super::dispatch::{
    Operand, operand_len, branch_target, branch_taken, short_spec, read_spec, modified, modify_spec, write_value,
    rti_regs, pla_regs,
};

verus! {

/// `x` is a read at `addr`.
pub open spec fn is_read_at(x: Access, addr: u16) -> bool {
    x matches Access::Read(a, _) && a == addr
}

/// The byte an access carried.
pub open spec fn data_of(x: Access) -> u8 {
    match x {
        Access::Read(_, v) => v,
        Access::Write(_, v) => v,
    }
}

/// `after` begins with `before`.
pub open spec fn extends(before: Seq<Access>, after: Seq<Access>) -> bool {
    &&& before.len() <= after.len()
    &&& forall|i: int| 0 <= i < before.len() ==> #[trigger] after[i] == before[i]
}

/// A record that begins with one that begins with `a` begins with `a`.
pub proof fn lemma_extends_trans(a: Seq<Access>, b: Seq<Access>, c: Seq<Access>)
    requires
        extends(a, b),
        extends(b, c),
    ensures
        extends(a, c),
{
    assert forall|i: int| 0 <= i < a.len() implies #[trigger] c[i] == a[i] by {
        assert(c[i] == b[i]);
    }
}

/// The sprite DMA state after access `x`: a write of a page to OAMDMA
/// (`0x4014`) requests a DMA of that page, unless one already ran.
pub open spec fn dma_step(d: OamDmaStat, x: Access) -> OamDmaStat {
    match x {
        Access::Write(a, v) => if a == 0x4014 && !(d is Active) { OamDmaStat::Pending { page: v } } else { d },
        Access::Read(_, _) => d,
    }
}

/// The sprite DMA state, from `d`, after the accesses that took the record
/// from `t0` to `t1`.
pub open spec fn dma_after(d: OamDmaStat, t0: Seq<Access>, t1: Seq<Access>) -> OamDmaStat
    decreases t1.len(),
{
    if t1.len() <= t0.len() {
        d
    } else {
        dma_step(dma_after(d, t0, t1.drop_last()), t1.last())
    }
}

/// One access more is one step more.
pub broadcast proof fn lemma_dma_after_push(d: OamDmaStat, t0: Seq<Access>, x: Access)
    ensures
        #[trigger] dma_after(d, t0, t0.push(x)) == dma_step(d, x),
{
    reveal_with_fuel(dma_after, 2);
    assert(t0.push(x).drop_last() =~= t0);
}

/// No access, no change.
pub broadcast proof fn lemma_dma_after_none(d: OamDmaStat, t0: Seq<Access>)
    ensures
        #[trigger] dma_after(d, t0, t0) == d,
{
}

/// The accesses from `t0` to `t1`, then those to `t2`, are those from `t0`
/// to `t2`.
pub broadcast proof fn lemma_dma_after_trans(d: OamDmaStat, t0: Seq<Access>, t1: Seq<Access>, t2: Seq<Access>)
    requires
        extends(t0, t1),
        extends(t1, t2),
    ensures
        #[trigger] dma_after(dma_after(d, t0, t1), t1, t2) == dma_after(d, t0, t2),
    decreases t2.len(),
{
    if t2.len() <= t1.len() {
        assert(t2 =~= t1);
    } else {
        let t2p = t2.drop_last();
        assert(extends(t1, t2p));
        lemma_dma_after_trans(d, t0, t1, t2p);
    }
}

/// The stack address of the stack pointer `sp`.
pub open spec fn stack(sp: u8) -> u16 {
    word_of(sp, STACK_PAGE)
}

/// The zero-page address `lo`.
pub open spec fn zp(lo: u8) -> u16 {
    word_of(lo, ZERO_PAGE)
}

/// `a + b` on a byte, wrapping.
pub open spec fn add8(a: u8, b: u8) -> u8 {
    inc8(a, b as int)
}

/// The status byte pushed onto the stack, with B as `b`.
pub open spec fn pushed_status(p: Status, b: bool) -> u8 {
    if b { (p.bits | STACK_R) | STACK_B } else { p.bits | STACK_R }
}

/// The address `lo + i` in page `hi`, and whether the true address
/// `word_of(lo, hi) + i` lies on the next page.
pub open spec fn indexed(lo: u8, hi: u8, i: u8) -> Operand {
    if lo + i > 0xFF {
        Operand::DiffPage(word_of(add8(lo, i), hi))
    } else {
        Operand::SamePage(word_of(add8(lo, i), hi))
    }
}

/// The operand of addressing mode `a`, with its reads: from the operand
/// bytes at PC (`r.pc`) on, through the zero-page pointers of the indirect
/// modes.
#[verifier::opaque]
pub open spec fn operand_run(r: Register, a: Addressing, t: Seq<Access>, k: int) -> Option<(Operand, int)> {
    let pc0 = r.pc;
    let pc1 = inc16(r.pc, 1);
    let b0 = data_of(t[k]);
    let b1 = data_of(t[k + 1]);
    let b2 = data_of(t[k + 2]);
    let b3 = data_of(t[k + 3]);
    match a {
        Addressing::Accumulator => if is_read_at(t[k], pc0) { Some((Operand::Accumulator, k + 1)) } else { None },
        Addressing::Immediate => if is_read_at(t[k], pc0) { Some((Operand::Immediate(b0), k + 1)) } else { None },
        Addressing::ZeroPage => if is_read_at(t[k], pc0) { Some((Operand::FixedPage(zp(b0)), k + 1)) } else { None },
        Addressing::ZeroPageX => if is_read_at(t[k], pc0) && is_read_at(t[k + 1], zp(b0)) {
            Some((Operand::FixedPage(zp(add8(b0, r.x))), k + 2))
        } else {
            None
        },
        Addressing::ZeroPageY => if is_read_at(t[k], pc0) && is_read_at(t[k + 1], zp(b0)) {
            Some((Operand::FixedPage(zp(add8(b0, r.y))), k + 2))
        } else {
            None
        },
        Addressing::Absolute => if is_read_at(t[k], pc0) && is_read_at(t[k + 1], pc1) {
            Some((Operand::FixedPage(word_of(b0, b1)), k + 2))
        } else {
            None
        },
        Addressing::AbsoluteX => if is_read_at(t[k], pc0) && is_read_at(t[k + 1], pc1) {
            Some((indexed(b0, b1, r.x), k + 2))
        } else {
            None
        },
        Addressing::AbsoluteY => if is_read_at(t[k], pc0) && is_read_at(t[k + 1], pc1) {
            Some((indexed(b0, b1, r.y), k + 2))
        } else {
            None
        },
        Addressing::XIdxedInd => {
            let p = add8(b0, r.x);
            if is_read_at(t[k], pc0) && is_read_at(t[k + 1], zp(b0)) && is_read_at(t[k + 2], zp(p))
                && is_read_at(t[k + 3], zp(add8(p, 1))) {
                Some((Operand::FixedPage(word_of(b2, b3)), k + 4))
            } else {
                None
            }
        },
        Addressing::IndYIdxed => if is_read_at(t[k], pc0) && is_read_at(t[k + 1], zp(b0))
            && is_read_at(t[k + 2], zp(add8(b0, 1))) {
            Some((indexed(b1, b2, r.y), k + 3))
        } else {
            None
        },
        _ => None,
    }
}

/// A reading instruction after its operand: a read of the operand (twice
/// when the page had to be fixed, the first time at the wrong page).
pub open spec fn read_run(op: Read, r: Register, operand: Operand, t: Seq<Access>, j: int) -> Option<(Register, int)> {
    match operand {
        Operand::Accumulator => Some((read_spec(op, r, r.a), j)),
        Operand::Immediate(m) => Some((read_spec(op, r, m), j)),
        Operand::FixedPage(x) => if is_read_at(t[j], x) { Some((read_spec(op, r, data_of(t[j])), j + 1)) } else { None },
        Operand::SamePage(x) => if is_read_at(t[j], x) { Some((read_spec(op, r, data_of(t[j])), j + 1)) } else { None },
        Operand::DiffPage(x) => if is_read_at(t[j], x) && is_read_at(t[j + 1], inc16(x, 0x100)) {
            Some((read_spec(op, r, data_of(t[j + 1])), j + 2))
        } else {
            None
        },
    }
}

/// The address a read-modify-write instruction works on, and the index
/// where its read of it is.
pub open spec fn modify_target(operand: Operand, j: int) -> (u16, int) {
    match operand {
        Operand::SamePage(x) => (x, j + 1),
        Operand::DiffPage(x) => (inc16(x, 0x100), j + 1),
        Operand::FixedPage(x) => (x, j),
        _ => (0u16, j),
    }
}

/// A read-modify-write instruction after its operand: for an indexed
/// operand a read at the unfixed address; then the read of the value, its
/// write back unchanged, and the write of the result (in accumulator mode
/// the same read and write back happen at address 0, and the result goes
/// to A).
pub open spec fn modify_run(op: Modify, a: Addressing, r: Register, operand: Operand, t: Seq<Access>, j: int) -> Option<(Register, int)> {
    let (addr, i) = modify_target(operand, j);
    let pre_ok = match operand {
        Operand::SamePage(x) => is_read_at(t[j], x),
        Operand::DiffPage(x) => is_read_at(t[j], x),
        Operand::Immediate(_) => false,
        _ => true,
    };
    let m = data_of(t[i]);
    let res = modify_spec(op, r, m).1;
    if pre_ok && is_read_at(t[i], addr) && t[i + 1] == Access::Write(addr, m) {
        if operand is Accumulator {
            Some((modified(op, a, r, m), i + 2))
        } else if t[i + 2] == Access::Write(addr, res) {
            Some((modified(op, a, r, m), i + 3))
        } else {
            None
        }
    } else {
        None
    }
}

/// A store after its operand: for an indexed operand a read at the unfixed
/// address, then the write of the register.
pub open spec fn write_run(op: Write, r: Register, operand: Operand, t: Seq<Access>, j: int) -> Option<(Register, int)> {
    let v = write_value(op, r);
    match operand {
        Operand::FixedPage(x) => if t[j] == Access::Write(x, v) { Some((r, j + 1)) } else { None },
        Operand::SamePage(x) => if is_read_at(t[j], x) && t[j + 1] == Access::Write(x, v) {
            Some((r, j + 2))
        } else {
            None
        },
        Operand::DiffPage(x) => if is_read_at(t[j], x) && t[j + 1] == Access::Write(inc16(x, 0x100), v) {
            Some((r, j + 2))
        } else {
            None
        },
        _ => None,
    }
}

/// The registers and the value of an unstable store whose target has high
/// byte `adh`.
pub open spec fn unstable_value(op: UnstableWrite, r: Register, adh: u8) -> (Register, u8) {
    let h = add8(adh, 1);
    match op {
        UnstableWrite::SHA => (r, r.a & r.x & h),
        UnstableWrite::SHX => (r, r.x & h),
        UnstableWrite::SHY => (r, r.y & h),
        UnstableWrite::SHS => (Register { sp: r.a & r.x, ..r }, (r.a & r.x) & h),
    }
}

/// An unstable store after its operand: a read at the unfixed address,
/// then the write; across a page the value also serves as the high byte
/// of the address.
pub open spec fn unstable_run(op: UnstableWrite, r: Register, operand: Operand, t: Seq<Access>, j: int) -> Option<(Register, int)> {
    match operand {
        Operand::SamePage(x) => {
            let (r2, m) = unstable_value(op, r, hi_of(x));
            if is_read_at(t[j], x) && t[j + 1] == Access::Write(x, m) { Some((r2, j + 2)) } else { None }
        },
        Operand::DiffPage(x) => {
            let (r2, m) = unstable_value(op, r, hi_of(x));
            if is_read_at(t[j], x) && t[j + 1] == Access::Write(word_of(lo_of(x), m), m) {
                Some((r2, j + 2))
            } else {
                None
            }
        },
        _ => None,
    }
}

/// A branch: the offset byte; when taken, a read at the next opcode's
/// address, and when the target is on another page, a read at the target
/// offset in the old page.
pub open spec fn branch_run(op: Branch, r: Register, t: Seq<Access>, k: int) -> Option<(Register, int)> {
    let pc1 = inc16(r.pc, 1);
    let r1 = Register { pc: pc1, ..r };
    let target = branch_target(pc1, data_of(t[k]));
    if !is_read_at(t[k], r.pc) {
        None
    } else if !branch_taken(op, r) {
        Some((r1, k + 1))
    } else if !is_read_at(t[k + 1], pc1) {
        None
    } else if hi_of(target) == hi_of(pc1) {
        Some((Register { pc: target, ..r1 }, k + 2))
    } else if is_read_at(t[k + 2], word_of(lo_of(target), hi_of(pc1))) {
        Some((Register { pc: target, ..r1 }, k + 3))
    } else {
        None
    }
}

/// The pushes of PC and of the status (with B as `b`) and the reads of the
/// vector: the registers `interrupted` gives, from the bytes read.
pub open spec fn push_and_vector(r: Register, pc: u16, b: bool, vector: u16, t: Seq<Access>, k: int) -> Option<(Register, int)> {
    if t[k] == Access::Write(stack(r.sp), hi_of(pc)) && t[k + 1] == Access::Write(stack(dec8(r.sp, 1)), lo_of(pc))
        && t[k + 2] == Access::Write(stack(dec8(r.sp, 2)), pushed_status(r.p, b)) && is_read_at(t[k + 3], vector)
        && is_read_at(t[k + 4], inc16(vector, 1)) {
        Some((interrupted(r, data_of(t[k + 3]), data_of(t[k + 4])), k + 5))
    } else {
        None
    }
}

/// The instructions with a sequence of their own.
pub open spec fn unique_run(u: Unique, a: Addressing, r: Register, t: Seq<Access>, k: int) -> Option<(Register, int)> {
    let pc0 = r.pc;
    let pc1 = inc16(r.pc, 1);
    let sp = r.sp;
    let d = |i: int| data_of(t[k + i]);
    match u {
        Unique::JAM => if is_read_at(t[k], pc0) { Some((r, k + 1)) } else { None },
        Unique::BRK => if is_read_at(t[k], pc0) { push_and_vector(r, pc1, true, BRK_VECTOR, t, k + 1) } else { None },
        Unique::RTI => if is_read_at(t[k], pc0) && is_read_at(t[k + 1], stack(sp)) && is_read_at(t[k + 2], stack(inc8(sp, 1)))
            && is_read_at(t[k + 3], stack(inc8(sp, 2))) && is_read_at(t[k + 4], stack(inc8(sp, 3))) {
            Some((rti_regs(r, d(2), d(3), d(4)), k + 5))
        } else {
            None
        },
        Unique::RTS => if is_read_at(t[k], pc0) && is_read_at(t[k + 1], stack(sp)) && is_read_at(t[k + 2], stack(inc8(sp, 1)))
            && is_read_at(t[k + 3], stack(inc8(sp, 2))) && is_read_at(t[k + 4], word_of(d(2), d(3))) {
            Some((Register { sp: inc8(sp, 2), pc: inc16(word_of(d(2), d(3)), 1), ..r }, k + 5))
        } else {
            None
        },
        Unique::PHA => if is_read_at(t[k], pc0) && t[k + 1] == Access::Write(stack(sp), r.a) {
            Some((Register { sp: dec8(sp, 1), ..r }, k + 2))
        } else {
            None
        },
        Unique::PHP => if is_read_at(t[k], pc0) && t[k + 1] == Access::Write(stack(sp), pushed_status(r.p, true)) {
            Some((Register { sp: dec8(sp, 1), ..r }, k + 2))
        } else {
            None
        },
        Unique::PLA => if is_read_at(t[k], pc0) && is_read_at(t[k + 1], stack(sp)) && is_read_at(t[k + 2], stack(inc8(sp, 1))) {
            Some((pla_regs(r, d(2)), k + 3))
        } else {
            None
        },
        Unique::PLP => if is_read_at(t[k], pc0) && is_read_at(t[k + 1], stack(sp)) && is_read_at(t[k + 2], stack(inc8(sp, 1))) {
            Some((Register { p: status_of(d(2)), sp: inc8(sp, 1), ..r }, k + 3))
        } else {
            None
        },
        Unique::JSR => if is_read_at(t[k], pc0) && is_read_at(t[k + 1], stack(sp))
            && t[k + 2] == Access::Write(stack(sp), hi_of(pc1)) && t[k + 3] == Access::Write(stack(dec8(sp, 1)), lo_of(pc1))
            && is_read_at(t[k + 4], pc1) {
            Some((Register { sp: dec8(sp, 2), pc: word_of(d(0), d(4)), ..r }, k + 5))
        } else {
            None
        },
        Unique::JMP => if a is Absolute {
            if is_read_at(t[k], pc0) && is_read_at(t[k + 1], pc1) {
                Some((Register { pc: word_of(d(0), d(1)), ..r }, k + 2))
            } else {
                None
            }
        } else if is_read_at(t[k], pc0) && is_read_at(t[k + 1], pc1) && is_read_at(t[k + 2], word_of(d(0), d(1)))
            && is_read_at(t[k + 3], word_of(add8(d(0), 1), d(1))) {
            Some((Register { pc: word_of(d(2), d(3)), ..r }, k + 4))
        } else {
            None
        },
    }
}

/// An instruction whose opcode was just fetched (`r.pc` is the byte after
/// the opcode).
#[verifier::opaque]
pub open spec fn exec_run(r: Register, m: Mnemonic, a: Addressing, t: Seq<Access>, k: int) -> Option<(Register, int)> {
    match m {
        Mnemonic::Unique(u) => unique_run(u, a, r, t, k),
        Mnemonic::Short(op) => if is_read_at(t[k], r.pc) { Some((short_spec(op, r), k + 1)) } else { None },
        Mnemonic::Branch(op) => branch_run(op, r, t, k),
        _ => match operand_run(r, a, t, k) {
            Some((operand, j)) => {
                let r_op = Register { pc: inc16(r.pc, operand_len(a)), ..r };
                match m {
                    Mnemonic::Read(op) => read_run(op, r_op, operand, t, j),
                    Mnemonic::Modify(op) => modify_run(op, a, r_op, operand, t, j),
                    Mnemonic::Write(op) => write_run(op, r_op, operand, t, j),
                    Mnemonic::UnstableWrite(op) => unstable_run(op, r_op, operand, t, j),
                    _ => None,
                }
            },
            None => None,
        },
    }
}

/// One pair of the sprite DMA: the read of byte `i` of the page, and its
/// write to OAMDATA.
pub open spec fn dma_pair(t: Seq<Access>, s: int, page: u8, i: int) -> bool {
    &&& is_read_at(t[s + 2 * i], word_of(i as u8, page))
    &&& t[s + 2 * i + 1] == Access::Write(OAMADDR, data_of(t[s + 2 * i]))
}

/// The sprite DMA of `page` from index `k`: when it starts on a put cycle,
/// a read again at `last` (the address of the read it follows), then 256
/// reads of the page, each written to OAMDATA.
pub open spec fn dma_ok(page: u8, last: u16, align: bool, t: Seq<Access>, k: int) -> bool {
    &&& align ==> is_read_at(t[k], last)
    &&& forall|i: int| 0 <= i < 256 ==> #[trigger] dma_pair(t, dma_start(align, k), page, i)
}

/// Where the 256 pairs of a sprite DMA from index `k` start.
pub open spec fn dma_start(align: bool, k: int) -> int {
    if align { k + 1 } else { k }
}

/// The accesses a sprite DMA takes.
pub open spec fn dma_len(align: bool) -> int {
    if align { 513 } else { 512 }
}

/// The first read of a step or a reset, at `addr`, and the sprite DMA that
/// follows it when one is pending: the index after them. `put` is whether
/// the cycle before the read was a put cycle.
pub open spec fn first_read(oamdma: OamDmaStat, put: bool, addr: u16, t: Seq<Access>, k: int) -> Option<int> {
    if !is_read_at(t[k], addr) {
        None
    } else {
        match oamdma {
            OamDmaStat::Pending { page } => if dma_ok(page, addr, !put, t, k + 1) {
                Some(k + 1 + dma_len(!put))
            } else {
                None
            },
            _ => Some(k + 1),
        }
    }
}

/// The fetch of the opcode at `r.pc` (its read at `k` already checked) and
/// its instruction from `j` on: the registers, the end, and the opcode.
pub open spec fn opcode_run(r: Register, t: Seq<Access>, k: int, j: int) -> Option<(Register, int, u8)> {
    let opcode = data_of(t[k]);
    match exec_run(Register { pc: inc16(r.pc, 1), ..r }, opcode_entry(opcode).0, opcode_entry(opcode).1, t, j) {
        Some((r2, e)) => Some((r2, e, opcode)),
        None => None,
    }
}

/// An interrupt request at `k` (after an NMI, or none), then the fetch and
/// the instruction.
pub open spec fn irq_then_fetch(r: Register, irq: bool, t: Seq<Access>, k: int) -> Option<(Register, int, u8)> {
    if irq {
        if r.p.has(FLAG_I) || !is_read_at(t[k], r.pc) {
            None
        } else {
            match push_and_vector(r, r.pc, false, IRQ_VECTOR, t, k + 1) {
                Some((r2, k2)) => if is_read_at(t[k2], r2.pc) { opcode_run(r2, t, k2, k2 + 1) } else { None },
                None => None,
            }
        }
    } else if is_read_at(t[k], r.pc) {
        opcode_run(r, t, k, k + 1)
    } else {
        None
    }
}

/// One step of the CPU from registers `r` (sprite DMA `oamdma`, put cycle
/// `put`): a non-maskable interrupt when `nmi`, an interrupt request when
/// `irq` (refused while I is set), then the instruction at PC. The first
/// read, whichever it is, is followed by the pending sprite DMA. Gives the
/// registers, the end, and the opcode.
#[verifier::opaque]
pub open spec fn step_run(r: Register, oamdma: OamDmaStat, put: bool, nmi: bool, irq: bool, t: Seq<Access>, k: int) -> Option<(Register, int, u8)> {
    match first_read(oamdma, put, r.pc, t, k) {
        None => None,
        Some(k1) => if nmi {
            match push_and_vector(r, r.pc, false, NMI_VECTOR, t, k1) {
                Some((r1, k2)) => irq_then_fetch(r1, irq, t, k2),
                None => None,
            }
        } else if irq {
            if r.p.has(FLAG_I) {
                None
            } else {
                match push_and_vector(r, r.pc, false, IRQ_VECTOR, t, k1) {
                    Some((r2, k2)) => if is_read_at(t[k2], r2.pc) { opcode_run(r2, t, k2, k2 + 1) } else { None },
                    None => None,
                }
            }
        } else {
            opcode_run(r, t, k, k1)
        },
    }
}

/// The reset sequence: two reads at PC, three reads of the stack with SP
/// going down, and the reads of the reset vector.
pub open spec fn reset_run(r: Register, oamdma: OamDmaStat, put: bool, t: Seq<Access>, k: int) -> Option<(Register, int)> {
    match first_read(oamdma, put, r.pc, t, k) {
        None => None,
        Some(j) => if is_read_at(t[j], r.pc) && is_read_at(t[j + 1], stack(r.sp)) && is_read_at(t[j + 2], stack(dec8(r.sp, 1)))
            && is_read_at(t[j + 3], stack(dec8(r.sp, 2))) && is_read_at(t[j + 4], RESET_VECTOR)
            && is_read_at(t[j + 5], inc16(RESET_VECTOR, 1)) {
            Some((interrupted(r, data_of(t[j + 4]), data_of(t[j + 5])), j + 6))
        } else {
            None
        },
    }
}

} // verus!
