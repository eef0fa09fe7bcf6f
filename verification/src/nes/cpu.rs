//! The 2A03's 6502 core: registers, bus accesses (with sprite DMA), reset,
//! interrupts and the instruction loop.

pub mod registers;
pub mod operation;
pub mod opcode;
pub mod dispatch;
pub mod trace;

use vstd::prelude::*;
use crate::bits::{word_of, make_word};
use registers::{Register, Status, FLAG_I};
use opcode::{decode, opcode_entry};
use trace::{extends, data_of, dma_ok, dma_len, dma_after, push_and_vector, reset_run, step_run, stack, is_read_at};

verus! {

broadcast use trace::lemma_dma_after_push, trace::lemma_dma_after_none, trace::lemma_dma_after_trans;

pub const ZERO_PAGE: u8 = 0x00;
pub const STACK_PAGE: u8 = 0x01;

/// OAMDATA, where sprite DMA writes.
pub const OAMADDR: u16 = 0x2004;
/// Writing a page number here starts a sprite DMA.
pub const OAMDMA_ADDR: u16 = 0x4014;

pub const RESET_VECTOR: u16 = 0xFFFC;
pub const NMI_VECTOR: u16 = 0xFFFA;
pub const IRQ_VECTOR: u16 = 0xFFFE;
/// BRK shares the IRQ vector.
pub const BRK_VECTOR: u16 = 0xFFFE;

pub const DEFAULT_A: u8 = 0x00;
pub const DEFAULT_X: u8 = 0x00;
pub const DEFAULT_Y: u8 = 0x00;
pub const DEFAULT_P: u8 = 0x34;
pub const DEFAULT_SP: u8 = 0x00;
/// A placeholder: reset loads PC from the reset vector.
pub const DEFAULT_PC: u16 = 0x8000;

/// The most cycles one bus access can take: the access, and a sprite DMA
/// it may set off (one alignment cycle and 256 reads and writes).
pub const ACCESS_CYCLES: u128 = 520;
/// The cycle count up to which an instruction can run without the counter
/// overflowing.
pub const CYCLE_CEILING: u128 = 0xFFFF_FFFF_FFFF_FFFF_FFFF_FFFF_FFFF_0000;

/// One access of the CPU to its bus: the address, and the byte read or
/// written.
#[derive(Debug, Clone, Copy, PartialEq, Eq)]
pub enum Access {
    Read(u16, u8),
    Write(u16, u8),
}

/// What the CPU sees of the rest of the console.
pub trait Bus {
    /// The bus can serve every address.
    open spec fn ready(&self) -> bool {
        true
    }

    /// Every access made so far, oldest first. A bus that keeps no record
    /// has an empty one, and cannot give the guarantees below.
    open spec fn trace(&self) -> Seq<Access> {
        Seq::empty()
    }

    /// The level of the non-maskable interrupt line. A bus that models no
    /// interrupt lines keeps them down.
    open spec fn nmi_line(&self) -> bool {
        false
    }

    /// The level of the interrupt request line.
    open spec fn irq_line(&self) -> bool {
        false
    }

    fn nmi_active(&self) -> (r: bool)
        ensures
            r == self.nmi_line(),
    ;

    fn irq_active(&self) -> (r: bool)
        ensures
            r == self.irq_line(),
    ;

    /// The memories on the cartridge. A bus that models none has none.
    open spec fn memories(&self) -> Seq<Seq<u8>> {
        Seq::empty()
    }

    /// Where the bus counts its record from: a ghost mark that no access
    /// moves.
    type Origin;

    /// The bus's origin. A bus that keeps none has an arbitrary one.
    open spec fn origin(&self) -> Self::Origin {
        vstd::pervasive::arbitrary()
    }

    fn read(&mut self, addr: u16) -> (r: u8)
        requires
            old(self).ready(),
        ensures
            final(self).ready(),
            final(self).origin() == old(self).origin(),
            final(self).trace() == old(self).trace().push(Access::Read(addr, r)),
            final(self).memories() == old(self).memories(),
    ;

    fn write(&mut self, addr: u16, data: u8)
        requires
            old(self).ready(),
        ensures
            final(self).ready(),
            final(self).origin() == old(self).origin(),
            final(self).trace() == old(self).trace().push(Access::Write(addr, data)),
            !reaches_cart(addr) ==> final(self).memories() == old(self).memories(),
    ;
}

/// Whether a CPU write at `addr` can change the cartridge's memories: a
/// write to the cartridge's range, or to PPUDATA (which the PPU passes on
/// to the cartridge's CHR memory).
pub open spec fn reaches_cart(addr: u16) -> bool {
    addr >= 0x4020 || (0x2000 <= addr < 0x4000 && addr % 8 == 7)
}

/// The sprite DMA: off, requested for a page, or done.
#[derive(Debug, Clone, Copy)]
pub enum OamDmaStat {
    Disabled,
    Pending { page: u8 },
    Active,
}

/// The CPU.
#[derive(Debug, Clone, Copy)]
pub struct Cpu {
    pub is_jammed: bool,
    pub total_cycle: u128,
    pub prev_nmi: bool,

    pub reg: Register,

    oamdma: OamDmaStat,
    is_put_cyc: bool,
}

/// The state of a CPU, as plain values.
pub struct CpuView {
    pub is_jammed: bool,
    pub total_cycle: u128,
    pub prev_nmi: bool,
    pub reg: Register,
    pub oamdma: OamDmaStat,
    /// Whether the last cycle was a put (write-phase) cycle.
    pub put_cycle: bool,
}

impl View for Cpu {
    type V = CpuView;

    closed spec fn view(&self) -> CpuView {
        CpuView {
            is_jammed: self.is_jammed,
            total_cycle: self.total_cycle,
            prev_nmi: self.prev_nmi,
            reg: self.reg,
            oamdma: self.oamdma,
            put_cycle: self.is_put_cyc,
        }
    }
}

/// `x - n` on a byte, wrapping.
pub open spec fn dec8(x: u8, n: int) -> u8 {
    ((x - n) % 256) as u8
}

/// `x + n` on a byte, wrapping.
pub open spec fn inc8(x: u8, n: int) -> u8 {
    ((x + n) % 256) as u8
}

/// `x + n` on a word, wrapping.
pub open spec fn inc16(x: u16, n: int) -> u16 {
    ((x + n) % 65536) as u16
}

/// The registers after an interrupt sequence: three bytes pushed, I set,
/// PC loaded from the vector (whose bytes are `lo`, `hi`).
pub open spec fn interrupted(r: Register, lo: u8, hi: u8) -> Register {
    Register { sp: dec8(r.sp, 3), p: r.p.with(FLAG_I, true), pc: word_of(lo, hi), ..r }
}

/// `c1` follows `c0` by the accesses that took the bus record from `t0` to
/// `t1`: one cycle each, put and get cycles alternating, the rest as it
/// was.
spec fn follows(c0: Cpu, c1: Cpu, t0: Seq<Access>, t1: Seq<Access>) -> bool {
    &&& extends(t0, t1)
    &&& c1.total_cycle == c0.total_cycle + (t1.len() - t0.len())
    &&& c1.is_put_cyc == (c0.is_put_cyc != ((t1.len() - t0.len()) % 2 == 1))
    &&& c1.is_jammed == c0.is_jammed
    &&& c1.prev_nmi == c0.prev_nmi
}

/// What `read` does with the sprite DMA.
spec fn read_dma(c0: Cpu, c1: Cpu, t0: Seq<Access>, t1: Seq<Access>, addr: u16, r: u8) -> bool {
    &&& t1[t0.len() as int] == Access::Read(addr, r)
    &&& c1.oamdma == (if c0.oamdma is Pending { OamDmaStat::Active } else { c0.oamdma })
    &&& !(c0.oamdma is Pending) ==> t1 == t0.push(Access::Read(addr, r))
    &&& c0.oamdma matches OamDmaStat::Pending { page } ==> dma_ok(page, addr, !c0.is_put_cyc, t1, t0.len() as int + 1)
        && t1.len() == t0.len() + 1 + dma_len(!c0.is_put_cyc)
}

/// A non-maskable interrupt is taken on a rising edge of its line: the line
/// is up now and was down at the last step.
pub open spec fn nmi_taken(c: CpuView, line: bool) -> bool {
    !c.prev_nmi && line
}

/// An interrupt request is taken while its line is up and I is clear.
pub open spec fn irq_taken(c: CpuView, line: bool) -> bool {
    line && !c.reg.p.has(FLAG_I)
}

/// `c1` follows `c0` by one step, with a non-maskable interrupt when
/// `nmi` and an interrupt request when `irq`, the bus record going from
/// `t0` to `t1`: the accesses and the registers are those of `step_run`,
/// and the CPU jams on the opcode JAM.
pub open spec fn stepped(c0: Cpu, c1: Cpu, nmi: bool, irq: bool, t0: Seq<Access>, t1: Seq<Access>) -> bool {
    match step_run(c0@.reg, c0@.oamdma, c0@.put_cycle, nmi, irq, t1, t0.len() as int) {
        Some((r, e, opcode)) => {
            &&& r == c1@.reg
            &&& e == t1.len()
            &&& c1@.is_jammed == (c0@.is_jammed || opcode_entry(opcode).0 == opcode::Mnemonic::Unique(opcode::Unique::JAM))
        },
        None => false,
    }
}

impl Cpu {
    /// A CPU at power-up: A, X, Y, SP zero, P `0x34`, PC a placeholder
    /// until reset.
    pub fn new() -> (r: Self)
        ensures
            !r@.is_jammed,
            r@.total_cycle == 0,
            !r@.prev_nmi,
            r@.reg == (Register { a: DEFAULT_A, x: DEFAULT_X, y: DEFAULT_Y, p: Status { bits: DEFAULT_P & 0xCF }, sp: DEFAULT_SP, pc: DEFAULT_PC }),
            r@.oamdma is Disabled,
            !r@.put_cycle,
    {
        Self {
            is_jammed: false,
            total_cycle: 0,
            prev_nmi: false,

            reg: Register {
                a: DEFAULT_A,
                x: DEFAULT_X,
                y: DEFAULT_Y,
                p: Status::from(DEFAULT_P),
                sp: DEFAULT_SP,
                pc: DEFAULT_PC,
            },

            oamdma: OamDmaStat::Disabled,
            is_put_cyc: false,
        }
    }

    /// The reset sequence: two reads at PC, three stack reads with SP
    /// going down, I set, and PC loaded from the reset vector. A pending
    /// sprite DMA runs after the first read.
    pub fn reset(&mut self, bus: &mut impl Bus)
        requires
            old(bus).ready(),
            old(self)@.total_cycle <= CYCLE_CEILING,
        ensures
            final(bus).ready(),
            final(bus).origin() == old(bus).origin(),
            final(bus).memories() == old(bus).memories(),
            !final(self)@.is_jammed,
            final(self)@.prev_nmi == old(self)@.prev_nmi,
            reset_run(old(self)@.reg, old(self)@.oamdma, old(self)@.put_cycle, final(bus).trace(), old(bus).trace().len() as int)
                == Some((final(self)@.reg, final(bus).trace().len() as int)),
            extends(old(bus).trace(), final(bus).trace()),
            final(self)@.total_cycle == old(self)@.total_cycle + (final(bus).trace().len() - old(bus).trace().len()),
            final(self)@.total_cycle <= old(self)@.total_cycle + 7 * ACCESS_CYCLES,
            final(self)@.oamdma == (if old(self)@.oamdma is Pending { OamDmaStat::Active } else { old(self)@.oamdma }),
    {
        let ghost c0 = *self;
        let ghost t0 = bus.trace();
        let ghost n = t0.len() as int;
        self.is_jammed = false;
        self.read_at_pc(bus);
        let ghost j = bus.trace().len() as int;
        let ghost t1 = bus.trace();
        self.read_at_pc(bus);
        proof {
            lemma_first_read_extends(c0.oamdma, c0.is_put_cyc, c0.reg.pc, t1, bus.trace(), n);
        }
        let mut k: u8 = 0;
        while k < 3
            invariant
                bus.ready(),
                bus.origin() == old(bus).origin(),
                k <= 3,
                c0.total_cycle <= CYCLE_CEILING,
                c0.total_cycle + 2 <= self.total_cycle <= c0.total_cycle + (2 + k) * ACCESS_CYCLES,
                self.total_cycle == c0.total_cycle + (bus.trace().len() - n),
                self.is_put_cyc == (c0.is_put_cyc != ((bus.trace().len() - n) % 2 == 1)),
                self.reg == (Register { sp: dec8(c0.reg.sp, k as int), ..c0.reg }),
                self.prev_nmi == c0.prev_nmi,
                !self.is_jammed,
                !(self.oamdma is Pending),
                self.oamdma == (if c0.oamdma is Pending { OamDmaStat::Active } else { c0.oamdma }),
                extends(t0, bus.trace()),
                n == t0.len(),
                n < j,
                bus.trace().len() == j + 1 + k,
                trace::first_read(c0.oamdma, c0.is_put_cyc, c0.reg.pc, bus.trace(), n) == Some(j),
                is_read_at(bus.trace()[j], c0.reg.pc),
                forall|i: int| 0 <= i < k ==> #[trigger] is_read_at(bus.trace()[j + 1 + i], stack(dec8(c0.reg.sp, i))),
                bus.memories() == old(bus).memories(),
            decreases 3 - k,
        {
            let ghost tk = bus.trace();
            self.read_at_sp(bus);
            proof {
                assert forall|i: int| 0 <= i < k + 1 implies #[trigger] is_read_at(bus.trace()[j + 1 + i], stack(dec8(c0.reg.sp, i))) by {
                    if i < k {
                        assert(bus.trace()[j + 1 + i] == tk[j + 1 + i]);
                    }
                }
                lemma_first_read_extends(c0.oamdma, c0.is_put_cyc, c0.reg.pc, tk, bus.trace(), n);
            }
            self.reg.sp = self.reg.sp.wrapping_sub(1);
            k = k + 1;
        }
        self.reg.p.set(FLAG_I, true);
        let ghost t5 = bus.trace();
        let lo: u8 = self.read(bus, RESET_VECTOR);
        let hi: u8 = self.read(bus, RESET_VECTOR.wrapping_add(1));
        self.reg.pc = make_word(lo, hi);
        proof {
            lemma_first_read_extends(c0.oamdma, c0.is_put_cyc, c0.reg.pc, t5, bus.trace(), n);
            assert(bus.trace()[j] == t5[j]);
            assert(bus.trace()[j + 1] == t5[j + 1]);
            assert(bus.trace()[j + 2] == t5[j + 2]);
            assert(bus.trace()[j + 3] == t5[j + 3]);
            assert(is_read_at(t5[j + 1 + 0], stack(dec8(c0.reg.sp, 0))));
            assert(is_read_at(t5[j + 1 + 1], stack(dec8(c0.reg.sp, 1))));
            assert(is_read_at(t5[j + 1 + 2], stack(dec8(c0.reg.sp, 2))));
        }
        assert(self@.reg == interrupted(c0.reg, lo, hi));
    }

    /// Runs one instruction: first a non-maskable interrupt when the bus
    /// raised one since the last step, then an interrupt request unless I
    /// is set, then the instruction at PC. A pending sprite DMA runs after
    /// the first read.
    #[verifier::rlimit(60)]
    pub fn step(&mut self, bus: &mut impl Bus)
        requires
            old(bus).ready(),
            old(self)@.total_cycle <= CYCLE_CEILING,
        ensures
            final(bus).ready(),
            final(bus).origin() == old(bus).origin(),
            final(self)@.total_cycle <= old(self)@.total_cycle + 24 * ACCESS_CYCLES,
            final(self)@.total_cycle == old(self)@.total_cycle + (final(bus).trace().len() - old(bus).trace().len()),
            final(self)@.put_cycle == (old(self)@.put_cycle != ((final(bus).trace().len() - old(bus).trace().len()) % 2 == 1)),
            extends(old(bus).trace(), final(bus).trace()),
            exists|irq: bool| #[trigger] stepped(*old(self), *final(self), nmi_taken(old(self)@, old(bus).nmi_line()), irq, old(bus).trace(), final(bus).trace()),
            !nmi_taken(old(self)@, old(bus).nmi_line()) ==> final(self)@.prev_nmi == old(bus).nmi_line()
                && stepped(*old(self), *final(self), false, irq_taken(old(self)@, old(bus).irq_line()), old(bus).trace(), final(bus).trace()),
            (old(self)@.oamdma is Pending || old(self)@.oamdma is Active) ==> final(self)@.oamdma is Active,
            old(self)@.oamdma is Disabled ==> final(self)@.oamdma == dma_after(OamDmaStat::Disabled, old(bus).trace(), final(bus).trace()),
    {
        let ghost c0 = *self;
        let ghost t0 = bus.trace();
        let ghost n = t0.len() as int;
        let ghost mut ta: Seq<Access> = t0;

        // NMI edge detection
        let nmi: bool = !self.prev_nmi && bus.nmi_active();
        assert(nmi == nmi_taken(c0@, old(bus).nmi_line()));
        if nmi {
            let v: u8 = self.read_at_pc(bus);
            proof {
                ta = bus.trace();
                lemma_first_read(c0, *self, t0, ta, c0.reg.pc, v);
            }
            self.handle_interrupt(bus, NMI_VECTOR, false);
            proof {
                let t = bus.trace();
                let k = ta.len() as int;
                lemma_interrupted_masks(c0.reg, data_of(t[k + 3]), data_of(t[k + 4]));
            }
        }
        let ghost t1 = bus.trace();
        let ghost r1 = self.reg;
        self.prev_nmi = bus.nmi_active();

        // IRQ level detection
        let ghost mut tb: Seq<Access> = t1;
        let irq: bool = bus.irq_active() && !self.reg.p.contains(FLAG_I);
        if irq {
            let ghost cb = *self;
            let v: u8 = self.read_at_pc(bus);
            proof {
                tb = bus.trace();
                if !nmi {
                    lemma_first_read(cb, *self, t1, tb, c0.reg.pc, v);
                }
            }
            self.handle_interrupt(bus, IRQ_VECTOR, false);
        }
        let ghost t2 = bus.trace();
        let ghost r2 = self.reg;

        let ghost cf = *self;
        let opcode: u8 = self.fetch(bus);
        let ghost t3 = bus.trace();
        proof {
            if !nmi && !irq {
                lemma_first_read(cf, *self, t2, t3, c0.reg.pc, opcode);
            }
        }
        let entry = decode(opcode);
        let ghost jam0 = self.is_jammed;
        self.exec_opcode(bus, entry);
        proof {
            let t = bus.trace();
            if nmi {
                trace::lemma_extends_trans(ta, t1, t3);
                trace::lemma_extends_trans(ta, t3, t);
                lemma_step_nmi(c0.reg, c0.oamdma, c0.is_put_cyc, ta, t1, t3, t, n, r1, opcode, self.reg);
            } else if irq {
                trace::lemma_extends_trans(tb, t2, t3);
                trace::lemma_extends_trans(tb, t3, t);
                lemma_step_irq(c0.reg, c0.oamdma, c0.is_put_cyc, tb, t2, t3, t, n, r2, opcode, self.reg);
            } else {
                lemma_step_plain(c0.reg, c0.oamdma, c0.is_put_cyc, t3, t, n, opcode, self.reg);
            }
            assert(stepped(c0, *self, nmi, irq, t0, t));
        }
        assert(jam0 == old(self).is_jammed);
    }

    /// Pushes PC and P (with B as `b_flag`), sets I and jumps through
    /// `vector`.
    fn handle_interrupt(&mut self, bus: &mut impl Bus, vector: u16, b_flag: bool)
        requires
            old(bus).ready(),
            !(old(self).oamdma is Pending),
            old(self).total_cycle <= u128::MAX - 5 * ACCESS_CYCLES,
        ensures
            final(bus).ready(),
            final(bus).origin() == old(bus).origin(),
            push_and_vector(old(self).reg, old(self).reg.pc, b_flag, vector, final(bus).trace(), old(bus).trace().len() as int)
                == Some((final(self).reg, final(bus).trace().len() as int)),
            final(bus).trace().len() == old(bus).trace().len() + 5,
            follows(*old(self), *final(self), old(bus).trace(), final(bus).trace()),
            final(self).oamdma == old(self).oamdma,
            final(self).oamdma == dma_after(old(self).oamdma, old(bus).trace(), final(bus).trace()),
            old(self).total_cycle < final(self).total_cycle <= old(self).total_cycle + 5 * ACCESS_CYCLES,
    {
        let ghost t0 = bus.trace();
        let ghost n = t0.len() as int;
        let pcl: u8 = (self.reg.pc % 256) as u8;
        let pch: u8 = (self.reg.pc / 256) as u8;
        self.push(bus, pch);
        self.push(bus, pcl);
        let p: u8 = self.reg.p.as_byte(b_flag);
        self.push(bus, p);
        self.reg.p.insert(FLAG_I);
        let lo: u8 = self.read(bus, vector);
        let hi: u8 = self.read(bus, vector.wrapping_add(1));
        self.reg.pc = make_word(lo, hi);
        assert(self.reg == interrupted(old(self).reg, lo, hi));
        assert(bus.trace()[n + 3] == Access::Read(vector, lo));
    }

    /// The address of the stack top: page 1, offset SP.
    fn stackpointer(&self) -> (r: u16)
        ensures
            r == stack(self.reg.sp),
    {
        make_word(self.reg.sp, STACK_PAGE)
    }

    fn sync_internal(&mut self)
        requires
            old(self).total_cycle < u128::MAX,
        ensures
            final(self).total_cycle == old(self).total_cycle + 1,
            final(self).is_put_cyc == !old(self).is_put_cyc,
            final(self).reg == old(self).reg,
            final(self).oamdma == old(self).oamdma,
            final(self).is_jammed == old(self).is_jammed,
            final(self).prev_nmi == old(self).prev_nmi,
    {
        self.total_cycle = self.total_cycle + 1;
        self.is_put_cyc = !self.is_put_cyc;
    }

    /// One read cycle; a pending sprite DMA runs right after it.
    fn read(&mut self, bus: &mut impl Bus, addr: u16) -> (r: u8)
        requires
            old(bus).ready(),
            old(self).oamdma is Pending ==> old(self).total_cycle <= u128::MAX - ACCESS_CYCLES,
            old(self).total_cycle < u128::MAX,
        ensures
            final(bus).ready(),
            final(bus).origin() == old(bus).origin(),
            final(bus).memories() == old(bus).memories(),
            final(self).reg == old(self).reg,
            follows(*old(self), *final(self), old(bus).trace(), final(bus).trace()),
            read_dma(*old(self), *final(self), old(bus).trace(), final(bus).trace(), addr, r),
            !(old(self).oamdma is Pending) ==> final(self).oamdma == dma_after(old(self).oamdma, old(bus).trace(), final(bus).trace()),
            old(self).total_cycle < final(self).total_cycle <= old(self).total_cycle + ACCESS_CYCLES,
        decreases (if old(self).oamdma is Pending { 1int } else { 0int }), 1int,
    {
        let ghost t0 = bus.trace();
        self.sync_internal();
        let byte: u8 = bus.read(addr);
        let ghost t1 = bus.trace();

        if let OamDmaStat::Pending { page } = self.oamdma {
            self.transfer_sprites(bus, page, addr);
            assert(bus.trace()[t0.len() as int] == t1[t0.len() as int]);
        }

        byte
    }

    /// One write cycle. A write of a page number to OAMDMA requests a sprite
    /// DMA, unless one already ran.
    fn write(&mut self, bus: &mut impl Bus, addr: u16, data: u8)
        requires
            old(bus).ready(),
            old(self).total_cycle < u128::MAX,
        ensures
            final(bus).ready(),
            final(bus).origin() == old(bus).origin(),
            !reaches_cart(addr) ==> final(bus).memories() == old(bus).memories(),
            final(bus).trace() == old(bus).trace().push(Access::Write(addr, data)),
            final(self).reg == old(self).reg,
            follows(*old(self), *final(self), old(bus).trace(), final(bus).trace()),
            final(self).total_cycle == old(self).total_cycle + 1,
            final(self).oamdma == (if addr == OAMDMA_ADDR && !(old(self).oamdma is Active) {
                OamDmaStat::Pending { page: data }
            } else {
                old(self).oamdma
            }),
            final(self).oamdma == dma_after(old(self).oamdma, old(bus).trace(), final(bus).trace()),
    {
        self.sync_internal();

        if addr == OAMDMA_ADDR {
            // Modify instructions can override the page
            match self.oamdma {
                OamDmaStat::Disabled | OamDmaStat::Pending { .. } => {
                    self.oamdma = OamDmaStat::Pending { page: data };
                },
                OamDmaStat::Active => {},
            }
        }

        bus.write(addr, data);
    }

    /// A read at PC whose byte is not used.
    fn read_at_pc(&mut self, bus: &mut impl Bus) -> (r: u8)
        requires
            old(bus).ready(),
            old(self).total_cycle <= u128::MAX - ACCESS_CYCLES,
        ensures
            final(bus).ready(),
            final(bus).origin() == old(bus).origin(),
            final(bus).memories() == old(bus).memories(),
            final(self).reg == old(self).reg,
            follows(*old(self), *final(self), old(bus).trace(), final(bus).trace()),
            read_dma(*old(self), *final(self), old(bus).trace(), final(bus).trace(), old(self).reg.pc, r),
            !(old(self).oamdma is Pending) ==> final(self).oamdma == dma_after(old(self).oamdma, old(bus).trace(), final(bus).trace()),
            old(self).total_cycle < final(self).total_cycle <= old(self).total_cycle + ACCESS_CYCLES,
    {
        self.read(bus, self.reg.pc)
    }

    /// A read at the stack top whose byte is not used.
    fn read_at_sp(&mut self, bus: &mut impl Bus)
        requires
            old(bus).ready(),
            !(old(self).oamdma is Pending),
            old(self).total_cycle <= u128::MAX - ACCESS_CYCLES,
        ensures
            final(bus).ready(),
            final(bus).origin() == old(bus).origin(),
            final(bus).memories() == old(bus).memories(),
            final(self).reg == old(self).reg,
            follows(*old(self), *final(self), old(bus).trace(), final(bus).trace()),
            final(bus).trace().len() == old(bus).trace().len() + 1,
            is_read_at(final(bus).trace()[old(bus).trace().len() as int], stack(old(self).reg.sp)),
            final(self).oamdma == old(self).oamdma,
            final(self).oamdma == dma_after(old(self).oamdma, old(bus).trace(), final(bus).trace()),
            old(self).total_cycle < final(self).total_cycle <= old(self).total_cycle + ACCESS_CYCLES,
    {
        let sp: u16 = self.stackpointer();
        self.read(bus, sp);
    }

    /// Reads the byte at PC and moves PC on.
    fn fetch(&mut self, bus: &mut impl Bus) -> (r: u8)
        requires
            old(bus).ready(),
            old(self).total_cycle <= u128::MAX - ACCESS_CYCLES,
        ensures
            final(bus).ready(),
            final(bus).origin() == old(bus).origin(),
            final(self).reg == (Register { pc: inc16(old(self).reg.pc, 1), ..old(self).reg }),
            follows(*old(self), *final(self), old(bus).trace(), final(bus).trace()),
            read_dma(*old(self), *final(self), old(bus).trace(), final(bus).trace(), old(self).reg.pc, r),
            !(old(self).oamdma is Pending) ==> final(self).oamdma == dma_after(old(self).oamdma, old(bus).trace(), final(bus).trace()),
            old(self).total_cycle < final(self).total_cycle <= old(self).total_cycle + ACCESS_CYCLES,
    {
        let byte: u8 = self.read(bus, self.reg.pc);
        self.reg.pc = self.reg.pc.wrapping_add(1);
        byte
    }

    /// Writes at the stack top and moves SP down.
    fn push(&mut self, bus: &mut impl Bus, data: u8)
        requires
            old(bus).ready(),
            old(self).total_cycle <= u128::MAX - ACCESS_CYCLES,
        ensures
            final(bus).ready(),
            final(bus).origin() == old(bus).origin(),
            final(bus).trace() == old(bus).trace().push(Access::Write(stack(old(self).reg.sp), data)),
            final(self).reg == (Register { sp: dec8(old(self).reg.sp, 1), ..old(self).reg }),
            follows(*old(self), *final(self), old(bus).trace(), final(bus).trace()),
            final(self).oamdma == old(self).oamdma,
            final(self).oamdma == dma_after(old(self).oamdma, old(bus).trace(), final(bus).trace()),
            old(self).total_cycle < final(self).total_cycle <= old(self).total_cycle + ACCESS_CYCLES,
    {
        let sp: u16 = self.stackpointer();
        self.write(bus, sp, data);
        self.reg.sp = self.reg.sp.wrapping_sub(1);
    }

    /// Moves SP up and reads the stack top.
    fn pop(&mut self, bus: &mut impl Bus) -> (r: u8)
        requires
            old(bus).ready(),
            !(old(self).oamdma is Pending),
            old(self).total_cycle <= u128::MAX - ACCESS_CYCLES,
        ensures
            final(bus).ready(),
            final(bus).origin() == old(bus).origin(),
            final(bus).trace() == old(bus).trace().push(Access::Read(stack(inc8(old(self).reg.sp, 1)), r)),
            final(self).reg == (Register { sp: inc8(old(self).reg.sp, 1), ..old(self).reg }),
            follows(*old(self), *final(self), old(bus).trace(), final(bus).trace()),
            final(self).oamdma == old(self).oamdma,
            final(self).oamdma == dma_after(old(self).oamdma, old(bus).trace(), final(bus).trace()),
            old(self).total_cycle < final(self).total_cycle <= old(self).total_cycle + ACCESS_CYCLES,
    {
        self.reg.sp = self.reg.sp.wrapping_add(1);
        let sp: u16 = self.stackpointer();
        self.read(bus, sp)
    }

    /// Copies page `page` to OAMDATA, 256 reads and writes, after an
    /// alignment read when the DMA starts on a put cycle.
    fn transfer_sprites(&mut self, bus: &mut impl Bus, page: u8, last_addr: u16)
        requires
            old(bus).ready(),
            old(self).oamdma is Pending,
            old(self).total_cycle <= u128::MAX - ACCESS_CYCLES + 1,
        ensures
            final(bus).ready(),
            final(bus).origin() == old(bus).origin(),
            final(bus).memories() == old(bus).memories(),
            final(self).reg == old(self).reg,
            follows(*old(self), *final(self), old(bus).trace(), final(bus).trace()),
            dma_ok(page, last_addr, old(self).is_put_cyc, final(bus).trace(), old(bus).trace().len() as int),
            final(bus).trace().len() == old(bus).trace().len() + dma_len(old(self).is_put_cyc),
            old(self).total_cycle < final(self).total_cycle <= old(self).total_cycle + 513,
            final(self).oamdma is Active,
        decreases 1int, 0int,
    {
        let ghost c0 = *self;
        let ghost t0 = bus.trace();
        let ghost n = t0.len() as int;
        let ghost align = self.is_put_cyc;
        self.oamdma = OamDmaStat::Active;

        if self.is_put_cyc {
            self.read(bus, last_addr); // dummy read
        }
        let ghost s = trace::dma_start(align, n);
        let ghost t1 = bus.trace();

        let mut idx: u16 = 0;
        while idx < 256
            invariant
                bus.ready(),
                bus.origin() == old(bus).origin(),
                idx <= 256,
                c0.total_cycle <= u128::MAX - ACCESS_CYCLES + 1,
                self.oamdma is Active,
                self.reg == c0.reg,
                self.is_jammed == c0.is_jammed,
                self.prev_nmi == c0.prev_nmi,
                self.total_cycle == c0.total_cycle + (bus.trace().len() - n),
                self.is_put_cyc == (c0.is_put_cyc != ((bus.trace().len() - n) % 2 == 1)),
                bus.trace().len() == s + 2 * idx,
                s == trace::dma_start(align, n),
                extends(t0, bus.trace()),
                extends(t1, bus.trace()),
                align ==> is_read_at(t1[n], last_addr),
                t1.len() == s,
                forall|i: int| 0 <= i < idx ==> #[trigger] trace::dma_pair(bus.trace(), s, page, i),
                bus.memories() == old(bus).memories(),
            decreases 256 - idx,
        {
            let ghost tb = bus.trace();
            let addr: u16 = make_word(idx as u8, page);
            let data: u8 = self.read(bus, addr);
            self.write(bus, OAMADDR, data);
            proof {
                assert forall|i: int| 0 <= i < idx + 1 implies #[trigger] trace::dma_pair(bus.trace(), s, page, i) by {
                    if i < idx {
                        assert(trace::dma_pair(tb, s, page, i));
                        assert(bus.trace()[s + 2 * i] == tb[s + 2 * i]);
                        assert(bus.trace()[s + 2 * i + 1] == tb[s + 2 * i + 1]);
                    } else {
                        assert(bus.trace()[s + 2 * i] == Access::Read(addr, data));
                    }
                }
            }
            idx = idx + 1;
        }
        proof {
            if align {
                assert(bus.trace()[n] == t1[n]);
            }
        }
    }
}

/// The first read of a step or a reset, as `read` reports it.
proof fn lemma_first_read(c0: Cpu, c1: Cpu, t0: Seq<Access>, t1: Seq<Access>, addr: u16, v: u8)
    requires
        read_dma(c0, c1, t0, t1, addr, v),
    ensures
        trace::first_read(c0.oamdma, c0.is_put_cyc, addr, t1, t0.len() as int) == Some(t1.len() as int),
{
}

/// After an interrupt sequence, I is set.
proof fn lemma_interrupted_masks(r: Register, lo: u8, hi: u8)
    ensures
        interrupted(r, lo, hi).p.has(FLAG_I),
{
    let b = r.p.bits;
    assert((b | 0x04u8) & 0x04u8 == 0x04u8) by (bit_vector);
}

/// A step without interrupts: the first read is the opcode fetch.
proof fn lemma_step_plain(r: Register, oamdma: OamDmaStat, put: bool, t3: Seq<Access>, t: Seq<Access>, n: int, opcode: u8, rf: Register)
    requires
        0 <= n,
        trace::first_read(oamdma, put, r.pc, t3, n) == Some(t3.len() as int),
        t3[n] == Access::Read(r.pc, opcode),
        extends(t3, t),
        trace::exec_run(Register { pc: inc16(r.pc, 1), ..r }, opcode_entry(opcode).0, opcode_entry(opcode).1, t, t3.len() as int)
            == Some((rf, t.len() as int)),
    ensures
        step_run(r, oamdma, put, false, false, t, n) == Some((rf, t.len() as int, opcode)),
{
    reveal(step_run);
    lemma_first_read_extends(oamdma, put, r.pc, t3, t, n);
    assert(t[n] == t3[n]);
}

/// A step with a non-maskable interrupt: its first read (at `ta`), the
/// interrupt sequence (to `t1`), and the fetch and the instruction.
proof fn lemma_step_nmi(r: Register, oamdma: OamDmaStat, put: bool, ta: Seq<Access>, t1: Seq<Access>, t3: Seq<Access>,
    t: Seq<Access>, n: int, r1: Register, opcode: u8, rf: Register)
    requires
        0 <= n,
        trace::first_read(oamdma, put, r.pc, ta, n) == Some(ta.len() as int),
        push_and_vector(r, r.pc, false, NMI_VECTOR, t1, ta.len() as int) == Some((r1, t1.len() as int)),
        extends(ta, t), extends(t1, t), extends(t3, t),
        t3 == t1.push(Access::Read(r1.pc, opcode)),
        r1.p.has(FLAG_I),
        trace::exec_run(Register { pc: inc16(r1.pc, 1), ..r1 }, opcode_entry(opcode).0, opcode_entry(opcode).1, t, t3.len() as int)
            == Some((rf, t.len() as int)),
    ensures
        step_run(r, oamdma, put, true, false, t, n) == Some((rf, t.len() as int, opcode)),
{
    reveal(step_run);
    lemma_first_read_extends(oamdma, put, r.pc, ta, t, n);
    lemma_push_and_vector_extends(r, r.pc, false, NMI_VECTOR, t1, t, ta.len() as int);
    assert(t[t1.len() as int] == t3[t1.len() as int]);
}

/// A step with an interrupt request: its first read (at `tb`), the
/// interrupt sequence (to `t2`), and the fetch and the instruction.
proof fn lemma_step_irq(r: Register, oamdma: OamDmaStat, put: bool, tb: Seq<Access>, t2: Seq<Access>, t3: Seq<Access>,
    t: Seq<Access>, n: int, r2: Register, opcode: u8, rf: Register)
    requires
        0 <= n,
        !r.p.has(FLAG_I),
        trace::first_read(oamdma, put, r.pc, tb, n) == Some(tb.len() as int),
        push_and_vector(r, r.pc, false, IRQ_VECTOR, t2, tb.len() as int) == Some((r2, t2.len() as int)),
        extends(tb, t), extends(t2, t), extends(t3, t),
        t3 == t2.push(Access::Read(r2.pc, opcode)),
        trace::exec_run(Register { pc: inc16(r2.pc, 1), ..r2 }, opcode_entry(opcode).0, opcode_entry(opcode).1, t, t3.len() as int)
            == Some((rf, t.len() as int)),
    ensures
        step_run(r, oamdma, put, false, true, t, n) == Some((rf, t.len() as int, opcode)),
{
    reveal(step_run);
    lemma_first_read_extends(oamdma, put, r.pc, tb, t, n);
    lemma_push_and_vector_extends(r, r.pc, false, IRQ_VECTOR, t2, t, tb.len() as int);
    assert(t[t2.len() as int] == t3[t2.len() as int]);
}

/// A first read seen in a record is still there in a longer record.
proof fn lemma_first_read_extends(oamdma: OamDmaStat, put: bool, addr: u16, t1: Seq<Access>, t2: Seq<Access>, k: int)
    requires
        extends(t1, t2),
        0 <= k,
        trace::first_read(oamdma, put, addr, t1, k) matches Some(e) && e <= t1.len(),
    ensures
        trace::first_read(oamdma, put, addr, t2, k) == trace::first_read(oamdma, put, addr, t1, k),
{
    assert(t2[k] == t1[k]);
    if let OamDmaStat::Pending { page } = oamdma {
        let s = trace::dma_start(!put, k + 1);
        if !put {
            assert(t2[k + 1] == t1[k + 1]);
        }
        assert forall|i: int| 0 <= i < 256 implies #[trigger] trace::dma_pair(t2, s, page, i) by {
            assert(trace::dma_pair(t1, s, page, i));
            assert(t2[s + 2 * i] == t1[s + 2 * i]);
            assert(t2[s + 2 * i + 1] == t1[s + 2 * i + 1]);
        }
    }
}

/// An interrupt sequence seen in a record is still there in a longer
/// record.
proof fn lemma_push_and_vector_extends(r: Register, pc: u16, b: bool, vector: u16, t1: Seq<Access>, t2: Seq<Access>, k: int)
    requires
        extends(t1, t2),
        0 <= k,
        push_and_vector(r, pc, b, vector, t1, k) matches Some((_, e)) && e <= t1.len(),
    ensures
        push_and_vector(r, pc, b, vector, t2, k) == push_and_vector(r, pc, b, vector, t1, k),
{
    assert(t2[k] == t1[k]);
    assert(t2[k + 1] == t1[k + 1]);
    assert(t2[k + 2] == t1[k + 2]);
    assert(t2[k + 3] == t1[k + 3]);
    assert(t2[k + 4] == t1[k + 4]);
}

} // verus!
