//! The NES console: CPU, PPU, cartridge and ROM image formats.

pub mod emufile;
pub mod nescart;
pub mod joypad;
pub mod nesrom;
pub mod ppu;
pub mod cpu;

use vstd::prelude::*;
use cpu::{Bus, Cpu, CYCLE_CEILING, ACCESS_CYCLES, Access};
use joypad::Joypad;
use nescart::{NesCart, PpuRead, PpuWrite};
use nescart::mapper::MapperLogic;
use ppu::Ppu;

verus! {

/// Bytes of work RAM and of nametable RAM.
pub const RAM_SIZE: usize = 0x800;

/// The controller port the CPU reads the first controller at, and writes
/// to latch it.
pub const JOYPAD1_ADDR: u16 = 0x4016;

/// The address the cartridge sees for a PPU bus address: 14 bits, with
/// `0x3000..0x3F00` (and the palette range behind it) mirrored down onto
/// the nametables.
pub open spec fn ppu_bus_addr(addr: u16) -> u16 {
    let a = addr & 0x3FFF;
    if a >= 0x3000 { (a - 0x1000) as u16 } else { a }
}

/// The memories on cartridge `c`: PRG-ROM, PRG-RAM, CHR-ROM and CHR-RAM.
pub open spec fn cart_memories(c: NesCart) -> Seq<Seq<u8>> {
    seq![c.prgrom@, c.prgram@, c.chrrom@, c.chrram@]
}

/// The PPU's bus: the cartridge and the console's 2 KiB of nametable RAM.
#[derive(Clone)]
pub struct PpuBus {
    pub cart: NesCart,
    pub vram: [u8; RAM_SIZE],
    /// Every access the PPU made, oldest first.
    pub accesses: Ghost<Seq<Access>>,
}

impl PpuBus {
    /// The byte a PPU read of `addr` gives: the cartridge's, or the
    /// nametable RAM cell the cartridge points at.
    pub open spec fn read_spec(&self, addr: u16) -> u8 {
        match self.cart.ppu_read_spec(ppu_bus_addr(addr)) {
            PpuRead::Internal(o) => self.vram@[(o % 0x800) as int],
            PpuRead::External(d) => d,
        }
    }

    /// The nametable RAM after a PPU write of `data` to `addr`.
    pub open spec fn vram_written(&self, addr: u16, data: u8) -> Seq<u8> {
        match self.cart.mapper.ppu_write_spec(ppu_bus_addr(addr), data).0 {
            nescart::mapper::MappedPpuWrite::InternalVram(o, d) => self.vram@.update((o % 0x800) as int, d),
            _ => self.vram@,
        }
    }
}

impl ppu::Bus for PpuBus {
    open spec fn ready(&self) -> bool {
        self.cart.wf()
    }

    open spec fn trace(&self) -> Seq<Access> {
        self.accesses@
    }

    open spec fn memories(&self) -> Seq<Seq<u8>> {
        cart_memories(self.cart)
    }

    /// Reads through the cartridge; what it leaves to the console comes
    /// from nametable RAM.
    fn read(&mut self, addr: u16) -> (r: u8)
        ensures
            r == old(self).read_spec(addr),
            final(self).vram == old(self).vram,
    {
        proof {
            crate::bits::lemma_u16_bits();
        }
        let a14: u16 = addr & 0x3FFF;
        let a14: u16 = if a14 >= 0x3000 { a14 - 0x1000 } else { a14 };
        proof {
            self.cart.lemma_wf(a14, 0);
        }
        let r: u8 = match self.cart.ppu_read(a14) {
            PpuRead::Internal(a) => self.vram[(a % 0x800) as usize],
            PpuRead::External(data) => data,
        };
        self.accesses = Ghost(self.accesses@.push(Access::Read(addr, r)));
        r
    }

    /// Writes through the cartridge; what it leaves to the console goes to
    /// nametable RAM.
    fn write(&mut self, addr: u16, data: u8)
        ensures
            final(self).vram@ == old(self).vram_written(addr, data),
            final(self).cart.mapper == old(self).cart.mapper.ppu_write_spec(ppu_bus_addr(addr), data).1,
    {
        proof {
            crate::bits::lemma_u16_bits();
        }
        let a14: u16 = addr & 0x3FFF;
        let a14: u16 = if a14 >= 0x3000 { a14 - 0x1000 } else { a14 };
        proof {
            self.cart.lemma_wf(a14, data);
        }
        match self.cart.ppu_write(a14, data) {
            PpuWrite::Internal(a, d) => {
                self.vram[(a % 0x800) as usize] = d;
            },
            PpuWrite::External => {},
        }
        self.accesses = Ghost(self.accesses@.push(Access::Write(addr, data)));
    }
}

/// The CPU's bus: work RAM, the PPU (which runs three cycles per CPU
/// cycle), the first controller and the cartridge.
#[derive(Clone)]
pub struct SyncBus {
    pub mem: PpuBus,
    pub wram: [u8; RAM_SIZE],
    pub ppu: Ppu,
    pub joypad1: Joypad,
    /// The CPU's accesses so far.
    pub accesses: Ghost<Seq<Access>>,
    /// The work RAM before the first access.
    pub ram0: Ghost<Seq<u8>>,
    /// The bus as it stood when the console last marked it, and the length
    /// of the record then: the run since is told from there.
    pub start: Ghost<Option<SyncBus>>,
    pub start_at: Ghost<int>,
}

/// `a` and `b` hold the same console state: they differ at most in the
/// marks of where a run started.
pub open spec fn same_state(a: SyncBus, b: SyncBus) -> bool {
    &&& a.mem == b.mem
    &&& a.wram == b.wram
    &&& a.ppu == b.ppu
    &&& a.joypad1 == b.joypad1
    &&& a.accesses == b.accesses
    &&& a.ram0 == b.ram0
}

/// One CPU access `x` takes the bus from `a` to `c`: one CPU cycle of PPU
/// time (`synced`), then the read or the write as `read_from` and
/// `write_to` tell it, and work RAM as the access leaves it.
pub open spec fn bus_link(a: SyncBus, x: Access, c: SyncBus) -> bool {
    exists|s: SyncBus| #[trigger] synced(a, s) && match x {
        Access::Read(addr, r) => read_from(s, addr, r, c) && c.wram == a.wram,
        Access::Write(addr, d) => write_to(s, addr, d, c) && c.wram@ == if addr <= 0x1FFF {
            a.wram@.update((addr % 0x800) as int, d)
        } else {
            a.wram@
        },
    }
}

/// `h` is the run of bus states along the record `t` from index `k` on:
/// one state more than accesses, each access linking a state to the next.
pub open spec fn bus_run(h: Seq<SyncBus>, t: Seq<Access>, k: int) -> bool {
    &&& 0 <= k <= t.len()
    &&& h.len() == t.len() - k + 1
    &&& forall|i: int| 0 <= i < h.len() - 1 ==> #[trigger] bus_link(h[i], t[k + i], h[i + 1])
}

/// The bus got where it is from its mark by the accesses recorded since.
pub open spec fn runs_from(b: SyncBus) -> bool {
    exists|h: Seq<SyncBus>| #[trigger] bus_run(h, b.accesses@, b.start_at@)
        && b.start@ == Some(h[0]) && same_state(h.last(), b)
}

/// The bus `b` marked where it stands now.
pub open spec fn marked(b: SyncBus) -> SyncBus {
    SyncBus { start: Ghost(Some(b)), start_at: Ghost(b.accesses@.len() as int), ..b }
}

/// A link holds between states that are the same.
proof fn lemma_link_same_state(a: SyncBus, a2: SyncBus, x: Access, c: SyncBus, c2: SyncBus)
    requires
        same_state(a, a2),
        same_state(c, c2),
        bus_link(a2, x, c2),
    ensures
        bus_link(a, x, c),
{
    let s = choose|s: SyncBus| #[trigger] synced(a2, s) && match x {
        Access::Read(addr, r) => read_from(s, addr, r, c2) && c2.wram == a2.wram,
        Access::Write(addr, d) => write_to(s, addr, d, c2) && c2.wram@ == if addr <= 0x1FFF {
            a2.wram@.update((addr % 0x800) as int, d)
        } else {
            a2.wram@
        },
    };
    assert(synced(a, s));
}

/// A run extends by one access.
proof fn lemma_run_push(b0: SyncBus, b1: SyncBus, x: Access)
    requires
        runs_from(b0),
        b1.accesses@ == b0.accesses@.push(x),
        b1.start == b0.start,
        b1.start_at == b0.start_at,
        bus_link(b0, x, b1),
    ensures
        runs_from(b1),
{
    let h = choose|h: Seq<SyncBus>| #[trigger] bus_run(h, b0.accesses@, b0.start_at@)
        && b0.start@ == Some(h[0]) && same_state(h.last(), b0);
    let k = b0.start_at@;
    let h2 = h.push(b1);
    let t = b1.accesses@;
    assert forall|i: int| 0 <= i < h2.len() - 1 implies #[trigger] bus_link(h2[i], t[k + i], h2[i + 1]) by {
        if i < h.len() - 1 {
            assert(bus_link(h[i], b0.accesses@[k + i], h[i + 1]));
            assert(h2[i] == h[i] && h2[i + 1] == h[i + 1]);
            assert(t[k + i] == b0.accesses@[k + i]);
        } else {
            assert(h2[i] == h.last() && h2[i + 1] == b1);
            assert(t[k + i] == x);
            lemma_link_same_state(h.last(), b0, x, b1, b1);
        }
    }
    assert(bus_run(h2, t, k));
}

/// A bus just marked runs from its mark.
proof fn lemma_marked_runs(b: SyncBus)
    ensures
        runs_from(marked(b)),
{
    let m = marked(b);
    let h = seq![b];
    assert(bus_run(h, m.accesses@, m.start_at@));
}

/// The work RAM cell an address in `0x0000..0x2000` lands on.
pub open spec fn ram_cell(addr: u16) -> int {
    (addr % 0x800) as int
}

/// The work RAM `m` after the writes among the accesses `t`.
pub open spec fn ram_after(m: Seq<u8>, t: Seq<Access>) -> Seq<u8>
    decreases t.len(),
{
    if t.len() == 0 {
        m
    } else {
        let m1 = ram_after(m, t.drop_last());
        match t.last() {
            Access::Write(a, v) => if a <= 0x1FFF { m1.update(ram_cell(a), v) } else { m1 },
            Access::Read(_, _) => m1,
        }
    }
}

/// Access `i` of `t`, if a read of work RAM, gave the byte its cell held
/// after the accesses before it.
pub open spec fn ram_read_ok(m: Seq<u8>, t: Seq<Access>, i: int) -> bool {
    match t[i] {
        Access::Read(a, v) => a <= 0x1FFF ==> v == ram_after(m, t.take(i))[ram_cell(a)],
        Access::Write(_, _) => true,
    }
}

/// Every read of work RAM in `t` gave the byte its cell held.
pub open spec fn ram_reads_agree(m: Seq<u8>, t: Seq<Access>) -> bool {
    forall|i: int| 0 <= i < t.len() ==> #[trigger] ram_read_ok(m, t, i)
}

/// The work RAM is what the writes made of it, and every read of it gave
/// what it held.
pub open spec fn ram_consistent(b: SyncBus) -> bool {
    &&& b.ram0@.len() == RAM_SIZE
    &&& b.wram@ == ram_after(b.ram0@, b.accesses@)
    &&& ram_reads_agree(b.ram0@, b.accesses@)
}

/// The record of a bus grows by one access: work RAM and its record stay
/// consistent.
proof fn lemma_ram_push(b0: SyncBus, b1: SyncBus, x: Access)
    requires
        ram_consistent(b0),
        b1.ram0 == b0.ram0,
        b1.accesses@ == b0.accesses@.push(x),
        b1.wram@ == (match x {
            Access::Write(a, v) => if a <= 0x1FFF { b0.wram@.update(ram_cell(a), v) } else { b0.wram@ },
            Access::Read(_, _) => b0.wram@,
        }),
        match x {
            Access::Read(a, v) => a <= 0x1FFF ==> v == b0.wram@[ram_cell(a)],
            Access::Write(_, _) => true,
        },
    ensures
        ram_consistent(b1),
{
    let t0 = b0.accesses@;
    let t1 = b1.accesses@;
    assert(t1.drop_last() =~= t0);
    assert(t1.take(t0.len() as int) =~= t0);
    assert forall|i: int| 0 <= i < t1.len() implies #[trigger] ram_read_ok(b1.ram0@, t1, i) by {
        if i < t0.len() {
            assert(ram_read_ok(b0.ram0@, t0, i));
            assert(t1.take(i) =~= t0.take(i));
        }
    }
}

/// One CPU cycle of PPU time, from bus `a` to bus `b`: the PPU runs three
/// cycles over its bus; the CPU's side (work RAM, controller, record) stays.
pub open spec fn synced(a: SyncBus, b: SyncBus) -> bool {
    &&& ppu::cpu_cycle_ok(a.ppu@, a.mem.accesses@, b.ppu@, b.mem.accesses@)
    &&& b.mem.cart.wf()
    &&& cart_memories(b.mem.cart) == cart_memories(a.mem.cart)
    &&& b.wram == a.wram
    &&& b.joypad1 == a.joypad1
    &&& b.accesses == a.accesses
    &&& b.ram0 == a.ram0
}

/// The cartridge `b` holds the memories of `a`.
pub open spec fn same_memories(a: NesCart, b: NesCart) -> bool {
    &&& b.prgrom@ == a.prgrom@
    &&& b.prgram@ == a.prgram@
    &&& b.chrrom@ == a.chrrom@
    &&& b.chrram@ == a.chrram@
}

/// A CPU read of `addr` on the caught-up bus `s` gives `r` and leaves the
/// PPU, the controller and the PPU's side of the bus as `f` holds them.
pub open spec fn read_from(s: SyncBus, addr: u16, r: u8, f: SyncBus) -> bool {
    let reg = addr % 8;
    if addr <= 0x1FFF {
        r == s.wram@[(addr % 0x800) as int] && f.ppu@ == s.ppu@ && f.mem == s.mem && f.joypad1 == s.joypad1
    } else if addr <= 0x3FFF {
        &&& f.joypad1 == s.joypad1
        &&& if reg == 2 {
            (r, f.ppu@) == s.ppu@.stat_read() && f.mem == s.mem
        } else if reg == 4 {
            r == s.ppu@.primary_oam[s.ppu@.oamaddr as int] && f.ppu@ == s.ppu@ && f.mem == s.mem
        } else if reg == 7 {
            &&& r == s.ppu@.ppudata_value()
            &&& exists|d: u8| f.mem.accesses@ == s.mem.accesses@.push(Access::Read(s.ppu@.v % 0x3F00, d))
                && f.ppu@ == #[trigger] s.ppu@.ppudata_read(d)
        } else {
            r == 0 && f.ppu@ == s.ppu@ && f.mem == s.mem
        }
    } else if addr == JOYPAD1_ADDR {
        &&& r == s.joypad1.snapshot() & 1
        &&& f.joypad1.snapshot() == joypad::shift_out(s.joypad1.snapshot())
        &&& f.joypad1.current() == s.joypad1.current()
        &&& f.ppu@ == s.ppu@
        &&& f.mem == s.mem
    } else if addr <= 0x401F {
        r == 0 && f.ppu@ == s.ppu@ && f.mem == s.mem && f.joypad1 == s.joypad1
    } else {
        &&& r == s.mem.cart.cpu_read_spec(addr)
        &&& f.mem.cart.mapper == s.mem.cart.mapper
        &&& same_memories(s.mem.cart, f.mem.cart)
        &&& f.mem.vram == s.mem.vram
        &&& f.mem.accesses == s.mem.accesses
        &&& f.ppu@ == s.ppu@
        &&& f.joypad1 == s.joypad1
    }
}

/// A CPU write of `data` to `addr` on the caught-up bus `s` leaves the
/// PPU, the controller and the PPU's side of the bus as `f` holds them.
pub open spec fn write_to(s: SyncBus, addr: u16, data: u8, f: SyncBus) -> bool {
    let reg = addr % 8;
    if addr <= 0x1FFF {
        f.ppu@ == s.ppu@ && f.mem == s.mem && f.joypad1 == s.joypad1
    } else if addr <= 0x3FFF {
        &&& f.joypad1 == s.joypad1
        &&& if reg == 7 {
            &&& f.ppu@ == s.ppu@.ppudata_written(data)
            &&& f.mem.accesses@ == if s.ppu@.v & 0x3FFF < 0x3F00 {
                s.mem.accesses@.push(Access::Write(s.ppu@.v & 0x3FFF, data))
            } else {
                s.mem.accesses@
            }
        } else {
            &&& f.mem == s.mem
            &&& f.ppu@ == if reg == 0 {
                s.ppu@.ctrl_written(data)
            } else if reg == 1 {
                ppu::PpuView { mask: data, ..s.ppu@ }
            } else if reg == 3 {
                ppu::PpuView { oamaddr: data, ..s.ppu@ }
            } else if reg == 4 {
                s.ppu@.oamdata_written(data)
            } else if reg == 5 {
                s.ppu@.scroll_written(data)
            } else if reg == 6 {
                s.ppu@.addr_written(data)
            } else {
                s.ppu@
            }
        }
    } else if addr == JOYPAD1_ADDR {
        &&& f.joypad1.current() == s.joypad1.current()
        &&& f.joypad1.snapshot() == if data % 2 == 1 { s.joypad1.current() } else { s.joypad1.snapshot() }
        &&& f.ppu@ == s.ppu@
        &&& f.mem == s.mem
    } else if addr <= 0x401F {
        f.ppu@ == s.ppu@ && f.mem == s.mem && f.joypad1 == s.joypad1
    } else {
        &&& f.mem.cart.mapper == s.mem.cart.mapper.cpu_write_spec(addr, data).1
        &&& f.mem.cart.prgram@ == match s.mem.cart.mapper.cpu_write_spec(addr, data).0 {
            nescart::mapper::MappedCpuWrite::PrgRam(o, d) => s.mem.cart.prgram@.update(o as int, d),
            nescart::mapper::MappedCpuWrite::Other => s.mem.cart.prgram@,
        }
        &&& f.mem.cart.prgrom@ == s.mem.cart.prgrom@
        &&& f.mem.cart.chrrom@ == s.mem.cart.chrrom@
        &&& f.mem.cart.chrram@ == s.mem.cart.chrram@
        &&& f.mem.vram == s.mem.vram
        &&& f.mem.accesses == s.mem.accesses
        &&& f.ppu@ == s.ppu@
        &&& f.joypad1 == s.joypad1
    }
}

impl SyncBus {
    /// Lets one CPU cycle pass for the PPU and the cartridge.
    pub fn sync_with_cpu(&mut self)
        requires
            old(self).mem.cart.wf(),
            old(self).ppu@.wf(),
        ensures
            final(self).ppu@.wf(),
            synced(*old(self), *final(self)),
            final(self).start == old(self).start,
            final(self).start_at == old(self).start_at,
    {
        self.ppu.cpu_step(&mut self.mem);
        proof {
            self.mem.cart.lemma_wf(0, 0);
        }
        self.mem.cart.cpu_step();
    }
}

impl cpu::Bus for SyncBus {
    type Origin = (Option<SyncBus>, int);

    /// Where the current run started.
    open spec fn origin(&self) -> (Option<SyncBus>, int) {
        (self.start@, self.start_at@)
    }

    open spec fn ready(&self) -> bool {
        self.mem.cart.wf() && self.ppu@.wf() && ram_consistent(*self) && runs_from(*self)
    }

    open spec fn trace(&self) -> Seq<Access> {
        self.accesses@
    }

    open spec fn memories(&self) -> Seq<Seq<u8>> {
        cart_memories(self.mem.cart)
    }

    /// The PPU raises NMI in vertical blank when PPUCTRL enables it.
    open spec fn nmi_line(&self) -> bool {
        self.ppu@.stat_has(ppu::registers::STAT_VBLANK) && self.ppu@.ctrl_has(ppu::registers::CTRL_NMI_ENABLE)
    }

    /// The cartridge's board drives IRQ.
    open spec fn irq_line(&self) -> bool {
        self.mem.cart.mapper.irq_spec()
    }

    fn nmi_active(&self) -> (r: bool) {
        self.ppu.nmi_active()
    }

    fn irq_active(&self) -> (r: bool) {
        self.mem.cart.irq_active()
    }

    /// One CPU read cycle, after the PPU and the cartridge caught up.
    fn read(&mut self, addr: u16) -> (r: u8)
        ensures
            addr <= 0x1FFF ==> r == old(self).wram@[(addr % 0x800) as int],
            0x4000 <= addr <= 0x401F && addr != JOYPAD1_ADDR ==> r == 0,
            addr == JOYPAD1_ADDR ==> r == old(self).joypad1.snapshot() & 1,
            addr >= 0x4020 ==> r == final(self).mem.cart.cpu_read_spec(addr),
            final(self).wram == old(self).wram,
            exists|s: SyncBus| #[trigger] synced(*old(self), s) && read_from(s, addr, r, *final(self)),
    {
        self.sync_with_cpu();
        let ghost s: SyncBus = *self;

        let r: u8 = if addr <= 0x1FFF {
            self.wram[(addr % 0x800) as usize]
        } else if addr <= 0x3FFF {
            let reg: u16 = addr % 8;
            if reg == 2 {
                self.ppu.read_ppustat()
            } else if reg == 4 {
                self.ppu.read_oamdata()
            } else if reg == 7 {
                self.ppu.read_ppudata(&mut self.mem)
            } else {
                0x00
            }
        } else if addr == JOYPAD1_ADDR {
            self.joypad1.read()
        } else if addr <= 0x401F {
            0x00
        } else {
            proof {
                self.mem.cart.lemma_wf(addr, 0);
            }
            self.mem.cart.cpu_read(addr)
        };
        let ghost b0 = *old(self);
        self.accesses = Ghost(self.accesses@.push(Access::Read(addr, r)));
        proof {
            lemma_ram_push(b0, *self, Access::Read(addr, r));
        }
        assert(synced(*old(self), s) && read_from(s, addr, r, *self));
        proof {
            assert(bus_link(b0, Access::Read(addr, r), *self));
            lemma_run_push(b0, *self, Access::Read(addr, r));
        }
        r
    }

    /// One CPU write cycle, after the PPU and the cartridge caught up.
    fn write(&mut self, addr: u16, data: u8)
        ensures
            addr <= 0x1FFF ==> final(self).wram@ == old(self).wram@.update((addr % 0x800) as int, data),
            addr > 0x1FFF ==> final(self).wram == old(self).wram,
            exists|s: SyncBus| #[trigger] synced(*old(self), s) && write_to(s, addr, data, *final(self)),
    {
        self.sync_with_cpu();
        let ghost s: SyncBus = *self;

        if addr <= 0x1FFF {
            self.wram[(addr % 0x800) as usize] = data;
        } else if addr <= 0x3FFF {
            let reg: u16 = addr % 8;
            if reg == 0 {
                self.ppu.write_ppuctrl(data);
            } else if reg == 1 {
                self.ppu.write_ppumask(data);
            } else if reg == 3 {
                self.ppu.write_oamaddr(data);
            } else if reg == 4 {
                self.ppu.write_oamdata(data);
            } else if reg == 5 {
                self.ppu.write_ppuscrl(data);
            } else if reg == 6 {
                self.ppu.write_ppuaddr(data);
            } else if reg == 7 {
                self.ppu.write_ppudata(&mut self.mem, data);
            }
        } else if addr == JOYPAD1_ADDR {
            if data % 2 == 1 {
                self.joypad1.strobo();
            }
        } else if addr <= 0x401F {
        } else {
            proof {
                self.mem.cart.lemma_wf(addr, data);
            }
            self.mem.cart.cpu_write(addr, data);
        }
        let ghost b0 = *old(self);
        self.accesses = Ghost(self.accesses@.push(Access::Write(addr, data)));
        proof {
            lemma_ram_push(b0, *self, Access::Write(addr, data));
        }
        assert(synced(*old(self), s) && write_to(s, addr, data, *self));
        proof {
            assert(bus_link(b0, Access::Write(addr, data), *self));
            lemma_run_push(b0, *self, Access::Write(addr, data));
        }
    }
}

/// The console: the CPU and everything on its bus.
#[derive(Clone)]
pub struct Nes {
    pub cpu: Cpu,
    pub bus: SyncBus,
}

impl Nes {
    /// What every state of the console satisfies.
    pub open spec fn wf(&self) -> bool {
        self.bus.mem.cart.wf() && self.bus.ppu@.wf() && ram_consistent(self.bus)
    }

    /// A console at power-up with no cartridge.
    pub fn new() -> (r: Self)
        ensures
            r.wf(),
            r.bus.mem.cart.mapper is Empty,
            r.cpu@.total_cycle == 0,
            r.bus.wram@ == Seq::new(RAM_SIZE as nat, |i: int| 0u8),
            r.bus.mem.vram@ == Seq::new(RAM_SIZE as nat, |i: int| 0u8),
    {
        let r = Self {
            cpu: Cpu::new(),
            bus: SyncBus {
                mem: PpuBus { cart: NesCart::empty(), vram: [0u8; RAM_SIZE], accesses: Ghost(Seq::empty()) },
                wram: [0u8; RAM_SIZE],
                ppu: Ppu::new(),
                joypad1: Joypad::default(),
                accesses: Ghost(Seq::empty()),
                ram0: Ghost(Seq::new(RAM_SIZE as nat, |i: int| 0u8)),
                start: Ghost(None),
                start_at: Ghost(0),
            },
        };
        assert(r.bus.wram@ =~= Seq::new(RAM_SIZE as nat, |i: int| 0u8));
        assert(r.bus.mem.vram@ =~= Seq::new(RAM_SIZE as nat, |i: int| 0u8));
        r
    }

    /// Resets the PPU, then runs the CPU's reset sequence.
    pub fn reset(&mut self)
        requires
            old(self).wf(),
            old(self).cpu@.total_cycle <= CYCLE_CEILING,
        ensures
            final(self).wf(),
            resets_to(*old(self), *final(self)),
    {
        self.bus.ppu.reset();
        self.mark();
        self.cpu.reset(&mut self.bus);
    }

    /// Marks the bus where it stands: the run that follows is told from
    /// here.
    fn mark(&mut self)
        requires
            old(self).wf(),
        ensures
            final(self).wf(),
            final(self).cpu == old(self).cpu,
            final(self).bus == marked(old(self).bus),
            cpu::Bus::ready(&final(self).bus),
    {
        let ghost b0: SyncBus = self.bus;
        self.bus.start = Ghost(Some(b0));
        self.bus.start_at = Ghost(b0.accesses@.len() as int);
        proof {
            lemma_marked_runs(b0);
        }
    }

    /// Runs one CPU instruction, with everything on the bus keeping pace.
    pub fn step(&mut self)
        requires
            old(self).wf(),
            old(self).cpu@.total_cycle <= CYCLE_CEILING,
        ensures
            final(self).wf(),
            final(self).cpu@.total_cycle <= old(self).cpu@.total_cycle + 24 * ACCESS_CYCLES,
            cpu::trace::extends(old(self).bus.accesses@, final(self).bus.accesses@),
            steps_to(*old(self), *final(self)),
    {
        self.mark();
        self.cpu.step(&mut self.bus);
        proof {
            let b = self.bus;
            let h = choose|h: Seq<SyncBus>| #[trigger] bus_run(h, b.accesses@, b.start_at@)
                && b.start@ == Some(h[0]) && same_state(h.last(), b);
            assert(h[0] == old(self).bus);
            assert(bus_run(h, b.accesses@, old(self).bus.accesses@.len() as int));
            assert(bus_runs(old(self).bus, old(self).bus.ppu@, self.bus));
            let a = *old(self);
            let nmi = cpu::nmi_taken(a.cpu@, a.bus.nmi_line());
            assert(exists|irq: bool| #[trigger] cpu::stepped(a.cpu, self.cpu, nmi, irq, a.bus.accesses@, self.bus.accesses@));
            assert(!nmi ==> self.cpu@.prev_nmi == a.bus.nmi_line());
            assert(self.cpu@.total_cycle == a.cpu@.total_cycle + (self.bus.accesses@.len() - a.bus.accesses@.len()));
        }
    }

    /// Runs instructions until the PPU has a frame ready, at most
    /// `max_steps` of them; returns whether a frame is ready.
    pub fn step_frame(&mut self, max_steps: u32) -> (r: bool)
        requires
            old(self).wf(),
            old(self).cpu@.total_cycle <= CYCLE_CEILING - max_steps * 24 * ACCESS_CYCLES,
        ensures
            final(self).wf(),
            final(self).cpu@.total_cycle <= old(self).cpu@.total_cycle + max_steps * 24 * ACCESS_CYCLES,
            r == final(self).bus.ppu@.is_frame_ready,
            exists|run: Seq<Nes>| {
                &&& #[trigger] run.len() >= 1
                &&& run[0] == *old(self)
                &&& run.last() == *final(self)
                &&& run.len() - 1 <= max_steps
                &&& !r ==> run.len() - 1 == max_steps
                &&& frame_run(run)
            },
    {
        let mut n: u32 = 0;
        let ghost mut run: Seq<Nes> = seq![*self];
        while n < max_steps && !self.bus.ppu.is_frame_ready()
            invariant
                n <= max_steps,
                self.wf(),
                self.cpu@.total_cycle <= CYCLE_CEILING - (max_steps - n) * 24 * ACCESS_CYCLES,
                self.cpu@.total_cycle <= old(self).cpu@.total_cycle + n * 24 * ACCESS_CYCLES,
                run.len() == n + 1,
                run[0] == *old(self),
                run.last() == *self,
                frame_run(run),
            decreases max_steps - n,
        {
            self.step();
            proof {
                lemma_frame_run_push(run, *self);
                run = run.push(*self);
            }
            n = n + 1;
        }
        let ready = self.bus.ppu.is_frame_ready();
        assert(run.len() >= 1);
        ready
    }

    /// Inserts a cartridge.
    pub fn load_cart(&mut self, cart: NesCart)
        requires
            old(self).wf(),
            cart.wf(),
        ensures
            final(self).wf(),
            final(self).bus.mem.cart == cart,
            *final(self) == old(self).with_cart(cart),
            final(self).bus.mem.vram == old(self).bus.mem.vram,
            final(self).cpu == old(self).cpu,
            final(self).bus.wram == old(self).bus.wram,
            final(self).bus.joypad1 == old(self).bus.joypad1,
            final(self).bus.ppu == old(self).bus.ppu,
    {
        self.bus.mem.cart = cart;
    }

    /// Removes the cartridge.
    pub fn unload_cart(&mut self)
        requires
            old(self).wf(),
        ensures
            final(self).wf(),
            final(self).bus.mem.cart.mapper is Empty,
            final(self).bus.mem.cart.prgrom@.len() == 0,
            final(self).bus.mem.cart.prgram@.len() == 0,
            final(self).bus.mem.cart.chrrom@.len() == 0,
            final(self).bus.mem.cart.chrram@.len() == 0,
            final(self).bus.mem.vram == old(self).bus.mem.vram,
            final(self).cpu == old(self).cpu,
            final(self).bus.wram == old(self).bus.wram,
            final(self).bus.joypad1 == old(self).bus.joypad1,
            final(self).bus.ppu == old(self).bus.ppu,
    {
        self.bus.mem.cart = NesCart::empty();
    }

    /// Records the buttons held on the first controller.
    pub fn update_joypad1(&mut self, v: u8)
        requires
            old(self).wf(),
        ensures
            final(self).wf(),
            final(self).bus.joypad1.current() == v,
            final(self).bus.joypad1.snapshot() == old(self).bus.joypad1.snapshot(),
            final(self).cpu == old(self).cpu,
            final(self).bus.mem == old(self).bus.mem,
            final(self).bus.wram == old(self).bus.wram,
            final(self).bus.ppu == old(self).bus.ppu,
    {
        self.bus.joypad1.update(v);
    }

    /// Writes the RGBA picture of the last complete frame into `buffer`.
    pub fn output_frame(&mut self, buffer: &mut [u8])
        requires
            old(self).wf(),
            old(buffer)@.len() >= ppu::DISPLAY_SIZE,
        ensures
            final(self).wf(),
            final(self).cpu == old(self).cpu,
            final(self).bus.mem == old(self).bus.mem,
            final(self).bus.wram == old(self).bus.wram,
            final(self).bus.joypad1 == old(self).bus.joypad1,
            final(self).bus.ppu@ == (ppu::PpuView { is_frame_ready: false, ..old(self).bus.ppu@ }),
            final(buffer)@.len() == old(buffer)@.len(),
            final(buffer)@.subrange(0, ppu::DISPLAY_SIZE as int) == ppu::rgba_of(old(self).bus.ppu@.frontframe),
    {
        self.bus.ppu.output_frame(buffer);
    }

    /// The RGBA picture of the frame being drawn.
    pub fn display_buffer(&self) -> (r: Vec<u8>)
        requires
            self.wf(),
        ensures
            r@ == ppu::rgba_of(self.bus.ppu@.backframe),
    {
        self.bus.ppu.display_buffer()
    }
}

impl Nes {
    /// This console with cartridge `c` inserted.
    pub open spec fn with_cart(self, c: NesCart) -> Nes {
        Nes { bus: SyncBus { mem: PpuBus { cart: c, ..self.bus.mem }, ..self.bus }, ..self }
    }
}

/// A reset of the console from `a` to `b`: the CPU's reset sequence, as
/// `reset_run` gives it, over the accesses it added; the cartridge keeps
/// its memories.
pub open spec fn resets_to(a: Nes, b: Nes) -> bool {
    &&& !b.cpu@.is_jammed
    &&& b.cpu@.total_cycle <= a.cpu@.total_cycle + 7 * ACCESS_CYCLES
    &&& b.cpu@.total_cycle == a.cpu@.total_cycle + (b.bus.accesses@.len() - a.bus.accesses@.len())
    &&& cpu::trace::extends(a.bus.accesses@, b.bus.accesses@)
    &&& cpu::trace::reset_run(a.cpu@.reg, a.cpu@.oamdma, a.cpu@.put_cycle, b.bus.accesses@, a.bus.accesses@.len() as int)
        == Some((b.cpu@.reg, b.bus.accesses@.len() as int))
    &&& cart_memories(b.bus.mem.cart) == cart_memories(a.bus.mem.cart)
    &&& bus_runs(a.bus, ppu_reset(a.bus.ppu@), b.bus)
}

/// The PPU after its reset: PPUCTRL, PPUMASK, the write toggle, the
/// PPUDATA buffer and the frame parity cleared.
pub open spec fn ppu_reset(p: ppu::PpuView) -> ppu::PpuView {
    ppu::PpuView { odd_frame: false, write_toggle: false, ctrl: 0, mask: 0, ppudata_buffer: 0, ..p }
}

/// The bus went from `a`, its PPU standing at `p0`, to `b` by the accesses
/// recorded since: a run of states, one per access, each linked to the
/// next as `bus_link` says.
pub open spec fn bus_runs(a: SyncBus, p0: ppu::PpuView, b: SyncBus) -> bool {
    exists|h: Seq<SyncBus>| {
        &&& #[trigger] bus_run(h, b.accesses@, a.accesses@.len() as int)
        &&& h[0].mem == a.mem
        &&& h[0].wram == a.wram
        &&& h[0].joypad1 == a.joypad1
        &&& h[0].accesses == a.accesses
        &&& h[0].ram0 == a.ram0
        &&& h[0].ppu@ == p0
        &&& same_state(h.last(), b)
    }
}

/// One instruction of the console, from `a` to `b`: the CPU steps as
/// `cpu::stepped` says, over the bus accesses it added, taking an NMI on a
/// rising edge of the PPU's line; without one, an IRQ while the board's
/// line is up and I is clear. One cycle per access; a sprite DMA requested
/// before runs, and one is requested by the last write of a page to OAMDMA.
pub open spec fn steps_to(a: Nes, b: Nes) -> bool {
    let nmi = cpu::nmi_taken(a.cpu@, a.bus.nmi_line());
    let n = b.bus.accesses@.len() - a.bus.accesses@.len();
    &&& exists|irq: bool| #[trigger] cpu::stepped(a.cpu, b.cpu, nmi, irq, a.bus.accesses@, b.bus.accesses@)
    &&& !nmi ==> b.cpu@.prev_nmi == a.bus.nmi_line()
        && cpu::stepped(a.cpu, b.cpu, false, cpu::irq_taken(a.cpu@, a.bus.irq_line()), a.bus.accesses@, b.bus.accesses@)
    &&& b.cpu@.total_cycle == a.cpu@.total_cycle + n
    &&& b.cpu@.put_cycle == (a.cpu@.put_cycle != (n % 2 == 1))
    &&& (a.cpu@.oamdma is Pending || a.cpu@.oamdma is Active) ==> b.cpu@.oamdma is Active
    &&& a.cpu@.oamdma is Disabled ==> b.cpu@.oamdma == cpu::trace::dma_after(cpu::OamDmaStat::Disabled, a.bus.accesses@, b.bus.accesses@)
    &&& bus_runs(a.bus, a.bus.ppu@, b.bus)
}

/// Consecutive console states, each one instruction after the one before,
/// and no frame ready before the last.
pub open spec fn frame_run(run: Seq<Nes>) -> bool {
    forall|i: int| 0 <= i < run.len() - 1 ==> #[trigger] frame_link(run, i)
}

/// Step `i` of `run`: no frame is ready at `run[i]`, and one instruction
/// leads to `run[i + 1]`.
pub open spec fn frame_link(run: Seq<Nes>, i: int) -> bool {
    !run[i].bus.ppu@.is_frame_ready && steps_to(run[i], run[i + 1])
}

/// A run extends by one instruction from a last state with no frame ready.
proof fn lemma_frame_run_push(run: Seq<Nes>, next: Nes)
    requires
        run.len() >= 1,
        frame_run(run),
        !run.last().bus.ppu@.is_frame_ready,
        steps_to(run.last(), next),
    ensures
        frame_run(run.push(next)),
{
    let r2 = run.push(next);
    assert forall|i: int| 0 <= i < r2.len() - 1 implies #[trigger] frame_link(r2, i) by {
        if i < run.len() - 1 {
            assert(frame_link(run, i));
            assert(r2[i] == run[i] && r2[i + 1] == run[i + 1]);
        } else {
            assert(r2[i] == run.last() && r2[i + 1] == next);
        }
    }
}

/// Nametable RAM: on a cartridge with a board, after the PPU writes `data`
/// to a nametable address (`0x2000..0x3F00`, whose upper part mirrors the
/// lower), a read of the same address gives `data` back.
pub proof fn lemma_nametable_read_after_write(before: PpuBus, after: PpuBus, addr: u16, data: u8)
    requires
        before.cart.wf(),
        !(before.cart.mapper is Empty),
        0x2000 <= addr & 0x3FFF < 0x3F00,
        after.vram@ == before.vram_written(addr, data),
        after.cart.mapper == before.cart.mapper.ppu_write_spec(ppu_bus_addr(addr), data).1,
    ensures
        after.read_spec(addr) == data,
{
    let a = ppu_bus_addr(addr);
    before.cart.mapper.lemma_nametable(a, data);
}

/// Work RAM is 2 KiB mirrored through `0x0000..0x2000`: after the CPU
/// writes `data` at `waddr`, a read of any address that lands on the same
/// cell gives `data` back, and the other cells keep their bytes.
pub proof fn lemma_wram_read_after_write(before: SyncBus, after: SyncBus, waddr: u16, data: u8, raddr: u16)
    requires
        waddr <= 0x1FFF,
        raddr <= 0x1FFF,
        after.wram@ == before.wram@.update((waddr % 0x800) as int, data),
    ensures
        raddr % 0x800 == waddr % 0x800 ==> after.wram@[(raddr % 0x800) as int] == data,
        raddr % 0x800 != waddr % 0x800 ==> after.wram@[(raddr % 0x800) as int] == before.wram@[(raddr % 0x800) as int],
{
}

/// `x` writes work RAM cell `c`.
pub open spec fn writes_cell(x: Access, c: int) -> bool {
    x matches Access::Write(a, _) && a <= 0x1FFF && ram_cell(a) == c
}

/// The writes keep the size of the work RAM.
proof fn lemma_ram_after_len(m: Seq<u8>, t: Seq<Access>)
    requires
        m.len() == RAM_SIZE,
    ensures
        ram_after(m, t).len() == m.len(),
    decreases t.len(),
{
    if t.len() > 0 {
        lemma_ram_after_len(m, t.drop_last());
    }
}

/// Accesses that do not write cell `c` leave it as it was.
proof fn lemma_ram_after_untouched(m: Seq<u8>, t: Seq<Access>, j: int, i: int, c: int)
    requires
        0 <= j <= i <= t.len(),
        m.len() == RAM_SIZE,
        0 <= c < m.len(),
        forall|k: int| j <= k < i ==> !#[trigger] writes_cell(t[k], c),
    ensures
        ram_after(m, t.take(i))[c] == ram_after(m, t.take(j))[c],
    decreases i - j,
{
    if i > j {
        lemma_ram_after_untouched(m, t, j, i - 1, c);
        assert(t.take(i).drop_last() =~= t.take(i - 1));
        assert(!writes_cell(t[i - 1], c));
        lemma_ram_after_len(m, t.take(i - 1));
    }
}

/// What a read of work RAM gives back: the byte of the last write to the
/// same cell before it (through any of the mirrors), or the byte the cell
/// held at power-up when there was none.
pub proof fn lemma_ram_read_gives_last_write(b: SyncBus, i: int)
    requires
        ram_consistent(b),
        0 <= i < b.accesses@.len(),
        b.accesses@[i] matches Access::Read(a, _) && a <= 0x1FFF,
    ensures
        ({
            let t = b.accesses@;
            let a = t[i]->Read_0;
            let v = t[i]->Read_1;
            &&& forall|j: int| 0 <= j < i && #[trigger] writes_cell(t[j], ram_cell(a))
                && (forall|k: int| j < k < i ==> !#[trigger] writes_cell(t[k], ram_cell(a)))
                ==> v == t[j]->Write_1
            &&& (forall|k: int| 0 <= k < i ==> !#[trigger] writes_cell(t[k], ram_cell(a))) ==> v == b.ram0@[ram_cell(a)]
        }),
{
    let t = b.accesses@;
    let a = t[i]->Read_0;
    let c = ram_cell(a);
    assert(ram_read_ok(b.ram0@, t, i));
    assert forall|j: int| 0 <= j < i && #[trigger] writes_cell(t[j], c)
        && (forall|k: int| j < k < i ==> !#[trigger] writes_cell(t[k], c))
        implies t[i]->Read_1 == t[j]->Write_1 by {
        lemma_ram_after_untouched(b.ram0@, t, j + 1, i, c);
        assert(t.take(j + 1).drop_last() =~= t.take(j));
        lemma_ram_after_len(b.ram0@, t.take(j));
    }
    if forall|k: int| 0 <= k < i ==> !#[trigger] writes_cell(t[k], c) {
        lemma_ram_after_untouched(b.ram0@, t, 0, i, c);
        assert(t.take(0) =~= Seq::<Access>::empty());
    }
}

} // verus!
