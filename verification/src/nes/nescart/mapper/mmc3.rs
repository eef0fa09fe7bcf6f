use vstd::prelude::*;
use super::logic::{MapperLogic, MappedCpuRead, MappedCpuWrite, MappedPpuRead, MappedPpuWrite};
use super::MapperArgs;
use crate::nes::nescart::mirroring::{Mirroring, VramTarget, resolve_spec};

verus! {

/// Size of a switchable PRG-ROM bank.
pub const PRGBANK_SIZE: u32 = 0x2000;
/// Size of a switchable CHR bank.
pub const CHRBANK_SIZE: u32 = 0x400;

/// Mapper 4 (MMC3): eight bank registers and a scanline counter clocked by
/// rising edges of PPU address line A12.
#[derive(Debug, Clone, Copy)]
pub struct Mmc3 {
    pub mirroring: Mirroring,
    pub is_fourscreen: bool,
    pub prgram_size: u32,
    pub prgrom_size: u32,
    pub chrrom_size: u32,
    pub chrram_size: u32,

    pub bankselect: u8,
    pub prgswap: bool,
    pub chrswap: bool,
    pub r: [u8; 8],
    pub prgram_denywrite: bool,
    pub prgram_enable: bool,
    pub irq_latch: u8,
    pub irq_counter: u8,
    pub irq_enable: bool,
    pub require_reload: bool,
    pub a12_streak: u8,
}

impl Mmc3 {
    pub open spec fn mirroring(self) -> Mirroring {
        self.mirroring
    }

    pub open spec fn irq_latch(self) -> u8 {
        self.irq_latch
    }

    pub open spec fn irq_counter(self) -> u8 {
        self.irq_counter
    }

    pub open spec fn irq_enable(self) -> bool {
        self.irq_enable
    }

    pub open spec fn require_reload(self) -> bool {
        self.require_reload
    }

    pub open spec fn a12_streak(self) -> u8 {
        self.a12_streak
    }

    pub open spec fn sizes(self) -> (u32, u32, u32, u32) {
        (self.prgram_size, self.prgrom_size, self.chrrom_size, self.chrram_size)
    }

    /// The state after the CPU writes `data` to the register `addr` selects
    /// (by bits 15, 14 and 0 of the address).
    pub open spec fn controlled(self, addr: u16, data: u8) -> Self {
        let a = addr & 0x8000 != 0;
        let b = addr & 0x4000 != 0;
        let c = addr & 0x0001 != 0;
        if !a && !b && !c {
            Mmc3 { bankselect: data & 0x7, prgswap: data & 0x40 != 0, chrswap: data & 0x80 != 0, ..self }
        } else if !a && !b && c {
            Mmc3 { r: vstd::array::spec_array_update(self.r, self.bankselect as int, data), ..self }
        } else if !a && b && !c {
            if !self.is_fourscreen {
                Mmc3 {
                    mirroring: if data & 0x01 != 0 { Mirroring::Horizontal } else { Mirroring::Vertical },
                    ..self
                }
            } else {
                self
            }
        } else if !a && b && c {
            Mmc3 { prgram_denywrite: data & 0x40 != 0, prgram_enable: data & 0x80 != 0, ..self }
        } else if a && !b && !c {
            Mmc3 { irq_latch: data, ..self }
        } else if a && !b && c {
            Mmc3 { require_reload: true, ..self }
        } else if a && b && !c {
            Mmc3 { irq_enable: false, ..self }
        } else {
            Mmc3 { irq_enable: true, ..self }
        }
    }

    /// The state after the PPU puts `addr` on its bus: after at least three
    /// accesses with A12 low, an access with A12 high clocks the counter
    /// (reloading it from the latch when it is zero or a reload is pending,
    /// decrementing it otherwise).
    pub open spec fn observed(self, addr: u16) -> Self {
        let a12_active = addr & 0x1000 != 0;
        let clocked = if 3 <= self.a12_streak && a12_active {
            if self.irq_counter == 0 || self.require_reload {
                Mmc3 { require_reload: false, irq_counter: self.irq_latch, ..self }
            } else {
                Mmc3 { irq_counter: (self.irq_counter - 1) as u8, ..self }
            }
        } else {
            self
        };
        Mmc3 {
            a12_streak: if a12_active { 0 } else { ((self.a12_streak + 1) % 256) as u8 },
            ..clocked
        }
    }

    /// The address after the PRG swap (`0x8000` and `0xC000` windows
    /// exchanged when `prgswap` is set).
    pub open spec fn prg_swapped(self, addr: u16) -> u16 {
        if !self.prgswap {
            addr
        } else if 0x8000 <= addr <= 0x9FFF {
            (addr + 0x4000) as u16
        } else if 0xC000 <= addr <= 0xDFFF {
            (addr - 0x4000) as u16
        } else {
            addr
        }
    }

    /// Whether the PRG-ROM offset of `addr` can be computed: the windows
    /// fixed to the end of the ROM need a ROM that large.
    pub open spec fn prgrom_addr_ok(self, addr: u16) -> bool {
        let s = self.prg_swapped(addr);
        &&& 0xC000 <= s <= 0xDFFF ==> self.prgrom_size >= PRGBANK_SIZE * 2
        &&& 0xE000 <= s ==> self.prgrom_size >= PRGBANK_SIZE
    }

    /// The PRG-ROM offset of a CPU address in `0x8000..`.
    pub open spec fn prgrom_addr_spec(self, addr: u16) -> u32 {
        let s = self.prg_swapped(addr);
        let base: u32 = if s <= 0x9FFF {
            (self.r[6] * PRGBANK_SIZE) as u32
        } else if s <= 0xBFFF {
            (self.r[7] * PRGBANK_SIZE) as u32
        } else if s <= 0xDFFF {
            (self.prgrom_size - PRGBANK_SIZE * 2) as u32
        } else {
            (self.prgrom_size - PRGBANK_SIZE) as u32
        };
        base | (addr as u32 & 0x1FFF)
    }

    /// The CHR offset of a PPU address in `0x0000..0x2000`.
    pub open spec fn chrrom_addr_spec(self, addr: u16) -> int {
        let s = if self.chrswap { (addr + 0x1000) % 0x2000 } else { addr as int };
        let base = if s <= 0x07FF {
            (self.r[0] & 0xFE) * CHRBANK_SIZE
        } else if s <= 0x0FFF {
            (self.r[1] & 0xFE) * CHRBANK_SIZE
        } else if s <= 0x13FF {
            self.r[2] * CHRBANK_SIZE
        } else if s <= 0x17FF {
            self.r[3] * CHRBANK_SIZE
        } else if s <= 0x1BFF {
            self.r[4] * CHRBANK_SIZE
        } else {
            self.r[5] * CHRBANK_SIZE
        };
        let offset = if s <= 0x0FFF { addr % 0x800 } else { addr % 0x400 };
        base + offset
    }

    /// The board as built from `args`: bank registers 0, PRG-RAM disabled
    /// and write-protected, IRQ counter idle.
    pub open spec fn built(args: MapperArgs) -> Self {
        Mmc3 {
            mirroring: if args.alternative_nt {
                Mirroring::FourScreen
            } else if args.vertical_nt {
                Mirroring::Vertical
            } else {
                Mirroring::Horizontal
            },
            is_fourscreen: args.alternative_nt,
            prgram_size: args.prgram_size,
            prgrom_size: args.prgrom_size,
            chrrom_size: args.chrrom_size,
            chrram_size: args.chrram_size,
            bankselect: 0,
            prgswap: false,
            chrswap: false,
            r: [0u8, 0u8, 0u8, 0u8, 0u8, 0u8, 0u8, 0u8],
            prgram_denywrite: true,
            prgram_enable: false,
            irq_latch: 0,
            irq_counter: 0,
            irq_enable: false,
            require_reload: false,
            a12_streak: 0,
        }
    }

    pub fn new(args: MapperArgs) -> (r: Self)
        ensures
            r == Self::built(args),
            r.inv(),
            r.mirroring() == (if args.alternative_nt {
                Mirroring::FourScreen
            } else if args.vertical_nt {
                Mirroring::Vertical
            } else {
                Mirroring::Horizontal
            }),
            r.sizes() == (args.prgram_size, args.prgrom_size, args.chrrom_size, args.chrram_size),
            r.irq_latch() == 0,
            r.irq_counter() == 0,
            !r.irq_enable(),
            !r.require_reload(),
            r.a12_streak() == 0,
    {
        let mirroring = if args.alternative_nt {
            Mirroring::FourScreen
        } else if args.vertical_nt {
            Mirroring::Vertical
        } else {
            Mirroring::Horizontal
        };

        Self {
            mirroring,
            is_fourscreen: args.alternative_nt,
            prgram_size: args.prgram_size,
            prgrom_size: args.prgrom_size,
            chrrom_size: args.chrrom_size,
            chrram_size: args.chrram_size,
            bankselect: 0x00,
            prgswap: false,
            chrswap: false,
            r: [0x00, 0x00, 0x00, 0x00, 0x00, 0x00, 0x00, 0x00],
            prgram_denywrite: true,
            prgram_enable: false,
            irq_latch: 0x00,
            irq_counter: 0x00,
            irq_enable: false,
            require_reload: false,
            a12_streak: 0,
        }
    }

    /// A CPU write to the mapper's registers.
    fn control_by_cpu(&mut self, addr: u16, data: u8)
        requires
            old(self).bankselect < 8,
        ensures
            *final(self) == old(self).controlled(addr, data),
            final(self).bankselect < 8,
    {
        proof {
            crate::bits::lemma_u8_field_bounds();
        }
        let a: bool = addr & 0x8000 != 0;
        let b: bool = addr & 0x4000 != 0;
        let c: bool = addr & 0x0001 != 0;
        if !a && !b && !c {
            // Bank select
            self.bankselect = data & 0x7;
            self.prgswap = data & 0x40 != 0;
            self.chrswap = data & 0x80 != 0;
        } else if !a && !b && c {
            // Bank data
            let i: usize = self.bankselect as usize;
            self.r[i] = data;
        } else if !a && b && !c {
            // Nametable arrangement
            if !self.is_fourscreen {
                self.mirroring = if data & 0x01 != 0 {
                    Mirroring::Horizontal
                } else {
                    Mirroring::Vertical
                };
            }
        } else if !a && b && c {
            // PrgRam protect
            self.prgram_denywrite = data & 0x40 != 0;
            self.prgram_enable = data & 0x80 != 0;
        } else if a && !b && !c {
            // IRQ latch
            self.irq_latch = data;
        } else if a && !b && c {
            // IRQ reload
            self.require_reload = true;
        } else if a && b && !c {
            // IRQ disable
            self.irq_enable = false;
        } else {
            // IRQ enable
            self.irq_enable = true;
        }
    }

    /// Watches the PPU address bus for A12 edges.
    fn observe_ppu(&mut self, addr: u16)
        ensures
            *final(self) == old(self).observed(addr),
    {
        let a12_active: bool = addr & 0x1000 != 0;

        // Valid edge
        if 3 <= self.a12_streak && a12_active {
            if self.irq_counter == 0 || self.require_reload {
                self.require_reload = false;
                self.irq_counter = self.irq_latch;
            } else {
                self.irq_counter = self.irq_counter.wrapping_sub(1);
            }
        }

        if a12_active {
            self.a12_streak = 0;
        } else {
            self.a12_streak = self.a12_streak.wrapping_add(1);
        }
    }

    /// The PRG-ROM offset of a CPU address in `0x8000..`.
    fn prgrom_addr(&self, addr: u16) -> (r: u32)
        requires
            addr >= 0x8000,
            self.prgrom_addr_ok(addr),
        ensures
            r == self.prgrom_addr_spec(addr),
    {
        let swapped_addr: u16 = if !self.prgswap {
            addr
        } else if 0x8000 <= addr && addr <= 0x9FFF {
            addr + 0x4000
        } else if 0xC000 <= addr && addr <= 0xDFFF {
            addr - 0x4000
        } else {
            addr
        };

        let base_addr: u32 = if swapped_addr <= 0x9FFF {
            self.r[6] as u32 * PRGBANK_SIZE
        } else if swapped_addr <= 0xBFFF {
            self.r[7] as u32 * PRGBANK_SIZE
        } else if swapped_addr <= 0xDFFF {
            self.prgrom_size - PRGBANK_SIZE * 2
        } else {
            self.prgrom_size - PRGBANK_SIZE
        };

        base_addr | (addr as u32 & 0x1FFF)
    }

    /// The CHR offset of a PPU address in `0x0000..0x2000`.
    fn chrrom_addr(&self, addr: u16) -> (r: u32)
        requires
            addr <= 0x1FFF,
        ensures
            r == self.chrrom_addr_spec(addr),
    {
        let swapped_addr: u16 = if self.chrswap {
            (addr + 0x1000) % 0x2000
        } else {
            addr
        };

        let base_addr: u32 = if swapped_addr <= 0x07FF {
            (self.r[0] & 0xFE) as u32 * CHRBANK_SIZE
        } else if swapped_addr <= 0x0FFF {
            (self.r[1] & 0xFE) as u32 * CHRBANK_SIZE
        } else if swapped_addr <= 0x13FF {
            self.r[2] as u32 * CHRBANK_SIZE
        } else if swapped_addr <= 0x17FF {
            self.r[3] as u32 * CHRBANK_SIZE
        } else if swapped_addr <= 0x1BFF {
            self.r[4] as u32 * CHRBANK_SIZE
        } else {
            self.r[5] as u32 * CHRBANK_SIZE
        };

        let offset: u32 = if swapped_addr <= 0x0FFF {
            (addr % 0x800) as u32
        } else {
            (addr % 0x400) as u32
        };

        base_addr + offset
    }
}

impl MapperLogic for Mmc3 {
    open spec fn inv(&self) -> bool {
        &&& self.bankselect < 8
        &&& (self.mirroring is FourScreen) == self.is_fourscreen
    }

    open spec fn irq_spec(&self) -> bool {
        self.irq_counter == 0 && self.irq_enable
    }

    open spec fn stepped(&self) -> Self {
        *self
    }

    open spec fn cpu_read_ok(&self, addr: u16) -> bool {
        &&& addr >= 0x4020
        &&& addr >= 0x8000 ==> self.prgrom_addr_ok(addr)
    }

    open spec fn cpu_read_spec(&self, addr: u16) -> MappedCpuRead {
        if addr <= 0x5FFF {
            MappedCpuRead::Openbus
        } else if addr <= 0x7FFF {
            if self.prgram_enable && addr % 0x2000 < self.prgram_size {
                MappedCpuRead::PrgRam((addr % 0x2000) as u32)
            } else {
                MappedCpuRead::Openbus
            }
        } else {
            if self.prgrom_addr_spec(addr) < self.prgrom_size {
                MappedCpuRead::PrgRom(self.prgrom_addr_spec(addr))
            } else {
                MappedCpuRead::Openbus
            }
        }
    }

    open spec fn cpu_write_ok(&self, addr: u16) -> bool {
        addr >= 0x4020
    }

    open spec fn cpu_write_spec(&self, addr: u16, data: u8) -> (MappedCpuWrite, Self) {
        if addr <= 0x5FFF {
            (MappedCpuWrite::Other, *self)
        } else if addr <= 0x7FFF {
            if !self.prgram_denywrite && addr % 0x2000 < self.prgram_size {
                (MappedCpuWrite::PrgRam((addr % 0x2000) as u32, data), *self)
            } else {
                (MappedCpuWrite::Other, *self)
            }
        } else {
            (MappedCpuWrite::Other, self.controlled(addr, data))
        }
    }

    open spec fn ppu_read_ok(&self, addr: u16) -> bool {
        &&& addr <= 0x2FFF
        &&& addr <= 0x1FFF && self.chrrom_size == 0 ==> self.chrram_size != 0
        &&& addr >= 0x2000 ==> resolve_spec(self.mirroring, addr).1 == VramTarget::Internal
    }

    open spec fn ppu_read_spec(&self, addr: u16) -> (MappedPpuRead, Self) {
        let next = self.observed(addr);
        if addr <= 0x1FFF {
            if self.chrrom_size == 0 {
                (MappedPpuRead::ChrRam((self.chrrom_addr_spec(addr) % self.chrram_size as int) as u32), next)
            } else {
                (MappedPpuRead::ChrRom((self.chrrom_addr_spec(addr) % self.chrrom_size as int) as u32), next)
            }
        } else {
            (MappedPpuRead::InternalVram(resolve_spec(self.mirroring, addr).0), next)
        }
    }

    open spec fn ppu_write_ok(&self, addr: u16) -> bool {
        &&& addr <= 0x2FFF
        &&& addr >= 0x2000 ==> resolve_spec(self.mirroring, addr).1 == VramTarget::Internal
    }

    open spec fn ppu_write_spec(&self, addr: u16, data: u8) -> (MappedPpuWrite, Self) {
        let next = self.observed(addr);
        if addr <= 0x1FFF {
            if self.chrram_size != 0 {
                (MappedPpuWrite::ChrRam((self.chrrom_addr_spec(addr) % self.chrram_size as int) as u32, data), next)
            } else {
                (MappedPpuWrite::Other, next)
            }
        } else {
            (MappedPpuWrite::InternalVram(resolve_spec(self.mirroring, addr).0, data), next)
        }
    }

    open spec fn serves(&self, prgrom_len: nat, prgram_len: nat, chrrom_len: nat, chrram_len: nat) -> bool {
        &&& self.inv()
        &&& !self.is_fourscreen
        &&& self.prgram_size <= prgram_len
        &&& PRGBANK_SIZE * 2 <= self.prgrom_size <= prgrom_len
        &&& self.chrrom_size <= chrrom_len
        &&& self.chrram_size <= chrram_len
        &&& (self.chrrom_size != 0 || self.chrram_size != 0)
    }

    proof fn lemma_serves(&self, prgrom_len: nat, prgram_len: nat, chrrom_len: nat, chrram_len: nat, addr: u16, data: u8) {
        crate::bits::lemma_u8_field_bounds();
    }

    fn check_serves(&self, prgrom_len: usize, prgram_len: usize, chrrom_len: usize, chrram_len: usize) -> (r: bool) {
        let four: bool = match self.mirroring {
            Mirroring::FourScreen => true,
            _ => false,
        };
        self.bankselect < 8 && four == self.is_fourscreen && !self.is_fourscreen
            && self.prgram_size as usize <= prgram_len
            && PRGBANK_SIZE * 2 <= self.prgrom_size && self.prgrom_size as usize <= prgrom_len
            && self.chrrom_size as usize <= chrrom_len
            && self.chrram_size as usize <= chrram_len
            && (self.chrrom_size != 0 || self.chrram_size != 0)
    }

    fn irq_active(&self) -> (r: bool) {
        self.irq_counter == 0 && self.irq_enable
    }

    fn cpu_step(&mut self) {
    }

    fn map_cpu_read(&mut self, addr: u16) -> (r: MappedCpuRead) {
        if addr <= 0x5FFF {
            MappedCpuRead::Openbus
        } else if addr <= 0x7FFF {
            if self.prgram_enable {
                let offset: u32 = (addr % 0x2000) as u32;
                if offset < self.prgram_size {
                    return MappedCpuRead::PrgRam(offset);
                }
            }
            MappedCpuRead::Openbus
        } else {
            let offset: u32 = self.prgrom_addr(addr);
            if offset < self.prgrom_size {
                MappedCpuRead::PrgRom(offset)
            } else {
                MappedCpuRead::Openbus
            }
        }
    }

    fn map_cpu_write(&mut self, addr: u16, data: u8) -> (r: MappedCpuWrite) {
        if addr <= 0x5FFF {
            MappedCpuWrite::Other
        } else if addr <= 0x7FFF {
            if !self.prgram_denywrite {
                let offset: u32 = (addr % 0x2000) as u32;
                if offset < self.prgram_size {
                    return MappedCpuWrite::PrgRam(offset, data);
                }
            }
            MappedCpuWrite::Other
        } else {
            self.control_by_cpu(addr, data);
            MappedCpuWrite::Other
        }
    }

    fn map_ppu_read(&mut self, addr: u16) -> (r: MappedPpuRead) {
        let ghost before = *self;
        self.observe_ppu(addr);
        if addr <= 0x1FFF {
            let offset: u32 = self.chrrom_addr(addr);
            assert(offset == before.chrrom_addr_spec(addr));
            if self.chrrom_size == 0 {
                MappedPpuRead::ChrRam(offset % self.chrram_size)
            } else {
                MappedPpuRead::ChrRom(offset % self.chrrom_size)
            }
        } else {
            let (vaddr, target) = self.mirroring.resolve(addr);
            match target {
                VramTarget::Internal => MappedPpuRead::InternalVram(vaddr),
                VramTarget::External => {
                    assert(false);
                    MappedPpuRead::Openbus
                },
            }
        }
    }

    fn map_ppu_write(&mut self, addr: u16, data: u8) -> (r: MappedPpuWrite) {
        let ghost before = *self;
        self.observe_ppu(addr);
        if addr <= 0x1FFF {
            if self.chrram_size != 0 {
                let offset: u32 = self.chrrom_addr(addr);
                assert(offset == before.chrrom_addr_spec(addr));
                MappedPpuWrite::ChrRam(offset % self.chrram_size, data)
            } else {
                MappedPpuWrite::Other
            }
        } else {
            let (vaddr, target) = self.mirroring.resolve(addr);
            match target {
                VramTarget::Internal => MappedPpuWrite::InternalVram(vaddr, data),
                VramTarget::External => {
                    assert(false);
                    MappedPpuWrite::Other
                },
            }
        }
    }
}

/// One edge of the scanline counter as the PPU produces it: three pattern
/// fetches with A12 low, then one with A12 high.
pub open spec fn scanline_edge(m: Mmc3) -> Mmc3 {
    m.ppu_read_spec(0x0000).1.ppu_read_spec(0x0000).1.ppu_read_spec(0x0000).1.ppu_read_spec(0x1000).1
}

/// `n` such edges in a row.
pub open spec fn scanline_edges(m: Mmc3, n: nat) -> Mmc3
    decreases n,
{
    if n == 0 {
        m
    } else {
        scanline_edges(scanline_edge(m), (n - 1) as nat)
    }
}

/// An edge after at most 252 low accesses clocks the counter: a pending
/// reload or a zero counter loads the latch, otherwise the counter counts
/// down; the streak starts again.
proof fn lemma_edge(m: Mmc3)
    requires
        m.a12_streak <= 252,
    ensures
        scanline_edge(m) == (Mmc3 {
            irq_counter: if m.irq_counter == 0 || m.require_reload { m.irq_latch } else { (m.irq_counter - 1) as u8 },
            require_reload: false,
            a12_streak: 0,
            ..m
        }),
{
    assert(0u16 & 0x1000u16 == 0 && 0x1000u16 & 0x1000u16 != 0) by (bit_vector);
}

/// From a counter at `c` with no reload pending, `j <= c` edges count it
/// down to `c - j`.
proof fn lemma_count_down(x: Mmc3, j: nat)
    requires
        !x.require_reload,
        x.a12_streak == 0,
        j <= x.irq_counter,
    ensures
        scanline_edges(x, j) == (Mmc3 { irq_counter: (x.irq_counter - j) as u8, ..x }),
    decreases j,
{
    if j > 0 {
        lemma_edge(x);
        lemma_count_down(scanline_edge(x), (j - 1) as nat);
    }
}

/// The scanline interrupt: once the CPU has set the latch to `latch`
/// (`0x8000`), asked for a reload (`0x8001`) and enabled the interrupt
/// (`0xC001`), the interrupt line rises at the `latch + 1`-th edge of PPU
/// address line A12, and not before.
pub proof fn lemma_irq_counts_scanlines(m: Mmc3, latch: u8, d1: u8, d2: u8, k: nat)
    requires
        m.a12_streak() <= 252,
        1 <= k <= latch + 1,
    ensures
        scanline_edges(
            m.cpu_write_spec(0x8000, latch).1.cpu_write_spec(0x8001, d1).1.cpu_write_spec(0xC001, d2).1,
            k,
        ).irq_spec() == (k == latch + 1),
{
    assert(0x8000u16 & 0x8000u16 != 0 && 0x8000u16 & 0x4000u16 == 0 && 0x8000u16 & 0x0001u16 == 0
        && 0x8001u16 & 0x8000u16 != 0 && 0x8001u16 & 0x4000u16 == 0 && 0x8001u16 & 0x0001u16 != 0
        && 0xC001u16 & 0x8000u16 != 0 && 0xC001u16 & 0x4000u16 != 0 && 0xC001u16 & 0x0001u16 != 0) by (bit_vector);
    let armed = m.cpu_write_spec(0x8000, latch).1.cpu_write_spec(0x8001, d1).1.cpu_write_spec(0xC001, d2).1;
    assert(armed == Mmc3 { irq_latch: latch, require_reload: true, irq_enable: true, ..m });
    lemma_edge(armed);
    let first = scanline_edge(armed);
    assert(first.irq_counter == latch);
    lemma_count_down(first, (k - 1) as nat);
    assert(scanline_edges(armed, k) == scanline_edges(first, (k - 1) as nat));
}

/// MMC3 sends a nametable address to the console's RAM, through its
/// mirroring, for writes and reads alike; the A12 watch that a PPU write
/// moves leaves the mirroring.
pub proof fn lemma_mmc3_nametable(m: Mmc3, addr: u16, data: u8)
    requires
        0x2000 <= addr <= 0x2FFF,
    ensures
        m.ppu_write_spec(addr, data).0 == MappedPpuWrite::InternalVram(resolve_spec(m.mirroring(), addr).0, data),
        m.ppu_write_spec(addr, data).1.ppu_read_spec(addr).0 == MappedPpuRead::InternalVram(resolve_spec(m.mirroring(), addr).0),
{
}

/// A bank base (a multiple of 8 KiB) combined with an offset within the
/// bank is their sum.
proof fn lemma_bank_plus_offset(b: u32, k: u32)
    requires
        b % 0x2000 == 0,
        k < 0x2000,
    ensures
        b | k == b + k,
{
    assert(b % 0x2000 == 0 && k < 0x2000 ==> b | k == b + k) by (bit_vector);
}

/// The offset within an 8 KiB window.
proof fn lemma_window_offset(w: u16, k: u16)
    requires
        w % 0x2000 == 0,
        k < 0x2000,
        w as int + k as int <= 0xFFFF,
    ensures
        (((w + k) as u16) as u32) & 0x1FFF == k as u32,
{
    assert(w % 0x2000 == 0 && k < 0x2000 && w as int + k as int <= 0xFFFF
        ==> (((w + k) as u16) as u32) & 0x1FFF == k as u32) by (bit_vector);
}

/// The CPU sees MMC3's PRG-ROM (whole 8 KiB banks, at least two) in four
/// 8 KiB windows. `0xE000..` always shows the last bank; the second-last
/// bank is fixed at `0xC000..` (or at `0x8000..` with the PRG swap on), and
/// R6 selects the bank of the other of those two windows; R7 selects the
/// bank at `0xA000..`.
pub proof fn lemma_mmc3_prg_windows(m: Mmc3, k: u16)
    requires
        m.prgrom_size % 0x2000 == 0,
        m.prgrom_size >= 0x4000,
        k < 0x2000,
    ensures
        m.cpu_read_spec((0xE000 + k) as u16) == MappedCpuRead::PrgRom((m.prgrom_size - 0x2000 + k) as u32),
        !m.prgswap ==> m.cpu_read_spec((0xC000 + k) as u16) == MappedCpuRead::PrgRom((m.prgrom_size - 0x4000 + k) as u32),
        m.prgswap ==> m.cpu_read_spec((0x8000 + k) as u16) == MappedCpuRead::PrgRom((m.prgrom_size - 0x4000 + k) as u32),
        m.r[6] as int * 0x2000 + k < m.prgrom_size ==> {
            let at = if m.prgswap { (0xC000 + k) as u16 } else { (0x8000 + k) as u16 };
            m.cpu_read_spec(at) == MappedCpuRead::PrgRom((m.r[6] as int * 0x2000 + k) as u32)
        },
        m.r[7] as int * 0x2000 + k < m.prgrom_size
            ==> m.cpu_read_spec((0xA000 + k) as u16) == MappedCpuRead::PrgRom((m.r[7] as int * 0x2000 + k) as u32),
{
    lemma_window_offset(0x8000, k);
    lemma_window_offset(0xA000, k);
    lemma_window_offset(0xC000, k);
    lemma_window_offset(0xE000, k);
    lemma_bank_plus_offset((m.prgrom_size - 0x2000) as u32, k as u32);
    lemma_bank_plus_offset((m.prgrom_size - 0x4000) as u32, k as u32);
    lemma_bank_plus_offset((m.r[6] as int * 0x2000) as u32, k as u32);
    lemma_bank_plus_offset((m.r[7] as int * 0x2000) as u32, k as u32);
}

/// MMC3's CHR windows: without the CHR swap, R0 and R1 select 2 KiB banks
/// (even 1 KiB bank numbers) at `0x0000` and `0x0800`, R2..R5 1 KiB banks
/// at `0x1000`, `0x1400`, `0x1800`, `0x1C00`; the swap exchanges the two
/// halves of the pattern space.
pub proof fn lemma_mmc3_chr_windows(m: Mmc3, k: int)
    requires
        0 <= k < 0x400,
    ensures
        !m.chrswap ==> m.chrrom_addr_spec(k as u16) == (m.r[0] as int / 2) * 0x800 + k,
        !m.chrswap ==> m.chrrom_addr_spec((0x400 + k) as u16) == (m.r[0] as int / 2) * 0x800 + 0x400 + k,
        !m.chrswap ==> m.chrrom_addr_spec((0x800 + k) as u16) == (m.r[1] as int / 2) * 0x800 + k,
        !m.chrswap ==> m.chrrom_addr_spec((0xC00 + k) as u16) == (m.r[1] as int / 2) * 0x800 + 0x400 + k,
        !m.chrswap ==> m.chrrom_addr_spec((0x1000 + k) as u16) == m.r[2] as int * 0x400 + k,
        !m.chrswap ==> m.chrrom_addr_spec((0x1400 + k) as u16) == m.r[3] as int * 0x400 + k,
        !m.chrswap ==> m.chrrom_addr_spec((0x1800 + k) as u16) == m.r[4] as int * 0x400 + k,
        !m.chrswap ==> m.chrrom_addr_spec((0x1C00 + k) as u16) == m.r[5] as int * 0x400 + k,
        m.chrswap ==> m.chrrom_addr_spec((0x1000 + k) as u16) == (m.r[0] as int / 2) * 0x800 + k,
        m.chrswap ==> m.chrrom_addr_spec((0x1800 + k) as u16) == (m.r[1] as int / 2) * 0x800 + k,
        m.chrswap ==> m.chrrom_addr_spec(k as u16) == m.r[2] as int * 0x400 + k,
        m.chrswap ==> m.chrrom_addr_spec((0x0C00 + k) as u16) == m.r[5] as int * 0x400 + k,
{
    let r0 = m.r[0];
    let r1 = m.r[1];
    assert((r0 & 0xFE) as int == (r0 as int / 2) * 2 && (r1 & 0xFE) as int == (r1 as int / 2) * 2) by (bit_vector);
}

} // verus!
