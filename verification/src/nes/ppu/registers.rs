//! The registers the CPU sees (`0x2000..0x2008`) and the scroll/address
//! register pair `v`/`t` (`0yyy NNYY YYYX XXXX`: fine Y, nametable, coarse
//! Y, coarse X).

use vstd::prelude::*;
use super::{Bus, Ppu, PpuView};
use super::palette::palette_cell;
use crate::nes::cpu::Access;

verus! {

/// PPUCTRL: the address increment per PPUDATA access is 32 (else 1).
pub const CTRL_INCREMENT_MODE: u8 = 0x04;
/// PPUCTRL: 8x8 sprites use the pattern table at `0x1000` (else `0x0000`).
pub const CTRL_SPR_PT_TABLE_SELECT: u8 = 0x08;
/// PPUCTRL: the background uses the pattern table at `0x1000`.
pub const CTRL_BG_PT_TABLE_SELECT: u8 = 0x10;
/// PPUCTRL: sprites are 8x16 (else 8x8).
pub const CTRL_SPRITE_HEIGHT_MODE: u8 = 0x20;
/// PPUCTRL: the PPU outputs its color on the EXT pins.
pub const CTRL_IS_SLAVE: u8 = 0x40;
/// PPUCTRL: vertical blank raises an NMI.
pub const CTRL_NMI_ENABLE: u8 = 0x80;
/// The bits of PPUCTRL that are flags (the two low bits select the
/// nametable, which goes to `t`).
pub const CTRL_FLAGS: u8 = 0xFC;

/// PPUMASK: grayscale.
pub const MASK_GRAYSCALE: u8 = 0x01;
/// PPUMASK: show the background in the 8 leftmost pixels.
pub const MASK_SHOW_LEFTMOST_BG: u8 = 0x02;
/// PPUMASK: show sprites in the 8 leftmost pixels.
pub const MASK_SHOW_LEFTMOST_SPR: u8 = 0x04;
/// PPUMASK: render the background.
pub const MASK_ENABLE_BG: u8 = 0x08;
/// PPUMASK: render sprites.
pub const MASK_ENABLE_SPR: u8 = 0x10;
/// PPUMASK: emphasize red.
pub const MASK_EMPHASIZE_RED: u8 = 0x20;
/// PPUMASK: emphasize green.
pub const MASK_EMPHASIZE_GREEN: u8 = 0x40;
/// PPUMASK: emphasize blue.
pub const MASK_EMPHASIZE_BLUE: u8 = 0x80;

/// PPUSTATUS: sprite overflow.
pub const STAT_SPRITE_OVERFLOW: u8 = 0x20;
/// PPUSTATUS: sprite 0 hit.
pub const STAT_SPRITE0_HIT: u8 = 0x40;
/// PPUSTATUS: in vertical blank (cleared when read).
pub const STAT_VBLANK: u8 = 0x80;

/// The scroll registers: the current VRAM address `v`, the temporary
/// address `t` and the fine X scroll.
#[derive(Debug, Clone, Copy)]
pub struct PpuScrl {
    pub v: u16,
    pub t: u16,
    pub fine_x: u8,
}

impl PpuView {
    /// The VRAM address step of a PPUDATA access.
    pub open spec fn vram_increment(self) -> u16 {
        if self.ctrl_has(CTRL_INCREMENT_MODE) { 32 } else { 1 }
    }

    /// The state after `v` moves on by one PPUDATA step (wrapping at 16
    /// bits).
    pub open spec fn incremented(self) -> PpuView {
        PpuView { v: ((self.v + self.vram_increment()) % 0x10000) as u16, ..self }
    }

    /// What a read of PPUSTATUS gives, and the state after it: the write
    /// toggle clears, and the vertical blank flag is reported and cleared.
    pub open spec fn stat_read(self) -> (u8, PpuView) {
        let st1 = if self.scanline == 30 && (self.cycle as int) - 130 < 7 {
            self.stat | STAT_SPRITE0_HIT
        } else {
            self.stat
        };
        let st2 = if st1 & STAT_VBLANK == STAT_VBLANK { st1 & !STAT_SPRITE0_HIT } else { st1 };
        (st2, PpuView { write_toggle: false, stat: st2 & !STAT_VBLANK, ..self })
    }

    /// What a read of PPUDATA gives: the read buffer below the palettes,
    /// the palette entry at and above `0x3F00`.
    pub open spec fn ppudata_value(self) -> u8 {
        let addr = self.v & 0x7FFF;
        if addr < 0x3F00 {
            self.ppudata_buffer
        } else {
            self.palette[palette_cell((addr & 0x1F) as u8)]
        }
    }

    /// The state after a read of PPUDATA whose bus read (at `v % 0x3F00`)
    /// gave `d`: `d` is buffered and `v` steps on.
    pub open spec fn ppudata_read(self, d: u8) -> PpuView {
        PpuView { ppudata_buffer: d, ..self }.incremented()
    }

    /// The state after a write of PPUCTRL.
    pub open spec fn ctrl_written(self, data: u8) -> PpuView {
        PpuView {
            ctrl: data & CTRL_FLAGS,
            t: (self.t & 0x73FF) | (((data as u16) & 0x3) << 10u16),
            ..self
        }
    }

    /// The state after a write of OAMDATA: the byte at OAMADDR, which steps
    /// on (wrapping).
    pub open spec fn oamdata_written(self, data: u8) -> PpuView {
        PpuView {
            primary_oam: self.primary_oam.update(self.oamaddr as int, data),
            oamaddr: ((self.oamaddr + 1) % 256) as u8,
            ..self
        }
    }

    /// The state after a write of PPUSCROLL: the first write sets fine X
    /// and coarse X, the second fine Y and coarse Y.
    pub open spec fn scroll_written(self, data: u8) -> PpuView {
        if !self.write_toggle {
            PpuView {
                fine_x: data & 0x07,
                t: (self.t & 0x7FE0) | ((data as u16) >> 3u16),
                write_toggle: true,
                ..self
            }
        } else {
            let t1 = (self.t & 0x0FFF) | (((data as u16) & 0x07) << 12u16);
            PpuView {
                t: (t1 & 0x7C1F) | (((data as u16) & 0xF8) << 2u16),
                write_toggle: false,
                ..self
            }
        }
    }

    /// The state after a write of PPUADDR: the first write sets the high
    /// six bits of `t`, the second its low byte and copies `t` to `v`.
    pub open spec fn addr_written(self, data: u8) -> PpuView {
        if !self.write_toggle {
            PpuView { t: (self.t & 0x00FF) | (((data as u16) & 0x3F) << 8u16), write_toggle: true, ..self }
        } else {
            let t1 = (self.t & 0xFF00) | (data as u16);
            PpuView { t: t1, v: t1, write_toggle: false, ..self }
        }
    }

    /// Whether a write of PPUDATA goes to the bus (else to the palettes).
    pub open spec fn ppudata_to_bus(self) -> bool {
        (self.v & 0x3FFF) < 0x3F00
    }

    /// The state after a write of PPUDATA: a palette entry at and above
    /// `0x3F00` takes the low six bits; `v` steps on.
    pub open spec fn ppudata_written(self, data: u8) -> PpuView {
        let addr = self.v & 0x3FFF;
        if addr < 0x3F00 {
            self.incremented()
        } else {
            PpuView {
                palette: self.palette.update(palette_cell((addr & 0x1F) as u8), (data & 0x3F) % 0x40),
                ..self
            }.incremented()
        }
    }
}

impl Ppu {
    /// Reads PPUSTATUS.
    pub fn read_ppustat(&mut self) -> (r: u8)
        requires
            old(self)@.wf(),
        ensures
            (r, final(self)@) == old(self)@.stat_read(),
            r & 0x1F == 0,
            final(self)@.wf(),
    {
        self.write_toggle = false;
        proof {
            super::lemma_stat_low_bits(self.stat);
            super::lemma_stat_low_bits(self.stat | STAT_SPRITE0_HIT);
            super::lemma_stat_low_bits(self.stat & !STAT_SPRITE0_HIT);
            super::lemma_stat_low_bits((self.stat | STAT_SPRITE0_HIT) & !STAT_SPRITE0_HIT);
        }

        if self.scanline == 30 && (self.cycle as i64) - 130 < 7 {
            self.stat = self.stat | STAT_SPRITE0_HIT;
        }
        if (self.stat & STAT_VBLANK) == STAT_VBLANK {
            self.stat = self.stat & !STAT_SPRITE0_HIT;
        }

        let byte: u8 = self.stat;
        self.stat = self.stat & !STAT_VBLANK;
        byte
    }

    /// Reads OAMDATA: the OAM byte at OAMADDR.
    pub fn read_oamdata(&mut self) -> (r: u8)
        requires
            old(self)@.wf(),
        ensures
            r == old(self)@.primary_oam[old(self)@.oamaddr as int],
            final(self)@ == old(self)@,
    {
        self.primary_oam[self.oamaddr as usize]
    }

    /// Reads PPUDATA. The bus is read at `v % 0x3F00` and what it gives is
    /// buffered for the next read.
    pub fn read_ppudata(&mut self, bus: &mut impl Bus) -> (r: u8)
        requires
            old(bus).ready(),
            old(self)@.wf(),
        ensures
            final(bus).ready(),
            final(bus).memories() == old(bus).memories(),
            r == old(self)@.ppudata_value(),
            exists|d: u8| final(self)@ == old(self)@.ppudata_read(d),
            exists|d: u8| final(bus).trace() == old(bus).trace().push(Access::Read(old(self)@.v % 0x3F00, d))
                && final(self)@ == #[trigger] old(self)@.ppudata_read(d),
            final(self)@.wf(),
    {
        let addr: u16 = self.scrl.v & 0x7FFF;
        let byte: u8 = if addr < 0x3F00 {
            self.ppudata_buffer
        } else {
            self.palette.read((addr & 0x1F) as u8)
        };

        // VRAM is buffered regardless of the read destination
        let d: u8 = bus.read(self.scrl.v % 0x3F00);
        self.ppudata_buffer = d;

        self.increment_loopy();
        assert(self@ == old(self)@.ppudata_read(d));
        byte
    }

    /// Writes PPUCTRL: the flags, and the nametable bits into `t`.
    pub fn write_ppuctrl(&mut self, data: u8)
        requires
            old(self)@.wf(),
        ensures
            final(self)@ == old(self)@.ctrl_written(data),
            final(self)@.wf(),
    {
        self.ctrl = data & CTRL_FLAGS;
        self.scrl.t = (self.scrl.t & 0x73FF) | (((data as u16) & 0x3) << 10u16);
    }

    /// Writes PPUMASK.
    pub fn write_ppumask(&mut self, data: u8)
        requires
            old(self)@.wf(),
        ensures
            final(self)@ == (PpuView { mask: data, ..old(self)@ }),
            final(self)@.wf(),
    {
        self.mask = data;
    }

    /// Writes OAMADDR.
    pub fn write_oamaddr(&mut self, data: u8)
        requires
            old(self)@.wf(),
        ensures
            final(self)@ == (PpuView { oamaddr: data, ..old(self)@ }),
            final(self)@.wf(),
    {
        self.oamaddr = data;
    }

    /// Writes OAMDATA.
    pub fn write_oamdata(&mut self, data: u8)
        requires
            old(self)@.wf(),
        ensures
            final(self)@ == old(self)@.oamdata_written(data),
            final(self)@.wf(),
    {
        self.primary_oam[self.oamaddr as usize] = data;
        self.oamaddr = self.oamaddr.wrapping_add(1);
        assert(self@.primary_oam =~= old(self)@.primary_oam.update(old(self)@.oamaddr as int, data));
    }

    /// Writes PPUSCROLL.
    pub fn write_ppuscrl(&mut self, data: u8)
        requires
            old(self)@.wf(),
        ensures
            final(self)@ == old(self)@.scroll_written(data),
            final(self)@.wf(),
    {
        proof {
            crate::bits::lemma_u8_field_bounds();
        }
        if !self.write_toggle {
            // first write: fine X, coarse X
            self.scrl.fine_x = data & 0x07;
            self.scrl.t = (self.scrl.t & 0x7FE0) | ((data as u16) >> 3u16);
        } else {
            // second write: fine Y, coarse Y
            self.scrl.t = (self.scrl.t & 0x0FFF) | (((data as u16) & 0x07) << 12u16);
            self.scrl.t = (self.scrl.t & 0x7C1F) | (((data as u16) & 0xF8) << 2u16);
        }

        self.write_toggle = !self.write_toggle;
    }

    /// Writes PPUADDR.
    pub fn write_ppuaddr(&mut self, data: u8)
        requires
            old(self)@.wf(),
        ensures
            final(self)@ == old(self)@.addr_written(data),
            final(self)@.wf(),
    {
        if !self.write_toggle {
            // first write
            self.scrl.t = (self.scrl.t & 0x00FF) | (((data as u16) & 0x3F) << 8u16);
        } else {
            // second write
            self.scrl.t = (self.scrl.t & 0xFF00) | (data as u16);
            self.scrl.v = self.scrl.t;
        }

        self.write_toggle = !self.write_toggle;
    }

    /// Writes PPUDATA: to the bus at `v & 0x3FFF` below `0x3F00`, else to
    /// the palettes; then `v` steps on.
    pub fn write_ppudata(&mut self, bus: &mut impl Bus, data: u8)
        requires
            old(bus).ready(),
            old(self)@.wf(),
        ensures
            final(bus).ready(),
            final(self)@ == old(self)@.ppudata_written(data),
            final(bus).trace() == if old(self)@.v & 0x3FFF < 0x3F00 {
                old(bus).trace().push(Access::Write(old(self)@.v & 0x3FFF, data))
            } else {
                old(bus).trace()
            },
            final(self)@.wf(),
    {
        let addr: u16 = self.scrl.v & 0x3FFF;
        if addr < 0x3F00 {
            bus.write(addr, data);
        } else {
            self.palette.write((addr & 0x1F) as u8, data & 0x3F);
        }

        self.increment_loopy();
    }

    fn increment_loopy(&mut self)
        requires
            old(self)@.wf(),
        ensures
            final(self)@ == old(self)@.incremented(),
            final(self)@.wf(),
    {
        let increment: u16 = if (self.ctrl & CTRL_INCREMENT_MODE) == CTRL_INCREMENT_MODE { 32 } else { 1 };
        self.scrl.v = self.scrl.v.wrapping_add(increment);
    }
}

/// Two writes of PPUADDR, high byte first, point `v` at
/// `(hi & 0x3F) * 256 + lo` and leave the toggle ready for the next pair.
pub proof fn lemma_ppuaddr_pair(p: PpuView, hi: u8, lo: u8)
    requires
        !p.write_toggle,
    ensures
        p.addr_written(hi).addr_written(lo).v == (hi % 0x40) as int * 256 + lo,
        p.addr_written(hi).addr_written(lo).t == (hi % 0x40) as int * 256 + lo,
        !p.addr_written(hi).addr_written(lo).write_toggle,
{
    let t = p.t;
    assert((((t & 0x00FF) | (((hi as u16) & 0x3F) << 8u16)) & 0xFF00) | (lo as u16)
        == ((hi % 0x40) as u16) * 256 + lo as u16) by (bit_vector);
}

/// A PPUDATA write to a palette address is what a PPUDATA read of the same
/// address gives back (as a six-bit index).
pub proof fn lemma_ppudata_palette_round_trip(p: PpuView, data: u8)
    requires
        p.wf(),
        !p.ppudata_to_bus(),
    ensures
        (PpuView { v: p.v, ..p.ppudata_written(data) }).ppudata_value() == data % 0x40,
{
    crate::bits::lemma_u8_field_bounds();
    crate::bits::lemma_u16_bits();
    assert((data & 0x3F) % 0x40 == data % 0x40);
    assert((p.v & 0x7FFF) >= (p.v & 0x3FFF));
}

/// Two writes of PPUSCROLL, X then Y, starting with the toggle clear: fine
/// X and coarse X come from the first byte, fine Y and coarse Y from the
/// second, the nametable bits of `t` stay, and the toggle is clear again.
pub proof fn lemma_ppuscroll_pair(p: PpuView, x: u8, y: u8)
    requires
        !p.write_toggle,
        p.t < 0x8000,
    ensures
        ({
            let q = p.scroll_written(x).scroll_written(y);
            &&& q.fine_x == x % 8
            &&& super::loopy::cx(q.t) == x / 8
            &&& super::loopy::fy(q.t) == y % 8
            &&& super::loopy::cy(q.t) == y / 8
            &&& super::loopy::nt(q.t) == super::loopy::nt(p.t)
            &&& q.t < 0x8000
            &&& !q.write_toggle
            &&& q.v == p.v
        }),
{
    let t = p.t;
    let t0 = (t & 0x7FE0) | ((x as u16) >> 3u16);
    let t1 = (t0 & 0x0FFF) | (((y as u16) & 0x07) << 12u16);
    let t2 = (t1 & 0x7C1F) | (((y as u16) & 0xF8) << 2u16);
    assert(t < 0x8000 ==> {
        &&& x & 0x07 == x % 8
        &&& t2 < 0x8000
        &&& t2 % 32 == (x / 8) as u16
        &&& (t2 / 4096) % 8 == (y % 8) as u16
        &&& (t2 / 32) % 32 == (y / 8) as u16
        &&& (t2 / 1024) % 4 == (t / 1024) % 4
    }) by (bit_vector)
        requires
            t0 == (t & 0x7FE0) | ((x as u16) >> 3u16),
            t1 == (t0 & 0x0FFF) | (((y as u16) & 0x07) << 12u16),
            t2 == (t1 & 0x7C1F) | (((y as u16) & 0xF8) << 2u16);
}

/// A write of PPUCTRL puts its two low bits into the nametable select of
/// `t`, leaving the rest of `t`.
pub proof fn lemma_ppuctrl_nametable(p: PpuView, data: u8)
    requires
        p.t < 0x8000,
    ensures
        ({
            let q = p.ctrl_written(data);
            &&& super::loopy::nt(q.t) == data % 4
            &&& super::loopy::cx(q.t) == super::loopy::cx(p.t)
            &&& super::loopy::cy(q.t) == super::loopy::cy(p.t)
            &&& super::loopy::fy(q.t) == super::loopy::fy(p.t)
        }),
{
    let t = p.t;
    let t1 = (t & 0x73FF) | (((data as u16) & 0x3) << 10u16);
    assert(t < 0x8000 ==> {
        &&& (t1 / 1024) % 4 == (data % 4) as u16
        &&& t1 % 32 == t % 32
        &&& (t1 / 32) % 32 == (t / 32) % 32
        &&& (t1 / 4096) % 8 == (t / 4096) % 8
    }) by (bit_vector)
        requires
            t1 == (t & 0x73FF) | (((data as u16) & 0x3) << 10u16);
}

} // verus!
