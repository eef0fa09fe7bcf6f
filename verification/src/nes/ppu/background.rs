//! The background pipeline: every eight cycles of a rendering line the PPU
//! fetches a tile's nametable entry, attribute and two pattern bytes, and
//! loads them into the shift registers.

use vstd::prelude::*;
use super::{Ppu, PpuView};
use super::pixline::PixLine;
use super::registers::CTRL_BG_PT_TABLE_SELECT;
use super::loopy::{cx, cy, nt, fy};

verus! {

/// `v` after coarse X steps on: past 31 it wraps to 0 and flips the
/// horizontal nametable bit.
pub open spec fn coarse_x_incremented(v: u16) -> u16 {
    let coarse_x = v & 0x001F;
    if coarse_x == 31 {
        (v & 0x7FE0) ^ 0x0400
    } else {
        (v & 0x7FE0) | ((coarse_x + 1) as u16)
    }
}

/// `v` after coarse Y steps on: past 29 it wraps to 0 and flips the
/// vertical nametable bit; 31 (attribute rows) wraps to 0 alone.
pub open spec fn coarse_y_incremented(v: u16) -> u16 {
    let coarse_y = (v & 0x03E0) >> 5u16;
    if coarse_y == 29 {
        (v & 0x7C1F) ^ 0x0800
    } else if coarse_y == 31 {
        v & 0x7C1F
    } else {
        (v & 0x7C1F) | (((coarse_y + 1) as u16) << 5u16)
    }
}

/// `v` after fine Y steps on: past 7 it wraps to 0 and coarse Y steps on.
pub open spec fn fine_y_incremented(v: u16) -> u16 {
    let fine_y = (v & 0x7000) >> 12u16;
    if fine_y == 7 {
        coarse_y_incremented(v & 0x0FFF)
    } else {
        (v & 0x0FFF) | (((fine_y + 1) as u16) << 12u16)
    }
}

impl PpuView {
    /// A line on which the PPU fetches: the visible lines and the
    /// pre-render line.
    pub open spec fn on_fetch_line(self) -> bool {
        self.scanline <= 239 || self.scanline == 261
    }

    /// The step (1..=8) of the current cycle within its 8-cycle group.
    pub open spec fn fetch_phase(self) -> int {
        ((self.cycle - 1) % 8) + 1
    }

    /// Cycles that fetch tiles: 1..=256 and 321..=336.
    pub open spec fn in_tile_fetch(self) -> bool {
        self.on_fetch_line() && (1 <= self.cycle <= 256 || 321 <= self.cycle <= 336)
    }

    /// Cycles of the unused nametable fetches during sprite fetching.
    pub open spec fn in_dummy_fetch(self) -> bool {
        self.on_fetch_line() && 257 <= self.cycle <= 320
    }

    /// Whether the background pipeline reads the bus this cycle.
    pub open spec fn bg_fetches(self) -> bool {
        ||| self.in_tile_fetch() && self.fetch_phase() % 2 == 0
        ||| self.in_dummy_fetch() && (self.fetch_phase() == 2 || self.fetch_phase() == 4)
    }

    /// The nametable address `v` points at.
    pub open spec fn nt_addr(self) -> u16 {
        0x2000 | (self.v & 0x0FFF)
    }

    /// The attribute address for the tile `v` points at.
    pub open spec fn at_addr(self) -> u16 {
        0x23C0 | (self.v & 0x0C00) | ((self.v >> 4u16) & 0x38) | ((self.v >> 2u16) & 0x07)
    }

    /// The address of the low pattern byte of the latched tile at fine Y.
    pub open spec fn pt_addr(self) -> u16 {
        let table: u16 = if self.ctrl_has(CTRL_BG_PT_TABLE_SELECT) { 0x1000 } else { 0x0000 };
        let fine_y = (self.v & 0x7000) >> 12u16;
        table | ((self.bg_line.tile_idx as u16) << 4u16) | fine_y
    }

    /// The two attribute bits of the current tile within an attribute byte.
    pub open spec fn at_bits(self, byte: u8) -> (bool, bool) {
        let coarse_y = (self.v & 0x03E0) >> 5u16;
        let coarse_x = self.v & 0x001F;
        let shifted = byte >> (((coarse_y & 0x2) << 1u16) | (coarse_x & 0x2));
        (shifted & 0x01 != 0, shifted & 0x02 != 0)
    }

    /// One step of a tile fetch, whose bus read (if any) gave `d`.
    pub open spec fn tile_fetched(self, d: u8) -> PpuView {
        let s = PpuView { bg_liner: self.bg_liner.shifted(), ..self };
        let phase = self.fetch_phase();
        if phase == 1 {
            PpuView { addr_latch: self.nt_addr(), ..s }
        } else if phase == 2 {
            PpuView { bg_line: PixLine { tile_idx: d, ..self.bg_line }, ..s }
        } else if phase == 3 {
            PpuView { addr_latch: self.at_addr(), ..s }
        } else if phase == 4 {
            PpuView { bg_line: PixLine { at_lo: self.at_bits(d).0, at_hi: self.at_bits(d).1, ..self.bg_line }, ..s }
        } else if phase == 5 {
            PpuView { addr_latch: self.pt_addr(), ..s }
        } else if phase == 6 {
            PpuView { bg_line: PixLine { pt_lo: d, ..self.bg_line }, ..s }
        } else if phase == 7 {
            PpuView { addr_latch: ((self.pt_addr() + 8) % 0x10000) as u16, ..s }
        } else {
            let line = PixLine { pt_hi: d, ..self.bg_line };
            PpuView { bg_line: line, bg_liner: s.bg_liner.loaded(line), v: coarse_x_incremented(self.v), ..s }
        }
    }

    /// One step of the unused fetches, whose bus read (if any) gave `d`.
    pub open spec fn dummy_fetched(self, d: u8) -> PpuView {
        let s = PpuView { bg_liner: self.bg_liner.shifted(), ..self };
        let phase = self.fetch_phase();
        if phase == 1 || phase == 3 {
            PpuView { addr_latch: self.nt_addr(), ..s }
        } else if phase == 2 {
            PpuView { bg_line: PixLine { tile_idx: d, ..self.bg_line }, ..s }
        } else {
            s
        }
    }

    /// One cycle of the background pipeline, whose bus read (if any) gave
    /// `d`: tile fetches, the step to the next row at cycle 256, the copy
    /// of the horizontal scroll from `t` at 257, and of the vertical scroll
    /// during 280..=304 of the pre-render line.
    pub open spec fn bg_advanced(self, d: u8) -> PpuView {
        let s1 = if self.in_tile_fetch() { self.tile_fetched(d) } else { self };
        let s2 = if self.on_fetch_line() && self.cycle == 256 {
            PpuView { v: fine_y_incremented(s1.v), ..s1 }
        } else {
            s1
        };
        let s3 = if self.on_fetch_line() && self.cycle == 257 {
            PpuView { v: (s2.v & 0x7BE0) | (s2.t & 0x041F), ..s2 }
        } else {
            s2
        };
        let s4 = if self.in_dummy_fetch() { s3.dummy_fetched(d) } else { s3 };
        if self.scanline == 261 && 280 <= self.cycle <= 304 {
            PpuView { v: (s4.v & 0x041F) | (s4.t & 0x7BE0), ..s4 }
        } else {
            s4
        }
    }

    /// The background pipeline changes only `v`, the address latch, the
    /// tile latch and the shift registers.
    pub proof fn lemma_bg_advanced_frame(self, d: u8)
        ensures
            self.bg_advanced(d) == (PpuView {
                v: self.bg_advanced(d).v,
                addr_latch: self.bg_advanced(d).addr_latch,
                bg_line: self.bg_advanced(d).bg_line,
                bg_liner: self.bg_advanced(d).bg_liner,
                ..self
            }),
    {
        let s1 = if self.in_tile_fetch() { self.tile_fetched(d) } else { self };
        assert(s1 == (PpuView { v: s1.v, addr_latch: s1.addr_latch, bg_line: s1.bg_line, bg_liner: s1.bg_liner, ..self }));
        let s2 = if self.on_fetch_line() && self.cycle == 256 {
            PpuView { v: fine_y_incremented(s1.v), ..s1 }
        } else {
            s1
        };
        let s3 = if self.on_fetch_line() && self.cycle == 257 {
            PpuView { v: (s2.v & 0x7BE0) | (s2.t & 0x041F), ..s2 }
        } else {
            s2
        };
        let s4 = if self.in_dummy_fetch() { s3.dummy_fetched(d) } else { s3 };
        assert(s4 == (PpuView { v: s4.v, addr_latch: s4.addr_latch, bg_line: s4.bg_line, bg_liner: s4.bg_liner, ..self }));
    }
}

impl Ppu {
    /// Whether the background pipeline reads the bus this cycle.
    pub fn bg_fetches(&self) -> (r: bool)
        ensures
            r == self@.bg_fetches(),
    {
        let on_line: bool = self.scanline <= 239 || self.scanline == 261;
        if !on_line || self.cycle == 0 {
            return false;
        }
        let phase: usize = ((self.cycle - 1) % 8) + 1;
        let tile: bool = (1 <= self.cycle && self.cycle <= 256) || (321 <= self.cycle && self.cycle <= 336);
        let dummy: bool = 257 <= self.cycle && self.cycle <= 320;
        (tile && phase % 2 == 0) || (dummy && (phase == 2 || phase == 4))
    }

    /// One cycle of the background pipeline, where the bus read (if any)
    /// gave `d`.
    pub fn advance_background_pipeline(&mut self, d: u8)
        requires
            old(self)@.wf(),
        ensures
            final(self)@ == old(self)@.bg_advanced(d),
            final(self)@.wf(),
    {
        let on_line: bool = self.scanline <= 239 || self.scanline == 261;
        if on_line && ((1 <= self.cycle && self.cycle <= 256) || (321 <= self.cycle && self.cycle <= 336)) {
            self.advance_bg_line_fetch(d);
        }

        if on_line && self.cycle == 256 {
            self.increment_fine_y();
        }

        // copy horizontal (coarse X, nametable low bit)
        if on_line && self.cycle == 257 {
            self.scrl.v = (self.scrl.v & 0x7BE0) | (self.scrl.t & 0x041F);
        }

        if on_line && 257 <= self.cycle && self.cycle <= 320 {
            self.advance_bg_dummy_fetch(d);
        }

        // copy vertical (fine Y, coarse Y, nametable high bit)
        if self.scanline == 261 && 280 <= self.cycle && self.cycle <= 304 {
            self.scrl.v = (self.scrl.v & 0x041F) | (self.scrl.t & 0x7BE0);
        }
    }

    fn advance_bg_line_fetch(&mut self, d: u8)
        requires
            old(self)@.wf(),
            old(self)@.in_tile_fetch(),
        ensures
            final(self)@ == old(self)@.tile_fetched(d),
            final(self)@.wf(),
    {
        self.bg_liner.shift();

        let phase: usize = ((self.cycle - 1) % 8) + 1;
        if phase == 1 {
            // nametable fetch
            self.latch_addr(self.bg_nt_addr());
        } else if phase == 2 {
            self.bg_line.tile_idx = d;
        } else if phase == 3 {
            // attribute fetch
            self.latch_addr(self.bg_at_addr());
        } else if phase == 4 {
            let (lo, hi) = self.extract_at_from_byte(d);
            self.bg_line.at_lo = lo;
            self.bg_line.at_hi = hi;
        } else if phase == 5 {
            // pattern low fetch
            self.latch_addr(self.bg_pt_addr());
        } else if phase == 6 {
            self.bg_line.pt_lo = d;
        } else if phase == 7 {
            // pattern high fetch
            self.latch_addr(self.bg_pt_addr().wrapping_add(8));
        } else {
            self.bg_line.pt_hi = d;
            self.bg_liner.load_tileline(self.bg_line);
            self.increment_coarse_x();
        }
    }

    fn advance_bg_dummy_fetch(&mut self, d: u8)
        requires
            old(self)@.wf(),
            old(self)@.in_dummy_fetch(),
        ensures
            final(self)@ == old(self)@.dummy_fetched(d),
            final(self)@.wf(),
    {
        self.bg_liner.shift();

        let phase: usize = ((self.cycle - 1) % 8) + 1;
        if phase == 1 || phase == 3 {
            // unused and ignored nametable fetches
            self.latch_addr(self.bg_nt_addr());
        } else if phase == 2 {
            self.bg_line.tile_idx = d;
        }
        // phase 4 reads and ignores; 5..=8 wait while sprites are fetched
    }

    fn bg_nt_addr(&self) -> (r: u16)
        ensures
            r == self@.nt_addr(),
    {
        0x2000 | (self.scrl.v & 0x0FFF)
    }

    fn bg_at_addr(&self) -> (r: u16)
        ensures
            r == self@.at_addr(),
    {
        0x23C0 | (self.scrl.v & 0x0C00) | ((self.scrl.v >> 4u16) & 0x38) | ((self.scrl.v >> 2u16) & 0x07)
    }

    fn bg_pt_addr(&self) -> (r: u16)
        ensures
            r == self@.pt_addr(),
    {
        let table: u16 = if (self.ctrl & CTRL_BG_PT_TABLE_SELECT) == CTRL_BG_PT_TABLE_SELECT { 0x1000 } else { 0x0000 };
        let fine_y: u16 = (self.scrl.v & 0x7000) >> 12u16;
        table | ((self.bg_line.tile_idx as u16) << 4u16) | fine_y
    }

    fn extract_at_from_byte(&self, byte: u8) -> (r: (bool, bool))
        ensures
            r == self@.at_bits(byte),
    {
        let coarse_y: u16 = (self.scrl.v & 0x03E0) >> 5u16;
        let coarse_x: u16 = self.scrl.v & 0x001F;
        proof {
            crate::bits::lemma_u16_bits();
        }
        let shifted: u8 = byte >> (((coarse_y & 0x2) << 1u16) | (coarse_x & 0x2));
        (shifted & 0x01 != 0, shifted & 0x02 != 0)
    }

    fn increment_coarse_x(&mut self)
        ensures
            final(self)@ == (PpuView { v: coarse_x_incremented(old(self)@.v), ..old(self)@ }),
    {
        let coarse_x: u16 = self.scrl.v & 0x001F;
        proof {
            crate::bits::lemma_u16_bits();
        }
        if coarse_x == 31 {
            self.scrl.v = (self.scrl.v & 0x7FE0) ^ 0x0400;
        } else {
            self.scrl.v = (self.scrl.v & 0x7FE0) | (coarse_x + 1);
        }
    }

    fn increment_fine_y(&mut self)
        ensures
            final(self)@ == (PpuView { v: fine_y_incremented(old(self)@.v), ..old(self)@ }),
    {
        let fine_y: u16 = (self.scrl.v & 0x7000) >> 12u16;
        proof {
            crate::bits::lemma_u16_bits();
        }
        if fine_y == 7 {
            self.scrl.v = self.scrl.v & 0x0FFF;
            self.increment_coarse_y();
        } else {
            self.scrl.v = (self.scrl.v & 0x0FFF) | ((fine_y + 1) << 12u16);
        }
    }

    fn increment_coarse_y(&mut self)
        ensures
            final(self)@ == (PpuView { v: coarse_y_incremented(old(self)@.v), ..old(self)@ }),
    {
        let coarse_y: u16 = (self.scrl.v & 0x03E0) >> 5u16;
        proof {
            crate::bits::lemma_u16_bits();
        }
        if coarse_y == 29 {
            self.scrl.v = (self.scrl.v & 0x7C1F) ^ 0x0800;
        } else if coarse_y == 31 {
            self.scrl.v = self.scrl.v & 0x7C1F;
        } else {
            self.scrl.v = (self.scrl.v & 0x7C1F) | ((coarse_y + 1) << 5u16);
        }
    }
}

/// Which 16x16-pixel quadrant of its 32x32 attribute block the tile at
/// `v` lies in: 0 top left, 1 top right, 2 bottom left, 3 bottom right.
pub open spec fn attribute_quadrant(v: u16) -> int {
    2 * ((cy(v) / 2) % 2) + (cx(v) / 2) % 2
}

/// The palette number (0..4) an attribute byte gives quadrant `q`: bits
/// `2q` and `2q + 1`.
pub open spec fn quadrant_palette(byte: u8, q: int) -> u8 {
    if q == 0 {
        byte % 4
    } else if q == 1 {
        (byte / 4) % 4
    } else if q == 2 {
        (byte / 16) % 4
    } else {
        byte / 64
    }
}

/// The attribute bits of a tile are the two bits of its quadrant in the
/// attribute byte: the low one of the palette number first.
pub proof fn lemma_attribute_bits_of_quadrant(p: PpuView, byte: u8)
    ensures
        p.at_bits(byte).0 == (quadrant_palette(byte, attribute_quadrant(p.v)) % 2 == 1),
        p.at_bits(byte).1 == (quadrant_palette(byte, attribute_quadrant(p.v)) / 2 == 1),
{
    let v = p.v;
    assert(((v / 32) % 32 / 2) % 2 == (v / 64) % 2 && ((v % 32) / 2) % 2 == (v / 2) % 2) by (bit_vector);
    let s: u16 = ((((v & 0x03E0) >> 5u16) & 0x2) << 1u16) | ((v & 0x001F) & 0x2);
    assert({
        let qy = (v / 64) % 2;
        let qx = (v / 2) % 2;
        let pal: u8 = if qy == 0 && qx == 0 {
            byte % 4
        } else if qy == 0 && qx == 1 {
            (byte / 4) % 4
        } else if qy == 1 && qx == 0 {
            (byte / 16) % 4
        } else {
            byte / 64
        };
        &&& ((byte >> s) & 0x01 != 0) == (pal % 2 == 1)
        &&& ((byte >> s) & 0x02 != 0) == (pal / 2 == 1)
    }) by (bit_vector)
        requires
            s == ((((v & 0x03E0) >> 5u16) & 0x2) << 1u16) | ((v & 0x001F) & 0x2);
}

/// Coarse X steps on by one tile, wrapping from 31 to 0 into the
/// horizontally neighbouring nametable; the rest of `v` stays.
pub proof fn lemma_coarse_x_steps(v: u16)
    requires
        v < 0x8000,
    ensures
        ({
            let w = coarse_x_incremented(v);
            &&& w < 0x8000
            &&& cx(w) == (cx(v) + 1) % 32
            &&& cy(w) == cy(v)
            &&& fy(w) == fy(v)
            &&& nt(w) == if cx(v) == 31 { if nt(v) % 2 == 0 { nt(v) + 1 } else { nt(v) - 1 } } else { nt(v) }
        }),
{
    let w = coarse_x_incremented(v);
    assert(v < 0x8000 ==> {
        &&& w < 0x8000
        &&& w % 32 == (v % 32 + 1) % 32
        &&& (w / 32) % 32 == (v / 32) % 32
        &&& (w / 4096) % 8 == (v / 4096) % 8
        &&& (w / 1024) % 4 == if v % 32 == 31 {
            if (v / 1024) % 2 == 0 { (v / 1024) % 4 + 1 } else { (v / 1024) % 4 - 1 }
        } else {
            ((v / 1024) % 4) as int
        }
    }) by (bit_vector)
        requires
            w == coarse_x_incremented(v);
}

/// Fine Y steps on by one line; from 7 it wraps to 0 and coarse Y steps
/// on: from 29 it wraps to 0 into the vertically neighbouring nametable,
/// from 31 (rows of attribute data) to 0 in the same nametable. Coarse X
/// stays.
pub proof fn lemma_fine_y_steps(v: u16)
    requires
        v < 0x8000,
    ensures
        ({
            let w = fine_y_incremented(v);
            &&& w < 0x8000
            &&& cx(w) == cx(v)
            &&& fy(v) < 7 ==> fy(w) == fy(v) + 1 && cy(w) == cy(v) && nt(w) == nt(v)
            &&& fy(v) == 7 && cy(v) == 29 ==> fy(w) == 0 && cy(w) == 0 && nt(w) == (nt(v) + 2) % 4
            &&& fy(v) == 7 && cy(v) == 31 ==> fy(w) == 0 && cy(w) == 0 && nt(w) == nt(v)
            &&& fy(v) == 7 && cy(v) != 29 && cy(v) != 31 ==> fy(w) == 0 && cy(w) == cy(v) + 1 && nt(w) == nt(v)
        }),
{
    let w = fine_y_incremented(v);
    assert(v < 0x8000 ==> {
        let f = (v / 4096) % 8;
        let y = (v / 32) % 32;
        let n = (v / 1024) % 4;
        &&& w < 0x8000
        &&& w % 32 == v % 32
        &&& f < 7 ==> (w / 4096) % 8 == f + 1 && (w / 32) % 32 == y && (w / 1024) % 4 == n
        &&& f == 7 && y == 29 ==> (w / 4096) % 8 == 0 && (w / 32) % 32 == 0 && (w / 1024) % 4 == (n + 2) % 4
        &&& f == 7 && y == 31 ==> (w / 4096) % 8 == 0 && (w / 32) % 32 == 0 && (w / 1024) % 4 == n
        &&& f == 7 && y != 29 && y != 31 ==> (w / 4096) % 8 == 0 && (w / 32) % 32 == y + 1 && (w / 1024) % 4 == n
    }) by (bit_vector)
        requires
            w == fine_y_incremented(v);
}

/// The background fetch addresses: the nametable entry of the tile at
/// (coarse X, coarse Y) in nametable `nt`; the attribute byte of its 4x4
/// tile block, after the 960 entries of that nametable; and the low
/// pattern byte of the latched tile at fine Y, in the pattern table PPUCTRL
/// selects (16 bytes a tile).
pub proof fn lemma_fetch_addresses(p: PpuView)
    requires
        p.v < 0x8000,
    ensures
        p.nt_addr() == 0x2000 + 0x400 * nt(p.v) + 32 * cy(p.v) + cx(p.v),
        p.at_addr() == 0x23C0 + 0x400 * nt(p.v) + 8 * (cy(p.v) / 4) + cx(p.v) / 4,
        p.pt_addr() == (if p.ctrl_has(CTRL_BG_PT_TABLE_SELECT) { 0x1000int } else { 0int })
            + 16 * p.bg_line.tile_idx + fy(p.v),
{
    let v = p.v;
    let t = p.bg_line.tile_idx;
    let table: u16 = if p.ctrl_has(CTRL_BG_PT_TABLE_SELECT) { 0x1000 } else { 0x0000 };
    assert(v < 0x8000 ==> {
        &&& 0x2000 | (v & 0x0FFF) == 0x2000 + 0x400 * ((v / 1024) % 4) + 32 * ((v / 32) % 32) + v % 32
        &&& 0x23C0 | (v & 0x0C00) | ((v >> 4u16) & 0x38) | ((v >> 2u16) & 0x07)
            == 0x23C0 + 0x400 * ((v / 1024) % 4) + 8 * (((v / 32) % 32) / 4) + (v % 32) / 4
    }) by (bit_vector);
    assert((table == 0x1000 || table == 0) ==> table | ((t as u16) << 4u16) | ((v & 0x7000) >> 12u16)
        == table + 16 * t + (v / 4096) % 8) by (bit_vector)
        requires
            v < 0x8000;
}

} // verus!
