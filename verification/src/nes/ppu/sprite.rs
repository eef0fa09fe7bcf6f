//! The sprite pipeline: at cycle 256 of a visible line the PPU selects the
//! first eight sprites of OAM that cover the line; during cycles 257..=320
//! it fetches their pattern bytes.

use vstd::prelude::*;
use super::{Bus, Ppu, PpuView};
use super::registers::{CTRL_SPR_PT_TABLE_SELECT, CTRL_SPRITE_HEIGHT_MODE};
use crate::nes::cpu::Access;

verus! {

/// One fetched sprite line: its X position, attributes and pattern bytes.
#[derive(Debug, Clone, Copy, Default)]
pub struct SprPixLine {
    pub x: u8,
    pub attr: u8,
    pub pt_lo: u8,
    pub pt_hi: u8,
}

/// `x` with its bit order reversed (bit 0 becomes bit 7).
pub open spec fn bits_reversed(x: u8) -> u8 {
    ((x & 0x01) << 7u8) | ((x & 0x02) << 5u8) | ((x & 0x04) << 3u8) | ((x & 0x08) << 1u8)
        | ((x & 0x10) >> 1u8) | ((x & 0x20) >> 3u8) | ((x & 0x40) >> 5u8) | ((x & 0x80) >> 7u8)
}

/// Reverses the bit order of a byte: a horizontally flipped sprite line.
pub fn reverse_bits(x: u8) -> (r: u8)
    ensures
        r == bits_reversed(x),
        forall|i: u8| i < 8 ==> #[trigger] ((r >> i) & 1) == (x >> (7 - i) as u8) & 1,
{
    let r: u8 = ((x & 0x01) << 7u8) | ((x & 0x02) << 5u8) | ((x & 0x04) << 3u8) | ((x & 0x08) << 1u8)
        | ((x & 0x10) >> 1u8) | ((x & 0x20) >> 3u8) | ((x & 0x40) >> 5u8) | ((x & 0x80) >> 7u8);
    assert(forall|i: u8| i < 8 ==> #[trigger] ((r >> i) & 1) == (x >> (7 - i) as u8) & 1) by (bit_vector)
        requires
            r == ((x & 0x01) << 7u8) | ((x & 0x02) << 5u8) | ((x & 0x04) << 3u8) | ((x & 0x08) << 1u8)
                | ((x & 0x10) >> 1u8) | ((x & 0x20) >> 3u8) | ((x & 0x40) >> 5u8) | ((x & 0x80) >> 7u8);
    r
}

impl PpuView {
    /// Sprites are 8 or 16 pixels tall.
    pub open spec fn sprite_height(self) -> int {
        if self.ctrl_has(CTRL_SPRITE_HEIGHT_MODE) { 16 } else { 8 }
    }

    /// A sprite whose top is `sprite_y` covers the current line.
    pub open spec fn covers_line(self, sprite_y: u8) -> bool {
        sprite_y <= self.scanline && self.scanline < sprite_y + self.sprite_height()
    }

    /// Secondary OAM after the first `n` sprites of OAM were considered,
    /// and how many were taken: a sprite that covers the line is copied
    /// while fewer than eight are taken.
    pub open spec fn selected(self, n: nat) -> (Seq<u8>, nat)
        decreases n,
    {
        if n == 0 {
            (Seq::new(32, |i: int| 0xFFu8), 0)
        } else {
            let (sec, count) = self.selected((n - 1) as nat);
            let k = n - 1;
            if count < 8 && self.covers_line(self.primary_oam[4 * k]) {
                (
                    sec.update((4 * count) as int, self.primary_oam[4 * k])
                        .update((4 * count + 1) as int, self.primary_oam[4 * k + 1])
                        .update((4 * count + 2) as int, self.primary_oam[4 * k + 2])
                        .update((4 * count + 3) as int, self.primary_oam[4 * k + 3]),
                    count + 1,
                )
            } else {
                (sec, count)
            }
        }
    }

    /// The sprite slot (0..8) fetched at the current cycle.
    pub open spec fn spr_slot(self) -> int {
        (self.cycle - 257) / 8
    }

    /// The state after sprite evaluation.
    pub open spec fn sprites_evaluated(self) -> PpuView {
        PpuView { secondary_oam: self.selected(64).0, ..self }
    }

    /// Row `dy` of the sprite in slot `id`, counted from its top, flipped
    /// vertically when its attribute says so.
    pub open spec fn spr_row(self, id: int) -> int {
        let dy = self.scanline - self.secondary_oam[4 * id];
        if self.secondary_oam[4 * id + 2] & 0x80 != 0 { self.sprite_height() - 1 - dy } else { dy }
    }

    /// The address of the low pattern byte of the row of the sprite in
    /// slot `id` on the current line.
    pub open spec fn spr_pt_addr(self, id: int) -> u16 {
        let tile_idx = self.secondary_oam[4 * id + 1];
        let dy = self.spr_row(id) as u16;
        if self.sprite_height() == 8 {
            let table: u16 = if self.ctrl_has(CTRL_SPR_PT_TABLE_SELECT) { 0x1000 } else { 0x0000 };
            table | ((tile_idx as u16) << 4u16) | dy
        } else {
            let table: u16 = if tile_idx & 0x01 != 0 { 0x1000 } else { 0x0000 };
            let tile = if 7 < dy { tile_idx | 0x01 } else { tile_idx & 0xFE };
            table | ((tile as u16) << 4u16) | dy
        }
    }

    /// The slot's sprite line is fetched (its top is above line 239).
    pub open spec fn slot_live(self) -> bool {
        self.secondary_oam[4 * self.spr_slot()] < 239
    }

    /// Whether the sprite pipeline can run this cycle: when it computes a
    /// pattern address, the slot's sprite starts at or above the line and,
    /// if flipped vertically, covers it.
    pub open spec fn spr_fetch_ok(self) -> bool {
        self.scanline <= 239 && 257 <= self.cycle <= 320 && self.slot_live()
            && (self.fetch_phase() == 5 || self.fetch_phase() == 7)
        ==> {
            let y = self.secondary_oam[4 * self.spr_slot()];
            &&& y <= self.scanline
            &&& self.secondary_oam[4 * self.spr_slot() + 2] & 0x80 != 0 ==> self.scanline - y < self.sprite_height()
        }
    }

    /// Whether the sprite pipeline reads the bus this cycle.
    pub open spec fn spr_fetches(self) -> bool {
        self.scanline <= 239 && 257 <= self.cycle <= 320 && self.slot_live()
            && (self.fetch_phase() == 6 || self.fetch_phase() == 8)
    }

    /// One step of the sprite line fetch, whose bus read (if any) gave `d`.
    pub open spec fn spr_line_fetched(self, d: u8) -> PpuView {
        let id = self.spr_slot();
        let line = self.spr_lines[id];
        if !self.slot_live() {
            PpuView { spr_lines: self.spr_lines.update(id, SprPixLine { pt_lo: 0, pt_hi: 0, ..line }), ..self }
        } else {
            let phase = self.fetch_phase();
            if phase == 2 {
                PpuView { spr_lines: self.spr_lines.update(id, SprPixLine { x: self.secondary_oam[4 * id + 3], ..line }), ..self }
            } else if phase == 4 {
                PpuView { spr_lines: self.spr_lines.update(id, SprPixLine { attr: self.secondary_oam[4 * id + 2], ..line }), ..self }
            } else if phase == 5 {
                PpuView { addr_latch: self.spr_pt_addr(id), ..self }
            } else if phase == 6 {
                PpuView { spr_lines: self.spr_lines.update(id, SprPixLine { pt_lo: d, ..line }), ..self }
            } else if phase == 7 {
                PpuView { addr_latch: ((self.spr_pt_addr(id) + 8) % 0x10000) as u16, ..self }
            } else if phase == 8 {
                let flipped = line.attr & 0x40 != 0;
                let l2 = if flipped {
                    SprPixLine { pt_hi: bits_reversed(d), pt_lo: bits_reversed(line.pt_lo), ..line }
                } else {
                    SprPixLine { pt_hi: d, ..line }
                };
                PpuView { spr_lines: self.spr_lines.update(id, l2), ..self }
            } else {
                self
            }
        }
    }

    /// One cycle of the sprite pipeline, whose bus read (if any) gave `d`.
    pub open spec fn spr_advanced(self, d: u8) -> PpuView {
        let s1 = if self.scanline <= 239 && self.cycle == 256 { self.sprites_evaluated() } else { self };
        if self.scanline <= 239 && 257 <= self.cycle <= 320 { s1.spr_line_fetched(d) } else { s1 }
    }
}

impl Ppu {
    /// Runs one cycle of the sprite pipeline. The cycle reads the bus at
    /// most once; the new state is the one that value gives.
    pub fn advance_sprite_pipeline(&mut self, bus: &mut impl Bus)
        requires
            old(bus).ready(),
            old(self)@.wf(),
            old(self)@.spr_fetch_ok(),
        ensures
            final(bus).ready(),
            final(bus).memories() == old(bus).memories(),
            final(self)@.wf(),
            exists|d: u8| final(self)@ == old(self)@.spr_advanced(d),
            !old(self)@.spr_fetches() ==> final(self)@ == old(self)@.spr_advanced(0) && final(bus).trace() == old(bus).trace(),
            old(self)@.spr_fetches() ==> exists|d: u8| final(bus).trace() == old(bus).trace().push(Access::Read(old(self)@.addr_latch & 0x7FFF, d))
                && final(self)@ == #[trigger] old(self)@.spr_advanced(d),
    {
        let fetches: bool = self.scanline <= 239 && 257 <= self.cycle && self.cycle <= 320
            && self.secondary_oam[((self.cycle - 257) / 8) * 4] < 239
            && (((self.cycle - 1) % 8) + 1 == 6 || ((self.cycle - 1) % 8) + 1 == 8);
        let d: u8 = if fetches { self.fetch(bus) } else { 0 };
        self.advance_sprite_pipeline_with(d);
        assert(self@ == old(self)@.spr_advanced(d));
    }

    /// One cycle of the sprite pipeline, where the bus read (if any) gave
    /// `d`.
    pub fn advance_sprite_pipeline_with(&mut self, d: u8)
        requires
            old(self)@.wf(),
            old(self)@.spr_fetch_ok(),
        ensures
            final(self)@ == old(self)@.spr_advanced(d),
            final(self)@.wf(),
    {
        let ghost s0 = self@;
        if self.scanline <= 239 && self.cycle == 256 {
            self.evaluate_sprite();
        }

        if self.scanline <= 239 && 257 <= self.cycle && self.cycle <= 320 {
            self.advance_spr_line_fetch(d);
        }
    }

    fn evaluate_sprite(&mut self)
        requires
            old(self)@.wf(),
            old(self)@.scanline <= 239,
        ensures
            final(self)@ == old(self)@.sprites_evaluated(),
            final(self)@.wf(),
    {
        self.secondary_oam = [0xFF; 32];
        assert(self@.secondary_oam =~= old(self)@.selected(0).0);

        let mut sec_spr: usize = 0;
        let mut pri_spr: usize = 0;
        while pri_spr < 64
            invariant
                0 <= pri_spr <= 64,
                old(self)@.wf(),
                old(self)@.scanline <= 239,
                self@ == (PpuView { secondary_oam: self@.secondary_oam, ..old(self)@ }),
                (self@.secondary_oam, sec_spr as nat) == old(self)@.selected(pri_spr as nat),
                sec_spr <= 8,
            decreases 64 - pri_spr,
        {
            if sec_spr < 8 {
                let sprite_y: u8 = self.primary_oam[pri_spr * 4];
                if self.is_in_scanline(sprite_y) {
                    self.secondary_oam[sec_spr * 4] = self.primary_oam[pri_spr * 4];
                    self.secondary_oam[sec_spr * 4 + 1] = self.primary_oam[pri_spr * 4 + 1];
                    self.secondary_oam[sec_spr * 4 + 2] = self.primary_oam[pri_spr * 4 + 2];
                    self.secondary_oam[sec_spr * 4 + 3] = self.primary_oam[pri_spr * 4 + 3];
                    sec_spr = sec_spr + 1;
                }
            }
            pri_spr = pri_spr + 1;
            proof {
                let (sec, count) = old(self)@.selected(pri_spr as nat);
                assert(self@.secondary_oam =~= sec);
            }
        }
    }

    fn advance_spr_line_fetch(&mut self, d: u8)
        requires
            old(self)@.wf(),
            old(self)@.scanline <= 239,
            257 <= old(self)@.cycle <= 320,
            old(self)@.spr_fetch_ok(),
        ensures
            final(self)@ == old(self)@.spr_line_fetched(d),
            final(self)@.wf(),
    {
        let spr_id: usize = (self.cycle - 257) / 8;

        if 239 <= self.secondary_oam[spr_id * 4] {
            self.spr_lines[spr_id].pt_lo = 0x00;
            self.spr_lines[spr_id].pt_hi = 0x00;
            assert(self@.spr_lines =~= old(self)@.spr_lines.update(spr_id as int,
                SprPixLine { pt_lo: 0, pt_hi: 0, ..old(self)@.spr_lines[spr_id as int] }));
            return;
        }

        let phase: usize = ((self.cycle - 1) % 8) + 1;
        if phase == 2 {
            // copy sprite X
            self.spr_lines[spr_id].x = self.secondary_oam[spr_id * 4 + 3];
            assert(self@.spr_lines =~= old(self)@.spr_lines.update(spr_id as int,
                SprPixLine { x: old(self)@.secondary_oam[4 * spr_id + 3], ..old(self)@.spr_lines[spr_id as int] }));
        } else if phase == 4 {
            // copy sprite attribute
            self.spr_lines[spr_id].attr = self.secondary_oam[spr_id * 4 + 2];
            assert(self@.spr_lines =~= old(self)@.spr_lines.update(spr_id as int,
                SprPixLine { attr: old(self)@.secondary_oam[4 * spr_id + 2], ..old(self)@.spr_lines[spr_id as int] }));
        } else if phase == 5 {
            // pattern low fetch
            let a: u16 = self.spr_pt_addr(spr_id);
            self.latch_addr(a);
        } else if phase == 6 {
            self.spr_lines[spr_id].pt_lo = d;
            assert(self@.spr_lines =~= old(self)@.spr_lines.update(spr_id as int,
                SprPixLine { pt_lo: d, ..old(self)@.spr_lines[spr_id as int] }));
        } else if phase == 7 {
            // pattern high fetch
            let a: u16 = self.spr_pt_addr(spr_id);
            self.latch_addr(a.wrapping_add(8));
        } else if phase == 8 {
            let line: SprPixLine = self.spr_lines[spr_id];
            let flipflag: bool = line.attr & 0x40 != 0;
            let new_line: SprPixLine = if flipflag {
                SprPixLine { pt_hi: reverse_bits(d), pt_lo: reverse_bits(line.pt_lo), ..line }
            } else {
                SprPixLine { pt_hi: d, ..line }
            };
            self.spr_lines[spr_id] = new_line;
            assert(self@.spr_lines =~= old(self)@.spr_lines.update(spr_id as int, new_line));
        }
    }

    fn spr_pt_addr(&self, spr_id: usize) -> (r: u16)
        requires
            self@.wf(),
            spr_id < 8,
            self@.scanline <= 239,
            self@.secondary_oam[4 * spr_id as int] <= self@.scanline,
            self@.secondary_oam[4 * spr_id + 2] & 0x80 != 0 ==>
                self@.scanline - self@.secondary_oam[4 * spr_id as int] < self@.sprite_height(),
        ensures
            r == self@.spr_pt_addr(spr_id as int),
    {
        let sprite_y: u8 = self.secondary_oam[spr_id * 4];
        let tile_idx: u8 = self.secondary_oam[spr_id * 4 + 1];
        let spr_attr: u8 = self.secondary_oam[spr_id * 4 + 2];
        let dy: u8 = self.scanline as u8 - sprite_y;

        if self.is_8x8sprite() {
            let dy: u8 = if spr_attr & 0x80 != 0 { 7 - dy } else { dy };
            let table: u16 = if (self.ctrl & CTRL_SPR_PT_TABLE_SELECT) == CTRL_SPR_PT_TABLE_SELECT { 0x1000 } else { 0x0000 };
            table | ((tile_idx as u16) << 4u16) | dy as u16
        } else {
            let dy: u8 = if spr_attr & 0x80 != 0 { 15 - dy } else { dy };
            let table: u16 = if tile_idx & 0x01 != 0 { 0x1000 } else { 0x0000 };
            let tile_idx: u8 = if 7 < dy { tile_idx | 0x01 } else { tile_idx & 0xFE };
            table | ((tile_idx as u16) << 4u16) | dy as u16
        }
    }

    fn is_in_scanline(&self, sprite_y: u8) -> (r: bool)
        requires
            self@.scanline <= 239,
        ensures
            r == self@.covers_line(sprite_y),
    {
        sprite_y as usize <= self.scanline && (self.scanline as u8) < sprite_y + self.sprite_height()
    }

    fn is_8x8sprite(&self) -> (r: bool)
        ensures
            r == (self@.sprite_height() == 8),
    {
        (self.ctrl & CTRL_SPRITE_HEIGHT_MODE) != CTRL_SPRITE_HEIGHT_MODE
    }

    fn sprite_height(&self) -> (r: u8)
        ensures
            r == self@.sprite_height(),
    {
        if self.is_8x8sprite() {
            8
        } else {
            16
        }
    }
}

} // verus!
