//! Background latches and shift registers, with the attribute latched as a
//! two-bit value.

use vstd::prelude::*;
use super::pixline::{bit16, compose_pixel, with_low_byte, shl1, bit_at, combine4, lemma_bit16_shifted,
    lemma_bit16_low_byte, lemma_bit16_full_empty};

verus! {

/// The data fetched for one line of a tile (8 pixels) before it is loaded
/// into the shift registers.
#[derive(Default, Debug, Clone, Copy)]
pub struct BgLatches {
    pub tile_idx: u8,
    pub at: u8,
    pub pt_low: u8,
    pub pt_high: u8,
}

impl BgLatches {
    /// Latches in their power-on state: all zeros.
    pub fn new() -> (r: Self)
        ensures
            r.tile_idx == 0 && r.at == 0 && r.pt_low == 0 && r.pt_high == 0,
    {
        Self { tile_idx: 0, at: 0, pt_low: 0, pt_high: 0 }
    }
}

/// 16-bit shift registers that feed a continuous stream of pixels, so that
/// the picture can scroll by single pixels.
#[derive(Debug, Clone, Copy)]
pub struct BgShiftRegisters {
    pt_low: u16,
    pt_high: u16,
    at_low: u16,
    at_high: u16,
}

impl BgShiftRegisters {
    pub closed spec fn pt_low(self) -> u16 {
        self.pt_low
    }

    pub closed spec fn pt_high(self) -> u16 {
        self.pt_high
    }

    pub closed spec fn at_low(self) -> u16 {
        self.at_low
    }

    pub closed spec fn at_high(self) -> u16 {
        self.at_high
    }

    /// Registers holding zeros.
    pub fn new() -> (r: Self)
        ensures
            r.pt_low() == 0 && r.pt_high() == 0 && r.at_low() == 0 && r.at_high() == 0,
    {
        Self { pt_low: 0, pt_high: 0, at_low: 0, at_high: 0 }
    }

    /// Moves every register one pixel on (a left shift).
    pub fn shift(&mut self)
        ensures
            final(self).pt_low() == ((old(self).pt_low() as int * 2) % 0x10000) as u16,
            final(self).pt_high() == ((old(self).pt_high() as int * 2) % 0x10000) as u16,
            final(self).at_low() == ((old(self).at_low() as int * 2) % 0x10000) as u16,
            final(self).at_high() == ((old(self).at_high() as int * 2) % 0x10000) as u16,
    {
        self.pt_low = shl1(self.pt_low);
        self.pt_high = shl1(self.pt_high);
        self.at_low = shl1(self.at_low);
        self.at_high = shl1(self.at_high);
    }

    /// Loads the next tile line from the latches into the low bytes. Only
    /// the two low bits of the attribute count: each fills its whole byte.
    pub fn load(&mut self, latches: &BgLatches)
        ensures
            final(self).pt_low() == with_low_byte(old(self).pt_low(), latches.pt_low),
            final(self).pt_high() == with_low_byte(old(self).pt_high(), latches.pt_high),
            final(self).at_low() == with_low_byte(old(self).at_low(), if latches.at % 2 == 1 { 0xFFu8 } else { 0u8 }),
            final(self).at_high() == with_low_byte(old(self).at_high(), if (latches.at / 2) % 2 == 1 { 0xFFu8 } else { 0u8 }),
    {
        proof {
            crate::bits::lemma_u8_field_bounds();
        }
        self.pt_low = load_low(self.pt_low, latches.pt_low);
        self.pt_high = load_low(self.pt_high, latches.pt_high);
        self.at_low = load_low(self.at_low, if latches.at & 0x1 != 0 { 0xFF } else { 0x00 });
        self.at_high = load_low(self.at_high, if latches.at & 0x2 != 0 { 0xFF } else { 0x00 });
    }

    /// The palette RAM address (0..16) of the pixel `fine_x` places to the
    /// right of the high bit.
    pub fn palette_address(&self, fine_x: u8) -> (r: u16)
        requires
            fine_x <= 15,
        ensures
            r == compose_pixel(
                bit16(self.at_high(), 15 - fine_x),
                bit16(self.at_low(), 15 - fine_x),
                bit16(self.pt_high(), 15 - fine_x),
                bit16(self.pt_low(), 15 - fine_x),
            ),
            r < 16,
    {
        let shift: u16 = (15 - fine_x) as u16;
        let p0: u8 = bit_at(self.pt_low, shift);
        let p1: u8 = bit_at(self.pt_high, shift);
        let a0: u8 = bit_at(self.at_low, shift);
        let a1: u8 = bit_at(self.at_high, shift);
        combine4(a1, a0, p1, p0) as u16
    }
}

impl Default for BgShiftRegisters {
    fn default() -> (r: Self)
        ensures
            r.pt_low() == 0 && r.pt_high() == 0 && r.at_low() == 0 && r.at_high() == 0,
    {
        Self::new()
    }
}

fn load_low(x: u16, low: u8) -> (r: u16)
    ensures
        r == with_low_byte(x, low),
{
    proof {
        crate::bits::lemma_u16_bits();
    }
    (x & 0xFF00) | low as u16
}

impl BgShiftRegisters {
    /// The palette address `palette_address(fine_x)` gives.
    pub open spec fn address_at(self, fine_x: int) -> u16 {
        compose_pixel(
            bit16(self.at_high(), 15 - fine_x),
            bit16(self.at_low(), 15 - fine_x),
            bit16(self.pt_high(), 15 - fine_x),
            bit16(self.pt_low(), 15 - fine_x),
        ) as u16
    }
}

/// A shift moves every pixel one place: what stood at fine X `fx + 1`
/// stands at `fx`, and the last place is address 0.
pub proof fn lemma_shift_moves_pixels(before: BgShiftRegisters, after: BgShiftRegisters, fx: int)
    requires
        after.pt_low() == ((before.pt_low() as int * 2) % 0x10000) as u16,
        after.pt_high() == ((before.pt_high() as int * 2) % 0x10000) as u16,
        after.at_low() == ((before.at_low() as int * 2) % 0x10000) as u16,
        after.at_high() == ((before.at_high() as int * 2) % 0x10000) as u16,
        0 <= fx <= 15,
    ensures
        fx < 15 ==> after.address_at(fx) == before.address_at(fx + 1),
        after.address_at(15) == 0,
{
    lemma_bit16_shifted(before.at_high(), 15 - fx);
    lemma_bit16_shifted(before.at_low(), 15 - fx);
    lemma_bit16_shifted(before.pt_high(), 15 - fx);
    lemma_bit16_shifted(before.pt_low(), 15 - fx);
    lemma_bit16_shifted(before.at_high(), 0);
    lemma_bit16_shifted(before.at_low(), 0);
    lemma_bit16_shifted(before.pt_high(), 0);
    lemma_bit16_shifted(before.pt_low(), 0);
}

/// Loading the latches leaves the pixels at fine X 0..8 and puts the new
/// tile line at 8..16: the two low attribute bits, and pattern bit
/// `15 - fx`.
pub proof fn lemma_load_places_tile(before: BgShiftRegisters, after: BgShiftRegisters, latches: BgLatches, fx: int)
    requires
        after.pt_low() == with_low_byte(before.pt_low(), latches.pt_low),
        after.pt_high() == with_low_byte(before.pt_high(), latches.pt_high),
        after.at_low() == with_low_byte(before.at_low(), if latches.at % 2 == 1 { 0xFFu8 } else { 0u8 }),
        after.at_high() == with_low_byte(before.at_high(), if (latches.at / 2) % 2 == 1 { 0xFFu8 } else { 0u8 }),
        0 <= fx <= 15,
    ensures
        fx <= 7 ==> after.address_at(fx) == before.address_at(fx),
        fx >= 8 ==> after.address_at(fx) == compose_pixel(
            ((latches.at / 2) % 2) as u8,
            (latches.at % 2) as u8,
            bit16(latches.pt_high as u16, 15 - fx),
            bit16(latches.pt_low as u16, 15 - fx),
        ) as u16,
{
    lemma_bit16_low_byte(before.at_high(), if (latches.at / 2) % 2 == 1 { 0xFFu8 } else { 0u8 }, 15 - fx);
    lemma_bit16_low_byte(before.at_low(), if latches.at % 2 == 1 { 0xFFu8 } else { 0u8 }, 15 - fx);
    lemma_bit16_low_byte(before.pt_high(), latches.pt_high, 15 - fx);
    lemma_bit16_low_byte(before.pt_low(), latches.pt_low, 15 - fx);
    if fx >= 8 {
        lemma_bit16_full_empty(15 - fx);
    }
}

} // verus!
