//! The background tile line latch and the shift registers fed from it.

use vstd::prelude::*;
use crate::bits::lemma_u16_bits;

verus! {

/// Bit `k` of `x`.
pub open spec fn bit16(x: u16, k: int) -> u8 {
    ((x as int / vstd::arithmetic::power2::pow2(k as nat) as int) % 2) as u8
}

/// The pixel value made of four plane bits: `8*a1 + 4*a0 + 2*p1 + p0`.
pub open spec fn compose_pixel(a1: u8, a0: u8, p1: u8, p0: u8) -> u8 {
    (8 * a1 + 4 * a0 + 2 * p1 + p0) as u8
}

/// The low byte replaced: `(x & 0xFF00) | low`.
pub open spec fn with_low_byte(x: u16, low: u8) -> u16 {
    ((x as int / 256) * 256 + low as int) as u16
}

/// One fetched line of a background tile (8 pixels), before it is loaded
/// into the shift registers.
#[derive(Debug, Clone, Copy, Default)]
pub struct PixLine {
    pub tile_idx: u8,
    pub at_lo: bool,
    pub at_hi: bool,
    pub pt_lo: u8,
    pub pt_hi: u8,
}

/// Four 16-bit shift registers: two attribute planes, two pattern planes.
/// The high byte holds the tile being drawn, the low byte the next one.
#[derive(Debug, Clone, Copy)]
pub struct BgPixLiner {
    at_lo: u16,
    at_hi: u16,
    pt_lo: u16,
    pt_hi: u16,
}

impl BgPixLiner {
    pub closed spec fn at_lo(self) -> u16 {
        self.at_lo
    }

    pub closed spec fn at_hi(self) -> u16 {
        self.at_hi
    }

    pub closed spec fn pt_lo(self) -> u16 {
        self.pt_lo
    }

    pub closed spec fn pt_hi(self) -> u16 {
        self.pt_hi
    }

    /// The registers after one shift.
    pub closed spec fn shifted(self) -> Self {
        BgPixLiner {
            at_lo: ((self.at_lo as int * 2) % 0x10000) as u16,
            at_hi: ((self.at_hi as int * 2) % 0x10000) as u16,
            pt_lo: ((self.pt_lo as int * 2) % 0x10000) as u16,
            pt_hi: ((self.pt_hi as int * 2) % 0x10000) as u16,
        }
    }

    /// The registers after loading `latch` into their low bytes.
    pub closed spec fn loaded(self, latch: PixLine) -> Self {
        BgPixLiner {
            at_lo: with_low_byte(self.at_lo, if latch.at_lo { 0xFFu8 } else { 0u8 }),
            at_hi: with_low_byte(self.at_hi, if latch.at_hi { 0xFFu8 } else { 0u8 }),
            pt_lo: with_low_byte(self.pt_lo, latch.pt_lo),
            pt_hi: with_low_byte(self.pt_hi, latch.pt_hi),
        }
    }

    /// Four registers holding zeros.
    pub fn new() -> (r: Self)
        ensures
            r.at_lo() == 0 && r.at_hi() == 0 && r.pt_lo() == 0 && r.pt_hi() == 0,
    {
        Self { at_lo: 0, at_hi: 0, pt_lo: 0, pt_hi: 0 }
    }

    /// Loads a tile line into the low bytes; an attribute bit fills its
    /// whole byte.
    pub fn load_tileline(&mut self, latch: PixLine)
        ensures
            *final(self) == old(self).loaded(latch),
            final(self).at_lo() == with_low_byte(old(self).at_lo(), if latch.at_lo { 0xFFu8 } else { 0u8 }),
            final(self).at_hi() == with_low_byte(old(self).at_hi(), if latch.at_hi { 0xFFu8 } else { 0u8 }),
            final(self).pt_lo() == with_low_byte(old(self).pt_lo(), latch.pt_lo),
            final(self).pt_hi() == with_low_byte(old(self).pt_hi(), latch.pt_hi),
    {
        self.at_lo = Self::load_low(self.at_lo, if latch.at_lo { 0xFF } else { 0x00 });
        self.at_hi = Self::load_low(self.at_hi, if latch.at_hi { 0xFF } else { 0x00 });
        self.pt_lo = Self::load_low(self.pt_lo, latch.pt_lo);
        self.pt_hi = Self::load_low(self.pt_hi, latch.pt_hi);
    }

    fn load_low(x: u16, low: u8) -> (r: u16)
        ensures
            r == with_low_byte(x, low),
    {
        proof {
            lemma_u16_bits();
        }
        (x & 0xFF00) | low as u16
    }

    /// Moves every register one pixel on (a left shift).
    pub fn shift(&mut self)
        ensures
            *final(self) == old(self).shifted(),
            final(self).at_lo() == ((old(self).at_lo() as int * 2) % 0x10000) as u16,
            final(self).at_hi() == ((old(self).at_hi() as int * 2) % 0x10000) as u16,
            final(self).pt_lo() == ((old(self).pt_lo() as int * 2) % 0x10000) as u16,
            final(self).pt_hi() == ((old(self).pt_hi() as int * 2) % 0x10000) as u16,
    {
        self.at_lo = shl1(self.at_lo);
        self.at_hi = shl1(self.at_hi);
        self.pt_lo = shl1(self.pt_lo);
        self.pt_hi = shl1(self.pt_hi);
    }

    /// The palette index (0..16) of the pixel `fine_x` places to the right
    /// of the high bit.
    pub fn pixel_index(&self, fine_x: u8) -> (r: u8)
        requires
            fine_x <= 15,
        ensures
            r == compose_pixel(
                bit16(self.at_hi(), 15 - fine_x),
                bit16(self.at_lo(), 15 - fine_x),
                bit16(self.pt_hi(), 15 - fine_x),
                bit16(self.pt_lo(), 15 - fine_x),
            ),
            r < 16,
    {
        let shift: u16 = (15 - fine_x) as u16;
        let p0: u8 = bit_at(self.pt_lo, shift);
        let p1: u8 = bit_at(self.pt_hi, shift);
        let a0: u8 = bit_at(self.at_lo, shift);
        let a1: u8 = bit_at(self.at_hi, shift);
        combine4(a1, a0, p1, p0)
    }
}

impl Default for BgPixLiner {
    fn default() -> (r: Self)
        ensures
            r.at_lo() == 0 && r.at_hi() == 0 && r.pt_lo() == 0 && r.pt_hi() == 0,
    {
        Self::new()
    }
}

/// `x << 1` on 16 bits.
pub fn shl1(x: u16) -> (r: u16)
    ensures
        r == ((x as int * 2) % 0x10000) as u16,
{
    proof {
        lemma_u16_bits();
    }
    x << 1
}

/// Bit `k` of `x`, as 0 or 1.
pub fn bit_at(x: u16, k: u16) -> (r: u8)
    requires
        k < 16,
    ensures
        r == bit16(x, k as int),
        r < 2,
{
    proof {
        lemma_bit16(x, k);
    }
    ((x >> k) & 0x01) as u8
}

/// `(a1 << 3) | (a0 << 2) | (p1 << 1) | p0` on bits.
pub fn combine4(a1: u8, a0: u8, p1: u8, p0: u8) -> (r: u8)
    requires
        a1 < 2 && a0 < 2 && p1 < 2 && p0 < 2,
    ensures
        r == compose_pixel(a1, a0, p1, p0),
        r < 16,
{
    proof {
        lemma_u16_bits();
    }
    (a1 << 3) | (a0 << 2) | (p1 << 1) | p0
}

proof fn lemma_bit16(x: u16, k: u16)
    requires
        k < 16,
    ensures
        ((x >> k) & 0x01) as u8 == bit16(x, k as int),
        ((x >> k) & 0x01) < 2,
{
    lemma_u16_bits();
    vstd::bits::lemma_u16_shr_is_div(x, k);
}


/// A left shift moves bit `k - 1` to bit `k`, and clears bit 0.
pub proof fn lemma_bit16_shifted(x: u16, k: int)
    requires
        0 <= k < 16,
    ensures
        bit16(((x as int * 2) % 0x10000) as u16, k) == if k == 0 { 0u8 } else { bit16(x, k - 1) },
{
    lemma_u16_bits();
    let y: u16 = x << 1u16;
    assert(y == ((x as int * 2) % 0x10000) as u16);
    let kk: u16 = k as u16;
    lemma_bit16(y, kk);
    assert(((x << 1u16) >> kk) & 0x01 == if kk == 0 { 0u16 } else { (x >> ((kk - 1) as u16)) & 0x01 }) by (bit_vector)
        requires
            kk < 16;
    if k > 0 {
        lemma_bit16(x, (kk - 1) as u16);
    }
}

/// The low byte replaced: its bits below 8 are those of `low`, the others
/// those of `x`.
pub proof fn lemma_bit16_low_byte(x: u16, low: u8, k: int)
    requires
        0 <= k < 16,
    ensures
        bit16(with_low_byte(x, low), k) == if k < 8 { bit16(low as u16, k) } else { bit16(x, k) },
{
    lemma_u16_bits();
    let y: u16 = (x & 0xFF00) | (low as u16);
    assert(y == with_low_byte(x, low));
    let kk: u16 = k as u16;
    lemma_bit16(y, kk);
    lemma_bit16(x, kk);
    lemma_bit16(low as u16, kk);
    assert((((x & 0xFF00) | (low as u16)) >> kk) & 0x01
        == if kk < 8 { ((low as u16) >> kk) & 0x01 } else { (x >> kk) & 0x01 }) by (bit_vector)
        requires
            kk < 16;
}

/// The bits of an all-ones and of an all-zeros byte.
pub proof fn lemma_bit16_full_empty(k: int)
    requires
        0 <= k < 8,
    ensures
        bit16(0xFFu16, k) == 1,
        bit16(0u16, k) == 0,
{
    let kk: u16 = k as u16;
    lemma_bit16(0xFFu16, kk);
    lemma_bit16(0u16, kk);
    assert((0xFFu16 >> kk) & 0x01 == 1 && (0u16 >> kk) & 0x01 == 0) by (bit_vector)
        requires
            kk < 8;
}

impl BgPixLiner {
    /// The palette index `pixel_index(fine_x)` gives.
    pub open spec fn pixel_at(self, fine_x: int) -> u8 {
        compose_pixel(
            bit16(self.at_hi(), 15 - fine_x),
            bit16(self.at_lo(), 15 - fine_x),
            bit16(self.pt_hi(), 15 - fine_x),
            bit16(self.pt_lo(), 15 - fine_x),
        )
    }
}

/// A shift moves every pixel one place: what stood at fine X `fx + 1`
/// stands at `fx`, and the last place is index 0.
pub proof fn lemma_liner_shift_moves_pixels(s: BgPixLiner, fx: int)
    requires
        0 <= fx <= 15,
    ensures
        fx < 15 ==> s.shifted().pixel_at(fx) == s.pixel_at(fx + 1),
        s.shifted().pixel_at(15) == 0,
{
    lemma_bit16_shifted(s.at_hi, 15 - fx);
    lemma_bit16_shifted(s.at_lo, 15 - fx);
    lemma_bit16_shifted(s.pt_hi, 15 - fx);
    lemma_bit16_shifted(s.pt_lo, 15 - fx);
    lemma_bit16_shifted(s.at_hi, 0);
    lemma_bit16_shifted(s.at_lo, 0);
    lemma_bit16_shifted(s.pt_hi, 0);
    lemma_bit16_shifted(s.pt_lo, 0);
}

/// `n` left shifts move bit `m - n` to bit `m`.
proof fn lemma_bit16_shl_n(x: u16, n: int, m: int)
    requires
        0 <= n <= m < 16,
    ensures
        bit16(shl_n(x, n), m) == bit16(x, m - n),
    decreases n,
{
    if n > 0 {
        lemma_bit16_shifted(shl_n(x, n - 1), m);
        lemma_bit16_shl_n(x, n - 1, m - 1);
    }
}

/// `x` shifted left `n` times on 16 bits.
pub open spec fn shl_n(x: u16, n: int) -> u16
    decreases n,
{
    if n <= 0 { x } else { ((shl_n(x, n - 1) as int * 2) % 0x10000) as u16 }
}

/// A tile line loaded, then shifted eight times, shows its pixels in order:
/// at fine X `x` (0..8) the attribute bits and pattern bit `7 - x`.
pub proof fn lemma_liner_load_then_eight_shifts(s: BgPixLiner, l: PixLine, x: int)
    requires
        0 <= x <= 7,
    ensures
        s.loaded(l).shifted().shifted().shifted().shifted().shifted().shifted().shifted().shifted().pixel_at(x)
            == compose_pixel(
                if l.at_hi { 1u8 } else { 0u8 },
                if l.at_lo { 1u8 } else { 0u8 },
                bit16(l.pt_hi as u16, 7 - x),
                bit16(l.pt_lo as u16, 7 - x),
            ),
{
    let t = s.loaded(l);
    let u = t.shifted().shifted().shifted().shifted().shifted().shifted().shifted().shifted();
    assert(u.at_hi == shl_n(t.at_hi, 8) && u.at_lo == shl_n(t.at_lo, 8) && u.pt_hi == shl_n(t.pt_hi, 8)
        && u.pt_lo == shl_n(t.pt_lo, 8)) by {
        reveal_with_fuel(shl_n, 9);
    }
    lemma_bit16_shl_n(t.at_hi, 8, 15 - x);
    lemma_bit16_shl_n(t.at_lo, 8, 15 - x);
    lemma_bit16_shl_n(t.pt_hi, 8, 15 - x);
    lemma_bit16_shl_n(t.pt_lo, 8, 15 - x);
    lemma_bit16_low_byte(s.at_hi, if l.at_hi { 0xFFu8 } else { 0u8 }, 7 - x);
    lemma_bit16_low_byte(s.at_lo, if l.at_lo { 0xFFu8 } else { 0u8 }, 7 - x);
    lemma_bit16_low_byte(s.pt_hi, l.pt_hi, 7 - x);
    lemma_bit16_low_byte(s.pt_lo, l.pt_lo, 7 - x);
    lemma_bit16_full_empty(7 - x);
}

} // verus!
