//! The PPU's scroll registers as fields: `v` and `t` hold
//! `0yyy NNYY YYYX XXXX` (fine Y, nametable, coarse Y, coarse X), with the
//! fine X scroll and the write toggle beside them.

use vstd::prelude::*;

verus! {

/// Coarse X of a 15-bit scroll value.
pub open spec fn cx(v: u16) -> int {
    v as int % 32
}

/// Coarse Y of a 15-bit scroll value.
pub open spec fn cy(v: u16) -> int {
    (v as int / 32) % 32
}

/// Nametable select of a 15-bit scroll value.
pub open spec fn nt(v: u16) -> int {
    (v as int / 1024) % 4
}

/// Fine Y of a 15-bit scroll value.
pub open spec fn fy(v: u16) -> int {
    (v as int / 4096) % 8
}

/// The 15-bit value made of the four fields.
pub open spec fn compose(coarse_x: int, coarse_y: int, nametable: int, fine_y: int) -> int {
    coarse_x + 32 * coarse_y + 1024 * nametable + 4096 * fine_y
}

/// A 15-bit value is made of its four fields.
pub proof fn lemma_fields(v: u16)
    requires
        v < 0x8000,
    ensures
        v as int == compose(cx(v), cy(v), nt(v), fy(v)),
        0 <= cx(v) < 32 && 0 <= cy(v) < 32 && 0 <= nt(v) < 4 && 0 <= fy(v) < 8,
{
    assert(v as int == v as int % 32 + 32 * ((v as int / 32) % 32) + 1024 * ((v as int / 1024) % 4)
        + 4096 * ((v as int / 4096) % 8)) by (nonlinear_arith)
        requires
            0 <= v < 0x8000,
    ;
}

/// The fields of a composed value are the parts it was composed of.
pub proof fn lemma_compose(a: int, b: int, c: int, d: int)
    requires
        0 <= a < 32 && 0 <= b < 32 && 0 <= c < 4 && 0 <= d < 8,
    ensures
        0 <= compose(a, b, c, d) < 0x8000,
        cx(compose(a, b, c, d) as u16) == a,
        cy(compose(a, b, c, d) as u16) == b,
        nt(compose(a, b, c, d) as u16) == c,
        fy(compose(a, b, c, d) as u16) == d,
{
    let v = compose(a, b, c, d);
    assert(0 <= v < 0x8000);
    assert(v % 32 == a && (v / 32) % 32 == b && (v / 1024) % 4 == c && (v / 4096) % 8 == d) by (nonlinear_arith)
        requires
            0 <= a < 32 && 0 <= b < 32 && 0 <= c < 4 && 0 <= d < 8,
            v == a + 32 * b + 1024 * c + 4096 * d,
    ;
}

/// `into_bytes` and `from_bytes` undo each other: the bytes of the value
/// made of two bytes (the high one below `0x80`) are those bytes, and the
/// value made of the bytes of a 15-bit value is that value.
pub proof fn lemma_bytes_round_trip(lo: u8, hi: u8, v: u16)
    ensures
        hi < 0x80 ==> ((lo + 256 * hi) % 0x8000) % 256 == lo && ((lo + 256 * hi) % 0x8000) / 256 == hi,
        v < 0x8000 ==> ((v % 256) + 256 * (v / 256)) % 0x8000 == v,
{
}

/// A 15-bit scroll value (bit 15 is always 0).
#[derive(Clone, Copy, Debug)]
pub struct ScrollOffsets {
    bits: u16,
}

impl ScrollOffsets {
    /// The value.
    pub closed spec fn value(self) -> u16 {
        self.bits
    }

    /// A value below `0x8000`.
    pub open spec fn wf(self) -> bool {
        self.value() < 0x8000
    }

    /// The value 0.
    pub fn new() -> (r: Self)
        ensures
            r.value() == 0,
            r.wf(),
    {
        Self { bits: 0 }
    }

    /// The value of two little-endian bytes; bit 15 is not stored.
    pub fn from_bytes(bytes: [u8; 2]) -> (r: Self)
        ensures
            r.value() == (bytes[0] + 256 * bytes[1]) % 0x8000,
            bytes[1] < 0x80 ==> r.value() == bytes[0] + 256 * bytes[1],
            r.wf(),
    {
        Self { bits: bytes[0] as u16 + 256 * (bytes[1] % 0x80) as u16 }
    }

    /// The two little-endian bytes of the value.
    pub fn into_bytes(&self) -> (r: [u8; 2])
        ensures
            r[0] == self.value() % 256,
            r[1] == self.value() / 256,
    {
        [(self.bits % 256) as u8, (self.bits / 256) as u8]
    }

    /// The value as a 16-bit word (bit 15 is 0).
    pub fn as_u16(&self) -> (r: u16)
        ensures
            r == self.value(),
    {
        self.bits
    }

    pub fn coarse_x(&self) -> (r: u8)
        ensures
            r == cx(self.value()),
    {
        (self.bits % 32) as u8
    }

    pub fn coarse_y(&self) -> (r: u8)
        ensures
            r == cy(self.value()),
    {
        ((self.bits / 32) % 32) as u8
    }

    pub fn nametable(&self) -> (r: u8)
        ensures
            r == nt(self.value()),
    {
        ((self.bits / 1024) % 4) as u8
    }

    pub fn fine_y(&self) -> (r: u8)
        ensures
            r == fy(self.value()),
    {
        ((self.bits / 4096) % 8) as u8
    }

    pub fn set_coarse_x(&mut self, x: u8)
        requires
            old(self).wf(),
            x < 32,
        ensures
            final(self).wf(),
            final(self).value() == compose(x as int, cy(old(self).value()), nt(old(self).value()), fy(old(self).value())),
    {
        proof {
            lemma_fields(self.bits);
            lemma_compose(x as int, cy(self.bits), nt(self.bits), fy(self.bits));
        }
        self.bits = self.bits - self.bits % 32 + x as u16;
    }

    pub fn set_coarse_y(&mut self, y: u8)
        requires
            old(self).wf(),
            y < 32,
        ensures
            final(self).wf(),
            final(self).value() == compose(cx(old(self).value()), y as int, nt(old(self).value()), fy(old(self).value())),
    {
        proof {
            lemma_fields(self.bits);
            lemma_compose(cx(self.bits), y as int, nt(self.bits), fy(self.bits));
        }
        self.bits = self.bits - ((self.bits / 32) % 32) * 32 + 32 * y as u16;
    }

    pub fn set_nametable(&mut self, n: u8)
        requires
            old(self).wf(),
            n < 4,
        ensures
            final(self).wf(),
            final(self).value() == compose(cx(old(self).value()), cy(old(self).value()), n as int, fy(old(self).value())),
    {
        proof {
            lemma_fields(self.bits);
            lemma_compose(cx(self.bits), cy(self.bits), n as int, fy(self.bits));
        }
        self.bits = self.bits - ((self.bits / 1024) % 4) * 1024 + 1024 * n as u16;
    }

    pub fn set_fine_y(&mut self, y: u8)
        requires
            old(self).wf(),
            y < 8,
        ensures
            final(self).wf(),
            final(self).value() == compose(cx(old(self).value()), cy(old(self).value()), nt(old(self).value()), y as int),
    {
        proof {
            lemma_fields(self.bits);
            lemma_compose(cx(self.bits), cy(self.bits), nt(self.bits), y as int);
        }
        self.bits = self.bits - ((self.bits / 4096) % 8) * 4096 + 4096 * y as u16;
    }

    /// Adds `v`, wrapping within 15 bits.
    pub fn increment(&mut self, v: u16)
        ensures
            final(self).value() == (old(self).value() + v) % 0x8000,
            final(self).wf(),
    {
        let res: u16 = self.bits.wrapping_add(v) % 0x8000;
        self.bits = res;
    }

    /// Moves coarse X on; past 31 it wraps and flips the horizontal
    /// nametable bit.
    pub fn increment_coarse_x(&mut self)
        requires
            old(self).wf(),
        ensures
            final(self).wf(),
            final(self).value() == if cx(old(self).value()) == 31 {
                compose(0, cy(old(self).value()), (nt(old(self).value()) + if nt(old(self).value()) % 2 == 0 { 1int } else { -1int }), fy(old(self).value()))
            } else {
                compose(cx(old(self).value()) + 1, cy(old(self).value()), nt(old(self).value()), fy(old(self).value()))
            },
    {
        let ghost v0 = self.bits;
        proof {
            lemma_fields(v0);
        }
        if self.coarse_x() == 31 {
            self.set_coarse_x(0);
            proof {
                lemma_compose(0, cy(v0), nt(v0), fy(v0));
            }
            let n: u8 = self.nametable();
            self.set_nametable(if n % 2 == 0 { n + 1 } else { n - 1 }); // inverse nametable x bit
        } else {
            let x: u8 = self.coarse_x();
            self.set_coarse_x(x + 1);
        }
    }

    /// Moves fine Y on; past 7 it wraps and coarse Y moves on.
    pub fn increment_fine_y(&mut self)
        requires
            old(self).wf(),
        ensures
            final(self).wf(),
            fy(old(self).value()) < 7 ==> final(self).value() == compose(cx(old(self).value()), cy(old(self).value()), nt(old(self).value()), fy(old(self).value()) + 1),
            fy(old(self).value()) == 7 ==> fy(final(self).value()) == 0 && cx(final(self).value()) == cx(old(self).value())
                && (cy(old(self).value()) >= 29 ==> cy(final(self).value()) == 0 && nt(final(self).value()) == (nt(old(self).value()) + 2) % 4)
                && (cy(old(self).value()) < 29 ==> cy(final(self).value()) == cy(old(self).value()) + 1 && nt(final(self).value()) == nt(old(self).value())),
    {
        let ghost v0 = self.bits;
        proof {
            lemma_fields(v0);
        }
        if self.fine_y() == 7 {
            self.set_fine_y(0);
            proof {
                lemma_compose(cx(v0), cy(v0), nt(v0), 0);
            }
            self.increment_coarse_y();
        } else {
            let y: u8 = self.fine_y();
            self.set_fine_y(y + 1);
        }
    }

    /// The nametable byte address for the tile `v` points at.
    pub fn nametable_addr(&self) -> (r: u16)
        requires
            self.wf(),
        ensures
            r == 0x2000 + self.value() % 0x1000,
    {
        0x2000 + self.bits % 0x1000
    }

    /// The attribute byte address for the tile `v` points at: the
    /// attribute table after the nametable, one byte per 4x4 tiles.
    pub fn attribute_addr(&self) -> (r: u16)
        requires
            self.wf(),
        ensures
            r == 0x23C0 + 0x400 * nt(self.value()) + 8 * (cy(self.value()) / 4) + cx(self.value()) / 4,
    {
        let n: u16 = (self.bits / 1024) % 4;
        let y: u16 = (self.bits / 32) % 32;
        let x: u16 = self.bits % 32;
        0x23C0 + 0x400 * n + 8 * (y / 4) + x / 4
    }

    /// The two attribute bits of the current tile within an attribute
    /// byte: each byte covers 4x4 tiles in four 2x2 quadrants.
    pub fn extract_attribute_from_byte(&self, byte: u8) -> (r: u8)
        ensures
            r == (byte as int / vstd::arithmetic::power2::pow2((4 * ((cy(self.value()) / 2) % 2) + 2 * ((cx(self.value()) / 2) % 2)) as nat) as int) % 4,
    {
        let shift: u8 = 4 * ((self.coarse_y() / 2) % 2) + 2 * ((self.coarse_x() / 2) % 2);
        proof {
            vstd::bits::lemma_u8_shr_is_div(byte, shift);
            crate::bits::lemma_u8_field_bounds();
        }
        (byte >> shift) % 4
    }

    /// Moves coarse Y on; from 29 it wraps to 0 and flips the vertical
    /// nametable bit.
    fn increment_coarse_y(&mut self)
        requires
            old(self).wf(),
        ensures
            final(self).wf(),
            cx(final(self).value()) == cx(old(self).value()),
            fy(final(self).value()) == fy(old(self).value()),
            cy(old(self).value()) >= 29 ==> cy(final(self).value()) == 0 && nt(final(self).value()) == (nt(old(self).value()) + 2) % 4,
            cy(old(self).value()) < 29 ==> cy(final(self).value()) == cy(old(self).value()) + 1 && nt(final(self).value()) == nt(old(self).value()),
    {
        let ghost v0 = self.bits;
        proof {
            lemma_fields(v0);
        }
        if self.coarse_y() >= 29 {
            self.set_coarse_y(0);
            proof {
                lemma_compose(cx(v0), 0, nt(v0), fy(v0));
            }
            let n: u8 = self.nametable();
            self.set_nametable((n + 2) % 4); // inverse nametable y bit
            proof {
                lemma_compose(cx(v0), 0, (nt(v0) + 2) % 4, fy(v0));
            }
        } else {
            let y: u8 = self.coarse_y();
            self.set_coarse_y(y + 1);
            proof {
                lemma_compose(cx(v0), cy(v0) + 1, nt(v0), fy(v0));
            }
        }
    }
}

/// The registers behind PPUSCROLL and PPUADDR.
#[derive(Clone, Copy, Debug)]
pub struct LoopyRegister {
    pub v: ScrollOffsets,
    pub t: ScrollOffsets,
    fine_x: u8,
    w: bool,
}

impl LoopyRegister {
    /// The current VRAM address.
    pub closed spec fn vreg(self) -> ScrollOffsets {
        self.v
    }

    /// The temporary VRAM address.
    pub closed spec fn treg(self) -> ScrollOffsets {
        self.t
    }

    pub closed spec fn fine_x_spec(self) -> u8 {
        self.fine_x
    }

    /// The write toggle: the next PPUSCROLL or PPUADDR write is the second.
    pub closed spec fn w(self) -> bool {
        self.w
    }

    pub open spec fn wf(self) -> bool {
        self.vreg().wf() && self.treg().wf() && self.fine_x_spec() < 8
    }

    /// The registers at power-up: all zero.
    pub fn new() -> (r: Self)
        ensures
            r.wf(),
            r.vreg().value() == 0 && r.treg().value() == 0 && r.fine_x_spec() == 0 && !r.w(),
    {
        Self { v: ScrollOffsets::new(), t: ScrollOffsets::new(), fine_x: 0, w: false }
    }

    /// Clears every register.
    pub fn reset(&mut self)
        ensures
            final(self).wf(),
            final(self).vreg().value() == 0 && final(self).treg().value() == 0 && final(self).fine_x_spec() == 0 && !final(self).w(),
    {
        self.v = ScrollOffsets::new();
        self.t = ScrollOffsets::new();
        self.fine_x = 0;
        self.w = false;
    }

    pub fn fine_x(&self) -> (r: u8)
        ensures
            r == self.fine_x_spec(),
    {
        self.fine_x
    }

    /// Clears the write toggle.
    pub fn clear_w(&mut self)
        ensures
            !final(self).w(),
            final(self).vreg() == old(self).vreg() && final(self).treg() == old(self).treg() && final(self).fine_x_spec() == old(self).fine_x_spec(),
    {
        self.w = false;
    }

    /// Writes PPUSCROLL: the first write sets fine X and coarse X of `t`,
    /// the second fine Y and coarse Y.
    pub fn write_ppuscroll(&mut self, data: u8)
        requires
            old(self).wf(),
        ensures
            final(self).wf(),
            final(self).w() == !old(self).w(),
            final(self).vreg() == old(self).vreg(),
            !old(self).w() ==> final(self).fine_x_spec() == data % 8
                && final(self).treg().value() == compose(data as int / 8, cy(old(self).treg().value()), nt(old(self).treg().value()), fy(old(self).treg().value())),
            old(self).w() ==> final(self).fine_x_spec() == old(self).fine_x_spec()
                && final(self).treg().value() == compose(cx(old(self).treg().value()), data as int / 8, nt(old(self).treg().value()), data as int % 8),
    {
        proof {
            crate::bits::lemma_u8_field_bounds();
        }
        if !self.w {
            // first write
            self.fine_x = data & 0x07;
            self.t.set_coarse_x(data >> 3u8);
        } else {
            // second write
            let ghost t0 = self.t.value();
            proof {
                lemma_fields(t0);
            }
            self.t.set_fine_y(data & 0x07);
            proof {
                lemma_compose(cx(t0), cy(t0), nt(t0), data as int % 8);
            }
            self.t.set_coarse_y(data >> 3u8);
        }
        self.w = !self.w;
    }

    /// Writes PPUADDR: the first write sets the high six bits of `t`, the
    /// second its low byte, and copies `t` to `v`.
    pub fn write_ppuaddr(&mut self, data: u8)
        requires
            old(self).wf(),
        ensures
            final(self).wf(),
            final(self).w() == !old(self).w(),
            final(self).fine_x_spec() == old(self).fine_x_spec(),
            !old(self).w() ==> final(self).treg().value() == old(self).treg().value() % 256 + 256 * (data % 0x40)
                && final(self).vreg() == old(self).vreg(),
            old(self).w() ==> final(self).treg().value() == data + 256 * (old(self).treg().value() / 256)
                && final(self).vreg() == final(self).treg(),
    {
        proof {
            crate::bits::lemma_u8_field_bounds();
        }
        if !self.w {
            // first write
            let bytes: [u8; 2] = self.t.into_bytes();
            self.t = ScrollOffsets::from_bytes([bytes[0], data & 0x3F]);
        } else {
            // second write
            let bytes: [u8; 2] = self.t.into_bytes();
            self.t = ScrollOffsets::from_bytes([data, bytes[1]]);
            self.v = self.t;
        }
        self.w = !self.w;
    }

    /// Copies coarse X and the horizontal nametable bit from `t` to `v`.
    pub fn copy_horizontal(&mut self)
        requires
            old(self).wf(),
        ensures
            final(self).wf(),
            final(self).treg() == old(self).treg(),
            final(self).fine_x_spec() == old(self).fine_x_spec(),
            final(self).w() == old(self).w(),
            final(self).vreg().value() == compose(
                cx(old(self).treg().value()),
                cy(old(self).vreg().value()),
                2 * (nt(old(self).vreg().value()) / 2) + nt(old(self).treg().value()) % 2,
                fy(old(self).vreg().value()),
            ),
    {
        let ghost v0 = self.v.value();
        proof {
            lemma_fields(v0);
        }
        let x: u8 = self.t.coarse_x();
        self.v.set_coarse_x(x);
        proof {
            lemma_compose(x as int, cy(v0), nt(v0), fy(v0));
        }
        let nv: u8 = self.v.nametable();
        let nt_t: u8 = self.t.nametable();
        proof {
            lemma_merge_nametable(nv, nt_t);
        }
        let n: u8 = (nv & 0x2) | (nt_t & 0x1);
        self.v.set_nametable(n);
    }

    /// Copies fine Y, coarse Y and the vertical nametable bit from `t` to
    /// `v`.
    pub fn copy_vertical(&mut self)
        requires
            old(self).wf(),
        ensures
            final(self).wf(),
            final(self).treg() == old(self).treg(),
            final(self).fine_x_spec() == old(self).fine_x_spec(),
            final(self).w() == old(self).w(),
            final(self).vreg().value() == compose(
                cx(old(self).vreg().value()),
                cy(old(self).treg().value()),
                2 * (nt(old(self).treg().value()) / 2) + nt(old(self).vreg().value()) % 2,
                fy(old(self).treg().value()),
            ),
    {
        let ghost v0 = self.v.value();
        proof {
            lemma_fields(v0);
        }
        let fy_t: u8 = self.t.fine_y();
        self.v.set_fine_y(fy_t);
        proof {
            lemma_compose(cx(v0), cy(v0), nt(v0), fy_t as int);
        }
        let cy_t: u8 = self.t.coarse_y();
        self.v.set_coarse_y(cy_t);
        proof {
            lemma_compose(cx(v0), cy_t as int, nt(v0), fy_t as int);
        }
        let nt_t: u8 = self.t.nametable();
        let nv: u8 = self.v.nametable();
        proof {
            lemma_merge_nametable(nt_t, nv);
        }
        let n: u8 = (nt_t & 0x2) | (nv & 0x1);
        self.v.set_nametable(n);
    }
}

proof fn lemma_merge_nametable(hi_from: u8, lo_from: u8)
    requires
        hi_from < 4,
        lo_from < 4,
    ensures
        (hi_from & 0x2) | (lo_from & 0x1) == 2 * (hi_from / 2) + lo_from % 2,
        (hi_from & 0x2) | (lo_from & 0x1) < 4,
{
    assert(hi_from < 4 && lo_from < 4 ==> (hi_from & 0x2) | (lo_from & 0x1) == 2 * (hi_from / 2) + lo_from % 2) by (bit_vector);
}

} // verus!
