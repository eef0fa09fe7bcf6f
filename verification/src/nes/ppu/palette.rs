//! Palette RAM: 32 six-bit color indices, with the backdrop entries of the
//! sprite palettes mirrored onto those of the background palettes.

use vstd::prelude::*;
use crate::bits::lemma_u8_field_bounds;

verus! {

pub const PALETTE_SIZE: usize = 0x20;

/// The cell that palette address `addr` selects: bits 0..5 of the address,
/// with `0x10`, `0x14`, `0x18` and `0x1C` folded onto `0x00`, `0x04`,
/// `0x08` and `0x0C`.
pub open spec fn palette_cell(addr: u8) -> int {
    let a = addr % 0x20;
    if a == 0x10 || a == 0x14 || a == 0x18 || a == 0x1C {
        a - 0x10
    } else {
        a as int
    }
}

/// Palette RAM.
#[derive(Debug, Clone, Copy)]
pub struct Palette {
    inner: [u8; PALETTE_SIZE],
}

impl View for Palette {
    type V = Seq<u8>;

    closed spec fn view(&self) -> Seq<u8> {
        self.inner@
    }
}

impl Palette {
    /// Every cell holds a six-bit color index.
    pub open spec fn wf(&self) -> bool {
        &&& self@.len() == PALETTE_SIZE
        &&& forall|i: int| 0 <= i < PALETTE_SIZE ==> #[trigger] self@[i] < 0x40
    }

    /// Creates palette RAM in its power-on state: all zeros.
    pub fn new() -> (r: Self)
        ensures
            r.wf(),
            r@ == Seq::new(PALETTE_SIZE as nat, |i: int| 0u8),
    {
        let r = Self { inner: [0u8; PALETTE_SIZE] };
        assert(r@ =~= Seq::new(PALETTE_SIZE as nat, |i: int| 0u8));
        r
    }

    /// Reads the color index at `addr`.
    pub fn read(&self, addr: u8) -> (r: u8)
        requires
            self.wf(),
        ensures
            r == self@[palette_cell(addr)],
            r < 0x40,
    {
        let i: usize = Self::resolve_addr(addr) as usize;
        let v: u8 = self.inner[i];
        proof {
            lemma_u8_field_bounds();
        }
        v & 0x3F
    }

    /// Writes the color index `data % 64` at `addr`.
    pub fn write(&mut self, addr: u8, data: u8)
        requires
            old(self).wf(),
        ensures
            final(self).wf(),
            final(self)@ == old(self)@.update(palette_cell(addr), data % 0x40),
    {
        let i: usize = Self::resolve_addr(addr) as usize;
        proof {
            lemma_u8_field_bounds();
        }
        self.inner[i] = data & 0x3F;
        assert(self@ =~= old(self)@.update(palette_cell(addr), data % 0x40));
    }

    /// Resolves palette mirroring.
    fn resolve_addr(addr: u8) -> (r: u8)
        ensures
            r == palette_cell(addr),
            r < 0x20,
    {
        proof {
            lemma_u8_field_bounds();
        }
        let addr: u8 = addr & 0x1F;
        match addr {
            0x10 => 0x00,
            0x14 => 0x04,
            0x18 => 0x08,
            0x1C => 0x0C,
            _ => addr,
        }
    }
}

/// A write to a palette address is what a read of it, or of any address
/// that mirrors it, gives back (as a six-bit index).
pub proof fn lemma_palette_read_after_write(p: Palette, q: Palette, waddr: u8, data: u8, raddr: u8)
    requires
        p.wf(),
        q@ == p@.update(palette_cell(waddr), data % 0x40),
        palette_cell(raddr) == palette_cell(waddr),
    ensures
        q@[palette_cell(raddr)] == data % 0x40,
{
}

/// Two palette addresses share a cell exactly when they agree in their low
/// five bits, or when both are backdrop entries (multiples of 4) that
/// agree in their low four bits: `0x10`, `0x14`, `0x18`, `0x1C` mirror
/// `0x00`, `0x04`, `0x08`, `0x0C`, and the other sprite entries have cells
/// of their own.
pub proof fn lemma_palette_sharing(a: u8, b: u8)
    ensures
        0 <= palette_cell(a) < 0x20,
        (palette_cell(a) == palette_cell(b))
            == (a % 32 == b % 32 || (a % 4 == 0 && b % 4 == 0 && a % 16 == b % 16)),
{
}

/// A palette write leaves every cell that the written address does not
/// select: a read of an address that does not share its cell gives what
/// it gave before.
pub proof fn lemma_palette_write_elsewhere(p: Palette, q: Palette, waddr: u8, data: u8, raddr: u8)
    requires
        p.wf(),
        q@ == p@.update(palette_cell(waddr), data % 0x40),
        !(raddr % 32 == waddr % 32 || (raddr % 4 == 0 && waddr % 4 == 0 && raddr % 16 == waddr % 16)),
    ensures
        q@[palette_cell(raddr)] == p@[palette_cell(raddr)],
{
    lemma_palette_sharing(raddr, waddr);
}

} // verus!
