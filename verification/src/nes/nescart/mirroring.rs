use vstd::prelude::*;

verus! {

/// Which memory a nametable access lands in.
#[derive(Debug, Clone, Copy, PartialEq, Eq)]
pub enum VramTarget {
    /// The console's 2 KiB of VRAM.
    Internal,
    /// Memory on the cartridge.
    External,
}

/// How the four logical nametables are laid onto physical memory.
#[derive(Debug, Clone, Copy, PartialEq, Eq)]
pub enum Mirroring {
    Horizontal,
    Vertical,
    SingleScreen0,
    SingleScreen1,
    FourScreen,
}

/// Size of one nametable.
pub const NAMETABLE_SIZE: u16 = 0x400;

/// Where the nametable address `bus_addr` (in `0x2000..=0x2FFF`) lands:
/// the offset within the target memory, and the target.
pub open spec fn resolve_spec(m: Mirroring, bus_addr: u16) -> (u16, VramTarget) {
    let idx = (bus_addr / 0x400) % 4;
    let addr = bus_addr % 0x400;
    match m {
        Mirroring::Horizontal => if idx <= 1 {
            (addr as u16, VramTarget::Internal)
        } else {
            ((addr + 0x400) as u16, VramTarget::Internal)
        },
        Mirroring::Vertical => if idx == 0 || idx == 2 {
            (addr as u16, VramTarget::Internal)
        } else {
            ((addr + 0x400) as u16, VramTarget::Internal)
        },
        Mirroring::SingleScreen0 => (addr as u16, VramTarget::Internal),
        Mirroring::SingleScreen1 => ((addr + 0x400) as u16, VramTarget::Internal),
        Mirroring::FourScreen => if idx == 0 {
            (addr as u16, VramTarget::Internal)
        } else if idx == 1 {
            ((addr + 0x400) as u16, VramTarget::Internal)
        } else if idx == 2 {
            (addr as u16, VramTarget::External)
        } else {
            ((addr + 0x400) as u16, VramTarget::External)
        },
    }
}

impl Mirroring {
    /// Resolves the specified nametable address using the current mirroring
    /// mode. Addresses outside `0x2000..=0x2FFF` belong to the PPU bus and
    /// are not accepted.
    pub fn resolve(&self, bus_addr: u16) -> (r: (u16, VramTarget))
        requires
            0x2000 <= bus_addr <= 0x2FFF,
        ensures
            r == resolve_spec(*self, bus_addr),
            r.0 < 0x800,
    {
        let idx: u16 = (bus_addr / 0x400) % 4;
        let addr: u16 = bus_addr % 0x400;

        match self {
            Mirroring::Horizontal => {
                if idx == 0 || idx == 1 {
                    (addr, VramTarget::Internal)
                } else {
                    (addr + NAMETABLE_SIZE, VramTarget::Internal)
                }
            },
            Mirroring::Vertical => {
                if idx == 0 || idx == 2 {
                    (addr, VramTarget::Internal)
                } else {
                    (addr + NAMETABLE_SIZE, VramTarget::Internal)
                }
            },
            Mirroring::SingleScreen0 => (addr, VramTarget::Internal),
            Mirroring::SingleScreen1 => (addr + NAMETABLE_SIZE, VramTarget::Internal),
            Mirroring::FourScreen => {
                if idx == 0 {
                    (addr, VramTarget::Internal)
                } else if idx == 1 {
                    (addr + NAMETABLE_SIZE, VramTarget::Internal)
                } else if idx == 2 {
                    (addr, VramTarget::External)
                } else {
                    (addr + NAMETABLE_SIZE, VramTarget::External)
                }
            },
        }
    }
}

/// Under every mirroring, two addresses that differ by a multiple of
/// `0x800` within a nametable pair land on the same place for horizontal
/// mirroring, and by `0x400` for vertical mirroring; the offset inside a
/// nametable is always kept.
pub proof fn lemma_resolve_keeps_offset(m: Mirroring, a: u16)
    requires
        0x2000 <= a <= 0x2FFF,
    ensures
        resolve_spec(m, a).0 % 0x400 == a % 0x400,
        resolve_spec(m, a).0 < 0x800,
        m is Horizontal && a + 0x400 <= 0x2FFF && (a / 0x400) % 2 == 0
            ==> resolve_spec(m, a) == resolve_spec(m, (a + 0x400) as u16),
        m is Vertical && a + 0x800 <= 0x2FFF
            ==> resolve_spec(m, a) == resolve_spec(m, (a + 0x800) as u16),
{
}

/// Which kilobyte (0 or 1) of its memory nametable `n` (0..4, at
/// `0x2000 + 0x400 * n`) uses: horizontal mirroring pairs tables 0-1 and
/// 2-3, vertical pairs 0-2 and 1-3, one-screen uses one kilobyte for all;
/// four-screen gives tables 0 and 1 the console's RAM and 2 and 3 the
/// cartridge's.
pub open spec fn nametable_page(m: Mirroring, n: int) -> int {
    match m {
        Mirroring::Horizontal => n / 2,
        Mirroring::Vertical => n % 2,
        Mirroring::SingleScreen0 => 0,
        Mirroring::SingleScreen1 => 1,
        Mirroring::FourScreen => n % 2,
    }
}

/// Every nametable address lands at its offset within the kilobyte its
/// table uses; only four-screen mirroring sends tables 2 and 3 off the
/// console.
pub proof fn lemma_nametable_layout(m: Mirroring, n: int, o: u16)
    requires
        0 <= n < 4,
        o < 0x400,
    ensures
        resolve_spec(m, (0x2000 + 0x400 * n + o) as u16).0 == (nametable_page(m, n) * 0x400 + o) as u16,
        resolve_spec(m, (0x2000 + 0x400 * n + o) as u16).1
            == if m is FourScreen && n >= 2 { VramTarget::External } else { VramTarget::Internal },
{
    let a = (0x2000 + 0x400 * n + o) as u16;
    assert((a / 0x400) % 4 == n && a % 0x400 == o) by {
        if n == 0 {
        } else if n == 1 {
        } else if n == 2 {
        } else {
        }
    }
}

} // verus!
