//! The board's picture processor, as far as it exists: register writes and
//! the clock reach it, and it does nothing with them yet.

use vstd::prelude::*;
use crate::board::bus::PpuBus;

verus! {

/// The picture processor of the board.
#[derive(Debug, Clone, Copy)]
pub struct Ppu {}

impl Ppu {
    /// A write to one of the eight registers; nothing changes.
    pub fn write_register(&mut self, _addr: u8, _data: u8)
        ensures
            *final(self) == *old(self),
    {
    }

    /// One CPU cycle's worth of PPU work; nothing changes.
    pub fn cpu_step(&mut self, _bus: &mut PpuBus)
        ensures
            *final(self) == *old(self),
            *final(_bus) == *old(_bus),
    {
    }

    /// One PPU cycle; nothing changes.
    pub fn tick(&mut self, _bus: &mut PpuBus)
        ensures
            *final(self) == *old(self),
            *final(_bus) == *old(_bus),
    {
    }
}

} // verus!
