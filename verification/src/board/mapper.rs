pub mod disconnected;
pub mod nrom;

use vstd::prelude::*;
pub use crate::nes::nescart::mirroring::Mirroring;
pub use disconnected::Disconnected;
pub use nrom::Nrom;

verus! {

/// Where a PPU read is served.
#[derive(Debug, Clone, Copy, PartialEq, Eq)]
pub enum PpuReadHook {
    InternalVram(u16),
    ExternalVram(u8),
}

/// Where a PPU write goes.
#[derive(Debug, Clone, Copy, PartialEq, Eq)]
pub enum PpuWriteHook {
    InternalVram(u16, u8),
    ExternalVram,
}

/// A cartridge board as the buses see it.
pub trait MapperLogic {
    /// Whether the board serves a CPU access at `addr` (it panics otherwise).
    spec fn cpu_access_ok(&self, addr: u16) -> bool;

    fn irq_active(&self) -> bool;

    fn cpu_step(&mut self);

    fn cpu_read(&mut self, addr: u16) -> u8
        requires
            old(self).cpu_access_ok(addr),
    ;

    /// Whether the board takes a CPU write at `addr` (it panics otherwise).
    spec fn cpu_write_ok(&self, addr: u16) -> bool;

    fn cpu_write(&mut self, addr: u16, data: u8)
        requires
            old(self).cpu_write_ok(addr),
    ;

    fn ppu_read(&mut self, addr: u16) -> PpuReadHook;

    fn ppu_write(&mut self, addr: u16, data: u8) -> PpuWriteHook;
}

/// The boards this front end knows.
#[derive(Debug, Clone)]
pub enum Mapper {
    Nrom(Nrom),
}

impl MapperLogic for Mapper {
    open spec fn cpu_access_ok(&self, addr: u16) -> bool {
        match self {
            Mapper::Nrom(m) => m.cpu_access_ok(addr),
        }
    }

    open spec fn cpu_write_ok(&self, addr: u16) -> bool {
        match self {
            Mapper::Nrom(m) => m.cpu_write_ok(addr),
        }
    }

    fn irq_active(&self) -> (r: bool)
        ensures
            !r,
    {
        match self {
            Mapper::Nrom(m) => m.irq_active(),
        }
    }

    fn cpu_step(&mut self)
        ensures
            *final(self) == *old(self),
    {
        match self {
            Mapper::Nrom(m) => m.cpu_step(),
        }
    }

    fn cpu_read(&mut self, addr: u16) -> (r: u8)
        ensures
            *final(self) == *old(self),
            match *old(self) {
                Mapper::Nrom(m) => r == m.read_spec(addr),
            },
    {
        match self {
            Mapper::Nrom(m) => m.cpu_read(addr),
        }
    }

    fn cpu_write(&mut self, addr: u16, data: u8)
        ensures
            match (*old(self), *final(self)) {
                (Mapper::Nrom(m0), Mapper::Nrom(m1)) => m1.written(m0, addr, data),
            },
    {
        match self {
            Mapper::Nrom(m) => m.cpu_write(addr, data),
        }
    }

    fn ppu_read(&mut self, addr: u16) -> (r: PpuReadHook)
        ensures
            r == PpuReadHook::ExternalVram(0),
            *final(self) == *old(self),
    {
        match self {
            Mapper::Nrom(m) => m.ppu_read(addr),
        }
    }

    fn ppu_write(&mut self, addr: u16, data: u8) -> (r: PpuWriteHook)
        ensures
            r == PpuWriteHook::ExternalVram,
            *final(self) == *old(self),
    {
        match self {
            Mapper::Nrom(m) => m.ppu_write(addr, data),
        }
    }
}

/// Everything a board is built from.
#[derive(Debug, Clone)]
pub struct MapperCtx {
    pub mapper_id: u32,
    pub submapper: u8,
    pub hardwired_nt: Mirroring,
    pub alternative_nt: bool,
    pub prgrom: Vec<u8>,
    pub chrrom: Vec<u8>,
    pub prgram_size: u32,
    pub chrram_size: u32,
}

impl MapperCtx {
    /// Builds the board; only mapper 0 (NROM) is available.
    pub fn create(self) -> (r: Mapper)
        requires
            self.mapper_id == 0,
        ensures
            match r {
                Mapper::Nrom(m) => m.built_from(self),
            },
    {
        Mapper::Nrom(Nrom::new(self))
    }
}

} // verus!
