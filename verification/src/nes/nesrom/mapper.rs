//! The boards a `NesRom` can be built on.

use vstd::prelude::*;
use crate::nes::nescart::mapper::Nrom;
use crate::nes::nescart::mapper::MapperArgs as BoardArgs;

pub use crate::nes::nescart::mirroring::Mirroring;
pub use crate::nes::nescart::mapper::{MapperLogic, MappedCpuRead, MappedCpuWrite, MappedPpuRead, MappedPpuWrite};

verus! {

/// The sizes and wiring a board is built with.
#[derive(Debug, Clone, Copy)]
pub struct MapperArgs {
    pub hardwired_nt: Mirroring,
    pub alternative_nt: bool,
    pub prgrom_size: u32,
    pub chrrom_size: u32,
    pub prgram_size: u32,
    pub chrram_size: u32,
}

/// The boards a `NesRom` knows.
#[derive(Debug, Clone, Copy)]
pub enum Mapper {
    Nrom(Nrom),
}

impl Mapper {
    /// This board is the one `args` describe: an NROM wired vertically when
    /// the hardwired mirroring is vertical and horizontally otherwise, with
    /// the given sizes.
    pub open spec fn built_from(self, args: MapperArgs) -> bool {
        match self {
            Mapper::Nrom(n) => {
                &&& n.mirroring() == (if args.hardwired_nt is Vertical { Mirroring::Vertical } else { Mirroring::Horizontal })
                &&& n.prgram_size() == args.prgram_size
                &&& n.prgrom_size() == args.prgrom_size
                &&& n.chrrom_size() == args.chrrom_size
            },
        }
    }

    /// Builds the board for iNES mapper `mapper_id`; only mapper 0 (NROM)
    /// is known, with any submapper. A board with hardwired vertical
    /// mirroring is wired vertically, any other horizontally.
    pub fn new(mapper_id: u32, submapper: u8, args: MapperArgs) -> (r: Option<Self>)
        ensures
            r is Some <==> mapper_id == 0,
            r matches Some(m) ==> m.inv(),
            r matches Some(m) ==> m.built_from(args),
    {
        if mapper_id == 0 {
            let vertical_nt: bool = match args.hardwired_nt {
                Mirroring::Vertical => true,
                _ => false,
            };
            let board = BoardArgs {
                vertical_nt,
                alternative_nt: args.alternative_nt,
                prgrom_size: args.prgrom_size,
                chrrom_size: args.chrrom_size,
                prgram_size: args.prgram_size,
                chrram_size: args.chrram_size,
            };
            Some(Mapper::Nrom(Nrom::new(board)))
        } else {
            None
        }
    }
}

impl MapperLogic for Mapper {
    open spec fn inv(&self) -> bool {
        match self {
            Mapper::Nrom(m) => m.inv(),
        }
    }

    open spec fn irq_spec(&self) -> bool {
        match self {
            Mapper::Nrom(m) => m.irq_spec(),
        }
    }

    open spec fn stepped(&self) -> Self {
        match self {
            Mapper::Nrom(m) => Mapper::Nrom(m.stepped()),
        }
    }

    open spec fn cpu_read_ok(&self, addr: u16) -> bool {
        match self {
            Mapper::Nrom(m) => m.cpu_read_ok(addr),
        }
    }

    open spec fn cpu_read_spec(&self, addr: u16) -> MappedCpuRead {
        match self {
            Mapper::Nrom(m) => m.cpu_read_spec(addr),
        }
    }

    open spec fn cpu_write_ok(&self, addr: u16) -> bool {
        match self {
            Mapper::Nrom(m) => m.cpu_write_ok(addr),
        }
    }

    open spec fn cpu_write_spec(&self, addr: u16, data: u8) -> (MappedCpuWrite, Self) {
        match self {
            Mapper::Nrom(m) => (m.cpu_write_spec(addr, data).0, Mapper::Nrom(m.cpu_write_spec(addr, data).1)),
        }
    }

    open spec fn ppu_read_ok(&self, addr: u16) -> bool {
        match self {
            Mapper::Nrom(m) => m.ppu_read_ok(addr),
        }
    }

    open spec fn ppu_read_spec(&self, addr: u16) -> (MappedPpuRead, Self) {
        match self {
            Mapper::Nrom(m) => (m.ppu_read_spec(addr).0, Mapper::Nrom(m.ppu_read_spec(addr).1)),
        }
    }

    open spec fn ppu_write_ok(&self, addr: u16) -> bool {
        match self {
            Mapper::Nrom(m) => m.ppu_write_ok(addr),
        }
    }

    open spec fn ppu_write_spec(&self, addr: u16, data: u8) -> (MappedPpuWrite, Self) {
        match self {
            Mapper::Nrom(m) => (m.ppu_write_spec(addr, data).0, Mapper::Nrom(m.ppu_write_spec(addr, data).1)),
        }
    }

    open spec fn serves(&self, prgrom_len: nat, prgram_len: nat, chrrom_len: nat, chrram_len: nat) -> bool {
        match self {
            Mapper::Nrom(m) => m.serves(prgrom_len, prgram_len, chrrom_len, chrram_len),
        }
    }

    proof fn lemma_serves(&self, prgrom_len: nat, prgram_len: nat, chrrom_len: nat, chrram_len: nat, addr: u16, data: u8) {
        match self {
            Mapper::Nrom(m) => m.lemma_serves(prgrom_len, prgram_len, chrrom_len, chrram_len, addr, data),
        }
    }

    fn check_serves(&self, prgrom_len: usize, prgram_len: usize, chrrom_len: usize, chrram_len: usize) -> (r: bool) {
        match self {
            Mapper::Nrom(m) => m.check_serves(prgrom_len, prgram_len, chrrom_len, chrram_len),
        }
    }

    fn irq_active(&self) -> (r: bool) {
        match self {
            Mapper::Nrom(m) => m.irq_active(),
        }
    }

    fn cpu_step(&mut self) {
        match self {
            Mapper::Nrom(m) => m.cpu_step(),
        }
    }

    fn map_cpu_read(&mut self, addr: u16) -> (r: MappedCpuRead) {
        match self {
            Mapper::Nrom(m) => m.map_cpu_read(addr),
        }
    }

    fn map_cpu_write(&mut self, addr: u16, data: u8) -> (r: MappedCpuWrite) {
        match self {
            Mapper::Nrom(m) => m.map_cpu_write(addr, data),
        }
    }

    fn map_ppu_read(&mut self, addr: u16) -> (r: MappedPpuRead) {
        match self {
            Mapper::Nrom(m) => m.map_ppu_read(addr),
        }
    }

    fn map_ppu_write(&mut self, addr: u16, data: u8) -> (r: MappedPpuWrite) {
        match self {
            Mapper::Nrom(m) => m.map_ppu_write(addr, data),
        }
    }
}

} // verus!
