//! A cartridge built from a parsed ROM image.

pub mod mapper;

use vstd::prelude::*;
use crate::nes::emufile::NesRomInfo;
use mapper::{MapperArgs, MappedCpuRead, MappedCpuWrite, MappedPpuRead, MappedPpuWrite, Mapper, MapperLogic};

verus! {

/// What a PPU read of the cartridge space gives.
#[derive(Debug, Clone, Copy, PartialEq, Eq)]
pub enum PpuRead {
    /// Read the console's VRAM at this offset.
    Internal(u16),
    /// The cartridge drove this byte.
    External(u8),
}

/// What a PPU write to the cartridge space does.
#[derive(Debug, Clone, Copy, PartialEq, Eq)]
pub enum PpuWrite {
    /// Store this byte in the console's VRAM at this offset.
    Internal(u16, u8),
    /// The cartridge took (or ignored) the write.
    External,
}

/// A cartridge: its board and memory chips.
#[derive(Debug, Clone)]
pub struct NesRom {
    mapper: Mapper,
    prgrom: Vec<u8>,
    prgram: Vec<u8>,
    chrrom: Vec<u8>,
    chrram: Vec<u8>,
}

impl NesRom {
    pub closed spec fn mapper(&self) -> Mapper {
        self.mapper
    }

    pub closed spec fn prgrom(&self) -> Seq<u8> {
        self.prgrom@
    }

    pub closed spec fn prgram(&self) -> Seq<u8> {
        self.prgram@
    }

    pub closed spec fn chrrom(&self) -> Seq<u8> {
        self.chrrom@
    }

    pub closed spec fn chrram(&self) -> Seq<u8> {
        self.chrram@
    }

    /// Whether the CPU may read `addr`.
    pub open spec fn cpu_read_ok(&self, addr: u16) -> bool {
        &&& self.mapper().inv()
        &&& self.mapper().cpu_read_ok(addr)
        &&& match self.mapper().cpu_read_spec(addr) {
            MappedCpuRead::PrgRom(o) => o < self.prgrom().len(),
            MappedCpuRead::PrgRam(o) => o < self.prgram().len(),
            _ => true,
        }
    }

    /// The byte a CPU read of `addr` gives.
    pub open spec fn cpu_read_spec(&self, addr: u16) -> u8 {
        match self.mapper().cpu_read_spec(addr) {
            MappedCpuRead::MapperChip(data) => data,
            MappedCpuRead::PrgRom(o) => self.prgrom()[o as int],
            MappedCpuRead::PrgRam(o) => self.prgram()[o as int],
            MappedCpuRead::Openbus => 0,
        }
    }

    /// Whether the CPU may write `data` to `addr`.
    pub open spec fn cpu_write_ok(&self, addr: u16, data: u8) -> bool {
        &&& self.mapper().inv()
        &&& self.mapper().cpu_write_ok(addr)
        &&& self.mapper().cpu_write_spec(addr, data).0 matches MappedCpuWrite::PrgRam(o, _) ==> o < self.prgram().len()
    }

    /// Whether the PPU may read `addr`.
    pub open spec fn ppu_read_ok(&self, addr: u16) -> bool {
        &&& self.mapper().inv()
        &&& self.mapper().ppu_read_ok(addr)
        &&& match self.mapper().ppu_read_spec(addr).0 {
            MappedPpuRead::ChrRom(o) => o < self.chrrom().len(),
            MappedPpuRead::ChrRam(o) => o < self.chrram().len(),
            _ => true,
        }
    }

    /// What a PPU read of `addr` gives.
    pub open spec fn ppu_read_spec(&self, addr: u16) -> PpuRead {
        match self.mapper().ppu_read_spec(addr).0 {
            MappedPpuRead::MapperChip(data) => PpuRead::External(data),
            MappedPpuRead::InternalVram(a) => PpuRead::Internal(a),
            MappedPpuRead::ChrRom(o) => PpuRead::External(self.chrrom()[o as int]),
            MappedPpuRead::ChrRam(o) => PpuRead::External(self.chrram()[o as int]),
            MappedPpuRead::Openbus => PpuRead::External(0),
        }
    }

    /// Whether the PPU may write `data` to `addr`.
    pub open spec fn ppu_write_ok(&self, addr: u16, data: u8) -> bool {
        &&& self.mapper().inv()
        &&& self.mapper().ppu_write_ok(addr)
        &&& self.mapper().ppu_write_spec(addr, data).0 matches MappedPpuWrite::ChrRam(o, _) ==> o < self.chrram().len()
    }

    /// Builds the cartridge an image describes: its ROMs, and RAMs of the
    /// given sizes filled with zeros. The image's board must be known
    /// (mapper 0).
    pub fn new(info: NesRomInfo) -> (r: Self)
        requires
            info.mapper_id == 0,
            info.prgrom@.len() <= u32::MAX,
            info.chrrom@.len() <= u32::MAX,
        ensures
            r.mapper().inv(),
            r.mapper().built_from(MapperArgs {
                hardwired_nt: info.hardwired_nt,
                alternative_nt: info.alternative_nt,
                prgrom_size: info.prgrom@.len() as u32,
                prgram_size: info.prgram_size,
                chrrom_size: info.chrrom@.len() as u32,
                chrram_size: info.chrram_size,
            }),
            r.prgrom() == info.prgrom@,
            r.chrrom() == info.chrrom@,
            r.prgram() == Seq::new(info.prgram_size as nat, |i: int| 0u8),
            r.chrram() == Seq::new(info.chrram_size as nat, |i: int| 0u8),
    {
        let mapper_args = MapperArgs {
            hardwired_nt: info.hardwired_nt,
            alternative_nt: info.alternative_nt,
            prgrom_size: info.prgrom.len() as u32,
            prgram_size: info.prgram_size,
            chrrom_size: info.chrrom.len() as u32,
            chrram_size: info.chrram_size,
        };

        let mapper = Mapper::new(info.mapper_id, info.submapper, mapper_args).unwrap();

        let prgram: Vec<u8> = vec![0u8; info.prgram_size as usize];
        assert(prgram@ =~= Seq::new(info.prgram_size as nat, |i: int| 0u8));
        let chrram: Vec<u8> = vec![0u8; info.chrram_size as usize];
        assert(chrram@ =~= Seq::new(info.chrram_size as nat, |i: int| 0u8));
        Self {
            mapper,
            prgrom: info.prgrom,
            prgram,
            chrrom: info.chrrom,
            chrram,
        }
    }

    /// A CPU read of the cartridge space (`0x4020..`).
    pub fn cpu_read(&mut self, addr: u16) -> (r: u8)
        requires
            old(self).cpu_read_ok(addr),
        ensures
            r == old(self).cpu_read_spec(addr),
            final(self).mapper() == old(self).mapper(),
            final(self).prgrom() == old(self).prgrom(),
            final(self).prgram() == old(self).prgram(),
            final(self).chrrom() == old(self).chrrom(),
            final(self).chrram() == old(self).chrram(),
    {
        match self.mapper.map_cpu_read(addr) {
            MappedCpuRead::MapperChip(data) => data,
            MappedCpuRead::PrgRom(o) => self.prgrom[o as usize],
            MappedCpuRead::PrgRam(o) => self.prgram[o as usize],
            MappedCpuRead::Openbus => 0x00,
        }
    }

    /// A CPU write to the cartridge space (`0x4020..`).
    pub fn cpu_write(&mut self, addr: u16, data: u8)
        requires
            old(self).cpu_write_ok(addr, data),
        ensures
            final(self).mapper() == old(self).mapper().cpu_write_spec(addr, data).1,
            final(self).mapper().inv(),
            final(self).prgram() == match old(self).mapper().cpu_write_spec(addr, data).0 {
                MappedCpuWrite::PrgRam(o, d) => old(self).prgram().update(o as int, d),
                MappedCpuWrite::Other => old(self).prgram(),
            },
            final(self).prgrom() == old(self).prgrom(),
            final(self).chrrom() == old(self).chrrom(),
            final(self).chrram() == old(self).chrram(),
    {
        match self.mapper.map_cpu_write(addr, data) {
            MappedCpuWrite::Other => {},
            MappedCpuWrite::PrgRam(o, d) => {
                self.prgram.set(o as usize, d);
            },
        }
    }

    /// A PPU read of the cartridge space (`0x0000..0x3000`).
    pub fn ppu_read(&mut self, addr: u16) -> (r: PpuRead)
        requires
            old(self).ppu_read_ok(addr),
        ensures
            r == old(self).ppu_read_spec(addr),
            final(self).mapper() == old(self).mapper().ppu_read_spec(addr).1,
            final(self).mapper().inv(),
            final(self).prgrom() == old(self).prgrom(),
            final(self).prgram() == old(self).prgram(),
            final(self).chrrom() == old(self).chrrom(),
            final(self).chrram() == old(self).chrram(),
    {
        match self.mapper.map_ppu_read(addr) {
            MappedPpuRead::MapperChip(data) => PpuRead::External(data),
            MappedPpuRead::InternalVram(a) => PpuRead::Internal(a),
            MappedPpuRead::ChrRom(o) => PpuRead::External(self.chrrom[o as usize]),
            MappedPpuRead::ChrRam(o) => PpuRead::External(self.chrram[o as usize]),
            MappedPpuRead::Openbus => PpuRead::External(0x00),
        }
    }

    /// A PPU write to the cartridge space (`0x0000..0x3000`).
    pub fn ppu_write(&mut self, addr: u16, data: u8) -> (r: PpuWrite)
        requires
            old(self).ppu_write_ok(addr, data),
        ensures
            final(self).mapper() == old(self).mapper().ppu_write_spec(addr, data).1,
            final(self).mapper().inv(),
            match old(self).mapper().ppu_write_spec(addr, data).0 {
                MappedPpuWrite::Other => r == PpuWrite::External
                    && final(self).chrram() == old(self).chrram(),
                MappedPpuWrite::InternalVram(a, d) => r == PpuWrite::Internal(a, d)
                    && final(self).chrram() == old(self).chrram(),
                MappedPpuWrite::ChrRam(o, d) => r == PpuWrite::External
                    && final(self).chrram() == old(self).chrram().update(o as int, d),
            },
            final(self).prgrom() == old(self).prgrom(),
            final(self).prgram() == old(self).prgram(),
            final(self).chrrom() == old(self).chrrom(),
    {
        match self.mapper.map_ppu_write(addr, data) {
            MappedPpuWrite::Other => PpuWrite::External,
            MappedPpuWrite::InternalVram(a, d) => PpuWrite::Internal(a, d),
            MappedPpuWrite::ChrRam(o, d) => {
                self.chrram.set(o as usize, d);
                PpuWrite::External
            },
        }
    }
}

} // verus!
