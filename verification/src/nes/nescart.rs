//! The cartridge: a board (mapper) and the ROM/RAM chips it switches.

pub mod mapper;
pub mod mirroring;

use vstd::prelude::*;
use mapper::{MapperLogic, MappedCpuRead, MappedCpuWrite, MappedPpuRead, MappedPpuWrite, Mapper, MapperArgs, MapperError, Nrom};
use crate::nes::emufile::NesRomInfo;
use crate::nes::nescart::mirroring::Mirroring;

verus! {

/// What a PPU read of the cartridge space gives.
#[derive(Debug, Clone, Copy, PartialEq, Eq)]
pub enum PpuRead {
    /// Read the console's VRAM at this offset.
    Internal(u16),
    /// The cartridge drove this byte.
    External(u8),
}

/// What a PPU write to the cartridge space does.
#[derive(Debug, Clone, Copy, PartialEq, Eq)]
pub enum PpuWrite {
    /// Store this byte in the console's VRAM at this offset.
    Internal(u16, u8),
    /// The cartridge took (or ignored) the write.
    External,
}

/// A cartridge.
#[derive(Debug, Clone)]
pub struct NesCart {
    pub mapper: Mapper,
    pub prgrom: Vec<u8>,
    pub prgram: Vec<u8>,
    pub chrrom: Vec<u8>,
    pub chrram: Vec<u8>,
}

impl NesCart {
    /// Whether the CPU may read `addr`: the board decodes it and the chip
    /// it selects is large enough.
    pub open spec fn cpu_read_ok(&self, addr: u16) -> bool {
        &&& self.mapper.inv()
        &&& self.mapper.cpu_read_ok(addr)
        &&& match self.mapper.cpu_read_spec(addr) {
            MappedCpuRead::PrgRom(o) => o < self.prgrom@.len(),
            MappedCpuRead::PrgRam(o) => o < self.prgram@.len(),
            _ => true,
        }
    }

    /// The byte a CPU read of `addr` gives.
    pub open spec fn cpu_read_spec(&self, addr: u16) -> u8 {
        match self.mapper.cpu_read_spec(addr) {
            MappedCpuRead::MapperChip(data) => data,
            MappedCpuRead::PrgRom(o) => self.prgrom@[o as int],
            MappedCpuRead::PrgRam(o) => self.prgram@[o as int],
            MappedCpuRead::Openbus => 0,
        }
    }

    /// Whether the CPU may write `addr`.
    pub open spec fn cpu_write_ok(&self, addr: u16, data: u8) -> bool {
        &&& self.mapper.inv()
        &&& self.mapper.cpu_write_ok(addr)
        &&& self.mapper.cpu_write_spec(addr, data).0 matches MappedCpuWrite::PrgRam(o, _) ==> o < self.prgram@.len()
    }

    /// Whether the PPU may read `addr`.
    pub open spec fn ppu_read_ok(&self, addr: u16) -> bool {
        &&& self.mapper.inv()
        &&& self.mapper.ppu_read_ok(addr)
        &&& match self.mapper.ppu_read_spec(addr).0 {
            MappedPpuRead::ChrRom(o) => o < self.chrrom@.len(),
            MappedPpuRead::ChrRam(o) => o < self.chrram@.len(),
            _ => true,
        }
    }

    /// What a PPU read of `addr` gives.
    pub open spec fn ppu_read_spec(&self, addr: u16) -> PpuRead {
        match self.mapper.ppu_read_spec(addr).0 {
            MappedPpuRead::MapperChip(data) => PpuRead::External(data),
            MappedPpuRead::InternalVram(a) => PpuRead::Internal(a),
            MappedPpuRead::ChrRom(o) => PpuRead::External(self.chrrom@[o as int]),
            MappedPpuRead::ChrRam(o) => PpuRead::External(self.chrram@[o as int]),
            MappedPpuRead::Openbus => PpuRead::External(0),
        }
    }

    /// Whether the PPU may write `addr`.
    pub open spec fn ppu_write_ok(&self, addr: u16, data: u8) -> bool {
        &&& self.mapper.inv()
        &&& self.mapper.ppu_write_ok(addr)
        &&& self.mapper.ppu_write_spec(addr, data).0 matches MappedPpuWrite::ChrRam(o, _) ==> o < self.chrram@.len()
    }

    /// The board serves every access within the memories this cartridge
    /// has, in every state it can reach.
    pub open spec fn wf(&self) -> bool {
        self.mapper.serves(self.prgrom@.len(), self.prgram@.len(), self.chrrom@.len(), self.chrram@.len())
    }

    /// A well-formed cartridge takes every access of its ranges, and stays
    /// well formed whatever it sees.
    pub proof fn lemma_wf(&self, addr: u16, data: u8)
        requires
            self.wf(),
        ensures
            self.mapper.inv(),
            addr >= 0x4020 ==> self.cpu_read_ok(addr) && self.cpu_write_ok(addr, data),
            addr <= 0x2FFF ==> self.ppu_read_ok(addr) && self.ppu_write_ok(addr, data),
            self.mapper.stepped().serves(self.prgrom@.len(), self.prgram@.len(), self.chrrom@.len(), self.chrram@.len()),
            self.mapper.cpu_write_spec(addr, data).1.serves(self.prgrom@.len(), self.prgram@.len(), self.chrrom@.len(), self.chrram@.len()),
            self.mapper.ppu_read_spec(addr).1.serves(self.prgrom@.len(), self.prgram@.len(), self.chrrom@.len(), self.chrram@.len()),
            self.mapper.ppu_write_spec(addr, data).1.serves(self.prgrom@.len(), self.prgram@.len(), self.chrrom@.len(), self.chrram@.len()),
    {
        self.mapper.lemma_serves(self.prgrom@.len(), self.prgram@.len(), self.chrrom@.len(), self.chrram@.len(), addr, data);
    }

    /// Whether the cartridge is well formed.
    pub fn check(&self) -> (r: bool)
        ensures
            r == self.wf(),
    {
        self.mapper.check_serves(self.prgrom.len(), self.prgram.len(), self.chrrom.len(), self.chrram.len())
    }

    /// The board settings a ROM image's description gives.
    pub open spec fn args_of(info: NesRomInfo) -> MapperArgs {
        MapperArgs {
            vertical_nt: info.hardwired_nt == Mirroring::Vertical,
            alternative_nt: info.alternative_nt,
            prgrom_size: info.prgrom@.len() as u32,
            chrrom_size: info.chrrom@.len() as u32,
            prgram_size: info.prgram_size,
            chrram_size: info.chrram_size,
        }
    }

    /// Builds the cartridge a ROM image describes: its board, its ROMs, and
    /// RAMs of the given sizes filled with zeros. Fails when no board is
    /// known for the image's mapper number.
    pub fn from_info(info: NesRomInfo) -> (r: Result<Self, MapperError>)
        requires
            info.prgrom@.len() <= u32::MAX,
            info.chrrom@.len() <= u32::MAX,
        ensures
            r is Ok <==> (info.mapper_id == 0 || info.mapper_id == 1 || info.mapper_id == 4),
            r matches Err(e) ==> e == (MapperError::Unsupported { mapper_id: info.mapper_id, submapper: info.submapper }),
            r matches Ok(c) ==> {
                &&& c.mapper.inv()
                &&& Mapper::built(info.mapper_id, info.submapper, Self::args_of(info)) == Ok::<Mapper, MapperError>(c.mapper)
                &&& c.prgrom@ == info.prgrom@
                &&& c.chrrom@ == info.chrrom@
                &&& c.prgram@ == Seq::new(info.prgram_size as nat, |i: int| 0u8)
                &&& c.chrram@ == Seq::new(info.chrram_size as nat, |i: int| 0u8)
            },
    {
        let vertical_nt: bool = match info.hardwired_nt {
            Mirroring::Vertical => true,
            _ => false,
        };
        let args = MapperArgs {
            vertical_nt,
            alternative_nt: info.alternative_nt,
            prgrom_size: info.prgrom.len() as u32,
            chrrom_size: info.chrrom.len() as u32,
            prgram_size: info.prgram_size,
            chrram_size: info.chrram_size,
        };
        let mapper = match Mapper::new(info.mapper_id, info.submapper, args) {
            Ok(m) => m,
            Err(e) => {
                return Err(e);
            },
        };
        let prgram: Vec<u8> = vec![0u8; info.prgram_size as usize];
        assert(prgram@ =~= Seq::new(info.prgram_size as nat, |i: int| 0u8));
        let chrram: Vec<u8> = vec![0u8; info.chrram_size as usize];
        assert(chrram@ =~= Seq::new(info.chrram_size as nat, |i: int| 0u8));
        Ok(Self { mapper, prgrom: info.prgrom, prgram, chrrom: info.chrrom, chrram })
    }

    /// No cartridge inserted.
    pub fn empty() -> (r: Self)
        ensures
            r.wf(),
            r.mapper is Empty,
            r.mapper.inv(),
            r.prgrom@.len() == 0,
            r.prgram@.len() == 0,
            r.chrrom@.len() == 0,
            r.chrram@.len() == 0,
    {
        Self {
            mapper: Mapper::empty(),
            prgrom: Vec::new(),
            prgram: Vec::new(),
            chrrom: Vec::new(),
            chrram: Vec::new(),
        }
    }

    pub fn irq_active(&self) -> (r: bool)
        ensures
            r == self.mapper.irq_spec(),
    {
        self.mapper.irq_active()
    }

    /// Lets the board see one CPU cycle pass.
    pub fn cpu_step(&mut self)
        requires
            old(self).mapper.inv(),
        ensures
            final(self).mapper == old(self).mapper.stepped(),
            final(self).mapper.inv(),
            final(self).prgrom@ == old(self).prgrom@,
            final(self).prgram@ == old(self).prgram@,
            final(self).chrrom@ == old(self).chrrom@,
            final(self).chrram@ == old(self).chrram@,
    {
        self.mapper.cpu_step();
    }

    /// A CPU read of the cartridge space (`0x4020..`).
    pub fn cpu_read(&mut self, addr: u16) -> (r: u8)
        requires
            old(self).cpu_read_ok(addr),
        ensures
            r == old(self).cpu_read_spec(addr),
            final(self).mapper == old(self).mapper,
            final(self).prgrom@ == old(self).prgrom@,
            final(self).prgram@ == old(self).prgram@,
            final(self).chrrom@ == old(self).chrrom@,
            final(self).chrram@ == old(self).chrram@,
    {
        match self.mapper.map_cpu_read(addr) {
            MappedCpuRead::MapperChip(data) => data,
            MappedCpuRead::PrgRom(o) => self.prgrom[o as usize],
            MappedCpuRead::PrgRam(o) => self.prgram[o as usize],
            MappedCpuRead::Openbus => 0x00,
        }
    }

    /// A CPU write to the cartridge space (`0x4020..`).
    pub fn cpu_write(&mut self, addr: u16, data: u8)
        requires
            old(self).cpu_write_ok(addr, data),
        ensures
            final(self).mapper == old(self).mapper.cpu_write_spec(addr, data).1,
            final(self).mapper.inv(),
            final(self).prgram@ == match old(self).mapper.cpu_write_spec(addr, data).0 {
                MappedCpuWrite::PrgRam(o, d) => old(self).prgram@.update(o as int, d),
                MappedCpuWrite::Other => old(self).prgram@,
            },
            final(self).prgrom@ == old(self).prgrom@,
            final(self).chrrom@ == old(self).chrrom@,
            final(self).chrram@ == old(self).chrram@,
    {
        match self.mapper.map_cpu_write(addr, data) {
            MappedCpuWrite::Other => {},
            MappedCpuWrite::PrgRam(o, d) => {
                self.prgram.set(o as usize, d);
            },
        }
    }

    /// A PPU read of the cartridge space (`0x0000..0x3000`).
    pub fn ppu_read(&mut self, addr: u16) -> (r: PpuRead)
        requires
            old(self).ppu_read_ok(addr),
        ensures
            r == old(self).ppu_read_spec(addr),
            final(self).mapper == old(self).mapper.ppu_read_spec(addr).1,
            final(self).mapper.inv(),
            final(self).prgrom@ == old(self).prgrom@,
            final(self).prgram@ == old(self).prgram@,
            final(self).chrrom@ == old(self).chrrom@,
            final(self).chrram@ == old(self).chrram@,
    {
        match self.mapper.map_ppu_read(addr) {
            MappedPpuRead::MapperChip(data) => PpuRead::External(data),
            MappedPpuRead::InternalVram(a) => PpuRead::Internal(a),
            MappedPpuRead::ChrRom(o) => PpuRead::External(self.chrrom[o as usize]),
            MappedPpuRead::ChrRam(o) => PpuRead::External(self.chrram[o as usize]),
            MappedPpuRead::Openbus => PpuRead::External(0x00),
        }
    }

    /// A PPU write to the cartridge space (`0x0000..0x3000`).
    pub fn ppu_write(&mut self, addr: u16, data: u8) -> (r: PpuWrite)
        requires
            old(self).ppu_write_ok(addr, data),
        ensures
            final(self).mapper == old(self).mapper.ppu_write_spec(addr, data).1,
            final(self).mapper.inv(),
            match old(self).mapper.ppu_write_spec(addr, data).0 {
                MappedPpuWrite::Other => r == PpuWrite::External
                    && final(self).chrram@ == old(self).chrram@,
                MappedPpuWrite::InternalVram(a, d) => r == PpuWrite::Internal(a, d)
                    && final(self).chrram@ == old(self).chrram@,
                MappedPpuWrite::ChrRam(o, d) => r == PpuWrite::External
                    && final(self).chrram@ == old(self).chrram@.update(o as int, d),
            },
            final(self).prgrom@ == old(self).prgrom@,
            final(self).prgram@ == old(self).prgram@,
            final(self).chrrom@ == old(self).chrrom@,
    {
        match self.mapper.map_ppu_write(addr, data) {
            MappedPpuWrite::Other => PpuWrite::External,
            MappedPpuWrite::InternalVram(a, d) => PpuWrite::Internal(a, d),
            MappedPpuWrite::ChrRam(o, d) => {
                self.chrram.set(o as usize, d);
                PpuWrite::External
            },
        }
    }
}

/// On an NROM cartridge, what the CPU writes to PRG-RAM
/// (`0x6000..0x8000`, within the RAM's size) a read of the same address
/// gives back.
pub proof fn lemma_nrom_prgram_round_trip(c: NesCart, c2: NesCart, addr: u16, data: u8)
    requires
        c.wf(),
        c.mapper matches Mapper::Nrom(m) && addr % 0x2000 < m.prgram_size(),
        0x6000 <= addr <= 0x7FFF,
        c2.mapper == c.mapper.cpu_write_spec(addr, data).1,
        c2.prgram@ == match c.mapper.cpu_write_spec(addr, data).0 {
            MappedCpuWrite::PrgRam(o, d) => c.prgram@.update(o as int, d),
            MappedCpuWrite::Other => c.prgram@,
        },
    ensures
        c2.cpu_read_spec(addr) == data,
{
    if let Mapper::Nrom(m) = c.mapper {
        mapper::nrom::lemma_nrom_prgram_mapping(m, addr, data);
        c.lemma_wf(addr, data);
    }
}

/// The CPU sees an NROM cartridge's PRG-ROM at `0x8000..`, as the ROM
/// image held it: byte `i` of a 32 KiB ROM at `0x8000 + i`, a 16 KiB ROM
/// at `0x8000 + i` and again at `0xC000 + i`.
pub proof fn lemma_nrom_shows_prgrom(info: NesRomInfo, c: NesCart, addr: u16)
    requires
        info.mapper_id == 0,
        info.prgrom@.len() == 0x4000 || info.prgrom@.len() == 0x8000,
        Mapper::built(info.mapper_id, info.submapper, NesCart::args_of(info)) == Ok::<Mapper, MapperError>(c.mapper),
        c.prgrom@ == info.prgrom@,
        addr >= 0x8000,
    ensures
        c.cpu_read_spec(addr) == info.prgrom@[(addr - 0x8000) % (info.prgrom@.len() as int)],
{
    mapper::nrom::lemma_built_prgrom_mapping(NesCart::args_of(info), addr);
}

/// An NROM cartridge with horizontal mirroring shows CHR-ROM at
/// `0x0000..0x2000`, and lays the four nametables onto the console's RAM
/// two by two: `0x2000` and `0x2400` on its first kilobyte, `0x2800` and
/// `0x2C00` on its second. The board does not change.
pub proof fn lemma_nrom_horizontal_mirroring(c: NesCart, args: MapperArgs, a: u16, o: u16)
    requires
        c.mapper == Mapper::Nrom(Nrom::built(args)),
        !args.vertical_nt,
        args.chrrom_size == 0x2000,
        c.chrrom@.len() == 0x2000,
        a < 0x2000,
        o < 0x400,
    ensures
        c.ppu_read_spec(a) == PpuRead::External(c.chrrom@[a as int]),
        c.ppu_read_spec((0x2000 + o) as u16) == PpuRead::Internal(o),
        c.ppu_read_spec((0x2400 + o) as u16) == PpuRead::Internal(o),
        c.ppu_read_spec((0x2800 + o) as u16) == PpuRead::Internal((0x400 + o) as u16),
        c.ppu_read_spec((0x2C00 + o) as u16) == PpuRead::Internal((0x400 + o) as u16),
        c.mapper.ppu_read_spec(a).1 == c.mapper,
        c.mapper.ppu_read_spec((0x2000 + o) as u16).1 == c.mapper,
{
}

/// An NROM cartridge with 16 KiB of PRG-ROM shows it at `0x8000` and again
/// at `0xC000`; below `0x6000` nothing drives the bus (0). The reads change
/// nothing on the board.
pub proof fn lemma_nrom_prgrom_mirror(c: NesCart, args: MapperArgs, k: u16, a: u16)
    requires
        c.mapper == Mapper::Nrom(Nrom::built(args)),
        args.prgrom_size == 0x4000,
        c.prgrom@.len() == 0x4000,
        k < 0x4000,
        0x4020 <= a < 0x6000,
    ensures
        c.cpu_read_spec((0x8000 + k) as u16) == c.prgrom@[k as int],
        c.cpu_read_spec((0xC000 + k) as u16) == c.prgrom@[k as int],
        c.cpu_read_spec(a) == 0,
{
}

} // verus!
