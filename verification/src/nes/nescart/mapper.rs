pub mod logic;
pub mod empty;
pub mod nrom;
pub mod mmc1;
pub mod mmc3;

use vstd::prelude::*;

pub use logic::{MapperLogic, MappedCpuRead, MappedCpuWrite, MappedPpuRead, MappedPpuWrite};
pub use empty::Empty;
pub use nrom::Nrom;
pub use mmc1::Mmc1;
pub use mmc3::Mmc3;

verus! {

/// The sizes and wiring a board is built with.
#[derive(Debug, Clone, Copy)]
pub struct MapperArgs {
    pub vertical_nt: bool,
    pub alternative_nt: bool,
    pub prgrom_size: u32,
    pub chrrom_size: u32,
    pub prgram_size: u32,
    pub chrram_size: u32,
}

/// Why no board could be built.
#[derive(Debug, Clone, Copy, PartialEq, Eq)]
pub enum MapperError {
    /// No board is known for this mapper number and submapper.
    Unsupported { mapper_id: u32, submapper: u8 },
}

/// The boards this console knows.
#[derive(Debug, Clone, Copy)]
pub enum Mapper {
    Empty(Empty),
    Nrom(Nrom),
    Mmc1(Mmc1),
    Mmc3(Mmc3),
}

impl Mapper {
    /// No cartridge.
    pub fn empty() -> (r: Self)
        ensures
            r is Empty,
            r.inv(),
    {
        Self::Empty(Empty)
    }

    /// The board for iNES mapper `mapper_id`: 0 (NROM), 1 (MMC1) or 4
    /// (MMC3), whatever the submapper; any other number is refused.
    pub open spec fn built(mapper_id: u32, submapper: u8, args: MapperArgs) -> Result<Self, MapperError> {
        if mapper_id == 0 {
            Ok(Mapper::Nrom(Nrom::built(args)))
        } else if mapper_id == 1 {
            Ok(Mapper::Mmc1(Mmc1::built(args)))
        } else if mapper_id == 4 {
            Ok(Mapper::Mmc3(Mmc3::built(args)))
        } else {
            Err(MapperError::Unsupported { mapper_id, submapper })
        }
    }

    /// Builds the board for iNES mapper `mapper_id`: 0 (NROM), 1 (MMC1) or
    /// 4 (MMC3); any submapper.
    pub fn new(mapper_id: u32, submapper: u8, args: MapperArgs) -> (r: Result<Self, MapperError>)
        ensures
            r == Self::built(mapper_id, submapper, args),
            r is Ok <==> (mapper_id == 0 || mapper_id == 1 || mapper_id == 4),
            r matches Err(e) ==> e == (MapperError::Unsupported { mapper_id, submapper }),
            r matches Ok(m) ==> m.inv(),
            mapper_id == 0 ==> r matches Ok(Mapper::Nrom(_)),
            mapper_id == 1 ==> r matches Ok(Mapper::Mmc1(_)),
            mapper_id == 4 ==> r matches Ok(Mapper::Mmc3(_)),
    {
        let mapper = if mapper_id == 0 {
            Mapper::Nrom(Nrom::new(args))
        } else if mapper_id == 1 {
            Mapper::Mmc1(Mmc1::new(args))
        } else if mapper_id == 4 {
            Mapper::Mmc3(Mmc3::new(args))
        } else {
            return Err(MapperError::Unsupported { mapper_id, submapper });
        };

        Ok(mapper)
    }

    /// Every board sends a nametable address (`0x2000..=0x2FFF`) to the
    /// console's RAM, and a read in the state a write leaves lands on the
    /// cell the write went to.
    pub proof fn lemma_nametable(self, addr: u16, data: u8)
        requires
            0x2000 <= addr <= 0x2FFF,
            !(self is Empty),
        ensures
            self.ppu_write_spec(addr, data).0 matches MappedPpuWrite::InternalVram(o, d)
                && d == data
                && self.ppu_write_spec(addr, data).1.ppu_read_spec(addr).0 == MappedPpuRead::InternalVram(o),
    {
        match self {
            Mapper::Empty(_) => {},
            Mapper::Nrom(m) => nrom::lemma_nrom_nametable(m, addr, data),
            Mapper::Mmc1(m) => mmc1::lemma_mmc1_nametable(m, addr, data),
            Mapper::Mmc3(m) => mmc3::lemma_mmc3_nametable(m, addr, data),
        }
    }
}

impl MapperLogic for Mapper {
    open spec fn inv(&self) -> bool {
        match self {
            Mapper::Empty(m) => m.inv(),
            Mapper::Nrom(m) => m.inv(),
            Mapper::Mmc1(m) => m.inv(),
            Mapper::Mmc3(m) => m.inv(),
        }
    }

    open spec fn irq_spec(&self) -> bool {
        match self {
            Mapper::Empty(m) => m.irq_spec(),
            Mapper::Nrom(m) => m.irq_spec(),
            Mapper::Mmc1(m) => m.irq_spec(),
            Mapper::Mmc3(m) => m.irq_spec(),
        }
    }

    open spec fn stepped(&self) -> Self {
        match self {
            Mapper::Empty(m) => Mapper::Empty(m.stepped()),
            Mapper::Nrom(m) => Mapper::Nrom(m.stepped()),
            Mapper::Mmc1(m) => Mapper::Mmc1(m.stepped()),
            Mapper::Mmc3(m) => Mapper::Mmc3(m.stepped()),
        }
    }

    open spec fn cpu_read_ok(&self, addr: u16) -> bool {
        match self {
            Mapper::Empty(m) => m.cpu_read_ok(addr),
            Mapper::Nrom(m) => m.cpu_read_ok(addr),
            Mapper::Mmc1(m) => m.cpu_read_ok(addr),
            Mapper::Mmc3(m) => m.cpu_read_ok(addr),
        }
    }

    open spec fn cpu_read_spec(&self, addr: u16) -> MappedCpuRead {
        match self {
            Mapper::Empty(m) => m.cpu_read_spec(addr),
            Mapper::Nrom(m) => m.cpu_read_spec(addr),
            Mapper::Mmc1(m) => m.cpu_read_spec(addr),
            Mapper::Mmc3(m) => m.cpu_read_spec(addr),
        }
    }

    open spec fn cpu_write_ok(&self, addr: u16) -> bool {
        match self {
            Mapper::Empty(m) => m.cpu_write_ok(addr),
            Mapper::Nrom(m) => m.cpu_write_ok(addr),
            Mapper::Mmc1(m) => m.cpu_write_ok(addr),
            Mapper::Mmc3(m) => m.cpu_write_ok(addr),
        }
    }

    open spec fn cpu_write_spec(&self, addr: u16, data: u8) -> (MappedCpuWrite, Self) {
        match self {
            Mapper::Empty(m) => (m.cpu_write_spec(addr, data).0, Mapper::Empty(m.cpu_write_spec(addr, data).1)),
            Mapper::Nrom(m) => (m.cpu_write_spec(addr, data).0, Mapper::Nrom(m.cpu_write_spec(addr, data).1)),
            Mapper::Mmc1(m) => (m.cpu_write_spec(addr, data).0, Mapper::Mmc1(m.cpu_write_spec(addr, data).1)),
            Mapper::Mmc3(m) => (m.cpu_write_spec(addr, data).0, Mapper::Mmc3(m.cpu_write_spec(addr, data).1)),
        }
    }

    open spec fn ppu_read_ok(&self, addr: u16) -> bool {
        match self {
            Mapper::Empty(m) => m.ppu_read_ok(addr),
            Mapper::Nrom(m) => m.ppu_read_ok(addr),
            Mapper::Mmc1(m) => m.ppu_read_ok(addr),
            Mapper::Mmc3(m) => m.ppu_read_ok(addr),
        }
    }

    open spec fn ppu_read_spec(&self, addr: u16) -> (MappedPpuRead, Self) {
        match self {
            Mapper::Empty(m) => (m.ppu_read_spec(addr).0, Mapper::Empty(m.ppu_read_spec(addr).1)),
            Mapper::Nrom(m) => (m.ppu_read_spec(addr).0, Mapper::Nrom(m.ppu_read_spec(addr).1)),
            Mapper::Mmc1(m) => (m.ppu_read_spec(addr).0, Mapper::Mmc1(m.ppu_read_spec(addr).1)),
            Mapper::Mmc3(m) => (m.ppu_read_spec(addr).0, Mapper::Mmc3(m.ppu_read_spec(addr).1)),
        }
    }

    open spec fn ppu_write_ok(&self, addr: u16) -> bool {
        match self {
            Mapper::Empty(m) => m.ppu_write_ok(addr),
            Mapper::Nrom(m) => m.ppu_write_ok(addr),
            Mapper::Mmc1(m) => m.ppu_write_ok(addr),
            Mapper::Mmc3(m) => m.ppu_write_ok(addr),
        }
    }

    open spec fn ppu_write_spec(&self, addr: u16, data: u8) -> (MappedPpuWrite, Self) {
        match self {
            Mapper::Empty(m) => (m.ppu_write_spec(addr, data).0, Mapper::Empty(m.ppu_write_spec(addr, data).1)),
            Mapper::Nrom(m) => (m.ppu_write_spec(addr, data).0, Mapper::Nrom(m.ppu_write_spec(addr, data).1)),
            Mapper::Mmc1(m) => (m.ppu_write_spec(addr, data).0, Mapper::Mmc1(m.ppu_write_spec(addr, data).1)),
            Mapper::Mmc3(m) => (m.ppu_write_spec(addr, data).0, Mapper::Mmc3(m.ppu_write_spec(addr, data).1)),
        }
    }

    open spec fn serves(&self, prgrom_len: nat, prgram_len: nat, chrrom_len: nat, chrram_len: nat) -> bool {
        match self {
            Mapper::Empty(m) => m.serves(prgrom_len, prgram_len, chrrom_len, chrram_len),
            Mapper::Nrom(m) => m.serves(prgrom_len, prgram_len, chrrom_len, chrram_len),
            Mapper::Mmc1(m) => m.serves(prgrom_len, prgram_len, chrrom_len, chrram_len),
            Mapper::Mmc3(m) => m.serves(prgrom_len, prgram_len, chrrom_len, chrram_len),
        }
    }

    proof fn lemma_serves(&self, prgrom_len: nat, prgram_len: nat, chrrom_len: nat, chrram_len: nat, addr: u16, data: u8) {
        match self {
            Mapper::Empty(m) => m.lemma_serves(prgrom_len, prgram_len, chrrom_len, chrram_len, addr, data),
            Mapper::Nrom(m) => m.lemma_serves(prgrom_len, prgram_len, chrrom_len, chrram_len, addr, data),
            Mapper::Mmc1(m) => m.lemma_serves(prgrom_len, prgram_len, chrrom_len, chrram_len, addr, data),
            Mapper::Mmc3(m) => m.lemma_serves(prgrom_len, prgram_len, chrrom_len, chrram_len, addr, data),
        }
    }

    fn check_serves(&self, prgrom_len: usize, prgram_len: usize, chrrom_len: usize, chrram_len: usize) -> (r: bool) {
        match self {
            Mapper::Empty(m) => m.check_serves(prgrom_len, prgram_len, chrrom_len, chrram_len),
            Mapper::Nrom(m) => m.check_serves(prgrom_len, prgram_len, chrrom_len, chrram_len),
            Mapper::Mmc1(m) => m.check_serves(prgrom_len, prgram_len, chrrom_len, chrram_len),
            Mapper::Mmc3(m) => m.check_serves(prgrom_len, prgram_len, chrrom_len, chrram_len),
        }
    }

    fn irq_active(&self) -> (r: bool) {
        match self {
            Mapper::Empty(m) => m.irq_active(),
            Mapper::Nrom(m) => m.irq_active(),
            Mapper::Mmc1(m) => m.irq_active(),
            Mapper::Mmc3(m) => m.irq_active(),
        }
    }

    fn cpu_step(&mut self) {
        match self {
            Mapper::Empty(m) => m.cpu_step(),
            Mapper::Nrom(m) => m.cpu_step(),
            Mapper::Mmc1(m) => m.cpu_step(),
            Mapper::Mmc3(m) => m.cpu_step(),
        }
    }

    fn map_cpu_read(&mut self, addr: u16) -> (r: MappedCpuRead) {
        match self {
            Mapper::Empty(m) => m.map_cpu_read(addr),
            Mapper::Nrom(m) => m.map_cpu_read(addr),
            Mapper::Mmc1(m) => m.map_cpu_read(addr),
            Mapper::Mmc3(m) => m.map_cpu_read(addr),
        }
    }

    fn map_cpu_write(&mut self, addr: u16, data: u8) -> (r: MappedCpuWrite) {
        match self {
            Mapper::Empty(m) => m.map_cpu_write(addr, data),
            Mapper::Nrom(m) => m.map_cpu_write(addr, data),
            Mapper::Mmc1(m) => m.map_cpu_write(addr, data),
            Mapper::Mmc3(m) => m.map_cpu_write(addr, data),
        }
    }

    fn map_ppu_read(&mut self, addr: u16) -> (r: MappedPpuRead) {
        match self {
            Mapper::Empty(m) => m.map_ppu_read(addr),
            Mapper::Nrom(m) => m.map_ppu_read(addr),
            Mapper::Mmc1(m) => m.map_ppu_read(addr),
            Mapper::Mmc3(m) => m.map_ppu_read(addr),
        }
    }

    fn map_ppu_write(&mut self, addr: u16, data: u8) -> (r: MappedPpuWrite) {
        match self {
            Mapper::Empty(m) => m.map_ppu_write(addr, data),
            Mapper::Nrom(m) => m.map_ppu_write(addr, data),
            Mapper::Mmc1(m) => m.map_ppu_write(addr, data),
            Mapper::Mmc3(m) => m.map_ppu_write(addr, data),
        }
    }
}

} // verus!
