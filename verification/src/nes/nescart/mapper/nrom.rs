use vstd::prelude::*;
use super::logic::{MapperLogic, MappedCpuRead, MappedCpuWrite, MappedPpuRead, MappedPpuWrite};
use super::MapperArgs;
use crate::nes::nescart::mirroring::{Mirroring, VramTarget, resolve_spec};

verus! {

/// Mapper 0: up to 32 KiB of PRG-ROM (a 16 KiB image is mirrored),
/// optional PRG-RAM, fixed CHR-ROM and hardwired mirroring.
#[derive(Debug, Clone, Copy)]
pub struct Nrom {
    pub mirroring: Mirroring,
    pub prgram_size: u32,
    pub prgrom_size: u32,
    pub chrrom_size: u32,
}

impl Nrom {
    pub open spec fn mirroring(self) -> Mirroring {
        self.mirroring
    }

    pub open spec fn prgram_size(self) -> u32 {
        self.prgram_size
    }

    pub open spec fn prgrom_size(self) -> u32 {
        self.prgrom_size
    }

    pub open spec fn chrrom_size(self) -> u32 {
        self.chrrom_size
    }

    /// The board as built from `args`.
    pub open spec fn built(args: MapperArgs) -> Self {
        Nrom {
            mirroring: if args.vertical_nt { Mirroring::Vertical } else { Mirroring::Horizontal },
            prgram_size: args.prgram_size,
            prgrom_size: args.prgrom_size,
            chrrom_size: args.chrrom_size,
        }
    }

    pub fn new(args: MapperArgs) -> (r: Self)
        ensures
            r == Self::built(args),
            r.inv(),
            r.mirroring() == (if args.vertical_nt { Mirroring::Vertical } else { Mirroring::Horizontal }),
            r.prgram_size() == args.prgram_size,
            r.prgrom_size() == args.prgrom_size,
            r.chrrom_size() == args.chrrom_size,
    {
        let mirroring = if args.vertical_nt {
            Mirroring::Vertical
        } else {
            Mirroring::Horizontal
        };

        Self {
            mirroring,
            prgram_size: args.prgram_size,
            prgrom_size: args.prgrom_size,
            chrrom_size: args.chrrom_size,
        }
    }
}

impl MapperLogic for Nrom {
    open spec fn inv(&self) -> bool {
        !(self.mirroring is FourScreen)
    }

    open spec fn irq_spec(&self) -> bool {
        false
    }

    open spec fn stepped(&self) -> Self {
        *self
    }

    open spec fn cpu_read_ok(&self, addr: u16) -> bool {
        addr >= 0x4020
    }

    open spec fn cpu_read_spec(&self, addr: u16) -> MappedCpuRead {
        if addr <= 0x5FFF {
            MappedCpuRead::Openbus
        } else if addr <= 0x7FFF {
            let offset = addr % 0x2000;
            if offset < self.prgram_size {
                MappedCpuRead::PrgRam(offset as u32)
            } else {
                MappedCpuRead::Openbus
            }
        } else {
            let offset = if self.prgrom_size <= 0x4000 { addr % 0x4000 } else { addr % 0x8000 };
            if offset < self.prgrom_size {
                MappedCpuRead::PrgRom(offset as u32)
            } else {
                MappedCpuRead::Openbus
            }
        }
    }

    open spec fn cpu_write_ok(&self, addr: u16) -> bool {
        addr >= 0x4020
    }

    open spec fn cpu_write_spec(&self, addr: u16, data: u8) -> (MappedCpuWrite, Self) {
        if 0x6000 <= addr <= 0x7FFF && addr % 0x2000 < self.prgram_size {
            (MappedCpuWrite::PrgRam((addr % 0x2000) as u32, data), *self)
        } else {
            (MappedCpuWrite::Other, *self)
        }
    }

    open spec fn ppu_read_ok(&self, addr: u16) -> bool {
        addr <= 0x2FFF
    }

    open spec fn ppu_read_spec(&self, addr: u16) -> (MappedPpuRead, Self) {
        if addr <= 0x1FFF {
            if addr < self.chrrom_size {
                (MappedPpuRead::ChrRom(addr as u32), *self)
            } else {
                (MappedPpuRead::Openbus, *self)
            }
        } else {
            (MappedPpuRead::InternalVram(resolve_spec(self.mirroring, addr).0), *self)
        }
    }

    open spec fn ppu_write_ok(&self, addr: u16) -> bool {
        addr <= 0x2FFF
    }

    open spec fn ppu_write_spec(&self, addr: u16, data: u8) -> (MappedPpuWrite, Self) {
        if addr <= 0x1FFF {
            (MappedPpuWrite::Other, *self)
        } else {
            (MappedPpuWrite::InternalVram(resolve_spec(self.mirroring, addr).0, data), *self)
        }
    }

    open spec fn serves(&self, prgrom_len: nat, prgram_len: nat, chrrom_len: nat, chrram_len: nat) -> bool {
        &&& self.inv()
        &&& self.prgrom_size <= prgrom_len
        &&& self.prgram_size <= prgram_len
        &&& self.chrrom_size <= chrrom_len
    }

    proof fn lemma_serves(&self, prgrom_len: nat, prgram_len: nat, chrrom_len: nat, chrram_len: nat, addr: u16, data: u8) {
    }

    fn check_serves(&self, prgrom_len: usize, prgram_len: usize, chrrom_len: usize, chrram_len: usize) -> (r: bool) {
        let four: bool = match self.mirroring {
            Mirroring::FourScreen => true,
            _ => false,
        };
        !four && self.prgrom_size as usize <= prgrom_len && self.prgram_size as usize <= prgram_len
            && self.chrrom_size as usize <= chrrom_len
    }

    fn irq_active(&self) -> (r: bool) {
        false
    }

    fn cpu_step(&mut self) {
    }

    fn map_cpu_read(&mut self, addr: u16) -> (r: MappedCpuRead) {
        if addr <= 0x5FFF {
            // Unmapped
            MappedCpuRead::Openbus
        } else if addr <= 0x7FFF {
            // PrgRam
            let offset: u32 = (addr % 0x2000) as u32;
            if offset < self.prgram_size {
                MappedCpuRead::PrgRam(offset)
            } else {
                MappedCpuRead::Openbus
            }
        } else {
            // PrgRom
            let offset: u32 = if self.prgrom_size <= 0x4000 {
                (addr % 0x4000) as u32
            } else {
                (addr % 0x8000) as u32
            };
            if offset < self.prgrom_size {
                MappedCpuRead::PrgRom(offset)
            } else {
                MappedCpuRead::Openbus
            }
        }
    }

    fn map_cpu_write(&mut self, addr: u16, data: u8) -> (r: MappedCpuWrite) {
        if addr <= 0x5FFF {
            MappedCpuWrite::Other
        } else if addr <= 0x7FFF {
            let offset: u32 = (addr % 0x2000) as u32;
            if offset < self.prgram_size {
                MappedCpuWrite::PrgRam(offset, data)
            } else {
                MappedCpuWrite::Other
            }
        } else {
            MappedCpuWrite::Other
        }
    }

    fn map_ppu_read(&mut self, addr: u16) -> (r: MappedPpuRead) {
        if addr <= 0x1FFF {
            let offset: u32 = addr as u32;
            if offset < self.chrrom_size {
                MappedPpuRead::ChrRom(offset)
            } else {
                MappedPpuRead::Openbus
            }
        } else {
            let (vaddr, target) = self.mirroring.resolve(addr);
            match target {
                VramTarget::Internal => MappedPpuRead::InternalVram(vaddr),
                VramTarget::External => {
                    assert(false);
                    MappedPpuRead::Openbus
                },
            }
        }
    }

    fn map_ppu_write(&mut self, addr: u16, data: u8) -> (r: MappedPpuWrite) {
        if addr <= 0x1FFF {
            MappedPpuWrite::Other
        } else {
            let (vaddr, target) = self.mirroring.resolve(addr);
            match target {
                VramTarget::Internal => MappedPpuWrite::InternalVram(vaddr, data),
                VramTarget::External => {
                    assert(false);
                    MappedPpuWrite::Other
                },
            }
        }
    }
}

/// NROM maps `0x6000..0x8000` onto PRG-RAM (mirrored every 8 KiB) for
/// reads and writes alike, as far as the RAM reaches.
pub proof fn lemma_nrom_prgram_mapping(m: Nrom, addr: u16, data: u8)
    requires
        0x6000 <= addr <= 0x7FFF,
        addr % 0x2000 < m.prgram_size(),
    ensures
        m.cpu_write_spec(addr, data) == (MappedCpuWrite::PrgRam((addr % 0x2000) as u32, data), m),
        m.cpu_read_spec(addr) == MappedCpuRead::PrgRam((addr % 0x2000) as u32),
{
}

/// A board built for 16 or 32 KiB of PRG-ROM maps `0x8000..` onto the
/// ROM from its start, a 16 KiB ROM twice.
pub proof fn lemma_built_prgrom_mapping(args: MapperArgs, addr: u16)
    requires
        args.prgrom_size == 0x4000 || args.prgrom_size == 0x8000,
        addr >= 0x8000,
    ensures
        Nrom::built(args).cpu_read_spec(addr) == MappedCpuRead::PrgRom(((addr - 0x8000) % args.prgrom_size as int) as u32),
{
}

/// NROM sends a nametable address to the console's RAM, through its
/// mirroring, for writes and reads alike.
pub proof fn lemma_nrom_nametable(m: Nrom, addr: u16, data: u8)
    requires
        0x2000 <= addr <= 0x2FFF,
    ensures
        m.ppu_write_spec(addr, data).0 == MappedPpuWrite::InternalVram(resolve_spec(m.mirroring(), addr).0, data),
        m.ppu_write_spec(addr, data).1.ppu_read_spec(addr).0 == MappedPpuRead::InternalVram(resolve_spec(m.mirroring(), addr).0),
{
}

} // verus!
