use vstd::prelude::*;
use crate::board::mapper::{Mapper, MapperLogic};
use crate::board::ppu::Ppu;

verus! {

/// A value driven onto the data bus; only the bits in `stable_mask` are
/// driven, the others keep the open-bus value.
#[derive(Debug, Clone, Copy)]
pub struct BusData {
    data: u8,
    stable_mask: u8,
}

impl BusData {
    pub closed spec fn data(self) -> u8 {
        self.data
    }

    pub closed spec fn stable_mask(self) -> u8 {
        self.stable_mask
    }

    pub fn new(data: u8, stable_mask: u8) -> (r: Self)
        ensures
            r.data() == data,
            r.stable_mask() == stable_mask,
    {
        Self { data, stable_mask }
    }

    /// The byte the CPU reads: driven bits from `data`, the rest from the
    /// open bus.
    pub fn composite(self, openbus: u8) -> (r: u8)
        ensures
            r == (self.data() & self.stable_mask()) | (openbus & !self.stable_mask()),
            self.stable_mask() == 0xFF ==> r == self.data(),
            self.stable_mask() == 0x00 ==> r == openbus,
    {
        proof {
            let d = self.data;
            let o = openbus;
            assert((d & 0xFFu8) | (o & !0xFFu8) == d && (d & 0x00u8) | (o & !0x00u8) == o)
                by (bit_vector);
        }
        (self.data & self.stable_mask) | (openbus & !self.stable_mask)
    }
}

/// Size of the work RAM.
pub const WRAM_SIZE: usize = 0x800;
/// Size of the console's nametable RAM.
pub const VRAM_SIZE: usize = 0x800;

/// What the PPU sees: its open-bus latch and the nametable RAM.
#[derive(Debug, Clone, Copy)]
pub struct PpuBus {
    pub openbus: u8,
    pub vram: [u8; VRAM_SIZE],
}

impl PpuBus {
    /// A PPU write; nothing is stored yet. The palette range
    /// (`0x3F00..0x4000`) and what lies above it are not served.
    pub fn write(&mut self, _addr: u16, _data: u8)
        requires
            _addr < 0x3F00,
        ensures
            *final(self) == *old(self),
    {
    }
}

/// The byte a board's cartridge drives for a CPU read at `addr`.
pub open spec fn cart_read_spec(m: Mapper, addr: u16) -> u8 {
    match m {
        Mapper::Nrom(n) => n.read_spec(addr),
    }
}

/// The CPU's view of the board.
///
/// | Address          | Device                                   |
/// |:-----------------|:-----------------------------------------|
/// | `0x0000..0x2000` | work RAM, mirrored every `0x800` bytes   |
/// | `0x2000..0x4000` | PPU registers, mirrored every 8 bytes    |
/// | `0x4000..0x4020` | APU and I/O: nothing drives the bus      |
/// | `0x4020..`       | the cartridge                            |
#[derive(Debug, Clone)]
pub struct CpuBus {
    pub openbus: u8,
    pub wram: [u8; WRAM_SIZE],
    pub ppu: Ppu,
    pub nesrom: Mapper,
}

impl CpuBus {
    /// A CPU read: the device at `addr` drives the bus (the APU and I/O
    /// range drives nothing, so the last value stays), and the byte on the
    /// bus is kept as the open-bus value. The PPU's registers cannot be
    /// read yet.
    pub fn read(&mut self, addr: u16) -> (r: u8)
        requires
            !(0x2000 <= addr < 0x4000),
            addr >= 0x4020 ==> old(self).nesrom.cpu_access_ok(addr),
        ensures
            addr < 0x2000 ==> r == old(self).wram@[(addr % 0x800) as int],
            0x4000 <= addr < 0x4020 ==> r == old(self).openbus,
            addr >= 0x4020 ==> r == cart_read_spec(old(self).nesrom, addr),
            final(self).openbus == r,
            final(self).wram == old(self).wram,
            final(self).ppu == old(self).ppu,
            final(self).nesrom == old(self).nesrom,
    {
        let busdata = if addr < 0x2000 {
            BusData::new(self.wram[(addr % 0x800) as usize], 0xFF)
        } else if addr < 0x4020 {
            BusData::new(0, 0x00)
        } else {
            BusData::new(self.nesrom.cpu_read(addr), 0xFF)
        };

        self.openbus = busdata.composite(self.openbus);
        self.openbus
    }

    /// A CPU write: the byte stays on the bus, and the device at `addr`
    /// takes it (the APU and I/O range ignores it).
    pub fn write(&mut self, addr: u16, data: u8)
        requires
            addr >= 0x4020 ==> old(self).nesrom.cpu_write_ok(addr),
        ensures
            final(self).openbus == data,
            addr < 0x2000 ==> final(self).wram@ == old(self).wram@.update((addr % 0x800) as int, data),
            addr >= 0x2000 ==> final(self).wram == old(self).wram,
            addr >= 0x4020 ==> match (old(self).nesrom, final(self).nesrom) {
                (Mapper::Nrom(m0), Mapper::Nrom(m1)) => m1.written(m0, addr, data),
            },
            addr < 0x4020 ==> final(self).nesrom == old(self).nesrom,
            final(self).ppu == old(self).ppu,
    {
        self.openbus = data;

        if addr < 0x2000 {
            self.wram[(addr % 0x800) as usize] = data;
        } else if addr < 0x4000 {
            self.ppu.write_register((addr % 8) as u8, data);
        } else if addr < 0x4020 {
        } else {
            self.nesrom.cpu_write(addr, data);
        }
    }
}

/// The whole board: cartridge, work RAM, PPU, nametable RAM and the two
/// open-bus latches.
#[derive(Debug, Clone)]
pub struct NesBus {
    pub nesrom: Mapper,
    pub cpu_openbus: u8,
    pub wram: [u8; WRAM_SIZE],
    pub ppu_openbus: u8,
    pub ppu: Ppu,
    pub vram: [u8; VRAM_SIZE],
}

impl NesBus {
    /// Lets one CPU cycle pass for the PPU and the cartridge; neither
    /// changes yet.
    pub fn sync_with_cpu(&mut self)
        ensures
            *final(self) == *old(self),
    {
        let mut ppubus = PpuBus { openbus: self.ppu_openbus, vram: self.vram };
        self.ppu.cpu_step(&mut ppubus);
        self.ppu_openbus = ppubus.openbus;
        self.vram = ppubus.vram;
        self.nesrom.cpu_step();
    }
}

} // verus!
