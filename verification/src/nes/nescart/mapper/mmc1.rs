use vstd::prelude::*;
use super::logic::{MapperLogic, MappedCpuRead, MappedCpuWrite, MappedPpuRead, MappedPpuWrite};
use super::MapperArgs;
use crate::nes::nescart::mirroring::{Mirroring, VramTarget, resolve_spec};

verus! {

/// Size of a switchable PRG-ROM bank.
pub const PRGBANK_SIZE: u32 = 0x4000;
/// Size of a switchable CHR bank.
pub const CHRBANK_SIZE: u32 = 0x1000;

/// How the two 16 KiB PRG windows are filled.
#[derive(Debug, Clone, Copy, PartialEq, Eq)]
pub enum PrgBankMode {
    /// One switchable 32 KiB bank.
    Flexed,
    /// First bank fixed at `0x8000`, switchable bank at `0xC000`.
    FirstAndFlexed,
    /// Switchable bank at `0x8000`, last bank fixed at `0xC000`.
    FlexedAndLast,
}

/// How the two 4 KiB CHR windows are filled.
#[derive(Debug, Clone, Copy, PartialEq, Eq)]
pub enum ChrBankMode {
    /// One switchable 8 KiB bank.
    Combined,
    /// Two switchable 4 KiB banks.
    Splitted,
}

/// Mapper 1 (MMC1): registers loaded serially, one bit per write.
#[derive(Debug, Clone, Copy)]
pub struct Mmc1 {
    pub mirroring: Mirroring,
    pub prgram_size: u32,
    pub prgrom_size: u32,
    pub chrrom_size: u32,
    pub chrram_size: u32,

    pub load_seek: u8,
    pub load_buf: u8,
    pub chrbank0: u8,
    pub chrbank1: u8,
    pub prgbank: u8,
    pub write_lock: bool,
    pub prgbank_mode: PrgBankMode,
    pub chrbank_mode: ChrBankMode,
}

/// The mirroring selected by the two low bits of the control register.
pub open spec fn control_mirroring(data: u8) -> Mirroring {
    let m = data % 4;
    if m == 0 {
        Mirroring::SingleScreen0
    } else if m == 1 {
        Mirroring::SingleScreen1
    } else if m == 2 {
        Mirroring::Vertical
    } else {
        Mirroring::Horizontal
    }
}

/// The PRG mode selected by bits 2-3 of the control register.
pub open spec fn control_prg_mode(data: u8) -> PrgBankMode {
    let m = (data / 4) % 4;
    if m <= 1 {
        PrgBankMode::Flexed
    } else if m == 2 {
        PrgBankMode::FirstAndFlexed
    } else {
        PrgBankMode::FlexedAndLast
    }
}

impl Mmc1 {
    pub open spec fn mirroring(self) -> Mirroring {
        self.mirroring
    }

    pub open spec fn load_seek(self) -> u8 {
        self.load_seek
    }

    pub open spec fn load_buf(self) -> u8 {
        self.load_buf
    }

    pub open spec fn write_lock(self) -> bool {
        self.write_lock
    }

    pub open spec fn prgbank(self) -> u8 {
        self.prgbank
    }

    pub open spec fn chrbank0(self) -> u8 {
        self.chrbank0
    }

    pub open spec fn chrbank1(self) -> u8 {
        self.chrbank1
    }

    pub open spec fn prgbank_mode(self) -> PrgBankMode {
        self.prgbank_mode
    }

    pub open spec fn chrbank_mode(self) -> ChrBankMode {
        self.chrbank_mode
    }

    pub open spec fn sizes(self) -> (u32, u32, u32, u32) {
        (self.prgram_size, self.prgrom_size, self.chrrom_size, self.chrram_size)
    }

    /// The number of 16 KiB PRG-ROM banks, as an 8-bit count.
    pub open spec fn banks(self) -> u8 {
        ((self.prgrom_size / PRGBANK_SIZE) % 256) as u8
    }

    /// The PRG-ROM offset (before wrapping at the ROM size) of a CPU
    /// address in `0x8000..`.
    pub open spec fn prgrom_addr_spec(self, addr: u16) -> int {
        let bank: int = match self.prgbank_mode {
            PrgBankMode::Flexed => (self.prgbank & 0xFE) as int,
            PrgBankMode::FirstAndFlexed => if addr < 0xC000 { 0 } else { self.prgbank as int },
            PrgBankMode::FlexedAndLast => if addr < 0xC000 {
                self.prgbank as int
            } else {
                self.banks() - 1
            },
        };
        bank * PRGBANK_SIZE + addr % 0x8000
    }

    /// The CHR offset (before wrapping) of a PPU address in `0x0000..0x2000`.
    pub open spec fn chr_addr_spec(self, addr: u16) -> int {
        match self.chrbank_mode {
            ChrBankMode::Combined => (self.chrbank0 & 0xFE) * CHRBANK_SIZE + addr % 0x2000,
            ChrBankMode::Splitted => {
                let bank = if addr < 0x1000 { self.chrbank0 } else { self.chrbank1 };
                bank * CHRBANK_SIZE + addr % 0x1000
            },
        }
    }

    /// The state after the control register is loaded with `data`.
    pub open spec fn control_written(self, data: u8) -> Self {
        Mmc1 {
            mirroring: control_mirroring(data),
            prgbank_mode: control_prg_mode(data),
            chrbank_mode: if data & 0x10 != 0 { ChrBankMode::Splitted } else { ChrBankMode::Combined },
            ..self
        }
    }

    /// The state after a serial write of `data` at `addr` (in `0x8000..`):
    /// bit 7 resets the shift register; otherwise, unless a write already
    /// happened this CPU cycle, bit 0 is shifted in, and the fifth bit loads
    /// the register `addr` selects.
    pub open spec fn serial_written(self, addr: u16, data: u8) -> Self {
        if data & 0x80 != 0 {
            Mmc1 {
                prgbank_mode: PrgBankMode::FlexedAndLast,
                write_lock: false,
                load_buf: 0,
                load_seek: 0,
                ..self
            }
        } else if self.write_lock {
            self
        } else {
            let buf = self.load_buf | ((data & 0x01) << self.load_seek);
            if self.load_seek + 1 == 5 {
                let loaded = if addr <= 0x9FFF {
                    self.control_written(buf)
                } else if addr <= 0xBFFF {
                    Mmc1 { chrbank0: buf, ..self }
                } else if addr <= 0xDFFF {
                    Mmc1 { chrbank1: buf, ..self }
                } else {
                    Mmc1 { prgbank: buf, ..self }
                };
                Mmc1 { load_buf: 0, load_seek: 0, write_lock: true, ..loaded }
            } else {
                Mmc1 { load_buf: buf, load_seek: (self.load_seek + 1) as u8, write_lock: true, ..self }
            }
        }
    }

    /// The board as built from `args`: serial register empty, PRG mode
    /// `Flexed`, CHR mode `Combined`, all banks 0.
    pub open spec fn built(args: MapperArgs) -> Self {
        Mmc1 {
            mirroring: if args.vertical_nt { Mirroring::Vertical } else { Mirroring::Horizontal },
            prgram_size: args.prgram_size,
            prgrom_size: args.prgrom_size,
            chrrom_size: args.chrrom_size,
            chrram_size: args.chrram_size,
            load_seek: 0,
            load_buf: 0,
            chrbank0: 0,
            chrbank1: 0,
            prgbank: 0,
            write_lock: false,
            prgbank_mode: PrgBankMode::Flexed,
            chrbank_mode: ChrBankMode::Combined,
        }
    }

    pub fn new(args: MapperArgs) -> (r: Self)
        ensures
            r == Self::built(args),
            r.inv(),
            r.mirroring() == (if args.vertical_nt { Mirroring::Vertical } else { Mirroring::Horizontal }),
            r.sizes() == (args.prgram_size, args.prgrom_size, args.chrrom_size, args.chrram_size),
            r.load_seek() == 0,
            r.load_buf() == 0,
            !r.write_lock(),
            r.prgbank() == 0,
            r.chrbank0() == 0,
            r.chrbank1() == 0,
            r.prgbank_mode() == PrgBankMode::Flexed,
            r.chrbank_mode() == ChrBankMode::Combined,
    {
        let mirroring = if args.vertical_nt {
            Mirroring::Vertical
        } else {
            Mirroring::Horizontal
        };

        Self {
            mirroring,
            prgram_size: args.prgram_size,
            prgrom_size: args.prgrom_size,
            chrrom_size: args.chrrom_size,
            chrram_size: args.chrram_size,
            load_seek: 0x0,
            load_buf: 0x00,
            chrbank0: 0x00,
            chrbank1: 0x00,
            prgbank: 0x00,
            write_lock: false,
            prgbank_mode: PrgBankMode::Flexed,
            chrbank_mode: ChrBankMode::Combined,
        }
    }

    /// The PRG-ROM offset of a CPU address in `0x8000..`.
    fn prgrom_addr(&self, addr: u16) -> (r: u32)
        requires
            self.prgbank_mode == PrgBankMode::FlexedAndLast && addr >= 0xC000 ==> self.banks() >= 1,
        ensures
            r == self.prgrom_addr_spec(addr),
    {
        let banks: u8 = ((self.prgrom_size / PRGBANK_SIZE) % 256) as u8;
        let bank: u8 = match self.prgbank_mode {
            PrgBankMode::Flexed => self.prgbank & 0xFE,
            PrgBankMode::FirstAndFlexed => {
                if addr < 0xC000 {
                    0
                } else {
                    self.prgbank
                }
            },
            PrgBankMode::FlexedAndLast => {
                if addr < 0xC000 {
                    self.prgbank
                } else {
                    banks - 1
                }
            },
        };

        bank as u32 * PRGBANK_SIZE + (addr % 0x8000) as u32
    }

    /// The CHR offset of a PPU address in `0x0000..0x2000`.
    fn chr_addr(&self, addr: u16) -> (r: u32)
        ensures
            r == self.chr_addr_spec(addr),
    {
        match self.chrbank_mode {
            ChrBankMode::Combined => {
                let bank: u32 = (self.chrbank0 & 0xFE) as u32;
                bank * CHRBANK_SIZE + (addr % 0x2000) as u32
            },
            ChrBankMode::Splitted => {
                let bank: u8 = if addr < 0x1000 {
                    self.chrbank0
                } else {
                    self.chrbank1
                };
                bank as u32 * CHRBANK_SIZE + (addr % 0x1000) as u32
            },
        }
    }

    /// Empties the serial shift register.
    fn initiate(&mut self)
        ensures
            *final(self) == (Mmc1 { load_buf: 0, load_seek: 0, ..*old(self) }),
    {
        self.load_buf = 0x00;
        self.load_seek = 0;
    }

    /// Loads the control register: mirroring, PRG mode and CHR mode.
    fn write_control(&mut self, data: u8)
        ensures
            *final(self) == old(self).control_written(data),
    {
        let m: u8 = data % 4;
        self.mirroring = if m == 0 {
            Mirroring::SingleScreen0
        } else if m == 1 {
            Mirroring::SingleScreen1
        } else if m == 2 {
            Mirroring::Vertical
        } else {
            Mirroring::Horizontal
        };

        let p: u8 = (data / 4) % 4;
        self.prgbank_mode = if p <= 1 {
            PrgBankMode::Flexed
        } else if p == 2 {
            PrgBankMode::FirstAndFlexed
        } else {
            PrgBankMode::FlexedAndLast
        };

        self.chrbank_mode = if data & 0x10 != 0 {
            ChrBankMode::Splitted
        } else {
            ChrBankMode::Combined
        };
    }

    /// One serial write to the register selected by `addr` (in `0x8000..`).
    fn serial_write(&mut self, addr: u16, data: u8)
        requires
            old(self).load_seek < 5,
            addr >= 0x8000,
        ensures
            *final(self) == old(self).serial_written(addr, data),
            final(self).load_seek < 5,
    {
        if data & 0x80 != 0 {
            self.prgbank_mode = PrgBankMode::FlexedAndLast;
            self.write_lock = false;
            self.initiate();
            return;
        }

        if self.write_lock {
            return;
        }
        self.write_lock = true;

        self.load_buf = self.load_buf | ((data & 0x01) << self.load_seek);
        self.load_seek = self.load_seek + 1;

        if self.load_seek == 5 {
            if addr <= 0x9FFF {
                let buf: u8 = self.load_buf;
                self.write_control(buf);
            } else if addr <= 0xBFFF {
                self.chrbank0 = self.load_buf;
            } else if addr <= 0xDFFF {
                self.chrbank1 = self.load_buf;
            } else {
                self.prgbank = self.load_buf;
            }

            self.initiate();
        }
    }
}

impl MapperLogic for Mmc1 {
    open spec fn inv(&self) -> bool {
        &&& self.load_seek < 5
        &&& !(self.mirroring is FourScreen)
    }

    open spec fn irq_spec(&self) -> bool {
        false
    }

    open spec fn stepped(&self) -> Self {
        Mmc1 { write_lock: false, ..*self }
    }

    open spec fn cpu_read_ok(&self, addr: u16) -> bool {
        &&& addr >= 0x4020
        &&& 0x6000 <= addr <= 0x7FFF ==> self.prgram_size != 0
        &&& addr >= 0x8000 ==> self.prgrom_size != 0
        &&& addr >= 0xC000 && self.prgbank_mode == PrgBankMode::FlexedAndLast ==> self.banks() >= 1
    }

    open spec fn cpu_read_spec(&self, addr: u16) -> MappedCpuRead {
        if addr <= 0x5FFF {
            MappedCpuRead::Openbus
        } else if addr <= 0x7FFF {
            MappedCpuRead::PrgRam(((addr % 0x2000) as int % self.prgram_size as int) as u32)
        } else {
            MappedCpuRead::PrgRom((self.prgrom_addr_spec(addr) % self.prgrom_size as int) as u32)
        }
    }

    open spec fn cpu_write_ok(&self, addr: u16) -> bool {
        &&& addr >= 0x4020
        &&& 0x6000 <= addr <= 0x7FFF ==> self.prgram_size != 0
    }

    open spec fn cpu_write_spec(&self, addr: u16, data: u8) -> (MappedCpuWrite, Self) {
        if addr <= 0x5FFF {
            (MappedCpuWrite::Other, *self)
        } else if addr <= 0x7FFF {
            (MappedCpuWrite::PrgRam(((addr % 0x2000) as int % self.prgram_size as int) as u32, data), *self)
        } else {
            (MappedCpuWrite::Other, self.serial_written(addr, data))
        }
    }

    open spec fn ppu_read_ok(&self, addr: u16) -> bool {
        &&& addr <= 0x2FFF
        &&& addr <= 0x1FFF && self.chrrom_size == 0 ==> self.chrram_size != 0
    }

    open spec fn ppu_read_spec(&self, addr: u16) -> (MappedPpuRead, Self) {
        if addr <= 0x1FFF {
            if self.chrrom_size == 0 {
                (MappedPpuRead::ChrRam((self.chr_addr_spec(addr) % self.chrram_size as int) as u32), *self)
            } else {
                (MappedPpuRead::ChrRom((self.chr_addr_spec(addr) % self.chrrom_size as int) as u32), *self)
            }
        } else {
            (MappedPpuRead::InternalVram(resolve_spec(self.mirroring, addr).0), *self)
        }
    }

    open spec fn ppu_write_ok(&self, addr: u16) -> bool {
        addr <= 0x2FFF
    }

    open spec fn ppu_write_spec(&self, addr: u16, data: u8) -> (MappedPpuWrite, Self) {
        if addr <= 0x1FFF {
            if self.chrram_size != 0 {
                (MappedPpuWrite::ChrRam((self.chr_addr_spec(addr) % self.chrram_size as int) as u32, data), *self)
            } else {
                (MappedPpuWrite::Other, *self)
            }
        } else {
            (MappedPpuWrite::InternalVram(resolve_spec(self.mirroring, addr).0, data), *self)
        }
    }

    open spec fn serves(&self, prgrom_len: nat, prgram_len: nat, chrrom_len: nat, chrram_len: nat) -> bool {
        &&& self.inv()
        &&& 0 < self.prgram_size <= prgram_len
        &&& PRGBANK_SIZE <= self.prgrom_size <= prgrom_len
        &&& self.banks() >= 1
        &&& self.chrrom_size <= chrrom_len
        &&& self.chrram_size <= chrram_len
        &&& (self.chrrom_size != 0 || self.chrram_size != 0)
    }

    proof fn lemma_serves(&self, prgrom_len: nat, prgram_len: nat, chrrom_len: nat, chrram_len: nat, addr: u16, data: u8) {
    }

    fn check_serves(&self, prgrom_len: usize, prgram_len: usize, chrrom_len: usize, chrram_len: usize) -> (r: bool) {
        let four: bool = match self.mirroring {
            Mirroring::FourScreen => true,
            _ => false,
        };
        let banks: u8 = ((self.prgrom_size / PRGBANK_SIZE) % 256) as u8;
        self.load_seek < 5 && !four
            && 0 < self.prgram_size && self.prgram_size as usize <= prgram_len
            && PRGBANK_SIZE <= self.prgrom_size && self.prgrom_size as usize <= prgrom_len
            && banks >= 1
            && self.chrrom_size as usize <= chrrom_len
            && self.chrram_size as usize <= chrram_len
            && (self.chrrom_size != 0 || self.chrram_size != 0)
    }

    fn irq_active(&self) -> (r: bool) {
        false
    }

    fn cpu_step(&mut self) {
        self.write_lock = false;
    }

    fn map_cpu_read(&mut self, addr: u16) -> (r: MappedCpuRead) {
        if addr <= 0x5FFF {
            MappedCpuRead::Openbus
        } else if addr <= 0x7FFF {
            let offset: u32 = (addr % 0x2000) as u32;
            MappedCpuRead::PrgRam(offset % self.prgram_size)
        } else {
            let offset: u32 = self.prgrom_addr(addr) % self.prgrom_size;
            MappedCpuRead::PrgRom(offset)
        }
    }

    fn map_cpu_write(&mut self, addr: u16, data: u8) -> (r: MappedCpuWrite) {
        if addr <= 0x5FFF {
            MappedCpuWrite::Other
        } else if addr <= 0x7FFF {
            let offset: u32 = (addr % 0x2000) as u32;
            MappedCpuWrite::PrgRam(offset % self.prgram_size, data)
        } else {
            self.serial_write(addr, data);
            MappedCpuWrite::Other
        }
    }

    fn map_ppu_read(&mut self, addr: u16) -> (r: MappedPpuRead) {
        if addr <= 0x1FFF {
            let offset: u32 = self.chr_addr(addr);
            if self.chrrom_size == 0 {
                MappedPpuRead::ChrRam(offset % self.chrram_size)
            } else {
                MappedPpuRead::ChrRom(offset % self.chrrom_size)
            }
        } else {
            let (vaddr, target) = self.mirroring.resolve(addr);
            match target {
                VramTarget::Internal => MappedPpuRead::InternalVram(vaddr),
                VramTarget::External => {
                    assert(false);
                    MappedPpuRead::Openbus
                },
            }
        }
    }

    fn map_ppu_write(&mut self, addr: u16, data: u8) -> (r: MappedPpuWrite) {
        if addr <= 0x1FFF {
            if self.chrram_size != 0 {
                let offset: u32 = self.chr_addr(addr);
                MappedPpuWrite::ChrRam(offset % self.chrram_size, data)
            } else {
                MappedPpuWrite::Other
            }
        } else {
            let (vaddr, target) = self.mirroring.resolve(addr);
            match target {
                VramTarget::Internal => MappedPpuWrite::InternalVram(vaddr, data),
                VramTarget::External => {
                    assert(false);
                    MappedPpuWrite::Other
                },
            }
        }
    }
}

/// The serial port: from an empty shift register, five writes with bit 7
/// clear, each in a CPU cycle of its own, load the PRG bank register
/// (`0xE000..`) with their bit 0s, the first write giving bit 0.
pub proof fn lemma_serial_load_prgbank(m: Mmc1, addr: u16, d0: u8, d1: u8, d2: u8, d3: u8, d4: u8)
    requires
        m.inv(),
        m.load_seek() == 0,
        m.load_buf() == 0,
        !m.write_lock(),
        addr >= 0xE000,
        d0 < 0x80 && d1 < 0x80 && d2 < 0x80 && d3 < 0x80 && d4 < 0x80,
    ensures
        ({
            let m1 = m.cpu_write_spec(addr, d0).1.stepped();
            let m2 = m1.cpu_write_spec(addr, d1).1.stepped();
            let m3 = m2.cpu_write_spec(addr, d2).1.stepped();
            let m4 = m3.cpu_write_spec(addr, d3).1.stepped();
            let m5 = m4.cpu_write_spec(addr, d4).1;
            &&& m5.prgbank() == d0 % 2 + 2 * (d1 % 2) + 4 * (d2 % 2) + 8 * (d3 % 2) + 16 * (d4 % 2)
            &&& m5.load_seek() == 0
            &&& m5.load_buf() == 0
        }),
{
    crate::bits::lemma_u8_field_bounds();
    assert(d0 < 0x80 && d1 < 0x80 && d2 < 0x80 && d3 < 0x80 && d4 < 0x80 ==> {
        &&& d0 & 0x80 == 0 && d1 & 0x80 == 0 && d2 & 0x80 == 0 && d3 & 0x80 == 0 && d4 & 0x80 == 0
        &&& ((((0u8 | ((d0 & 1) << 0u8)) | ((d1 & 1) << 1u8)) | ((d2 & 1) << 2u8)) | ((d3 & 1) << 3u8)) | ((d4 & 1) << 4u8)
            == (d0 % 2 + 2 * (d1 % 2) + 4 * (d2 % 2) + 8 * (d3 % 2) + 16 * (d4 % 2)) as u8
    }) by (bit_vector);
}

/// MMC1 sends a nametable address to the console's RAM, through its
/// mirroring, for writes and reads alike; a PPU write leaves the mirroring.
pub proof fn lemma_mmc1_nametable(m: Mmc1, addr: u16, data: u8)
    requires
        0x2000 <= addr <= 0x2FFF,
    ensures
        m.ppu_write_spec(addr, data).0 == MappedPpuWrite::InternalVram(resolve_spec(m.mirroring(), addr).0, data),
        m.ppu_write_spec(addr, data).1.ppu_read_spec(addr).0 == MappedPpuRead::InternalVram(resolve_spec(m.mirroring(), addr).0),
{
}

/// The console RAM offset nametable `n` (0..4, at `0x2000 + 0x400 * n`)
/// lands on at offset `o`, for a control value `c`: bits 0-1 select one
/// screen (the first or the second kilobyte), vertical mirroring (tables 0
/// and 2 share a kilobyte) or horizontal mirroring (tables 0 and 1 share
/// one).
pub open spec fn mmc1_nametable_target(c: u8, n: int, o: u16) -> u16 {
    let page = if c % 4 == 0 {
        0
    } else if c % 4 == 1 {
        1
    } else if c % 4 == 2 {
        n % 2
    } else {
        n / 2
    };
    (page * 0x400 + o) as u16
}

/// After the control register is loaded with `c`, the PPU's nametables lay
/// onto the console's RAM as bits 0-1 of `c` select.
pub proof fn lemma_mmc1_control_mirroring(m: Mmc1, c: u8, n: int, o: u16)
    requires
        0 <= n < 4,
        o < 0x400,
    ensures
        m.control_written(c).ppu_read_spec((0x2000 + 0x400 * n + o) as u16).0
            == MappedPpuRead::InternalVram(mmc1_nametable_target(c, n, o)),
{
    let a = (0x2000 + 0x400 * n + o) as u16;
    assert((a / 0x400) % 4 == n && a % 0x400 == o) by {
        if n == 0 {
        } else if n == 1 {
        } else if n == 2 {
        } else {
        }
    }
}

/// The serial port loads the control register: from an empty shift
/// register, five writes to `0x8000..0xA000` with bit 7 clear, each in a
/// CPU cycle of its own, give the control value of their bit 0s (the first
/// write giving bit 0), and the nametables lay out as that value selects.
pub proof fn lemma_serial_load_control(m: Mmc1, addr: u16, d0: u8, d1: u8, d2: u8, d3: u8, d4: u8, n: int, o: u16)
    requires
        m.inv(),
        m.load_seek() == 0,
        m.load_buf() == 0,
        !m.write_lock(),
        0x8000 <= addr <= 0x9FFF,
        d0 < 0x80 && d1 < 0x80 && d2 < 0x80 && d3 < 0x80 && d4 < 0x80,
        0 <= n < 4,
        o < 0x400,
    ensures
        ({
            let m1 = m.cpu_write_spec(addr, d0).1.stepped();
            let m2 = m1.cpu_write_spec(addr, d1).1.stepped();
            let m3 = m2.cpu_write_spec(addr, d2).1.stepped();
            let m4 = m3.cpu_write_spec(addr, d3).1.stepped();
            let m5 = m4.cpu_write_spec(addr, d4).1;
            let c = (d0 % 2 + 2 * (d1 % 2) + 4 * (d2 % 2) + 8 * (d3 % 2) + 16 * (d4 % 2)) as u8;
            m5.ppu_read_spec((0x2000 + 0x400 * n + o) as u16).0 == MappedPpuRead::InternalVram(mmc1_nametable_target(c, n, o))
        }),
{
    crate::bits::lemma_u8_field_bounds();
    assert(d0 < 0x80 && d1 < 0x80 && d2 < 0x80 && d3 < 0x80 && d4 < 0x80 ==> {
        &&& d0 & 0x80 == 0 && d1 & 0x80 == 0 && d2 & 0x80 == 0 && d3 & 0x80 == 0 && d4 & 0x80 == 0
        &&& ((((0u8 | ((d0 & 1) << 0u8)) | ((d1 & 1) << 1u8)) | ((d2 & 1) << 2u8)) | ((d3 & 1) << 3u8)) | ((d4 & 1) << 4u8)
            == (d0 % 2 + 2 * (d1 % 2) + 4 * (d2 % 2) + 8 * (d3 % 2) + 16 * (d4 % 2)) as u8
    }) by (bit_vector);
    let m1 = m.cpu_write_spec(addr, d0).1.stepped();
    let m2 = m1.cpu_write_spec(addr, d1).1.stepped();
    let m3 = m2.cpu_write_spec(addr, d2).1.stepped();
    let m4 = m3.cpu_write_spec(addr, d3).1.stepped();
    let m5 = m4.cpu_write_spec(addr, d4).1;
    let c = (d0 % 2 + 2 * (d1 % 2) + 4 * (d2 % 2) + 8 * (d3 % 2) + 16 * (d4 % 2)) as u8;
    assert(m5.mirroring == m4.control_written(c).mirroring);
    lemma_mmc1_control_mirroring(m4, c, n, o);
}

/// MMC1's lower PRG window (`0x8000..0xC000`): in 32 KiB mode it starts the
/// even bank pair of the PRG register, with the first bank fixed it shows
/// bank 0, and with the last bank fixed the bank of the PRG register; a
/// 32 KiB window runs on through `0xFFFF`.
pub proof fn lemma_mmc1_prg_low_window(m: Mmc1, k: int)
    requires
        0 <= k < 0x4000,
        m.prgrom_size > 0,
    ensures
        m.prgbank_mode is Flexed ==> m.cpu_read_spec((0x8000 + k) as u16)
            == MappedCpuRead::PrgRom((((m.prgbank as int / 2) * 0x8000 + k) % m.prgrom_size as int) as u32),
        m.prgbank_mode is Flexed ==> m.cpu_read_spec((0xC000 + k) as u16)
            == MappedCpuRead::PrgRom((((m.prgbank as int / 2) * 0x8000 + 0x4000 + k) % m.prgrom_size as int) as u32),
        m.prgbank_mode is FirstAndFlexed ==> m.cpu_read_spec((0x8000 + k) as u16)
            == MappedCpuRead::PrgRom((k % m.prgrom_size as int) as u32),
        m.prgbank_mode is FlexedAndLast ==> m.cpu_read_spec((0x8000 + k) as u16)
            == MappedCpuRead::PrgRom(((m.prgbank as int * 0x4000 + k) % m.prgrom_size as int) as u32),
{
    let b = m.prgbank;
    assert((b & 0xFE) as int == (b as int / 2) * 2) by (bit_vector);
}

/// After the control register is loaded with `c`, bits 2-3 of `c` choose
/// what the lower PRG window shows (a 32 KiB pair, bank 0, or the PRG
/// register's bank) and bit 4 chooses between one 8 KiB CHR bank and two
/// 4 KiB banks, as the upper CHR window shows.
pub proof fn lemma_mmc1_control_banking(m: Mmc1, c: u8, k: int, j: int)
    requires
        0 <= k < 0x4000,
        0 <= j < 0x1000,
        m.prgrom_size > 0,
        m.chrrom_size > 0,
    ensures
        (c / 4) % 4 <= 1 ==> m.control_written(c).cpu_read_spec((0x8000 + k) as u16)
            == MappedCpuRead::PrgRom((((m.prgbank as int / 2) * 0x8000 + k) % m.prgrom_size as int) as u32),
        (c / 4) % 4 == 2 ==> m.control_written(c).cpu_read_spec((0x8000 + k) as u16)
            == MappedCpuRead::PrgRom((k % m.prgrom_size as int) as u32),
        (c / 4) % 4 == 3 ==> m.control_written(c).cpu_read_spec((0x8000 + k) as u16)
            == MappedCpuRead::PrgRom(((m.prgbank as int * 0x4000 + k) % m.prgrom_size as int) as u32),
        (c / 16) % 2 == 1 ==> m.control_written(c).ppu_read_spec((0x1000 + j) as u16).0
            == MappedPpuRead::ChrRom(((m.chrbank1 as int * 0x1000 + j) % m.chrrom_size as int) as u32),
        (c / 16) % 2 == 0 ==> m.control_written(c).ppu_read_spec((0x1000 + j) as u16).0
            == MappedPpuRead::ChrRom((((m.chrbank0 as int / 2) * 0x2000 + 0x1000 + j) % m.chrrom_size as int) as u32),
{
    lemma_mmc1_prg_low_window(m.control_written(c), k);
    let b = m.chrbank0;
    assert((b & 0xFE) as int == (b as int / 2) * 2) by (bit_vector);
    assert((c & 0x10 != 0) == ((c / 16) % 2 == 1)) by (bit_vector);
    let a = (0x1000 + j) as u16;
    assert(a % 0x2000 == 0x1000 + j && a % 0x1000 == j && a >= 0x1000);
}

} // verus!
