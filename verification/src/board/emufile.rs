use vstd::prelude::*;
use crate::nes::nescart::mirroring::Mirroring;

verus! {

/// The console family a ROM image is made for.
#[derive(Debug, Clone, Copy, PartialEq, Eq)]
pub enum ConsoleType {
    NesOrFamicom,
    VsSystem { ppu: u8, hw: u8 },
    PlayChoise10,
    Extended { console: u8 },
}

/// The CPU/PPU timing a ROM image is made for.
#[derive(Debug, Clone, Copy, PartialEq, Eq)]
pub enum NesTiming {
    NtscNes,
    PalNes,
    MultiRegion,
    Dendy,
}

/// The machine a ROM image expects to run on.
#[derive(Debug, Clone, Copy, PartialEq, Eq)]
pub struct EnvInfo {
    pub console_type: ConsoleType,
    pub cpu_ppu_timing: NesTiming,
    pub other_roms: u8,
    pub expansion_device: u8,
}

/// What a cartridge is made of.
#[derive(Debug, Clone)]
pub struct RomInfo {
    pub mapper_id: u32,
    pub submapper: u8,
    pub hardwired_nt: Mirroring,
    pub alternative_nt: bool,
    pub prgrom: Vec<u8>,
    pub chrrom: Vec<u8>,
    pub prgram_size: u32,
    pub chrram_size: u32,
}

/// A ROM image split into its cartridge and its machine.
#[derive(Debug, Clone)]
pub struct EmuFile {
    pub rom_info: RomInfo,
    pub env_info: EnvInfo,
}

} // verus!
