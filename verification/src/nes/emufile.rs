//! ROM image formats (iNES and NES 2.0) and what they describe.

pub mod ines;
pub mod nes2;

use vstd::prelude::*;
use crate::nes::nescart::mirroring::Mirroring;

pub use ines::InesParser;
pub use nes2::Nes2Parser;

verus! {

/// The console family a ROM image is made for.
#[derive(Debug, Clone, Copy, PartialEq, Eq)]
pub enum ConsoleType {
    NesOrFamicom,
    VsSystem { ppu: u8, hw: u8 },
    PlayChoise10,
    Extended { console: u8 },
}

/// The CPU/PPU timing a ROM image is made for.
#[derive(Debug, Clone, Copy, PartialEq, Eq)]
pub enum NesRegion {
    Ntsc,
    Pal,
    Multi,
    Dendy,
}

/// What a cartridge is made of.
#[derive(Debug, Clone)]
pub struct NesRomInfo {
    pub mapper_id: u32,
    pub submapper: u8,
    pub hardwired_nt: Mirroring,
    pub alternative_nt: bool,
    pub prgrom: Vec<u8>,
    pub chrrom: Vec<u8>,
    pub prgram_size: u32,
    pub chrram_size: u32,
}

/// A parsed ROM image.
#[derive(Debug, Clone)]
pub struct EmuFile {
    pub console_type: ConsoleType,
    pub nes_region: NesRegion,
    pub other_roms: u8,
    pub expansion_device: u8,
    pub nesrom_info: NesRomInfo,
}

/// Why a byte string is no ROM image a parser accepts.
#[derive(Debug, Clone, Copy, PartialEq, Eq)]
pub enum ParseError {
    /// The data ends before the header, trainer or a ROM is complete.
    UnexpectedEof,
    /// The data does not start with `NES\x1A`.
    NotNesFormat,
    /// The header is not of the format this parser reads.
    UnsupportedFormat,
    /// The console type field holds no known value.
    InvalidConsoleType(u8),
    /// The region field holds no known value.
    InvalidRegion(u8),
}

/// Size of an iNES / NES 2.0 header.
pub const HEADER_SIZE: usize = 0x10;
/// Size of the optional trainer that follows the header.
pub const TRAINER_SIZE: usize = 0x200;

/// Whether `d` starts with a full header carrying the `NES\x1A` magic.
pub open spec fn has_nes_magic(d: Seq<u8>) -> bool {
    &&& d.len() >= HEADER_SIZE
    &&& d[0] == 0x4E
    &&& d[1] == 0x45
    &&& d[2] == 0x53
    &&& d[3] == 0x1A
}

/// Length of the trainer announced by the header of `d`.
pub open spec fn trainer_len(d: Seq<u8>) -> int {
    if d[6] & 0x04 != 0 { TRAINER_SIZE as int } else { 0 }
}

/// The nametable arrangement wired on the cartridge, from flag 6 bit 0.
pub open spec fn hardwired_nt_of(flag6: u8) -> Mirroring {
    if flag6 & 0x01 != 0 { Mirroring::Horizontal } else { Mirroring::Vertical }
}

/// Reads a ROM image: as NES 2.0 first, and if that fails, as iNES.
pub fn parse_emufile(data: &[u8]) -> (r: Result<EmuFile, ParseError>)
    requires
        nes2::nes2_sizes_defined(data@),
    ensures
        nes2::nes2_error(data@) is None ==> nes2::nes2_parsed(data@, r),
        nes2::nes2_error(data@) is Some ==> ines::ines_parsed(data@, r),
{
    match Nes2Parser::parse(data) {
        Ok(f) => Ok(f),
        Err(_) => InesParser::parse(data),
    }
}

} // verus!
