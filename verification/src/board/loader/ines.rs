use vstd::prelude::*;
use crate::bits::{copy_range, lemma_u8_field_bounds};
use crate::board::emufile::{ConsoleType, EnvInfo, NesTiming};
use crate::board::mapper::{Mapper, MapperCtx};
use crate::board::loader::EmuFile;
use crate::nes::emufile::{ParseError, HEADER_SIZE, TRAINER_SIZE, trainer_len, hardwired_nt_of};
use crate::nes::emufile::ines::{ines_error, ines_prgrom_size, ines_chrrom_size};
use crate::nes::nescart::mirroring::Mirroring;

verus! {

/// Unit of the PRG-ROM size.
pub const PRGROM_CHUNK_SIZE: u32 = 0x4000;
/// Unit of the CHR-ROM size.
pub const CHRROM_CHUNK_SIZE: u32 = 0x2000;
/// Unit of the PRG-RAM size.
pub const PRGRAM_CHUNK_SIZE: u32 = 0x2000;
/// CHR-RAM size assumed, as iNES does not record it.
pub const CHRRAM_PLACEHOLDER_SIZE: u32 = 0x2000;

/// The fields of an iNES header.
#[derive(Debug, Clone, Copy)]
pub struct RawHeader {
    pub file_identifier: [u8; 4],
    pub prgrom_size: u8,
    pub chrrom_size: u8,
    pub horizontal_nt: bool,
    pub has_battery: bool,
    pub has_trainer: bool,
    pub alternative_nt: bool,
    pub mapper_nibble0: u8,
    pub console_type: u8,
    pub mapper_nibble1: u8,
    pub prgram_size: u8,
    pub is_pal_tv: bool,
}

impl RawHeader {
    /// Splits the 16 header bytes into their fields.
    pub fn new(data: &[u8; HEADER_SIZE]) -> (r: Self)
        ensures
            r.file_identifier@ == data@.subrange(0, 4),
            r.prgrom_size == data@[4],
            r.chrrom_size == data@[5],
            r.horizontal_nt == (data@[6] & 0x01 != 0),
            r.has_battery == (data@[6] & 0x02 != 0),
            r.has_trainer == (data@[6] & 0x04 != 0),
            r.alternative_nt == (data@[6] & 0x08 != 0),
            r.mapper_nibble0 == (data@[6] & 0xF0) >> 4,
            r.console_type == data@[7] & 0x03,
            r.mapper_nibble1 == (data@[7] & 0xF0) >> 4,
            r.prgram_size == data@[8],
            r.is_pal_tv == (data@[9] & 0x01 != 0),
    {
        let r = Self {
            file_identifier: [data[0], data[1], data[2], data[3]],
            prgrom_size: data[4],
            chrrom_size: data[5],
            horizontal_nt: data[6] & 0x01 != 0,
            has_battery: data[6] & 0x02 != 0,
            has_trainer: data[6] & 0x04 != 0,
            alternative_nt: data[6] & 0x08 != 0,
            mapper_nibble0: (data[6] & 0xF0) >> 4,
            console_type: data[7] & 0x03,
            mapper_nibble1: (data[7] & 0xF0) >> 4,
            prgram_size: data[8],
            is_pal_tv: data[9] & 0x01 != 0,
        };
        assert(r.file_identifier@ =~= data@.subrange(0, 4));
        r
    }
}

/// The mapper number an iNES header announces: its two nibbles taken as
/// bytes of a little-endian word.
pub open spec fn ines_mapper_id(d: Seq<u8>) -> int {
    ((d[6] & 0xF0) >> 4) + ((d[7] & 0xF0) >> 4) * 0x100
}

/// Only NROM boards can be built; an image for another board cannot be
/// loaded.
pub open spec fn ines_loadable(d: Seq<u8>) -> bool {
    ines_error(d) is None ==> ines_mapper_id(d) == 0
}

/// Reads iNES images into an NROM board.
pub struct InesLoader;

impl InesLoader {
    /// Reads an iNES image: header, optional trainer (skipped), PRG-ROM and
    /// CHR-ROM, and builds the board.
    pub fn parse(data: &[u8]) -> (r: Result<EmuFile, ParseError>)
        requires
            ines_loadable(data@),
        ensures
            match r {
                Err(e) => ines_error(data@) == Some(e),
                Ok(f) => {
                    let d = data@;
                    let start = HEADER_SIZE + trainer_len(d);
                    let prg = ines_prgrom_size(d);
                    let chr = ines_chrrom_size(d);
                    &&& ines_error(d) is None
                    &&& f.env_info.console_type == (if d[7] & 0x03 == 0 {
                        ConsoleType::NesOrFamicom
                    } else if d[7] & 0x03 == 1 {
                        ConsoleType::VsSystem { ppu: 0, hw: 0 }
                    } else {
                        ConsoleType::PlayChoise10
                    })
                    &&& f.env_info.cpu_ppu_timing == (if d[9] & 0x01 != 0 {
                        NesTiming::PalNes
                    } else {
                        NesTiming::NtscNes
                    })
                    &&& f.env_info.other_roms == 0
                    &&& f.env_info.expansion_device == 0
                    &&& match f.nesrom {
                        Mapper::Nrom(m) => {
                            &&& m.prgram() == Seq::new((PRGRAM_CHUNK_SIZE * d[8]) as nat, |i: int| 0u8)
                            &&& m.prgrom() == d.subrange(start, start + prg)
                            &&& m.chrrom() == d.subrange(start + prg, start + prg + chr)
                        },
                    }
                },
            },
            r is Err <==> ines_error(data@) is Some,
    {
        proof {
            lemma_u8_field_bounds();
        }
        if data.len() < HEADER_SIZE {
            return Err(ParseError::UnexpectedEof);
        }
        let header_data: [u8; HEADER_SIZE] = [
            data[0], data[1], data[2], data[3], data[4], data[5], data[6], data[7],
            data[8], data[9], data[10], data[11], data[12], data[13], data[14], data[15],
        ];
        let rawheader = RawHeader::new(&header_data);

        if !(rawheader.file_identifier[0] == 0x4E && rawheader.file_identifier[1] == 0x45
            && rawheader.file_identifier[2] == 0x53 && rawheader.file_identifier[3] == 0x1A) {
            return Err(ParseError::NotNesFormat);
        }

        let mapper_id: u32 = rawheader.mapper_nibble0 as u32 + rawheader.mapper_nibble1 as u32 * 0x100;

        let hardwired_nt = if rawheader.horizontal_nt {
            Mirroring::Horizontal
        } else {
            Mirroring::Vertical
        };

        let prgrom_size: u32 = PRGROM_CHUNK_SIZE * rawheader.prgrom_size as u32;
        let chrrom_size: u32 = CHRROM_CHUNK_SIZE * rawheader.chrrom_size as u32;
        let prgram_size: u32 = PRGRAM_CHUNK_SIZE * rawheader.prgram_size as u32;

        let console_type = match rawheader.console_type {
            0 => ConsoleType::NesOrFamicom,
            1 => ConsoleType::VsSystem { ppu: 0, hw: 0 },
            2 => ConsoleType::PlayChoise10,
            other => {
                return Err(ParseError::InvalidConsoleType(other));
            },
        };

        let cpu_ppu_timing = if rawheader.is_pal_tv {
            NesTiming::PalNes
        } else {
            NesTiming::NtscNes
        };

        let start: usize = if rawheader.has_trainer { HEADER_SIZE + TRAINER_SIZE } else { HEADER_SIZE };
        if data.len() < start {
            return Err(ParseError::UnexpectedEof);
        }
        if data.len() - start < prgrom_size as usize {
            return Err(ParseError::UnexpectedEof);
        }
        let prgrom = copy_range(data, start, prgrom_size as usize);
        let chr_start: usize = start + prgrom_size as usize;
        if data.len() - chr_start < chrrom_size as usize {
            return Err(ParseError::UnexpectedEof);
        }
        let chrrom = copy_range(data, chr_start, chrrom_size as usize);

        let mapper_ctx = MapperCtx {
            mapper_id,
            submapper: 0,
            hardwired_nt,
            alternative_nt: rawheader.alternative_nt,
            prgrom,
            chrrom,
            prgram_size,
            chrram_size: CHRRAM_PLACEHOLDER_SIZE,
        };

        let nesrom = mapper_ctx.create();

        let env_info = EnvInfo {
            console_type,
            cpu_ppu_timing,
            other_roms: 0,
            expansion_device: 0,
        };

        Ok(EmuFile { nesrom, env_info })
    }
}

} // verus!
