use vstd::prelude::*;
use crate::nes::emufile::{ParseError, HEADER_SIZE};
use crate::nes::nescart::mirroring::Mirroring;
use crate::board::emufile::{ConsoleType, EnvInfo, NesTiming};
use crate::board::mapper::{Mapper, MapperCtx};
use crate::bits::copy_range;

verus! {

/// The format identifier NES 2.0 puts in bits 2-3 of flag 7.
pub const NES2_IDENTIFIER: u8 = 0x02;
/// Unit of the PRG-ROM size.
pub const PRGROM_CHUNK_SIZE: u32 = 0x4000;
/// Unit of the CHR-ROM size.
pub const CHRROM_CHUNK_SIZE: u32 = 0x2000;
/// RAM sizes are `SHIFT_BASE` shifted left by the header's shift count.
pub const SHIFT_BASE: u32 = 0x40;

/// The fields of a NES 2.0 header, as read from its 16 bytes.
#[derive(Debug, Clone, Copy)]
pub struct RawHeader {
    pub file_identifier: [u8; 4],
    pub prgrom_lsb: u8,
    pub chrrom_lsb: u8,
    pub horizontal_nt: bool,
    pub has_battery: bool,
    pub has_trainer: bool,
    pub alternative_nt: bool,
    pub mapper_nibble0: u8,
    pub console_type: u8,
    pub nes2_identifier: u8,
    pub mapper_nibble1: u8,
    pub mapper_nibble2: u8,
    pub submapper: u8,
    pub prgrom_msb: u8,
    pub chrrom_msb: u8,
    pub prgram_sc: u8,
    pub nvprgram_sc: u8,
    pub chrram_sc: u8,
    pub nvchrram_sc: u8,
    pub cpu_ppu_timing: u8,
    pub console_detail: u8,
    pub other_roms: u8,
    pub expansion_device: u8,
}

/// `raw` holds the fields of the header bytes `d`.
pub open spec fn raw_matches(raw: RawHeader, d: Seq<u8>) -> bool {
    &&& raw.file_identifier@ == d.subrange(0, 4)
    &&& raw.prgrom_lsb == d[4]
    &&& raw.chrrom_lsb == d[5]
    &&& raw.horizontal_nt == (d[6] & 0x01 != 0)
    &&& raw.has_battery == (d[6] & 0x02 != 0)
    &&& raw.has_trainer == (d[6] & 0x04 != 0)
    &&& raw.alternative_nt == (d[6] & 0x08 != 0)
    &&& raw.mapper_nibble0 == (d[6] & 0xF0) >> 4
    &&& raw.console_type == d[7] & 0x03
    &&& raw.nes2_identifier == (d[7] & 0x0C) >> 2
    &&& raw.mapper_nibble1 == (d[7] & 0xF0) >> 4
    &&& raw.mapper_nibble2 == d[8] & 0x0F
    &&& raw.submapper == (d[8] & 0xF0) >> 4
    &&& raw.prgrom_msb == d[9] & 0x0F
    &&& raw.chrrom_msb == (d[9] & 0xF0) >> 4
    &&& raw.prgram_sc == d[10] & 0x0F
    &&& raw.nvprgram_sc == (d[10] & 0xF0) >> 4
    &&& raw.chrram_sc == d[11] & 0x0F
    &&& raw.nvchrram_sc == (d[11] & 0xF0) >> 4
    &&& raw.cpu_ppu_timing == d[12] & 0x03
    &&& raw.console_detail == d[13]
    &&& raw.other_roms == d[14]
    &&& raw.expansion_device == d[15]
}

impl RawHeader {
    /// Splits the 16 header bytes into their fields.
    pub fn create(data: &[u8; HEADER_SIZE]) -> (r: Self)
        ensures
            raw_matches(r, data@),
            r.file_identifier@ == data@.subrange(0, 4),
            r.prgrom_lsb == data@[4],
            r.chrrom_lsb == data@[5],
            r.horizontal_nt == (data@[6] & 0x01 != 0),
            r.has_battery == (data@[6] & 0x02 != 0),
            r.has_trainer == (data@[6] & 0x04 != 0),
            r.alternative_nt == (data@[6] & 0x08 != 0),
            r.mapper_nibble0 == (data@[6] & 0xF0) >> 4,
            r.console_type == data@[7] & 0x03,
            r.nes2_identifier == (data@[7] & 0x0C) >> 2,
            r.mapper_nibble1 == (data@[7] & 0xF0) >> 4,
            r.mapper_nibble2 == data@[8] & 0x0F,
            r.submapper == (data@[8] & 0xF0) >> 4,
            r.prgrom_msb == data@[9] & 0x0F,
            r.chrrom_msb == (data@[9] & 0xF0) >> 4,
            r.prgram_sc == data@[10] & 0x0F,
            r.nvprgram_sc == (data@[10] & 0xF0) >> 4,
            r.chrram_sc == data@[11] & 0x0F,
            r.nvchrram_sc == (data@[11] & 0xF0) >> 4,
            r.cpu_ppu_timing == data@[12] & 0x03,
            r.console_detail == data@[13],
            r.other_roms == data@[14],
            r.expansion_device == data@[15],
    {
        let r = Self {
            file_identifier: [data[0], data[1], data[2], data[3]],
            prgrom_lsb: data[4],
            chrrom_lsb: data[5],
            horizontal_nt: data[6] & 0x01 != 0,
            has_battery: data[6] & 0x02 != 0,
            has_trainer: data[6] & 0x04 != 0,
            alternative_nt: data[6] & 0x08 != 0,
            mapper_nibble0: (data[6] & 0xF0) >> 4,
            console_type: data[7] & 0x03,
            nes2_identifier: (data[7] & 0x0C) >> 2,
            mapper_nibble1: (data[7] & 0xF0) >> 4,
            mapper_nibble2: data[8] & 0x0F,
            submapper: (data[8] & 0xF0) >> 4,
            prgrom_msb: data[9] & 0x0F,
            chrrom_msb: (data[9] & 0xF0) >> 4,
            prgram_sc: data[10] & 0x0F,
            nvprgram_sc: (data[10] & 0xF0) >> 4,
            chrram_sc: data[11] & 0x0F,
            nvchrram_sc: (data[11] & 0xF0) >> 4,
            cpu_ppu_timing: data[12] & 0x03,
            console_detail: data[13],
            other_roms: data[14],
            expansion_device: data[15],
        };
        assert(r.file_identifier@ =~= data@.subrange(0, 4));
        r
    }
}

/// What a board needs to know of its cartridge.
#[derive(Debug, Clone, Copy, PartialEq, Eq)]
pub struct MapperInfo {
    pub mapper_id: u32,
    pub submapper: u8,
    pub hardwired_nt: Mirroring,
    pub alternative_nt: bool,
    pub has_battery: bool,
    pub has_trainer: bool,
    pub prgrom_size: u32,
    pub chrrom_size: u32,
    pub prgram_size: u32,
    pub chrram_size: u32,
    pub nvprgram_size: u32,
    pub nvchrram_size: u32,
}

/// A decoded NES 2.0 header.
#[derive(Debug, Clone, Copy, PartialEq, Eq)]
pub struct Header {
    pub mapper_info: MapperInfo,
    pub env_info: EnvInfo,
}

/// Whether the identifier reads `NES\x1A`.
pub open spec fn is_nes_identifier(id: [u8; 4]) -> bool {
    id@ == seq![0x4Eu8, 0x45u8, 0x53u8, 0x1Au8]
}

/// What `Header::create` requires of a raw header: its sizes must be
/// computable without overflow (no exponent notation, shift counts below
/// 32).
pub open spec fn header_computable(raw: RawHeader) -> bool {
    is_nes_identifier(raw.file_identifier) ==> {
        &&& raw.prgrom_lsb != 0xFF
        &&& raw.chrrom_lsb != 0xFF
        &&& raw.prgram_sc < 32
        &&& raw.chrram_sc < 32
        &&& raw.nvprgram_sc < 32
        &&& raw.nvchrram_sc < 32
    }
}

/// The error decoding `raw` gives, if any.
pub open spec fn header_error(raw: RawHeader) -> Option<ParseError> {
    if !is_nes_identifier(raw.file_identifier) {
        Some(ParseError::NotNesFormat)
    } else if raw.console_type > 3 {
        Some(ParseError::InvalidConsoleType(raw.console_type))
    } else if raw.cpu_ppu_timing > 3 {
        Some(ParseError::InvalidRegion(raw.cpu_ppu_timing))
    } else {
        None
    }
}

/// The console type a header announces.
pub open spec fn console_of(raw: RawHeader) -> ConsoleType {
    if raw.console_type == 0 {
        ConsoleType::NesOrFamicom
    } else if raw.console_type == 1 {
        ConsoleType::VsSystem { ppu: raw.console_detail & 0x0F, hw: (raw.console_detail & 0xF0) >> 4 }
    } else if raw.console_type == 2 {
        ConsoleType::PlayChoise10
    } else {
        ConsoleType::Extended { console: raw.console_detail & 0x0F }
    }
}

/// The timing a header announces.
pub open spec fn timing_of(raw: RawHeader) -> NesTiming {
    if raw.cpu_ppu_timing == 0 {
        NesTiming::NtscNes
    } else if raw.cpu_ppu_timing == 1 {
        NesTiming::PalNes
    } else if raw.cpu_ppu_timing == 2 {
        NesTiming::MultiRegion
    } else {
        NesTiming::Dendy
    }
}

/// The header `raw` decodes to.
pub open spec fn header_of(raw: RawHeader) -> Header {
    Header {
        mapper_info: MapperInfo {
            mapper_id: (raw.mapper_nibble0 + raw.mapper_nibble1 * 0x100 + raw.mapper_nibble2 * 0x10000) as u32,
            submapper: raw.submapper,
            hardwired_nt: if raw.horizontal_nt { Mirroring::Horizontal } else { Mirroring::Vertical },
            alternative_nt: raw.alternative_nt,
            has_battery: raw.has_battery,
            has_trainer: raw.has_trainer,
            prgrom_size: (PRGROM_CHUNK_SIZE * (raw.prgrom_lsb + raw.prgrom_msb * 256)) as u32,
            chrrom_size: (CHRROM_CHUNK_SIZE * (raw.chrrom_lsb + raw.chrrom_msb * 256)) as u32,
            prgram_size: SHIFT_BASE << raw.prgram_sc,
            chrram_size: SHIFT_BASE << raw.chrram_sc,
            nvprgram_size: SHIFT_BASE << raw.nvprgram_sc,
            nvchrram_size: SHIFT_BASE << raw.nvchrram_sc,
        },
        env_info: EnvInfo {
            console_type: console_of(raw),
            cpu_ppu_timing: timing_of(raw),
            other_roms: raw.other_roms,
            expansion_device: raw.expansion_device,
        },
    }
}

impl Header {
    /// Decodes a raw header.
    pub fn create(raw: RawHeader) -> (r: Result<Self, ParseError>)
        requires
            header_computable(raw),
        ensures
            match r {
                Ok(h) => header_error(raw) is None && h == header_of(raw),
                Err(e) => header_error(raw) == Some(e),
            },
    {
        if !(raw.file_identifier[0] == 0x4E && raw.file_identifier[1] == 0x45
            && raw.file_identifier[2] == 0x53 && raw.file_identifier[3] == 0x1A) {
            proof {
                if is_nes_identifier(raw.file_identifier) {
                    assert(raw.file_identifier@[0] == 0x4E);
                }
            }
            return Err(ParseError::NotNesFormat);
        }
        assert(raw.file_identifier@ =~= seq![0x4Eu8, 0x45u8, 0x53u8, 0x1Au8]);

        let mapper_id: u32 = raw.mapper_nibble0 as u32
            + raw.mapper_nibble1 as u32 * 0x100
            + raw.mapper_nibble2 as u32 * 0x10000;

        let hardwired_nt = if raw.horizontal_nt {
            Mirroring::Horizontal
        } else {
            Mirroring::Vertical
        };

        let prgrom_size: u32 = Self::calculate_rom_size(raw.prgrom_lsb, raw.prgrom_msb, PRGROM_CHUNK_SIZE);
        let chrrom_size: u32 = Self::calculate_rom_size(raw.chrrom_lsb, raw.chrrom_msb, CHRROM_CHUNK_SIZE);

        let prgram_size: u32 = SHIFT_BASE << raw.prgram_sc;
        let chrram_size: u32 = SHIFT_BASE << raw.chrram_sc;
        let nvprgram_size: u32 = SHIFT_BASE << raw.nvprgram_sc;
        let nvchrram_size: u32 = SHIFT_BASE << raw.nvchrram_sc;

        let console_type = match raw.console_type {
            0 => ConsoleType::NesOrFamicom,
            1 => {
                let ppu: u8 = raw.console_detail & 0x0F;
                let hw: u8 = (raw.console_detail & 0xF0) >> 4;
                ConsoleType::VsSystem { ppu, hw }
            },
            2 => ConsoleType::PlayChoise10,
            3 => {
                let console: u8 = raw.console_detail & 0x0F;
                ConsoleType::Extended { console }
            },
            other => {
                return Err(ParseError::InvalidConsoleType(other));
            },
        };

        let cpu_ppu_timing = match raw.cpu_ppu_timing {
            0 => NesTiming::NtscNes,
            1 => NesTiming::PalNes,
            2 => NesTiming::MultiRegion,
            3 => NesTiming::Dendy,
            other => {
                return Err(ParseError::InvalidRegion(other));
            },
        };

        Ok(Self {
            mapper_info: MapperInfo {
                mapper_id,
                submapper: raw.submapper,
                hardwired_nt,
                alternative_nt: raw.alternative_nt,
                has_battery: raw.has_battery,
                has_trainer: raw.has_trainer,
                prgrom_size,
                chrrom_size,
                prgram_size,
                chrram_size,
                nvprgram_size,
                nvchrram_size,
            },
            env_info: EnvInfo {
                console_type,
                cpu_ppu_timing,
                other_roms: raw.other_roms,
                expansion_device: raw.expansion_device,
            },
        })
    }

    /// ROM size in bytes: `chunk_size` times the count made of the LSB and
    /// MSB bytes. An LSB of `0xFF` selects the exponent notation, whose
    /// computation overflows; it is not accepted.
    pub fn calculate_rom_size(lsb: u8, msb: u8, chunk_size: u32) -> (r: u32)
        requires
            lsb != 0xFF,
            chunk_size <= 0x4000,
        ensures
            r == chunk_size * (lsb + msb * 256),
    {
        assert(chunk_size * (lsb + msb * 256) <= 0x4000 * 0xFFFF) by (nonlinear_arith)
            requires
                chunk_size <= 0x4000,
                lsb <= 255,
                msb <= 255,
        ;
        chunk_size * (lsb as u32 + msb as u32 * 256)
    }
}

/// Why a ROM image could not be made into a cartridge.
#[derive(Debug, Clone, Copy, PartialEq, Eq)]
pub enum NesRomError {
    /// The header is malformed, or the data ends early.
    Parse(ParseError),
    /// No board is known for this mapper number.
    UnsupportedMapper(u32),
}

/// The bytes a header announces before the PRG-ROM: the header and the
/// trainer when there is one.
pub open spec fn rom_offset(h: Header) -> int {
    HEADER_SIZE + if h.mapper_info.has_trainer { TRAINER_SIZE as int } else { 0 }
}

/// The bytes a header announces in all.
pub open spec fn image_len(h: Header) -> int {
    rom_offset(h) + h.mapper_info.prgrom_size + h.mapper_info.chrrom_size
}

/// Size of the optional trainer.
pub const TRAINER_SIZE: usize = 0x200;

/// A cartridge read from a ROM image: its header, board, trainer and
/// memories.
#[derive(Debug, Clone)]
pub struct NesRom {
    pub header: Header,
    pub mapper: Mapper,
    pub trainer: [u8; TRAINER_SIZE],
    pub prgrom: Vec<u8>,
    pub chrrom: Vec<u8>,
    pub prgram: Vec<u8>,
    pub chrram: Vec<u8>,
}

impl NesRom {
    /// Reads a cartridge from a NES 2.0 image: the header, the trainer if
    /// any, the PRG-ROM and the CHR-ROM, with zeroed RAMs of the announced
    /// sizes. Only mapper 0 is known. The header must not use the exponent
    /// notation for ROM sizes.
    pub fn create(data: &[u8]) -> (r: Result<Self, NesRomError>)
        requires
            data@.len() >= HEADER_SIZE && data@.subrange(0, 4) == seq![0x4Eu8, 0x45u8, 0x53u8, 0x1Au8]
                ==> data@[4] != 0xFF && data@[5] != 0xFF,
        ensures
            data@.len() < HEADER_SIZE ==> r == Err::<Self, NesRomError>(NesRomError::Parse(ParseError::UnexpectedEof)),
            forall|raw: RawHeader| data@.len() >= HEADER_SIZE && #[trigger] raw_matches(raw, data@) ==> {
                let h = header_of(raw);
                match header_error(raw) {
                    Some(e) => r == Err::<Self, NesRomError>(NesRomError::Parse(e)),
                    None => if h.mapper_info.mapper_id != 0 {
                        r == Err::<Self, NesRomError>(NesRomError::UnsupportedMapper(h.mapper_info.mapper_id))
                    } else if data@.len() < image_len(h) {
                        r == Err::<Self, NesRomError>(NesRomError::Parse(ParseError::UnexpectedEof))
                    } else {
                        r matches Ok(rom) && {
                            &&& rom.header == h
                            &&& (h.mapper_info.has_trainer ==> rom.trainer@ == data@.subrange(HEADER_SIZE as int, HEADER_SIZE + TRAINER_SIZE))
                            &&& rom.prgrom@ == data@.subrange(rom_offset(h), rom_offset(h) + h.mapper_info.prgrom_size)
                            &&& rom.chrrom@ == data@.subrange(rom_offset(h) + h.mapper_info.prgrom_size, image_len(h))
                            &&& rom.prgram@ == Seq::new(h.mapper_info.prgram_size as nat, |i: int| 0u8)
                            &&& rom.chrram@ == Seq::new(h.mapper_info.chrram_size as nat, |i: int| 0u8)
                            &&& rom.mapper matches Mapper::Nrom(m) && m.prgrom() == rom.prgrom@ && m.chrrom() == rom.chrrom@
                        }
                    },
                }
            },
    {
        if data.len() < HEADER_SIZE {
            return Err(NesRomError::Parse(ParseError::UnexpectedEof));
        }
        let header_data: [u8; HEADER_SIZE] = [
            data[0], data[1], data[2], data[3], data[4], data[5], data[6], data[7],
            data[8], data[9], data[10], data[11], data[12], data[13], data[14], data[15],
        ];
        let raw_header = RawHeader::create(&header_data);
        assert(header_data@ =~= data@.subrange(0, HEADER_SIZE as int));
        proof {
            crate::bits::lemma_u8_field_bounds();
            assert(raw_header.file_identifier@ =~= data@.subrange(0, 4));
        }
        let header = match Header::create(raw_header) {
            Ok(h) => h,
            Err(e) => {
                return Err(NesRomError::Parse(e));
            },
        };

        if header.mapper_info.mapper_id != 0 {
            return Err(NesRomError::UnsupportedMapper(header.mapper_info.mapper_id));
        }

        let trainer_len: usize = if header.mapper_info.has_trainer { TRAINER_SIZE } else { 0 };
        let prg_start: usize = HEADER_SIZE + trainer_len;
        let prg_len: usize = header.mapper_info.prgrom_size as usize;
        let chr_len: usize = header.mapper_info.chrrom_size as usize;
        if data.len() < prg_start || data.len() - prg_start < prg_len || data.len() - prg_start - prg_len < chr_len {
            return Err(NesRomError::Parse(ParseError::UnexpectedEof));
        }

        let mut trainer: [u8; TRAINER_SIZE] = [0u8; TRAINER_SIZE];
        if header.mapper_info.has_trainer {
            let mut i: usize = 0;
            while i < TRAINER_SIZE
                invariant
                    i <= TRAINER_SIZE,
                    data@.len() >= HEADER_SIZE + TRAINER_SIZE,
                    forall|j: int| 0 <= j < i ==> trainer@[j] == data@[HEADER_SIZE + j],
                decreases TRAINER_SIZE - i,
            {
                trainer[i] = data[HEADER_SIZE + i];
                i = i + 1;
            }
            assert(trainer@ =~= data@.subrange(HEADER_SIZE as int, HEADER_SIZE + TRAINER_SIZE));
        }

        let prgrom: Vec<u8> = copy_range(data, prg_start, prg_len);
        let chrrom: Vec<u8> = copy_range(data, prg_start + prg_len, chr_len);
        let ctx = MapperCtx {
            mapper_id: header.mapper_info.mapper_id,
            submapper: header.mapper_info.submapper,
            hardwired_nt: header.mapper_info.hardwired_nt,
            alternative_nt: header.mapper_info.alternative_nt,
            prgrom: copy_range(data, prg_start, prg_len),
            chrrom: copy_range(data, prg_start + prg_len, chr_len),
            prgram_size: header.mapper_info.prgram_size,
            chrram_size: header.mapper_info.chrram_size,
        };
        let mapper = ctx.create();

        let prgram: Vec<u8> = vec![0u8; header.mapper_info.prgram_size as usize];
        assert(prgram@ =~= Seq::new(header.mapper_info.prgram_size as nat, |i: int| 0u8));
        let chrram: Vec<u8> = vec![0u8; header.mapper_info.chrram_size as usize];
        assert(chrram@ =~= Seq::new(header.mapper_info.chrram_size as nat, |i: int| 0u8));

        Ok(NesRom { header, mapper, trainer, prgrom, chrrom, prgram, chrram })
    }
}

} // verus!
