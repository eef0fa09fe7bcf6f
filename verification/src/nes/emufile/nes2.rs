use vstd::prelude::*;
use crate::bits::{copy_range, lemma_u8_field_bounds};
use crate::nes::nescart::mirroring::Mirroring;
use super::{
    ConsoleType, EmuFile, NesRegion, NesRomInfo, ParseError, HEADER_SIZE, TRAINER_SIZE,
    has_nes_magic, trainer_len, hardwired_nt_of,
};

verus! {

/// The format identifier NES 2.0 puts in bits 2-3 of flag 7.
pub const NES2_IDENTIFIER: u8 = 0x02;
/// Unit of the PRG-ROM size.
pub const PRGROM_CHUNK_SIZE: u32 = 0x4000;
/// Unit of the CHR-ROM size.
pub const CHRROM_CHUNK_SIZE: u32 = 0x2000;
/// RAM sizes are `SHIFT_BASE` shifted left by the header's shift count.
pub const SHIFT_BASE: u32 = 0x40;

/// The fields of a NES 2.0 header.
#[derive(Debug, Clone, Copy)]
pub struct RawHeader {
    pub file_identifier: [u8; 4],
    pub prgrom_lsb: u8,
    pub chrrom_lsb: u8,
    pub horizontal_nt: bool,
    pub has_battery: bool,
    pub has_trainer: bool,
    pub alternative_nt: bool,
    pub mapper_nibble0: u8,
    pub console_type: u8,
    pub nes2_identifier: u8,
    pub mapper_nibble1: u8,
    pub mapper_nibble2: u8,
    pub submapper: u8,
    pub prgrom_msb: u8,
    pub chrrom_msb: u8,
    pub prgram_sc: u8,
    pub nvprgram_sc: u8,
    pub chrram_sc: u8,
    pub nvchrram_sc: u8,
    pub nes_region: u8,
    pub console_detail: u8,
    pub other_roms: u8,
    pub expansion_device: u8,
}

impl RawHeader {
    /// Splits the 16 header bytes into their fields.
    pub fn new(data: &[u8; HEADER_SIZE]) -> (r: Self)
        ensures
            r.file_identifier@ == data@.subrange(0, 4),
            r.prgrom_lsb == data@[4],
            r.chrrom_lsb == data@[5],
            r.horizontal_nt == (data@[6] & 0x01 != 0),
            r.has_battery == (data@[6] & 0x02 != 0),
            r.has_trainer == (data@[6] & 0x04 != 0),
            r.alternative_nt == (data@[6] & 0x08 != 0),
            r.mapper_nibble0 == (data@[6] & 0xF0) >> 4,
            r.console_type == data@[7] & 0x03,
            r.nes2_identifier == (data@[7] & 0x0C) >> 2,
            r.mapper_nibble1 == (data@[7] & 0xF0) >> 4,
            r.mapper_nibble2 == data@[8] & 0x0F,
            r.submapper == (data@[8] & 0xF0) >> 4,
            r.prgrom_msb == data@[9] & 0x0F,
            r.chrrom_msb == (data@[9] & 0xF0) >> 4,
            r.prgram_sc == data@[10] & 0x0F,
            r.nvprgram_sc == (data@[10] & 0xF0) >> 4,
            r.chrram_sc == data@[11] & 0x0F,
            r.nvchrram_sc == (data@[11] & 0xF0) >> 4,
            r.nes_region == data@[12] & 0x03,
            r.console_detail == data@[13],
            r.other_roms == data@[14],
            r.expansion_device == data@[15],
    {
        let r = Self {
            file_identifier: [data[0], data[1], data[2], data[3]],
            prgrom_lsb: data[4],
            chrrom_lsb: data[5],
            horizontal_nt: data[6] & 0x01 != 0,
            has_battery: data[6] & 0x02 != 0,
            has_trainer: data[6] & 0x04 != 0,
            alternative_nt: data[6] & 0x08 != 0,
            mapper_nibble0: (data[6] & 0xF0) >> 4,
            console_type: data[7] & 0x03,
            nes2_identifier: (data[7] & 0x0C) >> 2,
            mapper_nibble1: (data[7] & 0xF0) >> 4,
            mapper_nibble2: data[8] & 0x0F,
            submapper: (data[8] & 0xF0) >> 4,
            prgrom_msb: data[9] & 0x0F,
            chrrom_msb: (data[9] & 0xF0) >> 4,
            prgram_sc: data[10] & 0x0F,
            nvprgram_sc: (data[10] & 0xF0) >> 4,
            chrram_sc: data[11] & 0x0F,
            nvchrram_sc: (data[11] & 0xF0) >> 4,
            nes_region: data[12] & 0x03,
            console_detail: data[13],
            other_roms: data[14],
            expansion_device: data[15],
        };
        assert(r.file_identifier@ =~= data@.subrange(0, 4));
        r
    }
}

/// ROM size in bytes from the header's LSB and (4-bit) MSB, for the
/// plain (non-exponent) size notation.
pub open spec fn rom_size(lsb: u8, msb: u8, chunk_size: u32) -> int {
    chunk_size * (lsb + msb * 256)
}

/// Whether `d` carries a NES 2.0 header.
pub open spec fn is_nes2(d: Seq<u8>) -> bool {
    has_nes_magic(d) && (d[7] & 0x0C) >> 2 == NES2_IDENTIFIER
}

/// The NES 2.0 exponent size notation (LSB `0xFF`) overflows the 32-bit
/// size computation; a NES 2.0 image must not use it.
pub open spec fn nes2_sizes_defined(d: Seq<u8>) -> bool {
    is_nes2(d) ==> d[4] != 0xFF && d[5] != 0xFF
}

pub open spec fn nes2_prgrom_size(d: Seq<u8>) -> int {
    rom_size(d[4], d[9] & 0x0F, PRGROM_CHUNK_SIZE)
}

pub open spec fn nes2_chrrom_size(d: Seq<u8>) -> int {
    rom_size(d[5], (d[9] & 0xF0) >> 4, CHRROM_CHUNK_SIZE)
}

/// Where the PRG-ROM starts.
pub open spec fn prgrom_start(d: Seq<u8>) -> int {
    HEADER_SIZE + trainer_len(d)
}

/// The error reading `d` as NES 2.0 gives, if any.
pub open spec fn nes2_error(d: Seq<u8>) -> Option<ParseError> {
    if d.len() < HEADER_SIZE {
        Some(ParseError::UnexpectedEof)
    } else if !has_nes_magic(d) {
        Some(ParseError::NotNesFormat)
    } else if !is_nes2(d) {
        Some(ParseError::UnsupportedFormat)
    } else if d.len() < prgrom_start(d) + nes2_prgrom_size(d) + nes2_chrrom_size(d) {
        Some(ParseError::UnexpectedEof)
    } else {
        None
    }
}

/// The console type a NES 2.0 header announces.
pub open spec fn nes2_console(d: Seq<u8>) -> ConsoleType {
    let t = d[7] & 0x03;
    if t == 0 {
        ConsoleType::NesOrFamicom
    } else if t == 1 {
        ConsoleType::VsSystem { ppu: d[13] & 0x0F, hw: (d[13] & 0xF0) >> 4 }
    } else if t == 2 {
        ConsoleType::PlayChoise10
    } else {
        ConsoleType::Extended { console: d[13] & 0x0F }
    }
}

/// The region a NES 2.0 header announces.
pub open spec fn nes2_region(d: Seq<u8>) -> NesRegion {
    let t = d[12] & 0x03;
    if t == 0 {
        NesRegion::Ntsc
    } else if t == 1 {
        NesRegion::Pal
    } else if t == 2 {
        NesRegion::Multi
    } else {
        NesRegion::Dendy
    }
}

/// The mapper number: the three nibbles taken as bytes of a little-endian
/// word.
pub open spec fn nes2_mapper_id(d: Seq<u8>) -> u32 {
    (((d[6] & 0xF0) >> 4) + ((d[7] & 0xF0) >> 4) * 0x100 + (d[8] & 0x0F) * 0x10000) as u32
}

/// What a successful read of `d` as NES 2.0 holds.
pub open spec fn nes2_parsed(d: Seq<u8>, r: Result<EmuFile, ParseError>) -> bool {
    match r {
        Ok(f) => {
            let start = prgrom_start(d);
            let prg = nes2_prgrom_size(d);
            let chr = nes2_chrrom_size(d);
            &&& f.console_type == nes2_console(d)
            &&& f.nes_region == nes2_region(d)
            &&& f.other_roms == 0
            &&& f.expansion_device == 0
            &&& f.nesrom_info.mapper_id == nes2_mapper_id(d)
            &&& f.nesrom_info.submapper == (d[8] & 0xF0) >> 4
            &&& f.nesrom_info.hardwired_nt == hardwired_nt_of(d[6])
            &&& f.nesrom_info.alternative_nt == (d[6] & 0x08 != 0)
            &&& f.nesrom_info.prgrom@ == d.subrange(start, start + prg)
            &&& f.nesrom_info.chrrom@ == d.subrange(start + prg, start + prg + chr)
            &&& f.nesrom_info.prgram_size == SHIFT_BASE << (d[10] & 0x0F)
            &&& f.nesrom_info.chrram_size == SHIFT_BASE << (d[11] & 0x0F)
        },
        Err(_) => false,
    }
}

/// Reads NES 2.0 images.
pub struct Nes2Parser;

impl Nes2Parser {
    /// ROM size in bytes: `chunk_size` times the 12-bit count made of the
    /// LSB byte and the MSB nibble. An LSB of `0xFF` selects the exponent
    /// notation, whose computation overflows; it is not accepted.
    pub fn calculate_rom_size(lsb: u8, msb: u8, chunk_size: u32) -> (r: u32)
        requires
            lsb != 0xFF,
            chunk_size <= 0x4000,
        ensures
            r == rom_size(lsb, msb, chunk_size),
    {
        assert(chunk_size * (lsb + msb * 256) <= 0x4000 * (255 + 255 * 256)) by (nonlinear_arith)
            requires
                chunk_size <= 0x4000,
                lsb <= 255,
                msb <= 255,
        ;
        chunk_size * (lsb as u32 + msb as u32 * 256)
    }

    /// Reads a NES 2.0 image: header, optional trainer (skipped), PRG-ROM
    /// and CHR-ROM.
    pub fn parse(data: &[u8]) -> (r: Result<EmuFile, ParseError>)
        requires
            nes2_sizes_defined(data@),
        ensures
            r is Err <==> nes2_error(data@) is Some,
            r matches Err(e) ==> nes2_error(data@) == Some(e),
            nes2_error(data@) is None ==> nes2_parsed(data@, r),
    {
        proof {
            lemma_u8_field_bounds();
        }
        if data.len() < HEADER_SIZE {
            return Err(ParseError::UnexpectedEof);
        }
        let header_data: [u8; HEADER_SIZE] = [
            data[0], data[1], data[2], data[3], data[4], data[5], data[6], data[7],
            data[8], data[9], data[10], data[11], data[12], data[13], data[14], data[15],
        ];
        let rawheader = RawHeader::new(&header_data);

        if !(rawheader.file_identifier[0] == 0x4E && rawheader.file_identifier[1] == 0x45
            && rawheader.file_identifier[2] == 0x53 && rawheader.file_identifier[3] == 0x1A) {
            return Err(ParseError::NotNesFormat);
        }

        if rawheader.nes2_identifier != NES2_IDENTIFIER {
            return Err(ParseError::UnsupportedFormat);
        }

        let mapper_id: u32 = rawheader.mapper_nibble0 as u32
            + rawheader.mapper_nibble1 as u32 * 0x100
            + rawheader.mapper_nibble2 as u32 * 0x10000;

        let hardwired_nt = if rawheader.horizontal_nt {
            Mirroring::Horizontal
        } else {
            Mirroring::Vertical
        };

        let prgrom_size: u32 = Self::calculate_rom_size(
            rawheader.prgrom_lsb,
            rawheader.prgrom_msb,
            PRGROM_CHUNK_SIZE,
        );
        let chrrom_size: u32 = Self::calculate_rom_size(
            rawheader.chrrom_lsb,
            rawheader.chrrom_msb,
            CHRROM_CHUNK_SIZE,
        );

        let prgram_size: u32 = SHIFT_BASE << rawheader.prgram_sc;
        let chrram_size: u32 = SHIFT_BASE << rawheader.chrram_sc;

        let console_type = match rawheader.console_type {
            0 => ConsoleType::NesOrFamicom,
            1 => {
                let ppu: u8 = rawheader.console_detail & 0x0F;
                let hw: u8 = (rawheader.console_detail & 0xF0) >> 4;
                ConsoleType::VsSystem { ppu, hw }
            },
            2 => ConsoleType::PlayChoise10,
            3 => {
                let console: u8 = rawheader.console_detail & 0x0F;
                ConsoleType::Extended { console }
            },
            _ => {
                return Err(ParseError::InvalidConsoleType(rawheader.console_type));
            },
        };

        let nes_region = match rawheader.nes_region {
            0 => NesRegion::Ntsc,
            1 => NesRegion::Pal,
            2 => NesRegion::Multi,
            3 => NesRegion::Dendy,
            _ => {
                return Err(ParseError::InvalidRegion(rawheader.nes_region));
            },
        };

        let start: usize = if rawheader.has_trainer { HEADER_SIZE + TRAINER_SIZE } else { HEADER_SIZE };
        if data.len() < start {
            return Err(ParseError::UnexpectedEof);
        }
        if data.len() - start < prgrom_size as usize {
            return Err(ParseError::UnexpectedEof);
        }
        let prgrom = copy_range(data, start, prgrom_size as usize);
        let chr_start: usize = start + prgrom_size as usize;
        if data.len() - chr_start < chrrom_size as usize {
            return Err(ParseError::UnexpectedEof);
        }
        let chrrom = copy_range(data, chr_start, chrrom_size as usize);

        let nesrom_info = NesRomInfo {
            mapper_id,
            submapper: rawheader.submapper,
            hardwired_nt,
            alternative_nt: rawheader.alternative_nt,
            prgrom,
            chrrom,
            prgram_size,
            chrram_size,
        };

        Ok(EmuFile {
            console_type,
            nes_region,
            other_roms: 0,
            expansion_device: 0,
            nesrom_info,
        })
    }
}

/// A NES 2.0 image is laid out as the 16-byte header, a 512-byte trainer
/// when bit 2 of byte 6 is set, the PRG-ROM, then the CHR-ROM right after
/// it. The PRG-ROM is 16 KiB times the 12-bit count of byte 4 (low) and the
/// low nibble of byte 9 (high); the CHR-ROM 8 KiB times that of byte 5 and
/// the high nibble of byte 9.
pub proof fn lemma_nes2_layout(d: Seq<u8>, f: EmuFile)
    requires
        nes2_error(d) is None,
        nes2_parsed(d, Ok(f)),
    ensures
        ({
            let start = 16 + if d[6] & 0x04 != 0 { 512int } else { 0int };
            let p = f.nesrom_info.prgrom@.len() as int;
            let c = f.nesrom_info.chrrom@.len() as int;
            &&& p == 0x4000 * (d[4] + 256 * (d[9] % 16))
            &&& c == 0x2000 * (d[5] + 256 * (d[9] / 16))
            &&& forall|i: int| 0 <= i < p ==> #[trigger] f.nesrom_info.prgrom@[i] == d[start + i]
            &&& forall|j: int| 0 <= j < c ==> #[trigger] f.nesrom_info.chrrom@[j] == d[start + p + j]
        }),
{
    let b = d[9];
    assert(b & 0x0F == b % 16 && (b & 0xF0) >> 4 == b / 16) by (bit_vector);
    let start = prgrom_start(d);
    let p = nes2_prgrom_size(d);
    let c = nes2_chrrom_size(d);
    assert(0 <= p && 0 <= c);
    assert(start + p + c <= d.len());
}

/// The mapper number of a parsed image is the high nibble of byte 6, plus
/// 256 times the high nibble of byte 7, plus 65536 times the low nibble of byte 8; bit 0 of byte 6 wires
/// the nametables horizontally (set) or vertically (clear), and bit 3
/// announces an alternative arrangement.
pub proof fn lemma_nes2_header_fields(d: Seq<u8>, f: EmuFile)
    requires
        nes2_error(d) is None,
        nes2_parsed(d, Ok(f)),
    ensures
        f.nesrom_info.mapper_id == d[6] / 16 + 256 * (d[7] / 16) + 65536 * (d[8] % 16),
        f.nesrom_info.hardwired_nt == if d[6] % 2 == 1 { Mirroring::Horizontal } else { Mirroring::Vertical },
        f.nesrom_info.alternative_nt == ((d[6] / 8) % 2 == 1),
{
    let (a, b, c) = (d[6], d[7], d[8]);
    assert((a & 0xF0) >> 4 == a / 16 && (b & 0xF0) >> 4 == b / 16 && c & 0x0F == c % 16
        && (a & 0x01 != 0) == (a % 2 == 1) && (a & 0x08 != 0) == ((a / 8) % 2 == 1)) by (bit_vector);
}

} // verus!
