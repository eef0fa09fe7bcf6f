use vstd::prelude::*;
use crate::bits::{copy_range, lemma_u8_field_bounds};
use crate::nes::nescart::mirroring::Mirroring;
use super::{
    ConsoleType, EmuFile, NesRegion, NesRomInfo, ParseError, HEADER_SIZE, TRAINER_SIZE,
    has_nes_magic, trainer_len, hardwired_nt_of,
};

verus! {

/// Unit of the PRG-ROM size.
pub const PRGROM_CHUNK_SIZE: u32 = 0x4000;
/// Unit of the CHR-ROM size.
pub const CHRROM_CHUNK_SIZE: u32 = 0x2000;
/// Unit of the PRG-RAM size.
pub const PRGRAM_CHUNK_SIZE: u32 = 0x2000;
/// CHR-RAM size assumed, as iNES does not record it.
pub const CHRRAM_PLACEHOLDER_SIZE: u32 = 0x2000;

pub open spec fn ines_prgrom_size(d: Seq<u8>) -> int {
    PRGROM_CHUNK_SIZE * d[4]
}

pub open spec fn ines_chrrom_size(d: Seq<u8>) -> int {
    CHRROM_CHUNK_SIZE * d[5]
}

/// The error reading `d` as iNES gives, if any.
pub open spec fn ines_error(d: Seq<u8>) -> Option<ParseError> {
    let start = HEADER_SIZE + trainer_len(d);
    if d.len() < HEADER_SIZE {
        Some(ParseError::UnexpectedEof)
    } else if !has_nes_magic(d) {
        Some(ParseError::NotNesFormat)
    } else if d[7] & 0x03 == 3 {
        Some(ParseError::InvalidConsoleType(3))
    } else if d.len() < start + ines_prgrom_size(d) + ines_chrrom_size(d) {
        Some(ParseError::UnexpectedEof)
    } else {
        None
    }
}

/// The console type an iNES header announces (when it announces one).
pub open spec fn ines_console(d: Seq<u8>) -> ConsoleType {
    let t = d[7] & 0x03;
    if t == 0 {
        ConsoleType::NesOrFamicom
    } else if t == 1 {
        ConsoleType::VsSystem { ppu: 0, hw: 0 }
    } else {
        ConsoleType::PlayChoise10
    }
}

/// What reading `d` as iNES gives.
pub open spec fn ines_parsed(d: Seq<u8>, r: Result<EmuFile, ParseError>) -> bool {
    match r {
        Err(e) => ines_error(d) == Some(e),
        Ok(f) => {
            let start = HEADER_SIZE + trainer_len(d);
            let prg = ines_prgrom_size(d);
            let chr = ines_chrrom_size(d);
            &&& ines_error(d) is None
            &&& f.console_type == ines_console(d)
            &&& f.nes_region == (if d[9] & 0x01 != 0 { NesRegion::Pal } else { NesRegion::Ntsc })
            &&& f.other_roms == 0
            &&& f.expansion_device == 0
            &&& f.nesrom_info.mapper_id == ((d[6] & 0xF0) >> 4) + ((d[7] & 0xF0) >> 4) * 0x100
            &&& f.nesrom_info.submapper == 0
            &&& f.nesrom_info.hardwired_nt == hardwired_nt_of(d[6])
            &&& f.nesrom_info.alternative_nt == (d[6] & 0x08 != 0)
            &&& f.nesrom_info.prgrom@ == d.subrange(start, start + prg)
            &&& f.nesrom_info.chrrom@ == d.subrange(start + prg, start + prg + chr)
            &&& f.nesrom_info.prgram_size == PRGRAM_CHUNK_SIZE * d[8]
            &&& f.nesrom_info.chrram_size == CHRRAM_PLACEHOLDER_SIZE
        },
    }
}

/// Reads iNES (version 1) images.
pub struct InesParser;

impl InesParser {
    /// Reads an iNES image: header, optional trainer (skipped), PRG-ROM and
    /// CHR-ROM.
    pub fn parse(data: &[u8]) -> (r: Result<EmuFile, ParseError>)
        ensures
            ines_parsed(data@, r),
            r is Err <==> ines_error(data@) is Some,
    {
        proof {
            lemma_u8_field_bounds();
        }
        if data.len() < HEADER_SIZE {
            return Err(ParseError::UnexpectedEof);
        }
        if !(data[0] == 0x4E && data[1] == 0x45 && data[2] == 0x53 && data[3] == 0x1A) {
            return Err(ParseError::NotNesFormat);
        }
        let flag6: u8 = data[6];
        let flag7: u8 = data[7];

        let mapper_id: u32 = ((flag6 & 0xF0) >> 4) as u32 + ((flag7 & 0xF0) >> 4) as u32 * 0x100;

        let hardwired_nt = if flag6 & 0x01 != 0 {
            Mirroring::Horizontal
        } else {
            Mirroring::Vertical
        };

        let prgrom_size: u32 = PRGROM_CHUNK_SIZE * data[4] as u32;
        let chrrom_size: u32 = CHRROM_CHUNK_SIZE * data[5] as u32;
        let prgram_size: u32 = PRGRAM_CHUNK_SIZE * data[8] as u32;

        let console_type = match flag7 & 0x03 {
            0 => ConsoleType::NesOrFamicom,
            1 => ConsoleType::VsSystem { ppu: 0, hw: 0 },
            2 => ConsoleType::PlayChoise10,
            other => {
                return Err(ParseError::InvalidConsoleType(other));
            },
        };

        let nes_region = if data[9] & 0x01 != 0 {
            NesRegion::Pal
        } else {
            NesRegion::Ntsc
        };

        let start: usize = if flag6 & 0x04 != 0 { HEADER_SIZE + TRAINER_SIZE } else { HEADER_SIZE };
        if data.len() < start {
            return Err(ParseError::UnexpectedEof);
        }
        if data.len() - start < prgrom_size as usize {
            return Err(ParseError::UnexpectedEof);
        }
        let prgrom = copy_range(data, start, prgrom_size as usize);
        let chr_start: usize = start + prgrom_size as usize;
        if data.len() - chr_start < chrrom_size as usize {
            return Err(ParseError::UnexpectedEof);
        }
        let chrrom = copy_range(data, chr_start, chrrom_size as usize);

        Ok(EmuFile {
            console_type,
            nes_region,
            other_roms: 0,
            expansion_device: 0,
            nesrom_info: NesRomInfo {
                mapper_id,
                submapper: 0,
                hardwired_nt,
                alternative_nt: flag6 & 0x08 != 0,
                prgrom,
                chrrom,
                prgram_size,
                chrram_size: CHRRAM_PLACEHOLDER_SIZE,
            },
        })
    }
}

/// An iNES image is laid out as the 16-byte header, a 512-byte trainer
/// when bit 2 of byte 6 is set, byte 4 times 16 KiB of PRG-ROM, then right
/// after it byte 5 times 8 KiB of CHR-ROM.
pub proof fn lemma_ines_layout(d: Seq<u8>, f: EmuFile)
    requires
        ines_parsed(d, Ok(f)),
    ensures
        ({
            let start = 16 + if d[6] & 0x04 != 0 { 512int } else { 0int };
            let p = f.nesrom_info.prgrom@.len() as int;
            let c = f.nesrom_info.chrrom@.len() as int;
            &&& p == 0x4000 * d[4]
            &&& c == 0x2000 * d[5]
            &&& forall|i: int| 0 <= i < p ==> #[trigger] f.nesrom_info.prgrom@[i] == d[start + i]
            &&& forall|j: int| 0 <= j < c ==> #[trigger] f.nesrom_info.chrrom@[j] == d[start + p + j]
        }),
{
}

/// The mapper number of a parsed image is the high nibble of byte 6, plus
/// 256 times the high nibble of byte 7; bit 0 of byte 6 wires
/// the nametables horizontally (set) or vertically (clear), and bit 3
/// announces an alternative arrangement.
pub proof fn lemma_ines_header_fields(d: Seq<u8>, f: EmuFile)
    requires
        ines_parsed(d, Ok(f)),
    ensures
        f.nesrom_info.mapper_id == d[6] / 16 + 256 * (d[7] / 16),
        f.nesrom_info.hardwired_nt == if d[6] % 2 == 1 { Mirroring::Horizontal } else { Mirroring::Vertical },
        f.nesrom_info.alternative_nt == ((d[6] / 8) % 2 == 1),
{
    let (a, b, c) = (d[6], d[7], d[8]);
    assert((a & 0xF0) >> 4 == a / 16 && (b & 0xF0) >> 4 == b / 16 && c & 0x0F == c % 16
        && (a & 0x01 != 0) == (a % 2 == 1) && (a & 0x08 != 0) == ((a / 8) % 2 == 1)) by (bit_vector);
}

} // verus!
