use rustnes_core::board::bus::{BusData, CpuBus, NesBus, PpuBus};
use rustnes_core::board::ppu::Ppu as BoardPpu;
use rustnes_core::board::regs::{StackPtr, Word};
use rustnes_core::board::emufile::{ConsoleType as BoardConsoleType, NesTiming};
use rustnes_core::board::loader::InesLoader;
use rustnes_core::board::mapper::{Mapper as BoardMapper, MapperCtx, MapperLogic as BoardMapperLogic};
use rustnes_core::board::console::Nes as BoardNes;
use rustnes_core::board::nesrom::{Header, NesRom, NesRomError};
use rustnes_core::nes::emufile::{parse_emufile, ConsoleType, InesParser, Nes2Parser, NesRegion, NesRomInfo, ParseError};
use rustnes_core::nes::joypad::Joypad;
use rustnes_core::nes::nescart::mapper::{MapperError, MapperLogic};
use rustnes_core::nes::nescart::mirroring::{Mirroring, VramTarget};
use rustnes_core::nes::nescart::{NesCart, PpuRead, PpuWrite};

/// A ROM image: the 16 header bytes, then PRG-ROM (each 16 KiB bank filled
/// with its number) and CHR-ROM (filled with 0xC0 plus its 8 KiB bank).
fn image(header: [u8; 16], prg_banks: usize, chr_banks: usize) -> Vec<u8> {
    let mut v = header.to_vec();
    for b in 0..prg_banks {
        v.extend(std::iter::repeat(b as u8).take(0x4000));
    }
    for b in 0..chr_banks {
        v.extend(std::iter::repeat(0xC0 + b as u8).take(0x2000));
    }
    v
}

fn ines_header(prg: u8, chr: u8, flag6: u8, flag7: u8) -> [u8; 16] {
    [0x4E, 0x45, 0x53, 0x1A, prg, chr, flag6, flag7, 0, 0, 0, 0, 0, 0, 0, 0]
}

fn info(mapper_id: u32, prgrom: Vec<u8>, chrrom: Vec<u8>, prgram_size: u32, chrram_size: u32) -> NesRomInfo {
    NesRomInfo {
        mapper_id,
        submapper: 0,
        hardwired_nt: Mirroring::Vertical,
        alternative_nt: false,
        prgrom,
        chrrom,
        prgram_size,
        chrram_size,
    }
}

#[test]
fn mirroring_resolves_nametables() {
    assert_eq!(Mirroring::Horizontal.resolve(0x2000), (0x000, VramTarget::Internal));
    assert_eq!(Mirroring::Horizontal.resolve(0x2400), (0x000, VramTarget::Internal));
    assert_eq!(Mirroring::Horizontal.resolve(0x2800), (0x400, VramTarget::Internal));
    assert_eq!(Mirroring::Vertical.resolve(0x2400), (0x400, VramTarget::Internal));
    assert_eq!(Mirroring::Vertical.resolve(0x2805), (0x005, VramTarget::Internal));
    assert_eq!(Mirroring::SingleScreen1.resolve(0x2C10), (0x410, VramTarget::Internal));
    assert_eq!(Mirroring::FourScreen.resolve(0x2C10), (0x410, VramTarget::External));
}

#[test]
fn joypad_reports_buttons_in_order() {
    let mut pad = Joypad::default();
    pad.update(0b1010_0101);
    pad.strobo();
    let bits: Vec<u8> = (0..8).map(|_| pad.read()).collect();
    assert_eq!(bits, vec![1, 0, 1, 0, 0, 1, 0, 1]);
    // after eight reads the latch reports 1s
    assert_eq!(pad.read(), 1);
    // a new press is seen only after the next strobe
    pad.update(0);
    assert_eq!(pad.read(), 1);
    pad.strobo();
    assert_eq!(pad.read(), 0);
}

#[test]
fn nrom_cart_mirrors_a_16k_image() {
    let mut prg = vec![0u8; 0x4000];
    prg[0] = 0xAA;
    prg[0x3FFF] = 0xBB;
    let mut chr = vec![0u8; 0x2000];
    chr[0x10] = 0x77;
    let mut cart = NesCart::from_info(info(0, prg, chr, 0x2000, 0)).unwrap();
    assert!(cart.check());
    assert_eq!(cart.cpu_read(0x8000), 0xAA);
    assert_eq!(cart.cpu_read(0xC000), 0xAA);
    assert_eq!(cart.cpu_read(0xFFFF), 0xBB);
    assert_eq!(cart.cpu_read(0x5000), 0x00);
    assert_eq!(cart.ppu_read(0x0010), PpuRead::External(0x77));
    assert_eq!(cart.ppu_read(0x2400), PpuRead::Internal(0x400));
    assert_eq!(cart.ppu_write(0x2805, 9), PpuWrite::Internal(0x005, 9));
    assert_eq!(cart.ppu_write(0x0010, 9), PpuWrite::External);
    assert_eq!(cart.ppu_read(0x0010), PpuRead::External(0x77));
    assert!(!cart.irq_active());
}

#[test]
fn nrom_prgram_round_trip() {
    let mut cart = NesCart::from_info(info(0, vec![0; 0x8000], vec![0; 0x2000], 0x2000, 0)).unwrap();
    assert_eq!(cart.cpu_read(0x6010), 0);
    cart.cpu_write(0x6010, 0x5A);
    assert_eq!(cart.cpu_read(0x6010), 0x5A);
    assert_eq!(cart.prgram[0x10], 0x5A);
    // ROM does not change
    cart.cpu_write(0x8000, 0x12);
    assert_eq!(cart.cpu_read(0x8000), 0);
}

#[test]
fn unknown_mapper_is_refused() {
    let mut i = info(7, vec![0; 0x4000], vec![], 0, 0x2000);
    i.submapper = 3;
    let r = NesCart::from_info(i);
    assert_eq!(r.err(), Some(MapperError::Unsupported { mapper_id: 7, submapper: 3 }));
}

#[test]
fn from_info_zeroes_the_rams() {
    let cart = NesCart::from_info(info(1, vec![0; 0x8000], vec![], 0x2000, 0x2000)).unwrap();
    assert_eq!(cart.prgram, vec![0u8; 0x2000]);
    assert_eq!(cart.chrram, vec![0u8; 0x2000]);
    assert!(cart.check());
}

fn mmc1_serial(cart: &mut NesCart, addr: u16, value: u8) {
    for i in 0..5 {
        cart.cpu_write(addr, (value >> i) & 1);
        cart.cpu_step();
    }
}

#[test]
fn mmc1_switches_prg_banks() {
    let prg: Vec<u8> = (0..4u8).flat_map(|b| std::iter::repeat(b).take(0x4000)).collect();
    let mut cart = NesCart::from_info(info(1, prg, vec![], 0x2000, 0x2000)).unwrap();
    // power-up: 32 KiB mode at bank 0
    assert_eq!(cart.cpu_read(0x8000), 0);
    assert_eq!(cart.cpu_read(0xC000), 1);
    // reset: 16 KiB at 0x8000 switchable, the last bank fixed at 0xC000
    cart.cpu_write(0x8000, 0x80);
    cart.cpu_step();
    mmc1_serial(&mut cart, 0xE000, 2);
    assert_eq!(cart.cpu_read(0x8000), 2);
    // the fixed bank's offset keeps the address's bit 14 and wraps at the
    // ROM's end: (3 * 0x4000 + 0x4000) % 0x10000 is bank 0
    assert_eq!(cart.cpu_read(0xC000), 0);
    assert_eq!(cart.cpu_read(0x8000 + 0x3FFF), 2);
}

#[test]
fn mmc1_ignores_back_to_back_writes() {
    let prg: Vec<u8> = (0..4u8).flat_map(|b| std::iter::repeat(b).take(0x4000)).collect();
    let mut cart = NesCart::from_info(info(1, prg, vec![], 0x2000, 0x2000)).unwrap();
    cart.cpu_write(0x8000, 0x80);
    cart.cpu_step();
    // five writes without a CPU cycle in between: only the first counts
    for _ in 0..5 {
        cart.cpu_write(0xE000, 1);
    }
    cart.cpu_step();
    assert_eq!(cart.cpu_read(0x8000), 0);
}

#[test]
fn mmc1_chr_ram_round_trip() {
    let mut cart = NesCart::from_info(info(1, vec![0; 0x8000], vec![], 0, 0x2000)).unwrap();
    cart.ppu_write(0x0123, 0x44);
    assert_eq!(cart.ppu_read(0x0123), PpuRead::External(0x44));
    assert_eq!(cart.chrram[0x123], 0x44);
}

#[test]
fn mmc3_cart_reads_the_last_bank_at_e000() {
    let prg: Vec<u8> = (0..8u8).flat_map(|b| std::iter::repeat(b).take(0x2000)).collect();
    let mut cart = NesCart::from_info(info(4, prg, vec![0; 0x2000], 0x2000, 0)).unwrap();
    assert!(cart.check());
    assert_eq!(cart.cpu_read(0xE000), 7);
    assert!(!cart.irq_active());
}

#[test]
fn empty_cart_serves_nothing() {
    let mut cart = NesCart::empty();
    assert!(cart.check());
    assert!(cart.mapper.check_serves(0, 0, 0, 0));
    assert_eq!(cart.cpu_read(0x8000), 0);
}

#[test]
fn parse_ines_image() {
    let data = image(ines_header(1, 1, 0x01, 0x00), 1, 1);
    let f = parse_emufile(&data).unwrap();
    assert_eq!(f.console_type, ConsoleType::NesOrFamicom);
    assert_eq!(f.nes_region, NesRegion::Ntsc);
    assert_eq!(f.nesrom_info.mapper_id, 0);
    assert_eq!(f.nesrom_info.hardwired_nt, Mirroring::Horizontal);
    assert_eq!(f.nesrom_info.prgrom.len(), 0x4000);
    assert_eq!(f.nesrom_info.chrrom.len(), 0x2000);
    assert_eq!(f.nesrom_info.chrrom[0], 0xC0);
    assert_eq!(f.nesrom_info.prgram_size, 0);
    assert_eq!(f.nesrom_info.chrram_size, 0x2000);
}

#[test]
fn parse_ines_mapper_and_trainer() {
    let mut data = ines_header(2, 0, 0x14, 0x00).to_vec();
    data.extend(vec![0xEE; 0x200]);
    data.extend(image([0; 16], 2, 0)[16..].to_vec());
    let f = InesParser::parse(&data).unwrap();
    assert_eq!(f.nesrom_info.mapper_id, 1);
    assert_eq!(f.nesrom_info.hardwired_nt, Mirroring::Vertical);
    assert_eq!(f.nesrom_info.prgrom[0], 0);
    assert_eq!(f.nesrom_info.prgrom[0x4000], 1);
}

#[test]
fn parse_nes2_image() {
    let mut h = ines_header(1, 1, 0x10, 0x08);
    h[8] = 0x10;
    h[10] = 0x07;
    h[12] = 0x01;
    let data = image(h, 1, 1);
    let f = parse_emufile(&data).unwrap();
    assert_eq!(f.nes_region, NesRegion::Pal);
    assert_eq!(f.nesrom_info.mapper_id, 1);
    assert_eq!(f.nesrom_info.submapper, 1);
    assert_eq!(f.nesrom_info.prgram_size, 0x2000);
    assert_eq!(f.nesrom_info.chrram_size, 0x40);
    assert_eq!(f.nesrom_info.prgrom.len(), 0x4000);
    assert_eq!(f.other_roms, 0);
}

#[test]
fn nes2_rom_size_formula() {
    assert_eq!(Nes2Parser::calculate_rom_size(2, 0, 0x4000), 0x8000);
    assert_eq!(Nes2Parser::calculate_rom_size(0, 1, 0x2000), 0x20_0000);
}

#[test]
fn parse_errors() {
    assert_eq!(parse_emufile(&[0x4E, 0x45, 0x53]).err(), Some(ParseError::UnexpectedEof));
    assert_eq!(parse_emufile(&[0u8; 16]).err(), Some(ParseError::NotNesFormat));
    let vs = image(ines_header(1, 0, 0, 0x03), 1, 0);
    assert_eq!(parse_emufile(&vs).err(), Some(ParseError::InvalidConsoleType(3)));
    let short = image(ines_header(2, 0, 0, 0), 1, 0);
    assert_eq!(parse_emufile(&short).err(), Some(ParseError::UnexpectedEof));
    // a NES 2.0 header alone is refused by the iNES reader
    let mut h = ines_header(0, 0, 0, 0x08);
    h[4] = 0;
    assert_eq!(Nes2Parser::parse(&[0u8; 16]).err(), Some(ParseError::NotNesFormat));
    assert_eq!(Nes2Parser::parse(&ines_header(0, 0, 0, 0)).err(), Some(ParseError::UnsupportedFormat));
    assert!(Nes2Parser::parse(&h).is_ok());
}

#[test]
fn board_rom_from_nes2_image() {
    let mut h = ines_header(1, 1, 0x00, 0x08);
    h[10] = 0x07;
    let data = image(h, 1, 1);
    let rom = NesRom::create(&data).unwrap();
    assert_eq!(rom.header.mapper_info.mapper_id, 0);
    assert_eq!(rom.header.mapper_info.prgrom_size, 0x4000);
    assert_eq!(rom.header.mapper_info.prgram_size, 0x2000);
    assert_eq!(rom.prgrom.len(), 0x4000);
    assert_eq!(rom.chrrom[0], 0xC0);
    assert_eq!(rom.prgram.len(), 0x2000);
    let mut mapper = rom.mapper.clone();
    assert_eq!(mapper.cpu_read(0x8000), 0);
    assert!(!mapper.irq_active());
}

#[test]
fn board_rom_errors() {
    assert_eq!(NesRom::create(&[0u8; 4]).err(), Some(NesRomError::Parse(ParseError::UnexpectedEof)));
    assert_eq!(NesRom::create(&[0u8; 16]).err(), Some(NesRomError::Parse(ParseError::NotNesFormat)));
    let mut h = ines_header(1, 0, 0x40, 0x08);
    h[12] = 0;
    let data = image(h, 1, 0);
    assert_eq!(NesRom::create(&data).err(), Some(NesRomError::UnsupportedMapper(4)));
    let short = image(ines_header(2, 0, 0, 0x08), 1, 0);
    assert_eq!(NesRom::create(&short).err(), Some(NesRomError::Parse(ParseError::UnexpectedEof)));
}

#[test]
fn board_rom_size_formula() {
    assert_eq!(Header::calculate_rom_size(1, 0, 0x4000), 0x4000);
    assert_eq!(Header::calculate_rom_size(0, 1, 0x2000), 0x20_0000);
}

#[test]
fn board_ines_loader() {
    let mut data = image(ines_header(1, 1, 0, 0), 1, 1);
    data[8] = 1;
    data[9] = 1;
    let f = InesLoader::parse(&data).unwrap();
    assert_eq!(f.env_info.console_type, BoardConsoleType::NesOrFamicom);
    assert_eq!(f.env_info.cpu_ppu_timing, NesTiming::PalNes);
    let mut m: BoardMapper = f.nesrom;
    assert_eq!(m.cpu_read(0x8000), 0);
    m.cpu_write(0x6000, 0x31);
    assert_eq!(m.cpu_read(0x6000), 0x31);
    assert_eq!(InesLoader::parse(&[0u8; 16]).err(), Some(ParseError::NotNesFormat));
}

#[test]
fn bus_data_composite() {
    assert_eq!(BusData::new(0xAB, 0xFF).composite(0x12), 0xAB);
    assert_eq!(BusData::new(0xAB, 0x00).composite(0x12), 0x12);
    assert_eq!(BusData::new(0xFF, 0xE0).composite(0x01), 0xE1);
}

#[test]
fn mmc3_irq_counts_scanlines() {
    let prg: Vec<u8> = vec![0; 0x8000];
    let mut cart = NesCart::from_info(info(4, prg, vec![0; 0x2000], 0x2000, 0)).unwrap();
    // latch 2, reload, enable
    cart.cpu_write(0x8000, 2);
    cart.cpu_write(0x8001, 0);
    cart.cpu_write(0xC001, 0);
    // the counter is still zero until the first edge loads the latch
    assert!(cart.irq_active());
    for edge in 1..=3 {
        for _ in 0..3 {
            cart.ppu_read(0x0000);
        }
        cart.ppu_read(0x1000);
        assert_eq!(cart.irq_active(), edge == 3);
    }
    // disabling acknowledges
    cart.cpu_write(0xC000, 0);
    assert!(!cart.irq_active());
}

fn board_bus() -> CpuBus {
    let mut data = image(ines_header(1, 0, 0, 0), 1, 0);
    data[8] = 1;
    data[16] = 0x9A;
    let f = InesLoader::parse(&data).unwrap();
    CpuBus { openbus: 0, wram: [0; 0x800], ppu: BoardPpu {}, nesrom: f.nesrom }
}

#[test]
fn board_cpu_bus_maps_ram_cart_and_open_bus() {
    let mut bus = board_bus();
    bus.write(0x0801, 0x42);
    assert_eq!(bus.wram[1], 0x42);
    assert_eq!(bus.read(0x1801), 0x42);
    assert_eq!(bus.openbus, 0x42);
    // nothing drives the APU range: the last byte stays on the bus
    assert_eq!(bus.read(0x4015), 0x42);
    assert_eq!(bus.read(0x8000), 0x9A);
    assert_eq!(bus.read(0xC000), 0x9A);
    bus.write(0x6000, 0x11);
    assert_eq!(bus.read(0x6000), 0x11);
    // a write to a PPU register only leaves its byte on the bus
    bus.write(0x2001, 0x77);
    assert_eq!(bus.openbus, 0x77);
    assert_eq!(bus.read(0x4000), 0x77);
    // NROM ignores writes to its ROM
    bus.write(0xFFFF, 0x55);
    assert_eq!(bus.openbus, 0x55);
    assert_eq!(bus.read(0x8000), 0x9A);
}

#[test]
fn board_sync_changes_nothing_yet() {
    let f = InesLoader::parse(&image(ines_header(1, 0, 0, 0), 1, 0)).unwrap();
    let mut bus = NesBus { nesrom: f.nesrom, cpu_openbus: 1, wram: [2; 0x800], ppu_openbus: 3, ppu: BoardPpu {}, vram: [4; 0x800] };
    bus.sync_with_cpu();
    assert_eq!((bus.cpu_openbus, bus.wram[5], bus.ppu_openbus, bus.vram[6]), (1, 2, 3, 4));
    let mut ppubus = PpuBus { openbus: 9, vram: [0; 0x800] };
    ppubus.write(0x2000, 1);
    assert_eq!(ppubus.vram[0], 0);
    let mut ppu = BoardPpu {};
    ppu.write_register(0, 0x80);
    ppu.tick(&mut ppubus);
    assert_eq!(ppubus.openbus, 9);
}

#[test]
fn words_and_stack_pointers() {
    let w = Word::from_le_bytes([0x34, 0x12]);
    assert_eq!((w.lo, w.hi), (0x34, 0x12));
    assert_eq!(u16::from(w), 0x1234);
    let z = Word::from_zeropage(0x7F);
    assert_eq!(u16::from(z), 0x007F);
    let back = Word::from(0xBEEFu16);
    assert_eq!((back.lo, back.hi), (0xEF, 0xBE));
    let sp = StackPtr::from(0xFDu8);
    assert_eq!(u8::from(sp), 0xFD);
    assert_eq!(u16::from(sp), 0x01FD);
}

#[test]
fn nrom_horizontal_nametables() {
    let mut chr = vec![0u8; 0x2000];
    chr[0x1234] = 0x5C;
    let mut i = info(0, vec![0; 0x4000], chr, 0, 0);
    i.hardwired_nt = Mirroring::Horizontal;
    let mut cart = NesCart::from_info(i).unwrap();
    assert_eq!(cart.ppu_read(0x1234), PpuRead::External(0x5C));
    assert_eq!(cart.ppu_read(0x2010), PpuRead::Internal(0x010));
    assert_eq!(cart.ppu_read(0x2410), PpuRead::Internal(0x010));
    assert_eq!(cart.ppu_read(0x2810), PpuRead::Internal(0x410));
    assert_eq!(cart.ppu_read(0x2C10), PpuRead::Internal(0x410));
}

#[test]
fn nrom_16k_prgrom_and_open_bus() {
    let mut prg = vec![0u8; 0x4000];
    prg[0x1234] = 0x42;
    let mut cart = NesCart::from_info(info(0, prg, vec![0; 0x2000], 0, 0)).unwrap();
    assert_eq!(cart.cpu_read(0x9234), 0x42);
    assert_eq!(cart.cpu_read(0xD234), 0x42);
    assert_eq!(cart.cpu_read(0x4020), 0x00);
    assert_eq!(cart.cpu_read(0x5FFF), 0x00);
}

#[test]
fn nes2_rom_size_takes_the_whole_msb_byte() {
    assert_eq!(Nes2Parser::calculate_rom_size(1, 0x20, 0x4000), 0x4000 * (1 + 0x2000));
    assert_eq!(Nes2Parser::calculate_rom_size(0xFE, 0xFF, 0x4000), 0x4000 * 0xFFFE);
}

#[test]
fn board_console_resets_and_runs() {
    // LDA #$42; STA $10
    let mut prg = vec![0xEA; 0x4000];
    prg[..4].copy_from_slice(&[0xA9, 0x42, 0x85, 0x10]);
    prg[0x3FFC] = 0x00;
    prg[0x3FFD] = 0x80;
    let ctx = MapperCtx {
        mapper_id: 0,
        submapper: 0,
        hardwired_nt: Mirroring::Horizontal,
        alternative_nt: false,
        prgrom: prg,
        chrrom: vec![0; 0x2000],
        prgram_size: 0x2000,
        chrram_size: 0,
    };
    let mut nes = BoardNes::new(ctx.create());
    assert_eq!(nes.cpu.reg.pc, 0x8000);
    nes.step();
    nes.step();
    assert_eq!(nes.bus.board.wram[0x10], 0x42);
    assert_eq!(nes.bus.board.cpu_openbus, 0x42);
    nes.reset();
    assert_eq!(nes.cpu.reg.pc, 0x8000);
}
