use rustnes_core::cycle::address::Address;
use rustnes_core::cycle::cpu::Cpu as CycleCpu;
use rustnes_core::cycle::status::{StatusRegister, FLAG_C, FLAG_N, FLAG_Z};
use rustnes_core::cycle::types::{CrossingAddr, U16Ext};
use rustnes_core::cycle::IoRequest;
use rustnes_core::nes::emufile::NesRomInfo;
use rustnes_core::nes::nescart::mirroring::Mirroring;
use rustnes_core::nes::nescart::NesCart;
use rustnes_core::nes::ppu::loopy::{LoopyRegister, ScrollOffsets};
use rustnes_core::nes::ppu::palette::Palette;
use rustnes_core::nes::ppu::bg_sr::{BgLatches, BgShiftRegisters};
use rustnes_core::nes::ppu::pixline::{BgPixLiner, PixLine};
use rustnes_core::nes::ppu::{Bus, Ppu, DISPLAY_SIZE};
use rustnes_core::emulator::{apply_command, run_frame, EmuCommand};
use rustnes_core::nes::Nes;

/// PPU memory as one flat array.
struct FlatVram {
    mem: Vec<u8>,
}

impl Bus for FlatVram {
    fn read(&mut self, addr: u16) -> u8 {
        self.mem[addr as usize & 0x3FFF]
    }

    fn write(&mut self, addr: u16, data: u8) {
        self.mem[addr as usize & 0x3FFF] = data;
    }
}

fn vram() -> FlatVram {
    FlatVram { mem: vec![0; 0x4000] }
}

fn point(ppu: &mut Ppu, addr: u16) {
    ppu.write_ppuaddr((addr >> 8) as u8);
    ppu.write_ppuaddr(addr as u8);
}

#[test]
fn palette_reads_back_what_was_written() {
    let mut bus = vram();
    let mut ppu = Ppu::new();
    point(&mut ppu, 0x3F00);
    ppu.write_ppudata(&mut bus, 0x0F);
    ppu.write_ppudata(&mut bus, 0x16);
    point(&mut ppu, 0x3F01);
    // palette reads are not delayed
    assert_eq!(ppu.read_ppudata(&mut bus), 0x16);
    // only six bits are kept
    point(&mut ppu, 0x3F02);
    ppu.write_ppudata(&mut bus, 0xFF);
    point(&mut ppu, 0x3F02);
    assert_eq!(ppu.read_ppudata(&mut bus), 0x3F);
}

#[test]
fn palette_backdrop_mirrors() {
    let mut bus = vram();
    let mut ppu = Ppu::new();
    point(&mut ppu, 0x3F10);
    ppu.write_ppudata(&mut bus, 0x21);
    point(&mut ppu, 0x3F00);
    assert_eq!(ppu.read_ppudata(&mut bus), 0x21);

    let mut p = Palette::new();
    p.write(0x14, 0x05);
    assert_eq!(p.read(0x04), 0x05);
    p.write(0x15, 0x06);
    assert_eq!(p.read(0x05), 0x00);
    assert_eq!(p.read(0x15), 0x06);
}

#[test]
fn vram_reads_are_buffered() {
    let mut bus = vram();
    let mut ppu = Ppu::new();
    point(&mut ppu, 0x2000);
    ppu.write_ppudata(&mut bus, 0x55);
    ppu.write_ppudata(&mut bus, 0x66);
    assert_eq!(bus.mem[0x2000], 0x55);
    assert_eq!(bus.mem[0x2001], 0x66);
    point(&mut ppu, 0x2000);
    assert_eq!(ppu.read_ppudata(&mut bus), 0x00);
    assert_eq!(ppu.read_ppudata(&mut bus), 0x55);
    assert_eq!(ppu.read_ppudata(&mut bus), 0x66);
}

#[test]
fn increment_by_32_in_vertical_mode() {
    let mut bus = vram();
    let mut ppu = Ppu::new();
    ppu.write_ppuctrl(0x04);
    point(&mut ppu, 0x2000);
    ppu.write_ppudata(&mut bus, 1);
    ppu.write_ppudata(&mut bus, 2);
    assert_eq!(bus.mem[0x2000], 1);
    assert_eq!(bus.mem[0x2020], 2);
}

#[test]
fn oam_data_round_trip() {
    let mut ppu = Ppu::new();
    ppu.write_oamaddr(5);
    ppu.write_oamdata(0x12);
    ppu.write_oamdata(0x34);
    ppu.write_oamaddr(5);
    assert_eq!(ppu.read_oamdata(), 0x12);
    ppu.write_oamaddr(6);
    assert_eq!(ppu.read_oamdata(), 0x34);
}

#[test]
fn vblank_flag_nmi_and_frame() {
    let mut bus = vram();
    let mut ppu = Ppu::new();
    ppu.write_ppuctrl(0x80);
    assert!(!ppu.nmi_active());
    let mut ticks = 0;
    while !ppu.nmi_active() {
        ppu.tick(&mut bus);
        ticks += 1;
        assert!(ticks < 341 * 262);
    }
    // a new PPU starts on the pre-render line; vblank starts at the
    // second cycle of line 241
    assert_eq!(ticks, 341 + 341 * 241 + 2);
    let stat = ppu.read_ppustat();
    assert_eq!(stat & 0x80, 0x80);
    assert_eq!(ppu.read_ppustat() & 0x80, 0);
    assert!(!ppu.nmi_active());
}

#[test]
fn display_buffer_is_rgba() {
    let ppu = Ppu::new();
    let buf = ppu.display_buffer();
    assert_eq!(buf.len(), DISPLAY_SIZE);
    assert_eq!(buf[3], 0xFF);
    let mut ppu = Ppu::new();
    let mut out = vec![0u8; DISPLAY_SIZE];
    ppu.output_frame(&mut out);
    assert_eq!(out[7], 0xFF);
}

#[test]
fn loopy_scroll_and_address_writes() {
    let mut l = LoopyRegister::new();
    l.write_ppuscroll(0x7D); // coarse X 15, fine X 5
    assert_eq!(l.fine_x(), 5);
    l.write_ppuscroll(0x5E); // coarse Y 11, fine Y 6
    l.write_ppuaddr(0x3D);
    l.write_ppuaddr(0xF0);
    assert_eq!(l.fine_x(), 5);
    l.clear_w();
    l.reset();
    assert_eq!(l.fine_x(), 0);
}

fn nrom_cart(program: &[u8]) -> NesCart {
    let mut prg = vec![0xEA; 0x4000];
    prg[..program.len()].copy_from_slice(program);
    prg[0x3FFC] = 0x00;
    prg[0x3FFD] = 0x80;
    NesCart::from_info(NesRomInfo {
        mapper_id: 0,
        submapper: 0,
        hardwired_nt: Mirroring::Vertical,
        alternative_nt: false,
        prgrom: prg,
        chrrom: vec![0; 0x2000],
        prgram_size: 0x2000,
        chrram_size: 0,
    })
    .unwrap()
}

#[test]
fn console_runs_a_program() {
    // LDA #$42; STA $0010; STA $6000; LDA $6000; STA $0811
    let cart = nrom_cart(&[0xA9, 0x42, 0x85, 0x10, 0x8D, 0x00, 0x60, 0xAD, 0x00, 0x60, 0x8D, 0x11, 0x08]);
    let mut nes = Nes::new();
    assert!(cart.check());
    nes.load_cart(cart);
    nes.reset();
    assert_eq!(nes.cpu.reg.pc, 0x8000);
    for _ in 0..5 {
        nes.step();
    }
    assert_eq!(nes.bus.wram[0x10], 0x42);
    // 0x0811 mirrors 0x0011
    assert_eq!(nes.bus.wram[0x11], 0x42);
    assert_eq!(nes.bus.mem.cart.prgram[0], 0x42);
}

#[test]
fn console_reads_the_joypad() {
    // LDA #$01; STA $4016; LDA $4016; STA $00; LDA $4016; STA $01
    let cart = nrom_cart(&[0xA9, 0x01, 0x8D, 0x16, 0x40, 0xAD, 0x16, 0x40, 0x85, 0x00, 0xAD, 0x16, 0x40, 0x85, 0x01]);
    let mut nes = Nes::new();
    nes.load_cart(cart);
    nes.reset();
    nes.update_joypad1(0b10);
    for _ in 0..6 {
        nes.step();
    }
    assert_eq!(nes.bus.wram[0], 0);
    assert_eq!(nes.bus.wram[1], 1);
}

#[test]
fn console_writes_the_palette() {
    // LDA #$3F; STA $2006; LDA #$00; STA $2006; LDA #$2C; STA $2007;
    // LDA #$3F; STA $2006; LDA #$00; STA $2006; LDA $2007; STA $02
    let cart = nrom_cart(&[
        0xA9, 0x3F, 0x8D, 0x06, 0x20, 0xA9, 0x00, 0x8D, 0x06, 0x20, 0xA9, 0x2C, 0x8D, 0x07, 0x20,
        0xA9, 0x3F, 0x8D, 0x06, 0x20, 0xA9, 0x00, 0x8D, 0x06, 0x20, 0xAD, 0x07, 0x20, 0x85, 0x02,
    ]);
    let mut nes = Nes::new();
    nes.load_cart(cart);
    nes.reset();
    for _ in 0..12 {
        nes.step();
    }
    assert_eq!(nes.bus.wram[2], 0x2C);
}

#[test]
fn console_finishes_a_frame() {
    // JMP $8000
    let cart = nrom_cart(&[0x4C, 0x00, 0x80]);
    let mut nes = Nes::new();
    nes.load_cart(cart);
    nes.reset();
    assert!(nes.step_frame(100_000));
    let mut out = vec![0u8; DISPLAY_SIZE];
    nes.output_frame(&mut out);
    assert_eq!(nes.display_buffer().len(), DISPLAY_SIZE);
    nes.unload_cart();
    assert!(nes.bus.mem.cart.check());
}

#[test]
fn step_frame_stops_at_the_step_limit() {
    let cart = nrom_cart(&[0x4C, 0x00, 0x80]);
    let mut nes = Nes::new();
    nes.load_cart(cart);
    nes.reset();
    assert!(!nes.step_frame(10));
}

#[test]
fn address_page_crossing() {
    let mut a = Address::new(0x12F0);
    a.apply_index(0x20);
    assert_eq!(a.as_u16(), 0x1210);
    assert!(a.is_crossed());
    a.fix_page();
    assert_eq!(a.as_u16(), 0x1310);
    assert!(!a.is_crossed());

    let mut b = Address::new(0x1205);
    b.apply_index_signed(-10);
    assert_eq!(b.as_u16(), 0x12FB);
    b.fix_page();
    assert_eq!(b.as_u16(), 0x11FB);

    let mut z = Address::new(0x00F0);
    z.apply_index_zeropage(0x20);
    assert_eq!(z.as_u16(), 0x0010);

    let mut w = Address::new(0x12FF);
    w.increment();
    assert_eq!(w.as_u16(), 0x1300);
    w.set_lo(0x34);
    w.set_hi(0x56);
    assert_eq!(w.as_u16(), 0x5634);
    assert_eq!(Address::new(0x1234).as_zeropage().as_u16(), 0x0034);
}

#[test]
fn crossing_addr_and_word_bytes() {
    let mut c = CrossingAddr::from(0x20F8u16);
    c.apply_index(0x10);
    assert_eq!(c.get(), 0x2008);
    assert!(c.is_crossed());
    c.fix_page();
    assert_eq!(c.get(), 0x2108);

    let w: u16 = 0xBEEF;
    assert_eq!(w.low(), 0xEF);
    assert_eq!(w.high(), 0xBE);
    assert_eq!(w.with_low(0x00), 0xBE00);
    assert_eq!(w.with_high(0x00), 0x00EF);
    let mut v: u16 = 0x1234;
    v.set_high(0xAB);
    assert_eq!(v, 0xAB34);
}

#[test]
fn status_register_stack_byte() {
    let mut s = StatusRegister::new();
    s.insert(FLAG_C);
    s.set(FLAG_N, true);
    assert!(s.contains(FLAG_C));
    assert_eq!(s.as_stack_byte(true), s.bits() | 0x30);
    assert_eq!(s.as_stack_byte(false), s.bits() | 0x20);
    s.remove(FLAG_C);
    assert!(!s.contains(FLAG_C));
    let mut t = StatusRegister::new();
    t.set_from_stack_byte(0xFF);
    assert_eq!(t.bits(), 0xCF);
    assert!(t.contains(FLAG_Z));
}

/// Runs the core for `n` cycles against flat memory; the addresses read.
fn run_cycles(cpu: &mut CycleCpu, mem: &[u8], n: usize) -> Vec<u16> {
    let mut addrs = Vec::new();
    for _ in 0..n {
        match cpu.tick() {
            IoRequest::Read(a) => {
                addrs.push(a);
                cpu.tock(mem[a as usize]);
            },
            IoRequest::Write(a, _) => panic!("unexpected write at {a:04X}"),
        }
    }
    addrs
}

fn program(at: usize, bytes: &[u8]) -> Vec<u8> {
    let mut mem = vec![0xFF; 0x10000];
    mem[at..at + bytes.len()].copy_from_slice(bytes);
    mem
}

#[test]
fn cycle_core_runs_implied_instructions() {
    // INX at 0x8000: the opcode fetch and two reads of the next byte
    let mut cpu = CycleCpu::new(0x8000);
    let mem = program(0x8000, &[0xE8, 0xC8]);
    let addrs = run_cycles(&mut cpu, &mem, 4);
    assert_eq!(addrs, vec![0x8000, 0x8001, 0x8001, 0x8001]);
}

#[test]
fn cycle_core_takes_a_branch() {
    // SEC; BCS +4; the branch lands on 0x8007
    let mut cpu = CycleCpu::new(0x8000);
    let mem = program(0x8000, &[0x38, 0xB0, 0x04]);
    let addrs = run_cycles(&mut cpu, &mem, 7);
    assert_eq!(addrs, vec![0x8000, 0x8001, 0x8001, 0x8001, 0x8002, 0x8003, 0x8007]);
}

#[test]
fn cycle_core_skips_a_branch() {
    // CLC; BCS +4: not taken, the next opcode follows the operand
    let mut cpu = CycleCpu::new(0x8000);
    let mem = program(0x8000, &[0x18, 0xB0, 0x04]);
    let addrs = run_cycles(&mut cpu, &mem, 6);
    assert_eq!(addrs, vec![0x8000, 0x8001, 0x8001, 0x8001, 0x8002, 0x8003]);
}

#[test]
fn commands_load_reset_and_unload() {
    let mut nes = Nes::new();
    // a cartridge whose ROM is shorter than its board expects is refused
    let mut bad = nrom_cart(&[0xEA]);
    bad.prgrom.truncate(0x100);
    assert!(!bad.check());
    assert!(!apply_command(&mut nes, EmuCommand::Load(bad)));
    assert!(nes.bus.mem.cart.prgrom.is_empty());

    // LDA #$42; STA $00
    assert!(apply_command(&mut nes, EmuCommand::Load(nrom_cart(&[0xA9, 0x42, 0x85, 0x00]))));
    assert_eq!(nes.cpu.reg.pc, 0x8000);
    nes.step();
    nes.step();
    assert_eq!(nes.bus.wram[0], 0x42);
    assert!(apply_command(&mut nes, EmuCommand::Reset));
    assert_eq!(nes.cpu.reg.pc, 0x8000);

    let pc = nes.cpu.reg.pc;
    assert!(apply_command(&mut nes, EmuCommand::Hotswap(nrom_cart(&[0xEA]))));
    assert_eq!(nes.cpu.reg.pc, pc);
    assert!(apply_command(&mut nes, EmuCommand::Unload));
    assert!(nes.bus.mem.cart.prgrom.is_empty());
}

#[test]
fn one_frame_of_emulation() {
    let mut nes = Nes::new();
    assert!(apply_command(&mut nes, EmuCommand::Load(nrom_cart(&[0x4C, 0x00, 0x80]))));
    let mut buffer = vec![0u8; DISPLAY_SIZE];
    assert!(run_frame(&mut nes, 0x01, &mut buffer));
    assert!(buffer.chunks(4).all(|p| p[3] == 0xFF));
    assert!(run_frame(&mut nes, 0x00, &mut buffer));
}

#[test]
fn status_register_round_trip_through_the_stack() {
    let mut s = StatusRegister::new();
    s.insert(FLAG_C);
    s.insert(FLAG_N);
    let pushed = s.as_stack_byte(true);
    let mut t = StatusRegister::new();
    t.set_from_stack_byte(pushed);
    assert_eq!(t.bits() & 0xCF, s.bits() & 0xCF);
}

#[test]
fn scroll_offsets_fields_and_wrapping() {
    let s = ScrollOffsets::from_bytes([0x34, 0x92]);
    assert_eq!(s.as_u16(), 0x1234);
    assert_eq!(s.into_bytes(), [0x34, 0x12]);
    assert_eq!(ScrollOffsets::from_bytes(s.into_bytes()).as_u16(), 0x1234);

    let mut t = ScrollOffsets::new();
    t.set_coarse_x(31);
    t.increment_coarse_x();
    assert_eq!((t.coarse_x(), t.nametable()), (0, 1));
    t.set_coarse_y(29);
    t.set_fine_y(7);
    t.increment_fine_y();
    assert_eq!((t.fine_y(), t.coarse_y(), t.nametable()), (0, 0, 3));
    t.set_coarse_x(5);
    t.set_coarse_y(6);
    assert_eq!(t.nametable_addr(), 0x2000 + 0xC00 + 6 * 32 + 5);
    assert_eq!(t.attribute_addr(), 0x23C0 + 0xC00 + 8 * 1 + 1);
    // coarse X 5, coarse Y 6: bottom-left quadrant, bits 4-5
    assert_eq!(t.extract_attribute_from_byte(0b0010_0000), 2);
    t.increment(0x7FFF);
    assert_eq!(t.as_u16(), (0x2000u16 + 0xC00 + 6 * 32 + 5 - 0x2000 + 0x7FFF) & 0x7FFF);
}

#[test]
fn nametable_reads_back_what_was_written() {
    let mut nes = Nes::new();
    nes.load_cart(nrom_cart(&[]));
    nes.bus.mem.write(0x2005, 0x42);
    assert_eq!(nes.bus.mem.read(0x2005), 0x42);
    // vertical mirroring: 0x2800 shows 0x2000, 0x2400 is the other table
    assert_eq!(nes.bus.mem.read(0x2805), 0x42);
    assert_eq!(nes.bus.mem.read(0x2405), 0x00);
    // 0x3000..0x3F00 mirrors 0x2000..0x2F00
    assert_eq!(nes.bus.mem.read(0x3005), 0x42);
    nes.bus.mem.write(0x3405, 0x17);
    assert_eq!(nes.bus.mem.read(0x2405), 0x17);
}

#[test]
fn nmi_follows_vblank_and_the_enable_bit() {
    let mut bus = vram();
    let mut ppu = Ppu::new();
    // run into vertical blank with NMI disabled: the line stays down
    for _ in 0..(341 + 341 * 241 + 2) {
        ppu.tick(&mut bus);
        assert!(!ppu.nmi_active());
    }
    ppu.write_ppuctrl(0x80);
    assert!(ppu.nmi_active());
    ppu.write_ppuctrl(0x00);
    assert!(!ppu.nmi_active());
    ppu.write_ppuctrl(0x80);
    let stat = ppu.read_ppustat();
    assert_eq!(stat & 0x1F, 0);
    assert!(!ppu.nmi_active());
}

#[test]
fn background_shift_registers_move_and_load_pixels() {
    let mut sr = BgShiftRegisters::new();
    let mut l = BgLatches::new();
    l.at = 0b10;
    l.pt_low = 0b1000_0001;
    l.pt_high = 0b0000_0001;
    sr.load(&l);
    // the new tile sits at fine X 8..16
    assert_eq!(sr.palette_address(8), 0b1001);
    assert_eq!(sr.palette_address(15), 0b1011);
    assert_eq!(sr.palette_address(0), 0);
    let before: Vec<u16> = (0..16).map(|x| sr.palette_address(x)).collect();
    sr.shift();
    for x in 0..15u8 {
        assert_eq!(sr.palette_address(x), before[x as usize + 1]);
    }
    assert_eq!(sr.palette_address(15), 0);
}

#[test]
fn pixel_liner_shows_a_loaded_line_after_eight_shifts() {
    let mut s = BgPixLiner::new();
    s.load_tileline(PixLine { tile_idx: 0, at_lo: true, at_hi: false, pt_lo: 0b1010_0000, pt_hi: 0b0100_0001 });
    for _ in 0..8 {
        s.shift();
    }
    assert_eq!(s.pixel_index(0), 0b0101);
    assert_eq!(s.pixel_index(1), 0b0110);
    assert_eq!(s.pixel_index(2), 0b0101);
    assert_eq!(s.pixel_index(7), 0b0110);
}
