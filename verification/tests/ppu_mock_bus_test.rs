use rustnes_core::nes::ppu::{Bus, Ppu};

/// A minimal bus for checking the picture: pattern tables (0x0000-0x1FFF)
/// and nametables (0x2000-0x2FFF) as flat arrays, with no mirroring and no
/// mapper.
struct MockBus {
    chr: [u8; 0x2000],
    vram: [u8; 0x1000],
}

impl MockBus {
    fn new() -> Self {
        Self {
            chr: [0; 0x2000],
            vram: [0; 0x1000],
        }
    }

    /// Writes one tile (16 bytes): eight rows of the low plane, then eight
    /// of the high plane.
    fn set_tile(&mut self, tile_idx: u8, plane_lo: [u8; 8], plane_hi: [u8; 8]) {
        let base = tile_idx as usize * 16;
        self.chr[base..base + 8].copy_from_slice(&plane_lo);
        self.chr[base + 8..base + 16].copy_from_slice(&plane_hi);
    }

    #[allow(dead_code)]
    fn set_nametable_byte(&mut self, nt: u16, offset: u16, value: u8) {
        let addr = nt * 0x400 + offset;
        self.vram[addr as usize] = value;
    }
}

impl Bus for MockBus {
    fn read(&mut self, addr: u16) -> u8 {
        match addr {
            0x0000..=0x1FFF => self.chr[addr as usize],
            0x2000..=0x2FFF => self.vram[(addr - 0x2000) as usize],
            _ => 0,
        }
    }

    fn write(&mut self, addr: u16, data: u8) {
        match addr {
            0x0000..=0x1FFF => self.chr[addr as usize] = data,
            0x2000..=0x2FFF => self.vram[(addr - 0x2000) as usize] = data,
            _ => {}
        }
    }
}

/// Runs the PPU for one frame (341 cycles * 262 scanlines).
fn run_one_frame(ppu: &mut Ppu, bus: &mut MockBus) {
    for _ in 0..341 * 262 {
        ppu.tick(bus);
    }
}

#[test]
fn background_fills_with_expected_color() {
    let mut bus = MockBus::new();

    // Tile 0: low plane 0x00, high plane 0xFF => every pixel is 0b10 = 2
    bus.set_tile(0, [0x00; 8], [0xFF; 8]);

    let mut ppu = Ppu::new();

    ppu.write_ppuctrl(0x00);

    ppu.write_ppuaddr(0x3F);
    ppu.write_ppuaddr(0x00);
    ppu.write_ppudata(&mut bus, 0x0F);
    ppu.write_ppudata(&mut bus, 0x16);
    ppu.write_ppudata(&mut bus, 0x2A);
    ppu.write_ppudata(&mut bus, 0x12);

    ppu.write_ppumask(0x08);

    run_one_frame(&mut ppu, &mut bus);

    let buf = ppu.display_buffer();

    let (x, y) = (128, 120);
    let idx = (256 * y + x) * 4;
    let pixel = &buf[idx..idx + 4];

    println!("pixel({x},{y}) = {:?}", pixel);
    assert_ne!(pixel[3], 0x00, "alpha not set: nothing was drawn");

    let buf = ppu.display_buffer();
    for x in 0..32 {
        let idx = (256 * 100 + x) * 4;
        println!("x={x}: {:?}", &buf[idx..idx + 3]);
    }

    let (x2, y2) = (10, 5);
    let idx2 = (256 * y2 + x2) * 4;
    assert_eq!(
        &buf[idx..idx + 3],
        &buf[idx2..idx2 + 3],
        "the same tile drawn in two colors: scroll or fetch is wrong"
    );
}

#[test]
fn background_tile_has_expected_horizontal_pattern() {
    let mut bus = MockBus::new();

    // Each row: left 4 pixels value 1, right 4 pixels value 2
    bus.set_tile(0, [0b1111_0000; 8], [0b0000_1111; 8]);

    let mut ppu = Ppu::new();
    ppu.write_ppuctrl(0x00);

    ppu.write_ppuaddr(0x3F);
    ppu.write_ppuaddr(0x00);
    ppu.write_ppudata(&mut bus, 0x0F);
    ppu.write_ppudata(&mut bus, 0x16);
    ppu.write_ppudata(&mut bus, 0x2A);
    ppu.write_ppudata(&mut bus, 0x12);

    ppu.write_ppumask(0x08);

    run_one_frame(&mut ppu, &mut bus);

    let buf = ppu.display_buffer();

    let left_idx = (256 * 10 + 1) * 4;
    let right_idx = (256 * 10 + 6) * 4;

    assert_ne!(
        &buf[left_idx..left_idx + 3],
        &buf[right_idx..right_idx + 3],
        "left and right halves in one color: pattern fetch or shift registers are wrong"
    );
}
