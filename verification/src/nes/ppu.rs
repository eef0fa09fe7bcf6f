//! The picture processing unit: the scanline/cycle timing, the background
//! pipeline, the registers the CPU sees and the frame buffers.

pub mod palette;
pub mod pixline;
pub mod bg_sr;
pub mod loopy;
pub mod registers;
pub mod background;
pub mod sprite;
pub mod system_palette;

use vstd::prelude::*;
use palette::{Palette, palette_cell};
use pixline::{PixLine, BgPixLiner, bit16, compose_pixel};
use registers::PpuScrl;
use sprite::SprPixLine;
use system_palette::SYSTEM_PALETTE;
use crate::nes::cpu::Access;

verus! {

pub const FRAME_WIDTH: usize = 256;
pub const FRAME_HEIGHT: usize = 240;
/// Pixels in a frame.
pub const FRAME_SIZE: usize = 61440;
/// Bytes in an RGBA picture of a frame.
pub const DISPLAY_SIZE: usize = 245760;

/// The last cycle of a scanline.
pub const LAST_CYCLE: usize = 340;
/// The pre-render scanline, the last of a frame.
pub const PRE_RENDER_LINE: usize = 261;
/// PPU cycles in one frame.
pub const CYCLES_PER_FRAME: u32 = 89342;

/// The PPU's side of its bus: pattern tables and nametables.
pub trait Bus {
    /// The bus can serve every address.
    open spec fn ready(&self) -> bool {
        true
    }

    /// Every access made so far, oldest first. A bus that keeps no record
    /// has an empty one, and cannot give the guarantees below.
    open spec fn trace(&self) -> Seq<Access> {
        Seq::empty()
    }

    /// The memories on the cartridge. A bus that models none has none.
    open spec fn memories(&self) -> Seq<Seq<u8>> {
        Seq::empty()
    }

    fn read(&mut self, addr: u16) -> (r: u8)
        requires
            old(self).ready(),
        ensures
            final(self).ready(),
            final(self).trace() == old(self).trace().push(Access::Read(addr, r)),
            final(self).memories() == old(self).memories(),
    ;

    fn write(&mut self, addr: u16, data: u8)
        requires
            old(self).ready(),
        ensures
            final(self).ready(),
            final(self).trace() == old(self).trace().push(Access::Write(addr, data)),
    ;
}

/// One PPU cycle from `p0` to `p1`, the bus record going from `t0` to
/// `t1`: when the cycle fetches, one read at the latched address, and the
/// state that byte gives; otherwise no access.
pub open spec fn tick_ok(p0: PpuView, t0: Seq<Access>, p1: PpuView, t1: Seq<Access>) -> bool {
    if p0.tick_fetches() {
        exists|d: u8| t1 == t0.push(Access::Read(p0.addr_latch & 0x7FFF, d)) && p1 == #[trigger] p0.ticked(d)
    } else {
        t1 == t0 && p1 == p0.ticked(0)
    }
}

/// One CPU cycle of the PPU, from `p0` to `p3`, the bus record going from
/// `t0` to `t3`: three PPU cycles.
pub open spec fn cpu_cycle_ok(p0: PpuView, t0: Seq<Access>, p3: PpuView, t3: Seq<Access>) -> bool {
    exists|p1: PpuView, p2: PpuView, t1: Seq<Access>, t2: Seq<Access>|
        #[trigger] tick_ok(p0, t0, p1, t1) && #[trigger] tick_ok(p1, t1, p2, t2)
        && tick_ok(p2, t2, p3, t3)
}

/// The status register keeps its low five bits clear when flags are set or
/// cleared.
pub proof fn lemma_stat_low_bits(s: u8)
    requires
        s & 0x1F == 0,
    ensures
        (s | 0x80) & 0x1F == 0,
        (s | 0x40) & 0x1F == 0,
        (s & !0x80u8) & 0x1F == 0,
        (s & !0x40u8) & 0x1F == 0,
        (s & !(registers::STAT_VBLANK | registers::STAT_SPRITE0_HIT | registers::STAT_SPRITE_OVERFLOW)) & 0x1F == 0,
        (s & !0x80u8) & 0x80 == 0,
        0u8 & 0x1F == 0,
{
    assert((s | 0x80) & 0x1F == 0 && (s | 0x40) & 0x1F == 0 && (s & !0x80u8) & 0x1F == 0
        && (s & !0x40u8) & 0x1F == 0 && (s & !(0x80u8 | 0x40u8 | 0x20u8)) & 0x1F == 0 && (s & !0x80u8) & 0x80 == 0
        && 0u8 & 0x1F == 0) by (bit_vector)
        requires
            s & 0x1F == 0;
}

/// The state of a PPU, as plain values.
#[verifier::ext_equal]
pub struct PpuView {
    pub frontframe: Seq<u8>,
    pub backframe: Seq<u8>,
    pub is_frame_ready: bool,
    pub scanline: usize,
    pub cycle: usize,
    pub odd_frame: bool,
    pub addr_latch: u16,
    pub palette: Seq<u8>,
    pub primary_oam: Seq<u8>,
    pub secondary_oam: Seq<u8>,
    pub ppudata_buffer: u8,
    pub write_toggle: bool,
    pub oamaddr: u8,
    pub ctrl: u8,
    pub mask: u8,
    pub stat: u8,
    pub v: u16,
    pub t: u16,
    pub fine_x: u8,
    pub bg_line: PixLine,
    pub bg_liner: BgPixLiner,
    pub spr_lines: Seq<SprPixLine>,
}

/// A PPU.
#[derive(Debug, Clone, Copy)]
pub struct Ppu {
    frontframe: [u8; FRAME_SIZE],
    backframe: [u8; FRAME_SIZE],
    is_frame_ready: bool,
    scanline: usize,
    cycle: usize,
    odd_frame: bool,
    addr_latch: u16,

    palette: Palette,
    primary_oam: [u8; 256],
    secondary_oam: [u8; 32],

    ppudata_buffer: u8,
    write_toggle: bool,
    oamaddr: u8,
    ctrl: u8,
    mask: u8,
    stat: u8,
    scrl: PpuScrl,

    bg_line: PixLine,
    bg_liner: BgPixLiner,
    spr_lines: [SprPixLine; 8],
}

impl View for Ppu {
    type V = PpuView;

    closed spec fn view(&self) -> PpuView {
        PpuView {
            frontframe: self.frontframe@,
            backframe: self.backframe@,
            is_frame_ready: self.is_frame_ready,
            scanline: self.scanline,
            cycle: self.cycle,
            odd_frame: self.odd_frame,
            addr_latch: self.addr_latch,
            palette: self.palette@,
            primary_oam: self.primary_oam@,
            secondary_oam: self.secondary_oam@,
            ppudata_buffer: self.ppudata_buffer,
            write_toggle: self.write_toggle,
            oamaddr: self.oamaddr,
            ctrl: self.ctrl,
            mask: self.mask,
            stat: self.stat,
            v: self.scrl.v,
            t: self.scrl.t,
            fine_x: self.scrl.fine_x,
            bg_line: self.bg_line,
            bg_liner: self.bg_liner,
            spr_lines: self.spr_lines@,
        }
    }
}

/// The RGBA picture of a frame of color indices: each pixel is the system
/// palette's three bytes for its index, then an opaque alpha.
pub open spec fn rgba_of(frame: Seq<u8>) -> Seq<u8> {
    Seq::new(
        DISPLAY_SIZE as nat,
        |j: int| if j % 4 == 3 { 0xFFu8 } else { SYSTEM_PALETTE@[frame[j / 4] * 3 + j % 4] },
    )
}

impl PpuView {
    /// What every state of a PPU satisfies.
    pub open spec fn wf(self) -> bool {
        &&& self.frontframe.len() == FRAME_SIZE
        &&& self.backframe.len() == FRAME_SIZE
        &&& forall|i: int| 0 <= i < FRAME_SIZE ==> #[trigger] self.frontframe[i] < 0x40
        &&& forall|i: int| 0 <= i < FRAME_SIZE ==> #[trigger] self.backframe[i] < 0x40
        &&& self.palette.len() == palette::PALETTE_SIZE
        &&& forall|i: int| 0 <= i < palette::PALETTE_SIZE ==> #[trigger] self.palette[i] < 0x40
        &&& self.stat & 0x1F == 0
        &&& self.primary_oam.len() == 256
        &&& self.secondary_oam.len() == 32
        &&& self.spr_lines.len() == 8
        &&& self.scanline <= PRE_RENDER_LINE
        &&& self.cycle <= LAST_CYCLE
        &&& self.fine_x <= 7
    }

    /// The flag `flag` of the control register is set.
    pub open spec fn ctrl_has(self, flag: u8) -> bool {
        self.ctrl & flag == flag
    }

    /// The flag `flag` of the mask register is set.
    pub open spec fn mask_has(self, flag: u8) -> bool {
        self.mask & flag == flag
    }

    /// The flag `flag` of the status register is set.
    pub open spec fn stat_has(self, flag: u8) -> bool {
        self.stat & flag == flag
    }

    /// The position within the frame, counted in cycles from line 0, cycle 0.
    pub open spec fn position(self) -> int {
        self.scanline * 341 + self.cycle
    }

    /// The palette index of the background pixel under the shift
    /// registers, with a transparent pixel showing the backdrop (index 0).
    pub open spec fn bg_pixel(self) -> u8 {
        let l = self.bg_liner;
        let k = 15 - self.fine_x;
        let p = compose_pixel(bit16(l.at_hi(), k), bit16(l.at_lo(), k), bit16(l.pt_hi(), k), bit16(l.pt_lo(), k));
        if p % 4 == 0 { 0 } else { p }
    }

    /// The state after drawing the pixel at the current cycle.
    pub open spec fn rendered(self) -> PpuView {
        let color = self.palette[palette_cell(self.bg_pixel())];
        let x = self.cycle - 1;
        let y = self.scanline;
        if 0 <= x < FRAME_WIDTH && y < FRAME_HEIGHT {
            PpuView { backframe: self.backframe.update(FRAME_WIDTH * y + x, color), ..self }
        } else {
            self
        }
    }

    /// The state after the timing moves one cycle on: to the next
    /// scanline after cycle 340, and to a new frame after the pre-render
    /// line, which swaps the buffers and marks the frame ready.
    pub open spec fn cycle_advanced(self) -> PpuView {
        if self.cycle == LAST_CYCLE {
            if self.scanline == PRE_RENDER_LINE {
                PpuView {
                    odd_frame: !self.odd_frame,
                    cycle: 0,
                    scanline: 0,
                    is_frame_ready: true,
                    frontframe: self.backframe,
                    backframe: self.frontframe,
                    ..self
                }
            } else {
                PpuView { cycle: 0, scanline: (self.scanline + 1) as usize, ..self }
            }
        } else {
            PpuView { cycle: (self.cycle + 1) as usize, ..self }
        }
    }

    /// Whether this cycle reads the bus (only the background pipeline
    /// does).
    pub open spec fn tick_fetches(self) -> bool {
        self.mask_has(registers::MASK_ENABLE_BG) && self.bg_fetches()
    }

    /// The state after one cycle, when any read of the bus it makes gives
    /// `d`.
    pub open spec fn ticked(self, d: u8) -> PpuView {
        let s1 = if (self.mask_has(registers::MASK_ENABLE_BG) || self.mask_has(registers::MASK_ENABLE_SPR))
            && self.scanline <= 239 && 1 <= self.cycle <= 256 {
            self.rendered()
        } else {
            self
        };
        let s2 = if self.mask_has(registers::MASK_ENABLE_BG) { s1.bg_advanced(d) } else { s1 };
        let s3 = if self.scanline == 241 && self.cycle == 1 {
            PpuView { stat: s2.stat | registers::STAT_VBLANK, ..s2 }
        } else {
            s2
        };
        let s4 = if self.scanline == 261 && self.cycle == 1 {
            PpuView { stat: s3.stat & !(registers::STAT_VBLANK | registers::STAT_SPRITE0_HIT | registers::STAT_SPRITE_OVERFLOW), ..s3 }
        } else {
            s3
        };
        s4.cycle_advanced()
    }

    /// One cycle keeps a state well formed and moves the position on by
    /// one, modulo the cycles of a frame.
    pub proof fn lemma_ticked_keeps(self, d: u8)
        requires
            self.wf(),
        ensures
            self.ticked(d).wf(),
            self.ticked(d).position() == (self.position() + 1) % (CYCLES_PER_FRAME as int),
    {
        lemma_stat_low_bits(self.stat);
        let c = palette_cell(self.bg_pixel());
        assert(0 <= c < palette::PALETTE_SIZE);
        let s1 = if (self.mask_has(registers::MASK_ENABLE_BG) || self.mask_has(registers::MASK_ENABLE_SPR))
            && self.scanline <= 239 && 1 <= self.cycle <= 256 {
            self.rendered()
        } else {
            self
        };
        assert(s1.wf());
        s1.lemma_bg_advanced_frame(d);
        let s2 = if self.mask_has(registers::MASK_ENABLE_BG) { s1.bg_advanced(d) } else { s1 };
        assert(s2.wf() && s2.scanline == self.scanline && s2.cycle == self.cycle);
    }
}

impl Ppu {
    /// A PPU at power-up: blank frames, the timing at the start of the
    /// pre-render line, OAM filled with `0xFF`, every register clear.
    pub fn new() -> (r: Self)
        ensures
            r@.wf(),
            r@.frontframe == Seq::new(FRAME_SIZE as nat, |i: int| 0u8),
            r@.backframe == Seq::new(FRAME_SIZE as nat, |i: int| 0u8),
            !r@.is_frame_ready,
            r@.scanline == PRE_RENDER_LINE,
            r@.cycle == 0,
            !r@.odd_frame,
            r@.addr_latch == 0,
            r@.palette == Seq::new(palette::PALETTE_SIZE as nat, |i: int| 0u8),
            r@.primary_oam == Seq::new(256, |i: int| 0xFFu8),
            r@.secondary_oam == Seq::new(32, |i: int| 0xFFu8),
            r@.ppudata_buffer == 0,
            !r@.write_toggle,
            r@.oamaddr == 0,
            r@.ctrl == 0,
            r@.mask == 0,
            r@.stat == 0,
            r@.v == 0 && r@.t == 0 && r@.fine_x == 0,
    {
        let r = Self {
            frontframe: [0x00; FRAME_SIZE],
            backframe: [0x00; FRAME_SIZE],
            is_frame_ready: false,
            scanline: 261,
            cycle: 0,
            odd_frame: false,
            addr_latch: 0x0000,

            palette: Palette::new(),
            primary_oam: [0xFF; 256],
            secondary_oam: [0xFF; 32],

            ppudata_buffer: 0x00,
            write_toggle: false,
            oamaddr: 0x00,
            ctrl: 0,
            mask: 0,
            stat: 0,
            scrl: PpuScrl { v: 0x0000, t: 0x0000, fine_x: 0x0 },

            bg_line: PixLine { tile_idx: 0, at_lo: false, at_hi: false, pt_lo: 0, pt_hi: 0 },
            bg_liner: BgPixLiner::new(),
            spr_lines: [SprPixLine { x: 0, attr: 0, pt_lo: 0, pt_hi: 0 }; 8],
        };
        assert(r@.frontframe =~= Seq::new(FRAME_SIZE as nat, |i: int| 0u8));
        assert(0u8 & 0x1F == 0) by (bit_vector);
        assert(r@.backframe =~= Seq::new(FRAME_SIZE as nat, |i: int| 0u8));
        assert(r@.primary_oam =~= Seq::new(256, |i: int| 0xFFu8));
        assert(r@.secondary_oam =~= Seq::new(32, |i: int| 0xFFu8));
        r
    }

    /// Resets the PPU: the frame parity, the write toggle, the control and
    /// mask registers and the read buffer clear; all else stays.
    pub fn reset(&mut self)
        requires
            old(self)@.wf(),
        ensures
            final(self)@ == (PpuView {
                odd_frame: false,
                write_toggle: false,
                ctrl: 0,
                mask: 0,
                ppudata_buffer: 0,
                ..old(self)@
            }),
            final(self)@.wf(),
    {
        self.odd_frame = false;
        self.write_toggle = false;
        self.ctrl = 0;
        self.mask = 0;
        self.ppudata_buffer = 0x00;
    }

    /// Writes the RGBA picture of the front frame into the first
    /// `256 * 240 * 4` bytes of `buffer`, and marks the frame taken.
    pub fn output_frame(&mut self, buffer: &mut [u8])
        requires
            old(self)@.wf(),
            old(buffer)@.len() >= DISPLAY_SIZE,
        ensures
            final(self)@ == (PpuView { is_frame_ready: false, ..old(self)@ }),
            final(buffer)@.len() == old(buffer)@.len(),
            final(buffer)@.subrange(0, DISPLAY_SIZE as int) == rgba_of(old(self)@.frontframe),
            final(buffer)@.subrange(DISPLAY_SIZE as int, old(buffer)@.len() as int)
                == old(buffer)@.subrange(DISPLAY_SIZE as int, old(buffer)@.len() as int),
    {
        let mut i: usize = 0;
        while i < FRAME_SIZE
            invariant
                0 <= i <= FRAME_SIZE,
                self@ == old(self)@,
                self@.wf(),
                old(buffer)@.len() >= DISPLAY_SIZE,
                buffer@.len() == old(buffer)@.len(),
                forall|j: int| 0 <= j < 4 * i ==> #[trigger] buffer@[j] == rgba_of(self@.frontframe)[j],
                forall|j: int| 4 * i <= j < buffer@.len() ==> #[trigger] buffer@[j] == old(buffer)@[j],
            decreases FRAME_SIZE - i,
        {
            let color: u8 = self.frontframe[i];
            assert(self@.frontframe[i as int] < 0x40);
            let pal_idx: usize = color as usize * 3;
            buffer[i * 4] = SYSTEM_PALETTE[pal_idx];
            buffer[i * 4 + 1] = SYSTEM_PALETTE[pal_idx + 1];
            buffer[i * 4 + 2] = SYSTEM_PALETTE[pal_idx + 2];
            buffer[i * 4 + 3] = 0xFF;
            proof {
                assert forall|j: int| 0 <= j < 4 * (i + 1) implies #[trigger] buffer@[j] == rgba_of(self@.frontframe)[j] by {
                    if j >= 4 * i {
                        assert(j / 4 == i);
                    }
                }
            }
            i = i + 1;
        }
        self.is_frame_ready = false;
        assert(buffer@.subrange(0, DISPLAY_SIZE as int) =~= rgba_of(old(self)@.frontframe));
        assert(buffer@.subrange(DISPLAY_SIZE as int, old(buffer)@.len() as int)
            =~= old(buffer)@.subrange(DISPLAY_SIZE as int, old(buffer)@.len() as int));
    }

    /// The RGBA picture of the frame being drawn (the back frame), as
    /// `256 * 240 * 4` bytes.
    pub fn display_buffer(&self) -> (r: Vec<u8>)
        requires
            self@.wf(),
        ensures
            r@ == rgba_of(self@.backframe),
    {
        let mut out: Vec<u8> = Vec::with_capacity(DISPLAY_SIZE);
        let mut i: usize = 0;
        while i < FRAME_SIZE
            invariant
                0 <= i <= FRAME_SIZE,
                self@.wf(),
                out@.len() == 4 * i,
                forall|j: int| 0 <= j < 4 * i ==> #[trigger] out@[j] == rgba_of(self@.backframe)[j],
            decreases FRAME_SIZE - i,
        {
            let color: u8 = self.backframe[i];
            assert(self@.backframe[i as int] < 0x40);
            let pal_idx: usize = color as usize * 3;
            out.push(SYSTEM_PALETTE[pal_idx]);
            out.push(SYSTEM_PALETTE[pal_idx + 1]);
            out.push(SYSTEM_PALETTE[pal_idx + 2]);
            out.push(0xFF);
            proof {
                assert forall|j: int| 0 <= j < 4 * (i + 1) implies #[trigger] out@[j] == rgba_of(self@.backframe)[j] by {
                    if j >= 4 * i {
                        assert(j / 4 == i);
                    }
                }
            }
            i = i + 1;
        }
        assert(out@ =~= rgba_of(self@.backframe));
        out
    }

    /// Whether the PPU asks for a non-maskable interrupt: in vertical
    /// blank with the interrupt enabled.
    pub fn nmi_active(&self) -> (r: bool)
        ensures
            r == (self@.stat_has(registers::STAT_VBLANK) && self@.ctrl_has(registers::CTRL_NMI_ENABLE)),
    {
        (self.stat & registers::STAT_VBLANK) == registers::STAT_VBLANK
            && (self.ctrl & registers::CTRL_NMI_ENABLE) == registers::CTRL_NMI_ENABLE
    }

    /// Whether a new frame is complete and not yet taken.
    pub fn is_frame_ready(&self) -> (r: bool)
        ensures
            r == self@.is_frame_ready,
    {
        self.is_frame_ready
    }

    /// Runs the PPU for one CPU cycle: three PPU cycles.
    pub fn cpu_step(&mut self, bus: &mut impl Bus)
        requires
            old(bus).ready(),
            old(self)@.wf(),
        ensures
            final(bus).ready(),
            final(bus).memories() == old(bus).memories(),
            final(self)@.wf(),
            exists|d1: u8, d2: u8, d3: u8| final(self)@ == old(self)@.ticked(d1).ticked(d2).ticked(d3),
            cpu_cycle_ok(old(self)@, old(bus).trace(), final(self)@, final(bus).trace()),
    {
        let ghost t0 = bus.trace();
        self.tick(bus);
        let ghost s1 = self@;
        let ghost t1 = bus.trace();
        self.tick(bus);
        let ghost s2 = self@;
        let ghost t2 = bus.trace();
        self.tick(bus);
        assert(tick_ok(old(self)@, t0, s1, t1) && tick_ok(s1, t1, s2, t2) && tick_ok(s2, t2, self@, bus.trace()));
        proof {
            let d1 = choose|d: u8| s1 == old(self)@.ticked(d);
            let d2 = choose|d: u8| s2 == s1.ticked(d);
            let d3 = choose|d: u8| self@ == s2.ticked(d);
            assert(self@ == old(self)@.ticked(d1).ticked(d2).ticked(d3));
        }
    }

    /// Runs the PPU for one cycle. The cycle reads the bus at most once;
    /// the new state is the one that value gives.
    pub fn tick(&mut self, bus: &mut impl Bus)
        requires
            old(bus).ready(),
            old(self)@.wf(),
        ensures
            final(bus).ready(),
            final(bus).memories() == old(bus).memories(),
            final(self)@.wf(),
            exists|d: u8| final(self)@ == old(self)@.ticked(d),
            !old(self)@.tick_fetches() ==> final(self)@ == old(self)@.ticked(0),
            tick_ok(old(self)@, old(bus).trace(), final(self)@, final(bus).trace()),
    {
        let d: u8 = if self.tick_fetches() {
            self.fetch(bus)
        } else {
            0
        };
        self.tick_with(d);
        assert(self@ == old(self)@.ticked(d));
    }

    /// Whether this cycle reads the bus.
    pub fn tick_fetches(&self) -> (r: bool)
        ensures
            r == self@.tick_fetches(),
    {
        (self.mask & registers::MASK_ENABLE_BG) == registers::MASK_ENABLE_BG && self.bg_fetches()
    }

    /// Runs the PPU for one cycle, where any read of the bus gives `d`.
    pub fn tick_with(&mut self, d: u8)
        requires
            old(self)@.wf(),
        ensures
            final(self)@ == old(self)@.ticked(d),
            final(self)@.wf(),
    {
        let enable_bg: bool = (self.mask & registers::MASK_ENABLE_BG) == registers::MASK_ENABLE_BG;
        let enable_spr: bool = (self.mask & registers::MASK_ENABLE_SPR) == registers::MASK_ENABLE_SPR;
        let ghost s0 = self@;
        proof {
            lemma_stat_low_bits(self.stat);
        }

        if (enable_bg || enable_spr) && self.scanline <= 239 && 1 <= self.cycle && self.cycle <= 256 {
            self.render_pixel();
        }

        if enable_bg {
            self.advance_background_pipeline(d);
        }

        if self.scanline == 241 && self.cycle == 1 {
            self.stat = self.stat | registers::STAT_VBLANK;
        }

        if self.scanline == 261 && self.cycle == 1 {
            self.stat = self.stat & !(registers::STAT_VBLANK | registers::STAT_SPRITE0_HIT | registers::STAT_SPRITE_OVERFLOW);
        }

        self.advance_cycle();
    }

    fn render_pixel(&mut self)
        requires
            old(self)@.wf(),
            1 <= old(self)@.cycle,
        ensures
            final(self)@ == old(self)@.rendered(),
            final(self)@.wf(),
    {
        let p: u8 = self.bg_liner.pixel_index(self.scrl.fine_x);
        proof {
            crate::bits::lemma_u8_field_bounds();
        }
        let bg_pal: u8 = if p & 0x03 == 0 { 0x00 } else { p };
        let color: u8 = self.palette.read(bg_pal);
        self.set_pixel(self.cycle - 1, self.scanline, color);
    }

    fn set_pixel(&mut self, x: usize, y: usize, color: u8)
        requires
            old(self)@.wf(),
            color < 0x40,
        ensures
            final(self)@ == (if x < FRAME_WIDTH && y < FRAME_HEIGHT {
                PpuView { backframe: old(self)@.backframe.update(FRAME_WIDTH * y + x, color), ..old(self)@ }
            } else {
                old(self)@
            }),
            final(self)@.wf(),
    {
        if x < FRAME_WIDTH && y < FRAME_HEIGHT {
            let idx: usize = FRAME_WIDTH * y + x;
            self.backframe[idx] = color;
            assert(self@.backframe =~= old(self)@.backframe.update(FRAME_WIDTH * y + x, color));
        }
    }

    fn latch_addr(&mut self, addr: u16)
        ensures
            final(self)@ == (PpuView { addr_latch: addr, ..old(self)@ }),
    {
        self.addr_latch = addr;
    }

    /// Reads the bus at the latched address (within `0x0000..0x8000`).
    fn fetch(&mut self, bus: &mut impl Bus) -> (r: u8)
        requires
            old(bus).ready(),
        ensures
            final(bus).ready(),
            final(bus).memories() == old(bus).memories(),
            final(self)@ == old(self)@,
            final(bus).trace() == old(bus).trace().push(Access::Read(old(self)@.addr_latch & 0x7FFF, r)),
    {
        bus.read(self.addr_latch & 0x7FFF)
    }

    fn advance_cycle(&mut self)
        requires
            old(self)@.wf(),
        ensures
            final(self)@ == old(self)@.cycle_advanced(),
            final(self)@.wf(),
    {
        if self.cycle == 340 {
            self.reset_scanline();
        } else {
            self.cycle = self.cycle + 1;
        }
    }

    fn reset_scanline(&mut self)
        requires
            old(self)@.wf(),
            old(self)@.cycle == LAST_CYCLE,
        ensures
            final(self)@ == old(self)@.cycle_advanced(),
            final(self)@.wf(),
    {
        self.cycle = 0;
        if self.scanline == 261 {
            self.reset_frame();
        } else {
            self.scanline = self.scanline + 1;
        }
    }

    fn reset_frame(&mut self)
        requires
            old(self)@.wf(),
        ensures
            final(self)@ == (PpuView {
                odd_frame: !old(self)@.odd_frame,
                cycle: 0,
                scanline: 0,
                is_frame_ready: true,
                frontframe: old(self)@.backframe,
                backframe: old(self)@.frontframe,
                ..old(self)@
            }),
            final(self)@.wf(),
    {
        self.odd_frame = !self.odd_frame;
        self.cycle = 0;
        self.scanline = 0;
        self.is_frame_ready = true;
        core::mem::swap(&mut self.frontframe, &mut self.backframe);
    }
}

/// Each cycle moves the timing one step on, and after `341 * 262` cycles
/// it is back where it was: the position within the frame advances by one,
/// modulo the cycles of a frame.
pub proof fn lemma_tick_advances_position(p: PpuView, d: u8)
    requires
        p.wf(),
    ensures
        p.ticked(d).position() == (p.position() + 1) % (CYCLES_PER_FRAME as int),
        p.ticked(d).wf(),
{
    p.lemma_ticked_keeps(d);
}

/// The NMI line is up while vertical blank and the NMI enable are both
/// set. A cycle sets vertical blank at line 241, cycle 1, clears it at
/// line 261, cycle 1, and otherwise leaves it; no cycle changes PPUCTRL. A
/// read of PPUSTATUS clears vertical blank and leaves PPUCTRL; a write of
/// PPUCTRL takes the enable from bit 7 and leaves the status.
pub proof fn lemma_nmi_history(p: PpuView, d: u8, data: u8)
    requires
        p.wf(),
    ensures
        p.ticked(d).stat_has(registers::STAT_VBLANK) == if p.scanline == 241 && p.cycle == 1 {
            true
        } else if p.scanline == 261 && p.cycle == 1 {
            false
        } else {
            p.stat_has(registers::STAT_VBLANK)
        },
        p.ticked(d).ctrl == p.ctrl,
        !p.stat_read().1.stat_has(registers::STAT_VBLANK),
        p.stat_read().1.ctrl == p.ctrl,
        p.ctrl_written(data).ctrl_has(registers::CTRL_NMI_ENABLE) == (data & 0x80 == 0x80),
        p.ctrl_written(data).stat == p.stat,
{
    let s = p.stat;
    assert((s | 0x80u8) & 0x80u8 == 0x80u8 && (s & !(0x80u8 | 0x40u8 | 0x20u8)) & 0x80u8 != 0x80u8
        && ((data & 0xFCu8) & 0x80u8 == 0x80u8) == (data & 0x80u8 == 0x80u8)) by (bit_vector);
    let st1 = if p.scanline == 30 && (p.cycle as int) - 130 < 7 { s | 0x40u8 } else { s };
    let st2 = if st1 & 0x80u8 == 0x80u8 { st1 & !0x40u8 } else { st1 };
    assert((st2 & !0x80u8) & 0x80u8 != 0x80u8) by (bit_vector);
}

} // verus!
