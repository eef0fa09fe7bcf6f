//! What the emulator does between the front end's requests: commands that
//! change the console, and the work of one frame. The front end owns the
//! thread, the clock and the frame buffer it shares.

use vstd::prelude::*;
use crate::nes::{Nes, frame_run, resets_to};
use crate::nes::nescart::NesCart;
use crate::nes::cpu::{ACCESS_CYCLES, CYCLE_CEILING};
use crate::nes::ppu::{DISPLAY_SIZE, PpuView, rgba_of};

verus! {

/// A request from the front end.
pub enum EmuCommand {
    /// Press the reset button.
    Reset,
    /// Pull the cartridge out.
    Unload,
    /// Insert a cartridge and reset.
    Load(NesCart),
    /// Swap the cartridge without a reset.
    Hotswap(NesCart),
}

/// More instructions than one frame can hold: a frame lasts about 29781
/// CPU cycles, and an instruction at least two.
pub const MAX_STEPS_PER_FRAME: u32 = 30000;

/// Carries out a command. A cartridge whose board cannot serve the
/// memories it comes with is not inserted: the result is `false` and the
/// console is left as it was.
pub fn apply_command(nes: &mut Nes, cmd: EmuCommand) -> (r: bool)
    requires
        old(nes).wf(),
        old(nes).cpu@.total_cycle <= CYCLE_CEILING,
    ensures
        final(nes).wf(),
        final(nes).cpu@.total_cycle <= old(nes).cpu@.total_cycle + 7 * ACCESS_CYCLES,
        match cmd {
            EmuCommand::Reset => r && resets_to(*old(nes), *final(nes)),
            EmuCommand::Unload => {
                &&& r
                &&& final(nes).bus.mem.cart.mapper is Empty
                &&& final(nes).cpu == old(nes).cpu
                &&& final(nes).bus.wram == old(nes).bus.wram
                &&& final(nes).bus.ppu == old(nes).bus.ppu
            },
            EmuCommand::Load(c) => {
                &&& r == c.wf()
                &&& r ==> resets_to(old(nes).with_cart(c), *final(nes))
                &&& !r ==> *final(nes) == *old(nes)
            },
            EmuCommand::Hotswap(c) => {
                &&& r == c.wf()
                &&& r ==> final(nes).bus.mem.cart == c
                    && final(nes).cpu == old(nes).cpu
                    && final(nes).bus.wram == old(nes).bus.wram
                    && final(nes).bus.ppu == old(nes).bus.ppu
                &&& !r ==> *final(nes) == *old(nes)
            },
        },
{
    match cmd {
        EmuCommand::Reset => {
            nes.reset();
            true
        },
        EmuCommand::Unload => {
            nes.unload_cart();
            true
        },
        EmuCommand::Hotswap(cart) => {
            if cart.check() {
                nes.load_cart(cart);
                true
            } else {
                false
            }
        },
        EmuCommand::Load(cart) => {
            if cart.check() {
                nes.load_cart(cart);
                nes.reset();
                true
            } else {
                false
            }
        },
    }
}

/// One frame of emulation: the first controller's buttons are recorded,
/// the console runs until the PPU completes a frame (or the step limit is
/// reached), and the finished picture is written as RGBA into `buffer`.
/// Returns whether a new frame was completed. The ensures follow the
/// console through the run, one instruction per state of `run`.
pub fn run_frame(nes: &mut Nes, joypad1: u8, buffer: &mut [u8]) -> (r: bool)
    requires
        old(nes).wf(),
        old(nes).cpu@.total_cycle <= CYCLE_CEILING - MAX_STEPS_PER_FRAME * 24 * ACCESS_CYCLES,
        old(buffer)@.len() >= DISPLAY_SIZE,
    ensures
        final(nes).wf(),
        final(nes).cpu@.total_cycle <= old(nes).cpu@.total_cycle + MAX_STEPS_PER_FRAME * 24 * ACCESS_CYCLES,
        !final(nes).bus.ppu@.is_frame_ready,
        final(buffer)@.len() == old(buffer)@.len(),
        final(buffer)@.subrange(0, DISPLAY_SIZE as int) == rgba_of(final(nes).bus.ppu@.frontframe),
        exists|run: Seq<Nes>| {
            &&& #[trigger] frame_run(run)
            &&& run.len() >= 1
            &&& run.len() - 1 <= MAX_STEPS_PER_FRAME
            &&& !r ==> run.len() - 1 == MAX_STEPS_PER_FRAME
            &&& run[0].bus.joypad1.current() == joypad1
            &&& run[0].bus.joypad1.snapshot() == old(nes).bus.joypad1.snapshot()
            &&& run[0].cpu == old(nes).cpu
            &&& run[0].bus.mem == old(nes).bus.mem
            &&& run[0].bus.wram == old(nes).bus.wram
            &&& run[0].bus.ppu == old(nes).bus.ppu
            &&& r == run.last().bus.ppu@.is_frame_ready
            &&& final(nes).bus.ppu@ == (PpuView { is_frame_ready: false, ..run.last().bus.ppu@ })
            &&& final(nes).cpu == run.last().cpu
            &&& final(nes).bus.mem == run.last().bus.mem
            &&& final(nes).bus.wram == run.last().bus.wram
        },
{
    nes.update_joypad1(joypad1);
    let ready = nes.step_frame(MAX_STEPS_PER_FRAME);
    nes.output_frame(buffer);
    ready
}

} // verus!
