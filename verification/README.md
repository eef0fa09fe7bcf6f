# rustnes_core

A Nintendo Entertainment System emulator core written in Verus: the
executable code is ordinary Rust, and each public function carries a
contract that Verus proves.

## Layout

- `src/nes/cpu*`: the 6502 CPU. `trace.rs` describes, as spec functions,
  the exact bus accesses of every instruction, interrupt, reset and sprite
  DMA; `Cpu::step` is proved to make exactly those accesses.
- `src/nes/ppu*`: the 2C02 PPU: registers, scrolling (`loopy`),
  background and sprite pipelines, palettes, frame buffers.
- `src/nes/nescart*`: cartridges and their boards (NROM, MMC1, MMC3) and
  nametable mirroring.
- `src/nes/emufile*`, `src/nes/nesrom*`: iNES and NES 2.0 image parsing.
- `src/nes.rs`: the console: the CPU's bus (work RAM, PPU, controller,
  cartridge) and the laws that tie reads to earlier writes.
- `src/emulator.rs`: commands from the front end and one frame of
  emulation.
- `src/board`, `src/cycle`: a second board layout (with its console,
  which runs the 6502 core on the board's bus) and a cycle-stepped CPU
  core.
- `app/`: the headless front end: files, the emulation thread and its
  pacing.
- `tests/`: tests of the library from the outside.
