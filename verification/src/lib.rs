//! A Nintendo Entertainment System emulator core: 6502 CPU, 2C02 PPU,
//! cartridge mappers and ROM image parsing, with machine-checked contracts.

pub mod bits;
pub mod board;
pub mod cycle;
pub mod emulator;
pub mod nes;
