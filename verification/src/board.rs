//! The desktop front end's system board: open-bus composition, the iNES
//! loader, the NES 2.0 header decoder and its simple mappers.

pub mod bus;
pub mod console;
pub mod cpu;
pub mod emufile;
pub mod loader;
pub mod mapper;
pub mod nesrom;
pub mod ppu;
pub mod regs;
