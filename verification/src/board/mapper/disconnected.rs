use vstd::prelude::*;
use super::{MapperLogic, PpuReadHook, PpuWriteHook};

verus! {

/// No cartridge: nothing drives the bus.
#[derive(Debug, Clone, Copy)]
pub struct Disconnected;

impl MapperLogic for Disconnected {
    open spec fn cpu_access_ok(&self, addr: u16) -> bool {
        true
    }

    open spec fn cpu_write_ok(&self, addr: u16) -> bool {
        true
    }

    fn irq_active(&self) -> (r: bool)
        ensures
            !r,
    {
        false
    }

    fn cpu_step(&mut self) {
    }

    fn cpu_read(&mut self, _addr: u16) -> (r: u8)
        ensures
            r == 0,
    {
        0x00
    }

    fn cpu_write(&mut self, _addr: u16, _data: u8) {
    }

    fn ppu_read(&mut self, _addr: u16) -> (r: PpuReadHook)
        ensures
            r == PpuReadHook::ExternalVram(0),
    {
        PpuReadHook::ExternalVram(0x00)
    }

    fn ppu_write(&mut self, _addr: u16, _data: u8) -> (r: PpuWriteHook)
        ensures
            r == PpuWriteHook::ExternalVram,
    {
        PpuWriteHook::ExternalVram
    }
}

} // verus!
