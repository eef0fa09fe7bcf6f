use vstd::prelude::*;
use super::logic::{MapperLogic, MappedCpuRead, MappedCpuWrite, MappedPpuRead, MappedPpuWrite};

verus! {

/// No cartridge: every access is open bus.
#[derive(Debug, Clone, Copy)]
pub struct Empty;

impl MapperLogic for Empty {
    open spec fn inv(&self) -> bool {
        true
    }

    open spec fn irq_spec(&self) -> bool {
        false
    }

    open spec fn stepped(&self) -> Self {
        *self
    }

    open spec fn cpu_read_ok(&self, addr: u16) -> bool {
        true
    }

    open spec fn cpu_read_spec(&self, addr: u16) -> MappedCpuRead {
        MappedCpuRead::Openbus
    }

    open spec fn cpu_write_ok(&self, addr: u16) -> bool {
        true
    }

    open spec fn cpu_write_spec(&self, addr: u16, data: u8) -> (MappedCpuWrite, Self) {
        (MappedCpuWrite::Other, *self)
    }

    open spec fn ppu_read_ok(&self, addr: u16) -> bool {
        true
    }

    open spec fn ppu_read_spec(&self, addr: u16) -> (MappedPpuRead, Self) {
        (MappedPpuRead::Openbus, *self)
    }

    open spec fn ppu_write_ok(&self, addr: u16) -> bool {
        true
    }

    open spec fn ppu_write_spec(&self, addr: u16, data: u8) -> (MappedPpuWrite, Self) {
        (MappedPpuWrite::Other, *self)
    }

    open spec fn serves(&self, prgrom_len: nat, prgram_len: nat, chrrom_len: nat, chrram_len: nat) -> bool {
        true
    }

    proof fn lemma_serves(&self, prgrom_len: nat, prgram_len: nat, chrrom_len: nat, chrram_len: nat, addr: u16, data: u8) {
    }

    fn check_serves(&self, prgrom_len: usize, prgram_len: usize, chrrom_len: usize, chrram_len: usize) -> (r: bool) {
        true
    }

    fn irq_active(&self) -> (r: bool) {
        false
    }

    fn cpu_step(&mut self) {
    }

    fn map_cpu_read(&mut self, _addr: u16) -> (r: MappedCpuRead) {
        MappedCpuRead::Openbus
    }

    fn map_cpu_write(&mut self, _addr: u16, _data: u8) -> (r: MappedCpuWrite) {
        MappedCpuWrite::Other
    }

    fn map_ppu_read(&mut self, _addr: u16) -> (r: MappedPpuRead) {
        MappedPpuRead::Openbus
    }

    fn map_ppu_write(&mut self, _addr: u16, _data: u8) -> (r: MappedPpuWrite) {
        MappedPpuWrite::Other
    }
}

} // verus!
