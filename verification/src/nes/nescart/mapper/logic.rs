use vstd::prelude::*;

verus! {

/// Where a CPU read of the cartridge is served.
#[derive(Debug, Clone, Copy, PartialEq, Eq)]
pub enum MappedCpuRead {
    MapperChip(u8),
    PrgRom(u32),
    PrgRam(u32),
    Openbus,
}

/// Where a CPU write to the cartridge goes.
#[derive(Debug, Clone, Copy, PartialEq, Eq)]
pub enum MappedCpuWrite {
    /// Handled by the mapper or ignored.
    Other,
    PrgRam(u32, u8),
}

/// Where a PPU read of the cartridge space is served.
#[derive(Debug, Clone, Copy, PartialEq, Eq)]
pub enum MappedPpuRead {
    MapperChip(u8),
    InternalVram(u16),
    ChrRom(u32),
    ChrRam(u32),
    Openbus,
}

/// Where a PPU write to the cartridge space goes.
#[derive(Debug, Clone, Copy, PartialEq, Eq)]
pub enum MappedPpuWrite {
    /// Handled by the mapper or ignored.
    Other,
    InternalVram(u16, u8),
    ChrRam(u32, u8),
}

/// The address decoding of a cartridge board. Each access is described by
/// a spec function giving the mapping and the board's next state; the
/// `*_ok` predicates say on which accesses the board works (it panics on
/// the others).
pub trait MapperLogic: Sized {
    /// What every reachable state of the board satisfies.
    spec fn inv(&self) -> bool;

    spec fn irq_spec(&self) -> bool;

    spec fn stepped(&self) -> Self;

    spec fn cpu_read_ok(&self, addr: u16) -> bool;

    spec fn cpu_read_spec(&self, addr: u16) -> MappedCpuRead;

    spec fn cpu_write_ok(&self, addr: u16) -> bool;

    spec fn cpu_write_spec(&self, addr: u16, data: u8) -> (MappedCpuWrite, Self);

    spec fn ppu_read_ok(&self, addr: u16) -> bool;

    spec fn ppu_read_spec(&self, addr: u16) -> (MappedPpuRead, Self);

    spec fn ppu_write_ok(&self, addr: u16) -> bool;

    spec fn ppu_write_spec(&self, addr: u16, data: u8) -> (MappedPpuWrite, Self);

    /// Every access of the cartridge ranges (`0x4020..` for the CPU,
    /// `..0x3000` for the PPU) works and lands within memories of these
    /// lengths, in this state and in every state the board moves to.
    spec fn serves(&self, prgrom_len: nat, prgram_len: nat, chrrom_len: nat, chrram_len: nat) -> bool;

    /// What `serves` promises, at one address and byte.
    proof fn lemma_serves(&self, prgrom_len: nat, prgram_len: nat, chrrom_len: nat, chrram_len: nat, addr: u16, data: u8)
        requires
            self.serves(prgrom_len, prgram_len, chrrom_len, chrram_len),
        ensures
            self.inv(),
            addr >= 0x4020 ==> self.cpu_read_ok(addr) && self.cpu_write_ok(addr),
            addr <= 0x2FFF ==> self.ppu_read_ok(addr) && self.ppu_write_ok(addr),
            match self.cpu_read_spec(addr) {
                MappedCpuRead::PrgRom(o) => o < prgrom_len,
                MappedCpuRead::PrgRam(o) => o < prgram_len,
                _ => true,
            },
            self.cpu_write_spec(addr, data).0 matches MappedCpuWrite::PrgRam(o, _) ==> o < prgram_len,
            match self.ppu_read_spec(addr).0 {
                MappedPpuRead::ChrRom(o) => o < chrrom_len,
                MappedPpuRead::ChrRam(o) => o < chrram_len,
                _ => true,
            },
            self.ppu_write_spec(addr, data).0 matches MappedPpuWrite::ChrRam(o, _) ==> o < chrram_len,
            self.stepped().serves(prgrom_len, prgram_len, chrrom_len, chrram_len),
            self.cpu_write_spec(addr, data).1.serves(prgrom_len, prgram_len, chrrom_len, chrram_len),
            self.ppu_read_spec(addr).1.serves(prgrom_len, prgram_len, chrrom_len, chrram_len),
            self.ppu_write_spec(addr, data).1.serves(prgrom_len, prgram_len, chrrom_len, chrram_len),
    ;

    /// Whether the board serves memories of these lengths.
    fn check_serves(&self, prgrom_len: usize, prgram_len: usize, chrrom_len: usize, chrram_len: usize) -> (r: bool)
        ensures
            r == self.serves(prgrom_len as nat, prgram_len as nat, chrrom_len as nat, chrram_len as nat),
    ;

    fn irq_active(&self) -> (r: bool)
        ensures
            r == self.irq_spec(),
    ;

    fn cpu_step(&mut self)
        requires
            old(self).inv(),
        ensures
            *final(self) == old(self).stepped(),
            final(self).inv(),
    ;

    fn map_cpu_read(&mut self, addr: u16) -> (r: MappedCpuRead)
        requires
            old(self).inv(),
            old(self).cpu_read_ok(addr),
        ensures
            final(self).inv(),
            r == old(self).cpu_read_spec(addr),
            *final(self) == *old(self),
    ;

    fn map_cpu_write(&mut self, addr: u16, data: u8) -> (r: MappedCpuWrite)
        requires
            old(self).inv(),
            old(self).cpu_write_ok(addr),
        ensures
            final(self).inv(),
            (r, *final(self)) == old(self).cpu_write_spec(addr, data),
    ;

    fn map_ppu_read(&mut self, addr: u16) -> (r: MappedPpuRead)
        requires
            old(self).inv(),
            old(self).ppu_read_ok(addr),
        ensures
            final(self).inv(),
            (r, *final(self)) == old(self).ppu_read_spec(addr),
    ;

    fn map_ppu_write(&mut self, addr: u16, data: u8) -> (r: MappedPpuWrite)
        requires
            old(self).inv(),
            old(self).ppu_write_ok(addr),
        ensures
            final(self).inv(),
            (r, *final(self)) == old(self).ppu_write_spec(addr, data),
    ;
}

} // verus!
