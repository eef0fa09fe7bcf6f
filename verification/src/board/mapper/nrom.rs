use vstd::prelude::*;
use super::{MapperCtx, MapperLogic, PpuReadHook, PpuWriteHook};

verus! {

/// Mapper 0: PRG-ROM at `0x8000` (16 KiB images mirrored at `0xC000`),
/// PRG-RAM at `0x6000`.
#[derive(Debug, Clone)]
pub struct Nrom {
    prgram: Vec<u8>,
    prgrom: Vec<u8>,
    chrrom: Vec<u8>,
}

impl Nrom {
    pub closed spec fn prgram(self) -> Seq<u8> {
        self.prgram@
    }

    pub closed spec fn prgrom(self) -> Seq<u8> {
        self.prgrom@
    }

    pub closed spec fn chrrom(self) -> Seq<u8> {
        self.chrrom@
    }

    /// The board made from `ctx`: zeroed PRG-RAM and the context's ROMs.
    pub open spec fn built_from(self, ctx: MapperCtx) -> bool {
        &&& self.prgram() == Seq::new(ctx.prgram_size as nat, |i: int| 0u8)
        &&& self.prgrom() == ctx.prgrom@
        &&& self.chrrom() == ctx.chrrom@
    }

    /// The byte a CPU read at `addr` gives.
    pub open spec fn read_spec(self, addr: u16) -> u8 {
        if addr < 0x6000 {
            0
        } else if addr < 0x8000 {
            self.prgram()[addr - 0x6000]
        } else if addr < 0xC000 {
            self.prgrom()[addr - 0x8000]
        } else {
            self.prgrom()[addr - 0xC000]
        }
    }

    /// `self` is `before` after a CPU write of `data` at `addr`.
    pub open spec fn written(self, before: Nrom, addr: u16, data: u8) -> bool {
        &&& self.prgrom() == before.prgrom()
        &&& self.chrrom() == before.chrrom()
        &&& self.prgram() == if 0x6000 <= addr < 0x8000 {
            before.prgram().update(addr - 0x6000, data)
        } else {
            before.prgram()
        }
    }

    pub fn new(ctx: MapperCtx) -> (r: Self)
        ensures
            r.built_from(ctx),
    {
        let prgram: Vec<u8> = vec![0u8; ctx.prgram_size as usize];
        assert(prgram@ =~= Seq::new(ctx.prgram_size as nat, |i: int| 0u8));
        Self {
            prgram,
            prgrom: ctx.prgrom,
            chrrom: ctx.chrrom,
        }
    }
}

impl MapperLogic for Nrom {
    open spec fn cpu_access_ok(&self, addr: u16) -> bool {
        &&& addr >= 0x4020
        &&& 0x6000 <= addr < 0x8000 ==> addr - 0x6000 < self.prgram().len()
        &&& 0x8000 <= addr < 0xC000 ==> addr - 0x8000 < self.prgrom().len()
        &&& 0xC000 <= addr ==> addr - 0xC000 < self.prgrom().len()
    }

    /// Writes land in PRG-RAM or are ignored; the RAM must reach.
    open spec fn cpu_write_ok(&self, addr: u16) -> bool {
        &&& addr >= 0x4020
        &&& 0x6000 <= addr < 0x8000 ==> addr - 0x6000 < self.prgram().len()
    }

    fn irq_active(&self) -> (r: bool)
        ensures
            !r,
    {
        false
    }

    fn cpu_step(&mut self)
        ensures
            *final(self) == *old(self),
    {
    }

    fn cpu_read(&mut self, addr: u16) -> (r: u8)
        ensures
            r == old(self).read_spec(addr),
            *final(self) == *old(self),
    {
        if addr < 0x6000 {
            0x00
        } else if addr < 0x8000 {
            self.prgram[(addr - 0x6000) as usize]
        } else if addr < 0xC000 {
            self.prgrom[(addr - 0x8000) as usize]
        } else {
            self.prgrom[(addr - 0xC000) as usize]
        }
    }

    fn cpu_write(&mut self, addr: u16, data: u8)
        ensures
            final(self).written(*old(self), addr, data),
    {
        if 0x6000 <= addr && addr < 0x8000 {
            self.prgram.set((addr - 0x6000) as usize, data);
        }
    }

    fn ppu_read(&mut self, _addr: u16) -> (r: PpuReadHook)
        ensures
            r == PpuReadHook::ExternalVram(0),
            *final(self) == *old(self),
    {
        PpuReadHook::ExternalVram(0x00)
    }

    fn ppu_write(&mut self, _addr: u16, _data: u8) -> (r: PpuWriteHook)
        ensures
            r == PpuWriteHook::ExternalVram,
            *final(self) == *old(self),
    {
        PpuWriteHook::ExternalVram
    }
}

/// A CPU read of PRG-RAM gives back what the last write there stored.
pub proof fn lemma_prgram_read_after_write(before: Nrom, after: Nrom, addr: u16, data: u8)
    requires
        after.written(before, addr, data),
        0x6000 <= addr < 0x8000,
        addr - 0x6000 < before.prgram().len(),
    ensures
        after.read_spec(addr) == data,
{
}

} // verus!
