//! The board's console: the 6502 core wired to the board's bus.

use vstd::prelude::*;
use crate::board::bus::{NesBus, VRAM_SIZE, WRAM_SIZE, cart_read_spec};
use crate::board::mapper::{Mapper, MapperLogic};
use crate::board::ppu::Ppu;
use crate::nes::cpu;
use crate::nes::cpu::{Access, Cpu, OamDmaStat, CYCLE_CEILING, DEFAULT_A, DEFAULT_X, DEFAULT_Y, DEFAULT_P, DEFAULT_SP, DEFAULT_PC};
use crate::nes::cpu::registers::{Register, Status};
use crate::nes::cpu::trace::{extends, reset_run};

verus! {

/// The board's bus as the CPU sees it, with the record of its accesses.
pub struct BoardBus {
    pub board: NesBus,
    /// The CPU's accesses so far.
    pub accesses: Ghost<Seq<Access>>,
}

/// The cartridge `m` takes every CPU access of its range (`0x4020..`).
pub open spec fn serves_cpu(m: Mapper) -> bool {
    forall|a: u16| a >= 0x4020 ==> #[trigger] m.cpu_access_ok(a)
}

/// The memories on the board's cartridge.
pub open spec fn board_memories(m: Mapper) -> Seq<Seq<u8>> {
    match m {
        Mapper::Nrom(n) => seq![n.prgrom(), n.prgram(), n.chrrom()],
    }
}

impl BoardBus {
    /// A CPU read: one CPU cycle passes for the PPU and the cartridge, then
    /// the device at `addr` drives the bus. Work RAM and the cartridge drive
    /// it; the board's PPU has no readable registers yet and the APU and
    /// I/O range none at all, so there the last value stays.
    fn read_byte(&mut self, addr: u16) -> (r: u8)
        requires
            serves_cpu(old(self).board.nesrom),
        ensures
            addr < 0x2000 ==> r == old(self).board.wram@[(addr % 0x800) as int],
            0x2000 <= addr < 0x4020 ==> r == old(self).board.cpu_openbus,
            addr >= 0x4020 ==> r == cart_read_spec(old(self).board.nesrom, addr),
            *final(self) == (BoardBus { board: NesBus { cpu_openbus: r, ..old(self).board }, ..*old(self) }),
    {
        self.board.sync_with_cpu();
        let r: u8 = if addr < 0x2000 {
            self.board.wram[(addr % 0x800) as usize]
        } else if addr < 0x4020 {
            self.board.cpu_openbus
        } else {
            assert(self.board.nesrom.cpu_access_ok(addr));
            self.board.nesrom.cpu_read(addr)
        };
        self.board.cpu_openbus = r;
        r
    }
}

impl cpu::Bus for BoardBus {
    type Origin = ();

    open spec fn ready(&self) -> bool {
        serves_cpu(self.board.nesrom)
    }

    open spec fn trace(&self) -> Seq<Access> {
        self.accesses@
    }

    open spec fn memories(&self) -> Seq<Seq<u8>> {
        board_memories(self.board.nesrom)
    }

    /// The board raises no interrupts yet.
    fn nmi_active(&self) -> (r: bool) {
        false
    }

    fn irq_active(&self) -> (r: bool) {
        false
    }

    fn read(&mut self, addr: u16) -> (r: u8)
        ensures
            addr < 0x2000 ==> r == old(self).board.wram@[(addr % 0x800) as int],
            0x2000 <= addr < 0x4020 ==> r == old(self).board.cpu_openbus,
            addr >= 0x4020 ==> r == cart_read_spec(old(self).board.nesrom, addr),
            final(self).board == (NesBus { cpu_openbus: r, ..old(self).board }),
    {
        let r: u8 = self.read_byte(addr);
        self.accesses = Ghost(self.accesses@.push(Access::Read(addr, r)));
        r
    }

    /// A CPU write: one CPU cycle passes, then the byte stays on the bus
    /// and the device at `addr` takes it.
    fn write(&mut self, addr: u16, data: u8)
        ensures
            final(self).board.cpu_openbus == data,
            addr < 0x2000 ==> final(self).board.wram@ == old(self).board.wram@.update((addr % 0x800) as int, data),
            addr >= 0x2000 ==> final(self).board.wram == old(self).board.wram,
            addr >= 0x4020 ==> match (old(self).board.nesrom, final(self).board.nesrom) {
                (Mapper::Nrom(m0), Mapper::Nrom(m1)) => m1.written(m0, addr, data),
            },
            addr < 0x4020 ==> final(self).board.nesrom == old(self).board.nesrom,
    {
        self.board.sync_with_cpu();
        self.board.cpu_openbus = data;
        if addr < 0x2000 {
            self.board.wram[(addr % 0x800) as usize] = data;
        } else if addr < 0x4000 {
            self.board.ppu.write_register((addr % 8) as u8, data);
        } else if addr < 0x4020 {
        } else {
            let ghost m0 = self.board.nesrom;
            assert(self.board.nesrom.cpu_access_ok(addr));
            assert(self.board.nesrom.cpu_write_ok(addr));
            self.board.nesrom.cpu_write(addr, data);
            proof {
                let m1 = self.board.nesrom;
                assert forall|a: u16| a >= 0x4020 implies #[trigger] m1.cpu_access_ok(a) by {
                    assert(m0.cpu_access_ok(a));
                }
            }
        }
        self.accesses = Ghost(self.accesses@.push(Access::Write(addr, data)));
    }
}

/// The CPU's registers at power-up, before the reset sequence loads PC.
pub open spec fn power_up_registers() -> Register {
    Register { a: DEFAULT_A, x: DEFAULT_X, y: DEFAULT_Y, p: Status { bits: DEFAULT_P & 0xCF }, sp: DEFAULT_SP, pc: DEFAULT_PC }
}

/// The board's console.
pub struct Nes {
    pub cpu: Cpu,
    pub bus: BoardBus,
}

impl Nes {
    /// The console can run: the cartridge takes every access of its range.
    pub open spec fn wf(&self) -> bool {
        serves_cpu(self.bus.board.nesrom)
    }

    /// A console with cartridge `nesrom` and cleared memories, after its
    /// reset sequence.
    pub fn new(nesrom: Mapper) -> (r: Self)
        requires
            serves_cpu(nesrom),
        ensures
            r.wf(),
            board_memories(r.bus.board.nesrom) == board_memories(nesrom),
            !r.cpu@.is_jammed,
            reset_run(power_up_registers(), OamDmaStat::Disabled, false, r.bus.accesses@, 0)
                == Some((r.cpu@.reg, r.bus.accesses@.len() as int)),
    {
        let mut nes = Self {
            cpu: Cpu::new(),
            bus: BoardBus {
                board: NesBus {
                    nesrom,
                    cpu_openbus: 0x00,
                    wram: [0x00; WRAM_SIZE],
                    ppu_openbus: 0x00,
                    ppu: Ppu {},
                    vram: [0x00; VRAM_SIZE],
                },
                accesses: Ghost(Seq::empty()),
            },
        };
        nes.reset();
        nes
    }

    /// Inserts a cartridge.
    pub fn load(&mut self, nesrom: Mapper)
        requires
            serves_cpu(nesrom),
        ensures
            final(self).wf(),
            *final(self) == (Nes { bus: BoardBus { board: NesBus { nesrom, ..old(self).bus.board }, ..old(self).bus }, ..*old(self) }),
    {
        self.bus.board.nesrom = nesrom;
    }

    /// Runs the CPU's reset sequence on the board.
    pub fn reset(&mut self)
        requires
            old(self).wf(),
            old(self).cpu@.total_cycle <= CYCLE_CEILING,
        ensures
            final(self).wf(),
            !final(self).cpu@.is_jammed,
            extends(old(self).bus.accesses@, final(self).bus.accesses@),
            reset_run(old(self).cpu@.reg, old(self).cpu@.oamdma, old(self).cpu@.put_cycle, final(self).bus.accesses@,
                old(self).bus.accesses@.len() as int) == Some((final(self).cpu@.reg, final(self).bus.accesses@.len() as int)),
            board_memories(final(self).bus.board.nesrom) == board_memories(old(self).bus.board.nesrom),
    {
        self.cpu.reset(&mut self.bus);
    }

    /// Runs one instruction on the board (which raises no interrupts).
    pub fn step(&mut self)
        requires
            old(self).wf(),
            old(self).cpu@.total_cycle <= CYCLE_CEILING,
        ensures
            final(self).wf(),
            extends(old(self).bus.accesses@, final(self).bus.accesses@),
            cpu::stepped(old(self).cpu, final(self).cpu, false, false, old(self).bus.accesses@, final(self).bus.accesses@),
    {
        self.cpu.step(&mut self.bus);
    }
}

} // verus!
