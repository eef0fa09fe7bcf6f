use rustnes_core::nes::cpu::opcode::{decode, Addressing, Mnemonic, Read, Unique};
use rustnes_core::bits::{high_byte, low_byte, make_word};
use rustnes_core::nes::cpu::registers::{Register, Status, FLAG_C, FLAG_I, FLAG_N, FLAG_V, FLAG_Z};
use rustnes_core::nes::cpu::{Bus, Cpu};

/// 64 KiB of flat memory, with interrupt lines the test drives by hand.
struct FlatBus {
    mem: Vec<u8>,
    nmi: bool,
    irq: bool,
    writes: Vec<(u16, u8)>,
}

impl FlatBus {
    fn new() -> Self {
        Self { mem: vec![0; 0x10000], nmi: false, irq: false, writes: Vec::new() }
    }

    /// Memory with `program` at 0x8000 and the reset vector pointing there.
    fn with_program(program: &[u8]) -> Self {
        let mut bus = Self::new();
        bus.load(0x8000, program);
        bus.mem[0xFFFC] = 0x00;
        bus.mem[0xFFFD] = 0x80;
        bus
    }

    fn load(&mut self, addr: u16, bytes: &[u8]) {
        let start = addr as usize;
        self.mem[start..start + bytes.len()].copy_from_slice(bytes);
    }
}

impl Bus for FlatBus {
    type Origin = ();

    fn nmi_active(&self) -> bool {
        self.nmi
    }

    fn irq_active(&self) -> bool {
        self.irq
    }

    fn read(&mut self, addr: u16) -> u8 {
        self.mem[addr as usize]
    }

    fn write(&mut self, addr: u16, data: u8) {
        self.writes.push((addr, data));
        self.mem[addr as usize] = data;
    }
}

fn booted(program: &[u8]) -> (Cpu, FlatBus) {
    let mut bus = FlatBus::with_program(program);
    let mut cpu = Cpu::new();
    cpu.reset(&mut bus);
    (cpu, bus)
}

#[test]
fn new_cpu_has_power_up_registers() {
    let cpu = Cpu::new();
    assert_eq!(cpu.reg.a, 0);
    assert_eq!(cpu.reg.x, 0);
    assert_eq!(cpu.reg.y, 0);
    assert_eq!(cpu.reg.sp, 0);
    assert_eq!(cpu.reg.p.bits(), 0x04);
    assert_eq!(cpu.total_cycle, 0);
    assert!(!cpu.is_jammed);
}

#[test]
fn reset_jumps_through_reset_vector() {
    let mut bus = FlatBus::new();
    bus.mem[0xFFFC] = 0x34;
    bus.mem[0xFFFD] = 0x12;
    let mut cpu = Cpu::new();
    cpu.reset(&mut bus);
    assert_eq!(cpu.reg.pc, 0x1234);
    assert_eq!(cpu.reg.sp, 0xFD);
    assert!(cpu.reg.p.contains(FLAG_I));
    assert_eq!(cpu.total_cycle, 7);
    assert!(bus.writes.is_empty());
}

#[test]
fn lda_immediate_sets_a_and_flags() {
    let (mut cpu, mut bus) = booted(&[0xA9, 0x00, 0xA9, 0x80]);
    cpu.step(&mut bus);
    assert_eq!(cpu.reg.a, 0x00);
    assert!(cpu.reg.p.contains(FLAG_Z));
    assert!(!cpu.reg.p.contains(FLAG_N));
    assert_eq!(cpu.reg.pc, 0x8002);
    assert_eq!(cpu.total_cycle, 9);
    cpu.step(&mut bus);
    assert_eq!(cpu.reg.a, 0x80);
    assert!(!cpu.reg.p.contains(FLAG_Z));
    assert!(cpu.reg.p.contains(FLAG_N));
}

#[test]
fn adc_sets_overflow_and_carry() {
    // LDA #$7F; CLC; ADC #$01
    let (mut cpu, mut bus) = booted(&[0xA9, 0x7F, 0x18, 0x69, 0x01]);
    for _ in 0..3 {
        cpu.step(&mut bus);
    }
    assert_eq!(cpu.reg.a, 0x80);
    assert!(cpu.reg.p.contains(FLAG_V));
    assert!(cpu.reg.p.contains(FLAG_N));
    assert!(!cpu.reg.p.contains(FLAG_C));

    // LDA #$FF; SEC; ADC #$01  => 0xFF + 1 + 1 = 0x101
    let (mut cpu, mut bus) = booted(&[0xA9, 0xFF, 0x38, 0x69, 0x01]);
    for _ in 0..3 {
        cpu.step(&mut bus);
    }
    assert_eq!(cpu.reg.a, 0x01);
    assert!(cpu.reg.p.contains(FLAG_C));
    assert!(!cpu.reg.p.contains(FLAG_V));
    assert!(!cpu.reg.p.contains(FLAG_Z));
}

#[test]
fn sbc_borrows_and_overflows() {
    // LDA #$80; SEC; SBC #$01 => 0x7F, signed overflow, no borrow
    let (mut cpu, mut bus) = booted(&[0xA9, 0x80, 0x38, 0xE9, 0x01]);
    for _ in 0..3 {
        cpu.step(&mut bus);
    }
    assert_eq!(cpu.reg.a, 0x7F);
    assert!(cpu.reg.p.contains(FLAG_V));
    assert!(cpu.reg.p.contains(FLAG_C));

    // LDA #$00; SEC; SBC #$01 => 0xFF with a borrow
    let (mut cpu, mut bus) = booted(&[0xA9, 0x00, 0x38, 0xE9, 0x01]);
    for _ in 0..3 {
        cpu.step(&mut bus);
    }
    assert_eq!(cpu.reg.a, 0xFF);
    assert!(!cpu.reg.p.contains(FLAG_C));
    assert!(cpu.reg.p.contains(FLAG_N));
}

#[test]
fn sta_absolute_writes_memory() {
    // LDA #$55; STA $0200; LDX $0200
    let (mut cpu, mut bus) = booted(&[0xA9, 0x55, 0x8D, 0x00, 0x02, 0xAE, 0x00, 0x02]);
    for _ in 0..3 {
        cpu.step(&mut bus);
    }
    assert_eq!(bus.mem[0x0200], 0x55);
    assert_eq!(cpu.reg.x, 0x55);
    assert_eq!(cpu.reg.pc, 0x8008);
}

#[test]
fn jsr_and_rts_round_trip() {
    // 8000: JSR $9000; 8003: LDX #$05
    // 9000: LDY #$07; RTS
    let (mut cpu, mut bus) = booted(&[0x20, 0x00, 0x90, 0xA2, 0x05]);
    bus.load(0x9000, &[0xA0, 0x07, 0x60]);
    cpu.step(&mut bus);
    assert_eq!(cpu.reg.pc, 0x9000);
    assert_eq!(cpu.reg.sp, 0xFB);
    // the return address minus one, high byte first
    assert_eq!(bus.mem[0x01FD], 0x80);
    assert_eq!(bus.mem[0x01FC], 0x02);
    cpu.step(&mut bus);
    assert_eq!(cpu.reg.y, 0x07);
    cpu.step(&mut bus);
    assert_eq!(cpu.reg.pc, 0x8003);
    assert_eq!(cpu.reg.sp, 0xFD);
    cpu.step(&mut bus);
    assert_eq!(cpu.reg.x, 0x05);
}

#[test]
fn pha_pla_round_trip() {
    // LDA #$3C; PHA; LDA #$00; PLA
    let (mut cpu, mut bus) = booted(&[0xA9, 0x3C, 0x48, 0xA9, 0x00, 0x68]);
    for _ in 0..4 {
        cpu.step(&mut bus);
    }
    assert_eq!(cpu.reg.a, 0x3C);
    assert_eq!(cpu.reg.sp, 0xFD);
    assert!(!cpu.reg.p.contains(FLAG_Z));
}

#[test]
fn branch_taken_and_not_taken() {
    // LDX #$00; BEQ +2; LDA #$01; LDA #$02
    let (mut cpu, mut bus) = booted(&[0xA2, 0x00, 0xF0, 0x02, 0xA9, 0x01, 0xA9, 0x02]);
    cpu.step(&mut bus);
    cpu.step(&mut bus);
    assert_eq!(cpu.reg.pc, 0x8006);
    cpu.step(&mut bus);
    assert_eq!(cpu.reg.a, 0x02);

    // LDX #$01; BEQ +2 (not taken); LDA #$01
    let (mut cpu, mut bus) = booted(&[0xA2, 0x01, 0xF0, 0x02, 0xA9, 0x01]);
    cpu.step(&mut bus);
    cpu.step(&mut bus);
    assert_eq!(cpu.reg.pc, 0x8004);
    cpu.step(&mut bus);
    assert_eq!(cpu.reg.a, 0x01);
}

#[test]
fn branch_backwards() {
    // LDX #$03; loop: DEX; BNE loop
    let (mut cpu, mut bus) = booted(&[0xA2, 0x03, 0xCA, 0xD0, 0xFD]);
    cpu.step(&mut bus);
    for _ in 0..6 {
        cpu.step(&mut bus);
    }
    assert_eq!(cpu.reg.x, 0);
    assert_eq!(cpu.reg.pc, 0x8005);
}

#[test]
fn jam_stops_the_cpu() {
    let (mut cpu, mut bus) = booted(&[0x02]);
    cpu.step(&mut bus);
    assert!(cpu.is_jammed);
}

#[test]
fn nmi_enters_handler() {
    let (mut cpu, mut bus) = booted(&[0xEA]);
    bus.mem[0xFFFA] = 0x00;
    bus.mem[0xFFFB] = 0xA0;
    bus.load(0xA000, &[0xA9, 0x11, 0xEA]);
    bus.nmi = true;
    cpu.step(&mut bus);
    assert_eq!(cpu.reg.a, 0x11);
    assert_eq!(cpu.reg.pc, 0xA002);
    assert_eq!(cpu.reg.sp, 0xFA);
    assert_eq!(bus.mem[0x01FD], 0x80);
    assert_eq!(bus.mem[0x01FC], 0x00);
    // the edge was seen: a held line does not interrupt again
    cpu.step(&mut bus);
    assert_eq!(cpu.reg.sp, 0xFA);
}

#[test]
fn irq_waits_for_cli() {
    // CLI; NOP
    let (mut cpu, mut bus) = booted(&[0x58, 0xEA]);
    bus.mem[0xFFFE] = 0x00;
    bus.mem[0xFFFF] = 0xB0;
    bus.load(0xB000, &[0xA0, 0x22]);
    bus.irq = true;
    // I is set after reset: the CLI runs first
    cpu.step(&mut bus);
    assert!(!cpu.reg.p.contains(FLAG_I));
    assert_eq!(cpu.reg.pc, 0x8001);
    cpu.step(&mut bus);
    assert_eq!(cpu.reg.y, 0x22);
    assert!(cpu.reg.p.contains(FLAG_I));
}

#[test]
fn oam_dma_copies_a_page() {
    // LDA #$02; STA $4014
    let (mut cpu, mut bus) = booted(&[0xA9, 0x02, 0x8D, 0x14, 0x40]);
    for i in 0..256usize {
        bus.mem[0x0200 + i] = i as u8;
    }
    cpu.step(&mut bus);
    let before = cpu.total_cycle;
    cpu.step(&mut bus);
    // the transfer starts at the next read, the following opcode fetch
    assert!(bus.writes.iter().all(|w| w.0 != 0x2004));
    cpu.step(&mut bus);
    let to_oamdata: Vec<u8> = bus.writes.iter().filter(|w| w.0 == 0x2004).map(|w| w.1).collect();
    assert_eq!(to_oamdata.len(), 256);
    assert_eq!(to_oamdata[0], 0);
    assert_eq!(to_oamdata[255], 255);
    assert!(cpu.total_cycle - before >= 4 + 512);
}

#[test]
fn decode_table_entries() {
    assert_eq!(decode(0xA9), (Mnemonic::Read(Read::LDA), Addressing::Immediate));
    assert_eq!(decode(0x02), (Mnemonic::Unique(Unique::JAM), Addressing::Implied));
    assert_eq!(decode(0x20), (Mnemonic::Unique(Unique::JSR), Addressing::Absolute));
}

#[test]
fn status_from_byte_drops_stack_bits() {
    let s = Status::from(0xFF);
    assert_eq!(s.bits(), 0xCF);
    assert_eq!(s.as_byte(true), 0xFF);
    assert_eq!(s.as_byte(false), 0xEF);
}

#[test]
fn sbc_equals_adc_of_complement() {
    for &(a, m, c) in &[(0x50u8, 0xF0u8, true), (0x00, 0x01, false), (0x80, 0x7F, true), (0x33, 0x33, false)] {
        let mut p = Status::from(0);
        p.set(FLAG_C, c);
        let base = Register { a, x: 0, y: 0, p, sp: 0xFD, pc: 0 };
        let mut s = base;
        s.sbc(m);
        let mut t = base;
        t.adc(!m);
        assert_eq!(s.a, t.a);
        assert_eq!(s.p.bits(), t.p.bits());
    }
    // 0x50 - 0xF0 with carry set: 0x60, a borrow, signed overflow
    let mut r = Register { a: 0x50, x: 0, y: 0, p: Status::from(FLAG_C), sp: 0, pc: 0 };
    r.sbc(0xF0);
    assert_eq!(r.a, 0x60);
    assert!(!r.p.contains(FLAG_C));
    assert!(!r.p.contains(FLAG_V));
}

#[test]
fn status_survives_the_stack() {
    for bits in [0x00u8, 0xC3, 0x4D, 0xCF] {
        let s = Status::from(bits);
        assert_eq!(Status::from(s.as_byte(true)).bits(), s.bits());
        assert_eq!(Status::from(s.as_byte(false)).bits(), s.bits());
    }
}

#[test]
fn words_split_into_bytes() {
    assert_eq!(make_word(0x34, 0x12), 0x1234);
    assert_eq!(low_byte(0xBEEF), 0xEF);
    assert_eq!(high_byte(0xBEEF), 0xBE);
    for w in [0u16, 1, 0xFF, 0x100, 0xABCD, 0xFFFF] {
        assert_eq!(make_word(low_byte(w), high_byte(w)), w);
    }
}
