//! Instruction execution: the bus sequence of each kind of instruction and
//! of each addressing mode. A decoded instruction is a pair of its
//! operation (`Mnemonic`, grouped by how it uses the bus) and its
//! addressing mode (`Addressing`); each group has one executor here.

use vstd::prelude::*;
use crate::bits::{word_of, make_word, low_byte, high_byte, hi_of};
use super::{Bus, Cpu, Access, ZERO_PAGE, BRK_VECTOR, NMI_VECTOR, ACCESS_CYCLES, dec8, inc8, inc16, interrupted, follows};
use super::trace::{
    extends, is_read_at, data_of, stack, operand_run, exec_run, unique_run, branch_run, read_run, modify_run, modify_target,
    write_run, unstable_run, unstable_value, push_and_vector, dma_after,
};
use super::registers::{Register, Status, status_of, FLAG_C, FLAG_Z, FLAG_I, FLAG_D, FLAG_V, FLAG_N};
use super::operation::{
    nz, with_a, with_x, with_y, adc_spec, sbc_spec, compare_spec, shifted_spec, asl_value, lsr_value,
    rol_value, ror_value, LXA_CONST, ANE_CONST, carry_in, add_overflows,
};
use super::opcode::{Addressing, Mnemonic, Unique, Short, Branch, Read, Modify, Write, UnstableWrite, executable, has_operand};

verus! {

broadcast use super::trace::lemma_dma_after_push, super::trace::lemma_dma_after_none, super::trace::lemma_dma_after_trans;

/// Where an instruction's operand is.
#[derive(Debug, Copy, Clone, PartialEq, Eq)]
pub enum Operand {
    Accumulator,
    Immediate(u8),
    /// An address computed without a page to fix.
    FixedPage(u16),
    /// An indexed address whose index did not leave the base page.
    SamePage(u16),
    /// An indexed address within the base page whose true address is one
    /// page further on.
    DiffPage(u16),
}

/// The operand bytes an addressing mode takes after the opcode.
pub open spec fn operand_len(a: Addressing) -> int {
    match a {
        Addressing::Immediate | Addressing::ZeroPage | Addressing::ZeroPageX | Addressing::ZeroPageY
        | Addressing::XIdxedInd | Addressing::IndYIdxed => 1,
        Addressing::Absolute | Addressing::AbsoluteX | Addressing::AbsoluteY => 2,
        _ => 0,
    }
}

/// The signed value of a branch offset.
pub open spec fn sext(b: u8) -> int {
    if b >= 128 { b - 256 } else { b as int }
}

/// Where a taken branch goes: `pc + offset`, wrapping at 16 bits.
pub open spec fn branch_target(pc: u16, offset: u8) -> u16 {
    ((pc + sext(offset)) % 65536) as u16
}

/// Whether a branch is taken.
pub open spec fn branch_taken(op: Branch, r: Register) -> bool {
    match op {
        Branch::BCS => r.p.has(FLAG_C),
        Branch::BCC => !r.p.has(FLAG_C),
        Branch::BEQ => r.p.has(FLAG_Z),
        Branch::BNE => !r.p.has(FLAG_Z),
        Branch::BVS => r.p.has(FLAG_V),
        Branch::BVC => !r.p.has(FLAG_V),
        Branch::BMI => r.p.has(FLAG_N),
        Branch::BPL => !r.p.has(FLAG_N),
    }
}

/// What a one-byte register instruction does.
pub open spec fn short_spec(op: Short, r: Register) -> Register {
    match op {
        Short::INX => with_x(r, inc8(r.x, 1)),
        Short::INY => with_y(r, inc8(r.y, 1)),
        Short::DEX => with_x(r, dec8(r.x, 1)),
        Short::DEY => with_y(r, dec8(r.y, 1)),
        Short::CLC => Register { p: r.p.with(FLAG_C, false), ..r },
        Short::CLD => Register { p: r.p.with(FLAG_D, false), ..r },
        Short::CLI => Register { p: r.p.with(FLAG_I, false), ..r },
        Short::CLV => Register { p: r.p.with(FLAG_V, false), ..r },
        Short::SEC => Register { p: r.p.with(FLAG_C, true), ..r },
        Short::SED => Register { p: r.p.with(FLAG_D, true), ..r },
        Short::SEI => Register { p: r.p.with(FLAG_I, true), ..r },
        Short::TAX => with_x(r, r.a),
        Short::TAY => with_y(r, r.a),
        Short::TXA => with_a(r, r.x),
        Short::TYA => with_a(r, r.y),
        Short::TSX => with_x(r, r.sp),
        Short::TXS => Register { sp: r.x, ..r },
    }
}

/// What a reading instruction does with its operand `m`.
pub open spec fn read_spec(op: Read, r: Register, m: u8) -> Register {
    match op {
        Read::NOP => r,
        Read::ADC => adc_spec(r, m),
        Read::SBC => sbc_spec(r, m),
        Read::AND => with_a(r, r.a & m),
        Read::ORA => with_a(r, r.a | m),
        Read::EOR => with_a(r, r.a ^ m),
        Read::BIT => Register {
            p: r.p.with(FLAG_N, m >= 0x80).with(FLAG_V, (m / 64) % 2 == 1).with(FLAG_Z, r.a & m == 0),
            ..r
        },
        Read::CMP => compare_spec(r, r.a, m),
        Read::CPX => compare_spec(r, r.x, m),
        Read::CPY => compare_spec(r, r.y, m),
        Read::LDA => with_a(r, m),
        Read::LDX => with_x(r, m),
        Read::LDY => with_y(r, m),
        Read::LAX => with_x(with_a(r, m), m),
        Read::LXA => with_x(with_a(r, m & (r.a | LXA_CONST)), m & (r.a | LXA_CONST)),
        Read::LAS => with_x(with_a(Register { sp: r.sp & m, ..r }, r.sp & m), r.sp & m),
        Read::ALR => {
            let r1 = with_a(r, r.a & m);
            let (r2, v) = shifted_spec(r1, lsr_value(r1.a));
            Register { a: v, ..r2 }
        },
        Read::ARR => {
            let r1 = with_a(r, r.a & m);
            let (r2, v) = shifted_spec(r1, ror_value(r1.a, r1.p.has(FLAG_C)));
            let spec_bit = (v ^ ((v as int * 2) % 256) as u8) & 0x40;
            Register { a: v, p: r2.p.with(FLAG_C, (v / 64) % 2 == 1).with(FLAG_V, spec_bit != 0), ..r2 }
        },
        Read::ANC => {
            let r1 = with_a(r, r.a & m);
            Register { p: r1.p.with(FLAG_C, r1.a >= 0x80), ..r1 }
        },
        Read::AXS => with_x(
            Register { p: r.p.with(FLAG_C, r.a & r.x >= m), ..r },
            (((r.a & r.x) - m) % 256) as u8,
        ),
        Read::ANE => with_a(r, (r.a | ANE_CONST) & r.x & m),
    }
}

/// What a read-modify-write instruction does to its operand `m`: the new
/// registers and the value written back.
#[verifier::opaque]
pub open spec fn modify_spec(op: Modify, r: Register, m: u8) -> (Register, u8) {
    match op {
        Modify::ASL => shifted_spec(r, asl_value(m)),
        Modify::LSR => shifted_spec(r, lsr_value(m)),
        Modify::ROL => shifted_spec(r, rol_value(m, r.p.has(FLAG_C))),
        Modify::ROR => shifted_spec(r, ror_value(m, r.p.has(FLAG_C))),
        Modify::INC => (Register { p: nz(r.p, inc8(m, 1)), ..r }, inc8(m, 1)),
        Modify::DEC => (Register { p: nz(r.p, dec8(m, 1)), ..r }, dec8(m, 1)),
        Modify::DCP => (compare_spec(Register { p: nz(r.p, dec8(m, 1)), ..r }, r.a, dec8(m, 1)), dec8(m, 1)),
        Modify::ISB => (sbc_spec(Register { p: nz(r.p, inc8(m, 1)), ..r }, inc8(m, 1)), inc8(m, 1)),
        Modify::RRA => {
            let (r2, v) = shifted_spec(r, ror_value(m, r.p.has(FLAG_C)));
            (adc_spec(r2, v), v)
        },
        Modify::RLA => {
            let (r2, v) = shifted_spec(r, rol_value(m, r.p.has(FLAG_C)));
            (with_a(r2, r2.a & v), v)
        },
        Modify::SLO => {
            let (r2, v) = shifted_spec(r, asl_value(m));
            (with_a(r2, r2.a | v), v)
        },
        Modify::SRE => {
            let (r2, v) = shifted_spec(r, lsr_value(m));
            (with_a(r2, r2.a ^ v), v)
        },
    }
}

/// The value a store instruction writes.
pub open spec fn write_value(op: Write, r: Register) -> u8 {
    match op {
        Write::STA => r.a,
        Write::STX => r.x,
        Write::STY => r.y,
        Write::SAX => r.a & r.x,
    }
}

/// The registers after RTI pulled the status `pv` and the return address
/// `lo`, `hi`.
pub open spec fn rti_regs(r: Register, pv: u8, lo: u8, hi: u8) -> Register {
    Register { p: status_of(pv), sp: inc8(r.sp, 3), pc: word_of(lo, hi), ..r }
}

/// The registers after PLA pulled `v`.
pub open spec fn pla_regs(r: Register, v: u8) -> Register {
    with_a(Register { sp: inc8(r.sp, 1), ..r }, v)
}

/// The registers after a read-modify-write instruction on `m`: the result
/// goes to A in accumulator mode.
pub open spec fn modified(op: Modify, a: Addressing, r: Register, m: u8) -> Register {
    let (r3, res) = modify_spec(op, r, m);
    if a is Accumulator { Register { a: res, ..r3 } } else { r3 }
}

impl Cpu {
    /// Executes an instruction whose opcode was just fetched.
    pub(super) fn exec_opcode(&mut self, bus: &mut impl Bus, opcode: (Mnemonic, Addressing))
        requires
            old(bus).ready(),
            executable(opcode.0, opcode.1),
            !(old(self).oamdma is Pending),
            old(self).total_cycle <= u128::MAX - 7 * ACCESS_CYCLES,
        ensures
            final(bus).ready(),
            final(bus).origin() == old(bus).origin(),
            exec_run(old(self).reg, opcode.0, opcode.1, final(bus).trace(), old(bus).trace().len() as int)
                == Some((final(self).reg, final(bus).trace().len() as int)),
            extends(old(bus).trace(), final(bus).trace()),
            final(self).total_cycle == old(self).total_cycle + (final(bus).trace().len() - old(bus).trace().len()),
            final(self).is_put_cyc == (old(self).is_put_cyc != ((final(bus).trace().len() - old(bus).trace().len()) % 2 == 1)),
            final(self).is_jammed == (old(self).is_jammed || opcode.0 == Mnemonic::Unique(Unique::JAM)),
            final(self).prev_nmi == old(self).prev_nmi,
            final(self).oamdma == old(self).oamdma || (final(self).oamdma is Pending && old(self).oamdma is Disabled),
            final(self).oamdma == dma_after(old(self).oamdma, old(bus).trace(), final(bus).trace()),
            old(self).total_cycle < final(self).total_cycle <= old(self).total_cycle + 7 * ACCESS_CYCLES,
    {
        reveal(exec_run);
        let (mnemonic, addressing) = opcode;
        let ghost r0 = self.reg;
        let ghost t0 = bus.trace();
        let ghost n = t0.len() as int;

        match mnemonic {
            Mnemonic::Unique(op) => match op {
                Unique::JAM => self.jam_undefined(bus),
                Unique::BRK => self.brk_implied(bus),
                Unique::RTI => self.rti_implied(bus),
                Unique::RTS => self.rts_implied(bus),
                Unique::PHA => self.pha_implied(bus),
                Unique::PHP => self.php_implied(bus),
                Unique::PLA => self.pla_implied(bus),
                Unique::PLP => self.plp_implied(bus),
                Unique::JSR => self.jsr_absolute(bus),
                Unique::JMP => {
                    if let Addressing::Absolute = addressing {
                        self.jmp_absolute(bus)
                    } else {
                        self.jmp_indirect(bus)
                    }
                },
            },

            Mnemonic::Short(op) => {
                self.read_at_pc(bus);

                match op {
                    Short::INX => self.reg.inx(),
                    Short::INY => self.reg.iny(),
                    Short::DEX => self.reg.dex(),
                    Short::DEY => self.reg.dey(),
                    Short::CLC => self.reg.clc(),
                    Short::CLD => self.reg.cld(),
                    Short::CLI => self.reg.cli(),
                    Short::CLV => self.reg.clv(),
                    Short::SEC => self.reg.sec(),
                    Short::SED => self.reg.sed(),
                    Short::SEI => self.reg.sei(),
                    Short::TAX => self.reg.tax(),
                    Short::TAY => self.reg.tay(),
                    Short::TXA => self.reg.txa(),
                    Short::TYA => self.reg.tya(),
                    Short::TSX => self.reg.tsx(),
                    Short::TXS => self.reg.txs(),
                }
            },

            Mnemonic::Branch(op) => self.exec_branch(bus, op),

            Mnemonic::Read(op) => self.exec_read(bus, op, addressing),
            Mnemonic::Modify(op) => self.exec_modify(bus, op, addressing),
            Mnemonic::Write(op) => self.exec_write(bus, op, addressing),
            Mnemonic::UnstableWrite(op) => self.exec_unstable_write(bus, op, addressing),
        }
    }

    /// A reading instruction: its operand, then the operation.
    #[verifier::rlimit(40)]
    fn exec_read(&mut self, bus: &mut impl Bus, op: Read, addressing: Addressing)
        requires
            old(bus).ready(),
            !(old(self).oamdma is Pending),
            old(self).total_cycle <= u128::MAX - 7 * ACCESS_CYCLES,
            has_operand(addressing),
        ensures
            final(bus).ready(),
            final(bus).origin() == old(bus).origin(),
            exec_run(old(self).reg, Mnemonic::Read(op), addressing, final(bus).trace(), old(bus).trace().len() as int)
                == Some((final(self).reg, final(bus).trace().len() as int)),
            follows(*old(self), *final(self), old(bus).trace(), final(bus).trace()),
            final(self).oamdma == old(self).oamdma,
            final(self).oamdma == dma_after(old(self).oamdma, old(bus).trace(), final(bus).trace()),
            old(self).total_cycle < final(self).total_cycle <= old(self).total_cycle + 7 * ACCESS_CYCLES,
    {
        let ghost r0 = self.reg;
        let ghost t0 = bus.trace();
        let ghost n = t0.len() as int;
        let ghost r_op = Register { pc: inc16(self.reg.pc, operand_len(addressing)), ..self.reg };
        let operand = self.fetch_operand(bus, addressing);
        let ghost t1 = bus.trace();

        let m: u8 = match operand {
            Operand::Accumulator => self.reg.a,
            Operand::Immediate(m) => m,
            Operand::FixedPage(addr) => self.read(bus, addr),
            Operand::SamePage(addr) => self.read(bus, addr),
            Operand::DiffPage(addr) => {
                self.read(bus, addr); // dummy read to fix ADH
                self.read(bus, addr.wrapping_add(0x0100))
            },
        };
        assert(self.reg == r_op);

        apply_read(&mut self.reg, op, m);
        assert(self.reg == read_spec(op, r_op, m));
        proof {
            lemma_operand_run_extends(r0, addressing, t1, bus.trace(), n);
            lemma_exec_operand(r0, Mnemonic::Read(op), addressing, bus.trace(), n);
            assert(read_run(op, r_op, operand, bus.trace(), t1.len() as int) == Some((self.reg, bus.trace().len() as int)));
        }
    }

    /// A read-modify-write instruction: its operand, the read, the write back, and the write of the result.
    #[verifier::rlimit(100)]
    fn exec_modify(&mut self, bus: &mut impl Bus, op: Modify, addressing: Addressing)
        requires
            old(bus).ready(),
            !(old(self).oamdma is Pending),
            old(self).total_cycle <= u128::MAX - 7 * ACCESS_CYCLES,
            has_operand(addressing),
            !(addressing is Immediate),
        ensures
            final(bus).ready(),
            final(bus).origin() == old(bus).origin(),
            exec_run(old(self).reg, Mnemonic::Modify(op), addressing, final(bus).trace(), old(bus).trace().len() as int)
                == Some((final(self).reg, final(bus).trace().len() as int)),
            follows(*old(self), *final(self), old(bus).trace(), final(bus).trace()),
            final(self).oamdma == old(self).oamdma || (final(self).oamdma is Pending && old(self).oamdma is Disabled),
            final(self).oamdma == dma_after(old(self).oamdma, old(bus).trace(), final(bus).trace()),
            old(self).total_cycle < final(self).total_cycle <= old(self).total_cycle + 7 * ACCESS_CYCLES,
    {
        let ghost r0 = self.reg;
        let ghost t0 = bus.trace();
        let ghost n = t0.len() as int;
        let ghost r_op = Register { pc: inc16(self.reg.pc, operand_len(addressing)), ..self.reg };
        let operand = self.fetch_operand(bus, addressing);
        let ghost t1 = bus.trace();

        let is_acc: bool = match operand {
            Operand::Accumulator => true,
            _ => false,
        };
        let addr: u16 = match operand {
            Operand::Accumulator => 0, // the accumulator has no address
            Operand::FixedPage(addr) => addr,
            Operand::SamePage(addr) => {
                self.read(bus, addr);
                addr
            },
            Operand::DiffPage(addr) => {
                self.read(bus, addr); // dummy read to fix ADH
                addr.wrapping_add(0x0100)
            },
            Operand::Immediate(_) => {
                assert(false);
                0
            },
        };
        assert(addr == modify_target(operand, t1.len() as int).0);
        let ghost i = bus.trace().len() as int;
        assert(i == modify_target(operand, t1.len() as int).1);

        let mut m: u8 = self.read(bus, addr);
        self.write(bus, addr, m); // write back
        let ghost m0 = m;
        assert(self.reg == r_op);

        apply_modify(&mut self.reg, op, &mut m);
        assert((self.reg, m) == modify_spec(op, r_op, m0));

        if is_acc {
            self.reg.a = m;
        } else {
            self.write(bus, addr, m);
        }
        assert(modified(op, addressing, r_op, m0) == self.reg);
        proof {
            lemma_operand_run_extends(r0, addressing, t1, bus.trace(), n);
            lemma_exec_operand(r0, Mnemonic::Modify(op), addressing, bus.trace(), n);
            let t = bus.trace();
            assert(t[i] == Access::Read(addr, m0));
            assert(t[i + 1] == Access::Write(addr, m0));
            match operand {
                Operand::SamePage(x) => assert(is_read_at(t[t1.len() as int], x)),
                Operand::DiffPage(x) => assert(is_read_at(t[t1.len() as int], x)),
                _ => {},
            }
            assert(modify_run(op, addressing, r_op, operand, t, t1.len() as int) == Some((self.reg, t.len() as int)));
        }
    }

    /// A store: its operand, then the write.
    #[verifier::rlimit(40)]
    fn exec_write(&mut self, bus: &mut impl Bus, op: Write, addressing: Addressing)
        requires
            old(bus).ready(),
            !(old(self).oamdma is Pending),
            old(self).total_cycle <= u128::MAX - 7 * ACCESS_CYCLES,
            has_operand(addressing),
            !(addressing is Immediate),
            !(addressing is Accumulator),
        ensures
            final(bus).ready(),
            final(bus).origin() == old(bus).origin(),
            exec_run(old(self).reg, Mnemonic::Write(op), addressing, final(bus).trace(), old(bus).trace().len() as int)
                == Some((final(self).reg, final(bus).trace().len() as int)),
            follows(*old(self), *final(self), old(bus).trace(), final(bus).trace()),
            final(self).oamdma == old(self).oamdma || (final(self).oamdma is Pending && old(self).oamdma is Disabled),
            final(self).oamdma == dma_after(old(self).oamdma, old(bus).trace(), final(bus).trace()),
            old(self).total_cycle < final(self).total_cycle <= old(self).total_cycle + 7 * ACCESS_CYCLES,
    {
        let ghost r0 = self.reg;
        let ghost t0 = bus.trace();
        let ghost n = t0.len() as int;
        let ghost r_op = Register { pc: inc16(self.reg.pc, operand_len(addressing)), ..self.reg };
        let operand = self.fetch_operand(bus, addressing);
        let ghost t1 = bus.trace();

        let addr: u16 = match operand {
            Operand::FixedPage(addr) => addr,
            Operand::SamePage(addr) => {
                self.read(bus, addr);
                addr
            },
            Operand::DiffPage(addr) => {
                self.read(bus, addr); // dummy read to fix ADH
                addr.wrapping_add(0x0100)
            },
            _ => {
                assert(false);
                0
            },
        };

        let m: u8 = match op {
            Write::STA => self.reg.sta(),
            Write::STX => self.reg.stx(),
            Write::STY => self.reg.sty(),
            Write::SAX => self.reg.sax(),
        };
        assert(m == write_value(op, r_op));

        self.write(bus, addr, m);
        proof {
            lemma_operand_run_extends(r0, addressing, t1, bus.trace(), n);
            lemma_exec_operand(r0, Mnemonic::Write(op), addressing, bus.trace(), n);
            let t = bus.trace();
            match operand {
                Operand::SamePage(x) => assert(is_read_at(t[t1.len() as int], x)),
                Operand::DiffPage(x) => assert(is_read_at(t[t1.len() as int], x)),
                _ => {},
            }
            assert(write_run(op, r_op, operand, t, t1.len() as int) == Some((self.reg, t.len() as int)));
        }
    }

    /// A store whose value involves the target's high byte.
    #[verifier::rlimit(40)]
    fn exec_unstable_write(&mut self, bus: &mut impl Bus, op: UnstableWrite, addressing: Addressing)
        requires
            old(bus).ready(),
            !(old(self).oamdma is Pending),
            old(self).total_cycle <= u128::MAX - 7 * ACCESS_CYCLES,
            addressing is AbsoluteX || addressing is AbsoluteY || addressing is IndYIdxed,
        ensures
            final(bus).ready(),
            final(bus).origin() == old(bus).origin(),
            exec_run(old(self).reg, Mnemonic::UnstableWrite(op), addressing, final(bus).trace(), old(bus).trace().len() as int)
                == Some((final(self).reg, final(bus).trace().len() as int)),
            follows(*old(self), *final(self), old(bus).trace(), final(bus).trace()),
            final(self).oamdma == old(self).oamdma || (final(self).oamdma is Pending && old(self).oamdma is Disabled),
            final(self).oamdma == dma_after(old(self).oamdma, old(bus).trace(), final(bus).trace()),
            old(self).total_cycle < final(self).total_cycle <= old(self).total_cycle + 7 * ACCESS_CYCLES,
    {
        let ghost r0 = self.reg;
        let ghost t0 = bus.trace();
        let ghost n = t0.len() as int;
        let ghost r_op = Register { pc: inc16(self.reg.pc, operand_len(addressing)), ..self.reg };
        let operand = self.fetch_operand(bus, addressing);
        let ghost t1 = bus.trace();

        let addr: u16 = match operand {
            Operand::SamePage(addr) => {
                self.read(bus, addr);
                addr
            },
            Operand::DiffPage(addr) => {
                self.read(bus, addr);
                addr
            },
            _ => {
                assert(false);
                0
            },
        };

        let adl: u8 = low_byte(addr);
        let adh: u8 = high_byte(addr);
        let m: u8 = match op {
            UnstableWrite::SHA => self.reg.sha(adh),
            UnstableWrite::SHX => self.reg.shx(adh),
            UnstableWrite::SHY => self.reg.shy(adh),
            UnstableWrite::SHS => self.reg.shs(adh),
        };
        assert((self.reg, m) == unstable_value(op, r_op, adh));

        if let Operand::SamePage(addr) = operand {
            self.write(bus, addr, m);
        } else {
            self.write(bus, make_word(adl, m), m);
        }
        proof {
            lemma_operand_run_extends(r0, addressing, t1, bus.trace(), n);
            lemma_exec_operand(r0, Mnemonic::UnstableWrite(op), addressing, bus.trace(), n);
            let t = bus.trace();
            assert(is_read_at(t[t1.len() as int], addr));
            assert(unstable_run(op, r_op, operand, t, t1.len() as int) == Some((self.reg, t.len() as int)));
        }
    }

    /// A conditional branch: the offset byte, and if taken a read at the
    /// old PC, and another when the target is on another page.
    #[verifier::rlimit(100)]
    fn exec_branch(&mut self, bus: &mut impl Bus, op: Branch)
        requires
            old(bus).ready(),
            !(old(self).oamdma is Pending),
            old(self).total_cycle <= u128::MAX - 3 * ACCESS_CYCLES,
        ensures
            final(bus).ready(),
            final(bus).origin() == old(bus).origin(),
            branch_run(op, old(self).reg, final(bus).trace(), old(bus).trace().len() as int)
                == Some((final(self).reg, final(bus).trace().len() as int)),
            follows(*old(self), *final(self), old(bus).trace(), final(bus).trace()),
            final(self).oamdma == old(self).oamdma,
            final(self).oamdma == dma_after(old(self).oamdma, old(bus).trace(), final(bus).trace()),
            old(self).total_cycle < final(self).total_cycle <= old(self).total_cycle + 3 * ACCESS_CYCLES,
    {
        let ghost t0 = bus.trace();
        let ghost n = t0.len() as int;
        let b: u8 = self.fetch(bus);
        let offset: i16 = if b >= 128 { b as i16 - 256 } else { b as i16 };

        let is_branched: bool = match op {
            Branch::BCS => self.reg.bcs(),
            Branch::BCC => self.reg.bcc(),
            Branch::BNE => self.reg.bne(),
            Branch::BEQ => self.reg.beq(),
            Branch::BVS => self.reg.bvs(),
            Branch::BVC => self.reg.bvc(),
            Branch::BMI => self.reg.bmi(),
            Branch::BPL => self.reg.bpl(),
        };

        if !is_branched {
            return;
        }

        self.read_at_pc(bus);
        let ghost pc1 = self.reg.pc;
        let old_lo: u8 = low_byte(self.reg.pc);
        let old_hi: u8 = high_byte(self.reg.pc);
        let sum: i16 = old_lo as i16 + offset;
        let is_crossed: bool = sum < 0 || sum > 255;
        let new_lo: u8 = if sum < 0 {
            (sum + 256) as u8
        } else if sum > 255 {
            (sum - 256) as u8
        } else {
            sum as u8
        };
        self.reg.pc = make_word(new_lo, old_hi);

        if !is_crossed {
            assert(self.reg.pc == branch_target(pc1, b));
            return;
        }

        self.read_at_pc(bus); // read at the wrong page
        let new_hi: u8 = if offset > 0 { old_hi.wrapping_add(1) } else { old_hi.wrapping_sub(1) };
        self.reg.pc = make_word(new_lo, new_hi);
        assert(self.reg.pc == branch_target(pc1, b));
        assert(hi_of(branch_target(pc1, b)) != hi_of(pc1));
        assert(bus.trace()[n + 1] == Access::Read(pc1, data_of(bus.trace()[n + 1])));
    }

    /// Computes the operand of an addressing mode, with its bus reads.
    #[verifier::rlimit(80)]
    fn fetch_operand(&mut self, bus: &mut impl Bus, addressing: Addressing) -> (r: Operand)
        requires
            old(bus).ready(),
            has_operand(addressing),
            !(old(self).oamdma is Pending),
            old(self).total_cycle <= u128::MAX - 4 * ACCESS_CYCLES,
        ensures
            final(bus).ready(),
            final(bus).origin() == old(bus).origin(),
            operand_run(old(self).reg, addressing, final(bus).trace(), old(bus).trace().len() as int)
                == Some((r, final(bus).trace().len() as int)),
            final(self).reg == (Register { pc: inc16(old(self).reg.pc, operand_len(addressing)), ..old(self).reg }),
            follows(*old(self), *final(self), old(bus).trace(), final(bus).trace()),
            final(self).oamdma == old(self).oamdma,
            final(self).oamdma == dma_after(old(self).oamdma, old(bus).trace(), final(bus).trace()),
            old(self).total_cycle < final(self).total_cycle,
            final(self).total_cycle <= old(self).total_cycle + (if addressing is XIdxedInd { 4int }
                else if addressing is IndYIdxed { 3int } else { 2int }) * ACCESS_CYCLES,
            (addressing is Accumulator) == (r is Accumulator),
            (addressing is Immediate) == (r is Immediate),
            (addressing is ZeroPage || addressing is ZeroPageX || addressing is ZeroPageY) ==> (r matches Operand::FixedPage(a) && a < 0x100),
            (addressing is Absolute || addressing is XIdxedInd) ==> r is FixedPage,
            (addressing is AbsoluteX || addressing is AbsoluteY || addressing is IndYIdxed) ==> (r is SamePage || r is DiffPage),
    {
        reveal(operand_run);
        match addressing {
            Addressing::Accumulator => {
                self.read_at_pc(bus);
                Operand::Accumulator
            },

            Addressing::Immediate => {
                let value: u8 = self.fetch(bus);
                Operand::Immediate(value)
            },

            Addressing::ZeroPage => {
                let lo: u8 = self.fetch(bus);
                let base: u16 = make_word(lo, ZERO_PAGE);
                Operand::FixedPage(base)
            },

            Addressing::ZeroPageX => self.fetch_zeropage_indexed(bus, addressing),

            Addressing::ZeroPageY => self.fetch_zeropage_indexed(bus, addressing),

            Addressing::Absolute => {
                let lo: u8 = self.fetch(bus);
                let hi: u8 = self.fetch(bus);
                Operand::FixedPage(make_word(lo, hi))
            },

            Addressing::AbsoluteX => self.fetch_absolute_indexed(bus, addressing),

            Addressing::AbsoluteY => self.fetch_absolute_indexed(bus, addressing),

            Addressing::XIdxedInd => self.fetch_x_indexed_indirect(bus),

            Addressing::IndYIdxed => self.fetch_indirect_y_indexed(bus),

            _ => {
                assert(false);
                Operand::Accumulator
            },
        }
    }

    /// Zero page indexed by X or Y: the pointer byte, a read of the
    /// unindexed address, and the index added within the zero page.
    fn fetch_zeropage_indexed(&mut self, bus: &mut impl Bus, addressing: Addressing) -> (r: Operand)
        requires
            old(bus).ready(),
            addressing is ZeroPageX || addressing is ZeroPageY,
            !(old(self).oamdma is Pending),
            old(self).total_cycle <= u128::MAX - 2 * ACCESS_CYCLES,
        ensures
            final(bus).ready(),
            final(bus).origin() == old(bus).origin(),
            operand_run(old(self).reg, addressing, final(bus).trace(), old(bus).trace().len() as int)
                == Some((r, final(bus).trace().len() as int)),
            final(self).reg == (Register { pc: inc16(old(self).reg.pc, 1), ..old(self).reg }),
            follows(*old(self), *final(self), old(bus).trace(), final(bus).trace()),
            final(self).oamdma == old(self).oamdma,
            final(self).oamdma == dma_after(old(self).oamdma, old(bus).trace(), final(bus).trace()),
            old(self).total_cycle < final(self).total_cycle <= old(self).total_cycle + 2 * ACCESS_CYCLES,
            r matches Operand::FixedPage(a) && a < 0x100,
    {
        reveal(operand_run);
        let index: u8 = if let Addressing::ZeroPageX = addressing { self.reg.x } else { self.reg.y };
        let base: u8 = self.fetch(bus);
        self.read(bus, make_word(base, ZERO_PAGE));
        let indexed: u16 = make_word(base.wrapping_add(index), ZERO_PAGE);
        Operand::FixedPage(indexed)
    }

    /// Absolute indexed by X or Y: the two address bytes; the index is
    /// added to the low byte, the page left to fix.
    fn fetch_absolute_indexed(&mut self, bus: &mut impl Bus, addressing: Addressing) -> (r: Operand)
        requires
            old(bus).ready(),
            addressing is AbsoluteX || addressing is AbsoluteY,
            !(old(self).oamdma is Pending),
            old(self).total_cycle <= u128::MAX - 2 * ACCESS_CYCLES,
        ensures
            final(bus).ready(),
            final(bus).origin() == old(bus).origin(),
            operand_run(old(self).reg, addressing, final(bus).trace(), old(bus).trace().len() as int)
                == Some((r, final(bus).trace().len() as int)),
            final(self).reg == (Register { pc: inc16(old(self).reg.pc, 2), ..old(self).reg }),
            follows(*old(self), *final(self), old(bus).trace(), final(bus).trace()),
            final(self).oamdma == old(self).oamdma,
            final(self).oamdma == dma_after(old(self).oamdma, old(bus).trace(), final(bus).trace()),
            old(self).total_cycle < final(self).total_cycle <= old(self).total_cycle + 2 * ACCESS_CYCLES,
            r is SamePage || r is DiffPage,
    {
        reveal(operand_run);
        let index: u8 = if let Addressing::AbsoluteX = addressing { self.reg.x } else { self.reg.y };
        let lo: u8 = self.fetch(bus);
        let hi: u8 = self.fetch(bus);
        let is_crossed: bool = lo as u16 + index as u16 > 0xFF;
        let indexed: u16 = make_word(lo.wrapping_add(index), hi);
        if is_crossed {
            Operand::DiffPage(indexed)
        } else {
            Operand::SamePage(indexed)
        }
    }

    /// X-indexed indirect: the pointer byte, a read of the unindexed
    /// pointer, then the two address bytes from the indexed pointer, both
    /// in the zero page.
    fn fetch_x_indexed_indirect(&mut self, bus: &mut impl Bus) -> (r: Operand)
        requires
            old(bus).ready(),
            !(old(self).oamdma is Pending),
            old(self).total_cycle <= u128::MAX - 4 * ACCESS_CYCLES,
        ensures
            final(bus).ready(),
            final(bus).origin() == old(bus).origin(),
            operand_run(old(self).reg, Addressing::XIdxedInd, final(bus).trace(), old(bus).trace().len() as int)
                == Some((r, final(bus).trace().len() as int)),
            final(self).reg == (Register { pc: inc16(old(self).reg.pc, 1), ..old(self).reg }),
            follows(*old(self), *final(self), old(bus).trace(), final(bus).trace()),
            final(self).oamdma == old(self).oamdma,
            final(self).oamdma == dma_after(old(self).oamdma, old(bus).trace(), final(bus).trace()),
            old(self).total_cycle < final(self).total_cycle <= old(self).total_cycle + 4 * ACCESS_CYCLES,
            r is FixedPage,
    {
        reveal(operand_run);
        let ptr: u8 = self.fetch(bus);
        let idxed_ptr: u8 = ptr.wrapping_add(self.reg.x);
        self.read(bus, make_word(ptr, ZERO_PAGE)); // dummy read to index

        let vec_lo: u16 = make_word(idxed_ptr, ZERO_PAGE);
        let vec_hi: u16 = make_word(idxed_ptr.wrapping_add(1), ZERO_PAGE);
        let lo: u8 = self.read(bus, vec_lo);
        let hi: u8 = self.read(bus, vec_hi);

        Operand::FixedPage(make_word(lo, hi))
    }

    /// Indirect Y-indexed: the pointer byte, the two address bytes from
    /// the zero page; Y is added to the low byte, the page left to fix.
    fn fetch_indirect_y_indexed(&mut self, bus: &mut impl Bus) -> (r: Operand)
        requires
            old(bus).ready(),
            !(old(self).oamdma is Pending),
            old(self).total_cycle <= u128::MAX - 3 * ACCESS_CYCLES,
        ensures
            final(bus).ready(),
            final(bus).origin() == old(bus).origin(),
            operand_run(old(self).reg, Addressing::IndYIdxed, final(bus).trace(), old(bus).trace().len() as int)
                == Some((r, final(bus).trace().len() as int)),
            final(self).reg == (Register { pc: inc16(old(self).reg.pc, 1), ..old(self).reg }),
            follows(*old(self), *final(self), old(bus).trace(), final(bus).trace()),
            final(self).oamdma == old(self).oamdma,
            final(self).oamdma == dma_after(old(self).oamdma, old(bus).trace(), final(bus).trace()),
            old(self).total_cycle < final(self).total_cycle <= old(self).total_cycle + 3 * ACCESS_CYCLES,
            r is SamePage || r is DiffPage,
    {
        reveal(operand_run);
        let ptr: u8 = self.fetch(bus);

        let vec_lo: u16 = make_word(ptr, ZERO_PAGE);
        let vec_hi: u16 = make_word(ptr.wrapping_add(1), ZERO_PAGE);
        let lo: u8 = self.read(bus, vec_lo);
        let hi: u8 = self.read(bus, vec_hi);

        let is_crossed: bool = lo as u16 + self.reg.y as u16 > 0xFF;
        let indexed: u16 = make_word(lo.wrapping_add(self.reg.y), hi);
        if is_crossed {
            Operand::DiffPage(indexed)
        } else {
            Operand::SamePage(indexed)
        }
    }

    fn jam_undefined(&mut self, bus: &mut impl Bus)
        requires
            old(bus).ready(),
            !(old(self).oamdma is Pending),
            old(self).total_cycle <= u128::MAX - ACCESS_CYCLES,
        ensures
            final(bus).ready(),
            final(bus).origin() == old(bus).origin(),
            unique_run(Unique::JAM, Addressing::Implied, old(self).reg, final(bus).trace(), old(bus).trace().len() as int)
                == Some((final(self).reg, final(bus).trace().len() as int)),
            extends(old(bus).trace(), final(bus).trace()),
            final(self).total_cycle == old(self).total_cycle + (final(bus).trace().len() - old(bus).trace().len()),
            final(self).is_put_cyc == (old(self).is_put_cyc != ((final(bus).trace().len() - old(bus).trace().len()) % 2 == 1)),
            final(self).is_jammed,
            final(self).prev_nmi == old(self).prev_nmi,
            final(self).oamdma == old(self).oamdma,
            final(self).oamdma == dma_after(old(self).oamdma, old(bus).trace(), final(bus).trace()),
            old(self).total_cycle < final(self).total_cycle <= old(self).total_cycle + ACCESS_CYCLES,
    {
        self.read_at_pc(bus);
        self.is_jammed = true;
    }

    #[verifier::rlimit(40)]
    fn brk_implied(&mut self, bus: &mut impl Bus)
        requires
            old(bus).ready(),
            !(old(self).oamdma is Pending),
            old(self).total_cycle <= u128::MAX - 6 * ACCESS_CYCLES,
        ensures
            final(bus).ready(),
            final(bus).origin() == old(bus).origin(),
            unique_run(Unique::BRK, Addressing::Implied, old(self).reg, final(bus).trace(), old(bus).trace().len() as int)
                == Some((final(self).reg, final(bus).trace().len() as int)),
            follows(*old(self), *final(self), old(bus).trace(), final(bus).trace()),
            final(self).oamdma == old(self).oamdma,
            final(self).oamdma == dma_after(old(self).oamdma, old(bus).trace(), final(bus).trace()),
            old(self).total_cycle < final(self).total_cycle <= old(self).total_cycle + 6 * ACCESS_CYCLES,
    {
        let ghost n = bus.trace().len() as int;
        self.fetch(bus); // discard the padding byte
        let pcl: u8 = low_byte(self.reg.pc);
        let pch: u8 = high_byte(self.reg.pc);
        self.push(bus, pch);
        self.push(bus, pcl);
        let p: u8 = self.reg.p.as_byte(true);
        self.push(bus, p);
        self.reg.p.insert(FLAG_I);
        let lo: u8 = self.read(bus, BRK_VECTOR);
        let hi: u8 = self.read(bus, BRK_VECTOR.wrapping_add(1));
        self.reg.pc = make_word(lo, hi);
        assert(self.reg == interrupted(old(self).reg, lo, hi));
        assert(bus.trace()[n + 4] == Access::Read(BRK_VECTOR, lo));
    }

    /// The interrupt sequence of BRK aimed at the NMI vector: the padding
    /// byte is skipped and the status is pushed with B set. The step takes
    /// non-maskable interrupts through `handle_interrupt` instead.
    #[allow(dead_code)]
    #[verifier::rlimit(40)]
    fn nmi(&mut self, bus: &mut impl Bus)
        requires
            old(bus).ready(),
            !(old(self).oamdma is Pending),
            old(self).total_cycle <= u128::MAX - 6 * ACCESS_CYCLES,
        ensures
            final(bus).ready(),
            final(bus).origin() == old(bus).origin(),
            is_read_at(final(bus).trace()[old(bus).trace().len() as int], old(self).reg.pc),
            push_and_vector(old(self).reg, inc16(old(self).reg.pc, 1), true, NMI_VECTOR, final(bus).trace(), old(bus).trace().len() as int + 1)
                == Some((final(self).reg, final(bus).trace().len() as int)),
            follows(*old(self), *final(self), old(bus).trace(), final(bus).trace()),
            final(self).oamdma == old(self).oamdma,
            final(self).oamdma == dma_after(old(self).oamdma, old(bus).trace(), final(bus).trace()),
            old(self).total_cycle < final(self).total_cycle <= old(self).total_cycle + 6 * ACCESS_CYCLES,
    {
        let ghost n = bus.trace().len() as int;
        self.fetch(bus); // discard the padding byte
        let pcl: u8 = low_byte(self.reg.pc);
        let pch: u8 = high_byte(self.reg.pc);
        self.push(bus, pch);
        self.push(bus, pcl);
        let p: u8 = self.reg.p.as_byte(true);
        self.push(bus, p);
        self.reg.p.insert(FLAG_I);
        let lo: u8 = self.read(bus, NMI_VECTOR);
        let hi: u8 = self.read(bus, NMI_VECTOR.wrapping_add(1));
        self.reg.pc = make_word(lo, hi);
        assert(self.reg == interrupted(old(self).reg, lo, hi));
        assert(bus.trace()[n + 4] == Access::Read(NMI_VECTOR, lo));
    }

    #[verifier::rlimit(40)]
    fn rti_implied(&mut self, bus: &mut impl Bus)
        requires
            old(bus).ready(),
            !(old(self).oamdma is Pending),
            old(self).total_cycle <= u128::MAX - 5 * ACCESS_CYCLES,
        ensures
            final(bus).ready(),
            final(bus).origin() == old(bus).origin(),
            unique_run(Unique::RTI, Addressing::Implied, old(self).reg, final(bus).trace(), old(bus).trace().len() as int)
                == Some((final(self).reg, final(bus).trace().len() as int)),
            follows(*old(self), *final(self), old(bus).trace(), final(bus).trace()),
            final(self).oamdma == old(self).oamdma,
            final(self).oamdma == dma_after(old(self).oamdma, old(bus).trace(), final(bus).trace()),
            old(self).total_cycle < final(self).total_cycle <= old(self).total_cycle + 5 * ACCESS_CYCLES,
    {
        let ghost n = bus.trace().len() as int;
        self.read_at_pc(bus);
        self.read_at_sp(bus);
        let pv: u8 = self.pop(bus);
        self.reg.p = Status::from(pv);
        let lo: u8 = self.pop(bus);
        let hi: u8 = self.pop(bus);
        self.reg.pc = make_word(lo, hi);
        assert(rti_regs(old(self).reg, pv, lo, hi) == self.reg);
        assert(bus.trace()[n + 2] == Access::Read(stack(inc8(old(self).reg.sp, 1)), pv));
        assert(bus.trace()[n + 3] == Access::Read(stack(inc8(old(self).reg.sp, 2)), lo));
    }

    fn rts_implied(&mut self, bus: &mut impl Bus)
        requires
            old(bus).ready(),
            !(old(self).oamdma is Pending),
            old(self).total_cycle <= u128::MAX - 6 * ACCESS_CYCLES,
        ensures
            final(bus).ready(),
            final(bus).origin() == old(bus).origin(),
            unique_run(Unique::RTS, Addressing::Implied, old(self).reg, final(bus).trace(), old(bus).trace().len() as int)
                == Some((final(self).reg, final(bus).trace().len() as int)),
            follows(*old(self), *final(self), old(bus).trace(), final(bus).trace()),
            final(self).oamdma == old(self).oamdma,
            final(self).oamdma == dma_after(old(self).oamdma, old(bus).trace(), final(bus).trace()),
            old(self).total_cycle < final(self).total_cycle <= old(self).total_cycle + 6 * ACCESS_CYCLES,
    {
        let ghost n = bus.trace().len() as int;
        self.read_at_pc(bus);
        self.read_at_sp(bus);
        let lo: u8 = self.pop(bus);
        let hi: u8 = self.pop(bus);
        self.reg.pc = make_word(lo, hi);
        self.read_at_pc(bus);
        self.reg.pc = self.reg.pc.wrapping_add(1);
        assert(self.reg == (Register { sp: inc8(old(self).reg.sp, 2), pc: inc16(word_of(lo, hi), 1), ..old(self).reg }));
        assert(bus.trace()[n + 2] == Access::Read(stack(inc8(old(self).reg.sp, 1)), lo));
        assert(bus.trace()[n + 3] == Access::Read(stack(inc8(old(self).reg.sp, 2)), hi));
    }

    fn pha_implied(&mut self, bus: &mut impl Bus)
        requires
            old(bus).ready(),
            !(old(self).oamdma is Pending),
            old(self).total_cycle <= u128::MAX - 2 * ACCESS_CYCLES,
        ensures
            final(bus).ready(),
            final(bus).origin() == old(bus).origin(),
            unique_run(Unique::PHA, Addressing::Implied, old(self).reg, final(bus).trace(), old(bus).trace().len() as int)
                == Some((final(self).reg, final(bus).trace().len() as int)),
            follows(*old(self), *final(self), old(bus).trace(), final(bus).trace()),
            final(self).oamdma == old(self).oamdma,
            final(self).oamdma == dma_after(old(self).oamdma, old(bus).trace(), final(bus).trace()),
            old(self).total_cycle < final(self).total_cycle <= old(self).total_cycle + 2 * ACCESS_CYCLES,
    {
        self.read_at_pc(bus);
        let a: u8 = self.reg.a;
        self.push(bus, a);
    }

    fn php_implied(&mut self, bus: &mut impl Bus)
        requires
            old(bus).ready(),
            !(old(self).oamdma is Pending),
            old(self).total_cycle <= u128::MAX - 2 * ACCESS_CYCLES,
        ensures
            final(bus).ready(),
            final(bus).origin() == old(bus).origin(),
            unique_run(Unique::PHP, Addressing::Implied, old(self).reg, final(bus).trace(), old(bus).trace().len() as int)
                == Some((final(self).reg, final(bus).trace().len() as int)),
            follows(*old(self), *final(self), old(bus).trace(), final(bus).trace()),
            final(self).oamdma == old(self).oamdma,
            final(self).oamdma == dma_after(old(self).oamdma, old(bus).trace(), final(bus).trace()),
            old(self).total_cycle < final(self).total_cycle <= old(self).total_cycle + 2 * ACCESS_CYCLES,
    {
        self.read_at_pc(bus);
        let p: u8 = self.reg.p.as_byte(true);
        self.push(bus, p);
    }

    fn pla_implied(&mut self, bus: &mut impl Bus)
        requires
            old(bus).ready(),
            !(old(self).oamdma is Pending),
            old(self).total_cycle <= u128::MAX - 3 * ACCESS_CYCLES,
        ensures
            final(bus).ready(),
            final(bus).origin() == old(bus).origin(),
            unique_run(Unique::PLA, Addressing::Implied, old(self).reg, final(bus).trace(), old(bus).trace().len() as int)
                == Some((final(self).reg, final(bus).trace().len() as int)),
            follows(*old(self), *final(self), old(bus).trace(), final(bus).trace()),
            final(self).oamdma == old(self).oamdma,
            final(self).oamdma == dma_after(old(self).oamdma, old(bus).trace(), final(bus).trace()),
            old(self).total_cycle < final(self).total_cycle <= old(self).total_cycle + 3 * ACCESS_CYCLES,
    {
        let ghost n = bus.trace().len() as int;
        self.read_at_pc(bus);
        self.read_at_sp(bus);
        let popped: u8 = self.pop(bus);
        self.reg.lda(popped);
        assert(self.reg == pla_regs(old(self).reg, popped));
        assert(bus.trace()[n + 2] == Access::Read(stack(inc8(old(self).reg.sp, 1)), popped));
    }

    fn plp_implied(&mut self, bus: &mut impl Bus)
        requires
            old(bus).ready(),
            !(old(self).oamdma is Pending),
            old(self).total_cycle <= u128::MAX - 3 * ACCESS_CYCLES,
        ensures
            final(bus).ready(),
            final(bus).origin() == old(bus).origin(),
            unique_run(Unique::PLP, Addressing::Implied, old(self).reg, final(bus).trace(), old(bus).trace().len() as int)
                == Some((final(self).reg, final(bus).trace().len() as int)),
            follows(*old(self), *final(self), old(bus).trace(), final(bus).trace()),
            final(self).oamdma == old(self).oamdma,
            final(self).oamdma == dma_after(old(self).oamdma, old(bus).trace(), final(bus).trace()),
            old(self).total_cycle < final(self).total_cycle <= old(self).total_cycle + 3 * ACCESS_CYCLES,
    {
        let ghost n = bus.trace().len() as int;
        self.read_at_pc(bus);
        self.read_at_sp(bus);
        let popped: u8 = self.pop(bus);
        self.reg.p = Status::from(popped);
        assert(self.reg == (Register { p: status_of(popped), sp: inc8(old(self).reg.sp, 1), ..old(self).reg }));
        assert(bus.trace()[n + 2] == Access::Read(stack(inc8(old(self).reg.sp, 1)), popped));
    }

    #[verifier::rlimit(40)]
    fn jsr_absolute(&mut self, bus: &mut impl Bus)
        requires
            old(bus).ready(),
            !(old(self).oamdma is Pending),
            old(self).total_cycle <= u128::MAX - 5 * ACCESS_CYCLES,
        ensures
            final(bus).ready(),
            final(bus).origin() == old(bus).origin(),
            unique_run(Unique::JSR, Addressing::Absolute, old(self).reg, final(bus).trace(), old(bus).trace().len() as int)
                == Some((final(self).reg, final(bus).trace().len() as int)),
            follows(*old(self), *final(self), old(bus).trace(), final(bus).trace()),
            final(self).oamdma == old(self).oamdma,
            final(self).oamdma == dma_after(old(self).oamdma, old(bus).trace(), final(bus).trace()),
            old(self).total_cycle < final(self).total_cycle <= old(self).total_cycle + 5 * ACCESS_CYCLES,
    {
        let ghost n = bus.trace().len() as int;
        let new_lo: u8 = self.fetch(bus);
        self.read_at_sp(bus);
        let old_lo: u8 = low_byte(self.reg.pc);
        let old_hi: u8 = high_byte(self.reg.pc);
        self.push(bus, old_hi);
        self.push(bus, old_lo);
        let new_hi: u8 = self.read(bus, self.reg.pc);
        self.reg.pc = make_word(new_lo, new_hi);
        assert(self.reg == (Register { sp: dec8(old(self).reg.sp, 2), pc: word_of(new_lo, new_hi), ..old(self).reg }));
        assert(bus.trace()[n] == Access::Read(old(self).reg.pc, new_lo));
        assert(bus.trace()[n + 4] == Access::Read(inc16(old(self).reg.pc, 1), new_hi));
    }

    fn jmp_absolute(&mut self, bus: &mut impl Bus)
        requires
            old(bus).ready(),
            !(old(self).oamdma is Pending),
            old(self).total_cycle <= u128::MAX - 2 * ACCESS_CYCLES,
        ensures
            final(bus).ready(),
            final(bus).origin() == old(bus).origin(),
            unique_run(Unique::JMP, Addressing::Absolute, old(self).reg, final(bus).trace(), old(bus).trace().len() as int)
                == Some((final(self).reg, final(bus).trace().len() as int)),
            follows(*old(self), *final(self), old(bus).trace(), final(bus).trace()),
            final(self).oamdma == old(self).oamdma,
            final(self).oamdma == dma_after(old(self).oamdma, old(bus).trace(), final(bus).trace()),
            old(self).total_cycle < final(self).total_cycle <= old(self).total_cycle + 2 * ACCESS_CYCLES,
    {
        let ghost n = bus.trace().len() as int;
        let new_lo: u8 = self.fetch(bus);
        let new_hi: u8 = self.read(bus, self.reg.pc);
        self.reg.pc = make_word(new_lo, new_hi);
        assert(self.reg == (Register { pc: word_of(new_lo, new_hi), ..old(self).reg }));
        assert(bus.trace()[n] == Access::Read(old(self).reg.pc, new_lo));
    }

    /// JMP through a pointer; the pointer's high byte is read from the same
    /// page as its low byte (the 6502's page-wrap bug).
    fn jmp_indirect(&mut self, bus: &mut impl Bus)
        requires
            old(bus).ready(),
            !(old(self).oamdma is Pending),
            old(self).total_cycle <= u128::MAX - 4 * ACCESS_CYCLES,
        ensures
            final(bus).ready(),
            final(bus).origin() == old(bus).origin(),
            unique_run(Unique::JMP, Addressing::Indirect, old(self).reg, final(bus).trace(), old(bus).trace().len() as int)
                == Some((final(self).reg, final(bus).trace().len() as int)),
            follows(*old(self), *final(self), old(bus).trace(), final(bus).trace()),
            final(self).oamdma == old(self).oamdma,
            final(self).oamdma == dma_after(old(self).oamdma, old(bus).trace(), final(bus).trace()),
            old(self).total_cycle < final(self).total_cycle <= old(self).total_cycle + 4 * ACCESS_CYCLES,
    {
        let ghost n = bus.trace().len() as int;
        let ptr_lo: u8 = self.fetch(bus);
        let ptr_hi: u8 = self.fetch(bus);
        let lo: u8 = self.read(bus, make_word(ptr_lo, ptr_hi));
        let hi: u8 = self.read(bus, make_word(ptr_lo.wrapping_add(1), ptr_hi));
        self.reg.pc = make_word(lo, hi);
        assert(self.reg == (Register { pc: word_of(lo, hi), ..old(self).reg }));
        assert(bus.trace()[n] == Access::Read(old(self).reg.pc, ptr_lo));
        assert(bus.trace()[n + 1] == Access::Read(inc16(old(self).reg.pc, 1), ptr_hi));
        assert(bus.trace()[n + 2] == Access::Read(word_of(ptr_lo, ptr_hi), lo));
    }
}

/// Applies a reading instruction to the registers.
fn apply_read(reg: &mut Register, op: Read, m: u8)
    ensures
        *final(reg) == read_spec(op, *old(reg), m),
{
    match op {
        Read::NOP => {},
        Read::ADC => reg.adc(m),
        Read::SBC => reg.sbc(m),
        Read::AND => reg.and(m),
        Read::ORA => reg.ora(m),
        Read::EOR => reg.eor(m),
        Read::BIT => reg.bit(m),
        Read::CMP => reg.cmp(m),
        Read::CPX => reg.cpx(m),
        Read::CPY => reg.cpy(m),
        Read::LDA => reg.lda(m),
        Read::LDX => reg.ldx(m),
        Read::LDY => reg.ldy(m),
        Read::LAX => reg.lax(m),
        Read::LXA => reg.lxa(m),
        Read::LAS => reg.las(m),
        Read::ALR => reg.alr(m),
        Read::ARR => reg.arr(m),
        Read::ANC => reg.anc(m),
        Read::AXS => reg.axs(m),
        Read::ANE => reg.ane(m),
    }
}

/// Applies a read-modify-write instruction to the registers and the value.
fn apply_modify(reg: &mut Register, op: Modify, m: &mut u8)
    ensures
        (*final(reg), *final(m)) == modify_spec(op, *old(reg), *old(m)),
{
    reveal(modify_spec);
    match op {
        Modify::ASL => reg.asl(m),
        Modify::LSR => reg.lsr(m),
        Modify::ROL => reg.rol(m),
        Modify::ROR => reg.ror(m),
        Modify::INC => reg.inc(m),
        Modify::DEC => reg.dec(m),
        Modify::DCP => reg.dcp(m),
        Modify::ISB => reg.isb(m),
        Modify::RRA => reg.rra(m),
        Modify::RLA => reg.rla(m),
        Modify::SLO => reg.slo(m),
        Modify::SRE => reg.sre(m),
    }
}

/// For an instruction with an operand, the record checks as the operand
/// and then the operation.
proof fn lemma_exec_operand(r: Register, m: Mnemonic, a: Addressing, t: Seq<Access>, k: int)
    requires
        m is Read || m is Modify || m is Write || m is UnstableWrite,
        operand_run(r, a, t, k) is Some,
    ensures
        ({
            let (operand, j) = operand_run(r, a, t, k)->Some_0;
            let r_op = Register { pc: inc16(r.pc, operand_len(a)), ..r };
            exec_run(r, m, a, t, k) == match m {
                Mnemonic::Read(op) => read_run(op, r_op, operand, t, j),
                Mnemonic::Modify(op) => modify_run(op, a, r_op, operand, t, j),
                Mnemonic::Write(op) => write_run(op, r_op, operand, t, j),
                Mnemonic::UnstableWrite(op) => unstable_run(op, r_op, operand, t, j),
                _ => None,
            }
        }),
{
    reveal(exec_run);
}

/// The operand seen in a record is still there in a longer record.
proof fn lemma_operand_run_extends(r: Register, a: Addressing, t1: Seq<Access>, t2: Seq<Access>, k: int)
    requires
        extends(t1, t2),
        0 <= k,
        operand_run(r, a, t1, k) matches Some((_, e)) && e <= t1.len(),
    ensures
        operand_run(r, a, t2, k) == operand_run(r, a, t1, k),
{
    reveal(operand_run);
    assert(t2[k] == t1[k]);
    match a {
        Addressing::Accumulator | Addressing::Immediate | Addressing::ZeroPage => {},
        Addressing::IndYIdxed => {
            assert(t2[k + 1] == t1[k + 1]);
            assert(t2[k + 2] == t1[k + 2]);
        },
        Addressing::XIdxedInd => {
            assert(t2[k + 1] == t1[k + 1]);
            assert(t2[k + 2] == t1[k + 2]);
            assert(t2[k + 3] == t1[k + 3]);
        },
        _ => {
            assert(t2[k + 1] == t1[k + 1]);
        },
    }
}

/// A taken branch lands at the address after the branch plus the signed
/// offset, whether or not it crosses a page.
pub proof fn lemma_branch_target_is_offset(pc: u16, offset: u8)
    ensures
        branch_target(pc, offset) as int == (pc + sext(offset)) % 65536,
        -128 <= sext(offset) <= 127,
{
}

/// Whether bit `i` of `x` is set.
pub open spec fn bit_set(x: u8, i: u8) -> bool {
    (x >> i) & 1 == 1
}

/// After loading `v` into a register, N tells whether `v` is negative (bit 7
/// set) and Z whether it is zero.
pub proof fn lemma_nz_flags(p: Status, v: u8)
    ensures
        nz(p, v).has(FLAG_N) == (v >= 0x80),
        nz(p, v).has(FLAG_Z) == (v == 0),
{
    let b = p.bits;
    assert(((b | 0x80u8) | 0x02u8) & 0x80u8 == 0x80u8 && ((b | 0x80u8) | 0x02u8) & 0x02u8 == 0x02u8
        && ((b | 0x80u8) & !0x02u8) & 0x80u8 == 0x80u8 && ((b | 0x80u8) & !0x02u8) & 0x02u8 != 0x02u8
        && ((b & !0x80u8) | 0x02u8) & 0x80u8 != 0x80u8 && ((b & !0x80u8) | 0x02u8) & 0x02u8 == 0x02u8
        && ((b & !0x80u8) & !0x02u8) & 0x80u8 != 0x80u8 && ((b & !0x80u8) & !0x02u8) & 0x02u8 != 0x02u8)
        by (bit_vector);
}

/// The logic instructions work bit by bit on A and the operand: after ORA
/// a bit of A is set when it was set in A or in the operand, after AND
/// when set in both, after EOR when set in exactly one. N and Z follow the
/// new A; X, Y, SP and PC stay.
pub proof fn lemma_logic_ops_bitwise(r: Register, m: u8, i: u8)
    requires
        i < 8,
    ensures
        bit_set(read_spec(Read::ORA, r, m).a, i) == (bit_set(r.a, i) || bit_set(m, i)),
        bit_set(read_spec(Read::AND, r, m).a, i) == (bit_set(r.a, i) && bit_set(m, i)),
        bit_set(read_spec(Read::EOR, r, m).a, i) == (bit_set(r.a, i) != bit_set(m, i)),
        read_spec(Read::ORA, r, m).p.has(FLAG_N) == (read_spec(Read::ORA, r, m).a >= 0x80),
        read_spec(Read::ORA, r, m).p.has(FLAG_Z) == (read_spec(Read::ORA, r, m).a == 0),
        read_spec(Read::AND, r, m).p.has(FLAG_N) == (read_spec(Read::AND, r, m).a >= 0x80),
        read_spec(Read::AND, r, m).p.has(FLAG_Z) == (read_spec(Read::AND, r, m).a == 0),
        read_spec(Read::EOR, r, m).p.has(FLAG_N) == (read_spec(Read::EOR, r, m).a >= 0x80),
        read_spec(Read::EOR, r, m).p.has(FLAG_Z) == (read_spec(Read::EOR, r, m).a == 0),
        read_spec(Read::ORA, r, m).x == r.x && read_spec(Read::ORA, r, m).y == r.y,
        read_spec(Read::ORA, r, m).sp == r.sp && read_spec(Read::ORA, r, m).pc == r.pc,
{
    let a = r.a;
    assert((((a | m) >> i) & 1 == 1) == (((a >> i) & 1 == 1) || ((m >> i) & 1 == 1))
        && (((a & m) >> i) & 1 == 1) == (((a >> i) & 1 == 1) && ((m >> i) & 1 == 1))
        && (((a ^ m) >> i) & 1 == 1) == (((a >> i) & 1 == 1) != ((m >> i) & 1 == 1))) by (bit_vector)
        requires
            i < 8;
    lemma_nz_flags(r.p, a | m);
    lemma_nz_flags(r.p, a & m);
    lemma_nz_flags(r.p, a ^ m);
}

/// Setting or clearing flag `f` makes it read as set or clear.
pub proof fn lemma_with_has(p: Status, f: u8, v: bool)
    requires
        f != 0,
    ensures
        p.with(f, v).has(f) == v,
{
    let b = p.bits;
    assert(f != 0 ==> ((b | f) & f == f) && ((b & !f) & f != f)) by (bit_vector);
}

/// Setting or clearing flag `f` leaves a flag `g` that shares no bit.
pub proof fn lemma_with_keeps(p: Status, f: u8, g: u8, v: bool)
    requires
        f & g == 0,
    ensures
        p.with(f, v).has(g) == p.has(g),
{
    let b = p.bits;
    assert(f & g == 0 ==> (((b | f) & g == g) == (b & g == g)) && (((b & !f) & g == g) == (b & g == g))) by (bit_vector);
}

/// The flags C, Z, V and N share no bit.
proof fn lemma_flags_apart()
    ensures
        FLAG_C & FLAG_Z == 0 && FLAG_V & FLAG_C == 0 && FLAG_V & FLAG_Z == 0 && FLAG_N & FLAG_C == 0
            && FLAG_Z & FLAG_C == 0,
{
    assert(0x01u8 & 0x02u8 == 0 && 0x40u8 & 0x01u8 == 0 && 0x40u8 & 0x02u8 == 0 && 0x80u8 & 0x01u8 == 0
        && 0x02u8 & 0x01u8 == 0) by (bit_vector);
}

/// A byte read as a two's complement number.
pub open spec fn signed(x: u8) -> int {
    if x >= 0x80 { x - 256 } else { x as int }
}

/// ADC adds: A, the operand and the carry make the new A plus 256 when
/// the carry comes out set; V tells that the signed sum leaves
/// `-128..=127`; Z that the new A is zero.
pub proof fn lemma_adc_adds(r: Register, m: u8)
    ensures
        ({
            let q = read_spec(Read::ADC, r, m);
            &&& q.a + (if q.p.has(FLAG_C) { 256int } else { 0int }) == r.a + m + carry_in(r)
            &&& q.p.has(FLAG_V) == !(-128 <= signed(r.a) + signed(m) + carry_in(r) <= 127)
            &&& q.p.has(FLAG_Z) == (q.a == 0)
            &&& q.x == r.x && q.y == r.y && q.sp == r.sp && q.pc == r.pc
        }),
{
    lemma_flags_apart();
    let sum = r.a + m + carry_in(r);
    let res = (sum % 256) as u8;
    let p1 = nz(r.p, res);
    lemma_nz_flags(r.p, res);
    lemma_with_has(p1, FLAG_C, sum > 0xFF);
    lemma_with_keeps(p1, FLAG_C, FLAG_Z, sum > 0xFF);
    lemma_with_has(p1.with(FLAG_C, sum > 0xFF), FLAG_V, add_overflows(r.a, m, res));
    lemma_with_keeps(p1.with(FLAG_C, sum > 0xFF), FLAG_V, FLAG_C, add_overflows(r.a, m, res));
    lemma_with_keeps(p1.with(FLAG_C, sum > 0xFF), FLAG_V, FLAG_Z, add_overflows(r.a, m, res));
    assert(res == if sum >= 256 { sum - 256 } else { sum });
}

/// SBC subtracts with borrow: A minus the operand minus the borrow (the
/// clear carry) makes the new A, less 256 when the carry comes out clear
/// (a borrow); V tells that the signed difference leaves `-128..=127`.
pub proof fn lemma_sbc_subtracts(r: Register, m: u8)
    ensures
        ({
            let q = read_spec(Read::SBC, r, m);
            &&& q.a - (if q.p.has(FLAG_C) { 0int } else { 256int }) == r.a - m - (1 - carry_in(r))
            &&& q.p.has(FLAG_V) == !(-128 <= signed(r.a) - signed(m) - (1 - carry_in(r)) <= 127)
            &&& q.p.has(FLAG_Z) == (q.a == 0)
        }),
{
    lemma_flags_apart();
    let diff = r.a - m - (1 - carry_in(r));
    let res = (diff % 256) as u8;
    let v = (r.a < 0x80 && m >= 0x80 && res >= 0x80) || (r.a >= 0x80 && m < 0x80 && res < 0x80);
    let p1 = nz(r.p, res);
    lemma_nz_flags(r.p, res);
    lemma_with_has(p1, FLAG_C, diff >= 0);
    lemma_with_keeps(p1, FLAG_C, FLAG_Z, diff >= 0);
    lemma_with_has(p1.with(FLAG_C, diff >= 0), FLAG_V, v);
    lemma_with_keeps(p1.with(FLAG_C, diff >= 0), FLAG_V, FLAG_C, v);
    lemma_with_keeps(p1.with(FLAG_C, diff >= 0), FLAG_V, FLAG_Z, v);
    assert(res == if diff >= 0 { diff } else { diff + 256 });
}

/// CMP compares without storing: C tells that A is at least the operand,
/// Z that they are equal, N the sign bit of their difference; A stays.
pub proof fn lemma_compare_sets_flags(r: Register, m: u8)
    ensures
        ({
            let q = read_spec(Read::CMP, r, m);
            &&& q.p.has(FLAG_C) == (r.a >= m)
            &&& q.p.has(FLAG_Z) == (r.a == m)
            &&& q.p.has(FLAG_N) == ((r.a - m + 256) % 256 >= 0x80)
            &&& q.a == r.a && q.x == r.x && q.y == r.y
        }),
{
    lemma_flags_apart();
    let d = ((r.a - m) % 256) as u8;
    let p0 = r.p.with(FLAG_C, r.a >= m);
    lemma_with_has(r.p, FLAG_C, r.a >= m);
    lemma_nz_flags(p0, d);
    lemma_with_keeps(p0, FLAG_N, FLAG_C, d >= 0x80);
    lemma_with_keeps(p0.with(FLAG_N, d >= 0x80), FLAG_Z, FLAG_C, d == 0);
    assert(d == (r.a - m + 256) % 256);
}

/// Rotating left then right through the carry gives back the byte and the
/// carry, and so does rotating right then left.
pub proof fn lemma_rotates_undo(x: u8, c: bool)
    ensures
        ror_value(rol_value(x, c).0, rol_value(x, c).1) == (x, c),
        rol_value(ror_value(x, c).0, ror_value(x, c).1) == (x, c),
        asl_value(x).0 as int == 2 * (x % 128) && asl_value(x).1 == (x >= 0x80),
        lsr_value(x).0 as int * 2 + (if lsr_value(x).1 { 1int } else { 0int }) == x,
{
}

/// The one-byte register instructions: INX, INY, DEX, DEY count by one
/// modulo 256 (a decrement undoes an increment), with N and Z from the new
/// value; the flag instructions set or clear their flag and keep A, X and
/// Y; the transfers copy one register into another.
pub proof fn lemma_short_ops(r: Register)
    ensures
        short_spec(Short::INX, r).x == (r.x + 1) % 256,
        short_spec(Short::INY, r).y == (r.y + 1) % 256,
        short_spec(Short::DEX, r).x == (r.x + 255) % 256,
        short_spec(Short::DEY, r).y == (r.y + 255) % 256,
        short_spec(Short::DEX, short_spec(Short::INX, r)).x == r.x,
        short_spec(Short::DEY, short_spec(Short::INY, r)).y == r.y,
        short_spec(Short::INX, r).p.has(FLAG_Z) == (short_spec(Short::INX, r).x == 0),
        short_spec(Short::INX, r).p.has(FLAG_N) == (short_spec(Short::INX, r).x >= 0x80),
        short_spec(Short::DEY, r).p.has(FLAG_Z) == (short_spec(Short::DEY, r).y == 0),
        !short_spec(Short::CLC, r).p.has(FLAG_C) && short_spec(Short::SEC, r).p.has(FLAG_C),
        !short_spec(Short::CLI, r).p.has(FLAG_I) && short_spec(Short::SEI, r).p.has(FLAG_I),
        !short_spec(Short::CLD, r).p.has(FLAG_D) && short_spec(Short::SED, r).p.has(FLAG_D),
        !short_spec(Short::CLV, r).p.has(FLAG_V),
        short_spec(Short::SEC, r).a == r.a && short_spec(Short::SEC, r).x == r.x && short_spec(Short::SEC, r).y == r.y,
        short_spec(Short::TAX, r).x == r.a && short_spec(Short::TAY, r).y == r.a,
        short_spec(Short::TXA, r).a == r.x && short_spec(Short::TYA, r).a == r.y,
        short_spec(Short::TSX, r).x == r.sp && short_spec(Short::TXS, r).sp == r.x,
{
    assert(FLAG_C != 0 && FLAG_I != 0 && FLAG_D != 0 && FLAG_V != 0);
    lemma_with_has(r.p, FLAG_C, false);
    lemma_with_has(r.p, FLAG_C, true);
    lemma_with_has(r.p, FLAG_I, false);
    lemma_with_has(r.p, FLAG_I, true);
    lemma_with_has(r.p, FLAG_D, false);
    lemma_with_has(r.p, FLAG_D, true);
    lemma_with_has(r.p, FLAG_V, false);
    lemma_nz_flags(r.p, inc8(r.x, 1));
    lemma_nz_flags(r.p, dec8(r.y, 1));
}

} // verus!
