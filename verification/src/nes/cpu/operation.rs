//! The arithmetic and logic of the instruction set, on the registers.

use vstd::prelude::*;
use super::dec8;
use super::registers::{Register, Status, FLAG_C, FLAG_Z, FLAG_I, FLAG_D, FLAG_V, FLAG_N};

verus! {

/// The constant that LXA ORs into A (it varies between chips).
pub const LXA_CONST: u8 = 0xEE;
/// The constant that ANE ORs into A (it varies between chips).
pub const ANE_CONST: u8 = 0xEE;

/// `p` with N and Z describing `v`.
pub open spec fn nz(p: Status, v: u8) -> Status {
    p.with(FLAG_N, v >= 0x80).with(FLAG_Z, v == 0)
}

/// `r` with A loaded with `v` (N and Z follow).
pub open spec fn with_a(r: Register, v: u8) -> Register {
    Register { a: v, p: nz(r.p, v), ..r }
}

/// `r` with X loaded with `v` (N and Z follow).
pub open spec fn with_x(r: Register, v: u8) -> Register {
    Register { x: v, p: nz(r.p, v), ..r }
}

/// `r` with Y loaded with `v` (N and Z follow).
pub open spec fn with_y(r: Register, v: u8) -> Register {
    Register { y: v, p: nz(r.p, v), ..r }
}

/// The carry as a number.
pub open spec fn carry_in(r: Register) -> int {
    if r.p.has(FLAG_C) { 1 } else { 0 }
}

/// Two operands of the same sign whose 8-bit sum `res` has the other sign.
pub open spec fn add_overflows(a: u8, m: u8, res: u8) -> bool {
    (a < 0x80 && m < 0x80 && res >= 0x80) || (a >= 0x80 && m >= 0x80 && res < 0x80)
}

/// ADC: `A + m + C`; C is the carry out of bit 7, V the signed overflow.
pub open spec fn adc_spec(r: Register, m: u8) -> Register {
    let sum = r.a + m + carry_in(r);
    let res = (sum % 256) as u8;
    Register {
        a: res,
        p: nz(r.p, res).with(FLAG_C, sum > 0xFF).with(FLAG_V, add_overflows(r.a, m, res)),
        ..r
    }
}

/// SBC: `A - m - (1 - C)`; C is set when no borrow occurs, V when the
/// signed difference leaves the range of a byte.
pub open spec fn sbc_spec(r: Register, m: u8) -> Register {
    let diff = r.a - m - (1 - carry_in(r));
    let res = (diff % 256) as u8;
    let v = (r.a < 0x80 && m >= 0x80 && res >= 0x80) || (r.a >= 0x80 && m < 0x80 && res < 0x80);
    Register { a: res, p: nz(r.p, res).with(FLAG_C, diff >= 0).with(FLAG_V, v), ..r }
}

/// CMP/CPX/CPY: C when `v >= m`, N and Z from `v - m`.
pub open spec fn compare_spec(r: Register, v: u8, m: u8) -> Register {
    Register { p: nz(r.p.with(FLAG_C, v >= m), ((v - m) % 256) as u8), ..r }
}

/// ASL on a value: the result and the carry out.
pub open spec fn asl_value(m: u8) -> (u8, bool) {
    (((m * 2) % 256) as u8, m >= 0x80)
}

/// LSR on a value.
pub open spec fn lsr_value(m: u8) -> (u8, bool) {
    ((m / 2) as u8, m % 2 == 1)
}

/// ROL on a value with carry in `c`.
pub open spec fn rol_value(m: u8, c: bool) -> (u8, bool) {
    (((m * 2) % 256 + if c { 1int } else { 0int }) as u8, m >= 0x80)
}

/// ROR on a value with carry in `c`.
pub open spec fn ror_value(m: u8, c: bool) -> (u8, bool) {
    ((m / 2 + if c { 128int } else { 0int }) as u8, m % 2 == 1)
}

/// A shift or rotate applied to `m`: the new registers (C, N, Z) and the
/// new value.
pub open spec fn shifted_spec(r: Register, out: (u8, bool)) -> (Register, u8) {
    (Register { p: nz(r.p.with(FLAG_C, out.1), out.0), ..r }, out.0)
}

impl Register {
    fn set_nz(&mut self, v: u8)
        ensures
            *final(self) == (Register { p: nz(old(self).p, v), ..*old(self) }),
    {
        proof {
            crate::bits::lemma_u8_field_bounds();
        }
        self.p.set(FLAG_N, v & 0x80 != 0);
        self.p.set(FLAG_Z, v == 0);
    }

    fn set_a(&mut self, v: u8)
        ensures
            *final(self) == with_a(*old(self), v),
    {
        self.a = v;
        self.set_nz(v);
    }

    fn set_x(&mut self, v: u8)
        ensures
            *final(self) == with_x(*old(self), v),
    {
        self.x = v;
        self.set_nz(v);
    }

    fn set_y(&mut self, v: u8)
        ensures
            *final(self) == with_y(*old(self), v),
    {
        self.y = v;
        self.set_nz(v);
    }

    fn add_with_carry(&mut self, m: u8)
        ensures
            *final(self) == adc_spec(*old(self), m),
    {
        let old_a: u8 = self.a;
        let c: u16 = if self.p.contains(FLAG_C) { 1 } else { 0 };
        let res_u16: u16 = old_a as u16 + m as u16 + c;

        let res: u8 = (res_u16 % 256) as u8;
        self.set_a(res);
        let carry: bool = 0xFF < res_u16;
        proof {
            lemma_overflow_bit(old_a, m, res);
        }
        let overflow: bool = (old_a ^ self.a) & (m ^ self.a) & 0x80 != 0;
        self.p.set(FLAG_C, carry);
        self.p.set(FLAG_V, overflow);
    }

    fn compare(&mut self, v: u8, m: u8)
        ensures
            *final(self) == compare_spec(*old(self), v, m),
    {
        let res: u8 = v.wrapping_sub(m);
        self.p.set(FLAG_C, v >= m);
        self.set_nz(res);
    }

    // Implied instructions.

    pub fn inx(&mut self)
        ensures
            *final(self) == with_x(*old(self), ((old(self).x + 1) % 256) as u8),
    {
        self.set_x(self.x.wrapping_add(1));
    }

    pub fn iny(&mut self)
        ensures
            *final(self) == with_y(*old(self), ((old(self).y + 1) % 256) as u8),
    {
        self.set_y(self.y.wrapping_add(1));
    }

    pub fn dex(&mut self)
        ensures
            *final(self) == with_x(*old(self), ((old(self).x - 1) % 256) as u8),
    {
        self.set_x(self.x.wrapping_sub(1));
    }

    pub fn dey(&mut self)
        ensures
            *final(self) == with_y(*old(self), ((old(self).y - 1) % 256) as u8),
    {
        self.set_y(self.y.wrapping_sub(1));
    }

    pub fn clc(&mut self)
        ensures
            *final(self) == (Register { p: old(self).p.with(FLAG_C, false), ..*old(self) }),
    {
        self.p.remove(FLAG_C);
    }

    pub fn cld(&mut self)
        ensures
            *final(self) == (Register { p: old(self).p.with(FLAG_D, false), ..*old(self) }),
    {
        self.p.remove(FLAG_D);
    }

    pub fn cli(&mut self)
        ensures
            *final(self) == (Register { p: old(self).p.with(FLAG_I, false), ..*old(self) }),
    {
        self.p.remove(FLAG_I);
    }

    pub fn clv(&mut self)
        ensures
            *final(self) == (Register { p: old(self).p.with(FLAG_V, false), ..*old(self) }),
    {
        self.p.remove(FLAG_V);
    }

    pub fn sec(&mut self)
        ensures
            *final(self) == (Register { p: old(self).p.with(FLAG_C, true), ..*old(self) }),
    {
        self.p.insert(FLAG_C);
    }

    pub fn sed(&mut self)
        ensures
            *final(self) == (Register { p: old(self).p.with(FLAG_D, true), ..*old(self) }),
    {
        self.p.insert(FLAG_D);
    }

    pub fn sei(&mut self)
        ensures
            *final(self) == (Register { p: old(self).p.with(FLAG_I, true), ..*old(self) }),
    {
        self.p.insert(FLAG_I);
    }

    pub fn tax(&mut self)
        ensures
            *final(self) == with_x(*old(self), old(self).a),
    {
        self.set_x(self.a);
    }

    pub fn tay(&mut self)
        ensures
            *final(self) == with_y(*old(self), old(self).a),
    {
        self.set_y(self.a);
    }

    pub fn txa(&mut self)
        ensures
            *final(self) == with_a(*old(self), old(self).x),
    {
        self.set_a(self.x);
    }

    pub fn tya(&mut self)
        ensures
            *final(self) == with_a(*old(self), old(self).y),
    {
        self.set_a(self.y);
    }

    pub fn tsx(&mut self)
        ensures
            *final(self) == with_x(*old(self), old(self).sp),
    {
        self.set_x(self.sp);
    }

    pub fn txs(&mut self)
        ensures
            *final(self) == (Register { sp: old(self).x, ..*old(self) }),
    {
        self.sp = self.x;
    }

    // Branch conditions.

    pub fn bcs(&self) -> (r: bool)
        ensures
            r == self.p.has(FLAG_C),
    {
        self.p.contains(FLAG_C)
    }

    pub fn bcc(&self) -> (r: bool)
        ensures
            r == !self.p.has(FLAG_C),
    {
        !self.p.contains(FLAG_C)
    }

    pub fn beq(&self) -> (r: bool)
        ensures
            r == self.p.has(FLAG_Z),
    {
        self.p.contains(FLAG_Z)
    }

    pub fn bne(&self) -> (r: bool)
        ensures
            r == !self.p.has(FLAG_Z),
    {
        !self.p.contains(FLAG_Z)
    }

    pub fn bvs(&self) -> (r: bool)
        ensures
            r == self.p.has(FLAG_V),
    {
        self.p.contains(FLAG_V)
    }

    pub fn bvc(&self) -> (r: bool)
        ensures
            r == !self.p.has(FLAG_V),
    {
        !self.p.contains(FLAG_V)
    }

    pub fn bmi(&self) -> (r: bool)
        ensures
            r == self.p.has(FLAG_N),
    {
        self.p.contains(FLAG_N)
    }

    pub fn bpl(&self) -> (r: bool)
        ensures
            r == !self.p.has(FLAG_N),
    {
        !self.p.contains(FLAG_N)
    }

    // Read instructions.

    pub fn adc(&mut self, m: u8)
        ensures
            *final(self) == adc_spec(*old(self), m),
    {
        self.add_with_carry(m);
    }

    pub fn sbc(&mut self, m: u8)
        ensures
            *final(self) == sbc_spec(*old(self), m),
    {
        proof {
            crate::bits::lemma_u8_field_bounds();
            lemma_sbc_is_adc_of_complement(*self, m);
        }
        self.add_with_carry(!m);
    }

    pub fn and(&mut self, m: u8)
        ensures
            *final(self) == with_a(*old(self), old(self).a & m),
    {
        self.set_a(self.a & m);
    }

    pub fn ora(&mut self, m: u8)
        ensures
            *final(self) == with_a(*old(self), old(self).a | m),
    {
        self.set_a(self.a | m);
    }

    pub fn eor(&mut self, m: u8)
        ensures
            *final(self) == with_a(*old(self), old(self).a ^ m),
    {
        self.set_a(self.a ^ m);
    }

    pub fn cmp(&mut self, m: u8)
        ensures
            *final(self) == compare_spec(*old(self), old(self).a, m),
    {
        self.compare(self.a, m);
    }

    pub fn cpx(&mut self, m: u8)
        ensures
            *final(self) == compare_spec(*old(self), old(self).x, m),
    {
        self.compare(self.x, m);
    }

    pub fn cpy(&mut self, m: u8)
        ensures
            *final(self) == compare_spec(*old(self), old(self).y, m),
    {
        self.compare(self.y, m);
    }

    /// BIT: N and V from bits 7 and 6 of `m`, Z from `A & m`.
    pub fn bit(&mut self, m: u8)
        ensures
            *final(self) == (Register {
                p: old(self).p.with(FLAG_N, m >= 0x80).with(FLAG_V, (m / 64) % 2 == 1).with(FLAG_Z, old(self).a & m == 0),
                ..*old(self)
            }),
    {
        proof {
            crate::bits::lemma_u8_field_bounds();
        }
        self.p.set(FLAG_N, m & 0x80 != 0);
        self.p.set(FLAG_V, m & 0x40 != 0);
        self.p.set(FLAG_Z, self.a & m == 0);
    }

    pub fn lda(&mut self, m: u8)
        ensures
            *final(self) == with_a(*old(self), m),
    {
        self.set_a(m);
    }

    pub fn ldx(&mut self, m: u8)
        ensures
            *final(self) == with_x(*old(self), m),
    {
        self.set_x(m);
    }

    pub fn ldy(&mut self, m: u8)
        ensures
            *final(self) == with_y(*old(self), m),
    {
        self.set_y(m);
    }

    pub fn lax(&mut self, m: u8)
        ensures
            *final(self) == with_x(with_a(*old(self), m), m),
    {
        self.lda(m);
        self.ldx(m);
    }

    pub fn lxa(&mut self, m: u8)
        ensures
            *final(self) == with_x(with_a(*old(self), m & (old(self).a | LXA_CONST)), m & (old(self).a | LXA_CONST)),
    {
        let m: u8 = m & (self.a | LXA_CONST);
        self.lax(m);
    }

    pub fn las(&mut self, m: u8)
        ensures
            *final(self) == with_x(with_a(Register { sp: old(self).sp & m, ..*old(self) }, old(self).sp & m), old(self).sp & m),
    {
        let m: u8 = self.sp & m;
        self.sp = m;
        self.lax(m);
    }

    pub fn anc(&mut self, m: u8)
        ensures
            *final(self) == ({
                let r = with_a(*old(self), old(self).a & m);
                Register { p: r.p.with(FLAG_C, r.a >= 0x80), ..r }
            }),
    {
        proof {
            crate::bits::lemma_u8_field_bounds();
        }
        self.and(m);
        self.p.set(FLAG_C, self.a & 0x80 != 0);
    }

    pub fn alr(&mut self, m: u8)
        ensures
            *final(self) == ({
                let r = with_a(*old(self), old(self).a & m);
                let (r2, v) = shifted_spec(r, lsr_value(r.a));
                Register { a: v, ..r2 }
            }),
    {
        self.and(m);
        let mut tmp_a: u8 = self.a;
        self.lsr(&mut tmp_a);
        self.a = tmp_a;
    }

    pub fn arr(&mut self, m: u8)
        ensures
            *final(self) == ({
                let r = with_a(*old(self), old(self).a & m);
                let (r2, v) = shifted_spec(r, ror_value(r.a, r.p.has(FLAG_C)));
                let spec_bit = (v ^ ((v as int * 2) % 256) as u8) & 0x40;
                Register { a: v, p: r2.p.with(FLAG_C, (v / 64) % 2 == 1).with(FLAG_V, spec_bit != 0), ..r2 }
            }),
    {
        proof {
            crate::bits::lemma_u8_field_bounds();
        }
        self.and(m);
        let mut tmp_a: u8 = self.a;
        self.ror(&mut tmp_a);

        let spec_bit: u8 = (tmp_a ^ (tmp_a << 1u8)) & 0x40;
        self.p.set(FLAG_C, tmp_a & 0x40 != 0);
        self.p.set(FLAG_V, spec_bit != 0);
        self.a = tmp_a;
    }

    pub fn axs(&mut self, m: u8)
        ensures
            *final(self) == with_x(
                Register { p: old(self).p.with(FLAG_C, old(self).a & old(self).x >= m), ..*old(self) },
                (((old(self).a & old(self).x) - m) % 256) as u8,
            ),
    {
        let ax: u8 = self.a & self.x;
        self.p.set(FLAG_C, ax >= m);
        self.set_x(ax.wrapping_sub(m));
    }

    pub fn ane(&mut self, m: u8)
        ensures
            *final(self) == with_a(*old(self), (old(self).a | ANE_CONST) & old(self).x & m),
    {
        self.set_a((self.a | ANE_CONST) & self.x & m);
    }

    // Read-modify-write instructions: `m` is the value worked on.

    pub fn inc(&mut self, m: &mut u8)
        ensures
            *final(m) == ((*old(m) + 1) % 256) as u8,
            *final(self) == (Register { p: nz(old(self).p, *final(m)), ..*old(self) }),
    {
        *m = m.wrapping_add(1);
        self.set_nz(*m);
    }

    pub fn dec(&mut self, m: &mut u8)
        ensures
            *final(m) == ((*old(m) - 1) % 256) as u8,
            *final(self) == (Register { p: nz(old(self).p, *final(m)), ..*old(self) }),
    {
        *m = m.wrapping_sub(1);
        self.set_nz(*m);
    }

    pub fn asl(&mut self, m: &mut u8)
        ensures
            (*final(self), *final(m)) == shifted_spec(*old(self), asl_value(*old(m))),
    {
        proof {
            crate::bits::lemma_u8_field_bounds();
        }
        self.p.set(FLAG_C, *m & 0x80 != 0);
        *m = *m << 1u8;
        self.set_nz(*m);
    }

    pub fn lsr(&mut self, m: &mut u8)
        ensures
            (*final(self), *final(m)) == shifted_spec(*old(self), lsr_value(*old(m))),
    {
        proof {
            crate::bits::lemma_u8_field_bounds();
        }
        self.p.set(FLAG_C, *m & 0x01 != 0);
        *m = *m >> 1u8;
        self.set_nz(*m);
    }

    pub fn rol(&mut self, m: &mut u8)
        ensures
            (*final(self), *final(m)) == shifted_spec(*old(self), rol_value(*old(m), old(self).p.has(FLAG_C))),
    {
        proof {
            crate::bits::lemma_u8_field_bounds();
        }
        let old_c: bool = self.p.contains(FLAG_C);
        self.p.set(FLAG_C, *m & 0x80 != 0);
        *m = if old_c { (*m << 1u8) | 0x01u8 } else { *m << 1u8 };
        self.set_nz(*m);
    }

    pub fn ror(&mut self, m: &mut u8)
        ensures
            (*final(self), *final(m)) == shifted_spec(*old(self), ror_value(*old(m), old(self).p.has(FLAG_C))),
    {
        proof {
            crate::bits::lemma_u8_field_bounds();
        }
        let old_c: bool = self.p.contains(FLAG_C);
        self.p.set(FLAG_C, *m & 0x01 != 0);
        *m = if old_c { (*m >> 1u8) | 0x80u8 } else { *m >> 1u8 };
        self.set_nz(*m);
    }

    pub fn dcp(&mut self, m: &mut u8)
        ensures
            *final(m) == dec8(*old(m), 1),
            *final(self) == compare_spec(Register { p: nz(old(self).p, *final(m)), ..*old(self) }, old(self).a, *final(m)),
    {
        self.dec(m);
        self.cmp(*m);
    }

    pub fn isb(&mut self, m: &mut u8)
        ensures
            *final(m) == ((*old(m) + 1) % 256) as u8,
            *final(self) == sbc_spec(Register { p: nz(old(self).p, *final(m)), ..*old(self) }, *final(m)),
    {
        self.inc(m);
        self.sbc(*m);
    }

    pub fn rra(&mut self, m: &mut u8)
        ensures
            ({
                let (r, v) = shifted_spec(*old(self), ror_value(*old(m), old(self).p.has(FLAG_C)));
                *final(m) == v && *final(self) == adc_spec(r, v)
            }),
    {
        self.ror(m);
        self.adc(*m);
    }

    pub fn rla(&mut self, m: &mut u8)
        ensures
            ({
                let (r, v) = shifted_spec(*old(self), rol_value(*old(m), old(self).p.has(FLAG_C)));
                *final(m) == v && *final(self) == with_a(r, r.a & v)
            }),
    {
        self.rol(m);
        self.and(*m);
    }

    pub fn slo(&mut self, m: &mut u8)
        ensures
            ({
                let (r, v) = shifted_spec(*old(self), asl_value(*old(m)));
                *final(m) == v && *final(self) == with_a(r, r.a | v)
            }),
    {
        self.asl(m);
        self.ora(*m);
    }

    pub fn sre(&mut self, m: &mut u8)
        ensures
            ({
                let (r, v) = shifted_spec(*old(self), lsr_value(*old(m)));
                *final(m) == v && *final(self) == with_a(r, r.a ^ v)
            }),
    {
        self.lsr(m);
        self.eor(*m);
    }

    // Store values.

    pub fn sta(&self) -> (r: u8)
        ensures
            r == self.a,
    {
        self.a
    }

    pub fn stx(&self) -> (r: u8)
        ensures
            r == self.x,
    {
        self.x
    }

    pub fn sty(&self) -> (r: u8)
        ensures
            r == self.y,
    {
        self.y
    }

    pub fn sax(&self) -> (r: u8)
        ensures
            r == self.a & self.x,
    {
        self.a & self.x
    }

    // Unstable stores: `adh` is the high byte of the target address.

    pub fn sha(&mut self, adh: u8) -> (r: u8)
        ensures
            r == old(self).a & old(self).x & (((adh + 1) % 256) as u8),
            *final(self) == *old(self),
    {
        self.a & self.x & adh.wrapping_add(1)
    }

    pub fn shx(&mut self, adh: u8) -> (r: u8)
        ensures
            r == old(self).x & (((adh + 1) % 256) as u8),
            *final(self) == *old(self),
    {
        self.x & adh.wrapping_add(1)
    }

    pub fn shy(&mut self, adh: u8) -> (r: u8)
        ensures
            r == old(self).y & (((adh + 1) % 256) as u8),
            *final(self) == *old(self),
    {
        self.y & adh.wrapping_add(1)
    }

    pub fn shs(&mut self, adh: u8) -> (r: u8)
        ensures
            *final(self) == (Register { sp: old(self).a & old(self).x, ..*old(self) }),
            r == (old(self).a & old(self).x) & (((adh + 1) % 256) as u8),
    {
        self.sp = self.a & self.x;
        self.sp & adh.wrapping_add(1)
    }
}

/// The overflow flag of an addition, computed on bits as the hardware does,
/// is signed overflow.
proof fn lemma_overflow_bit(a: u8, m: u8, res: u8)
    ensures
        ((a ^ res) & (m ^ res) & 0x80 != 0) == add_overflows(a, m, res),
{
    assert(((a ^ res) & (m ^ res) & 0x80 != 0) ==
        ((a < 0x80 && m < 0x80 && res >= 0x80) || (a >= 0x80 && m >= 0x80 && res < 0x80))) by (bit_vector);
}

/// SBC is ADC of the complement: `A + !m + C` is `A - m - (1 - C)` plus
/// 256, so the results, the carries and the overflows agree.
pub proof fn lemma_sbc_is_adc_of_complement(r: Register, m: u8)
    ensures
        adc_spec(r, (255 - m) as u8) == sbc_spec(r, m),
{
}

} // verus!
