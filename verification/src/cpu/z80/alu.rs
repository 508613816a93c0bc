//! Arithmetic and logic, with the flags each operation leaves.
use vstd::prelude::*;
use crate::bits::same;
use crate::cpu::z80::cpu::{high, Cpu};
use crate::cpu::z80::flags::{set_if, sz53, sz53p, sz53p_of, FC, FH, FN, FP, FS, FX, FY, FZ};

verus! {

/// Whether a sum of signed bytes leaves the range of a signed byte.
pub open spec fn overflows8(x: int) -> bool {
    x < -128 || x > 127
}

/// Whether a sum of signed words leaves the range of a signed word.
pub open spec fn overflows16(x: int) -> bool {
    x < -32768 || x > 32767
}

/// Flags of `a + b + cin`.
#[verifier::opaque]
pub open spec fn add8_flags(a: u8, b: u8, cin: u8) -> u8 {
    let f = sz53(a.wrapping_add(b).wrapping_add(cin));
    let f = set_if(f, FH, a % 16 + b % 16 + cin > 15);
    let f = set_if(f, FP, overflows8((a as i8) + (b as i8) + cin));
    set_if(f, FC, a + b + cin > 255)
}

pub open spec fn add8_spec(c: Cpu, a: u8, b: u8, cin: u8) -> (Cpu, u8) {
    (c.with_f(add8_flags(a, b, cin)), a.wrapping_add(b).wrapping_add(cin))
}

pub fn add8(cpu: &mut Cpu, a: u8, b: u8, carry_in: u8) -> (r: u8)
    requires
        carry_in <= 1,
    ensures
        same((*final(cpu), r), add8_spec(*old(cpu), a, b, carry_in)),
{
    proof {
        reveal(add8_flags);
    }
    let r: u8 = a.wrapping_add(b).wrapping_add(carry_in);
    let signed: i16 = (a as i8) as i16 + (b as i8) as i16 + carry_in as i16;
    let f: u8 = sz53(r);
    let f: u8 = set_if(f, FH, a % 16 + b % 16 + carry_in > 15);
    let f: u8 = set_if(f, FP, signed < -128 || signed > 127);
    let f: u8 = set_if(f, FC, a as u16 + b as u16 + carry_in as u16 > 255);
    cpu.set_f(f);
    r
}

/// Flags of `a - b - cin`.
#[verifier::opaque]
pub open spec fn sub8_flags(a: u8, b: u8, cin: u8) -> u8 {
    let f = sz53(a.wrapping_sub(b).wrapping_sub(cin)) | FN;
    let f = set_if(f, FH, a % 16 < b % 16 + cin);
    let f = set_if(f, FP, overflows8((a as i8) - (b as i8) - cin));
    set_if(f, FC, a < b + cin)
}

pub open spec fn sub8_spec(c: Cpu, a: u8, b: u8, cin: u8) -> (Cpu, u8) {
    (c.with_f(sub8_flags(a, b, cin)), a.wrapping_sub(b).wrapping_sub(cin))
}

pub fn sub8(cpu: &mut Cpu, a: u8, b: u8, carry_in: u8) -> (r: u8)
    requires
        carry_in <= 1,
    ensures
        same((*final(cpu), r), sub8_spec(*old(cpu), a, b, carry_in)),
{
    proof {
        reveal(sub8_flags);
    }
    let r: u8 = a.wrapping_sub(b).wrapping_sub(carry_in);
    let signed: i16 = (a as i8) as i16 - (b as i8) as i16 - carry_in as i16;
    let f: u8 = sz53(r) | FN;
    let f: u8 = set_if(f, FH, a % 16 < b % 16 + carry_in);
    let f: u8 = set_if(f, FP, signed < -128 || signed > 127);
    let f: u8 = set_if(f, FC, (a as u16) < b as u16 + carry_in as u16);
    cpu.set_f(f);
    r
}

/// Compare: the flags of `a - b`, except that Y and X come from `b`.
#[verifier::opaque]
pub open spec fn cp8_flags(a: u8, b: u8) -> u8 {
    let r = a.wrapping_sub(b);
    let f = set_if((r & FS) | FN, FZ, r == 0);
    let f = set_if(f, FH, a % 16 < b % 16);
    let f = set_if(f, FP, overflows8((a as i8) - (b as i8)));
    let f = set_if(f, FC, a < b);
    f | (b & (FY | FX))
}

pub fn cp8(cpu: &mut Cpu, a: u8, b: u8)
    ensures
        *final(cpu) == old(cpu).with_f(cp8_flags(a, b)),
{
    proof {
        reveal(cp8_flags);
    }
    let r: u8 = a.wrapping_sub(b);
    let signed: i16 = (a as i8) as i16 - (b as i8) as i16;
    let f: u8 = set_if((r & FS) | FN, FZ, r == 0);
    let f: u8 = set_if(f, FH, a % 16 < b % 16);
    let f: u8 = set_if(f, FP, signed < -128 || signed > 127);
    let f: u8 = set_if(f, FC, a < b);
    cpu.set_f(f | (b & (FY | FX)));
}

pub fn and8(cpu: &mut Cpu, a: u8, b: u8) -> (r: u8)
    ensures
        r == a & b,
        *final(cpu) == old(cpu).with_f(sz53p_of(a & b) | FH),
{
    let r: u8 = a & b;
    cpu.set_f(sz53p(r) | FH);
    r
}

pub fn or8(cpu: &mut Cpu, a: u8, b: u8) -> (r: u8)
    ensures
        r == a | b,
        *final(cpu) == old(cpu).with_f(sz53p_of(a | b)),
{
    let r: u8 = a | b;
    cpu.set_f(sz53p(r));
    r
}

pub fn xor8(cpu: &mut Cpu, a: u8, b: u8) -> (r: u8)
    ensures
        r == a ^ b,
        *final(cpu) == old(cpu).with_f(sz53p_of(a ^ b)),
{
    let r: u8 = a ^ b;
    cpu.set_f(sz53p(r));
    r
}

/// The accumulator operation numbered `k`: ADD, ADC, SUB, SBC, AND, XOR, OR,
/// CP with operand `v`.
#[verifier::opaque]
pub open spec fn alu_spec(c: Cpu, k: u8, v: u8) -> Cpu {
    let a = c.regs.a;
    let cin = c.regs.f & FC;
    match k {
        0 => add8_spec(c, a, v, 0).0.with_a(add8_spec(c, a, v, 0).1),
        1 => add8_spec(c, a, v, cin).0.with_a(add8_spec(c, a, v, cin).1),
        2 => sub8_spec(c, a, v, 0).0.with_a(sub8_spec(c, a, v, 0).1),
        3 => sub8_spec(c, a, v, cin).0.with_a(sub8_spec(c, a, v, cin).1),
        4 => c.with_f(sz53p_of(a & v) | FH).with_a(a & v),
        5 => c.with_f(sz53p_of(a ^ v)).with_a(a ^ v),
        6 => c.with_f(sz53p_of(a | v)).with_a(a | v),
        _ => c.with_f(cp8_flags(a, v)),
    }
}

pub fn alu(cpu: &mut Cpu, k: u8, v: u8)
    ensures
        *final(cpu) == alu_spec(*old(cpu), k, v),
{
    proof {
        reveal(alu_spec);
    }
    let a: u8 = cpu.regs.a;
    let cin: u8 = cpu.regs.f & FC;
    proof {
        crate::bits::one_bit(cpu.regs.f);
    }
    match k {
        0 => {
            let r: u8 = add8(cpu, a, v, 0);
            cpu.set_a(r);
        }
        1 => {
            let r: u8 = add8(cpu, a, v, cin);
            cpu.set_a(r);
        }
        2 => {
            let r: u8 = sub8(cpu, a, v, 0);
            cpu.set_a(r);
        }
        3 => {
            let r: u8 = sub8(cpu, a, v, cin);
            cpu.set_a(r);
        }
        4 => {
            let r: u8 = and8(cpu, a, v);
            cpu.set_a(r);
        }
        5 => {
            let r: u8 = xor8(cpu, a, v);
            cpu.set_a(r);
        }
        6 => {
            let r: u8 = or8(cpu, a, v);
            cpu.set_a(r);
        }
        _ => {
            cp8(cpu, a, v);
        }
    }
}

/// Flags of `a + 1`; C is kept.
#[verifier::opaque]
pub open spec fn inc8_flags(f: u8, a: u8) -> u8 {
    let r = a.wrapping_add(1);
    set_if(set_if(sz53(r) | (f & FC), FH, a % 16 == 15), FP, a == 0x7F)
}

pub fn inc8(cpu: &mut Cpu, a: u8) -> (r: u8)
    ensures
        r == a.wrapping_add(1),
        *final(cpu) == old(cpu).with_f(inc8_flags(old(cpu).regs.f, a)),
{
    proof {
        reveal(inc8_flags);
    }
    let r: u8 = a.wrapping_add(1);
    let f: u8 = sz53(r) | (cpu.regs.f & FC);
    cpu.set_f(set_if(set_if(f, FH, a % 16 == 15), FP, a == 0x7F));
    r
}

/// Flags of `a - 1`; C is kept.
#[verifier::opaque]
pub open spec fn dec8_flags(f: u8, a: u8) -> u8 {
    let r = a.wrapping_sub(1);
    set_if(set_if(sz53(r) | (f & FC) | FN, FH, a % 16 == 0), FP, a == 0x80)
}

pub fn dec8(cpu: &mut Cpu, a: u8) -> (r: u8)
    ensures
        r == a.wrapping_sub(1),
        *final(cpu) == old(cpu).with_f(dec8_flags(old(cpu).regs.f, a)),
{
    proof {
        reveal(dec8_flags);
    }
    let r: u8 = a.wrapping_sub(1);
    let f: u8 = sz53(r) | (cpu.regs.f & FC) | FN;
    cpu.set_f(set_if(set_if(f, FH, a % 16 == 0), FP, a == 0x80));
    r
}

/// `a + b` on words: S, Z and P are kept, Y and X come from the high byte.
#[verifier::opaque]
pub open spec fn add16_spec(c: Cpu, a: u16, b: u16) -> (Cpu, u16) {
    let r = a.wrapping_add(b);
    let f = set_if(c.regs.f & (FS | FZ | FP), FH, a % 4096 + b % 4096 > 4095);
    let f = set_if(f, FC, a + b > 65535);
    (c.with_f(f | (high(r) & (FY | FX))).with_wz(a.wrapping_add(1)), r)
}

pub fn add16(cpu: &mut Cpu, a: u16, b: u16) -> (r: u16)
    ensures
        same((*final(cpu), r), add16_spec(*old(cpu), a, b)),
{
    proof {
        reveal(add16_spec);
    }
    let r: u16 = a.wrapping_add(b);
    let f: u8 = set_if(cpu.regs.f & (FS | FZ | FP), FH, a % 4096 + b % 4096 > 4095);
    let f: u8 = set_if(f, FC, a as u32 + b as u32 > 65535);
    cpu.set_f(f | (high(r) & (FY | FX)));
    cpu.set_wz(a.wrapping_add(1));
    r
}

/// `a + b + C` on words.
#[verifier::opaque]
pub open spec fn adc16_spec(c: Cpu, a: u16, b: u16) -> (Cpu, u16) {
    let cin = (c.regs.f & FC) as u16;
    let r = a.wrapping_add(b).wrapping_add(cin);
    let f = set_if(set_if(0, FS, r >= 0x8000), FZ, r == 0);
    let f = set_if(f, FH, a % 4096 + b % 4096 + cin > 4095);
    let f = set_if(f, FP, overflows16((a as i16) + (b as i16) + cin));
    let f = set_if(f, FC, a + b + cin > 65535);
    (c.with_f(f | (high(r) & (FY | FX))).with_wz(a.wrapping_add(1)), r)
}

pub fn adc16(cpu: &mut Cpu, a: u16, b: u16) -> (r: u16)
    ensures
        same((*final(cpu), r), adc16_spec(*old(cpu), a, b)),
{
    proof {
        reveal(adc16_spec);
    }
    proof {
        crate::bits::one_bit(cpu.regs.f);
    }
    let cin: u16 = (cpu.regs.f & FC) as u16;
    let r: u16 = a.wrapping_add(b).wrapping_add(cin);
    let signed: i32 = (a as i16) as i32 + (b as i16) as i32 + cin as i32;
    let f: u8 = set_if(set_if(0, FS, r >= 0x8000), FZ, r == 0);
    let f: u8 = set_if(f, FH, a % 4096 + b % 4096 + cin > 4095);
    let f: u8 = set_if(f, FP, signed < -32768 || signed > 32767);
    let f: u8 = set_if(f, FC, a as u32 + b as u32 + cin as u32 > 65535);
    cpu.set_f(f | (high(r) & (FY | FX)));
    cpu.set_wz(a.wrapping_add(1));
    r
}

/// `a - b - C` on words.
#[verifier::opaque]
pub open spec fn sbc16_spec(c: Cpu, a: u16, b: u16) -> (Cpu, u16) {
    let cin = (c.regs.f & FC) as u16;
    let r = a.wrapping_sub(b).wrapping_sub(cin);
    let f = set_if(set_if(FN, FS, r >= 0x8000), FZ, r == 0);
    let f = set_if(f, FH, a % 4096 < b % 4096 + cin);
    let f = set_if(f, FP, overflows16((a as i16) - (b as i16) - cin));
    let f = set_if(f, FC, a < b + cin);
    (c.with_f(f | (high(r) & (FY | FX))).with_wz(a.wrapping_add(1)), r)
}

pub fn sbc16(cpu: &mut Cpu, a: u16, b: u16) -> (r: u16)
    ensures
        same((*final(cpu), r), sbc16_spec(*old(cpu), a, b)),
{
    proof {
        reveal(sbc16_spec);
    }
    proof {
        crate::bits::one_bit(cpu.regs.f);
    }
    let cin: u16 = (cpu.regs.f & FC) as u16;
    let r: u16 = a.wrapping_sub(b).wrapping_sub(cin);
    let signed: i32 = (a as i16) as i32 - (b as i16) as i32 - cin as i32;
    let f: u8 = set_if(set_if(FN, FS, r >= 0x8000), FZ, r == 0);
    let f: u8 = set_if(f, FH, a % 4096 < b % 4096 + cin);
    let f: u8 = set_if(f, FP, signed < -32768 || signed > 32767);
    let f: u8 = set_if(f, FC, (a as u32) < b as u32 + cin as u32);
    cpu.set_f(f | (high(r) & (FY | FX)));
    cpu.set_wz(a.wrapping_add(1));
    r
}

/// What shifting or rotating `v` by one gives, and the bit that falls out into
/// C. `k` numbers RLC, RRC, RL, RR, SLA, SRA, SLL, SRL; `f` supplies the carry
/// that RL and RR shift in.
pub open spec fn rot_result(f: u8, k: u8, v: u8) -> (u8, u8) {
    match k {
        0 => ((v << 1) | (v >> 7), v >> 7),
        1 => ((v >> 1) | (v << 7), v & 1),
        2 => ((v << 1) | (f & FC), v >> 7),
        3 => ((v >> 1) | ((f & FC) << 7), v & 1),
        4 => (v << 1, v >> 7),
        5 => ((v >> 1) | (v & 0x80), v & 1),
        6 => ((v << 1) | 1, v >> 7),
        _ => (v >> 1, v & 1),
    }
}

#[verifier::opaque]
pub open spec fn rot_spec(c: Cpu, k: u8, v: u8) -> (Cpu, u8) {
    let (r, out) = rot_result(c.regs.f, k, v);
    (c.with_f(sz53p_of(r) | out), r)
}

pub fn rlc(cpu: &mut Cpu, v: u8) -> (r: u8)
    ensures
        same((*final(cpu), r), rot_spec(*old(cpu), 0, v)),
{
    proof {
        reveal(rot_spec);
    }
    let r: u8 = (v << 1) | (v >> 7);
    cpu.set_f(sz53p(r) | (v >> 7));
    r
}

pub fn rrc(cpu: &mut Cpu, v: u8) -> (r: u8)
    ensures
        same((*final(cpu), r), rot_spec(*old(cpu), 1, v)),
{
    proof {
        reveal(rot_spec);
    }
    let r: u8 = (v >> 1) | (v << 7);
    cpu.set_f(sz53p(r) | (v & 1));
    r
}

pub fn rl(cpu: &mut Cpu, v: u8) -> (r: u8)
    ensures
        same((*final(cpu), r), rot_spec(*old(cpu), 2, v)),
{
    proof {
        reveal(rot_spec);
    }
    let r: u8 = (v << 1) | (cpu.regs.f & FC);
    cpu.set_f(sz53p(r) | (v >> 7));
    r
}

pub fn rr(cpu: &mut Cpu, v: u8) -> (r: u8)
    ensures
        same((*final(cpu), r), rot_spec(*old(cpu), 3, v)),
{
    proof {
        reveal(rot_spec);
    }
    let r: u8 = (v >> 1) | ((cpu.regs.f & FC) << 7);
    cpu.set_f(sz53p(r) | (v & 1));
    r
}

pub fn sla(cpu: &mut Cpu, v: u8) -> (r: u8)
    ensures
        same((*final(cpu), r), rot_spec(*old(cpu), 4, v)),
{
    proof {
        reveal(rot_spec);
    }
    let r: u8 = v << 1;
    cpu.set_f(sz53p(r) | (v >> 7));
    r
}

pub fn sra(cpu: &mut Cpu, v: u8) -> (r: u8)
    ensures
        same((*final(cpu), r), rot_spec(*old(cpu), 5, v)),
{
    proof {
        reveal(rot_spec);
    }
    let r: u8 = (v >> 1) | (v & 0x80);
    cpu.set_f(sz53p(r) | (v & 1));
    r
}

/// The undocumented shift left that brings in a one.
pub fn sll(cpu: &mut Cpu, v: u8) -> (r: u8)
    ensures
        same((*final(cpu), r), rot_spec(*old(cpu), 6, v)),
{
    proof {
        reveal(rot_spec);
    }
    let r: u8 = (v << 1) | 1;
    cpu.set_f(sz53p(r) | (v >> 7));
    r
}

pub fn srl(cpu: &mut Cpu, v: u8) -> (r: u8)
    ensures
        same((*final(cpu), r), rot_spec(*old(cpu), 7, v)),
{
    proof {
        reveal(rot_spec);
    }
    let r: u8 = v >> 1;
    cpu.set_f(sz53p(r) | (v & 1));
    r
}

/// The shift or rotation numbered `k`.
pub fn rot(cpu: &mut Cpu, k: u8, v: u8) -> (r: u8)
    ensures
        same((*final(cpu), r), rot_spec(*old(cpu), k, v)),
{
    proof {
        reveal(rot_spec);
    }
    match k {
        0 => rlc(cpu, v),
        1 => rrc(cpu, v),
        2 => rl(cpu, v),
        3 => rr(cpu, v),
        4 => sla(cpu, v),
        5 => sra(cpu, v),
        6 => sll(cpu, v),
        _ => srl(cpu, v),
    }
}

/// Decimal adjust of A after an addition, or after a subtraction if N is set.
#[verifier::opaque]
pub open spec fn daa_spec(c: Cpu) -> Cpu {
    let a = c.regs.a;
    let n = c.regs.f & FN != 0;
    let h = c.regs.f & FH != 0;
    let carry = c.regs.f & FC != 0;
    let units: u8 = if a % 16 > 9 || h {
        0x06
    } else {
        0
    };
    let tens: u8 = if a > 0x99 || carry {
        0x60
    } else {
        0
    };
    let fix = (units + tens) as u8;
    let new_a = if n {
        a.wrapping_sub(fix)
    } else {
        a.wrapping_add(fix)
    };
    let new_h = if n {
        h && a % 16 < 6
    } else {
        a % 16 > 9
    };
    let f = set_if(set_if(sz53p_of(new_a), FN, n), FH, new_h);
    c.with_a(new_a).with_f(set_if(f, FC, a > 0x99 || carry))
}

pub fn daa(cpu: &mut Cpu)
    ensures
        *final(cpu) == daa_spec(*old(cpu)),
{
    proof {
        reveal(daa_spec);
    }
    let a: u8 = cpu.regs.a;
    let n: bool = (cpu.regs.f & FN) != 0;
    let h: bool = (cpu.regs.f & FH) != 0;
    let carry: bool = (cpu.regs.f & FC) != 0;
    let units: u8 = if a % 16 > 9 || h {
        0x06
    } else {
        0
    };
    let tens: u8 = if a > 0x99 || carry {
        0x60
    } else {
        0
    };
    let fix: u8 = units + tens;
    let new_a: u8 = if n {
        a.wrapping_sub(fix)
    } else {
        a.wrapping_add(fix)
    };
    let new_h: bool = if n {
        h && a % 16 < 6
    } else {
        a % 16 > 9
    };
    let f: u8 = set_if(set_if(sz53p(new_a), FN, n), FH, new_h);
    cpu.set_a(new_a);
    cpu.set_f(set_if(f, FC, a > 0x99 || carry));
}

}
