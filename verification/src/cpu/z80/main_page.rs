//! The unprefixed instructions.
use vstd::prelude::*;
use crate::bits::same;
use crate::cpu::z80::alu::{
    add16, add16_spec, alu, alu_spec, daa, daa_spec, dec8, dec8_flags, inc8, inc8_flags, rot_result,
};
use crate::cpu::z80::block::{read_hl, read_r8, read_r8_spec, write_hl, write_r8, write_r8_spec};
use crate::cpu::z80::bus::Z80Bus;
use crate::cpu::z80::cpu::{displaced, word, Cpu, Out, Regs};
use crate::cpu::z80::flags::{Flag, FC, FH, FN, FP, FS, FX, FY, FZ};

verus! {

/// The register pair numbered `k`: BC, DE, HL, SP.
#[verifier::allow_in_spec]
pub fn pair(cpu: &Cpu, k: u8) -> u16
    returns
        (match k {
            0 => cpu.regs.bc(),
            1 => cpu.regs.de(),
            2 => cpu.regs.hl(),
            _ => cpu.regs.sp,
        }),
{
    match k {
        0 => cpu.regs.bc(),
        1 => cpu.regs.de(),
        2 => cpu.regs.hl(),
        _ => cpu.regs.sp,
    }
}

pub open spec fn with_pair(c: Cpu, k: u8, v: u16) -> Cpu {
    match k {
        0 => c.with_bc(v),
        1 => c.with_de(v),
        2 => c.with_hl(v),
        _ => c.with_sp(v),
    }
}

pub fn set_pair(cpu: &mut Cpu, k: u8, v: u16)
    ensures
        *final(cpu) == with_pair(*old(cpu), k, v),
{
    match k {
        0 => {
            cpu.set_bc(v);
        }
        1 => {
            cpu.set_de(v);
        }
        2 => {
            cpu.set_hl(v);
        }
        _ => {
            cpu.set_sp(v);
        }
    }
}

/// The condition that the low three bits of `cc` name: NZ, Z, NC, C, PO, PE,
/// P, M.
#[verifier::allow_in_spec]
pub fn cond_true(cpu: &Cpu, cc: u8) -> bool
    returns
        (match cc & 7 {
            0 => !cpu.regs.get_flag(Flag::Z),
            1 => cpu.regs.get_flag(Flag::Z),
            2 => !cpu.regs.get_flag(Flag::C),
            3 => cpu.regs.get_flag(Flag::C),
            4 => !cpu.regs.get_flag(Flag::P),
            5 => cpu.regs.get_flag(Flag::P),
            6 => !cpu.regs.get_flag(Flag::S),
            _ => cpu.regs.get_flag(Flag::S),
        }),
{
    match cc & 7 {
        0 => !cpu.regs.get_flag(Flag::Z),
        1 => cpu.regs.get_flag(Flag::Z),
        2 => !cpu.regs.get_flag(Flag::C),
        3 => cpu.regs.get_flag(Flag::C),
        4 => !cpu.regs.get_flag(Flag::P),
        5 => cpu.regs.get_flag(Flag::P),
        6 => !cpu.regs.get_flag(Flag::S),
        _ => cpu.regs.get_flag(Flag::S),
    }
}

/// The latch after a byte is stored at `addr` from A: A above the low byte of
/// the next address.
#[verifier::allow_in_spec]
pub fn store_latch(a: u8, addr: u16) -> u16
    returns
        ((a as u16) << 8) | (addr.wrapping_add(1) & 0xFF),
{
    ((a as u16) << 8) | (addr.wrapping_add(1) & 0xFF)
}

/// RLCA, RRCA, RLA, RRA: the rotation numbered `k` on A, touching only C, H, N
/// and the copies Y and X.
#[verifier::opaque]
pub open spec fn rot_a_spec(c: Cpu, k: u8) -> Cpu {
    let (r, out) = rot_result(c.regs.f, k, c.regs.a);
    c.with_a(r).with_f((c.regs.f & (FS | FZ | FP)) | out | (r & (FY | FX)))
}

fn rot_a(cpu: &mut Cpu, k: u8)
    ensures
        *final(cpu) == rot_a_spec(*old(cpu), k),
{
    proof {
        reveal(rot_a_spec);
    }
    let a: u8 = cpu.regs.a;
    let carry: u8 = cpu.regs.f & FC;
    let (r, out): (u8, u8) = match k {
        0 => ((a << 1) | (a >> 7), a >> 7),
        1 => ((a >> 1) | (a << 7), a & 1),
        2 => ((a << 1) | carry, a >> 7),
        3 => ((a >> 1) | (carry << 7), a & 1),
        4 => (a << 1, a >> 7),
        5 => ((a >> 1) | (a & 0x80), a & 1),
        6 => ((a << 1) | 1, a >> 7),
        _ => (a >> 1, a & 1),
    };
    cpu.set_a(r);
    let f: u8 = (cpu.regs.f & (FS | FZ | FP)) | out | (r & (FY | FX));
    cpu.set_f(f);
}

/// Where SCF and CCF take Y and X from: A alone if the previous instruction
/// wrote F, else A and the stale F together.
pub open spec fn stale_yx(c: Cpu) -> u8 {
    (if c.regs.q == 0 {
        c.regs.a | c.regs.f
    } else {
        c.regs.a
    }) & (FY | FX)
}

#[verifier::opaque]
pub open spec fn scf_spec(c: Cpu) -> Cpu {
    c.with_f((c.regs.f & (FS | FZ | FP)) | FC | stale_yx(c))
}

#[verifier::opaque]
pub open spec fn ccf_spec(c: Cpu) -> Cpu {
    let carry = c.regs.f & FC;
    c.with_f((c.regs.f & (FS | FZ | FP)) | (carry << 4) | stale_yx(c) | (carry ^ FC))
}

fn scf(cpu: &mut Cpu)
    ensures
        *final(cpu) == scf_spec(*old(cpu)),
{
    proof {
        reveal(scf_spec);
    }
    let src: u8 = if cpu.regs.q == 0 {
        cpu.regs.a | cpu.regs.f
    } else {
        cpu.regs.a
    };
    let f: u8 = (cpu.regs.f & (FS | FZ | FP)) | FC | (src & (FY | FX));
    cpu.set_f(f);
}

fn ccf(cpu: &mut Cpu)
    ensures
        *final(cpu) == ccf_spec(*old(cpu)),
{
    proof {
        reveal(ccf_spec);
    }
    let carry: u8 = cpu.regs.f & FC;
    let src: u8 = if cpu.regs.q == 0 {
        cpu.regs.a | cpu.regs.f
    } else {
        cpu.regs.a
    };
    cpu.set_f(
        (cpu.regs.f & (FS | FZ | FP)) | (carry << 4) | (src & (FY | FX)) | (carry ^ FC),
    );
}

/// A relative jump by the operand byte, if `taken`.
#[verifier::opaque]
pub open spec fn jr_spec<B: Z80Bus>(
    c: Cpu,
    s: B::St,
    taken: bool,
    cost_taken: u32,
    cost_not: u32,
) -> Out<B::St, u32> {
    let (c1, s1, d) = c.read_op_spec::<B>(s);
    if taken {
        (c1.jumped(displaced(c1.regs.pc, d)), s1, cost_taken)
    } else {
        (c1, s1, cost_not)
    }
}

fn jr<B: Z80Bus>(cpu: &mut Cpu, bus: &mut B, taken: bool, cost_taken: u32, cost_not: u32) -> (cycles:
    u32)
    requires
        B::wf(old(bus).st()),
    ensures
        B::wf(final(bus).st()),
        same(
            (*final(cpu), final(bus).st(), cycles),
            jr_spec::<B>(*old(cpu), old(bus).st(), taken, cost_taken, cost_not),
        ),
{
    proof {
        reveal(jr_spec);
    }
    let d: u8 = cpu.read_op(bus);
    if taken {
        let target: u16 = displaced(cpu.regs.pc, d);
        cpu.jump(target);
        cost_taken
    } else {
        cost_not
    }
}

/// Loads among opcodes 00 to 3F.
pub open spec fn low_loads_spec<B: Z80Bus>(c: Cpu, s: B::St, op: u8) -> Out<B::St, u32> {
    let code = (op >> 3) & 7;
    let rp = (op >> 4) & 3;
    match op {
        0x01 | 0x11 | 0x21 | 0x31 => {
            let (c1, s1, v) = c.read_op16_spec::<B>(s);
            (with_pair(c1, rp, v), s1, 10)
        },
        0x02 => (
            c.with_wz(store_latch(c.regs.a, c.regs.bc())),
            B::write_next(s, c.regs.bc(), c.regs.a),
            7,
        ),
        0x12 => (
            c.with_wz(store_latch(c.regs.a, c.regs.de())),
            B::write_next(s, c.regs.de(), c.regs.a),
            7,
        ),
        0x0A | 0x1A => {
            let addr = if op == 0x0A {
                c.regs.bc()
            } else {
                c.regs.de()
            };
            (
                c.with_a(B::read_val(s, addr)).with_wz(addr.wrapping_add(1)),
                B::read_next(s, addr),
                7,
            )
        },
        0x22 => {
            let (c1, s1, addr) = c.read_op16_spec::<B>(s);
            let next = addr.wrapping_add(1);
            let s2 = B::write_next(B::write_next(s1, addr, c1.regs.l), next, c1.regs.h);
            (c1.with_wz(next), s2, 16)
        },
        0x32 => {
            let (c1, s1, addr) = c.read_op16_spec::<B>(s);
            (
                c1.with_wz(store_latch(c1.regs.a, addr)),
                B::write_next(s1, addr, c1.regs.a),
                13,
            )
        },
        0x2A => {
            let (c1, s1, addr) = c.read_op16_spec::<B>(s);
            let next = addr.wrapping_add(1);
            let s2 = B::read_next(s1, addr);
            let regs = Regs {
                l: B::read_val(s1, addr),
                h: B::read_val(s2, next),
                wz: next,
                ..c1.regs
            };
            (c1.with_regs(regs), B::read_next(s2, next), 16)
        },
        0x3A => {
            let (c1, s1, addr) = c.read_op16_spec::<B>(s);
            (
                c1.with_a(B::read_val(s1, addr)).with_wz(addr.wrapping_add(1)),
                B::read_next(s1, addr),
                13,
            )
        },
        0x06 | 0x0E | 0x16 | 0x1E | 0x26 | 0x2E | 0x3E => {
            let (c1, s1, n) = c.read_op_spec::<B>(s);
            (c1.with_reg8(code, n), s1, 7)
        },
        _ => {
            let (c1, s1, n) = c.read_op_spec::<B>(s);
            (c1, B::write_next(s1, c1.regs.hl(), n), 10)
        },
    }
}

fn low_loads<B: Z80Bus>(cpu: &mut Cpu, bus: &mut B, op: u8) -> (cycles: u32)
    requires
        B::wf(old(bus).st()),
    ensures
        B::wf(final(bus).st()),
        same(
            (*final(cpu), final(bus).st(), cycles),
            low_loads_spec::<B>(*old(cpu), old(bus).st(), op),
        ),
{
    let code: u8 = (op >> 3) & 7;
    let rp: u8 = (op >> 4) & 3;
    match op {
        0x01 | 0x11 | 0x21 | 0x31 => {
            let v: u16 = cpu.read_op16(bus);
            set_pair(cpu, rp, v);
            10
        }
        0x02 => {
            bus.write(cpu.regs.bc(), cpu.regs.a);
            let v: u16 = store_latch(cpu.regs.a, cpu.regs.bc());
            cpu.set_wz(v);
            7
        }
        0x12 => {
            bus.write(cpu.regs.de(), cpu.regs.a);
            let v: u16 = store_latch(cpu.regs.a, cpu.regs.de());
            cpu.set_wz(v);
            7
        }
        0x0A | 0x1A => {
            let addr: u16 = if op == 0x0A {
                cpu.regs.bc()
            } else {
                cpu.regs.de()
            };
            let v: u8 = bus.read(addr);
            cpu.set_a(v);
            cpu.set_wz(addr.wrapping_add(1));
            7
        }
        0x22 => {
            let addr: u16 = cpu.read_op16(bus);
            bus.write(addr, cpu.regs.l);
            bus.write(addr.wrapping_add(1), cpu.regs.h);
            cpu.set_wz(addr.wrapping_add(1));
            16
        }
        0x32 => {
            let addr: u16 = cpu.read_op16(bus);
            bus.write(addr, cpu.regs.a);
            let v: u16 = store_latch(cpu.regs.a, addr);
            cpu.set_wz(v);
            13
        }
        0x2A => {
            let addr: u16 = cpu.read_op16(bus);
            let v: u8 = bus.read(addr);
            cpu.regs.l = v;
            let v: u8 = bus.read(addr.wrapping_add(1));
            cpu.regs.h = v;
            cpu.set_wz(addr.wrapping_add(1));
            16
        }
        0x3A => {
            let addr: u16 = cpu.read_op16(bus);
            let v: u8 = bus.read(addr);
            cpu.set_a(v);
            cpu.set_wz(addr.wrapping_add(1));
            13
        }
        0x06 | 0x0E | 0x16 | 0x1E | 0x26 | 0x2E | 0x3E => {
            let n: u8 = cpu.read_op(bus);
            cpu.set_reg8(code, n);
            7
        }
        _ => {
            let n: u8 = cpu.read_op(bus);
            write_hl(cpu, bus, n);
            10
        }
    }
}

/// Arithmetic among opcodes 00 to 3F.
pub open spec fn low_alu_spec<B: Z80Bus>(c: Cpu, s: B::St, op: u8) -> Out<B::St, u32> {
    let code = (op >> 3) & 7;
    let rp = (op >> 4) & 3;
    match op {
        0x03 | 0x13 | 0x23 | 0x33 => (with_pair(c, rp, pair(&c, rp).wrapping_add(1)), s, 6),
        0x0B | 0x1B | 0x2B | 0x3B => (with_pair(c, rp, pair(&c, rp).wrapping_sub(1)), s, 6),
        0x04 | 0x0C | 0x14 | 0x1C | 0x24 | 0x2C | 0x3C => {
            let v = c.regs.reg8(code);
            (c.with_f(inc8_flags(c.regs.f, v)).with_reg8(code, v.wrapping_add(1)), s, 4)
        },
        0x34 => {
            let v = B::read_val(s, c.regs.hl());
            let s1 = B::write_next(B::read_next(s, c.regs.hl()), c.regs.hl(), v.wrapping_add(1));
            (c.with_f(inc8_flags(c.regs.f, v)), s1, 11)
        },
        0x05 | 0x0D | 0x15 | 0x1D | 0x25 | 0x2D | 0x3D => {
            let v = c.regs.reg8(code);
            (c.with_f(dec8_flags(c.regs.f, v)).with_reg8(code, v.wrapping_sub(1)), s, 4)
        },
        0x35 => {
            let v = B::read_val(s, c.regs.hl());
            let s1 = B::write_next(B::read_next(s, c.regs.hl()), c.regs.hl(), v.wrapping_sub(1));
            (c.with_f(dec8_flags(c.regs.f, v)), s1, 11)
        },
        0x09 | 0x19 | 0x29 | 0x39 => {
            let (c1, r) = add16_spec(c, c.regs.hl(), pair(&c, rp));
            (c1.with_hl(r), s, 11)
        },
        0x27 => (daa_spec(c), s, 4),
        0x2F => {
            let a = !c.regs.a;
            let f = (c.regs.f & (FS | FZ | FP | FC)) | FH | FN | (a & (FY | FX));
            (c.with_a(a).with_f(f), s, 4)
        },
        0x37 => (scf_spec(c), s, 4),
        _ => (ccf_spec(c), s, 4),
    }
}

fn low_alu<B: Z80Bus>(cpu: &mut Cpu, bus: &mut B, op: u8) -> (cycles: u32)
    requires
        B::wf(old(bus).st()),
    ensures
        B::wf(final(bus).st()),
        same(
            (*final(cpu), final(bus).st(), cycles),
            low_alu_spec::<B>(*old(cpu), old(bus).st(), op),
        ),
{
    let code: u8 = (op >> 3) & 7;
    let rp: u8 = (op >> 4) & 3;
    match op {
        0x03 | 0x13 | 0x23 | 0x33 => {
            let v: u16 = pair(cpu, rp).wrapping_add(1);
            set_pair(cpu, rp, v);
            6
        }
        0x0B | 0x1B | 0x2B | 0x3B => {
            let v: u16 = pair(cpu, rp).wrapping_sub(1);
            set_pair(cpu, rp, v);
            6
        }
        0x04 | 0x0C | 0x14 | 0x1C | 0x24 | 0x2C | 0x3C => {
            let v: u8 = cpu.regs.reg8(code);
            let r: u8 = inc8(cpu, v);
            cpu.set_reg8(code, r);
            4
        }
        0x34 => {
            let v: u8 = read_hl(cpu, bus);
            let r: u8 = inc8(cpu, v);
            write_hl(cpu, bus, r);
            11
        }
        0x05 | 0x0D | 0x15 | 0x1D | 0x25 | 0x2D | 0x3D => {
            let v: u8 = cpu.regs.reg8(code);
            let r: u8 = dec8(cpu, v);
            cpu.set_reg8(code, r);
            4
        }
        0x35 => {
            let v: u8 = read_hl(cpu, bus);
            let r: u8 = dec8(cpu, v);
            write_hl(cpu, bus, r);
            11
        }
        0x09 | 0x19 | 0x29 | 0x39 => {
            let hl: u16 = cpu.regs.hl();
            let v: u16 = pair(cpu, rp);
            let r: u16 = add16(cpu, hl, v);
            cpu.set_hl(r);
            11
        }
        0x27 => {
            daa(cpu);
            4
        }
        0x2F => {
            let v: u8 = !cpu.regs.a;
            cpu.set_a(v);
            cpu.set_f(
                (cpu.regs.f & (FS | FZ | FP | FC)) | FH | FN | (cpu.regs.a & (FY | FX)),
            );
            4
        }
        0x37 => {
            scf(cpu);
            4
        }
        _ => {
            ccf(cpu);
            4
        }
    }
}

/// The rest of opcodes 00 to 3F: NOP, EX AF, relative jumps, rotations of A.
pub open spec fn low_other_spec<B: Z80Bus>(c: Cpu, s: B::St, op: u8) -> Out<B::St, u32> {
    match op {
        0x00 => (c, s, 4),
        0x08 => {
            let c1 = c.with_af(c.regs.af_);
            (c1.with_regs(Regs { af_: c.regs.af(), ..c1.regs }), s, 4)
        },
        0x10 => {
            let b = c.regs.b.wrapping_sub(1);
            jr_spec::<B>(c.with_regs(Regs { b, ..c.regs }), s, b != 0, 13, 8)
        },
        0x18 => jr_spec::<B>(c, s, true, 12, 12),
        0x20 | 0x28 | 0x30 | 0x38 => jr_spec::<B>(c, s, cond_true(&c, (op >> 3) & 3), 12, 7),
        0x07 => (rot_a_spec(c, 0), s, 4),
        0x0F => (rot_a_spec(c, 1), s, 4),
        0x17 => (rot_a_spec(c, 2), s, 4),
        _ => (rot_a_spec(c, 3), s, 4),
    }
}

fn low_other<B: Z80Bus>(cpu: &mut Cpu, bus: &mut B, op: u8) -> (cycles: u32)
    requires
        B::wf(old(bus).st()),
    ensures
        B::wf(final(bus).st()),
        same(
            (*final(cpu), final(bus).st(), cycles),
            low_other_spec::<B>(*old(cpu), old(bus).st(), op),
        ),
{
    match op {
        0x00 => 4,
        0x08 => {
            let current: u16 = cpu.regs.af();
            let other: u16 = cpu.regs.af_;
            cpu.set_af(other);
            cpu.regs.af_ = current;
            4
        }
        0x10 => {
            cpu.regs.b = cpu.regs.b.wrapping_sub(1);
            let taken: bool = cpu.regs.b != 0;
            jr(cpu, bus, taken, 13, 8)
        }
        0x18 => jr(cpu, bus, true, 12, 12),
        0x20 | 0x28 | 0x30 | 0x38 => {
            let taken: bool = cond_true(cpu, (op >> 3) & 3);
            jr(cpu, bus, taken, 12, 7)
        }
        0x07 => {
            rot_a(cpu, 0);
            4
        }
        0x0F => {
            rot_a(cpu, 1);
            4
        }
        0x17 => {
            rot_a(cpu, 2);
            4
        }
        _ => {
            rot_a(cpu, 3);
            4
        }
    }
}

/// Opcodes 00 to 3F.
pub open spec fn low_page_spec<B: Z80Bus>(c: Cpu, s: B::St, op: u8) -> Out<B::St, u32> {
    match op {
        0x01 | 0x11 | 0x21 | 0x31 | 0x02 | 0x12 | 0x0A | 0x1A | 0x22 | 0x32 | 0x2A | 0x3A
        | 0x06 | 0x0E | 0x16 | 0x1E | 0x26 | 0x2E | 0x3E | 0x36 => low_loads_spec::<B>(c, s, op),
        0x03 | 0x13 | 0x23 | 0x33 | 0x0B | 0x1B | 0x2B | 0x3B | 0x04 | 0x0C | 0x14 | 0x1C
        | 0x24 | 0x2C | 0x3C | 0x34 | 0x05 | 0x0D | 0x15 | 0x1D | 0x25 | 0x2D | 0x3D
        | 0x35 | 0x09 | 0x19 | 0x29 | 0x39 | 0x27 | 0x2F | 0x37 | 0x3F => low_alu_spec::<B>(c, s, op),
        _ => low_other_spec::<B>(c, s, op),
    }
}

pub fn low_page<B: Z80Bus>(cpu: &mut Cpu, bus: &mut B, op: u8) -> (cycles: u32)
    requires
        B::wf(old(bus).st()),
    ensures
        B::wf(final(bus).st()),
        same(
            (*final(cpu), final(bus).st(), cycles),
            low_page_spec::<B>(*old(cpu), old(bus).st(), op),
        ),
{
    match op {
        0x01 | 0x11 | 0x21 | 0x31 | 0x02 | 0x12 | 0x0A | 0x1A | 0x22 | 0x32 | 0x2A | 0x3A
        | 0x06 | 0x0E | 0x16 | 0x1E | 0x26 | 0x2E | 0x3E | 0x36 => low_loads(cpu, bus, op),
        0x03 | 0x13 | 0x23 | 0x33 | 0x0B | 0x1B | 0x2B | 0x3B | 0x04 | 0x0C | 0x14 | 0x1C
        | 0x24 | 0x2C | 0x3C | 0x34 | 0x05 | 0x0D | 0x15 | 0x1D | 0x25 | 0x2D | 0x3D
        | 0x35 | 0x09 | 0x19 | 0x29 | 0x39 | 0x27 | 0x2F | 0x37 | 0x3F => low_alu(cpu, bus, op),
        _ => low_other(cpu, bus, op),
    }
}

/// Opcodes 40 to BF: HALT, loads between operands, and accumulator operations.
pub open spec fn mid_page_spec<B: Z80Bus>(c: Cpu, s: B::St, op: u8) -> Out<B::St, u32> {
    let k = (op >> 3) & 7;
    let src = op & 7;
    if op == 0x76 {
        (c.with_regs(Regs { halted: true, ..c.regs }), s, 4)
    } else {
        let (s1, v) = read_r8_spec::<B>(c, s, src);
        if op < 0x80 {
            let (c1, s2) = write_r8_spec::<B>(c, s1, k, v);
            (c1, s2, if k == 6 || src == 6 { 7 } else { 4 })
        } else {
            (alu_spec(c, k, v), s1, if src == 6 { 7 } else { 4 })
        }
    }
}

pub fn mid_page<B: Z80Bus>(cpu: &mut Cpu, bus: &mut B, op: u8) -> (cycles: u32)
    requires
        B::wf(old(bus).st()),
    ensures
        B::wf(final(bus).st()),
        same(
            (*final(cpu), final(bus).st(), cycles),
            mid_page_spec::<B>(*old(cpu), old(bus).st(), op),
        ),
{
    let k: u8 = (op >> 3) & 7;
    let src: u8 = op & 7;
    if op == 0x76 {
        cpu.regs.halted = true;
        4
    } else {
        let v: u8 = read_r8(cpu, bus, src);
        if op < 0x80 {
            write_r8(cpu, bus, k, v);
            if k == 6 || src == 6 {
                7
            } else {
                4
            }
        } else {
            alu(cpu, k, v);
            if src == 6 {
                7
            } else {
                4
            }
        }
    }
}

/// Jumps, calls, returns and restarts.
pub open spec fn high_flow_spec<B: Z80Bus>(c: Cpu, s: B::St, op: u8) -> Out<B::St, u32> {
    let cc = (op >> 3) & 7;
    match op {
        0xC0 | 0xC8 | 0xD0 | 0xD8 | 0xE0 | 0xE8 | 0xF0 | 0xF8 => {
            if cond_true(&c, cc) {
                let (c1, s1, t) = c.pop16_spec::<B>(s);
                (c1.jumped(t), s1, 11)
            } else {
                (c, s, 5)
            }
        },
        0xC9 => {
            let (c1, s1, t) = c.pop16_spec::<B>(s);
            (c1.jumped(t), s1, 10)
        },
        0xC3 => {
            let (c1, s1, t) = c.read_op16_spec::<B>(s);
            (c1.jumped(t), s1, 10)
        },
        0xC2 | 0xCA | 0xD2 | 0xDA | 0xE2 | 0xEA | 0xF2 | 0xFA => {
            let (c1, s1, t) = c.read_op16_spec::<B>(s);
            (if cond_true(&c, cc) { c1.jumped(t) } else { c1.with_wz(t) }, s1, 10)
        },
        0xCD => {
            let (c1, s1, t) = c.read_op16_spec::<B>(s);
            let (c2, s2) = c1.push16_spec::<B>(s1, c1.regs.pc);
            (c2.jumped(t), s2, 17)
        },
        0xC4 | 0xCC | 0xD4 | 0xDC | 0xE4 | 0xEC | 0xF4 | 0xFC => {
            let (c1, s1, t) = c.read_op16_spec::<B>(s);
            if cond_true(&c, cc) {
                let (c2, s2) = c1.push16_spec::<B>(s1, c1.regs.pc);
                (c2.jumped(t), s2, 17)
            } else {
                (c1.with_wz(t), s1, 10)
            }
        },
        0xC7 | 0xCF | 0xD7 | 0xDF | 0xE7 | 0xEF | 0xF7 | 0xFF => {
            let (c1, s1) = c.push16_spec::<B>(s, c.regs.pc);
            (c1.jumped((op & 0x38) as u16), s1, 11)
        },
        _ => (c.with_pc(c.regs.hl()), s, 4),
    }
}

fn high_flow<B: Z80Bus>(cpu: &mut Cpu, bus: &mut B, op: u8) -> (cycles: u32)
    requires
        B::wf(old(bus).st()),
    ensures
        B::wf(final(bus).st()),
        same(
            (*final(cpu), final(bus).st(), cycles),
            high_flow_spec::<B>(*old(cpu), old(bus).st(), op),
        ),
{
    let cc: u8 = (op >> 3) & 7;
    match op {
        0xC0 | 0xC8 | 0xD0 | 0xD8 | 0xE0 | 0xE8 | 0xF0 | 0xF8 => {
            if cond_true(cpu, cc) {
                let t: u16 = cpu.pop16(bus);
                cpu.jump(t);
                11
            } else {
                5
            }
        }
        0xC9 => {
            let t: u16 = cpu.pop16(bus);
            cpu.jump(t);
            10
        }
        0xC3 => {
            let t: u16 = cpu.read_op16(bus);
            cpu.jump(t);
            10
        }
        0xC2 | 0xCA | 0xD2 | 0xDA | 0xE2 | 0xEA | 0xF2 | 0xFA => {
            let taken: bool = cond_true(cpu, cc);
            let t: u16 = cpu.read_op16(bus);
            if taken {
                cpu.jump(t);
            } else {
                cpu.set_wz(t);
            }
            10
        }
        0xCD => {
            let t: u16 = cpu.read_op16(bus);
            let pc: u16 = cpu.regs.pc;
            cpu.push16(bus, pc);
            cpu.jump(t);
            17
        }
        0xC4 | 0xCC | 0xD4 | 0xDC | 0xE4 | 0xEC | 0xF4 | 0xFC => {
            let taken: bool = cond_true(cpu, cc);
            let t: u16 = cpu.read_op16(bus);
            if taken {
                let pc: u16 = cpu.regs.pc;
                cpu.push16(bus, pc);
                cpu.jump(t);
                17
            } else {
                cpu.set_wz(t);
                10
            }
        }
        0xC7 | 0xCF | 0xD7 | 0xDF | 0xE7 | 0xEF | 0xF7 | 0xFF => {
            let pc: u16 = cpu.regs.pc;
            cpu.push16(bus, pc);
            cpu.jump((op & 0x38) as u16);
            11
        }
        _ => {
            let v: u16 = cpu.regs.hl();
            cpu.set_pc(v);
            4
        }
    }
}

/// Stack and exchange instructions.
pub open spec fn high_stack_spec<B: Z80Bus>(c: Cpu, s: B::St, op: u8) -> Out<B::St, u32> {
    let rp = (op >> 4) & 3;
    match op {
        0xC1 | 0xD1 | 0xE1 | 0xF1 => {
            let (c1, s1, v) = c.pop16_spec::<B>(s);
            (if rp == 3 { c1.with_af(v) } else { with_pair(c1, rp, v) }, s1, 10)
        },
        0xC5 | 0xD5 | 0xE5 | 0xF5 => {
            let v = if rp == 3 {
                c.regs.af()
            } else {
                pair(&c, rp)
            };
            let (c1, s1) = c.push16_spec::<B>(s, v);
            (c1, s1, 11)
        },
        0xD9 => {
            let r = c.regs;
            let swapped = r.with_bc(r.bc_).with_de(r.de_).with_hl(r.hl_);
            (
                c.with_regs(Regs { bc_: r.bc(), de_: r.de(), hl_: r.hl(), ..swapped }),
                s,
                4,
            )
        },
        0xE3 => {
            let sp = c.regs.sp;
            let sp1 = sp.wrapping_add(1);
            let (s1, lo) = (B::read_next(s, sp), B::read_val(s, sp));
            let (s2, hi) = (B::read_next(s1, sp1), B::read_val(s1, sp1));
            let s3 = B::write_next(B::write_next(s2, sp, c.regs.l), sp1, c.regs.h);
            (c.with_hl(word(hi, lo)).with_wz(word(hi, lo)), s3, 19)
        },
        0xEB => (c.with_de(c.regs.hl()).with_hl(c.regs.de()), s, 4),
        _ => (c.with_sp(c.regs.hl()), s, 6),
    }
}

fn high_stack<B: Z80Bus>(cpu: &mut Cpu, bus: &mut B, op: u8) -> (cycles: u32)
    requires
        B::wf(old(bus).st()),
    ensures
        B::wf(final(bus).st()),
        same(
            (*final(cpu), final(bus).st(), cycles),
            high_stack_spec::<B>(*old(cpu), old(bus).st(), op),
        ),
{
    let rp: u8 = (op >> 4) & 3;
    match op {
        0xC1 | 0xD1 | 0xE1 | 0xF1 => {
            let v: u16 = cpu.pop16(bus);
            // POP AF changes F without counting as an instruction that
            // writes the flags.
            if rp == 3 {
                cpu.set_af(v);
            } else {
                set_pair(cpu, rp, v);
            }
            10
        }
        0xC5 | 0xD5 | 0xE5 | 0xF5 => {
            let v: u16 = if rp == 3 {
                cpu.regs.af()
            } else {
                pair(cpu, rp)
            };
            cpu.push16(bus, v);
            11
        }
        0xD9 => {
            let bc: u16 = cpu.regs.bc();
            let de: u16 = cpu.regs.de();
            let hl: u16 = cpu.regs.hl();
            let other: Regs = cpu.regs;
            cpu.set_bc(other.bc_);
            cpu.set_de(other.de_);
            cpu.set_hl(other.hl_);
            cpu.regs.bc_ = bc;
            cpu.regs.de_ = de;
            cpu.regs.hl_ = hl;
            4
        }
        0xE3 => {
            let sp: u16 = cpu.regs.sp;
            let lo: u8 = bus.read(sp);
            let hi: u8 = bus.read(sp.wrapping_add(1));
            bus.write(sp, cpu.regs.l);
            bus.write(sp.wrapping_add(1), cpu.regs.h);
            cpu.set_hl(word(hi, lo));
            cpu.set_wz(word(hi, lo));
            19
        }
        0xEB => {
            let de: u16 = cpu.regs.de();
            let hl: u16 = cpu.regs.hl();
            cpu.set_de(hl);
            cpu.set_hl(de);
            4
        }
        _ => {
            let v: u16 = cpu.regs.hl();
            cpu.set_sp(v);
            6
        }
    }
}

/// Immediate accumulator operations, port I/O and the interrupt enable.
pub open spec fn high_other_spec<B: Z80Bus>(c: Cpu, s: B::St, op: u8) -> Out<B::St, u32> {
    let cc = (op >> 3) & 7;
    match op {
        0xC6 | 0xCE | 0xD6 | 0xDE | 0xE6 | 0xEE | 0xF6 | 0xFE => {
            let (c1, s1, n) = c.read_op_spec::<B>(s);
            (alu_spec(c1, cc, n), s1, 7)
        },
        0xD3 => {
            let (c1, s1, n) = c.read_op_spec::<B>(s);
            let a = c1.regs.a;
            (c1.with_wz(word(a, n.wrapping_add(1))), B::out_next(s1, word(a, n), a), 11)
        },
        0xDB => {
            let (c1, s1, n) = c.read_op_spec::<B>(s);
            let port = word(c1.regs.a, n);
            (
                c1.with_a(B::in_val(s1, port)).with_wz(port.wrapping_add(1)),
                B::in_next(s1, port),
                11,
            )
        },
        0xF3 => (c.with_regs(Regs { iff1: false, iff2: false, ..c.regs }), s, 4),
        _ => (
            Cpu { regs: Regs { iff1: true, iff2: true, ..c.regs }, ei_delay: true, ..c },
            s,
            4,
        ),
    }
}

fn high_other<B: Z80Bus>(cpu: &mut Cpu, bus: &mut B, op: u8) -> (cycles: u32)
    requires
        B::wf(old(bus).st()),
    ensures
        B::wf(final(bus).st()),
        same(
            (*final(cpu), final(bus).st(), cycles),
            high_other_spec::<B>(*old(cpu), old(bus).st(), op),
        ),
{
    let cc: u8 = (op >> 3) & 7;
    match op {
        0xC6 | 0xCE | 0xD6 | 0xDE | 0xE6 | 0xEE | 0xF6 | 0xFE => {
            let n: u8 = cpu.read_op(bus);
            alu(cpu, cc, n);
            7
        }
        0xD3 => {
            let n: u8 = cpu.read_op(bus);
            let port: u16 = word(cpu.regs.a, n);
            bus.io_write(port, cpu.regs.a);
            let v: u16 = word(cpu.regs.a, n.wrapping_add(1));
            cpu.set_wz(v);
            11
        }
        0xDB => {
            let n: u8 = cpu.read_op(bus);
            let port: u16 = word(cpu.regs.a, n);
            let v: u8 = bus.io_read(port);
            cpu.set_a(v);
            cpu.set_wz(port.wrapping_add(1));
            11
        }
        0xF3 => {
            cpu.regs.iff1 = false;
            cpu.regs.iff2 = false;
            4
        }
        _ => {
            cpu.regs.iff1 = true;
            cpu.regs.iff2 = true;
            cpu.ei_delay = true;
            4
        }
    }
}

/// Opcodes C0 to FF without the four prefixes.
pub open spec fn high_page_spec<B: Z80Bus>(c: Cpu, s: B::St, op: u8) -> Out<B::St, u32> {
    match op {
        0xC0 | 0xC8 | 0xD0 | 0xD8 | 0xE0 | 0xE8 | 0xF0 | 0xF8 | 0xC9 | 0xC3 | 0xC2 | 0xCA
        | 0xD2 | 0xDA | 0xE2 | 0xEA | 0xF2 | 0xFA | 0xCD | 0xC4 | 0xCC | 0xD4 | 0xDC
        | 0xE4 | 0xEC | 0xF4 | 0xFC | 0xC7 | 0xCF | 0xD7 | 0xDF | 0xE7 | 0xEF | 0xF7
        | 0xFF | 0xE9 => high_flow_spec::<B>(c, s, op),
        0xC1 | 0xD1 | 0xE1 | 0xF1 | 0xC5 | 0xD5 | 0xE5 | 0xF5 | 0xD9 | 0xE3 | 0xEB | 0xF9 => high_stack_spec::<B>(c, s, op),
        _ => high_other_spec::<B>(c, s, op),
    }
}

pub fn high_page<B: Z80Bus>(cpu: &mut Cpu, bus: &mut B, op: u8) -> (cycles: u32)
    requires
        B::wf(old(bus).st()),
    ensures
        B::wf(final(bus).st()),
        same(
            (*final(cpu), final(bus).st(), cycles),
            high_page_spec::<B>(*old(cpu), old(bus).st(), op),
        ),
{
    match op {
        0xC0 | 0xC8 | 0xD0 | 0xD8 | 0xE0 | 0xE8 | 0xF0 | 0xF8 | 0xC9 | 0xC3 | 0xC2 | 0xCA
        | 0xD2 | 0xDA | 0xE2 | 0xEA | 0xF2 | 0xFA | 0xCD | 0xC4 | 0xCC | 0xD4 | 0xDC
        | 0xE4 | 0xEC | 0xF4 | 0xFC | 0xC7 | 0xCF | 0xD7 | 0xDF | 0xE7 | 0xEF | 0xF7
        | 0xFF | 0xE9 => high_flow(cpu, bus, op),
        0xC1 | 0xD1 | 0xE1 | 0xF1 | 0xC5 | 0xD5 | 0xE5 | 0xF5 | 0xD9 | 0xE3 | 0xEB | 0xF9 => high_stack(cpu, bus, op),
        _ => high_other(cpu, bus, op),
    }
}

}
