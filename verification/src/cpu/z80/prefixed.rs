//! The CB and ED pages.
use vstd::prelude::*;
use crate::bits::same;
use crate::cpu::z80::alu::{adc16, adc16_spec, rot, rot_spec, sbc16, sbc16_spec, sub8, sub8_spec};
use crate::cpu::z80::block::{
    block_repeat, cp_block_spec, cpd, cpi, in_block_spec, ind, ind_for_ba, ini, ini_for_b2,
    io_repeat, ld_block_spec, ldd, ldi, out_block_spec, outd, outd_for_bb, outi, outi_for_b3,
    read_hl, read_r8, read_r8_spec, repeat_block, write_hl, write_r8, write_r8_spec,
};
use crate::cpu::z80::bus::Z80Bus;
use crate::cpu::z80::cpu::{high, low, word, Cpu, Out, Regs};
use crate::cpu::z80::flags::{set_if, sz53, sz53p, sz53p_of, FC, FH, FP, FS, FX, FY, FZ};
use crate::cpu::z80::main_page::{pair, set_pair, with_pair};

verus! {

/// Flags of BIT `bit` on `v`; Y and X come from `yx_src`.
pub open spec fn bit_flags(f: u8, bit: u8, v: u8, yx_src: u8) -> u8 {
    let r = v & (1u8 << bit);
    let g = set_if((f & FC) | FH, FZ | FP, r == 0);
    set_if(g, FS, r & FS != 0) | (yx_src & (FY | FX))
}

pub fn compute_bit_flags(f: u8, bit: u8, v: u8, yx_src: u8) -> (g: u8)
    requires
        bit < 8,
    ensures
        g == bit_flags(f, bit, v, yx_src),
{
    let r: u8 = v & (1u8 << bit);
    let g: u8 = set_if((f & FC) | FH, FZ | FP, r == 0);
    set_if(g, FS, (r & FS) != 0) | (yx_src & (FY | FX))
}

/// What a CB-page opcode other than BIT makes of its operand: a shift or
/// rotation, RES or SET.
pub open spec fn cb_result_spec(c: Cpu, op: u8, v: u8) -> (Cpu, u8) {
    let k = (op >> 3) & 7;
    if op < 0x40 {
        rot_spec(c, k, v)
    } else if op < 0xC0 {
        (c, v & !(1u8 << k))
    } else {
        (c, v | (1u8 << k))
    }
}

pub fn cb_result(cpu: &mut Cpu, op: u8, v: u8) -> (r: u8)
    ensures
        same((*final(cpu), r), cb_result_spec(*old(cpu), op, v)),
{
    proof {
        crate::bits::three_bits(op >> 3);
    }
    let k: u8 = (op >> 3) & 7;
    if op < 0x40 {
        rot(cpu, k, v)
    } else if op < 0xC0 {
        v & !(1u8 << k)
    } else {
        v | (1u8 << k)
    }
}

/// The CB page: the second opcode byte is fetched with the flag copy Q cleared.
pub open spec fn exec_cb_spec<B: Z80Bus>(c: Cpu, s: B::St) -> Out<B::St, u32> {
    let (c1, s1, op) = c.with_q(0).fetch_op_spec::<B>(s);
    let reg = op & 7;
    let (s2, v) = read_r8_spec::<B>(c1, s1, reg);
    if 0x40 <= op && op < 0x80 {
        let yx_src = if reg == 6 {
            high(c1.regs.wz)
        } else {
            v
        };
        (
            c1.with_f(bit_flags(c1.regs.f, (op >> 3) & 7, v, yx_src)),
            s2,
            if reg == 6 { 12 } else { 8 },
        )
    } else {
        let (c2, r) = cb_result_spec(c1, op, v);
        let (c3, s3) = write_r8_spec::<B>(c2, s2, reg, r);
        (c3, s3, if reg == 6 { 15 } else { 8 })
    }
}

pub fn exec_cb<B: Z80Bus>(cpu: &mut Cpu, bus: &mut B) -> (cycles: u32)
    requires
        B::wf(old(bus).st()),
    ensures
        B::wf(final(bus).st()),
        same(
            (*final(cpu), final(bus).st(), cycles),
            exec_cb_spec::<B>(*old(cpu), old(bus).st()),
        ),
{
    cpu.set_q(0);
    let op: u8 = cpu.fetch_op(bus);
    proof {
        crate::bits::three_bits(op >> 3);
    }
    let reg: u8 = op & 7;
    let v: u8 = read_r8(cpu, bus, reg);
    if 0x40 <= op && op < 0x80 {
        let yx_src: u8 = if reg == 6 {
            high(cpu.regs.wz)
        } else {
            v
        };
        let f: u8 = compute_bit_flags(cpu.regs.f, (op >> 3) & 7, v, yx_src);
        cpu.set_f(f);
        if reg == 6 {
            12
        } else {
            8
        }
    } else {
        let r: u8 = cb_result(cpu, op, v);
        write_r8(cpu, bus, reg, r);
        if reg == 6 {
            15
        } else {
            8
        }
    }
}

/// LD A,I and LD A,R: the flags show the byte and the interrupt flip-flop.
pub open spec fn ld_a_special_spec(c: Cpu, v: u8) -> Cpu {
    c.with_a(v).with_f(set_if(sz53(v) | (c.regs.f & FC), FP, c.regs.iff2))
}

fn ld_a_special(cpu: &mut Cpu, v: u8)
    ensures
        *final(cpu) == ld_a_special_spec(*old(cpu), v),
{
    let f: u8 = set_if(sz53(v) | (cpu.regs.f & FC), FP, cpu.regs.iff2);
    cpu.set_a(v);
    cpu.set_f(f);
}

/// RLD (`left`) and RRD: a digit rotation through A and the byte at HL.
pub open spec fn digit_rotate_spec<B: Z80Bus>(c: Cpu, s: B::St, left: bool) -> (Cpu, B::St) {
    let hl = c.regs.hl();
    let m = B::read_val(s, hl);
    let a = c.regs.a;
    let new_m = if left {
        (m << 4) | (a & 0x0F)
    } else {
        (m >> 4) | ((a & 0x0F) << 4)
    };
    let new_a = (a & 0xF0) | (if left {
        m >> 4
    } else {
        m & 0x0F
    });
    (
        c.with_a(new_a).with_f(sz53p_of(new_a) | (c.regs.f & FC)).with_wz(hl.wrapping_add(1)),
        B::write_next(B::read_next(s, hl), hl, new_m),
    )
}

fn digit_rotate<B: Z80Bus>(cpu: &mut Cpu, bus: &mut B, left: bool)
    requires
        B::wf(old(bus).st()),
    ensures
        B::wf(final(bus).st()),
        same(
            (*final(cpu), final(bus).st()),
            digit_rotate_spec::<B>(*old(cpu), old(bus).st(), left),
        ),
{
    let m: u8 = read_hl(cpu, bus);
    let a: u8 = cpu.regs.a;
    let new_m: u8 = if left {
        (m << 4) | (a & 0x0F)
    } else {
        (m >> 4) | ((a & 0x0F) << 4)
    };
    let new_a: u8 = (a & 0xF0) | (if left {
        m >> 4
    } else {
        m & 0x0F
    });
    write_hl(cpu, bus, new_m);
    let f: u8 = sz53p(new_a) | (cpu.regs.f & FC);
    cpu.set_a(new_a);
    cpu.set_f(f);
    let latch: u16 = cpu.regs.hl().wrapping_add(1);
    cpu.set_wz(latch);
}

/// ED opcodes 40 to 7F.
pub open spec fn ed_low_spec<B: Z80Bus>(c: Cpu, s: B::St, op: u8) -> Out<B::St, u32> {
    let code = (op >> 3) & 7;
    let rp = (op >> 4) & 3;
    match op {
        0x44 | 0x4C | 0x54 | 0x5C | 0x64 | 0x6C | 0x74 | 0x7C => {
            let (c1, r) = sub8_spec(c, 0, c.regs.a, 0);
            (c1.with_a(r), s, 8)
        },
        0x46 | 0x4E | 0x66 | 0x6E => (c.with_regs(Regs { im: 0, ..c.regs }), s, 8),
        0x56 | 0x76 => (c.with_regs(Regs { im: 1, ..c.regs }), s, 8),
        0x5E | 0x7E => (c.with_regs(Regs { im: 2, ..c.regs }), s, 8),
        0x45 | 0x55 | 0x65 | 0x75 | 0x4D | 0x5D | 0x6D | 0x7D => {
            let (c1, s1, t) = c.pop16_spec::<B>(s);
            let c2 = c1.jumped(t);
            (c2.with_regs(Regs { iff1: c2.regs.iff2, ..c2.regs }), s1, 14)
        },
        0x47 => (c.with_regs(Regs { i: c.regs.a, ..c.regs }), s, 9),
        0x4F => (c.with_regs(Regs { r: c.regs.a, ..c.regs }), s, 9),
        0x57 => (ld_a_special_spec(c, c.regs.i), s, 9),
        0x5F => (ld_a_special_spec(c, c.regs.r), s, 9),
        0x42 | 0x52 | 0x62 | 0x72 => {
            let (c1, r) = sbc16_spec(c, c.regs.hl(), pair(&c, rp));
            (c1.with_hl(r), s, 15)
        },
        0x4A | 0x5A | 0x6A | 0x7A => {
            let (c1, r) = adc16_spec(c, c.regs.hl(), pair(&c, rp));
            (c1.with_hl(r), s, 15)
        },
        0x43 | 0x53 | 0x63 | 0x73 => {
            let (c1, s1, addr) = c.read_op16_spec::<B>(s);
            let v = pair(&c1, rp);
            let next = addr.wrapping_add(1);
            let s2 = B::write_next(B::write_next(s1, addr, low(v)), next, high(v));
            (c1.with_wz(next), s2, 20)
        },
        0x4B | 0x5B | 0x6B | 0x7B => {
            let (c1, s1, addr) = c.read_op16_spec::<B>(s);
            let next = addr.wrapping_add(1);
            let (s2, lo) = (B::read_next(s1, addr), B::read_val(s1, addr));
            let (s3, hi) = (B::read_next(s2, next), B::read_val(s2, next));
            (with_pair(c1, rp, word(hi, lo)).with_wz(next), s3, 20)
        },
        0x40 | 0x48 | 0x50 | 0x58 | 0x60 | 0x68 | 0x78 => {
            let port = c.regs.bc();
            let v = B::in_val(s, port);
            let c1 = c.with_reg8(code, v);
            (
                c1.with_f(sz53p_of(v) | (c1.regs.f & FC)).with_wz(port.wrapping_add(1)),
                B::in_next(s, port),
                12,
            )
        },
        0x70 => {
            let port = c.regs.bc();
            let v = B::in_val(s, port);
            (
                c.with_f(sz53p_of(v) | (c.regs.f & FC)).with_wz(port.wrapping_add(1)),
                B::in_next(s, port),
                12,
            )
        },
        0x41 | 0x49 | 0x51 | 0x59 | 0x61 | 0x69 | 0x79 => {
            let port = c.regs.bc();
            (
                c.with_wz(port.wrapping_add(1)),
                B::out_next(s, port, c.regs.reg8(code)),
                12,
            )
        },
        0x71 => {
            let port = c.regs.bc();
            (c.with_wz(port.wrapping_add(1)), B::out_next(s, port, 0), 12)
        },
        0x6F => {
            let (c1, s1) = digit_rotate_spec::<B>(c, s, true);
            (c1, s1, 18)
        },
        0x67 => {
            let (c1, s1) = digit_rotate_spec::<B>(c, s, false);
            (c1, s1, 18)
        },
        _ => (c, s, 8),
    }
}

fn ed_low<B: Z80Bus>(cpu: &mut Cpu, bus: &mut B, op: u8) -> (cycles: u32)
    requires
        B::wf(old(bus).st()),
    ensures
        B::wf(final(bus).st()),
        same(
            (*final(cpu), final(bus).st(), cycles),
            ed_low_spec::<B>(*old(cpu), old(bus).st(), op),
        ),
{
    let code: u8 = (op >> 3) & 7;
    let rp: u8 = (op >> 4) & 3;
    match op {
        0x44 | 0x4C | 0x54 | 0x5C | 0x64 | 0x6C | 0x74 | 0x7C => {
            let a: u8 = cpu.regs.a;
            let r: u8 = sub8(cpu, 0, a, 0);
            cpu.set_a(r);
            8
        }
        0x46 | 0x4E | 0x66 | 0x6E => {
            cpu.regs.im = 0;
            8
        }
        0x56 | 0x76 => {
            cpu.regs.im = 1;
            8
        }
        0x5E | 0x7E => {
            cpu.regs.im = 2;
            8
        }
        0x45 | 0x55 | 0x65 | 0x75 | 0x4D | 0x5D | 0x6D | 0x7D => {
            let t: u16 = cpu.pop16(bus);
            cpu.jump(t);
            cpu.regs.iff1 = cpu.regs.iff2;
            14
        }
        0x47 => {
            cpu.regs.i = cpu.regs.a;
            9
        }
        0x4F => {
            cpu.regs.r = cpu.regs.a;
            9
        }
        0x57 => {
            let v: u8 = cpu.regs.i;
            ld_a_special(cpu, v);
            9
        }
        0x5F => {
            let v: u8 = cpu.regs.r;
            ld_a_special(cpu, v);
            9
        }
        0x42 | 0x52 | 0x62 | 0x72 => {
            let hl: u16 = cpu.regs.hl();
            let v: u16 = pair(cpu, rp);
            let r: u16 = sbc16(cpu, hl, v);
            cpu.set_hl(r);
            15
        }
        0x4A | 0x5A | 0x6A | 0x7A => {
            let hl: u16 = cpu.regs.hl();
            let v: u16 = pair(cpu, rp);
            let r: u16 = adc16(cpu, hl, v);
            cpu.set_hl(r);
            15
        }
        0x43 | 0x53 | 0x63 | 0x73 => {
            let addr: u16 = cpu.read_op16(bus);
            let v: u16 = pair(cpu, rp);
            bus.write(addr, low(v));
            bus.write(addr.wrapping_add(1), high(v));
            cpu.set_wz(addr.wrapping_add(1));
            20
        }
        0x4B | 0x5B | 0x6B | 0x7B => {
            let addr: u16 = cpu.read_op16(bus);
            let lo: u8 = bus.read(addr);
            let hi: u8 = bus.read(addr.wrapping_add(1));
            set_pair(cpu, rp, word(hi, lo));
            cpu.set_wz(addr.wrapping_add(1));
            20
        }
        0x40 | 0x48 | 0x50 | 0x58 | 0x60 | 0x68 | 0x78 => {
            let port: u16 = cpu.regs.bc();
            let v: u8 = bus.io_read(port);
            cpu.set_reg8(code, v);
            let f: u8 = sz53p(v) | (cpu.regs.f & FC);
            cpu.set_f(f);
            cpu.set_wz(port.wrapping_add(1));
            12
        }
        0x70 => {
            let port: u16 = cpu.regs.bc();
            let v: u8 = bus.io_read(port);
            let f: u8 = sz53p(v) | (cpu.regs.f & FC);
            cpu.set_f(f);
            cpu.set_wz(port.wrapping_add(1));
            12
        }
        0x41 | 0x49 | 0x51 | 0x59 | 0x61 | 0x69 | 0x79 => {
            let port: u16 = cpu.regs.bc();
            bus.io_write(port, cpu.regs.reg8(code));
            cpu.set_wz(port.wrapping_add(1));
            12
        }
        0x71 => {
            let port: u16 = cpu.regs.bc();
            bus.io_write(port, 0);
            cpu.set_wz(port.wrapping_add(1));
            12
        }
        0x6F => {
            digit_rotate(cpu, bus, true);
            18
        }
        0x67 => {
            digit_rotate(cpu, bus, false);
            18
        }
        _ => 8,
    }
}

/// ED opcodes A0 to BB: the block instructions. INIR first reads memory at BC
/// and just below HL.
pub open spec fn ed_block_spec<B: Z80Bus>(c: Cpu, s: B::St, op: u8) -> Out<B::St, u32> {
    match op {
        0xA0 | 0xA8 => {
            let (c1, s1) = ld_block_spec::<B>(c, s, op == 0xA0);
            (c1, s1, 16)
        },
        0xB0 | 0xB8 => {
            let (c1, s1) = ld_block_spec::<B>(c, s, op == 0xB0);
            let (c2, cycles) = block_repeat(c1, c1.regs.bc() != 0);
            (c2, s1, cycles)
        },
        0xA1 | 0xA9 => {
            let (c1, s1) = cp_block_spec::<B>(c, s, op == 0xA1);
            (c1, s1, 16)
        },
        0xB1 | 0xB9 => {
            let (c1, s1) = cp_block_spec::<B>(c, s, op == 0xB1);
            let (c2, cycles) = block_repeat(c1, c1.regs.bc() != 0 && c1.regs.f & FZ == 0);
            (c2, s1, cycles)
        },
        0xA2 | 0xAA => {
            let (c1, s1, _v) = in_block_spec::<B>(c, s, op == 0xA2);
            (c1, s1, 16)
        },
        0xB2 => {
            let s1 = B::read_next(s, c.regs.bc());
            let s2 = B::read_next(s1, c.regs.hl().wrapping_sub(1));
            io_repeat(in_block_spec::<B>(c, s2, true))
        },
        0xBA => io_repeat(in_block_spec::<B>(c, s, false)),
        0xA3 | 0xAB => {
            let (c1, s1, _v) = out_block_spec::<B>(c, s, op == 0xA3);
            (c1, s1, 16)
        },
        0xB3 => io_repeat(out_block_spec::<B>(c, s, true)),
        0xBB => io_repeat(out_block_spec::<B>(c, s, false)),
        _ => (c, s, 8),
    }
}

fn ed_block<B: Z80Bus>(cpu: &mut Cpu, bus: &mut B, op: u8) -> (cycles: u32)
    requires
        B::wf(old(bus).st()),
    ensures
        B::wf(final(bus).st()),
        same(
            (*final(cpu), final(bus).st(), cycles),
            ed_block_spec::<B>(*old(cpu), old(bus).st(), op),
        ),
{
    match op {
        0xA0 => {
            ldi(cpu, bus);
            16
        }
        0xA8 => {
            ldd(cpu, bus);
            16
        }
        0xB0 => {
            ldi(cpu, bus);
            let more: bool = cpu.regs.bc() != 0;
            repeat_block(cpu, more)
        }
        0xB8 => {
            ldd(cpu, bus);
            let more: bool = cpu.regs.bc() != 0;
            repeat_block(cpu, more)
        }
        0xA1 => {
            cpi(cpu, bus);
            16
        }
        0xA9 => {
            cpd(cpu, bus);
            16
        }
        0xB1 => {
            cpi(cpu, bus);
            let more: bool = cpu.regs.bc() != 0 && (cpu.regs.f & FZ) == 0;
            repeat_block(cpu, more)
        }
        0xB9 => {
            cpd(cpu, bus);
            let more: bool = cpu.regs.bc() != 0 && (cpu.regs.f & FZ) == 0;
            repeat_block(cpu, more)
        }
        0xA2 => {
            ini(cpu, bus);
            16
        }
        0xAA => {
            ind(cpu, bus);
            16
        }
        0xB2 => {
            let _unused: u8 = bus.read(cpu.regs.bc());
            let _below: u8 = bus.read(cpu.regs.hl().wrapping_sub(1));
            ini_for_b2(cpu, bus)
        }
        0xBA => ind_for_ba(cpu, bus),
        0xA3 => {
            outi(cpu, bus);
            16
        }
        0xAB => {
            outd(cpu, bus);
            16
        }
        0xB3 => outi_for_b3(cpu, bus),
        0xBB => outd_for_bb(cpu, bus),
        _ => 8,
    }
}

/// The ED page: the second opcode byte is fetched with the flag copy Q cleared.
/// Opcodes outside the two groups do nothing.
pub open spec fn exec_ed_spec<B: Z80Bus>(c: Cpu, s: B::St) -> Out<B::St, u32> {
    let (c1, s1, op) = c.with_q(0).fetch_op_spec::<B>(s);
    if op < 0x80 {
        ed_low_spec::<B>(c1, s1, op)
    } else {
        ed_block_spec::<B>(c1, s1, op)
    }
}

pub fn exec_ed<B: Z80Bus>(cpu: &mut Cpu, bus: &mut B) -> (cycles: u32)
    requires
        B::wf(old(bus).st()),
    ensures
        B::wf(final(bus).st()),
        same(
            (*final(cpu), final(bus).st(), cycles),
            exec_ed_spec::<B>(*old(cpu), old(bus).st()),
        ),
{
    cpu.set_q(0);
    let op: u8 = cpu.fetch_op(bus);
    if op < 0x80 {
        ed_low(cpu, bus, op)
    } else {
        ed_block(cpu, bus, op)
    }
}

}
