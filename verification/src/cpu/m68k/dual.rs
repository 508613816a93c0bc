//! The two-operand arithmetic and logic instructions, lines 8, 9, B, C and D.
use vstd::prelude::*;
use crate::bits::same;
use crate::cpu::m68k::arith::{
    abcd_calc, abcd_spec, add_spec, add_with_flags, addx_spec, addx_with_flags, sbcd_calc,
    sbcd_spec, signed, sub_spec, sub_with_flags, subx_spec, subx_with_flags, to_signed, wrapped,
};
use crate::cpu::m68k::bus::{long, Bus};
use crate::cpu::m68k::cpu::{
    enter_vector_spec, mach, sext16, sr_logic, sr_nz, sr_set, Cpu, CpuState, Exception, Mach, Size,
    StatusRegister,
};
use crate::cpu::m68k::ea::{
    merged, read_at, read_at_spec, reg_field, reg_number, step_of, write_at, write_at_spec, Ea,
};
use crate::cpu::m68k::rmw::{compute_sr_extended, sr_extended, Rmw};
use crate::cpu::m68k::transfer::cost;

verus! {

/// The size that the low two bits of an operation mode give. The callers have
/// dealt with the fourth encoding.
#[verifier::allow_in_spec]
pub fn opmode_size(opmode: u16) -> Size
    returns
        (match opmode & 3 {
            0 => Size::Byte,
            1 => Size::Word,
            _ => Size::Long,
        }),
{
    match opmode & 3 {
        0 => Size::Byte,
        1 => Size::Word,
        _ => Size::Long,
    }
}

/// The size of the address register forms.
#[verifier::allow_in_spec]
pub fn address_form_size(opmode: u16) -> Size
    returns
        (if opmode == 3 {
            Size::Word
        } else {
            Size::Long
        }),
{
    if opmode == 3 {
        Size::Word
    } else {
        Size::Long
    }
}

/// A source operand as an address register sees it.
#[verifier::allow_in_spec]
pub fn extended(v: u32, size: Size) -> u32
    returns
        (if size == Size::Word {
            sext16(v)
        } else {
            v
        }),
{
    if size == Size::Word {
        sext16(v)
    } else {
        v
    }
}

/// X as a number.
#[verifier::allow_in_spec]
pub fn x_bit(sr: u16) -> (r: u32)
    ensures
        r <= 1,
    returns
        (if sr & StatusRegister::X != 0 {
            1u32
        } else {
            0u32
        }),
{
    if sr & StatusRegister::X != 0 {
        1
    } else {
        0
    }
}

/// A long operand below register `n`: the low word is read first, and the
/// register moves only once that read succeeded.
pub open spec fn predec_long_spec<B: Bus>(m: Mach<B::St>, n: int) -> (Mach<B::St>, u32) {
    let base = m.c.a[n];
    let (m1, lo) = read_at_spec::<B>(m, base.wrapping_sub(2), Size::Word);
    if m1.c.fault is Some {
        (m1, 0)
    } else {
        let (m2, hi) = read_at_spec::<B>(
            m1.with_c(m1.c.with_a(n, base.wrapping_sub(4))),
            base.wrapping_sub(4),
            Size::Word,
        );
        if m2.c.fault is Some {
            (m2, 0)
        } else {
            (m2, (hi << 16) | lo)
        }
    }
}

fn predec_long<B: Bus>(cpu: &mut Cpu, bus: &mut B, n: usize) -> (v: u32)
    requires
        n < 8,
        B::wf(old(bus).st()),
    ensures
        B::wf(final(bus).st()),
        same(
            (mach(*final(cpu), *final(bus)), v),
            predec_long_spec::<B>(mach(*old(cpu), *old(bus)), n as int),
        ),
{
    let base: u32 = cpu.a[n];
    let lo: u32 = read_at(cpu, bus, base.wrapping_sub(2), Size::Word);
    if cpu.address_error.is_some() {
        return 0;
    }
    cpu.set_a(n, base.wrapping_sub(4));
    let hi: u32 = read_at(cpu, bus, base.wrapping_sub(4), Size::Word);
    if cpu.address_error.is_some() {
        return 0;
    }
    (hi << 16) | lo
}

/// A byte or word operand below register `n`, which moves before the read.
pub open spec fn predec_short_spec<B: Bus>(m: Mach<B::St>, n: int, size: Size) -> (
    Mach<B::St>,
    u32,
) {
    let addr = m.c.a[n].wrapping_sub(step_of(n as usize, size));
    let (m1, v) = read_at_spec::<B>(m.with_c(m.c.with_a(n, addr)), addr, size);
    (m1, if m1.c.fault is Some { 0 } else { v })
}

fn predec_short<B: Bus>(cpu: &mut Cpu, bus: &mut B, n: usize, size: Size) -> (v: u32)
    requires
        n < 8,
        B::wf(old(bus).st()),
    ensures
        B::wf(final(bus).st()),
        same(
            (mach(*final(cpu), *final(bus)), v),
            predec_short_spec::<B>(mach(*old(cpu), *old(bus)), n as int, size),
        ),
{
    let addr: u32 = cpu.a[n].wrapping_sub(step_of(n, size));
    cpu.set_a(n, addr);
    let v: u32 = read_at(cpu, bus, addr, size);
    if cpu.address_error.is_some() {
        0
    } else {
        v
    }
}

/// An operand below register `n`.
#[verifier::opaque]
pub open spec fn predec_spec<B: Bus>(m: Mach<B::St>, n: int, size: Size) -> (Mach<B::St>, u32) {
    if size == Size::Long {
        predec_long_spec::<B>(m, n)
    } else {
        predec_short_spec::<B>(m, n, size)
    }
}

/// The two operands of ADDX and SUBX in memory: the source below Ay, then the
/// destination below Ax. A fault leaves both values zero.
#[verifier::opaque]
pub open spec fn predec_pair_spec<B: Bus>(m: Mach<B::St>, size: Size, sy: int, dx: int) -> (
    Mach<B::St>,
    (u32, u32),
) {
    let (m1, s) = predec_spec::<B>(m, sy, size);
    if m1.c.fault is Some {
        (m1, (0, 0))
    } else {
        let (m2, d) = predec_spec::<B>(m1, dx, size);
        if m2.c.fault is Some {
            (m2, (0, 0))
        } else {
            (m2, (s, d))
        }
    }
}

pub fn subx_addx_predec_read<B: Bus>(
    cpu: &mut Cpu,
    bus: &mut B,
    size: Size,
    sy: usize,
    dx: usize,
) -> (r: (u32, u32))
    requires
        sy < 8,
        dx < 8,
        B::wf(old(bus).st()),
    ensures
        B::wf(final(bus).st()),
        same(
            (mach(*final(cpu), *final(bus)), r),
            predec_pair_spec::<B>(mach(*old(cpu), *old(bus)), size, sy as int, dx as int),
        ),
{
    proof {
        reveal(predec_spec);
        reveal(predec_pair_spec);
    }
    let s: u32 = if size == Size::Long {
        predec_long(cpu, bus, sy)
    } else {
        predec_short(cpu, bus, sy, size)
    };
    if cpu.address_error.is_some() {
        return (0, 0);
    }
    let d: u32 = if size == Size::Long {
        predec_long(cpu, bus, dx)
    } else {
        predec_short(cpu, bus, dx, size)
    };
    if cpu.address_error.is_some() {
        return (0, 0);
    }
    (s, d)
}

/// The sum or difference that ADDX or SUBX leaves.
pub open spec fn extended_sum(sub: bool, sr: u16, dst: u32, src: u32, size: Size) -> (u16, u32) {
    if sub {
        subx_spec(sr, dst, src, x_bit(sr), size)
    } else {
        addx_spec(sr, dst, src, x_bit(sr), size)
    }
}

fn do_extended_sum(cpu: &mut Cpu, sub: bool, dst: u32, src: u32, size: Size) -> (r: u32)
    ensures
        r == extended_sum(sub, old(cpu)@.sr, dst, src, size).1,
        final(cpu)@ == old(cpu)@.with_sr(extended_sum(sub, old(cpu)@.sr, dst, src, size).0),
{
    let x: u32 = x_bit(cpu.sr.0);
    if sub {
        subx_with_flags(cpu, dst, src, x, size)
    } else {
        addx_with_flags(cpu, dst, src, x, size)
    }
}

/// ADDX and SUBX, on registers or on memory below the address registers.
pub open spec fn extended_form_spec<B: Bus>(m: Mach<B::St>, op: u16, sub: bool) -> (
    Mach<B::St>,
    u32,
) {
    let size = opmode_size((op >> 6) & 7);
    let sy = reg_field(op) as int;
    let dx = reg_field(op >> 9) as int;
    let cycles: u32 = if size == Size::Long {
        8
    } else {
        4
    };
    if op & 8 != 0 {
        let (m1, (s, d)) = predec_pair_spec::<B>(
            m.with_c(m.c.with_au(m.c.pc.wrapping_add(2))),
            size,
            sy,
            dx,
        );
        if m1.c.fault is Some {
            (m1, 4)
        } else {
            let (sr, r) = extended_sum(sub, m1.c.sr, d, s, size);
            let m2 = write_at_spec::<B>(m1.with_c(m1.c.with_sr(sr)), m1.c.a[dx], size, r);
            (m2, if m2.c.fault is Some { 4 } else { cycles })
        }
    } else {
        let (sr, r) = extended_sum(
            sub,
            m.c.sr,
            m.c.d[dx] & size.mask(),
            m.c.d[sy] & size.mask(),
            size,
        );
        (m.with_c(m.c.with_sr(sr).with_d(dx, merged(m.c.d[dx], r, size))), cycles)
    }
}

fn extended_form<B: Bus>(cpu: &mut Cpu, bus: &mut B, op: u16, sub: bool) -> (cycles: u32)
    requires
        B::wf(old(bus).st()),
    ensures
        B::wf(final(bus).st()),
        same(
            (mach(*final(cpu), *final(bus)), cycles),
            extended_form_spec::<B>(mach(*old(cpu), *old(bus)), op, sub),
        ),
{
    let size: Size = opmode_size((op >> 6) & 7);
    let sy: usize = reg_field(op);
    let dx: usize = reg_field(op >> 9);
    let cycles: u32 = if size == Size::Long {
        8
    } else {
        4
    };
    if op & 8 != 0 {
        let au: u32 = cpu.pc.wrapping_add(2);
        cpu.set_au(au);
        let (s, d): (u32, u32) = subx_addx_predec_read(cpu, bus, size, sy, dx);
        if cpu.address_error.is_some() {
            return 4;
        }
        let r: u32 = do_extended_sum(cpu, sub, d, s, size);
        let addr: u32 = cpu.a[dx];
        write_at(cpu, bus, addr, size, r);
        if cpu.address_error.is_some() {
            return 4;
        }
        cycles
    } else {
        let s: u32 = cpu.d[sy] & size.mask();
        let d: u32 = cpu.d[dx] & size.mask();
        let r: u32 = do_extended_sum(cpu, sub, d, s, size);
        let v: u32 = merged(cpu.d[dx], r, size);
        cpu.set_d(dx, v);
        cycles
    }
}

/// ADD, ADDA and ADDX, or SUB, SUBA and SUBX.
pub open spec fn sum_family_spec<B: Bus>(m: Mach<B::St>, op: u16, sub: bool) -> (
    Mach<B::St>,
    u32,
) {
    let reg = reg_field(op >> 9) as int;
    let opmode = (op >> 6) & 7;
    let mode = (op >> 3) & 7;
    if opmode == 3 || opmode == 7 {
        let size = address_form_size(opmode);
        let (m1, ea) = Ea::decode_spec::<B>(m, op & 0x3F, size);
        let (m2, v) = ea.read_spec::<B>(m1, size);
        if m2.c.fault is Some {
            (m2, 4)
        } else {
            let a = m2.c.a[reg];
            let x = extended(v, size);
            (
                m2.with_c(
                    m2.c.with_a(reg, if sub { a.wrapping_sub(x) } else { a.wrapping_add(x) }),
                ),
                cost(8, ea, size),
            )
        }
    } else if opmode & 4 != 0 && (mode == 0 || mode == 1) {
        extended_form_spec::<B>(m, op, sub)
    } else {
        let size = opmode_size(opmode);
        let (m1, ea) = Ea::decode_spec::<B>(m, op & 0x3F, size);
        if opmode & 4 != 0 {
            let dn = m1.c.d[reg] & size.mask();
            let rmw = if sub {
                Rmw::Sub(dn)
            } else {
                Rmw::Add(dn)
            };
            (ea.modify_spec::<B>(m1, size, rmw, None), cost(4, ea, size))
        } else {
            let (m2, v) = ea.read_spec::<B>(m1, size);
            if m2.c.fault is Some {
                (m2, 4)
            } else {
                let dn = m2.c.d[reg] & size.mask();
                let (sr, r) = if sub {
                    sub_spec(m2.c.sr, dn, v, size, true)
                } else {
                    add_spec(m2.c.sr, dn, v, size, true)
                };
                (
                    m2.with_c(m2.c.with_sr(sr).with_d(reg, merged(m2.c.d[reg], r, size))),
                    cost(4, ea, size),
                )
            }
        }
    }
}

fn sum_family<B: Bus>(cpu: &mut Cpu, bus: &mut B, op: u16, sub: bool) -> (cycles: u32)
    requires
        B::wf(old(bus).st()),
    ensures
        B::wf(final(bus).st()),
        same(
            (mach(*final(cpu), *final(bus)), cycles),
            sum_family_spec::<B>(mach(*old(cpu), *old(bus)), op, sub),
        ),
{
    let reg: usize = reg_field(op >> 9);
    let opmode: u16 = (op >> 6) & 7;
    let mode: u16 = (op >> 3) & 7;
    if opmode == 3 || opmode == 7 {
        let size: Size = address_form_size(opmode);
        let ea: Ea = Ea::decode(cpu, bus, op & 0x3F, size);
        let v: u32 = ea.read(cpu, bus, size);
        if cpu.address_error.is_some() {
            return 4;
        }
        let x: u32 = extended(v, size);
        let r: u32 = if sub {
            cpu.a[reg].wrapping_sub(x)
        } else {
            cpu.a[reg].wrapping_add(x)
        };
        cpu.set_a(reg, r);
        return cost(8, ea, size);
    }
    if opmode & 4 != 0 && (mode == 0 || mode == 1) {
        return extended_form(cpu, bus, op, sub);
    }
    let size: Size = opmode_size(opmode);
    let ea: Ea = Ea::decode(cpu, bus, op & 0x3F, size);
    if opmode & 4 != 0 {
        let dn: u32 = cpu.d[reg] & size.mask();
        let rmw: Rmw = if sub {
            Rmw::Sub(dn)
        } else {
            Rmw::Add(dn)
        };
        ea.modify(cpu, bus, size, rmw, None);
    } else {
        let v: u32 = ea.read(cpu, bus, size);
        if cpu.address_error.is_some() {
            return 4;
        }
        let dn: u32 = cpu.d[reg] & size.mask();
        let r: u32 = if sub {
            sub_with_flags(cpu, dn, v, size, true)
        } else {
            add_with_flags(cpu, dn, v, size, true)
        };
        let new: u32 = merged(cpu.d[reg], r, size);
        cpu.set_d(reg, new);
    }
    cost(4, ea, size)
}

/// Line D.
pub fn add_addx<B: Bus>(cpu: &mut Cpu, bus: &mut B, op: u16) -> (cycles: u32)
    requires
        B::wf(old(bus).st()),
    ensures
        B::wf(final(bus).st()),
        same(
            (mach(*final(cpu), *final(bus)), cycles),
            sum_family_spec::<B>(mach(*old(cpu), *old(bus)), op, false),
        ),
{
    sum_family(cpu, bus, op, false)
}

/// Line 9.
pub fn sub_subx<B: Bus>(cpu: &mut Cpu, bus: &mut B, op: u16) -> (cycles: u32)
    requires
        B::wf(old(bus).st()),
    ensures
        B::wf(final(bus).st()),
        same(
            (mach(*final(cpu), *final(bus)), cycles),
            sum_family_spec::<B>(mach(*old(cpu), *old(bus)), op, true),
        ),
{
    sum_family(cpu, bus, op, true)
}

/// A long word read at register `n`, one word at a time. `early` tells whether
/// the register moves before each read or after it.
pub open spec fn postinc_long_spec<B: Bus>(m: Mach<B::St>, n: int, early: bool) -> (
    Mach<B::St>,
    u32,
) {
    let base = m.c.a[n];
    let mid = base.wrapping_add(2);
    let end = base.wrapping_add(4);
    let m0 = if early {
        m.with_c(m.c.with_a(n, mid))
    } else {
        m
    };
    let (m1, hi) = read_at_spec::<B>(m0, base, Size::Word);
    if m1.c.fault is Some {
        (m1, 0)
    } else {
        let m2 = m1.with_c(m1.c.with_a(n, if early { end } else { mid }));
        let (m3, lo) = read_at_spec::<B>(m2, mid, Size::Word);
        if m3.c.fault is Some {
            (m3, 0)
        } else {
            (
                if early { m3 } else { m3.with_c(m3.c.with_a(n, end)) },
                (hi << 16) | lo,
            )
        }
    }
}

fn postinc_long<B: Bus>(cpu: &mut Cpu, bus: &mut B, n: usize, early: bool) -> (v: u32)
    requires
        n < 8,
        B::wf(old(bus).st()),
    ensures
        B::wf(final(bus).st()),
        same(
            (mach(*final(cpu), *final(bus)), v),
            postinc_long_spec::<B>(mach(*old(cpu), *old(bus)), n as int, early),
        ),
{
    let base: u32 = cpu.a[n];
    let mid: u32 = base.wrapping_add(2);
    let end: u32 = base.wrapping_add(4);
    if early {
        cpu.set_a(n, mid);
    }
    let hi: u32 = read_at(cpu, bus, base, Size::Word);
    if cpu.address_error.is_some() {
        return 0;
    }
    cpu.set_a(
        n,
        if early {
            end
        } else {
            mid
        },
    );
    let lo: u32 = read_at(cpu, bus, mid, Size::Word);
    if cpu.address_error.is_some() {
        return 0;
    }
    if !early {
        cpu.set_a(n, end);
    }
    (hi << 16) | lo
}

/// A byte or word read at register `n`, which moves before or after the read.
pub open spec fn postinc_short_spec<B: Bus>(m: Mach<B::St>, n: int, size: Size, early: bool) -> (
    Mach<B::St>,
    u32,
) {
    let base = m.c.a[n];
    if early {
        let next = base.wrapping_add(step_of(n as usize, size));
        let (m1, v) = read_at_spec::<B>(m.with_c(m.c.with_a(n, next)), base, size);
        (m1, if m1.c.fault is Some { 0 } else { v })
    } else {
        let (m1, v) = read_at_spec::<B>(m, base, size);
        if m1.c.fault is Some {
            (m1, 0)
        } else {
            let next = m1.c.a[n].wrapping_add(step_of(n as usize, size));
            (m1.with_c(m1.c.with_a(n, next)), v)
        }
    }
}

fn postinc_short<B: Bus>(cpu: &mut Cpu, bus: &mut B, n: usize, size: Size, early: bool) -> (v: u32)
    requires
        n < 8,
        B::wf(old(bus).st()),
    ensures
        B::wf(final(bus).st()),
        same(
            (mach(*final(cpu), *final(bus)), v),
            postinc_short_spec::<B>(mach(*old(cpu), *old(bus)), n as int, size, early),
        ),
{
    let base: u32 = cpu.a[n];
    if early {
        cpu.set_a(n, base.wrapping_add(step_of(n, size)));
        let v: u32 = read_at(cpu, bus, base, size);
        if cpu.address_error.is_some() {
            0
        } else {
            v
        }
    } else {
        let v: u32 = read_at(cpu, bus, base, size);
        if cpu.address_error.is_some() {
            return 0;
        }
        let next: u32 = cpu.a[n].wrapping_add(step_of(n, size));
        cpu.set_a(n, next);
        v
    }
}

#[verifier::opaque]
pub open spec fn postinc_spec<B: Bus>(m: Mach<B::St>, n: int, size: Size, early: bool) -> (
    Mach<B::St>,
    u32,
) {
    if size == Size::Long {
        postinc_long_spec::<B>(m, n, early)
    } else {
        postinc_short_spec::<B>(m, n, size, early)
    }
}

fn postinc<B: Bus>(cpu: &mut Cpu, bus: &mut B, n: usize, size: Size, early: bool) -> (v: u32)
    requires
        n < 8,
        B::wf(old(bus).st()),
    ensures
        B::wf(final(bus).st()),
        same(
            (mach(*final(cpu), *final(bus)), v),
            postinc_spec::<B>(mach(*old(cpu), *old(bus)), n as int, size, early),
        ),
{
    proof {
        reveal(postinc_spec);
    }
    if size == Size::Long {
        postinc_long(cpu, bus, n, early)
    } else {
        postinc_short(cpu, bus, n, size, early)
    }
}

/// Compare memory with memory: the source register moves before its reads, the
/// destination register after them.
pub open spec fn compare_memory_spec<B: Bus>(m: Mach<B::St>, op: u16) -> (Mach<B::St>, u32) {
    let size = opmode_size((op >> 6) & 7);
    let m0 = m.with_c(m.c.with_au(m.c.instr_pc.wrapping_add(4)));
    let (m1, s) = postinc_spec::<B>(m0, reg_field(op) as int, size, true);
    if m1.c.fault is Some {
        (m1, 4)
    } else {
        let (m2, d) = postinc_spec::<B>(m1, reg_field(op >> 9) as int, size, false);
        if m2.c.fault is Some {
            (m2, 4)
        } else {
            (
                m2.with_c(m2.c.with_sr(sub_spec(m2.c.sr, d, s, size, false).0)),
                if size == Size::Long { 20 } else { 12 },
            )
        }
    }
}

fn compare_memory<B: Bus>(cpu: &mut Cpu, bus: &mut B, op: u16) -> (cycles: u32)
    requires
        B::wf(old(bus).st()),
    ensures
        B::wf(final(bus).st()),
        same(
            (mach(*final(cpu), *final(bus)), cycles),
            compare_memory_spec::<B>(mach(*old(cpu), *old(bus)), op),
        ),
{
    let size: Size = opmode_size((op >> 6) & 7);
    let au: u32 = cpu.instr_pc.wrapping_add(4);
    cpu.set_au(au);
    let s: u32 = postinc(cpu, bus, reg_field(op), size, true);
    if cpu.address_error.is_some() {
        return 4;
    }
    let d: u32 = postinc(cpu, bus, reg_field(op >> 9), size, false);
    if cpu.address_error.is_some() {
        return 4;
    }
    let _r: u32 = sub_with_flags(cpu, d, s, size, false);
    if size == Size::Long {
        20
    } else {
        12
    }
}

/// Line B: comparisons and exclusive or.
pub open spec fn cmp_eor_spec<B: Bus>(m: Mach<B::St>, op: u16) -> (Mach<B::St>, u32) {
    let reg = reg_number(op >> 9);
    let opmode = (op >> 6) & 7;
    if opmode == 3 || opmode == 7 {
        let size = address_form_size(opmode);
        let (m1, ea) = Ea::decode_spec::<B>(m, op & 0x3F, size);
        let (m2, v) = ea.read_spec::<B>(m1, size);
        if m2.c.fault is Some {
            (m2, 4)
        } else {
            let (sr, _r) = sub_spec(m2.c.sr, m2.c.a[reg], extended(v, size), Size::Long, false);
            (m2.with_c(m2.c.with_sr(sr)), cost(6, ea, size))
        }
    } else if opmode & 4 != 0 {
        if (op >> 3) & 7 == 1 {
            compare_memory_spec::<B>(m, op)
        } else {
            let size = opmode_size(opmode);
            let (m1, ea) = Ea::decode_spec::<B>(m, op & 0x3F, size);
            let dn = m1.c.d[reg] & size.mask();
            (ea.modify_spec::<B>(m1, size, Rmw::Eor(dn), None), cost(4, ea, size))
        }
    } else {
        let size = opmode_size(opmode);
        let (m1, ea) = Ea::decode_spec::<B>(m, op & 0x3F, size);
        let (m2, v) = ea.read_spec::<B>(m1, size);
        if m2.c.fault is Some {
            (m2, 4)
        } else {
            let dn = m2.c.d[reg] & size.mask();
            (
                m2.with_c(m2.c.with_sr(sub_spec(m2.c.sr, dn, v, size, false).0)),
                cost(4, ea, size),
            )
        }
    }
}

pub fn cmp_eor<B: Bus>(cpu: &mut Cpu, bus: &mut B, op: u16) -> (cycles: u32)
    requires
        B::wf(old(bus).st()),
    ensures
        B::wf(final(bus).st()),
        same(
            (mach(*final(cpu), *final(bus)), cycles),
            cmp_eor_spec::<B>(mach(*old(cpu), *old(bus)), op),
        ),
{
    let reg: usize = reg_field(op >> 9);
    let opmode: u16 = (op >> 6) & 7;
    if opmode == 3 || opmode == 7 {
        let size: Size = address_form_size(opmode);
        let ea: Ea = Ea::decode(cpu, bus, op & 0x3F, size);
        let v: u32 = ea.read(cpu, bus, size);
        if cpu.address_error.is_some() {
            return 4;
        }
        let an: u32 = cpu.a[reg];
        let _r: u32 = sub_with_flags(cpu, an, extended(v, size), Size::Long, false);
        return cost(6, ea, size);
    }
    if opmode & 4 != 0 {
        if (op >> 3) & 7 == 1 {
            return compare_memory(cpu, bus, op);
        }
        let size: Size = opmode_size(opmode);
        let ea: Ea = Ea::decode(cpu, bus, op & 0x3F, size);
        let dn: u32 = cpu.d[reg] & size.mask();
        ea.modify(cpu, bus, size, Rmw::Eor(dn), None);
        return cost(4, ea, size);
    }
    let size: Size = opmode_size(opmode);
    let ea: Ea = Ea::decode(cpu, bus, op & 0x3F, size);
    let v: u32 = ea.read(cpu, bus, size);
    if cpu.address_error.is_some() {
        return 4;
    }
    let dn: u32 = cpu.d[reg] & size.mask();
    let _r: u32 = sub_with_flags(cpu, dn, v, size, false);
    cost(4, ea, size)
}

/// AND and OR, in either direction.
pub open spec fn or_and_common_spec<B: Bus>(m: Mach<B::St>, op: u16, is_and: bool) -> (
    Mach<B::St>,
    u32,
) {
    let reg = reg_field(op >> 9) as int;
    let opmode = (op >> 6) & 7;
    let size = opmode_size(opmode);
    let (m1, ea) = Ea::decode_spec::<B>(m, op & 0x3F, size);
    if opmode & 4 != 0 {
        let dn = m1.c.d[reg] & size.mask();
        let rmw = if is_and {
            Rmw::And(dn)
        } else {
            Rmw::Or(dn)
        };
        (ea.modify_spec::<B>(m1, size, rmw, None), cost(4, ea, size))
    } else {
        let (m2, v) = ea.read_spec::<B>(m1, size);
        if m2.c.fault is Some {
            (m2, 4)
        } else {
            let dn = m2.c.d[reg] & size.mask();
            let r = (if is_and {
                v & dn
            } else {
                v | dn
            }) & size.mask();
            (
                m2.with_c(
                    m2.c.with_d(reg, merged(m2.c.d[reg], r, size)).with_sr(
                        sr_logic(m2.c.sr, r, size),
                    ),
                ),
                cost(4, ea, size),
            )
        }
    }
}

pub fn or_and_common<B: Bus>(cpu: &mut Cpu, bus: &mut B, op: u16, is_and: bool) -> (cycles: u32)
    requires
        B::wf(old(bus).st()),
    ensures
        B::wf(final(bus).st()),
        same(
            (mach(*final(cpu), *final(bus)), cycles),
            or_and_common_spec::<B>(mach(*old(cpu), *old(bus)), op, is_and),
        ),
{
    let reg: usize = reg_field(op >> 9);
    let opmode: u16 = (op >> 6) & 7;
    let size: Size = opmode_size(opmode);
    let ea: Ea = Ea::decode(cpu, bus, op & 0x3F, size);
    if opmode & 4 != 0 {
        let dn: u32 = cpu.d[reg] & size.mask();
        let rmw: Rmw = if is_and {
            Rmw::And(dn)
        } else {
            Rmw::Or(dn)
        };
        ea.modify(cpu, bus, size, rmw, None);
    } else {
        let v: u32 = ea.read(cpu, bus, size);
        if cpu.address_error.is_some() {
            return 4;
        }
        let dn: u32 = cpu.d[reg] & size.mask();
        let r: u32 = (if is_and {
            v & dn
        } else {
            v | dn
        }) & size.mask();
        let new: u32 = merged(cpu.d[reg], r, size);
        cpu.set_d(reg, new);
        let sr: u16 = sr_logic(cpu.sr.0, r, size);
        cpu.set_sr(sr);
    }
    cost(4, ea, size)
}

/// The product of two words, unsigned or signed, as a long word.
pub open spec fn product(a: u32, b: u32, is_signed: bool) -> u32 {
    if is_signed {
        wrapped(signed(a, Size::Word) * signed(b, Size::Word), Size::Long)
    } else {
        ((a as int % 0x1_0000) * (b as int % 0x1_0000)) as u32
    }
}

fn compute_product(a: u32, b: u32, is_signed: bool) -> (r: u32)
    ensures
        r == product(a, b, is_signed),
{
    if is_signed {
        let x: i64 = to_signed(a, Size::Word);
        let y: i64 = to_signed(b, Size::Word);
        assert(-0x4000_0000 <= x * y <= 0x4000_0000) by (nonlinear_arith)
            requires
                -0x8000 <= x <= 0x7FFF,
                -0x8000 <= y <= 0x7FFF,
        ;
        let p: i64 = x * y;
        assert(signed(a, Size::Word) * signed(b, Size::Word) == p);
        assert(p < 0 ==> (p as int) % 0x1_0000_0000 == p + 0x1_0000_0000);
        assert(p >= 0 ==> (p as int) % 0x1_0000_0000 == p);
        if p < 0 {
            (p + 0x1_0000_0000) as u32
        } else {
            p as u32
        }
    } else {
        let x: u32 = a % 0x1_0000;
        let y: u32 = b % 0x1_0000;
        assert(0 <= x * y <= 0xFFFF_FFFF) by (nonlinear_arith)
            requires
                0 <= x <= 0xFFFF,
                0 <= y <= 0xFFFF,
        ;
        x * y
    }
}

/// MULU and MULS.
pub open spec fn multiply_spec<B: Bus>(m: Mach<B::St>, op: u16, is_signed: bool) -> (
    Mach<B::St>,
    u32,
) {
    let reg = reg_field(op >> 9) as int;
    let (m1, ea) = Ea::decode_spec::<B>(m, op & 0x3F, Size::Word);
    let (m2, v) = ea.read_spec::<B>(m1, Size::Word);
    if m2.c.fault is Some {
        (m2, 4)
    } else {
        let r = product(v, m2.c.d[reg], is_signed);
        (
            m2.with_c(m2.c.with_d(reg, r).with_sr(sr_logic(m2.c.sr, r, Size::Long))),
            cost(70, ea, Size::Word),
        )
    }
}

fn multiply<B: Bus>(cpu: &mut Cpu, bus: &mut B, op: u16, is_signed: bool) -> (cycles: u32)
    requires
        B::wf(old(bus).st()),
    ensures
        B::wf(final(bus).st()),
        same(
            (mach(*final(cpu), *final(bus)), cycles),
            multiply_spec::<B>(mach(*old(cpu), *old(bus)), op, is_signed),
        ),
{
    let reg: usize = reg_field(op >> 9);
    let ea: Ea = Ea::decode(cpu, bus, op & 0x3F, Size::Word);
    let v: u32 = ea.read(cpu, bus, Size::Word);
    if cpu.address_error.is_some() {
        return 4;
    }
    let r: u32 = compute_product(v, cpu.d[reg], is_signed);
    cpu.set_d(reg, r);
    let sr: u16 = sr_logic(cpu.sr.0, r, Size::Long);
    cpu.set_sr(sr);
    cost(70, ea, Size::Word)
}

pub fn mulu<B: Bus>(cpu: &mut Cpu, bus: &mut B, op: u16) -> (cycles: u32)
    requires
        B::wf(old(bus).st()),
    ensures
        B::wf(final(bus).st()),
        same(
            (mach(*final(cpu), *final(bus)), cycles),
            multiply_spec::<B>(mach(*old(cpu), *old(bus)), op, false),
        ),
{
    multiply(cpu, bus, op, false)
}

pub fn muls<B: Bus>(cpu: &mut Cpu, bus: &mut B, op: u16) -> (cycles: u32)
    requires
        B::wf(old(bus).st()),
    ensures
        B::wf(final(bus).st()),
        same(
            (mach(*final(cpu), *final(bus)), cycles),
            multiply_spec::<B>(mach(*old(cpu), *old(bus)), op, true),
        ),
{
    multiply(cpu, bus, op, true)
}

pub open spec fn abs(x: int) -> int {
    if x < 0 {
        -x
    } else {
        x
    }
}

/// The quotient rounded towards zero.
pub open spec fn quotient(a: int, b: int) -> int {
    if (a < 0) == (b < 0) {
        abs(a) / abs(b)
    } else {
        -(abs(a) / abs(b))
    }
}

/// The remainder, which has the sign of the dividend.
pub open spec fn remainder(a: int, b: int) -> int {
    if a < 0 {
        -(abs(a) % abs(b))
    } else {
        abs(a) % abs(b)
    }
}

/// The dividend and the divisor as numbers.
pub open spec fn dividend_of(d: u32, is_signed: bool) -> int {
    if is_signed {
        signed(d, Size::Long)
    } else {
        d as int
    }
}

pub open spec fn divisor_of(v: u32, is_signed: bool) -> int {
    if is_signed {
        signed(v, Size::Word)
    } else {
        v as int % 0x1_0000
    }
}

/// The remainder above the quotient, if the quotient fits a word; `v` is the
/// divisor operand, not zero.
pub open spec fn division(d: u32, v: u32, is_signed: bool) -> Option<u32> {
    let q = quotient(dividend_of(d, is_signed), divisor_of(v, is_signed));
    let r = remainder(dividend_of(d, is_signed), divisor_of(v, is_signed));
    let fits = if is_signed {
        -0x8000 <= q < 0x8000
    } else {
        q < 0x1_0000
    };
    if fits {
        Some(long(wrapped(r, Size::Word) as u16, wrapped(q, Size::Word) as u16))
    } else {
        None
    }
}

fn low16(x: i64) -> (r: u16)
    requires
        -0x8000 <= x < 0x1_0000,
    ensures
        r == wrapped(x as int, Size::Word) as u16,
{
    assert(x < 0 ==> (x as int) % 0x1_0000 == x + 0x1_0000);
    assert(x >= 0 ==> (x as int) % 0x1_0000 == x);
    if x < 0 {
        (x + 0x1_0000) as u16
    } else {
        x as u16
    }
}

fn compute_division(d: u32, v: u32, is_signed: bool) -> (r: Option<u32>)
    requires
        divisor_of(v, is_signed) != 0,
    ensures
        r == division(d, v, is_signed),
{
    let a: i64 = if is_signed {
        to_signed(d, Size::Long)
    } else {
        d as i64
    };
    let b: i64 = if is_signed {
        to_signed(v, Size::Word)
    } else {
        (v % 0x1_0000) as i64
    };
    let ua: u64 = if a < 0 {
        (-a) as u64
    } else {
        a as u64
    };
    let ub: u64 = if b < 0 {
        (-b) as u64
    } else {
        b as u64
    };
    let uq: u64 = ua / ub;
    let ur: u64 = ua % ub;
    assert(uq <= ua) by (nonlinear_arith)
        requires
            uq == ua / ub,
            ub > 0,
    ;
    assert(ur < ub);
    let q: i64 = if (a < 0) == (b < 0) {
        uq as i64
    } else {
        -(uq as i64)
    };
    let rem: i64 = if a < 0 {
        -(ur as i64)
    } else {
        ur as i64
    };
    let fits: bool = if is_signed {
        -0x8000 <= q && q < 0x8000
    } else {
        q < 0x1_0000
    };
    if fits {
        Some(long(low16(rem), low16(q)))
    } else {
        None
    }
}

/// DIVU and DIVS. A zero divisor traps; a quotient that does not fit sets V and
/// leaves the register. C is clear in every case.
pub open spec fn divide_spec<B: Bus>(m: Mach<B::St>, op: u16, is_signed: bool) -> (
    Mach<B::St>,
    u32,
) {
    let reg = reg_field(op >> 9) as int;
    let (m1, ea) = Ea::decode_spec::<B>(m, op & 0x3F, Size::Word);
    let (m2, v) = ea.read_spec::<B>(m1, Size::Word);
    if m2.c.fault is Some {
        (m2, 4)
    } else {
        let c3 = m2.c.with_sr(sr_set(m2.c.sr, StatusRegister::C, false));
        if divisor_of(v, is_signed) == 0 {
            (
                enter_vector_spec::<B>(m2.with_c(c3), Exception::DivideByZero.vector()),
                38,
            )
        } else {
            match division(c3.d[reg], v, is_signed) {
                Some(r) => (
                    m2.with_c(
                        c3.with_d(reg, r).with_sr(
                            sr_set(sr_nz(c3.sr, r, Size::Word), StatusRegister::V, false),
                        ),
                    ),
                    cost(if is_signed { 158 } else { 140 }, ea, Size::Word),
                ),
                None => {
                    let s = sr_set(c3.sr, StatusRegister::V, true);
                    let s = sr_set(
                        sr_set(s, StatusRegister::N, true),
                        StatusRegister::Z,
                        false,
                    );
                    (
                        m2.with_c(c3.with_sr(s)),
                        cost(if is_signed { 158 } else { 76 }, ea, Size::Word),
                    )
                },
            }
        }
    }
}

fn divide<B: Bus>(cpu: &mut Cpu, bus: &mut B, op: u16, is_signed: bool) -> (cycles: u32)
    requires
        B::wf(old(bus).st()),
    ensures
        B::wf(final(bus).st()),
        same(
            (mach(*final(cpu), *final(bus)), cycles),
            divide_spec::<B>(mach(*old(cpu), *old(bus)), op, is_signed),
        ),
{
    let reg: usize = reg_field(op >> 9);
    let ea: Ea = Ea::decode(cpu, bus, op & 0x3F, Size::Word);
    let v: u32 = ea.read(cpu, bus, Size::Word);
    if cpu.address_error.is_some() {
        return 4;
    }
    let sr: u16 = sr_set(cpu.sr.0, StatusRegister::C, false);
    cpu.set_sr(sr);
    if v % 0x1_0000 == 0 {
        cpu.enter_exception(bus, Exception::DivideByZero);
        return 38;
    }
    match compute_division(cpu.d[reg], v, is_signed) {
        Some(r) => {
            cpu.set_d(reg, r);
            cpu.set_sr(sr_set(sr_nz(sr, r, Size::Word), StatusRegister::V, false));
            cost(
                if is_signed {
                    158
                } else {
                    140
                },
                ea,
                Size::Word,
            )
        }
        None => {
            let s: u16 = sr_set(sr, StatusRegister::V, true);
            cpu.set_sr(sr_set(sr_set(s, StatusRegister::N, true), StatusRegister::Z, false));
            cost(
                if is_signed {
                    158
                } else {
                    76
                },
                ea,
                Size::Word,
            )
        }
    }
}

pub fn divu<B: Bus>(cpu: &mut Cpu, bus: &mut B, op: u16) -> (cycles: u32)
    requires
        B::wf(old(bus).st()),
    ensures
        B::wf(final(bus).st()),
        same(
            (mach(*final(cpu), *final(bus)), cycles),
            divide_spec::<B>(mach(*old(cpu), *old(bus)), op, false),
        ),
{
    divide(cpu, bus, op, false)
}

pub fn divs<B: Bus>(cpu: &mut Cpu, bus: &mut B, op: u16) -> (cycles: u32)
    requires
        B::wf(old(bus).st()),
    ensures
        B::wf(final(bus).st()),
        same(
            (mach(*final(cpu), *final(bus)), cycles),
            divide_spec::<B>(mach(*old(cpu), *old(bus)), op, true),
        ),
{
    divide(cpu, bus, op, true)
}

/// ABCD and SBCD, on registers or on memory below the address registers.
pub open spec fn decimal_spec<B: Bus>(m: Mach<B::St>, op: u16, sub: bool) -> (Mach<B::St>, u32) {
    let y = reg_field(op) as int;
    let x = reg_field(op >> 9) as int;
    let memory = op & 8 != 0;
    let ay = m.c.a[y].wrapping_sub(step_of(y as usize, Size::Byte));
    let c1 = m.c.with_a(y, ay);
    let s1 = B::read8_next(m.s, ay);
    let ax = c1.a[x].wrapping_sub(step_of(x as usize, Size::Byte));
    let c2 = c1.with_a(x, ax);
    let m2 = if memory {
        Mach { c: c2, s: B::read8_next(s1, ax) }
    } else {
        m
    };
    let src = if memory {
        B::read8_val(m.s, ay)
    } else {
        m.c.d[y] as u8
    };
    let dst = if memory {
        B::read8_val(s1, ax)
    } else {
        m.c.d[x] as u8
    };
    let carry_in = x_bit(m2.c.sr) as u8;
    let (r, carry, v) = if sub {
        sbcd_spec(dst, src, carry_in)
    } else {
        abcd_spec(dst, src, carry_in)
    };
    let c3 = m2.c.with_sr(sr_extended(m2.c.sr, r & 0x80 != 0, r == 0, v, carry));
    if memory {
        (Mach { c: c3, s: B::write8_next(m2.s, c3.a[x], r) }, 18)
    } else {
        (m2.with_c(c3.with_d(x, merged(c3.d[x], r as u32, Size::Byte))), 6)
    }
}

fn decimal<B: Bus>(cpu: &mut Cpu, bus: &mut B, op: u16, sub: bool) -> (cycles: u32)
    requires
        B::wf(old(bus).st()),
    ensures
        B::wf(final(bus).st()),
        same(
            (mach(*final(cpu), *final(bus)), cycles),
            decimal_spec::<B>(mach(*old(cpu), *old(bus)), op, sub),
        ),
{
    let y: usize = reg_field(op);
    let x: usize = reg_field(op >> 9);
    let memory: bool = op & 8 != 0;
    let src: u8;
    let dst: u8;
    if memory {
        let ay: u32 = cpu.a[y].wrapping_sub(step_of(y, Size::Byte));
        cpu.set_a(y, ay);
        src = bus.read8(ay);
        let ax: u32 = cpu.a[x].wrapping_sub(step_of(x, Size::Byte));
        cpu.set_a(x, ax);
        dst = bus.read8(ax);
    } else {
        src = cpu.d[y] as u8;
        dst = cpu.d[x] as u8;
    }
    let carry_in: u8 = x_bit(cpu.sr.0) as u8;
    let (r, carry, v): (u8, bool, bool) = if sub {
        sbcd_calc(dst, src, carry_in)
    } else {
        abcd_calc(dst, src, carry_in)
    };
    let sr: u16 = compute_sr_extended(cpu.sr.0, r & 0x80 != 0, r == 0, v, carry);
    cpu.set_sr(sr);
    if memory {
        let addr: u32 = cpu.a[x];
        bus.write8(addr, r);
        18
    } else {
        let new: u32 = merged(cpu.d[x], r as u32, Size::Byte);
        cpu.set_d(x, new);
        6
    }
}

pub fn abcd<B: Bus>(cpu: &mut Cpu, bus: &mut B, op: u16) -> (cycles: u32)
    requires
        B::wf(old(bus).st()),
    ensures
        B::wf(final(bus).st()),
        same(
            (mach(*final(cpu), *final(bus)), cycles),
            decimal_spec::<B>(mach(*old(cpu), *old(bus)), op, false),
        ),
{
    decimal(cpu, bus, op, false)
}

pub fn sbcd<B: Bus>(cpu: &mut Cpu, bus: &mut B, op: u16) -> (cycles: u32)
    requires
        B::wf(old(bus).st()),
    ensures
        B::wf(final(bus).st()),
        same(
            (mach(*final(cpu), *final(bus)), cycles),
            decimal_spec::<B>(mach(*old(cpu), *old(bus)), op, true),
        ),
{
    decimal(cpu, bus, op, true)
}

/// Line 8.
pub open spec fn or_div_sbcd_spec<B: Bus>(m: Mach<B::St>, op: u16) -> (Mach<B::St>, u32) {
    let opmode = (op >> 6) & 7;
    if opmode == 3 {
        divide_spec::<B>(m, op, false)
    } else if opmode == 7 {
        divide_spec::<B>(m, op, true)
    } else if op & 0xF1F0 == 0x8100 {
        decimal_spec::<B>(m, op, true)
    } else {
        or_and_common_spec::<B>(m, op, false)
    }
}

pub fn or_div_sbcd<B: Bus>(cpu: &mut Cpu, bus: &mut B, op: u16) -> (cycles: u32)
    requires
        B::wf(old(bus).st()),
    ensures
        B::wf(final(bus).st()),
        same(
            (mach(*final(cpu), *final(bus)), cycles),
            or_div_sbcd_spec::<B>(mach(*old(cpu), *old(bus)), op),
        ),
{
    let opmode: u16 = (op >> 6) & 7;
    if opmode == 3 {
        divu(cpu, bus, op)
    } else if opmode == 7 {
        divs(cpu, bus, op)
    } else if op & 0xF1F0 == 0x8100 {
        sbcd(cpu, bus, op)
    } else {
        or_and_common(cpu, bus, op, false)
    }
}

/// EXG: two data registers, two address registers, or one of each.
pub open spec fn exchange_spec(c: CpuState, op: u16) -> Option<CpuState> {
    let x = reg_field(op >> 9) as int;
    let y = reg_field(op) as int;
    if op & 0xF130 != 0xC100 {
        None
    } else {
        match (op >> 3) & 0x1F {
            0x08 => Some(c.with_d(x, c.d[y]).with_d(y, c.d[x])),
            0x09 => Some(c.with_a(x, c.a[y]).with_a(y, c.a[x])),
            0x11 => Some(c.with_d(x, c.a[y]).with_a(y, c.d[x])),
            _ => None,
        }
    }
}

fn exchange(cpu: &mut Cpu, op: u16) -> (done: bool)
    ensures
        done == (exchange_spec(old(cpu)@, op) is Some),
        done ==> final(cpu)@ == exchange_spec(old(cpu)@, op)->0,
        !done ==> final(cpu)@ == old(cpu)@,
{
    let x: usize = reg_field(op >> 9);
    let y: usize = reg_field(op);
    if op & 0xF130 != 0xC100 {
        return false;
    }
    match (op >> 3) & 0x1F {
        0x08 => {
            let vx: u32 = cpu.d[x];
            let vy: u32 = cpu.d[y];
            cpu.set_d(x, vy);
            cpu.set_d(y, vx);
            true
        }
        0x09 => {
            let vx: u32 = cpu.a[x];
            let vy: u32 = cpu.a[y];
            cpu.set_a(x, vy);
            cpu.set_a(y, vx);
            true
        }
        0x11 => {
            let vx: u32 = cpu.d[x];
            let vy: u32 = cpu.a[y];
            cpu.set_d(x, vy);
            cpu.set_a(y, vx);
            true
        }
        _ => false,
    }
}

/// Line C.
pub open spec fn and_mul_abcd_spec<B: Bus>(m: Mach<B::St>, op: u16) -> (Mach<B::St>, u32) {
    let opmode = (op >> 6) & 7;
    if opmode == 3 {
        multiply_spec::<B>(m, op, false)
    } else if opmode == 7 {
        multiply_spec::<B>(m, op, true)
    } else if op & 0xF1F0 == 0xC100 {
        decimal_spec::<B>(m, op, false)
    } else {
        match exchange_spec(m.c, op) {
            Some(c) => (m.with_c(c), 6),
            None => or_and_common_spec::<B>(m, op, true),
        }
    }
}

pub fn and_mul_abcd<B: Bus>(cpu: &mut Cpu, bus: &mut B, op: u16) -> (cycles: u32)
    requires
        B::wf(old(bus).st()),
    ensures
        B::wf(final(bus).st()),
        same(
            (mach(*final(cpu), *final(bus)), cycles),
            and_mul_abcd_spec::<B>(mach(*old(cpu), *old(bus)), op),
        ),
{
    let opmode: u16 = (op >> 6) & 7;
    if opmode == 3 {
        return mulu(cpu, bus, op);
    }
    if opmode == 7 {
        return muls(cpu, bus, op);
    }
    if op & 0xF1F0 == 0xC100 {
        return abcd(cpu, bus, op);
    }
    if exchange(cpu, op) {
        return 6;
    }
    or_and_common(cpu, bus, op, true)
}

}
