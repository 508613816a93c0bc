//! MOVE, MOVEQ, MOVEM, MOVEP.
use vstd::prelude::*;
use crate::bits::same;
use crate::cpu::m68k::bus::Bus;
use crate::cpu::m68k::cpu::{
    fetch16_spec, mach, sext16, sext8, sr_logic, sr_set, Cpu, CpuState, Mach, Size, StatusRegister,
};
use crate::cpu::m68k::ea::{
    mark_program_fault, program_fault, read_at, read_at_spec, reg_field, write_at, write_at_spec,
    Ea,
};

verus! {

/// The cycles of an instruction with one operand.
#[verifier::allow_in_spec]
pub fn cost(base: u32, ea: Ea, size: Size) -> u32
    returns
        base.wrapping_add(ea.cycles(size)),
{
    base.wrapping_add(ea.cycles(size))
}

/// The destination field of MOVE has its register and mode swapped.
#[verifier::allow_in_spec]
pub fn swap_dst(b: u16) -> u16
    returns
        ((b & 7) << 3) | ((b >> 3) & 7),
{
    ((b & 7) << 3) | ((b >> 3) & 7)
}

/// N and Z once the high half of a long operand is seen too: Z survives only a
/// zero half.
#[verifier::allow_in_spec]
pub fn sr_high_half(sr: u16, value: u32) -> u16
    returns
        sr_set(
            sr_set(sr, StatusRegister::N, value & 0x8000_0000 != 0),
            StatusRegister::Z,
            sr & StatusRegister::Z != 0 && (value >> 16) == 0,
        ),
{
    sr_set(
        sr_set(sr, StatusRegister::N, value & 0x8000_0000 != 0),
        StatusRegister::Z,
        sr & StatusRegister::Z != 0 && (value >> 16) == 0,
    )
}

/// The status register at the moment of the first destination write. Byte and
/// word moves have settled it; of a long move, the halves seen so far count,
/// which depends on where the operand comes from and on the addressing mode it
/// goes to.
#[verifier::allow_in_spec]
pub fn move_sr_at_write(sr: u16, value: u32, size: Size, src: Ea, dst_bits: u16) -> u16
    returns
        ({
            let mode = (dst_bits >> 3) & 7;
            let abs_long = mode == 7 && dst_bits & 7 == 1;
            let low = sr_logic(sr, value & 0xFFFF, Size::Word);
            if mode == 1 {
                sr
            } else if size != Size::Long {
                sr_logic(sr, value, size)
            } else if src.is_reg_direct() || src.is_immediate() {
                if mode == 2 || mode == 3 {
                    sr
                } else if mode == 4 || mode == 7 {
                    sr_high_half(low, value)
                } else {
                    sr_high_half(sr, value)
                }
            } else if mode == 2 || mode == 3 || abs_long {
                low
            } else {
                sr_high_half(low, value)
            }
        }),
{
    let mode: u16 = (dst_bits >> 3) & 7;
    let abs_long: bool = mode == 7 && dst_bits & 7 == 1;
    let low: u16 = sr_logic(sr, value & 0xFFFF, Size::Word);
    if mode == 1 {
        sr
    } else if size != Size::Long {
        sr_logic(sr, value, size)
    } else if src.is_reg_direct() || src.is_immediate() {
        if mode == 2 || mode == 3 {
            sr
        } else if mode == 4 || mode == 7 {
            sr_high_half(low, value)
        } else {
            sr_high_half(sr, value)
        }
    } else if mode == 2 || mode == 3 || abs_long {
        low
    } else {
        sr_high_half(low, value)
    }
}

/// The PC that a faulting destination write reports: two past the PC before the
/// destination was decoded, except that a long absolute destination counts the
/// words fetched.
#[verifier::allow_in_spec]
pub fn move_au_at_write(pc: u32, pre_dst_pc: u32, src: Ea, dst_bits: u16) -> u32
    returns
        (if (dst_bits >> 3) & 7 == 7 && dst_bits & 7 == 1 {
            if src.is_reg_direct() {
                pc
            } else {
                pc.wrapping_sub(2)
            }
        } else {
            pre_dst_pc.wrapping_add(2)
        }),
{
    if (dst_bits >> 3) & 7 == 7 && dst_bits & 7 == 1 {
        if src.is_reg_direct() {
            pc
        } else {
            pc.wrapping_sub(2)
        }
    } else {
        pre_dst_pc.wrapping_add(2)
    }
}

/// MOVE and MOVEA.
pub open spec fn move_family_spec<B: Bus>(m: Mach<B::St>, op: u16, size: Size) -> (
    Mach<B::St>,
    u32,
) {
    let src_bits = op & 0x3F;
    let dst_bits = swap_dst((op >> 6) & 0x3F);
    let movea = (dst_bits >> 3) & 7 == 1;
    let (m1, src) = Ea::decode_spec::<B>(m, src_bits, size);
    let m2 = if (src_bits >> 3) & 7 == 4 && size != Size::Long {
        m1.with_c(m1.c.with_au(m1.c.instr_pc.wrapping_add(4)))
    } else {
        m1
    };
    let (m3, value) = src.read_spec::<B>(m2, size);
    if m3.c.fault is Some {
        (m3, 4)
    } else {
        let (m4, dst) = Ea::decode_spec::<B>(m3, dst_bits, size);
        let c5 = m4.c.with_sr(move_sr_at_write(m4.c.sr, value, size, src, dst_bits));
        let c6 = if dst.is_reg_direct() {
            c5
        } else {
            c5.with_au(move_au_at_write(c5.pc, m3.c.pc, src, dst_bits))
        };
        let m7 = dst.write_spec::<B>(m4.with_c(c6), size, value);
        if m7.c.fault is Some {
            (m7, 4)
        } else {
            let m8 = if !movea && size == Size::Long {
                m7.with_c(m7.c.with_sr(sr_logic(m7.c.sr, value, size)))
            } else {
                m7
            };
            (m8, cost(cost(4, src, size), dst, size))
        }
    }
}

pub fn move_family<B: Bus>(cpu: &mut Cpu, bus: &mut B, op: u16, size: Size) -> (cycles: u32)
    requires
        B::wf(old(bus).st()),
    ensures
        B::wf(final(bus).st()),
        same(
            (mach(*final(cpu), *final(bus)), cycles),
            move_family_spec::<B>(mach(*old(cpu), *old(bus)), op, size),
        ),
{
    let src_bits: u16 = op & 0x3F;
    let dst_bits: u16 = swap_dst((op >> 6) & 0x3F);
    let movea: bool = (dst_bits >> 3) & 7 == 1;
    let src: Ea = Ea::decode(cpu, bus, src_bits, size);
    if (src_bits >> 3) & 7 == 4 && size != Size::Long {
        let au: u32 = cpu.instr_pc.wrapping_add(4);
        cpu.set_au(au);
    }
    let value: u32 = src.read(cpu, bus, size);
    if cpu.address_error.is_some() {
        return 4;
    }
    let pre_dst_pc: u32 = cpu.pc;
    let dst: Ea = Ea::decode(cpu, bus, dst_bits, size);
    let sr: u16 = move_sr_at_write(cpu.sr.0, value, size, src, dst_bits);
    cpu.set_sr(sr);
    if !dst.is_reg_direct() {
        let au: u32 = move_au_at_write(cpu.pc, pre_dst_pc, src, dst_bits);
        cpu.set_au(au);
    }
    dst.write(cpu, bus, size, value);
    if cpu.address_error.is_some() {
        return 4;
    }
    if !movea && size == Size::Long {
        let sr: u16 = sr_logic(cpu.sr.0, value, size);
        cpu.set_sr(sr);
    }
    cost(cost(4, src, size), dst, size)
}

/// MOVEQ.
pub open spec fn moveq_spec(c: CpuState, op: u16) -> CpuState {
    let v = sext8((op & 0xFF) as u32);
    c.with_d(reg_field(op >> 9) as int, v).with_sr(sr_logic(c.sr, v, Size::Long))
}

pub fn moveq(cpu: &mut Cpu, op: u16) -> (cycles: u32)
    ensures
        cycles == 4,
        final(cpu)@ == moveq_spec(old(cpu)@, op),
{
    let v: u32 = sext8((op & 0xFF) as u32);
    cpu.set_d(reg_field(op >> 9), v);
    let sr: u16 = sr_logic(cpu.sr.0, v, Size::Long);
    cpu.set_sr(sr);
    4
}

/// Register `k` of the sixteen: the data registers, then the address registers.
pub open spec fn any_reg(c: CpuState, k: int) -> u32 {
    if k < 8 {
        c.d[k]
    } else {
        c.a[k - 8]
    }
}

pub open spec fn with_any_reg(c: CpuState, k: int, v: u32) -> CpuState {
    if k < 8 {
        c.with_d(k, v)
    } else {
        c.with_a(k - 8, v)
    }
}

fn get_any_reg(cpu: &Cpu, k: usize) -> (v: u32)
    requires
        k < 16,
    ensures
        v == any_reg(cpu@, k as int),
{
    if k < 8 {
        cpu.d[k]
    } else {
        cpu.a[k - 8]
    }
}

fn set_any_reg(cpu: &mut Cpu, k: usize, v: u32)
    requires
        k < 16,
    ensures
        final(cpu)@ == with_any_reg(old(cpu)@, k as int, v),
{
    if k < 8 {
        cpu.set_d(k, v);
    } else {
        cpu.set_a(k - 8, v);
    }
}

/// A faulting MOVEM transfer reports the PC two bytes on.
pub open spec fn movem_fault<S>(m: Mach<S>) -> Mach<S> {
    m.with_c(m.c.with_au(m.c.pc.wrapping_add(2)))
}

/// One register stored below `a`: a long goes low word first. Gives the new
/// address.
pub open spec fn movem_push<B: Bus>(m: Mach<B::St>, v: u32, size: Size, a: u32) -> (
    Mach<B::St>,
    u32,
) {
    if size == Size::Long {
        let m1 = write_at_spec::<B>(m, a.wrapping_sub(2), Size::Word, v & 0xFFFF);
        if m1.c.fault is Some {
            (m1, a)
        } else {
            (
                write_at_spec::<B>(m1, a.wrapping_sub(4), Size::Word, v >> 16),
                a.wrapping_sub(4),
            )
        }
    } else {
        (write_at_spec::<B>(m, a.wrapping_sub(2), Size::Word, v), a.wrapping_sub(2))
    }
}

fn do_movem_push<B: Bus>(cpu: &mut Cpu, bus: &mut B, v: u32, size: Size, a: u32) -> (r: u32)
    requires
        B::wf(old(bus).st()),
    ensures
        B::wf(final(bus).st()),
        same(
            (mach(*final(cpu), *final(bus)), r),
            movem_push::<B>(mach(*old(cpu), *old(bus)), v, size, a),
        ),
{
    if size == Size::Long {
        write_at(cpu, bus, a.wrapping_sub(2), Size::Word, v & 0xFFFF);
        if cpu.address_error.is_some() {
            return a;
        }
        write_at(cpu, bus, a.wrapping_sub(4), Size::Word, v >> 16);
        a.wrapping_sub(4)
    } else {
        write_at(cpu, bus, a.wrapping_sub(2), Size::Word, v);
        a.wrapping_sub(2)
    }
}

/// The registers that bits `i` and up of the mask select, stored downwards from
/// `a`, A7 first. The mask is reversed: bit 0 is A7.
pub open spec fn movem_store_down<B: Bus>(
    m: Mach<B::St>,
    mask: u16,
    size: Size,
    a: u32,
    i: u16,
) -> (Mach<B::St>, u32)
    decreases 16 - i,
{
    if i >= 16 {
        (m, a)
    } else if (mask >> i) & 1 == 1 {
        let (m1, a1) = movem_push::<B>(m, any_reg(m.c, 15 - i), size, a);
        if m1.c.fault is Some {
            (movem_fault(m1), a1)
        } else {
            movem_store_down::<B>(m1, mask, size, a1, (i + 1) as u16)
        }
    } else {
        movem_store_down::<B>(m, mask, size, a, (i + 1) as u16)
    }
}

/// The registers that bits `i` and up of the mask select, stored upwards from
/// `a`.
pub open spec fn movem_store_up<B: Bus>(
    m: Mach<B::St>,
    mask: u16,
    size: Size,
    a: u32,
    i: u16,
) -> Mach<B::St>
    decreases 16 - i,
{
    if i >= 16 {
        m
    } else if (mask >> i) & 1 == 1 {
        let m1 = write_at_spec::<B>(m, a, size, any_reg(m.c, i as int));
        if m1.c.fault is Some {
            movem_fault(m1)
        } else {
            movem_store_up::<B>(m1, mask, size, a.wrapping_add(size.bytes()), (i + 1) as u16)
        }
    } else {
        movem_store_up::<B>(m, mask, size, a, (i + 1) as u16)
    }
}

/// The registers that bits `i` and up of the mask select, loaded upwards from
/// `a`; words are sign-extended. A fault on a PC-relative source is in program
/// space.
pub open spec fn movem_load<B: Bus>(
    m: Mach<B::St>,
    mask: u16,
    size: Size,
    a: u32,
    i: u16,
    program: bool,
) -> (Mach<B::St>, u32)
    decreases 16 - i,
{
    if i >= 16 {
        (m, a)
    } else if (mask >> i) & 1 == 1 {
        let (m1, v) = read_at_spec::<B>(m, a, size);
        if m1.c.fault is Some {
            let m2 = if program {
                m1.with_c(program_fault(m1.c))
            } else {
                m1
            };
            (movem_fault(m2), a)
        } else {
            let x = if size == Size::Long {
                v
            } else {
                sext16(v)
            };
            movem_load::<B>(
                m1.with_c(with_any_reg(m1.c, i as int, x)),
                mask,
                size,
                a.wrapping_add(size.bytes()),
                (i + 1) as u16,
                program,
            )
        }
    } else {
        movem_load::<B>(m, mask, size, a, (i + 1) as u16, program)
    }
}

/// The address of a MOVEM operand; zero for an operand not in memory.
pub open spec fn movem_base(ea: Ea, c: CpuState, size: Size) -> u32 {
    match ea.address(c, size) {
        Some(a) => a,
        None => 0,
    }
}

/// MOVEM. The address register of -(An) and (An)+ is written back only if every
/// transfer succeeds.
pub open spec fn movem_spec<B: Bus>(m: Mach<B::St>, op: u16) -> Mach<B::St> {
    let to_regs = op & 0x0400 != 0;
    let size = if op & 0x0040 != 0 {
        Size::Long
    } else {
        Size::Word
    };
    let mode = (op >> 3) & 7;
    let reg = reg_field(op) as int;
    let (m1, mask) = fetch16_spec::<B>(m);
    if !to_regs && mode == 4 {
        let (m2, a) = movem_store_down::<B>(m1, mask, size, m1.c.a[reg], 0);
        if m2.c.fault is Some {
            m2
        } else {
            m2.with_c(m2.c.with_a(reg, a))
        }
    } else if to_regs && mode == 3 {
        let (m2, a) = movem_load::<B>(m1, mask, size, m1.c.a[reg], 0, false);
        if m2.c.fault is Some {
            m2
        } else {
            m2.with_c(m2.c.with_a(reg, a))
        }
    } else {
        let (m2, ea) = Ea::decode_spec::<B>(m1, op & 0x3F, size);
        let a = movem_base(ea, m2.c, size);
        let m3 = m2.with_c(ea.after_address(m2.c, size));
        if to_regs {
            movem_load::<B>(m3, mask, size, a, 0, ea.is_pc_relative()).0
        } else {
            movem_store_up::<B>(m3, mask, size, a, 0)
        }
    }
}

fn do_store_down<B: Bus>(cpu: &mut Cpu, bus: &mut B, mask: u16, size: Size, start: u32) -> (a: u32)
    requires
        B::wf(old(bus).st()),
    ensures
        B::wf(final(bus).st()),
        same(
            (mach(*final(cpu), *final(bus)), a),
            movem_store_down::<B>(mach(*old(cpu), *old(bus)), mask, size, start, 0),
        ),
{
    let ghost goal = movem_store_down::<B>(mach(*cpu, *bus), mask, size, start, 0);
    let mut a: u32 = start;
    let mut i: u16 = 0;
    while i < 16
        invariant
            i <= 16,
            B::wf(bus.st()),
            goal == movem_store_down::<B>(mach(*old(cpu), *old(bus)), mask, size, start, 0),
            goal == movem_store_down::<B>(mach(*cpu, *bus), mask, size, a, i),
        decreases 16 - i,
    {
        if (mask >> i) & 1 == 1 {
            let v: u32 = get_any_reg(cpu, 15 - i as usize);
            a = do_movem_push(cpu, bus, v, size, a);
            if cpu.address_error.is_some() {
                let au: u32 = cpu.pc.wrapping_add(2);
                cpu.set_au(au);
                return a;
            }
        }
        i = i + 1;
    }
    a
}

fn do_store_up<B: Bus>(cpu: &mut Cpu, bus: &mut B, mask: u16, size: Size, start: u32)
    requires
        B::wf(old(bus).st()),
    ensures
        B::wf(final(bus).st()),
        same(
            mach(*final(cpu), *final(bus)),
            movem_store_up::<B>(mach(*old(cpu), *old(bus)), mask, size, start, 0),
        ),
{
    let ghost goal = movem_store_up::<B>(mach(*cpu, *bus), mask, size, start, 0);
    let mut a: u32 = start;
    let mut i: u16 = 0;
    while i < 16
        invariant
            i <= 16,
            B::wf(bus.st()),
            goal == movem_store_up::<B>(mach(*old(cpu), *old(bus)), mask, size, start, 0),
            goal == movem_store_up::<B>(mach(*cpu, *bus), mask, size, a, i),
        decreases 16 - i,
    {
        if (mask >> i) & 1 == 1 {
            let v: u32 = get_any_reg(cpu, i as usize);
            write_at(cpu, bus, a, size, v);
            if cpu.address_error.is_some() {
                let au: u32 = cpu.pc.wrapping_add(2);
                cpu.set_au(au);
                return;
            }
            a = a.wrapping_add(size.bytes());
        }
        i = i + 1;
    }
}

fn do_load<B: Bus>(
    cpu: &mut Cpu,
    bus: &mut B,
    mask: u16,
    size: Size,
    start: u32,
    program: bool,
) -> (a: u32)
    requires
        B::wf(old(bus).st()),
    ensures
        B::wf(final(bus).st()),
        same(
            (mach(*final(cpu), *final(bus)), a),
            movem_load::<B>(mach(*old(cpu), *old(bus)), mask, size, start, 0, program),
        ),
{
    let ghost goal = movem_load::<B>(mach(*cpu, *bus), mask, size, start, 0, program);
    let mut a: u32 = start;
    let mut i: u16 = 0;
    while i < 16
        invariant
            i <= 16,
            B::wf(bus.st()),
            goal == movem_load::<B>(mach(*old(cpu), *old(bus)), mask, size, start, 0, program),
            goal == movem_load::<B>(mach(*cpu, *bus), mask, size, a, i, program),
        decreases 16 - i,
    {
        if (mask >> i) & 1 == 1 {
            let v: u32 = read_at(cpu, bus, a, size);
            if cpu.address_error.is_some() {
                if program {
                    mark_program_fault(cpu);
                }
                let au: u32 = cpu.pc.wrapping_add(2);
                cpu.set_au(au);
                return a;
            }
            let x: u32 = if size == Size::Long {
                v
            } else {
                sext16(v)
            };
            set_any_reg(cpu, i as usize, x);
            a = a.wrapping_add(size.bytes());
        }
        i = i + 1;
    }
    a
}

pub fn movem<B: Bus>(cpu: &mut Cpu, bus: &mut B, op: u16) -> (cycles: u32)
    requires
        B::wf(old(bus).st()),
    ensures
        B::wf(final(bus).st()),
        cycles == 20,
        same(
            mach(*final(cpu), *final(bus)),
            movem_spec::<B>(mach(*old(cpu), *old(bus)), op),
        ),
{
    let to_regs: bool = op & 0x0400 != 0;
    let size: Size = if op & 0x0040 != 0 {
        Size::Long
    } else {
        Size::Word
    };
    let mode: u16 = (op >> 3) & 7;
    let reg: usize = reg_field(op);
    let mask: u16 = cpu.fetch16(bus);
    if !to_regs && mode == 4 {
        let start: u32 = cpu.a[reg];
        let a: u32 = do_store_down(cpu, bus, mask, size, start);
        if cpu.address_error.is_none() {
            cpu.set_a(reg, a);
        }
    } else if to_regs && mode == 3 {
        let start: u32 = cpu.a[reg];
        let a: u32 = do_load(cpu, bus, mask, size, start, false);
        if cpu.address_error.is_none() {
            cpu.set_a(reg, a);
        }
    } else {
        let ea: Ea = Ea::decode(cpu, bus, op & 0x3F, size);
        let a: u32 = match ea.compute_address(cpu, size) {
            Some(a) => a,
            None => 0,
        };
        if to_regs {
            let _a: u32 = do_load(cpu, bus, mask, size, a, ea.is_pc_relative());
        } else {
            do_store_up(cpu, bus, mask, size, a);
        }
    }
    20
}

/// Byte `k` of a long word, counted from the low end.
#[verifier::allow_in_spec]
pub fn byte_of(v: u32, k: u32) -> (r: u8)
    requires
        k < 4,
    returns
        (v >> (8 * k) as u32) as u8,
{
    (v >> (8 * k)) as u8
}

/// The bytes of `v` from byte `k` down to byte 0, at every other address.
pub open spec fn movep_store<B: Bus>(s: B::St, addr: u32, v: u32, k: nat) -> B::St
    decreases k,
{
    if k == 0 {
        s
    } else {
        movep_store::<B>(
            B::write8_next(s, addr, byte_of(v, (k - 1) as u32)),
            addr.wrapping_add(2),
            v,
            (k - 1) as nat,
        )
    }
}

/// `k` bytes from every other address, shifted into `acc` from the low end.
pub open spec fn movep_load<B: Bus>(s: B::St, addr: u32, acc: u32, k: nat) -> (B::St, u32)
    decreases k,
{
    if k == 0 {
        (s, acc)
    } else {
        movep_load::<B>(
            B::read8_next(s, addr),
            addr.wrapping_add(2),
            (acc << 8) | (B::read8_val(s, addr) as u32),
            (k - 1) as nat,
        )
    }
}

/// MOVEP.
pub open spec fn movep_spec<B: Bus>(m: Mach<B::St>, op: u16) -> (Mach<B::St>, u32) {
    let dn = reg_field(op >> 9) as int;
    let is_long = (op >> 6) & 1 != 0;
    let n: nat = if is_long {
        4
    } else {
        2
    };
    let (m1, disp) = fetch16_spec::<B>(m);
    let addr = m1.c.a[reg_field(op) as int].wrapping_add(sext16(disp as u32));
    let cycles: u32 = if is_long {
        24
    } else {
        16
    };
    if (op >> 6) & 2 != 0 {
        (m1.with_s(movep_store::<B>(m1.s, addr, m1.c.d[dn], n)), cycles)
    } else {
        let (s2, v) = movep_load::<B>(m1.s, addr, 0, n);
        let r = if is_long {
            v
        } else {
            (m1.c.d[dn] & 0xFFFF_0000) | v
        };
        (Mach { c: m1.c.with_d(dn, r), s: s2 }, cycles)
    }
}

pub fn movep<B: Bus>(cpu: &mut Cpu, bus: &mut B, op: u16) -> (cycles: u32)
    requires
        B::wf(old(bus).st()),
    ensures
        B::wf(final(bus).st()),
        same(
            (mach(*final(cpu), *final(bus)), cycles),
            movep_spec::<B>(mach(*old(cpu), *old(bus)), op),
        ),
{
    let dn: usize = reg_field(op >> 9);
    let is_long: bool = (op >> 6) & 1 != 0;
    let n: u32 = if is_long {
        4
    } else {
        2
    };
    let disp: u16 = cpu.fetch16(bus);
    let mut addr: u32 = cpu.a[reg_field(op)].wrapping_add(sext16(disp as u32));
    let mut k: u32 = n;
    if (op >> 6) & 2 != 0 {
        let v: u32 = cpu.d[dn];
        let ghost goal = movep_store::<B>(bus.st(), addr, v, n as nat);
        while k > 0
            invariant
                k <= 4,
                B::wf(bus.st()),
                goal == movep_store::<B>(bus.st(), addr, v, k as nat),
            decreases k,
        {
            k = k - 1;
            bus.write8(addr, byte_of(v, k));
            addr = addr.wrapping_add(2);
        }
    } else {
        let mut acc: u32 = 0;
        let ghost goal = movep_load::<B>(bus.st(), addr, 0, n as nat);
        while k > 0
            invariant
                k <= 4,
                B::wf(bus.st()),
                goal == movep_load::<B>(bus.st(), addr, acc, k as nat),
            decreases k,
        {
            k = k - 1;
            let b: u8 = bus.read8(addr);
            acc = (acc << 8) | (b as u32);
            addr = addr.wrapping_add(2);
        }
        let r: u32 = if is_long {
            acc
        } else {
            (cpu.d[dn] & 0xFFFF_0000) | acc
        };
        cpu.set_d(dn, r);
    }
    if is_long {
        24
    } else {
        16
    }
}

}
