//! Branches, ADDQ and SUBQ, Scc and DBcc.
use vstd::prelude::*;
use crate::bits::same;
use crate::cpu::m68k::bus::Bus;
use crate::cpu::m68k::cpu::{
    fetch16_spec, jump_fault, jump_to_spec, jump_to_subroutine_spec, mach, push32_spec, sext16,
    sext8, Condition, Cpu, CpuState, Mach, Size, StatusRegister,
};
use crate::cpu::m68k::ea::{reg_field, Ea};
use crate::cpu::m68k::misc::size_from_bits67;
use crate::cpu::m68k::rmw::Rmw;
use crate::cpu::m68k::transfer::cost;

verus! {

/// Where a branch goes: relative to the word after the opcode, by a byte in the
/// opcode or, if that is zero, by the next word.
pub open spec fn branch_target_spec<B: Bus>(m: Mach<B::St>, op: u16) -> (Mach<B::St>, u32) {
    if op & 0xFF == 0 {
        let (m1, w) = fetch16_spec::<B>(m);
        (m1, m.c.pc.wrapping_add(sext16(w as u32)))
    } else {
        (m, m.c.pc.wrapping_add(sext8((op & 0xFF) as u32)))
    }
}

fn branch_target<B: Bus>(cpu: &mut Cpu, bus: &mut B, op: u16) -> (target: u32)
    requires
        B::wf(old(bus).st()),
    ensures
        B::wf(final(bus).st()),
        same(
            (mach(*final(cpu), *final(bus)), target),
            branch_target_spec::<B>(mach(*old(cpu), *old(bus)), op),
        ),
{
    let base: u32 = cpu.pc;
    if op & 0xFF == 0 {
        let w: u16 = cpu.fetch16(bus);
        base.wrapping_add(sext16(w as u32))
    } else {
        base.wrapping_add(sext8((op & 0xFF) as u32))
    }
}

/// The jump of BSR: to an odd target it is an address error that reports the
/// target itself.
pub open spec fn bsr_jump_spec(c: CpuState, target: u32) -> CpuState {
    if target % 2 == 1 {
        jump_fault(c.with_au(target), target)
    } else {
        CpuState { pc: target, au: target, ..c }
    }
}

/// BRA, BSR and Bcc.
pub open spec fn branch_family_spec<B: Bus>(m: Mach<B::St>, op: u16) -> (Mach<B::St>, u32) {
    let cc = (op >> 8) & 0xF;
    let (m1, target) = branch_target_spec::<B>(m, op);
    if cc == 1 {
        let m2 = push32_spec::<B>(m1, m1.c.pc);
        (if m2.c.fault is Some { m2 } else { m2.with_c(bsr_jump_spec(m2.c, target)) }, 18)
    } else if cc == 0 || StatusRegister(m1.c.sr).evaluate(Condition::from_bits(cc)) {
        (m1.with_c(jump_to_spec(m1.c, target)), 10)
    } else {
        (m1, 8)
    }
}

pub fn branch_family<B: Bus>(cpu: &mut Cpu, bus: &mut B, op: u16) -> (cycles: u32)
    requires
        B::wf(old(bus).st()),
    ensures
        B::wf(final(bus).st()),
        same(
            (mach(*final(cpu), *final(bus)), cycles),
            branch_family_spec::<B>(mach(*old(cpu), *old(bus)), op),
        ),
{
    let cc: u16 = (op >> 8) & 0xF;
    let target: u32 = branch_target(cpu, bus, op);
    if cc == 1 {
        let pc: u32 = cpu.pc;
        cpu.push32(bus, pc);
        if cpu.address_error.is_none() {
            if target % 2 == 1 {
                cpu.set_au(target);
                cpu.raise_jump_fault(target);
            } else {
                cpu.jump_to(target);
            }
        }
        18
    } else if cc == 0 || cpu.sr.evaluate(Condition::from_bits(cc)) {
        cpu.jump_to(target);
        10
    } else {
        8
    }
}

/// DBcc. The counter is written only once the branch is known not to fault.
pub open spec fn dbcc_spec<B: Bus>(m: Mach<B::St>, op: u16) -> (Mach<B::St>, u32) {
    let n = reg_field(op) as int;
    let (m1, w) = fetch16_spec::<B>(m);
    let target = m.c.pc.wrapping_add(sext16(w as u32));
    let next = low_minus_one(m1.c.d[n]);
    let counted = (m1.c.d[n] & 0xFFFF_0000) | next;
    if StatusRegister(m1.c.sr).evaluate(Condition::from_bits((op >> 8) & 0xF)) {
        (m1, 12)
    } else if next == 0xFFFF {
        (m1.with_c(m1.c.with_d(n, counted)), 14)
    } else {
        let c2 = jump_to_subroutine_spec(m1.c, target);
        (m1.with_c(if c2.fault is Some { c2 } else { c2.with_d(n, counted) }), 10)
    }
}

/// The low word of `v` less one.
#[verifier::allow_in_spec]
pub fn low_minus_one(v: u32) -> u32
    returns
        ((v & 0xFFFF) as u16).wrapping_sub(1) as u32,
{
    ((v & 0xFFFF) as u16).wrapping_sub(1) as u32
}

pub fn dbcc<B: Bus>(cpu: &mut Cpu, bus: &mut B, op: u16) -> (cycles: u32)
    requires
        B::wf(old(bus).st()),
    ensures
        B::wf(final(bus).st()),
        same(
            (mach(*final(cpu), *final(bus)), cycles),
            dbcc_spec::<B>(mach(*old(cpu), *old(bus)), op),
        ),
{
    let n: usize = reg_field(op);
    let base: u32 = cpu.pc;
    let w: u16 = cpu.fetch16(bus);
    if cpu.sr.evaluate(Condition::from_bits((op >> 8) & 0xF)) {
        return 12;
    }
    let next: u32 = low_minus_one(cpu.d[n]);
    let counted: u32 = (cpu.d[n] & 0xFFFF_0000) | next;
    if next == 0xFFFF {
        cpu.set_d(n, counted);
        return 14;
    }
    cpu.jump_to_subroutine(base.wrapping_add(sext16(w as u32)));
    if cpu.address_error.is_none() {
        cpu.set_d(n, counted);
    }
    10
}

/// Scc: all ones or all zeros.
pub open spec fn scc_spec<B: Bus>(m: Mach<B::St>, op: u16) -> (Mach<B::St>, u32) {
    let (m1, ea) = Ea::decode_spec::<B>(m, op & 0x3F, Size::Byte);
    let v: u32 = if StatusRegister(m1.c.sr).evaluate(Condition::from_bits((op >> 8) & 0xF)) {
        0xFF
    } else {
        0
    };
    (ea.modify_spec::<B>(m1, Size::Byte, Rmw::Put(v), None), cost(4, ea, Size::Byte))
}

pub fn scc<B: Bus>(cpu: &mut Cpu, bus: &mut B, op: u16) -> (cycles: u32)
    requires
        B::wf(old(bus).st()),
    ensures
        B::wf(final(bus).st()),
        same(
            (mach(*final(cpu), *final(bus)), cycles),
            scc_spec::<B>(mach(*old(cpu), *old(bus)), op),
        ),
{
    let ea: Ea = Ea::decode(cpu, bus, op & 0x3F, Size::Byte);
    let v: u32 = if cpu.sr.evaluate(Condition::from_bits((op >> 8) & 0xF)) {
        0xFF
    } else {
        0
    };
    ea.modify(cpu, bus, Size::Byte, Rmw::Put(v), None);
    cost(4, ea, Size::Byte)
}

/// The operand of ADDQ and SUBQ, and the count of an immediate shift: one to
/// eight.
#[verifier::allow_in_spec]
pub fn quick_operand(op: u16) -> (r: u32)
    ensures
        1 <= r <= 8,
    returns
        (if (op >> 9) & 7 == 0 {
            8u32
        } else {
            ((op >> 9) & 7) as u32
        }),
{
    proof {
        crate::bits::three_bits16(op >> 9);
    }
    if (op >> 9) & 7 == 0 {
        8
    } else {
        ((op >> 9) & 7) as u32
    }
}

/// ADDQ and SUBQ, and with no size Scc and DBcc. An address register takes the
/// operand whole and leaves the flags.
pub open spec fn addq_subq_spec<B: Bus>(m: Mach<B::St>, op: u16) -> (Mach<B::St>, u32) {
    match size_from_bits67(op) {
        None => {
            if (op >> 3) & 7 == 1 {
                dbcc_spec::<B>(m, op)
            } else {
                scc_spec::<B>(m, op)
            }
        },
        Some(size) => {
            let is_sub = op & 0x0100 != 0;
            let imm = quick_operand(op);
            let (m1, ea) = Ea::decode_spec::<B>(m, op & 0x3F, size);
            match ea.addr_reg() {
                Some(r) => {
                    let v = m1.c.a[r as int];
                    (
                        m1.with_c(
                            m1.c.with_a(
                                r as int,
                                if is_sub { v.wrapping_sub(imm) } else { v.wrapping_add(imm) },
                            ),
                        ),
                        8,
                    )
                },
                None => (
                    ea.modify_spec::<B>(
                        m1,
                        size,
                        if is_sub { Rmw::Sub(imm) } else { Rmw::Add(imm) },
                        None,
                    ),
                    cost(4, ea, size),
                ),
            }
        },
    }
}

pub fn addq_subq<B: Bus>(cpu: &mut Cpu, bus: &mut B, op: u16) -> (cycles: u32)
    requires
        B::wf(old(bus).st()),
    ensures
        B::wf(final(bus).st()),
        same(
            (mach(*final(cpu), *final(bus)), cycles),
            addq_subq_spec::<B>(mach(*old(cpu), *old(bus)), op),
        ),
{
    match size_from_bits67(op) {
        None => {
            if (op >> 3) & 7 == 1 {
                dbcc(cpu, bus, op)
            } else {
                scc(cpu, bus, op)
            }
        }
        Some(size) => {
            let is_sub: bool = op & 0x0100 != 0;
            let imm: u32 = quick_operand(op);
            let ea: Ea = Ea::decode(cpu, bus, op & 0x3F, size);
            match ea.addr_reg() {
                Some(r) => {
                    let v: u32 = if is_sub {
                        cpu.a[r].wrapping_sub(imm)
                    } else {
                        cpu.a[r].wrapping_add(imm)
                    };
                    cpu.set_a(r, v);
                    8
                }
                None => {
                    let rmw: Rmw = if is_sub {
                        Rmw::Sub(imm)
                    } else {
                        Rmw::Add(imm)
                    };
                    ea.modify(cpu, bus, size, rmw, None);
                    cost(4, ea, size)
                }
            }
        }
    }
}

}
