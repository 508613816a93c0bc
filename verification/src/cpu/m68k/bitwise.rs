//! Shifts and rotations, bit instructions and immediate operands: lines E and 0.
use vstd::prelude::*;
use crate::bits::same;
use crate::cpu::m68k::arith::{do_shift_rotate, shift_spec, sub_spec, sub_with_flags};
use crate::cpu::m68k::branch::quick_operand;
use crate::cpu::m68k::bus::Bus;
use crate::cpu::m68k::cpu::{
    abort_spec, fetch16_spec, fetch32_spec, mach, sr_set, Cpu, CpuState, Exception, Mach, Size,
    StatusRegister,
};
use crate::cpu::m68k::ea::{merged, read_at, read_at_spec, reg_field, Ea};
use crate::cpu::m68k::misc::{
    privilege_trap, size_from_bits67, with_ccr, write_sr, write_sr_spec,
};
use crate::cpu::m68k::rmw::Rmw;
use crate::cpu::m68k::transfer::{cost, movep, movep_spec};

verus! {

/// The shift kind in the two low bits of `x`.
#[verifier::allow_in_spec]
pub fn shift_kind(x: u16) -> (k: u8)
    ensures
        k < 4,
    returns
        (x & 3) as u8,
{
    proof {
        crate::bits::two_bits16(x);
    }
    (x & 3) as u8
}

/// How far a register shift goes: a count register modulo sixty-four, or one to
/// eight.
pub open spec fn shift_count(c: CpuState, op: u16) -> u32 {
    if op & 0x20 != 0 {
        c.d[reg_field(op >> 9) as int] & 0x3F
    } else {
        quick_operand(op)
    }
}

/// Line E: shifts and rotations of a register by a count, or of memory by one.
pub open spec fn shift_rotate_spec<B: Bus>(m: Mach<B::St>, op: u16) -> (Mach<B::St>, u32) {
    let left = op & 0x0100 != 0;
    match size_from_bits67(op) {
        None => {
            let (m1, ea) = Ea::decode_spec::<B>(m, op & 0x3F, Size::Word);
            (
                ea.modify_spec::<B>(m1, Size::Word, Rmw::Shift(shift_kind(op >> 9), left), None),
                cost(8, ea, Size::Word),
            )
        },
        Some(size) => {
            let reg = reg_field(op) as int;
            let count = shift_count(m.c, op);
            let (sr, r) = shift_spec(
                m.c.sr,
                m.c.d[reg] & size.mask(),
                count,
                size,
                shift_kind(op >> 3),
                left,
            );
            (
                m.with_c(m.c.with_sr(sr).with_d(reg, merged(m.c.d[reg], r, size))),
                (6 + 2 * count) as u32,
            )
        },
    }
}

pub fn mem_shift_rotate<B: Bus>(cpu: &mut Cpu, bus: &mut B, op: u16) -> (cycles: u32)
    requires
        B::wf(old(bus).st()),
        size_from_bits67(op) is None,
    ensures
        B::wf(final(bus).st()),
        same(
            (mach(*final(cpu), *final(bus)), cycles),
            shift_rotate_spec::<B>(mach(*old(cpu), *old(bus)), op),
        ),
{
    let left: bool = op & 0x0100 != 0;
    let ea: Ea = Ea::decode(cpu, bus, op & 0x3F, Size::Word);
    ea.modify(cpu, bus, Size::Word, Rmw::Shift(shift_kind(op >> 9), left), None);
    cost(8, ea, Size::Word)
}

pub fn shift_rotate<B: Bus>(cpu: &mut Cpu, bus: &mut B, op: u16) -> (cycles: u32)
    requires
        B::wf(old(bus).st()),
    ensures
        B::wf(final(bus).st()),
        same(
            (mach(*final(cpu), *final(bus)), cycles),
            shift_rotate_spec::<B>(mach(*old(cpu), *old(bus)), op),
        ),
{
    match size_from_bits67(op) {
        None => mem_shift_rotate(cpu, bus, op),
        Some(size) => {
            let left: bool = op & 0x0100 != 0;
            let reg: usize = reg_field(op);
            let count: u32 = if op & 0x20 != 0 {
                proof {
                    crate::bits::six_bits(cpu.d@[reg_field(op >> 9) as int]);
                }
                cpu.d[reg_field(op >> 9)] & 0x3F
            } else {
                quick_operand(op)
            };
            let v: u32 = cpu.d[reg] & size.mask();
            let r: u32 = do_shift_rotate(cpu, v, count, size, shift_kind(op >> 3), left);
            let new: u32 = merged(cpu.d[reg], r, size);
            cpu.set_d(reg, new);
            6 + 2 * count
        }
    }
}

/// The bit that a bit instruction addresses, and the operand size: long words
/// in registers, bytes in memory.
#[verifier::allow_in_spec]
pub fn bit_mask(ea: Ea, bit: u32) -> (u32, Size)
    returns
        (if ea.is_reg_direct() {
            (1u32 << (bit % 32), Size::Long)
        } else {
            (1u32 << (bit % 8), Size::Byte)
        }),
{
    if ea.is_reg_direct() {
        (1u32 << (bit % 32), Size::Long)
    } else {
        (1u32 << (bit % 8), Size::Byte)
    }
}

/// What BCHG, BCLR and BSET do with the masked bit.
#[verifier::allow_in_spec]
pub fn bit_rmw(kind: u16, mask: u32) -> Rmw
    returns
        (match kind {
            1 => Rmw::BitChange(mask),
            2 => Rmw::BitClear(mask),
            _ => Rmw::BitSet(mask),
        }),
{
    match kind {
        1 => Rmw::BitChange(mask),
        2 => Rmw::BitClear(mask),
        _ => Rmw::BitSet(mask),
    }
}

/// BTST, BCHG, BCLR and BSET: Z tells whether the bit was clear.
pub open spec fn bit_op_spec<B: Bus>(m: Mach<B::St>, op: u16, ea: Ea, bit: u32) -> (
    Mach<B::St>,
    u32,
) {
    let kind = (op >> 6) & 3;
    let (mask, size) = bit_mask(ea, bit);
    if kind == 0 {
        let (m1, v) = ea.read_spec::<B>(m, size);
        (
            m1.with_c(m1.c.with_sr(sr_set(m1.c.sr, StatusRegister::Z, v & mask == 0))),
            cost(8, ea, size),
        )
    } else {
        (ea.modify_spec::<B>(m, size, bit_rmw(kind, mask), None), cost(8, ea, size))
    }
}

pub fn bit_op<B: Bus>(cpu: &mut Cpu, bus: &mut B, op: u16, ea: Ea, bit_n: u32) -> (cycles: u32)
    requires
        ea.wf(),
        B::wf(old(bus).st()),
    ensures
        B::wf(final(bus).st()),
        same(
            (mach(*final(cpu), *final(bus)), cycles),
            bit_op_spec::<B>(mach(*old(cpu), *old(bus)), op, ea, bit_n),
        ),
{
    let kind: u16 = (op >> 6) & 3;
    let (mask, size): (u32, Size) = bit_mask(ea, bit_n);
    if kind == 0 {
        let v: u32 = ea.read(cpu, bus, size);
        let sr: u16 = sr_set(cpu.sr.0, StatusRegister::Z, v & mask == 0);
        cpu.set_sr(sr);
    } else {
        ea.modify(cpu, bus, size, bit_rmw(kind, mask), None);
    }
    cost(8, ea, size)
}

/// The logic operation that the top byte of an immediate instruction selects:
/// OR, AND or exclusive OR.
#[verifier::allow_in_spec]
pub fn immediate_logic(op: u16, a: u16, b: u16) -> u16
    returns
        (match (op >> 8) & 0xF {
            0 => a | b,
            2 => a & b,
            _ => a ^ b,
        }),
{
    match (op >> 8) & 0xF {
        0 => a | b,
        2 => a & b,
        _ => a ^ b,
    }
}

/// ORI, ANDI and EORI to the condition codes.
#[verifier::allow_in_spec]
pub fn is_to_ccr(op: u16) -> bool
    returns
        op == 0x003C || op == 0x023C || op == 0x0A3C,
{
    op == 0x003C || op == 0x023C || op == 0x0A3C
}

/// ORI, ANDI and EORI to the status register.
#[verifier::allow_in_spec]
pub fn is_to_sr(op: u16) -> bool
    returns
        op == 0x007C || op == 0x027C || op == 0x0A7C,
{
    op == 0x007C || op == 0x027C || op == 0x0A7C
}

/// How far past the instruction's start the PC stands that a faulting operand
/// access reports.
#[verifier::allow_in_spec]
pub fn immediate_au_offset(op: u16, size: Size) -> u32
    returns
        ({
            let mode = (op >> 3) & 7;
            let reg = op & 7;
            let ext = if mode == 7 && reg == 0 {
                2u32
            } else if mode == 7 && reg == 1 {
                4u32
            } else {
                0u32
            };
            let base = if size == Size::Long {
                6u32
            } else if mode == 4 {
                6u32
            } else {
                4u32
            };
            base.wrapping_add(ext)
        }),
{
    let mode: u16 = (op >> 3) & 7;
    let reg: u16 = op & 7;
    let ext: u32 = if mode == 7 && reg == 0 {
        2
    } else if mode == 7 && reg == 1 {
        4
    } else {
        0
    };
    let base: u32 = if size == Size::Long {
        6
    } else if mode == 4 {
        6
    } else {
        4
    };
    base.wrapping_add(ext)
}

/// The immediate operand of the given size.
pub open spec fn immediate_spec<B: Bus>(m: Mach<B::St>, size: Size) -> (Mach<B::St>, u32) {
    match size {
        Size::Byte => {
            let (m1, w) = fetch16_spec::<B>(m);
            (m1, (w & 0xFF) as u32)
        },
        Size::Word => {
            let (m1, w) = fetch16_spec::<B>(m);
            (m1, w as u32)
        },
        Size::Long => fetch32_spec::<B>(m),
    }
}

fn immediate<B: Bus>(cpu: &mut Cpu, bus: &mut B, size: Size) -> (v: u32)
    requires
        B::wf(old(bus).st()),
    ensures
        B::wf(final(bus).st()),
        same(
            (mach(*final(cpu), *final(bus)), v),
            immediate_spec::<B>(mach(*old(cpu), *old(bus)), size),
        ),
{
    match size {
        Size::Byte => {
            let w: u16 = cpu.fetch16(bus);
            (w & 0xFF) as u32
        }
        Size::Word => {
            let w: u16 = cpu.fetch16(bus);
            w as u32
        }
        Size::Long => cpu.fetch32(bus),
    }
}

/// The operation that the top byte selects: ORI, ANDI, SUBI, ADDI, EORI.
#[verifier::allow_in_spec]
pub fn immediate_rmw(op: u16, imm: u32) -> Option<Rmw>
    returns
        (match (op >> 8) & 0xF {
            0x0 => Some(Rmw::Or(imm)),
            0x2 => Some(Rmw::And(imm)),
            0x4 => Some(Rmw::Sub(imm)),
            0x6 => Some(Rmw::Add(imm)),
            0xA => Some(Rmw::Eor(imm)),
            _ => None,
        }),
{
    match (op >> 8) & 0xF {
        0x0 => Some(Rmw::Or(imm)),
        0x2 => Some(Rmw::And(imm)),
        0x4 => Some(Rmw::Sub(imm)),
        0x6 => Some(Rmw::Add(imm)),
        0xA => Some(Rmw::Eor(imm)),
        _ => None,
    }
}

/// The operand that an immediate is compared with; a fault reports `au` and
/// takes back the move of the address register.
pub open spec fn compared_operand_spec<B: Bus>(m: Mach<B::St>, ea: Ea, size: Size, au: u32) -> (
    Mach<B::St>,
    u32,
) {
    if ea.is_reg_direct() || ea.is_immediate() {
        ea.read_spec::<B>(m, size)
    } else {
        let addr = ea.address(m.c, size)->0;
        let c1 = ea.after_address(m.c, size).with_au(au);
        let (m2, v) = read_at_spec::<B>(m.with_c(c1), addr, size);
        if m2.c.fault is Some {
            (m2.with_c(ea.undone(m2.c, size)), v)
        } else {
            (m2, v)
        }
    }
}

fn compared_operand<B: Bus>(cpu: &mut Cpu, bus: &mut B, ea: Ea, size: Size, au: u32) -> (v: u32)
    requires
        ea.wf(),
        B::wf(old(bus).st()),
    ensures
        B::wf(final(bus).st()),
        same(
            (mach(*final(cpu), *final(bus)), v),
            compared_operand_spec::<B>(mach(*old(cpu), *old(bus)), ea, size, au),
        ),
{
    if ea.is_reg_direct() || ea.is_immediate() {
        ea.read(cpu, bus, size)
    } else {
        match ea.compute_address(cpu, size) {
            Some(addr) => {
                cpu.set_au(au);
                let v: u32 = read_at(cpu, bus, addr, size);
                if cpu.address_error.is_some() {
                    ea.undo_side_effects(cpu, size);
                }
                v
            }
            None => 0,
        }
    }
}

/// The arithmetic and logic instructions with an immediate operand.
pub open spec fn immediate_family_spec<B: Bus>(m: Mach<B::St>, op: u16, size: Size) -> (
    Mach<B::St>,
    u32,
) {
    let (m1, imm) = immediate_spec::<B>(m, size);
    let (m2, ea) = Ea::decode_spec::<B>(m1, op & 0x3F, size);
    let au = m2.c.instr_pc.wrapping_add(immediate_au_offset(op, size));
    match immediate_rmw(op, imm) {
        Some(rmw) => (ea.modify_spec::<B>(m2, size, rmw, Some(au)), cost(8, ea, size)),
        None => {
            if (op >> 8) & 0xF == 0xC {
                let (m3, v) = compared_operand_spec::<B>(m2, ea, size, au);
                if m3.c.fault is Some {
                    (m3, 4)
                } else {
                    (
                        m3.with_c(m3.c.with_sr(sub_spec(m3.c.sr, v, imm, size, false).0)),
                        cost(8, ea, size),
                    )
                }
            } else {
                (abort_spec::<B>(m2, Exception::IllegalInstruction), 34)
            }
        },
    }
}

fn immediate_family<B: Bus>(cpu: &mut Cpu, bus: &mut B, op: u16, size: Size) -> (cycles: u32)
    requires
        B::wf(old(bus).st()),
    ensures
        B::wf(final(bus).st()),
        same(
            (mach(*final(cpu), *final(bus)), cycles),
            immediate_family_spec::<B>(mach(*old(cpu), *old(bus)), op, size),
        ),
{
    let imm: u32 = immediate(cpu, bus, size);
    let ea: Ea = Ea::decode(cpu, bus, op & 0x3F, size);
    let au: u32 = cpu.instr_pc.wrapping_add(immediate_au_offset(op, size));
    match immediate_rmw(op, imm) {
        Some(rmw) => {
            ea.modify(cpu, bus, size, rmw, Some(au));
            cost(8, ea, size)
        }
        None => {
            if (op >> 8) & 0xF == 0xC {
                let v: u32 = compared_operand(cpu, bus, ea, size, au);
                if cpu.address_error.is_some() {
                    return 4;
                }
                let _r: u32 = sub_with_flags(cpu, v, imm, size, false);
                cost(8, ea, size)
            } else {
                cpu.abort(bus, Exception::IllegalInstruction);
                34
            }
        }
    }
}

/// ORI, ANDI and EORI to the condition codes or the status register.
pub open spec fn status_logic_spec<B: Bus>(m: Mach<B::St>, op: u16) -> (Mach<B::St>, u32) {
    let (m1, v) = fetch16_spec::<B>(m);
    if is_to_ccr(op) {
        let ccr = immediate_logic(op, m1.c.sr & 0x1F, v & 0x1F);
        (m1.with_c(m1.c.with_sr(with_ccr(m1.c.sr, ccr))), 20)
    } else if !m.c.sup() {
        privilege_trap::<B>(m)
    } else {
        (m1.with_c(write_sr_spec(m1.c, immediate_logic(op, m1.c.sr, v))), 20)
    }
}

fn status_logic<B: Bus>(cpu: &mut Cpu, bus: &mut B, op: u16) -> (cycles: u32)
    requires
        B::wf(old(bus).st()),
    ensures
        B::wf(final(bus).st()),
        same(
            (mach(*final(cpu), *final(bus)), cycles),
            status_logic_spec::<B>(mach(*old(cpu), *old(bus)), op),
        ),
{
    if is_to_ccr(op) {
        let v: u16 = cpu.fetch16(bus);
        let ccr: u16 = immediate_logic(op, cpu.sr.0 & 0x1F, v & 0x1F);
        let sr: u16 = with_ccr(cpu.sr.0, ccr);
        cpu.set_sr(sr);
        return 20;
    }
    if !cpu.sr.supervisor() {
        cpu.abort(bus, Exception::PrivilegeViolation);
        return 34;
    }
    let v: u16 = cpu.fetch16(bus);
    let sr: u16 = immediate_logic(op, cpu.sr.0, v);
    write_sr(cpu, sr);
    20
}

/// Line 0.
pub open spec fn bit_immediate_spec<B: Bus>(m: Mach<B::St>, op: u16) -> (Mach<B::St>, u32) {
    if is_to_ccr(op) || is_to_sr(op) {
        status_logic_spec::<B>(m, op)
    } else if op & 0xF138 == 0x0108 {
        movep_spec::<B>(m, op)
    } else if op & 0xFF00 == 0x0800 {
        let (m1, w) = fetch16_spec::<B>(m);
        let (m2, ea) = Ea::decode_spec::<B>(m1, op & 0x3F, Size::Byte);
        bit_op_spec::<B>(m2, op, ea, (w & 0xFF) as u32)
    } else if op & 0xF100 == 0x0100 {
        let bit = m.c.d[reg_field(op >> 9) as int];
        let (m1, ea) = Ea::decode_spec::<B>(m, op & 0x3F, Size::Byte);
        bit_op_spec::<B>(m1, op, ea, bit)
    } else {
        match size_from_bits67(op) {
            Some(size) => immediate_family_spec::<B>(m, op, size),
            None => (abort_spec::<B>(m, Exception::IllegalInstruction), 34),
        }
    }
}

pub fn bit_immediate<B: Bus>(cpu: &mut Cpu, bus: &mut B, op: u16) -> (cycles: u32)
    requires
        B::wf(old(bus).st()),
    ensures
        B::wf(final(bus).st()),
        same(
            (mach(*final(cpu), *final(bus)), cycles),
            bit_immediate_spec::<B>(mach(*old(cpu), *old(bus)), op),
        ),
{
    if is_to_ccr(op) || is_to_sr(op) {
        return status_logic(cpu, bus, op);
    }
    if op & 0xF138 == 0x0108 {
        return movep(cpu, bus, op);
    }
    if op & 0xFF00 == 0x0800 {
        let w: u16 = cpu.fetch16(bus);
        let ea: Ea = Ea::decode(cpu, bus, op & 0x3F, Size::Byte);
        return bit_op(cpu, bus, op, ea, (w & 0xFF) as u32);
    }
    if op & 0xF100 == 0x0100 {
        let bit: u32 = cpu.d[reg_field(op >> 9)];
        let ea: Ea = Ea::decode(cpu, bus, op & 0x3F, Size::Byte);
        return bit_op(cpu, bus, op, ea, bit);
    }
    match size_from_bits67(op) {
        Some(size) => immediate_family(cpu, bus, op, size),
        None => {
            cpu.abort(bus, Exception::IllegalInstruction);
            34
        }
    }
}

}
