//! Operand access through HL and the block transfer, search and I/O
//! instructions.
use vstd::prelude::*;
use crate::bits::same;
use crate::cpu::z80::bus::Z80Bus;
use crate::cpu::z80::cpu::{high, Cpu, Out};
use crate::cpu::z80::flags::{
    parity, parity_of, set_if, sz53, FC, FH, FN, FP, FS, FX, FY, FZ,
};

verus! {

pub fn read_hl<B: Z80Bus>(cpu: &mut Cpu, bus: &mut B) -> (v: u8)
    requires
        B::wf(old(bus).st()),
    ensures
        B::wf(final(bus).st()),
        *final(cpu) == *old(cpu),
        v == B::read_val(old(bus).st(), old(cpu).regs.hl()),
        final(bus).st() == B::read_next(old(bus).st(), old(cpu).regs.hl()),
{
    bus.read(cpu.regs.hl())
}

pub fn write_hl<B: Z80Bus>(cpu: &mut Cpu, bus: &mut B, v: u8)
    requires
        B::wf(old(bus).st()),
    ensures
        B::wf(final(bus).st()),
        *final(cpu) == *old(cpu),
        final(bus).st() == B::write_next(old(bus).st(), old(cpu).regs.hl(), v),
{
    bus.write(cpu.regs.hl(), v);
}

/// The operand that `code` names: a register, or the byte at HL for code 6.
pub open spec fn read_r8_spec<B: Z80Bus>(c: Cpu, s: B::St, code: u8) -> (B::St, u8) {
    if code & 7 == 6 {
        (B::read_next(s, c.regs.hl()), B::read_val(s, c.regs.hl()))
    } else {
        (s, c.regs.reg8(code))
    }
}

pub fn read_r8<B: Z80Bus>(cpu: &mut Cpu, bus: &mut B, code: u8) -> (v: u8)
    requires
        B::wf(old(bus).st()),
    ensures
        B::wf(final(bus).st()),
        *final(cpu) == *old(cpu),
        (final(bus).st(), v) == read_r8_spec::<B>(*old(cpu), old(bus).st(), code),
{
    if (code & 7) == 6 {
        read_hl(cpu, bus)
    } else {
        cpu.regs.reg8(code)
    }
}

/// The state after `v` is stored in the operand that `code` names.
pub open spec fn write_r8_spec<B: Z80Bus>(c: Cpu, s: B::St, code: u8, v: u8) -> (Cpu, B::St) {
    if code & 7 == 6 {
        (c, B::write_next(s, c.regs.hl(), v))
    } else {
        (c.with_reg8(code, v), s)
    }
}

pub fn write_r8<B: Z80Bus>(cpu: &mut Cpu, bus: &mut B, code: u8, v: u8)
    requires
        B::wf(old(bus).st()),
    ensures
        B::wf(final(bus).st()),
        same((*final(cpu), final(bus).st()), write_r8_spec::<B>(*old(cpu), old(bus).st(), code, v)),
{
    if (code & 7) == 6 {
        write_hl(cpu, bus, v);
    } else {
        cpu.set_reg8(code, v);
    }
}

/// The word register `rp` moved by one step up or down.
#[verifier::allow_in_spec]
pub fn stepped(w: u16, up: bool) -> u16
    returns
        (if up {
            w.wrapping_add(1)
        } else {
            w.wrapping_sub(1)
        }),
{
    if up {
        w.wrapping_add(1)
    } else {
        w.wrapping_sub(1)
    }
}

/// A repeating instruction that goes round again is backed up to its own
/// opcode; Y and X then come from the high byte of PC.
#[verifier::opaque]
pub open spec fn fixup_yx_spec(c: Cpu) -> Cpu {
    c.with_f((c.regs.f & !(FY | FX)) | (high(c.regs.pc) & (FY | FX)))
}

pub fn fixup_yx_from_pc_high(cpu: &mut Cpu)
    ensures
        *final(cpu) == fixup_yx_spec(*old(cpu)),
{
    proof {
        reveal(fixup_yx_spec);
    }
    let f: u8 = (cpu.regs.f & !(FY | FX)) | (high(cpu.regs.pc) & (FY | FX));
    cpu.set_f(f);
}

/// PC back on the running two-byte instruction, and the latch one past it.
pub open spec fn backed_up(c: Cpu) -> Cpu {
    let pc = c.regs.pc.wrapping_sub(2);
    c.with_pc(pc).with_wz(pc.wrapping_add(1))
}

pub fn back_up(cpu: &mut Cpu)
    ensures
        *final(cpu) == backed_up(*old(cpu)),
{
    let v: u16 = cpu.regs.pc.wrapping_sub(2);
    cpu.set_pc(v);
    let v: u16 = cpu.regs.pc.wrapping_add(1);
    cpu.set_wz(v);
}

/// Flags of a repeating I/O instruction that goes round again, after `val` was
/// transferred: Y and X from the high byte of PC; with C set, H tells whether
/// the low digit of B is about to wrap in the direction that bit 7 of `val`
/// gives; P is set if the old P agrees with the parity of the low three bits of
/// B, moved in that same direction when C is set.
#[verifier::opaque]
pub open spec fn io_interrupted_flags(f: u8, pc: u16, b: u8, val: u8) -> u8 {
    let f1 = (f & !(FY | FX)) | (high(pc) & (FY | FX));
    let carry = f1 & FC != 0;
    let negative = val & 0x80 != 0;
    let low = if !carry {
        b & 7
    } else if negative {
        b.wrapping_sub(1) & 7
    } else {
        b.wrapping_add(1) & 7
    };
    let f2 = if !carry {
        f1
    } else {
        set_if(f1 & !FH, FH, if negative { b & 0x0F == 0 } else { b & 0x0F == 0x0F })
    };
    let agrees = f1 & FP == parity_of(low as int) & FP;
    (f2 & !FP) | (if agrees { FP } else { 0 })
}

pub fn block_io_interrupted_flags(cpu: &mut Cpu, val: u8)
    ensures
        *final(cpu) == old(cpu).with_f(
            io_interrupted_flags(old(cpu).regs.f, old(cpu).regs.pc, old(cpu).regs.b, val),
        ),
{
    proof {
        reveal(io_interrupted_flags);
    }
    let f: u8 = (cpu.regs.f & !(FY | FX)) | (high(cpu.regs.pc) & (FY | FX));
    let old_p: u8 = f & FP;
    let b: u8 = cpu.regs.b;
    let low: u8;
    let mut g: u8 = f;
    if (f & FC) != 0 {
        g = g & !FH;
        if (val & 0x80) != 0 {
            low = b.wrapping_sub(1) & 7;
            g = set_if(g, FH, (b & 0x0F) == 0);
        } else {
            low = b.wrapping_add(1) & 7;
            g = set_if(g, FH, (b & 0x0F) == 0x0F);
        }
    } else {
        low = b & 7;
    }
    let new_p: u8 = parity(low) & FP;
    let p: u8 = if old_p == new_p {
        FP
    } else {
        0
    };
    cpu.set_f((g & !FP) | p);
}

/// LDI (`up`) and LDD: copy the byte at HL to DE, move both, count BC down.
#[verifier::opaque]
pub open spec fn ld_block_spec<B: Z80Bus>(c: Cpu, s: B::St, up: bool) -> (Cpu, B::St) {
    let v = B::read_val(s, c.regs.hl());
    let s1 = B::write_next(B::read_next(s, c.regs.hl()), c.regs.de(), v);
    let c1 = c.with_hl(stepped(c.regs.hl(), up));
    let c2 = c1.with_de(stepped(c1.regs.de(), up));
    let c3 = c2.with_bc(c2.regs.bc().wrapping_sub(1));
    let n = c.regs.a.wrapping_add(v);
    let f = set_if(c.regs.f & (FS | FZ | FC), FP, c3.regs.bc() != 0);
    (c3.with_f(set_if(f | (n & FX), FY, n & 2 != 0)), s1)
}

fn ld_block<B: Z80Bus>(cpu: &mut Cpu, bus: &mut B, up: bool)
    requires
        B::wf(old(bus).st()),
    ensures
        B::wf(final(bus).st()),
        same((*final(cpu), final(bus).st()), ld_block_spec::<B>(*old(cpu), old(bus).st(), up)),
{
    proof {
        reveal(ld_block_spec);
    }
    let v: u8 = read_hl(cpu, bus);
    bus.write(cpu.regs.de(), v);
    let hl: u16 = stepped(cpu.regs.hl(), up);
    cpu.set_hl(hl);
    let de: u16 = stepped(cpu.regs.de(), up);
    cpu.set_de(de);
    let bc: u16 = cpu.regs.bc().wrapping_sub(1);
    cpu.set_bc(bc);
    let n: u8 = cpu.regs.a.wrapping_add(v);
    let f: u8 = set_if(cpu.regs.f & (FS | FZ | FC), FP, cpu.regs.bc() != 0);
    cpu.set_f(set_if(f | (n & FX), FY, (n & 2) != 0));
}

pub fn ldi<B: Z80Bus>(cpu: &mut Cpu, bus: &mut B)
    requires
        B::wf(old(bus).st()),
    ensures
        B::wf(final(bus).st()),
        same((*final(cpu), final(bus).st()), ld_block_spec::<B>(*old(cpu), old(bus).st(), true)),
{
    ld_block(cpu, bus, true);
}

pub fn ldd<B: Z80Bus>(cpu: &mut Cpu, bus: &mut B)
    requires
        B::wf(old(bus).st()),
    ensures
        B::wf(final(bus).st()),
        same((*final(cpu), final(bus).st()), ld_block_spec::<B>(*old(cpu), old(bus).st(), false)),
{
    ld_block(cpu, bus, false);
}

/// CPI (`up`) and CPD: compare A with the byte at HL, move HL, count BC down.
#[verifier::opaque]
pub open spec fn cp_block_spec<B: Z80Bus>(c: Cpu, s: B::St, up: bool) -> (Cpu, B::St) {
    let v = B::read_val(s, c.regs.hl());
    let r = c.regs.a.wrapping_sub(v);
    let half = c.regs.a % 16 < v % 16;
    let c1 = c.with_hl(stepped(c.regs.hl(), up));
    let c2 = c1.with_bc(c1.regs.bc().wrapping_sub(1));
    let f = set_if((r & FS) | (c.regs.f & FC) | FN, FZ, r == 0);
    let f = set_if(set_if(f, FH, half), FP, c2.regs.bc() != 0);
    let n = r.wrapping_sub(if half { 1 } else { 0 });
    let f = set_if(f | (n & FX), FY, n & 2 != 0);
    (c2.with_f(f).with_wz(stepped(c.regs.wz, up)), B::read_next(s, c.regs.hl()))
}

fn cp_block<B: Z80Bus>(cpu: &mut Cpu, bus: &mut B, up: bool)
    requires
        B::wf(old(bus).st()),
    ensures
        B::wf(final(bus).st()),
        same((*final(cpu), final(bus).st()), cp_block_spec::<B>(*old(cpu), old(bus).st(), up)),
{
    proof {
        reveal(cp_block_spec);
    }
    let v: u8 = read_hl(cpu, bus);
    let r: u8 = cpu.regs.a.wrapping_sub(v);
    let half: bool = cpu.regs.a % 16 < v % 16;
    let hl: u16 = stepped(cpu.regs.hl(), up);
    cpu.set_hl(hl);
    let bc: u16 = cpu.regs.bc().wrapping_sub(1);
    cpu.set_bc(bc);
    let f: u8 = set_if((r & FS) | (cpu.regs.f & FC) | FN, FZ, r == 0);
    let f: u8 = set_if(set_if(f, FH, half), FP, cpu.regs.bc() != 0);
    let n: u8 = r.wrapping_sub(if half { 1 } else { 0 });
    cpu.set_f(set_if(f | (n & FX), FY, (n & 2) != 0));
    let v: u16 = stepped(cpu.regs.wz, up);
    cpu.set_wz(v);
}

pub fn cpi<B: Z80Bus>(cpu: &mut Cpu, bus: &mut B)
    requires
        B::wf(old(bus).st()),
    ensures
        B::wf(final(bus).st()),
        same((*final(cpu), final(bus).st()), cp_block_spec::<B>(*old(cpu), old(bus).st(), true)),
{
    cp_block(cpu, bus, true);
}

pub fn cpd<B: Z80Bus>(cpu: &mut Cpu, bus: &mut B)
    requires
        B::wf(old(bus).st()),
    ensures
        B::wf(final(bus).st()),
        same((*final(cpu), final(bus).st()), cp_block_spec::<B>(*old(cpu), old(bus).st(), false)),
{
    cp_block(cpu, bus, false);
}

/// Flags of the I/O block instructions: `b` is the counter after the step, `v`
/// the byte moved, and `addend` the byte that is added to it for H and C.
pub open spec fn io_flags(b: u8, v: u8, addend: u8) -> u8 {
    let k = v + addend;
    let f = set_if(set_if(sz53(b), FN, v & 0x80 != 0), FH | FC, k > 255);
    f | parity_of((((k % 8) as u8) ^ b) as int)
}

fn compute_io_flags(b: u8, v: u8, addend: u8) -> (f: u8)
    ensures
        f == io_flags(b, v, addend),
{
    let k: u16 = v as u16 + addend as u16;
    let f: u8 = set_if(set_if(sz53(b), FN, (v & 0x80) != 0), FH | FC, k > 255);
    f | parity(((k % 8) as u8) ^ b)
}

/// INI (`up`) and IND: a byte from port BC to HL, B counted down. Also gives
/// the byte moved.
#[verifier::opaque]
pub open spec fn in_block_spec<B: Z80Bus>(c: Cpu, s: B::St, up: bool) -> Out<B::St, u8> {
    let port = c.regs.bc();
    let v = B::in_val(s, port);
    let s1 = B::write_next(B::in_next(s, port), c.regs.hl(), v);
    let b = c.regs.b.wrapping_sub(1);
    let addend = if up {
        c.regs.c.wrapping_add(1)
    } else {
        c.regs.c.wrapping_sub(1)
    };
    let c1 = c.with_reg8(0, b).with_hl(stepped(c.regs.hl(), up));
    (c1.with_wz(stepped(port, up)).with_f(io_flags(b, v, addend)), s1, v)
}

fn in_block<B: Z80Bus>(cpu: &mut Cpu, bus: &mut B, up: bool) -> (v: u8)
    requires
        B::wf(old(bus).st()),
    ensures
        B::wf(final(bus).st()),
        same((*final(cpu), final(bus).st(), v), in_block_spec::<B>(*old(cpu), old(bus).st(), up)),
{
    proof {
        reveal(in_block_spec);
    }
    proof {
        crate::bits::zero_has_no_bits();
    }
    let port: u16 = cpu.regs.bc();
    let v: u8 = bus.io_read(port);
    write_hl(cpu, bus, v);
    cpu.regs.b = cpu.regs.b.wrapping_sub(1);
    let hl: u16 = stepped(cpu.regs.hl(), up);
    cpu.set_hl(hl);
    cpu.set_wz(stepped(port, up));
    let addend: u8 = if up {
        cpu.regs.c.wrapping_add(1)
    } else {
        cpu.regs.c.wrapping_sub(1)
    };
    let f: u8 = compute_io_flags(cpu.regs.b, v, addend);
    cpu.set_f(f);
    v
}

pub fn ini<B: Z80Bus>(cpu: &mut Cpu, bus: &mut B)
    requires
        B::wf(old(bus).st()),
    ensures
        B::wf(final(bus).st()),
        *final(cpu) == in_block_spec::<B>(*old(cpu), old(bus).st(), true).0,
        final(bus).st() == in_block_spec::<B>(*old(cpu), old(bus).st(), true).1,
{
    let _v: u8 = in_block(cpu, bus, true);
}

pub fn ind<B: Z80Bus>(cpu: &mut Cpu, bus: &mut B)
    requires
        B::wf(old(bus).st()),
    ensures
        B::wf(final(bus).st()),
        *final(cpu) == in_block_spec::<B>(*old(cpu), old(bus).st(), false).0,
        final(bus).st() == in_block_spec::<B>(*old(cpu), old(bus).st(), false).1,
{
    let _v: u8 = in_block(cpu, bus, false);
}

/// OUTI (`up`) and OUTD: the byte at HL to port BC, B counted down before the
/// port is formed. Also gives the byte moved.
#[verifier::opaque]
pub open spec fn out_block_spec<B: Z80Bus>(c: Cpu, s: B::St, up: bool) -> Out<B::St, u8> {
    let v = B::read_val(s, c.regs.hl());
    let b = c.regs.b.wrapping_sub(1);
    let c1 = c.with_reg8(0, b);
    let port = c1.regs.bc();
    let s1 = B::out_next(B::read_next(s, c.regs.hl()), port, v);
    let c2 = c1.with_hl(stepped(c1.regs.hl(), up)).with_wz(stepped(port, up));
    (c2.with_f(io_flags(b, v, c2.regs.l)), s1, v)
}

fn out_block<B: Z80Bus>(cpu: &mut Cpu, bus: &mut B, up: bool) -> (v: u8)
    requires
        B::wf(old(bus).st()),
    ensures
        B::wf(final(bus).st()),
        same((*final(cpu), final(bus).st(), v), out_block_spec::<B>(*old(cpu), old(bus).st(), up)),
{
    proof {
        reveal(out_block_spec);
    }
    proof {
        crate::bits::zero_has_no_bits();
    }
    let v: u8 = read_hl(cpu, bus);
    cpu.regs.b = cpu.regs.b.wrapping_sub(1);
    let port: u16 = cpu.regs.bc();
    bus.io_write(port, v);
    let hl: u16 = stepped(cpu.regs.hl(), up);
    cpu.set_hl(hl);
    cpu.set_wz(stepped(port, up));
    let f: u8 = compute_io_flags(cpu.regs.b, v, cpu.regs.l);
    cpu.set_f(f);
    v
}

pub fn outi<B: Z80Bus>(cpu: &mut Cpu, bus: &mut B)
    requires
        B::wf(old(bus).st()),
    ensures
        B::wf(final(bus).st()),
        *final(cpu) == out_block_spec::<B>(*old(cpu), old(bus).st(), true).0,
        final(bus).st() == out_block_spec::<B>(*old(cpu), old(bus).st(), true).1,
{
    let _v: u8 = out_block(cpu, bus, true);
}

pub fn outd<B: Z80Bus>(cpu: &mut Cpu, bus: &mut B)
    requires
        B::wf(old(bus).st()),
    ensures
        B::wf(final(bus).st()),
        *final(cpu) == out_block_spec::<B>(*old(cpu), old(bus).st(), false).0,
        final(bus).st() == out_block_spec::<B>(*old(cpu), old(bus).st(), false).1,
{
    let _v: u8 = out_block(cpu, bus, false);
}

/// The end of a repeating I/O instruction: round again while B is not zero.
#[verifier::opaque]
pub open spec fn io_repeat<S>(o: Out<S, u8>) -> Out<S, u32> {
    let (c, s, v) = o;
    if c.regs.b != 0 {
        let c1 = backed_up(c);
        (c1.with_f(io_interrupted_flags(c1.regs.f, c1.regs.pc, c1.regs.b, v)), s, 21)
    } else {
        (c, s, 16)
    }
}

fn repeat_io(cpu: &mut Cpu, v: u8) -> (cycles: u32)
    ensures
        same((*final(cpu), (), cycles), io_repeat((*old(cpu), (), v))),
{
    proof {
        reveal(io_repeat);
    }
    if cpu.regs.b != 0 {
        back_up(cpu);
        block_io_interrupted_flags(cpu, v);
        21
    } else {
        16
    }
}

/// INIR.
pub fn ini_for_b2<B: Z80Bus>(cpu: &mut Cpu, bus: &mut B) -> (cycles: u32)
    requires
        B::wf(old(bus).st()),
    ensures
        B::wf(final(bus).st()),
        same(
            (*final(cpu), final(bus).st(), cycles),
            io_repeat(in_block_spec::<B>(*old(cpu), old(bus).st(), true)),
        ),
{
    proof {
        reveal(io_repeat);
    }
    let v: u8 = in_block(cpu, bus, true);
    repeat_io(cpu, v)
}

/// INDR.
pub fn ind_for_ba<B: Z80Bus>(cpu: &mut Cpu, bus: &mut B) -> (cycles: u32)
    requires
        B::wf(old(bus).st()),
    ensures
        B::wf(final(bus).st()),
        same(
            (*final(cpu), final(bus).st(), cycles),
            io_repeat(in_block_spec::<B>(*old(cpu), old(bus).st(), false)),
        ),
{
    proof {
        reveal(io_repeat);
    }
    let v: u8 = in_block(cpu, bus, false);
    repeat_io(cpu, v)
}

/// OTIR.
pub fn outi_for_b3<B: Z80Bus>(cpu: &mut Cpu, bus: &mut B) -> (cycles: u32)
    requires
        B::wf(old(bus).st()),
    ensures
        B::wf(final(bus).st()),
        same(
            (*final(cpu), final(bus).st(), cycles),
            io_repeat(out_block_spec::<B>(*old(cpu), old(bus).st(), true)),
        ),
{
    proof {
        reveal(io_repeat);
    }
    let v: u8 = out_block(cpu, bus, true);
    repeat_io(cpu, v)
}

/// OTDR.
pub fn outd_for_bb<B: Z80Bus>(cpu: &mut Cpu, bus: &mut B) -> (cycles: u32)
    requires
        B::wf(old(bus).st()),
    ensures
        B::wf(final(bus).st()),
        same(
            (*final(cpu), final(bus).st(), cycles),
            io_repeat(out_block_spec::<B>(*old(cpu), old(bus).st(), false)),
        ),
{
    proof {
        reveal(io_repeat);
    }
    let v: u8 = out_block(cpu, bus, false);
    repeat_io(cpu, v)
}

/// The end of LDIR, LDDR, CPIR and CPDR: round again if `more` holds.
#[verifier::opaque]
pub open spec fn block_repeat(c: Cpu, more: bool) -> (Cpu, u32) {
    if more {
        (fixup_yx_spec(backed_up(c)), 21)
    } else {
        (c, 16)
    }
}

pub fn repeat_block(cpu: &mut Cpu, more: bool) -> (cycles: u32)
    ensures
        same((*final(cpu), cycles), block_repeat(*old(cpu), more)),
{
    proof {
        reveal(block_repeat);
    }
    if more {
        back_up(cpu);
        fixup_yx_from_pc_high(cpu);
        21
    } else {
        16
    }
}

}
