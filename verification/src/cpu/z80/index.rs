//! The DD and FD pages, on which IX or IY stands in for HL.
use vstd::prelude::*;
use crate::bits::same;
use crate::cpu::z80::alu::{
    add16, add16_spec, alu, alu_spec, dec8, dec8_flags, inc8, inc8_flags,
};
use crate::cpu::z80::bus::Z80Bus;
use crate::cpu::z80::cpu::{displaced, high, low, word, Cpu, Out, Regs};
use crate::cpu::z80::main_page::{
    high_page, high_page_spec, low_page, low_page_spec, mid_page, mid_page_spec,
};
use crate::cpu::z80::prefixed::{
    bit_flags, cb_result, cb_result_spec, compute_bit_flags, exec_cb, exec_cb_spec, exec_ed,
    exec_ed_spec,
};

verus! {

/// Every opcode but the index prefixes DD and FD.
pub open spec fn plain_spec<B: Z80Bus>(c: Cpu, s: B::St, op: u8) -> Out<B::St, u32> {
    if op < 0x40 {
        low_page_spec::<B>(c, s, op)
    } else if op < 0xC0 {
        mid_page_spec::<B>(c, s, op)
    } else if op == 0xCB {
        exec_cb_spec::<B>(c, s)
    } else if op == 0xED {
        exec_ed_spec::<B>(c, s)
    } else {
        high_page_spec::<B>(c, s, op)
    }
}

pub fn decode_plain<B: Z80Bus>(cpu: &mut Cpu, bus: &mut B, op: u8) -> (cycles: u32)
    requires
        B::wf(old(bus).st()),
    ensures
        B::wf(final(bus).st()),
        same(
            (*final(cpu), final(bus).st(), cycles),
            plain_spec::<B>(*old(cpu), old(bus).st(), op),
        ),
{
    if op < 0x40 {
        low_page(cpu, bus, op)
    } else if op < 0xC0 {
        mid_page(cpu, bus, op)
    } else if op == 0xCB {
        exec_cb(cpu, bus)
    } else if op == 0xED {
        exec_ed(cpu, bus)
    } else {
        high_page(cpu, bus, op)
    }
}

/// IX or IY.
#[verifier::allow_in_spec]
pub fn index(cpu: &Cpu, ix: bool) -> u16
    returns
        (if ix {
            cpu.regs.ix
        } else {
            cpu.regs.iy
        }),
{
    if ix {
        cpu.regs.ix
    } else {
        cpu.regs.iy
    }
}

pub open spec fn with_index(c: Cpu, ix: bool, v: u16) -> Cpu {
    if ix {
        c.with_regs(Regs { ix: v, ..c.regs })
    } else {
        c.with_regs(Regs { iy: v, ..c.regs })
    }
}

pub fn set_index(cpu: &mut Cpu, ix: bool, v: u16)
    ensures
        *final(cpu) == with_index(*old(cpu), ix, v),
{
    if ix {
        cpu.regs.ix = v;
    } else {
        cpu.regs.iy = v;
    }
}

#[verifier::allow_in_spec]
pub fn idx_high(cpu: &Cpu, ix: bool) -> u8
    returns
        high(index(cpu, ix)),
{
    high(index(cpu, ix))
}

#[verifier::allow_in_spec]
pub fn idx_low(cpu: &Cpu, ix: bool) -> u8
    returns
        low(index(cpu, ix)),
{
    low(index(cpu, ix))
}

pub fn set_idx_high(cpu: &mut Cpu, ix: bool, v: u8)
    ensures
        *final(cpu) == with_index(*old(cpu), ix, word(v, idx_low(old(cpu), ix))),
{
    let w: u16 = word(v, idx_low(cpu, ix));
    set_index(cpu, ix, w);
}

pub fn set_idx_low(cpu: &mut Cpu, ix: bool, v: u8)
    ensures
        *final(cpu) == with_index(*old(cpu), ix, word(idx_high(old(cpu), ix), v)),
{
    let w: u16 = word(idx_high(cpu, ix), v);
    set_index(cpu, ix, w);
}

/// The register that `code` names on these pages: 4 and 5 are the halves of the
/// index register.
#[verifier::allow_in_spec]
pub fn read_r8_idx(cpu: &Cpu, code: u8, ix: bool) -> u8
    returns
        (match code & 7 {
            4 => idx_high(cpu, ix),
            5 => idx_low(cpu, ix),
            _ => cpu.regs.reg8(code),
        }),
{
    match code & 7 {
        4 => idx_high(cpu, ix),
        5 => idx_low(cpu, ix),
        _ => cpu.regs.reg8(code),
    }
}

pub open spec fn with_r8_idx(c: Cpu, code: u8, v: u8, ix: bool) -> Cpu {
    match code & 7 {
        4 => with_index(c, ix, word(v, idx_low(&c, ix))),
        5 => with_index(c, ix, word(idx_high(&c, ix), v)),
        _ => c.with_reg8(code, v),
    }
}

pub fn write_r8_idx(cpu: &mut Cpu, code: u8, v: u8, ix: bool)
    ensures
        *final(cpu) == with_r8_idx(*old(cpu), code, v, ix),
{
    match code & 7 {
        4 => set_idx_high(cpu, ix, v),
        5 => set_idx_low(cpu, ix, v),
        _ => cpu.set_reg8(code, v),
    }
}

/// The operand address IX+d or IY+d, left in the latch.
pub open spec fn idx_addr_spec<B: Z80Bus>(c: Cpu, s: B::St, ix: bool) -> Out<B::St, u16> {
    let (c1, s1, d) = c.read_op_spec::<B>(s);
    let addr = displaced(index(&c, ix), d);
    (c1.with_wz(addr), s1, addr)
}

fn idx_addr<B: Z80Bus>(cpu: &mut Cpu, bus: &mut B, ix: bool) -> (addr: u16)
    requires
        B::wf(old(bus).st()),
    ensures
        B::wf(final(bus).st()),
        same(
            (*final(cpu), final(bus).st(), addr),
            idx_addr_spec::<B>(*old(cpu), old(bus).st(), ix),
        ),
{
    let base: u16 = index(cpu, ix);
    let d: u8 = cpu.read_op(bus);
    let addr: u16 = displaced(base, d);
    cpu.set_wz(addr);
    addr
}

/// Opcodes that move or step the index register as a word.
pub open spec fn idx_word_spec<B: Z80Bus>(c: Cpu, s: B::St, op: u8, ix: bool) -> Out<B::St, u32> {
    let cur = index(&c, ix);
    match op {
        0x09 | 0x19 | 0x29 | 0x39 => {
            let v = match op {
                0x09 => c.regs.bc(),
                0x19 => c.regs.de(),
                0x29 => cur,
                _ => c.regs.sp,
            };
            let (c1, r) = add16_spec(c, cur, v);
            (with_index(c1, ix, r), s, 15)
        },
        0x21 => {
            let (c1, s1, v) = c.read_op16_spec::<B>(s);
            (with_index(c1, ix, v), s1, 14)
        },
        0x22 => {
            let (c1, s1, addr) = c.read_op16_spec::<B>(s);
            let next = addr.wrapping_add(1);
            let s2 = B::write_next(B::write_next(s1, addr, low(cur)), next, high(cur));
            (c1.with_wz(next), s2, 20)
        },
        0x2A => {
            let (c1, s1, addr) = c.read_op16_spec::<B>(s);
            let next = addr.wrapping_add(1);
            let (s2, lo) = (B::read_next(s1, addr), B::read_val(s1, addr));
            let (s3, hi) = (B::read_next(s2, next), B::read_val(s2, next));
            (with_index(c1, ix, word(hi, lo)).with_wz(next), s3, 20)
        },
        0x23 => (with_index(c, ix, cur.wrapping_add(1)), s, 10),
        0x2B => (with_index(c, ix, cur.wrapping_sub(1)), s, 10),
        0xE1 => {
            let (c1, s1, v) = c.pop16_spec::<B>(s);
            (with_index(c1, ix, v), s1, 14)
        },
        0xE5 => {
            let (c1, s1) = c.push16_spec::<B>(s, cur);
            (c1, s1, 15)
        },
        0xE9 => (c.with_pc(cur), s, 8),
        0xF9 => (c.with_sp(cur), s, 10),
        _ => {
            let sp = c.regs.sp;
            let sp1 = sp.wrapping_add(1);
            let (s1, lo) = (B::read_next(s, sp), B::read_val(s, sp));
            let (s2, hi) = (B::read_next(s1, sp1), B::read_val(s1, sp1));
            let s3 = B::write_next(B::write_next(s2, sp, low(cur)), sp1, high(cur));
            (with_index(c, ix, word(hi, lo)).with_wz(word(hi, lo)), s3, 23)
        },
    }
}

fn idx_word<B: Z80Bus>(cpu: &mut Cpu, bus: &mut B, op: u8, ix: bool) -> (cycles: u32)
    requires
        B::wf(old(bus).st()),
    ensures
        B::wf(final(bus).st()),
        same(
            (*final(cpu), final(bus).st(), cycles),
            idx_word_spec::<B>(*old(cpu), old(bus).st(), op, ix),
        ),
{
    let cur: u16 = index(cpu, ix);
    match op {
        0x09 | 0x19 | 0x29 | 0x39 => {
            let v: u16 = match op {
                0x09 => cpu.regs.bc(),
                0x19 => cpu.regs.de(),
                0x29 => cur,
                _ => cpu.regs.sp,
            };
            let r: u16 = add16(cpu, cur, v);
            set_index(cpu, ix, r);
            15
        }
        0x21 => {
            let v: u16 = cpu.read_op16(bus);
            set_index(cpu, ix, v);
            14
        }
        0x22 => {
            let addr: u16 = cpu.read_op16(bus);
            bus.write(addr, low(cur));
            bus.write(addr.wrapping_add(1), high(cur));
            cpu.set_wz(addr.wrapping_add(1));
            20
        }
        0x2A => {
            let addr: u16 = cpu.read_op16(bus);
            let lo: u8 = bus.read(addr);
            let hi: u8 = bus.read(addr.wrapping_add(1));
            set_index(cpu, ix, word(hi, lo));
            cpu.set_wz(addr.wrapping_add(1));
            20
        }
        0x23 => {
            set_index(cpu, ix, cur.wrapping_add(1));
            10
        }
        0x2B => {
            set_index(cpu, ix, cur.wrapping_sub(1));
            10
        }
        0xE1 => {
            let v: u16 = cpu.pop16(bus);
            set_index(cpu, ix, v);
            14
        }
        0xE5 => {
            cpu.push16(bus, cur);
            15
        }
        0xE9 => {
            cpu.set_pc(cur);
            8
        }
        0xF9 => {
            cpu.set_sp(cur);
            10
        }
        _ => {
            let sp: u16 = cpu.regs.sp;
            let lo: u8 = bus.read(sp);
            let hi: u8 = bus.read(sp.wrapping_add(1));
            bus.write(sp, low(cur));
            bus.write(sp.wrapping_add(1), high(cur));
            set_index(cpu, ix, word(hi, lo));
            cpu.set_wz(word(hi, lo));
            23
        }
    }
}

/// Opcodes with the operand at IX+d or IY+d, the CB page excepted.
pub open spec fn idx_mem_spec<B: Z80Bus>(c: Cpu, s: B::St, op: u8, ix: bool) -> Out<B::St, u32> {
    if op == 0x36 {
        let cur = index(&c, ix);
        let (c1, s1, d) = c.read_op_spec::<B>(s);
        let (c2, s2, n) = c1.read_op_spec::<B>(s1);
        (c2.with_wz(displaced(cur, d)), B::write_next(s2, displaced(cur, d), n), 19)
    } else {
        let (c1, s1, addr) = idx_addr_spec::<B>(c, s, ix);
        let v = B::read_val(s1, addr);
        let s2 = B::read_next(s1, addr);
        if op == 0x34 {
            (
                c1.with_f(inc8_flags(c1.regs.f, v)),
                B::write_next(s2, addr, v.wrapping_add(1)),
                23,
            )
        } else if op == 0x35 {
            (
                c1.with_f(dec8_flags(c1.regs.f, v)),
                B::write_next(s2, addr, v.wrapping_sub(1)),
                23,
            )
        } else if 0x70 <= op && op < 0x78 {
            (c1, B::write_next(s1, addr, c1.regs.reg8(op & 7)), 19)
        } else if op < 0x80 {
            (c1.with_reg8((op >> 3) & 7, v), s2, 19)
        } else {
            (alu_spec(c1, (op >> 3) & 7, v), s2, 19)
        }
    }
}

fn idx_mem<B: Z80Bus>(cpu: &mut Cpu, bus: &mut B, op: u8, ix: bool) -> (cycles: u32)
    requires
        B::wf(old(bus).st()),
    ensures
        B::wf(final(bus).st()),
        same(
            (*final(cpu), final(bus).st(), cycles),
            idx_mem_spec::<B>(*old(cpu), old(bus).st(), op, ix),
        ),
{
    if op == 0x36 {
        let cur: u16 = index(cpu, ix);
        let d: u8 = cpu.read_op(bus);
        let n: u8 = cpu.read_op(bus);
        let addr: u16 = displaced(cur, d);
        cpu.set_wz(addr);
        bus.write(addr, n);
        19
    } else {
        let addr: u16 = idx_addr(cpu, bus, ix);
        if op == 0x34 {
            let v: u8 = bus.read(addr);
            let r: u8 = inc8(cpu, v);
            bus.write(addr, r);
            23
        } else if op == 0x35 {
            let v: u8 = bus.read(addr);
            let r: u8 = dec8(cpu, v);
            bus.write(addr, r);
            23
        } else if 0x70 <= op && op < 0x78 {
            bus.write(addr, cpu.regs.reg8(op & 7));
            19
        } else if op < 0x80 {
            let v: u8 = bus.read(addr);
            cpu.set_reg8((op >> 3) & 7, v);
            19
        } else {
            let v: u8 = bus.read(addr);
            alu(cpu, (op >> 3) & 7, v);
            19
        }
    }
}

/// The doubly prefixed CB page: the result goes to memory, and to a register
/// too unless the register code is 6.
pub open spec fn exec_index_cb_spec<B: Z80Bus>(c: Cpu, s: B::St, ix: bool) -> Out<B::St, u32> {
    let (c1, s1, d) = c.read_op_spec::<B>(s);
    let (c2, s2, op) = c1.read_op_spec::<B>(s1);
    let addr = displaced(index(&c2, ix), d);
    let c3 = c2.with_wz(addr);
    let v = B::read_val(s2, addr);
    let s3 = B::read_next(s2, addr);
    if 0x40 <= op && op < 0x80 {
        (c3.with_f(bit_flags(c3.regs.f, (op >> 3) & 7, v, high(addr))), s3, 20)
    } else {
        let (c4, r) = cb_result_spec(c3, op, v);
        (
            if op & 7 != 6 { c4.with_reg8(op & 7, r) } else { c4 },
            B::write_next(s3, addr, r),
            23,
        )
    }
}

pub fn exec_index_cb<B: Z80Bus>(cpu: &mut Cpu, bus: &mut B, ix: bool) -> (cycles: u32)
    requires
        B::wf(old(bus).st()),
    ensures
        B::wf(final(bus).st()),
        same(
            (*final(cpu), final(bus).st(), cycles),
            exec_index_cb_spec::<B>(*old(cpu), old(bus).st(), ix),
        ),
{
    let d: u8 = cpu.read_op(bus);
    let op: u8 = cpu.read_op(bus);
    let addr: u16 = displaced(index(cpu, ix), d);
    cpu.set_wz(addr);
    let v: u8 = bus.read(addr);
    if 0x40 <= op && op < 0x80 {
        proof {
            crate::bits::three_bits(op >> 3);
        }
        let f: u8 = compute_bit_flags(cpu.regs.f, (op >> 3) & 7, v, high(addr));
        cpu.set_f(f);
        20
    } else {
        let r: u8 = cb_result(cpu, op, v);
        bus.write(addr, r);
        if (op & 7) != 6 {
            cpu.set_reg8(op & 7, r);
        }
        23
    }
}

/// Opcodes on which H and L become the halves of the index register; the
/// prefix has no effect on the rest.
pub open spec fn exec_index_other_spec<B: Z80Bus>(
    c: Cpu,
    s: B::St,
    op: u8,
    ix: bool,
) -> Out<B::St, u32> {
    let k = (op >> 3) & 7;
    let src = op & 7;
    match op {
        0x24 | 0x2C => {
            let v = read_r8_idx(&c, k, ix);
            (with_r8_idx(c.with_f(inc8_flags(c.regs.f, v)), k, v.wrapping_add(1), ix), s, 8)
        },
        0x25 | 0x2D => {
            let v = read_r8_idx(&c, k, ix);
            (with_r8_idx(c.with_f(dec8_flags(c.regs.f, v)), k, v.wrapping_sub(1), ix), s, 8)
        },
        0x26 | 0x2E => {
            let (c1, s1, n) = c.read_op_spec::<B>(s);
            (with_r8_idx(c1, k, n, ix), s1, 11)
        },
        _ => {
            if 0x40 <= op && op < 0x80 && k != 6 && src != 6 {
                (with_r8_idx(c, k, read_r8_idx(&c, src, ix), ix), s, 8)
            } else if 0x80 <= op && op < 0xC0 && src != 6 {
                (alu_spec(c, k, read_r8_idx(&c, src, ix)), s, 8)
            } else {
                plain_spec::<B>(c, s, op)
            }
        },
    }
}

pub fn exec_index_other<B: Z80Bus>(cpu: &mut Cpu, bus: &mut B, op: u8, ix: bool) -> (cycles: u32)
    requires
        B::wf(old(bus).st()),
    ensures
        B::wf(final(bus).st()),
        same(
            (*final(cpu), final(bus).st(), cycles),
            exec_index_other_spec::<B>(*old(cpu), old(bus).st(), op, ix),
        ),
{
    let k: u8 = (op >> 3) & 7;
    let src: u8 = op & 7;
    match op {
        0x24 | 0x2C => {
            let v: u8 = read_r8_idx(cpu, k, ix);
            let r: u8 = inc8(cpu, v);
            write_r8_idx(cpu, k, r, ix);
            8
        }
        0x25 | 0x2D => {
            let v: u8 = read_r8_idx(cpu, k, ix);
            let r: u8 = dec8(cpu, v);
            write_r8_idx(cpu, k, r, ix);
            8
        }
        0x26 | 0x2E => {
            let n: u8 = cpu.read_op(bus);
            write_r8_idx(cpu, k, n, ix);
            11
        }
        _ => {
            if 0x40 <= op && op < 0x80 && k != 6 && src != 6 {
                let v: u8 = read_r8_idx(cpu, src, ix);
                write_r8_idx(cpu, k, v, ix);
                8
            } else if 0x80 <= op && op < 0xC0 && src != 6 {
                let v: u8 = read_r8_idx(cpu, src, ix);
                alu(cpu, k, v);
                8
            } else {
                decode_plain(cpu, bus, op)
            }
        }
    }
}

/// Whether `op` is one of the two index prefixes.
#[verifier::allow_in_spec]
pub fn is_index_prefix(op: u8) -> bool
    returns
        op == 0xDD || op == 0xFD,
{
    op == 0xDD || op == 0xFD
}

/// The instruction behind a DD or FD prefix, `op` being its first byte that is
/// not an index prefix.
pub open spec fn indexed_spec<B: Z80Bus>(c: Cpu, s: B::St, op: u8, ix: bool) -> Out<B::St, u32> {
    match op {
        0x09 | 0x19 | 0x29 | 0x39 | 0x21 | 0x22 | 0x2A | 0x23 | 0x2B | 0xE1 | 0xE5 | 0xE9 | 0xF9
        | 0xE3 => idx_word_spec::<B>(c, s, op, ix),
        0x34 | 0x35 | 0x36 | 0x46 | 0x4E | 0x56 | 0x5E | 0x66 | 0x6E | 0x7E | 0x70 | 0x71 | 0x72
        | 0x73 | 0x74 | 0x75 | 0x77 | 0x86 | 0x8E | 0x96 | 0x9E | 0xA6 | 0xAE | 0xB6 | 0xBE =>
            idx_mem_spec::<B>(c, s, op, ix),
        0xCB => exec_index_cb_spec::<B>(c, s, ix),
        _ => exec_index_other_spec::<B>(c, s, op, ix),
    }
}

fn exec_indexed<B: Z80Bus>(cpu: &mut Cpu, bus: &mut B, op: u8, ix: bool) -> (cycles: u32)
    requires
        B::wf(old(bus).st()),
    ensures
        B::wf(final(bus).st()),
        same(
            (*final(cpu), final(bus).st(), cycles),
            indexed_spec::<B>(*old(cpu), old(bus).st(), op, ix),
        ),
{
    match op {
        0x09 | 0x19 | 0x29 | 0x39 | 0x21 | 0x22 | 0x2A | 0x23 | 0x2B | 0xE1 | 0xE5 | 0xE9 | 0xF9
        | 0xE3 => idx_word(cpu, bus, op, ix),
        0x34 | 0x35 | 0x36 | 0x46 | 0x4E | 0x56 | 0x5E | 0x66 | 0x6E | 0x7E | 0x70 | 0x71 | 0x72
        | 0x73 | 0x74 | 0x75 | 0x77 | 0x86 | 0x8E | 0x96 | 0x9E | 0xA6 | 0xAE | 0xB6 | 0xBE =>
            idx_mem(cpu, bus, op, ix),
        0xCB => exec_index_cb(cpu, bus, ix),
        _ => exec_index_other(cpu, bus, op, ix),
    }
}

/// The state after the fetches that follow a prefix, at most `n` of the bytes
/// fetched being passed over as further prefixes. Gives the last byte fetched,
/// and whether the last prefix was DD. Each prefix clears the flag copy Q.
pub open spec fn after_prefixes<B: Z80Bus>(c: Cpu, s: B::St, ix: bool, n: nat) -> (
    Cpu,
    B::St,
    u8,
    bool,
)
    decreases n,
{
    let (c1, s1, op) = c.with_q(0).fetch_op_spec::<B>(s);
    if is_index_prefix(op) && n > 0 {
        after_prefixes::<B>(c1, s1, op == 0xDD, (n - 1) as nat)
    } else {
        (c1, s1, op, ix)
    }
}

/// Whether the run of prefixes is over after at most `n` more of them.
pub open spec fn prefixes_end_by<B: Z80Bus>(c: Cpu, s: B::St, ix: bool, n: nat) -> bool {
    !is_index_prefix(after_prefixes::<B>(c, s, ix, n).2)
}

/// Whether a prefix is followed, sooner or later, by another byte.
pub open spec fn prefixes_end<B: Z80Bus>(c: Cpu, s: B::St, ix: bool) -> bool {
    exists|n: nat| prefixes_end_by::<B>(c, s, ix, n)
}

/// A DD or FD prefix and what follows: of a run of prefixes the last one counts.
pub open spec fn exec_index_spec<B: Z80Bus>(c: Cpu, s: B::St, ix: bool) -> Out<B::St, u32> {
    let n = choose|n: nat| prefixes_end_by::<B>(c, s, ix, n);
    let (c1, s1, op, ix1) = after_prefixes::<B>(c, s, ix, n);
    indexed_spec::<B>(c1, s1, op, ix1)
}

/// Once a run of prefixes is over, looking further changes nothing.
pub proof fn prefixes_end_once<B: Z80Bus>(c: Cpu, s: B::St, ix: bool, n: nat, m: nat)
    requires
        prefixes_end_by::<B>(c, s, ix, n),
        prefixes_end_by::<B>(c, s, ix, m),
    ensures
        after_prefixes::<B>(c, s, ix, n) == after_prefixes::<B>(c, s, ix, m),
    decreases n,
{
    let (c1, s1, op) = c.with_q(0).fetch_op_spec::<B>(s);
    if is_index_prefix(op) && n > 0 && m > 0 {
        prefixes_end_once::<B>(c1, s1, op == 0xDD, (n - 1) as nat, (m - 1) as nat);
    }
}

pub fn exec_index<B: Z80Bus>(cpu: &mut Cpu, bus: &mut B, ix: bool) -> (cycles: u32)
    requires
        B::wf(old(bus).st()),
        prefixes_end::<B>(*old(cpu), old(bus).st(), ix),
    ensures
        B::wf(final(bus).st()),
        same(
            (*final(cpu), final(bus).st(), cycles),
            exec_index_spec::<B>(*old(cpu), old(bus).st(), ix),
        ),
{
    let ghost n = choose|n: nat| prefixes_end_by::<B>(*cpu, bus.st(), ix, n);
    let ghost goal = after_prefixes::<B>(*cpu, bus.st(), ix, n);
    let ghost mut left = n;
    let mut last_ix: bool = ix;
    cpu.set_q(0);
    let ghost mut c0 = *cpu;
    let ghost mut s0 = bus.st();
    let mut op: u8 = cpu.fetch_op(bus);
    while is_index_prefix(op)
        invariant
            B::wf(bus.st()),
            same((*cpu, bus.st(), op), c0.fetch_op_spec::<B>(s0)),
            c0 == c0.with_q(0),
            goal == after_prefixes::<B>(c0, s0, last_ix, left),
            !is_index_prefix(goal.2),
        decreases left,
    {
        last_ix = op == 0xDD;
        proof {
            assert(left > 0);
            left = (left - 1) as nat;
        }
        cpu.set_q(0);
        proof {
            c0 = *cpu;
            s0 = bus.st();
        }
        op = cpu.fetch_op(bus);
    }
    exec_indexed(cpu, bus, op, last_ix)
}

}
