//! Instructions without an index prefix do the same whatever IX and IY hold, and
//! leave them alone.
use vstd::prelude::*;
use crate::cpu::z80::alu::{adc16_spec, add16_spec, alu_spec, daa_spec, rot_spec, sbc16_spec};
use crate::cpu::z80::block::{
    block_repeat, cp_block_spec, fixup_yx_spec, in_block_spec, io_repeat, ld_block_spec,
    out_block_spec, read_r8_spec, write_r8_spec,
};
use crate::cpu::z80::bus::Z80Bus;
use crate::cpu::z80::cpu::{word, Cpu, Out, Regs};
use crate::cpu::z80::flags::FZ;
use crate::cpu::z80::index::plain_spec;
use crate::cpu::z80::main_page::{
    ccf_spec, cond_true, high_flow_spec, high_other_spec, high_stack_spec, jr_spec, low_alu_spec,
    low_loads_spec, low_other_spec, mid_page_spec, pair, rot_a_spec, scf_spec, with_pair,
};
use crate::cpu::z80::prefixed::{cb_result_spec, ed_block_spec, ed_low_spec, exec_cb_spec};

verus! {

/// The processor with both index registers set.
pub open spec fn with_indexes(c: Cpu, ix: u16, iy: u16) -> Cpu {
    c.with_regs(Regs { ix, iy, ..c.regs })
}

/// Two outcomes that agree in everything but the index registers, which are `ix`
/// and `iy` in the second.
pub open spec fn alike<S>(o: Out<S, u32>, p: Out<S, u32>, ix: u16, iy: u16) -> bool {
    p == (with_indexes(o.0, ix, iy), o.1, o.2)
}

pub(crate) proof fn rotation_ignores_indexes(c: Cpu, k: u8, v: u8, x: u16, y: u16)
    ensures
        rot_spec(with_indexes(c, x, y), k, v) == (
            with_indexes(rot_spec(c, k, v).0, x, y),
            rot_spec(c, k, v).1,
        ),
{
    reveal(rot_spec);
}

pub(crate) proof fn fetch_ignores_indexes<B: Z80Bus>(c: Cpu, s: B::St, x: u16, y: u16)
    ensures
        ({
            let (c1, s1, op) = c.with_q(0).fetch_op_spec::<B>(s);
            with_indexes(c, x, y).with_q(0).fetch_op_spec::<B>(s) == (
                with_indexes(c1, x, y),
                s1,
                op,
            )
        }),
{
}

pub(crate) proof fn operand_ignores_indexes<B: Z80Bus>(c: Cpu, s: B::St, x: u16, y: u16)
    ensures
        ({
            let (c1, s1, v) = c.read_op_spec::<B>(s);
            with_indexes(c, x, y).read_op_spec::<B>(s) == (with_indexes(c1, x, y), s1, v)
        }),
        ({
            let (c1, s1, v) = c.read_op16_spec::<B>(s);
            with_indexes(c, x, y).read_op16_spec::<B>(s) == (with_indexes(c1, x, y), s1, v)
        }),
{
    reveal(Cpu::read_op16_spec);
}

proof fn pop_ignores_indexes<B: Z80Bus>(c: Cpu, s: B::St, x: u16, y: u16)
    ensures
        ({
            let (c1, s1, v) = c.pop16_spec::<B>(s);
            with_indexes(c, x, y).pop16_spec::<B>(s) == (with_indexes(c1, x, y), s1, v)
        }),
{
    reveal(Cpu::pop16_spec);
}

proof fn push_ignores_indexes<B: Z80Bus>(c: Cpu, s: B::St, v: u16, x: u16, y: u16)
    ensures
        ({
            let (c1, s1) = c.push16_spec::<B>(s, v);
            with_indexes(c, x, y).push16_spec::<B>(s, v) == (with_indexes(c1, x, y), s1)
        }),
{
    reveal(Cpu::push16_spec);
}

proof fn write_ignores_indexes<B: Z80Bus>(c: Cpu, s: B::St, code: u8, v: u8, x: u16, y: u16)
    ensures
        read_r8_spec::<B>(with_indexes(c, x, y), s, code) == read_r8_spec::<B>(c, s, code),
        ({
            let (c1, s1) = write_r8_spec::<B>(c, s, code, v);
            write_r8_spec::<B>(with_indexes(c, x, y), s, code, v) == (with_indexes(c1, x, y), s1)
        }),
{
}

proof fn word_sums_ignore_indexes(c: Cpu, a: u16, b: u16, x: u16, y: u16)
    ensures
        add16_spec(with_indexes(c, x, y), a, b) == (
            with_indexes(add16_spec(c, a, b).0, x, y),
            add16_spec(c, a, b).1,
        ),
        adc16_spec(with_indexes(c, x, y), a, b) == (
            with_indexes(adc16_spec(c, a, b).0, x, y),
            adc16_spec(c, a, b).1,
        ),
        sbc16_spec(with_indexes(c, x, y), a, b) == (
            with_indexes(sbc16_spec(c, a, b).0, x, y),
            sbc16_spec(c, a, b).1,
        ),
{
    reveal(add16_spec);
    reveal(adc16_spec);
    reveal(sbc16_spec);
}

pub(crate) proof fn byte_sums_ignore_indexes(c: Cpu, k: u8, v: u8, x: u16, y: u16)
    ensures
        alu_spec(with_indexes(c, x, y), k, v) == with_indexes(alu_spec(c, k, v), x, y),
{
    reveal(alu_spec);
    match k {
        0 => {},
        1 => {},
        2 => {},
        3 => {},
        4 => {},
        5 => {},
        6 => {},
        _ => {},
    }
}

proof fn pairs_ignore_indexes(c: Cpu, k: u8, v: u16, x: u16, y: u16)
    ensures
        pair(&with_indexes(c, x, y), k) == pair(&c, k),
        with_pair(with_indexes(c, x, y), k, v) == with_indexes(with_pair(c, k, v), x, y),
{
    match k {
        0 => {},
        1 => {},
        2 => {},
        _ => {},
    }
}

proof fn flags_ignore_indexes(c: Cpu, x: u16, y: u16)
    ensures
        daa_spec(with_indexes(c, x, y)) == with_indexes(daa_spec(c), x, y),
        scf_spec(with_indexes(c, x, y)) == with_indexes(scf_spec(c), x, y),
        ccf_spec(with_indexes(c, x, y)) == with_indexes(ccf_spec(c), x, y),
{
    reveal(daa_spec);
    reveal(scf_spec);
    reveal(ccf_spec);
}

proof fn pair_loads_ignore_indexes<B: Z80Bus>(c: Cpu, s: B::St, op: u8, x: u16, y: u16)
    requires
        matches!(op, 0x01 | 0x11 | 0x21 | 0x31),
    ensures
        alike(
            low_loads_spec::<B>(c, s, op),
            low_loads_spec::<B>(with_indexes(c, x, y), s, op),
            x,
            y,
        ),
{
    let (c1, s1, v) = c.read_op16_spec::<B>(s);
    operand_ignores_indexes::<B>(c, s, x, y);
    pairs_ignore_indexes(c1, (op >> 4) & 3, v, x, y);
}

proof fn addressed_stores_ignore_indexes<B: Z80Bus>(c: Cpu, s: B::St, op: u8, x: u16, y: u16)
    requires
        op == 0x22 || op == 0x32,
    ensures
        alike(
            low_loads_spec::<B>(c, s, op),
            low_loads_spec::<B>(with_indexes(c, x, y), s, op),
            x,
            y,
        ),
{
    operand_ignores_indexes::<B>(c, s, x, y);
}

proof fn word_load_ignores_indexes<B: Z80Bus>(c: Cpu, s: B::St, op: u8, x: u16, y: u16)
    requires
        op == 0x2A,
    ensures
        alike(
            low_loads_spec::<B>(c, s, op),
            low_loads_spec::<B>(with_indexes(c, x, y), s, op),
            x,
            y,
        ),
{
    operand_ignores_indexes::<B>(c, s, x, y);
}

proof fn byte_load_ignores_indexes<B: Z80Bus>(c: Cpu, s: B::St, op: u8, x: u16, y: u16)
    requires
        op == 0x3A,
    ensures
        alike(
            low_loads_spec::<B>(c, s, op),
            low_loads_spec::<B>(with_indexes(c, x, y), s, op),
            x,
            y,
        ),
{
    operand_ignores_indexes::<B>(c, s, x, y);
}

proof fn loads_ignore_indexes<B: Z80Bus>(c: Cpu, s: B::St, op: u8, x: u16, y: u16)
    ensures
        alike(
            low_loads_spec::<B>(c, s, op),
            low_loads_spec::<B>(with_indexes(c, x, y), s, op),
            x,
            y,
        ),
{
    if matches!(op, 0x01 | 0x11 | 0x21 | 0x31) {
        pair_loads_ignore_indexes::<B>(c, s, op, x, y);
    } else if op == 0x22 || op == 0x32 {
        addressed_stores_ignore_indexes::<B>(c, s, op, x, y);
    } else if op == 0x2A {
        word_load_ignores_indexes::<B>(c, s, op, x, y);
    } else if op == 0x3A {
        byte_load_ignores_indexes::<B>(c, s, op, x, y);
    } else {
        operand_ignores_indexes::<B>(c, s, x, y);
    }
}

proof fn pair_arithmetic_ignores_indexes<B: Z80Bus>(c: Cpu, s: B::St, op: u8, x: u16, y: u16)
    requires
        matches!(op, 0x03 | 0x13 | 0x23 | 0x33 | 0x0B | 0x1B | 0x2B | 0x3B | 0x09 | 0x19 | 0x29 | 0x39),
    ensures
        alike(
            low_alu_spec::<B>(c, s, op),
            low_alu_spec::<B>(with_indexes(c, x, y), s, op),
            x,
            y,
        ),
{
    let k = (op >> 4) & 3;
    let v = pair(&c, k);
    pairs_ignore_indexes(c, k, v.wrapping_add(1), x, y);
    pairs_ignore_indexes(c, k, v.wrapping_sub(1), x, y);
    word_sums_ignore_indexes(c, c.regs.hl(), v, x, y);
}

proof fn arithmetic_ignores_indexes<B: Z80Bus>(c: Cpu, s: B::St, op: u8, x: u16, y: u16)
    ensures
        alike(
            low_alu_spec::<B>(c, s, op),
            low_alu_spec::<B>(with_indexes(c, x, y), s, op),
            x,
            y,
        ),
{
    if matches!(op, 0x03 | 0x13 | 0x23 | 0x33 | 0x0B | 0x1B | 0x2B | 0x3B | 0x09 | 0x19 | 0x29 | 0x39) {
        pair_arithmetic_ignores_indexes::<B>(c, s, op, x, y);
    } else {
        flags_ignore_indexes(c, x, y);
        match op {
            0x04 | 0x0C | 0x14 | 0x1C | 0x24 | 0x2C | 0x3C => {},
            0x34 => {},
            0x05 | 0x0D | 0x15 | 0x1D | 0x25 | 0x2D | 0x3D => {},
            0x35 => {},
            0x27 => {},
            0x2F => {},
            0x37 => {},
            _ => {},
        }
    }
}

proof fn low_page_ignores_indexes<B: Z80Bus>(c: Cpu, s: B::St, op: u8, x: u16, y: u16)
    ensures
        alike(
            low_other_spec::<B>(c, s, op),
            low_other_spec::<B>(with_indexes(c, x, y), s, op),
            x,
            y,
        ),
{
    reveal(rot_a_spec);
    reveal(jr_spec);
}

proof fn mid_page_ignores_indexes<B: Z80Bus>(c: Cpu, s: B::St, op: u8, x: u16, y: u16)
    ensures
        alike(mid_page_spec::<B>(c, s, op), mid_page_spec::<B>(with_indexes(c, x, y), s, op), x, y),
{
    let (s1, v) = read_r8_spec::<B>(c, s, op & 7);
    write_ignores_indexes::<B>(c, s, op & 7, 0, x, y);
    write_ignores_indexes::<B>(c, s1, (op >> 3) & 7, v, x, y);
    byte_sums_ignore_indexes(c, (op >> 3) & 7, v, x, y);
}

proof fn returns_ignore_indexes<B: Z80Bus>(c: Cpu, s: B::St, op: u8, x: u16, y: u16)
    requires
        matches!(op, 0xC0 | 0xC8 | 0xD0 | 0xD8 | 0xE0 | 0xE8 | 0xF0 | 0xF8 | 0xC9),
    ensures
        alike(
            high_flow_spec::<B>(c, s, op),
            high_flow_spec::<B>(with_indexes(c, x, y), s, op),
            x,
            y,
        ),
{
    assert(cond_true(&with_indexes(c, x, y), (op >> 3) & 7) == cond_true(&c, (op >> 3) & 7));
    pop_ignores_indexes::<B>(c, s, x, y);
}

proof fn jumps_ignore_indexes<B: Z80Bus>(c: Cpu, s: B::St, op: u8, x: u16, y: u16)
    requires
        matches!(op, 0xC3 | 0xC2 | 0xCA | 0xD2 | 0xDA | 0xE2 | 0xEA | 0xF2 | 0xFA),
    ensures
        alike(
            high_flow_spec::<B>(c, s, op),
            high_flow_spec::<B>(with_indexes(c, x, y), s, op),
            x,
            y,
        ),
{
    assert(cond_true(&with_indexes(c, x, y), (op >> 3) & 7) == cond_true(&c, (op >> 3) & 7));
    operand_ignores_indexes::<B>(c, s, x, y);
}

proof fn calls_ignore_indexes<B: Z80Bus>(c: Cpu, s: B::St, op: u8, x: u16, y: u16)
    requires
        matches!(op, 0xCD | 0xC4 | 0xCC | 0xD4 | 0xDC | 0xE4 | 0xEC | 0xF4 | 0xFC),
    ensures
        alike(
            high_flow_spec::<B>(c, s, op),
            high_flow_spec::<B>(with_indexes(c, x, y), s, op),
            x,
            y,
        ),
{
    assert(cond_true(&with_indexes(c, x, y), (op >> 3) & 7) == cond_true(&c, (op >> 3) & 7));
    let (c1, s1, t) = c.read_op16_spec::<B>(s);
    operand_ignores_indexes::<B>(c, s, x, y);
    push_ignores_indexes::<B>(c1, s1, c1.regs.pc, x, y);
}

proof fn flow_ignores_indexes<B: Z80Bus>(c: Cpu, s: B::St, op: u8, x: u16, y: u16)
    ensures
        alike(
            high_flow_spec::<B>(c, s, op),
            high_flow_spec::<B>(with_indexes(c, x, y), s, op),
            x,
            y,
        ),
{
    if matches!(op, 0xC0 | 0xC8 | 0xD0 | 0xD8 | 0xE0 | 0xE8 | 0xF0 | 0xF8 | 0xC9) {
        returns_ignore_indexes::<B>(c, s, op, x, y);
    } else if matches!(op, 0xC3 | 0xC2 | 0xCA | 0xD2 | 0xDA | 0xE2 | 0xEA | 0xF2 | 0xFA) {
        jumps_ignore_indexes::<B>(c, s, op, x, y);
    } else if matches!(op, 0xCD | 0xC4 | 0xCC | 0xD4 | 0xDC | 0xE4 | 0xEC | 0xF4 | 0xFC) {
        calls_ignore_indexes::<B>(c, s, op, x, y);
    } else {
        push_ignores_indexes::<B>(c, s, c.regs.pc, x, y);
    }
}

proof fn pops_ignore_indexes<B: Z80Bus>(c: Cpu, s: B::St, op: u8, x: u16, y: u16)
    requires
        matches!(op, 0xC1 | 0xD1 | 0xE1 | 0xF1),
    ensures
        alike(
            high_stack_spec::<B>(c, s, op),
            high_stack_spec::<B>(with_indexes(c, x, y), s, op),
            x,
            y,
        ),
{
    let (c1, s1, v) = c.pop16_spec::<B>(s);
    pop_ignores_indexes::<B>(c, s, x, y);
    pairs_ignore_indexes(c1, (op >> 4) & 3, v, x, y);
}

proof fn pushes_ignore_indexes<B: Z80Bus>(c: Cpu, s: B::St, op: u8, x: u16, y: u16)
    requires
        matches!(op, 0xC5 | 0xD5 | 0xE5 | 0xF5),
    ensures
        alike(
            high_stack_spec::<B>(c, s, op),
            high_stack_spec::<B>(with_indexes(c, x, y), s, op),
            x,
            y,
        ),
{
    let k = (op >> 4) & 3;
    pairs_ignore_indexes(c, k, 0, x, y);
    push_ignores_indexes::<B>(c, s, c.regs.af(), x, y);
    push_ignores_indexes::<B>(c, s, pair(&c, k), x, y);
}

proof fn stack_ignores_indexes<B: Z80Bus>(c: Cpu, s: B::St, op: u8, x: u16, y: u16)
    ensures
        alike(
            high_stack_spec::<B>(c, s, op),
            high_stack_spec::<B>(with_indexes(c, x, y), s, op),
            x,
            y,
        ),
{
    if matches!(op, 0xC1 | 0xD1 | 0xE1 | 0xF1) {
        pops_ignore_indexes::<B>(c, s, op, x, y);
    } else if matches!(op, 0xC5 | 0xD5 | 0xE5 | 0xF5) {
        pushes_ignore_indexes::<B>(c, s, op, x, y);
    }
}

proof fn high_page_ignores_indexes<B: Z80Bus>(c: Cpu, s: B::St, op: u8, x: u16, y: u16)
    ensures
        alike(
            high_other_spec::<B>(c, s, op),
            high_other_spec::<B>(with_indexes(c, x, y), s, op),
            x,
            y,
        ),
{
    let (c1, s1, n) = c.read_op_spec::<B>(s);
    operand_ignores_indexes::<B>(c, s, x, y);
    byte_sums_ignore_indexes(c1, (op >> 3) & 7, n, x, y);
    match op {
        0xC6 | 0xCE | 0xD6 | 0xDE | 0xE6 | 0xEE | 0xF6 | 0xFE => {},
        0xD3 => {},
        0xDB => {},
        0xF3 => {},
        _ => {},
    }
}

proof fn bit_page_ignores_indexes<B: Z80Bus>(c: Cpu, s: B::St, x: u16, y: u16)
    ensures
        alike(exec_cb_spec::<B>(c, s), exec_cb_spec::<B>(with_indexes(c, x, y), s), x, y),
{
    let (c1, s1, op) = c.with_q(0).fetch_op_spec::<B>(s);
    fetch_ignores_indexes::<B>(c, s, x, y);
    let reg = op & 7;
    let (s2, v) = read_r8_spec::<B>(c1, s1, reg);
    write_ignores_indexes::<B>(c1, s1, reg, 0, x, y);
    if 0x40 <= op && op < 0x80 {
    } else {
        let (c2, r) = cb_result_spec(c1, op, v);
        rotation_ignores_indexes(c1, (op >> 3) & 7, v, x, y);
        assert(cb_result_spec(with_indexes(c1, x, y), op, v) == (with_indexes(c2, x, y), r));
        write_ignores_indexes::<B>(c2, s2, reg, r, x, y);
    }
}

proof fn modes_ignore_indexes<B: Z80Bus>(c: Cpu, s: B::St, op: u8, x: u16, y: u16)
    requires
        matches!(
            op,
            0x44 | 0x4C | 0x54 | 0x5C | 0x64 | 0x6C | 0x74 | 0x7C | 0x46 | 0x4E | 0x66 | 0x6E | 0x56
            | 0x76 | 0x5E | 0x7E | 0x47 | 0x4F | 0x57 | 0x5F | 0x6F | 0x67
        ),
    ensures
        alike(ed_low_spec::<B>(c, s, op), ed_low_spec::<B>(with_indexes(c, x, y), s, op), x, y),
{
}

proof fn word_arithmetic_ignores_indexes<B: Z80Bus>(c: Cpu, s: B::St, op: u8, x: u16, y: u16)
    requires
        matches!(
            op,
            0x42 | 0x52 | 0x62 | 0x72 | 0x4A | 0x5A | 0x6A | 0x7A
        ),
    ensures
        alike(ed_low_spec::<B>(c, s, op), ed_low_spec::<B>(with_indexes(c, x, y), s, op), x, y),
{
    let v = pair(&c, (op >> 4) & 3);
    pairs_ignore_indexes(c, (op >> 4) & 3, 0, x, y);
    word_sums_ignore_indexes(c, c.regs.hl(), v, x, y);
}

proof fn word_loads_ignore_indexes<B: Z80Bus>(c: Cpu, s: B::St, op: u8, x: u16, y: u16)
    requires
        matches!(op, 0x43 | 0x53 | 0x63 | 0x73 | 0x4B | 0x5B | 0x6B | 0x7B),
    ensures
        alike(ed_low_spec::<B>(c, s, op), ed_low_spec::<B>(with_indexes(c, x, y), s, op), x, y),
{
    let (c1, s1, addr) = c.read_op16_spec::<B>(s);
    let next = addr.wrapping_add(1);
    let (s2, lo) = (B::read_next(s1, addr), B::read_val(s1, addr));
    operand_ignores_indexes::<B>(c, s, x, y);
    pairs_ignore_indexes(c1, (op >> 4) & 3, word(B::read_val(s2, next), lo), x, y);
}

proof fn ports_ignore_indexes<B: Z80Bus>(c: Cpu, s: B::St, op: u8, x: u16, y: u16)
    requires
        matches!(
            op,
            0x40 | 0x48 | 0x50 | 0x58 | 0x60 | 0x68 | 0x78 | 0x70 | 0x41 | 0x49 | 0x51 | 0x59 | 0x61
            | 0x69 | 0x79 | 0x71
        ),
    ensures
        alike(ed_low_spec::<B>(c, s, op), ed_low_spec::<B>(with_indexes(c, x, y), s, op), x, y),
{
}

proof fn interrupt_returns_ignore_indexes<B: Z80Bus>(c: Cpu, s: B::St, op: u8, x: u16, y: u16)
    requires
        matches!(op, 0x45 | 0x55 | 0x65 | 0x75 | 0x4D | 0x5D | 0x6D | 0x7D),
    ensures
        alike(ed_low_spec::<B>(c, s, op), ed_low_spec::<B>(with_indexes(c, x, y), s, op), x, y),
{
    pop_ignores_indexes::<B>(c, s, x, y);
}

proof fn ed_page_ignores_indexes<B: Z80Bus>(c: Cpu, s: B::St, op: u8, x: u16, y: u16)
    ensures
        alike(ed_low_spec::<B>(c, s, op), ed_low_spec::<B>(with_indexes(c, x, y), s, op), x, y),
{
    if matches!(
        op,
        0x44 | 0x4C | 0x54 | 0x5C | 0x64 | 0x6C | 0x74 | 0x7C | 0x46 | 0x4E | 0x66 | 0x6E | 0x56
        | 0x76 | 0x5E | 0x7E | 0x47 | 0x4F | 0x57 | 0x5F | 0x6F | 0x67
    ) {
        modes_ignore_indexes::<B>(c, s, op, x, y);
    } else if matches!(
        op,
        0x42 | 0x52 | 0x62 | 0x72 | 0x4A | 0x5A | 0x6A | 0x7A
    ) {
        word_arithmetic_ignores_indexes::<B>(c, s, op, x, y);
    } else if matches!(op, 0x43 | 0x53 | 0x63 | 0x73 | 0x4B | 0x5B | 0x6B | 0x7B) {
        word_loads_ignore_indexes::<B>(c, s, op, x, y);
    } else if matches!(
        op,
        0x40 | 0x48 | 0x50 | 0x58 | 0x60 | 0x68 | 0x78 | 0x70 | 0x41 | 0x49 | 0x51 | 0x59 | 0x61
        | 0x69 | 0x79 | 0x71
    ) {
        ports_ignore_indexes::<B>(c, s, op, x, y);
    } else if matches!(op, 0x45 | 0x55 | 0x65 | 0x75 | 0x4D | 0x5D | 0x6D | 0x7D) {
        interrupt_returns_ignore_indexes::<B>(c, s, op, x, y);
    } else {
    }
}

proof fn copies_ignore_indexes<B: Z80Bus>(c: Cpu, s: B::St, up: bool, x: u16, y: u16)
    ensures
        ({
            let (c1, s1) = ld_block_spec::<B>(c, s, up);
            ld_block_spec::<B>(with_indexes(c, x, y), s, up) == (with_indexes(c1, x, y), s1)
        }),
        ({
            let (c1, s1) = cp_block_spec::<B>(c, s, up);
            cp_block_spec::<B>(with_indexes(c, x, y), s, up) == (with_indexes(c1, x, y), s1)
        }),
{
    reveal(ld_block_spec);
    reveal(cp_block_spec);
}

proof fn transfers_ignore_indexes<B: Z80Bus>(c: Cpu, s: B::St, up: bool, x: u16, y: u16)
    ensures
        ({
            let (c1, s1, v) = in_block_spec::<B>(c, s, up);
            in_block_spec::<B>(with_indexes(c, x, y), s, up) == (with_indexes(c1, x, y), s1, v)
        }),
        ({
            let (c1, s1, v) = out_block_spec::<B>(c, s, up);
            out_block_spec::<B>(with_indexes(c, x, y), s, up) == (with_indexes(c1, x, y), s1, v)
        }),
{
    reveal(in_block_spec);
    reveal(out_block_spec);
}

proof fn repeats_ignore_indexes<S>(c: Cpu, s: S, v: u8, more: bool, x: u16, y: u16)
    ensures
        block_repeat(with_indexes(c, x, y), more) == (
            with_indexes(block_repeat(c, more).0, x, y),
            block_repeat(c, more).1,
        ),
        alike(io_repeat((c, s, v)), io_repeat((with_indexes(c, x, y), s, v)), x, y),
{
    reveal(block_repeat);
    reveal(fixup_yx_spec);
    reveal(io_repeat);
}

proof fn transfer_loops_ignore_indexes<B: Z80Bus>(c: Cpu, s: B::St, up: bool, x: u16, y: u16)
    ensures
        alike(
            io_repeat(in_block_spec::<B>(c, s, up)),
            io_repeat(in_block_spec::<B>(with_indexes(c, x, y), s, up)),
            x,
            y,
        ),
        alike(
            io_repeat(out_block_spec::<B>(c, s, up)),
            io_repeat(out_block_spec::<B>(with_indexes(c, x, y), s, up)),
            x,
            y,
        ),
{
    transfers_ignore_indexes::<B>(c, s, up, x, y);
    let (c1, s1, v) = in_block_spec::<B>(c, s, up);
    repeats_ignore_indexes(c1, s1, v, false, x, y);
    let (c2, s2, w) = out_block_spec::<B>(c, s, up);
    repeats_ignore_indexes(c2, s2, w, false, x, y);
}

proof fn blocks_ignore_indexes<B: Z80Bus>(c: Cpu, s: B::St, op: u8, x: u16, y: u16)
    ensures
        alike(ed_block_spec::<B>(c, s, op), ed_block_spec::<B>(with_indexes(c, x, y), s, op), x, y),
{
    let up = op == 0xA0 || op == 0xB0 || op == 0xA1 || op == 0xB1 || op == 0xA2 || op == 0xA3;
    copies_ignore_indexes::<B>(c, s, up, x, y);
    transfers_ignore_indexes::<B>(c, s, up, x, y);
    match op {
        0xA0 | 0xA8 | 0xA1 | 0xA9 | 0xA2 | 0xAA | 0xA3 | 0xAB => {},
        0xB0 | 0xB8 => {
            let (c1, s1) = ld_block_spec::<B>(c, s, up);
            repeats_ignore_indexes(c1, s1, 0, c1.regs.bc() != 0, x, y);
        },
        0xB1 | 0xB9 => {
            let (c1, s1) = cp_block_spec::<B>(c, s, up);
            repeats_ignore_indexes(c1, s1, 0, c1.regs.bc() != 0 && c1.regs.f & FZ == 0, x, y);
        },
        0xB2 => {
            let s1 = B::read_next(s, c.regs.bc());
            let s2 = B::read_next(s1, c.regs.hl().wrapping_sub(1));
            transfer_loops_ignore_indexes::<B>(c, s2, true, x, y);
        },
        0xBA => transfer_loops_ignore_indexes::<B>(c, s, false, x, y),
        0xB3 => transfer_loops_ignore_indexes::<B>(c, s, true, x, y),
        0xBB => transfer_loops_ignore_indexes::<B>(c, s, false, x, y),
        _ => {},
    }
}

/// An instruction without an index prefix neither reads nor writes IX or IY.
pub proof fn plain_instructions_ignore_indexes<B: Z80Bus>(
    c: Cpu,
    s: B::St,
    op: u8,
    x: u16,
    y: u16,
)
    ensures
        alike(plain_spec::<B>(c, s, op), plain_spec::<B>(with_indexes(c, x, y), s, op), x, y),
{
    if op < 0x40 {
        loads_ignore_indexes::<B>(c, s, op, x, y);
        arithmetic_ignores_indexes::<B>(c, s, op, x, y);
        low_page_ignores_indexes::<B>(c, s, op, x, y);
    } else if op < 0xC0 {
        mid_page_ignores_indexes::<B>(c, s, op, x, y);
    } else if op == 0xCB {
        bit_page_ignores_indexes::<B>(c, s, x, y);
    } else if op == 0xED {
        let (c1, s1, op1) = c.with_q(0).fetch_op_spec::<B>(s);
        fetch_ignores_indexes::<B>(c, s, x, y);
        ed_page_ignores_indexes::<B>(c1, s1, op1, x, y);
        blocks_ignore_indexes::<B>(c1, s1, op1, x, y);
    } else {
        flow_ignores_indexes::<B>(c, s, op, x, y);
        stack_ignores_indexes::<B>(c, s, op, x, y);
        high_page_ignores_indexes::<B>(c, s, op, x, y);
    }
}

}
