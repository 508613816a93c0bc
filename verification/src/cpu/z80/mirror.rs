//! How the two index pages relate: each works on its own register alone, and
//! either is the other's mirror image.
use vstd::prelude::*;
use crate::cpu::z80::alu::{add16_spec, dec8_flags, inc8_flags};
use crate::cpu::z80::bus::Z80Bus;
use crate::cpu::z80::cpu::{displaced, high, Cpu, Out};
use crate::cpu::z80::index::{
    exec_index_cb_spec, exec_index_other_spec, exec_index_spec, idx_addr_spec, idx_mem_spec,
    idx_word_spec, index, indexed_spec, is_index_prefix, read_r8_idx, with_index, with_r8_idx,
};
use crate::cpu::z80::prefixed::{bit_flags, cb_result_spec};
use crate::cpu::z80::unindexed::{
    alike, byte_sums_ignore_indexes, fetch_ignores_indexes, operand_ignores_indexes,
    plain_instructions_ignore_indexes,
    rotation_ignores_indexes, with_indexes,
};

verus! {

/// A processor whose index register `jx` is what `ix` is in `c`, the other being
/// `x` or `y`.
pub open spec fn mirror_of(c: Cpu, ix: bool, jx: bool, x: u16, y: u16) -> Cpu {
    let v = index(&c, ix);
    if jx {
        with_indexes(c, v, y)
    } else {
        with_indexes(c, x, v)
    }
}

/// Two outcomes on the index pages: they agree in everything but the index
/// registers, the one worked on holds the same in both, and the other of the
/// second is what it was, `x` or `y`.
pub open spec fn mirrored<S>(
    o: Out<S, u32>,
    ix: bool,
    p: Out<S, u32>,
    jx: bool,
    x: u16,
    y: u16,
) -> bool {
    p == (mirror_of(o.0, ix, jx, x, y), o.1, o.2)
}

proof fn register_ignores_indexes(c: Cpu, code: u8, v: u8, x: u16, y: u16)
    ensures
        with_indexes(c, x, y).with_reg8(code, v) == with_indexes(c.with_reg8(code, v), x, y),
{
}

proof fn sums_mirror<B: Z80Bus>(
    c: Cpu,
    s: B::St,
    op: u8,
    ix: bool,
    jx: bool,
    x: u16,
    y: u16,
)
    requires
        matches!(op, 0x09 | 0x19 | 0x29 | 0x39),
        index(&with_indexes(c, x, y), jx) == index(&c, ix),
    ensures
        mirrored(
            idx_word_spec::<B>(c, s, op, ix),
            ix,
            idx_word_spec::<B>(with_indexes(c, x, y), s, op, jx),
            jx,
            x,
            y,
        ),
{
    reveal(add16_spec);
}

proof fn loads_mirror<B: Z80Bus>(
    c: Cpu,
    s: B::St,
    op: u8,
    ix: bool,
    jx: bool,
    x: u16,
    y: u16,
)
    requires
        matches!(op, 0x21 | 0x22 | 0x2A),
        index(&with_indexes(c, x, y), jx) == index(&c, ix),
    ensures
        mirrored(
            idx_word_spec::<B>(c, s, op, ix),
            ix,
            idx_word_spec::<B>(with_indexes(c, x, y), s, op, jx),
            jx,
            x,
            y,
        ),
{
    reveal(Cpu::read_op16_spec);
}

proof fn stack_mirrors<B: Z80Bus>(
    c: Cpu,
    s: B::St,
    op: u8,
    ix: bool,
    jx: bool,
    x: u16,
    y: u16,
)
    requires
        matches!(op, 0xE1 | 0xE5),
        index(&with_indexes(c, x, y), jx) == index(&c, ix),
    ensures
        mirrored(
            idx_word_spec::<B>(c, s, op, ix),
            ix,
            idx_word_spec::<B>(with_indexes(c, x, y), s, op, jx),
            jx,
            x,
            y,
        ),
{
    reveal(Cpu::pop16_spec);
    reveal(Cpu::push16_spec);
}

proof fn words_mirror<B: Z80Bus>(
    c: Cpu,
    s: B::St,
    op: u8,
    ix: bool,
    jx: bool,
    x: u16,
    y: u16,
)
    requires
        index(&with_indexes(c, x, y), jx) == index(&c, ix),
    ensures
        mirrored(
            idx_word_spec::<B>(c, s, op, ix),
            ix,
            idx_word_spec::<B>(with_indexes(c, x, y), s, op, jx),
            jx,
            x,
            y,
        ),
{
    if matches!(op, 0x09 | 0x19 | 0x29 | 0x39) {
        sums_mirror::<B>(c, s, op, ix, jx, x, y);
    } else if matches!(op, 0x21 | 0x22 | 0x2A) {
        loads_mirror::<B>(c, s, op, ix, jx, x, y);
    } else if matches!(op, 0xE1 | 0xE5) {
        stack_mirrors::<B>(c, s, op, ix, jx, x, y);
    } else {
        match op {
            0x23 => {},
            0x2B => {},
            0xE9 => {},
            0xF9 => {},
            _ => {},
        }
    }
}

proof fn operands_alike<B: Z80Bus>(
    c: Cpu,
    s: B::St,
    op: u8,
    ix: bool,
    jx: bool,
    x: u16,
    y: u16,
)
    requires
        index(&with_indexes(c, x, y), jx) == index(&c, ix),
    ensures
        alike(
            idx_mem_spec::<B>(c, s, op, ix),
            idx_mem_spec::<B>(with_indexes(c, x, y), s, op, jx),
            x,
            y,
        ),
{
    if op == 0x36 {
        let (c1, s1, n) = c.read_op_spec::<B>(s);
        operand_ignores_indexes::<B>(c, s, x, y);
        operand_ignores_indexes::<B>(c1, s1, x, y);
    } else {
        let (c2, s2, addr) = idx_addr_spec::<B>(c, s, ix);
        assert(idx_addr_spec::<B>(with_indexes(c, x, y), s, jx) == (
            with_indexes(c2, x, y),
            s2,
            addr,
        )) by {
            operand_ignores_indexes::<B>(c, s, x, y);
        }
        let v = B::read_val(s2, addr);
        byte_sums_ignore_indexes(c2, (op >> 3) & 7, v, x, y);
        register_ignores_indexes(c2, (op >> 3) & 7, v, x, y);
        if op == 0x34 {
        } else if op == 0x35 {
        } else if 0x70 <= op && op < 0x78 {
        } else if op < 0x80 {
        } else {
        }
    }
}

proof fn operands_mirror<B: Z80Bus>(
    c: Cpu,
    s: B::St,
    op: u8,
    ix: bool,
    jx: bool,
    x: u16,
    y: u16,
)
    requires
        index(&with_indexes(c, x, y), jx) == index(&c, ix),
    ensures
        mirrored(
            idx_mem_spec::<B>(c, s, op, ix),
            ix,
            idx_mem_spec::<B>(with_indexes(c, x, y), s, op, jx),
            jx,
            x,
            y,
        ),
{
    let (own_x, own_y) = (c.regs.ix, c.regs.iy);
    assert(with_indexes(c, own_x, own_y) == c);
    operands_alike::<B>(c, s, op, ix, jx, x, y);
    operands_alike::<B>(c, s, op, ix, ix, own_x, own_y);
}

/// What the bit page makes of an operand, in the processor.
spec fn bit_worked(c: Cpu, op: u8, v: u8, yx_src: u8) -> Cpu {
    if 0x40 <= op && op < 0x80 {
        c.with_f(bit_flags(c.regs.f, (op >> 3) & 7, v, yx_src))
    } else {
        let (c1, r) = cb_result_spec(c, op, v);
        if op & 7 != 6 {
            c1.with_reg8(op & 7, r)
        } else {
            c1
        }
    }
}

proof fn bit_result_ignores_indexes(c: Cpu, op: u8, v: u8, x: u16, y: u16)
    ensures
        cb_result_spec(with_indexes(c, x, y), op, v) == (
            with_indexes(cb_result_spec(c, op, v).0, x, y),
            cb_result_spec(c, op, v).1,
        ),
{
    rotation_ignores_indexes(c, (op >> 3) & 7, v, x, y);
}

proof fn bit_work_ignores_indexes(c: Cpu, op: u8, v: u8, yx_src: u8, x: u16, y: u16)
    ensures
        bit_worked(with_indexes(c, x, y), op, v, yx_src) == with_indexes(
            bit_worked(c, op, v, yx_src),
            x,
            y,
        ),
        cb_result_spec(with_indexes(c, x, y), op, v).1 == cb_result_spec(c, op, v).1,
{
    bit_result_ignores_indexes(c, op, v, x, y);
    let (c1, r) = cb_result_spec(c, op, v);
    register_ignores_indexes(c1, op & 7, r, x, y);
}

/// The bit page, given what was fetched.
spec fn bit_page_done<B: Z80Bus>(c: Cpu, s: B::St, op: u8, addr: u16) -> Out<B::St, u32> {
    let v = B::read_val(s, addr);
    let s1 = B::read_next(s, addr);
    let d = c.with_wz(addr);
    if 0x40 <= op && op < 0x80 {
        (bit_worked(d, op, v, high(addr)), s1, 20)
    } else {
        (
            bit_worked(d, op, v, high(addr)),
            B::write_next(s1, addr, cb_result_spec(d, op, v).1),
            23,
        )
    }
}

proof fn bit_page_is_done<B: Z80Bus>(c: Cpu, s: B::St, ix: bool)
    ensures
        ({
            let (c1, s1, d) = c.read_op_spec::<B>(s);
            let (c2, s2, op) = c1.read_op_spec::<B>(s1);
            exec_index_cb_spec::<B>(c, s, ix) == bit_page_done::<B>(
                c2,
                s2,
                op,
                displaced(index(&c2, ix), d),
            )
        }),
{
}

proof fn bit_page_done_alike<B: Z80Bus>(c: Cpu, s: B::St, op: u8, addr: u16, x: u16, y: u16)
    ensures
        alike(
            bit_page_done::<B>(c, s, op, addr),
            bit_page_done::<B>(with_indexes(c, x, y), s, op, addr),
            x,
            y,
        ),
{
    let d = c.with_wz(addr);
    assert(with_indexes(c, x, y).with_wz(addr) == with_indexes(d, x, y));
    bit_work_ignores_indexes(d, op, B::read_val(s, addr), high(addr), x, y);
}

proof fn bit_pages_alike<B: Z80Bus>(
    c: Cpu,
    s: B::St,
    ix: bool,
    jx: bool,
    x: u16,
    y: u16,
)
    requires
        index(&with_indexes(c, x, y), jx) == index(&c, ix),
    ensures
        alike(
            exec_index_cb_spec::<B>(c, s, ix),
            exec_index_cb_spec::<B>(with_indexes(c, x, y), s, jx),
            x,
            y,
        ),
{
    let (c1, s1, d) = c.read_op_spec::<B>(s);
    let (c2, s2, op) = c1.read_op_spec::<B>(s1);
    operand_ignores_indexes::<B>(c, s, x, y);
    operand_ignores_indexes::<B>(c1, s1, x, y);
    let addr = displaced(index(&c2, ix), d);
    assert(addr == displaced(index(&with_indexes(c2, x, y), jx), d));
    bit_page_is_done::<B>(c, s, ix);
    bit_page_is_done::<B>(with_indexes(c, x, y), s, jx);
    bit_page_done_alike::<B>(c2, s2, op, addr, x, y);
}

proof fn bit_pages_mirror<B: Z80Bus>(
    c: Cpu,
    s: B::St,
    ix: bool,
    jx: bool,
    x: u16,
    y: u16,
)
    requires
        index(&with_indexes(c, x, y), jx) == index(&c, ix),
    ensures
        mirrored(
            exec_index_cb_spec::<B>(c, s, ix),
            ix,
            exec_index_cb_spec::<B>(with_indexes(c, x, y), s, jx),
            jx,
            x,
            y,
        ),
{
    let (own_x, own_y) = (c.regs.ix, c.regs.iy);
    assert(with_indexes(c, own_x, own_y) == c);
    bit_pages_alike::<B>(c, s, ix, jx, x, y);
    bit_pages_alike::<B>(c, s, ix, ix, own_x, own_y);
}

proof fn halves_written_mirror(
    c: Cpu,
    code: u8,
    v: u8,
    ix: bool,
    jx: bool,
    x: u16,
    y: u16,
)
    requires
        index(&with_indexes(c, x, y), jx) == index(&c, ix),
    ensures
        with_r8_idx(with_indexes(c, x, y), code, v, jx) == mirror_of(
            with_r8_idx(c, code, v, ix),
            ix,
            jx,
            x,
            y,
        ),
{
    match code & 7 {
        4 => {},
        5 => {},
        _ => {
            register_ignores_indexes(c, code, v, x, y);
        },
    }
}

/// Whether an opcode of these pages may write half of an index register.
spec fn writes_half(op: u8) -> bool {
    ||| op == 0x24 || op == 0x2C || op == 0x25 || op == 0x2D || op == 0x26 || op == 0x2E
    ||| 0x40 <= op && op < 0x80 && (op >> 3) & 7 != 6 && op & 7 != 6
}

proof fn plain_alike<B: Z80Bus>(
    c: Cpu,
    s: B::St,
    op: u8,
    ix: bool,
    jx: bool,
    x: u16,
    y: u16,
)
    requires
        index(&with_indexes(c, x, y), jx) == index(&c, ix),
        !writes_half(op),
    ensures
        alike(
            exec_index_other_spec::<B>(c, s, op, ix),
            exec_index_other_spec::<B>(with_indexes(c, x, y), s, op, jx),
            x,
            y,
        ),
{
    let k = (op >> 3) & 7;
    let src = op & 7;
    if 0x80 <= op && op < 0xC0 && src != 6 {
        byte_sums_ignore_indexes(c, k, read_r8_idx(&c, src, ix), x, y);
    } else {
        plain_instructions_ignore_indexes::<B>(c, s, op, x, y);
    }
}

proof fn half_steps_mirror<B: Z80Bus>(
    c: Cpu,
    s: B::St,
    op: u8,
    ix: bool,
    jx: bool,
    x: u16,
    y: u16,
)
    requires
        matches!(op, 0x24 | 0x2C | 0x25 | 0x2D),
        index(&with_indexes(c, x, y), jx) == index(&c, ix),
    ensures
        mirrored(
            exec_index_other_spec::<B>(c, s, op, ix),
            ix,
            exec_index_other_spec::<B>(with_indexes(c, x, y), s, op, jx),
            jx,
            x,
            y,
        ),
{
    let k = (op >> 3) & 7;
    let v = read_r8_idx(&c, k, ix);
    if op == 0x24 || op == 0x2C {
        let c1 = c.with_f(inc8_flags(c.regs.f, v));
        assert(with_indexes(c, x, y).with_f(inc8_flags(c.regs.f, v)) == with_indexes(c1, x, y));
        halves_written_mirror(c1, k, v.wrapping_add(1), ix, jx, x, y);
    } else {
        let c1 = c.with_f(dec8_flags(c.regs.f, v));
        assert(with_indexes(c, x, y).with_f(dec8_flags(c.regs.f, v)) == with_indexes(c1, x, y));
        halves_written_mirror(c1, k, v.wrapping_sub(1), ix, jx, x, y);
    }
}

proof fn half_loads_mirror<B: Z80Bus>(
    c: Cpu,
    s: B::St,
    op: u8,
    ix: bool,
    jx: bool,
    x: u16,
    y: u16,
)
    requires
        matches!(op, 0x26 | 0x2E),
        index(&with_indexes(c, x, y), jx) == index(&c, ix),
    ensures
        mirrored(
            exec_index_other_spec::<B>(c, s, op, ix),
            ix,
            exec_index_other_spec::<B>(with_indexes(c, x, y), s, op, jx),
            jx,
            x,
            y,
        ),
{
    let k = (op >> 3) & 7;
    let (c1, s1, n) = c.read_op_spec::<B>(s);
    operand_ignores_indexes::<B>(c, s, x, y);
    halves_written_mirror(c1, k, n, ix, jx, x, y);
}

proof fn halves_mirror<B: Z80Bus>(
    c: Cpu,
    s: B::St,
    op: u8,
    ix: bool,
    jx: bool,
    x: u16,
    y: u16,
)
    requires
        index(&with_indexes(c, x, y), jx) == index(&c, ix),
    ensures
        mirrored(
            exec_index_other_spec::<B>(c, s, op, ix),
            ix,
            exec_index_other_spec::<B>(with_indexes(c, x, y), s, op, jx),
            jx,
            x,
            y,
        ),
{
    if !writes_half(op) {
        let (own_x, own_y) = (c.regs.ix, c.regs.iy);
        assert(with_indexes(c, own_x, own_y) == c);
        plain_alike::<B>(c, s, op, ix, jx, x, y);
        plain_alike::<B>(c, s, op, ix, ix, own_x, own_y);
    } else if matches!(op, 0x24 | 0x2C | 0x25 | 0x2D) {
        half_steps_mirror::<B>(c, s, op, ix, jx, x, y);
    } else if matches!(op, 0x26 | 0x2E) {
        half_loads_mirror::<B>(c, s, op, ix, jx, x, y);
    } else {
        halves_written_mirror(c, (op >> 3) & 7, read_r8_idx(&c, op & 7, ix), ix, jx, x, y);
    }
}

proof fn pages_mirror<B: Z80Bus>(
    c: Cpu,
    s: B::St,
    op: u8,
    ix: bool,
    jx: bool,
    x: u16,
    y: u16,
)
    requires
        index(&with_indexes(c, x, y), jx) == index(&c, ix),
    ensures
        mirrored(
            indexed_spec::<B>(c, s, op, ix),
            ix,
            indexed_spec::<B>(with_indexes(c, x, y), s, op, jx),
            jx,
            x,
            y,
        ),
{
    match op {
        0x09 | 0x19 | 0x29 | 0x39 | 0x21 | 0x22 | 0x2A | 0x23 | 0x2B | 0xE1 | 0xE5 | 0xE9 | 0xF9
        | 0xE3 => words_mirror::<B>(c, s, op, ix, jx, x, y),
        0x34 | 0x35 | 0x36 | 0x46 | 0x4E | 0x56 | 0x5E | 0x66 | 0x6E | 0x7E | 0x70 | 0x71 | 0x72
        | 0x73 | 0x74 | 0x75 | 0x77 | 0x86 | 0x8E | 0x96 | 0x9E | 0xA6 | 0xAE | 0xB6 | 0xBE =>
            operands_mirror::<B>(c, s, op, ix, jx, x, y),
        0xCB => bit_pages_mirror::<B>(c, s, ix, jx, x, y),
        _ => halves_mirror::<B>(c, s, op, ix, jx, x, y),
    }
}

/// The processor with its index registers exchanged.
pub open spec fn exchanged(c: Cpu) -> Cpu {
    with_indexes(c, c.regs.iy, c.regs.ix)
}

/// A prefix that is followed by an opcode, not by another prefix: what is
/// fetched, and the instruction.
proof fn one_prefix<B: Z80Bus>(c: Cpu, s: B::St, ix: bool)
    requires
        !is_index_prefix(c.with_q(0).fetch_op_spec::<B>(s).2),
    ensures
        ({
            let (c1, s1, op) = c.with_q(0).fetch_op_spec::<B>(s);
            exec_index_spec::<B>(c, s, ix) == indexed_spec::<B>(c1, s1, op, ix)
        }),
{
}

/// The two index pages mirror each other: with IX and IY exchanged, the other
/// prefix does the same on the bus and in the registers, in the same time, up to
/// that exchange.
pub proof fn index_pages_mirror_each_other<B: Z80Bus>(c: Cpu, s: B::St, ix: bool)
    requires
        !is_index_prefix(c.with_q(0).fetch_op_spec::<B>(s).2),
    ensures
        ({
            let (c1, s1, cycles) = exec_index_spec::<B>(c, s, ix);
            exec_index_spec::<B>(exchanged(c), s, !ix) == (exchanged(c1), s1, cycles)
        }),
{
    let (c1, s1, op) = c.with_q(0).fetch_op_spec::<B>(s);
    let (x, y) = (c.regs.iy, c.regs.ix);
    fetch_ignores_indexes::<B>(c, s, x, y);
    one_prefix::<B>(c, s, ix);
    one_prefix::<B>(exchanged(c), s, !ix);
    assert(c1.regs.ix == c.regs.ix && c1.regs.iy == c.regs.iy);
    pages_mirror::<B>(c1, s1, op, ix, !ix, x, y);
    pages_mirror::<B>(c1, s1, op, ix, ix, c.regs.ix, c.regs.iy);
    assert(with_indexes(c1, c.regs.ix, c.regs.iy) == c1);
}

/// An instruction on one index page neither reads nor writes the other page's
/// register.
pub proof fn other_index_is_untouched<B: Z80Bus>(c: Cpu, s: B::St, ix: bool, v: u16)
    requires
        !is_index_prefix(c.with_q(0).fetch_op_spec::<B>(s).2),
    ensures
        ({
            let (c1, s1, cycles) = exec_index_spec::<B>(c, s, ix);
            &&& index(&c1, !ix) == index(&c, !ix)
            &&& exec_index_spec::<B>(with_index(c, !ix, v), s, ix) == (
                with_index(c1, !ix, v),
                s1,
                cycles,
            )
        }),
{
    let (c1, s1, op) = c.with_q(0).fetch_op_spec::<B>(s);
    let d = with_index(c, !ix, v);
    let (x, y) = (d.regs.ix, d.regs.iy);
    assert(d == with_indexes(c, x, y));
    fetch_ignores_indexes::<B>(c, s, x, y);
    one_prefix::<B>(c, s, ix);
    one_prefix::<B>(d, s, ix);
    assert(c1.regs.ix == c.regs.ix && c1.regs.iy == c.regs.iy);
    pages_mirror::<B>(c1, s1, op, ix, ix, x, y);
    pages_mirror::<B>(c1, s1, op, ix, ix, c.regs.ix, c.regs.iy);
    assert(with_indexes(c1, c.regs.ix, c.regs.iy) == c1);
}

}
