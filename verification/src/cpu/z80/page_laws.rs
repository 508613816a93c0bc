//! The bit page, the block instructions, loads through memory, and interrupts.
use vstd::prelude::*;
use vstd::arithmetic::power2::pow2;
use crate::cpu::z80::alu::rot_spec;
use crate::cpu::z80::alu_laws::{
    combined, flag_is_set, flags_of, one_flag, subtraction_subtracts,
};
use crate::cpu::z80::block::{block_repeat, ld_block_spec, stepped};
use crate::cpu::z80::bus::Z80Bus;
use crate::cpu::z80::cpu::{high, low, refreshed, word, Cpu, Regs};
use crate::cpu::z80::exec::service_irq_spec;
use crate::cpu::z80::flags::{set_if, FC, FH, FP, FS, FX, FY, FZ};
use crate::cpu::z80::index::plain_spec;
use crate::cpu::z80::instruction_laws::{
    fields, hl, joined, next_word, operand, operands, pushed, stack_works, stored, words,
    words_follow,
};
use crate::cpu::z80::prefixed::{bit_flags, cb_result_spec, ed_low_spec};

verus! {

/// Whether bit `k` of a byte is set.
pub open spec fn has_bit(v: u8, k: int) -> bool {
    (v as int / pow2(k as nat) as int) % 2 == 1
}

proof fn one_bit_of(v: u8, k: u8)
    requires
        k < 8,
    ensures
        (v & (1u8 << k) != 0) == has_bit(v, k as int),
        (v & !(1u8 << k)) == v - (if has_bit(v, k as int) { pow2(k as nat) as int } else { 0 }),
        (v | (1u8 << k)) == v + (if has_bit(v, k as int) { 0 } else { pow2(k as nat) as int }),
{
    crate::bits::one_switch(v, k as u32, 0);
    vstd::arithmetic::power2::lemma2_to64();
    vstd::bits::lemma_u8_pow2_no_overflow(k as nat);
    vstd::bits::lemma_u8_shl_is_mul(1, k);
    vstd::bits::lemma_u8_shr_is_div(v, k);
}

/// RES clears one bit and SET sets one, bits 3 to 5 of the opcode numbering it;
/// neither touches the flags.
#[verifier::rlimit(40)]
pub proof fn bits_are_cleared_and_set(c: Cpu, op: u8, v: u8)
    requires
        op >= 0x80,
    ensures
        ({
            let k = (op as int / 8) % 8;
            let p = pow2(k as nat) as int;
            let (d, r) = cb_result_spec(c, op, v);
            &&& d == c
            &&& op < 0xC0 ==> r == v - (if has_bit(v, k) { p } else { 0 })
            &&& op >= 0xC0 ==> r == v + (if has_bit(v, k) { 0 } else { p })
        }),
{
    fields(op);
    one_bit_of(v, ((op / 8) % 8) as u8);
}

/// BIT tells in Z, and in P alike, that a bit is clear, and in S that bit 7 was
/// asked for and is set; H is set, N clear, C stays.
#[verifier::rlimit(40)]
pub proof fn bits_are_tested(f: u8, bit: u8, v: u8, yx_src: u8)
    requires
        bit < 8,
    ensures
        ({
            let (b, g) = (flags_of(f), flags_of(bit_flags(f, bit, v, yx_src)));
            let set = has_bit(v, bit as int);
            &&& g.z == !set && g.p == !set
            &&& g.s == (bit == 7 && set)
            &&& g.h && !g.n && g.c == b.c
        }),
{
    let m = 1u8 << bit;
    one_bit_of(v, bit);
    vstd::arithmetic::power2::lemma2_to64();
    vstd::bits::lemma_u8_pow2_no_overflow(bit as nat);
    vstd::bits::lemma_u8_shl_is_mul(1, bit);
    one_flag(m);
    combined(v, m);
    let r = v & m;
    one_flag(FC);
    one_flag(FH);
    one_flag(FZ);
    one_flag(FP);
    one_flag(FY);
    one_flag(FX);
    combined(f, FC);
    combined(f & FC, FH);
    combined(FZ, FP);
    let g0 = (f & FC) | FH;
    combined(g0, FZ | FP);
    let g1 = set_if(g0, FZ | FP, r == 0);
    flag_is_set(g1, FS, r & FS != 0);
    combined(FY, FX);
    combined(yx_src, FY | FX);
    combined(set_if(g1, FS, r & FS != 0), yx_src & (FY | FX));
    crate::bits::byte_in_bits(v, 0);
    if bit == 7 {
        assert(has_bit(v, 7) == (v / 128 == 1));
    }
}

/// The bit page behind CB: the next byte names an operand in its low three bits.
/// Below 40 it is shifted or rotated, from 80 on a bit of it is cleared or set,
/// and the result goes back where it came from; from 40 to 7F it is only looked
/// at.
#[verifier::rlimit(40)]
pub proof fn bit_page_goes_back<B: Z80Bus>(c: Cpu, s: B::St)
    ensures
        ({
            let pc = c.regs.pc;
            let op = B::read_val(s, pc);
            let c1 = c.with_regs(
                Regs { pc: pc.wrapping_add(1), r: refreshed(c.regs.r), q: 0, ..c.regs },
            );
            let k = op as int % 8;
            let (s2, v) = operand::<B>(c1, B::read_next(s, pc), k);
            let (c2, r) = cb_result_spec(c1, op, v);
            let (c3, s3) = stored::<B>(c2, s2, k, r);
            let (d, t, cycles) = plain_spec::<B>(c, s, 0xCB);
            &&& !(0x40 <= op < 0x80) ==> d == c3 && t == s3 && cycles == (if k == 6 {
                15u32
            } else {
                8u32
            })
            &&& 0x40 <= op < 0x80 ==> t == s2 && cycles == (if k == 6 { 12u32 } else { 8u32 })
            &&& 0x40 <= op < 0x80 ==> d == c1.with_f(d.regs.f)
            &&& op < 0x40 ==> (c2, r) == rot_spec(c1, ((op / 8) % 8) as u8, v)
        }),
{
    let pc = c.regs.pc;
    let op = B::read_val(s, pc);
    let s1 = B::read_next(s, pc);
    fields(op);
    let k = (op % 8) as u8;
    let c1 = c.with_regs(
        Regs { pc: pc.wrapping_add(1), r: refreshed(c.regs.r), q: 0, ..c.regs },
    );
    operands::<B>(c1, s1, k, 0);
    let (s2, v) = operand::<B>(c1, s1, k as int);
    let (c2, r) = cb_result_spec(c1, op, v);
    operands::<B>(c2, s2, k, r);
}

/// A pair of registers moved by one.
proof fn stepped_pair(h: u8, l: u8, up: bool)
    ensures
        ({
            let w = stepped(word(h, l), up);
            let by = if up { 1int } else { -1 };
            &&& word(h, l) == joined(h, l)
            &&& w == (joined(h, l) + by) % 0x1_0000
            &&& joined(high(w), low(w)) == w
            &&& word(high(w), low(w)) == w
        }),
{
    words(h, l, stepped(word(h, l), up));
    let w = stepped(word(h, l), up);
    words(high(w), low(w), w);
}

/// The flags of a block load.
proof fn block_load_flags(f: u8, n: u8, more: bool)
    ensures
        ({
            let g = flags_of(
                set_if(set_if(f & (FS | FZ | FC), FP, more) | (n & FX), FY, n & 2 != 0),
            );
            let b = flags_of(f);
            g.s == b.s && g.z == b.z && g.c == b.c && g.p == more && !g.h && !g.n
        }),
{
    one_flag(FS);
    one_flag(FZ);
    one_flag(FC);
    one_flag(FX);
    combined(FS, FZ);
    combined(FS | FZ, FC);
    combined(f, FS | FZ | FC);
    let f1 = f & (FS | FZ | FC);
    flag_is_set(f1, FP, more);
    combined(n, FX);
    let f2 = set_if(f1, FP, more);
    combined(f2, n & FX);
    flag_is_set(f2 | (n & FX), FY, n & 2 != 0);
}

/// LDI and LDD copy the byte at HL to DE, move both up or down, and count BC
/// down; P tells that BC is not zero yet. H and N are clear, S, Z and C stay.
#[verifier::rlimit(40)]
pub proof fn block_loads_copy_a_byte<B: Z80Bus>(c: Cpu, s: B::St, up: bool)
    ensures
        ({
            let (d, t) = ld_block_spec::<B>(c, s, up);
            let by = if up { 1int } else { -1 };
            let (from, to) = (hl(c), joined(c.regs.d, c.regs.e));
            let count = joined(c.regs.b, c.regs.c);
            let (f, g) = (flags_of(c.regs.f), flags_of(d.regs.f));
            &&& t == B::write_next(B::read_next(s, from), to, B::read_val(s, from))
            &&& hl(d) == (from + by) % 0x1_0000
            &&& joined(d.regs.d, d.regs.e) == (to + by) % 0x1_0000
            &&& joined(d.regs.b, d.regs.c) == (count - 1) % 0x1_0000
            &&& d.regs.a == c.regs.a && d.regs.pc == c.regs.pc && d.regs.sp == c.regs.sp
            &&& g.p == (count != 1)
            &&& !g.h && !g.n && g.s == f.s && g.z == f.z && g.c == f.c
        }),
{
    reveal(ld_block_spec);
    stepped_pair(c.regs.h, c.regs.l, up);
    stepped_pair(c.regs.d, c.regs.e, up);
    stepped_pair(c.regs.b, c.regs.c, false);
    let n = c.regs.a.wrapping_add(B::read_val(s, hl(c)));
    block_load_flags(c.regs.f, n, joined(c.regs.b, c.regs.c) != 1);
}

/// A repeating block instruction goes back two bytes, onto itself, and takes five
/// cycles more, until there is no more.
#[verifier::rlimit(40)]
pub proof fn repeats_go_back(c: Cpu, more: bool)
    ensures
        ({
            let (d, cycles) = block_repeat(c, more);
            &&& more ==> d.regs.pc == (c.regs.pc - 2) % 0x1_0000 && cycles == 21
            &&& !more ==> d == c && cycles == 16
        }),
{
    reveal(block_repeat);
    reveal(crate::cpu::z80::block::fixup_yx_spec);
}

/// NEG takes A from zero.
pub proof fn neg_takes_a_from_zero<B: Z80Bus>(c: Cpu, s: B::St)
    ensures
        ({
            let (d, t, cycles) = ed_low_spec::<B>(c, s, 0x44);
            &&& t == s && cycles == 8
            &&& d.regs.a == (0 - c.regs.a) % 256
            &&& flags_of(d.regs.f).z == (c.regs.a == 0)
            &&& flags_of(d.regs.f).c == (c.regs.a != 0)
            &&& flags_of(d.regs.f).n
            &&& flags_of(d.regs.f).s == (d.regs.a >= 0x80)
        }),
{
    subtraction_subtracts(c, 0, c.regs.a, 0);
}

/// Loads between A and memory: through BC and DE, 02, 12, 0A and 1A, and at a
/// word, 32 and 3A.
pub proof fn accumulator_goes_through_memory<B: Z80Bus>(c: Cpu, s: B::St, op: u8)
    requires
        op == 0x02 || op == 0x12 || op == 0x0A || op == 0x1A || op == 0x32 || op == 0x3A,
    ensures
        ({
            let (d, t, cycles) = plain_spec::<B>(c, s, op);
            let (c1, s1, w) = if op >= 0x30 {
                next_word::<B>(c, s)
            } else if op % 32 < 16 {
                (c, s, joined(c.regs.b, c.regs.c))
            } else {
                (c, s, joined(c.regs.d, c.regs.e))
            };
            let store = op % 16 == 2;
            &&& store ==> t == B::write_next(s1, w, c.regs.a)
            &&& !store ==> t == B::read_next(s1, w)
            &&& d == c1.with_regs(
                Regs {
                    a: if store { c.regs.a } else { B::read_val(s1, w) },
                    wz: d.regs.wz,
                    ..c1.regs
                },
            )
            &&& cycles == if op >= 0x30 { 13u32 } else { 7u32 }
        }),
{
    words_follow::<B>(c, s);
    words(c.regs.b, c.regs.c, 0);
    words(c.regs.d, c.regs.e, 0);
}

/// HL goes to and from memory low byte first: 22 and 2A.
pub proof fn hl_goes_through_memory<B: Z80Bus>(c: Cpu, s: B::St)
    ensures
        ({
            let (c1, s1, w) = next_word::<B>(c, s);
            let next = w.wrapping_add(1);
            let (d, t, cycles) = plain_spec::<B>(c, s, 0x22);
            let (e, u, more) = plain_spec::<B>(c, s, 0x2A);
            &&& t == B::write_next(B::write_next(s1, w, c.regs.l), next, c.regs.h)
            &&& d == c1.with_regs(Regs { wz: d.regs.wz, ..c1.regs })
            &&& u == B::read_next(B::read_next(s1, w), next)
            &&& e == c1.with_regs(
                Regs {
                    l: B::read_val(s1, w),
                    h: B::read_val(B::read_next(s1, w), next),
                    wz: e.regs.wz,
                    ..c1.regs
                },
            )
            &&& cycles == 16 && more == 16
        }),
{
    words_follow::<B>(c, s);
}

/// EX DE,HL exchanges the two; EXX exchanges three pairs with their alternates.
pub proof fn exchanges_exchange<B: Z80Bus>(c: Cpu, s: B::St)
    ensures
        ({
            let (d, t, cycles) = plain_spec::<B>(c, s, 0xEB);
            let r = c.regs;
            &&& d == c.with_regs(Regs { d: r.h, e: r.l, h: r.d, l: r.e, ..r })
            &&& t == s && cycles == 4
        }),
        ({
            let (d, t, cycles) = plain_spec::<B>(c, s, 0xD9);
            let r = c.regs;
            &&& d == c.with_regs(
                Regs {
                    b: (r.bc_ / 256) as u8,
                    c: (r.bc_ % 256) as u8,
                    d: (r.de_ / 256) as u8,
                    e: (r.de_ % 256) as u8,
                    h: (r.hl_ / 256) as u8,
                    l: (r.hl_ % 256) as u8,
                    bc_: joined(r.b, r.c),
                    de_: joined(r.d, r.e),
                    hl_: joined(r.h, r.l),
                    ..r
                },
            )
            &&& t == s && cycles == 4
        }),
{
    let r = c.regs;
    words(r.b, r.c, r.bc_);
    words(r.d, r.e, r.de_);
    words(r.h, r.l, r.hl_);
    words(r.d, r.e, joined(r.h, r.l));
    words(r.d, r.e, joined(r.d, r.e));
}

/// The maskable interrupt pushes PC and turns interrupts off. In mode 1 it goes to
/// 38, in mode 0 where the byte on the bus, read as RST, goes, and in mode 2 where
/// the table entry points that I and the byte, made even, select.
#[verifier::rlimit(40)]
pub proof fn interrupts_go_where_the_mode_says<B: Z80Bus>(c: Cpu, s: B::St)
    ensures
        ({
            let (d, t, cycles) = service_irq_spec::<B>(c, s);
            let (_, s1) = pushed::<B>(c, s, c.regs.pc);
            let entry = joined(c.regs.i, (c.irq_data - c.irq_data % 2) as u8);
            let next = entry.wrapping_add(1);
            &&& d.regs.sp == c.regs.sp.wrapping_sub(2)
            &&& !d.regs.iff1 && !d.regs.iff2 && !d.irq_line && !d.regs.halted
            &&& c.regs.im == 0 ==> d.regs.pc == c.irq_data % 64 - c.irq_data % 8 && t == s1
                && cycles == 13
            &&& c.regs.im == 1 ==> d.regs.pc == 0x38 && t == s1 && cycles == 13
            &&& c.regs.im >= 2 ==> d.regs.pc == joined(
                B::read_val(B::read_next(s1, entry), next),
                B::read_val(s1, entry),
            ) && cycles == 19
        }),
{
    let c1 = crate::cpu::z80::exec::acknowledged(c);
    stack_works::<B>(c1, s, c.regs.pc);
    stack_works::<B>(c, s, c.regs.pc);
    crate::bits::low_bits(c.irq_data as u32);
    words(c.regs.i, (c.irq_data - c.irq_data % 2) as u8, 0);
    let (_, s1) = pushed::<B>(c, s, c.regs.pc);
    let entry = joined(c.regs.i, (c.irq_data - c.irq_data % 2) as u8);
    let next = entry.wrapping_add(1);
    words(B::read_val(B::read_next(s1, entry), next), B::read_val(s1, entry), 0);
}

}
