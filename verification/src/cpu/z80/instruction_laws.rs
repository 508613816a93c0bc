//! What whole instructions do to registers, memory and time, by the fields of
//! their opcodes.
use vstd::prelude::*;
use crate::cpu::z80::alu::{add16_spec, alu_spec, dec8_flags, inc8_flags};
use crate::cpu::z80::alu_laws::flags_of;
use crate::cpu::z80::block::{read_r8_spec, write_r8_spec};
use crate::cpu::z80::bus::Z80Bus;
use crate::cpu::z80::cpu::{displaced, high, low, word, Cpu, Out, Regs};
use crate::cpu::z80::index::plain_spec;
use crate::cpu::z80::main_page::{cond_true, jr_spec, pair, with_pair};

verus! {

/// A word of a high and a low byte.
pub open spec fn joined(h: u8, l: u8) -> u16 {
    (256 * h + l) as u16
}

/// The address in HL.
pub open spec fn hl(c: Cpu) -> u16 {
    joined(c.regs.h, c.regs.l)
}

/// The registers by number: B, C, D, E, H, L and, for 7, A.
pub open spec fn register(c: Cpu, k: int) -> u8 {
    if k == 0 {
        c.regs.b
    } else if k == 1 {
        c.regs.c
    } else if k == 2 {
        c.regs.d
    } else if k == 3 {
        c.regs.e
    } else if k == 4 {
        c.regs.h
    } else if k == 5 {
        c.regs.l
    } else {
        c.regs.a
    }
}

pub open spec fn with_register(c: Cpu, k: int, v: u8) -> Cpu {
    c.with_regs(
        if k == 0 {
            Regs { b: v, ..c.regs }
        } else if k == 1 {
            Regs { c: v, ..c.regs }
        } else if k == 2 {
            Regs { d: v, ..c.regs }
        } else if k == 3 {
            Regs { e: v, ..c.regs }
        } else if k == 4 {
            Regs { h: v, ..c.regs }
        } else if k == 5 {
            Regs { l: v, ..c.regs }
        } else {
            Regs { a: v, ..c.regs }
        },
    )
}

/// An operand by number: a register, or for 6 the byte at HL.
pub open spec fn operand<B: Z80Bus>(c: Cpu, s: B::St, k: int) -> (B::St, u8) {
    if k == 6 {
        (B::read_next(s, hl(c)), B::read_val(s, hl(c)))
    } else {
        (s, register(c, k))
    }
}

/// A byte put where an operand is.
pub open spec fn stored<B: Z80Bus>(c: Cpu, s: B::St, k: int, v: u8) -> (Cpu, B::St) {
    if k == 6 {
        (c, B::write_next(s, hl(c), v))
    } else {
        (with_register(c, k, v), s)
    }
}

/// The conditions by number: NZ, Z, NC, C, PO, PE, P, M.
pub open spec fn condition(f: u8, k: int) -> bool {
    let g = flags_of(f);
    if k == 0 {
        !g.z
    } else if k == 1 {
        g.z
    } else if k == 2 {
        !g.c
    } else if k == 3 {
        g.c
    } else if k == 4 {
        !g.p
    } else if k == 5 {
        g.p
    } else if k == 6 {
        !g.s
    } else {
        g.s
    }
}

#[verifier::rlimit(40)]
pub proof fn fields(op: u8)
    ensures
        (op >> 3) & 7 == (op / 8) % 8,
        op & 7 == op % 8,
        (op >> 4) & 3 == (op / 16) % 4,
        (op >> 3) & 3 == (op / 8) % 4,
        op & 0x38 == op % 64 - op % 8,
{
    let x = op as u32;
    crate::bits::low_bits(x);
    crate::bits::low_bits(x / 8);
    crate::bits::low_bits(x / 16);
}

pub proof fn words(h: u8, l: u8, w: u16)
    ensures
        word(h, l) == 256 * h + l,
        high(w) == w / 256,
        low(w) == w % 256,
{
    crate::bits::packed_channels(h, l, 0, 0, 0);
    crate::bits::low_bits(w as u32);
}

pub proof fn operands<B: Z80Bus>(c: Cpu, s: B::St, k: u8, v: u8)
    requires
        k < 8,
    ensures
        k & 7 == k,
        read_r8_spec::<B>(c, s, k) == operand::<B>(c, s, k as int),
        write_r8_spec::<B>(c, s, k, v) == stored::<B>(c, s, k as int, v),
        k != 6 ==> c.regs.reg8(k) == register(c, k as int),
        k != 6 ==> c.with_reg8(k, v) == with_register(c, k as int, v),
        c.regs.hl() == hl(c),
{
    crate::bits::low_bits(k as u32);
    words(c.regs.h, c.regs.l, 0);
}

/// LD from operand to operand: opcodes 40 to 7F but 76. The low three bits name
/// the source, the next three the destination; nothing else changes.
#[verifier::rlimit(40)]
pub proof fn loads_copy_bytes<B: Z80Bus>(c: Cpu, s: B::St, op: u8)
    requires
        0x40 <= op < 0x80,
        op != 0x76,
    ensures
        ({
            let (from, to) = (op as int % 8, (op as int / 8) % 8);
            let (s1, v) = operand::<B>(c, s, from);
            let (c2, s2) = stored::<B>(c, s1, to, v);
            plain_spec::<B>(c, s, op) == (
                c2,
                s2,
                if from == 6 || to == 6 { 7u32 } else { 4u32 },
            )
        }),
{
    fields(op);
    let (from, to) = ((op % 8) as u8, ((op / 8) % 8) as u8);
    operands::<B>(c, s, from, 0);
    let (s1, v) = operand::<B>(c, s, from as int);
    operands::<B>(c, s1, to, v);
}

/// The accumulator operations on an operand, opcodes 80 to BF, and on the byte
/// after the opcode, C6 to FE by eights: bits 3 to 5 number the operation.
#[verifier::rlimit(40)]
pub proof fn accumulator_opcodes<B: Z80Bus>(c: Cpu, s: B::St, op: u8)
    ensures
        0x80 <= op < 0xC0 ==> ({
            let (s1, v) = operand::<B>(c, s, op as int % 8);
            plain_spec::<B>(c, s, op) == (
                alu_spec(c, ((op / 8) % 8) as u8, v),
                s1,
                if op % 8 == 6 { 7u32 } else { 4u32 },
            )
        }),
        op >= 0xC0 && op % 8 == 6 ==> ({
            let pc = c.regs.pc;
            plain_spec::<B>(c, s, op) == (
                alu_spec(
                    c.with_pc(pc.wrapping_add(1)),
                    ((op / 8) % 8) as u8,
                    B::read_val(s, pc),
                ),
                B::read_next(s, pc),
                7u32,
            )
        }),
{
    fields(op);
    operands::<B>(c, s, (op % 8) as u8, 0);
}

/// LD of the byte after the opcode, and stepping up and down, of a register:
/// opcodes below 40 that end in 4, 5 and 6, bits 3 to 5 naming the register.
#[verifier::rlimit(40)]
pub proof fn register_opcodes<B: Z80Bus>(c: Cpu, s: B::St, op: u8)
    requires
        op < 0x40,
        op / 8 != 6,
        4 <= op % 8 < 7,
    ensures
        ({
            let k = op as int / 8;
            let v = register(c, k);
            let pc = c.regs.pc;
            &&& op % 8 == 6 ==> plain_spec::<B>(c, s, op) == (
                with_register(c.with_pc(pc.wrapping_add(1)), k, B::read_val(s, pc)),
                B::read_next(s, pc),
                7u32,
            )
            &&& op % 8 == 4 ==> plain_spec::<B>(c, s, op) == (
                with_register(c.with_f(inc8_flags(c.regs.f, v)), k, ((v + 1) % 256) as u8),
                s,
                4u32,
            )
            &&& op % 8 == 5 ==> plain_spec::<B>(c, s, op) == (
                with_register(c.with_f(dec8_flags(c.regs.f, v)), k, ((v - 1) % 256) as u8),
                s,
                4u32,
            )
        }),
{
    fields(op);
    let k = (op / 8) as u8;
    let v = register(c, k as int);
    let pc = c.regs.pc;
    operands::<B>(c, s, k, 0);
    operands::<B>(c.with_pc(pc.wrapping_add(1)), s, k, B::read_val(s, pc));
    operands::<B>(c.with_f(inc8_flags(c.regs.f, v)), s, k, v.wrapping_add(1));
    operands::<B>(c.with_f(dec8_flags(c.regs.f, v)), s, k, v.wrapping_sub(1));
}

/// The register pairs by number: BC, DE, HL and SP.
pub open spec fn register_pair(c: Cpu, k: int) -> u16 {
    if k == 0 {
        joined(c.regs.b, c.regs.c)
    } else if k == 1 {
        joined(c.regs.d, c.regs.e)
    } else if k == 2 {
        hl(c)
    } else {
        c.regs.sp
    }
}

pub open spec fn with_register_pair(c: Cpu, k: int, v: u16) -> Cpu {
    let (h, l) = ((v / 256) as u8, (v % 256) as u8);
    c.with_regs(
        if k == 0 {
            Regs { b: h, c: l, ..c.regs }
        } else if k == 1 {
            Regs { d: h, e: l, ..c.regs }
        } else if k == 2 {
            Regs { h, l, ..c.regs }
        } else {
            Regs { sp: v, ..c.regs }
        },
    )
}

proof fn pairs(c: Cpu, k: u8, v: u16)
    requires
        k < 4,
    ensures
        pair(&c, k) == register_pair(c, k as int),
        with_pair(c, k, v) == with_register_pair(c, k as int, v),
{
    words(c.regs.b, c.regs.c, v);
    words(c.regs.d, c.regs.e, v);
    words(c.regs.h, c.regs.l, v);
}

/// A word after the opcode, low byte first.
pub open spec fn next_word<B: Z80Bus>(c: Cpu, s: B::St) -> Out<B::St, u16> {
    let pc = c.regs.pc;
    let s1 = B::read_next(s, pc);
    let next = pc.wrapping_add(1);
    (
        c.with_pc(pc.wrapping_add(2)),
        B::read_next(s1, next),
        joined(B::read_val(s1, next), B::read_val(s, pc)),
    )
}

#[verifier::rlimit(40)]
pub proof fn words_follow<B: Z80Bus>(c: Cpu, s: B::St)
    ensures
        c.read_op16_spec::<B>(s) == next_word::<B>(c, s),
{
    reveal(Cpu::read_op16_spec);
    let pc = c.regs.pc;
    let s1 = B::read_next(s, pc);
    words(B::read_val(s1, pc.wrapping_add(1)), B::read_val(s, pc), 0);
}

/// LD of a word, stepping up and down, and ADD HL of a register pair: opcodes
/// below 40 that end, in hexadecimal, in 1, 3, B and 9, bits 4 and 5 naming the
/// pair.
#[verifier::rlimit(40)]
pub proof fn pair_opcodes<B: Z80Bus>(c: Cpu, s: B::St, op: u8)
    requires
        op < 0x40,
    ensures
        ({
            let k = op as int / 16;
            let v = register_pair(c, k);
            let (c1, s1, w) = next_word::<B>(c, s);
            let (d, sum) = add16_spec(c, hl(c), v);
            &&& op % 16 == 1 ==> plain_spec::<B>(c, s, op) == (
                with_register_pair(c1, k, w),
                s1,
                10u32,
            )
            &&& op % 16 == 3 ==> plain_spec::<B>(c, s, op) == (
                with_register_pair(c, k, ((v + 1) % 0x1_0000) as u16),
                s,
                6u32,
            )
            &&& op % 16 == 0xB ==> plain_spec::<B>(c, s, op) == (
                with_register_pair(c, k, ((v - 1) % 0x1_0000) as u16),
                s,
                6u32,
            )
            &&& op % 16 == 9 ==> plain_spec::<B>(c, s, op) == (
                with_register_pair(d, 2, sum),
                s,
                11u32,
            )
        }),
{
    fields(op);
    let k = (op / 16) as u8;
    let v = register_pair(c, k as int);
    words_follow::<B>(c, s);
    let (c1, s1, w) = next_word::<B>(c, s);
    pairs(c, k, v.wrapping_add(1));
    pairs(c, k, v.wrapping_sub(1));
    pairs(c1, k, w);
    let (d, sum) = add16_spec(c, hl(c), v);
    pairs(d, 2, sum);
    words(c.regs.h, c.regs.l, 0);
}

proof fn conditions(c: Cpu, k: u8)
    requires
        k < 8,
    ensures
        cond_true(&c, k) == condition(c.regs.f, k as int),
{
    crate::bits::low_bits(k as u32);
}

pub proof fn displacements(pc: u16, d: u8)
    ensures
        displaced(pc, d) == (pc + (if d >= 128 { d - 256 } else { d as int })) % 0x1_0000,
{
    crate::bits::read_as_signed(d, 0, 0);
}

/// Relative jumps: 18 always, 20 to 38 by eights on NZ, Z, NC and C, and 10 after
/// counting B down, unless it reaches zero. They go a signed byte from the next
/// instruction.
#[verifier::rlimit(40)]
pub proof fn relative_jumps_go_a_signed_byte<B: Z80Bus>(c: Cpu, s: B::St, op: u8)
    requires
        op == 0x10 || op == 0x18 || op == 0x20 || op == 0x28 || op == 0x30 || op == 0x38,
    ensures
        ({
            let (d, s1, cycles) = plain_spec::<B>(c, s, op);
            let pc = c.regs.pc;
            let e = B::read_val(s, pc);
            let by = if e >= 128 { e - 256 } else { e as int };
            let b = ((c.regs.b - 1) % 256) as u8;
            let taken = if op == 0x10 {
                b != 0
            } else if op == 0x18 {
                true
            } else {
                condition(c.regs.f, (op as int / 8) % 4)
            };
            &&& s1 == B::read_next(s, pc)
            &&& d == c.with_regs(
                Regs {
                    pc: d.regs.pc,
                    wz: d.regs.wz,
                    b: if op == 0x10 { b } else { c.regs.b },
                    ..c.regs
                },
            )
            &&& taken ==> d.regs.pc == (pc + 1 + by) % 0x1_0000
            &&& !taken ==> d.regs.pc == (pc + 1) % 0x1_0000
            &&& cycles == if op == 0x10 {
                if taken { 13u32 } else { 8u32 }
            } else {
                if taken { 12u32 } else { 7u32 }
            }
        }),
{
    reveal(jr_spec);
    fields(op);
    conditions(c, ((op / 8) % 4) as u8);
    displacements(c.regs.pc.wrapping_add(1), B::read_val(s, c.regs.pc));
}

/// Jumps to a word: C3 always, C2 to FA by eights on a condition. The word is
/// passed over in any case.
#[verifier::rlimit(40)]
pub proof fn jumps_go_to_the_word<B: Z80Bus>(c: Cpu, s: B::St, op: u8)
    requires
        op == 0xC3 || (op >= 0xC0 && op % 8 == 2),
    ensures
        ({
            let (d, s1, cycles) = plain_spec::<B>(c, s, op);
            let (c1, s2, w) = next_word::<B>(c, s);
            let taken = op == 0xC3 || condition(c.regs.f, (op as int / 8) % 8);
            &&& s1 == s2
            &&& d == c.with_regs(
                Regs { pc: if taken { w } else { c1.regs.pc }, wz: d.regs.wz, ..c.regs },
            )
            &&& cycles == 10
        }),
{
    fields(op);
    conditions(c, ((op / 8) % 8) as u8);
    words_follow::<B>(c, s);
}

/// What a push leaves: the high byte above the low one, SP below both.
pub open spec fn pushed<B: Z80Bus>(c: Cpu, s: B::St, w: u16) -> (Cpu, B::St) {
    let sp = c.regs.sp;
    let s1 = B::write_next(s, sp.wrapping_sub(1), (w / 256) as u8);
    (c.with_sp(sp.wrapping_sub(2)), B::write_next(s1, sp.wrapping_sub(2), (w % 256) as u8))
}

/// What a pop gives: the low byte from SP, the high one from above it.
pub open spec fn popped<B: Z80Bus>(c: Cpu, s: B::St) -> Out<B::St, u16> {
    let sp = c.regs.sp;
    let s1 = B::read_next(s, sp);
    let next = sp.wrapping_add(1);
    (
        c.with_sp(sp.wrapping_add(2)),
        B::read_next(s1, next),
        joined(B::read_val(s1, next), B::read_val(s, sp)),
    )
}

#[verifier::rlimit(40)]
pub proof fn stack_works<B: Z80Bus>(c: Cpu, s: B::St, w: u16)
    ensures
        c.push16_spec::<B>(s, w) == pushed::<B>(c, s, w),
        c.pop16_spec::<B>(s) == popped::<B>(c, s),
{
    reveal(Cpu::push16_spec);
    reveal(Cpu::pop16_spec);
    let sp = c.regs.sp;
    let s1 = B::read_next(s, sp);
    words(B::read_val(s1, sp.wrapping_add(1)), B::read_val(s, sp), w);
}

/// Calls: CD always, C4 to FC by eights on a condition, and C7 to FF by eights to
/// one of eight fixed addresses. They push the address of the next instruction.
#[verifier::rlimit(40)]
pub proof fn calls_push_the_next_address<B: Z80Bus>(c: Cpu, s: B::St, op: u8)
    requires
        op == 0xCD || (op >= 0xC0 && op % 8 == 4) || (op >= 0xC0 && op % 8 == 7),
    ensures
        ({
            let (d, s1, cycles) = plain_spec::<B>(c, s, op);
            let fixed = op % 8 == 7;
            let (c1, s2, w) = next_word::<B>(c, s);
            let taken = op == 0xCD || fixed || condition(c.regs.f, (op as int / 8) % 8);
            let (c3, s3) = if fixed {
                pushed::<B>(c, s, c.regs.pc)
            } else {
                pushed::<B>(c1, s2, c1.regs.pc)
            };
            let target = if fixed { (8 * ((op / 8) % 8)) as u16 } else { w };
            &&& taken ==> s1 == s3 && d == c3.with_regs(
                Regs { pc: target, wz: d.regs.wz, ..c3.regs },
            )
            &&& !taken ==> s1 == s2 && d == c1.with_regs(Regs { wz: d.regs.wz, ..c1.regs })
            &&& cycles == if fixed {
                11u32
            } else if taken {
                17u32
            } else {
                10u32
            }
        }),
{
    fields(op);
    conditions(c, ((op / 8) % 8) as u8);
    words_follow::<B>(c, s);
    let (c1, s2, w) = next_word::<B>(c, s);
    stack_works::<B>(c1, s2, c1.regs.pc);
    stack_works::<B>(c, s, c.regs.pc);
}

/// Returns: C9 always, C0 to F8 by eights on a condition. They pop PC.
#[verifier::rlimit(40)]
pub proof fn returns_pop_the_address<B: Z80Bus>(c: Cpu, s: B::St, op: u8)
    requires
        op == 0xC9 || (op >= 0xC0 && op % 8 == 0),
    ensures
        ({
            let (d, s1, cycles) = plain_spec::<B>(c, s, op);
            let taken = op == 0xC9 || condition(c.regs.f, (op as int / 8) % 8);
            let (c2, s2, w) = popped::<B>(c, s);
            &&& taken ==> s1 == s2 && d == c2.with_regs(Regs { pc: w, wz: d.regs.wz, ..c2.regs })
            &&& !taken ==> s1 == s && d == c
            &&& cycles == if op == 0xC9 {
                10u32
            } else if taken {
                11u32
            } else {
                5u32
            }
        }),
{
    fields(op);
    conditions(c, ((op / 8) % 8) as u8);
    stack_works::<B>(c, s, 0);
}

/// PUSH and POP of a pair, AF in place of SP: C5 to F5 and C1 to F1 by sixteens.
#[verifier::rlimit(40)]
pub proof fn pairs_are_pushed_and_popped<B: Z80Bus>(c: Cpu, s: B::St, op: u8)
    requires
        op >= 0xC0,
        op % 16 == 5 || op % 16 == 1,
    ensures
        ({
            let k = (op as int / 16) % 4;
            let v = if k == 3 { joined(c.regs.a, c.regs.f) } else { register_pair(c, k) };
            let (c1, s1) = pushed::<B>(c, s, v);
            let (c2, s2, w) = popped::<B>(c, s);
            let c3 = if k == 3 {
                c2.with_regs(Regs { a: (w / 256) as u8, f: (w % 256) as u8, ..c2.regs })
            } else {
                with_register_pair(c2, k, w)
            };
            &&& op % 16 == 5 ==> plain_spec::<B>(c, s, op) == (c1, s1, 11u32)
            &&& op % 16 == 1 ==> plain_spec::<B>(c, s, op) == (c3, s2, 10u32)
        }),
{
    fields(op);
    let k = ((op / 16) % 4) as u8;
    let v = if k == 3 {
        joined(c.regs.a, c.regs.f)
    } else {
        register_pair(c, k as int)
    };
    words(c.regs.a, c.regs.f, 0);
    stack_works::<B>(c, s, v);
    let (c2, s2, w) = popped::<B>(c, s);
    pairs(c, k, 0);
    pairs(c2, k, w);
    words(0, 0, w);
}

}
