//! What holds of the processor over several operations.
use vstd::prelude::*;
use crate::cpu::z80::alu::{
    add8_flags, add8_spec, daa_spec, rot_result, sub8_flags, sub8_spec,
};
use crate::cpu::z80::bus::Z80Bus;
use crate::cpu::z80::cpu::{refreshed, word_halves, Cpu, Regs};
use crate::cpu::z80::exec::{can_step, decode_main_spec, first_fetch, step_spec, takes_irq};
use crate::cpu::z80::flags::{parity_of, FC, FH, FN, FZ};
use crate::cpu::z80::index::plain_spec;

verus! {

/// The non-maskable interrupt comes first, keeps the old interrupt switch, and
/// turns interrupts off.
pub proof fn nmi_comes_first<B: Z80Bus>(c: Cpu, s: B::St)
    requires
        c.nmi_pending,
    ensures
        ({
            let d = step_spec::<B>(c, s).0;
            &&& d.regs.pc == 0x0066
            &&& d.regs.iff2 == c.regs.iff1
            &&& !d.regs.iff1
            &&& !d.nmi_pending
            &&& !d.regs.halted
            &&& d.irq_line == c.irq_line
        }),
{
    reveal(Cpu::push16_spec);
}

/// A maskable interrupt waits while interrupts are off, and for one instruction
/// after they are turned on.
pub proof fn masked_interrupts_wait<B: Z80Bus>(c: Cpu, s: B::St)
    requires
        !c.nmi_pending,
        !c.regs.iff1 || c.ei_delay,
        !c.regs.halted,
    ensures
        ({
            let (c1, s1, op) = first_fetch::<B>(c, s);
            step_spec::<B>(c, s).1 == decode_main_spec::<B>(c1, s1, op).1 && step_spec::<B>(c, s).2
                == decode_main_spec::<B>(c1, s1, op).2
        }),
{
}

/// A maskable interrupt that is taken turns interrupts off, so that it is not
/// taken twice.
pub proof fn interrupts_are_taken_once<B: Z80Bus>(c: Cpu, s: B::St)
    requires
        !c.nmi_pending,
        takes_irq(c),
    ensures
        !step_spec::<B>(c, s).0.regs.iff1,
        !step_spec::<B>(c, s).0.regs.iff2,
        !step_spec::<B>(c, s).0.irq_line,
        !takes_irq(step_spec::<B>(c, s).0),
        c.regs.im == 1 ==> step_spec::<B>(c, s).0.regs.pc == 0x0038,
{
    reveal(Cpu::push16_spec);
}

/// A halted processor stays where it is, four cycles at a time, until an
/// interrupt comes.
pub proof fn halt_waits<B: Z80Bus>(c: Cpu, s: B::St)
    requires
        c.regs.halted,
        !c.nmi_pending,
        !takes_irq(c),
    ensures
        step_spec::<B>(c, s).0.regs == (Regs { r: refreshed(c.regs.r), q: 0, ..c.regs }),
        step_spec::<B>(c, s).1 == s,
        step_spec::<B>(c, s).2 == 4,
        can_step::<B>(c, s),
{
}

/// After an instruction the copy of the flags is what the instruction wrote, or
/// zero if it wrote none.
pub proof fn flag_copy_is_settled<B: Z80Bus>(c: Cpu, s: B::St)
    requires
        !c.nmi_pending,
        !takes_irq(c),
        !c.regs.halted,
    ensures
        ({
            let d = step_spec::<B>(c, s).0;
            d.regs.q == if d.regs.f_was_written {
                d.regs.f
            } else {
                0
            }
        }),
{
}

/// The exchange instructions undo themselves.
pub proof fn exchanges_undo_themselves<B: Z80Bus>(c: Cpu, s: B::St, op: u8)
    requires
        op == 0x08 || op == 0xD9 || op == 0xEB,
    ensures
        plain_spec::<B>(plain_spec::<B>(c, s, op).0, s, op).0 == c,
        plain_spec::<B>(c, s, op).1 == s,
{
    let r = c.regs;
    word_halves(r.af_, r.a, r.f);
    word_halves(r.bc_, r.b, r.c);
    word_halves(r.de_, r.d, r.e);
    word_halves(r.hl_, r.h, r.l);
}

/// Subtracting what was added gives back what there was.
pub proof fn subtraction_undoes_addition(c: Cpu, d: Cpu, a: u8, b: u8)
    ensures
        sub8_spec(d, add8_spec(c, a, b, 0).1, b, 0).1 == a,
        add8_spec(d, sub8_spec(c, a, b, 0).1, b, 0).1 == a,
{
}

/// Rotating left and then right gives back what there was, and the other way
/// round.
pub proof fn rotations_undo_each_other(f: u8, v: u8)
    ensures
        rot_result(f, 1, rot_result(f, 0, v).0).0 == v,
        rot_result(f, 0, rot_result(f, 1, v).0).0 == v,
{
    crate::bits::rotated(v);
}

/// The value of a byte read as two decimal digits.
pub open spec fn decimal(v: u8) -> int {
    10 * (v as int / 16) + v as int % 16
}

/// Whether a byte is two decimal digits.
pub open spec fn is_decimal(v: u8) -> bool {
    v < 0xA0 && v % 16 < 10
}

/// Adding two decimal bytes, and a carry, and adjusting gives the decimal sum,
/// the hundred in the carry. The zero flag tells whether both digits are zero.
pub proof fn decimal_sums_are_adjusted(c: Cpu, a: u8, b: u8, cin: u8)
    requires
        is_decimal(a),
        is_decimal(b),
        cin <= 1,
    ensures
        ({
            let (c1, r) = add8_spec(c, a, b, cin);
            let d = daa_spec(c1.with_a(r));
            &&& is_decimal(d.regs.a)
            &&& decimal(d.regs.a) + (if d.regs.f & FC != 0 {
                100int
            } else {
                0
            }) == decimal(a) + decimal(b) + cin
            &&& d.regs.f & FN == 0
            &&& (d.regs.f & FZ != 0) == (d.regs.a == 0)
        }),
{
    let (c1, r) = add8_spec(c, a, b, cin);
    let h = a % 16 + b % 16 + cin > 15;
    let carry = a + b + cin > 255;
    sum_sets_flags(c, a, b, cin);
    adjusted_sum(a, b, cin);
    adjustment(c1.with_a(r), false, h, carry);
}

/// Subtracting one decimal byte from another, with a borrow, and adjusting gives
/// the decimal difference, a hundred more where it would be negative: there, and
/// only there, the carry is set. The zero flag tells whether both digits are zero.
pub proof fn decimal_differences_are_adjusted(c: Cpu, a: u8, b: u8, cin: u8)
    requires
        is_decimal(a),
        is_decimal(b),
        cin <= 1,
    ensures
        ({
            let (c1, r) = sub8_spec(c, a, b, cin);
            let d = daa_spec(c1.with_a(r));
            &&& is_decimal(d.regs.a)
            &&& decimal(d.regs.a) == (decimal(a) - decimal(b) - cin) % 100
            &&& (d.regs.f & FC != 0) == (decimal(a) < decimal(b) + cin)
            &&& d.regs.f & FN != 0
            &&& (d.regs.f & FZ != 0) == (d.regs.a == 0)
        }),
{
    let (c1, r) = sub8_spec(c, a, b, cin);
    let h = a % 16 < b % 16 + cin;
    let carry = a < b + cin;
    difference_sets_flags(c, a, b, cin);
    adjusted_difference(a, b, cin);
    adjustment(c1.with_a(r), true, h, carry);
}

/// What the adjustment adds to a sum, or takes from a difference, with the given
/// carries.
pub open spec fn correction(r: u8, h: bool, carry: bool) -> int {
    (if r % 16 > 9 || h {
        6int
    } else {
        0
    }) + if r > 0x99 || carry {
        0x60int
    } else {
        0
    }
}

proof fn sum_sets_flags(c: Cpu, a: u8, b: u8, cin: u8)
    requires
        cin <= 1,
    ensures
        ({
            let (d, r) = add8_spec(c, a, b, cin);
            &&& r == (a + b + cin) % 256
            &&& (d.regs.f & FH != 0) == (a % 16 + b % 16 + cin > 15)
            &&& (d.regs.f & FC != 0) == (a + b + cin > 255)
            &&& d.regs.f & FN == 0
        }),
{
    reveal(add8_flags);
    let p = crate::cpu::z80::alu::overflows8((a as i8) + (b as i8) + cin);
    crate::bits::sum_flags(
        add8_spec(c, a, b, cin).1,
        false,
        a % 16 + b % 16 + cin > 15,
        p,
        a + b + cin > 255,
    );
}

proof fn difference_sets_flags(c: Cpu, a: u8, b: u8, cin: u8)
    requires
        cin <= 1,
    ensures
        ({
            let (d, r) = sub8_spec(c, a, b, cin);
            &&& r == (a - b - cin) % 256
            &&& (d.regs.f & FH != 0) == (a % 16 < b % 16 + cin)
            &&& (d.regs.f & FC != 0) == (a < b + cin)
            &&& d.regs.f & FN != 0
        }),
{
    reveal(sub8_flags);
    let p = crate::cpu::z80::alu::overflows8((a as i8) - (b as i8) - cin);
    crate::bits::sum_flags(
        sub8_spec(c, a, b, cin).1,
        true,
        a % 16 < b % 16 + cin,
        p,
        a < b + cin,
    );
}

proof fn adjusted_sum(a: u8, b: u8, cin: u8)
    requires
        is_decimal(a),
        is_decimal(b),
        cin <= 1,
    ensures
        ({
            let r = ((a + b + cin) % 256) as u8;
            let h = a % 16 + b % 16 + cin > 15;
            let carry = a + b + cin > 255;
            let n = ((r + correction(r, h, carry)) % 256) as u8;
            &&& is_decimal(n)
            &&& decimal(n) + (if r > 0x99 || carry {
                100int
            } else {
                0
            }) == decimal(a) + decimal(b) + cin
        }),
{
    crate::bits::decimal_sum(a, b, cin);
}

proof fn adjusted_difference(a: u8, b: u8, cin: u8)
    requires
        is_decimal(a),
        is_decimal(b),
        cin <= 1,
    ensures
        ({
            let r = ((a - b - cin) % 256) as u8;
            let h = a % 16 < b % 16 + cin;
            let carry = a < b + cin;
            let n = ((r - correction(r, h, carry)) % 256) as u8;
            &&& is_decimal(n)
            &&& decimal(n) == (decimal(a) - decimal(b) - cin) % 100
            &&& (r > 0x99 || carry) == (decimal(a) < decimal(b) + cin)
        }),
{
    let r = ((a - b - cin) % 256) as u8;
    let fix = correction(r, a % 16 < b % 16 + cin, a < b + cin);
    let (da, db) = (decimal(a), decimal(b) + cin);
    vstd::arithmetic::div_mod::lemma_mod_multiples_vanish(2, a - b - cin, 256);
    vstd::arithmetic::div_mod::lemma_mod_multiples_vanish(1, r - fix, 256);
    assert((da - db) % 100 == da - db + if da < db {
        100int
    } else {
        0
    });
    crate::bits::decimal_difference(a, b, cin);
}

proof fn adjustment(c: Cpu, n: bool, h: bool, carry: bool)
    requires
        (c.regs.f & FN != 0) == n,
        (c.regs.f & FH != 0) == h,
        (c.regs.f & FC != 0) == carry,
    ensures
        ({
            let d = daa_spec(c);
            let fix = correction(c.regs.a, h, carry);
            &&& d.regs.a == (if n {
                c.regs.a - fix
            } else {
                c.regs.a + fix
            }) % 256
            &&& (d.regs.f & FC != 0) == (c.regs.a > 0x99 || carry)
            &&& (d.regs.f & FN != 0) == n
            &&& (d.regs.f & FZ != 0) == (d.regs.a == 0)
        }),
{
    reveal(daa_spec);
    let r = c.regs.a;
    let new_a = daa_spec(c).regs.a;
    let new_h = if n {
        h && r % 16 < 6
    } else {
        r % 16 > 9
    };
    crate::bits::adjusted_flags(
        new_a,
        parity_of(new_a as int),
        n,
        new_h,
        r > 0x99 || carry,
    );
}

/// What is pushed on a stack of memory comes back when popped, and the stack
/// pointer with it.
pub proof fn popped_is_what_was_pushed<B: Z80Bus>(c: Cpu, s: B::St, v: u16)
    requires
        ({
            let sp1 = c.regs.sp.wrapping_sub(1);
            let sp2 = c.regs.sp.wrapping_sub(2);
            let h = crate::cpu::z80::cpu::high(v);
            let l = crate::cpu::z80::cpu::low(v);
            let t = B::write_next(B::write_next(s, sp1, h), sp2, l);
            &&& B::read_val(t, sp2) == l
            &&& B::read_val(B::read_next(t, sp2), sp1) == h
        }),
    ensures
        ({
            let (c1, s1) = c.push16_spec::<B>(s, v);
            let (c2, s2, w) = c1.pop16_spec::<B>(s1);
            w == v && c2 == c
        }),
{
    reveal(Cpu::push16_spec);
    reveal(Cpu::pop16_spec);
    word_halves(v, 0, 0);
}

}
