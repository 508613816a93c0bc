//! What holds of the processor's arithmetic and stack over several operations.
use vstd::prelude::*;
use crate::cpu::m68k::arith::{
    abcd_spec, add_spec, addx_spec, carry_out, negative, overflows, sbcd_spec, signed, sub_spec,
    unsigned,
};
use crate::cpu::m68k::bus::Bus;
use crate::cpu::m68k::cpu::{pop16_spec, push16_spec, Mach, Size, StatusRegister};

verus! {

/// The value of a byte read as two decimal digits.
pub open spec fn decimal(v: u8) -> int {
    10 * (v / 16) + v % 16
}

/// Whether a byte is two decimal digits.
pub open spec fn is_decimal(v: u8) -> bool {
    v < 0xA0 && v % 16 < 10
}

/// Decimal addition adds: the result is decimal, the hundred goes to the carry.
pub proof fn decimal_addition_adds(dst: u8, src: u8, x: u8)
    requires
        is_decimal(dst),
        is_decimal(src),
        x <= 1,
    ensures
        is_decimal(abcd_spec(dst, src, x).0),
        decimal(abcd_spec(dst, src, x).0) + (if abcd_spec(dst, src, x).1 {
            100int
        } else {
            0
        }) == decimal(dst) + decimal(src) + x,
{
    crate::bits::decimal_with_carry(dst, src, x);
}

/// Decimal subtraction subtracts, borrowing a hundred.
pub proof fn decimal_subtraction_subtracts(dst: u8, src: u8, x: u8)
    requires
        is_decimal(dst),
        is_decimal(src),
        x <= 1,
    ensures
        is_decimal(sbcd_spec(dst, src, x).0),
        decimal(sbcd_spec(dst, src, x).0) - (if sbcd_spec(dst, src, x).1 {
            100int
        } else {
            0
        }) == decimal(dst) - decimal(src) - x,
{
    crate::bits::decimal_with_borrow(dst, src, x);
    let raw = dst - src - x;
    let low = if dst % 16 < src % 16 + x {
        raw - 6
    } else {
        raw
    };
    let full = if raw < 0 {
        low - 0x60
    } else {
        low
    };
    mod_once(full, 256);
}

/// A number at most one lap away, brought back.
proof fn mod_once(x: int, m: int)
    requires
        m > 0,
        -m <= x < 2 * m,
    ensures
        x % m == if x < 0 {
            x + m
        } else if x < m {
            x
        } else {
            x - m
        },
{
    if x < 0 {
        vstd::arithmetic::div_mod::lemma_fundamental_div_mod_converse(x, m, -1, x + m);
    } else if x < m {
        vstd::arithmetic::div_mod::lemma_fundamental_div_mod_converse(x, m, 0, x);
    } else {
        vstd::arithmetic::div_mod::lemma_fundamental_div_mod_converse(x, m, 1, x - m);
    }
}

/// An operand is below the modulus, which is at most 2 to the 32nd.
proof fn operand_is_small(v: u32, size: Size)
    ensures
        0 <= unsigned(v, size) < size.modulus(),
        0x100 <= size.modulus() <= 0x1_0000_0000,
        forall|w: u32| w < size.modulus() ==> #[trigger] unsigned(w, size) == w,
{
    match size {
        Size::Byte => {},
        Size::Word => {},
        Size::Long => {},
    }
}

/// Subtracting what was added gives back the operand, within the size.
pub proof fn subtraction_undoes_addition(sr: u16, sr2: u16, a: u32, b: u32, size: Size, x: bool)
    ensures
        sub_spec(sr2, add_spec(sr, a, b, size, x).1, b, size, x).1 == unsigned(a, size),
        add_spec(sr2, sub_spec(sr, a, b, size, x).1, b, size, x).1 == unsigned(a, size),
{
    reveal(add_spec);
    reveal(sub_spec);
    let m = size.modulus() as int;
    let ua = unsigned(a, size);
    let ub = unsigned(b, size);
    operand_is_small(a, size);
    operand_is_small(b, size);
    mod_once(ua + ub, m);
    mod_once(ua - ub, m);
    mod_once((ua + ub) % m - ub, m);
    mod_once((ua - ub) % m + ub, m);
}

proof fn word_of(v: u32)
    requires
        v < 0x1_0000,
    ensures
        unsigned(v, Size::Word) == v,
        negative(v, Size::Word) == (v >= 0x8000),
{
    assert(Size::Word.modulus() == 0x1_0000);
    vstd::arithmetic::div_mod::lemma_small_mod(v as nat, 0x1_0000);
}

/// Two extended additions of words, the lower first and with nothing to extend,
/// do what one addition of long words does: with Z set before, the result and
/// every flag come out the same.
pub proof fn extended_additions_make_a_long(sr: u16, d: u32, s: u32)
    requires
        sr & StatusRegister::Z != 0,
    ensures
        ({
            let (sr1, lo) = addx_spec(sr, d % 0x1_0000, s % 0x1_0000, 0, Size::Word);
            let x = if sr1 & StatusRegister::X != 0 {
                1u32
            } else {
                0u32
            };
            let (sr2, hi) = addx_spec(sr1, d / 0x1_0000, s / 0x1_0000, x, Size::Word);
            let r = 0x1_0000 * hi + lo;
            &&& (sr2, r as u32) == add_spec(sr, d, s, Size::Long, true)
            &&& r == (d + s) % 0x1_0000_0000
            &&& (sr2 & StatusRegister::C != 0) == (d + s > 0xFFFF_FFFF)
            &&& (sr2 & StatusRegister::X != 0) == (d + s > 0xFFFF_FFFF)
            &&& (sr2 & StatusRegister::Z != 0) == (r == 0)
            &&& (sr2 & StatusRegister::N != 0) == (r >= 0x8000_0000)
            &&& (sr2 & StatusRegister::V != 0) == overflows(
                signed(d, Size::Long) + signed(s, Size::Long),
                Size::Long,
            )
        }),
{
    reveal(add_spec);
    reveal(addx_spec);
    let (d0, s0) = (d % 0x1_0000, s % 0x1_0000);
    let (d1, s1) = (d / 0x1_0000, s / 0x1_0000);
    let lo = addx_spec(sr, d0, s0, 0, Size::Word).1;
    let c1 = d0 + s0 >= 0x1_0000;
    let x = if c1 {
        1u32
    } else {
        0u32
    };
    let v1 = negative(d0, Size::Word) == negative(s0, Size::Word) && negative(lo, Size::Word)
        != negative(d0, Size::Word);
    let hi = ((d1 + s1 + x) % 0x1_0000) as u32;
    let c2 = d1 + s1 + x >= 0x1_0000;
    let v2 = negative(d1, Size::Word) == negative(s1, Size::Word) && negative(hi, Size::Word)
        != negative(d1, Size::Word);
    word_of(d0);
    word_of(s0);
    word_of(d1);
    word_of(s1);
    word_of(hi);
    mod_once(d0 + s0, 0x1_0000);
    mod_once(d1 + s1 + x, 0x1_0000);
    mod_once(d as int, 0x1_0000_0000);
    mod_once(s as int, 0x1_0000_0000);
    mod_once(d + s, 0x1_0000_0000);
    assert(lo == (d0 + s0) % 0x1_0000);
    assert(lo == d0 + s0 - 0x1_0000 * x);
    word_of(lo);
    assert(carry_out(d0 + s0 + 0u32, Size::Word) == c1);
    assert(carry_out(d1 + s1 + x, Size::Word) == c2);
    assert(c2 == (d + s > 0xFFFF_FFFF));
    assert(0x1_0000 * hi + lo == (d + s) % 0x1_0000_0000);
    assert(v2 == overflows(signed(d, Size::Long) + signed(s, Size::Long), Size::Long));
    crate::bits::extended_flags(sr, lo, hi, v1, c1, v2, c2);
}

/// An addition and an extended addition of its carry add numbers of twice the
/// size.
pub proof fn extended_addition_continues(
    sr: u16,
    sr2: u16,
    a0: u32,
    a1: u32,
    b0: u32,
    b1: u32,
    size: Size,
)
    ensures
        ({
            let m = size.modulus() as int;
            let low = unsigned(a0, size) + unsigned(b0, size);
            let x = if low >= m {
                1u32
            } else {
                0u32
            };
            let r0 = add_spec(sr, a0, b0, size, true).1 as int;
            let r1 = addx_spec(sr2, a1, b1, x, size).1 as int;
            let sum = low + m * (unsigned(a1, size) + unsigned(b1, size));
            r0 + m * r1 == sum || r0 + m * r1 + m * m == sum
        }),
{
    reveal(add_spec);
    reveal(addx_spec);
    let m = size.modulus() as int;
    operand_is_small(a0, size);
    operand_is_small(a1, size);
    operand_is_small(b0, size);
    operand_is_small(b1, size);
    let low = unsigned(a0, size) + unsigned(b0, size);
    let x = if low >= m {
        1int
    } else {
        0
    };
    let upper = unsigned(a1, size) + unsigned(b1, size);
    mod_once(low, m);
    mod_once(upper + x, m);
    let r0 = low - m * x;
    let r1 = if upper + x < m {
        upper + x
    } else {
        upper + x - m
    };
    assert(r0 + m * r1 == low + m * upper || r0 + m * r1 + m * m == low + m * upper)
        by (nonlinear_arith)
        requires
            r0 == low - m * x,
            r1 == upper + x || r1 == upper + x - m,
    ;
}

/// A word pushed on a stack of memory comes back, and the stack pointer with it.
pub proof fn popped_is_what_was_pushed<B: Bus>(m: Mach<B::St>, v: u16)
    requires
        m.c.a.len() == 8,
        m.c.a[7] % 2 == 0,
        B::read16_val(
            B::write16_next(m.s, m.c.a[7].wrapping_sub(2), v),
            m.c.a[7].wrapping_sub(2),
        ) == v,
    ensures
        pop16_spec::<B>(push16_spec::<B>(m, v)).1 == v,
        pop16_spec::<B>(push16_spec::<B>(m, v)).0.c == m.c,
{
    reveal(push16_spec);
    reveal(pop16_spec);
    let n = pop16_spec::<B>(push16_spec::<B>(m, v)).0;
    assert(n.c.a =~= m.c.a);
}

}
