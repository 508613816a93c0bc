//! What the arithmetic and logic of the processor do, in numbers and single
//! condition codes.
use vstd::prelude::*;
use vstd::arithmetic::power2::pow2;
use crate::cpu::m68k::arith::{
    add_spec, addx_flags_are_arithmetic, addx_spec, negative, overflows, signed, sub_spec,
    subx_overflow_is_arithmetic, subx_spec, unsigned, wrapped,
};
use crate::cpu::m68k::ccr::{
    codes, one_code_is_set, same_system, sign_and_zero_are_set, top_bit, Codes,
};
use crate::cpu::m68k::cpu::{
    sext16, sext8, sr_logic, sr_nz, sr_set, Condition, Size, StatusRegister,
};
use crate::cpu::m68k::dual::{dividend_of, division, divisor_of, product, quotient, remainder};
use crate::cpu::m68k::misc::chk_result;
use crate::cpu::m68k::rmw::{rmw_spec, sr_extended, sticky_z, Rmw};

verus! {

/// How many values an operand has: eight, sixteen or thirty-two bits.
pub open spec fn span(size: Size) -> int {
    match size {
        Size::Byte => 0x100,
        Size::Word => 0x1_0000,
        Size::Long => 0x1_0000_0000,
    }
}

/// An operand as a number without a sign, its low bits counting.
pub open spec fn number(v: u32, size: Size) -> int {
    v as int % span(size)
}

/// An operand as a number with a sign.
pub open spec fn signed_number(v: u32, size: Size) -> int {
    if number(v, size) >= span(size) / 2 {
        number(v, size) - span(size)
    } else {
        number(v, size)
    }
}

/// Whether a number fits a size with a sign.
pub open spec fn fits(x: int, size: Size) -> bool {
    -(span(size) / 2) <= x < span(size) / 2
}

/// N and Z that describe a result.
pub open spec fn described(r: u32, size: Size, c: Codes) -> Codes {
    Codes { n: r >= span(size) / 2, z: r == 0, ..c }
}

proof fn sizes_agree(v: u32, size: Size)
    ensures
        size.modulus() == span(size),
        unsigned(v, size) == number(v, size),
        signed(v, size) == signed_number(v, size),
        negative(v, size) == (signed_number(v, size) < 0),
        0 <= number(v, size) < span(size),
        v < span(size) ==> number(v, size) == v,
{
    match size {
        Size::Byte => {},
        Size::Word => {},
        Size::Long => {},
    }
}

proof fn brought_back(x: int, size: Size)
    requires
        -span(size) <= x < 2 * span(size),
    ensures
        wrapped(x, size) == x % span(size),
        x % span(size) == if x < 0 {
            x + span(size)
        } else if x < span(size) {
            x
        } else {
            x - span(size)
        },
{
    match size {
        Size::Byte => {},
        Size::Word => {},
        Size::Long => {},
    }
}

/// The flags that sums and differences set one after the other.
proof fn sum_codes(sr: u16, r: u32, size: Size, v: bool, carry: bool, update_x: bool)
    requires
        r < span(size),
    ensures
        ({
            let s = crate::cpu::m68k::arith::sr_sum(sr, r, size, v, carry, update_x);
            &&& codes(s) == (Codes {
                x: if update_x { carry } else { codes(sr).x },
                n: r >= span(size) / 2,
                z: r == 0,
                v,
                c: carry,
            })
            &&& same_system(s, sr)
        }),
{
    sizes_agree(r, size);
    sign_and_zero_are_set(sr, r, size);
    let a = sr_nz(sr, r, size);
    one_code_is_set(a, 2, v);
    let b = sr_set(a, 2, v);
    one_code_is_set(b, 1, carry);
    one_code_is_set(sr_set(b, 1, carry), 0x10, carry);
}

/// Addition adds, within the size: C, and X where it takes part, tell that the sum
/// of the numbers without sign does not fit, V that the signed one does not.
#[verifier::rlimit(40)]
pub proof fn addition_adds(sr: u16, a: u32, b: u32, size: Size, update_x: bool)
    ensures
        ({
            let (sr1, r) = add_spec(sr, a, b, size, update_x);
            let over = number(a, size) + number(b, size) >= span(size);
            &&& r == (number(a, size) + number(b, size)) % span(size)
            &&& codes(sr1) == described(
                r,
                size,
                Codes {
                    x: if update_x { over } else { codes(sr).x },
                    v: !fits(signed_number(a, size) + signed_number(b, size), size),
                    c: over,
                    ..codes(sr)
                },
            )
            &&& same_system(sr1, sr)
        }),
{
    reveal(add_spec);
    sizes_agree(a, size);
    sizes_agree(b, size);
    let sum = number(a, size) + number(b, size);
    brought_back(sum, size);
    sum_codes(
        sr,
        wrapped(sum, size),
        size,
        overflows(signed(a, size) + signed(b, size), size),
        sum >= size.modulus(),
        update_x,
    );
}

/// Subtraction subtracts, within the size: C, and X where it takes part, tell that
/// the second number without sign is the larger, V that the signed difference does
/// not fit.
#[verifier::rlimit(40)]
pub proof fn subtraction_subtracts(sr: u16, a: u32, b: u32, size: Size, update_x: bool)
    ensures
        ({
            let (sr1, r) = sub_spec(sr, a, b, size, update_x);
            let under = number(a, size) < number(b, size);
            &&& r == (number(a, size) - number(b, size)) % span(size)
            &&& codes(sr1) == described(
                r,
                size,
                Codes {
                    x: if update_x { under } else { codes(sr).x },
                    v: !fits(signed_number(a, size) - signed_number(b, size), size),
                    c: under,
                    ..codes(sr)
                },
            )
            &&& same_system(sr1, sr)
        }),
{
    reveal(sub_spec);
    sizes_agree(a, size);
    sizes_agree(b, size);
    let d = number(a, size) - number(b, size);
    brought_back(d, size);
    sum_codes(
        sr,
        wrapped(d, size),
        size,
        overflows(signed(a, size) - signed(b, size), size),
        number(b, size) > number(a, size),
        update_x,
    );
}

/// Whether the condition numbered `k` holds.
pub open spec fn holds(sr: u16, k: int) -> bool {
    StatusRegister(sr).evaluate(Condition::from_bits(k as u16))
}

/// The sixteen conditions by number: always, never, then six pairs on C and Z, C,
/// Z, V, N, and N against V, and the pair on N, V and Z.
pub proof fn conditions_by_number(sr: u16, k: int)
    requires
        0 <= k < 16,
    ensures
        ({
            let c = codes(sr);
            let base = match (k / 2) as u8 {
                0 => true,
                1 => !c.c && !c.z,
                2 => !c.c,
                3 => !c.z,
                4 => !c.v,
                5 => !c.n,
                6 => c.n == c.v,
                _ => !c.z && c.n == c.v,
            };
            holds(sr, k) == (base != (k % 2 == 1))
        }),
{
    crate::bits::low_bits(k as u32);
}

/// After a comparison, which is a subtraction without a result, the conditions
/// tell how the operands compare, as numbers without sign and as signed ones.
pub proof fn conditions_compare(sr: u16, a: u32, b: u32, size: Size, update_x: bool)
    ensures
        ({
            let s = sub_spec(sr, a, b, size, update_x).0;
            let (ua, ub) = (number(a, size), number(b, size));
            let (sa, sb) = (signed_number(a, size), signed_number(b, size));
            &&& holds(s, 2) == (ua > ub)
            &&& holds(s, 3) == (ua <= ub)
            &&& holds(s, 4) == (ua >= ub)
            &&& holds(s, 5) == (ua < ub)
            &&& holds(s, 6) == (ua != ub)
            &&& holds(s, 7) == (ua == ub)
            &&& holds(s, 12) == (sa >= sb)
            &&& holds(s, 13) == (sa < sb)
            &&& holds(s, 14) == (sa > sb)
            &&& holds(s, 15) == (sa <= sb)
        }),
{
    let s = sub_spec(sr, a, b, size, update_x).0;
    subtraction_subtracts(sr, a, b, size, update_x);
    sizes_agree(a, size);
    sizes_agree(b, size);
    brought_back(number(a, size) - number(b, size), size);
    conditions_by_number(s, 2);
    conditions_by_number(s, 3);
    conditions_by_number(s, 4);
    conditions_by_number(s, 5);
    conditions_by_number(s, 6);
    conditions_by_number(s, 7);
    conditions_by_number(s, 12);
    conditions_by_number(s, 13);
    conditions_by_number(s, 14);
    conditions_by_number(s, 15);
}

/// Extended addition and subtraction take X along and set it; Z is only ever
/// cleared.
#[verifier::rlimit(40)]
pub proof fn extended_sums_take_x_along(sr: u16, dst: u32, src: u32, x: u32, size: Size)
    requires
        x <= 1,
    ensures
        ({
            let (sr1, r) = addx_spec(sr, dst, src, x, size);
            let sum = number(dst, size) + number(src, size) + x;
            &&& r == sum % span(size)
            &&& codes(sr1) == (Codes {
                x: sum >= span(size),
                n: r >= span(size) / 2,
                z: codes(sr).z && r == 0,
                v: !fits(signed_number(dst, size) + signed_number(src, size) + x, size),
                c: sum >= span(size),
            })
            &&& same_system(sr1, sr)
        }),
        ({
            let (sr1, r) = subx_spec(sr, dst, src, x, size);
            let d = number(dst, size) - number(src, size) - x;
            &&& r == d % span(size)
            &&& codes(sr1) == (Codes {
                x: d < 0,
                n: r >= span(size) / 2,
                z: codes(sr).z && r == 0,
                v: !fits(signed_number(dst, size) - signed_number(src, size) - x, size),
                c: d < 0,
            })
            &&& same_system(sr1, sr)
        }),
{
    reveal(addx_spec);
    reveal(subx_spec);
    sizes_agree(dst, size);
    sizes_agree(src, size);
    let sum = number(dst, size) + number(src, size) + x;
    let d = number(dst, size) - number(src, size) - x;
    brought_back(sum, size);
    brought_back(d, size);
    let (r, q) = (wrapped(sum, size), wrapped(d, size));
    sizes_agree(r, size);
    sizes_agree(q, size);
    top_bit(r, size);
    top_bit(q, size);
    addx_flags_are_arithmetic(dst, src, x, size);
    subx_overflow_is_arithmetic(dst, src, x, size);
    extended_codes(
        sr,
        negative(r, size),
        r == 0,
        overflows(signed(dst, size) + signed(src, size) + x, size),
        sum >= span(size),
    );
    extended_codes(
        sr,
        negative(q, size),
        q == 0,
        overflows(signed(dst, size) - signed(src, size) - x, size),
        d < 0,
    );
}

proof fn extended_codes(sr: u16, n: bool, zero: bool, v: bool, carry: bool)
    ensures
        codes(sr_extended(sr, n, zero, v, carry)) == (Codes {
            x: carry,
            n,
            z: codes(sr).z && zero,
            v,
            c: carry,
        }),
        same_system(sr_extended(sr, n, zero, v, carry), sr),
{
    one_code_is_set(sr, 8, n);
    let a = sr_set(sr, 8, n);
    one_code_is_set(a, 4, false);
    let b = sticky_z(a, zero);
    one_code_is_set(b, 2, v);
    let c = sr_set(b, 2, v);
    one_code_is_set(c, 1, carry);
    one_code_is_set(sr_set(c, 1, carry), 0x10, carry);
}

proof fn logic_codes(sr: u16, r: u32, size: Size)
    requires
        r < span(size),
    ensures
        codes(sr_logic(sr, r, size)) == described(
            r,
            size,
            Codes { v: false, c: false, ..codes(sr) },
        ),
        same_system(sr_logic(sr, r, size), sr),
{
    sizes_agree(r, size);
    one_code_is_set(sr, 2, false);
    let a = sr_set(sr, 2, false);
    one_code_is_set(a, 1, false);
    sign_and_zero_are_set(sr_set(a, 1, false), r, size);
}

/// After a move or a logic operation N and Z describe the value, V and C are clear,
/// X stays.
pub proof fn logic_sets_codes(sr: u16, r: u32, size: Size)
    requires
        r < span(size),
    ensures
        codes(sr_logic(sr, r, size)) == described(
            r,
            size,
            Codes { v: false, c: false, ..codes(sr) },
        ),
        same_system(sr_logic(sr, r, size), sr),
{
    logic_codes(sr, r, size);
}

/// AND, OR, EOR, NOT and CLR combine their operands bit by bit, within the size;
/// N and Z describe the result, V and C are clear, X stays.
#[verifier::rlimit(40)]
pub proof fn logic_is_bit_by_bit(sr: u16, size: Size, v: u32, x: u32)
    requires
        v < span(size),
    ensures
        ({
            let after = |r: u32| described(r, size, Codes { v: false, c: false, ..codes(sr) });
            let (s1, r1) = rmw_spec(Rmw::And(x), sr, size, v);
            let (s2, r2) = rmw_spec(Rmw::Or(x), sr, size, v);
            let (s3, r3) = rmw_spec(Rmw::Eor(x), sr, size, v);
            let (s4, r4) = rmw_spec(Rmw::Not, sr, size, v);
            let (s5, r5) = rmw_spec(Rmw::Clr, sr, size, v);
            &&& r1 == number(v & x, size) && codes(s1) == after(r1) && same_system(s1, sr)
            &&& r2 == number(v | x, size) && codes(s2) == after(r2) && same_system(s2, sr)
            &&& r3 == number(v ^ x, size) && codes(s3) == after(r3) && same_system(s3, sr)
            &&& r4 == span(size) - 1 - v && codes(s4) == after(r4) && same_system(s4, sr)
            &&& r5 == 0 && codes(s5) == after(r5) && same_system(s5, sr)
        }),
{
    reveal(rmw_spec);
    top_bit(v & x, size);
    top_bit(v | x, size);
    top_bit(v ^ x, size);
    top_bit(!v, size);
    sizes_agree(v & x, size);
    sizes_agree(v | x, size);
    sizes_agree(v ^ x, size);
    sizes_agree(!v, size);
    crate::bits::long_word_bits(v, 0, 0, 0);
    logic_codes(sr, v & x & size.mask(), size);
    logic_codes(sr, (v | x) & size.mask(), size);
    logic_codes(sr, (v ^ x) & size.mask(), size);
    logic_codes(sr, !v & size.mask(), size);
    logic_codes(sr, 0, size);
}

/// NEG subtracts from zero; NEGX takes X along.
pub proof fn negation_subtracts_from_zero(sr: u16, size: Size, v: u32)
    requires
        v < span(size),
    ensures
        rmw_spec(Rmw::Neg, sr, size, v).1 == sub_spec(sr, 0, v, size, true).1,
        codes(rmw_spec(Rmw::Neg, sr, size, v).0) == codes(sub_spec(sr, 0, v, size, true).0),
        same_system(rmw_spec(Rmw::Neg, sr, size, v).0, sr),
        ({
            let x = if codes(sr).x { 1u32 } else { 0u32 };
            let (s, r) = rmw_spec(Rmw::Negx, sr, size, v);
            let (t, q) = subx_spec(sr, 0, v, x, size);
            r == q && codes(s) == codes(t) && same_system(s, sr)
        }),
{
    negated(sr, size, v);
    negated_with_x(sr, size, v);
}

#[verifier::rlimit(40)]
proof fn negated(sr: u16, size: Size, v: u32)
    requires
        v < span(size),
    ensures
        rmw_spec(Rmw::Neg, sr, size, v).1 == sub_spec(sr, 0, v, size, true).1,
        codes(rmw_spec(Rmw::Neg, sr, size, v).0) == codes(sub_spec(sr, 0, v, size, true).0),
        same_system(rmw_spec(Rmw::Neg, sr, size, v).0, sr),
{
    reveal(rmw_spec);
    subtraction_subtracts(sr, 0, v, size, true);
    sizes_agree(v, size);
    sizes_agree(0, size);
    brought_back(0 - v, size);
    let w = 0u32.wrapping_sub(v);
    let r = w & size.mask();
    top_bit(w, size);
    sizes_agree(w, size);
    sizes_agree(r, size);
    assert(r == (0 - v) % span(size)) by {
        match size {
            Size::Byte => {},
            Size::Word => {},
            Size::Long => {},
        }
    }
    sign_and_zero_are_set(sr, r, size);
    let a = sr_nz(sr, r, size);
    one_code_is_set(a, 2, v == size.sign_bit());
    let b = sr_set(a, 2, v == size.sign_bit());
    one_code_is_set(b, 1, v != 0);
    one_code_is_set(sr_set(b, 1, v != 0), 0x10, v != 0);
}

proof fn taken_from_zero(v: u32, x: u32, size: Size)
    requires
        v < span(size),
        x <= 1,
    ensures
        number(0u32.wrapping_sub(v).wrapping_sub(x), size) == (0 - v - x) % span(size),
{
    let w = 0u32.wrapping_sub(v).wrapping_sub(x);
    if v + x == 0 {
        assert(w == 0);
    } else {
        assert(w == 0x1_0000_0000 - v - x);
    }
    match size {
        Size::Byte => {},
        Size::Word => {},
        Size::Long => {},
    }
}

#[verifier::rlimit(30)]
proof fn negated_with_x(sr: u16, size: Size, v: u32)
    requires
        v < span(size),
    ensures
        ({
            let x = if codes(sr).x { 1u32 } else { 0u32 };
            let (s, r) = rmw_spec(Rmw::Negx, sr, size, v);
            let (t, q) = subx_spec(sr, 0, v, x, size);
            r == q && codes(s) == codes(t) && same_system(s, sr)
        }),
{
    reveal(rmw_spec);
    let x = if codes(sr).x {
        1u32
    } else {
        0u32
    };
    extended_sums_take_x_along(sr, 0, v, x, size);
    sizes_agree(v, size);
    sizes_agree(0, size);
    brought_back(0 - v - x, size);
    let w = 0u32.wrapping_sub(v).wrapping_sub(x);
    let r = w & size.mask();
    top_bit(w, size);
    top_bit(v, size);
    top_bit(r, size);
    sizes_agree(w, size);
    sizes_agree(r, size);
    taken_from_zero(v, x, size);
    extended_codes(
        sr,
        negative(r, size),
        r == 0,
        negative(v, size) && negative(r, size),
        v != 0 || x != 0,
    );
}

/// The bit instructions report in Z that the bit was clear, and nothing else;
/// then they turn it over, clear it or set it.
#[verifier::rlimit(40)]
pub proof fn bits_are_tested_then_changed(sr: u16, size: Size, v: u32, k: u32)
    requires
        k < 32,
    ensures
        ({
            let m = 1u32 << k;
            let was = (v as int / pow2(k as nat) as int) % 2 == 1;
            let (s1, r1) = rmw_spec(Rmw::BitChange(m), sr, size, v);
            let (s2, r2) = rmw_spec(Rmw::BitClear(m), sr, size, v);
            let (s3, r3) = rmw_spec(Rmw::BitSet(m), sr, size, v);
            let p = pow2(k as nat) as int;
            &&& r1 == (if was { v - p } else { v + p })
            &&& r2 == (if was { v - p } else { v as int })
            &&& r3 == (if was { v as int } else { v + p })
            &&& s1 == s2 && s2 == s3 && same_system(s1, sr)
            &&& codes(s1) == (Codes { z: !was, ..codes(sr) })
        }),
{
    reveal(rmw_spec);
    let m = 1u32 << k;
    crate::bits::long_word_bits(v, k, 0, 0);
    one_code_is_set(sr, 4, v & m == 0);
    vstd::bits::lemma_u32_pow2_no_overflow(k as nat);
    vstd::bits::lemma_u32_shl_is_mul(1, k);
    vstd::bits::lemma_u32_shr_is_div(v, k);
}

/// The product of two words is exact, with or without signs.
pub proof fn products_are_exact(a: u32, b: u32)
    ensures
        product(a, b, false) == number(a, Size::Word) * number(b, Size::Word),
        signed_number(product(a, b, true), Size::Long) == signed_number(a, Size::Word)
            * signed_number(b, Size::Word),
{
    sizes_agree(a, Size::Word);
    sizes_agree(b, Size::Word);
    let (x, y) = (number(a, Size::Word), number(b, Size::Word));
    assert(0 <= x * y <= 0xFFFF_FFFF) by (nonlinear_arith)
        requires
            0 <= x <= 0xFFFF,
            0 <= y <= 0xFFFF,
    ;
    let (s, t) = (signed_number(a, Size::Word), signed_number(b, Size::Word));
    assert(-0x4000_0000 <= s * t <= 0x4000_0000) by (nonlinear_arith)
        requires
            -0x8000 <= s <= 0x7FFF,
            -0x8000 <= t <= 0x7FFF,
    ;
    brought_back(s * t, Size::Long);
    sizes_agree(product(a, b, true), Size::Long);
}

/// Division is exact: the quotient in the low word and the remainder in the high
/// one are the numbers of which the divisor times the first and the second make
/// the dividend, the remainder being smaller than the divisor and of the
/// dividend's sign. There is no result if the quotient does not fit a word.
#[verifier::rlimit(40)]
pub proof fn divisions_are_exact(d: u32, v: u32, is_signed: bool, q: int, r: int)
    requires
        ({
            let a = if is_signed { signed_number(d, Size::Long) } else { d as int };
            let b = if is_signed {
                signed_number(v, Size::Word)
            } else {
                number(v, Size::Word)
            };
            &&& b != 0
            &&& a == q * b + r
            &&& -abs_of(b) < r < abs_of(b)
            &&& a >= 0 ==> r >= 0
            &&& a < 0 ==> r <= 0
        }),
    ensures
        ({
            let fit = if is_signed { -0x8000 <= q < 0x8000 } else { q < 0x1_0000 };
            division(d, v, is_signed) == if fit {
                Some((0x1_0000 * (r % 0x1_0000) + q % 0x1_0000) as u32)
            } else {
                None
            }
        }),
{
    sizes_agree(d, Size::Long);
    sizes_agree(v, Size::Word);
    let a = dividend_of(d, is_signed);
    let b = divisor_of(v, is_signed);
    let (aa, bb) = (abs_of(a), abs_of(b));
    assert(a == if is_signed { signed_number(d, Size::Long) } else { d as int });
    assert(b == if is_signed { signed_number(v, Size::Word) } else { number(v, Size::Word) });
    let qq = if (a < 0) == (b < 0) {
        q
    } else {
        -q
    };
    let rr = if a < 0 {
        -r
    } else {
        r
    };
    assert(aa == qq * bb + rr) by (nonlinear_arith)
        requires
            a == q * b + r,
            aa == (if a < 0 { -a } else { a }),
            bb == (if b < 0 { -b } else { b }),
            qq == (if (a < 0) == (b < 0) { q } else { -q }),
            rr == (if a < 0 { -r } else { r }),
    ;
    assert(0 <= rr < bb);
    vstd::arithmetic::div_mod::lemma_fundamental_div_mod_converse(aa, bb, qq, rr);
    assert(quotient(a, b) == q);
    assert(remainder(a, b) == r);
    let (h, l) = (wrapped(r, Size::Word) as u16, wrapped(q, Size::Word) as u16);
    assert(wrapped(r, Size::Word) == r % 0x1_0000);
    assert(wrapped(q, Size::Word) == q % 0x1_0000);
    crate::bits::long_word_bits(0, 0, h, l);
}

pub open spec fn abs_of(x: int) -> int {
    if x < 0 {
        -x
    } else {
        x
    }
}

/// Sign extension keeps the signed number.
#[verifier::rlimit(40)]
pub proof fn sign_extension_keeps_the_number(v: u32)
    ensures
        signed_number(sext16(v), Size::Long) == signed_number(v, Size::Word),
        signed_number(sext8(v), Size::Long) == signed_number(v, Size::Byte),
{
    crate::bits::long_word_bits(v, 0, 0, 0);
    sizes_agree(v, Size::Word);
    sizes_agree(v, Size::Byte);
}

/// CHK traps exactly when its operand, a signed word, is negative or above the
/// bound; N tells that it is negative.
pub proof fn chk_checks_the_bounds(sr: u16, value: u32, bound: u32)
    ensures
        ({
            let (s, traps) = chk_result(sr, value, bound);
            let w = signed_number(value, Size::Word);
            &&& traps == (w < 0 || w > signed_number(bound, Size::Word))
            &&& codes(s) == (Codes {
                n: w < 0,
                z: false,
                v: false,
                c: false,
                ..codes(sr)
            })
            &&& same_system(s, sr)
        }),
{
    sizes_agree(value, Size::Word);
    sizes_agree(bound, Size::Word);
    one_code_is_set(sr, 4, false);
    let a = sr_set(sr, 4, false);
    one_code_is_set(a, 2, false);
    let b = sr_set(a, 2, false);
    one_code_is_set(b, 1, false);
    one_code_is_set(sr_set(b, 1, false), 8, signed(value, Size::Word) < 0);
}

}
