//! Shifts and rotations as arithmetic.
use vstd::prelude::*;
use vstd::arithmetic::power2::pow2;
use crate::cpu::m68k::arith::{
    negative, overflows, shift_spec, shift_step, shift_steps, signed, unsigned, ShiftState,
};
use crate::cpu::m68k::ccr::{codes, one_code_is_set, same_system, sign_and_zero_are_set, Codes};
use crate::cpu::m68k::cpu::{sr_nz, sr_set, Size, StatusRegister};

verus! {

/// A bit as a number.
pub open spec fn bit(b: bool) -> int {
    if b {
        1
    } else {
        0
    }
}

/// What comes in at the free end, by kind: the sign of a number shifted to the
/// right, nothing, X, or the bit that goes out.
spec fn bit_in(s: ShiftState, size: Size, kind: u8, left: bool) -> bool {
    if kind == 0 {
        !left && negative(s.v, size)
    } else if kind == 1 {
        false
    } else if kind == 2 {
        s.x
    } else if left {
        negative(s.v, size)
    } else {
        s.v % 2 == 1
    }
}

/// One step in numbers.
proof fn one_step(s: ShiftState, size: Size, kind: u8, left: bool)
    requires
        s.v < size.modulus(),
        kind < 4,
    ensures
        ({
            let t = shift_step(s, size, kind, left);
            let m = size.modulus() as int;
            let f = bit(bit_in(s, size, kind, left));
            let out = if left {
                s.v >= m / 2
            } else {
                s.v % 2 == 1
            };
            &&& t.v < m
            &&& left ==> t.v == 2 * s.v + f - m * bit(out)
            &&& !left ==> t.v == s.v / 2 + f * (m / 2)
            &&& t.c == out
            &&& t.x == if kind == 3 { s.x } else { out }
            &&& t.changed == (s.changed || (kind == 0 && left && (s.v >= m / 2) != (t.v >= m / 2)))
            &&& negative(s.v, size) == (s.v >= m / 2)
        }),
{
    let t = shift_step(s, size, kind, left);
    crate::bits::shifted_by_one(s.v, t.v);
    crate::bits::sign_bits(s.v);
    match size {
        Size::Byte => {
            vstd::arithmetic::div_mod::lemma_small_mod(s.v as nat, 0x100);
        },
        Size::Word => {
            vstd::arithmetic::div_mod::lemma_small_mod(s.v as nat, 0x1_0000);
        },
        Size::Long => {
            vstd::arithmetic::div_mod::lemma_small_mod(s.v as nat, 0x1_0000_0000);
        },
    }
    crate::bits::sign_bits(t.v);
}

/// The state a shift starts in.
spec fn start(sr: u16, v: u32) -> ShiftState {
    ShiftState { v, c: false, x: sr & StatusRegister::X != 0, changed: false }
}

/// How the flags of a shift come from its steps.
#[verifier::rlimit(40)]
proof fn flags_from_steps(sr: u16, v: u32, n: u32, size: Size, kind: u8, left: bool)
    requires
        v < size.modulus(),
        kind < 4,
    ensures
        ({
            let (sr1, r) = shift_spec(sr, v, n, size, kind, left);
            let end = shift_steps(start(sr, v), n as nat, size, kind, left);
            &&& r == end.v
            &&& r < size.modulus()
            &&& same_system(sr1, sr)
            &&& codes(sr1).n == (r >= size.modulus() as int / 2)
            &&& codes(sr1).z == (r == 0)
            &&& codes(sr1).v == (kind == 0 && end.changed)
            &&& codes(sr1).c == (if n == 0 { kind == 2 && codes(sr).x } else { end.c })
            &&& codes(sr1).x == (if kind == 3 { codes(sr).x } else { end.x })
        }),
{
    reveal(shift_spec);
    let s0 = start(sr, v);
    steps_stay_small(s0, n as nat, size, kind, left);
    let end = shift_steps(s0, n as nat, size, kind, left);
    sign_and_zero_are_set(sr, end.v, size);
    let a = sr_nz(sr, end.v, size);
    let c = if n == 0 {
        kind == 2 && codes(sr).x
    } else {
        end.c
    };
    one_code_is_set(a, 1, c);
    let b = sr_set(a, 1, c);
    one_code_is_set(b, 0x10, end.x);
    one_code_is_set(b, 2, false);
    let d = if kind != 3 && n > 0 {
        sr_set(b, 0x10, end.x)
    } else {
        b
    };
    one_code_is_set(d, 2, end.changed && kind == 0);
    small_operand(end.v, size);
}

proof fn small_operand(v: u32, size: Size)
    requires
        v < size.modulus(),
    ensures
        unsigned(v, size) == v,
        negative(v, size) == (v >= size.modulus() as int / 2),
{
    vstd::arithmetic::div_mod::lemma_small_mod(v as nat, size.modulus() as nat);
}

proof fn steps_stay_small(s: ShiftState, n: nat, size: Size, kind: u8, left: bool)
    requires
        s.v < size.modulus(),
        kind < 4,
    ensures
        shift_steps(s, n, size, kind, left).v < size.modulus(),
    decreases n,
{
    if n > 0 {
        steps_stay_small(s, (n - 1) as nat, size, kind, left);
        one_step(shift_steps(s, (n - 1) as nat, size, kind, left), size, kind, left);
    }
}

proof fn one_more_power(n: nat)
    requires
        n > 0,
    ensures
        pow2(n) == 2 * pow2((n - 1) as nat),
        pow2((n - 1) as nat) >= 1,
{
    vstd::arithmetic::power2::lemma_pow2_unfold(n);
    vstd::arithmetic::power2::lemma_pow2_pos((n - 1) as nat);
}

proof fn times_one(v: int)
    ensures
        pow2(0) == 1,
        v * pow2(0) == v,
{
    vstd::arithmetic::power2::lemma2_to64();
    assert(v * 1 == v);
}

/// Halving again is dividing by the next power.
proof fn halved_again(w: int, n: nat)
    requires
        n > 0,
    ensures
        (w / pow2((n - 1) as nat) as int) / 2 == w / pow2(n) as int,
{
    one_more_power(n);
    let p = pow2((n - 1) as nat) as int;
    let (q, r) = (w / p, w % p);
    vstd::arithmetic::div_mod::lemma_fundamental_div_mod(w, p);
    vstd::arithmetic::div_mod::lemma_mod_bound(w, p);
    assert(w == (2 * p) * (q / 2) + (p * (q % 2) + r)) by (nonlinear_arith)
        requires
            w == p * q + r,
            q == 2 * (q / 2) + q % 2,
    ;
    assert(0 <= p * (q % 2) + r < 2 * p) by (nonlinear_arith)
        requires
            0 <= r < p,
            0 <= q % 2 <= 1,
    ;
    vstd::arithmetic::div_mod::lemma_fundamental_div_mod_converse(
        w,
        2 * p,
        q / 2,
        p * (q % 2) + r,
    );
}

proof fn logical_right_steps(s: ShiftState, n: nat, size: Size)
    requires
        s.v < size.modulus(),
    ensures
        ({
            let t = shift_steps(s, n, size, 1, false);
            &&& t.v == s.v as int / pow2(n) as int
            &&& n > 0 ==> t.c == ((s.v as int / pow2((n - 1) as nat) as int) % 2 == 1)
            &&& t.x == (if n == 0 { s.x } else { t.c })
        }),
    decreases n,
{
    if n == 0 {
        vstd::arithmetic::power2::lemma2_to64();
    } else {
        let k = (n - 1) as nat;
        logical_right_steps(s, k, size);
        steps_stay_small(s, k, size, 1, false);
        one_step(shift_steps(s, k, size, 1, false), size, 1, false);
        halved_again(s.v as int, n);
    }
}

/// A logical shift to the right divides by a power of two: zeros come in at the
/// top. The last bit that goes out goes to C and X; a shift by nothing clears C
/// and leaves X.
pub proof fn logical_shift_right_divides(sr: u16, v: u32, n: u32, size: Size)
    requires
        v < size.modulus(),
    ensures
        ({
            let (sr1, r) = shift_spec(sr, v, n, size, 1, false);
            let last = (v as int / pow2((n - 1) as nat) as int) % 2 == 1;
            &&& r == v as int / pow2(n as nat) as int
            &&& r < size.modulus()
            &&& same_system(sr1, sr)
            &&& codes(sr1) == (Codes {
                x: if n == 0 { codes(sr).x } else { last },
                n: r >= size.modulus() as int / 2,
                z: r == 0,
                v: false,
                c: n > 0 && last,
            })
        }),
{
    flags_from_steps(sr, v, n, size, 1, false);
    logical_right_steps(start(sr, v), n as nat, size);
}

/// Doubling within a size is multiplying by the next power within it.
proof fn doubled_again(v: int, n: nat, m: int)
    requires
        n > 0,
        m > 0,
        m % 2 == 0,
        v >= 0,
    ensures
        ({
            let y = (v * pow2((n - 1) as nat)) % m;
            &&& (2 * y) % m == (v * pow2(n)) % m
            &&& ((v * pow2(n)) / m) % 2 == (if y >= m / 2 { 1int } else { 0 })
        }),
{
    one_more_power(n);
    let p = pow2((n - 1) as nat) as int;
    let z = v * p;
    let (q, y) = (z / m, z % m);
    assert(v * pow2(n) == 2 * z) by (nonlinear_arith)
        requires
            pow2(n) == 2 * p,
            z == v * p,
    ;
    vstd::arithmetic::div_mod::lemma_fundamental_div_mod(z, m);
    vstd::arithmetic::div_mod::lemma_mod_bound(z, m);
    let over = if y >= m / 2 {
        1int
    } else {
        0
    };
    assert(2 * z == m * (2 * q + over) + (2 * y - m * over)) by (nonlinear_arith)
        requires
            z == m * q + y,
    ;
    assert(0 <= 2 * y - m * over < m) by (nonlinear_arith)
        requires
            0 <= y < m,
            m % 2 == 0,
            over == (if y >= m / 2 { 1int } else { 0 }),
    ;
    vstd::arithmetic::div_mod::lemma_fundamental_div_mod_converse(
        2 * z,
        m,
        2 * q + over,
        2 * y - m * over,
    );
    assert(2 * y == m * over + (2 * y - m * over));
    vstd::arithmetic::div_mod::lemma_fundamental_div_mod_converse(
        2 * y,
        m,
        over,
        2 * y - m * over,
    );
}

proof fn left_steps(s: ShiftState, n: nat, size: Size, kind: u8)
    requires
        s.v < size.modulus(),
        kind < 2,
    ensures
        ({
            let t = shift_steps(s, n, size, kind, true);
            let m = size.modulus() as int;
            &&& t.v == (s.v * pow2(n)) % m
            &&& n > 0 ==> t.c == (((s.v * pow2(n)) / m) % 2 == 1)
            &&& t.x == (if n == 0 { s.x } else { t.c })
        }),
    decreases n,
{
    let m = size.modulus() as int;
    if n == 0 {
        vstd::arithmetic::power2::lemma2_to64();
        vstd::arithmetic::div_mod::lemma_small_mod(s.v as nat, m as nat);
        times_one(s.v as int);
    } else {
        let k = (n - 1) as nat;
        left_steps(s, k, size, kind);
        steps_stay_small(s, k, size, kind, true);
        let u = shift_steps(s, k, size, kind, true);
        one_step(u, size, kind, true);
        doubled_again(s.v as int, n, m);
        let over = bit(u.v >= m / 2);
        assert(2 * u.v == m * over + shift_step(u, size, kind, true).v);
        vstd::arithmetic::div_mod::lemma_fundamental_div_mod_converse(
            2 * u.v,
            m,
            over,
            shift_step(u, size, kind, true).v as int,
        );
    }
}

/// A logical shift to the left multiplies by a power of two within the size:
/// zeros come in at the bottom. The last bit that goes out goes to C and X.
pub proof fn logical_shift_left_multiplies(sr: u16, v: u32, n: u32, size: Size)
    requires
        v < size.modulus(),
    ensures
        ({
            let (sr1, r) = shift_spec(sr, v, n, size, 1, true);
            let m = size.modulus() as int;
            let last = ((v * pow2(n as nat)) / m) % 2 == 1;
            &&& r == (v * pow2(n as nat)) % m
            &&& r < m
            &&& same_system(sr1, sr)
            &&& codes(sr1) == (Codes {
                x: if n == 0 { codes(sr).x } else { last },
                n: r >= m / 2,
                z: r == 0,
                v: false,
                c: n > 0 && last,
            })
        }),
{
    flags_from_steps(sr, v, n, size, 1, true);
    left_steps(start(sr, v), n as nat, size, 1);
}

/// A negative or positive number that has left the range stays out when doubled.
proof fn changed_steps(s: ShiftState, n: nat, size: Size)
    requires
        s.v < size.modulus(),
        !s.changed,
    ensures
        ({
            let t = shift_steps(s, n, size, 0, true);
            let w = signed(s.v, size) * pow2(n);
            &&& t.changed == overflows(w, size)
            &&& !t.changed ==> signed(t.v, size) == w
        }),
    decreases n,
{
    let m = size.modulus() as int;
    let w0 = signed(s.v, size);
    small_operand(s.v, size);
    if n == 0 {
        vstd::arithmetic::power2::lemma2_to64();
        times_one(w0);
    } else {
        let k = (n - 1) as nat;
        changed_steps(s, k, size);
        steps_stay_small(s, k, size, 0, true);
        let u = shift_steps(s, k, size, 0, true);
        one_step(u, size, 0, true);
        one_more_power(n);
        let p = pow2(k) as int;
        assert(w0 * pow2(n) == 2 * (w0 * p)) by (nonlinear_arith)
            requires
                pow2(n) == 2 * p,
        ;
        let t = shift_step(u, size, 0, true);
        small_operand(u.v, size);
        small_operand(t.v, size);
    }
}

/// An arithmetic shift to the left multiplies like a logical one, and V tells
/// whether the number multiplied, read as signed, is too large for the size.
pub proof fn arithmetic_shift_left_multiplies(sr: u16, v: u32, n: u32, size: Size)
    requires
        v < size.modulus(),
    ensures
        ({
            let (sr1, r) = shift_spec(sr, v, n, size, 0, true);
            let m = size.modulus() as int;
            let last = ((v * pow2(n as nat)) / m) % 2 == 1;
            let w = (if v >= m / 2 { v - m } else { v as int }) * pow2(n as nat);
            &&& r == (v * pow2(n as nat)) % m
            &&& r < m
            &&& same_system(sr1, sr)
            &&& codes(sr1) == (Codes {
                x: if n == 0 { codes(sr).x } else { last },
                n: r >= m / 2,
                z: r == 0,
                v: !(-(m / 2) <= w < m / 2),
                c: n > 0 && last,
            })
        }),
{
    flags_from_steps(sr, v, n, size, 0, true);
    left_steps(start(sr, v), n as nat, size, 0);
    changed_steps(start(sr, v), n as nat, size);
    small_operand(v, size);
}

proof fn arithmetic_right_steps(s: ShiftState, n: nat, size: Size)
    requires
        s.v < size.modulus(),
    ensures
        ({
            let t = shift_steps(s, n, size, 0, false);
            let w = signed(s.v, size);
            &&& signed(t.v, size) == w / pow2(n) as int
            &&& n > 0 ==> t.c == ((w / pow2((n - 1) as nat) as int) % 2 == 1)
            &&& t.x == (if n == 0 { s.x } else { t.c })
            &&& t.changed == s.changed
        }),
    decreases n,
{
    if n == 0 {
        vstd::arithmetic::power2::lemma2_to64();
    } else {
        let k = (n - 1) as nat;
        arithmetic_right_steps(s, k, size);
        steps_stay_small(s, k, size, 0, false);
        let u = shift_steps(s, k, size, 0, false);
        one_step(u, size, 0, false);
        let t = shift_step(u, size, 0, false);
        small_operand(u.v, size);
        small_operand(t.v, size);
        halved_again(signed(s.v, size), n);
    }
}

/// An arithmetic shift to the right divides a signed number by a power of two,
/// rounding down. The last bit that goes out goes to C and X.
pub proof fn arithmetic_shift_right_divides(sr: u16, v: u32, n: u32, size: Size)
    requires
        v < size.modulus(),
    ensures
        ({
            let (sr1, r) = shift_spec(sr, v, n, size, 0, false);
            let m = size.modulus() as int;
            let w = if v >= m / 2 { v - m } else { v as int };
            let last = (w / pow2((n - 1) as nat) as int) % 2 == 1;
            &&& (if r >= m / 2 { r - m } else { r as int }) == w / pow2(n as nat) as int
            &&& 0 <= r < m
            &&& same_system(sr1, sr)
            &&& codes(sr1) == (Codes {
                x: if n == 0 { codes(sr).x } else { last },
                n: r >= m / 2,
                z: r == 0,
                v: false,
                c: n > 0 && last,
            })
        }),
{
    flags_from_steps(sr, v, n, size, 0, false);
    arithmetic_right_steps(start(sr, v), n as nat, size);
    small_operand(v, size);
    small_operand(shift_spec(sr, v, n, size, 0, false).1, size);
}

/// Multiplying again by two, modulo `q`, whatever multiple of `q` is taken away.
proof fn doubled_around(a: int, b: int, v: int, n: nat, q: int, k: int)
    requires
        n > 0,
        q > 0,
        a % q == (v * pow2((n - 1) as nat)) % q,
        b == 2 * a - q * k,
    ensures
        b % q == (v * pow2(n)) % q,
{
    one_more_power(n);
    let p = pow2((n - 1) as nat) as int;
    assert(v * pow2(n) == 2 * (v * p)) by (nonlinear_arith)
        requires
            pow2(n) == 2 * p,
    ;
    vstd::arithmetic::div_mod::lemma_mul_mod_noop_right(2, a, q);
    vstd::arithmetic::div_mod::lemma_mul_mod_noop_right(2, v * p, q);
    assert(q * k == k * q) by (nonlinear_arith);
    assert(2 * a == q * k + b);
    vstd::arithmetic::div_mod::lemma_mod_multiples_vanish(k, b, q);
}

/// The number that goes round: the operand alone, or with X above it.
pub open spec fn ring(v: u32, x: bool, size: Size, through_x: bool) -> int {
    v + if through_x {
        size.modulus() * bit(x)
    } else {
        0
    }
}

/// How many bits go round, as the largest number they hold.
pub open spec fn ring_top(size: Size, through_x: bool) -> int {
    if through_x {
        2 * size.modulus() - 1
    } else {
        size.modulus() - 1
    }
}

/// One step to the left doubles what goes round, modulo all ones; one to the
/// right is undone by that.
#[verifier::rlimit(40)]
proof fn one_turn(s: ShiftState, size: Size, through_x: bool, left: bool)
    requires
        s.v < size.modulus(),
    ensures
        ({
            let kind = if through_x { 2u8 } else { 3u8 };
            let t = shift_step(s, size, kind, left);
            let q = ring_top(size, through_x);
            let a = ring(s.v, s.x, size, through_x);
            let b = ring(t.v, t.x, size, through_x);
            &&& 0 <= a <= q
            &&& 0 <= b <= q
            &&& left ==> b == 2 * a - q * bit(2 * a > q)
            &&& !left ==> a == 2 * b - q * bit(2 * b > q)
            &&& t.v < size.modulus()
            &&& a == 0 <==> b == 0
            &&& !through_x ==> t.x == s.x
            &&& through_x ==> t.c == t.x
            &&& !through_x && left ==> t.c == (t.v % 2 == 1)
            &&& !through_x && !left ==> t.c == (t.v >= size.modulus() as int / 2)
        }),
{
    let kind = if through_x {
        2u8
    } else {
        3u8
    };
    one_step(s, size, kind, left);
    if !left {
        let t = shift_step(s, size, kind, left);
        let q = ring_top(size, through_x);
        let a = ring(s.v, s.x, size, through_x);
        let b = ring(t.v, t.x, size, through_x);
        let h = size.modulus() as int / 2;
        assert(size.modulus() == 2 * h);
        let f = bit(bit_in(s, size, kind, left));
        assert(f * h == (if f == 1 { h } else { 0 })) by (nonlinear_arith)
            requires
                f == 0 || f == 1,
        ;
        if s.v % 2 == 1 {
            assert(a == 2 * b - q);
            assert(2 * b > q);
        } else {
            assert(a == 2 * b);
            assert(2 * b <= q);
        }
    }
}

#[verifier::rlimit(40)]
proof fn left_turns(s: ShiftState, n: nat, size: Size, through_x: bool)
    requires
        s.v < size.modulus(),
    ensures
        ({
            let kind = if through_x { 2u8 } else { 3u8 };
            let t = shift_steps(s, n, size, kind, true);
            let q = ring_top(size, through_x);
            let a = ring(s.v, s.x, size, through_x);
            let b = ring(t.v, t.x, size, through_x);
            &&& 0 <= a <= q
            &&& 0 <= b <= q
            &&& b % q == (a * pow2(n)) % q
            &&& a == 0 <==> b == 0
            &&& !through_x ==> t.x == s.x
            &&& through_x && n > 0 ==> t.c == t.x
            &&& !through_x && n > 0 ==> t.c == (t.v % 2 == 1)
        }),
    decreases n,
{
    let kind = if through_x {
        2u8
    } else {
        3u8
    };
    let q = ring_top(size, through_x);
    let a = ring(s.v, s.x, size, through_x);
    one_turn(s, size, through_x, true);
    if n == 0 {
        vstd::arithmetic::power2::lemma2_to64();
        times_one(a);
    } else {
        let k = (n - 1) as nat;
        left_turns(s, k, size, through_x);
        steps_stay_small(s, k, size, kind, true);
        let u = shift_steps(s, k, size, kind, true);
        one_turn(u, size, through_x, true);
        let t = shift_step(u, size, kind, true);
        let c = ring(u.v, u.x, size, through_x);
        doubled_around(c, ring(t.v, t.x, size, through_x), a, n, q, bit(2 * c > q));
    }
}

#[verifier::rlimit(40)]
proof fn right_turns(s: ShiftState, n: nat, size: Size, through_x: bool)
    requires
        s.v < size.modulus(),
    ensures
        ({
            let kind = if through_x { 2u8 } else { 3u8 };
            let t = shift_steps(s, n, size, kind, false);
            let q = ring_top(size, through_x);
            let a = ring(s.v, s.x, size, through_x);
            let b = ring(t.v, t.x, size, through_x);
            &&& 0 <= a <= q
            &&& 0 <= b <= q
            &&& a % q == (b * pow2(n)) % q
            &&& a == 0 <==> b == 0
            &&& !through_x ==> t.x == s.x
            &&& through_x && n > 0 ==> t.c == t.x
            &&& !through_x && n > 0 ==> t.c == (t.v >= size.modulus() as int / 2)
        }),
    decreases n,
{
    let kind = if through_x {
        2u8
    } else {
        3u8
    };
    let q = ring_top(size, through_x);
    let a = ring(s.v, s.x, size, through_x);
    one_turn(s, size, through_x, false);
    if n == 0 {
        vstd::arithmetic::power2::lemma2_to64();
        times_one(a);
    } else {
        let k = (n - 1) as nat;
        right_turns(s, k, size, through_x);
        steps_stay_small(s, k, size, kind, false);
        let u = shift_steps(s, k, size, kind, false);
        one_turn(u, size, through_x, false);
        let t = shift_step(u, size, kind, false);
        let c = ring(u.v, u.x, size, through_x);
        let b = ring(t.v, t.x, size, through_x);
        // c is b doubled, and a is c multiplied.
        one_more_power(n);
        let p = pow2(k) as int;
        let over = bit(2 * b > q);
        assert(c * p == 2 * (b * p) - q * (over * p)) by (nonlinear_arith)
            requires
                c == 2 * b - q * over,
        ;
        assert(b * pow2(n) == 2 * (b * p)) by (nonlinear_arith)
            requires
                pow2(n) == 2 * p,
        ;
        assert(q * (over * p) == (over * p) * q) by (nonlinear_arith);
        vstd::arithmetic::div_mod::lemma_mod_multiples_vanish(over * p, c * p, q);
    }
}

/// Rotations go round: what rotates, the operand or the operand under X, is
/// multiplied by a power of two modulo all ones by a rotation to the left, and
/// divided by it by one to the right; nothing but zero becomes zero. A plain
/// rotation leaves X and copies the last bit that went round to C; a rotation
/// through X leaves C equal to X.
pub proof fn rotations_go_round(sr: u16, v: u32, n: u32, size: Size, through_x: bool, left: bool)
    requires
        v < size.modulus(),
    ensures
        ({
            let kind = if through_x { 2u8 } else { 3u8 };
            let (sr1, r) = shift_spec(sr, v, n, size, kind, left);
            let m = size.modulus() as int;
            let q = ring_top(size, through_x);
            let a = ring(v, codes(sr).x, size, through_x);
            let b = ring(r, codes(sr1).x, size, through_x);
            &&& 0 <= r < m
            &&& 0 <= b <= q
            &&& left ==> b % q == (a * pow2(n as nat)) % q
            &&& !left ==> (b * pow2(n as nat)) % q == a % q
            &&& a == 0 <==> b == 0
            &&& same_system(sr1, sr)
            &&& codes(sr1) == (Codes {
                x: if through_x { codes(sr1).x } else { codes(sr).x },
                n: r >= m / 2,
                z: r == 0,
                v: false,
                c: if through_x {
                    codes(sr1).x
                } else if n == 0 {
                    false
                } else if left {
                    r % 2 == 1
                } else {
                    r >= m / 2
                },
            })
        }),
{
    let kind = if through_x {
        2u8
    } else {
        3u8
    };
    flags_from_steps(sr, v, n, size, kind, left);
    if left {
        left_turns(start(sr, v), n as nat, size, through_x);
    } else {
        right_turns(start(sr, v), n as nat, size, through_x);
    }
}

/// A rotation by as many bits as go round gives back what there was.
pub proof fn full_rotations_change_nothing(sr: u16, v: u32, size: Size, through_x: bool, left: bool)
    requires
        v < size.modulus(),
    ensures
        ({
            let kind = if through_x { 2u8 } else { 3u8 };
            let n = (8 * size.bytes() + bit(through_x)) as u32;
            let (sr1, r) = shift_spec(sr, v, n, size, kind, left);
            &&& r == v
            &&& codes(sr1).x == codes(sr).x
        }),
{
    let n = (8 * size.bytes() + bit(through_x)) as u32;
    let q = ring_top(size, through_x);
    rotations_go_round(sr, v, n, size, through_x, left);
    let kind = if through_x {
        2u8
    } else {
        3u8
    };
    let (sr1, r) = shift_spec(sr, v, n, size, kind, left);
    let a = ring(v, codes(sr).x, size, through_x);
    let b = ring(r, codes(sr1).x, size, through_x);
    vstd::arithmetic::power2::lemma2_to64();
    assert(pow2(9) == 512 && pow2(17) == 0x2_0000 && pow2(33) == 0x2_0000_0000) by {
        vstd::arithmetic::power2::lemma_pow2_unfold(33);
    }
    let p = pow2(n as nat) as int;
    assert(p == q + 1);
    let from = if left {
        a
    } else {
        b
    };
    assert(from * p == q * from + from) by (nonlinear_arith)
        requires
            p == q + 1,
    ;
    vstd::arithmetic::div_mod::lemma_mod_multiples_vanish(from, from, q);
    assert(a % q == b % q);
    around_once(a, b, q);
}

proof fn around_once(a: int, b: int, q: int)
    requires
        q > 0,
        0 <= a <= q,
        0 <= b <= q,
        a % q == b % q,
        a == 0 <==> b == 0,
    ensures
        a == b,
{
    if a < q {
        vstd::arithmetic::div_mod::lemma_small_mod(a as nat, q as nat);
    } else {
        vstd::arithmetic::div_mod::lemma_mod_self_0(q);
    }
    if b < q {
        vstd::arithmetic::div_mod::lemma_small_mod(b as nat, q as nat);
    } else {
        vstd::arithmetic::div_mod::lemma_mod_self_0(q);
    }
}

}
