//! Arithmetic with condition codes.
use vstd::prelude::*;
use crate::cpu::m68k::cpu::{sr_nz, sr_set, Cpu, Size, StatusRegister};
use crate::cpu::m68k::rmw::{compute_sr_extended, sr_extended};

verus! {

/// The value of an operand read as unsigned.
pub open spec fn unsigned(v: u32, size: Size) -> int {
    v as int % size.modulus() as int
}

/// The value of an operand read as signed.
pub open spec fn signed(v: u32, size: Size) -> int {
    let u = unsigned(v, size);
    if u >= size.modulus() as int / 2 {
        u - size.modulus()
    } else {
        u
    }
}

/// Whether a signed result does not fit the size.
pub open spec fn overflows(x: int, size: Size) -> bool {
    x < -(size.modulus() as int / 2) || x >= size.modulus() as int / 2
}

/// The low bits of an integer, as many as the size has.
pub open spec fn wrapped(x: int, size: Size) -> u32 {
    (x % (size.modulus() as int)) as u32
}

pub fn to_unsigned(v: u32, size: Size) -> (r: u64)
    ensures
        r == unsigned(v, size),
        r < size.modulus(),
{
    v as u64 % size.modulus()
}

pub fn to_signed(v: u32, size: Size) -> (r: i64)
    ensures
        r == signed(v, size),
        -0x8000_0000 <= r < 0x8000_0000,
{
    let u: u64 = to_unsigned(v, size);
    let m: u64 = size.modulus();
    if u >= m / 2 {
        u as i64 - m as i64
    } else {
        u as i64
    }
}

fn does_overflow(x: i64, size: Size) -> (r: bool)
    ensures
        r == overflows(x as int, size),
{
    let half: i64 = (size.modulus() / 2) as i64;
    x < -half || x >= half
}

/// N, Z, V and C of a sum or difference, and X too if asked.
pub open spec fn sr_sum(sr: u16, r: u32, size: Size, v: bool, carry: bool, update_x: bool) -> u16 {
    let s = sr_set(sr_nz(sr, r, size), StatusRegister::V, v);
    let s = sr_set(s, StatusRegister::C, carry);
    if update_x {
        sr_set(s, StatusRegister::X, carry)
    } else {
        s
    }
}

fn compute_sr_sum(sr: u16, r: u32, size: Size, v: bool, carry: bool, update_x: bool) -> (out: u16)
    ensures
        out == sr_sum(sr, r, size, v, carry, update_x),
{
    let s: u16 = sr_set(sr_nz(sr, r, size), StatusRegister::V, v);
    let s: u16 = sr_set(s, StatusRegister::C, carry);
    if update_x {
        sr_set(s, StatusRegister::X, carry)
    } else {
        s
    }
}

/// The status register and the result of `a + b`.
#[verifier::opaque]
pub open spec fn add_spec(sr: u16, a: u32, b: u32, size: Size, update_x: bool) -> (u16, u32) {
    let sum = unsigned(a, size) + unsigned(b, size);
    let r = wrapped(sum, size);
    let v = overflows(signed(a, size) + signed(b, size), size);
    (sr_sum(sr, r, size, v, sum >= size.modulus(), update_x), r)
}

pub fn add_with_flags(cpu: &mut Cpu, a: u32, b: u32, size: Size, update_x: bool) -> (r: u32)
    ensures
        r == add_spec(old(cpu)@.sr, a, b, size, update_x).1,
        final(cpu)@ == old(cpu)@.with_sr(add_spec(old(cpu)@.sr, a, b, size, update_x).0),
{
    proof {
        reveal(add_spec);
    }
    let sum: u64 = to_unsigned(a, size) + to_unsigned(b, size);
    let r: u32 = (sum % size.modulus()) as u32;
    let v: bool = does_overflow(to_signed(a, size) + to_signed(b, size), size);
    let sr: u16 = compute_sr_sum(cpu.sr.0, r, size, v, sum >= size.modulus(), update_x);
    cpu.set_sr(sr);
    r
}

/// The status register and the result of `a - b`.
#[verifier::opaque]
pub open spec fn sub_spec(sr: u16, a: u32, b: u32, size: Size, update_x: bool) -> (u16, u32) {
    let (ua, ub) = (unsigned(a, size), unsigned(b, size));
    let r = wrapped(ua - ub, size);
    let v = overflows(signed(a, size) - signed(b, size), size);
    (sr_sum(sr, r, size, v, ub > ua, update_x), r)
}

pub fn sub_with_flags(cpu: &mut Cpu, a: u32, b: u32, size: Size, update_x: bool) -> (r: u32)
    ensures
        r == sub_spec(old(cpu)@.sr, a, b, size, update_x).1,
        final(cpu)@ == old(cpu)@.with_sr(sub_spec(old(cpu)@.sr, a, b, size, update_x).0),
{
    proof {
        reveal(sub_spec);
    }
    let ua: u64 = to_unsigned(a, size);
    let ub: u64 = to_unsigned(b, size);
    let m: u64 = size.modulus();
    let r: u32 = if ua >= ub {
        (ua - ub) as u32
    } else {
        (ua + m - ub) as u32
    };
    let v: bool = does_overflow(to_signed(a, size) - to_signed(b, size), size);
    let sr: u16 = compute_sr_sum(cpu.sr.0, r, size, v, ub > ua, update_x);
    cpu.set_sr(sr);
    r
}

/// Whether an operand is negative read as signed.
pub open spec fn negative(v: u32, size: Size) -> bool {
    unsigned(v, size) >= size.modulus() as int / 2
}

fn is_negative(v: u32, size: Size) -> (r: bool)
    ensures
        r == negative(v, size),
{
    to_unsigned(v, size) >= size.modulus() / 2
}

/// The carry out of a sum: the bit above the operand's top bit, or, for long
/// words, whether the sum does not fit.
pub open spec fn carry_out(sum: int, size: Size) -> bool {
    if size == Size::Long {
        sum >= size.modulus()
    } else {
        (sum / (size.modulus() as int)) % 2 == 1
    }
}

/// The status register and the result of `dst + src + x`, with Z sticky. The
/// sum overflows if its operands have one sign and it has the other.
#[verifier::opaque]
pub open spec fn addx_spec(sr: u16, dst: u32, src: u32, x: u32, size: Size) -> (u16, u32) {
    let sum = unsigned(dst, size) + unsigned(src, size) + x;
    let r = wrapped(sum, size);
    let v = negative(dst, size) == negative(src, size) && negative(r, size) != negative(
        dst,
        size,
    );
    (sr_extended(sr, r & size.sign_bit() != 0, r == 0, v, carry_out(sum, size)), r)
}

pub fn addx_with_flags(cpu: &mut Cpu, dst: u32, src: u32, x: u32, size: Size) -> (r: u32)
    ensures
        r == addx_spec(old(cpu)@.sr, dst, src, x, size).1,
        final(cpu)@ == old(cpu)@.with_sr(addx_spec(old(cpu)@.sr, dst, src, x, size).0),
{
    proof {
        reveal(addx_spec);
    }
    let m: u64 = size.modulus();
    let sum: u64 = to_unsigned(dst, size) + to_unsigned(src, size) + x as u64;
    let r: u32 = (sum % m) as u32;
    let neg: bool = is_negative(dst, size);
    let v: bool = neg == is_negative(src, size) && is_negative(r, size) != neg;
    let carry: bool = match size {
        Size::Long => sum >= m,
        _ => (sum / m) % 2 == 1,
    };
    let n: bool = r & size.sign_bit() != 0;
    let sr: u16 = compute_sr_extended(cpu.sr.0, n, r == 0, v, carry);
    cpu.set_sr(sr);
    r
}

/// The status register and the result of `dst - src - x`, with Z sticky. The
/// difference overflows if its operands differ in sign and it has the sign of
/// the second.
#[verifier::opaque]
pub open spec fn subx_spec(sr: u16, dst: u32, src: u32, x: u32, size: Size) -> (u16, u32) {
    let (ud, us) = (unsigned(dst, size), unsigned(src, size));
    let r = wrapped(ud - us - x, size);
    let v = negative(dst, size) != negative(src, size) && negative(r, size) != negative(
        dst,
        size,
    );
    (sr_extended(sr, r & size.sign_bit() != 0, r == 0, v, us + x > ud), r)
}

pub fn subx_with_flags(cpu: &mut Cpu, dst: u32, src: u32, x: u32, size: Size) -> (r: u32)
    ensures
        r == subx_spec(old(cpu)@.sr, dst, src, x, size).1,
        final(cpu)@ == old(cpu)@.with_sr(subx_spec(old(cpu)@.sr, dst, src, x, size).0),
{
    proof {
        reveal(subx_spec);
    }
    let ud: u64 = to_unsigned(dst, size);
    let us: u64 = to_unsigned(src, size) + x as u64;
    // A multiple of every modulus keeps the difference from going below zero.
    let lifted: u64 = ud + 0x4_0000_0000 - us;
    let r: u32 = (lifted % size.modulus()) as u32;
    assert(lifted as int % size.modulus() as int == (ud - us) % (size.modulus() as int)) by {
        match size {
            Size::Byte => {
                assert((ud - us + 0x4_0000_0000int) % 0x100 == (ud - us) % 0x100);
            },
            Size::Word => {
                assert((ud - us + 0x4_0000_0000int) % 0x1_0000 == (ud - us) % 0x1_0000);
            },
            Size::Long => {
                assert((ud - us + 0x4_0000_0000int) % 0x1_0000_0000 == (ud - us)
                    % 0x1_0000_0000);
            },
        }
    }
    let neg: bool = is_negative(dst, size);
    let v: bool = neg != is_negative(src, size) && is_negative(r, size) != neg;
    let n: bool = r & size.sign_bit() != 0;
    let sr: u16 = compute_sr_extended(cpu.sr.0, n, r == 0, v, us > ud);
    cpu.set_sr(sr);
    r
}

/// With the carry in a bit, the sum of ADDX overflows exactly when the signed
/// sum does not fit, and carries exactly when the unsigned sum does not.
pub proof fn addx_flags_are_arithmetic(dst: u32, src: u32, x: u32, size: Size)
    requires
        x <= 1,
    ensures
        ({
            let sum = unsigned(dst, size) + unsigned(src, size) + x;
            let r = wrapped(sum, size);
            &&& carry_out(sum, size) <==> sum >= size.modulus()
            &&& (negative(dst, size) == negative(src, size) && negative(r, size) != negative(
                dst,
                size,
            )) <==> overflows(signed(dst, size) + signed(src, size) + x, size)
        }),
{
    let sum = unsigned(dst, size) + unsigned(src, size) + x;
    match size {
        Size::Byte => {
            assert(sum >= 0x100 ==> sum % 0x100 == sum - 0x100 && sum / 0x100 == 1);
            assert(sum < 0x100 ==> sum % 0x100 == sum && sum / 0x100 == 0);
        },
        Size::Word => {
            assert(sum >= 0x1_0000 ==> sum % 0x1_0000 == sum - 0x1_0000 && sum / 0x1_0000 == 1);
            assert(sum < 0x1_0000 ==> sum % 0x1_0000 == sum && sum / 0x1_0000 == 0);
        },
        Size::Long => {
            assert(sum >= 0x1_0000_0000 ==> sum % 0x1_0000_0000 == sum - 0x1_0000_0000);
            assert(sum < 0x1_0000_0000 ==> sum % 0x1_0000_0000 == sum);
        },
    }
}

/// With the borrow in a bit, the difference of SUBX overflows exactly when the
/// signed difference does not fit.
pub proof fn subx_overflow_is_arithmetic(dst: u32, src: u32, x: u32, size: Size)
    requires
        x <= 1,
    ensures
        ({
            let r = wrapped(unsigned(dst, size) - unsigned(src, size) - x, size);
            (negative(dst, size) != negative(src, size) && negative(r, size) != negative(
                dst,
                size,
            )) <==> overflows(signed(dst, size) - signed(src, size) - x, size)
        }),
{
}

/// Decimal addition of two digits pairs and a carry: the result, the carry out
/// and the overflow flag. A low digit sum above nine is corrected by six, then
/// a sum above 9F by sixty (hexadecimal).
pub open spec fn abcd_spec(dst: u8, src: u8, x: u8) -> (u8, bool, bool) {
    let raw = dst + src + x;
    let low = if dst % 16 + src % 16 + x > 9 {
        raw + 6
    } else {
        raw as int
    };
    let full = if low > 0x9F {
        low + 0x60
    } else {
        low
    };
    (
        (full % 256) as u8,
        full >= 256,
        full % 256 >= 128 && raw % 256 < 128,
    )
}

pub fn abcd_calc(dst: u8, src: u8, x: u8) -> (r: (u8, bool, bool))
    requires
        x <= 1,
    ensures
        r == abcd_spec(dst, src, x),
{
    let raw: u16 = dst as u16 + src as u16 + x as u16;
    let low: u16 = if dst % 16 + src % 16 + x > 9 {
        raw + 6
    } else {
        raw
    };
    let full: u16 = if low > 0x9F {
        low + 0x60
    } else {
        low
    };
    ((full % 256) as u8, full >= 256, full % 256 >= 128 && raw % 256 < 128)
}

/// Decimal subtraction of two digit pairs and a borrow: the result, the borrow
/// out and the overflow flag. A low digit that borrows is corrected by six, a
/// difference below zero by sixty (hexadecimal).
pub open spec fn sbcd_spec(dst: u8, src: u8, x: u8) -> (u8, bool, bool) {
    let raw = dst - src - x;
    let low = if dst % 16 < src % 16 + x {
        raw - 6
    } else {
        raw
    };
    let full = if raw < 0 {
        low - 0x60
    } else {
        low
    };
    (
        (full % 256) as u8,
        full < 0,
        full % 256 < 128 && raw % 256 >= 128,
    )
}

pub fn sbcd_calc(dst: u8, src: u8, x: u8) -> (r: (u8, bool, bool))
    requires
        x <= 1,
    ensures
        r == sbcd_spec(dst, src, x),
{
    let raw: i16 = dst as i16 - src as i16 - x as i16;
    let low: i16 = if dst % 16 < src % 16 + x {
        raw - 6
    } else {
        raw
    };
    let full: i16 = if raw < 0 {
        low - 0x60
    } else {
        low
    };
    let r8: i16 = if full < -256 {
        full + 512
    } else if full < 0 {
        full + 256
    } else {
        full
    };
    let raw8: i16 = if raw < 0 {
        raw + 256
    } else {
        raw
    };
    (r8 as u8, full < 0, r8 < 128 && raw8 >= 128)
}

/// The running state of a shift or rotation: the operand, C, X, and whether
/// the sign has changed on the way.
pub struct ShiftState {
    pub v: u32,
    pub c: bool,
    pub x: bool,
    pub changed: bool,
}

/// One step of the shift or rotation numbered `kind`: arithmetic shift, logical
/// shift, rotation through X, rotation.
pub open spec fn shift_step(s: ShiftState, size: Size, kind: u8, left: bool) -> ShiftState {
    let out = if left {
        s.v & size.sign_bit() != 0
    } else {
        s.v & 1 != 0
    };
    let fill: bool = match kind {
        0 => !left && s.v & size.sign_bit() != 0,
        1 => false,
        2 => s.x,
        _ => out,
    };
    let v = if left {
        ((s.v << 1) | (if fill { 1u32 } else { 0u32 })) & size.mask()
    } else {
        (s.v >> 1) | (if fill { size.sign_bit() } else { 0u32 })
    };
    ShiftState {
        v,
        c: out,
        x: if kind == 3 { s.x } else { out },
        changed: s.changed || (kind == 0 && left && (s.v ^ v) & size.sign_bit() != 0),
    }
}

/// `n` steps.
pub open spec fn shift_steps(s: ShiftState, n: nat, size: Size, kind: u8, left: bool) -> ShiftState
    decreases n,
{
    if n == 0 {
        s
    } else {
        shift_step(shift_steps(s, (n - 1) as nat, size, kind, left), size, kind, left)
    }
}

/// The status register and the operand after a shift or rotation by `count`.
/// A rotation leaves X alone, only an arithmetic shift reports a sign change in
/// V, and a count of zero clears C, or copies X to it when rotating through X.
#[verifier::opaque]
pub open spec fn shift_spec(sr: u16, v: u32, count: u32, size: Size, kind: u8, left: bool) -> (
    u16,
    u32,
) {
    let x = sr & StatusRegister::X != 0;
    if count == 0 {
        let s = sr_set(sr_nz(sr, v, size), StatusRegister::C, kind == 2 && x);
        (sr_set(s, StatusRegister::V, false), v)
    } else {
        let end = shift_steps(
            ShiftState { v, c: false, x, changed: false },
            count as nat,
            size,
            kind,
            left,
        );
        let s = sr_set(sr_nz(sr, end.v, size), StatusRegister::C, end.c);
        let s = if kind != 3 {
            sr_set(s, StatusRegister::X, end.x)
        } else {
            s
        };
        (sr_set(s, StatusRegister::V, end.changed && kind == 0), end.v)
    }
}

fn do_shift_step(s: ShiftState, size: Size, kind: u8, left: bool) -> (r: ShiftState)
    ensures
        r == shift_step(s, size, kind, left),
{
    let sign: u32 = size.sign_bit();
    let out: bool = if left {
        s.v & sign != 0
    } else {
        s.v & 1 != 0
    };
    let fill: bool = match kind {
        0 => !left && s.v & sign != 0,
        1 => false,
        2 => s.x,
        _ => out,
    };
    let v: u32 = if left {
        ((s.v << 1) | (if fill { 1u32 } else { 0u32 })) & size.mask()
    } else {
        (s.v >> 1) | (if fill { sign } else { 0u32 })
    };
    ShiftState {
        v,
        c: out,
        x: if kind == 3 {
            s.x
        } else {
            out
        },
        changed: s.changed || (kind == 0 && left && (s.v ^ v) & sign != 0),
    }
}

pub fn do_shift_rotate(
    cpu: &mut Cpu,
    v: u32,
    count: u32,
    size: Size,
    kind: u8,
    left: bool,
) -> (r: u32)
    requires
        kind < 4,
    ensures
        r == shift_spec(old(cpu)@.sr, v, count, size, kind, left).1,
        final(cpu)@ == old(cpu)@.with_sr(
            shift_spec(old(cpu)@.sr, v, count, size, kind, left).0,
        ),
{
    proof {
        reveal(shift_spec);
    }
    let sr: u16 = cpu.sr.0;
    let x: bool = sr & StatusRegister::X != 0;
    if count == 0 {
        let s: u16 = sr_set(sr_nz(sr, v, size), StatusRegister::C, kind == 2 && x);
        cpu.set_sr(sr_set(s, StatusRegister::V, false));
        return v;
    }
    let ghost start = ShiftState { v, c: false, x, changed: false };
    let mut state: ShiftState = ShiftState { v, c: false, x, changed: false };
    let mut i: u32 = 0;
    while i < count
        invariant
            i <= count,
            state == shift_steps(start, i as nat, size, kind, left),
        decreases count - i,
    {
        state = do_shift_step(state, size, kind, left);
        i = i + 1;
    }
    let s: u16 = sr_set(sr_nz(sr, state.v, size), StatusRegister::C, state.c);
    let s: u16 = if kind != 3 {
        sr_set(s, StatusRegister::X, state.x)
    } else {
        s
    };
    cpu.set_sr(sr_set(s, StatusRegister::V, state.changed && kind == 0));
    state.v
}

}
