//! What arithmetic and logic do, in numbers and single flags.
use vstd::prelude::*;
use crate::cpu::z80::alu::{
    adc16_spec, add16_spec, add8_flags, add8_spec, alu_spec, cp8_flags, dec8_flags, inc8_flags,
    rot_result, rot_spec, sbc16_spec, sub8_flags, sub8_spec,
};
use crate::cpu::z80::cpu::{high, Cpu, Regs};
use crate::cpu::z80::flags::{
    ones, parity_of, set_if, sz53, sz53p_of, FC, FH, FN, FP, FS, FX, FY, FZ,
};

verus! {

/// The flags one by one.
pub ghost struct Flags {
    pub s: bool,
    pub z: bool,
    pub y: bool,
    pub h: bool,
    pub x: bool,
    pub p: bool,
    pub n: bool,
    pub c: bool,
}

/// The flags in the bits of F: S, Z, Y, H, X, P, N, C from bit 7 down.
pub open spec fn flags_of(f: u8) -> Flags {
    Flags {
        s: f & 0x80 != 0,
        z: f & 0x40 != 0,
        y: f & 0x20 != 0,
        h: f & 0x10 != 0,
        x: f & 8 != 0,
        p: f & 4 != 0,
        n: f & 2 != 0,
        c: f & 1 != 0,
    }
}

/// No flag at all.
pub open spec fn no_flags() -> Flags {
    Flags {
        s: false,
        z: false,
        y: false,
        h: false,
        x: false,
        p: false,
        n: false,
        c: false,
    }
}

/// Flags combined by or, and by and.
pub proof fn combined(f: u8, g: u8)
    ensures
        ({
            let (a, b) = (flags_of(f), flags_of(g));
            &&& flags_of(f | g) == (Flags {
                s: a.s || b.s,
                z: a.z || b.z,
                y: a.y || b.y,
                h: a.h || b.h,
                x: a.x || b.x,
                p: a.p || b.p,
                n: a.n || b.n,
                c: a.c || b.c,
            })
            &&& flags_of(f & g) == (Flags {
                s: a.s && b.s,
                z: a.z && b.z,
                y: a.y && b.y,
                h: a.h && b.h,
                x: a.x && b.x,
                p: a.p && b.p,
                n: a.n && b.n,
                c: a.c && b.c,
            })
        }),
{
    crate::bits::bit_of_bytes(f, g, 1, 1);
    crate::bits::bit_of_bytes(f, g, 1, 2);
    crate::bits::bit_of_bytes(f, g, 1, 4);
    crate::bits::bit_of_bytes(f, g, 1, 8);
    crate::bits::bit_of_bytes(f, g, 1, 0x10);
    crate::bits::bit_of_bytes(f, g, 1, 0x20);
    crate::bits::bit_of_bytes(f, g, 1, 0x40);
    crate::bits::bit_of_bytes(f, g, 1, 0x80);
}

/// A byte with one bit has one flag.
pub proof fn one_flag(m: u8)
    requires
        m == 1 || m == 2 || m == 4 || m == 8 || m == 0x10 || m == 0x20 || m == 0x40 || m == 0x80,
    ensures
        flags_of(m) == (Flags {
            s: m == 0x80,
            z: m == 0x40,
            y: m == 0x20,
            h: m == 0x10,
            x: m == 8,
            p: m == 4,
            n: m == 2,
            c: m == 1,
        }),
        flags_of(0) == no_flags(),
{
    crate::bits::bit_of_bytes(0, 0, m, 1);
    crate::bits::bit_of_bytes(0, 0, m, 2);
    crate::bits::bit_of_bytes(0, 0, m, 4);
    crate::bits::bit_of_bytes(0, 0, m, 8);
    crate::bits::bit_of_bytes(0, 0, m, 0x10);
    crate::bits::bit_of_bytes(0, 0, m, 0x20);
    crate::bits::bit_of_bytes(0, 0, m, 0x40);
    crate::bits::bit_of_bytes(0, 0, m, 0x80);
}

/// One flag set on a condition.
pub proof fn flag_is_set(f: u8, m: u8, on: bool)
    requires
        m == 1 || m == 2 || m == 4 || m == 8 || m == 0x10 || m == 0x20 || m == 0x40 || m == 0x80,
    ensures
        ({
            let (a, b) = (flags_of(set_if(f, m, on)), flags_of(f));
            &&& a.s == (b.s || (on && m == 0x80))
            &&& a.z == (b.z || (on && m == 0x40))
            &&& a.y == (b.y || (on && m == 0x20))
            &&& a.h == (b.h || (on && m == 0x10))
            &&& a.x == (b.x || (on && m == 8))
            &&& a.p == (b.p || (on && m == 4))
            &&& a.n == (b.n || (on && m == 2))
            &&& a.c == (b.c || (on && m == 1))
        }),
{
    combined(f, m);
    one_flag(m);
}

/// The bits that are copied from a result: S, Y and X, or Y and X alone.
pub proof fn copied(r: u8)
    ensures
        flags_of(r & (FS | FY | FX)) == (Flags {
            s: r >= 0x80,
            y: (r / 32) % 2 == 1,
            x: (r / 8) % 2 == 1,
            ..no_flags()
        }),
        flags_of(r & (FY | FX)) == (Flags {
            y: (r / 32) % 2 == 1,
            x: (r / 8) % 2 == 1,
            ..no_flags()
        }),
        flags_of(r & FS) == (Flags { s: r >= 0x80, ..no_flags() }),
        flags_of(r & FC) == (Flags { c: r % 2 == 1, ..no_flags() }),
        flags_of(r & (FS | FZ | FP)) == (Flags {
            s: flags_of(r).s,
            z: flags_of(r).z,
            p: flags_of(r).p,
            ..no_flags()
        }),
{
    crate::bits::byte_in_bits(r, 0);
    one_flag(FS);
    one_flag(FY);
    one_flag(FX);
    one_flag(FZ);
    one_flag(FP);
    one_flag(FC);
    combined(FS, FY);
    combined(FS | FY, FX);
    combined(FY, FX);
    combined(FS, FZ);
    combined(FS | FZ, FP);
    combined(r, FS | FY | FX);
    combined(r, FY | FX);
    combined(r, FS);
    combined(r, FC);
    combined(r, FS | FZ | FP);
}

/// S, Z, Y and X of a result.
#[verifier::rlimit(40)]
proof fn result_flags(r: u8)
    ensures
        flags_of(sz53(r)) == (Flags {
            s: r >= 0x80,
            z: r == 0,
            y: (r / 32) % 2 == 1,
            x: (r / 8) % 2 == 1,
            ..no_flags()
        }),
        flags_of(sz53p_of(r)) == (Flags {
            s: r >= 0x80,
            z: r == 0,
            y: (r / 32) % 2 == 1,
            x: (r / 8) % 2 == 1,
            p: ones(r as nat) % 2 == 0,
            ..no_flags()
        }),
{
    copied(r);
    flag_is_set(r & (FS | FY | FX), FZ, r == 0);
    combined(sz53(r), parity_of(r as int));
    one_flag(FP);
}

/// The signed value of a byte.
pub open spec fn signed8(v: u8) -> int {
    if v >= 0x80 {
        v - 0x100
    } else {
        v as int
    }
}

/// Whether a number is outside the range of signed bytes.
pub open spec fn too_large8(x: int) -> bool {
    x < -128 || x > 127
}

/// Addition adds, with a carry in: the sum modulo 256, H and C the carries out of
/// four and of eight bits, P the signed overflow, N clear.
#[verifier::rlimit(40)]
pub proof fn addition_adds(c: Cpu, a: u8, b: u8, cin: u8)
    requires
        cin <= 1,
    ensures
        ({
            let (d, r) = add8_spec(c, a, b, cin);
            &&& r == (a + b + cin) % 256
            &&& d == c.with_f(d.regs.f)
            &&& flags_of(d.regs.f) == (Flags {
                s: r >= 0x80,
                z: r == 0,
                y: (r / 32) % 2 == 1,
                h: a % 16 + b % 16 + cin >= 16,
                x: (r / 8) % 2 == 1,
                p: too_large8(signed8(a) + signed8(b) + cin),
                n: false,
                c: a + b + cin >= 256,
            })
        }),
{
    crate::bits::read_as_signed(a, 0, 0);
    crate::bits::read_as_signed(b, 0, 0);
    reveal(add8_flags);
    let r = add8_spec(c, a, b, cin).1;
    let h = a % 16 + b % 16 + cin > 15;
    let p = too_large8(signed8(a) + signed8(b) + cin);
    result_flags(r);
    flag_is_set(sz53(r), FH, h);
    flag_is_set(set_if(sz53(r), FH, h), FP, p);
    flag_is_set(set_if(set_if(sz53(r), FH, h), FP, p), FC, a + b + cin > 255);
}

/// Subtraction subtracts, with a borrow in: the difference modulo 256, H and C
/// the borrows into four and into eight bits, P the signed overflow, N set.
#[verifier::rlimit(40)]
pub proof fn subtraction_subtracts(c: Cpu, a: u8, b: u8, cin: u8)
    requires
        cin <= 1,
    ensures
        ({
            let (d, r) = sub8_spec(c, a, b, cin);
            &&& r == (a - b - cin) % 256
            &&& d == c.with_f(d.regs.f)
            &&& flags_of(d.regs.f) == (Flags {
                s: r >= 0x80,
                z: r == 0,
                y: (r / 32) % 2 == 1,
                h: a % 16 < b % 16 + cin,
                x: (r / 8) % 2 == 1,
                p: too_large8(signed8(a) - signed8(b) - cin),
                n: true,
                c: a < b + cin,
            })
        }),
{
    crate::bits::read_as_signed(a, 0, 0);
    crate::bits::read_as_signed(b, 0, 0);
    reveal(sub8_flags);
    let r = sub8_spec(c, a, b, cin).1;
    let h = a % 16 < b % 16 + cin;
    let p = too_large8(signed8(a) - signed8(b) - cin);
    result_flags(r);
    combined(sz53(r), FN);
    one_flag(FN);
    let f = sz53(r) | FN;
    flag_is_set(f, FH, h);
    flag_is_set(set_if(f, FH, h), FP, p);
    flag_is_set(set_if(set_if(f, FH, h), FP, p), FC, a < b + cin);
}

/// Comparison tells how two bytes compare: Z that they are equal, C that the
/// first is less, S, H and P as their difference has them, N set. Y and X are the
/// second byte's.
#[verifier::rlimit(40)]
pub proof fn comparison_compares(a: u8, b: u8)
    ensures
        flags_of(cp8_flags(a, b)) == (Flags {
            s: (a - b) % 256 >= 0x80,
            z: a == b,
            y: (b / 32) % 2 == 1,
            h: a % 16 < b % 16,
            x: (b / 8) % 2 == 1,
            p: too_large8(signed8(a) - signed8(b)),
            n: true,
            c: a < b,
        }),
{
    crate::bits::read_as_signed(a, 0, 0);
    crate::bits::read_as_signed(b, 0, 0);
    reveal(cp8_flags);
    let r = a.wrapping_sub(b);
    let h = a % 16 < b % 16;
    let p = too_large8(signed8(a) - signed8(b));
    copied(r);
    copied(b);
    one_flag(FN);
    combined(r & FS, FN);
    let f0 = (r & FS) | FN;
    let f1 = set_if(f0, FZ, r == 0);
    let f2 = set_if(f1, FH, h);
    let f3 = set_if(f2, FP, p);
    let f4 = set_if(f3, FC, a < b);
    flag_is_set(f0, FZ, r == 0);
    flag_is_set(f1, FH, h);
    flag_is_set(f2, FP, p);
    flag_is_set(f3, FC, a < b);
    combined(f4, b & (FY | FX));
}

/// What each of the eight accumulator operations leaves in A.
pub open spec fn accumulated(k: u8, a: u8, v: u8, carry: bool) -> int {
    let cin = if carry {
        1int
    } else {
        0
    };
    match k {
        0 => (a + v) % 256,
        1 => (a + v + cin) % 256,
        2 => (a - v) % 256,
        3 => (a - v - cin) % 256,
        4 => (a & v) as int,
        5 => (a ^ v) as int,
        6 => (a | v) as int,
        _ => a as int,
    }
}

/// The eight accumulator operations, ADD, ADC, SUB, SBC, AND, XOR, OR and CP, do
/// what they are called, on A and F alone. Logic clears C and N, gives the parity
/// in P, and sets H for AND only.
#[verifier::rlimit(40)]
pub proof fn accumulator_operations_do_as_named(c: Cpu, k: u8, v: u8)
    requires
        k < 8,
    ensures
        ({
            let d = alu_spec(c, k, v);
            let (a, cin) = (c.regs.a, if flags_of(c.regs.f).c { 1int } else { 0 });
            let (f, r) = (flags_of(d.regs.f), d.regs.a);
            &&& d == c.with_regs(
                Regs { a: d.regs.a, f: d.regs.f, f_was_written: true, ..c.regs },
            )
            &&& r == accumulated(k, a, v, flags_of(c.regs.f).c)
            &&& k < 2 ==> f.c == (a + v + (if k == 1 { cin } else { 0 }) >= 256)
            &&& k < 2 ==> f.h == (a % 16 + v % 16 + (if k == 1 { cin } else { 0 }) >= 16)
            &&& k < 2 ==> f.p == too_large8(
                signed8(a) + signed8(v) + (if k == 1 { cin } else { 0 }),
            )
            &&& k == 2 || k == 3 || k == 7 ==> f.c == (a < v + (if k == 3 { cin } else { 0 }))
            &&& k == 2 || k == 3 || k == 7 ==> f.h == (a % 16 < v % 16 + (if k == 3 {
                cin
            } else {
                0
            }))
            &&& k == 2 || k == 3 || k == 7 ==> f.p == too_large8(
                signed8(a) - signed8(v) - (if k == 3 { cin } else { 0 }),
            )
            &&& f.n == (k == 2 || k == 3 || k == 7)
            &&& k < 7 ==> f.s == (r >= 0x80) && f.z == (r == 0)
            &&& k < 7 ==> f.y == ((r / 32) % 2 == 1) && f.x == ((r / 8) % 2 == 1)
            &&& k == 7 ==> f.s == ((a - v) % 256 >= 0x80) && f.z == (a == v)
            &&& k == 7 ==> f.y == ((v / 32) % 2 == 1) && f.x == ((v / 8) % 2 == 1)
            &&& 4 <= k < 7 ==> !f.c && f.h == (k == 4) && f.p == (ones(r as nat) % 2 == 0)
        }),
{
    reveal(alu_spec);
    let a = c.regs.a;
    let cin = c.regs.f & FC;
    crate::bits::low_bits(c.regs.f as u32);
    assert(cin == if flags_of(c.regs.f).c { 1u8 } else { 0u8 });
    match k {
        0 => addition_adds(c, a, v, 0),
        1 => addition_adds(c, a, v, cin),
        2 => subtraction_subtracts(c, a, v, 0),
        3 => subtraction_subtracts(c, a, v, cin),
        4 => {
            result_flags(a & v);
            combined(sz53p_of(a & v), FH);
            one_flag(FH);
        },
        5 => result_flags(a ^ v),
        6 => result_flags(a | v),
        _ => comparison_compares(a, v),
    }
}

/// Stepping a byte up or down: like adding or subtracting one, but C is kept.
pub proof fn steps_count(f: u8, a: u8)
    ensures
        ({
            let r = if a == 255 { 0u8 } else { (a + 1) as u8 };
            flags_of(inc8_flags(f, a)) == (Flags {
                s: r >= 0x80,
                z: r == 0,
                y: (r / 32) % 2 == 1,
                h: a % 16 == 15,
                x: (r / 8) % 2 == 1,
                p: r == 0x80,
                n: false,
                c: flags_of(f).c,
            })
        }),
        ({
            let r = if a == 0 { 255u8 } else { (a - 1) as u8 };
            flags_of(dec8_flags(f, a)) == (Flags {
                s: r >= 0x80,
                z: r == 0,
                y: (r / 32) % 2 == 1,
                h: a % 16 == 0,
                x: (r / 8) % 2 == 1,
                p: r == 0x7F,
                n: true,
                c: flags_of(f).c,
            })
        }),
{
    step_up(f, a);
    step_down(f, a);
    assert(a.wrapping_add(1) == if a == 255 { 0u8 } else { (a + 1) as u8 });
    assert(a.wrapping_sub(1) == if a == 0 { 255u8 } else { (a - 1) as u8 });
}

#[verifier::rlimit(40)]
proof fn step_up(f: u8, a: u8)
    ensures
        ({
            let r = a.wrapping_add(1);
            flags_of(inc8_flags(f, a)) == (Flags {
                s: r >= 0x80,
                z: r == 0,
                y: (r / 32) % 2 == 1,
                h: a % 16 == 15,
                x: (r / 8) % 2 == 1,
                p: a == 0x7F,
                n: false,
                c: flags_of(f).c,
            })
        }),
{
    reveal(inc8_flags);
    let u = a.wrapping_add(1);
    kept_carry(f);
    result_flags(u);
    combined(sz53(u), f & FC);
    let f1 = sz53(u) | (f & FC);
    flag_is_set(f1, FH, a % 16 == 15);
    flag_is_set(set_if(f1, FH, a % 16 == 15), FP, a == 0x7F);
}

#[verifier::rlimit(40)]
proof fn step_down(f: u8, a: u8)
    ensures
        ({
            let r = a.wrapping_sub(1);
            flags_of(dec8_flags(f, a)) == (Flags {
                s: r >= 0x80,
                z: r == 0,
                y: (r / 32) % 2 == 1,
                h: a % 16 == 0,
                x: (r / 8) % 2 == 1,
                p: a == 0x80,
                n: true,
                c: flags_of(f).c,
            })
        }),
{
    reveal(dec8_flags);
    let d = a.wrapping_sub(1);
    kept_carry(f);
    result_flags(d);
    combined(sz53(d), f & FC);
    combined(sz53(d) | (f & FC), FN);
    one_flag(FN);
    let f2 = sz53(d) | (f & FC) | FN;
    flag_is_set(f2, FH, a % 16 == 0);
    flag_is_set(set_if(f2, FH, a % 16 == 0), FP, a == 0x80);
}

proof fn kept_carry(f: u8)
    ensures
        flags_of(f & FC) == (Flags { c: flags_of(f).c, ..no_flags() }),
{
    combined(f, FC);
    one_flag(FC);
}

/// The eight shifts and rotations in numbers: RLC, RRC, RL, RR, SLA, SRA, SLL and
/// SRL. To the left the byte is doubled, to the right halved; what comes in is the
/// bit that goes out, or C, or nothing, or the sign, or one. What goes out goes to
/// C; P is the parity.
#[verifier::rlimit(40)]
pub proof fn rotations_double_or_halve(c: Cpu, k: u8, v: u8)
    requires
        k < 8,
    ensures
        ({
            let (d, r) = rot_spec(c, k, v);
            let left = k % 2 == 0;
            let out = if left { v as int / 128 } else { v as int % 2 };
            let fill = if k < 2 {
                out
            } else if k < 4 {
                if flags_of(c.regs.f).c { 1int } else { 0 }
            } else if k == 5 {
                v as int / 128
            } else if k == 6 {
                1
            } else {
                0
            };
            &&& r == (if left { 2 * v - 256 * (v / 128) + fill } else { v as int / 2 + 128 * fill })
            &&& d == c.with_f(d.regs.f)
            &&& flags_of(d.regs.f) == (Flags {
                s: r >= 0x80,
                z: r == 0,
                y: (r / 32) % 2 == 1,
                h: false,
                x: (r / 8) % 2 == 1,
                p: ones(r as nat) % 2 == 0,
                n: false,
                c: out == 1,
            })
        }),
{
    reveal(rot_spec);
    let (r, out) = rot_result(c.regs.f, k, v);
    rotated_in_numbers(c.regs.f, k, v);
    result_flags(r);
    combined(sz53p_of(r), out);
    one_flag(1);
}

#[verifier::rlimit(40)]
pub proof fn rotated_in_numbers(f: u8, k: u8, v: u8)
    requires
        k < 8,
    ensures
        ({
            let (r, out) = rot_result(f, k, v);
            let left = k % 2 == 0;
            let fill = if k < 2 {
                out as int
            } else if k < 4 {
                if flags_of(f).c { 1int } else { 0 }
            } else if k == 5 {
                v as int / 128
            } else if k == 6 {
                1
            } else {
                0
            };
            &&& out == (if left { v as int / 128 } else { v as int % 2 })
            &&& out == 0 || out == 1
            &&& r == (if left { 2 * v - 256 * (v / 128) + fill } else { v as int / 2 + 128 * fill })
        }),
{
    crate::bits::byte_in_bits(v, f);
    crate::bits::byte_in_bits(f, 0);
    if k % 2 == 0 {
        match k {
            0 => {},
            2 => {},
            4 => {},
            _ => {},
        }
    } else {
        match k {
            1 => {},
            3 => {},
            5 => {},
            _ => {},
        }
    }
}

/// The signed value of a word.
pub open spec fn signed16(v: u16) -> int {
    if v >= 0x8000 {
        v - 0x1_0000
    } else {
        v as int
    }
}

/// Whether a number is outside the range of signed words.
pub open spec fn too_large16(x: int) -> bool {
    x < -0x8000 || x > 0x7FFF
}

/// ADD on words adds; H is the carry out of twelve bits, and S, Z and P stay. ADC
/// and SBC take C in and set all flags.
pub proof fn word_sums_add(c: Cpu, a: u16, b: u16)
    ensures
        ({
            let (d, r) = add16_spec(c, a, b);
            let f = flags_of(d.regs.f);
            &&& r == (a + b) % 0x1_0000
            &&& f == (Flags {
                h: a % 4096 + b % 4096 >= 4096,
                n: false,
                c: a + b >= 0x1_0000,
                y: f.y,
                x: f.x,
                ..flags_of(c.regs.f)
            })
        }),
        ({
            let (d, r) = adc16_spec(c, a, b);
            let f = flags_of(d.regs.f);
            let cin = if flags_of(c.regs.f).c { 1int } else { 0 };
            &&& r == (a + b + cin) % 0x1_0000
            &&& f == (Flags {
                s: r >= 0x8000,
                z: r == 0,
                h: a % 4096 + b % 4096 + cin >= 4096,
                p: too_large16(signed16(a) + signed16(b) + cin),
                n: false,
                c: a + b + cin >= 0x1_0000,
                y: f.y,
                x: f.x,
            })
        }),
        ({
            let (d, r) = sbc16_spec(c, a, b);
            let f = flags_of(d.regs.f);
            let cin = if flags_of(c.regs.f).c { 1int } else { 0 };
            &&& r == (a - b - cin) % 0x1_0000
            &&& f == (Flags {
                s: r >= 0x8000,
                z: r == 0,
                h: a % 4096 < b % 4096 + cin,
                p: too_large16(signed16(a) - signed16(b) - cin),
                n: true,
                c: a < b + cin,
                y: f.y,
                x: f.x,
            })
        }),
{
    word_addition(c, a, b);
    word_addition_with_carry(c, a, b);
    word_subtraction(c, a, b);
}

#[verifier::rlimit(40)]
proof fn word_addition(c: Cpu, a: u16, b: u16)
    ensures
        ({
            let (d, r) = add16_spec(c, a, b);
            let f = flags_of(d.regs.f);
            &&& r == (a + b) % 0x1_0000
            &&& f == (Flags {
                h: a % 4096 + b % 4096 >= 4096,
                n: false,
                c: a + b >= 0x1_0000,
                y: f.y,
                x: f.x,
                ..flags_of(c.regs.f)
            })
        }),
{
    reveal(add16_spec);
    let r = a.wrapping_add(b);
    let h = a % 4096 + b % 4096 > 4095;
    copied(c.regs.f);
    copied(high(r));
    let f0 = c.regs.f & (FS | FZ | FP);
    flag_is_set(f0, FH, h);
    let f1 = set_if(f0, FH, h);
    flag_is_set(f1, FC, a + b > 65535);
    combined(set_if(f1, FC, a + b > 65535), high(r) & (FY | FX));
}

proof fn carry_in(c: Cpu)
    ensures
        c.regs.f & FC == (if flags_of(c.regs.f).c { 1int } else { 0 }),
{
    crate::bits::low_bits(c.regs.f as u32);
}

#[verifier::rlimit(40)]
proof fn word_addition_with_carry(c: Cpu, a: u16, b: u16)
    ensures
        ({
            let (d, r) = adc16_spec(c, a, b);
            let f = flags_of(d.regs.f);
            let cin = if flags_of(c.regs.f).c { 1int } else { 0 };
            &&& r == (a + b + cin) % 0x1_0000
            &&& f == (Flags {
                s: r >= 0x8000,
                z: r == 0,
                h: a % 4096 + b % 4096 + cin >= 4096,
                p: too_large16(signed16(a) + signed16(b) + cin),
                n: false,
                c: a + b + cin >= 0x1_0000,
                y: f.y,
                x: f.x,
            })
        }),
{
    crate::bits::read_as_signed(0, a, 0);
    crate::bits::read_as_signed(0, b, 0);
    reveal(adc16_spec);
    carry_in(c);
    let cin = (c.regs.f & FC) as u16;
    let r = adc16_spec(c, a, b).1;
    let h = a % 4096 + b % 4096 + cin > 4095;
    let p = too_large16(signed16(a) + signed16(b) + cin);
    let over = a + b + cin > 65535;
    word_flags(0, r, h, p, over);
}

#[verifier::rlimit(40)]
proof fn word_subtraction(c: Cpu, a: u16, b: u16)
    ensures
        ({
            let (d, r) = sbc16_spec(c, a, b);
            let f = flags_of(d.regs.f);
            let cin = if flags_of(c.regs.f).c { 1int } else { 0 };
            &&& r == (a - b - cin) % 0x1_0000
            &&& f == (Flags {
                s: r >= 0x8000,
                z: r == 0,
                h: a % 4096 < b % 4096 + cin,
                p: too_large16(signed16(a) - signed16(b) - cin),
                n: true,
                c: a < b + cin,
                y: f.y,
                x: f.x,
            })
        }),
{
    crate::bits::read_as_signed(0, a, 0);
    crate::bits::read_as_signed(0, b, 0);
    reveal(sbc16_spec);
    carry_in(c);
    let cin = (c.regs.f & FC) as u16;
    let r = sbc16_spec(c, a, b).1;
    let h = a % 4096 < b % 4096 + cin;
    let p = too_large16(signed16(a) - signed16(b) - cin);
    word_flags(FN, r, h, p, a < b + cin);
}

/// The flags of a word, set one after the other.
proof fn word_flags(f0: u8, r: u16, h: bool, p: bool, over: bool)
    requires
        f0 == 0 || f0 == FN,
    ensures
        ({
            let f = set_if(set_if(f0, FS, r >= 0x8000), FZ, r == 0);
            let f = set_if(set_if(set_if(f, FH, h), FP, p), FC, over) | (high(r) & (FY | FX));
            flags_of(f) == (Flags {
                s: r >= 0x8000,
                z: r == 0,
                h,
                p,
                n: f0 == FN,
                c: over,
                y: flags_of(f).y,
                x: flags_of(f).x,
            })
        }),
{
    one_flag(FN);
    flag_is_set(f0, FS, r >= 0x8000);
    let f1 = set_if(f0, FS, r >= 0x8000);
    flag_is_set(f1, FZ, r == 0);
    let f2 = set_if(f1, FZ, r == 0);
    flag_is_set(f2, FH, h);
    let f3 = set_if(f2, FH, h);
    flag_is_set(f3, FP, p);
    let f4 = set_if(f3, FP, p);
    flag_is_set(f4, FC, over);
    copied(high(r));
    combined(set_if(f4, FC, over), high(r) & (FY | FX));
}

}
