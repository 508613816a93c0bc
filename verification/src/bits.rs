//! Small facts that the rest of the crate builds on.
use vstd::prelude::*;

verus! {

/// Equality, as one fact about whole values.
pub open spec fn same<T>(x: T, y: T) -> bool {
    x == y
}

pub proof fn low_byte(w: u16)
    by (bit_vector)
    ensures
        w & 0xFF <= 0xFF,
        (w & 0xFF) as u8 == w as u8,
{
}

pub proof fn byte_pair(w: u16, h: u8, l: u8)
    by (bit_vector)
    ensures
        ((((w >> 8) as u8) as u16) << 8) | (((w & 0xFF) as u8) as u16) == w,
        ((((h as u16) << 8) | (l as u16)) >> 8) as u8 == h,
        ((((h as u16) << 8) | (l as u16)) & 0xFF) as u8 == l,
{
}

/// The low bits of a number.
pub proof fn low_bits(x: u32)
    by (bit_vector)
    ensures
        x & 1 <= 1,
        x & 1 == x % 2,
        x & 0x38 == x % 64 - x % 8,
        x & 0xFE == x % 256 - x % 2,
        x & 3 < 4,
        x & 7 < 8,
        x & 0x3F < 64,
        x & 0x3 == x % 0x4,
        x & 0x7 == x % 0x8,
        x & 0xF == x % 0x10,
        x & 0x1F == x % 0x20,
        x & 0x3F == x % 0x40,
        x & 0xFF == x % 0x100,
        x & 0x1FF == x % 0x200,
        x & 0xFFF == x % 0x1000,
        x & 0xFFFF == x % 0x10000,
        x >> 3 == x / 0x8,
        x >> 4 == x / 0x10,
        x >> 5 == x / 0x20,
        x >> 6 == x / 0x40,
        x >> 7 == x / 0x80,
        x >> 8 == x / 0x100,
        x >> 9 == x / 0x200,
        x >> 10 == x / 0x400,
        x >> 12 == x / 0x1000,
        x >> 16 == x / 0x10000,
        (x & 0x8 != 0) == ((x / 0x8) % 2 == 1),
        (x & 0x10 != 0) == ((x / 0x10) % 2 == 1),
        (x & 0x20 != 0) == ((x / 0x20) % 2 == 1),
        (x & 0x40 != 0) == ((x / 0x40) % 2 == 1),
        (x & 0x80 != 0) == ((x / 0x80) % 2 == 1),
        (x & 0x100 != 0) == ((x / 0x100) % 2 == 1),
        (x & 0x200 != 0) == ((x / 0x200) % 2 == 1),
        (x & 0x400 != 0) == ((x / 0x400) % 2 == 1),
        (x & 0x800 != 0) == ((x / 0x800) % 2 == 1),
        (x & 0x1000 != 0) == ((x / 0x1000) % 2 == 1),
        (x & 0x2000 != 0) == ((x / 0x2000) % 2 == 1),
        (x & 0x4000 != 0) == ((x / 0x4000) % 2 == 1),
        (x & 0x8000 != 0) == ((x / 0x8000) % 2 == 1),
{
}

pub proof fn one_bit(f: u8)
    ensures
        f & 1 <= 1,
{    low_bits(f as u32);
}

pub proof fn three_bits(x: u8)
    ensures
        x & 7 < 8,
{    low_bits(x as u32);
}

pub proof fn word_pair(v: u32, h: u16, l: u16)
    by (bit_vector)
    ensures
        ((((v >> 16) as u16) as u32) << 16) | (((v & 0xFFFF) as u16) as u32) == v,
        ((((h as u32) << 16) | (l as u32)) >> 16) as u16 == h,
        ((((h as u32) << 16) | (l as u32)) & 0xFFFF) as u16 == l,
{
}

pub proof fn three_bits16(x: u16)
    ensures
        x & 7 < 8,
{    low_bits(x as u32);
}

pub proof fn two_bits16(x: u16)
    ensures
        x & 3 < 4,
{    low_bits(x as u32);
}

pub proof fn six_bits(x: u32)
    ensures
        x & 0x3F < 64,
{    low_bits(x as u32);
}

pub proof fn power_doubles(m: usize)
    by (bit_vector)
    requires
        1 <= m,
        m & ((m - 1) as usize) == 0,
    ensures
        ((m * 2) as usize) & ((m * 2 - 1) as usize) == 0,
{
}

pub proof fn mask_bounds(x: usize, m: usize)
    by (bit_vector)
    ensures
        x & m <= m,
        x & m <= x,
{
}

pub proof fn mask_keeps(x: usize, m: usize)
    by (bit_vector)
    requires
        x < m,
        m & ((m - 1) as usize) == 0,
    ensures
        x & ((m - 1) as usize) == x,
{
}

pub proof fn four_planes(b0: u8, b1: u8, b2: u8, b3: u8, bit: u8)
    by (bit_vector)
    ensures
        ((b0 >> bit) & 1) | (((b1 >> bit) & 1) << 1) | (((b2 >> bit) & 1) << 2) | (((b3 >> bit) & 1)
            << 3) <= 15,
        ((b0 >> bit) & 1) | (((b1 >> bit) & 1) << 1) | (((b2 >> bit) & 1) << 2) | (((b3 >> bit) & 1)
            << 3) == (b0 >> bit) % 2 + 2 * ((b1 >> bit) % 2) + 4 * ((b2 >> bit) % 2) + 8 * ((b3
            >> bit) % 2),
{
}

pub proof fn pixel_address(tile: usize, x: usize, y: usize)
    by (bit_vector)
    requires
        x < 16,
        y < 16,
        tile < 0x100_0000 || (usize::BITS == 64 && tile < 0x1_0000_0000),
    ensures
        (tile << 8) | (y << 4) | x == 256 * tile + 16 * y + x,
{
}

pub proof fn low12(x: i32)
    by (bit_vector)
    ensures
        0 <= x & 0xFFF < 4096,
        0i32 & 0xFFF == 0,
        0 <= x < 4096 ==> x & 0xFFF == x,
        4096 <= x < 8192 ==> (x & 0xFFF) + 4096 == x,
        -4096 <= x < 0 ==> x & 0xFFF == x + 4096,
{
}

pub proof fn shifted_level(x: i32, s: u32)
    by (bit_vector)
    requires
        -491520 <= x <= 491520,
        s <= 12,
    ensures
        -0x8_0000 <= (x >> s) & !3 <= 0x8_0000,
        (0i32 >> s) & !3 == 0,
{
}

pub proof fn mix_bounds(x: i64)
    requires
        -0x8000_0000 <= x <= 0x7FFF_0000,
    ensures
        (x >> 16) * 0x1_0000 <= x < (x >> 16) * 0x1_0000 + 0x1_0000,
        -32768 <= x >> 16 <= 32767,
{
    floor_by_shift(x);
}

pub proof fn shifted_down(x: u16, s: u32)
    ensures
        x >> s <= x,
{    shifted_down32(x as u32, s);
}

pub proof fn floor_by_shift(x: i64)
    by (bit_vector)
    requires
        -0x8000_0000_0000 <= x <= 0x8000_0000_0000,
    ensures
        (x >> 16) * 0x1_0000 <= x < (x >> 16) * 0x1_0000 + 0x1_0000,
{
}

/// A small fraction of a difference does not overshoot it.
pub proof fn followed(e: i64)
    by (bit_vector)
    requires
        -0xFFFF_FFFF <= e <= 0xFFFF_FFFF,
    ensures
        e >= 0 ==> 0 <= ((e * 74) as i64) >> 16 <= e,
        e < 0 ==> e <= ((e * 74) as i64) >> 16 < 0,
        -0x8000_0000_0000 <= e * 74 <= 0x8000_0000_0000,
{
}

pub proof fn small_power(s: u32)
    requires
        s <= 11,
    ensures
        1 <= 1u32 << s <= 2048,
{    feedback_power(s);
}

pub proof fn octave_power(o: u32)
    requires
        o < 8,
    ensures
        1u32 << ((o + 5) as u32) <= 4096,
{    feedback_power((o + 5) as u32);
}

pub proof fn xor_zero(x: u8)
    ensures
        x ^ 0 == x,
{    exclusive_or_halves(x as usize, 0);
}

pub proof fn times_eight(x: u32)
    requires
        x < 0x1000_0000,
    ensures
        x << 3 == 8 * x,
{
    vstd::arithmetic::power2::lemma2_to64();
    vstd::bits::lemma_u32_shl_is_mul(x, 3);
}

pub proof fn shifted_down32(x: u32, s: u32)
    by (bit_vector)
    ensures
        x >> s <= x,
{
}

pub proof fn feedback_power(s: u32)
    by (bit_vector)
    requires
        s <= 13,
    ensures
        1 <= 1u32 << s <= 8192,
        s <= 12 ==> 1u32 << s <= 4096,
        s <= 11 ==> 1u32 << s <= 2048,
{
}

pub proof fn halved(x: i32)
    by (bit_vector)
    requires
        -32768 <= x <= 32767,
    ensures
        -16384 <= x >> 1 <= 16383,
        2 * (x >> 1) <= x <= 2 * (x >> 1) + 1,
{
}

pub proof fn scaled_level(x: i32)
    by (bit_vector)
    requires
        -8355840 <= x <= 8355840,
    ensures
        -16320 <= x >> 9 <= 16320,
{
}

/// Two flags are set and cleared one by one.
pub proof fn two_flags(x: u8)
    by (bit_vector)
    ensures
        (x | 1) & 1 != 0,
        (x | 2) & 2 != 0,
        (x | 2) & 1 == x & 1,
        (x & !1u8) & 1 == 0,
        (x & !1u8) & 2 == x & 2,
        (x & !2u8) & 2 == 0,
        (x & !2u8) & 1 == x & 1,
{
}

/// No bit of zero is set, wherever it is moved.
pub proof fn zero_has_no_bits()
    by (bit_vector)
    ensures
        0u8 & 7 == 0,
        0u8 & 8 == 0,
        1usize & 0 == 0,
        0i32 >> 1 == 0,
        0i32 >> 9 == 0,
{
}

pub proof fn one_nibble(r: u64, s: u32)
    by (bit_vector)
    ensures
        (r >> s) & 0xF < 16,
{
}

/// Twelve digits put together again are the register's low 48 bits.
pub proof fn nibbles_make_time(r: u64)
    by (bit_vector)
    ensures
        (((r >> 0) & 0xF) as u32 | (((r >> 4) & 0xF) as u32) << 4 | (((r >> 8) & 0xF) as u32) << 8
            | (((r >> 12) & 0xF) as u32) << 12 | (((r >> 16) & 0xF) as u32) << 16 | (((r >> 20)
            & 0xF) as u32) << 20 | (((r >> 24) & 0xF) as u32) << 24 | (((r >> 28) & 0xF) as u32)
            << 28) as u64 | (((((r >> 32) & 0xF) as u32 | (((r >> 36) & 0xF) as u32) << 4 | (((r
            >> 40) & 0xF) as u32) << 8 | (((r >> 44) & 0xF) as u32) << 12) as u64) << 32) == r
            & 0xFFFF_FFFF_FFFF,
{
}

pub proof fn small_digits(r: u64)
    ensures
        forall|s: u32| #[trigger] ((r >> s) & 0xF) < 16,
{
    assert forall|s: u32| #[trigger] ((r >> s) & 0xF) < 16 by {
        one_nibble(r, s);
    }
}

/// Each digit of a packed time is where it was put.
pub proof fn time_nibbles(
    a0: u32,
    a1: u32,
    b0: u32,
    b1: u32,
    c0: u32,
    c1: u32,
    d0: u32,
    d1: u32,
    e: u32,
    f: u32,
    g0: u32,
    g1: u32,
)
    by (bit_vector)
    requires
        a0 < 16,
        a1 < 16,
        b0 < 16,
        b1 < 16,
        c0 < 16,
        c1 < 16,
        d0 < 16,
        d1 < 16,
        e < 16,
        f < 16,
        g0 < 16,
        g1 < 16,
    ensures
        ({
            let r = ((a0 | (a1 << 4) | (b0 << 8) | (b1 << 12) | (c0 << 16) | (c1 << 20) | (d0 << 24)
                | (d1 << 28)) as u64) | (((e | (f << 4) | (g0 << 8) | (g1 << 12)) as u64) << 32);
            &&& (r >> 0) & 0xF == a0
            &&& (r >> 4) & 0xF == a1
            &&& (r >> 8) & 0xF == b0
            &&& (r >> 12) & 0xF == b1
            &&& (r >> 16) & 0xF == c0
            &&& (r >> 20) & 0xF == c1
            &&& (r >> 24) & 0xF == d0
            &&& (r >> 28) & 0xF == d1
            &&& (r >> 32) & 0xF == e
            &&& (r >> 36) & 0xF == f
            &&& (r >> 40) & 0xF == g0
            &&& (r >> 44) & 0xF == g1
        }),
{
}

pub open spec fn nibble_shift(r: u64, d: u64) -> u64 {
    (r & !0x0F00_0000u64) | ((((r >> 24) & 0xF) >> 1 | d) << 24)
}

/// Four bits shifted into the command nibble fill it.
pub proof fn four_shifts(r: u64, d0: u64, d1: u64, d2: u64, d3: u64)
    by (bit_vector)
    requires
        d0 == 0 || d0 == 8,
        d1 == 0 || d1 == 8,
        d2 == 0 || d2 == 8,
        d3 == 0 || d3 == 8,
    ensures
        (nibble_shift(nibble_shift(nibble_shift(nibble_shift(r, d0), d1), d2), d3) >> 24) & 0xF
            == d0 / 8 + d1 / 4 + d2 / 2 + d3,
{
}

/// The bits of a colour survive being taken apart and put together.
pub proof fn color_round_trip(pen: u16)
    by (bit_vector)
    ensures
        ({
            let gb = ((((pen & 0x00F0) >> 3) | ((pen & 0x2000) >> 13)) << 8) | (((pen & 0x000F)
                << 1) | ((pen & 0x1000) >> 12));
            let sr = (((pen & 0x8000) >> 15) << 8) | (((pen & 0x0F00) >> 7) | ((pen & 0x4000)
                >> 14));
            ((gb & 0x001E) >> 1) | ((gb & 0x1E00) >> 5) | ((sr & 0x001E) << 7) | ((gb & 0x0001)
                << 12) | ((gb & 0x0100) << 5) | ((sr & 0x0001) << 14) | ((sr & 0x0100) << 7) == pen
        }),
{
}

/// The rearranged bits, one after the other, are the exchange of two.
pub proof fn exchange_bits(i: u32)
    by (bit_vector)
    requires
        i < 0x100_0000,
    ensures
        ((((((((((((((((((((((((((((((((((((((((((((((((0u32 << 1) | ((i >> 23) & 1)) << 1) | ((i >> 22) & 1)) << 1) | ((i >> 21) & 1)) << 1) | ((i >> 20) & 1)) << 1) | ((i >> 19) & 1)) << 1) | ((i >> 18) & 1)) << 1) | ((i >> 17) & 1)) << 1) | ((i >> 0) & 1)) << 1) | ((i >> 15) & 1)) << 1) | ((i >> 14) & 1)) << 1) | ((i >> 13) & 1)) << 1) | ((i >> 12) & 1)) << 1) | ((i >> 11) & 1)) << 1) | ((i >> 10) & 1)) << 1) | ((i >> 9) & 1)) << 1) | ((i >> 8) & 1)) << 1) | ((i >> 7) & 1)) << 1) | ((i >> 6) & 1)) << 1) | ((i >> 5) & 1)) << 1) | ((i >> 4) & 1)) << 1) | ((i >> 3) & 1)) << 1) | ((i >> 2) & 1)) << 1) | ((i >> 1) & 1)) << 1) | ((i >> 16) & 1)) == (i & 0xFE_FFFE) | ((i & 1) << 16) | ((i >> 16) & 1),
{
}

/// An exclusive or, its lowest bit apart.
pub proof fn exclusive_or_halves(x: usize, y: usize)
    by (bit_vector)
    ensures
        x ^ y == 2 * ((x / 2) ^ (y / 2)) + (if x % 2 == y % 2 {
            0int
        } else {
            1
        }),
        x ^ 0 == x,
{
}

/// Exchanging two bits and an exclusive or can be undone.
pub proof fn exchange_undone(i: u32, x: u32)
    by (bit_vector)
    requires
        i < 0x100_0000,
        x < 0x100_0000,
    ensures
        ({
            let j = ((i & 0xFE_FFFE) | ((i & 1) << 16) | ((i >> 16) & 1)) ^ x;
            let k = j ^ x;
            let m = i ^ x;
            let n = (m & 0xFE_FFFE) | ((m & 1) << 16) | ((m >> 16) & 1);
            &&& j < 0x100_0000
            &&& (k & 0xFE_FFFE) | ((k & 1) << 16) | ((k >> 16) & 1) == i
            &&& n < 0x100_0000
            &&& ((n & 0xFE_FFFE) | ((n & 1) << 16) | ((n >> 16) & 1)) ^ x == i
        }),
{
}

/// One bit set or cleared, another looked at.
pub proof fn one_switch(x: u8, i: u32, j: u32)
    by (bit_vector)
    requires
        i < 8,
        j < 8,
    ensures
        ((x | (1u8 << i)) >> j) & 1 == if i == j {
            1u8
        } else {
            (x >> j) & 1
        },
        ((x & !(1u8 << i)) >> j) & 1 == if i == j {
            0u8
        } else {
            (x >> j) & 1
        },
        (x & (1u8 << i) == 0) == ((x >> i) % 2 == 0),
        (x >> i) % 2 == 1 ==> (x & !(1u8 << i)) + (1u8 << i) == x,
        (x >> i) % 2 == 0 ==> x & !(1u8 << i) == x,
        (x >> i) % 2 == 1 ==> x | (1u8 << i) == x,
        (x >> i) % 2 == 0 ==> x | (1u8 << i) == x + (1u8 << i),
{
}

pub proof fn inverted_bits(mask: u32, i: u32)
    by (bit_vector)
    requires
        i < 8,
    ensures
        (!((mask & 0xFF) as u8) >> i) & 1 == if (mask >> i) & 1 == 1 {
            0u8
        } else {
            1u8
        },
{
}

pub proof fn repacked(r: u8, g: u8, b: u8, a: u8)
    by (bit_vector)
    ensures
        ({
            let p = ((r as u32) << 24) | ((g as u32) << 16) | ((b as u32) << 8) | (a as u32);
            &&& p & 0xFF == a
            &&& ((p & 0xFF) << 24) | (p >> 8) == ((a as u32) << 24) | ((r as u32) << 16) | ((g as u32)
                << 8) | (b as u32)
        }),
{
}

/// Rotations by one place in either direction.
pub proof fn rotated(v: u8)
    by (bit_vector)
    ensures
        ({
            let l = (v << 1) | (v >> 7);
            let r = (v >> 1) | (v << 7);
            (l >> 1) | (l << 7) == v && (r << 1) | (r >> 7) == v
        }),
{
}

/// The flags of a sum or a difference, one by one.
pub proof fn sum_flags(r: u8, n: bool, h: bool, p: bool, c: bool)
    by (bit_vector)
    ensures
        ({
            let f0 = if r == 0 {
                (r & (0x80u8 | 0x20u8 | 0x08u8)) | 0x40u8
            } else {
                r & (0x80u8 | 0x20u8 | 0x08u8)
            };
            let with_n = if n {
                f0 | 0x02u8
            } else {
                f0
            };
            let f1 = if h {
                with_n | 0x10u8
            } else {
                with_n
            };
            let f2 = if p {
                f1 | 0x04u8
            } else {
                f1
            };
            let f3 = if c {
                f2 | 0x01u8
            } else {
                f2
            };
            &&& (f3 & 0x10u8 != 0) == h
            &&& (f3 & 0x01u8 != 0) == c
            &&& (f3 & 0x02u8 != 0) == n
        }),
{
}

/// Flags of a decimal adjustment.
pub proof fn adjusted_flags(r: u8, p: u8, n: bool, h: bool, c: bool)
    by (bit_vector)
    requires
        p == 0 || p == 4,
    ensures
        ({
            let f0 = (if r == 0 {
                (r & (0x80u8 | 0x20u8 | 0x08u8)) | 0x40u8
            } else {
                r & (0x80u8 | 0x20u8 | 0x08u8)
            }) | p;
            let f1 = if n {
                f0 | 0x02u8
            } else {
                f0
            };
            let f2 = if h {
                f1 | 0x10u8
            } else {
                f1
            };
            let f3 = if c {
                f2 | 0x01u8
            } else {
                f2
            };
            &&& (f3 & 0x01u8 != 0) == c
            &&& (f3 & 0x02u8 != 0) == n
            &&& (f3 & 0x40u8 != 0) == (r == 0)
        }),
{
}

/// The sum of two decimal bytes and a carry, corrected digit by digit.
pub proof fn decimal_sum(a: u8, b: u8, x: u8)
    by (bit_vector)
    requires
        a < 0xA0,
        a % 16 < 10,
        b < 0xA0,
        b % 16 < 10,
        x <= 1,
    ensures
        ({
            let r = ((a + b + x) % 256) as u8;
            let u = if r % 16 > 9 || a % 16 + b % 16 + x > 15 {
                6u8
            } else {
                0u8
            };
            let t = if r > 0x99 || a + b + x > 255 {
                0x60u8
            } else {
                0u8
            };
            let n = ((r + (u + t)) % 256) as u8;
            &&& n < 0xA0
            &&& n % 16 < 10
            &&& 10 * (n / 16) + n % 16 + (if r > 0x99 || a + b + x > 255 {
                100u8
            } else {
                0u8
            }) == 10 * (a / 16) + a % 16 + (10 * (b / 16) + b % 16) + x
        }),
{
}

/// The difference of two decimal bytes and a borrow, corrected digit by digit.
pub proof fn decimal_difference(a: u8, b: u8, x: u8)
    by (bit_vector)
    requires
        a < 0xA0,
        a % 16 < 10,
        b < 0xA0,
        b % 16 < 10,
        x <= 1,
    ensures
        ({
            let r = ((0x200 + a - b - x) % 256) as u8;
            let u = if r % 16 > 9 || a % 16 < b % 16 + x {
                6u8
            } else {
                0u8
            };
            let t = if r > 0x99 || a < b + x {
                0x60u8
            } else {
                0u8
            };
            let n = ((0x100 + r - (u + t)) % 256) as u8;
            let da = 10 * (a / 16) + a % 16;
            let db = 10 * (b / 16) + b % 16 + x;
            &&& n < 0xA0
            &&& n % 16 < 10
            &&& (r > 0x99 || a < b + x) == (da < db)
            &&& 10 * (n / 16) + n % 16 + db == da + (if da < db {
                100u8
            } else {
                0u8
            })
        }),
{
}

/// Decimal addition with a carry, corrected digit by digit.
pub proof fn decimal_with_carry(d: u8, s: u8, x: u8)
    by (bit_vector)
    requires
        d < 0xA0,
        d % 16 < 10,
        s < 0xA0,
        s % 16 < 10,
        x <= 1,
    ensures
        ({
            let raw = d + s + x;
            let low = if d % 16 + s % 16 + x > 9 {
                raw + 6
            } else {
                raw
            };
            let full = if low > 0x9F {
                low + 0x60
            } else {
                low
            };
            let r = (full % 256) as u8;
            &&& r < 0xA0
            &&& r % 16 < 10
            &&& 10 * (r / 16) + r % 16 + (if full >= 256 {
                100u8
            } else {
                0u8
            }) == 10 * (d / 16) + d % 16 + (10 * (s / 16) + s % 16) + x
        }),
{
}

/// Decimal subtraction with a borrow, corrected digit by digit.
pub proof fn decimal_with_borrow(d: u8, s: u8, x: u8)
    by (bit_vector)
    requires
        d < 0xA0,
        d % 16 < 10,
        s < 0xA0,
        s % 16 < 10,
        x <= 1,
    ensures
        ({
            let raw = d - s - x;
            let low = if d % 16 < s % 16 + x {
                raw - 6
            } else {
                raw
            };
            let full = if raw < 0 {
                low - 0x60
            } else {
                low
            };
            let r = if full < 0 {
                (full + 256) as u8
            } else {
                full as u8
            };
            &&& -256 <= full < 256
            &&& r < 0xA0
            &&& r % 16 < 10
            &&& 10 * (r / 16) + r % 16 - (if full < 0 {
                100u8
            } else {
                0u8
            }) == 10 * (d / 16) + d % 16 - (10 * (s / 16) + s % 16) - x
        }),
{
}

/// The fields of the two opcodes that save registers and load them back.
pub proof fn saving_opcodes(n: u16)
    by (bit_vector)
    requires
        n < 8,
    ensures
        (0x48E0 | n) & 0x0400 == 0,
        (0x48E0 | n) & 0x0040 != 0,
        ((0x48E0 | n) >> 3) & 7 == 4,
        (0x48E0 | n) & 7 == n,
        (0x4CD8 | n) & 0x0400 != 0,
        (0x4CD8 | n) & 0x0040 != 0,
        ((0x4CD8 | n) >> 3) & 7 == 3,
        (0x4CD8 | n) & 7 == n,
{
}

/// The flags of two extended additions of words, and those of the whole sum.
pub proof fn extended_flags(
    sr: u16,
    lo: u32,
    hi: u32,
    v1: bool,
    c1: bool,
    v2: bool,
    c2: bool,
)
    by (bit_vector)
    requires
        lo <= 0xFFFF,
        hi <= 0xFFFF,
        sr & 4 != 0,
    ensures
        ({
            let r = (0x1_0000 * hi + lo) as u32;
            let a = if lo & 0x8000 != 0 {
                sr | 8
            } else {
                sr & !8u16
            };
            let a = if lo == 0 {
                a
            } else {
                a & !4u16
            };
            let a = if v1 {
                a | 2
            } else {
                a & !2u16
            };
            let a = if c1 {
                a | 1
            } else {
                a & !1u16
            };
            let a = if c1 {
                a | 0x10
            } else {
                a & !0x10u16
            };
            let b = if hi & 0x8000 != 0 {
                a | 8
            } else {
                a & !8u16
            };
            let b = if hi == 0 {
                b
            } else {
                b & !4u16
            };
            let b = if v2 {
                b | 2
            } else {
                b & !2u16
            };
            let b = if c2 {
                b | 1
            } else {
                b & !1u16
            };
            let b = if c2 {
                b | 0x10
            } else {
                b & !0x10u16
            };
            let w = if r & 0x8000_0000 != 0 {
                sr | 8
            } else {
                sr & !8u16
            };
            let w = if r & 0xFFFF_FFFF == 0 {
                w | 4
            } else {
                w & !4u16
            };
            let w = if v2 {
                w | 2
            } else {
                w & !2u16
            };
            let w = if c2 {
                w | 1
            } else {
                w & !1u16
            };
            let w = if c2 {
                w | 0x10
            } else {
                w & !0x10u16
            };
            &&& (a & 0x10 != 0) == c1
            &&& b == w
            &&& (b & 0x10 != 0) == c2
            &&& (b & 1 != 0) == c2
            &&& (b & 2 != 0) == v2
            &&& (b & 4 != 0) == (r == 0)
            &&& (b & 8 != 0) == (r >= 0x8000_0000)
        }),
{
}

/// One step of a shift, in numbers, for operands of one, two and four bytes.
pub proof fn shifted_by_one(v: u32, w: u32)
    by (bit_vector)
    ensures
        (v & 1 != 0) == (v % 2 == 1),
        v < 0x80 ==> ((v << 1) | 0) & 0xFF == 2 * v,
        0x80 <= v <= 0xFF ==> (((v << 1) | 0) & 0xFF) + 0x100 == 2 * v,
        v < 0x80 ==> ((v << 1) | 1) & 0xFF == 2 * v + 1,
        0x80 <= v <= 0xFF ==> (((v << 1) | 1) & 0xFF) + 0x100 == 2 * v + 1,
        v <= 0xFF ==> (v >> 1) | 0 == v / 2,
        v <= 0xFF ==> (v >> 1) | 0x80 == v / 2 + 0x80,
        v < 0x8000 ==> ((v << 1) | 0) & 0xFFFF == 2 * v,
        0x8000 <= v <= 0xFFFF ==> (((v << 1) | 0) & 0xFFFF) + 0x1_0000 == 2 * v,
        v < 0x8000 ==> ((v << 1) | 1) & 0xFFFF == 2 * v + 1,
        0x8000 <= v <= 0xFFFF ==> (((v << 1) | 1) & 0xFFFF) + 0x1_0000 == 2 * v + 1,
        v <= 0xFFFF ==> (v >> 1) | 0 == v / 2,
        v <= 0xFFFF ==> (v >> 1) | 0x8000 == v / 2 + 0x8000,
        v < 0x8000_0000 ==> ((v << 1) | 0) & 0xFFFF_FFFF == 2 * v,
        v >= 0x8000_0000 ==> (((v << 1) | 0) & 0xFFFF_FFFF) + 0x1_0000_0000 == 2 * v,
        v < 0x8000_0000 ==> ((v << 1) | 1) & 0xFFFF_FFFF == 2 * v + 1,
        v >= 0x8000_0000 ==> (((v << 1) | 1) & 0xFFFF_FFFF) + 0x1_0000_0000 == 2 * v + 1,
        (v >> 1) | 0 == v / 2,
        (v >> 1) | 0x8000_0000 == v / 2 + 0x8000_0000,
        ((v ^ w) & 0x80 == 0) == ((v & 0x80 == 0) == (w & 0x80 == 0)),
        ((v ^ w) & 0x8000 == 0) == ((v & 0x8000 == 0) == (w & 0x8000 == 0)),
        ((v ^ w) & 0x8000_0000 == 0) == ((v & 0x8000_0000 == 0) == (w & 0x8000_0000 == 0)),
{
}

/// A flag set or cleared, and the others.
pub proof fn flag_set(sr: u16, m: u16, k: u16)
    by (bit_vector)
    requires
        m == 1 || m == 2 || m == 4 || m == 8 || m == 0x10,
        k == 1 || k == 2 || k == 4 || k == 8 || k == 0x10,
    ensures
        (sr | m) & m != 0,
        (sr & !m) & m == 0,
        m != k ==> (sr | m) & k == sr & k,
        m != k ==> (sr & !m) & k == sr & k,
        (sr | m) & 0xFFE0 == sr & 0xFFE0,
        (sr & !m) & 0xFFE0 == sr & 0xFFE0,
        ((sr | 0x2000) & !0x8000u16) & 0x2000 != 0,
{
}

/// The sign of an operand of one, two and four bytes.
pub proof fn sign_bits(v: u32)
    by (bit_vector)
    ensures
        (v & 0x80 != 0) == (v % 0x100 >= 0x80),
        (v & 0x8000 != 0) == (v % 0x1_0000 >= 0x8000),
        (v & 0x8000_0000 != 0) == (v >= 0x8000_0000),
        v & 0xFF == v % 0x100,
        v & 0xFFFF == v % 0x1_0000,
        v & 0xFFFF_FFFF == v,
{
}

/// One bit of a combination of bytes.
pub proof fn bit_of_bytes(f: u8, g: u8, m: u8, k: u8)
    by (bit_vector)
    requires
        m == 1 || m == 2 || m == 4 || m == 8 || m == 0x10 || m == 0x20 || m == 0x40 || m == 0x80,
        k == 1 || k == 2 || k == 4 || k == 8 || k == 0x10 || k == 0x20 || k == 0x40 || k == 0x80,
    ensures
        ((f | g) & k != 0) == (f & k != 0 || g & k != 0),
        ((f & g) & k != 0) == (f & k != 0 && g & k != 0),
        ((f ^ g) & k == 0) == ((f & k == 0) == (g & k == 0)),
        ((!f) & k != 0) == (f & k == 0),
        m == k ==> m & k != 0,
        m != k ==> m & k == 0,
        0u8 & k == 0,
{
}

/// The bits of a byte in numbers, and a byte shifted by one.
pub proof fn byte_in_bits(v: u8, f: u8)
    by (bit_vector)
    ensures
        (v & 0x80 != 0) == (v / 128 == 1),
        (v & 0x40 != 0) == ((v / 64) % 2 == 1),
        (v & 0x20 != 0) == ((v / 32) % 2 == 1),
        (v & 0x10 != 0) == ((v / 16) % 2 == 1),
        (v & 8 != 0) == ((v / 8) % 2 == 1),
        (v & 4 != 0) == ((v / 4) % 2 == 1),
        (v & 2 != 0) == ((v / 2) % 2 == 1),
        (v & 1 != 0) == (v % 2 == 1),
        v >> 7 == v / 128,
        v & 1 == v % 2,
        v < 0x80 ==> (v << 1) | (v >> 7) == 2 * v,
        v >= 0x80 ==> ((v << 1) | (v >> 7)) + 255 == 2 * v,
        v % 2 == 0 ==> (v >> 1) | (v << 7) == v / 2,
        v % 2 == 1 ==> (v >> 1) | (v << 7) == v / 2 + 0x80,
        v < 0x80 ==> (v << 1) | (f & 1) == 2 * v + f % 2,
        v >= 0x80 ==> ((v << 1) | (f & 1)) + 0x100 == 2 * v + f % 2,
        f % 2 == 0 ==> (v >> 1) | ((f & 1) << 7) == v / 2,
        f % 2 == 1 ==> (v >> 1) | ((f & 1) << 7) == v / 2 + 0x80,
        v < 0x80 ==> v << 1 == 2 * v,
        v >= 0x80 ==> (v << 1) + 0x100 == 2 * v,
        v < 0x80 ==> (v >> 1) | (v & 0x80) == v / 2,
        v >= 0x80 ==> (v >> 1) | (v & 0x80) == v / 2 + 0x80,
        v < 0x80 ==> (v << 1) | 1 == 2 * v + 1,
        v >= 0x80 ==> ((v << 1) | 1) + 0x100 == 2 * v + 1,
        v >> 1 == v / 2,
        (f & 1) << 4 == 16 * (f % 2),
        (f & 1) ^ 1 == 1 - f % 2,
{
}

/// Bytes, words and long words read as signed.
pub proof fn read_as_signed(a: u8, b: u16, d: u32)
    by (bit_vector)
    ensures
        a < 0x80 ==> (a as i8) == a,
        a >= 0x80 ==> (a as i8) == a - 0x100,
        a < 0x80 ==> (a as i8 as i16 as u16) == a,
        a >= 0x80 ==> (a as i8 as i16 as u16) == a + 0xFF00,
        b < 0x8000 ==> (b as i16) == b,
        b >= 0x8000 ==> (b as i16) == b - 0x1_0000,
        d < 0x8000_0000 ==> (d as i32) == d,
        d >= 0x8000_0000 ==> (d as i32) == d - 0x1_0000_0000,
{
}

/// A mask of sixteen ones has every bit.
pub proof fn sixteen_ones(k: u16)
    requires
        k < 16,
    ensures
        (0xFFFFu16 >> k) & 1 == 1,
{
    shown_columns();
}

/// The columns that are shown at each width.
pub proof fn shown_columns()
    by (bit_vector)
    ensures
        (0x0080u16 >> 0u16) & 1 == 0,
        (0x0080u16 >> 1u16) & 1 == 0,
        (0x0080u16 >> 2u16) & 1 == 0,
        (0x0080u16 >> 3u16) & 1 == 0,
        (0x0080u16 >> 4u16) & 1 == 0,
        (0x0080u16 >> 5u16) & 1 == 0,
        (0x0080u16 >> 6u16) & 1 == 0,
        (0x0080u16 >> 7u16) & 1 == 1,
        (0x0080u16 >> 8u16) & 1 == 0,
        (0x0080u16 >> 9u16) & 1 == 0,
        (0x0080u16 >> 10u16) & 1 == 0,
        (0x0080u16 >> 11u16) & 1 == 0,
        (0x0080u16 >> 12u16) & 1 == 0,
        (0x0080u16 >> 13u16) & 1 == 0,
        (0x0080u16 >> 14u16) & 1 == 0,
        (0x0080u16 >> 15u16) & 1 == 0,
        (0x0880u16 >> 0u16) & 1 == 0,
        (0x0880u16 >> 1u16) & 1 == 0,
        (0x0880u16 >> 2u16) & 1 == 0,
        (0x0880u16 >> 3u16) & 1 == 0,
        (0x0880u16 >> 4u16) & 1 == 0,
        (0x0880u16 >> 5u16) & 1 == 0,
        (0x0880u16 >> 6u16) & 1 == 0,
        (0x0880u16 >> 7u16) & 1 == 1,
        (0x0880u16 >> 8u16) & 1 == 0,
        (0x0880u16 >> 9u16) & 1 == 0,
        (0x0880u16 >> 10u16) & 1 == 0,
        (0x0880u16 >> 11u16) & 1 == 1,
        (0x0880u16 >> 12u16) & 1 == 0,
        (0x0880u16 >> 13u16) & 1 == 0,
        (0x0880u16 >> 14u16) & 1 == 0,
        (0x0880u16 >> 15u16) & 1 == 0,
        (0x0888u16 >> 0u16) & 1 == 0,
        (0x0888u16 >> 1u16) & 1 == 0,
        (0x0888u16 >> 2u16) & 1 == 0,
        (0x0888u16 >> 3u16) & 1 == 1,
        (0x0888u16 >> 4u16) & 1 == 0,
        (0x0888u16 >> 5u16) & 1 == 0,
        (0x0888u16 >> 6u16) & 1 == 0,
        (0x0888u16 >> 7u16) & 1 == 1,
        (0x0888u16 >> 8u16) & 1 == 0,
        (0x0888u16 >> 9u16) & 1 == 0,
        (0x0888u16 >> 10u16) & 1 == 0,
        (0x0888u16 >> 11u16) & 1 == 1,
        (0x0888u16 >> 12u16) & 1 == 0,
        (0x0888u16 >> 13u16) & 1 == 0,
        (0x0888u16 >> 14u16) & 1 == 0,
        (0x0888u16 >> 15u16) & 1 == 0,
        (0x2888u16 >> 0u16) & 1 == 0,
        (0x2888u16 >> 1u16) & 1 == 0,
        (0x2888u16 >> 2u16) & 1 == 0,
        (0x2888u16 >> 3u16) & 1 == 1,
        (0x2888u16 >> 4u16) & 1 == 0,
        (0x2888u16 >> 5u16) & 1 == 0,
        (0x2888u16 >> 6u16) & 1 == 0,
        (0x2888u16 >> 7u16) & 1 == 1,
        (0x2888u16 >> 8u16) & 1 == 0,
        (0x2888u16 >> 9u16) & 1 == 0,
        (0x2888u16 >> 10u16) & 1 == 0,
        (0x2888u16 >> 11u16) & 1 == 1,
        (0x2888u16 >> 12u16) & 1 == 0,
        (0x2888u16 >> 13u16) & 1 == 1,
        (0x2888u16 >> 14u16) & 1 == 0,
        (0x2888u16 >> 15u16) & 1 == 0,
        (0x288Au16 >> 0u16) & 1 == 0,
        (0x288Au16 >> 1u16) & 1 == 1,
        (0x288Au16 >> 2u16) & 1 == 0,
        (0x288Au16 >> 3u16) & 1 == 1,
        (0x288Au16 >> 4u16) & 1 == 0,
        (0x288Au16 >> 5u16) & 1 == 0,
        (0x288Au16 >> 6u16) & 1 == 0,
        (0x288Au16 >> 7u16) & 1 == 1,
        (0x288Au16 >> 8u16) & 1 == 0,
        (0x288Au16 >> 9u16) & 1 == 0,
        (0x288Au16 >> 10u16) & 1 == 0,
        (0x288Au16 >> 11u16) & 1 == 1,
        (0x288Au16 >> 12u16) & 1 == 0,
        (0x288Au16 >> 13u16) & 1 == 1,
        (0x288Au16 >> 14u16) & 1 == 0,
        (0x288Au16 >> 15u16) & 1 == 0,
        (0x2A8Au16 >> 0u16) & 1 == 0,
        (0x2A8Au16 >> 1u16) & 1 == 1,
        (0x2A8Au16 >> 2u16) & 1 == 0,
        (0x2A8Au16 >> 3u16) & 1 == 1,
        (0x2A8Au16 >> 4u16) & 1 == 0,
        (0x2A8Au16 >> 5u16) & 1 == 0,
        (0x2A8Au16 >> 6u16) & 1 == 0,
        (0x2A8Au16 >> 7u16) & 1 == 1,
        (0x2A8Au16 >> 8u16) & 1 == 0,
        (0x2A8Au16 >> 9u16) & 1 == 1,
        (0x2A8Au16 >> 10u16) & 1 == 0,
        (0x2A8Au16 >> 11u16) & 1 == 1,
        (0x2A8Au16 >> 12u16) & 1 == 0,
        (0x2A8Au16 >> 13u16) & 1 == 1,
        (0x2A8Au16 >> 14u16) & 1 == 0,
        (0x2A8Au16 >> 15u16) & 1 == 0,
        (0x2AAAu16 >> 0u16) & 1 == 0,
        (0x2AAAu16 >> 1u16) & 1 == 1,
        (0x2AAAu16 >> 2u16) & 1 == 0,
        (0x2AAAu16 >> 3u16) & 1 == 1,
        (0x2AAAu16 >> 4u16) & 1 == 0,
        (0x2AAAu16 >> 5u16) & 1 == 1,
        (0x2AAAu16 >> 6u16) & 1 == 0,
        (0x2AAAu16 >> 7u16) & 1 == 1,
        (0x2AAAu16 >> 8u16) & 1 == 0,
        (0x2AAAu16 >> 9u16) & 1 == 1,
        (0x2AAAu16 >> 10u16) & 1 == 0,
        (0x2AAAu16 >> 11u16) & 1 == 1,
        (0x2AAAu16 >> 12u16) & 1 == 0,
        (0x2AAAu16 >> 13u16) & 1 == 1,
        (0x2AAAu16 >> 14u16) & 1 == 0,
        (0x2AAAu16 >> 15u16) & 1 == 0,
        (0xAAAAu16 >> 0u16) & 1 == 0,
        (0xAAAAu16 >> 1u16) & 1 == 1,
        (0xAAAAu16 >> 2u16) & 1 == 0,
        (0xAAAAu16 >> 3u16) & 1 == 1,
        (0xAAAAu16 >> 4u16) & 1 == 0,
        (0xAAAAu16 >> 5u16) & 1 == 1,
        (0xAAAAu16 >> 6u16) & 1 == 0,
        (0xAAAAu16 >> 7u16) & 1 == 1,
        (0xAAAAu16 >> 8u16) & 1 == 0,
        (0xAAAAu16 >> 9u16) & 1 == 1,
        (0xAAAAu16 >> 10u16) & 1 == 0,
        (0xAAAAu16 >> 11u16) & 1 == 1,
        (0xAAAAu16 >> 12u16) & 1 == 0,
        (0xAAAAu16 >> 13u16) & 1 == 1,
        (0xAAAAu16 >> 14u16) & 1 == 0,
        (0xAAAAu16 >> 15u16) & 1 == 1,
        (0xAAEAu16 >> 0u16) & 1 == 0,
        (0xAAEAu16 >> 1u16) & 1 == 1,
        (0xAAEAu16 >> 2u16) & 1 == 0,
        (0xAAEAu16 >> 3u16) & 1 == 1,
        (0xAAEAu16 >> 4u16) & 1 == 0,
        (0xAAEAu16 >> 5u16) & 1 == 1,
        (0xAAEAu16 >> 6u16) & 1 == 1,
        (0xAAEAu16 >> 7u16) & 1 == 1,
        (0xAAEAu16 >> 8u16) & 1 == 0,
        (0xAAEAu16 >> 9u16) & 1 == 1,
        (0xAAEAu16 >> 10u16) & 1 == 0,
        (0xAAEAu16 >> 11u16) & 1 == 1,
        (0xAAEAu16 >> 12u16) & 1 == 0,
        (0xAAEAu16 >> 13u16) & 1 == 1,
        (0xAAEAu16 >> 14u16) & 1 == 0,
        (0xAAEAu16 >> 15u16) & 1 == 1,
        (0xBAEAu16 >> 0u16) & 1 == 0,
        (0xBAEAu16 >> 1u16) & 1 == 1,
        (0xBAEAu16 >> 2u16) & 1 == 0,
        (0xBAEAu16 >> 3u16) & 1 == 1,
        (0xBAEAu16 >> 4u16) & 1 == 0,
        (0xBAEAu16 >> 5u16) & 1 == 1,
        (0xBAEAu16 >> 6u16) & 1 == 1,
        (0xBAEAu16 >> 7u16) & 1 == 1,
        (0xBAEAu16 >> 8u16) & 1 == 0,
        (0xBAEAu16 >> 9u16) & 1 == 1,
        (0xBAEAu16 >> 10u16) & 1 == 0,
        (0xBAEAu16 >> 11u16) & 1 == 1,
        (0xBAEAu16 >> 12u16) & 1 == 1,
        (0xBAEAu16 >> 13u16) & 1 == 1,
        (0xBAEAu16 >> 14u16) & 1 == 0,
        (0xBAEAu16 >> 15u16) & 1 == 1,
        (0xBAEBu16 >> 0u16) & 1 == 1,
        (0xBAEBu16 >> 1u16) & 1 == 1,
        (0xBAEBu16 >> 2u16) & 1 == 0,
        (0xBAEBu16 >> 3u16) & 1 == 1,
        (0xBAEBu16 >> 4u16) & 1 == 0,
        (0xBAEBu16 >> 5u16) & 1 == 1,
        (0xBAEBu16 >> 6u16) & 1 == 1,
        (0xBAEBu16 >> 7u16) & 1 == 1,
        (0xBAEBu16 >> 8u16) & 1 == 0,
        (0xBAEBu16 >> 9u16) & 1 == 1,
        (0xBAEBu16 >> 10u16) & 1 == 0,
        (0xBAEBu16 >> 11u16) & 1 == 1,
        (0xBAEBu16 >> 12u16) & 1 == 1,
        (0xBAEBu16 >> 13u16) & 1 == 1,
        (0xBAEBu16 >> 14u16) & 1 == 0,
        (0xBAEBu16 >> 15u16) & 1 == 1,
        (0xBBEBu16 >> 0u16) & 1 == 1,
        (0xBBEBu16 >> 1u16) & 1 == 1,
        (0xBBEBu16 >> 2u16) & 1 == 0,
        (0xBBEBu16 >> 3u16) & 1 == 1,
        (0xBBEBu16 >> 4u16) & 1 == 0,
        (0xBBEBu16 >> 5u16) & 1 == 1,
        (0xBBEBu16 >> 6u16) & 1 == 1,
        (0xBBEBu16 >> 7u16) & 1 == 1,
        (0xBBEBu16 >> 8u16) & 1 == 1,
        (0xBBEBu16 >> 9u16) & 1 == 1,
        (0xBBEBu16 >> 10u16) & 1 == 0,
        (0xBBEBu16 >> 11u16) & 1 == 1,
        (0xBBEBu16 >> 12u16) & 1 == 1,
        (0xBBEBu16 >> 13u16) & 1 == 1,
        (0xBBEBu16 >> 14u16) & 1 == 0,
        (0xBBEBu16 >> 15u16) & 1 == 1,
        (0xBBEFu16 >> 0u16) & 1 == 1,
        (0xBBEFu16 >> 1u16) & 1 == 1,
        (0xBBEFu16 >> 2u16) & 1 == 1,
        (0xBBEFu16 >> 3u16) & 1 == 1,
        (0xBBEFu16 >> 4u16) & 1 == 0,
        (0xBBEFu16 >> 5u16) & 1 == 1,
        (0xBBEFu16 >> 6u16) & 1 == 1,
        (0xBBEFu16 >> 7u16) & 1 == 1,
        (0xBBEFu16 >> 8u16) & 1 == 1,
        (0xBBEFu16 >> 9u16) & 1 == 1,
        (0xBBEFu16 >> 10u16) & 1 == 0,
        (0xBBEFu16 >> 11u16) & 1 == 1,
        (0xBBEFu16 >> 12u16) & 1 == 1,
        (0xBBEFu16 >> 13u16) & 1 == 1,
        (0xBBEFu16 >> 14u16) & 1 == 0,
        (0xBBEFu16 >> 15u16) & 1 == 1,
        (0xFBEFu16 >> 0u16) & 1 == 1,
        (0xFBEFu16 >> 1u16) & 1 == 1,
        (0xFBEFu16 >> 2u16) & 1 == 1,
        (0xFBEFu16 >> 3u16) & 1 == 1,
        (0xFBEFu16 >> 4u16) & 1 == 0,
        (0xFBEFu16 >> 5u16) & 1 == 1,
        (0xFBEFu16 >> 6u16) & 1 == 1,
        (0xFBEFu16 >> 7u16) & 1 == 1,
        (0xFBEFu16 >> 8u16) & 1 == 1,
        (0xFBEFu16 >> 9u16) & 1 == 1,
        (0xFBEFu16 >> 10u16) & 1 == 0,
        (0xFBEFu16 >> 11u16) & 1 == 1,
        (0xFBEFu16 >> 12u16) & 1 == 1,
        (0xFBEFu16 >> 13u16) & 1 == 1,
        (0xFBEFu16 >> 14u16) & 1 == 1,
        (0xFBEFu16 >> 15u16) & 1 == 1,
        (0xFBFFu16 >> 0u16) & 1 == 1,
        (0xFBFFu16 >> 1u16) & 1 == 1,
        (0xFBFFu16 >> 2u16) & 1 == 1,
        (0xFBFFu16 >> 3u16) & 1 == 1,
        (0xFBFFu16 >> 4u16) & 1 == 1,
        (0xFBFFu16 >> 5u16) & 1 == 1,
        (0xFBFFu16 >> 6u16) & 1 == 1,
        (0xFBFFu16 >> 7u16) & 1 == 1,
        (0xFBFFu16 >> 8u16) & 1 == 1,
        (0xFBFFu16 >> 9u16) & 1 == 1,
        (0xFBFFu16 >> 10u16) & 1 == 0,
        (0xFBFFu16 >> 11u16) & 1 == 1,
        (0xFBFFu16 >> 12u16) & 1 == 1,
        (0xFBFFu16 >> 13u16) & 1 == 1,
        (0xFBFFu16 >> 14u16) & 1 == 1,
        (0xFBFFu16 >> 15u16) & 1 == 1,
        (0xFFFFu16 >> 0u16) & 1 == 1,
        (0xFFFFu16 >> 1u16) & 1 == 1,
        (0xFFFFu16 >> 2u16) & 1 == 1,
        (0xFFFFu16 >> 3u16) & 1 == 1,
        (0xFFFFu16 >> 4u16) & 1 == 1,
        (0xFFFFu16 >> 5u16) & 1 == 1,
        (0xFFFFu16 >> 6u16) & 1 == 1,
        (0xFFFFu16 >> 7u16) & 1 == 1,
        (0xFFFFu16 >> 8u16) & 1 == 1,
        (0xFFFFu16 >> 9u16) & 1 == 1,
        (0xFFFFu16 >> 10u16) & 1 == 1,
        (0xFFFFu16 >> 11u16) & 1 == 1,
        (0xFFFFu16 >> 12u16) & 1 == 1,
        (0xFFFFu16 >> 13u16) & 1 == 1,
        (0xFFFFu16 >> 14u16) & 1 == 1,
        (0xFFFFu16 >> 15u16) & 1 == 1,
        forall|k: u16| k < 16 && (0x0080u16 >> k) & 1 == 1 ==> #[trigger] (0x0880u16 >> k) & 1 == 1,
        forall|k: u16| k < 16 && (0x0880u16 >> k) & 1 == 1 ==> #[trigger] (0x0888u16 >> k) & 1 == 1,
        forall|k: u16| k < 16 && (0x0888u16 >> k) & 1 == 1 ==> #[trigger] (0x2888u16 >> k) & 1 == 1,
        forall|k: u16| k < 16 && (0x2888u16 >> k) & 1 == 1 ==> #[trigger] (0x288Au16 >> k) & 1 == 1,
        forall|k: u16| k < 16 && (0x288Au16 >> k) & 1 == 1 ==> #[trigger] (0x2A8Au16 >> k) & 1 == 1,
        forall|k: u16| k < 16 && (0x2A8Au16 >> k) & 1 == 1 ==> #[trigger] (0x2AAAu16 >> k) & 1 == 1,
        forall|k: u16| k < 16 && (0x2AAAu16 >> k) & 1 == 1 ==> #[trigger] (0xAAAAu16 >> k) & 1 == 1,
        forall|k: u16| k < 16 && (0xAAAAu16 >> k) & 1 == 1 ==> #[trigger] (0xAAEAu16 >> k) & 1 == 1,
        forall|k: u16| k < 16 && (0xAAEAu16 >> k) & 1 == 1 ==> #[trigger] (0xBAEAu16 >> k) & 1 == 1,
        forall|k: u16| k < 16 && (0xBAEAu16 >> k) & 1 == 1 ==> #[trigger] (0xBAEBu16 >> k) & 1 == 1,
        forall|k: u16| k < 16 && (0xBAEBu16 >> k) & 1 == 1 ==> #[trigger] (0xBBEBu16 >> k) & 1 == 1,
        forall|k: u16| k < 16 && (0xBBEBu16 >> k) & 1 == 1 ==> #[trigger] (0xBBEFu16 >> k) & 1 == 1,
        forall|k: u16| k < 16 && (0xBBEFu16 >> k) & 1 == 1 ==> #[trigger] (0xFBEFu16 >> k) & 1 == 1,
        forall|k: u16| k < 16 && (0xFBEFu16 >> k) & 1 == 1 ==> #[trigger] (0xFBFFu16 >> k) & 1 == 1,
        forall|k: u16| k < 16 && (0xFBFFu16 >> k) & 1 == 1 ==> #[trigger] (0xFFFFu16 >> k) & 1 == 1,
{
}

/// A word from two bytes, and a color from three channels.
pub proof fn packed_channels(hi: u8, lo: u8, r: u8, g: u8, b: u8)
    by (bit_vector)
    ensures
        ((hi as u16) << 8) | (lo as u16) == 256 * hi + lo,
        ((r as u32) << 24) | ((g as u32) << 16) | ((b as u32) << 8) | (0xFFu8 as u32) == 0x100_0000
            * r + 0x1_0000 * g + 0x100 * b + 0xFF,
{
}

/// One bit of a long word turned over, cleared and set; two words joined; the
/// complement within one, two and four bytes; bytes and words extended.
#[verifier::rlimit(60)]
pub proof fn long_word_bits(v: u32, k: u32, h: u16, l: u16)
    by (bit_vector)
    requires
        k < 32,
    ensures
        (v & (1u32 << k) == 0) == ((v >> k) % 2 == 0),
        (v >> k) % 2 == 1 ==> (v ^ (1u32 << k)) + (1u32 << k) == v,
        (v >> k) % 2 == 0 ==> v ^ (1u32 << k) == v + (1u32 << k),
        (v >> k) % 2 == 1 ==> (v & !(1u32 << k)) + (1u32 << k) == v,
        (v >> k) % 2 == 0 ==> v & !(1u32 << k) == v,
        (v >> k) % 2 == 1 ==> v | (1u32 << k) == v,
        (v >> k) % 2 == 0 ==> v | (1u32 << k) == v + (1u32 << k),
        ((h as u32) << 16) | (l as u32) == 0x1_0000 * h + l,
        v <= 0xFF ==> (!v) & 0xFF == 0xFF - v,
        v <= 0xFFFF ==> (!v) & 0xFFFF == 0xFFFF - v,
        (!v) & 0xFFFF_FFFF == 0xFFFF_FFFF - v,
        v % 0x100 < 0x80 ==> (v as u8 as i8 as i32 as u32) == v % 0x100,
        v % 0x100 >= 0x80 ==> (v as u8 as i8 as i32 as u32) == v % 0x100 + 0xFFFF_FF00,
        v % 0x1_0000 < 0x8000 ==> (v as u16 as i16 as i32 as u32) == v % 0x1_0000,
        v % 0x1_0000 >= 0x8000 ==> (v as u16 as i16 as i32 as u32) == v % 0x1_0000 + 0xFFFF_0000,
{
}

/// The low bits of a long word replaced by those of another; halves exchanged.
pub proof fn merged_bits(v: u32, w: u32)
    by (bit_vector)
    ensures
        (v & !0xFFu32) | (w & 0xFF) == v - v % 0x100 + w % 0x100,
        (v & !0xFFFFu32) | (w & 0xFFFF) == v - v % 0x1_0000 + w % 0x1_0000,
        (v & !0xFFFF_FFFFu32) | (w & 0xFFFF_FFFF) == w,
        (v & 0xFFFF_0000) | (w % 0x1_0000) == v - v % 0x1_0000 + w % 0x1_0000,
        (v >> 16) | (v << 16) == v / 0x1_0000 + 0x1_0000 * (v % 0x1_0000),
{
}

/// The fields of an opcode.
pub proof fn opcode_bits(op: u16)
    by (bit_vector)
    ensures
        (op >> 12) & 0xF == op / 4096,
        op & 7 == op % 8,
        (op >> 9) & 7 == (op / 512) % 8,
        (op >> 9) & 3 == (op / 512) % 4,
        (op >> 6) & 7 == (op / 64) % 8,
        (op >> 6) & 3 == (op / 64) % 4,
        (op >> 6) & 0x3F == (op / 64) % 64,
        (op >> 3) & 7 == (op / 8) % 8,
        (op >> 3) & 3 == (op / 8) % 4,
        (op >> 8) & 0xF == (op / 256) % 16,
        op & 0x3F == op % 64,
        op & 0xFF == op % 256,
        (op & 0x3F) & 7 == op % 8,
        ((op & 0x3F) >> 3) & 7 == (op / 8) % 8,
        (op & 0x0100 != 0) == ((op / 256) % 2 == 1),
        (op & 0x20 != 0) == ((op / 32) % 2 == 1),
        (op & 8 != 0) == ((op / 8) % 2 == 1),
        ((op >> 6) & 7) & 3 == (op / 64) % 4,
        (((op >> 6) & 7) & 4 != 0) == ((op / 256) % 2 == 1),
        ((((op >> 6) & 0x3F) & 7) << 3) | ((((op >> 6) & 0x3F) >> 3) & 7) == 8 * ((op / 64) % 8) + (
        op / 512) % 8,
        (op & 0xF1F0 == 0x8100) == (op / 4096 == 8 && (op / 16) % 32 == 16),
        (op & 0xF1F0 == 0xC100) == (op / 4096 == 12 && (op / 16) % 32 == 16),
        (op & 0xF130 == 0xC100) == (op / 4096 == 12 && (op / 256) % 2 == 1 && (op / 16) % 4 == 0),
        (op >> 3) & 0x1F == (op / 8) % 32,
{
}

}
