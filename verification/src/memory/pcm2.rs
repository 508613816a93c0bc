//! Sample ROMs as the NEO-PCM2 stores them, put back in order.
use vstd::prelude::*;
use vstd::arithmetic::power2::is_pow2;
use crate::memory::prot::bitswap_of;
use crate::text::{reads, spells};

verus! {

/// For each of seven sets, where reading begins and what is exclusive-ored into
/// the addresses written.
pub const ADDRS: [(u32, u32); 7] = [
    (0x00_0000, 0xA_5000),
    (0xFF_CE20, 0x0_1000),
    (0xFE_2CF6, 0x4_E001),
    (0xFF_AC28, 0xC_2000),
    (0xFE_B2C0, 0x0_A000),
    (0xFF_14EA, 0xA_7001),
    (0xFF_B440, 0x0_2000),
];

/// For each set, what is exclusive-ored into the data, by the low three bits of
/// the address.
pub const XORDATA: [[u8; 8]; 7] = [
    [0xF9, 0xE0, 0x5D, 0xF3, 0xEA, 0x92, 0xBE, 0xEF],
    [0xC4, 0x83, 0xA8, 0x5F, 0x21, 0x27, 0x64, 0xAF],
    [0xC3, 0xFD, 0x81, 0xAC, 0x6D, 0xE7, 0xBF, 0x9E],
    [0xC3, 0xFD, 0x81, 0xAC, 0x6D, 0xE7, 0xBF, 0x9E],
    [0xCB, 0x29, 0x7D, 0x43, 0xD2, 0x3A, 0xC2, 0xB4],
    [0x4B, 0xA4, 0x63, 0x46, 0xF0, 0x91, 0xEA, 0x62],
    [0x4B, 0xA4, 0x63, 0x46, 0xF0, 0x91, 0xEA, 0x62],
];

/// Addresses in order of their bits, the lowest exchanged with the seventeenth.
pub const SWAP_BITS: [u32; 24] = [
    23, 22, 21, 20, 19, 18, 17, 0, 15, 14, 13, 12, 11, 10, 9, 8, 7, 6, 5, 4, 3, 2, 1, 16,
];

/// The partner of byte `i` in the other half of its block.
pub open spec fn partner(i: int, block: int) -> int {
    if i % block < block / 2 {
        i + block / 2
    } else {
        i - block / 2
    }
}

/// Data with the halves of every whole block exchanged.
pub open spec fn halves_swapped(s: Seq<u8>, block: int) -> Seq<u8> {
    Seq::new(
        s.len(),
        |i: int|
            if i / block < s.len() as int / block {
                s[partner(i, block)]
            } else {
                s[i]
            },
    )
}

proof fn in_block(q: int, r: int, block: int)
    requires
        block > 0,
        0 <= r < block,
        q >= 0,
    ensures
        (q * block + r) / block == q,
        (q * block + r) % block == r,
{
    vstd::arithmetic::div_mod::lemma_fundamental_div_mod_converse(q * block + r, block, q, r);
}

/// A byte and its partner are in the same block, in different halves.
proof fn partners(i: int, block: int)
    requires
        i >= 0,
        block >= 2,
        block % 2 == 0,
    ensures
        partner(i, block) >= 0,
        partner(i, block) / block == i / block,
        partner(partner(i, block), block) == i,
{
    let q = i / block;
    let r = i % block;
    vstd::arithmetic::div_mod::lemma_fundamental_div_mod(i, block);
    assert(q >= 0 && 0 <= r < block) by {
        vstd::arithmetic::div_mod::lemma_div_pos_is_pos(i, block);
        vstd::arithmetic::div_mod::lemma_mod_bound(i, block);
    }
    assert(block * q == q * block) by (nonlinear_arith);
    if r < block / 2 {
        in_block(q, r + block / 2, block);
    } else {
        in_block(q, r - block / 2, block);
    }
}

/// What lies in a whole block lies in the data.
proof fn whole_block(i: int, block: int, n: int)
    requires
        i >= 0,
        n >= 0,
        block >= 2,
        i / block < n / block,
    ensures
        i < n,
{
    vstd::arithmetic::div_mod::lemma_fundamental_div_mod(i, block);
    vstd::arithmetic::div_mod::lemma_fundamental_div_mod(n, block);
    vstd::arithmetic::div_mod::lemma_mod_bound(i, block);
    vstd::arithmetic::div_mod::lemma_mod_bound(n, block);
    let qi = i / block;
    let qn = n / block;
    assert(block * qi + block <= block * qn) by (nonlinear_arith)
        requires
            qi + 1 <= qn,
            block >= 2,
    ;
}

/// Exchanging the halves twice changes nothing.
pub proof fn decryption_undoes_itself(s: Seq<u8>, block: int)
    requires
        block >= 2,
        block % 2 == 0,
    ensures
        halves_swapped(halves_swapped(s, block), block) == s,
{
    let t = halves_swapped(s, block);
    assert forall|i: int| 0 <= i < s.len() implies halves_swapped(t, block)[i] == s[i] by {
        partners(i, block);
        if i / block < s.len() as int / block {
            whole_block(partner(i, block), block, s.len() as int);
        }
    }
    assert(halves_swapped(t, block) =~= s);
}

/// The partner of a byte in blocks of twice `half` is found by one bit.
proof fn partner_by_one_bit(i: usize, half: usize)
    requires
        half >= 1,
        is_pow2(half as int),
    ensures
        i ^ half == partner(i as int, 2 * half),
    decreases half,
{
    crate::bits::exclusive_or_halves(i, half);
    crate::bits::exclusive_or_halves(i / 2, half / 2);
    if half > 1 {
        reveal_with_fuel(is_pow2, 2);
        partner_by_one_bit(i / 2, half / 2);
        let q = (i as int / 2) / half as int;
        let r = (i as int / 2) % half as int;
        vstd::arithmetic::div_mod::lemma_fundamental_div_mod(i as int / 2, half as int);
        vstd::arithmetic::div_mod::lemma_mod_bound(i as int / 2, half as int);
        assert(i as int == q * (2 * half) + 2 * r + i as int % 2) by (nonlinear_arith)
            requires
                i as int / 2 == half * q + r,
                i as int == 2 * (i as int / 2) + i as int % 2,
        ;
        vstd::arithmetic::div_mod::lemma_fundamental_div_mod_converse(
            i as int,
            2 * half,
            q,
            2 * r + i as int % 2,
        );
    }
}

/// Every byte of a whole block comes from the place whose address differs in the
/// one bit of half a block; what follows the whole blocks stays.
pub proof fn decryption_is_exclusive_or(s: Seq<u8>, value: usize, o: usize)
    requires
        value >= 4,
        is_pow2(value as int),
        o < s.len(),
    ensures
        ({
            let full = s.len() - s.len() as int % value as int;
            let from = o ^ ((value / 2) as usize);
            &&& o < full ==> from < full && halves_swapped(s, value as int)[o as int]
                == s[from as int]
            &&& o >= full ==> halves_swapped(s, value as int)[o as int] == s[o as int]
        }),
{
    reveal_with_fuel(is_pow2, 2);
    let block = value as int;
    let n = s.len() as int;
    let full = n - n % block;
    partner_by_one_bit(o, (value / 2) as usize);
    partners(o as int, block);
    vstd::arithmetic::div_mod::lemma_fundamental_div_mod(n, block);
    vstd::arithmetic::div_mod::lemma_mod_bound(n, block);
    let q = n / block;
    assert(full == q * block) by (nonlinear_arith)
        requires
            full == block * q,
    ;
    in_block(q, 0, block);
    if o < full {
        vstd::arithmetic::div_mod::lemma_fundamental_div_mod(o as int, block);
        vstd::arithmetic::div_mod::lemma_mod_bound(o as int, block);
        let k = o as int / block;
        assert(k < q) by (nonlinear_arith)
            requires
                block * k <= o,
                o < q * block,
                block > 0,
        ;
        whole_block(partner(o as int, block), block, full);
    } else {
        vstd::arithmetic::div_mod::lemma_div_is_ordered(full, o as int, block);
    }
}

/// The earlier scheme: exchange the halves of blocks of `value` bytes, a power of
/// two from four on. A last, shorter block stays.
pub fn pcm2_decrypt(ymrom: &mut [u8], value: usize)
    requires
        value >= 4,
        is_pow2(value as int),
    ensures
        final(ymrom)@ == halves_swapped(old(ymrom)@, value as int),
{
    let ghost s = ymrom@;
    let ghost block = value as int;
    proof {
        assert(value % 2 == 0) by {
            reveal_with_fuel(is_pow2, 2);
        }
    }
    let half: usize = value / 2;
    let ghost h = half as int;
    let n: usize = ymrom.len();
    let blocks: usize = n / value;
    let mut b: usize = 0;
    proof {
        vstd::arithmetic::div_mod::lemma_fundamental_div_mod(n as int, block);
        vstd::arithmetic::div_mod::lemma_mod_bound(n as int, block);
        assert(block * blocks == blocks * block) by (nonlinear_arith);
    }
    while b < blocks
        invariant
            b <= blocks,
            value >= 4,
            block == value,
            value % 2 == 0,
            half == value / 2,
            h == half,
            n == s.len(),
            ymrom@.len() == s.len(),
            blocks == n as int / block,
            blocks * block <= n,
            forall|i: int|
                0 <= i < s.len() ==> #[trigger] ymrom@[i] == if i / block < b {
                    halves_swapped(s, block)[i]
                } else {
                    s[i]
                },
        decreases blocks - b,
    {
        assert(b * block + block <= blocks * block) by (nonlinear_arith)
            requires
                b + 1 <= blocks,
                block >= 4,
        ;
        assert(0 <= b * block) by (nonlinear_arith)
            requires
                block >= 4,
                b >= 0,
        ;
        let start: usize = b * value;
        let mut j: usize = 0;
        while j < half
            invariant
                j <= half,
                b < blocks,
                value >= 4,
                block == value,
                value % 2 == 0,
                half == value / 2,
                h == half,
                n == s.len(),
                ymrom@.len() == s.len(),
                blocks == n as int / block,
                start == b * block,
                start + block <= n,
                forall|i: int|
                    0 <= i < s.len() ==> #[trigger] ymrom@[i] == if i / block < b || i / block == b
                        && (i % block) % h < j {
                        halves_swapped(s, block)[i]
                    } else {
                        s[i]
                    },
            decreases half - j,
        {
            let lo: usize = start + j;
            let hi: usize = start + j + half;
            proof {
                in_block(b as int, j as int, block);
                in_block(b as int, j + half, block);
                assert((j + half) % h == j) by {
                    in_block(1, j as int, h);
                }
                assert(j as int % h == j) by {
                    in_block(0, j as int, h);
                }
            }
            let ghost before = ymrom@;
            let x: u8 = ymrom[lo];
            let y: u8 = ymrom[hi];
            ymrom[lo] = y;
            ymrom[hi] = x;
            proof {
                assert forall|i: int| 0 <= i < s.len() implies #[trigger] ymrom@[i] == if i / block
                    < b || i / block == b && (i % block) % h < j + 1 {
                    halves_swapped(s, block)[i]
                } else {
                    s[i]
                } by {
                    vstd::arithmetic::div_mod::lemma_fundamental_div_mod(i, block);
                    vstd::arithmetic::div_mod::lemma_mod_bound(i, block);
                    let q = i / block;
                    let r = i % block;
                    assert(block * q == q * block) by (nonlinear_arith);
                    if i == lo || i == hi {
                    } else {
                        assert(before[i] == ymrom@[i]);
                        if q == b {
                            if r < half {
                                in_block(0, r, h);
                            } else {
                                in_block(1, r - half, h);
                            }
                        }
                    }
                }
            }
            j = j + 1;
        }
        proof {
            assert forall|i: int| 0 <= i < s.len() implies #[trigger] ymrom@[i] == if i / block < b
                + 1 {
                halves_swapped(s, block)[i]
            } else {
                s[i]
            } by {
                vstd::arithmetic::div_mod::lemma_mod_bound(i % block, h);
            }
        }
        b = b + 1;
    }
    assert(ymrom@ =~= halves_swapped(s, block));
}

/// An address with its lowest bit and its seventeenth exchanged.
#[verifier::allow_in_spec]
pub fn exchanged(i: u32) -> u32
    returns
        (i & 0xFE_FFFE) | ((i & 1) << 16) | ((i >> 16) & 1),
{
    (i & 0xFE_FFFE) | ((i & 1) << 16) | ((i >> 16) & 1)
}

/// The address that byte `i` is written to.
#[verifier::allow_in_spec]
pub fn scrambled(i: u32, addr_xor: u32) -> u32
    returns
        exchanged(i) ^ addr_xor,
{
    exchanged(i) ^ addr_xor
}

/// The exchange is the rearrangement of bits in the table.
pub proof fn exchange_is_bitswap(i: u32)
    requires
        i < 0x100_0000,
    ensures
        bitswap_of(i, SWAP_BITS@) == exchanged(i),
{
    let s = SWAP_BITS@;
    unroll(i, s, 24);
    reveal_with_fuel(bits_to, 25);
    assert(s.take(24) =~= s);
    crate::bits::exchange_bits(i);
}

/// The first `n` places of a rearrangement.
pub open spec fn bits_to(v: u32, s: Seq<u32>, n: int) -> u32
    decreases n,
{
    if n <= 0 {
        0
    } else {
        (bits_to(v, s, n - 1) << 1) | ((v >> s[n - 1]) & 1)
    }
}

proof fn unroll(v: u32, s: Seq<u32>, n: int)
    requires
        0 <= n <= s.len(),
    ensures
        bitswap_of(v, s.take(n)) == bits_to(v, s, n),
    decreases n,
{
    if n > 0 {
        unroll(v, s, n - 1);
        assert(s.take(n).drop_last() =~= s.take(n - 1));
    }
}

/// Every address is written exactly once: scrambling is undone by the exchange of
/// the exclusive or, and stays within its 24 bits.
pub proof fn scrambling_is_a_permutation(i: u32, addr_xor: u32)
    requires
        i < 0x100_0000,
        addr_xor < 0x100_0000,
    ensures
        scrambled(i, addr_xor) < 0x100_0000,
        exchanged(scrambled(i, addr_xor) ^ addr_xor) == i,
        scrambled(exchanged(i ^ addr_xor), addr_xor) == i,
        exchanged(i ^ addr_xor) < 0x100_0000,
{
    crate::bits::exchange_undone(i, addr_xor);
}

/// Parameters of a set are within their bounds.
proof fn tables_are_small(row: int)
    requires
        0 <= row < 7,
    ensures
        ADDRS@[row].0 < 0x100_0000,
        ADDRS@[row].1 < 0x100_0000,
{
}

/// The data put in order: byte `j` comes from the place that is scrambled to it,
/// moved by the offset and exclusive-ored.
pub open spec fn unscrambled(s: Seq<u8>, off: u32, addr_xor: u32, xor: Seq<u8>) -> Seq<u8> {
    Seq::new(
        s.len(),
        |j: int|
            if j < 0x100_0000 {
                s[(exchanged((j as u32) ^ addr_xor) + off) % 0x100_0000] ^ xor[j % 8]
            } else {
                s[j]
            },
    )
}

fn unscramble(ymrom: &mut [u8], off: u32, addr_xor: u32, xor: [u8; 8])
    requires
        old(ymrom)@.len() >= 0x100_0000,
        off < 0x100_0000,
        addr_xor < 0x100_0000,
    ensures
        final(ymrom)@ == unscrambled(old(ymrom)@, off, addr_xor, xor@),
{
    let ghost s = ymrom@;
    let mut buf: Vec<u8> = Vec::new();
    buf.extend_from_slice(ymrom);
    assert(buf@ =~= s);
    let mut j: u32 = 0;
    while j < 0x100_0000
        invariant
            j <= 0x100_0000,
            s.len() >= 0x100_0000,
            off < 0x100_0000,
            addr_xor < 0x100_0000,
            buf@ == s,
            ymrom@.len() == s.len(),
            forall|k: int|
                0 <= k < j ==> #[trigger] ymrom@[k] == unscrambled(s, off, addr_xor, xor@)[k],
            forall|k: int| j <= k < s.len() ==> #[trigger] ymrom@[k] == s[k],
        decreases 0x100_0000 - j,
    {
        proof {
            scrambling_is_a_permutation(j, addr_xor);
        }
        let i: u32 = exchanged(j ^ addr_xor);
        let d: usize = ((i + off) % 0x100_0000) as usize;
        ymrom[j as usize] = buf[d] ^ xor[(j % 8) as usize];
        j = j + 1;
    }
    assert(ymrom@ =~= unscrambled(s, off, addr_xor, xor@));
}

/// The later scheme, over the first sixteen megabytes: `value` is the set.
pub fn pcm2_swap(ymrom: &mut [u8], value: usize)
    requires
        old(ymrom)@.len() >= 0x100_0000,
        value < 7,
    ensures
        final(ymrom)@ == unscrambled(
            old(ymrom)@,
            ADDRS@[value as int].0,
            ADDRS@[value as int].1,
            XORDATA@[value as int]@,
        ),
{
    proof {
        tables_are_small(value as int);
    }
    let addrs: [(u32, u32); 7] = ADDRS;
    let xors: [[u8; 8]; 7] = XORDATA;
    let (off, addr_xor): (u32, u32) = addrs[value];
    unscramble(ymrom, off, addr_xor, xors[value]);
}

/// Byte `i` of the source ends up where scrambling sends it.
pub proof fn bytes_go_where_scrambled(s: Seq<u8>, off: u32, addr_xor: u32, xor: Seq<u8>, i: u32)
    requires
        s.len() >= 0x100_0000,
        i < 0x100_0000,
        off < 0x100_0000,
        addr_xor < 0x100_0000,
    ensures
        unscrambled(s, off, addr_xor, xor)[scrambled(i, addr_xor) as int] == s[(i + off)
            % 0x100_0000] ^ xor[scrambled(i, addr_xor) as int % 8],
{
    scrambling_is_a_permutation(i, addr_xor);
}

/// How a set stores its samples.
#[derive(Debug, Clone, Copy, PartialEq, Eq, Structural)]
pub enum Pcm2Mode {
    /// The earlier scheme, with its block size.
    Decrypt(usize),
    /// The later scheme, with its set.
    Swap(usize),
}

/// The scheme of a set, by its name.
pub open spec fn pcm2_of(name: Seq<char>) -> Option<Pcm2Mode> {
    if spells(name, "mslug4"@) || spells(name, "ms4plus"@) {
        Some(Pcm2Mode::Decrypt(8))
    } else if spells(name, "rotd"@) {
        Some(Pcm2Mode::Decrypt(16))
    } else if spells(name, "pnyaa"@) {
        Some(Pcm2Mode::Decrypt(4))
    } else if spells(name, "kof2002"@) {
        Some(Pcm2Mode::Swap(0))
    } else if spells(name, "matrim"@) {
        Some(Pcm2Mode::Swap(1))
    } else if spells(name, "mslug5"@) || spells(name, "mslug5h"@) {
        Some(Pcm2Mode::Swap(2))
    } else if spells(name, "svc"@) {
        Some(Pcm2Mode::Swap(3))
    } else if spells(name, "samsho5"@) || spells(name, "samsho5h"@) {
        Some(Pcm2Mode::Swap(4))
    } else if spells(name, "kof2003"@) || spells(name, "kof2003h"@) {
        Some(Pcm2Mode::Swap(5))
    } else if spells(name, "samsh5sp"@) || spells(name, "samsh5sph"@) || spells(
        name,
        "samsh5spho"@,
    ) {
        Some(Pcm2Mode::Swap(6))
    } else {
        None
    }
}

/// Which scheme a set uses; none if its samples are plain.
pub fn detect_pcm2(name: &str) -> (mode: Option<Pcm2Mode>)
    ensures
        mode == pcm2_of(name@),
{
    if reads(name, "mslug4") || reads(name, "ms4plus") {
        Some(Pcm2Mode::Decrypt(8))
    } else if reads(name, "rotd") {
        Some(Pcm2Mode::Decrypt(16))
    } else if reads(name, "pnyaa") {
        Some(Pcm2Mode::Decrypt(4))
    } else if reads(name, "kof2002") {
        Some(Pcm2Mode::Swap(0))
    } else if reads(name, "matrim") {
        Some(Pcm2Mode::Swap(1))
    } else if reads(name, "mslug5") || reads(name, "mslug5h") {
        Some(Pcm2Mode::Swap(2))
    } else if reads(name, "svc") {
        Some(Pcm2Mode::Swap(3))
    } else if reads(name, "samsho5") || reads(name, "samsho5h") {
        Some(Pcm2Mode::Swap(4))
    } else if reads(name, "kof2003") || reads(name, "kof2003h") {
        Some(Pcm2Mode::Swap(5))
    } else if reads(name, "samsh5sp") || reads(name, "samsh5sph") || reads(name, "samsh5spho") {
        Some(Pcm2Mode::Swap(6))
    } else {
        None
    }
}

}
