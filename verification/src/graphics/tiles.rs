//! Colours and tile pixels.
use vstd::prelude::*;
use crate::graphics::palette_lut::{level, level_of};

verus! {

/// Width of the frame, the whole raster.
pub const SCREEN_W: usize = 320;

pub const SCREEN_H: usize = 224;

/// Width of the area that cabinets show: eight pixels less on either side.
pub const ACTIVE_W: usize = 304;

/// Where that area starts.
pub const ACTIVE_X_OFFSET: usize = 8;

/// A colour as 0xRRGGBBAA.
#[verifier::allow_in_spec]
pub fn pack_rgba(r: u8, g: u8, b: u8, a: u8) -> u32
    returns
        ((r as u32) << 24) | ((g as u32) << 16) | ((b as u32) << 8) | (a as u32),
{
    ((r as u32) << 24) | ((g as u32) << 16) | ((b as u32) << 8) | (a as u32)
}

/// The five-bit code of a channel: four high bits at `shift`, and a low bit of
/// its own at `low`, both given as powers of two.
pub open spec fn channel_code(word: u16, shift: int, low: int) -> int {
    2 * ((word as int / shift) % 16) + (word as int / low) % 2
}

/// The ladder column of a palette word: its top bit darkens, and the screen
/// shadow line darkens further.
pub open spec fn ladder_column(word: u16, shadow: bool) -> int {
    word as int / 0x8000 + (if shadow {
        2int
    } else {
        0int
    })
}

/// The colour of a palette word. Bits 11 to 8, 7 to 4 and 3 to 0 are red, green
/// and blue; bits 14, 13 and 12 are their low bits.
pub open spec fn word_rgb(word: u16, shadow: bool) -> (u8, u8, u8) {
    let column = ladder_column(word, shadow);
    (
        level_of(channel_code(word, 0x100, 0x4000), column),
        level_of(channel_code(word, 0x10, 0x2000), column),
        level_of(channel_code(word, 1, 0x1000), column),
    )
}

pub fn palette_word_to_rgb(word: u16, screen_shadow: bool) -> (rgb: (u8, u8, u8))
    ensures
        rgb == word_rgb(word, screen_shadow),
{
    let w: usize = word as usize;
    let column: usize = w / 0x8000 + (if screen_shadow {
        2
    } else {
        0
    });
    let r: usize = 2 * ((w / 0x100) % 16) + (w / 0x4000) % 2;
    let g: usize = 2 * ((w / 0x10) % 16) + (w / 0x2000) % 2;
    let b: usize = 2 * (w % 16) + (w / 0x1000) % 2;
    (level(r, column), level(g, column), level(b, column))
}

/// The colour of palette entry `idx` of a bank; zero past the end of the
/// palette memory.
pub open spec fn palette_color(pal: Seq<u8>, idx: int, bank: u8, shadow: bool) -> u32 {
    let off = (bank as int % 2) * 0x2000 + (idx % 0x1000) * 2;
    if off + 1 >= pal.len() {
        0
    } else {
        let word = ((pal[off] as u16) << 8) | (pal[off + 1] as u16);
        let (r, g, b) = word_rgb(word, shadow);
        pack_rgba(r, g, b, 0xFF)
    }
}

/// Whether a color is fully opaque.
pub open spec fn is_opaque(rgba: u32) -> bool {
    rgba & 0xFF == 0xFF
}

/// Every entry of a palette memory of both banks is opaque.
pub proof fn palette_is_opaque(pal: Seq<u8>, idx: int, bank: u8, shadow: bool)
    requires
        pal.len() >= 0x4000,
        idx >= 0,
    ensures
        is_opaque(palette_color(pal, idx, bank, shadow)),
{
    let off = (bank as int % 2) * 0x2000 + (idx % 0x1000) * 2;
    let word = ((pal[off] as u16) << 8) | (pal[off + 1] as u16);
    let (r, g, b) = word_rgb(word, shadow);
    crate::bits::repacked(r, g, b, 0xFF);
}

pub fn lookup_palette(palette_ram: &[u8], idx: u16, palette_bank: u8, screen_shadow: bool) -> (rgba:
    u32)
    ensures
        rgba == palette_color(palette_ram@, idx as int, palette_bank, screen_shadow),
{
    let off: usize = (palette_bank as usize % 2) * 0x2000 + (idx as usize % 0x1000) * 2;
    if off + 1 >= palette_ram.len() {
        return 0;
    }
    let word: u16 = ((palette_ram[off] as u16) << 8) | (palette_ram[off + 1] as u16);
    let (r, g, b): (u8, u8, u8) = palette_word_to_rgb(word, screen_shadow);
    pack_rgba(r, g, b, 0xFF)
}

/// Where the column pair of a fix tile starts within the tile: the right half
/// comes first.
pub open spec fn fix_group_offset(col: int) -> int {
    let group = col / 2;
    if group == 0 {
        16
    } else if group == 1 {
        24
    } else if group == 2 {
        0
    } else {
        8
    }
}

/// Pixel (`x`, `y`) of fix tile `tile`, four bits: eight bytes per column pair,
/// the left pixel in the low half. Zero past the end of the ROM.
pub open spec fn fix_pixel_of(s_rom: Seq<u8>, tile: int, x: int, y: int) -> u8 {
    if 32 * tile + 32 > s_rom.len() {
        0
    } else {
        let byte = s_rom[32 * tile + fix_group_offset(x % 8) + y % 8];
        if x % 2 == 0 {
            (byte % 16) as u8
        } else {
            (byte / 16) as u8
        }
    }
}

pub fn fix_tile_pixel(s_rom: &[u8], tile_no: u32, x: u8, y: u8) -> (c: u8)
    ensures
        c == fix_pixel_of(s_rom@, tile_no as int, x as int, y as int),
        c < 16,
{
    let row: usize = (y % 8) as usize;
    let col: usize = (x % 8) as usize;
    if tile_no as u64 * 32 + 32 > s_rom.len() as u64 {
        return 0;
    }
    let group: usize = match col / 2 {
        0 => 16,
        1 => 24,
        2 => 0,
        _ => 8,
    };
    let byte: u8 = s_rom[tile_no as usize * 32 + group + row];
    if x % 2 == 0 {
        byte % 16
    } else {
        byte / 16
    }
}

/// Byte `a` of a ROM; zero past its end.
pub open spec fn byte_or_zero(rom: Seq<u8>, a: int) -> u8 {
    if 0 <= a < rom.len() {
        rom[a]
    } else {
        0
    }
}

/// Bit `bit` of each of four plane bytes, the first plane lowest.
#[verifier::allow_in_spec]
pub fn planes(b0: u8, b1: u8, b2: u8, b3: u8, bit: u8) -> u8
    requires
        bit < 8,
    returns
        ((b0 >> bit) & 1) | (((b1 >> bit) & 1) << 1) | (((b2 >> bit) & 1) << 2) | (((b3 >> bit)
            & 1) << 3),
{
    ((b0 >> bit) & 1) | (((b1 >> bit) & 1) << 1) | (((b2 >> bit) & 1) << 2) | (((b3 >> bit) & 1)
        << 3)
}

/// Where row `y` of the half tile that holds column `x` starts in each ROM of a
/// pair: sixty-four bytes a tile, the right half first, two bytes a row.
pub open spec fn half_row(tile: int, x: int, y: int) -> int {
    64 * tile + (if x < 8 {
        32int
    } else {
        0int
    }) + 2 * y
}

/// Pixel (`x`, `y`) of sprite tile `tile` of one ROM pair. The even ROM holds
/// planes 0 and 1 of a row, the odd ROM planes 2 and 3.
pub open spec fn pair_pixel(even: Seq<u8>, odd: Seq<u8>, tile: int, x: int, y: int) -> u8 {
    let a = half_row(tile, x, y);
    planes(
        byte_or_zero(even, a),
        byte_or_zero(even, a + 1),
        byte_or_zero(odd, a),
        byte_or_zero(odd, a + 1),
        (x % 8) as u8,
    )
}

fn get_or_zero(rom: &Vec<u8>, a: usize) -> (b: u8)
    ensures
        b == byte_or_zero(rom@, a as int),
{
    if a < rom.len() {
        rom[a]
    } else {
        0
    }
}

/// Pixel (`x`, `y`) of sprite tile `tile`, the pairs being taken as equally
/// long as the first.
pub open spec fn sprite_pixel_of(c_roms: Seq<Vec<u8>>, tile: int, x: int, y: int) -> u8 {
    if c_roms.len() < 2 || c_roms[0]@.len() < 64 {
        0
    } else {
        let per_pair = c_roms[0]@.len() as int / 64;
        let pair = tile / per_pair;
        if 2 * pair + 1 >= c_roms.len() {
            0
        } else {
            pair_pixel(c_roms[2 * pair]@, c_roms[2 * pair + 1]@, tile % per_pair, x % 16, y % 16)
        }
    }
}

/// A pixel of a sprite tile, four bits; zero is transparent.
pub fn sprite_tile_pixel(c_roms: &[Vec<u8>], tile_no: u32, x: u8, y: u8) -> (c: u8)
    ensures
        c == sprite_pixel_of(c_roms@, tile_no as int, x as int, y as int),
{
    if c_roms.len() < 2 {
        return 0;
    }
    let per_pair: usize = c_roms[0].len() / 64;
    if per_pair == 0 {
        return 0;
    }
    let pair: usize = tile_no as usize / per_pair;
    let tile: usize = tile_no as usize % per_pair;
    if pair >= c_roms.len() / 2 {
        return 0;
    }
    let even: &Vec<u8> = &c_roms[2 * pair];
    let odd: &Vec<u8> = &c_roms[2 * pair + 1];
    let row: usize = (y % 16) as usize;
    let col: usize = (x % 16) as usize;
    let a: usize = 64 * tile + (if col < 8 {
        32
    } else {
        0
    }) + 2 * row;
    planes(
        get_or_zero(even, a),
        get_or_zero(even, a + 1),
        get_or_zero(odd, a),
        get_or_zero(odd, a + 1),
        (col % 8) as u8,
    )
}

/// How many tiles pair `p` holds: none unless both ROMs have the same length.
pub open spec fn pair_tiles(c_roms: Seq<Vec<u8>>, p: int) -> int {
    if c_roms[2 * p]@.len() == c_roms[2 * p + 1]@.len() {
        c_roms[2 * p]@.len() as int / 64
    } else {
        0
    }
}

/// How many tiles the pairs before pair `p` hold together.
pub open spec fn tiles_before(c_roms: Seq<Vec<u8>>, p: int) -> int
    decreases p,
{
    if p <= 0 {
        0
    } else {
        tiles_before(c_roms, p - 1) + pair_tiles(c_roms, p - 1)
    }
}

/// How many tiles there are in all.
pub open spec fn tile_count(c_roms: Seq<Vec<u8>>) -> int {
    tiles_before(c_roms, c_roms.len() as int / 2)
}

/// Pixel `i` of the decoded region, looking from pair `p` on: tiles of 256
/// pixels, row by row.
pub open spec fn decoded_from(c_roms: Seq<Vec<u8>>, p: int, i: int) -> u8
    decreases c_roms.len() - 2 * p,
{
    if p < 0 || 2 * p + 1 >= c_roms.len() {
        0
    } else {
        let tile = i / 256 - tiles_before(c_roms, p);
        if tile < pair_tiles(c_roms, p) {
            pair_pixel(c_roms[2 * p]@, c_roms[2 * p + 1]@, tile, i % 16, (i / 16) % 16)
        } else {
            decoded_from(c_roms, p + 1, i)
        }
    }
}

/// The least power of two that is not below `n`.
pub open spec fn is_power_ceiling(m: int, n: int) -> bool {
    &&& exists|k: nat| m == #[trigger] vstd::arithmetic::power2::pow2(k)
    &&& m >= n
    &&& m == 1 || m < 2 * n
}

/// The decoded region has room for a power of two of tiles.
pub open spec fn is_decoded(c_roms: Seq<Vec<u8>>, out: Seq<u8>) -> bool {
    let n = tile_count(c_roms);
    if n == 0 {
        out.len() == 0
    } else {
        &&& out.len() % 256 == 0
        &&& is_power_ceiling(out.len() as int / 256, n)
        &&& forall|i: int| 0 <= i < out.len() ==> #[trigger] out[i] == decoded_from(c_roms, 0, i)
    }
}


proof fn tiles_before_grows(c_roms: Seq<Vec<u8>>, p: int, q: int)
    requires
        0 <= p <= q,
    ensures
        0 <= tiles_before(c_roms, p) <= tiles_before(c_roms, q),
    decreases q,
{
    if p < q {
        tiles_before_grows(c_roms, p, q - 1);
    } else if p > 0 {
        tiles_before_grows(c_roms, p - 1, p - 1);
    }
}

/// A pixel past the tiles of the first `p` pairs is found from pair `p` on.
proof fn decoded_from_later(c_roms: Seq<Vec<u8>>, p: int, i: int)
    requires
        0 <= p,
        2 * p <= c_roms.len(),
        tiles_before(c_roms, p) <= i / 256,
    ensures
        decoded_from(c_roms, 0, i) == decoded_from(c_roms, p, i),
    decreases p,
{
    if p > 0 {
        tiles_before_grows(c_roms, p - 1, p);
        decoded_from_later(c_roms, p - 1, i);
    }
}

/// Past the last tile there is nothing.
proof fn decoded_from_end(c_roms: Seq<Vec<u8>>, i: int)
    requires
        tile_count(c_roms) <= i / 256,
    ensures
        decoded_from(c_roms, 0, i) == 0,
{
    decoded_from_later(c_roms, c_roms.len() as int / 2, i);
}

fn fill_tile(out: &mut Vec<u8>, base: usize, even: &Vec<u8>, odd: &Vec<u8>, tile: usize)
    requires
        base % 256 == 0,
        base + 256 <= old(out).len(),
        64 * tile + 64 <= usize::MAX,
    ensures
        final(out).len() == old(out).len(),
        forall|i: int|
            0 <= i < final(out).len() ==> #[trigger] final(out)@[i] == if base <= i < base + 256 {
                pair_pixel(even@, odd@, tile as int, i % 16, (i / 16) % 16)
            } else {
                old(out)@[i]
            },
{
    let mut k: usize = 0;
    while k < 256
        invariant
            k <= 256,
            base % 256 == 0,
            base + 256 <= out.len(),
            out.len() == old(out).len(),
            64 * tile + 64 <= usize::MAX,
            forall|i: int|
                0 <= i < out.len() ==> #[trigger] out@[i] == if base <= i < base + k {
                    pair_pixel(even@, odd@, tile as int, i % 16, (i / 16) % 16)
                } else {
                    old(out)@[i]
                },
        decreases 256 - k,
    {
        let x: usize = k % 16;
        let y: usize = k / 16;
        let a: usize = 64 * tile + (if x < 8 {
            32
        } else {
            0
        }) + 2 * y;
        assert((base + k) % 16 == x);
        assert(((base + k) / 16) % 16 == y);
        let c: u8 = planes(
            get_or_zero(even, a),
            get_or_zero(even, a + 1),
            get_or_zero(odd, a),
            get_or_zero(odd, a + 1),
            (x % 8) as u8,
        );
        out.set(base + k, c);
        k = k + 1;
    }
}

/// How many tiles the pairs hold together, as long as that number stays
/// representable.
fn count_tiles(c_roms: &[Vec<u8>]) -> (n: usize)
    requires
        tile_count(c_roms@) <= usize::MAX,
    ensures
        n == tile_count(c_roms@),
{
    let pairs: usize = c_roms.len() / 2;
    let mut n: usize = 0;
    let mut p: usize = 0;
    while p < pairs
        invariant
            p <= pairs,
            pairs == c_roms@.len() / 2,
            2 * pairs <= usize::MAX,
            n == tiles_before(c_roms@, p as int),
            tiles_before(c_roms@, pairs as int) <= usize::MAX,
        decreases pairs - p,
    {
        let len: usize = c_roms[2 * p].len();
        proof {
            tiles_before_grows(c_roms@, p + 1, pairs as int);
        }
        if c_roms[2 * p + 1].len() == len {
            n = n + len / 64;
        }
        p = p + 1;
    }
    n
}

/// The least power of two that is not below `n`.
pub fn power_ceiling(n: usize) -> (m: usize)
    requires
        1 <= n,
        2 * n <= usize::MAX,
    ensures
        is_power_ceiling(m as int, n as int),
        m & (m - 1) as usize == 0,
{
    let mut m: usize = 1;
    proof {
        vstd::arithmetic::power2::lemma2_to64();
        crate::bits::zero_has_no_bits();
    }
    let ghost mut k: nat = 0;
    while m < n
        invariant
            1 <= m,
            m == vstd::arithmetic::power2::pow2(k),
            m == 1 || m < 2 * n,
            2 * n <= usize::MAX,
            m & (m - 1) as usize == 0,
        decreases 2 * n - m,
    {
        proof {
            vstd::arithmetic::power2::lemma_pow2_unfold(k + 1);
            crate::bits::power_doubles(m);
            k = k + 1;
        }
        m = m * 2;
    }
    m
}

/// Decode all sprite tiles into one byte per pixel, 256 bytes a tile, in a
/// region that has room for a power of two of tiles.
#[must_use]
pub fn decode_sprite_gfx(c_roms: &[Vec<u8>]) -> (out: Vec<u8>)
    requires
        512 * tile_count(c_roms@) <= usize::MAX,
    ensures
        is_decoded(c_roms@, out@),
{
    let n: usize = count_tiles(c_roms);
    if n == 0 {
        return Vec::new();
    }
    let room: usize = power_ceiling(n);
    let mut out: Vec<u8> = vec![0u8; room * 256];
    let pairs: usize = c_roms.len() / 2;
    let mut done: usize = 0;
    let mut p: usize = 0;
    while p < pairs
        invariant
            p <= pairs,
            pairs == c_roms@.len() / 2,
            2 * pairs <= usize::MAX,
            n == tile_count(c_roms@),
            n <= room,
            out.len() == room * 256,
            done == tiles_before(c_roms@, p as int),
            forall|i: int|
                0 <= i < out.len() ==> #[trigger] out@[i] == if i < 256 * done {
                    decoded_from(c_roms@, 0, i)
                } else {
                    0
                },
        decreases pairs - p,
    {
        let len: usize = c_roms[2 * p].len();
        proof {
            tiles_before_grows(c_roms@, p + 1, pairs as int);
        }
        if c_roms[2 * p + 1].len() == len {
            let count: usize = len / 64;
            let mut t: usize = 0;
            while t < count
                invariant
                    t <= count,
                    count == len / 64,
                    p < pairs,
                    pairs == c_roms@.len() / 2,
                    2 * pairs <= usize::MAX,
            2 * pairs <= usize::MAX,
                    len == c_roms@[2 * p as int]@.len(),
                    len == c_roms@[2 * p + 1]@.len(),
                    done == tiles_before(c_roms@, p as int),
                    done + count <= n,
                    n <= room,
                    out.len() == room * 256,
                    forall|i: int|
                        0 <= i < out.len() ==> #[trigger] out@[i] == if i < 256 * (done + t) {
                            decoded_from(c_roms@, 0, i)
                        } else {
                            0
                        },
                decreases count - t,
            {
                let base: usize = 256 * (done + t);
                let ghost before = out@;
                fill_tile(&mut out, base, &c_roms[2 * p], &c_roms[2 * p + 1], t);
                assert forall|i: int| 0 <= i < out.len() implies #[trigger] out@[i] == if i < 256 * (
                done + t + 1) {
                    decoded_from(c_roms@, 0, i)
                } else {
                    0
                } by {
                    assert(out@[i] == if base <= i < base + 256 {
                        pair_pixel(
                            c_roms@[2 * p as int]@,
                            c_roms@[2 * p + 1]@,
                            t as int,
                            i % 16,
                            (i / 16) % 16,
                        )
                    } else {
                        before[i]
                    });
                    if base <= i < base + 256 {
                        assert(i / 256 == done + t);
                        decoded_from_later(c_roms@, p as int, i);
                    }
                }
                t = t + 1;
            }
            done = done + count;
        }
        p = p + 1;
    }
    assert(out.len() as int / 256 == room && out.len() % 256 == 0);
    assert forall|i: int| 0 <= i < out.len() implies #[trigger] out@[i] == decoded_from(
        c_roms@,
        0,
        i,
    ) by {
        if i >= 256 * done {
            assert(i / 256 >= done);
            decoded_from_end(c_roms@, i);
        }
    }
    out
}

/// Where the decoded region holds pixel (`x`, `y`) of a tile: the address is
/// folded into the region's length by masking.
#[verifier::allow_in_spec]
pub fn decoded_index(len: usize, tile_no: u32, x: u8, y: u8) -> usize
    requires
        len > 0,
    returns
        (((tile_no as usize) << 8) | (((y % 16) as usize) << 4) | ((x % 16) as usize)) & ((len - 1)
            as usize),
{
    (((tile_no as usize) << 8) | (((y % 16) as usize) << 4) | ((x % 16) as usize)) & (len - 1)
}

/// A pixel of the decoded region, which is not empty.
pub fn decoded_sprite_pixel(decoded: &[u8], tile_no: u32, x: u8, y: u8) -> (c: u8)
    requires
        decoded@.len() > 0,
    ensures
        c == decoded@[decoded_index(decoded@.len() as usize, tile_no, x, y) as int],
{
    let i: usize = decoded_index(decoded.len(), tile_no, x, y);
    proof {
        crate::bits::mask_bounds(
            ((tile_no as usize) << 8) | (((y % 16) as usize) << 4) | ((x % 16) as usize),
            (decoded@.len() - 1) as usize,
        );
    }
    decoded[i]
}


/// Every pair is as long as the first, and holds whole tiles. A last ROM without
/// a partner does not count.
pub open spec fn uniform(c_roms: Seq<Vec<u8>>) -> bool {
    &&& c_roms.len() >= 2
    &&& c_roms[0]@.len() >= 64
    &&& forall|k: int|
        0 <= k < 2 * (c_roms.len() as int / 2) ==> #[trigger] c_roms[k]@.len()
            == c_roms[0]@.len()
}

proof fn uniform_tiles_before(c_roms: Seq<Vec<u8>>, p: int)
    requires
        uniform(c_roms),
        0 <= p,
        2 * p <= c_roms.len(),
    ensures
        tiles_before(c_roms, p) == p * (c_roms[0]@.len() as int / 64),
    decreases p,
{
    let n = c_roms[0]@.len() as int / 64;
    if p > 0 {
        uniform_tiles_before(c_roms, p - 1);
        assert(c_roms[2 * (p - 1)]@.len() == c_roms[0]@.len());
        assert(c_roms[2 * (p - 1) + 1]@.len() == c_roms[0]@.len());
        assert((p - 1) * n + n == p * n) by (nonlinear_arith);
    } else {
        assert(0 * n == 0) by (nonlinear_arith);
    }
}

/// On pairs of one length, a decoded pixel is the pixel that is decoded on the
/// fly, for every tile there is.
pub proof fn decoded_pixel_agrees(
    c_roms: Seq<Vec<u8>>,
    decoded: Seq<u8>,
    tile_no: u32,
    x: u8,
    y: u8,
)
    requires
        uniform(c_roms),
        is_decoded(c_roms, decoded),
        decoded.len() <= usize::MAX,
        tile_no < tile_count(c_roms),
    ensures
        decoded.len() > 0,
        decoded[decoded_index(decoded.len() as usize, tile_no, x, y) as int] == sprite_pixel_of(
            c_roms,
            tile_no as int,
            x as int,
            y as int,
        ),
{
    let n = c_roms[0]@.len() as int / 64;
    let t = tile_no as int;
    let pair = t / n;
    let len = decoded.len() as usize;
    let i = 256 * t + 16 * (y % 16) + (x % 16);
    tiles_before_grows(c_roms, 0, c_roms.len() as int / 2);
    assert(i < len && i / 256 == t && i % 16 == x % 16 && (i / 16) % 16 == y % 16) by {
        assert(decoded.len() == 256 * (decoded.len() as int / 256));
    }
    assert(decoded_index(len, tile_no, x, y) == i) by {
        let k = choose|k: nat|
            decoded.len() as int / 256 == #[trigger] vstd::arithmetic::power2::pow2(k);
        power_mask_keeps(i as usize, len, k);
        crate::bits::pixel_address(tile_no as usize, (x % 16) as usize, (y % 16) as usize);
    }
    // The pair that holds the tile is found at its index.
    uniform_tiles_before(c_roms, c_roms.len() as int / 2);
    assert(t == n * pair + t % n) by (nonlinear_arith)
        requires
            n > 0,
            pair == t / n,
    ;
    assert(pair < c_roms.len() as int / 2) by (nonlinear_arith)
        requires
            n > 0,
            t < (c_roms.len() as int / 2) * n,
            t == n * pair + t % n,
            t % n >= 0,
    ;
    assert(0 <= pair) by (nonlinear_arith)
        requires
            n > 0,
            t >= 0,
            pair == t / n,
    ;
    uniform_tiles_before(c_roms, pair);
    assert(pair * n == n * pair) by (nonlinear_arith);
    decoded_from_later(c_roms, pair, i);
    assert(c_roms[2 * pair]@.len() == c_roms[0]@.len());
    assert(c_roms[2 * pair + 1]@.len() == c_roms[0]@.len());
}

/// Decoded pixels are colors of sixteen, and what follows the last tile is zero.
/// Pairs of one length give that many tiles each.
pub proof fn decoded_region_is_padded(c_roms: Seq<Vec<u8>>, decoded: Seq<u8>, i: int)
    requires
        is_decoded(c_roms, decoded),
        0 <= i < decoded.len(),
    ensures
        decoded[i] <= 15,
        i >= 256 * tile_count(c_roms) ==> decoded[i] == 0,
        is_power_ceiling(decoded.len() as int / 256, tile_count(c_roms)),
        decoded.len() % 256 == 0,
        uniform(c_roms) ==> tile_count(c_roms) == (c_roms.len() as int / 2) * (
        c_roms[0]@.len() as int / 64),
{
    decoded_is_small(c_roms, 0, i);
    if i >= 256 * tile_count(c_roms) {
        decoded_from_end(c_roms, i);
    }
    if uniform(c_roms) {
        uniform_tiles_before(c_roms, c_roms.len() as int / 2);
    }
}

proof fn decoded_is_small(c_roms: Seq<Vec<u8>>, p: int, i: int)
    ensures
        decoded_from(c_roms, p, i) <= 15,
    decreases c_roms.len() - 2 * p,
{
    if p >= 0 && 2 * p + 1 < c_roms.len() {
        decoded_is_small(c_roms, p + 1, i);
        let (even, odd) = (c_roms[2 * p]@, c_roms[2 * p + 1]@);
        let x = i % 16;
        let a = half_row(i / 256 - tiles_before(c_roms, p), x, (i / 16) % 16);
        crate::bits::four_planes(
            byte_or_zero(even, a),
            byte_or_zero(even, a + 1),
            byte_or_zero(odd, a),
            byte_or_zero(odd, a + 1),
            (x % 8) as u8,
        );
    }
}

/// Masking with a power of two less one keeps a smaller number.
proof fn power_mask_keeps(i: usize, len: usize, k: nat)
    requires
        i < len,
        len as int == 256 * vstd::arithmetic::power2::pow2(k),
    ensures
        i & ((len - 1) as usize) == i,
{
    vstd::arithmetic::power2::lemma_pow2_adds(k, 8);
    vstd::arithmetic::power2::lemma2_to64();
    power_of_two_usize(len, k + 8);
    crate::bits::mask_keeps(i, len);
}

/// A number that is a power of two has no bit in common with the one below it.
proof fn power_of_two_usize(m: usize, k: nat)
    requires
        m as int == vstd::arithmetic::power2::pow2(k),
    ensures
        m > 0,
        m & ((m - 1) as usize) == 0,
    decreases k,
{
    vstd::arithmetic::power2::lemma_pow2_pos(k);
    if k == 0 {
        vstd::arithmetic::power2::lemma2_to64();
        crate::bits::zero_has_no_bits();
    } else {
        vstd::arithmetic::power2::lemma_pow2_unfold(k);
        let half = vstd::arithmetic::power2::pow2((k - 1) as nat) as usize;
        power_of_two_usize(half, (k - 1) as nat);
        crate::bits::power_doubles(half);
    }
}

}
