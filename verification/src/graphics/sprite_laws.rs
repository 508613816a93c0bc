//! What a sprite shows, pixel by pixel.
use vstd::prelude::*;
use vstd::arithmetic::power2::pow2;
use crate::graphics::lspc::VRAM_WORDS;
use crate::graphics::sprites::{
    active_from, active_sprites, next_run, on_line, tile_line, SpriteData, SpriteRun, Strip,
    MAX_SPRITES_PER_SCREEN, ZOOM_X_TABLES,
};
use crate::graphics::tiles::{
    byte_or_zero, decoded_index, half_row, pair_pixel, palette_color, sprite_pixel_of, SCREEN_W,
};

verus! {

/// The color of a pixel of a tile: decoded on the fly, or looked up.
pub open spec fn tile_color(d: SpriteData, code: int, x: int, y: int) -> u8 {
    if d.decoded_gfx.len() == 0 {
        sprite_pixel_of(d.c_roms, code, x, y)
    } else {
        d.decoded_gfx[decoded_index(d.decoded_gfx.len() as usize, code as u32, x as u8, y as u8) as int]
    }
}

/// What a row shows at a place once a pixel of color `c` is laid over it: color 0
/// is transparent.
pub open spec fn laid_over(d: SpriteData, under: u32, palette: int, c: u8) -> u32 {
    if c == 0 {
        under
    } else {
        palette_color(d.palette_ram, 16 * palette + c, d.palette_bank, d.screen_shadow)
    }
}

/// A strip of which every column is shown covers sixteen screen columns, the
/// first one at its left edge, reversed if it is flipped.
proof fn whole_strip(d: SpriteData, row: Seq<u32>, strip: Strip, k: int, x: int, at: int)
    requires
        0 <= k <= 16,
        row.len() == SCREEN_W,
        strip.mask == 0xFFFF,
        0 <= at < SCREEN_W,
    ensures
        ({
            let out = d.blit(row, strip, k, x);
            let c = at - x + k;
            &&& out.len() == SCREEN_W
            &&& out[at] == if k <= c < 16 {
                laid_over(
                    d,
                    row[at],
                    strip.palette as int,
                    d.pixel(
                        strip.code,
                        (if strip.hflip { 15 - c } else { c }) as u8,
                        strip.line,
                    ),
                )
            } else {
                row[at]
            }
        }),
    decreases 16 - k,
{
    if k < 16 {
        crate::bits::sixteen_ones((15 - k) as u16);
        let px = if strip.hflip {
            15 - k
        } else {
            k
        };
        let c = d.pixel(strip.code, px as u8, strip.line);
        let row1 = if 0 <= x < SCREEN_W && c != 0 {
            row.update(
                x,
                palette_color(
                    d.palette_ram,
                    16 * strip.palette + c,
                    d.palette_bank,
                    d.screen_shadow,
                ),
            )
        } else {
            row
        };
        whole_strip(d, row1, strip, k + 1, x + 1, at);
    }
}

/// Whether sprite `n` is the only one with any height, and not chained to another.
pub open spec fn alone(vram: Seq<u16>, n: int) -> bool {
    &&& 0 <= n < MAX_SPRITES_PER_SCREEN
    &&& (vram[0x8200 + n] / 64) % 2 == 0
    &&& forall|k: int|
        0 <= k < MAX_SPRITES_PER_SCREEN && k != n ==> (#[trigger] vram[0x8200 + k]) % 128 == 0
}

proof fn only_one_active(vram: Seq<u16>, hw: int, n: int, k: int, y: u32, rows: u32, list: Seq<usize>)
    requires
        alone(vram, n),
        0 <= k <= MAX_SPRITES_PER_SCREEN,
        k <= n ==> list.len() == 0,
        k > n ==> list.len() <= 1,
    ensures
        ({
            let h = vram[0x8200 + n] as int % 64;
            let top = 512 - vram[0x8200 + n] as int / 128;
            let all = active_from(vram, hw, k, y, rows, list);
            &&& k > n ==> all == list
            &&& k <= n && h != 0 && (h >= 32 || (hw - top) % 512 < 16 * h) ==> all == list.push(
                n as usize,
            )
            &&& k <= n && !(h != 0 && (h >= 32 || (hw - top) % 512 < 16 * h)) ==> all == list
        }),
    decreases MAX_SPRITES_PER_SCREEN - k,
{
    if k < MAX_SPRITES_PER_SCREEN {
        let yc = vram[0x8200 + k];
        let y1 = (512 - yc as u32 / 128) as u32;
        let rows1 = (yc % 64) as u32;
        let shown = rows1 != 0 && on_line(hw, y1 as int, rows1 as int);
        let next = if shown {
            list.push(k as usize)
        } else {
            list
        };
        assert((yc / 64) % 2 == 0);
        only_one_active(vram, hw, n, k + 1, y1, rows1, next);
    }
}

/// A full-size sprite of at most 32 tiles, alone on the screen. Its top line and
/// left column are the words at 8200 and 8400, its tiles the pairs of words from
/// its number on, one tile for every sixteen lines. On each line that it covers,
/// the pixel `k` columns right of its left column shows column `k` of the tile,
/// counted from the right if bit 0 of the tile's second word is set; and of the
/// tile's lines the one that the line is on, counted from the bottom if bit 1 is
/// set. Every other pixel stays. Bits 4 to 7 of the second word extend the tile's
/// number, and the high byte is the palette.
pub proof fn sprites_show_their_tiles(d: SpriteData, row: Seq<u32>, y: int, n: int, at: int)
    requires
        d.vram.len() == VRAM_WORDS,
        d.c_roms.len() > 0 || d.decoded_gfx.len() > 0,
        d.lo_rom.len() < 0x1_0000 || forall|z: int|
            0 <= z < 256 ==> #[trigger] d.lo_rom[0xFF00 + z] == z,
        row.len() == SCREEN_W,
        0 <= y < 224,
        0 <= at < SCREEN_W,
        alone(d.vram, n),
        d.vram[0x8000 + n] % 0x1000 == 0xFFF,
        1 <= d.vram[0x8200 + n] % 64 <= 32,
    ensures
        ({
            let place = d.vram[0x8400 + n] as int / 128;
            let left = if place >= 0x1E0 { place - 512 } else { place };
            let height = 16 * (d.vram[0x8200 + n] as int % 64);
            let line = (y + 16 - (512 - d.vram[0x8200 + n] as int / 128)) % 512;
            let low = d.vram[64 * n + 2 * (line / 16)];
            let attr = d.vram[64 * n + 2 * (line / 16) + 1] as int;
            let whole = low + 0x1_0000 * ((attr / 16) % 16);
            let count = d.auto_animation_counter as int;
            let code = if d.auto_animation_disabled {
                whole
            } else if (attr / 8) % 2 == 1 {
                8 * (whole / 8) + count % 8
            } else if (attr / 4) % 2 == 1 {
                4 * (whole / 4) + count % 4
            } else {
                whole
            };
            let k = at - left;
            let px = if attr % 2 == 1 { 15 - k } else { k };
            let py = if (attr / 2) % 2 == 1 { 15 - line % 16 } else { line % 16 };
            let out = d.over(row, y);
            &&& out.len() == SCREEN_W
            &&& out[at] == if line < height && !(0x140 <= place <= 0x1F0) && 0 <= k < 16 {
                laid_over(d, row[at], attr / 256, tile_color(d, code, px, py))
            } else {
                row[at]
            }
        }),
{
    let hw = y + 16;
    let empty: Seq<usize> = Seq::empty();
    only_one_active(d.vram, hw, n, 0, 0, 0, empty);
    let run0 = SpriteRun { x: 0, y: 0, rows: 0, zoom_y: 0, zoom_x: 0 };
    let (sy, sz, sx) = (d.vram[0x8200 + n], d.vram[0x8000 + n], d.vram[0x8400 + n]);
    let run = next_run(run0, sy, sz, sx);
    let line = (hw - run.y) % 512;
    let list = active_sprites(d.vram, hw);
    reveal_with_fuel(SpriteData::draw_list, 3);
    let h = sy as int % 64;
    if h >= 32 || line < 16 * h {
        assert(list =~= seq![n as usize]);
        full_size_lines(run, hw, d.lo_rom);
        if let Some(strip) = d.strip(n, run, hw) {
            whole_strip(d, row, strip, 0, strip.left as int, at);
            assert(ZOOM_X_TABLES@[15] == 0xFFFF);
        }
    } else {
        assert(list =~= empty);
    }
}

/// At full size every sixteen lines show one tile, line for line.
proof fn full_size_lines(run: SpriteRun, hw: int, lo_rom: Seq<u8>)
    requires
        run.zoom_y == 255,
        run.rows <= 32,
        lo_rom.len() < 0x1_0000 || forall|z: int|
            0 <= z < 256 ==> #[trigger] lo_rom[0xFF00 + z] == z,
    ensures
        tile_line(run, hw, lo_rom) == (
            ((hw - run.y) % 512) / 16,
            ((hw - run.y) % 512) % 16,
        ),
{
    let line = (hw - run.y) % 512;
    let z = if line >= 256 {
        511 - line
    } else {
        line
    };
    if lo_rom.len() >= 0x1_0000 {
        assert(lo_rom[0xFF00 + z] == z);
    }
}

/// Bit `bit` of a byte of a ROM; zero past its end.
pub open spec fn rom_bit(rom: Seq<u8>, a: int, bit: int) -> int {
    if 0 <= a < rom.len() {
        (rom[a] as int / pow2(bit as nat) as int) % 2
    } else {
        0
    }
}

/// A pixel of a sprite tile is four bits from four bytes: two planes in the even
/// ROM of a pair and two in the odd one, side by side, 64 bytes a tile; the left
/// half of a tile comes second, two bytes a line, the leftmost pixel lowest.
pub proof fn tile_pixels_are_four_planes(c_roms: Seq<Vec<u8>>, tile: int, x: int, y: int)
    requires
        c_roms.len() >= 2,
        c_roms[0]@.len() >= 64,
        tile >= 0,
        0 <= x < 16,
        0 <= y < 16,
        2 * (tile / (c_roms[0]@.len() as int / 64)) + 1 < c_roms.len(),
    ensures
        ({
            let per_pair = c_roms[0]@.len() as int / 64;
            let even = c_roms[2 * (tile / per_pair)]@;
            let odd = c_roms[2 * (tile / per_pair) + 1]@;
            let a = 64 * (tile % per_pair) + 2 * y + if x < 8 { 32int } else { 0 };
            sprite_pixel_of(c_roms, tile, x, y) == rom_bit(even, a, x % 8) + 2 * rom_bit(
                even,
                a + 1,
                x % 8,
            ) + 4 * rom_bit(odd, a, x % 8) + 8 * rom_bit(odd, a + 1, x % 8)
        }),
{
    let per_pair = c_roms[0]@.len() as int / 64;
    let pair = tile / per_pair;
    let (even, odd) = (c_roms[2 * pair]@, c_roms[2 * pair + 1]@);
    let a = half_row(tile % per_pair, x, y);
    let bit = (x % 8) as u8;
    let (b0, b1) = (byte_or_zero(even, a), byte_or_zero(even, a + 1));
    let (b2, b3) = (byte_or_zero(odd, a), byte_or_zero(odd, a + 1));
    crate::bits::four_planes(b0, b1, b2, b3, bit);
    vstd::bits::lemma_u8_shr_is_div(b0, bit);
    vstd::bits::lemma_u8_shr_is_div(b1, bit);
    vstd::bits::lemma_u8_shr_is_div(b2, bit);
    vstd::bits::lemma_u8_shr_is_div(b3, bit);
    vstd::arithmetic::power2::lemma_pow2_pos(bit as nat);
    vstd::arithmetic::div_mod::lemma_div_basics(pow2(bit as nat) as int);
    assert(sprite_pixel_of(c_roms, tile, x, y) == pair_pixel(even, odd, tile % per_pair, x, y));
}

/// A chained sprite stands right of the one before it, which is as wide as its
/// shrink setting says, at the same height; one that is not chained is placed by
/// its own words.
pub proof fn chains_stand_side_by_side(run: SpriteRun, y_word: u16, zoom_word: u16, x_word: u16)
    requires
        run.x < 512,
        run.zoom_x < 16,
    ensures
        ({
            let r = next_run(run, y_word, zoom_word, x_word);
            let width = run.zoom_x + 1;
            &&& r.zoom_x == (zoom_word as int / 256) % 16
            &&& (y_word as int / 64) % 2 == 1 ==> r.x == (run.x + width) % 512 && r.y == run.y
                && r.rows == run.rows && r.zoom_y == run.zoom_y
            &&& (y_word as int / 64) % 2 == 0 ==> r.x == x_word as int / 128 && r.y + y_word as int
                / 128 == 512 && r.rows == y_word as int % 64 && r.zoom_y == zoom_word as int % 256
        }),
{
}

/// How many of the first `k` columns a mask shows.
pub open spec fn shown_before(mask: u16, k: int) -> int
    decreases k,
{
    if k <= 0 {
        0
    } else {
        shown_before(mask, k - 1) + if (mask >> ((16 - k) as u16)) & 1 == 1 {
            1int
        } else {
            0
        }
    }
}

/// A shrunk strip shows the columns of its mask side by side.
pub proof fn shrunk_strips_show_some_columns(
    d: SpriteData,
    row: Seq<u32>,
    strip: Strip,
    k: int,
    at: int,
)
    requires
        0 <= k < 16,
        row.len() == SCREEN_W,
        0 <= at < SCREEN_W,
    ensures
        ({
            let out = d.blit(row, strip, 0, strip.left as int);
            let shown = (strip.mask >> ((15 - k) as u16)) & 1 == 1;
            let px = (if strip.hflip { 15 - k } else { k }) as u8;
            &&& out.len() == SCREEN_W
            &&& shown && at == strip.left + shown_before(strip.mask, k) ==> out[at] == laid_over(
                d,
                row[at],
                strip.palette as int,
                d.pixel(strip.code, px, strip.line),
            )
            &&& at < strip.left || at >= strip.left + shown_before(strip.mask, 16) ==> out[at]
                == row[at]
        }),
{
    strip_from(d, row, strip, 0, k, at);
}

proof fn strip_from(d: SpriteData, row: Seq<u32>, strip: Strip, j: int, k: int, at: int)
    requires
        0 <= j <= 16,
        0 <= k < 16,
        row.len() == SCREEN_W,
        0 <= at < SCREEN_W,
    ensures
        ({
            let x = strip.left + shown_before(strip.mask, j);
            let out = d.blit(row, strip, j, x);
            let shown = (strip.mask >> ((15 - k) as u16)) & 1 == 1;
            let px = (if strip.hflip { 15 - k } else { k }) as u8;
            &&& out.len() == SCREEN_W
            &&& j <= k && shown && at == strip.left + shown_before(strip.mask, k) ==> out[at]
                == laid_over(d, row[at], strip.palette as int, d.pixel(strip.code, px, strip.line))
            &&& at < x || at >= strip.left + shown_before(strip.mask, 16) ==> out[at] == row[at]
        }),
    decreases 16 - j,
{
    shown_grows(strip.mask, j, 16);
    if j <= k {
        shown_grows(strip.mask, j, k);
    }
    if j < 16 {
        let x = strip.left + shown_before(strip.mask, j);
        shown_grows(strip.mask, j + 1, 16);
        if j + 1 <= k {
            shown_grows(strip.mask, j + 1, k);
        }
        if (strip.mask >> ((15 - j) as u16)) & 1 == 1 {
            let px = if strip.hflip {
                15 - j
            } else {
                j
            };
            let c = d.pixel(strip.code, px as u8, strip.line);
            let row1 = if 0 <= x < SCREEN_W && c != 0 {
                row.update(
                    x,
                    palette_color(
                        d.palette_ram,
                        16 * strip.palette + c,
                        d.palette_bank,
                        d.screen_shadow,
                    ),
                )
            } else {
                row
            };
            strip_from(d, row1, strip, j + 1, k, at);
        } else {
            strip_from(d, row, strip, j + 1, k, at);
        }
    }
}

proof fn shown_grows(mask: u16, j: int, k: int)
    requires
        0 <= j <= k,
    ensures
        0 <= shown_before(mask, j) <= shown_before(mask, k),
    decreases k,
{
    if j < k {
        shown_grows(mask, j, k - 1);
    } else if j > 0 {
        shown_grows(mask, j - 1, j - 1);
    }
}

/// At width `z`, of sixteen, `z + 1` columns are shown; every column that is
/// shown at one width is shown at the next.
pub proof fn widths_show_that_many_columns(z: int)
    requires
        0 <= z < 16,
    ensures
        shown_before(ZOOM_X_TABLES@[z], 16) == z + 1,
        z < 15 ==> forall|k: u16|
            k < 16 && (ZOOM_X_TABLES@[z] >> k) & 1 == 1 ==> #[trigger] (ZOOM_X_TABLES@[z + 1] >> k)
                & 1 == 1,
{
    let m = ZOOM_X_TABLES@[z];
    reveal_with_fuel(shown_before, 17);
    crate::bits::shown_columns();
}

/// A sprite of at most 32 tiles at any size, alone on the screen, with the shrink
/// ROM. Counted from its top, a line in the first half looks the ROM up in the row
/// of the sprite's height: the high four bits of the entry are the tile, the low
/// four the line in it; the second half mirrors the first. Of the tile's columns
/// those of the sprite's width are shown, side by side from its left column:
/// column `k`, if it is shown, as many columns to the right as columns before it
/// are.
pub proof fn shrunk_sprites_show_their_tiles(
    d: SpriteData,
    row: Seq<u32>,
    y: int,
    n: int,
    k: int,
    at: int,
)
    requires
        d.vram.len() == VRAM_WORDS,
        d.c_roms.len() > 0 || d.decoded_gfx.len() > 0,
        d.lo_rom.len() >= 0x1_0000,
        row.len() == SCREEN_W,
        0 <= y < 224,
        0 <= k < 16,
        0 <= at < SCREEN_W,
        alone(d.vram, n),
        1 <= d.vram[0x8200 + n] % 64 <= 32,
    ensures
        ({
            let place = d.vram[0x8400 + n] as int / 128;
            let left = if place >= 0x1E0 { place - 512 } else { place };
            let height = 16 * (d.vram[0x8200 + n] as int % 64);
            let line = (y + 16 - (512 - d.vram[0x8200 + n] as int / 128)) % 512;
            let zoom = d.vram[0x8000 + n] as int;
            let columns = ZOOM_X_TABLES@[(zoom / 256) % 16];
            let z = if line >= 256 { 511 - line } else { line };
            let b = d.lo_rom[256 * (zoom % 256) + z] as int;
            let tile = if line >= 256 { 31 - b / 16 } else { b / 16 };
            let l = if line >= 256 { 15 - b % 16 } else { b % 16 };
            let attr = d.vram[64 * n + 2 * tile + 1] as int;
            let whole = d.vram[64 * n + 2 * tile] + 0x1_0000 * ((attr / 16) % 16);
            let px = if attr % 2 == 1 { 15 - k } else { k };
            let py = if (attr / 2) % 2 == 1 { 15 - l } else { l };
            let out = d.over(row, y);
            let shown = line < height && !(0x140 <= place <= 0x1F0);
            &&& out.len() == SCREEN_W
            &&& shown && (columns >> ((15 - k) as u16)) & 1 == 1 && at == left + shown_before(
                columns,
                k,
            ) && (attr / 4) % 4 == 0 ==> out[at] == laid_over(
                d,
                row[at],
                attr / 256,
                tile_color(d, whole, px, py),
            )
            &&& !shown || at < left || at >= left + (zoom / 256) % 16 + 1 ==> out[at] == row[at]
        }),
{
    let hw = y + 16;
    let empty: Seq<usize> = Seq::empty();
    only_one_active(d.vram, hw, n, 0, 0, 0, empty);
    let run0 = SpriteRun { x: 0, y: 0, rows: 0, zoom_y: 0, zoom_x: 0 };
    let (sy, sz, sx) = (d.vram[0x8200 + n], d.vram[0x8000 + n], d.vram[0x8400 + n]);
    let run = next_run(run0, sy, sz, sx);
    let line = (hw - run.y) % 512;
    let list = active_sprites(d.vram, hw);
    reveal_with_fuel(SpriteData::draw_list, 3);
    let h = sy as int % 64;
    widths_show_that_many_columns((sz as int / 256) % 16);
    if h >= 32 || line < 16 * h {
        assert(list =~= seq![n as usize]);
        if let Some(strip) = d.strip(n, run, hw) {
            shrunk_strips_show_some_columns(d, row, strip, k, at);
        }
    } else {
        assert(list =~= empty);
    }
}

/// Every sprite that covers a line is drawn, in order of number, as long as there
/// are fewer than 96 before it on the line. One covers a line if it has a height
/// and the line is within it, or its height is 32 tiles or more; a chained one
/// covers what the one before it covers.
pub open spec fn covers(vram: Seq<u16>, hw: int, k: int) -> bool
    decreases k,
{
    let w = vram[0x8200 + k] as int;
    if (w / 64) % 2 == 1 {
        k > 0 && covers(vram, hw, k - 1)
    } else {
        w % 64 != 0 && (w % 64 >= 32 || (hw - (512 - w / 128)) % 512 < 16 * (w % 64))
    }
}

/// How many sprites below number `k` cover a line.
pub open spec fn covering_before(vram: Seq<u16>, hw: int, k: int) -> int
    decreases k,
{
    if k <= 0 {
        0
    } else {
        covering_before(vram, hw, k - 1) + if covers(vram, hw, k - 1) {
            1int
        } else {
            0
        }
    }
}

/// A line draws the sprites that cover it, in order of number, the first 96 of
/// them.
pub proof fn covering_sprites_are_drawn_in_order(vram: Seq<u16>, hw: int, n: int)
    requires
        0 <= n < MAX_SPRITES_PER_SCREEN,
    ensures
        ({
            let all = active_sprites(vram, hw);
            let total = covering_before(vram, hw, 381);
            &&& all.len() == if total < 96 { total } else { 96 }
            &&& covers(vram, hw, n) && covering_before(vram, hw, n) < 96
                ==> all[covering_before(vram, hw, n)] == n
        }),
{
    let empty: Seq<usize> = Seq::empty();
    drawn_from(vram, hw, 0, 0, 0, empty, n);
}

proof fn covering_grows(vram: Seq<u16>, hw: int, j: int, k: int)
    requires
        0 <= j <= k,
    ensures
        0 <= covering_before(vram, hw, j) <= covering_before(vram, hw, k),
        j < k && covers(vram, hw, j) ==> covering_before(vram, hw, j) < covering_before(
            vram,
            hw,
            k,
        ),
    decreases k,
{
    if j < k {
        covering_grows(vram, hw, j, k - 1);
    } else if j > 0 {
        covering_grows(vram, hw, j - 1, j - 1);
    }
}

proof fn drawn_from(
    vram: Seq<u16>,
    hw: int,
    k: int,
    y: u32,
    rows: u32,
    list: Seq<usize>,
    n: int,
)
    requires
        0 <= k <= MAX_SPRITES_PER_SCREEN,
        0 <= n < MAX_SPRITES_PER_SCREEN,
        list.len() == if covering_before(vram, hw, k) < 96 {
            covering_before(vram, hw, k)
        } else {
            96
        },
        (rows != 0 && on_line(hw, y as int, rows as int)) == (k > 0 && covers(vram, hw, k - 1)),
    ensures
        ({
            let all = active_from(vram, hw, k, y, rows, list);
            let total = covering_before(vram, hw, 381);
            &&& all.len() == if total < 96 { total } else { 96 }
            &&& forall|j: int| 0 <= j < list.len() ==> #[trigger] all[j] == list[j]
            &&& k <= n && covers(vram, hw, n) && covering_before(vram, hw, n) < 96
                ==> all[covering_before(vram, hw, n)] == n
        }),
    decreases MAX_SPRITES_PER_SCREEN - k,
{
    covering_grows(vram, hw, k, 381);
    if k <= n {
        covering_grows(vram, hw, k, n);
    }
    if k < MAX_SPRITES_PER_SCREEN && list.len() < 96 {
        let yc = vram[0x8200 + k];
        let chained = (yc / 64) % 2 == 1;
        let y1 = if chained {
            y
        } else {
            (512 - yc as u32 / 128) as u32
        };
        let rows1 = if chained {
            rows
        } else {
            (yc % 64) as u32
        };
        let shown = rows1 != 0 && on_line(hw, y1 as int, rows1 as int);
        assert(shown == covers(vram, hw, k));
        let next = if shown {
            list.push(k as usize)
        } else {
            list
        };
        if k + 1 <= n {
            covering_grows(vram, hw, k + 1, n);
        }
        drawn_from(vram, hw, k + 1, y1, rows1, next, n);
        let all = active_from(vram, hw, k, y, rows, list);
        assert(all == active_from(vram, hw, k + 1, y1, rows1, next));
        assert forall|j: int| 0 <= j < list.len() implies #[trigger] all[j] == list[j] by {
            assert(next[j] == list[j]);
        }
        if shown {
            assert(next[list.len() as int] == k);
        }
    }
}

}
