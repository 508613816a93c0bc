//! What the fix layer and the palette show, and how the layers lie over each
//! other.
use vstd::prelude::*;
use vstd::arithmetic::power2::pow2;
use crate::graphics::fix::{row_banks, FixBankType, FixData};
use crate::graphics::palette_lut::level_of;
use crate::graphics::sprites::{active_from, active_sprites, SpriteData, MAX_SPRITES_PER_SCREEN};
use crate::graphics::tiles::{palette_color, word_rgb, SCREEN_W};
use crate::graphics::video::whole_frame;

verus! {

/// The color that a text ROM holds for a pixel of a tile: 32 bytes a tile, eight
/// for each pair of columns, a line a byte, the left pixel of the pair in the low
/// four bits; the right half of the tile comes first. Zero past the end.
pub open spec fn text_color(rom: Seq<u8>, tile: int, x: int, y: int) -> int {
    let pair = x / 2;
    let byte = rom[32 * tile + 8 * ((pair + 2) % 4) + y] as int;
    if 32 * tile + 32 > rom.len() {
        0
    } else if x % 2 == 0 {
        byte % 16
    } else {
        byte / 16
    }
}

/// What a row of the layer shows at a place, if the cell there has the word `w`
/// and shows tile `tile`.
pub open spec fn cell_color(f: FixData, crop: int, x: int, y: int, w: int, tile: int, under: u32) -> u32 {
    let c = text_color(f.s_rom, tile, x % 8, y % 8);
    if x / 8 < crop || x / 8 >= 40 - crop || w == 0 || c == 0 {
        under
    } else {
        palette_color(
            f.palette_ram,
            16 * (w / 4096) + c,
            f.palette_bank,
            f.screen_shadow,
        )
    }
}

/// Without banks a cell shows the tile that the low twelve bits of its word
/// number, any of 4096, in the palette of the top four bits. The cell of a place
/// is that of its column and, the first two rows being hidden, its row. A word of
/// zero, color 0 and the columns left out show what is below.
pub proof fn cells_show_their_tiles(f: FixData, crop: int, row: Seq<u32>, x: int, y: int)
    requires
        f.vram.len() == 0x8800,
        f.bank_type == FixBankType::Std || f.s_rom.len() <= 0x2_0000,
        row.len() == SCREEN_W,
        0 <= x < 320,
        0 <= y < 224,
    ensures
        ({
            let w = f.vram[0x7000 + 32 * (x / 8) + y / 8 + 2] as int;
            f.over(crop, row, y)[x] == cell_color(f, crop, x, y, w, w % 4096, row[x])
        }),
{
}

/// With a bank for each cell, six to a word, the words of the bank table lie
/// beside the map: a word for each row and every six columns, the leftmost cell's
/// bank in the highest of six pairs of bits, complemented.
pub proof fn cell_banks_extend_tiles(f: FixData, crop: int, row: Seq<u32>, x: int, y: int)
    requires
        f.vram.len() == 0x8800,
        f.bank_type == FixBankType::Kof2000,
        f.s_rom.len() > 0x2_0000,
        row.len() == SCREEN_W,
        0 <= x < 320,
        0 <= y < 224,
    ensures
        ({
            let (col, line) = (x / 8, y / 8 + 2);
            let w = f.vram[0x7000 + 32 * col + line] as int;
            let b = f.vram[0x7500 + 32 * (col / 6) + line - 1] as int;
            let bank = 3 - (b / pow2((10 - 2 * (col % 6)) as nat) as int) % 4;
            f.over(crop, row, y)[x] == cell_color(
                f,
                crop,
                x,
                y,
                w,
                w % 4096 + 4096 * bank,
                row[x],
            )
        }),
{
    vstd::arithmetic::power2::lemma2_to64();
}

/// With a bank for each row, the cells of a row share the bank that the table
/// gives it, complemented.
pub proof fn row_banks_extend_tiles(f: FixData, crop: int, row: Seq<u32>, x: int, y: int)
    requires
        f.vram.len() == 0x8800,
        f.bank_type == FixBankType::Garou,
        f.s_rom.len() > 0x2_0000,
        row.len() == SCREEN_W,
        0 <= x < 320,
        0 <= y < 224,
    ensures
        ({
            let w = f.vram[0x7000 + 32 * (x / 8) + y / 8 + 2] as int;
            f.over(crop, row, y)[x] == cell_color(
                f,
                crop,
                x,
                y,
                w,
                w % 4096 + 4096 * (3 - row_banks(f.vram)[y / 8]),
                row[x],
            )
        }),
{
}

/// A palette entry is a big-endian word in the bank's half of the memory. Each
/// channel has four bits of their own and a low bit apart; the top bit of the word
/// and the shadow line choose how bright the levels are. The color is the three
/// channels and full opacity.
#[verifier::rlimit(40)]
pub proof fn palette_entries_are_words(pal: Seq<u8>, idx: int, bank: u8, shadow: bool)
    requires
        pal.len() >= 0x4000,
        0 <= idx < 4096,
    ensures
        ({
            let at = 2 * idx + if bank % 2 == 1 { 0x2000int } else { 0 };
            let w = 256 * pal[at] + pal[at + 1];
            let column = w / 0x8000 + if shadow { 2int } else { 0 };
            let r = level_of(2 * ((w / 256) % 16) + (w / 0x4000) % 2, column);
            let g = level_of(2 * ((w / 16) % 16) + (w / 0x2000) % 2, column);
            let b = level_of(2 * (w % 16) + (w / 0x1000) % 2, column);
            palette_color(pal, idx, bank, shadow) == 0x100_0000 * r + 0x1_0000 * g + 0x100 * b
                + 0xFF
        }),
{
    let at = (bank as int % 2) * 0x2000 + (idx % 0x1000) * 2;
    let word = ((pal[at] as u16) << 8) | (pal[at + 1] as u16);
    let (r, g, b) = word_rgb(word, shadow);
    crate::bits::packed_channels(pal[at], pal[at + 1], r, g, b);
}

/// Where no cell of the fix layer shows, the sprites do; where none does, the
/// backdrop, the last palette entry.
pub proof fn layers_lie_over_each_other(sprites: SpriteData, fix: FixData, x: int, y: int)
    requires
        0 <= x < 320,
        0 <= y < 224,
    ensures
        ({
            let shown = whole_frame(sprites, fix)[320 * y + x];
            let backdrop = palette_color(
                fix.palette_ram,
                4095,
                fix.palette_bank,
                fix.screen_shadow,
            );
            let below = sprites.over(Seq::new(320, |i: int| backdrop), y)[x];
            &&& fix.color(0, x, y) is Some ==> shown == fix.color(0, x, y)->0
            &&& fix.color(0, x, y) is None ==> shown == below
            &&& !(sprites.c_roms.len() > 0 || sprites.decoded_gfx.len() > 0) ==> below == backdrop
            &&& (forall|k: int|
                0 <= k < MAX_SPRITES_PER_SCREEN ==> (#[trigger] sprites.vram[0x8200 + k]) % 128
                    == 0) ==> below == backdrop
        }),
{
    let i = 320 * y + x;
    assert(i / 320 == y && i % 320 == x);
    let backdrop = palette_color(fix.palette_ram, 4095, fix.palette_bank, fix.screen_shadow);
    let row = Seq::new(320, |i: int| backdrop);
    assert(crate::graphics::video::backdrop_row(
        fix.palette_ram,
        fix.palette_bank,
        fix.screen_shadow,
    ) =~= row);
    if forall|k: int|
        0 <= k < MAX_SPRITES_PER_SCREEN ==> (#[trigger] sprites.vram[0x8200 + k]) % 128 == 0 {
        none_active(sprites.vram, y + 16, 0, 0, 0);
        assert(active_sprites(sprites.vram, y + 16).len() == 0);
    }
}

proof fn none_active(vram: Seq<u16>, hw: int, k: int, y: u32, rows: u32)
    requires
        0 <= k <= MAX_SPRITES_PER_SCREEN,
        forall|j: int| 0 <= j < MAX_SPRITES_PER_SCREEN ==> (#[trigger] vram[0x8200 + j]) % 128 == 0,
    ensures
        active_from(vram, hw, k, y, rows, Seq::empty()) == Seq::<usize>::empty(),
    decreases MAX_SPRITES_PER_SCREEN - k,
{
    if k < MAX_SPRITES_PER_SCREEN {
        let yc = vram[0x8200 + k];
        none_active(vram, hw, k + 1, (512 - yc as u32 / 128) as u32, (yc % 64) as u32);
    }
}

}
