//! Whole frames: the backdrop, sprites over it, the fix layer on top.
use vstd::prelude::*;
use crate::graphics::fix::{fix_data, FixData};
use crate::graphics::frame::{frame_len, frame_of, row_laws, row_of, rows_make_frame, with_row};
use crate::graphics::lspc::Lspc;
use crate::graphics::sprites::{
    over_keeps_length, over_stays_opaque, render_sprite_layer_inner, row_is_opaque, sprite_data,
    SpriteData,
};
use crate::graphics::tiles::{
    fix_pixel_of, is_opaque, lookup_palette, palette_color, palette_is_opaque,
};

pub use crate::graphics::fix::{
    render_fix_layer, render_fix_layer_bank, render_fix_layer_inner_with_bank,
    render_fix_layer_inner_with_bank_and_crop, render_fix_scanline, FixBankType,
    FIX_LAYER_OVERSCAN_COLS,
};
pub use crate::graphics::png::frame_to_png;
pub use crate::graphics::sprites::{
    render_sprite_layer, render_sprite_layer_bank, render_sprite_scanline,
};
pub use crate::graphics::tiles::{
    decode_sprite_gfx, sprite_tile_pixel, ACTIVE_W, ACTIVE_X_OFFSET, SCREEN_H, SCREEN_W,
};

verus! {

/// One colour per pixel, row by row.
pub type Frame = Vec<u32>;

/// A row of nothing but palette entry FFF.
pub open spec fn backdrop_row(palette_ram: Seq<u8>, bank: u8, shadow: bool) -> Seq<u32> {
    Seq::new(SCREEN_W as nat, |x: int| palette_color(palette_ram, 0xFFF, bank, shadow))
}

/// Line `y` of a frame.
pub open spec fn frame_row(sprites: SpriteData, fix: FixData, y: int) -> Seq<u32> {
    fix.over(
        FIX_LAYER_OVERSCAN_COLS as int,
        sprites.over(
            backdrop_row(fix.palette_ram, fix.palette_bank, fix.screen_shadow),
            y,
        ),
        y,
    )
}

/// The fix layer of a frame: tiles of the system ROM, never banked, if one is
/// given, else those of the cartridge.
pub open spec fn fix_choice(
    lspc: Lspc,
    palette_ram: Seq<u8>,
    s_rom: Seq<u8>,
    palette_bank: u8,
    screen_shadow: bool,
    bios_sfix: Option<Seq<u8>>,
    bank_type: FixBankType,
) -> FixData {
    match bios_sfix {
        Some(rom) => fix_data(
            lspc,
            palette_ram,
            rom,
            palette_bank,
            screen_shadow,
            FixBankType::Std,
        ),
        None => fix_data(
            lspc,
            palette_ram,
            s_rom,
            palette_bank,
            screen_shadow,
            bank_type,
        ),
    }
}

/// The contents of an optional slice.
pub open spec fn contents(rom: Option<&[u8]>) -> Option<Seq<u8>> {
    match rom {
        Some(r) => Some(r@),
        None => None,
    }
}

/// Every line of a frame, made from one state.
pub open spec fn whole_frame(sprites: SpriteData, fix: FixData) -> Seq<u32> {
    frame_of(|y: int| frame_row(sprites, fix, y))
}

fn fill_row(frame: &mut [u32], y: usize, color: u32)
    requires
        old(frame)@.len() == frame_len(),
        y < SCREEN_H,
    ensures
        final(frame)@ == with_row(
            old(frame)@,
            y as int,
            Seq::new(SCREEN_W as nat, |x: int| color),
        ),
{
    let mut x: usize = 0;
    while x < SCREEN_W
        invariant
            x <= SCREEN_W,
            y < SCREEN_H,
            frame@.len() == frame_len(),
            old(frame)@.len() == frame_len(),
            forall|i: int|
                0 <= i < frame_len() ==> #[trigger] frame@[i] == if y * 320 <= i < y * 320 + x {
                    color
                } else {
                    old(frame)@[i]
                },
        decreases SCREEN_W - x,
    {
        frame[y * SCREEN_W + x] = color;
        x = x + 1;
    }
    assert(frame@ =~= with_row(
        old(frame)@,
        y as int,
        Seq::new(SCREEN_W as nat, |x: int| color),
    ));
}

/// Draw one line of a frame from the state as it is now. A line off the screen,
/// or a frame of another size, is left alone.
pub fn render_scanline(
    lspc: &Lspc,
    palette_ram: &[u8],
    s_rom: &[u8],
    c_roms: &[Vec<u8>],
    decoded_gfx: &[u8],
    lo_rom: &[u8],
    frame: &mut [u32],
    out_line: usize,
    palette_bank: u8,
    screen_shadow: bool,
    bios_sfix: Option<&[u8]>,
    fix_bank_type: FixBankType,
)
    requires
        lspc.wf(),
    ensures
        final(frame)@ == if out_line >= SCREEN_H || old(frame)@.len() != frame_len() {
            old(frame)@
        } else {
            with_row(
                old(frame)@,
                out_line as int,
                frame_row(
                    sprite_data(
                        *lspc,
                        palette_ram@,
                        c_roms@,
                        decoded_gfx@,
                        lo_rom@,
                        lspc.auto_animation_counter,
                        lspc.auto_animation_disabled,
                        palette_bank,
                        screen_shadow,
                    ),
                    fix_choice(
                        *lspc,
                        palette_ram@,
                        s_rom@,
                        palette_bank,
                        screen_shadow,
                        contents(bios_sfix),
                        fix_bank_type,
                    ),
                    out_line as int,
                ),
            )
        },
{
    if out_line >= SCREEN_H || frame.len() != SCREEN_W * SCREEN_H {
        return;
    }
    let ghost y = out_line as int;
    let ghost base = frame@;
    let ghost sprites = sprite_data(
        *lspc,
        palette_ram@,
        c_roms@,
        decoded_gfx@,
        lo_rom@,
        lspc.auto_animation_counter,
        lspc.auto_animation_disabled,
        palette_bank,
        screen_shadow,
    );
    let ghost back = backdrop_row(palette_ram@, palette_bank, screen_shadow);
    let color: u32 = lookup_palette(palette_ram, 0xFFF, palette_bank, screen_shadow);
    fill_row(frame, out_line, color);
    assert(Seq::new(SCREEN_W as nat, |x: int| color) =~= back);
    proof {
        row_laws(base, y, back, y, back);
    }
    render_sprite_scanline(
        lspc,
        palette_ram,
        c_roms,
        decoded_gfx,
        lo_rom,
        frame,
        out_line as i32,
        lspc.auto_animation_counter,
        lspc.auto_animation_disabled,
        palette_bank,
        screen_shadow,
    );
    proof {
        over_keeps_length(sprites, back, y);
        row_laws(base, y, sprites.over(back, y), y, back);
    }
    let (fix_src, bank_type): (&[u8], FixBankType) = match bios_sfix {
        Some(rom) => (rom, FixBankType::Std),
        None => (s_rom, fix_bank_type),
    };
    let ghost fix = fix_data(
        *lspc,
        palette_ram@,
        fix_src@,
        palette_bank,
        screen_shadow,
        bank_type,
    );
    render_fix_scanline(
        lspc,
        palette_ram,
        fix_src,
        frame,
        out_line,
        palette_bank,
        screen_shadow,
        bank_type,
    );
    proof {
        row_laws(base, y, frame_row(sprites, fix, y), y, sprites.over(back, y));
    }
}

/// Draw a whole frame from the state as it is now. `bios_sfix` is the system
/// ROM's fix layer, if the machine shows that one.
pub fn render_frame_full(
    lspc: &Lspc,
    palette_ram: &[u8],
    s_rom: &[u8],
    c_roms: &[Vec<u8>],
    decoded_gfx: &[u8],
    lo_rom: &[u8],
    palette_bank: u8,
    screen_shadow: bool,
    bios_sfix: Option<&[u8]>,
    fix_bank_type: FixBankType,
) -> (frame: Frame)
    requires
        lspc.wf(),
    ensures
        frame@ == whole_frame(
            sprite_data(
                *lspc,
                palette_ram@,
                c_roms@,
                decoded_gfx@,
                lo_rom@,
                lspc.auto_animation_counter,
                lspc.auto_animation_disabled,
                palette_bank,
                screen_shadow,
            ),
            fix_choice(
                *lspc,
                palette_ram@,
                s_rom@,
                palette_bank,
                screen_shadow,
                contents(bios_sfix),
                fix_bank_type,
            ),
        ),
{
    let color: u32 = lookup_palette(palette_ram, 0xFFF, palette_bank, screen_shadow);
    let mut frame: Vec<u32> = vec![color; SCREEN_W * SCREEN_H];
    let ghost sprites = sprite_data(
        *lspc,
        palette_ram@,
        c_roms@,
        decoded_gfx@,
        lo_rom@,
        lspc.auto_animation_counter,
        lspc.auto_animation_disabled,
        palette_bank,
        screen_shadow,
    );
    let ghost back = backdrop_row(palette_ram@, palette_bank, screen_shadow);
    let ghost blank = frame@;
    render_sprite_layer_inner(
        lspc,
        palette_ram,
        c_roms,
        decoded_gfx,
        lo_rom,
        &mut frame,
        lspc.auto_animation_counter,
        lspc.auto_animation_disabled,
        palette_bank,
        screen_shadow,
    );
    let ghost middle = frame@;
    let (fix_src, bank_type): (&[u8], FixBankType) = match bios_sfix {
        Some(rom) => (rom, FixBankType::Std),
        None => (s_rom, fix_bank_type),
    };
    let ghost fix = fix_data(
        *lspc,
        palette_ram@,
        fix_src@,
        palette_bank,
        screen_shadow,
        bank_type,
    );
    render_fix_layer_inner_with_bank(
        lspc,
        palette_ram,
        fix_src,
        &mut frame,
        palette_bank,
        screen_shadow,
        bank_type,
    );
    proof {
        assert forall|i: int| 0 <= i < frame_len() implies #[trigger] frame@[i] == whole_frame(
            sprites,
            fix,
        )[i] by {
            let y = i / 320;
            assert(row_of(blank, y) =~= back);
            over_keeps_length(sprites, back, y);
            assert(row_of(middle, y) =~= sprites.over(back, y)) by {
                assert forall|x: int| 0 <= x < 320 implies #[trigger] row_of(middle, y)[x]
                    == sprites.over(back, y)[x] by {
                    assert((y * 320 + x) / 320 == y && (y * 320 + x) % 320 == x);
                }
            }
        }
        assert(frame@ =~= whole_frame(sprites, fix));
    }
    frame
}

/// Draw a frame from one palette bank, without shadow and banking.
pub fn render_frame_with_bank(
    lspc: &Lspc,
    palette_ram: &[u8],
    s_rom: &[u8],
    c_roms: &[Vec<u8>],
    decoded_gfx: &[u8],
    lo_rom: &[u8],
    palette_bank: u8,
) -> (frame: Frame)
    requires
        lspc.wf(),
    ensures
        frame@ == whole_frame(
            sprite_data(
                *lspc,
                palette_ram@,
                c_roms@,
                decoded_gfx@,
                lo_rom@,
                lspc.auto_animation_counter,
                lspc.auto_animation_disabled,
                palette_bank,
                false,
            ),
            fix_data(*lspc, palette_ram@, s_rom@, palette_bank, false, FixBankType::Std),
        ),
{
    render_frame_full(
        lspc,
        palette_ram,
        s_rom,
        c_roms,
        decoded_gfx,
        lo_rom,
        palette_bank,
        false,
        None,
        FixBankType::Std,
    )
}

/// Draw a frame from palette bank 0, decoding tiles on the fly.
pub fn render_frame(lspc: &Lspc, palette_ram: &[u8], s_rom: &[u8], c_roms: &[Vec<u8>]) -> (frame:
    Frame)
    requires
        lspc.wf(),
    ensures
        frame@ == whole_frame(
            sprite_data(
                *lspc,
                palette_ram@,
                c_roms@,
                Seq::empty(),
                Seq::empty(),
                lspc.auto_animation_counter,
                lspc.auto_animation_disabled,
                0,
                false,
            ),
            fix_data(*lspc, palette_ram@, s_rom@, 0, false, FixBankType::Std),
        ),
{
    let none: [u8; 0] = [];
    assert(none@ =~= Seq::<u8>::empty());
    render_frame_with_bank(lspc, palette_ram, s_rom, c_roms, &none, &none, 0)
}

/// A frame after the first `n` lines have been drawn one by one.
pub open spec fn drawn_lines(frame: Seq<u32>, sprites: SpriteData, fix: FixData, n: nat) -> Seq<u32>
    decreases n,
{
    if n == 0 {
        frame
    } else {
        with_row(
            drawn_lines(frame, sprites, fix, (n - 1) as nat),
            n - 1,
            frame_row(sprites, fix, n - 1),
        )
    }
}

proof fn drawn_lines_rows(frame: Seq<u32>, sprites: SpriteData, fix: FixData, n: nat)
    requires
        frame.len() == frame_len(),
        n <= SCREEN_H,
    ensures
        drawn_lines(frame, sprites, fix, n).len() == frame_len(),
        forall|y: int|
            0 <= y < n ==> #[trigger] row_of(drawn_lines(frame, sprites, fix, n), y) == frame_row(
                sprites,
                fix,
                y,
            ),
    decreases n,
{
    if n > 0 {
        let before = drawn_lines(frame, sprites, fix, (n - 1) as nat);
        drawn_lines_rows(frame, sprites, fix, (n - 1) as nat);
        let row = frame_row(sprites, fix, n - 1);
        assert forall|y: int| 0 <= y < n implies #[trigger] row_of(
            drawn_lines(frame, sprites, fix, n),
            y,
        ) == frame_row(sprites, fix, y) by {
            row_laws(before, n - 1, row, y, row);
        }
    }
}

/// Drawing all lines one by one gives the whole frame, whatever the frame held
/// before, if nothing changes in between.
pub proof fn lines_make_the_frame(frame: Seq<u32>, sprites: SpriteData, fix: FixData)
    requires
        frame.len() == frame_len(),
    ensures
        drawn_lines(frame, sprites, fix, SCREEN_H as nat) == whole_frame(sprites, fix),
{
    drawn_lines_rows(frame, sprites, fix, SCREEN_H as nat);
    let done = drawn_lines(frame, sprites, fix, SCREEN_H as nat);
    let all = whole_frame(sprites, fix);
    assert forall|y: int| 0 <= y < SCREEN_H implies #[trigger] row_of(done, y) == row_of(
        all,
        y,
    ) by {
        assert(row_of(all, y) =~= frame_row(sprites, fix, y)) by {
            assert forall|x: int| 0 <= x < 320 implies #[trigger] row_of(all, y)[x] == frame_row(
                sprites,
                fix,
                y,
            )[x] by {
                assert((y * 320 + x) / 320 == y && (y * 320 + x) % 320 == x);
            }
        }
    }
    rows_make_frame(done, all);
}

/// Every pixel of a frame is opaque, whatever the layers show, and there are 320
/// by 224 of them.
pub proof fn frames_are_opaque(sprites: SpriteData, fix: FixData, i: int)
    requires
        sprites.palette_ram.len() >= 0x4000,
        fix.palette_ram.len() >= 0x4000,
        0 <= i < 320 * 224,
    ensures
        whole_frame(sprites, fix).len() == 320 * 224,
        is_opaque(whole_frame(sprites, fix)[i]),
{
    let (y, x) = (i / 320, i % 320);
    let backdrop = backdrop_row(fix.palette_ram, fix.palette_bank, fix.screen_shadow);
    palette_is_opaque(fix.palette_ram, 0xFFF, fix.palette_bank, fix.screen_shadow);
    assert(row_is_opaque(backdrop));
    over_stays_opaque(sprites, backdrop, y);
    let row = sprites.over(backdrop, y);
    assert(is_opaque(row[x]));
    let (col, line) = (x / 8, y / 8 + 2);
    let c = fix_pixel_of(fix.s_rom, fix.tile(col, line), x % 8, y % 8);
    palette_is_opaque(
        fix.palette_ram,
        16 * (fix.cell(col, line) as int / 0x1000) + c,
        fix.palette_bank,
        fix.screen_shadow,
    );
}

/// With a system ROM for the fix layer, neither the cartridge's fix tiles nor
/// their banking matter.
pub proof fn system_fix_replaces_cartridge(
    lspc: Lspc,
    palette_ram: Seq<u8>,
    s_rom: Seq<u8>,
    other_s_rom: Seq<u8>,
    palette_bank: u8,
    screen_shadow: bool,
    bios_sfix: Seq<u8>,
    bank_type: FixBankType,
    other_bank_type: FixBankType,
)
    ensures
        fix_choice(
            lspc,
            palette_ram,
            s_rom,
            palette_bank,
            screen_shadow,
            Some(bios_sfix),
            bank_type,
        ) == fix_choice(
            lspc,
            palette_ram,
            other_s_rom,
            palette_bank,
            screen_shadow,
            Some(bios_sfix),
            other_bank_type,
        ),
{
}

}
