use pydmg_neogeo::graphics::palette_lut::level;
use pydmg_neogeo::graphics::png::{adler32, crc32, frame_to_png, zlib_store};
use pydmg_neogeo::graphics::sprites::sprite_on_scanline;
use pydmg_neogeo::graphics::tiles::{
    decoded_sprite_pixel, fix_tile_pixel, lookup_palette, pack_rgba, palette_word_to_rgb,
};
use pydmg_neogeo::lspc::Lspc;
use pydmg_neogeo::video::{
    decode_sprite_gfx, render_fix_layer, render_fix_layer_inner_with_bank_and_crop, render_frame,
    render_scanline, sprite_tile_pixel, FixBankType, SCREEN_H, SCREEN_W,
};

fn white_entry(palette: &mut [u8], idx: usize) {
    palette[2 * idx] = 0x7F;
    palette[2 * idx + 1] = 0xFF;
}

#[test]
fn colours_follow_the_ladder() {
    assert_eq!(palette_word_to_rgb(0x0000, false), (level(0, 0), level(0, 0), level(0, 0)));
    assert_eq!(palette_word_to_rgb(0x7FFF, false), (255, 255, 255));
    assert_eq!(palette_word_to_rgb(0x4F00, false), (255, level(0, 0), level(0, 0)));
    assert_eq!(palette_word_to_rgb(0x8000, true), (level(0, 3), level(0, 3), level(0, 3)));
    assert_eq!(pack_rgba(1, 2, 3, 4), 0x01020304);
    let mut pal = vec![0u8; 0x4000];
    white_entry(&mut pal, 0x1000 + 5);
    assert_eq!(lookup_palette(&pal, 5, 1, false), 0xFFFFFFFF);
    assert_eq!(lookup_palette(&pal[..4], 5, 0, false), 0);
}

#[test]
fn fix_pixels_are_paired() {
    let mut rom = vec![0u8; 64];
    rom[32 + 16] = 0x21;
    rom[32 + 8 + 7] = 0x43;
    assert_eq!(fix_tile_pixel(&rom, 1, 0, 0), 1);
    assert_eq!(fix_tile_pixel(&rom, 1, 1, 0), 2);
    assert_eq!(fix_tile_pixel(&rom, 1, 6, 7), 3);
    assert_eq!(fix_tile_pixel(&rom, 1, 7, 7), 4);
    assert_eq!(fix_tile_pixel(&rom, 2, 0, 0), 0);
}

#[test]
fn decoded_sprites_agree_with_roms() {
    let even: Vec<u8> = (0..192usize).map(|i| (i * 37) as u8).collect();
    let odd: Vec<u8> = (0..192usize).map(|i| (i * 91 + 5) as u8).collect();
    let roms = vec![even, odd];
    let decoded = decode_sprite_gfx(&roms);
    assert_eq!(decoded.len(), 4 * 256);
    for tile in 0..3u32 {
        for y in 0..16u8 {
            for x in 0..16u8 {
                assert_eq!(
                    decoded_sprite_pixel(&decoded, tile, x, y),
                    sprite_tile_pixel(&roms, tile, x, y)
                );
            }
        }
    }
    assert_eq!(sprite_tile_pixel(&roms, 3, 0, 0), 0);
    assert!(decode_sprite_gfx(&[]).is_empty());
}

#[test]
fn fix_layer_draws_its_cells() {
    let mut lspc = Lspc::new();
    lspc.vram[0x7000 + 32 * 3 + 2] = 0x1001;
    let mut s_rom = vec![0u8; 64];
    s_rom[32 + 16] = 0x01;
    let mut pal = vec![0u8; 0x4000];
    white_entry(&mut pal, 17);
    let mut frame = vec![7u32; SCREEN_W * SCREEN_H];
    render_fix_layer(&lspc, &pal, &s_rom, &mut frame);
    assert_eq!(frame[24], 0xFFFFFFFF);
    assert_eq!(frame[25], 7);
    assert_eq!(frame[SCREEN_W + 24], 7);
    let mut cropped = vec![7u32; SCREEN_W * SCREEN_H];
    render_fix_layer_inner_with_bank_and_crop(
        &lspc,
        &pal,
        &s_rom,
        &mut cropped,
        0,
        false,
        FixBankType::Std,
        4,
    );
    assert_eq!(cropped[24], 7);
}

#[test]
fn sprites_stand_over_the_backdrop() {
    let mut lspc = Lspc::new();
    // Sprite 1: one tile at the top left, full size.
    lspc.vram[64] = 0;
    lspc.vram[65] = 0x0100;
    lspc.vram[0x8001] = 0x0FFF;
    lspc.vram[0x8201] = ((496u16) << 7) | 1;
    lspc.vram[0x8401] = 0;
    let roms = vec![vec![0xFFu8; 64], vec![0u8; 64]];
    let mut pal = vec![0u8; 0x4000];
    white_entry(&mut pal, 16 + 3);
    let frame = render_frame(&lspc, &pal, &[], &roms);
    assert_eq!(frame.len(), SCREEN_W * SCREEN_H);
    assert_eq!(frame[0], 0xFFFFFFFF);
    assert_eq!(frame[15], 0xFFFFFFFF);
    let backdrop = lookup_palette(&pal, 0xFFF, 0, false);
    assert_eq!(frame[16], backdrop);
    assert_eq!(frame[SCREEN_W * 16], backdrop);
    assert!(sprite_on_scanline(5, 0, 1));
    assert!(!sprite_on_scanline(16, 0, 1));
}

#[test]
fn lines_make_a_frame() {
    let mut lspc = Lspc::new();
    lspc.vram[0x7000 + 32 * 3 + 2] = 0x1001;
    let s_rom = vec![0x11u8; 64];
    let mut pal = vec![0u8; 0x4000];
    white_entry(&mut pal, 17);
    let whole = render_frame(&lspc, &pal, &s_rom, &[]);
    let mut lines = vec![0u32; SCREEN_W * SCREEN_H];
    for y in 0..SCREEN_H {
        render_scanline(
            &lspc,
            &pal,
            &s_rom,
            &[],
            &[],
            &[],
            &mut lines,
            y,
            0,
            false,
            None,
            FixBankType::Std,
        );
    }
    assert_eq!(lines, whole);
}

#[test]
fn pictures_are_written_as_png() {
    assert_eq!(crc32(b"123456789"), 0xCBF4_3926);
    assert_eq!(adler32(b"Wikipedia"), 0x11E6_0398);
    assert_eq!(
        zlib_store(&[1, 2, 3]),
        vec![0x78, 0x01, 0x01, 3, 0, 0xFC, 0xFF, 1, 2, 3, 0, 0x0D, 0, 7]
    );
    let png = frame_to_png(&[0x11223344, 0x55667788], 2, 1);
    assert_eq!(png[..8], [0x89, b'P', b'N', b'G', 0x0D, 0x0A, 0x1A, 0x0A]);
    assert_eq!(png[8..16], [0, 0, 0, 13, b'I', b'H', b'D', b'R']);
    assert_eq!(png[16..24], [0, 0, 0, 2, 0, 0, 0, 1]);
    assert_eq!(png[png.len() - 8..png.len() - 4], [b'I', b'E', b'N', b'D']);
}
