//! The sprite layer.
//!
//! Video memory holds, by word address: sprite tiles at 0000 (64 words a
//! sprite, two per tile), shrinking at 8000, vertical position, chain bit and
//! height at 8200, horizontal position at 8400.
use vstd::prelude::*;
use crate::graphics::frame::{frame_len, frame_of, row_laws, row_of, set_in_row, with_row};
use crate::graphics::lspc::{Lspc, VRAM_WORDS};
use crate::graphics::tiles::{
    decoded_index, decoded_sprite_pixel, is_opaque, lookup_palette, palette_color,
    palette_is_opaque, sprite_pixel_of, sprite_tile_pixel, SCREEN_H, SCREEN_W,
};

verus! {

/// Which of a tile's sixteen columns are shown at each of the sixteen widths;
/// the top bit is the leftmost column.
pub const ZOOM_X_TABLES: [u16; 16] = [
    0x0080, 0x0880, 0x0888, 0x2888, 0x288A, 0x2A8A, 0x2AAA, 0xAAAA, 0xAAEA, 0xBAEA, 0xBAEB, 0xBBEB,
    0xBBEF, 0xFBEF, 0xFBFF, 0xFFFF,
];

pub const MAX_SPRITES_PER_SCREEN: usize = 381;

pub const MAX_SPRITES_PER_LINE: usize = 96;

/// The position and size that a chain of sprites shares. A chained sprite
/// stands to the right of the one before it and keeps the rest.
#[derive(Debug, Clone, Copy)]
pub struct SpriteRun {
    pub x: u32,
    pub y: u32,
    pub rows: u32,
    pub zoom_y: u32,
    pub zoom_x: u32,
}

/// Whether a sprite's chain bit is set.
#[verifier::allow_in_spec]
pub fn is_chained(y_control: u16) -> bool
    returns
        (y_control / 64) % 2 == 1,
{
    (y_control / 64) % 2 == 1
}

/// The top line that a sprite's vertical control word gives.
#[verifier::allow_in_spec]
pub fn top_line(y_control: u16) -> (y: u32)
    ensures
        1 <= y <= 512,
    returns
        (512 - y_control as u32 / 128) as u32,
{
    512 - y_control as u32 / 128
}

/// The height in tiles that a sprite's vertical control word gives.
#[verifier::allow_in_spec]
pub fn tile_rows(y_control: u16) -> u32
    returns
        (y_control % 64) as u32,
{
    (y_control % 64) as u32
}

/// The run after a sprite with the given control words.
#[verifier::allow_in_spec]
pub fn next_run(run: SpriteRun, y_control: u16, zoom_control: u16, x_control: u16) -> SpriteRun
    requires
        run.x < 512,
        run.zoom_x < 16,
    returns
        (if is_chained(y_control) {
            SpriteRun {
                x: ((run.x + run.zoom_x + 1) % 512) as u32,
                zoom_x: ((zoom_control / 256) % 16) as u32,
                ..run
            }
        } else {
            SpriteRun {
                x: (x_control / 128) as u32,
                y: top_line(y_control),
                rows: tile_rows(y_control),
                zoom_y: (zoom_control % 256) as u32,
                zoom_x: ((zoom_control / 256) % 16) as u32,
            }
        }),
{
    if is_chained(y_control) {
        SpriteRun {
            x: (run.x + run.zoom_x + 1) % 512,
            zoom_x: ((zoom_control / 256) % 16) as u32,
            ..run
        }
    } else {
        SpriteRun {
            x: (x_control / 128) as u32,
            y: top_line(y_control),
            rows: tile_rows(y_control),
            zoom_y: (zoom_control % 256) as u32,
            zoom_x: ((zoom_control / 256) % 16) as u32,
        }
    }
}

/// Which line of a sprite the raster line `hw` is, going round after 512.
pub open spec fn sprite_line(hw: int, y: int) -> int {
    (hw - y) % 512
}

/// Whether a sprite covers a raster line. Heights of zero and of 32 and up
/// always do.
pub open spec fn on_line(hw: int, y: int, rows: int) -> bool {
    rows == 0 || rows >= 0x20 || sprite_line(hw, y) < 16 * rows
}

pub fn sprite_on_scanline(scanline: u32, y: u32, rows: u32) -> (r: bool)
    requires
        scanline < 512,
        y <= 512,
        rows < 64,
    ensures
        r == on_line(scanline as int, y as int, rows as int),
{
    assert((scanline + 512 - y) as int % 512 == (scanline - y) % 512);
    rows == 0 || rows >= 0x20 || (scanline + 512 - y) % 512 < 16 * rows
}

/// The sprites shown on a raster line, in order, looking from sprite `n` on and
/// at most 96 of them. `y` and `rows` are those of the chain so far.
pub open spec fn active_from(
    vram: Seq<u16>,
    hw: int,
    n: int,
    y: u32,
    rows: u32,
    list: Seq<usize>,
) -> Seq<usize>
    decreases MAX_SPRITES_PER_SCREEN - n,
{
    if n >= MAX_SPRITES_PER_SCREEN || list.len() >= MAX_SPRITES_PER_LINE {
        list
    } else {
        let yc = vram[0x8200 + n];
        let y1 = if is_chained(yc) {
            y
        } else {
            top_line(yc)
        };
        let rows1 = if is_chained(yc) {
            rows
        } else {
            tile_rows(yc)
        };
        let shown = rows1 != 0 && on_line(hw, y1 as int, rows1 as int);
        active_from(
            vram,
            hw,
            n + 1,
            y1,
            rows1,
            if shown {
                list.push(n as usize)
            } else {
                list
            },
        )
    }
}

/// The sprites shown on a raster line.
pub open spec fn active_sprites(vram: Seq<u16>, hw: int) -> Seq<usize> {
    active_from(vram, hw, 0, 0, 0, Seq::empty())
}

fn find_active(vram: &Vec<u16>, hw: u32) -> (list: Vec<usize>)
    requires
        vram@.len() == VRAM_WORDS,
        hw < 512,
    ensures
        list@ == active_sprites(vram@, hw as int),
        forall|k: int| 0 <= k < list@.len() ==> #[trigger] list@[k] < MAX_SPRITES_PER_SCREEN,
{
    let mut list: Vec<usize> = Vec::new();
    let mut y: u32 = 0;
    let mut rows: u32 = 0;
    let mut n: usize = 0;
    while n < MAX_SPRITES_PER_SCREEN && list.len() < MAX_SPRITES_PER_LINE
        invariant
            vram@.len() == VRAM_WORDS,
            hw < 512,
            n <= MAX_SPRITES_PER_SCREEN,
            y <= 512,
            rows < 64,
            active_from(vram@, hw as int, n as int, y, rows, list@) == active_sprites(
                vram@,
                hw as int,
            ),
            forall|k: int| 0 <= k < list@.len() ==> #[trigger] list@[k] < MAX_SPRITES_PER_SCREEN,
        decreases MAX_SPRITES_PER_SCREEN - n,
    {
        let yc: u16 = vram[0x8200 + n];
        if !is_chained(yc) {
            y = top_line(yc);
            rows = tile_rows(yc);
        }
        if rows != 0 && sprite_on_scanline(hw, y, rows) {
            list.push(n);
        }
        n = n + 1;
    }
    list
}

/// Which line of a shrunk sprite is shown and whether it is from the mirrored
/// second half. Sprites taller than 32 tiles repeat.
pub open spec fn zoom_line(run: SpriteRun, hw: int) -> (int, bool) {
    let line = sprite_line(hw, run.y as int);
    let second = line >= 256;
    let z = if second {
        511 - line
    } else {
        line
    };
    if run.rows > 0x20 {
        let period = 2 * (run.zoom_y + 1);
        let folded = z % period;
        if folded > run.zoom_y {
            (period - 1 - folded, !second)
        } else {
            (folded, second)
        }
    } else {
        (z, second)
    }
}

/// The tile of a sprite and the line in it that a raster line shows. The zoom
/// ROM maps lines to tile lines; without it they are not shrunk.
pub open spec fn tile_line(run: SpriteRun, hw: int, lo_rom: Seq<u8>) -> (int, int) {
    let (z, mirrored) = zoom_line(run, hw);
    let (tile, line) = if lo_rom.len() >= 0x10000 {
        let b = lo_rom[256 * run.zoom_y + z];
        (b as int / 16, b as int % 16)
    } else {
        (z / 16, z % 16)
    };
    if mirrored {
        (31 - tile, 15 - line)
    } else {
        (tile, line)
    }
}

pub open spec fn run_wf(run: SpriteRun) -> bool {
    run.x < 512 && run.y <= 512 && run.rows < 64 && run.zoom_y < 256 && run.zoom_x < 16
}

fn compute_tile_line(run: SpriteRun, hw: u32, lo_rom: &[u8]) -> (r: (u32, u32))
    requires
        run_wf(run),
        hw < 512,
    ensures
        (r.0 as int, r.1 as int) == tile_line(run, hw as int, lo_rom@),
        r.0 < 32,
        r.1 < 16,
{
    let line: u32 = (hw + 512 - run.y) % 512;
    assert((hw + 512 - run.y) as int % 512 == (hw - run.y) % 512);
    let second: bool = line >= 256;
    let mut mirrored: bool = second;
    let mut z: u32 = if second {
        511 - line
    } else {
        line
    };
    if run.rows > 0x20 {
        let period: u32 = 2 * (run.zoom_y + 1);
        z = z % period;
        if z > run.zoom_y {
            z = period - 1 - z;
            mirrored = !mirrored;
        }
    }
    assert(z < 256);
    let (tile, sub): (u32, u32) = if lo_rom.len() >= 0x10000 {
        let b: u8 = lo_rom[(256 * run.zoom_y + z) as usize];
        ((b / 16) as u32, (b % 16) as u32)
    } else {
        (z / 16, z % 16)
    };
    if mirrored {
        (31 - tile, 15 - sub)
    } else {
        (tile, sub)
    }
}

/// What the sprite layer is drawn from.
pub struct SpriteSource<'a> {
    pub vram: &'a Vec<u16>,
    pub palette_ram: &'a [u8],
    pub c_roms: &'a [Vec<u8>],
    /// All tiles decoded, or empty to decode on the fly.
    pub decoded_gfx: &'a [u8],
    pub lo_rom: &'a [u8],
    pub auto_animation_counter: u32,
    pub auto_animation_disabled: bool,
    pub palette_bank: u8,
    pub screen_shadow: bool,
}

/// One line of one tile, ready to be drawn.
#[derive(Debug, Clone, Copy)]
pub struct Strip {
    /// The screen column of the leftmost shown pixel; may be left of the screen.
    pub left: i32,
    pub code: u32,
    pub line: u8,
    pub palette: u16,
    pub hflip: bool,
    /// The columns shown.
    pub mask: u16,
}

/// The same as mathematical values.
pub ghost struct SpriteData {
    pub vram: Seq<u16>,
    pub palette_ram: Seq<u8>,
    pub c_roms: Seq<Vec<u8>>,
    pub decoded_gfx: Seq<u8>,
    pub lo_rom: Seq<u8>,
    pub auto_animation_counter: u32,
    pub auto_animation_disabled: bool,
    pub palette_bank: u8,
    pub screen_shadow: bool,
}

impl<'a> View for SpriteSource<'a> {
    type V = SpriteData;

    open spec fn view(&self) -> SpriteData {
        SpriteData {
            vram: self.vram@,
            palette_ram: self.palette_ram@,
            c_roms: self.c_roms@,
            decoded_gfx: self.decoded_gfx@,
            lo_rom: self.lo_rom@,
            auto_animation_counter: self.auto_animation_counter,
            auto_animation_disabled: self.auto_animation_disabled,
            palette_bank: self.palette_bank,
            screen_shadow: self.screen_shadow,
        }
    }
}

impl SpriteData {
    pub open spec fn wf(self) -> bool {
        self.vram.len() == VRAM_WORDS
    }

    /// Whether there is anything to draw from.
    pub open spec fn has_tiles(self) -> bool {
        self.c_roms.len() > 0 || self.decoded_gfx.len() > 0
    }

    /// The colour number of a tile pixel.
    pub open spec fn pixel(self, code: u32, x: u8, y: u8) -> u8 {
        if self.decoded_gfx.len() > 0 {
            self.decoded_gfx[decoded_index(
                self.decoded_gfx.len() as usize,
                code,
                x,
                y,
            ) as int]
        } else {
            sprite_pixel_of(self.c_roms, code as int, x as int, y as int)
        }
    }

    /// The tile that an entry of video memory names: twenty bits, of which
    /// automatic animation replaces the low three or two.
    pub open spec fn tile_code(self, low: u16, attr: u16) -> int {
        let code = low + 0x10000 * ((attr as int / 16) % 16);
        if self.auto_animation_disabled {
            code
        } else if (attr / 8) % 2 == 1 {
            code - code % 8 + self.auto_animation_counter as int % 8
        } else if (attr / 4) % 2 == 1 {
            code - code % 4 + self.auto_animation_counter as int % 4
        } else {
            code
        }
    }

    /// What a sprite shows on a raster line, if anything.
    pub open spec fn strip(self, sprite: int, run: SpriteRun, hw: int) -> Option<Strip> {
        let (tile, line) = tile_line(run, hw, self.lo_rom);
        let entry = 64 * sprite + 2 * tile;
        if 0x140 <= run.x <= 0x1F0 || !on_line(hw, run.y as int, run.rows as int) || entry + 1
            >= 0x7000 {
            None
        } else {
            let attr = self.vram[entry + 1];
            Some(
                Strip {
                    left: if run.x >= 0x1E0 { (run.x - 0x200) as i32 } else { run.x as i32 },
                    code: self.tile_code(self.vram[entry], attr) as u32,
                    line: if (attr / 2) % 2 == 1 { (15 - line) as u8 } else { line as u8 },
                    palette: (attr / 256) as u16,
                    hflip: attr % 2 == 1,
                    mask: ZOOM_X_TABLES@[run.zoom_x as int],
                },
            )
        }
    }

    /// The columns of a strip from column `k` on drawn into a row, the next
    /// shown one at `x`. Colour 0 is transparent.
    pub open spec fn blit(self, row: Seq<u32>, strip: Strip, k: int, x: int) -> Seq<u32>
        decreases 16 - k,
    {
        if k >= 16 {
            row
        } else if (strip.mask >> ((15 - k) as u16)) & 1 == 1 {
            let px = if strip.hflip {
                15 - k
            } else {
                k
            };
            let c = self.pixel(strip.code, px as u8, strip.line);
            let row1 = if 0 <= x < SCREEN_W && c != 0 {
                row.update(
                    x,
                    palette_color(
                        self.palette_ram,
                        16 * strip.palette + c,
                        self.palette_bank,
                        self.screen_shadow,
                    ),
                )
            } else {
                row
            };
            self.blit(row1, strip, k + 1, x + 1)
        } else {
            self.blit(row, strip, k + 1, x)
        }
    }

    /// The sprites of a list from number `k` on drawn into a row in order.
    pub open spec fn draw_list(
        self,
        row: Seq<u32>,
        list: Seq<usize>,
        k: int,
        run: SpriteRun,
        hw: int,
    ) -> Seq<u32>
        decreases list.len() - k,
    {
        if k < 0 || k >= list.len() {
            row
        } else {
            let n = list[k] as int;
            let run1 = next_run(
                run,
                self.vram[0x8200 + n],
                self.vram[0x8000 + n],
                self.vram[0x8400 + n],
            );
            let row1 = match self.strip(n, run1, hw) {
                Some(strip) => self.blit(row, strip, 0, strip.left as int),
                None => row,
            };
            self.draw_list(row1, list, k + 1, run1, hw)
        }
    }

    /// A row with the sprite layer laid over it. The visible lines start at
    /// raster line 16.
    pub open spec fn over(self, row: Seq<u32>, y: int) -> Seq<u32> {
        if self.has_tiles() {
            self.draw_list(
                row,
                active_sprites(self.vram, y + 16),
                0,
                SpriteRun { x: 0, y: 0, rows: 0, zoom_y: 0, zoom_x: 0 },
                y + 16,
            )
        } else {
            row
        }
    }

    /// A whole frame with the layer laid over it.
    pub open spec fn over_frame(self, frame: Seq<u32>) -> Seq<u32> {
        frame_of(|y: int| self.over(row_of(frame, y), y))
    }
}

impl<'a> SpriteSource<'a> {
    fn compute_pixel(&self, code: u32, x: u8, y: u8) -> (c: u8)
        ensures
            c == self@.pixel(code, x, y),
    {
        if self.decoded_gfx.len() > 0 {
            decoded_sprite_pixel(self.decoded_gfx, code, x, y)
        } else {
            sprite_tile_pixel(self.c_roms, code, x, y)
        }
    }

    fn compute_tile_code(&self, low: u16, attr: u16) -> (code: u32)
        ensures
            code == self@.tile_code(low, attr),
    {
        let code: u32 = low as u32 + 0x10000 * ((attr as u32 / 16) % 16);
        if self.auto_animation_disabled {
            code
        } else if (attr / 8) % 2 == 1 {
            code - code % 8 + self.auto_animation_counter % 8
        } else if (attr / 4) % 2 == 1 {
            code - code % 4 + self.auto_animation_counter % 4
        } else {
            code
        }
    }

    fn compute_strip(&self, sprite: usize, run: SpriteRun, hw: u32) -> (s: Option<Strip>)
        requires
            self@.wf(),
            sprite < MAX_SPRITES_PER_SCREEN,
            run_wf(run),
            hw < 512,
        ensures
            s == self@.strip(sprite as int, run, hw as int),
            s matches Some(strip) ==> -0x200 <= strip.left < 0x200 && strip.palette < 256,
    {
        if 0x140 <= run.x && run.x <= 0x1F0 {
            return None;
        }
        if !sprite_on_scanline(hw, run.y, run.rows) {
            return None;
        }
        let (tile, line): (u32, u32) = compute_tile_line(run, hw, self.lo_rom);
        let entry: usize = 64 * sprite + 2 * tile as usize;
        if entry + 1 >= 0x7000 {
            return None;
        }
        let attr: u16 = self.vram[entry + 1];
        let code: u32 = self.compute_tile_code(self.vram[entry], attr);
        let zoom: [u16; 16] = ZOOM_X_TABLES;
        Some(
            Strip {
                left: if run.x >= 0x1E0 {
                    run.x as i32 - 0x200
                } else {
                    run.x as i32
                },
                code,
                line: if (attr / 2) % 2 == 1 {
                    (15 - line) as u8
                } else {
                    line as u8
                },
                palette: attr / 256,
                hflip: attr % 2 == 1,
                mask: zoom[run.zoom_x as usize],
            },
        )
    }

    fn draw_strip(
        &self,
        frame: &mut [u32],
        y: usize,
        strip: Strip,
        Ghost(base): Ghost<Seq<u32>>,
        Ghost(row): Ghost<Seq<u32>>,
    )
        requires
            y < SCREEN_H,
            base.len() == frame_len(),
            row.len() == SCREEN_W,
            old(frame)@ == with_row(base, y as int, row),
            -0x200 <= strip.left < 0x200,
            strip.palette < 256,
        ensures
            final(frame)@ == with_row(
                base,
                y as int,
                self@.blit(row, strip, 0, strip.left as int),
            ),
            self@.blit(row, strip, 0, strip.left as int).len() == SCREEN_W,
    {
        let ghost goal = self@.blit(row, strip, 0, strip.left as int);
        let ghost mut cur = row;
        let mut x: i32 = strip.left;
        let mut k: u16 = 0;
        while k < 16
            invariant
                k <= 16,
                y < SCREEN_H,
                base.len() == frame_len(),
                cur.len() == SCREEN_W,
                frame@ == with_row(base, y as int, cur),
                -0x200 <= x <= 0x200 + k,
                strip.palette < 256,
                goal == self@.blit(cur, strip, k as int, x as int),
            decreases 16 - k,
        {
            if (strip.mask >> (15 - k)) & 1 == 1 {
                if 0 <= x && x < SCREEN_W as i32 {
                    let px: u8 = if strip.hflip {
                        (15 - k) as u8
                    } else {
                        k as u8
                    };
                    let c: u8 = self.compute_pixel(strip.code, px, strip.line);
                    if c != 0 {
                        let idx: u16 = 16 * strip.palette + c as u16;
                        let v: u32 = lookup_palette(
                            self.palette_ram,
                            idx,
                            self.palette_bank,
                            self.screen_shadow,
                        );
                        proof {
                            set_in_row(base, y as int, cur, x as int, v);
                            cur = cur.update(x as int, v);
                        }
                        frame[y * SCREEN_W + x as usize] = v;
                    }
                }
                x = x + 1;
            }
            k = k + 1;
        }
    }

    /// Lay one line of the layer over a frame.
    fn draw_line(&self, frame: &mut [u32], y: usize)
        requires
            self@.wf(),
            y < SCREEN_H,
            old(frame)@.len() == frame_len(),
        ensures
            final(frame)@ == with_row(
                old(frame)@,
                y as int,
                self@.over(row_of(old(frame)@, y as int), y as int),
            ),
            self@.over(row_of(old(frame)@, y as int), y as int).len() == SCREEN_W,
    {
        let ghost base = frame@;
        let ghost mut row = row_of(base, y as int);
        proof {
            row_laws(base, y as int, row, y as int, row);
        }
        if self.c_roms.len() == 0 && self.decoded_gfx.len() == 0 {
            return;
        }
        let hw: u32 = y as u32 + 16;
        let list: Vec<usize> = find_active(self.vram, hw);
        let mut run: SpriteRun = SpriteRun { x: 0, y: 0, rows: 0, zoom_y: 0, zoom_x: 0 };
        let ghost goal = self@.draw_list(row, list@, 0, run, hw as int);
        let mut k: usize = 0;
        while k < list.len()
            invariant
                self@.wf(),
                k <= list.len(),
                y < SCREEN_H,
                hw == y + 16,
                run_wf(run),
                base.len() == frame_len(),
                row.len() == SCREEN_W,
                frame@ == with_row(base, y as int, row),
                forall|j: int|
                    0 <= j < list@.len() ==> #[trigger] list@[j] < MAX_SPRITES_PER_SCREEN,
                goal == self@.draw_list(row, list@, k as int, run, hw as int),
            decreases list.len() - k,
        {
            let n: usize = list[k];
            run = next_run(run, self.vram[0x8200 + n], self.vram[0x8000 + n], self.vram[0x8400
                + n]);
            match self.compute_strip(n, run, hw) {
                Some(strip) => {
                    self.draw_strip(frame, y, strip, Ghost(base), Ghost(row));
                    proof {
                        row = self@.blit(row, strip, 0, strip.left as int);
                    }
                }
                None => {}
            }
            k = k + 1;
        }
    }

    fn draw_frame(&self, frame: &mut [u32])
        requires
            self@.wf(),
            old(frame)@.len() == frame_len(),
        ensures
            final(frame)@ == self@.over_frame(old(frame)@),
    {
        let mut y: usize = 0;
        while y < SCREEN_H
            invariant
                self@.wf(),
                y <= SCREEN_H,
                frame@.len() == frame_len(),
                old(frame)@.len() == frame_len(),
                forall|i: int|
                    0 <= i < frame_len() ==> #[trigger] frame@[i] == if i / 320 < y {
                        self@.over(row_of(old(frame)@, i / 320), i / 320)[i % 320]
                    } else {
                        old(frame)@[i]
                    },
            decreases SCREEN_H - y,
        {
            assert(row_of(frame@, y as int) =~= row_of(old(frame)@, y as int)) by {
                assert forall|x: int| 0 <= x < 320 implies #[trigger] row_of(
                    frame@,
                    y as int,
                )[x] == row_of(old(frame)@, y as int)[x] by {
                    assert((y * 320 + x) / 320 == y);
                }
            }
            self.draw_line(frame, y);
            y = y + 1;
        }
        assert(frame@ =~= self@.over_frame(old(frame)@));
    }
}

/// The source that the renderers below draw from.
pub open spec fn sprite_data(
    lspc: Lspc,
    palette_ram: Seq<u8>,
    c_roms: Seq<Vec<u8>>,
    decoded_gfx: Seq<u8>,
    lo_rom: Seq<u8>,
    auto_animation_counter: u32,
    auto_animation_disabled: bool,
    palette_bank: u8,
    screen_shadow: bool,
) -> SpriteData {
    SpriteData {
        vram: lspc.vram@,
        palette_ram,
        c_roms,
        decoded_gfx,
        lo_rom,
        auto_animation_counter,
        auto_animation_disabled,
        palette_bank,
        screen_shadow,
    }
}

/// Draw one line of the sprite layer over a frame. A line off the screen, or a
/// frame of another size, is left alone.
pub fn render_sprite_scanline(
    lspc: &Lspc,
    palette_ram: &[u8],
    c_roms: &[Vec<u8>],
    decoded_gfx: &[u8],
    lo_rom: &[u8],
    frame: &mut [u32],
    scanline: i32,
    auto_animation_counter: u32,
    auto_animation_disabled: bool,
    palette_bank: u8,
    screen_shadow: bool,
)
    requires
        lspc.wf(),
    ensures
        final(frame)@ == if !(0 <= scanline < SCREEN_H) || old(frame)@.len() != frame_len() {
            old(frame)@
        } else {
            with_row(
                old(frame)@,
                scanline as int,
                sprite_data(
                    *lspc,
                    palette_ram@,
                    c_roms@,
                    decoded_gfx@,
                    lo_rom@,
                    auto_animation_counter,
                    auto_animation_disabled,
                    palette_bank,
                    screen_shadow,
                ).over(row_of(old(frame)@, scanline as int), scanline as int),
            )
        },
{
    if scanline < 0 || scanline >= SCREEN_H as i32 || frame.len() != SCREEN_W * SCREEN_H {
        return;
    }
    let src: SpriteSource = SpriteSource {
        vram: &lspc.vram,
        palette_ram,
        c_roms,
        decoded_gfx,
        lo_rom,
        auto_animation_counter,
        auto_animation_disabled,
        palette_bank,
        screen_shadow,
    };
    src.draw_line(frame, scanline as usize);
}

/// Draw the sprite layer over a frame.
pub fn render_sprite_layer_inner(
    lspc: &Lspc,
    palette_ram: &[u8],
    c_roms: &[Vec<u8>],
    decoded_gfx: &[u8],
    lo_rom: &[u8],
    frame: &mut [u32],
    auto_animation_counter: u32,
    auto_animation_disabled: bool,
    palette_bank: u8,
    screen_shadow: bool,
)
    requires
        lspc.wf(),
        old(frame)@.len() == frame_len(),
    ensures
        final(frame)@ == sprite_data(
            *lspc,
            palette_ram@,
            c_roms@,
            decoded_gfx@,
            lo_rom@,
            auto_animation_counter,
            auto_animation_disabled,
            palette_bank,
            screen_shadow,
        ).over_frame(old(frame)@),
{
    let src: SpriteSource = SpriteSource {
        vram: &lspc.vram,
        palette_ram,
        c_roms,
        decoded_gfx,
        lo_rom,
        auto_animation_counter,
        auto_animation_disabled,
        palette_bank,
        screen_shadow,
    };
    src.draw_frame(frame);
}

/// Draw the sprite layer over a frame from palette bank 0, decoding tiles on
/// the fly and without shrinking.
pub fn render_sprite_layer(
    lspc: &Lspc,
    palette_ram: &[u8],
    c_roms: &[Vec<u8>],
    frame: &mut [u32],
    auto_animation_counter: u32,
    auto_animation_disabled: bool,
)
    requires
        lspc.wf(),
        old(frame)@.len() == frame_len(),
    ensures
        final(frame)@ == sprite_data(
            *lspc,
            palette_ram@,
            c_roms@,
            Seq::empty(),
            Seq::empty(),
            auto_animation_counter,
            auto_animation_disabled,
            0,
            false,
        ).over_frame(old(frame)@),
{
    let none: [u8; 0] = [];
    assert(none@ =~= Seq::<u8>::empty());
    render_sprite_layer_inner(
        lspc,
        palette_ram,
        c_roms,
        &none,
        &none,
        frame,
        auto_animation_counter,
        auto_animation_disabled,
        0,
        false,
    );
}

/// Draw the sprite layer over a frame from one palette bank.
pub fn render_sprite_layer_bank(
    lspc: &Lspc,
    palette_ram: &[u8],
    c_roms: &[Vec<u8>],
    decoded_gfx: &[u8],
    lo_rom: &[u8],
    frame: &mut [u32],
    auto_anim_counter: u32,
    auto_anim_disabled: bool,
    palette_bank: u8,
)
    requires
        lspc.wf(),
        old(frame)@.len() == frame_len(),
    ensures
        final(frame)@ == sprite_data(
            *lspc,
            palette_ram@,
            c_roms@,
            decoded_gfx@,
            lo_rom@,
            auto_anim_counter,
            auto_anim_disabled,
            palette_bank,
            false,
        ).over_frame(old(frame)@),
{
    render_sprite_layer_inner(
        lspc,
        palette_ram,
        c_roms,
        decoded_gfx,
        lo_rom,
        frame,
        auto_anim_counter,
        auto_anim_disabled,
        palette_bank,
        false,
    );
}

proof fn blit_keeps_length(d: SpriteData, row: Seq<u32>, strip: Strip, k: int, x: int)
    requires
        row.len() == SCREEN_W,
    ensures
        d.blit(row, strip, k, x).len() == SCREEN_W,
    decreases 16 - k,
{
    if k < 16 {
        if (strip.mask >> ((15 - k) as u16)) & 1 == 1 {
            let px = if strip.hflip {
                15 - k
            } else {
                k
            };
            let c = d.pixel(strip.code, px as u8, strip.line);
            let row1 = if 0 <= x < SCREEN_W && c != 0 {
                row.update(
                    x,
                    palette_color(
                        d.palette_ram,
                        16 * strip.palette + c,
                        d.palette_bank,
                        d.screen_shadow,
                    ),
                )
            } else {
                row
            };
            blit_keeps_length(d, row1, strip, k + 1, x + 1);
        } else {
            blit_keeps_length(d, row, strip, k + 1, x);
        }
    }
}

proof fn draw_list_keeps_length(
    d: SpriteData,
    row: Seq<u32>,
    list: Seq<usize>,
    k: int,
    run: SpriteRun,
    hw: int,
)
    requires
        row.len() == SCREEN_W,
    ensures
        d.draw_list(row, list, k, run, hw).len() == SCREEN_W,
    decreases list.len() - k,
{
    if 0 <= k < list.len() {
        let n = list[k] as int;
        let run1 = next_run(
            run,
            d.vram[0x8200 + n],
            d.vram[0x8000 + n],
            d.vram[0x8400 + n],
        );
        let row1 = match d.strip(n, run1, hw) {
            Some(strip) => d.blit(row, strip, 0, strip.left as int),
            None => row,
        };
        if let Some(strip) = d.strip(n, run1, hw) {
            blit_keeps_length(d, row, strip, 0, strip.left as int);
        }
        draw_list_keeps_length(d, row1, list, k + 1, run1, hw);
    }
}

/// A row keeps its length under the sprite layer.
pub proof fn over_keeps_length(d: SpriteData, row: Seq<u32>, y: int)
    requires
        row.len() == SCREEN_W,
    ensures
        d.over(row, y).len() == SCREEN_W,
{
    if d.has_tiles() {
        draw_list_keeps_length(
            d,
            row,
            active_sprites(d.vram, y + 16),
            0,
            SpriteRun { x: 0, y: 0, rows: 0, zoom_y: 0, zoom_x: 0 },
            y + 16,
        );
    }
}

/// Whether every pixel of a row is opaque.
pub open spec fn row_is_opaque(row: Seq<u32>) -> bool {
    row.len() == SCREEN_W && forall|x: int| 0 <= x < SCREEN_W ==> is_opaque(#[trigger] row[x])
}

proof fn blit_stays_opaque(d: SpriteData, row: Seq<u32>, strip: Strip, k: int, x: int)
    requires
        d.palette_ram.len() >= 0x4000,
        row_is_opaque(row),
        0 <= k,
    ensures
        row_is_opaque(d.blit(row, strip, k, x)),
    decreases 16 - k,
{
    if k < 16 {
        if (strip.mask >> ((15 - k) as u16)) & 1 == 1 {
            let px = if strip.hflip {
                15 - k
            } else {
                k
            };
            let c = d.pixel(strip.code, px as u8, strip.line);
            let color = palette_color(
                d.palette_ram,
                16 * strip.palette + c,
                d.palette_bank,
                d.screen_shadow,
            );
            palette_is_opaque(
                d.palette_ram,
                16 * strip.palette + c,
                d.palette_bank,
                d.screen_shadow,
            );
            let row1 = if 0 <= x < SCREEN_W && c != 0 {
                row.update(x, color)
            } else {
                row
            };
            blit_stays_opaque(d, row1, strip, k + 1, x + 1);
        } else {
            blit_stays_opaque(d, row, strip, k + 1, x);
        }
    }
}

proof fn draw_list_stays_opaque(
    d: SpriteData,
    row: Seq<u32>,
    list: Seq<usize>,
    k: int,
    run: SpriteRun,
    hw: int,
)
    requires
        d.palette_ram.len() >= 0x4000,
        row_is_opaque(row),
    ensures
        row_is_opaque(d.draw_list(row, list, k, run, hw)),
    decreases list.len() - k,
{
    if 0 <= k < list.len() {
        let n = list[k] as int;
        let run1 = next_run(run, d.vram[0x8200 + n], d.vram[0x8000 + n], d.vram[0x8400 + n]);
        if let Some(strip) = d.strip(n, run1, hw) {
            blit_stays_opaque(d, row, strip, 0, strip.left as int);
            let row1 = d.blit(row, strip, 0, strip.left as int);
            draw_list_stays_opaque(d, row1, list, k + 1, run1, hw);
        } else {
            draw_list_stays_opaque(d, row, list, k + 1, run1, hw);
        }
    }
}

/// A row of opaque pixels stays one under the sprite layer.
pub proof fn over_stays_opaque(d: SpriteData, row: Seq<u32>, y: int)
    requires
        d.palette_ram.len() >= 0x4000,
        row_is_opaque(row),
    ensures
        row_is_opaque(d.over(row, y)),
{
    if d.has_tiles() {
        draw_list_stays_opaque(
            d,
            row,
            active_sprites(d.vram, y + 16),
            0,
            SpriteRun { x: 0, y: 0, rows: 0, zoom_y: 0, zoom_x: 0 },
            y + 16,
        );
    }
}

proof fn active_from_bounds(
    vram: Seq<u16>,
    hw: int,
    n: int,
    y: u32,
    rows: u32,
    list: Seq<usize>,
)
    requires
        0 <= n <= MAX_SPRITES_PER_SCREEN,
        list.len() <= MAX_SPRITES_PER_LINE,
        forall|i: int| 0 <= i < list.len() ==> #[trigger] list[i] < n,
        forall|i: int, j: int| 0 <= i < j < list.len() ==> #[trigger] list[i] < #[trigger] list[j],
    ensures
        ({
            let all = active_from(vram, hw, n, y, rows, list);
            &&& all.len() <= MAX_SPRITES_PER_LINE
            &&& forall|i: int| 0 <= i < all.len() ==> #[trigger] all[i] < MAX_SPRITES_PER_SCREEN
            &&& forall|i: int, j: int|
                0 <= i < j < all.len() ==> #[trigger] all[i] < #[trigger] all[j]
        }),
    decreases MAX_SPRITES_PER_SCREEN - n,
{
    if n < MAX_SPRITES_PER_SCREEN && list.len() < MAX_SPRITES_PER_LINE {
        let yc = vram[0x8200 + n];
        let y1 = if is_chained(yc) {
            y
        } else {
            top_line(yc)
        };
        let rows1 = if is_chained(yc) {
            rows
        } else {
            tile_rows(yc)
        };
        let shown = rows1 != 0 && on_line(hw, y1 as int, rows1 as int);
        let list1 = if shown {
            list.push(n as usize)
        } else {
            list
        };
        active_from_bounds(vram, hw, n + 1, y1, rows1, list1);
    }
}

/// At most 96 sprites are shown on a line, each one once and in the order of
/// their numbers.
pub proof fn active_sprites_are_limited(vram: Seq<u16>, hw: int)
    ensures
        active_sprites(vram, hw).len() <= MAX_SPRITES_PER_LINE,
        forall|i: int, j: int|
            0 <= i < j < active_sprites(vram, hw).len() ==> #[trigger] active_sprites(
                vram,
                hw,
            )[i] < #[trigger] active_sprites(vram, hw)[j],
{
    active_from_bounds(vram, hw, 0, 0, 0, Seq::empty());
}

}
