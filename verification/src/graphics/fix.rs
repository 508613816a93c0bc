//! The fix layer: a map of 40 by 32 tiles of 8 by 8 pixels that does not
//! scroll. Rows 2 to 29 are visible.
use vstd::prelude::*;
use crate::graphics::frame::{frame_len, frame_of, row_of, with_row};
use crate::graphics::lspc::{Lspc, VRAM_WORDS};
use crate::graphics::tiles::{
    fix_pixel_of, fix_tile_pixel, lookup_palette, palette_color, SCREEN_H, SCREEN_W,
};

verus! {

/// How many columns are left out on either side by default.
pub const FIX_LAYER_OVERSCAN_COLS: usize = 0;

/// How a cartridge reaches more than 4096 fix tiles.
#[derive(Debug, Clone, Copy, PartialEq, Eq, Structural)]
pub enum FixBankType {
    /// Not at all.
    Std,
    /// A bank per row, from a table in video memory.
    Garou,
    /// A bank per cell, six to a word of a table in video memory.
    Kof2000,
}

impl Default for FixBankType {
    fn default() -> (t: FixBankType)
        ensures
            t == FixBankType::Std,
    {
        FixBankType::Std
    }
}

/// What the fix layer is drawn from.
pub struct FixSource<'a> {
    pub vram: &'a Vec<u16>,
    pub palette_ram: &'a [u8],
    pub s_rom: &'a [u8],
    pub palette_bank: u8,
    pub screen_shadow: bool,
    pub bank_type: FixBankType,
}

/// The banks of the rows, top row first, from the table entry at `k` on. An
/// entry whose first word is 0200 and whose second has an all-ones high byte
/// sets the bank and stands for two rows; any other entry repeats the bank.
pub open spec fn row_banks_from(vram: Seq<u16>, k: int, bank: int, banks: Seq<int>) -> Seq<int>
    decreases 34 - banks.len(),
{
    if banks.len() >= 32 {
        banks
    } else {
        let w = vram[0x7580 + k];
        if vram[0x7500 + k] == 0x0200 && w / 0x100 == 0xFF {
            let b = w as int % 4;
            row_banks_from(vram, k + 2, b, banks.push(b).push(b))
        } else {
            row_banks_from(vram, k + 2, bank, banks.push(bank))
        }
    }
}

pub open spec fn row_banks(vram: Seq<u16>) -> Seq<int> {
    row_banks_from(vram, 0, 0, Seq::empty())
}

/// Field `k` of six two-bit fields, the first one highest.
pub open spec fn bank_field(w: int, k: int) -> int {
    let unit = if k == 0 {
        1024int
    } else if k == 1 {
        256int
    } else if k == 2 {
        64int
    } else if k == 3 {
        16int
    } else if k == 4 {
        4int
    } else {
        1int
    };
    (w / unit) % 4
}

/// The same as mathematical values.
pub ghost struct FixData {
    pub vram: Seq<u16>,
    pub palette_ram: Seq<u8>,
    pub s_rom: Seq<u8>,
    pub palette_bank: u8,
    pub screen_shadow: bool,
    pub bank_type: FixBankType,
}

impl<'a> View for FixSource<'a> {
    type V = FixData;

    open spec fn view(&self) -> FixData {
        FixData {
            vram: self.vram@,
            palette_ram: self.palette_ram@,
            s_rom: self.s_rom@,
            palette_bank: self.palette_bank,
            screen_shadow: self.screen_shadow,
            bank_type: self.bank_type,
        }
    }
}

impl FixData {
    pub open spec fn wf(self) -> bool {
        self.vram.len() == VRAM_WORDS
    }

    /// Banks count only for large ROMs.
    pub open spec fn banked(self) -> bool {
        self.bank_type != FixBankType::Std && self.s_rom.len() > 0x20000
    }

    /// The map word of a cell: palette above tile.
    pub open spec fn cell(self, col: int, row: int) -> u16 {
        self.vram[0x7000 + 32 * col + row]
    }

    /// The tile shown in a cell. Banks are stored complemented.
    pub open spec fn tile(self, col: int, row: int) -> int {
        let low = self.cell(col, row) as int % 0x1000;
        if !self.banked() {
            low
        } else if self.bank_type == FixBankType::Garou {
            low + 0x1000 * (3 - row_banks(self.vram)[row - 2])
        } else {
            let w = self.vram[0x7500 + row - 1 + 32 * (col / 6)];
            low + 0x1000 * (3 - bank_field(w as int, col % 6))
        }
    }

    /// The colour at a screen position; none where the layer is transparent. A
    /// cell word of zero shows nothing.
    pub open spec fn color(self, crop: int, x: int, y: int) -> Option<u32> {
        let col = x / 8;
        let row = y / 8 + 2;
        let cell = self.cell(col, row);
        let c = fix_pixel_of(self.s_rom, self.tile(col, row), x % 8, y % 8);
        if col < crop || col + crop >= 40 || cell == 0 || c == 0 {
            None
        } else {
            Some(
                palette_color(
                    self.palette_ram,
                    16 * (cell as int / 0x1000) + c,
                    self.palette_bank,
                    self.screen_shadow,
                ),
            )
        }
    }

    /// A row with the fix layer laid over it, `crop` columns left out on either
    /// side.
    pub open spec fn over(self, crop: int, row: Seq<u32>, y: int) -> Seq<u32> {
        Seq::new(
            SCREEN_W as nat,
            |x: int|
                match self.color(crop, x, y) {
                    Some(c) => c,
                    None => row[x],
                },
        )
    }

    /// A whole frame with the layer laid over it.
    pub open spec fn over_frame(self, crop: int, frame: Seq<u32>) -> Seq<u32> {
        frame_of(|y: int| self.over(crop, row_of(frame, y), y))
    }
}

fn compute_row_banks(vram: &Vec<u16>) -> (banks: Vec<u32>)
    requires
        vram@.len() == VRAM_WORDS,
    ensures
        banks@.len() >= 32,
        banks@.map_values(|b: u32| b as int) == row_banks(vram@),
        forall|i: int| 0 <= i < banks@.len() ==> #[trigger] banks@[i] <= 3,
{
    let mut banks: Vec<u32> = Vec::new();
    let mut bank: u32 = 0;
    let mut k: usize = 0;
    assert(banks@.map_values(|b: u32| b as int) =~= Seq::<int>::empty());
    while banks.len() < 32
        invariant
            vram@.len() == VRAM_WORDS,
            k <= 2 * banks.len(),
            bank <= 3,
            forall|i: int| 0 <= i < banks@.len() ==> #[trigger] banks@[i] <= 3,
            row_banks_from(
                vram@,
                k as int,
                bank as int,
                banks@.map_values(|b: u32| b as int),
            ) == row_banks(vram@),
        decreases 34 - banks.len(),
    {
        let w: u16 = vram[0x7580 + k];
        let ghost before = banks@.map_values(|b: u32| b as int);
        if vram[0x7500 + k] == 0x0200 && w / 0x100 == 0xFF {
            bank = (w % 4) as u32;
            banks.push(bank);
            banks.push(bank);
            assert(banks@.map_values(|b: u32| b as int) =~= before.push(bank as int).push(
                bank as int,
            ));
        } else {
            banks.push(bank);
            assert(banks@.map_values(|b: u32| b as int) =~= before.push(bank as int));
        }
        k = k + 2;
    }
    banks
}

fn compute_bank_field(w: u16, k: usize) -> (r: u32)
    requires
        k < 6,
    ensures
        r == bank_field(w as int, k as int),
        r <= 3,
{
    let unit: u16 = match k {
        0 => 1024,
        1 => 256,
        2 => 64,
        3 => 16,
        4 => 4,
        _ => 1,
    };
    ((w / unit) % 4) as u32
}

impl<'a> FixSource<'a> {
    fn is_banked(&self) -> (b: bool)
        ensures
            b == self@.banked(),
    {
        self.bank_type != FixBankType::Std && self.s_rom.len() > 0x20000
    }

    fn compute_tile(&self, banks: &Vec<u32>, col: usize, row: usize) -> (tile: u32)
        requires
            self@.wf(),
            col < 40,
            2 <= row < 30,
            self@.banked() && self.bank_type == FixBankType::Garou ==> {
                &&& banks@.len() >= 32
                &&& banks@.map_values(|b: u32| b as int) == row_banks(self.vram@)
                &&& forall|i: int| 0 <= i < banks@.len() ==> #[trigger] banks@[i] <= 3
            },
        ensures
            tile == self@.tile(col as int, row as int),
    {
        let low: u32 = (self.vram[0x7000 + 32 * col + row] % 0x1000) as u32;
        if !self.is_banked() {
            low
        } else if self.bank_type == FixBankType::Garou {
            assert(banks@.map_values(|b: u32| b as int)[row - 2] == banks@[row - 2]);
            low + 0x1000 * (3 - banks[row - 2])
        } else {
            let w: u16 = self.vram[0x7500 + row - 1 + 32 * (col / 6)];
            low + 0x1000 * (3 - compute_bank_field(w, col % 6))
        }
    }

    /// Lay one line of the layer over a frame.
    fn draw_line(&self, banks: &Vec<u32>, frame: &mut [u32], y: usize, crop: usize)
        requires
            self@.wf(),
            y < SCREEN_H,
            old(frame)@.len() == frame_len(),
            self@.banked() && self.bank_type == FixBankType::Garou ==> {
                &&& banks@.len() >= 32
                &&& banks@.map_values(|b: u32| b as int) == row_banks(self.vram@)
                &&& forall|i: int| 0 <= i < banks@.len() ==> #[trigger] banks@[i] <= 3
            },
        ensures
            final(frame)@ == with_row(
                old(frame)@,
                y as int,
                self@.over(crop as int, row_of(old(frame)@, y as int), y as int),
            ),
    {
        let row: usize = y / 8 + 2;
        let py: u8 = (y % 8) as u8;
        let end: usize = if crop <= 40 {
            40 - crop
        } else {
            0
        };
        let mut col: usize = crop;
        while col < end
            invariant
                self@.wf(),
                y < SCREEN_H,
                row == y / 8 + 2,
                py == y % 8,
                end <= 40,
                crop <= col,
                crop <= 40 ==> end == 40 - crop,
                crop > 40 ==> end == 0,
                col <= end || col == crop,
                frame@.len() == frame_len(),
                old(frame)@.len() == frame_len(),
                self@.banked() && self.bank_type == FixBankType::Garou ==> {
                    &&& banks@.len() >= 32
                    &&& banks@.map_values(|b: u32| b as int) == row_banks(self.vram@)
                    &&& forall|i: int| 0 <= i < banks@.len() ==> #[trigger] banks@[i] <= 3
                },
                forall|i: int|
                    0 <= i < frame_len() ==> #[trigger] frame@[i] == if i / 320 == y && i % 320 < 8
                        * col {
                        self@.over(crop as int, row_of(old(frame)@, y as int), y as int)[i % 320]
                    } else {
                        old(frame)@[i]
                    },
            decreases end - col,
        {
            let cell: u16 = self.vram[0x7000 + 32 * col + row];
            let ghost before = frame@;
            if cell != 0 {
                let tile: u32 = self.compute_tile(banks, col, row);
                let mut px: u8 = 0;
                while px < 8
                    invariant
                        px <= 8,
                        self@.wf(),
                        y < SCREEN_H,
                        row == y / 8 + 2,
                        py == y % 8,
                        crop <= col,
                        col + crop < 40,
                        cell == self@.cell(col as int, row as int),
                        cell != 0,
                        tile == self@.tile(col as int, row as int),
                        before.len() == frame_len(),
                        frame@.len() == frame_len(),
                        old(frame)@.len() == frame_len(),
                        forall|i: int|
                            0 <= i < frame_len() ==> #[trigger] frame@[i] == if i / 320 == y && 8
                                * col <= i % 320 < 8 * col + px {
                                self@.over(
                                    crop as int,
                                    row_of(old(frame)@, y as int),
                                    y as int,
                                )[i % 320]
                            } else {
                                before[i]
                            },
                        forall|i: int|
                            0 <= i < frame_len() && i / 320 == y && i % 320 >= 8 * col
                                ==> #[trigger] before[i] == old(frame)@[i],
                    decreases 8 - px,
                {
                    let c: u8 = fix_tile_pixel(self.s_rom, tile, px, py);
                    let x: usize = 8 * col + px as usize;
                    assert(x / 8 == col && x % 8 == px);
                    assert((y * 320 + x) / 320 == y && (y * 320 + x) % 320 == x);
                    assert(self@.over(
                        crop as int,
                        row_of(old(frame)@, y as int),
                        y as int,
                    )[x as int] == match self@.color(crop as int, x as int, y as int) {
                        Some(v) => v,
                        None => old(frame)@[y * 320 + x],
                    });
                    if c != 0 {
                        let idx: u16 = 16 * (cell / 0x1000) + c as u16;
                        frame[y * SCREEN_W + x] = lookup_palette(
                            self.palette_ram,
                            idx,
                            self.palette_bank,
                            self.screen_shadow,
                        );
                    }
                    px = px + 1;
                }
            }
            assert forall|i: int| 0 <= i < frame_len() implies #[trigger] frame@[i] == if i / 320
                == y && i % 320 < 8 * (col + 1) {
                self@.over(crop as int, row_of(old(frame)@, y as int), y as int)[i % 320]
            } else {
                old(frame)@[i]
            } by {
                assert(before[i] == if i / 320 == y && i % 320 < 8 * col {
                    self@.over(crop as int, row_of(old(frame)@, y as int), y as int)[i % 320]
                } else {
                    old(frame)@[i]
                });
                if i / 320 == y && 8 * col <= i % 320 < 8 * (col + 1) && cell == 0 {
                    let x = i % 320;
                    assert(x / 8 == col);
                    assert(self@.color(crop as int, x, y as int) is None);
                    assert(i == y * 320 + x);
                }
            }
            col = col + 1;
        }
        let ghost line = self@.over(crop as int, row_of(old(frame)@, y as int), y as int);
        assert forall|i: int| 0 <= i < frame_len() implies #[trigger] frame@[i] == with_row(
            old(frame)@,
            y as int,
            line,
        )[i] by {
            if i / 320 == y && i % 320 >= 8 * col {
                let x = i % 320;
                assert(self@.color(crop as int, x, y as int) is None);
                assert(i == y * 320 + x);
            }
        }
        assert(frame@ =~= with_row(old(frame)@, y as int, line));
    }
}


impl<'a> FixSource<'a> {
    fn prepare_banks(&self) -> (banks: Vec<u32>)
        requires
            self@.wf(),
        ensures
            self@.banked() && self.bank_type == FixBankType::Garou ==> {
                &&& banks@.len() >= 32
                &&& banks@.map_values(|b: u32| b as int) == row_banks(self.vram@)
                &&& forall|i: int| 0 <= i < banks@.len() ==> #[trigger] banks@[i] <= 3
            },
    {
        if self.is_banked() && self.bank_type == FixBankType::Garou {
            compute_row_banks(self.vram)
        } else {
            Vec::new()
        }
    }

    fn draw_frame(&self, frame: &mut [u32], crop: usize)
        requires
            self@.wf(),
            old(frame)@.len() == frame_len(),
        ensures
            final(frame)@ == self@.over_frame(crop as int, old(frame)@),
    {
        let banks: Vec<u32> = self.prepare_banks();
        let mut y: usize = 0;
        while y < SCREEN_H
            invariant
                self@.wf(),
                y <= SCREEN_H,
                frame@.len() == frame_len(),
                old(frame)@.len() == frame_len(),
                self@.banked() && self.bank_type == FixBankType::Garou ==> {
                    &&& banks@.len() >= 32
                    &&& banks@.map_values(|b: u32| b as int) == row_banks(self.vram@)
                    &&& forall|i: int| 0 <= i < banks@.len() ==> #[trigger] banks@[i] <= 3
                },
                forall|i: int|
                    0 <= i < frame_len() ==> #[trigger] frame@[i] == if i / 320 < y {
                        self@.over(crop as int, row_of(old(frame)@, i / 320), i / 320)[i % 320]
                    } else {
                        old(frame)@[i]
                    },
            decreases SCREEN_H - y,
        {
            assert(row_of(frame@, y as int) =~= row_of(old(frame)@, y as int)) by {
                assert forall|x: int| 0 <= x < 320 implies #[trigger] row_of(
                    frame@,
                    y as int,
                )[x] == row_of(old(frame)@, y as int)[x] by {
                    assert((y * 320 + x) / 320 == y);
                }
            }
            self.draw_line(&banks, frame, y, crop);
            y = y + 1;
        }
        assert(frame@ =~= self@.over_frame(crop as int, old(frame)@));
    }
}

/// The source that the renderers below draw from.
pub open spec fn fix_data(
    lspc: Lspc,
    palette_ram: Seq<u8>,
    s_rom: Seq<u8>,
    palette_bank: u8,
    screen_shadow: bool,
    bank_type: FixBankType,
) -> FixData {
    FixData { vram: lspc.vram@, palette_ram, s_rom, palette_bank, screen_shadow, bank_type }
}

/// Draw the fix layer over a frame, leaving out `crop_cols` columns of tiles on
/// either side.
pub fn render_fix_layer_inner_with_bank_and_crop(
    lspc: &Lspc,
    palette_ram: &[u8],
    s_rom: &[u8],
    frame: &mut [u32],
    palette_bank: u8,
    screen_shadow: bool,
    bank_type: FixBankType,
    crop_cols: usize,
)
    requires
        lspc.wf(),
        old(frame)@.len() == frame_len(),
    ensures
        final(frame)@ == fix_data(
            *lspc,
            palette_ram@,
            s_rom@,
            palette_bank,
            screen_shadow,
            bank_type,
        ).over_frame(crop_cols as int, old(frame)@),
{
    let src: FixSource = FixSource {
        vram: &lspc.vram,
        palette_ram,
        s_rom,
        palette_bank,
        screen_shadow,
        bank_type,
    };
    src.draw_frame(frame, crop_cols);
}

/// Draw the fix layer over a frame with the given banking.
pub fn render_fix_layer_inner_with_bank(
    lspc: &Lspc,
    palette_ram: &[u8],
    s_rom: &[u8],
    frame: &mut [u32],
    palette_bank: u8,
    screen_shadow: bool,
    bank_type: FixBankType,
)
    requires
        lspc.wf(),
        old(frame)@.len() == frame_len(),
    ensures
        final(frame)@ == fix_data(
            *lspc,
            palette_ram@,
            s_rom@,
            palette_bank,
            screen_shadow,
            bank_type,
        ).over_frame(FIX_LAYER_OVERSCAN_COLS as int, old(frame)@),
{
    render_fix_layer_inner_with_bank_and_crop(
        lspc,
        palette_ram,
        s_rom,
        frame,
        palette_bank,
        screen_shadow,
        bank_type,
        FIX_LAYER_OVERSCAN_COLS,
    );
}

/// Draw the unbanked fix layer over a frame from one palette bank.
pub fn render_fix_layer_bank(
    lspc: &Lspc,
    palette_ram: &[u8],
    s_rom: &[u8],
    frame: &mut [u32],
    palette_bank: u8,
)
    requires
        lspc.wf(),
        old(frame)@.len() == frame_len(),
    ensures
        final(frame)@ == fix_data(
            *lspc,
            palette_ram@,
            s_rom@,
            palette_bank,
            false,
            FixBankType::Std,
        ).over_frame(FIX_LAYER_OVERSCAN_COLS as int, old(frame)@),
{
    render_fix_layer_inner_with_bank(
        lspc,
        palette_ram,
        s_rom,
        frame,
        palette_bank,
        false,
        FixBankType::Std,
    );
}

/// Draw the unbanked fix layer over a frame from palette bank 0.
pub fn render_fix_layer(lspc: &Lspc, palette_ram: &[u8], s_rom: &[u8], frame: &mut [u32])
    requires
        lspc.wf(),
        old(frame)@.len() == frame_len(),
    ensures
        final(frame)@ == fix_data(
            *lspc,
            palette_ram@,
            s_rom@,
            0,
            false,
            FixBankType::Std,
        ).over_frame(FIX_LAYER_OVERSCAN_COLS as int, old(frame)@),
{
    render_fix_layer_bank(lspc, palette_ram, s_rom, frame, 0);
}

/// Draw one line of the fix layer over a frame. A line off the screen, or a
/// frame of another size, is left alone.
pub fn render_fix_scanline(
    lspc: &Lspc,
    palette_ram: &[u8],
    s_rom: &[u8],
    frame: &mut [u32],
    out_line: usize,
    palette_bank: u8,
    screen_shadow: bool,
    bank_type: FixBankType,
)
    requires
        lspc.wf(),
    ensures
        final(frame)@ == if out_line >= SCREEN_H || old(frame)@.len() != frame_len() {
            old(frame)@
        } else {
            with_row(
                old(frame)@,
                out_line as int,
                fix_data(
                    *lspc,
                    palette_ram@,
                    s_rom@,
                    palette_bank,
                    screen_shadow,
                    bank_type,
                ).over(
                    FIX_LAYER_OVERSCAN_COLS as int,
                    row_of(old(frame)@, out_line as int),
                    out_line as int,
                ),
            )
        },
{
    if out_line >= SCREEN_H || frame.len() != SCREEN_W * SCREEN_H {
        return;
    }
    let src: FixSource = FixSource {
        vram: &lspc.vram,
        palette_ram,
        s_rom,
        palette_bank,
        screen_shadow,
        bank_type,
    };
    let banks: Vec<u32> = src.prepare_banks();
    src.draw_line(&banks, frame, out_line, FIX_LAYER_OVERSCAN_COLS);
}

}
