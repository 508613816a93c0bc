//! Output levels of the colour resistor ladder.
use vstd::prelude::*;

verus! {

/// The eight-bit level of every five-bit colour code, in four columns: normal,
/// dark, shadow, dark and shadow together. Entry `4 * code + column`.
///
/// The code drives a ladder of 3900, 2200, 1000, 470 and 220 ohms, low bit
/// first. Dark adds a pull-down of 8200 ohms and shadow one of 150 ohms. All
/// columns are scaled so that the normal full code gives 255.
pub const PALETTE_LOOKUP: [u8; 128] = [
    0, 0, 0, 0,
    8, 8, 4, 4,
    14, 14, 8, 8,
    22, 21, 12, 12,
    30, 30, 17, 17,
    38, 38, 21, 21,
    44, 44, 25, 24,
    52, 51, 29, 29,
    65, 64, 36, 36,
    73, 71, 40, 40,
    79, 77, 44, 43,
    86, 85, 48, 48,
    95, 94, 53, 53,
    103, 101, 57, 57,
    109, 107, 61, 60,
    117, 115, 65, 65,
    138, 136, 77, 76,
    146, 144, 81, 81,
    152, 150, 85, 84,
    160, 158, 89, 88,
    169, 166, 94, 93,
    176, 174, 98, 98,
    182, 180, 102, 101,
    190, 188, 106, 105,
    203, 200, 113, 112,
    211, 208, 117, 116,
    217, 214, 121, 120,
    225, 221, 125, 124,
    233, 230, 130, 129,
    241, 238, 134, 133,
    247, 244, 138, 137,
    255, 251, 142, 141,
];

/// The level of the five-bit `code` in the given column.
pub open spec fn level_of(code: int, column: int) -> u8 {
    PALETTE_LOOKUP@[4 * code + column]
}

/// Look a level up.
pub fn level(code: usize, column: usize) -> (v: u8)
    requires
        code < 32,
        column < 4,
    ensures
        v == level_of(code as int, column as int),
{
    let t: [u8; 128] = PALETTE_LOOKUP;
    t[4 * code + column]
}

/// Full brightness is 255, and black is 0 in every column.
pub proof fn level_extremes(column: int)
    requires
        0 <= column < 4,
    ensures
        level_of(31, 0) == 255,
        level_of(0, column) == 0,
{
}

/// A brighter code never gives a lower level.
pub proof fn levels_rise(a: int, b: int, column: int)
    requires
        0 <= a <= b < 32,
        0 <= column < 4,
    ensures
        level_of(a, column) <= level_of(b, column),
    decreases b - a,
{
    if a < b {
        levels_rise(a, b - 1, column);
        levels_step(b - 1, column);
    }
}

proof fn levels_step(a: int, column: int)
    requires
        0 <= a < 31,
        0 <= column < 4,
    ensures
        level_of(a, column) <= level_of(a + 1, column),
{
}

}
