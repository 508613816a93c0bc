//! Tables of the FM synthesiser.
use vstd::prelude::*;

verus! {

/// Attenuations have ten bits.
pub const ENV_BITS: u32 = 10;

pub const ENV_LEN: i32 = 1024;

/// Silence.
pub const MAX_ATT_INDEX: i32 = 1023;

/// Full level.
pub const MIN_ATT_INDEX: i32 = 0;

pub const SIN_LEN: usize = 1024;

pub const TL_RES_LEN: usize = 256;

/// Thirteen octaves of 256 levels with both signs.
pub const TL_TAB_LEN: usize = 6656;

/// Phases have sixteen bits behind the point.
pub const FREQ_SH: u32 = 16;

pub const FREQ_MASK: u32 = 0xFFFF;

pub const RATE_STEPS: usize = 8;

/// From this attenuation on an operator gives nothing.
pub const ENV_QUIET: u32 = 832;

/// Phase steps wrap here.
pub const FN_MAX: u32 = 0x1000_0000;

/// Levels of the first octave: 65536 over the (x + 1)/256th power of two,
/// rounded to thirteen bits.
pub const TL_BASE: [u16; 256] = [
    8168, 8148, 8124, 8104, 8080, 8060, 8040, 8016, 7996, 7972, 7952, 7932, 7908, 7888, 7864,
    7844, 7824, 7804, 7780, 7760, 7740, 7720, 7696, 7676, 7656, 7636, 7616, 7592, 7572, 7552,
    7532, 7512, 7492, 7472, 7452, 7432, 7412, 7392, 7372, 7352, 7332, 7312, 7292, 7272, 7252,
    7232, 7212, 7192, 7176, 7156, 7136, 7116, 7096, 7076, 7060, 7040, 7020, 7000, 6984, 6964,
    6944, 6928, 6908, 6888, 6868, 6852, 6832, 6816, 6796, 6776, 6760, 6740, 6724, 6704, 6688,
    6668, 6652, 6632, 6616, 6596, 6580, 6560, 6544, 6524, 6508, 6492, 6472, 6456, 6436, 6420,
    6404, 6384, 6368, 6352, 6336, 6316, 6300, 6284, 6264, 6248, 6232, 6216, 6200, 6180, 6164,
    6148, 6132, 6116, 6100, 6080, 6064, 6048, 6032, 6016, 6000, 5984, 5968, 5952, 5936, 5920,
    5904, 5888, 5872, 5856, 5840, 5824, 5808, 5792, 5776, 5760, 5744, 5732, 5716, 5700, 5684,
    5668, 5652, 5636, 5624, 5608, 5592, 5576, 5564, 5548, 5532, 5516, 5504, 5488, 5472, 5456,
    5444, 5428, 5412, 5400, 5384, 5368, 5356, 5340, 5328, 5312, 5296, 5284, 5268, 5256, 5240,
    5228, 5212, 5200, 5184, 5168, 5156, 5144, 5128, 5116, 5100, 5088, 5072, 5060, 5044, 5032,
    5020, 5004, 4992, 4976, 4964, 4952, 4936, 4924, 4912, 4896, 4884, 4872, 4856, 4844, 4832,
    4820, 4804, 4792, 4780, 4768, 4752, 4740, 4728, 4716, 4704, 4688, 4676, 4664, 4652, 4640,
    4628, 4616, 4600, 4588, 4576, 4564, 4552, 4540, 4528, 4516, 4504, 4492, 4480, 4468, 4456,
    4444, 4432, 4420, 4408, 4396, 4384, 4372, 4360, 4348, 4336, 4324, 4312, 4300, 4288, 4276,
    4264, 4256, 4244, 4232, 4220, 4208, 4196, 4184, 4176, 4164, 4152, 4140, 4128, 4120, 4108,
    4096,
];

/// A quarter wave of minus the logarithm of the sine, in steps of a 256th of an
/// octave, doubled.
pub const SIN_QUARTER: [u16; 256] = [
    4274, 3462, 3086, 2838, 2652, 2504, 2380, 2274, 2182, 2100, 2026, 1958, 1898, 1840, 1788,
    1738, 1692, 1650, 1608, 1570, 1534, 1498, 1464, 1434, 1402, 1374, 1344, 1318, 1292, 1266,
    1242, 1218, 1196, 1174, 1152, 1132, 1112, 1092, 1072, 1054, 1036, 1018, 1002, 984, 968, 952,
    936, 922, 906, 892, 878, 864, 850, 836, 822, 810, 798, 784, 772, 760, 750, 738, 726, 716,
    704, 694, 682, 672, 662, 652, 642, 632, 622, 614, 604, 594, 586, 578, 568, 560, 552, 542,
    534, 526, 518, 510, 502, 496, 488, 480, 472, 466, 458, 452, 444, 438, 430, 424, 418, 410,
    404, 398, 392, 386, 380, 374, 368, 362, 356, 350, 344, 338, 334, 328, 322, 318, 312, 306,
    302, 296, 292, 286, 282, 276, 272, 268, 262, 258, 254, 250, 244, 240, 236, 232, 228, 224,
    220, 216, 212, 208, 204, 200, 196, 192, 188, 184, 182, 178, 174, 170, 166, 164, 160, 156,
    154, 150, 148, 144, 140, 138, 134, 132, 128, 126, 124, 120, 118, 114, 112, 110, 106, 104,
    102, 98, 96, 94, 92, 90, 86, 84, 82, 80, 78, 76, 74, 72, 70, 68, 66, 64, 62, 60, 58, 56, 54,
    52, 50, 48, 46, 46, 44, 42, 40, 40, 38, 36, 34, 34, 32, 30, 30, 28, 26, 26, 24, 24, 22, 20,
    20, 18, 18, 16, 16, 14, 14, 14, 12, 12, 10, 10, 10, 8, 8, 8, 6, 6, 6, 4, 4, 4, 4, 2, 2, 2, 2,
    2, 2, 2, 0, 0, 0, 0, 0, 0, 0, 0,
];

/// Steps of the envelope for each kind of rate.
pub const EG_INC: [u8; 152] = [
    0, 1, 0, 1, 0, 1, 0, 1, 0, 1, 0, 1, 1, 1, 0, 1, 0, 1, 1, 1, 0, 1, 1, 1, 0, 1, 1, 1, 1, 1, 1,
    1, 1, 1, 1, 1, 1, 1, 1, 1, 1, 1, 1, 2, 1, 1, 1, 2, 1, 2, 1, 2, 1, 2, 1, 2, 1, 2, 2, 2, 1, 2,
    2, 2, 2, 2, 2, 2, 2, 2, 2, 2, 2, 2, 2, 4, 2, 2, 2, 4, 2, 4, 2, 4, 2, 4, 2, 4, 2, 4, 4, 4, 2,
    4, 4, 4, 4, 4, 4, 4, 4, 4, 4, 4, 4, 4, 4, 8, 4, 4, 4, 8, 4, 8, 4, 8, 4, 8, 4, 8, 4, 8, 8, 8,
    4, 8, 8, 8, 8, 8, 8, 8, 8, 8, 8, 8, 16, 16, 16, 16, 16, 16, 16, 16, 0, 0, 0, 0, 0, 0, 0, 0,
];

/// The row of `EG_INC` for each rate, times eight.
pub const EG_RATE_SELECT: [u32; 128] = [
    144, 144, 144, 144, 144, 144, 144, 144, 144, 144, 144, 144, 144, 144, 144, 144, 144, 144,
    144, 144, 144, 144, 144, 144, 144, 144, 144, 144, 144, 144, 144, 144, 0, 8, 16, 24, 0, 8, 16,
    24, 0, 8, 16, 24, 0, 8, 16, 24, 0, 8, 16, 24, 0, 8, 16, 24, 0, 8, 16, 24, 0, 8, 16, 24, 0, 8,
    16, 24, 0, 8, 16, 24, 0, 8, 16, 24, 0, 8, 16, 24, 32, 40, 48, 56, 64, 72, 80, 88, 96, 104,
    112, 120, 128, 128, 128, 128, 128, 128, 128, 128, 128, 128, 128, 128, 128, 128, 128, 128,
    128, 128, 128, 128, 128, 128, 128, 128, 128, 128, 128, 128, 128, 128, 128, 128, 128, 128,
    128, 128,
];

/// The number of counter bits that must be clear for a step at each rate.
pub const EG_RATE_SHIFT: [u32; 128] = [
    0, 0, 0, 0, 0, 0, 0, 0, 0, 0, 0, 0, 0, 0, 0, 0, 0, 0, 0, 0, 0, 0, 0, 0, 0, 0, 0, 0, 0, 0, 0,
    0, 11, 11, 11, 11, 10, 10, 10, 10, 9, 9, 9, 9, 8, 8, 8, 8, 7, 7, 7, 7, 6, 6, 6, 6, 5, 5, 5,
    5, 4, 4, 4, 4, 3, 3, 3, 3, 2, 2, 2, 2, 1, 1, 1, 1, 0, 0, 0, 0, 0, 0, 0, 0, 0, 0, 0, 0, 0, 0,
    0, 0, 0, 0, 0, 0, 0, 0, 0, 0, 0, 0, 0, 0, 0, 0, 0, 0, 0, 0, 0, 0, 0, 0, 0, 0, 0, 0, 0, 0, 0,
    0, 0, 0, 0, 0, 0, 0,
];

/// Sustain levels: three decibels a step, and the last far down.
pub const SL_TABLE: [u32; 16] = [
    0, 32, 64, 96, 128, 160, 192, 224, 256, 288, 320, 352, 384, 416, 448, 992,
];

/// Detune by key code, for the four magnitudes.
pub const DT_TAB_BASE: [u8; 128] = [
    0, 0, 0, 0, 0, 0, 0, 0, 0, 0, 0, 0, 0, 0, 0, 0, 0, 0, 0, 0, 0, 0, 0, 0, 0, 0, 0, 0, 0, 0, 0,
    0, 0, 0, 0, 0, 1, 1, 1, 1, 1, 1, 1, 1, 2, 2, 2, 2, 2, 3, 3, 3, 4, 4, 4, 5, 5, 6, 6, 7, 8, 8,
    8, 8, 1, 1, 1, 1, 2, 2, 2, 2, 2, 3, 3, 3, 4, 4, 4, 5, 5, 6, 6, 7, 8, 8, 9, 10, 11, 12, 13,
    14, 16, 16, 16, 16, 2, 2, 2, 2, 2, 3, 3, 3, 4, 4, 4, 5, 5, 6, 6, 7, 8, 8, 9, 10, 11, 12, 13,
    14, 16, 17, 19, 20, 22, 22, 22, 22,
];

/// Samples in each of the 128 steps of the low-frequency oscillator.
pub const LFO_SAMPLES_PER_STEP: [u32; 8] = [108, 77, 71, 67, 62, 44, 8, 5];

/// How far the tremolo is shifted down.
pub const LFO_AMS_DEPTH_SHIFT: [u8; 4] = [8, 3, 1, 0];

/// Vibrato: for each of seven frequency bits and eight depths, the offsets of a
/// quarter cycle.
pub const LFO_PM_OUTPUT: [u8; 448] = [
    0, 0, 0, 0, 0, 0, 0, 0, 0, 0, 0, 0, 0, 0, 0, 0, 0, 0, 0, 0, 0, 0, 0, 0, 0, 0, 0, 0, 0, 0, 0,
    0, 0, 0, 0, 0, 0, 0, 0, 0, 0, 0, 0, 0, 0, 0, 0, 0, 0, 0, 0, 0, 0, 0, 0, 0, 0, 0, 0, 0, 1, 1,
    1, 1, 0, 0, 0, 0, 0, 0, 0, 0, 0, 0, 0, 0, 0, 0, 0, 0, 0, 0, 0, 0, 0, 0, 0, 0, 0, 0, 0, 0, 0,
    0, 0, 0, 0, 0, 0, 0, 0, 0, 0, 0, 0, 0, 0, 0, 0, 0, 0, 0, 0, 0, 0, 0, 1, 1, 1, 1, 0, 0, 1, 1,
    2, 2, 2, 3, 0, 0, 0, 0, 0, 0, 0, 0, 0, 0, 0, 0, 0, 0, 0, 0, 0, 0, 0, 0, 0, 0, 0, 0, 0, 0, 0,
    0, 0, 0, 0, 0, 0, 0, 0, 0, 0, 0, 0, 1, 0, 0, 0, 0, 1, 1, 1, 1, 0, 0, 1, 1, 2, 2, 2, 3, 0, 0,
    2, 3, 4, 4, 5, 6, 0, 0, 0, 0, 0, 0, 0, 0, 0, 0, 0, 0, 0, 0, 0, 0, 0, 0, 0, 0, 0, 0, 1, 1, 0,
    0, 0, 0, 1, 1, 1, 1, 0, 0, 0, 1, 1, 1, 1, 2, 0, 0, 1, 1, 2, 2, 2, 3, 0, 0, 2, 3, 4, 4, 5, 6,
    0, 0, 4, 6, 8, 8, 10, 12, 0, 0, 0, 0, 0, 0, 0, 0, 0, 0, 0, 0, 1, 1, 1, 1, 0, 0, 0, 1, 1, 1,
    2, 2, 0, 0, 1, 1, 2, 2, 3, 3, 0, 0, 1, 2, 2, 2, 3, 4, 0, 0, 2, 3, 4, 4, 5, 6, 0, 0, 4, 6, 8,
    8, 10, 12, 0, 0, 8, 12, 16, 16, 20, 24, 0, 0, 0, 0, 0, 0, 0, 0, 0, 0, 0, 0, 2, 2, 2, 2, 0, 0,
    0, 2, 2, 2, 4, 4, 0, 0, 2, 2, 4, 4, 6, 6, 0, 0, 2, 4, 4, 4, 6, 8, 0, 0, 4, 6, 8, 8, 10, 12,
    0, 0, 8, 12, 16, 16, 20, 24, 0, 0, 16, 24, 32, 32, 40, 48, 0, 0, 0, 0, 0, 0, 0, 0, 0, 0, 0,
    0, 4, 4, 4, 4, 0, 0, 0, 4, 4, 4, 8, 8, 0, 0, 4, 4, 8, 8, 12, 12, 0, 0, 4, 8, 8, 8, 12, 16, 0,
    0, 8, 12, 16, 16, 20, 24, 0, 0, 16, 24, 32, 32, 40, 48, 0, 0, 32, 48, 64, 64, 80, 96,
];

/// A level of the first octave.
#[verifier::opaque]
pub open spec fn tl_base_of(k: int) -> u16 {
    TL_BASE@[k]
}

pub fn tl_base(k: usize) -> (v: u16)
    requires
        k < 256,
    ensures
        v == tl_base_of(k as int),
        v <= 8192,
{
    proof {
        reveal(tl_base_of);
    }
    let table: [u16; 256] = TL_BASE;
    table[k]
}

/// A point of the quarter wave.
#[verifier::opaque]
pub open spec fn sin_quarter_of(k: int) -> u16 {
    SIN_QUARTER@[k]
}

pub fn sin_quarter(k: usize) -> (v: u16)
    requires
        k < 256,
    ensures
        v == sin_quarter_of(k as int),
        v < 5000,
{
    proof {
        reveal(sin_quarter_of);
    }
    let table: [u16; 256] = SIN_QUARTER;
    table[k]
}

/// An envelope step.
#[verifier::opaque]
pub open spec fn eg_inc_of(k: int) -> u8 {
    EG_INC@[k]
}

pub fn eg_inc(k: usize) -> (v: u8)
    requires
        k < 152,
    ensures
        v == eg_inc_of(k as int),
        v <= 16,
{
    proof {
        reveal(eg_inc_of);
    }
    let table: [u8; 152] = EG_INC;
    table[k]
}

/// The start of a row of envelope steps.
#[verifier::opaque]
pub open spec fn eg_rate_select_of(k: int) -> u32 {
    EG_RATE_SELECT@[k]
}

pub fn eg_rate_select(k: usize) -> (v: u32)
    requires
        k < 128,
    ensures
        v == eg_rate_select_of(k as int),
        v <= 144,
{
    proof {
        reveal(eg_rate_select_of);
    }
    let table: [u32; 128] = EG_RATE_SELECT;
    table[k]
}

/// The counter bits of a rate.
#[verifier::opaque]
pub open spec fn eg_rate_shift_of(k: int) -> u32 {
    EG_RATE_SHIFT@[k]
}

pub fn eg_rate_shift(k: usize) -> (v: u32)
    requires
        k < 128,
    ensures
        v == eg_rate_shift_of(k as int),
        v <= 11,
{
    proof {
        reveal(eg_rate_shift_of);
    }
    let table: [u32; 128] = EG_RATE_SHIFT;
    table[k]
}

/// A sustain level.
#[verifier::opaque]
pub open spec fn sustain_level_of(k: int) -> u32 {
    SL_TABLE@[k]
}

pub fn sustain_level(k: usize) -> (v: u32)
    requires
        k < 16,
    ensures
        v == sustain_level_of(k as int),
        v <= 992,
{
    proof {
        reveal(sustain_level_of);
    }
    let table: [u32; 16] = SL_TABLE;
    table[k]
}

/// A detune.
#[verifier::opaque]
pub open spec fn detune_base_of(k: int) -> u8 {
    DT_TAB_BASE@[k]
}

pub fn detune_base(k: usize) -> (v: u8)
    requires
        k < 128,
    ensures
        v == detune_base_of(k as int),
        v <= 22,
{
    proof {
        reveal(detune_base_of);
    }
    let table: [u8; 128] = DT_TAB_BASE;
    table[k]
}

/// A vibrato offset.
#[verifier::opaque]
pub open spec fn pm_output_of(k: int) -> u8 {
    LFO_PM_OUTPUT@[k]
}

pub fn pm_output(k: usize) -> (v: u8)
    requires
        k < 448,
    ensures
        v == pm_output_of(k as int),
        v <= 96,
{
    proof {
        reveal(pm_output_of);
    }
    let table: [u8; 448] = LFO_PM_OUTPUT;
    table[k]
}

/// The level at `p`: the octave halves it, the lowest bit is the sign.
pub open spec fn tl_of(p: int) -> int {
    let size = tl_base_of((p % 512) / 2) >> ((p / 512) as u32);
    if p % 2 == 0 {
        size as int
    } else {
        -(size as int)
    }
}

pub fn tl_tab(p: usize) -> (v: i32)
    requires
        p < TL_TAB_LEN,
    ensures
        v == tl_of(p as int),
        -8192 <= v <= 8192,
{
    let b: u16 = tl_base((p % 512) / 2);
    let octave: u32 = (p / 512) as u32;
    proof {
        crate::bits::shifted_down(b, octave);
    }
    let size: i32 = (b >> octave) as i32;
    if p % 2 == 0 {
        size
    } else {
        -size
    }
}

/// The wave at `i`: the second quarter mirrors the first, the second half turns
/// the sign.
pub open spec fn sin_of(i: int) -> int {
    let k = i % 512;
    let quarter = if k < 256 {
        k
    } else {
        511 - k
    };
    sin_quarter_of(quarter) + if i >= 512 {
        1int
    } else {
        0
    }
}

pub fn sin_tab(i: usize) -> (v: u32)
    requires
        i < SIN_LEN,
    ensures
        v == sin_of(i as int),
        v < 0x1_0000,
{
    let k: usize = i % 512;
    let quarter: usize = if k < 256 {
        k
    } else {
        511 - k
    };
    let s: u16 = sin_quarter(quarter);
    if i >= 512 {
        s as u32 + 1
    } else {
        s as u32
    }
}

/// The detune of setting `d` at key code `i`: settings from four on are the
/// negatives of the first four.
pub open spec fn dt_of(d: int, i: int) -> int {
    if d < 4 {
        64 * detune_base_of(32 * d + i)
    } else {
        -64 * detune_base_of(32 * (d - 4) + i)
    }
}

pub fn dt_tab(d: usize, i: usize) -> (v: i32)
    requires
        d < 8,
        i < 32,
    ensures
        v == dt_of(d as int, i as int),
        -1408 <= v <= 1408,
{
    let size: i32 = 64 * detune_base(32 * (d % 4) + i) as i32;
    if d < 4 {
        size
    } else {
        -size
    }
}

/// Where in its quarter cycle the vibrato is, for each of 32 steps.
pub open spec fn pm_step(phase: int) -> int {
    if phase < 8 {
        phase
    } else if phase < 16 {
        15 - phase
    } else if phase < 24 {
        phase - 16
    } else {
        31 - phase
    }
}

/// The sum of the vibrato offsets of the frequency bits in `f`, from bit `bit`
/// on.
pub open spec fn pm_sum(f: int, bit: int, depth: int, step: int) -> int
    decreases 7 - bit,
{
    if bit >= 7 {
        0
    } else {
        pm_sum(f / 2, bit + 1, depth, step) + if f % 2 == 1 {
            pm_output_of(64 * bit + 8 * depth + step) as int
        } else {
            0
        }
    }
}

/// The vibrato of a frequency: negative in the second half of the cycle.
pub open spec fn pm_offset_of(block_fnum: int, pms: int, phase: int) -> int {
    if pms == 0 {
        0
    } else {
        let size = pm_sum((block_fnum / 16) % 128, 0, pms % 8, pm_step(phase % 32));
        if phase % 32 < 16 {
            size
        } else {
            -size
        }
    }
}

pub fn lfo_pm_offset(block_fnum: u16, pms: u8, lfo_pm: u8) -> (v: i32)
    ensures
        v == pm_offset_of(block_fnum as int, pms as int, lfo_pm as int),
        -700 <= v <= 700,
{
    if pms == 0 {
        return 0;
    }
    let depth: usize = (pms % 8) as usize;
    let phase: usize = (lfo_pm % 32) as usize;
    let step: usize = if phase < 8 {
        phase
    } else if phase < 16 {
        15 - phase
    } else if phase < 24 {
        phase - 16
    } else {
        31 - phase
    };
    let mut f: u16 = (block_fnum / 16) % 128;
    let ghost whole = pm_sum(f as int, 0, depth as int, step as int);
    let mut size: i32 = 0;
    let mut bit: usize = 0;
    while bit < 7
        invariant
            bit <= 7,
            depth < 8,
            step < 8,
            0 <= size <= 96 * bit,
            whole == size + pm_sum(f as int, bit as int, depth as int, step as int),
        decreases 7 - bit,
    {
        if f % 2 == 1 {
            size = size + pm_output(64 * bit + 8 * depth + step) as i32;
        }
        f = f / 2;
        bit = bit + 1;
    }
    if phase < 16 {
        size
    } else {
        -size
    }
}

/// The quarter wave stays within its table.
pub proof fn quarter_is_small(q: int)
    requires
        0 <= q < 256,
    ensures
        sin_quarter_of(q) < 5000,
{
    reveal(sin_quarter_of);
}

/// Settings four apart detune by opposite amounts.
pub proof fn detune_mirrors(d: int, i: int)
    requires
        0 <= d < 4,
        0 <= i < 32,
    ensures
        dt_of(d + 4, i) == -dt_of(d, i),
{
}

/// Neighbouring levels have opposite signs.
pub proof fn levels_mirror(p: int)
    requires
        0 <= p < 3328,
    ensures
        tl_of(2 * p + 1) == -tl_of(2 * p),
{
    assert((2 * p + 1) / 512 == (2 * p) / 512);
    assert(((2 * p + 1) % 512) / 2 == ((2 * p) % 512) / 2);
}

/// The second half of the wave is the first with the sign turned.
pub proof fn wave_halves(i: int)
    requires
        0 <= i < 512,
    ensures
        sin_of(512 + i) == sin_of(i) + 1,
{
}

}
