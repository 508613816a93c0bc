use pydmg_neogeo::audio::adpcm_a::{jedi, AdpcmAChan, ADPCMA_STEPS, ADPCMA_STEP_INC};
use pydmg_neogeo::audio::adpcm_b::{DeltaTChan, DELTAT_ADDR_MASK};
use pydmg_neogeo::audio::fm::FmOpn;
use pydmg_neogeo::audio::fm_op::{FmOp, EG_ATT, EG_DEC, EG_REL, EG_SUS};
use pydmg_neogeo::audio::ssg::{
    Ssg, HOST_SAMPLE_RATE_HZ, SSG_STEP_CLOCK_HZ, SSG_TICKS_PER_SAMPLE_Q16,
};
use pydmg_neogeo::audio::tables::{
    dt_tab, sin_tab, tl_tab, DT_TAB_BASE, EG_INC, EG_RATE_SELECT, EG_RATE_SHIFT, ENV_BITS, ENV_LEN,
    ENV_QUIET, FN_MAX, FREQ_MASK, FREQ_SH, LFO_AMS_DEPTH_SHIFT, LFO_PM_OUTPUT,
    LFO_SAMPLES_PER_STEP, MAX_ATT_INDEX, MIN_ATT_INDEX, RATE_STEPS, SIN_LEN, SL_TABLE, TL_TAB_LEN,
};
use pydmg_neogeo::audio::vrom::{classify_v_rom, VRomKind};
use pydmg_neogeo::audio::ym2610::{Ym2610, YM2610_BUSY_Z80_CYCLES};

fn pm_row(row: usize) -> [u8; 8] {
    let mut out = [0u8; 8];
    out.copy_from_slice(&LFO_PM_OUTPUT[row * 8..row * 8 + 8]);
    out
}

/// A synthesiser with a looping envelope set on the first operator of channel 1.
fn opn_with_ssg(shape: u8) -> FmOpn {
    let mut fm = FmOpn::new();
    fm.write_reg(0x91, shape, false);
    fm
}

#[test]
fn joyjoy_two_digit_split() {
    assert_eq!(classify_v_rom("021-v11.v11"), VRomKind::AdpcmA);
    assert_eq!(classify_v_rom("021-v21.v21"), VRomKind::AdpcmB);
}

#[test]
fn mslug_all_v_roms_are_adpcm_a() {
    assert_eq!(classify_v_rom("201-v1.v1"), VRomKind::AdpcmA);
    assert_eq!(classify_v_rom("201-v2.v2"), VRomKind::AdpcmA);
}

#[test]
fn case_insensitive() {
    assert_eq!(classify_v_rom("021-V11.V11"), VRomKind::AdpcmA);
    assert_eq!(classify_v_rom("021-V21.V21"), VRomKind::AdpcmB);
}

#[test]
fn unlabelled_falls_back_to_shared() {
    assert_eq!(classify_v_rom("custom-adpcm.rom"), VRomKind::Shared);
    assert_eq!(classify_v_rom("foo.bin"), VRomKind::Shared);
}

#[test]
fn adpcma_register_pairs_map_start_and_end_per_channel() {
    let mut ym = Ym2610::new();
    ym.write_reg_b(0x14, 0x34);
    ym.write_reg_b(0x1C, 0x12);
    ym.write_reg_b(0x24, 0x78);
    ym.write_reg_b(0x2C, 0x56);

    assert_eq!(ym.adpcm_a[4].start, 0x123400);
    assert_eq!(ym.adpcm_a[4].end, 0x5678FF);
}

#[test]
fn adpcma_keyon_after_typical_setup_produces_audio() {
    let mut ym = Ym2610::new();
    ym.adpcm_a_rom = vec![0x4Cu8; 0x1000];
    ym.write_reg_b(0x10, 0x00); ym.write_reg_b(0x18, 0x00);
    ym.write_reg_b(0x20, 0x0F); ym.write_reg_b(0x28, 0x00);
    ym.write_reg_b(0x01, 0x3F);
    ym.write_reg_b(0x08, 0xDF);
    ym.write_reg_b(0x00, 0x01);
    assert!(ym.adpcm_a[0].on);
    let mut total_nz = 0;
    let mut peak = 0i32;
    let mut vol_dump = (0,0,0);
    for i in 0..512 {
        let (l, r) = ym.step_one_sample();
        if l != 0 || r != 0 { total_nz += 1; }
        let pk = (l as i32).abs().max((r as i32).abs());
        if pk > peak { peak = pk; }
        if i == 100 {
            let il = ym.adpcm_a[0].il as i32;
            let tl = ym.adpcma_tl as i32;
            vol_dump = (il, tl, (il ^ 0x1F) + (tl ^ 0x3F));
        }
    }
    assert!(total_nz > 0,
        "ADPCM-A key-on must produce audio (got 0 nz, peak={peak}, il/tl/vol={:?})", vol_dump);
}

#[test]
fn adpcma_pan_bit7_routes_to_left_channel() {
    let mut ym = Ym2610::new();
    ym.adpcm_a_rom = vec![0x4Cu8; 0x1000];
    ym.write_reg_b(0x10, 0x00); ym.write_reg_b(0x18, 0x00);
    ym.write_reg_b(0x20, 0x0F); ym.write_reg_b(0x28, 0x00);
    ym.write_reg_b(0x01, 0x3F);
    ym.write_reg_b(0x08, 0x9F);
    ym.write_reg_b(0x00, 0x01);
    let mut l_nz = 0; let mut r_nz = 0;
    for _ in 0..512 {
        let (l, r) = ym.step_one_sample();
        if l != 0 { l_nz += 1; }
        if r != 0 { r_nz += 1; }
    }
    assert!(l_nz > 0, "pan=$80 should produce LEFT audio (got {l_nz})");
    assert_eq!(r_nz, 0, "pan=$80 must be silent on RIGHT (got {r_nz})");
}

#[test]
fn adpcma_pan_bit6_routes_to_right_channel() {
    let mut ym = Ym2610::new();
    ym.adpcm_a_rom = vec![0x4Cu8; 0x1000];
    ym.write_reg_b(0x10, 0x00); ym.write_reg_b(0x18, 0x00);
    ym.write_reg_b(0x20, 0x0F); ym.write_reg_b(0x28, 0x00);
    ym.write_reg_b(0x01, 0x3F);
    ym.write_reg_b(0x08, 0x5F);
    ym.write_reg_b(0x00, 0x01);
    let mut l_nz = 0; let mut r_nz = 0;
    for _ in 0..512 {
        let (l, r) = ym.step_one_sample();
        if l != 0 { l_nz += 1; }
        if r != 0 { r_nz += 1; }
    }
    assert!(r_nz > 0, "pan=$40 should produce RIGHT audio (got {r_nz})");
    assert_eq!(l_nz, 0, "pan=$40 must be silent on LEFT (got {l_nz})");
}

#[test]
fn fm_register_slot_order_matches_opn_layout() {
    let mut fm = FmOpn::new();
    fm.write_reg(0x34, 0x07, false);
    assert_eq!(fm.ch[0].op[2].mul, 0x07, "x4 must map to OP3");
    assert_eq!(fm.ch[0].op[1].mul, 0x01, "x4 must not clobber OP2");
    fm.write_reg(0x38, 0x05, false);
    assert_eq!(fm.ch[0].op[1].mul, 0x05, "x8 must map to OP2");
    assert_eq!(fm.ch[0].op[2].mul, 0x07, "x8 must not overwrite OP3");
}

#[test]
fn fm_smoke_generates_nonzero_output() {
    let mut fm = FmOpn::new();
    for off in [0x31u8, 0x35, 0x39, 0x3D] { fm.write_reg(off, 0x01, false); }
    for off in [0x41u8, 0x45, 0x49, 0x4D] { fm.write_reg(off, 0x00, false); }
    fm.write_reg(0x41, 24, false);
    for off in [0x51u8, 0x55, 0x59, 0x5D] { fm.write_reg(off, 31, false); }
    for off in [0x61u8, 0x65, 0x69, 0x6D] { fm.write_reg(off, 0,  false); }
    for off in [0x71u8, 0x75, 0x79, 0x7D] { fm.write_reg(off, 0,  false); }
    for off in [0x81u8, 0x85, 0x89, 0x8D] { fm.write_reg(off, 0,  false); }
    fm.write_reg(0xA5, 0x22, false);
    fm.write_reg(0xA1, 0x69, false);
    fm.write_reg(0xB1, (4 << 3) | 4, false);
    fm.write_reg(0xB5, 0xC0, false);
    fm.key(1, 0b1111);

    let mut nonzero = 0usize;
    for _ in 0..4096 {
        let (l, r) = fm.step_one();
        if l != 0 || r != 0 {
            nonzero += 1;
        }
    }
    assert!(nonzero > 0, "FM approximation stayed silent");
}

#[test]
fn jedi_table_matches_fbneo_formula() {
    let steps_ref: [i32; 49] = [
         16,  17,   19,   21,   23,   25,   28,
         31,  34,   37,   41,   45,   50,   55,
         60,  66,   73,   80,   88,   97,  107,
        118, 130,  143,  157,  173,  190,  209,
        230, 253,  279,  307,  337,  371,  408,
        449, 494,  544,  598,  658,  724,  796,
        876, 963, 1060, 1166, 1282, 1411, 1552,
    ];
    assert_eq!(ADPCMA_STEPS, steps_ref, "ADPCMA_STEPS divergent");
    for step in 0..49usize {
        for nib in 0..16usize {
            let mag = (2 * (nib as i32 & 0x7) + 1) * steps_ref[step] / 8;
            let expected = if nib & 0x08 != 0 { -mag } else { mag };
            assert_eq!(jedi(step, nib as u8), expected,
                "JEDI mismatch step={step} nib={nib}");
        }
    }
}

#[test]
fn adpcma_step_inc_matches_fbneo() {
    let expected: [i32; 8] = [-16, -16, -16, -16, 32, 80, 112, 144];
    assert_eq!(ADPCMA_STEP_INC, expected);
}

#[test]
fn adpcma_volume_table_matches_fbneo_formula() {
    let mut ch = AdpcmAChan::new();
    ch.on = true;
    ch.acc = 0x100;
    for tl in 0u8..64 {
        for il in 0u8..32 {
            ch.il = il;
            ch.refresh_volume(tl);
            let vol = il as i32 + tl as i32;
            let (exp_mul, exp_shift) = if vol >= 63 {
                (0, 0)
            } else {
                (15 - (vol & 7), 5 + (vol >> 3))
            };
            assert_eq!(ch.vol_mul, exp_mul,
                "vol_mul mismatch TL={tl} IL={il}");
            assert_eq!(ch.vol_shift, exp_shift,
                "vol_shift mismatch TL={tl} IL={il}");
            let exp_out = if exp_mul == 0 { 0 } else {
                let ext = ((ch.acc as i16 as i32) << 4) as i32;
                ((ext * exp_mul) >> exp_shift) & !3
            };
            assert_eq!(ch.adpcm_out, exp_out,
                "adpcm_out cache mismatch TL={tl} IL={il}");
        }
    }
}

#[test]
fn adpcma_tl_write_refreshes_all_channels() {
    let mut ym = Ym2610::new();
    ym.adpcm_a_rom = vec![0x4Cu8; 0x1000];
    ym.write_reg_b(0x10, 0x00); ym.write_reg_b(0x18, 0x00);
    ym.write_reg_b(0x20, 0x0F); ym.write_reg_b(0x28, 0x00);
    ym.write_reg_b(0x01, 0x3F);
    ym.write_reg_b(0x08, 0xDF);
    ym.write_reg_b(0x00, 0x01);
    for _ in 0..32 { ym.step_one_sample(); }
    let mul_loud = ym.adpcm_a[0].vol_mul;
    assert!(mul_loud > 0, "ch0 vol_mul should be non-zero after loud key-on");
    ym.write_reg_b(0x01, 0x00);
    assert_eq!(ym.adpcm_a[0].vol_mul, 0,
        "TL write must zero vol_mul (silent)");
    assert_eq!(ym.adpcm_a[0].vol_shift, 0,
        "TL write must zero vol_shift (silent)");
    assert_eq!(ym.adpcm_a[0].adpcm_out, 0,
        "cached adpcm_out must be 0 after silence write");
}

#[test]
fn adpcmb_defaults_to_raw_non_interpolated_output() {
    let mut dt = DeltaTChan::new();
    dt.on = true;
    dt.interpolate = false;
    dt.acc = 1234;
    dt.prev_acc = -4321;
    dt.now_step = 0x8000;
    dt.delta = 0;
    assert_eq!(dt.step_one(&[]), 1234,
        "chip-accurate Delta-T mode must return raw current sample");
}

#[test]
fn adpcmb_optional_interpolation_matches_fbneo_formula() {
    let mut dt = DeltaTChan::new();
    dt.on = true;
    dt.interpolate = true;
    dt.acc = 1000;
    dt.prev_acc = -1000;
    dt.now_step = 0x8000;
    dt.delta = 0;
    assert_eq!(dt.step_one(&[]), 0,
        "midpoint interpolation must average prev/current samples");
}

#[test]
fn adpcmb_nibble_cursor_wraps_to_25_bits() {
    let mut dt = DeltaTChan::new();
    dt.on = true;
    dt.interpolate = false;
    dt.delta = 1;
    dt.now_step = 0xFFFF;
    dt.end = 0xFF_FFFE;
    dt.addr_nib = DELTAT_ADDR_MASK - 1;
    dt.curnibble = 1;
    let _ = dt.step_one(&[]);
    assert_eq!(dt.addr_nib, 0,
        "Delta-T nibble cursor must wrap to 25 bits");
}

#[test]
fn fm_pan_left_only_produces_silence_on_right() {
    let mut fm = FmOpn::new();
    for off in [0x31u8, 0x35, 0x39, 0x3D] { fm.write_reg(off, 0x01, false); }
    for off in [0x41u8, 0x45, 0x49, 0x4D] { fm.write_reg(off, 0x00, false); }
    for off in [0x51u8, 0x55, 0x59, 0x5D] { fm.write_reg(off, 31, false); }
    for off in [0x81u8, 0x85, 0x89, 0x8D] { fm.write_reg(off, 0,  false); }
    fm.write_reg(0xA5, 0x22, false);
    fm.write_reg(0xA1, 0x69, false);
    fm.write_reg(0xB1, 4, false);
    fm.write_reg(0xB5, 0x80, false);
    fm.key(1, 0b1111);
    let mut r_nz = 0;
    for _ in 0..2048 {
        let (_l, r) = fm.step_one();
        if r != 0 { r_nz += 1; }
    }
    assert_eq!(r_nz, 0, "FM pan=$80 (L only) must be silent on right (got {r_nz})");
}

#[test]
fn ssg_step_clock_matches_fbneo_prescaler_chain() {
    const NEOGEO_YM2610_CLOCK: u32 = 24_000_000 / 3;
    const SSG_PRES: u32 = 4 * 2;
    let ssg_external = NEOGEO_YM2610_CLOCK * 2 / SSG_PRES;
    let ssg_internal = ssg_external / 8;
    assert_eq!(ssg_external, 2_000_000, "SSG external clock must be 2 MHz");
    assert_eq!(ssg_internal, SSG_STEP_CLOCK_HZ,
        "SSG internal step clock must be 250 kHz");
}

#[test]
fn ssg_ticks_per_sample_yields_canonical_tone_frequency() {
    let ticks_per_sample_f = SSG_TICKS_PER_SAMPLE_Q16 as f64 / 65536.0;
    let host_rate = HOST_SAMPLE_RATE_HZ as f64;
    let effective_ssg_hz = host_rate * ticks_per_sample_f;
    let err = (effective_ssg_hz - SSG_STEP_CLOCK_HZ as f64).abs();
    assert!(err < 50.0,
        "effective SSG clock {} Hz differs from chip's {} by {} Hz \
         (must be <50 Hz)", effective_ssg_hz, SSG_STEP_CLOCK_HZ, err);
}

#[test]
fn eg_rate_shift_matches_fbneo_table() {
    let mut ref_tbl = [0u32; 128];
    for r in 0..12u32 {
        for k in 0..4 {
            ref_tbl[32 + (r as usize) * 4 + k] = 11 - r;
        }
    }
    assert_eq!(EG_RATE_SHIFT[..], ref_tbl[..],
        "EG_RATE_SHIFT differs");
}

#[test]
fn eg_rate_select_matches_fbneo_table() {
    let mut ref_tbl = [0u32; 128];
    for i in 0..32 { ref_tbl[i] = 18 * 8; }
    for r in 0..12 {
        for k in 0..4 {
            ref_tbl[32 + r * 4 + k] = (k as u32) * 8;
        }
    }
    for k in 0..4 { ref_tbl[32 + 48 + k]  = (4 + k as u32) * 8; }
    for k in 0..4 { ref_tbl[32 + 52 + k]  = (8 + k as u32) * 8; }
    for k in 0..4 { ref_tbl[32 + 56 + k]  = (12 + k as u32) * 8; }
    for k in 0..4 { ref_tbl[32 + 60 + k]  = 16 * 8; }
    for i in 96..128 { ref_tbl[i] = 16 * 8; }
    assert_eq!(EG_RATE_SELECT[..], ref_tbl[..],
        "EG_RATE_SELECT differs");
}

#[test]
fn eg_inc_table_matches_fbneo_verbatim() {
    let row = |idx: usize| -> [u8; 8] {
        let base = idx * 8;
        [EG_INC[base+0], EG_INC[base+1], EG_INC[base+2], EG_INC[base+3],
         EG_INC[base+4], EG_INC[base+5], EG_INC[base+6], EG_INC[base+7]]
    };
    assert_eq!(row( 0), [0,1, 0,1, 0,1, 0,1]);
    assert_eq!(row( 4), [1,1, 1,1, 1,1, 1,1], "rate 12 step 0 must be all ones");
    assert_eq!(row( 8), [2,2, 2,2, 2,2, 2,2], "rate 13 step 0 must be all twos");
    assert_eq!(row(12), [4,4, 4,4, 4,4, 4,4], "rate 14 step 0 must be all fours");
    assert_eq!(row(16), [8,8, 8,8, 8,8, 8,8], "rate 15 must be all eights");
    assert_eq!(row(17), [16,16,16,16,16,16,16,16],
        "attack 15 special row must be all sixteens");
    assert_eq!(row(18), [0,0, 0,0, 0,0, 0,0], "infinity rates must be all zeros");
}

#[test]
fn sl_table_matches_fbneo_sc_formula() {
    let expected: [u32; 16] = [
        0, 32, 64, 96, 128, 160, 192, 224,
        256, 288, 320, 352, 384, 416, 448, 992,
    ];
    for i in 0..16 {
        assert_eq!(SL_TABLE[i], expected[i],
            "SL_TABLE[{i}] differs from sc({})", if i==15 {31} else {i});
    }
}

#[test]
fn dt_tab_base_matches_fbneo_verbatim() {
    for i in 0..32 {
        assert_eq!(DT_TAB_BASE[i], 0, "DT_TAB FD=0 row must be all zeros");
    }
    assert_eq!(&DT_TAB_BASE[32..64],
        &[0,0,0,0, 1,1,1,1, 1,1,1,1, 2,2,2,2,
          2,3,3,3, 4,4,4,5, 5,6,6,7, 8,8,8,8][..]);
    assert_eq!(&DT_TAB_BASE[64..68], &[1,1,1,1][..]);
    assert_eq!(&DT_TAB_BASE[124..128], &[22,22,22,22][..]);
}

#[test]
fn dt_tab_mirrors_negative_for_fd_4_to_7() {
    for d in 0..4 {
        for i in 0..32 {
            assert_eq!(dt_tab(d + 4, i), -dt_tab(d, i),
                "DT_TAB[d+4] must mirror DT_TAB[d] (d={d}, i={i})");
        }
    }
}

#[test]
fn lfo_samples_per_step_matches_fbneo() {
    assert_eq!(LFO_SAMPLES_PER_STEP, [108, 77, 71, 67, 62, 44, 8, 5],
        "LFO_SAMPLES_PER_STEP differs");
}

#[test]
fn lfo_ams_depth_shift_matches_fbneo() {
    assert_eq!(LFO_AMS_DEPTH_SHIFT, [8, 3, 1, 0],
        "LFO_AMS_DEPTH_SHIFT differs");
}

#[test]
fn lfo_pm_output_extremes_match_fbneo() {
    assert_eq!(pm_row(0*8 + 7), [0,0,0,0,1,1,1,1]);
    assert_eq!(pm_row(6*8 + 7), [0,0,32,48,64,64,80,96],
        "deepest LFO PM bit10 row differs");
    assert_eq!(pm_row(5*8 + 7), [0,0,16,24,32,32,40,48]);
    for bit in 0..7 {
        assert_eq!(pm_row(bit*8 + 0), [0,0,0,0,0,0,0,0],
            "LFO PM depth=0 must be silent (bit={bit})");
    }
}

#[test]
fn tl_tab_size_and_amplitude_match_fbneo() {
    assert_eq!(TL_TAB_LEN, 6656, "TL_TAB must be 13*2*256 entries");
    let v0 = tl_tab(0);
    let vn = tl_tab(1);
    assert!(v0.abs() >= 8000 && v0.abs() <= 8192,
        "TL_TAB[0] amplitude out of expected range (got {v0})");
    assert_eq!(v0, -vn, "adjacent TL_TAB entries must mirror sign");
    for i in 1..13 {
        let halved = (v0 >> i).abs();
        let actual = tl_tab(i * 2 * 256).abs();
        assert!((halved - actual).abs() <= 1,
            "TL_TAB octave shift mismatch at i={i} (halved={halved}, actual={actual})");
    }
}

#[test]
fn sin_tab_size_and_phase_extremes_match_log_sin() {
    assert_eq!(SIN_LEN, 1024, "SIN_TAB must be 1024 entries");
    let s_min_phase = sin_tab(0);
    let s_peak_phase = sin_tab(256);
    assert!(s_min_phase > s_peak_phase,
        "SIN_TAB[0] attenuation must exceed SIN_TAB[256] (got {s_min_phase} vs {s_peak_phase})");
    assert_eq!(sin_tab(0) & 1, 0, "first half must be positive");
    assert_eq!(sin_tab(513) & 1, 1, "second half must encode negative sign in LSB");
}

#[test]
fn env_constants_match_fbneo_definitions() {
    assert_eq!(ENV_BITS, 10);
    assert_eq!(ENV_LEN, 1024);
    assert_eq!(MAX_ATT_INDEX, 1023);
    assert_eq!(MIN_ATT_INDEX, 0);
    assert_eq!(TL_TAB_LEN, 6656);
    assert_eq!(FREQ_SH, 16);
    assert_eq!(FREQ_MASK, 0xFFFF);
    assert_eq!(RATE_STEPS, 8);
    assert_eq!(ENV_QUIET, 832, "ENV_QUIET should be TL_TAB_LEN >> 3");
    assert_eq!(FN_MAX, 0x10000000);
}

#[test]
fn op_calc_returns_zero_for_quiet_envelope() {
    let result = FmOp::op_calc(0, (TL_TAB_LEN as u32) >> 3, 0);
    let _ = result;
    assert_eq!(FmOp::op_calc(0, 2048, 0), 0,
        "op_calc must clamp to 0 when env<<3 exceeds TL_TAB_LEN");
}

#[test]
fn timer_a_period_matches_fbneo_formula() {
    let mut ym = Ym2610::new();
    ym.write_reg_a(0x24, 0);
    ym.write_reg_a(0x25, 1);
    ym.write_reg_a(0x27, 0x01);
    assert_eq!(ym.timer_a_count, 1024 - 1,
        "timer A count must equal 1024 - TA after load");
}

#[test]
fn timer_b_period_matches_fbneo_formula() {
    let mut ym = Ym2610::new();
    ym.write_reg_a(0x26, 5);
    ym.write_reg_a(0x27, 0x02);
    assert_eq!(ym.timer_b_count, (256 - 5) * 16,
        "timer B count must equal (256 - TB) << 4 after load");
}

#[test]
fn timer_irq_flag_resets_on_mode_bit4_bit5() {
    let mut ym = Ym2610::new();
    ym.status_a = 0x03;
    ym.write_reg_a(0x27, 0x10);
    assert_eq!(ym.status_a & 0x01, 0, "bit 4 of $27 must clear Timer A flag");
    assert_eq!(ym.status_a & 0x02, 0x02, "Timer B flag must remain set");
    ym.write_reg_a(0x27, 0x20);
    assert_eq!(ym.status_a & 0x02, 0, "bit 5 of $27 must clear Timer B flag");
}

#[test]
fn step_one_sample_returns_silence_on_reset_chip() {
    let mut ym = Ym2610::new();
    let mut left_nz = 0u32;
    let mut right_nz = 0u32;
    for _ in 0..HOST_SAMPLE_RATE_HZ {
        let (l, r) = ym.step_one_sample();
        if l != 0 { left_nz += 1; }
        if r != 0 { right_nz += 1; }
    }
    assert_eq!(left_nz, 0, "reset chip must be silent on left channel");
    assert_eq!(right_nz, 0, "reset chip must be silent on right channel");
}

#[test]
fn ssg_concert_a_period_produces_440hz_range() {
    let mut ssg = Ssg::new();
    ssg.write_reg(0x07, 0b00111110);
    ssg.write_reg(0x08, 0x0F);
    ssg.write_reg(0x00, 0x1C);
    ssg.write_reg(0x01, 0x01);
    let mut last = 0u8;
    let mut edges = 0u32;
    for _ in 0..HOST_SAMPLE_RATE_HZ {
        let _ = ssg.step_one();
        let cur = ssg.tone_state[0];
        if cur == 1 && last == 0 { edges += 1; }
        last = cur;
    }
    assert!(edges >= 430 && edges <= 450,
        "SSG A4 (period=284) should emit ~440 rising edges/sec, got {edges} \
         — if value is ~1760 the prescaler/clock fix regressed");
}

#[test]
fn busy_flag_stays_high_for_96_z80_cycles_after_data_write() {
    let mut ym = Ym2610::new();
    ym.write_port(0, 0x22);
    ym.write_port(1, 0x08);
    assert_eq!(ym.read_status() & 0x80, 0x80, "busy must raise immediately after data write");
    ym.elapse_z80_cycles(YM2610_BUSY_Z80_CYCLES - 1);
    assert_eq!(ym.read_status() & 0x80, 0x80, "busy must remain asserted before the final cycle");
    ym.elapse_z80_cycles(1);
    assert_eq!(ym.read_status() & 0x80, 0x00, "busy must clear after 96 Z80 cycles");
}

#[test]
fn fm_mode_3slot_uses_separate_block_fnum_for_channel_3_ops_2_to_4() {
    let mut ym = Ym2610::new();
    ym.fm.ch[2].fnum_block = 0x1234;
    ym.write_reg_a(0xA8, 0x78);
    ym.write_reg_a(0xAC, 0x09);
    ym.write_reg_a(0xA9, 0x9A);
    ym.write_reg_a(0xAD, 0x0A);
    ym.write_reg_a(0xAA, 0xBC);
    ym.write_reg_a(0xAE, 0x0B);

    ym.write_reg_a(0x27, 0x40);

    assert_eq!(ym.fm.block_freq_for_op(2, 0), 0x1234);
    assert_eq!(ym.fm.block_freq_for_op(2, 1), 0x0978);
    assert_eq!(ym.fm.block_freq_for_op(2, 2), 0x0A9A);
    assert_eq!(ym.fm.block_freq_for_op(2, 3), 0x0BBC);
}

#[test]
fn refresh_volume_sign_extends_12bit_accumulator() {
    let mut ch = AdpcmAChan::new();
    ch.on = true;
    ch.il = 0;
    ch.refresh_volume(0);
    ch.acc = 0x100;
    ch.refresh_volume(0);
    let pos = ch.adpcm_out;
    assert!(pos > 0, "positive 12-bit sample should stay positive, got {pos}");
    ch.acc = 0x800;
    ch.refresh_volume(0);
    let neg = ch.adpcm_out;
    assert!(neg < 0, "negative 12-bit sample must sign-extend, got {neg}");
    assert!(
        neg.unsigned_abs() >= pos.unsigned_abs() * 4,
        "expected |neg|>>|pos| but neg={neg} pos={pos}",
    );
}

#[test]
fn refresh_volume_matches_track_and_hold() {
    let mut ch = AdpcmAChan::new();
    ch.on = true; ch.il = 0;
    ch.refresh_volume(0);
    for acc in [0i32, 0x001, 0x100, 0x7FF, 0x800, 0xC00, 0xFFF] {
        ch.acc = acc;
        let expected = {
            let ext = (((acc & 0xFFF) as u16) << 4) as i16 as i32;
            ((ext * ch.vol_mul) >> ch.vol_shift) & !3
        };
        ch.refresh_volume(0);
        assert_eq!(
            ch.adpcm_out, expected,
            "acc=0x{acc:03X}: refresh_volume={} vs manual={}",
            ch.adpcm_out, expected,
        );
    }
}

#[test]
fn reg_0x90_sets_ssg_and_ssgn() {
    let fm = opn_with_ssg(0x0F);
    assert_eq!(fm.ch[1].op[0].ssg, 0x0F);
    assert_eq!(fm.ch[1].op[0].ssgn, 0x02);

    let fm2 = opn_with_ssg(0x08);
    assert_eq!(fm2.ch[1].op[0].ssg, 0x08);
    assert_eq!(fm2.ch[1].op[0].ssgn, 0x00);
}

#[test]
fn key_on_rearms_ssgn_from_attack_bit() {
    let mut op = FmOp::new();
    op.ssg = 0x0C;
    op.ssgn = 0;
    op.key_on();
    assert_eq!(op.ssgn, 0x02, "key-on must re-arm ssgn = (ssg&4)>>1");
    assert_eq!(op.state, EG_ATT);
    assert_eq!(op.phase, 0);
}

#[test]
fn vol_out_inverts_when_ssgn_negated() {
    let mut op = FmOp::new();
    op.volume = 100;
    op.tl = 0;
    op.state = EG_SUS;
    op.ssg = 0x08;
    op.ssgn = 0x02;
    assert_eq!(op.vol_out(), 100 ^ MAX_ATT_INDEX as u32);
    op.ssg = 0;
    assert_eq!(op.vol_out(), 100);
    op.ssg = 0x08;
    op.state = EG_REL;
    assert_eq!(op.vol_out(), 100);
}

#[test]
fn ssg_repeat_shape_restarts_attack_at_env_quiet() {
    let mut op = FmOp::new();
    op.ssg = 0x08;
    op.ssgn = 0;
    op.state = EG_SUS;
    op.volume = ENV_QUIET as i32;
    op.phase = 0xDEAD;
    op.sr = 32 + (10 << 1);
    op.refresh_eg_rates();
    op.advance_eg(0);
    assert_eq!(op.state, EG_ATT, "repeat shape must re-enter attack");
    assert_eq!(op.volume, 511, "repeat shape restarts with volume=511");
    assert_eq!(op.phase, 0, "phase generator must restart");
    assert_eq!(op.ssgn, 0, "no alternate bit -> no inversion toggle");
}

#[test]
fn ssg_hold_shape_swaps_once_then_holds() {
    let mut op = FmOp::new();
    op.ssg = 0x0B;
    op.ssgn = 0;
    op.state = EG_SUS;
    op.volume = ENV_QUIET as i32;
    op.sr = 32 + (10 << 1);
    op.refresh_eg_rates();
    op.advance_eg(0);
    assert_eq!(op.state, EG_SUS, "hold shape stays in sustain");
    assert_eq!(op.volume, MAX_ATT_INDEX);
    assert_eq!(op.ssgn, 0x03);
    op.advance_eg(0);
    assert_eq!(op.ssgn, 0x03, "hold shape must not swap twice");
    assert_eq!(op.volume, MAX_ATT_INDEX);
}

#[test]
fn ssg_decay_runs_4x_faster() {
    let mk = |ssg: u8| {
        let mut op = FmOp::new();
        op.ssg = ssg;
        op.state = EG_DEC;
        op.volume = 0;
        op.sl = MAX_ATT_INDEX as u32;
        op.dr = 32 + (16 << 1);
        op.refresh_eg_rates();
        op
    };
    let mut plain = mk(0x00);
    let mut ssg = mk(0x08);
    let mut checked = false;
    for cnt in 0u32..64 {
        let v0p = plain.volume;
        let v0s = ssg.volume;
        plain.advance_eg(cnt);
        ssg.advance_eg(cnt);
        let dp = plain.volume - v0p;
        let ds = ssg.volume - v0s;
        if dp > 0 {
            assert_eq!(ds, 4 * dp, "SSG-EG decay must be 4x plain decay");
            checked = true;
        }
    }
    assert!(checked, "test never hit a decay step; adjust DR");
}
