use pydmg_neogeo::audio::tables::{sin_tab, sustain_level, tl_tab, SIN_LEN, TL_RES_LEN};
use pydmg_neogeo::audio::ym2610::Ym2610;

#[test]
fn sample_roms_are_sorted_by_name() {
    let mut ym = Ym2610::new();
    ym.install_v_roms(&[
        ("a.v11".to_string(), vec![1]),
        ("b.V21".to_string(), vec![2, 2]),
        ("c.v12".to_string(), vec![3]),
        ("d.bin".to_string(), vec![4]),
    ]);
    assert_eq!(ym.adpcm_a_rom, vec![1, 3, 4]);
    assert_eq!(ym.adpcm_b_rom, vec![2, 2]);
    ym.install_v_roms(&[("a.v1".to_string(), vec![5]), ("a.v2".to_string(), vec![6])]);
    assert_eq!(ym.adpcm_a_rom, vec![5, 6]);
    assert_eq!(ym.adpcm_b_rom, vec![5, 6]);
    ym.install_v_roms(&[]);
    assert_eq!(ym.adpcm_a_rom, vec![5, 6]);
    ym.install_v_roms(&[("x.rom".to_string(), vec![9])]);
    assert_eq!(ym.adpcm_a_rom, ym.adpcm_b_rom);
}

#[test]
fn timers_run_out_in_time() {
    let mut ym = Ym2610::new();
    ym.write_reg_a(0x24, 0xFF);
    ym.write_reg_a(0x25, 0x01);
    ym.write_reg_a(0x27, 0x05);
    for _ in 0..2 {
        ym.step_one_sample();
        assert_eq!(ym.read_port(0) & 1, 0);
    }
    ym.step_one_sample();
    assert_eq!(ym.read_port(0) & 1, 1);
    assert!(ym.irq_out);
    assert_eq!(ym.timer_a_count, 3);
    ym.write_port(0, 0x27);
    ym.write_port(1, 0x15);
    assert_eq!(ym.read_port(0), 0x80);
    assert_eq!(ym.timer_a_count, 3);
    assert_eq!(ym.dbg.timer_flag_set, 1);
    assert_eq!(ym.dbg.status_read_total, 4);
}

#[test]
fn finished_samples_raise_their_flag() {
    let mut ym = Ym2610::new();
    ym.adpcm_a_rom = vec![0x77; 0x100];
    ym.write_reg_b(0x01, 0x3F);
    ym.write_reg_b(0x08, 0xDF);
    ym.write_reg_b(0x20, 0x00);
    ym.write_reg_b(0x00, 0x01);
    assert_eq!(ym.dbg.adpcma_keyon_ch[0], 1);
    let mut l = vec![0i16; 1600];
    let mut r = vec![0i16; 1500];
    ym.render(&mut l, &mut r);
    assert_eq!(ym.read_port(2), 0x00);
    ym.render(&mut l, &mut r);
    assert_eq!(ym.read_port(2), 0x01);
    assert!(!ym.adpcm_a[0].on);
    assert_eq!(l[..1500], r[..]);
    assert_eq!(l[1500..], [0i16; 100]);
}

#[test]
fn first_sample_nibble_has_its_level() {
    let mut ym = Ym2610::new();
    ym.adpcm_a_rom = vec![0x70; 0x100];
    ym.write_reg_b(0x01, 0x3F);
    ym.write_reg_b(0x08, 0xDF);
    ym.write_reg_b(0x00, 0x01);
    ym.step_one_sample();
    ym.step_one_sample();
    // Nibble 7 at the smallest step adds 30; times 16 * 15 over 32 is 225, less the low bits 224.
    assert_eq!(ym.step_one_sample(), (219, 219));
    assert_eq!(ym.adpcm_a[0].adpcm_out, 224);
    assert_eq!(ym.adpcm_a[0].step, 144);
}

#[test]
fn delta_samples_are_decoded_and_looped() {
    let mut ym = Ym2610::new();
    ym.adpcm_b_rom = vec![0x70; 0x100];
    ym.write_reg_a(0x11, 0xC0);
    ym.write_reg_a(0x19, 0xFF);
    ym.write_reg_a(0x1A, 0xFF);
    ym.write_reg_a(0x1B, 0xFF);
    ym.write_reg_a(0x10, 0x90);
    assert!(ym.adpcm_b.looped);
    ym.step_one_sample();
    ym.step_one_sample();
    assert_eq!(ym.adpcm_b.acc, 127 * 15 / 8);
    assert_eq!(ym.adpcm_b.adpcmd, 127 * 153 / 64);
    for _ in 0..600 {
        ym.step_one_sample();
    }
    assert!(ym.adpcm_b.on);
    ym.write_reg_a(0x10, 0x01);
    assert!(!ym.adpcm_b.on);
    assert_eq!(ym.adpcm_b.acc, 0);
}

#[test]
fn level_table_follows_its_formula() {
    let env_step = 128.0 / 1024.0;
    for x in 0..TL_RES_LEN {
        let m = (65536.0 / 2f64.powf((x as f64 + 1.0) * env_step / 4.0 / 8.0)).floor() as i32;
        let n = m >> 4;
        let n = ((n >> 1) + (n & 1)) << 2;
        for octave in 0..13usize {
            assert_eq!(tl_tab(2 * x + 512 * octave), n >> octave);
            assert_eq!(tl_tab(2 * x + 1 + 512 * octave), -(n >> octave));
        }
    }
}

#[test]
fn wave_table_follows_its_formula() {
    let env_step = 128.0 / 1024.0;
    for i in 0..SIN_LEN {
        let m = ((2 * i + 1) as f64 * std::f64::consts::PI / SIN_LEN as f64).sin();
        let am = 8.0 * (1.0 / m.abs()).ln() / 2f64.ln();
        let n = (2.0 * am / (env_step / 4.0)) as i32;
        let n = (n >> 1) + (n & 1);
        assert_eq!(sin_tab(i), n as u32 * 2 + if m >= 0.0 { 0 } else { 1 });
    }
}

#[test]
fn sustain_levels_are_three_decibels_apart() {
    for k in 0..15usize {
        assert_eq!(sustain_level(k), 32 * k as u32);
    }
    assert_eq!(sustain_level(15), 32 * 31);
}
