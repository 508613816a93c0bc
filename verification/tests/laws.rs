use pydmg_neogeo::audio::adpcm_a::AdpcmAChan;
use pydmg_neogeo::audio::audio_bus::AudioBus;
use pydmg_neogeo::audio::fm::FmOpn;
use pydmg_neogeo::audio::fm_op::{FmOp, EG_DEC};
use pydmg_neogeo::bus::NeoGeoBus;
use pydmg_neogeo::cpu::m68k;
use pydmg_neogeo::cpu::m68k::arith::{add_with_flags, addx_with_flags};
use pydmg_neogeo::cpu::m68k::transfer::movem;
use pydmg_neogeo::cpu::m68k::{Bus, Size};
use pydmg_neogeo::cpu::z80::alu::{add8, daa, sub8};
use pydmg_neogeo::cpu::z80::flags::{FC, FN, FZ};
use pydmg_neogeo::cpu::z80::Cpu;
use pydmg_neogeo::graphics::tiles::decoded_sprite_pixel;
use pydmg_neogeo::lspc::Lspc;
use pydmg_neogeo::memory::pcm2::pcm2_decrypt;
use pydmg_neogeo::upd4990a::Upd4990a;
use pydmg_neogeo::video::{
    decode_sprite_gfx, render_frame_full, sprite_tile_pixel, FixBankType, SCREEN_H, SCREEN_W,
};

#[test]
fn a_new_bus_has_its_bank_at_the_start() {
    let mut bus = NeoGeoBus::new();
    assert_eq!(bus.p_rom_bank_offset, 0);
    bus.p_rom[0] = 0x12;
    bus.p_rom[1] = 0x34;
    assert_eq!(bus.read16(0x200000), 0x1234);
}

#[test]
fn the_clock_keeps_every_second() {
    let mut c = Upd4990a::new();
    c.tick(36_000_000);
    assert_eq!((c.seconds, c.minutes, c.hours, c.count), (3, 0, 12, 0));
    assert_eq!((c.tp, c.tp_count), (false, 0));
    assert_eq!((c.data_out_pulse, c.data_out_count), (false, 0));
}

#[test]
fn the_clock_does_not_care_how_time_is_counted() {
    let mut once = Upd4990a::new();
    let mut apart = Upd4990a::new();
    once.hours = 23;
    once.minutes = 57;
    once.seconds = 30;
    once.count = 11_000_000;
    apart.hours = 23;
    apart.minutes = 57;
    apart.seconds = 30;
    apart.count = 11_000_000;
    once.tick(4_200_000_000);
    for n in [1u32, 999_999, 1_999_000_000, 2_200_000_000] {
        apart.tick(n);
    }
    let time = |c: &Upd4990a| (c.hours, c.minutes, c.seconds, c.weekday, c.count);
    assert_eq!(time(&once), time(&apart));
    // 350 seconds and eleven twelfths of one.
    assert_eq!(time(&once), (0, 3, 20, 2, 11_000_000));
}

#[test]
fn a_new_channel_needs_no_refreshing() {
    let rom = [0x7Fu8; 4];
    let mut c = AdpcmAChan::new();
    c.key_on();
    c.step_nibble(&rom);
    let held = c.adpcm_out;
    assert_eq!(held, 224);
    c.refresh_volume(0);
    assert_eq!(c.adpcm_out, held);
    assert_eq!((c.vol_mul, c.vol_shift), (15, 5));
}

#[test]
fn blocks_are_exchanged_by_one_bit() {
    let old: Vec<u8> = (0..70usize).map(|i| (i * 7 + 1) as u8).collect();
    for value in [4usize, 8, 16, 32] {
        let mut rom = old.clone();
        pcm2_decrypt(&mut rom, value);
        let full = 70 - 70 % value;
        for o in 0..70 {
            let from = if o < full { o ^ (value / 2) } else { o };
            assert_eq!(rom[o], old[from]);
        }
    }
}

#[test]
fn decimal_adjustment_holds_for_all_digits() {
    let bcd = |n: u32| (16 * (n / 10) + n % 10) as u8;
    for a in 0..100u32 {
        for b in 0..100u32 {
            for x in 0..2u32 {
                let mut cpu = Cpu::new();
                cpu.regs.a = add8(&mut cpu, bcd(a), bcd(b), x as u8);
                daa(&mut cpu);
                assert_eq!(cpu.regs.a, bcd((a + b + x) % 100));
                assert_eq!(cpu.regs.f & FC != 0, a + b + x > 99);
                assert_eq!(cpu.regs.f & FN, 0);
                assert_eq!(cpu.regs.f & FZ != 0, (a + b + x) % 100 == 0);
                let mut cpu = Cpu::new();
                cpu.regs.a = sub8(&mut cpu, bcd(a), bcd(b), x as u8);
                daa(&mut cpu);
                assert_eq!(cpu.regs.a, bcd((200 + a - b - x) % 100));
                assert_eq!(cpu.regs.f & FC != 0, a < b + x);
                assert_ne!(cpu.regs.f & FN, 0);
                assert_eq!(cpu.regs.f & FZ != 0, (200 + a - b - x) % 100 == 0);
            }
        }
    }
}

fn indexed(prefix: u8, program: &[u8], ix: u16, iy: u16) -> (Cpu, Vec<u8>, u32) {
    let mut rom = vec![0u8; 0x10000];
    rom[0] = prefix;
    rom[1..1 + program.len()].copy_from_slice(program);
    let mut bus = AudioBus::new();
    bus.install_m1(rom);
    for i in 0..0x40u16 {
        bus.ram[0x400 + i as usize] = (i as u8).wrapping_mul(29);
    }
    let mut cpu = Cpu::new();
    cpu.regs.pc = 0;
    cpu.regs.sp = 0xFC20;
    cpu.regs.a = 0x5A;
    cpu.regs.b = 0x11;
    cpu.regs.ix = ix;
    cpu.regs.iy = iy;
    let cycles = cpu.step(&mut bus);
    (cpu, bus.ram.to_vec(), cycles)
}

#[test]
fn index_pages_are_mirror_images() {
    let programs: [&[u8]; 12] = [
        &[0x21, 0x34, 0x12],
        &[0x09],
        &[0x7E, 0x05],
        &[0x36, 0x03, 0x77],
        &[0x34, 0x02],
        &[0x24],
        &[0x65],
        &[0x84],
        &[0xE3],
        &[0xE5],
        &[0xCB, 0x04, 0x1E],
        &[0xCB, 0x06, 0xC7],
    ];
    for program in programs {
        let (a, ram_a, cycles_a) = indexed(0xDD, program, 0xFC10, 0x1234);
        let (mut b, ram_b, cycles_b) = indexed(0xFD, program, 0x1234, 0xFC10);
        assert_eq!(b.regs.ix, 0x1234);
        assert_eq!(a.regs.iy, 0x1234);
        assert_eq!(cycles_a, cycles_b);
        assert!(ram_a == ram_b);
        std::mem::swap(&mut b.regs.ix, &mut b.regs.iy);
        assert_eq!(a, b);
        // What the other register holds makes no difference.
        let (mut c, ram_c, cycles_c) = indexed(0xDD, program, 0xFC10, 0xFC10);
        assert_eq!(c.regs.iy, 0xFC10);
        c.regs.iy = 0x1234;
        assert_eq!(a, c);
        assert!(ram_a == ram_c);
        assert_eq!(cycles_a, cycles_c);
    }
}

#[test]
fn saved_registers_come_back() {
    let mask: u16 = 0x5AA3;
    let mut cpu = m68k::Cpu::new();
    let mut bus = NeoGeoBus::new();
    for i in 0..8 {
        cpu.d[i] = 0x1111_0000 * (i as u32 + 1) + 7;
        cpu.a[i] = 0x0010_2000 + 0x101 * i as u32;
    }
    cpu.a[5] = 0x0010_8000;
    let (d, a) = (cpu.d, cpu.a);
    bus.write16(0x100000, mask.reverse_bits());
    bus.write16(0x100002, mask);
    cpu.pc = 0x100000;
    assert_eq!(movem(&mut cpu, &mut bus, 0x48E0 | 5), 20);
    assert_eq!(cpu.a[5], 0x0010_8000 - 4 * mask.count_ones());
    assert_eq!(cpu.d, d);
    for i in 0..16 {
        if (mask >> i) & 1 == 1 {
            if i < 8 {
                cpu.d[i] = 0xDEAD_BEEF;
            } else {
                cpu.a[i - 8] = 0xDEAD_BEEF;
            }
        }
    }
    assert_eq!(movem(&mut cpu, &mut bus, 0x4CD8 | 5), 20);
    assert_eq!((cpu.d, cpu.a), (d, a));
    assert!(cpu.address_error.is_none());
}

#[test]
fn two_extended_additions_make_a_long() {
    for d in [0u32, 1, 0x7FFF_FFFF, 0x8000_0000, 0xFFFF_FFFF, 0x0001_FFFF] {
        for s in [0u32, 1, 0xFFFF, 0x7FFF_FFFF, 0x8000_0000, 0xFFFF_FFFF] {
            let mut apart = m68k::Cpu::new();
            let mut once = m68k::Cpu::new();
            apart.sr.0 |= 4;
            once.sr.0 |= 4;
            let lo = addx_with_flags(&mut apart, d & 0xFFFF, s & 0xFFFF, 0, Size::Word);
            let x = u32::from(apart.sr.0 & 0x10 != 0);
            let hi = addx_with_flags(&mut apart, d >> 16, s >> 16, x, Size::Word);
            let sum = add_with_flags(&mut once, d, s, Size::Long, true);
            assert_eq!((hi << 16) | lo, d.wrapping_add(s));
            assert_eq!(sum, d.wrapping_add(s));
            assert_eq!(apart.sr.0, once.sr.0);
            assert_eq!(apart.sr.0 & 1 != 0, d.checked_add(s).is_none());
        }
    }
}

#[test]
fn an_unpaired_rom_is_ignored() {
    let rom = |k: usize| (0..192usize).map(|i| (i * k + 5) as u8).collect::<Vec<u8>>();
    let roms = vec![rom(37), rom(91), rom(53), rom(17), rom(77)];
    let decoded = decode_sprite_gfx(&roms);
    assert_eq!(decoded.len(), 8 * 256);
    assert!(decoded == decode_sprite_gfx(&roms[..4]));
    assert!(decoded.iter().all(|&c| c <= 15));
    assert!(decoded[6 * 256..].iter().all(|&c| c == 0));
    for tile in 0..6u32 {
        for y in 0..16u8 {
            for x in 0..16u8 {
                assert_eq!(
                    decoded_sprite_pixel(&decoded, tile, x, y),
                    sprite_tile_pixel(&roms, tile, x, y)
                );
            }
        }
    }
}

#[test]
fn every_pixel_is_opaque() {
    let mut lspc = Lspc::new();
    for i in 0..lspc.vram.len() {
        lspc.vram[i] = (i as u16).wrapping_mul(0x9E37) ^ 0x1234;
    }
    let pal: Vec<u8> = (0..0x4000usize).map(|i| (i * 31) as u8).collect();
    let s_rom: Vec<u8> = (0..0x1000usize).map(|i| (i * 13) as u8).collect();
    let other: Vec<u8> = (0..0x1000usize).map(|i| (i * 29 + 3) as u8).collect();
    let c_roms = vec![s_rom.clone(), other.clone()];
    let gfx = decode_sprite_gfx(&c_roms);
    let lo = vec![0u8; 0x10000];
    let draw = |s: &[u8], bios: Option<&[u8]>, bank: FixBankType| {
        render_frame_full(&lspc, &pal, s, &c_roms, &gfx, &lo, 1, false, bios, bank)
    };
    let frame = draw(&s_rom, None, FixBankType::Std);
    assert_eq!(frame.len(), SCREEN_W * SCREEN_H);
    assert!(frame.iter().all(|px| px & 0xFF == 0xFF));
    let a = draw(&s_rom, Some(&other[..]), FixBankType::Std);
    let b = draw(&pal, Some(&other[..]), FixBankType::Garou);
    assert!(a == b);
    assert!(a != frame);
}

fn playing(fm: &mut FmOpn) {
    for bank in [false, true] {
        for c in 0..3u8 {
            for slot in 0..4u8 {
                let at = 4 * slot + c;
                fm.write_reg(0x30 + at, 0x01, bank);
                fm.write_reg(0x40 + at, 0x08, bank);
                fm.write_reg(0x50 + at, 0x1F, bank);
                fm.write_reg(0x80 + at, 0x0F, bank);
            }
            fm.write_reg(0xB0 + c, 0x07, bank);
            fm.write_reg(0xB4 + c, if c == 1 { 0x80 } else { 0xC0 }, bank);
            fm.write_reg(0xA4 + c, 0x22, bank);
            fm.write_reg(0xA0 + c, 0x69, bank);
        }
    }
    for c in 0..6usize {
        fm.key(c, 0x0F);
    }
}

#[test]
fn unheard_channels_make_no_difference() {
    let mut plain = FmOpn::new();
    let mut other = FmOpn::new();
    playing(&mut plain);
    playing(&mut other);
    for bank in [false, true] {
        other.write_reg(0x40, 0x7F, bank);
        other.write_reg(0xB0, 0x3C, bank);
        other.write_reg(0xA4, 0x11, bank);
        other.write_reg(0xA0, 0x42, bank);
    }
    other.key(0, 0);
    let mut loud = false;
    for _ in 0..500 {
        let (l, r, heard) = plain.step_one_with_per_channel();
        assert_eq!((l, r, heard), other.step_one_with_per_channel());
        assert!(heard.iter().all(|v| (-16384..=16383).contains(v)));
        assert_eq!(l, heard.iter().sum::<i32>());
        // Channels 1 and 4 are on the left only.
        assert_eq!(r, heard[1] + heard[3]);
        loud = loud || heard[0] != 0;
    }
    assert!(loud);
}

#[test]
fn looping_envelopes_decay_four_times_as_fast() {
    let mut moved = 0;
    for cnt in 0..64u32 {
        let mut p = FmOp::new();
        p.state = EG_DEC;
        p.dr = 64;
        p.sl = 992;
        p.volume = 0;
        p.refresh_eg_rates();
        let mut s = p;
        s.ssg = 8;
        p.advance_eg(cnt);
        s.advance_eg(cnt);
        assert_eq!(s.volume, 4 * p.volume);
        moved += p.volume;
    }
    assert!(moved > 0);
}
