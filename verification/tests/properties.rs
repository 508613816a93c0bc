use pydmg_neogeo::audio::audio_bus::AudioBus;
use pydmg_neogeo::audio::ssg::Ssg;
use pydmg_neogeo::audio::ym2610::Ym2610;
use pydmg_neogeo::bus::NeoGeoBus;
use pydmg_neogeo::cpu::m68k;
use pydmg_neogeo::cpu::m68k::exec::execute;
use pydmg_neogeo::cpu::m68k::Bus;
use pydmg_neogeo::cpu::z80::Cpu;
use pydmg_neogeo::graphics::palette_lut::level;
use pydmg_neogeo::lspc::Lspc;
use pydmg_neogeo::upd4990a::{Upd4990a, CYCLES_PER_SECOND};
use pydmg_neogeo::video::render_frame;

fn sound_machine(program: &[u8]) -> (Cpu, AudioBus) {
    let mut rom = vec![0u8; 0x10000];
    rom[..program.len()].copy_from_slice(program);
    let mut bus = AudioBus::new();
    bus.install_m1(rom);
    let mut cpu = Cpu::new();
    cpu.regs.pc = 0;
    cpu.regs.sp = 0xFFF0;
    (cpu, bus)
}

#[test]
fn zero_tone_period_counts_as_one() {
    let mut zero = Ssg::new();
    let mut one = Ssg::new();
    one.write_reg(0, 1);
    for s in [&mut zero, &mut one] {
        s.write_reg(7, 0x3E);
        s.write_reg(8, 0x0F);
    }
    for _ in 0..50 {
        assert_eq!(zero.step_one(), one.step_one());
    }
    assert_eq!(zero.mixer, 0x3E);
    assert_eq!(zero.vol[0], 0x0F);
}

#[test]
fn pieces_of_sound_make_the_whole() {
    let mut whole = Ym2610::new();
    let mut pieces = Ym2610::new();
    for ym in [&mut whole, &mut pieces] {
        ym.write_reg_a(0x00, 0x40);
        ym.write_reg_a(0x07, 0x3E);
        ym.write_reg_a(0x08, 0x0F);
    }
    let (mut l, mut r) = (vec![0i16; 64], vec![0i16; 64]);
    whole.render(&mut l, &mut r);
    let (mut pl, mut pr) = (vec![0i16; 64], vec![0i16; 64]);
    pieces.render(&mut pl[..20], &mut pr[..20]);
    pieces.render(&mut pl[20..], &mut pr[20..]);
    assert_eq!(l, pl);
    assert_eq!(r, pr);
    assert!(l.iter().any(|&s| s != 0));
}

#[test]
fn letting_go_releases_and_leaves_others_alone() {
    let mut ym = Ym2610::new();
    ym.write_reg_a(0x28, 0x11);
    assert_eq!(ym.fm.ch[1].op[0].state, 4);
    let before = ym.fm.ch[1].op[1].tl;
    ym.write_reg_a(0x41, 0x20);
    assert_eq!(ym.fm.ch[1].op[0].tl, 0x100);
    assert_eq!(ym.fm.ch[1].op[1].tl, before);
    ym.write_reg_a(0x28, 0x01);
    assert_eq!(ym.fm.ch[1].op[0].state, 1);
}

#[test]
fn masked_interrupts_wait_their_turn() {
    let (mut cpu, mut bus) = sound_machine(&[0x00, 0x00, 0xFB, 0x00, 0x00]);
    cpu.regs.im = 1;
    cpu.regs.iff1 = false;
    cpu.set_irq(0xFF);
    for _ in 0..4 {
        cpu.step(&mut bus);
    }
    assert_eq!(cpu.regs.pc, 4);
    assert_eq!(cpu.step(&mut bus), 13);
    assert_eq!(cpu.regs.pc, 0x38);
    cpu.regs.iff1 = true;
    cpu.step(&mut bus);
    assert_eq!(cpu.regs.pc, 0x39);
}

#[test]
fn halt_keeps_its_place() {
    let (mut cpu, mut bus) = sound_machine(&[0x76]);
    for _ in 0..5 {
        assert_eq!(cpu.step(&mut bus), 4);
        assert_eq!(cpu.regs.pc, 1);
    }
    cpu.request_nmi();
    cpu.step(&mut bus);
    assert!(!cpu.regs.halted);
}

#[test]
fn carry_instructions_look_at_the_previous_flags() {
    // LD A,00 / SCF: F was not written, so its stale bits count.
    let (mut cpu, mut bus) = sound_machine(&[0x3E, 0x00, 0x37]);
    cpu.regs.f = 0x28;
    cpu.step(&mut bus);
    cpu.step(&mut bus);
    assert_eq!(cpu.regs.f, 0x29);
    assert_eq!(cpu.regs.q, 0x29);
    // XOR A / SCF: it was, so A alone counts.
    let (mut cpu, mut bus) = sound_machine(&[0xAF, 0x37]);
    cpu.regs.f = 0x28;
    cpu.step(&mut bus);
    cpu.step(&mut bus);
    assert_eq!(cpu.regs.f, 0x45);
}

#[test]
fn byte_subtraction_undoes_addition() {
    // ADD A,5A / SUB 5A
    let (mut cpu, mut bus) = sound_machine(&[0xC6, 0x5A, 0xD6, 0x5A]);
    cpu.regs.a = 0xC3;
    cpu.step(&mut bus);
    assert_eq!(cpu.regs.a, 0x1D);
    cpu.step(&mut bus);
    assert_eq!(cpu.regs.a, 0xC3);
}

#[test]
fn extended_additions_carry_on() {
    let mut cpu = m68k::Cpu::new();
    let mut bus = NeoGeoBus::new();
    cpu.d = [0xFFFF_FFFF, 0x1, 0x0000_0001, 0x2, 0, 0, 0, 0];
    // ADD.L D2,D0 / ADDX.L D3,D1: a sum of two double long words.
    execute(&mut cpu, &mut bus, 0xD082);
    execute(&mut cpu, &mut bus, 0xD383);
    assert_eq!((cpu.d[1], cpu.d[0]), (4, 0));
}

#[test]
fn subroutines_return_where_they_came_from() {
    let mut cpu = m68k::Cpu::new();
    let mut bus = NeoGeoBus::new();
    cpu.pc = 0x100002;
    cpu.instr_pc = 0x100000;
    cpu.a[7] = 0x10F000;
    cpu.a[0] = 0x100800;
    // JSR (A0) / RTS
    assert_eq!(execute(&mut cpu, &mut bus, 0x4E90), 16);
    assert_eq!(cpu.pc, 0x100800);
    assert_eq!(bus.read16(0x10EFFC), 0x0010);
    assert_eq!(execute(&mut cpu, &mut bus, 0x4E75), 16);
    assert_eq!((cpu.pc, cpu.a[7]), (0x100002, 0x10F000));
    // A subroutine at an odd address is an address error.
    cpu.a[0] = 0x100801;
    execute(&mut cpu, &mut bus, 0x4E90);
    assert_eq!(cpu.address_error.map(|e| (e.access_addr, e.fc)), Some((0x100801, 6)));
}

#[test]
fn privileged_instructions_trap_in_user_mode() {
    let mut cpu = m68k::Cpu::new();
    let mut bus = NeoGeoBus::new();
    let mut rom = vec![0u8; 0x100];
    rom[0x21] = 0x12;
    rom[0x23] = 0x40;
    bus.load_p_rom(rom);
    cpu.sr = m68k::StatusRegister(0);
    cpu.ssp = 0x10E000;
    cpu.a[7] = 0x10F000;
    cpu.instr_pc = 0x100000;
    cpu.pc = 0x100002;
    // RESET
    assert_eq!(execute(&mut cpu, &mut bus, 0x4E70), 34);
    assert_eq!((cpu.usp, cpu.a[7]), (0x10F000, 0x10DFFA));
    assert_eq!(cpu.sr.0 & 0x2000, 0x2000);
    assert_eq!(bus.read16(0x10DFFC), 0x0010);
    assert_eq!(cpu.pc, (rom_word(0x12) << 16) | rom_word(0x40));
}

fn rom_word(v: u32) -> u32 {
    v << 8
}

#[test]
fn brighter_codes_are_not_darker() {
    for column in 0..4 {
        assert_eq!(level(0, column), 0);
        for code in 1..32 {
            assert!(level(code - 1, column) <= level(code, column));
        }
    }
    assert_eq!(level(31, 0), 255);
}

#[test]
fn a_line_shows_at_most_96_sprites() {
    // Sprites 1 to 96 are blank at the top; the next one is not drawn.
    let mut lspc = Lspc::new();
    for n in 0..97usize {
        lspc.vram[0x8000 + n] = 0x0FFF;
        lspc.vram[0x8200 + n] = (496u16 << 7) | 1;
        lspc.vram[64 * n] = if n == 96 { 1 } else { 0 };
        lspc.vram[64 * n + 1] = 0x0100;
    }
    let mut even = vec![0u8; 128];
    for b in &mut even[64..] {
        *b = 0xFF;
    }
    let roms = vec![even, vec![0u8; 128]];
    let mut pal = vec![0u8; 0x4000];
    for b in &mut pal[2 * 19..2 * 19 + 2] {
        *b = 0xFF;
    }
    let without = render_frame(&lspc, &pal, &[], &roms)[0];
    lspc.vram[0x8200] = 0;
    let with = render_frame(&lspc, &pal, &[], &roms)[0];
    assert_ne!(without, with);
}

#[test]
fn pulses_do_not_care_how_time_is_counted() {
    let mut once = Upd4990a::new();
    let mut apart = Upd4990a::new();
    for c in [&mut once, &mut apart] {
        c.command = 5;
        c.process_command();
    }
    once.tick(100_000);
    for n in [1u32, 33_333, 66_666] {
        apart.tick(n);
    }
    assert_eq!((once.tp, once.tp_count), (apart.tp, apart.tp_count));
    assert_eq!(once.data_out_count, apart.data_out_count);
}

#[test]
fn interval_pulse_falls_and_rises_again() {
    let second = CYCLES_PER_SECOND as u32;
    let mut c = Upd4990a::new();
    c.command = 9;
    c.process_command();
    assert!(c.tp);
    c.tick(5 * second - 1);
    assert!(c.tp);
    c.tick(1);
    assert!(!c.tp);
    c.tick(5 * second);
    assert!(c.tp);
    assert_eq!(c.tp_count, 0);
}

#[test]
fn latch_switches_turn_alone() {
    let mut bus = NeoGeoBus::new();
    for i in 0..8u32 {
        bus.write8(0x3A0011 + 2 * i, 0);
        assert_eq!(bus.systemlatch, (1u16 << (i + 1)).wrapping_sub(1) as u8);
    }
    bus.write8(0x3A0007, 0);
    assert_eq!(bus.systemlatch, 0xF7);
}
