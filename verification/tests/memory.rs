use pydmg_neogeo::bus::{NeoGeoBus, WATCHDOG_TIMEOUT_68K};
use pydmg_neogeo::cpu::m68k::bus::{read32, write32};
use pydmg_neogeo::cpu::m68k::Bus;
use pydmg_neogeo::memory::prot::{
    combined, next_random, packed_color, unpacked_gb, unpacked_sr, CartProt, FatFury2Prot,
    Kof98Prot, MslugXProt, PvcProt, SmaGame, SmaProt,
};
use pydmg_neogeo::upd4990a::{half_period_cycles, Upd4990a, CYCLES_PER_SECOND};

#[test]
fn work_ram_repeats() {
    let mut bus = NeoGeoBus::new();
    bus.write8(0x100010, 0x5A);
    assert_eq!(bus.read8(0x110010), 0x5A);
    assert_eq!(bus.read8(0xFF1F0010), 0x5A);
    bus.write16(0x1FFFFE, 0x1234);
    assert_eq!(bus.read16(0x10FFFE), 0x1234);
    write32(&mut bus, 0x100020, 0xDEADBEEF);
    assert_eq!(read32(&mut bus, 0x100020), 0xDEADBEEF);
    assert_eq!(bus.read8(0x100021), 0xAD);
}

#[test]
fn program_is_loaded_with_words_swapped() {
    let mut bus = NeoGeoBus::new();
    bus.load_p_rom(vec![0x22, 0x11, 0x44, 0x33, 0x55]);
    assert_eq!(bus.read16(0), 0x1122);
    assert_eq!(bus.read8(4), 0x55);
    assert_eq!(bus.read8(5), 0xFF);
    assert_eq!(bus.p_rom_bank_offset, 0);
    bus.write8(0, 0);
    assert_eq!(bus.read8(0), 0x11);
    bus.load_system_rom(vec![0xBB, 0xAA]);
    assert!(bus.bios_at_zero);
    assert_eq!(bus.read16(0), 0xAABB);
    assert_eq!(bus.read16(0xC00000), 0xAABB);
    assert_eq!(bus.read16(0xC20000), 0xAABB);
    assert_eq!(bus.read8(2), 0xFF);
    bus.write8(0x3A0013, 0);
    assert!(!bus.bios_at_zero);
    assert_eq!(bus.read16(0), 0x1122);
    bus.write8(0x3A0003, 0);
    assert!(bus.bios_at_zero);
}

#[test]
fn bank_window_follows_its_register() {
    let mut bus = NeoGeoBus::new();
    let mut rom = vec![0u8; 0x300000];
    rom[0x100001] = 1;
    rom[0x200001] = 2;
    bus.load_p_rom(rom);
    assert_eq!(bus.read8(0x200000), 1);
    bus.write8(0x2FFFF0, 1);
    assert_eq!(bus.read8(0x200000), 2);
    bus.write8(0x2FFFF1, 2);
    assert_eq!(bus.read8(0x200000), 1);
    bus.write8(0x2FFFE0, 1);
    assert_eq!(bus.read8(0x200000), 1);
    bus.write16(0x2FFFFE, 1);
    assert_eq!(bus.read8(0x200000), 2);
}

#[test]
fn backup_ram_needs_its_switch() {
    let mut bus = NeoGeoBus::new();
    bus.write8(0xD00001, 7);
    assert_eq!(bus.read8(0xD00001), 0);
    bus.write8(0x3A001D, 0);
    bus.write8(0xD00001, 7);
    bus.write8(0x3A000D, 0);
    bus.write8(0xD00001, 9);
    assert_eq!(bus.read8(0xD10001), 7);
}

#[test]
fn memory_card_needs_its_switches() {
    let mut bus = NeoGeoBus::new();
    assert_eq!(bus.read16(0x800000), 0xFFFF);
    bus.write16(0x800000, 0x1234);
    assert_eq!(bus.read16(0x800000), 0xFFFF);
    bus.write8(0x3A0005, 0);
    bus.write8(0x3A0017, 0);
    bus.write16(0x800000, 0x1234);
    assert_eq!(bus.read16(0x800000), 0xFF34);
    assert_eq!(bus.read8(0x801001), 0x34);
    bus.write8(0x3A0015, 0);
    bus.write8(0x800001, 0);
    assert_eq!(bus.read8(0x800001), 0x34);
    bus.memcard_present = false;
    assert_eq!(bus.read8(0x800001), 0xFF);
}

#[test]
fn palette_has_two_banks() {
    let mut bus = NeoGeoBus::new();
    bus.write16(0x400000, 0x1111);
    bus.write8(0x3A001F, 0);
    bus.write16(0x400000, 0x2222);
    assert_eq!(bus.read16(0x402000), 0x2222);
    bus.write8(0x3A000F, 0);
    assert_eq!(bus.read16(0x400000), 0x1111);
}

#[test]
fn inputs_are_read_back() {
    let mut bus = NeoGeoBus::new();
    bus.p1_input = 0xFE;
    bus.p2_input = 0xFD;
    bus.start_select = 0xF7;
    bus.coin_inputs = 0xFE;
    bus.systype = 0x80;
    bus.dipsw = 0x12;
    bus.sound_reply = 0x34;
    assert_eq!(bus.read16(0x300000), 0xFE12);
    assert_eq!(bus.read8(0x340000), 0xFD);
    assert_eq!(bus.read8(0x340001), 0xFF);
    assert_eq!(bus.read8(0x380000), 0xC7);
    assert_eq!(bus.read8(0x380001), 0xFF);
    assert_eq!(bus.read8(0x320000), 0x34);
    assert_eq!(bus.read8(0x320001), 0x1E);
    bus.upd4990a.tp = true;
    bus.upd4990a.data_out_pulse = true;
    assert_eq!(bus.read8(0x320001), 0xDE);
    assert_eq!(bus.read8(0x360000), 0xFF);
    assert_eq!(bus.read8(0xE00000), 0xFF);
}

#[test]
fn sound_command_is_latched() {
    let mut bus = NeoGeoBus::new();
    bus.write8(0x320001, 0x11);
    assert!(!bus.sound_latch_pending);
    bus.write8(0x320000, 0x42);
    assert!(bus.sound_latch_pending);
    assert_eq!(bus.sound_latch, 0x42);
}

#[test]
fn watchdog_bites_unless_kicked() {
    let mut bus = NeoGeoBus::new();
    assert!(!bus.tick_watchdog(WATCHDOG_TIMEOUT_68K as u32 - 1));
    bus.write8(0x300001, 0);
    assert!(!bus.tick_watchdog(WATCHDOG_TIMEOUT_68K as u32 - 1));
    assert!(bus.tick_watchdog(1));
    assert!(bus.watchdog_expired);
    assert!(!bus.tick_watchdog(1));
    bus.kick_watchdog();
    assert_eq!(bus.watchdog_cycles, WATCHDOG_TIMEOUT_68K);
}

#[test]
fn video_memory_is_reached_by_words_and_bytes() {
    let mut bus = NeoGeoBus::new();
    bus.write16(0x3C0000, 0x7000);
    bus.write16(0x3C0004, 1);
    bus.write16(0x3C0002, 0x1234);
    bus.write16(0x3C0002, 0x5678);
    bus.write16(0x3C0000, 0x7001);
    assert_eq!(bus.read16(0x3C0002), 0x5678);
    assert_eq!(bus.read8(0x3C0002), 0x56);
    assert_eq!(bus.read8(0x3C0003), 0x78);
    assert_eq!(bus.lspc.vram[0x7000], 0x1234);
}

#[test]
fn clock_reads_and_sets_the_time() {
    let mut c = Upd4990a::new();
    c.seconds = 59;
    c.minutes = 58;
    c.hours = 23;
    c.day = 31;
    c.month = 12;
    c.year = 99;
    c.weekday = 6;
    c.command = 3;
    c.process_command();
    assert_eq!(c.shift_reg, 0x99C6_3123_5859);
    c.seconds = 0;
    c.command = 2;
    c.process_command();
    assert_eq!((c.seconds, c.minutes, c.hours, c.day), (59, 58, 23, 31));
    assert_eq!((c.weekday, c.month, c.year, c.mode), (6, 12, 99, 2));
    c.reset();
    assert_eq!((c.hours, c.day, c.month, c.year, c.weekday), (12, 1, 1, 24, 1));
}

#[test]
fn clock_counts_seconds() {
    let mut c = Upd4990a::new();
    c.seconds = 59;
    c.minutes = 59;
    c.hours = 23;
    c.weekday = 6;
    c.tick(CYCLES_PER_SECOND as u32 - 1);
    assert_eq!(c.seconds, 59);
    c.tick(1);
    assert_eq!((c.seconds, c.minutes, c.hours, c.weekday), (0, 0, 0, 0));
    assert_eq!(half_period_cycles(128), 93_750);
    assert_eq!(half_period_cycles(0), CYCLES_PER_SECOND);
}

#[test]
fn clock_takes_commands_bit_by_bit() {
    let mut c = Upd4990a::new();
    for bit in [0u8, 0, 0, 1] {
        c.write(bit);
        c.write(bit | 2);
    }
    c.write(4);
    assert_eq!(c.command, 8);
    assert!(c.tp);
    assert_eq!(c.tp_interval, CYCLES_PER_SECOND / 2);
    c.tick(CYCLES_PER_SECOND as u32 / 2);
    assert!(!c.tp);
    assert_eq!(c.status_bits() & 0x40, 0);
    c.write(0);
    c.command = 12;
    c.tp = true;
    c.process_command();
    assert!(!c.tp);
    c.command = 6;
    c.process_command();
    assert_eq!(c.tp_interval, 12_000_000 / 4096);
    c.command = 1;
    c.process_command();
    c.shift_reg = 1;
    assert!(c.data_out());
    c.write(2);
    assert_eq!(c.shift_reg, 0);
    c.command = 0;
    c.process_command();
    assert_eq!((c.mode, c.tp_interval, c.data_out_interval), (0, 93_750, 6_000_000));
}

#[test]
fn clock_is_reached_over_the_bus() {
    let mut bus = NeoGeoBus::new();
    for bit in [1u8, 0, 0, 0] {
        bus.write8(0x380051, bit);
        bus.write8(0x380051, bit | 2);
    }
    bus.write8(0x380051, 4);
    assert_eq!(bus.upd4990a.command, 1);
    assert_eq!(bus.upd4990a.mode, 1);
}

#[test]
fn shift_register_device_answers() {
    let mut bus = NeoGeoBus::new();
    bus.prot = CartProt::FatFury2(FatFury2Prot { data: 0 });
    bus.write16(0x256782, 0x1234);
    assert_eq!(bus.read16(0x236000), 0xF0);
    assert_eq!(bus.read16(0x236004), 0x0F);
    bus.write16(0x236000, 0);
    assert_eq!(bus.read16(0x236000), 0x5A);
    assert_eq!(bus.read8(0x236001), 0x5A);
    assert_eq!(bus.read16(0x200002), 0);
}

#[test]
fn overlay_device_switches_two_words() {
    let mut bus = NeoGeoBus::new();
    bus.prot = CartProt::Kof98(Kof98Prot { overlay: false, plain: (0x1234, 0x5678) });
    assert_eq!(bus.read16(0x100), 0x1234);
    bus.write16(0x20AAAA, 0x0090);
    assert_eq!(bus.read16(0x100), 0x00C2);
    assert_eq!(bus.read16(0x102), 0x00FD);
    bus.write16(0x20AAAA, 0x00AA);
    assert_eq!(bus.read16(0x100), 0x00C2);
    bus.write16(0x20AAAA, 0x00F0);
    assert_eq!(bus.read16(0x102), 0x5678);
}

#[test]
fn bit_stream_device_moves_once_a_word() {
    let mut bus = NeoGeoBus::new();
    let mut rom = vec![0u8; 0x100000];
    rom[0xDEDD3] = 0b1010_0000;
    bus.load_p_rom(rom);
    bus.prot = CartProt::MslugX(MslugXProt { command: 0, counter: 5 });
    bus.write16(0x2FFFEA, 0);
    bus.write16(0x2FFFE2, 1);
    assert_eq!(bus.read16(0x2FFFE0), 1);
    assert_eq!(bus.read16(0x2FFFE0), 0);
    assert_eq!(bus.read16(0x2FFFE0), 1);
    bus.write16(0x2FFFE0, 0);
    bus.write16(0x2FFFE4, 0x0FFF);
    bus.write16(0x10F00A, 3);
    assert_eq!(bus.read16(0x2FFFE0), 1);
    bus.write16(0x10F00A, 2);
    assert_eq!(bus.read16(0x2FFFE0), 0);
}

#[test]
fn scrambled_bank_register_and_random_numbers() {
    let mut bus = NeoGeoBus::new();
    bus.prot = CartProt::Sma(SmaProt {
        game: SmaGame::Kof99,
        rng: 0x2345,
        bits: vec![14, 0],
        offsets: vec![0, 0x111, 0x222, 0x333],
    });
    assert_eq!(bus.read16(0x2FE446), 0x9A37);
    assert_eq!(bus.read16(0x2FFFF8), 0x2345);
    assert_eq!(bus.read16(0x2FFFFA), next_random(0x2345));
    assert_eq!(next_random(0x2345), 0x468A | (next_random(0x2345) & 1));
    bus.write16(0x2FFFF0, 0x4000);
    assert_eq!(bus.p_rom_bank_offset, 0x100222);
    bus.write16(0x2FFFF0, 0x4001);
    assert_eq!(bus.p_rom_bank_offset, 0x100333);
}

#[test]
fn colour_device_packs_and_sets_banks() {
    let mut bus = NeoGeoBus::new();
    bus.prot = CartProt::Pvc(PvcProt { ram: vec![0; 0x1000] });
    bus.write16(0x2FFFE0, 0x7ABC);
    assert_eq!(bus.read16(0x2FFFE2), unpacked_gb(0x7ABC));
    assert_eq!(bus.read16(0x2FFFE4), unpacked_sr(0x7ABC));
    bus.write16(0x2FFFE8, unpacked_gb(0x7ABC));
    bus.write16(0x2FFFEA, unpacked_sr(0x7ABC));
    assert_eq!(bus.read16(0x2FFFEC), 0x7ABC);
    assert_eq!(packed_color(unpacked_gb(0xFFFF), unpacked_sr(0xFFFF)), 0xFFFF);
    bus.write16(0x2FFFF2, 0x0012);
    bus.write8(0x2FFFF0, 0x34);
    assert_eq!(bus.p_rom_bank_offset, 0x100000 + 0x1234);
    assert_eq!(bus.read16(0x2FFFF0), 0x34A0 & 0xFEFF);
    assert_eq!(combined(0x1234, 0xABCD, 0xFF00), 0xAB34);
}
