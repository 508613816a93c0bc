use pydmg_neogeo::audio::audio_bus::{AudioBus, AudioBusRef};
use pydmg_neogeo::audio::sound_cpu::step_sound_cpu;
use pydmg_neogeo::cpu::z80::{Cpu, Z80Bus};

#[test]
fn initial_audio_bank_entries_match_mame_bootstrap() {
    let bus = AudioBus::new();
    assert_eq!(bus.bank_sel, [0x1E, 0x0E, 0x06, 0x02]);
}

#[test]
fn bank_base_for_matches_fbneo_masks_and_shifts() {
    let mut bus = AudioBus::new();
    bus.m1_rom = vec![0; 0x20000];
    bus.bank_sel = [0x7F, 0x3F, 0x1F, 0x0F];

    assert_eq!(bus.bank_base_for(0), 0x3F800 & (bus.m1_rom.len() - 1));
    assert_eq!(bus.bank_base_for(1), 0x3F000 & (bus.m1_rom.len() - 1));
    assert_eq!(bus.bank_base_for(2), 0x3E000 & (bus.m1_rom.len() - 1));
    assert_eq!(bus.bank_base_for(3), 0x3C000 & (bus.m1_rom.len() - 1));
}

#[test]
fn sound_ram_reads_back_and_rom_does_not_change() {
    let mut bus = AudioBus::new();
    bus.install_m1(vec![0x11; 0x20000]);
    bus.mem_write(0xF800, 0xAB);
    bus.mem_write(0x1234, 0xCD);
    assert_eq!(bus.mem_read(0xF800), 0xAB);
    assert_eq!(bus.mem_read(0x1234), 0x11);
}

#[test]
fn windows_look_at_their_banks() {
    let mut rom = vec![0u8; 0x40000];
    for (i, b) in rom.iter_mut().enumerate() {
        *b = (i / 0x800) as u8;
    }
    let mut bus = AudioBus::new();
    bus.install_m1(rom);
    assert_eq!(bus.io_read(0x0508), 0);
    assert_eq!(bus.io_read(0x0309), 0);
    assert_eq!(bus.io_read(0x020A), 0);
    assert_eq!(bus.io_read(0x010B), 0);
    assert_eq!(bus.mem_read(0xF000), 5);
    assert_eq!(bus.mem_read(0xE000), 6);
    assert_eq!(bus.mem_read(0xC000), 8);
    assert_eq!(bus.mem_read(0x8000), 8);
    assert_eq!(bus.mem_read(0x8800), 9);
}

#[test]
fn built_in_program_shows_only_without_cartridge_sound() {
    let mut bus = AudioBus::new();
    bus.install_m1(vec![1; 0x10000]);
    assert_eq!(bus.mem_read(0), 1);
    bus.use_cart_audio = false;
    assert_eq!(bus.mem_read(0), 1);
    bus.install_sm1(vec![2; 0x100]);
    assert_eq!(bus.mem_read(0), 2);
    assert_eq!(bus.mem_read(0x200), 0xFF);
}

#[test]
fn reading_the_command_takes_it() {
    let mut bus = AudioBus::new();
    bus.soundlatch = 0x42;
    bus.soundlatch_pending = true;
    bus.nmi_asserted = true;
    let mut lent = AudioBusRef { bus: &mut bus };
    assert_eq!(lent.io_read(0x0000), 0x42);
    lent.io_write(0x000C, 0x99);
    lent.io_write(0x0008, 0);
    assert!(!bus.soundlatch_pending);
    assert!(!bus.nmi_asserted);
    assert!(bus.nmi_enable);
    assert_eq!(bus.soundlatch2, 0x99);
    bus.io_write(0x0018, 0);
    assert!(!bus.nmi_enable);
    assert_eq!(bus.io_read(0x00FF), 0xFF);
}

#[test]
fn sound_program_runs_on_its_bus() {
    // LD A,5 / OUT (0C),A / HALT
    let mut bus = AudioBus::new();
    let mut rom = vec![0u8; 0x10000];
    rom[..5].copy_from_slice(&[0x3E, 0x05, 0xD3, 0x0C, 0x76]);
    bus.install_m1(rom);
    let mut cpu = Cpu::new();
    cpu.regs.pc = 0;
    assert_eq!(step_sound_cpu(&mut cpu, &mut bus), Some(7));
    assert_eq!(step_sound_cpu(&mut cpu, &mut bus), Some(11));
    assert_eq!(bus.soundlatch2, 5);
    assert_eq!(step_sound_cpu(&mut cpu, &mut bus), Some(4));
    assert!(cpu.regs.halted);
    assert_eq!(step_sound_cpu(&mut cpu, &mut bus), Some(4));
}

#[test]
fn memory_of_prefixes_alone_does_not_step() {
    let mut bus = AudioBus::new();
    bus.install_m1(vec![0xDD; 0x10000]);
    for a in 0xF800..=0xFFFFu16 {
        bus.mem_write(a, 0xFD);
    }
    let mut cpu = Cpu::new();
    assert_eq!(step_sound_cpu(&mut cpu, &mut bus), None);
}
