use pydmg_neogeo::audio::audio_bus::AudioBus;
use pydmg_neogeo::bus::NeoGeoBus;
use pydmg_neogeo::cpu::m68k;
use pydmg_neogeo::cpu::m68k::arith::{abcd_calc, add_with_flags, sbcd_calc, sub_with_flags};
use pydmg_neogeo::cpu::m68k::exec::execute;
use pydmg_neogeo::cpu::m68k::{Bus, Size};
use pydmg_neogeo::cpu::z80::flags::{parity_table, sz53, sz53p, Flag};
use pydmg_neogeo::cpu::z80::Cpu;

fn sound(program: &[u8]) -> (Cpu, AudioBus) {
    let mut rom = vec![0u8; 0x10000];
    rom[..program.len()].copy_from_slice(program);
    let mut bus = AudioBus::new();
    bus.install_m1(rom);
    let mut cpu = Cpu::new();
    cpu.regs.pc = 0;
    cpu.regs.sp = 0xFFF0;
    (cpu, bus)
}

fn run(cpu: &mut Cpu, bus: &mut AudioBus, steps: usize) -> u32 {
    let mut cycles = 0;
    for _ in 0..steps {
        cycles += cpu.step(bus);
    }
    cycles
}

#[test]
fn flags_of_bytes() {
    assert_eq!(Flag::C.mask(), 0x01);
    assert_eq!(Flag::S.mask(), 0x80);
    let t = parity_table();
    assert_eq!((t[0], t[1], t[3], t[0xFF]), (4, 0, 4, 4));
    assert_eq!(sz53(0), 0x40);
    assert_eq!(sz53(0xA8), 0xA8);
    assert_eq!(sz53p(0x81), 0x84);
}

#[test]
fn decimal_addition_is_adjusted() {
    // LD A,15 / ADD A,27 / DAA
    let (mut cpu, mut bus) = sound(&[0x3E, 0x15, 0xC6, 0x27, 0x27]);
    assert_eq!(run(&mut cpu, &mut bus, 3), 7 + 7 + 4);
    assert_eq!(cpu.regs.a, 0x42);
    // LD A,99 / ADD A,1 / DAA
    let (mut cpu, mut bus) = sound(&[0x3E, 0x99, 0xC6, 0x01, 0x27]);
    run(&mut cpu, &mut bus, 3);
    assert_eq!(cpu.regs.a, 0x00);
    assert_eq!(cpu.regs.f & 1, 1);
}

#[test]
fn calls_return() {
    // LD HL,1234 / PUSH HL / POP DE / CALL 0010 ; at 10: LD B,7 / RET
    let mut program = vec![0u8; 0x20];
    program[..8].copy_from_slice(&[0x21, 0x34, 0x12, 0xE5, 0xD1, 0xCD, 0x10, 0x00]);
    program[0x10..0x13].copy_from_slice(&[0x06, 0x07, 0xC9]);
    let (mut cpu, mut bus) = sound(&program);
    assert_eq!(run(&mut cpu, &mut bus, 4), 10 + 11 + 10 + 17);
    assert_eq!(cpu.regs.pc, 0x10);
    assert_eq!(cpu.regs.de(), 0x1234);
    assert_eq!(run(&mut cpu, &mut bus, 2), 7 + 10);
    assert_eq!(cpu.regs.pc, 8);
    assert_eq!(cpu.regs.b, 7);
    assert_eq!(cpu.regs.sp, 0xFFF0);
}

#[test]
fn block_copy_repeats() {
    // LD HL,0000 / LD DE,F800 / LD BC,0003 / LDIR
    let (mut cpu, mut bus) =
        sound(&[0x21, 0, 0, 0x11, 0, 0xF8, 0x01, 3, 0, 0xED, 0xB0]);
    run(&mut cpu, &mut bus, 3);
    assert_eq!(run(&mut cpu, &mut bus, 3), 21 + 21 + 16);
    assert_eq!(bus.ram[..3], [0x21, 0, 0]);
    assert_eq!(cpu.regs.bc(), 0);
    assert_eq!(cpu.regs.pc, 11);
}

#[test]
fn only_the_last_prefix_counts() {
    // DD FD LD IY,1234
    let (mut cpu, mut bus) = sound(&[0xDD, 0xFD, 0x21, 0x34, 0x12]);
    run(&mut cpu, &mut bus, 1);
    assert_eq!(cpu.regs.iy, 0x1234);
    assert_ne!(cpu.regs.ix, 0x1234);
    assert_eq!(cpu.regs.pc, 5);
}

#[test]
fn exchanges_swap_and_swap_back() {
    let (mut cpu, mut bus) = sound(&[0xEB, 0xEB, 0xD9, 0xD9, 0x08, 0x08]);
    cpu.regs.set_de(0x1111);
    cpu.regs.set_hl(0x2222);
    run(&mut cpu, &mut bus, 1);
    assert_eq!((cpu.regs.de(), cpu.regs.hl()), (0x2222, 0x1111));
    run(&mut cpu, &mut bus, 5);
    assert_eq!((cpu.regs.de(), cpu.regs.hl()), (0x1111, 0x2222));
}

#[test]
fn interrupts_come_in_order() {
    let (mut cpu, mut bus) = sound(&[0xFB, 0x00, 0x00, 0x76]);
    cpu.regs.im = 1;
    cpu.set_irq(0xFF);
    run(&mut cpu, &mut bus, 1);
    assert_eq!(cpu.regs.pc, 1);
    run(&mut cpu, &mut bus, 1);
    assert_eq!(cpu.regs.pc, 2);
    cpu.request_nmi();
    assert_eq!(run(&mut cpu, &mut bus, 1), 11);
    assert_eq!(cpu.regs.pc, 0x66);
    assert!(cpu.regs.iff2);
    assert!(!cpu.regs.iff1);
}

#[test]
fn rotations_and_bits() {
    // LD A,81 / RLCA ; CB: RRC A ; BIT 7,A ; SET 0,A
    let (mut cpu, mut bus) = sound(&[0x3E, 0x81, 0x07, 0xCB, 0x0F, 0xCB, 0x7F, 0xCB, 0xC7]);
    run(&mut cpu, &mut bus, 2);
    assert_eq!(cpu.regs.a, 0x03);
    run(&mut cpu, &mut bus, 1);
    assert_eq!(cpu.regs.a, 0x81);
    assert_eq!(run(&mut cpu, &mut bus, 1), 8);
    assert_eq!(cpu.regs.f & 0x40, 0);
    run(&mut cpu, &mut bus, 1);
    assert_eq!(cpu.regs.a, 0x81);
}

fn machine() -> (m68k::Cpu, NeoGeoBus) {
    let mut cpu = m68k::Cpu::new();
    cpu.pc = 0x100002;
    cpu.instr_pc = 0x100000;
    cpu.a[7] = 0x10F000;
    (cpu, NeoGeoBus::new())
}

#[test]
fn additions_set_the_flags() {
    let (mut cpu, _) = machine();
    assert_eq!(add_with_flags(&mut cpu, 0x7F, 1, Size::Byte, true), 0x80);
    assert_eq!(cpu.sr.0 & 0x1F, 0x0A);
    assert_eq!(add_with_flags(&mut cpu, 0xFFFF_FFFF, 1, Size::Long, true), 0);
    assert_eq!(cpu.sr.0 & 0x1F, 0x15);
    assert_eq!(sub_with_flags(&mut cpu, 0, 1, Size::Word, false), 0xFFFF);
    assert_eq!(cpu.sr.0 & 0x0F, 0x09);
}

#[test]
fn decimal_arithmetic() {
    assert_eq!(abcd_calc(0x15, 0x27, 0).0, 0x42);
    let r = abcd_calc(0x99, 0x01, 0);
    assert_eq!((r.0, r.1), (0x00, true));
    assert_eq!(abcd_calc(0x09, 0x00, 1).0, 0x10);
    let s = sbcd_calc(0x10, 0x01, 0);
    assert_eq!((s.0, s.1), (0x09, false));
    let s = sbcd_calc(0x00, 0x01, 0);
    assert_eq!((s.0, s.1), (0x99, true));
}

#[test]
fn moveq_sign_extends() {
    let (mut cpu, mut bus) = machine();
    assert_eq!(execute(&mut cpu, &mut bus, 0x70FF), 4);
    assert_eq!(cpu.d[0], 0xFFFF_FFFF);
    assert_eq!(cpu.sr.0 & 0x0F, 0x08);
}

#[test]
fn moves_reach_memory() {
    let (mut cpu, mut bus) = machine();
    cpu.d[1] = 0x1234_5678;
    cpu.a[0] = 0x100100;
    // MOVE.L D1,(A0)+
    execute(&mut cpu, &mut bus, 0x20C1);
    assert_eq!(bus.read16(0x100100), 0x1234);
    assert_eq!(bus.read16(0x100102), 0x5678);
    assert_eq!(cpu.a[0], 0x100104);
    // MOVE.W -(A0),D2
    execute(&mut cpu, &mut bus, 0x3420);
    assert_eq!(cpu.d[2], 0x5678);
    assert_eq!(cpu.a[0], 0x100102);
}

#[test]
fn odd_addresses_fault() {
    let (mut cpu, mut bus) = machine();
    cpu.a[0] = 0x100101;
    // MOVE.W (A0),D0
    execute(&mut cpu, &mut bus, 0x3010);
    let info = cpu.address_error.expect("address error");
    assert_eq!(info.access_addr, 0x100101);
    assert!(info.read);
}

#[test]
fn additions_undo_subtractions() {
    let (mut cpu, mut bus) = machine();
    cpu.d[0] = 0x1111_2222;
    cpu.d[1] = 0xFEDC_BA98;
    // SUB.L D1,D0 / ADD.L D1,D0
    execute(&mut cpu, &mut bus, 0x9081);
    execute(&mut cpu, &mut bus, 0xD081);
    assert_eq!(cpu.d[0], 0x1111_2222);
}

#[test]
fn division_by_zero_traps() {
    let (mut cpu, mut bus) = machine();
    bus.load_p_rom(vec![0; 0x200]);
    cpu.d[1] = 0;
    // DIVU D1,D0
    execute(&mut cpu, &mut bus, 0x80C1);
    assert_eq!(cpu.a[7], 0x10F000 - 6);
    // MULU D1,D0
    let (mut cpu, mut bus) = machine();
    cpu.d[0] = 0xFFFF;
    cpu.d[1] = 0xFFFF;
    execute(&mut cpu, &mut bus, 0xC0C1);
    assert_eq!(cpu.d[0], 0xFFFE_0001);
    // DIVU D1,D0
    execute(&mut cpu, &mut bus, 0x80C1);
    assert_eq!(cpu.d[0], 0x0000_FFFF);
}

#[test]
fn many_registers_move_at_once() {
    let (mut cpu, mut bus) = machine();
    cpu.d[0] = 0x11;
    cpu.d[7] = 0x77;
    cpu.a[1] = 0xA1;
    // MOVEM.L D0/D7/A1,-(A7): the mask follows the opcode.
    bus.write16(0x100002, 0x8140);
    execute(&mut cpu, &mut bus, 0x48E7);
    assert_eq!(cpu.a[7], 0x10F000 - 12);
    assert_eq!(cpu.pc, 0x100004);
    cpu.d[0] = 0;
    cpu.d[7] = 0;
    cpu.a[1] = 0;
    // MOVEM.L (A7)+,D0/D7/A1
    bus.write16(0x100004, 0x0281);
    execute(&mut cpu, &mut bus, 0x4CDF);
    assert_eq!((cpu.d[0], cpu.d[7], cpu.a[1], cpu.a[7]), (0x11, 0x77, 0xA1, 0x10F000));
}

#[test]
fn shifts_and_rotations() {
    let (mut cpu, mut bus) = machine();
    cpu.d[0] = 0x8000_0001;
    // ROL.L #1,D0
    execute(&mut cpu, &mut bus, 0xE398);
    assert_eq!(cpu.d[0], 0x0000_0003);
    // ROR.L #1,D0
    execute(&mut cpu, &mut bus, 0xE298);
    assert_eq!(cpu.d[0], 0x8000_0001);
    // ASR.L #1,D0
    execute(&mut cpu, &mut bus, 0xE280);
    assert_eq!(cpu.d[0], 0xC000_0000);
    assert_eq!(cpu.sr.0 & 0x11, 0x11);
}
