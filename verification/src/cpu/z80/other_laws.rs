//! The rest of the plain opcodes: flags by themselves, memory at HL, input and
//! output, and what the index pages work on.
use vstd::prelude::*;
use crate::cpu::z80::alu::{dec8_flags, inc8_flags};
use crate::cpu::z80::alu_laws::{combined, copied, flags_of, one_flag, rotated_in_numbers};
use crate::cpu::z80::bus::Z80Bus;
use crate::cpu::z80::cpu::{Cpu, Regs};
use crate::cpu::z80::flags::{FC, FP, FS, FX, FY, FZ};
use crate::cpu::z80::index::{idx_addr_spec, idx_mem_spec, plain_spec};
use crate::cpu::z80::instruction_laws::{
    displacements, fields, hl, joined, operands, register, words,
};
use crate::cpu::z80::main_page::{rot_a_spec, scf_spec};
use crate::cpu::z80::prefixed::ed_low_spec;

verus! {

/// RLCA, RRCA, RLA and RRA rotate A by one: to the left it is doubled, to the
/// right halved, and the bit that goes out, or C, comes in. C is the bit that went
/// out, H and N are clear, S, Z and P stay.
#[verifier::rlimit(40)]
pub proof fn accumulator_rotations(c: Cpu, k: u8)
    requires
        k < 4,
    ensures
        ({
            let d = rot_a_spec(c, k);
            let v = c.regs.a;
            let left = k % 2 == 0;
            let out = if left { v as int / 128 } else { v as int % 2 };
            let fill = if k < 2 {
                out
            } else if flags_of(c.regs.f).c {
                1
            } else {
                0
            };
            let (f, g) = (flags_of(c.regs.f), flags_of(d.regs.f));
            &&& d.regs.a == (if left { 2 * v - 256 * (v / 128) + fill } else {
                v as int / 2 + 128 * fill
            })
            &&& g.c == (out == 1)
            &&& !g.h && !g.n && g.s == f.s && g.z == f.z && g.p == f.p
            &&& d == c.with_regs(
                Regs { a: d.regs.a, f: d.regs.f, f_was_written: true, ..c.regs },
            )
        }),
{
    reveal(rot_a_spec);
    rotated_in_numbers(c.regs.f, k, c.regs.a);
    let (r, out) = crate::cpu::z80::alu::rot_result(c.regs.f, k, c.regs.a);
    copied(c.regs.f);
    copied(r);
    one_flag(1);
    let kept = c.regs.f & (FS | FZ | FP);
    combined(kept, out);
    combined(kept | out, r & (FY | FX));
}

/// SCF sets C, clears H and N, and leaves S, Z and P.
pub proof fn carry_is_set(c: Cpu)
    ensures
        ({
            let (f, g) = (flags_of(c.regs.f), flags_of(scf_spec(c).regs.f));
            &&& g.c && !g.h && !g.n && g.s == f.s && g.z == f.z && g.p == f.p
            &&& scf_spec(c).regs.a == c.regs.a
        }),
{
    reveal(scf_spec);
    copied(c.regs.f);
    let yx = crate::cpu::z80::main_page::stale_yx(c);
    copied(c.regs.a);
    copied(c.regs.a | c.regs.f);
    one_flag(FC);
    let kept = c.regs.f & (FS | FZ | FP);
    combined(kept, FC);
    combined(kept | FC, yx);
}

/// The byte at HL is stepped up and down, and loaded, in place: 34, 35 and 36.
pub proof fn memory_is_changed_in_place<B: Z80Bus>(c: Cpu, s: B::St)
    ensures
        ({
            let a = hl(c);
            let v = B::read_val(s, a);
            let s1 = B::read_next(s, a);
            let pc = c.regs.pc;
            &&& plain_spec::<B>(c, s, 0x34) == (
                c.with_f(inc8_flags(c.regs.f, v)),
                B::write_next(s1, a, (if v == 255 { 0 } else { v + 1 }) as u8),
                11u32,
            )
            &&& plain_spec::<B>(c, s, 0x35) == (
                c.with_f(dec8_flags(c.regs.f, v)),
                B::write_next(s1, a, (if v == 0 { 255 } else { v - 1 }) as u8),
                11u32,
            )
            &&& plain_spec::<B>(c, s, 0x36) == (
                c.with_pc(pc.wrapping_add(1)),
                B::write_next(B::read_next(s, pc), a, B::read_val(s, pc)),
                10u32,
            )
        }),
{
    words(c.regs.h, c.regs.l, 0);
}

/// JP (HL), LD SP,HL and EX (SP),HL; the interrupt switches and HALT.
pub proof fn control_opcodes<B: Z80Bus>(c: Cpu, s: B::St)
    ensures
        plain_spec::<B>(c, s, 0xE9) == (c.with_pc(hl(c)), s, 4u32),
        plain_spec::<B>(c, s, 0xF9) == (c.with_sp(hl(c)), s, 6u32),
        plain_spec::<B>(c, s, 0x00) == (c, s, 4u32),
        plain_spec::<B>(c, s, 0x76) == (c.with_regs(Regs { halted: true, ..c.regs }), s, 4u32),
        plain_spec::<B>(c, s, 0xF3) == (
            c.with_regs(Regs { iff1: false, iff2: false, ..c.regs }),
            s,
            4u32,
        ),
        ({
            let (d, t, _) = plain_spec::<B>(c, s, 0xFB);
            d.regs.iff1 && d.regs.iff2 && d.ei_delay && t == s
        }),
        ({
            let (d, t, cycles) = plain_spec::<B>(c, s, 0xE3);
            let (sp, up) = (c.regs.sp, c.regs.sp.wrapping_add(1));
            let s1 = B::read_next(s, sp);
            let s2 = B::read_next(s1, up);
            &&& d.regs.l == B::read_val(s, sp)
            &&& d.regs.h == B::read_val(s1, up)
            &&& d.regs.sp == sp
            &&& t == B::write_next(B::write_next(s2, sp, c.regs.l), up, c.regs.h)
            &&& cycles == 19
        }),
{
    words(c.regs.h, c.regs.l, 0);
    let (sp, up) = (c.regs.sp, c.regs.sp.wrapping_add(1));
    let s1 = B::read_next(s, sp);
    crate::cpu::z80::cpu::word_halves(0, B::read_val(s1, up), B::read_val(s, sp));
}

/// Input and output: the port is A above the byte after the opcode for D3 and DB,
/// and BC behind ED for the registers that bits 3 to 5 name.
#[verifier::rlimit(40)]
pub proof fn ports_are_read_and_written<B: Z80Bus>(c: Cpu, s: B::St, op: u8)
    requires
        0x40 <= op < 0x80,
        op % 8 < 2,
        op / 8 != 14,
    ensures
        ({
            let pc = c.regs.pc;
            let s1 = B::read_next(s, pc);
            let port = joined(c.regs.a, B::read_val(s, pc));
            let (d, t, _) = plain_spec::<B>(c, s, 0xD3);
            let (e, u, _) = plain_spec::<B>(c, s, 0xDB);
            &&& t == B::out_next(s1, port, c.regs.a) && d.regs.a == c.regs.a
            &&& u == B::in_next(s1, port) && e.regs.a == B::in_val(s1, port)
            &&& d.regs.pc == pc.wrapping_add(1) && e.regs.pc == pc.wrapping_add(1)
        }),
        ({
            let k = (op as int / 8) % 8;
            let port = joined(c.regs.b, c.regs.c);
            let (d, t, cycles) = ed_low_spec::<B>(c, s, op);
            &&& cycles == 12
            &&& op % 8 == 1 ==> t == B::out_next(s, port, register(c, k))
            &&& op % 8 == 0 ==> t == B::in_next(s, port) && register(d, k) == B::in_val(s, port)
        }),
{
    fields(op);
    let k = ((op / 8) % 8) as u8;
    words(c.regs.a, B::read_val(s, c.regs.pc), 0);
    words(c.regs.b, c.regs.c, 0);
    operands::<B>(c, s, k, B::in_val(s, joined(c.regs.b, c.regs.c)));
}

/// On the index pages an operand in memory is at the index register plus a signed
/// byte.
#[verifier::rlimit(40)]
pub proof fn indexed_operands_are_a_signed_byte_away<B: Z80Bus>(c: Cpu, s: B::St, ix: bool)
    ensures
        ({
            let pc = c.regs.pc;
            let e = B::read_val(s, pc);
            let base = if ix { c.regs.ix } else { c.regs.iy };
            let at = ((base + (if e >= 128 { e - 256 } else { e as int })) % 0x1_0000) as u16;
            let (d, t, a) = idx_addr_spec::<B>(c, s, ix);
            let s1 = B::read_next(s, pc);
            let (f, u, cycles) = idx_mem_spec::<B>(c, s, 0x7E, ix);
            let (g, v, more) = idx_mem_spec::<B>(c, s, 0x77, ix);
            &&& a == at && t == s1 && d.regs.pc == pc.wrapping_add(1)
            &&& f.regs.a == B::read_val(s1, at) && u == B::read_next(s1, at) && cycles == 19
            &&& v == B::write_next(s1, at, c.regs.a) && more == 19
        }),
{
    displacements(if ix { c.regs.ix } else { c.regs.iy }, B::read_val(s, c.regs.pc));
    fields(0x7E);
    fields(0x77);
    crate::bits::low_bits(7);
}

}
