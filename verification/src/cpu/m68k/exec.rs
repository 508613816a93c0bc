//! Instruction dispatch.
use vstd::prelude::*;
use crate::bits::same;
use crate::cpu::m68k::bitwise::{
    bit_immediate, bit_immediate_spec, shift_rotate, shift_rotate_spec,
};
use crate::cpu::m68k::branch::{
    addq_subq, addq_subq_spec, branch_family, branch_family_spec,
};
use crate::cpu::m68k::bus::Bus;
use crate::cpu::m68k::cpu::{abort_spec, mach, Cpu, Exception, Mach, Size};
use crate::cpu::m68k::dual::{
    add_addx, and_mul_abcd, and_mul_abcd_spec, cmp_eor, cmp_eor_spec, or_div_sbcd,
    or_div_sbcd_spec, sub_subx, sum_family_spec,
};
use crate::cpu::m68k::misc::{misc_family, misc_family_spec};
use crate::cpu::m68k::transfer::{move_family, move_family_spec, moveq, moveq_spec};

verus! {

/// The instruction `op`, by the line that its top four bits name. Lines A and F
/// trap.
pub open spec fn execute_spec<B: Bus>(m: Mach<B::St>, op: u16) -> (Mach<B::St>, u32) {
    match (op >> 12) & 0xF {
        0x0 => bit_immediate_spec::<B>(m, op),
        0x1 => move_family_spec::<B>(m, op, Size::Byte),
        0x2 => move_family_spec::<B>(m, op, Size::Long),
        0x3 => move_family_spec::<B>(m, op, Size::Word),
        0x4 => misc_family_spec::<B>(m, op),
        0x5 => addq_subq_spec::<B>(m, op),
        0x6 => branch_family_spec::<B>(m, op),
        0x7 => (m.with_c(moveq_spec(m.c, op)), 4),
        0x8 => or_div_sbcd_spec::<B>(m, op),
        0x9 => sum_family_spec::<B>(m, op, true),
        0xA => (abort_spec::<B>(m, Exception::LineA), 34),
        0xB => cmp_eor_spec::<B>(m, op),
        0xC => and_mul_abcd_spec::<B>(m, op),
        0xD => sum_family_spec::<B>(m, op, false),
        0xE => shift_rotate_spec::<B>(m, op),
        _ => (abort_spec::<B>(m, Exception::LineF), 34),
    }
}

/// Execute the instruction `op`, which has been fetched: PC stands after it, and
/// `instr_pc` on it. Returns the clock cycles spent.
pub fn execute<B: Bus>(cpu: &mut Cpu, bus: &mut B, op: u16) -> (cycles: u32)
    requires
        B::wf(old(bus).st()),
    ensures
        B::wf(final(bus).st()),
        same(
            (mach(*final(cpu), *final(bus)), cycles),
            execute_spec::<B>(mach(*old(cpu), *old(bus)), op),
        ),
{
    match (op >> 12) & 0xF {
        0x0 => bit_immediate(cpu, bus, op),
        0x1 => move_family(cpu, bus, op, Size::Byte),
        0x2 => move_family(cpu, bus, op, Size::Long),
        0x3 => move_family(cpu, bus, op, Size::Word),
        0x4 => misc_family(cpu, bus, op),
        0x5 => addq_subq(cpu, bus, op),
        0x6 => branch_family(cpu, bus, op),
        0x7 => moveq(cpu, op),
        0x8 => or_div_sbcd(cpu, bus, op),
        0x9 => sub_subx(cpu, bus, op),
        0xA => {
            cpu.abort(bus, Exception::LineA);
            34
        }
        0xB => cmp_eor(cpu, bus, op),
        0xC => and_mul_abcd(cpu, bus, op),
        0xD => add_addx(cpu, bus, op),
        0xE => shift_rotate(cpu, bus, op),
        _ => {
            cpu.abort(bus, Exception::LineF);
            34
        }
    }
}

}
