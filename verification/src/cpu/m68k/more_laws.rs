//! Immediate operands, address registers, set on condition, and what operands
//! cost.
use vstd::prelude::*;
use crate::cpu::m68k::bitwise::{immediate_family_spec, immediate_rmw, immediate_spec};
use crate::cpu::m68k::branch::scc_spec;
use crate::cpu::m68k::bus::Bus;
use crate::cpu::m68k::ccr::codes;
use crate::cpu::m68k::cpu::{push32_spec, CpuState, Mach, Size};
use crate::cpu::m68k::dual::sum_family_spec;
use crate::cpu::m68k::ea::Ea;
use crate::cpu::m68k::exec::execute_spec;
use crate::cpu::m68k::flow_laws::stack_holds_long_words;
use crate::cpu::m68k::instruction_laws::{
    branch_decodes, fields, low_part, merged_is_replaced, offsets_are_signed, register_operand,
    replaced, same_numbers,
};
use crate::cpu::m68k::misc::{address_spec, Misc};
use crate::cpu::m68k::operand_laws::register_modified;
use crate::cpu::m68k::operation_laws::{
    addition_adds, holds, logic_is_bit_by_bit, number, signed_number, span, subtraction_subtracts,
};
use crate::cpu::m68k::rmw::{rmw_spec, Rmw};

verus! {

/// What fetching and reading an operand adds to the cycles of an instruction:
/// nothing for registers; more for displacements and indexes; four more for long
/// words.
pub proof fn operands_cost_cycles(n: usize, d: u32, ext: u16, size: Size)
    ensures
        ({
            let more = if size == Size::Long { 4int } else { 0 };
            &&& Ea::DataReg(n).cycles(size) == 0
            &&& Ea::AddrReg(n).cycles(size) == 0
            &&& Ea::AddrInd(n).cycles(size) == 4 + more
            &&& Ea::PostInc(n).cycles(size) == 4 + more
            &&& Ea::PreDec(n).cycles(size) == 6 + more
            &&& Ea::AddrDisp(n, d).cycles(size) == 8 + more
            &&& Ea::AddrIdx(n, ext).cycles(size) == 10 + more
            &&& Ea::Absolute(d).cycles(size) == 8 + more
            &&& Ea::PcIndDisp(d).cycles(size) == 8 + more
            &&& Ea::PcIndIdx(d, ext).cycles(size) == 10 + more
            &&& Ea::Immediate(d).cycles(size) == 4 + more
        }),
{
}

/// An immediate operand follows the opcode: a byte in the low half of a word, a
/// word, or two words, the high one first.
pub proof fn immediates_follow_the_opcode<B: Bus>(m: Mach<B::St>, size: Size)
    ensures
        ({
            let (m1, v) = immediate_spec::<B>(m, size);
            let pc = m.c.pc;
            let next = pc.wrapping_add(2);
            let w = B::read16_val(m.s, pc);
            let x = B::read16_val(B::read16_next(m.s, pc), next);
            &&& size == Size::Byte ==> v == w % 256
            &&& size == Size::Word ==> v == w
            &&& size == Size::Long ==> v == 0x1_0000 * w + x
            &&& m1.c.pc == (if size == Size::Long { next.wrapping_add(2) } else { next })
            &&& m1.c == (CpuState { pc: m1.c.pc, au: m1.c.au, ..m.c })
            &&& v < span(size)
        }),
{
    let pc = m.c.pc;
    let next = pc.wrapping_add(2);
    let w = B::read16_val(m.s, pc);
    crate::bits::low_bits(w as u32);
    crate::bits::long_word_bits(0, 0, w, B::read16_val(B::read16_next(m.s, pc), next));
}

/// ORI, ANDI, SUBI, ADDI and EORI to a data register, by bits 8 to 11 of the
/// opcode: the low part becomes the result.
#[verifier::rlimit(60)]
pub proof fn immediates_change_registers<B: Bus>(m: Mach<B::St>, op: u16, size: Size)
    requires
        m.c.d.len() == 8,
        (op / 8) % 8 == 0,
        ({
            let k = (op / 256) % 16;
            k == 0 || k == 2 || k == 4 || k == 6 || k == 10
        }),
    ensures
        ({
            let (m1, x) = immediate_spec::<B>(m, size);
            let (m2, _) = immediate_family_spec::<B>(m, op, size);
            let (n, k) = (op as int % 8, (op as int / 256) % 16);
            let d = m.c.d[n];
            let v = number(d, size) as u32;
            let r = if k == 0 {
                number(v | x, size)
            } else if k == 2 {
                number(v & x, size)
            } else if k == 4 {
                (v - x) % span(size)
            } else if k == 6 {
                (v + x) % span(size)
            } else {
                number(v ^ x, size)
            };
            &&& m2.s == m1.s
            &&& m2.c == m1.c.with_sr(m2.c.sr).with_d(n, replaced(d, r, size) as u32)
            &&& codes(m2.c.sr).z == (r == 0)
            &&& codes(m2.c.sr).n == (r >= span(size) / 2)
            &&& k == 4 ==> codes(m2.c.sr).c == (v < x) && codes(m2.c.sr).x == (v < x)
            &&& k == 6 ==> codes(m2.c.sr).c == (v + x >= span(size))
            &&& k != 4 && k != 6 ==> !codes(m2.c.sr).c && !codes(m2.c.sr).v
                && codes(m2.c.sr).x == codes(m.c.sr).x
        }),
{
    let (m1, x) = immediate_spec::<B>(m, size);
    immediates_follow_the_opcode::<B>(m, size);
    let (n, k) = (op as int % 8, (op as int / 256) % 16);
    let d = m.c.d[n];
    let v = number(d, size) as u32;
    crate::bits::opcode_bits(op);
    fields(op);
    register_operand::<B>(m1, op, size);
    low_part(d, size);
    let rmw = immediate_rmw(op, x)->0;
    register_modified_at::<B>(m1, n, size, rmw);
    small_numbers(v, size);
    small_numbers(x, size);
    let r = rmw_spec(rmw, m1.c.sr, size, v).1;
    if k == 4 {
        reveal(rmw_spec);
        subtraction_subtracts(m1.c.sr, v, x, size, true);
    } else if k == 6 {
        reveal(rmw_spec);
        addition_adds(m1.c.sr, v, x, size, true);
    } else {
        logic_is_bit_by_bit(m1.c.sr, size, v, x);
        low_part(v | x, size);
        low_part(v & x, size);
        low_part(v ^ x, size);
    }
    merged_is_replaced(d, r, size);
}

proof fn small_numbers(v: u32, size: Size)
    requires
        v < span(size),
    ensures
        number(v, size) == v,
{
    vstd::arithmetic::div_mod::lemma_small_mod(v as nat, span(size) as nat);
}

/// The operand at a data register, replaced, whatever a fault would report.
proof fn register_modified_at<B: Bus>(m: Mach<B::St>, n: int, size: Size, op: Rmw)
    requires
        0 <= n < 8,
    ensures
        forall|au: Option<u32>|
            #[trigger] Ea::DataReg(n as usize).modify_spec::<B>(m, size, op, au)
                == Ea::DataReg(n as usize).modify_spec::<B>(m, size, op, None),
        ({
            let v = number(m.c.d[n], size) as u32;
            let (sr, r) = rmw_spec(op, m.c.sr, size, v);
            Ea::DataReg(n as usize).modify_spec::<B>(m, size, op, None) == m.with_c(
                m.c.with_sr(sr).with_d(n, crate::cpu::m68k::ea::merged(m.c.d[n], r, size)),
            )
        }),
{
    register_modified::<B>(m, n, size, op);
    reveal(Ea::modify_spec);
}

/// ADDA and SUBA with a data register: the whole address register changes, by the
/// long word or the signed low word; the flags stay.
#[verifier::rlimit(60)]
pub proof fn address_registers_take_signed_words<B: Bus>(m: Mach<B::St>, op: u16, sub: bool)
    requires
        m.c.d.len() == 8,
        m.c.a.len() == 8,
        m.c.fault is None,
        (op / 8) % 8 == 0,
        (op / 64) % 8 == 3 || (op / 64) % 8 == 7,
    ensures
        ({
            let (m1, cycles) = sum_family_spec::<B>(m, op, sub);
            let (k, n) = (op as int % 8, (op as int / 512) % 8);
            let x = if (op / 64) % 8 == 3 {
                signed_number(m.c.d[k], Size::Word)
            } else {
                m.c.d[k] as int
            };
            let a = m.c.a[n];
            &&& m1.s == m.s
            &&& m1.c == m.c.with_a(
                n,
                ((if sub { a - x } else { a + x }) % 0x1_0000_0000) as u32,
            )
            &&& cycles == 8
        }),
{
    let k = op as int % 8;
    crate::bits::opcode_bits(op);
    fields(op);
    let size = if (op / 64) % 8 == 3 {
        Size::Word
    } else {
        Size::Long
    };
    register_operand::<B>(m, op, size);
    let d = m.c.d[k];
    crate::bits::sign_bits(d);
    let v = d & size.mask();
    same_numbers(d, size);
    crate::bits::long_word_bits(v, 0, 0, 0);
}

/// LEA through an address register loads the address itself.
pub proof fn lea_loads_addresses<B: Bus>(m: Mach<B::St>, op: u16)
    requires
        m.c.a.len() == 8,
        (op / 8) % 8 == 2,
    ensures
        ({
            let (m1, _) = address_spec::<B>(m, op, Misc::Lea);
            m1 == m.with_c(m.c.with_a((op as int / 512) % 8, m.c.a[op as int % 8]))
        }),
{
    reveal(Ea::decode_spec);
    crate::bits::opcode_bits(op);
    fields(op);
}

/// Scc sets the low byte of a data register to all ones if the condition holds,
/// to zero otherwise; the flags stay.
#[verifier::rlimit(40)]
pub proof fn bytes_are_set_on_condition<B: Bus>(m: Mach<B::St>, op: u16)
    requires
        m.c.d.len() == 8,
        (op / 8) % 8 == 0,
    ensures
        ({
            let (m1, _) = scc_spec::<B>(m, op);
            let n = op as int % 8;
            let v = if holds(m.c.sr, (op as int / 256) % 16) { 255int } else { 0 };
            &&& m1.s == m.s
            &&& m1.c == m.c.with_d(n, replaced(m.c.d[n], v, Size::Byte) as u32)
        }),
{
    let n = op as int % 8;
    crate::bits::opcode_bits(op);
    fields(op);
    register_operand::<B>(m, op, Size::Byte);
    register_modified::<B>(m, n, Size::Byte, Rmw::Put(0xFF));
    register_modified::<B>(m, n, Size::Byte, Rmw::Put(0));
    reveal(rmw_spec);
    merged_is_replaced(m.c.d[n], 0xFF, Size::Byte);
    merged_is_replaced(m.c.d[n], 0, Size::Byte);
    assert(m.c.with_sr(m.c.sr) == m.c);
}

/// BSR by a byte pushes the address after it and goes a signed byte from there.
#[verifier::rlimit(40)]
pub proof fn subroutine_branches<B: Bus>(m: Mach<B::St>, op: u16)
    requires
        m.c.a.len() == 8,
        m.c.fault is None,
        op / 256 == 0x61,
        op % 256 != 0,
        m.c.a[7] % 2 == 0,
    ensures
        ({
            let (m1, cycles) = execute_spec::<B>(m, op);
            let by = if op % 256 >= 128 { op as int % 256 - 256 } else { op as int % 256 };
            let target = (m.c.pc + by) % 0x1_0000_0000;
            let p = push32_spec::<B>(m, m.c.pc);
            &&& cycles == 18
            &&& m1.s == p.s
            &&& target % 2 == 0 ==> m1.c == (CpuState {
                pc: target as u32,
                au: m1.c.au,
                ..p.c
            })
        }),
{
    branch_decodes::<B>(m, op);
    offsets_are_signed(m.c.pc, (op & 0xFF) as u32, 0);
    stack_holds_long_words::<B>(m, m.c.pc);
}

}
