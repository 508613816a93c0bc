//! The stack, subroutines, exceptions, division, and instructions with one
//! operand or an immediate one.
use vstd::prelude::*;
use vstd::arithmetic::power2::pow2;
use crate::cpu::m68k::bitwise::bit_op_spec;
use crate::cpu::m68k::bus::Bus;
use crate::cpu::m68k::ccr::{codes, one_code_is_set, sign_and_zero_are_set, Codes};
use crate::cpu::m68k::cpu::{
    enter_vector_spec, pop32_spec, push32_spec, sr_nz, sr_set, CpuState, Mach, Size, StatusRegister,
};
use crate::cpu::m68k::dual::{divide_spec, divisor_of};
use crate::cpu::m68k::ea::{merged, Ea};
use crate::cpu::m68k::instruction_laws::{
    fields, low_part, merged_is_replaced, offsets_are_signed, register_operand, replaced,
    same_numbers,
};
use crate::cpu::m68k::misc::{address_spec, control_spec, register_spec, unary_spec, Misc};
use crate::cpu::m68k::operand_laws::register_modified;
use crate::cpu::m68k::operation_laws::{
    abs_of, bits_are_tested_then_changed, divisions_are_exact, logic_is_bit_by_bit,
    negation_subtracts_from_zero, number, signed_number, span, subtraction_subtracts,
};
use crate::cpu::m68k::rmw::{rmw_spec, Rmw};

verus! {

/// A long word on the stack: A7 moves down by four, and the high word is written
/// there, the low word above it. A pop reads them and moves A7 up. An odd A7 is an
/// address error.
#[verifier::rlimit(40)]
pub proof fn stack_holds_long_words<B: Bus>(m: Mach<B::St>, v: u32)
    requires
        m.c.a.len() == 8,
        m.c.fault is None,
    ensures
        ({
            let (sp, top) = (m.c.a[7].wrapping_sub(4), m.c.a[7]);
            let p = push32_spec::<B>(m, v);
            let (q, w) = pop32_spec::<B>(m);
            let s1 = B::write16_next(m.s, sp, (v / 0x1_0000) as u16);
            &&& top % 2 == 0 ==> p.c == m.c.with_a(7, sp) && p.s == B::write16_next(
                s1,
                sp.wrapping_add(2),
                (v % 0x1_0000) as u16,
            )
            &&& top % 2 == 0 ==> q.c == m.c.with_a(7, top.wrapping_add(4)) && w == 0x1_0000
                * B::read16_val(m.s, top) + B::read16_val(
                B::read16_next(m.s, top),
                top.wrapping_add(2),
            )
            &&& top % 2 == 1 ==> p.c.fault is Some && q.c.fault is Some
        }),
{
    reveal(push32_spec);
    reveal(pop32_spec);
    crate::bits::low_bits(v);
    let top = m.c.a[7];
    crate::bits::long_word_bits(
        0,
        0,
        B::read16_val(m.s, top),
        B::read16_val(B::read16_next(m.s, top), top.wrapping_add(2)),
    );
    let sp = m.c.a[7].wrapping_sub(4);
    assert(sp % 2 == top % 2);
}

/// JSR through an address register pushes the address after it and goes there; RTS
/// pops it.
#[verifier::rlimit(40)]
pub proof fn subroutines_push_and_pop<B: Bus>(m: Mach<B::St>, op: u16)
    requires
        m.c.a.len() == 8,
        m.c.fault is None,
        (op / 8) % 8 == 2,
        m.c.a[7] % 2 == 0,
    ensures
        ({
            let target = m.c.a[op as int % 8];
            let (m1, cycles) = address_spec::<B>(m, op, Misc::Jsr);
            let p = push32_spec::<B>(m, m.c.pc);
            &&& cycles == 16
            &&& target % 2 == 0 ==> m1.s == p.s && m1.c == (CpuState {
                pc: target,
                au: m1.c.au,
                ..p.c
            })
            &&& target % 2 == 1 ==> m1.c.fault is Some && m1.s == m.s
        }),
        ({
            let (m1, cycles) = control_spec::<B>(m, op, Misc::Rts);
            let (q, w) = pop32_spec::<B>(m);
            &&& cycles == 16
            &&& m1.s == q.s
            &&& w % 2 == 0 ==> m1.c == (CpuState { pc: w, au: m1.c.au, ..q.c })
            &&& w % 2 == 1 ==> m1.c.fault is Some
        }),
{
    reveal(Ea::decode_spec);
    crate::bits::opcode_bits(op);
    fields(op);
    stack_holds_long_words::<B>(m, m.c.pc);
}

/// LINK pushes an address register, points it at what was pushed, and moves the
/// stack by a signed word. UNLK takes the stack back to there and pops it.
#[verifier::rlimit(40)]
pub proof fn frames_are_linked<B: Bus>(m: Mach<B::St>, op: u16)
    requires
        m.c.a.len() == 8,
        m.c.fault is None,
        op % 8 != 7,
        m.c.a[7] % 2 == 0,
    ensures
        ({
            let n = op as int % 8;
            let w = B::read16_val(m.s, m.c.pc);
            let by = if w >= 0x8000 { w - 0x1_0000 } else { w as int };
            let (m1, _) = register_spec::<B>(m, op, Misc::Link);
            let sp = m.c.a[7].wrapping_sub(4);
            &&& m1.c.a[n] == sp
            &&& m1.c.a[7] == (sp + by) % 0x1_0000_0000
            &&& forall|k: int| 0 <= k < 7 && k != n ==> #[trigger] m1.c.a[k] == m.c.a[k]
            &&& m1.c.d == m.c.d
        }),
        m.c.a[op as int % 8] % 2 == 0 ==> ({
            let n = op as int % 8;
            let f = m.c.a[n];
            let (m2, _) = register_spec::<B>(m, op, Misc::Unlk);
            &&& m2.c.a[7] == f.wrapping_add(4)
            &&& m2.c.a[n] == 0x1_0000 * B::read16_val(m.s, f) + B::read16_val(
                B::read16_next(m.s, f),
                f.wrapping_add(2),
            )
        }),
{
    crate::bits::opcode_bits(op);
    fields(op);
    let n = op as int % 8;
    let m1 = crate::cpu::m68k::cpu::fetch16_spec::<B>(m).0;
    stack_holds_long_words::<B>(m1, m.c.a[n]);
    offsets_are_signed(m.c.a[7].wrapping_sub(4), 0, B::read16_val(m.s, m.c.pc) as u32);
    stack_holds_long_words::<B>(m.with_c(m.c.with_a(7, m.c.a[n])), 0);
}

/// CLR, NOT and NEG of a data register change its low part by what the
/// operation gives; the rest stays.
#[verifier::rlimit(40)]
pub proof fn one_operand_instructions<B: Bus>(m: Mach<B::St>, op: u16, size: Size)
    requires
        m.c.d.len() == 8,
        (op / 8) % 8 == 0,
    ensures
        ({
            let n = op as int % 8;
            let d = m.c.d[n];
            let v = number(d, size);
            let (m1, _) = unary_spec::<B>(m, op, Misc::Clr(size));
            let (m2, _) = unary_spec::<B>(m, op, Misc::Not(size));
            let (m3, cycles) = unary_spec::<B>(m, op, Misc::Neg(size));
            let r = (0 - v) % span(size);
            &&& m1.c == m.c.with_sr(m1.c.sr).with_d(n, replaced(d, 0, size) as u32)
            &&& m2.c == m.c.with_sr(m2.c.sr).with_d(
                n,
                replaced(d, span(size) - 1 - v, size) as u32,
            )
            &&& m3.c == m.c.with_sr(m3.c.sr).with_d(n, replaced(d, r, size) as u32)
            &&& codes(m3.c.sr).c == (v != 0) && codes(m3.c.sr).x == (v != 0)
            &&& codes(m3.c.sr).z == (v == 0)
            &&& codes(m1.c.sr).z && !codes(m1.c.sr).n
            &&& cycles == 4
        }),
{
    let n = op as int % 8;
    let d = m.c.d[n];
    let v = number(d, size) as u32;
    register_operand::<B>(m, op, size);
    low_part(d, size);
    register_modified::<B>(m, n, size, Rmw::Clr);
    register_modified::<B>(m, n, size, Rmw::Not);
    register_modified::<B>(m, n, size, Rmw::Neg);
    logic_is_bit_by_bit(m.c.sr, size, v, 0);
    negation_subtracts_from_zero(m.c.sr, size, v);
    subtraction_subtracts(m.c.sr, 0, v, size, true);
    assert(number(0, size) == 0 && number(v, size) == v) by {
        match size {
            Size::Byte => {},
            Size::Word => {},
            Size::Long => {},
        }
    }
    merged_is_replaced(d, 0, size);
    merged_is_replaced(d, (span(size) - 1 - v) as u32, size);
    merged_is_replaced(d, rmw_spec(Rmw::Neg, m.c.sr, size, v).1, size);
}

/// DIVU and DIVS of data registers. The quotient goes to the low word and the
/// remainder to the high word; a quotient that does not fit leaves the register
/// and sets V. `q` and `r` are the quotient and the remainder.
#[verifier::rlimit(40)]
pub proof fn registers_are_divided<B: Bus>(
    m: Mach<B::St>,
    op: u16,
    is_signed: bool,
    q: int,
    r: int,
)
    requires
        m.c.d.len() == 8,
        m.c.fault is None,
        (op / 8) % 8 == 0,
        ({
            let (d, v) = (m.c.d[(op as int / 512) % 8], m.c.d[op as int % 8]);
            let a = if is_signed { signed_number(d, Size::Long) } else { d as int };
            let b = if is_signed {
                signed_number(v, Size::Word)
            } else {
                number(v, Size::Word)
            };
            &&& b != 0
            &&& a == q * b + r
            &&& -abs_of(b) < r < abs_of(b)
            &&& a >= 0 ==> r >= 0
            &&& a < 0 ==> r <= 0
        }),
    ensures
        ({
            let n = (op as int / 512) % 8;
            let (m1, _) = divide_spec::<B>(m, op, is_signed);
            let fit = if is_signed { -0x8000 <= q < 0x8000 } else { q < 0x1_0000 };
            &&& m1.s == m.s
            &&& !codes(m1.c.sr).c
            &&& codes(m1.c.sr).v == !fit
            &&& codes(m1.c.sr).x == codes(m.c.sr).x
            &&& !fit ==> m1.c == m.c.with_sr(m1.c.sr)
            &&& fit ==> m1.c == m.c.with_sr(m1.c.sr).with_d(
                n,
                (0x1_0000 * (r % 0x1_0000) + q % 0x1_0000) as u32,
            )
            &&& fit ==> codes(m1.c.sr).z == (q % 0x1_0000 == 0)
            &&& fit ==> codes(m1.c.sr).n == (q % 0x1_0000 >= 0x8000)
        }),
{
    let n = (op as int / 512) % 8;
    let d = m.c.d[n];
    let w = m.c.d[op as int % 8];
    let v = w & Size::Word.mask();
    crate::bits::opcode_bits(op);
    fields(op);
    register_operand::<B>(m, op, Size::Word);
    same_numbers(w, Size::Word);
    divisions_are_exact(d, v, is_signed, q, r);
    let s0 = sr_set(m.c.sr, 1, false);
    one_code_is_set(m.c.sr, 1, false);
    let res = (0x1_0000 * (r % 0x1_0000) + q % 0x1_0000) as u32;
    sign_and_zero_are_set(s0, res, Size::Word);
    one_code_is_set(sr_nz(s0, res, Size::Word), 2, false);
    one_code_is_set(s0, 2, true);
    let s1 = sr_set(s0, 2, true);
    one_code_is_set(s1, 8, true);
    one_code_is_set(sr_set(s1, 8, true), 4, false);
    assert(divisor_of(v, is_signed) != 0);
    word_codes(res, r % 0x1_0000, q % 0x1_0000);
}

proof fn word_codes(v: u32, h: int, l: int)
    requires
        0 <= h < 0x1_0000,
        0 <= l < 0x1_0000,
        v == 0x1_0000 * h + l,
    ensures
        crate::cpu::m68k::arith::unsigned(v, Size::Word) == l,
        crate::cpu::m68k::arith::negative(v, Size::Word) == (l >= 0x8000),
{
}

/// An exception pushes PC and the status, goes to supervisor mode on its own
/// stack, and on to the address that its vector holds.
#[verifier::rlimit(40)]
pub proof fn exceptions_go_through_vectors<B: Bus>(m: Mach<B::St>, vector: u32)
    requires
        m.c.a.len() == 8,
        m.c.fault is None,
        m.c.sr & 0x2000 != 0 ==> m.c.a[7] % 2 == 0,
        m.c.sr & 0x2000 == 0 ==> m.c.ssp % 2 == 0,
    ensures
        ({
            let n = enter_vector_spec::<B>(m, vector);
            let sp = if m.c.sr & 0x2000 != 0 { m.c.a[7] } else { m.c.ssp };
            let at = sp.wrapping_sub(4);
            let s1 = B::write16_next(m.s, at, (m.c.pc / 0x1_0000) as u16);
            let s2 = B::write16_next(s1, at.wrapping_add(2), (m.c.pc % 0x1_0000) as u16);
            let s3 = B::write16_next(s2, at.wrapping_sub(2), m.c.sr);
            let hi = B::read16_val(s3, vector);
            let lo = B::read16_val(B::read16_next(s3, vector), vector.wrapping_add(2));
            &&& n.c.pc == 0x1_0000 * hi + lo
            &&& n.c.a[7] == at.wrapping_sub(2)
            &&& n.c.sr & 0x2000 != 0
            &&& n.c.d == m.c.d
            &&& m.c.sr & 0x2000 == 0 ==> n.c.usp == m.c.a[7]
        }),
{
    reveal(enter_vector_spec);
    let c = m.c;
    let c1 = if c.sr & 0x2000 != 0 {
        CpuState { ssp: c.a[7], ..c }
    } else {
        CpuState { usp: c.a[7], ..c }.with_a(7, c.ssp)
    };
    let sr = sr_set(sr_set(c.sr, StatusRegister::S, true), StatusRegister::T, false);
    crate::bits::flag_set(c.sr, 1, 1);
    let m0 = m.with_c(c1.with_sr(sr));
    let sp = m0.c.a[7];
    stack_holds_long_words::<B>(m0, c.pc);
    let m1 = push32_spec::<B>(m0, c.pc);
    let at = sp.wrapping_sub(4);
    assert(m1.c == m0.c.with_a(7, at));
    assert(at.wrapping_sub(2) % 2 == 0);
    let m2 = crate::cpu::m68k::cpu::push16_spec::<B>(m1, c.sr);
    assert(m2.c == m1.c.with_a(7, at.wrapping_sub(2)) && m2.s == B::write16_next(
        m1.s,
        at.wrapping_sub(2),
        c.sr,
    )) by {
        reveal(crate::cpu::m68k::cpu::push16_spec);
    }
    crate::bits::long_word_bits(
        0,
        0,
        B::read16_val(m2.s, vector),
        B::read16_val(B::read16_next(m2.s, vector), vector.wrapping_add(2)),
    );
}

/// BTST, BCHG, BCLR and BSET of a data register: the bit is numbered modulo 32.
/// Z tells that it was clear; then it is left, turned over, cleared or set, by
/// bits 6 and 7 of the opcode.
#[verifier::rlimit(40)]
pub proof fn register_bits_are_changed<B: Bus>(m: Mach<B::St>, op: u16, n: usize, number_of: u32)
    requires
        m.c.d.len() == 8,
        n < 8,
    ensures
        ({
            let (m1, _) = bit_op_spec::<B>(m, op, Ea::DataReg(n), number_of);
            let d = m.c.d[n as int];
            let p = pow2((number_of % 32) as nat) as int;
            let was = (d as int / p) % 2 == 1;
            let kind = (op as int / 64) % 4;
            let now = if kind == 0 {
                was
            } else if kind == 1 {
                !was
            } else {
                kind == 3
            };
            &&& m1.s == m.s
            &&& codes(m1.c.sr) == (Codes { z: !was, ..codes(m.c.sr) })
            &&& m1.c == m.c.with_sr(m1.c.sr).with_d(
                n as int,
                (d + (if now && !was {
                    p
                } else if was && !now {
                    -p
                } else {
                    0
                })) as u32,
            )
        }),
{
    let d = m.c.d[n as int];
    let k = (number_of % 32) as u32;
    crate::bits::opcode_bits(op);
    bits_are_tested_then_changed(m.c.sr, Size::Long, d, k);
    vstd::arithmetic::div_mod::lemma_small_mod(d as nat, 0x1_0000_0000);
    assert(number(d, Size::Long) == d);
    crate::bits::sign_bits(d);
    let mask = 1u32 << k;
    register_modified::<B>(m, n as int, Size::Long, Rmw::BitChange(mask));
    register_modified::<B>(m, n as int, Size::Long, Rmw::BitClear(mask));
    register_modified::<B>(m, n as int, Size::Long, Rmw::BitSet(mask));
    let (r1, r2, r3) = (
        rmw_spec(Rmw::BitChange(mask), m.c.sr, Size::Long, d).1,
        rmw_spec(Rmw::BitClear(mask), m.c.sr, Size::Long, d).1,
        rmw_spec(Rmw::BitSet(mask), m.c.sr, Size::Long, d).1,
    );
    whole_register(d, r1);
    whole_register(d, r2);
    whole_register(d, r3);
    reveal(rmw_spec);
    reveal(Ea::read_spec);
    assert(m.c.d.update(n as int, d) =~= m.c.d);
}

proof fn whole_register(d: u32, r: u32)
    ensures
        merged(d, r, Size::Long) == r,
{
    crate::bits::merged_bits(d, r);
}

}
