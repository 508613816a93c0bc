//! What whole instructions do to registers and condition codes, by the fields of
//! their opcodes.
use vstd::prelude::*;
use vstd::arithmetic::power2::pow2;
use crate::cpu::m68k::arith::{add_spec, shift_spec, sub_spec};
use crate::cpu::m68k::branch::{branch_family_spec, dbcc_spec, low_minus_one};
use crate::cpu::m68k::bus::Bus;
use crate::cpu::m68k::ccr::{codes, same_system, top_bit, Codes};
use crate::cpu::m68k::cpu::{sext16, sext8, CpuState, Mach, Size};
use crate::cpu::m68k::dual::opmode_size;
use crate::cpu::m68k::ea::{merged, reg_field, Ea};
use crate::cpu::m68k::exec::execute_spec;
use crate::cpu::m68k::misc::{register_spec, size_from_bits67, Misc};
use crate::cpu::m68k::operation_laws::{
    addition_adds, conditions_by_number, conditions_compare, fits, holds, number, sign_extension_keeps_the_number, signed_number, span, subtraction_subtracts,
};
use crate::cpu::m68k::shift_laws::{
    arithmetic_shift_left_multiplies, arithmetic_shift_right_divides,
    logical_shift_left_multiplies, logical_shift_right_divides, rotations_go_round,
};

verus! {

/// The size that a field of two bits names.
pub open spec fn size_by_number(k: int) -> Size {
    if k == 0 {
        Size::Byte
    } else if k == 1 {
        Size::Word
    } else {
        Size::Long
    }
}

/// A register with its low part replaced.
pub open spec fn replaced(v: u32, r: int, size: Size) -> int {
    v - number(v, size) + r
}

/// The register fields of an opcode.
#[verifier::rlimit(40)]
pub proof fn fields(op: u16)
    ensures
        reg_field(op) == op % 8,
        reg_field(op >> 9) == (op / 512) % 8,
        reg_field(op & 0x3F) == op % 8,
{
    crate::bits::opcode_bits(op);
}

/// A data register as an operand.
#[verifier::rlimit(40)]
pub proof fn register_operand<B: Bus>(m: Mach<B::St>, op: u16, size: Size)
    requires
        (op / 8) % 8 == 0,
    ensures
        Ea::decode_spec::<B>(m, op & 0x3F, size) == (m, Ea::DataReg((op % 8) as usize)),
        Ea::DataReg((op % 8) as usize).read_spec::<B>(m, size) == (
            m,
            m.c.d[op as int % 8] & size.mask(),
        ),
        m.c.d[op as int % 8] & size.mask() == number(m.c.d[op as int % 8], size),
{
    reveal(Ea::decode_spec);
    reveal(Ea::read_spec);
    crate::bits::opcode_bits(op);
    fields(op);
    low_part(m.c.d[op as int % 8], size);
}

pub proof fn low_part(v: u32, size: Size)
    ensures
        v & size.mask() == number(v, size),
        0 <= number(v, size) < span(size),
        size.modulus() == span(size),
        number(number(v, size) as u32, size) == number(v, size),
{
    top_bit(v, size);
    match size {
        Size::Byte => {},
        Size::Word => {},
        Size::Long => {},
    }
}

#[verifier::rlimit(40)]
pub proof fn merged_is_replaced(v: u32, r: u32, size: Size)
    requires
        r < span(size),
    ensures
        merged(v, r, size) == replaced(v, r as int, size),
{
    crate::bits::merged_bits(v, r);
    match size {
        Size::Byte => {},
        Size::Word => {},
        Size::Long => {},
    }
}

/// What an opcode between two data registers works on.
#[verifier::rlimit(40)]
proof fn sum_decodes<B: Bus>(m: Mach<B::St>, op: u16)
    requires
        m.c.d.len() == 8,
        m.c.fault is None,
        op / 4096 == 0xD || op / 4096 == 9,
        (op / 64) % 8 < 3,
        (op / 8) % 8 == 0,
    ensures
        ({
            let (k, n) = (op as int % 8, (op as int / 512) % 8);
            let size = size_by_number((op as int / 64) % 4);
            let (a, b) = (m.c.d[n] & size.mask(), m.c.d[k] & size.mask());
            let (sr, r) = if op / 4096 == 9 {
                sub_spec(m.c.sr, a, b, size, true)
            } else {
                add_spec(m.c.sr, a, b, size, true)
            };
            execute_spec::<B>(m, op) == (
                m.with_c(m.c.with_sr(sr).with_d(n, merged(m.c.d[n], r, size))),
                4u32,
            )
        }),
{
    let size = size_by_number((op as int / 64) % 4);
    crate::bits::opcode_bits(op);
    fields(op);
    register_operand::<B>(m, op, size);
    assert(opmode_size((op >> 6) & 7) == size);
}

/// ADD and SUB from one data register to another: lines D and 9 with a size of 0
/// to 2. Only the destination and the condition codes change; it takes four
/// cycles.
#[verifier::rlimit(40)]
pub proof fn add_and_sub_between_registers<B: Bus>(m: Mach<B::St>, op: u16)
    requires
        m.c.d.len() == 8,
        m.c.fault is None,
        op / 4096 == 0xD || op / 4096 == 9,
        (op / 64) % 8 < 3,
        (op / 8) % 8 == 0,
    ensures
        ({
            let (m1, cycles) = execute_spec::<B>(m, op);
            let (k, n) = (op as int % 8, (op as int / 512) % 8);
            let size = size_by_number((op as int / 64) % 4);
            let (src, dst) = (m.c.d[k], m.c.d[n]);
            let sub = op / 4096 == 9;
            let exact = if sub {
                number(dst, size) - number(src, size)
            } else {
                number(dst, size) + number(src, size)
            };
            let with_sign = if sub {
                signed_number(dst, size) - signed_number(src, size)
            } else {
                signed_number(dst, size) + signed_number(src, size)
            };
            let r = exact % span(size);
            &&& m1.c == m.c.with_sr(m1.c.sr).with_d(n, replaced(dst, r, size) as u32)
            &&& m1.s == m.s
            &&& codes(m1.c.sr) == (Codes {
                x: !(0 <= exact < span(size)),
                n: r >= span(size) / 2,
                z: r == 0,
                v: !fits(with_sign, size),
                c: !(0 <= exact < span(size)),
            })
            &&& same_system(m1.c.sr, m.c.sr)
            &&& cycles == 4
        }),
{
    let size = size_by_number((op as int / 64) % 4);
    let (k, n) = (op as int % 8, (op as int / 512) % 8);
    let (src, dst) = (m.c.d[k], m.c.d[n]);
    sum_decodes::<B>(m, op);
    low_part(src, size);
    low_part(dst, size);
    let (a, b) = (dst & size.mask(), src & size.mask());
    let r = if op / 4096 == 9 {
        subtraction_subtracts(m.c.sr, a, b, size, true);
        sub_spec(m.c.sr, a, b, size, true).1
    } else {
        addition_adds(m.c.sr, a, b, size, true);
        add_spec(m.c.sr, a, b, size, true).1
    };
    same_numbers(src, size);
    same_numbers(dst, size);
    merged_is_replaced(dst, r, size);
}

pub proof fn same_numbers(v: u32, size: Size)
    ensures
        number(v & size.mask(), size) == number(v, size),
        signed_number(v & size.mask(), size) == signed_number(v, size),
{
    low_part(v, size);
}

#[verifier::rlimit(40)]
proof fn comparison_decodes<B: Bus>(m: Mach<B::St>, op: u16)
    requires
        m.c.d.len() == 8,
        m.c.fault is None,
        op / 4096 == 0xB,
        (op / 64) % 8 < 3,
        (op / 8) % 8 == 0,
    ensures
        ({
            let (k, n) = (op as int % 8, (op as int / 512) % 8);
            let size = size_by_number((op as int / 64) % 4);
            let (a, b) = (m.c.d[n] & size.mask(), m.c.d[k] & size.mask());
            execute_spec::<B>(m, op) == (
                m.with_c(m.c.with_sr(sub_spec(m.c.sr, a, b, size, false).0)),
                4u32,
            )
        }),
{
    let size = size_by_number((op as int / 64) % 4);
    crate::bits::opcode_bits(op);
    fields(op);
    register_operand::<B>(m, op, size);
    assert(opmode_size((op >> 6) & 7) == size);
}

/// CMP of two data registers: line B with a size of 0 to 2. After it the
/// conditions tell how the second register compares with the first; nothing but
/// N, Z, V and C changes.
pub proof fn registers_are_compared<B: Bus>(m: Mach<B::St>, op: u16)
    requires
        m.c.d.len() == 8,
        m.c.fault is None,
        op / 4096 == 0xB,
        (op / 64) % 8 < 3,
        (op / 8) % 8 == 0,
    ensures
        ({
            let (m1, cycles) = execute_spec::<B>(m, op);
            let (k, n) = (op as int % 8, (op as int / 512) % 8);
            let size = size_by_number((op as int / 64) % 4);
            let (src, dst) = (m.c.d[k], m.c.d[n]);
            let (ua, ub) = (number(dst, size), number(src, size));
            let (sa, sb) = (signed_number(dst, size), signed_number(src, size));
            &&& m1.c == m.c.with_sr(m1.c.sr)
            &&& m1.s == m.s
            &&& codes(m1.c.sr).x == codes(m.c.sr).x
            &&& same_system(m1.c.sr, m.c.sr)
            &&& holds(m1.c.sr, 2) == (ua > ub)
            &&& holds(m1.c.sr, 5) == (ua < ub)
            &&& holds(m1.c.sr, 7) == (ua == ub)
            &&& holds(m1.c.sr, 9) == !fits(sa - sb, size)
            &&& holds(m1.c.sr, 13) == (sa < sb)
            &&& holds(m1.c.sr, 14) == (sa > sb)
            &&& cycles == 4
        }),
{
    let size = size_by_number((op as int / 64) % 4);
    let (k, n) = (op as int % 8, (op as int / 512) % 8);
    comparison_decodes::<B>(m, op);
    let (a, b) = (m.c.d[n] & size.mask(), m.c.d[k] & size.mask());
    conditions_compare(m.c.sr, a, b, size, false);
    subtraction_subtracts(m.c.sr, a, b, size, false);
    conditions_by_number(sub_spec(m.c.sr, a, b, size, false).0, 9);
    same_numbers(m.c.d[k], size);
    same_numbers(m.c.d[n], size);
}

#[verifier::rlimit(40)]
proof fn shift_decodes<B: Bus>(m: Mach<B::St>, op: u16)
    requires
        m.c.d.len() == 8,
        op / 4096 == 0xE,
        (op / 64) % 4 < 3,
    ensures
        ({
            let n = op as int % 8;
            let size = size_by_number((op as int / 64) % 4);
            let field = (op as int / 512) % 8;
            let count = if (op / 32) % 2 == 1 {
                m.c.d[field] as int % 64
            } else if field == 0 {
                8
            } else {
                field
            };
            let (sr, r) = shift_spec(
                m.c.sr,
                m.c.d[n] & size.mask(),
                count as u32,
                size,
                ((op / 8) % 4) as u8,
                (op / 256) % 2 == 1,
            );
            execute_spec::<B>(m, op) == (
                m.with_c(m.c.with_sr(sr).with_d(n, merged(m.c.d[n], r, size))),
                (6 + 2 * count) as u32,
            )
        }),
{
    crate::bits::opcode_bits(op);
    fields(op);
    crate::bits::low_bits(m.c.d[(op as int / 512) % 8]);
    assert(size_from_bits67(op) == Some(size_by_number((op as int / 64) % 4)));
}

/// Shifts and rotations of a data register: line E with a size of 0 to 2. The
/// count is one to eight from the opcode, or a register's modulo 64; each place
/// costs two cycles. Bit 8 tells left from right, bits 3 and 4 the kind: here
/// logical shifts, which multiply and divide.
#[verifier::rlimit(40)]
pub proof fn logical_shifts_of_registers<B: Bus>(m: Mach<B::St>, op: u16)
    requires
        m.c.d.len() == 8,
        op / 4096 == 0xE,
        (op / 64) % 4 < 3,
        (op / 8) % 4 == 1,
    ensures
        ({
            let (m1, cycles) = execute_spec::<B>(m, op);
            let n = op as int % 8;
            let size = size_by_number((op as int / 64) % 4);
            let field = (op as int / 512) % 8;
            let count = if (op / 32) % 2 == 1 {
                m.c.d[field] as int % 64
            } else if field == 0 {
                8
            } else {
                field
            };
            let v = number(m.c.d[n], size);
            let left = (op / 256) % 2 == 1;
            let r = if left {
                (v * pow2(count as nat)) % span(size)
            } else {
                v / pow2(count as nat) as int
            };
            &&& m1.c == m.c.with_sr(m1.c.sr).with_d(n, replaced(m.c.d[n], r, size) as u32)
            &&& m1.s == m.s
            &&& cycles == 6 + 2 * count
            &&& codes(m1.c.sr).n == (r >= span(size) / 2)
            &&& codes(m1.c.sr).z == (r == 0)
            &&& !codes(m1.c.sr).v
        }),
{
    shift_decodes::<B>(m, op);
    let n = op as int % 8;
    let size = size_by_number((op as int / 64) % 4);
    let field = (op as int / 512) % 8;
    let count = if (op / 32) % 2 == 1 {
        m.c.d[field] as int % 64
    } else if field == 0 {
        8
    } else {
        field
    };
    let v = m.c.d[n] & size.mask();
    low_part(m.c.d[n], size);
    logical_shift_right_divides(m.c.sr, v, count as u32, size);
    logical_shift_left_multiplies(m.c.sr, v, count as u32, size);
    let left = (op / 256) % 2 == 1;
    merged_is_replaced(m.c.d[n], shift_spec(m.c.sr, v, count as u32, size, 1, left).1, size);
}

/// The other shifts and rotations of a data register, by kind: arithmetic (0),
/// through X (2), plain (3). The operand is the low part of the register, the
/// rest of it stays.
#[verifier::rlimit(40)]
pub proof fn register_shifts_take_the_low_part<B: Bus>(m: Mach<B::St>, op: u16)
    requires
        m.c.d.len() == 8,
        op / 4096 == 0xE,
        (op / 64) % 4 < 3,
    ensures
        ({
            let (m1, cycles) = execute_spec::<B>(m, op);
            let n = op as int % 8;
            let size = size_by_number((op as int / 64) % 4);
            let field = (op as int / 512) % 8;
            let count = if (op / 32) % 2 == 1 {
                m.c.d[field] as int % 64
            } else if field == 0 {
                8
            } else {
                field
            };
            let (sr, r) = shift_spec(
                m.c.sr,
                number(m.c.d[n], size) as u32,
                count as u32,
                size,
                ((op / 8) % 4) as u8,
                (op / 256) % 2 == 1,
            );
            &&& r < span(size)
            &&& m1.c == m.c.with_sr(sr).with_d(n, replaced(m.c.d[n], r as int, size) as u32)
            &&& m1.s == m.s
            &&& cycles == 6 + 2 * count
        }),
{
    shift_decodes::<B>(m, op);
    let n = op as int % 8;
    let size = size_by_number((op as int / 64) % 4);
    let field = (op as int / 512) % 8;
    let count = if (op / 32) % 2 == 1 {
        m.c.d[field] as int % 64
    } else if field == 0 {
        8
    } else {
        field
    };
    let v = m.c.d[n] & size.mask();
    let left = (op / 256) % 2 == 1;
    let kind = ((op / 8) % 4) as u8;
    low_part(m.c.d[n], size);
    if kind == 0 && left {
        arithmetic_shift_left_multiplies(m.c.sr, v, count as u32, size);
    } else if kind == 0 {
        arithmetic_shift_right_divides(m.c.sr, v, count as u32, size);
    } else if kind == 1 && left {
        logical_shift_left_multiplies(m.c.sr, v, count as u32, size);
    } else if kind == 1 {
        logical_shift_right_divides(m.c.sr, v, count as u32, size);
    } else {
        rotations_go_round(m.c.sr, v, count as u32, size, kind == 2, left);
    }
    merged_is_replaced(
        m.c.d[n],
        shift_spec(m.c.sr, v, count as u32, size, kind, left).1,
        size,
    );
}

/// MOVEQ puts a signed byte into a data register: line 7.
#[verifier::rlimit(40)]
pub proof fn moveq_loads_signed_bytes<B: Bus>(m: Mach<B::St>, op: u16)
    requires
        op / 4096 == 7,
    ensures
        ({
            let (m1, cycles) = execute_spec::<B>(m, op);
            let n = (op as int / 512) % 8;
            let w = if op % 256 >= 128 { op as int % 256 - 256 } else { op as int % 256 };
            let v = (w % 0x1_0000_0000) as u32;
            &&& m1.c == m.c.with_sr(m1.c.sr).with_d(n, v)
            &&& m1.s == m.s
            &&& codes(m1.c.sr) == (Codes {
                n: w < 0,
                z: w == 0,
                v: false,
                c: false,
                ..codes(m.c.sr)
            })
            &&& same_system(m1.c.sr, m.c.sr)
            &&& cycles == 4
        }),
{
    crate::bits::opcode_bits(op);
    fields(op);
    let b = (op & 0xFF) as u32;
    crate::bits::long_word_bits(b, 0, 0, 0);
    let v = sext8(b);
    crate::cpu::m68k::operation_laws::logic_sets_codes(m.c.sr, v, Size::Long);
}

/// Addresses a signed byte and a signed word away.
#[verifier::rlimit(40)]
pub proof fn offsets_are_signed(pc: u32, b: u32, w: u32)
    requires
        b < 0x100,
        w < 0x1_0000,
    ensures
        pc.wrapping_add(sext8(b)) == (pc + (if b >= 0x80 { b - 0x100 } else { b as int }))
            % 0x1_0000_0000,
        pc.wrapping_add(sext16(w)) == (pc + (if w >= 0x8000 { w - 0x1_0000 } else { w as int }))
            % 0x1_0000_0000,
        pc.wrapping_add(2) == (pc + 2) % 0x1_0000_0000,
{
    crate::bits::long_word_bits(b, 0, 0, 0);
    crate::bits::long_word_bits(w, 0, 0, 0);
}

#[verifier::rlimit(40)]
pub proof fn branch_decodes<B: Bus>(m: Mach<B::St>, op: u16)
    requires
        op / 4096 == 6,
    ensures
        execute_spec::<B>(m, op) == branch_family_spec::<B>(m, op),
        (op >> 8) & 0xF == (op / 256) % 16,
        op & 0xFF == op % 256,
{
    crate::bits::opcode_bits(op);
}

#[verifier::rlimit(40)]
proof fn counting_decodes<B: Bus>(m: Mach<B::St>, op: u16)
    requires
        op / 4096 == 5,
        (op / 64) % 4 == 3,
        (op / 8) % 8 == 1,
    ensures
        execute_spec::<B>(m, op) == dbcc_spec::<B>(m, op),
        (op >> 8) & 0xF == (op / 256) % 16,
        reg_field(op) == op % 8,
{
    crate::bits::opcode_bits(op);
    fields(op);
    assert(size_from_bits67(op) is None);
}

/// The low word of a register counted down.
proof fn counted_down(d: u32)
    ensures
        low_minus_one(d) == (if number(d, Size::Word) == 0 { 0xFFFF } else {
            number(d, Size::Word) - 1
        }),
        (d & 0xFFFF_0000) | low_minus_one(d) == (if number(d, Size::Word) == 0 {
            d + 0xFFFF
        } else {
            d - 1
        }),
{
    crate::bits::sign_bits(d);
    crate::bits::merged_bits(d, low_minus_one(d));
}

/// Branches: line 6. A condition that holds, or condition 0, takes the branch, by
/// the signed byte of the opcode or, if that is zero, the signed word after it,
/// counted from the word after the opcode; to an even address it goes there, in
/// ten cycles. Otherwise nothing but PC changes.
pub proof fn branches_go_where_they_say<B: Bus>(m: Mach<B::St>, op: u16)
    requires
        op / 4096 == 6,
        (op / 256) % 16 != 1,
    ensures
        ({
            let (m1, cycles) = execute_spec::<B>(m, op);
            let cc = (op as int / 256) % 16;
            let short = op % 256 != 0;
            let w = B::read16_val(m.s, m.c.pc);
            let by = if short {
                if op % 256 >= 128 { op as int % 256 - 256 } else { op as int % 256 }
            } else {
                if w >= 0x8000 { w - 0x1_0000 } else { w as int }
            };
            let target = (m.c.pc + by) % 0x1_0000_0000;
            let next = if short { m.c.pc as int } else { (m.c.pc + 2) % 0x1_0000_0000 };
            let taken = cc == 0 || holds(m.c.sr, cc);
            &&& m1.s == if short { m.s } else { B::read16_next(m.s, m.c.pc) }
            &&& taken && target % 2 == 0 ==> m1.c == (CpuState {
                pc: target as u32,
                au: m1.c.au,
                ..m.c
            })
            &&& taken && target % 2 == 1 ==> m1.c.fault is Some
            &&& taken ==> cycles == 10
            &&& !taken ==> m1.c == (CpuState { pc: next as u32, au: m1.c.au, ..m.c })
            &&& !taken ==> cycles == 8
        }),
{
    branch_decodes::<B>(m, op);
    let w = B::read16_val(m.s, m.c.pc) as u32;
    offsets_are_signed(m.c.pc, (op & 0xFF) as u32, w);
}

/// DBcc: line 5 with size 3 and mode 1. If the condition holds it goes on.
/// Otherwise the low word of the register counts down by one, and unless it has
/// passed zero the branch is taken, to an even address.
pub proof fn dbcc_counts_down<B: Bus>(m: Mach<B::St>, op: u16)
    requires
        m.c.d.len() == 8,
        m.c.fault is None,
        op / 4096 == 5,
        (op / 64) % 4 == 3,
        (op / 8) % 8 == 1,
    ensures
        ({
            let (m1, cycles) = execute_spec::<B>(m, op);
            let n = op as int % 8;
            let (w, d) = (B::read16_val(m.s, m.c.pc), m.c.d[n]);
            let by = if w >= 0x8000 { w - 0x1_0000 } else { w as int };
            let target = (m.c.pc + by) % 0x1_0000_0000;
            let next = ((m.c.pc + 2) % 0x1_0000_0000) as u32;
            let low = number(d, Size::Word);
            let counted = if low == 0 { d + 0xFFFF } else { d - 1 };
            let done = holds(m.c.sr, (op as int / 256) % 16);
            &&& m1.s == B::read16_next(m.s, m.c.pc)
            &&& done ==> cycles == 12 && m1.c == (CpuState { pc: next, au: m1.c.au, ..m.c })
            &&& !done && low == 0 ==> cycles == 14 && m1.c == (CpuState {
                pc: next,
                au: m1.c.au,
                ..m.c
            }).with_d(n, counted as u32)
            &&& !done && low != 0 ==> cycles == 10
            &&& !done && low != 0 && target % 2 == 0 ==> m1.c == (CpuState {
                pc: target as u32,
                au: m1.c.au,
                ..m.c
            }).with_d(n, counted as u32)
        }),
{
    counting_decodes::<B>(m, op);
    let w = B::read16_val(m.s, m.c.pc) as u32;
    offsets_are_signed(m.c.pc, 0, w);
    counted_down(m.c.d[op as int % 8]);
}

/// SWAP exchanges the halves of a register; EXT extends the sign of a byte to a
/// word, or of a word to a long word.
#[verifier::rlimit(40)]
pub proof fn swap_and_ext_work_on_halves<B: Bus>(m: Mach<B::St>, op: u16)
    requires
        m.c.d.len() == 8,
    ensures
        ({
            let n = op as int % 8;
            let d = m.c.d[n];
            let (m1, cycles) = register_spec::<B>(m, op, Misc::Swap);
            let (m2, _) = register_spec::<B>(m, op, Misc::Ext);
            let long = (op / 64) % 2 == 1;
            &&& m1.c == m.c.with_sr(m1.c.sr).with_d(
                n,
                (d / 0x1_0000 + 0x1_0000 * (d % 0x1_0000)) as u32,
            )
            &&& m2.c == m.c.with_sr(m2.c.sr).with_d(n, m2.c.d[n])
            &&& long ==> signed_number(m2.c.d[n], Size::Long) == signed_number(d, Size::Word)
            &&& !long ==> signed_number(m2.c.d[n], Size::Word) == signed_number(d, Size::Byte)
            &&& !long ==> m2.c.d[n] / 0x1_0000 == d / 0x1_0000
            &&& cycles == 4
        }),
{
    let d = m.c.d[op as int % 8];
    crate::bits::opcode_bits(op);
    fields(op);
    crate::bits::low_bits(op as u32);
    crate::bits::merged_bits(d, sext8(d));
    crate::bits::sign_bits(sext8(d));
    crate::bits::long_word_bits(d, 0, 0, 0);
    sign_extension_keeps_the_number(d);
}

}
