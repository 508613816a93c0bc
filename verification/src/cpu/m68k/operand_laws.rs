//! Where instructions find their operands, and what moves, logic, products and
//! quotients do to data registers.
use vstd::prelude::*;
use crate::cpu::m68k::arith::{add_spec, sub_spec};
use crate::cpu::m68k::bus::{long, Bus};
use crate::cpu::m68k::ccr::{codes, one_code_is_set, same_system, Codes};
use crate::cpu::m68k::cpu::{sext16, sext8, sr_logic, sr_set, CpuState, Mach, Size, StatusRegister};
use crate::cpu::m68k::dual::{
    and_mul_abcd_spec, exchange_spec, opmode_size, or_and_common_spec, product,
};
use crate::cpu::m68k::ea::{index_offset, merged, read_at_spec, reg_field, Ea};
use crate::cpu::m68k::exec::execute_spec;
use crate::cpu::m68k::instruction_laws::{
    fields, low_part, merged_is_replaced, register_operand, replaced, same_numbers,
    size_by_number,
};
use crate::cpu::m68k::misc::size_from_bits67;
use crate::cpu::m68k::operation_laws::{
    addition_adds, described, fits, logic_is_bit_by_bit, logic_sets_codes, number,
    products_are_exact, signed_number, span, subtraction_subtracts,
};
use crate::cpu::m68k::rmw::{rmw_spec, Rmw};
use crate::cpu::m68k::transfer::{move_family_spec, move_sr_at_write, swap_dst};

verus! {

/// The operand at a data register, replaced.
#[verifier::rlimit(40)]
pub proof fn register_modified<B: Bus>(m: Mach<B::St>, n: int, size: Size, op: Rmw)
    requires
        0 <= n < 8,
    ensures
        ({
            let v = number(m.c.d[n], size) as u32;
            let (sr, r) = rmw_spec(op, m.c.sr, size, v);
            Ea::DataReg(n as usize).modify_spec::<B>(m, size, op, None) == m.with_c(
                m.c.with_sr(sr).with_d(n, merged(m.c.d[n], r, size)),
            )
        }),
{
    reveal(Ea::modify_spec);
    reveal(Ea::read_spec);
    reveal(Ea::write_spec);
    low_part(m.c.d[n], size);
}

#[verifier::rlimit(40)]
proof fn logic_decodes<B: Bus>(m: Mach<B::St>, op: u16)
    requires
        m.c.fault is None,
        op / 4096 == 0xC || op / 4096 == 8,
        (op / 64) % 8 < 3,
        (op / 8) % 8 == 0,
    ensures
        ({
            let (k, n) = (op as int % 8, (op as int / 512) % 8);
            let size = size_by_number((op as int / 64) % 4);
            let (a, b) = (m.c.d[n] & size.mask(), m.c.d[k] & size.mask());
            let r = (if op / 4096 == 0xC { b & a } else { b | a }) & size.mask();
            execute_spec::<B>(m, op) == (
                m.with_c(
                    m.c.with_d(n, merged(m.c.d[n], r, size)).with_sr(sr_logic(m.c.sr, r, size)),
                ),
                4u32,
            )
        }),
{
    let size = size_by_number((op as int / 64) % 4);
    crate::bits::opcode_bits(op);
    fields(op);
    assert((op / 256) % 2 == 0);
    assert((op / 16) % 32 != 16);
    assert(exchange_spec(m.c, op) is None);
    assert(execute_spec::<B>(m, op) == or_and_common_spec::<B>(m, op, op / 4096 == 0xC));
    register_operand::<B>(m, op, size);
    assert(opmode_size((op >> 6) & 7) == size);
}

/// AND and OR from one data register to another: lines C and 8 with a size of 0
/// to 2. Bit by bit, within the size; N and Z describe the result, V and C are
/// clear, X stays.
#[verifier::rlimit(40)]
pub proof fn and_and_or_between_registers<B: Bus>(m: Mach<B::St>, op: u16)
    requires
        m.c.d.len() == 8,
        m.c.fault is None,
        op / 4096 == 0xC || op / 4096 == 8,
        (op / 64) % 8 < 3,
        (op / 8) % 8 == 0,
    ensures
        ({
            let (m1, cycles) = execute_spec::<B>(m, op);
            let (k, n) = (op as int % 8, (op as int / 512) % 8);
            let size = size_by_number((op as int / 64) % 4);
            let (a, b) = (number(m.c.d[n], size) as u32, number(m.c.d[k], size) as u32);
            let r = number(if op / 4096 == 0xC { b & a } else { b | a }, size);
            &&& m1.c == m.c.with_sr(m1.c.sr).with_d(n, replaced(m.c.d[n], r, size) as u32)
            &&& m1.s == m.s
            &&& codes(m1.c.sr) == described(
                r as u32,
                size,
                Codes { v: false, c: false, ..codes(m.c.sr) },
            )
            &&& same_system(m1.c.sr, m.c.sr)
            &&& cycles == 4
        }),
{
    let (k, n) = (op as int % 8, (op as int / 512) % 8);
    let size = size_by_number((op as int / 64) % 4);
    logic_decodes::<B>(m, op);
    low_part(m.c.d[n], size);
    low_part(m.c.d[k], size);
    let (a, b) = (m.c.d[n] & size.mask(), m.c.d[k] & size.mask());
    let x = if op / 4096 == 0xC {
        b & a
    } else {
        b | a
    };
    low_part(x, size);
    let r = x & size.mask();
    logic_sets_codes(m.c.sr, r, size);
    merged_is_replaced(m.c.d[n], r, size);
}

#[verifier::rlimit(40)]
proof fn eor_decodes<B: Bus>(m: Mach<B::St>, op: u16)
    requires
        op / 4096 == 0xB,
        4 <= (op / 64) % 8 < 7,
        (op / 8) % 8 == 0,
    ensures
        ({
            let (k, n) = (op as int % 8, (op as int / 512) % 8);
            let size = size_by_number((op as int / 64) % 4);
            execute_spec::<B>(m, op) == (
                Ea::DataReg(k as usize).modify_spec::<B>(
                    m,
                    size,
                    Rmw::Eor(m.c.d[n] & size.mask()),
                    None,
                ),
                4u32,
            )
        }),
{
    let size = size_by_number((op as int / 64) % 4);
    crate::bits::opcode_bits(op);
    fields(op);
    register_operand::<B>(m, op, size);
    assert(opmode_size((op >> 6) & 7) == size);
}

/// EOR from one data register to another: line B with a size of 4 to 6, the
/// destination in the low bits.
#[verifier::rlimit(40)]
pub proof fn eor_between_registers<B: Bus>(m: Mach<B::St>, op: u16)
    requires
        m.c.d.len() == 8,
        op / 4096 == 0xB,
        4 <= (op / 64) % 8 < 7,
        (op / 8) % 8 == 0,
    ensures
        ({
            let (m1, cycles) = execute_spec::<B>(m, op);
            let (k, n) = (op as int % 8, (op as int / 512) % 8);
            let size = size_by_number((op as int / 64) % 4);
            let (a, b) = (number(m.c.d[n], size) as u32, number(m.c.d[k], size) as u32);
            let r = number(b ^ a, size);
            &&& m1.c == m.c.with_sr(m1.c.sr).with_d(k, replaced(m.c.d[k], r, size) as u32)
            &&& m1.s == m.s
            &&& codes(m1.c.sr) == described(
                r as u32,
                size,
                Codes { v: false, c: false, ..codes(m.c.sr) },
            )
            &&& cycles == 4
        }),
{
    let (k, n) = (op as int % 8, (op as int / 512) % 8);
    let size = size_by_number((op as int / 64) % 4);
    eor_decodes::<B>(m, op);
    low_part(m.c.d[n], size);
    low_part(m.c.d[k], size);
    let (a, b) = (number(m.c.d[n], size) as u32, number(m.c.d[k], size) as u32);
    register_modified::<B>(m, k, size, Rmw::Eor(a));
    logic_is_bit_by_bit(m.c.sr, size, b, a);
    low_part(b ^ a, size);
    merged_is_replaced(m.c.d[k], number(b ^ a, size) as u32, size);
}

#[verifier::rlimit(40)]
proof fn quick_decodes<B: Bus>(m: Mach<B::St>, op: u16)
    requires
        op / 4096 == 5,
        (op / 64) % 4 < 3,
        (op / 8) % 8 == 0,
    ensures
        ({
            let n = op as int % 8;
            let size = size_by_number((op as int / 64) % 4);
            let x = if (op / 512) % 8 == 0 { 8u32 } else { ((op / 512) % 8) as u32 };
            let rmw = if (op / 256) % 2 == 1 { Rmw::Sub(x) } else { Rmw::Add(x) };
            execute_spec::<B>(m, op) == (
                Ea::DataReg(n as usize).modify_spec::<B>(m, size, rmw, None),
                4u32,
            )
        }),
{
    let size = size_by_number((op as int / 64) % 4);
    crate::bits::opcode_bits(op);
    fields(op);
    register_operand::<B>(m, op, size);
    assert(size_from_bits67(op) == Some(size));
}

/// ADDQ and SUBQ to a data register: line 5 with a size of 0 to 2. A number from
/// one to eight is added or, with bit 8, subtracted, with all condition codes.
#[verifier::rlimit(40)]
pub proof fn quick_sums_of_registers<B: Bus>(m: Mach<B::St>, op: u16)
    requires
        m.c.d.len() == 8,
        op / 4096 == 5,
        (op / 64) % 4 < 3,
        (op / 8) % 8 == 0,
    ensures
        ({
            let (m1, cycles) = execute_spec::<B>(m, op);
            let n = op as int % 8;
            let size = size_by_number((op as int / 64) % 4);
            let x = if (op / 512) % 8 == 0 { 8int } else { (op as int / 512) % 8 };
            let by = if (op / 256) % 2 == 1 { -x } else { x };
            let d = m.c.d[n];
            let exact = number(d, size) + by;
            let r = exact % span(size);
            &&& m1.c == m.c.with_sr(m1.c.sr).with_d(n, replaced(d, r, size) as u32)
            &&& m1.s == m.s
            &&& codes(m1.c.sr) == (Codes {
                x: !(0 <= exact < span(size)),
                n: r >= span(size) / 2,
                z: r == 0,
                v: !fits(signed_number(d, size) + by, size),
                c: !(0 <= exact < span(size)),
            })
            &&& cycles == 4
        }),
{
    let n = op as int % 8;
    let size = size_by_number((op as int / 64) % 4);
    quick_decodes::<B>(m, op);
    let x = if (op / 512) % 8 == 0 {
        8u32
    } else {
        ((op / 512) % 8) as u32
    };
    let v = number(m.c.d[n], size) as u32;
    low_part(m.c.d[n], size);
    same_numbers(m.c.d[n], size);
    reveal(rmw_spec);
    assert(number(x, size) == x && signed_number(x, size) == x) by {
        match size {
            Size::Byte => {},
            Size::Word => {},
            Size::Long => {},
        }
    }
    if (op / 256) % 2 == 1 {
        register_modified::<B>(m, n, size, Rmw::Sub(x));
        subtraction_subtracts(m.c.sr, v, x, size, true);
        merged_is_replaced(m.c.d[n], sub_spec(m.c.sr, v, x, size, true).1, size);
    } else {
        register_modified::<B>(m, n, size, Rmw::Add(x));
        addition_adds(m.c.sr, v, x, size, true);
        merged_is_replaced(m.c.d[n], add_spec(m.c.sr, v, x, size, true).1, size);
    }
}

#[verifier::rlimit(40)]
proof fn product_decodes<B: Bus>(m: Mach<B::St>, op: u16)
    requires
        m.c.fault is None,
        op / 4096 == 0xC,
        (op / 64) % 8 == 3 || (op / 64) % 8 == 7,
        (op / 8) % 8 == 0,
    ensures
        ({
            let (k, n) = (op as int % 8, (op as int / 512) % 8);
            let r = product(m.c.d[k] & Size::Word.mask(), m.c.d[n], (op / 64) % 8 == 7);
            execute_spec::<B>(m, op) == (
                m.with_c(m.c.with_d(n, r).with_sr(sr_logic(m.c.sr, r, Size::Long))),
                70u32,
            )
        }),
{
    crate::bits::opcode_bits(op);
    fields(op);
    register_operand::<B>(m, op, Size::Word);
}

/// MULU and MULS of data registers: line C with a size of 3 or 7. The whole
/// register receives the exact product of the low words.
pub proof fn registers_are_multiplied<B: Bus>(m: Mach<B::St>, op: u16)
    requires
        m.c.d.len() == 8,
        m.c.fault is None,
        op / 4096 == 0xC,
        (op / 64) % 8 == 3 || (op / 64) % 8 == 7,
        (op / 8) % 8 == 0,
    ensures
        ({
            let (m1, cycles) = execute_spec::<B>(m, op);
            let (k, n) = (op as int % 8, (op as int / 512) % 8);
            let (a, b) = (m.c.d[n], m.c.d[k]);
            let r = m1.c.d[n];
            &&& m1.c == m.c.with_sr(m1.c.sr).with_d(n, r)
            &&& m1.s == m.s
            &&& (op / 64) % 8 == 3 ==> r == number(a, Size::Word) * number(b, Size::Word)
            &&& (op / 64) % 8 == 7 ==> signed_number(r, Size::Long) == signed_number(
                a,
                Size::Word,
            ) * signed_number(b, Size::Word)
            &&& codes(m1.c.sr) == described(
                r,
                Size::Long,
                Codes { v: false, c: false, ..codes(m.c.sr) },
            )
            &&& cycles == 70
        }),
{
    let (k, n) = (op as int % 8, (op as int / 512) % 8);
    product_decodes::<B>(m, op);
    let b = m.c.d[k] & Size::Word.mask();
    same_numbers(m.c.d[k], Size::Word);
    products_are_exact(b, m.c.d[n]);
    let (x, y) = (number(b, Size::Word), number(m.c.d[n], Size::Word));
    assert(x * y == y * x) by (nonlinear_arith);
    let (s, t) = (signed_number(b, Size::Word), signed_number(m.c.d[n], Size::Word));
    assert(s * t == t * s) by (nonlinear_arith);
    logic_sets_codes(m.c.sr, product(b, m.c.d[n], (op / 64) % 8 == 7), Size::Long);
}

#[verifier::rlimit(40)]
proof fn exchange_fields(op: u16)
    requires
        (op / 8) % 64 == 40 || (op / 8) % 64 == 41 || (op / 8) % 64 == 49,
    ensures
        (op / 256) % 2 == 1,
        (op / 16) % 4 == 0,
        (op / 16) % 32 != 16,
        (op / 64) % 8 == 5 || (op / 64) % 8 == 6,
        (op / 8) % 32 == (if (op / 8) % 64 == 40 {
            8int
        } else if (op / 8) % 64 == 41 {
            9
        } else {
            17
        }),
{
    let q = op as int / 8;
    assert(op as int / 16 == q / 2);
    assert(op as int / 64 == q / 8);
    assert(op as int / 256 == q / 32);
}

#[verifier::rlimit(40)]
proof fn exchange_decodes<B: Bus>(m: Mach<B::St>, op: u16)
    requires
        op / 4096 == 0xC,
        (op / 8) % 64 == 40 || (op / 8) % 64 == 41 || (op / 8) % 64 == 49,
    ensures
        exchange_spec(m.c, op) is Some,
        execute_spec::<B>(m, op) == (m.with_c(exchange_spec(m.c, op)->0), 6u32),
        (op >> 3) & 0x1F == (op / 8) % 32,
        reg_field(op) == op % 8,
        reg_field(op >> 9) == (op / 512) % 8,
{
    crate::bits::opcode_bits(op);
    fields(op);
    exchange_fields(op);
    assert(execute_spec::<B>(m, op) == and_mul_abcd_spec::<B>(m, op));
}

/// EXG exchanges two registers, in six cycles: line C, where bits 8 to 3 are 40 for
/// data registers, 41 for address registers, and 49 for one of each.
pub proof fn registers_are_exchanged<B: Bus>(m: Mach<B::St>, op: u16)
    requires
        m.c.d.len() == 8,
        m.c.a.len() == 8,
        op / 4096 == 0xC,
        (op / 8) % 64 == 40 || (op / 8) % 64 == 41 || (op / 8) % 64 == 49,
    ensures
        ({
            let (m1, cycles) = execute_spec::<B>(m, op);
            let (x, y) = ((op as int / 512) % 8, op as int % 8);
            &&& m1.s == m.s
            &&& cycles == 6
            &&& m1.c.sr == m.c.sr
            &&& (op / 8) % 64 == 40 ==> m1.c.a == m.c.a && m1.c.d[x] == m.c.d[y] && m1.c.d[y]
                == m.c.d[x]
            &&& (op / 8) % 64 == 41 ==> m1.c.d == m.c.d && m1.c.a[x] == m.c.a[y] && m1.c.a[y]
                == m.c.a[x]
            &&& (op / 8) % 64 == 49 ==> m1.c.d[x] == m.c.a[y] && m1.c.a[y] == m.c.d[x]
            &&& forall|i: int|
                0 <= i < 8 && i != x && i != y ==> #[trigger] m1.c.d[i] == m.c.d[i]
            &&& forall|i: int|
                0 <= i < 8 && i != x && i != y ==> #[trigger] m1.c.a[i] == m.c.a[i]
        }),
{
    exchange_decodes::<B>(m, op);
}

#[verifier::rlimit(40)]
proof fn move_decodes<B: Bus>(m: Mach<B::St>, op: u16, size: Size)
    requires
        m.c.fault is None,
        m.c.d.len() == 8,
        (op / 8) % 8 == 0,
        (op / 64) % 8 == 0,
    ensures
        ({
            let (k, n) = (op as int % 8, (op as int / 512) % 8);
            let v = m.c.d[k] & size.mask();
            let (m1, cycles) = move_family_spec::<B>(m, op, size);
            &&& m1.s == m.s
            &&& m1.c == m.c.with_sr(m1.c.sr).with_d(n, merged(m.c.d[n], v, size))
            &&& size != Size::Long ==> m1.c.sr == sr_logic(m.c.sr, v, size)
            &&& size == Size::Long ==> exists|sr: u16|
                #![trigger sr_logic(sr, v, size)]
                same_but_move(sr, m.c.sr, v) && m1.c.sr == sr_logic(sr, v, size)
            &&& cycles == 4
        }),
{
    reveal(Ea::decode_spec);
    reveal(Ea::write_spec);
    crate::bits::opcode_bits(op);
    fields(op);
    register_operand::<B>(m, op, size);
    let (k, n) = (op as int % 8, (op as int / 512) % 8);
    let v = m.c.d[k] & size.mask();
    let dst = swap_dst((op >> 6) & 0x3F);
    assert(dst == n);
    crate::bits::low_bits(dst as u32);
    assert(dst & 7 == n && (dst >> 3) & 7 == 0) by {
        crate::bits::low_bits((dst / 8) as u32);
    }
    let src = Ea::DataReg(k as usize);
    let at = move_sr_at_write(m.c.sr, v, size, src, dst);
    high_half_is_move(m.c.sr, v);
    let (m1, _) = move_family_spec::<B>(m, op, size);
    assert(m1.c =~= m.c.with_sr(m1.c.sr).with_d(n, merged(m.c.d[n], v, size)));
    if size == Size::Long {
        assert(same_but_move(at, m.c.sr, v));
        assert(m1.c.sr == sr_logic(at, v, size));
    }
}

/// A status register that differs from another in N and Z alone.
spec fn same_but_move(a: u16, b: u16, v: u32) -> bool {
    codes(a).x == codes(b).x && same_system(a, b)
}

proof fn high_half_is_move(sr: u16, v: u32)
    ensures
        same_but_move(crate::cpu::m68k::transfer::sr_high_half(sr, v), sr, v),
{
    let n = v & 0x8000_0000 != 0;
    let z = sr & StatusRegister::Z != 0 && (v >> 16) == 0;
    one_code_is_set(sr, 8, n);
    one_code_is_set(sr_set(sr, 8, n), 4, z);
}

/// MOVE from one data register to another: lines 1, 3 and 2 for bytes, words and
/// long words, modes 0. The low part of the destination becomes that of the
/// source; N and Z describe it, V and C are clear, X stays.
#[verifier::rlimit(40)]
pub proof fn moves_copy_registers<B: Bus>(m: Mach<B::St>, op: u16)
    requires
        m.c.fault is None,
        m.c.d.len() == 8,
        1 <= op / 4096 <= 3,
        (op / 8) % 8 == 0,
        (op / 64) % 8 == 0,
    ensures
        ({
            let (m1, cycles) = execute_spec::<B>(m, op);
            let (k, n) = (op as int % 8, (op as int / 512) % 8);
            let size = if op / 4096 == 1 {
                Size::Byte
            } else if op / 4096 == 3 {
                Size::Word
            } else {
                Size::Long
            };
            let v = number(m.c.d[k], size);
            &&& m1.s == m.s
            &&& m1.c == m.c.with_sr(m1.c.sr).with_d(n, replaced(m.c.d[n], v, size) as u32)
            &&& codes(m1.c.sr) == described(
                v as u32,
                size,
                Codes { v: false, c: false, ..codes(m.c.sr) },
            )
            &&& same_system(m1.c.sr, m.c.sr)
            &&& cycles == 4
        }),
{
    let (k, n) = (op as int % 8, (op as int / 512) % 8);
    let size = if op / 4096 == 1 {
        Size::Byte
    } else if op / 4096 == 3 {
        Size::Word
    } else {
        Size::Long
    };
    crate::bits::opcode_bits(op);
    move_decodes::<B>(m, op, size);
    low_part(m.c.d[k], size);
    let v = m.c.d[k] & size.mask();
    merged_is_replaced(m.c.d[n], v, size);
    if size == Size::Long {
        let (m1, _) = move_family_spec::<B>(m, op, size);
        let sr = choose|sr: u16|
            #![trigger sr_logic(sr, v, size)]
            same_but_move(sr, m.c.sr, v) && m1.c.sr == sr_logic(sr, v, size);
        logic_sets_codes(sr, v, size);
    } else {
        logic_sets_codes(m.c.sr, v, size);
    }
}

/// Memory operands are at the address that their mode gives: an address register,
/// before it moves up or after it has moved down by the size of the operand, or
/// with a displacement; an absolute address. A byte moves A7 by two, to keep it
/// even.
#[verifier::rlimit(40)]
pub proof fn addresses_by_mode(c: CpuState, n: usize, d: u32, size: Size)
    requires
        n < 8,
        c.a.len() == 8,
        c.d.len() == 8,
    ensures
        ({
            let a = c.a[n as int];
            let step = if size == Size::Long {
                4int
            } else if size == Size::Word || n == 7 {
                2
            } else {
                1
            };
            let up = ((a + step) % 0x1_0000_0000) as u32;
            let down = ((a - step) % 0x1_0000_0000) as u32;
            &&& Ea::AddrInd(n).address(c, size) == Some(a)
            &&& Ea::AddrInd(n).after_address(c, size) == c
            &&& Ea::PostInc(n).address(c, size) == Some(a)
            &&& Ea::PostInc(n).after_address(c, size) == c.with_a(n as int, up)
            &&& Ea::PreDec(n).address(c, size) == Some(down)
            &&& Ea::PreDec(n).after_address(c, size) == c.with_a(n as int, down)
            &&& Ea::AddrDisp(n, d).address(c, size) == Some(
                ((a + d) % 0x1_0000_0000) as u32,
            )
            &&& Ea::Absolute(d).address(c, size) == Some(d)
            &&& Ea::PcIndDisp(d).address(c, size) == Some(d)
        }),
{
}

/// An indexed operand is at its base, an address register or PC, plus a signed
/// byte, plus a register, whole or its low word as a signed number.
#[verifier::rlimit(40)]
pub proof fn indexed_addresses(c: CpuState, n: usize, base: u32, ext: u16, size: Size)
    requires
        n < 8,
        c.a.len() == 8,
        c.d.len() == 8,
    ensures
        ({
            let reg = (ext as int / 4096) % 8;
            let whole = if ext >= 0x8000 { c.a[reg] } else { c.d[reg] };
            let index = if (ext / 0x800) % 2 == 1 {
                whole as int
            } else {
                signed_number(whole, Size::Word)
            };
            let near = if ext % 256 >= 128 { ext as int % 256 - 256 } else { ext as int % 256 };
            &&& Ea::AddrIdx(n, ext).address(c, size) == Some(
                ((c.a[n as int] + near + index) % 0x1_0000_0000) as u32,
            )
            &&& Ea::PcIndIdx(base, ext).address(c, size) == Some(
                ((base + near + index) % 0x1_0000_0000) as u32,
            )
        }),
{
    index_is_signed(c, ext, c.a[n as int]);
    index_is_signed(c, ext, base);
}

proof fn wrapped_sums(base: u32, x: u32, y: u32, a: int, b: int)
    requires
        x == a % 0x1_0000_0000,
        y == b % 0x1_0000_0000,
    ensures
        base.wrapping_add(x.wrapping_add(y)) == (base + a + b) % 0x1_0000_0000,
{
    let m = 0x1_0000_0000int;
    vstd::arithmetic::div_mod::lemma_add_mod_noop(a, b, m);
    vstd::arithmetic::div_mod::lemma_add_mod_noop(base as int, a + b, m);
    vstd::arithmetic::div_mod::lemma_small_mod(base as nat, m as nat);
    assert(x.wrapping_add(y) == (a + b) % m);
}

/// The two parts of an index.
proof fn index_parts(c: CpuState, ext: u16)
    ensures
        ({
            let reg = (ext as int / 4096) % 8;
            let whole = if ext >= 0x8000 { c.a[reg] } else { c.d[reg] };
            let idx = if (ext / 0x800) % 2 == 1 { whole } else { sext16(whole) };
            index_offset(c, ext) == sext8(ext as u32).wrapping_add(idx)
        }),
{
    let e = ext as u32;
    crate::bits::low_bits(e);
    crate::bits::low_bits(e / 4096);
    assert(reg_field(ext >> 12) == (ext / 4096) % 8);
}

#[verifier::rlimit(40)]
proof fn extended_numbers(e: u32, whole: u32)
    ensures
        sext8(e) == (if e % 256 >= 128 { e as int % 256 - 256 } else { e as int % 256 })
            % 0x1_0000_0000,
        sext16(whole) == signed_number(whole, Size::Word) % 0x1_0000_0000,
        whole == whole as int % 0x1_0000_0000,
{
    crate::bits::long_word_bits(e, 0, 0, 0);
    crate::bits::long_word_bits(whole, 0, 0, 0);
}

proof fn index_is_signed(c: CpuState, ext: u16, base: u32)
    ensures
        ({
            let reg = (ext as int / 4096) % 8;
            let whole = if ext >= 0x8000 { c.a[reg] } else { c.d[reg] };
            let index = if (ext / 0x800) % 2 == 1 {
                whole as int
            } else {
                signed_number(whole, Size::Word)
            };
            let near = if ext % 256 >= 128 { ext as int % 256 - 256 } else { ext as int % 256 };
            base.wrapping_add(index_offset(c, ext)) == (base + near + index) % 0x1_0000_0000
        }),
{
    let reg = (ext as int / 4096) % 8;
    let whole = if ext >= 0x8000 {
        c.a[reg]
    } else {
        c.d[reg]
    };
    let near = if ext % 256 >= 128 {
        ext as int % 256 - 256
    } else {
        ext as int % 256
    };
    index_parts(c, ext);
    extended_numbers(ext as u32, whole);
    if (ext / 0x800) % 2 == 1 {
        wrapped_sums(base, sext8(ext as u32), whole, near, whole as int);
    } else {
        wrapped_sums(
            base,
            sext8(ext as u32),
            sext16(whole),
            near,
            signed_number(whole, Size::Word),
        );
    }
}

/// The modes by number, and the words that follow an opcode in modes 5 to 7.
#[verifier::rlimit(40)]
pub proof fn modes_by_number<B: Bus>(m: Mach<B::St>, bits: u16, size: Size)
    requires
        bits < 64,
    ensures
        ({
            let (m1, ea) = Ea::decode_spec::<B>(m, bits, size);
            let (mode, n) = (bits as int / 8, (bits % 8) as usize);
            let w = B::read16_val(m.s, m.c.pc);
            let signed = ((if w >= 0x8000 { w - 0x1_0000 } else { w as int })
                % 0x1_0000_0000) as u32;
            let next = m.c.pc.wrapping_add(2);
            &&& mode < 5 ==> m1 == m
            &&& mode == 0 ==> ea == Ea::DataReg(n)
            &&& mode == 1 ==> ea == Ea::AddrReg(n)
            &&& mode == 2 ==> ea == Ea::AddrInd(n)
            &&& mode == 3 ==> ea == Ea::PostInc(n)
            &&& mode == 4 ==> ea == Ea::PreDec(n)
            &&& mode == 5 ==> ea == Ea::AddrDisp(n, signed) && m1.c.pc == next
            &&& mode == 6 ==> ea == Ea::AddrIdx(n, w) && m1.c.pc == next
            &&& bits == 0o70 ==> ea == Ea::Absolute(signed) && m1.c.pc == next
            &&& bits == 0o71 ==> ea == Ea::Absolute(
                (0x1_0000 * w + B::read16_val(B::read16_next(m.s, m.c.pc), next)) as u32,
            ) && m1.c.pc == next.wrapping_add(2)
            &&& bits == 0o72 ==> ea == Ea::PcIndDisp(m.c.pc.wrapping_add(signed)) && m1.c.pc
                == next
            &&& bits == 0o73 ==> ea == Ea::PcIndIdx(m.c.pc, w) && m1.c.pc == next
            &&& bits == 0o74 && size == Size::Byte ==> ea == Ea::Immediate((w % 256) as u32)
            &&& bits == 0o74 && size == Size::Word ==> ea == Ea::Immediate(w as u32)
            &&& bits == 0o74 && size == Size::Long ==> ea == Ea::Immediate(
                (0x1_0000 * w + B::read16_val(B::read16_next(m.s, m.c.pc), next)) as u32,
            )
        }),
{
    reveal(Ea::decode_spec);
    crate::bits::opcode_bits(bits);
    fields(bits);
    let w = B::read16_val(m.s, m.c.pc);
    let next = m.c.pc.wrapping_add(2);
    crate::bits::long_word_bits(w as u32, 0, w, B::read16_val(B::read16_next(m.s, m.c.pc), next));
    crate::bits::low_bits(w as u32);
}

/// A read at an even address gives the bytes there, high byte first; a word or a
/// long word at an odd one is an address error.
#[verifier::rlimit(40)]
pub proof fn reads_are_big_endian<B: Bus>(m: Mach<B::St>, addr: u32, size: Size)
    requires
        m.c.fault is None,
    ensures
        ({
            let (m1, v) = read_at_spec::<B>(m, addr, size);
            let next = addr.wrapping_add(2);
            &&& size == Size::Byte ==> v == B::read8_val(m.s, addr) && m1.c == m.c
            &&& addr % 2 == 0 && size == Size::Word ==> v == B::read16_val(m.s, addr) && m1.c
                == m.c
            &&& addr % 2 == 0 && size == Size::Long ==> v == 0x1_0000 * B::read16_val(m.s, addr)
                + B::read16_val(B::read16_next(m.s, addr), next) && m1.c == m.c
            &&& addr % 2 == 1 && size != Size::Byte ==> m1.c.fault is Some && m1.s == m.s
        }),
{
    reveal(read_at_spec);
    crate::bits::long_word_bits(
        0,
        0,
        B::read16_val(m.s, addr),
        B::read16_val(B::read16_next(m.s, addr), addr.wrapping_add(2)),
    );
}

}
