//! The condition codes as flags.
use vstd::prelude::*;
use crate::cpu::m68k::arith::{negative, unsigned};
use crate::cpu::m68k::cpu::{sr_nz, sr_set, Size, StatusRegister};

verus! {

/// The five condition codes.
pub ghost struct Codes {
    pub x: bool,
    pub n: bool,
    pub z: bool,
    pub v: bool,
    pub c: bool,
}

/// The condition codes in a status register: X, N, Z, V and C from bit 4 down.
pub open spec fn codes(sr: u16) -> Codes {
    Codes {
        x: sr & 0x10 != 0,
        n: sr & 8 != 0,
        z: sr & 4 != 0,
        v: sr & 2 != 0,
        c: sr & 1 != 0,
    }
}

/// Whether two status registers differ in condition codes alone.
pub open spec fn same_system(a: u16, b: u16) -> bool {
    a & 0xFFE0 == b & 0xFFE0
}

/// Setting or clearing one code leaves the others.
pub proof fn one_code_is_set(sr: u16, m: u16, on: bool)
    requires
        m == 1 || m == 2 || m == 4 || m == 8 || m == 0x10,
    ensures
        ({
            let (a, b) = (codes(sr_set(sr, m, on)), codes(sr));
            &&& a.x == if m == 0x10 { on } else { b.x }
            &&& a.n == if m == 8 { on } else { b.n }
            &&& a.z == if m == 4 { on } else { b.z }
            &&& a.v == if m == 2 { on } else { b.v }
            &&& a.c == if m == 1 { on } else { b.c }
        }),
        same_system(sr_set(sr, m, on), sr),
{
    crate::bits::flag_set(sr, m, 1);
    crate::bits::flag_set(sr, m, 2);
    crate::bits::flag_set(sr, m, 4);
    crate::bits::flag_set(sr, m, 8);
    crate::bits::flag_set(sr, m, 0x10);
}

/// N and Z of an operand: its sign, and whether it is zero, within its size.
pub proof fn sign_and_zero_are_set(sr: u16, v: u32, size: Size)
    ensures
        codes(sr_nz(sr, v, size)) == (Codes {
            n: negative(v, size),
            z: unsigned(v, size) == 0,
            ..codes(sr)
        }),
        same_system(sr_nz(sr, v, size), sr),
        (v & size.sign_bit() != 0) == negative(v, size),
        v & size.mask() == unsigned(v, size),
{
    top_bit(v, size);
    let s = sr_set(sr, StatusRegister::N, v & size.sign_bit() != 0);
    one_code_is_set(sr, 8, v & size.sign_bit() != 0);
    one_code_is_set(s, 4, v & size.mask() == 0);
}

/// The top bit of an operand is its sign.
pub proof fn top_bit(v: u32, size: Size)
    ensures
        (v & size.sign_bit() != 0) == negative(v, size),
        v & size.mask() == unsigned(v, size),
{
    crate::bits::sign_bits(v);
    match size {
        Size::Byte => {},
        Size::Word => {},
        Size::Long => {
            vstd::arithmetic::div_mod::lemma_small_mod(v as nat, 0x1_0000_0000);
        },
    }
}

}
