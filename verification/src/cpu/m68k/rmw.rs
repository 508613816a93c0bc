//! Operations that replace an operand by a function of its value.
use vstd::prelude::*;
use crate::cpu::m68k::arith::{
    add_spec, add_with_flags, do_shift_rotate, sbcd_calc, sbcd_spec, shift_spec, sub_spec,
    sub_with_flags,
};
use crate::cpu::m68k::cpu::{sr_logic, sr_nz, sr_set, Cpu, Size, StatusRegister};

verus! {

/// A read-modify-write operation.
#[derive(Debug, Clone, Copy, PartialEq, Eq)]
pub enum Rmw {
    Tas,
    Clr,
    Not,
    Neg,
    Negx,
    Nbcd,
    /// The status register.
    FromSr,
    /// A fixed value, no flags.
    Put(u32),
    Add(u32),
    Sub(u32),
    And(u32),
    Or(u32),
    Eor(u32),
    /// A shift or rotation by one.
    Shift(u8, bool),
    BitChange(u32),
    BitClear(u32),
    BitSet(u32),
}

impl Rmw {
    /// The shift kinds are numbered 0 to 3.
    pub open spec fn wf(self) -> bool {
        match self {
            Rmw::Shift(kind, _) => kind < 4,
            _ => true,
        }
    }
}

/// Z after an operation that only ever clears it: set stays only on a zero
/// result.
#[verifier::allow_in_spec]
pub fn sticky_z(sr: u16, zero: bool) -> u16
    returns
        (if zero {
            sr
        } else {
            sr_set(sr, StatusRegister::Z, false)
        }),
{
    if zero {
        sr
    } else {
        sr_set(sr, StatusRegister::Z, false)
    }
}

/// N, V and carry flags (C and X alike), with Z sticky.
pub open spec fn sr_extended(sr: u16, n: bool, zero: bool, v: bool, carry: bool) -> u16 {
    let s = sticky_z(sr_set(sr, StatusRegister::N, n), zero);
    let s = sr_set(sr_set(s, StatusRegister::V, v), StatusRegister::C, carry);
    sr_set(s, StatusRegister::X, carry)
}

pub fn compute_sr_extended(sr: u16, n: bool, zero: bool, v: bool, carry: bool) -> (r: u16)
    ensures
        r == sr_extended(sr, n, zero, v, carry),
{
    let s: u16 = sticky_z(sr_set(sr, StatusRegister::N, n), zero);
    let s: u16 = sr_set(sr_set(s, StatusRegister::V, v), StatusRegister::C, carry);
    sr_set(s, StatusRegister::X, carry)
}

/// The status register and the operand after the operation.
#[verifier::opaque]
pub open spec fn rmw_spec(op: Rmw, sr: u16, size: Size, v: u32) -> (u16, u32) {
    match op {
        Rmw::Tas => (sr_logic(sr, v, Size::Byte), v | 0x80),
        Rmw::Clr => (sr_logic(sr, 0, size), 0),
        Rmw::Not => (sr_logic(sr, !v & size.mask(), size), !v & size.mask()),
        Rmw::Neg => {
            let r = 0u32.wrapping_sub(v) & size.mask();
            let s = sr_set(sr_nz(sr, r, size), StatusRegister::V, v == size.sign_bit());
            (sr_set(sr_set(s, StatusRegister::C, v != 0), StatusRegister::X, v != 0), r)
        },
        Rmw::Negx => {
            let x: u32 = if sr & StatusRegister::X != 0 {
                1
            } else {
                0
            };
            let r = 0u32.wrapping_sub(v).wrapping_sub(x) & size.mask();
            let n = r & size.sign_bit() != 0;
            let ov = v & size.sign_bit() != 0 && n;
            (sr_extended(sr, n, r == 0, ov, v != 0 || x != 0), r)
        },
        Rmw::Nbcd => {
            let x: u8 = if sr & StatusRegister::X != 0 {
                1
            } else {
                0
            };
            let (r, carry, ov) = sbcd_spec(0, v as u8, x);
            (sr_extended(sr, r & 0x80 != 0, r == 0, ov, carry), r as u32)
        },
        Rmw::FromSr => (sr, sr as u32),
        Rmw::Put(x) => (sr, x),
        Rmw::Add(x) => add_spec(sr, v, x, size, true),
        Rmw::Sub(x) => sub_spec(sr, v, x, size, true),
        Rmw::And(x) => (sr_logic(sr, v & x & size.mask(), size), v & x & size.mask()),
        Rmw::Or(x) => (sr_logic(sr, (v | x) & size.mask(), size), (v | x) & size.mask()),
        Rmw::Eor(x) => (sr_logic(sr, (v ^ x) & size.mask(), size), (v ^ x) & size.mask()),
        Rmw::Shift(kind, left) => shift_spec(sr, v, 1, size, kind, left),
        Rmw::BitChange(m) => (sr_set(sr, StatusRegister::Z, v & m == 0), v ^ m),
        Rmw::BitClear(m) => (sr_set(sr, StatusRegister::Z, v & m == 0), v & !m),
        Rmw::BitSet(m) => (sr_set(sr, StatusRegister::Z, v & m == 0), v | m),
    }
}

impl Rmw {
    pub fn apply(self, cpu: &mut Cpu, size: Size, v: u32) -> (r: u32)
        requires
            self.wf(),
        ensures
            r == rmw_spec(self, old(cpu)@.sr, size, v).1,
            final(cpu)@ == old(cpu)@.with_sr(rmw_spec(self, old(cpu)@.sr, size, v).0),
    {
        proof {
            reveal(rmw_spec);
        }
        let sr: u16 = cpu.sr.0;
        let x: u32 = if sr & StatusRegister::X != 0 {
            1
        } else {
            0
        };
        match self {
            Rmw::Tas => {
                cpu.set_sr(sr_logic(sr, v, Size::Byte));
                v | 0x80
            }
            Rmw::Clr => {
                cpu.set_sr(sr_logic(sr, 0, size));
                0
            }
            Rmw::Not => {
                let r: u32 = !v & size.mask();
                cpu.set_sr(sr_logic(sr, r, size));
                r
            }
            Rmw::Neg => {
                let r: u32 = 0u32.wrapping_sub(v) & size.mask();
                let s: u16 = sr_set(sr_nz(sr, r, size), StatusRegister::V, v == size.sign_bit());
                cpu.set_sr(
                    sr_set(sr_set(s, StatusRegister::C, v != 0), StatusRegister::X, v != 0),
                );
                r
            }
            Rmw::Negx => {
                let r: u32 = 0u32.wrapping_sub(v).wrapping_sub(x) & size.mask();
                let n: bool = r & size.sign_bit() != 0;
                let ov: bool = v & size.sign_bit() != 0 && n;
                cpu.set_sr(compute_sr_extended(sr, n, r == 0, ov, v != 0 || x != 0));
                r
            }
            Rmw::Nbcd => {
                let (r, carry, ov): (u8, bool, bool) = sbcd_calc(0, v as u8, x as u8);
                cpu.set_sr(compute_sr_extended(sr, r & 0x80 != 0, r == 0, ov, carry));
                r as u32
            }
            Rmw::FromSr => {
                cpu.set_sr(sr);
                sr as u32
            }
            Rmw::Put(value) => {
                cpu.set_sr(sr);
                value
            }
            Rmw::Add(value) => add_with_flags(cpu, v, value, size, true),
            Rmw::Sub(value) => sub_with_flags(cpu, v, value, size, true),
            Rmw::And(value) => {
                let r: u32 = v & value & size.mask();
                cpu.set_sr(sr_logic(sr, r, size));
                r
            }
            Rmw::Or(value) => {
                let r: u32 = (v | value) & size.mask();
                cpu.set_sr(sr_logic(sr, r, size));
                r
            }
            Rmw::Eor(value) => {
                let r: u32 = (v ^ value) & size.mask();
                cpu.set_sr(sr_logic(sr, r, size));
                r
            }
            Rmw::Shift(kind, left) => do_shift_rotate(cpu, v, 1, size, kind, left),
            Rmw::BitChange(m) => {
                cpu.set_sr(sr_set(sr, StatusRegister::Z, v & m == 0));
                v ^ m
            }
            Rmw::BitClear(m) => {
                cpu.set_sr(sr_set(sr, StatusRegister::Z, v & m == 0));
                v & !m
            }
            Rmw::BitSet(m) => {
                cpu.set_sr(sr_set(sr, StatusRegister::Z, v & m == 0));
                v | m
            }
        }
    }
}

}
