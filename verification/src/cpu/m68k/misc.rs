//! The instructions of line 4: control, stack, status and one-operand ones.
use vstd::prelude::*;
use crate::bits::same;
use crate::cpu::m68k::arith::signed;
use crate::cpu::m68k::bus::Bus;
use crate::cpu::m68k::cpu::{
    abort_spec, enter_vector_spec, fetch16_spec, jump_to_spec, jump_to_subroutine_spec, mach,
    pop16_spec, pop32_spec, push32_spec, sext16, sext8, sr_logic, sr_set, Cpu, CpuState, Exception,
    Mach, Size, StatusRegister,
};
use crate::cpu::m68k::ea::{reg_field, Ea};
use crate::cpu::m68k::rmw::Rmw;
use crate::cpu::m68k::transfer::{cost, movem, movem_spec};

verus! {

/// The operand size in bits 6 and 7; all ones is no size.
#[verifier::allow_in_spec]
pub fn size_from_bits67(op: u16) -> Option<Size>
    returns
        (match (op >> 6) & 3 {
            0 => Some(Size::Byte),
            1 => Some(Size::Word),
            2 => Some(Size::Long),
            _ => None,
        }),
{
    match (op >> 6) & 3 {
        0 => Some(Size::Byte),
        1 => Some(Size::Word),
        2 => Some(Size::Long),
        _ => None,
    }
}

/// The status register written whole: bits that do not exist read back zero,
/// and a change of mode swaps the stack pointer.
pub open spec fn write_sr_spec(c: CpuState, new_sr: u16) -> CpuState {
    let sr = new_sr & 0xA71F;
    let to_sup = sr & StatusRegister::S != 0;
    let c1 = if c.sup() == to_sup {
        c
    } else if c.sup() {
        CpuState { ssp: c.a[7], ..c }.with_a(7, c.usp)
    } else {
        CpuState { usp: c.a[7], ..c }.with_a(7, c.ssp)
    };
    c1.with_sr(sr)
}

pub fn write_sr(cpu: &mut Cpu, new_sr: u16)
    ensures
        final(cpu)@ == write_sr_spec(old(cpu)@, new_sr),
{
    let sr: u16 = new_sr & 0xA71F;
    let was_sup: bool = cpu.sr.supervisor();
    let to_sup: bool = sr & StatusRegister::S != 0;
    if was_sup != to_sup {
        let sp: u32 = cpu.a[7];
        if was_sup {
            cpu.set_ssp(sp);
            let usp: u32 = cpu.usp;
            cpu.set_a(7, usp);
        } else {
            cpu.set_usp(sp);
            let ssp: u32 = cpu.ssp;
            cpu.set_a(7, ssp);
        }
    }
    cpu.set_sr(sr);
}

/// `sr` with its condition codes replaced by those of `ccr`.
#[verifier::allow_in_spec]
pub fn with_ccr(sr: u16, ccr: u16) -> u16
    returns
        (sr & 0xFFE0) | (ccr & 0x001F),
{
    (sr & 0xFFE0) | (ccr & 0x001F)
}

/// Which instruction a line-4 opcode is. Where encodings overlap the first one
/// listed wins.
#[derive(Debug, Clone, Copy, PartialEq, Eq)]
pub enum Misc {
    Nop,
    Rts,
    Rte,
    Rtr,
    Reset,
    Stop,
    TrapV,
    Trap,
    Link,
    Unlk,
    MoveUsp,
    Swap,
    Ext,
    Jmp,
    Jsr,
    Lea,
    Pea,
    Tst(Size),
    Tas,
    Clr(Size),
    Not(Size),
    Neg(Size),
    Negx(Size),
    Nbcd,
    ToSr,
    FromSr,
    ToCcr,
    Chk,
    Movem,
    Illegal,
}

/// The instruction that the low bits of a TAS opcode make illegal: an address
/// register, a PC-relative operand or an immediate.
#[verifier::allow_in_spec]
pub fn tas_illegal(op: u16) -> bool
    returns
        ({
            let mode = (op >> 3) & 7;
            let reg = op & 7;
            mode == 1 || (mode == 7 && (reg == 2 || reg == 3 || reg == 4))
        }),
{
    let mode: u16 = (op >> 3) & 7;
    let reg: u16 = op & 7;
    mode == 1 || (mode == 7 && (reg == 2 || reg == 3 || reg == 4))
}

/// The one-operand instructions that have a size.
#[verifier::allow_in_spec]
pub fn sized_misc(op: u16, size: Size) -> Option<Misc>
    returns
        (if op & 0xFF00 == 0x4A00 {
            Some(Misc::Tst(size))
        } else if op & 0xFF00 == 0x4200 {
            Some(Misc::Clr(size))
        } else if op & 0xFF00 == 0x4600 {
            Some(Misc::Not(size))
        } else if op & 0xFF00 == 0x4400 {
            Some(Misc::Neg(size))
        } else if op & 0xFF00 == 0x4000 {
            Some(Misc::Negx(size))
        } else {
            None
        }),
{
    if op & 0xFF00 == 0x4A00 {
        Some(Misc::Tst(size))
    } else if op & 0xFF00 == 0x4200 {
        Some(Misc::Clr(size))
    } else if op & 0xFF00 == 0x4600 {
        Some(Misc::Not(size))
    } else if op & 0xFF00 == 0x4400 {
        Some(Misc::Neg(size))
    } else if op & 0xFF00 == 0x4000 {
        Some(Misc::Negx(size))
    } else {
        None
    }
}

/// The instructions that no size field selects, from NBCD on.
#[verifier::allow_in_spec]
pub fn unsized_misc(op: u16) -> Misc
    returns
        (if op & 0xFFC0 == 0x4800 {
            Misc::Nbcd
        } else if op & 0xFFC0 == 0x46C0 {
            Misc::ToSr
        } else if op & 0xFFC0 == 0x40C0 {
            Misc::FromSr
        } else if op & 0xFFC0 == 0x44C0 {
            Misc::ToCcr
        } else if op & 0xF1C0 == 0x4180 {
            Misc::Chk
        } else if op & 0xFB80 == 0x4880 {
            Misc::Movem
        } else {
            Misc::Illegal
        }),
{
    if op & 0xFFC0 == 0x4800 {
        Misc::Nbcd
    } else if op & 0xFFC0 == 0x46C0 {
        Misc::ToSr
    } else if op & 0xFFC0 == 0x40C0 {
        Misc::FromSr
    } else if op & 0xFFC0 == 0x44C0 {
        Misc::ToCcr
    } else if op & 0xF1C0 == 0x4180 {
        Misc::Chk
    } else if op & 0xFB80 == 0x4880 {
        Misc::Movem
    } else {
        Misc::Illegal
    }
}

/// Decode a line-4 opcode.
#[verifier::allow_in_spec]
pub fn decode_misc(op: u16) -> Misc
    returns
        (if op == 0x4E71 {
            Misc::Nop
        } else if op == 0x4E75 {
            Misc::Rts
        } else if op == 0x4E73 {
            Misc::Rte
        } else if op == 0x4E77 {
            Misc::Rtr
        } else if op == 0x4E70 {
            Misc::Reset
        } else if op == 0x4E72 {
            Misc::Stop
        } else if op == 0x4E76 {
            Misc::TrapV
        } else if op & 0xFFF0 == 0x4E40 {
            Misc::Trap
        } else if op & 0xFFF8 == 0x4E50 {
            Misc::Link
        } else if op & 0xFFF8 == 0x4E58 {
            Misc::Unlk
        } else if op & 0xFFF0 == 0x4E60 {
            Misc::MoveUsp
        } else if op & 0xFFF8 == 0x4840 {
            Misc::Swap
        } else if op & 0xFFB8 == 0x4880 && (op >> 3) & 7 == 0 {
            Misc::Ext
        } else if op & 0xFFC0 == 0x4EC0 {
            Misc::Jmp
        } else if op & 0xFFC0 == 0x4E80 {
            Misc::Jsr
        } else if op & 0xF1C0 == 0x41C0 {
            Misc::Lea
        } else if op & 0xFFC0 == 0x4840 {
            Misc::Pea
        } else if op & 0xFFC0 == 0x4AC0 {
            if tas_illegal(op) {
                Misc::Illegal
            } else {
                Misc::Tas
            }
        } else {
            match size_from_bits67(op) {
                Some(size) => match sized_misc(op, size) {
                    Some(k) => k,
                    None => unsized_misc(op),
                },
                None => unsized_misc(op),
            }
        }),
{
    if op == 0x4E71 {
        Misc::Nop
    } else if op == 0x4E75 {
        Misc::Rts
    } else if op == 0x4E73 {
        Misc::Rte
    } else if op == 0x4E77 {
        Misc::Rtr
    } else if op == 0x4E70 {
        Misc::Reset
    } else if op == 0x4E72 {
        Misc::Stop
    } else if op == 0x4E76 {
        Misc::TrapV
    } else if op & 0xFFF0 == 0x4E40 {
        Misc::Trap
    } else if op & 0xFFF8 == 0x4E50 {
        Misc::Link
    } else if op & 0xFFF8 == 0x4E58 {
        Misc::Unlk
    } else if op & 0xFFF0 == 0x4E60 {
        Misc::MoveUsp
    } else if op & 0xFFF8 == 0x4840 {
        Misc::Swap
    } else if op & 0xFFB8 == 0x4880 && (op >> 3) & 7 == 0 {
        Misc::Ext
    } else if op & 0xFFC0 == 0x4EC0 {
        Misc::Jmp
    } else if op & 0xFFC0 == 0x4E80 {
        Misc::Jsr
    } else if op & 0xF1C0 == 0x41C0 {
        Misc::Lea
    } else if op & 0xFFC0 == 0x4840 {
        Misc::Pea
    } else if op & 0xFFC0 == 0x4AC0 {
        if tas_illegal(op) {
            Misc::Illegal
        } else {
            Misc::Tas
        }
    } else {
        match size_from_bits67(op) {
            Some(size) => match sized_misc(op, size) {
                Some(k) => k,
                None => unsized_misc(op),
            },
            None => unsized_misc(op),
        }
    }
}

/// Instructions that need supervisor mode trap in user mode.
pub open spec fn privilege_trap<B: Bus>(m: Mach<B::St>) -> (Mach<B::St>, u32) {
    (abort_spec::<B>(m, Exception::PrivilegeViolation), 34)
}

/// RTS, RTE, RTR, RESET, STOP, TRAPV, TRAP.
pub open spec fn control_spec<B: Bus>(m: Mach<B::St>, op: u16, k: Misc) -> (Mach<B::St>, u32) {
    match k {
        Misc::Rts => {
            let (m1, pc) = pop32_spec::<B>(m);
            (if m1.c.fault is Some { m1 } else { m1.with_c(jump_to_spec(m1.c, pc)) }, 16)
        },
        Misc::Rte => {
            if !m.c.sup() {
                privilege_trap::<B>(m)
            } else {
                let (m1, sr) = pop16_spec::<B>(m);
                let (m2, pc) = pop32_spec::<B>(m1);
                (
                    if m2.c.fault is Some {
                        m2
                    } else {
                        m2.with_c(jump_to_spec(write_sr_spec(m2.c, sr), pc))
                    },
                    20,
                )
            }
        },
        Misc::Rtr => {
            let (m1, ccr) = pop16_spec::<B>(m);
            let (m2, pc) = pop32_spec::<B>(m1);
            (
                if m2.c.fault is Some {
                    m2
                } else {
                    m2.with_c(jump_to_spec(m2.c.with_sr(with_ccr(m2.c.sr, ccr)), pc))
                },
                20,
            )
        },
        Misc::Reset => {
            if !m.c.sup() {
                privilege_trap::<B>(m)
            } else {
                (m, 132)
            }
        },
        Misc::Stop => {
            if !m.c.sup() {
                privilege_trap::<B>(m)
            } else {
                let c1 = write_sr_spec(m.c, B::read16_val(m.s, m.c.pc));
                (
                    Mach {
                        c: CpuState { stopped: true, ..c1.with_pc(c1.instr_pc) },
                        s: B::read16_next(m.s, m.c.pc),
                    },
                    4,
                )
            }
        },
        Misc::TrapV => {
            if m.c.flag(StatusRegister::V) {
                (enter_vector_spec::<B>(m, Exception::TrapV.vector()), 34)
            } else {
                (m, 4)
            }
        },
        _ => (enter_vector_spec::<B>(m, trap_vector(op)), 34),
    }
}

/// The vector of TRAP: thirty-two and up, by the low four bits of the opcode.
#[verifier::allow_in_spec]
pub fn trap_vector(op: u16) -> u32
    returns
        (0x80u32).wrapping_add(((op & 0xF) as u32).wrapping_mul(4)),
{
    (0x80u32).wrapping_add(((op & 0xF) as u32).wrapping_mul(4))
}

fn control<B: Bus>(cpu: &mut Cpu, bus: &mut B, op: u16, k: Misc) -> (cycles: u32)
    requires
        B::wf(old(bus).st()),
    ensures
        B::wf(final(bus).st()),
        same(
            (mach(*final(cpu), *final(bus)), cycles),
            control_spec::<B>(mach(*old(cpu), *old(bus)), op, k),
        ),
{
    let privileged: bool = match k {
        Misc::Rte => true,
        Misc::Reset => true,
        Misc::Stop => true,
        _ => false,
    };
    if privileged && !cpu.sr.supervisor() {
        cpu.abort(bus, Exception::PrivilegeViolation);
        return 34;
    }
    match k {
        Misc::Rts => {
            let pc: u32 = cpu.pop32(bus);
            if cpu.address_error.is_none() {
                cpu.jump_to(pc);
            }
            16
        }
        Misc::Rte => {
            let sr: u16 = cpu.pop16(bus);
            let pc: u32 = cpu.pop32(bus);
            if cpu.address_error.is_none() {
                write_sr(cpu, sr);
                cpu.jump_to(pc);
            }
            20
        }
        Misc::Rtr => {
            let ccr: u16 = cpu.pop16(bus);
            let pc: u32 = cpu.pop32(bus);
            if cpu.address_error.is_none() {
                let sr: u16 = with_ccr(cpu.sr.0, ccr);
                cpu.set_sr(sr);
                cpu.jump_to(pc);
            }
            20
        }
        Misc::Reset => 132,
        Misc::Stop => {
            let sr: u16 = bus.read16(cpu.pc);
            write_sr(cpu, sr);
            let pc: u32 = cpu.instr_pc;
            cpu.set_pc(pc);
            cpu.set_stopped();
            4
        }
        Misc::TrapV => {
            if cpu.sr.get(StatusRegister::V) {
                cpu.enter_exception(bus, Exception::TrapV);
                34
            } else {
                4
            }
        }
        _ => {
            cpu.enter_vector(bus, trap_vector(op));
            34
        }
    }
}

/// LINK, UNLK, MOVE USP, SWAP, EXT.
pub open spec fn register_spec<B: Bus>(m: Mach<B::St>, op: u16, k: Misc) -> (Mach<B::St>, u32) {
    let n = reg_field(op) as int;
    match k {
        Misc::Link => {
            let (m1, w) = fetch16_spec::<B>(m);
            let m2 = push32_spec::<B>(m1, m1.c.a[n]);
            (
                if m2.c.fault is Some {
                    m2
                } else {
                    let c3 = m2.c.with_a(n, m2.c.a[7]);
                    m2.with_c(c3.with_a(7, c3.a[7].wrapping_add(sext16(w as u32))))
                },
                16,
            )
        },
        Misc::Unlk => {
            let (m1, v) = pop32_spec::<B>(m.with_c(m.c.with_a(7, m.c.a[n])));
            (
                if m1.c.fault is Some {
                    m1.with_c(m1.c.with_au(m1.c.au.wrapping_add(2)))
                } else {
                    m1.with_c(m1.c.with_a(n, v))
                },
                12,
            )
        },
        Misc::MoveUsp => {
            if !m.c.sup() {
                privilege_trap::<B>(m)
            } else if op & 8 == 0 {
                (m.with_c(CpuState { usp: m.c.a[n], ..m.c }), 4)
            } else {
                (m.with_c(m.c.with_a(n, m.c.usp)), 4)
            }
        },
        Misc::Swap => {
            let v = (m.c.d[n] >> 16) | (m.c.d[n] << 16);
            (m.with_c(m.c.with_d(n, v).with_sr(sr_logic(m.c.sr, v, Size::Long))), 4)
        },
        _ => {
            if op & 0x40 != 0 {
                let v = sext16(m.c.d[n]);
                (m.with_c(m.c.with_d(n, v).with_sr(sr_logic(m.c.sr, v, Size::Long))), 4)
            } else {
                let v = sext8(m.c.d[n]) & 0xFFFF;
                (
                    m.with_c(
                        m.c.with_d(n, (m.c.d[n] & 0xFFFF_0000) | v).with_sr(
                            sr_logic(m.c.sr, v, Size::Word),
                        ),
                    ),
                    4,
                )
            }
        },
    }
}

fn register<B: Bus>(cpu: &mut Cpu, bus: &mut B, op: u16, k: Misc) -> (cycles: u32)
    requires
        B::wf(old(bus).st()),
    ensures
        B::wf(final(bus).st()),
        same(
            (mach(*final(cpu), *final(bus)), cycles),
            register_spec::<B>(mach(*old(cpu), *old(bus)), op, k),
        ),
{
    let n: usize = reg_field(op);
    match k {
        Misc::Link => {
            let w: u16 = cpu.fetch16(bus);
            let v: u32 = cpu.a[n];
            cpu.push32(bus, v);
            if cpu.address_error.is_none() {
                let sp: u32 = cpu.a[7];
                cpu.set_a(n, sp);
                let sp: u32 = cpu.a[7].wrapping_add(sext16(w as u32));
                cpu.set_a(7, sp);
            }
            16
        }
        Misc::Unlk => {
            let frame: u32 = cpu.a[n];
            cpu.set_a(7, frame);
            let v: u32 = cpu.pop32(bus);
            if cpu.address_error.is_none() {
                cpu.set_a(n, v);
            } else {
                let au: u32 = cpu.au.wrapping_add(2);
                cpu.set_au(au);
            }
            12
        }
        Misc::MoveUsp => {
            if !cpu.sr.supervisor() {
                cpu.abort(bus, Exception::PrivilegeViolation);
                return 34;
            }
            if op & 8 == 0 {
                let v: u32 = cpu.a[n];
                cpu.set_usp(v);
            } else {
                let v: u32 = cpu.usp;
                cpu.set_a(n, v);
            }
            4
        }
        Misc::Swap => {
            let v: u32 = (cpu.d[n] >> 16) | (cpu.d[n] << 16);
            cpu.set_d(n, v);
            let sr: u16 = sr_logic(cpu.sr.0, v, Size::Long);
            cpu.set_sr(sr);
            4
        }
        _ => {
            if op & 0x40 != 0 {
                let v: u32 = sext16(cpu.d[n]);
                cpu.set_d(n, v);
                let sr: u16 = sr_logic(cpu.sr.0, v, Size::Long);
                cpu.set_sr(sr);
            } else {
                let v: u32 = sext8(cpu.d[n]) & 0xFFFF;
                let r: u32 = (cpu.d[n] & 0xFFFF_0000) | v;
                cpu.set_d(n, r);
                let sr: u16 = sr_logic(cpu.sr.0, v, Size::Word);
                cpu.set_sr(sr);
            }
            4
        }
    }
}

/// JMP, JSR, LEA, PEA. An operand without an address makes the jumps illegal
/// and the other two do nothing.
pub open spec fn address_spec<B: Bus>(m: Mach<B::St>, op: u16, k: Misc) -> (Mach<B::St>, u32) {
    let (m1, ea) = Ea::decode_spec::<B>(m, op & 0x3F, Size::Long);
    let target = ea.address(m1.c, Size::Long);
    let m2 = m1.with_c(ea.after_address(m1.c, Size::Long));
    match k {
        Misc::Jmp => match target {
            Some(addr) => (m2.with_c(jump_to_spec(m2.c, addr)), 8),
            None => (abort_spec::<B>(m2, Exception::IllegalInstruction), 8),
        },
        Misc::Jsr => match target {
            Some(addr) => {
                if addr % 2 == 1 {
                    (m2.with_c(jump_to_subroutine_spec(m2.c, addr)), 16)
                } else {
                    let m3 = push32_spec::<B>(m2, m2.c.pc);
                    (
                        if m3.c.fault is Some {
                            m3
                        } else {
                            m3.with_c(jump_to_subroutine_spec(m3.c, addr))
                        },
                        16,
                    )
                }
            },
            None => (abort_spec::<B>(m2, Exception::IllegalInstruction), 16),
        },
        Misc::Lea => (
            match target {
                Some(addr) => m2.with_c(m2.c.with_a(reg_field(op >> 9) as int, addr)),
                None => m2,
            },
            cost(4, ea, Size::Long),
        ),
        _ => (
            match target {
                Some(addr) => push32_spec::<B>(m2, addr),
                None => m2,
            },
            cost(12, ea, Size::Long),
        ),
    }
}

fn address<B: Bus>(cpu: &mut Cpu, bus: &mut B, op: u16, k: Misc) -> (cycles: u32)
    requires
        B::wf(old(bus).st()),
    ensures
        B::wf(final(bus).st()),
        same(
            (mach(*final(cpu), *final(bus)), cycles),
            address_spec::<B>(mach(*old(cpu), *old(bus)), op, k),
        ),
{
    let ea: Ea = Ea::decode(cpu, bus, op & 0x3F, Size::Long);
    let target: Option<u32> = ea.compute_address(cpu, Size::Long);
    match k {
        Misc::Jmp => {
            match target {
                Some(addr) => {
                    cpu.jump_to(addr);
                }
                None => {
                    cpu.abort(bus, Exception::IllegalInstruction);
                }
            }
            8
        }
        Misc::Jsr => {
            match target {
                Some(addr) => {
                    if addr % 2 == 1 {
                        cpu.jump_to_subroutine(addr);
                    } else {
                        let pc: u32 = cpu.pc;
                        cpu.push32(bus, pc);
                        if cpu.address_error.is_none() {
                            cpu.jump_to_subroutine(addr);
                        }
                    }
                }
                None => {
                    cpu.abort(bus, Exception::IllegalInstruction);
                }
            }
            16
        }
        Misc::Lea => {
            match target {
                Some(addr) => {
                    cpu.set_a(reg_field(op >> 9), addr);
                }
                None => {}
            }
            cost(4, ea, Size::Long)
        }
        _ => {
            match target {
                Some(addr) => {
                    cpu.push32(bus, addr);
                }
                None => {}
            }
            cost(12, ea, Size::Long)
        }
    }
}

/// What a one-operand instruction does to its operand, and its base cost.
#[verifier::allow_in_spec]
pub fn unary_rmw(k: Misc) -> (Rmw, Size, u32)
    returns
        (match k {
            Misc::Tas => (Rmw::Tas, Size::Byte, 4u32),
            Misc::Clr(size) => (Rmw::Clr, size, 4u32),
            Misc::Not(size) => (Rmw::Not, size, 4u32),
            Misc::Neg(size) => (Rmw::Neg, size, 4u32),
            Misc::Negx(size) => (Rmw::Negx, size, 4u32),
            Misc::Nbcd => (Rmw::Nbcd, Size::Byte, 6u32),
            _ => (Rmw::FromSr, Size::Word, 6u32),
        }),
{
    match k {
        Misc::Tas => (Rmw::Tas, Size::Byte, 4),
        Misc::Clr(size) => (Rmw::Clr, size, 4),
        Misc::Not(size) => (Rmw::Not, size, 4),
        Misc::Neg(size) => (Rmw::Neg, size, 4),
        Misc::Negx(size) => (Rmw::Negx, size, 4),
        Misc::Nbcd => (Rmw::Nbcd, Size::Byte, 6),
        _ => (Rmw::FromSr, Size::Word, 6),
    }
}

/// TAS, CLR, NOT, NEG, NEGX, NBCD and MOVE from SR.
pub open spec fn unary_spec<B: Bus>(m: Mach<B::St>, op: u16, k: Misc) -> (Mach<B::St>, u32) {
    let (rmw, size, base) = unary_rmw(k);
    let (m1, ea) = Ea::decode_spec::<B>(m, op & 0x3F, size);
    (ea.modify_spec::<B>(m1, size, rmw, None), cost(base, ea, size))
}

fn unary<B: Bus>(cpu: &mut Cpu, bus: &mut B, op: u16, k: Misc) -> (cycles: u32)
    requires
        B::wf(old(bus).st()),
    ensures
        B::wf(final(bus).st()),
        same(
            (mach(*final(cpu), *final(bus)), cycles),
            unary_spec::<B>(mach(*old(cpu), *old(bus)), op, k),
        ),
{
    let (rmw, size, base): (Rmw, Size, u32) = unary_rmw(k);
    let ea: Ea = Ea::decode(cpu, bus, op & 0x3F, size);
    ea.modify(cpu, bus, size, rmw, None);
    cost(base, ea, size)
}

/// CHK after its bound is read: the status, and whether it traps. N tells which
/// bound was missed.
pub open spec fn chk_result(sr: u16, value: u32, bound: u32) -> (u16, bool) {
    let v = signed(value, Size::Word);
    let s = sr_set(sr_set(sr, StatusRegister::Z, false), StatusRegister::V, false);
    let s = sr_set(s, StatusRegister::C, false);
    (
        sr_set(s, StatusRegister::N, v < 0),
        v < 0 || v > signed(bound, Size::Word),
    )
}

fn compute_chk(sr: u16, value: u32, bound: u32) -> (r: (u16, bool))
    ensures
        r == chk_result(sr, value, bound),
{
    let v: i64 = crate::cpu::m68k::arith::to_signed(value, Size::Word);
    let b: i64 = crate::cpu::m68k::arith::to_signed(bound, Size::Word);
    let s: u16 = sr_set(sr_set(sr, StatusRegister::Z, false), StatusRegister::V, false);
    let s: u16 = sr_set(s, StatusRegister::C, false);
    (sr_set(s, StatusRegister::N, v < 0), v < 0 || v > b)
}

/// TST, MOVE to SR, MOVE to CCR and CHK: instructions that read one operand.
pub open spec fn reading_spec<B: Bus>(m: Mach<B::St>, op: u16, k: Misc) -> (Mach<B::St>, u32) {
    let size = match k {
        Misc::Tst(size) => size,
        _ => Size::Word,
    };
    let (m1, ea) = Ea::decode_spec::<B>(m, op & 0x3F, size);
    let (m2, v) = ea.read_spec::<B>(m1, size);
    if k == Misc::ToSr && !m.c.sup() {
        privilege_trap::<B>(m)
    } else if m2.c.fault is Some {
        (m2, 4)
    } else {
        match k {
            Misc::Tst(_) => (
                m2.with_c(m2.c.with_sr(sr_logic(m2.c.sr, v, size))),
                cost(4, ea, size),
            ),
            Misc::ToSr => (m2.with_c(write_sr_spec(m2.c, v as u16)), cost(12, ea, size)),
            Misc::ToCcr => (
                m2.with_c(m2.c.with_sr(with_ccr(m2.c.sr, v as u16))),
                cost(12, ea, size),
            ),
            _ => {
                let (sr, traps) = chk_result(m2.c.sr, m2.c.d[reg_field(op >> 9) as int], v);
                let m3 = m2.with_c(m2.c.with_sr(sr));
                if traps {
                    (enter_vector_spec::<B>(m3, Exception::Chk.vector()), 40)
                } else {
                    (m3, cost(10, ea, size))
                }
            },
        }
    }
}

fn reading<B: Bus>(cpu: &mut Cpu, bus: &mut B, op: u16, k: Misc) -> (cycles: u32)
    requires
        B::wf(old(bus).st()),
    ensures
        B::wf(final(bus).st()),
        same(
            (mach(*final(cpu), *final(bus)), cycles),
            reading_spec::<B>(mach(*old(cpu), *old(bus)), op, k),
        ),
{
    let to_sr: bool = match k {
        Misc::ToSr => true,
        _ => false,
    };
    if to_sr && !cpu.sr.supervisor() {
        cpu.abort(bus, Exception::PrivilegeViolation);
        return 34;
    }
    let size: Size = match k {
        Misc::Tst(size) => size,
        _ => Size::Word,
    };
    let ea: Ea = Ea::decode(cpu, bus, op & 0x3F, size);
    let v: u32 = ea.read(cpu, bus, size);
    if cpu.address_error.is_some() {
        return 4;
    }
    match k {
        Misc::Tst(_) => {
            let sr: u16 = sr_logic(cpu.sr.0, v, size);
            cpu.set_sr(sr);
            cost(4, ea, size)
        }
        Misc::ToSr => {
            write_sr(cpu, v as u16);
            cost(12, ea, size)
        }
        Misc::ToCcr => {
            let sr: u16 = with_ccr(cpu.sr.0, v as u16);
            cpu.set_sr(sr);
            cost(12, ea, size)
        }
        _ => {
            let (sr, traps): (u16, bool) = compute_chk(cpu.sr.0, cpu.d[reg_field(op >> 9)], v);
            cpu.set_sr(sr);
            if traps {
                cpu.enter_exception(bus, Exception::Chk);
                40
            } else {
                cost(10, ea, size)
            }
        }
    }
}

/// Line 4.
pub open spec fn misc_family_spec<B: Bus>(m: Mach<B::St>, op: u16) -> (Mach<B::St>, u32) {
    let k = decode_misc(op);
    match k {
        Misc::Nop => (m, 4),
        Misc::Rts | Misc::Rte | Misc::Rtr | Misc::Reset | Misc::Stop | Misc::TrapV | Misc::Trap =>
            control_spec::<B>(m, op, k),
        Misc::Link | Misc::Unlk | Misc::MoveUsp | Misc::Swap | Misc::Ext => register_spec::<B>(
            m,
            op,
            k,
        ),
        Misc::Jmp | Misc::Jsr | Misc::Lea | Misc::Pea => address_spec::<B>(m, op, k),
        Misc::Tst(_) | Misc::ToSr | Misc::ToCcr | Misc::Chk => reading_spec::<B>(m, op, k),
        Misc::Movem => (movem_spec::<B>(m, op), 20),
        Misc::Illegal => (abort_spec::<B>(m, Exception::IllegalInstruction), 34),
        _ => unary_spec::<B>(m, op, k),
    }
}

pub fn misc_family<B: Bus>(cpu: &mut Cpu, bus: &mut B, op: u16) -> (cycles: u32)
    requires
        B::wf(old(bus).st()),
    ensures
        B::wf(final(bus).st()),
        same(
            (mach(*final(cpu), *final(bus)), cycles),
            misc_family_spec::<B>(mach(*old(cpu), *old(bus)), op),
        ),
{
    let k: Misc = decode_misc(op);
    match k {
        Misc::Nop => 4,
        Misc::Rts | Misc::Rte | Misc::Rtr | Misc::Reset | Misc::Stop | Misc::TrapV | Misc::Trap =>
            control(cpu, bus, op, k),
        Misc::Link | Misc::Unlk | Misc::MoveUsp | Misc::Swap | Misc::Ext => register(
            cpu,
            bus,
            op,
            k,
        ),
        Misc::Jmp | Misc::Jsr | Misc::Lea | Misc::Pea => address(cpu, bus, op, k),
        Misc::Tst(_) | Misc::ToSr | Misc::ToCcr | Misc::Chk => reading(cpu, bus, op, k),
        Misc::Movem => movem(cpu, bus, op),
        Misc::Illegal => {
            cpu.abort(bus, Exception::IllegalInstruction);
            34
        }
        _ => unary(cpu, bus, op, k),
    }
}

}
