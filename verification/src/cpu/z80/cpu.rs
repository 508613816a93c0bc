//! Registers, interrupt lines and the operand fetches of the Z80.
use vstd::prelude::*;
use crate::bits::same;
use crate::cpu::z80::bus::Z80Bus;
use crate::cpu::z80::flags::Flag;

verus! {

/// The byte pair `hi`, `lo` as a word.
#[verifier::allow_in_spec]
pub fn word(hi: u8, lo: u8) -> u16
    returns
        ((hi as u16) << 8) | (lo as u16),
{
    ((hi as u16) << 8) | (lo as u16)
}

/// The high byte of a word.
#[verifier::allow_in_spec]
pub fn high(w: u16) -> u8
    returns
        (w >> 8) as u8,
{
    (w >> 8) as u8
}

/// The low byte of a word.
#[verifier::allow_in_spec]
pub fn low(w: u16) -> u8
    returns
        (w & 0xFF) as u8,
{
    proof {
        crate::bits::low_byte(w);
    }
    (w & 0xFF) as u8
}

/// `base` moved by a displacement byte, read as signed.
#[verifier::allow_in_spec]
pub fn displaced(base: u16, d: u8) -> u16
    returns
        base.wrapping_add(d as i8 as i16 as u16),
{
    base.wrapping_add(d as i8 as i16 as u16)
}

/// The refresh counter after one instruction fetch: its low seven bits count,
/// bit 7 is kept.
#[verifier::allow_in_spec]
pub fn refreshed(r: u8) -> u8
    returns
        (r & 0x80) | (r.wrapping_add(1) & 0x7F),
{
    (r & 0x80) | (r.wrapping_add(1) & 0x7F)
}

/// The register file.
#[derive(Debug, Clone, Copy, PartialEq, Eq)]
pub struct Regs {
    pub a: u8,
    pub f: u8,
    pub b: u8,
    pub c: u8,
    pub d: u8,
    pub e: u8,
    pub h: u8,
    pub l: u8,
    /// The alternate set.
    pub af_: u16,
    pub bc_: u16,
    pub de_: u16,
    pub hl_: u16,
    pub ix: u16,
    pub iy: u16,
    pub sp: u16,
    pub pc: u16,
    /// The internal address latch, also called MEMPTR.
    pub wz: u16,
    pub i: u8,
    pub r: u8,
    /// The interrupt mode: 0, 1, or anything else for 2.
    pub im: u8,
    pub iff1: bool,
    pub iff2: bool,
    pub halted: bool,
    /// F as the last instruction wrote it, zero if it did not.
    pub q: u8,
    /// Whether the running instruction has written F.
    pub f_was_written: bool,
}

impl Regs {
    #[verifier::allow_in_spec]
    pub fn af(&self) -> u16
        returns
            word(self.a, self.f),
    {
        word(self.a, self.f)
    }

    #[verifier::allow_in_spec]
    pub fn bc(&self) -> u16
        returns
            word(self.b, self.c),
    {
        word(self.b, self.c)
    }

    #[verifier::allow_in_spec]
    pub fn de(&self) -> u16
        returns
            word(self.d, self.e),
    {
        word(self.d, self.e)
    }

    #[verifier::allow_in_spec]
    pub fn hl(&self) -> u16
        returns
            word(self.h, self.l),
    {
        word(self.h, self.l)
    }

    pub open spec fn with_af(self, v: u16) -> Regs {
        Regs { a: high(v), f: low(v), ..self }
    }

    pub open spec fn with_bc(self, v: u16) -> Regs {
        Regs { b: high(v), c: low(v), ..self }
    }

    pub open spec fn with_de(self, v: u16) -> Regs {
        Regs { d: high(v), e: low(v), ..self }
    }

    pub open spec fn with_hl(self, v: u16) -> Regs {
        Regs { h: high(v), l: low(v), ..self }
    }

    pub fn set_af(&mut self, v: u16)
        ensures
            *final(self) == old(self).with_af(v),
    {
        self.a = high(v);
        self.f = low(v);
    }

    pub fn set_bc(&mut self, v: u16)
        ensures
            *final(self) == old(self).with_bc(v),
    {
        self.b = high(v);
        self.c = low(v);
    }

    pub fn set_de(&mut self, v: u16)
        ensures
            *final(self) == old(self).with_de(v),
    {
        self.d = high(v);
        self.e = low(v);
    }

    pub fn set_hl(&mut self, v: u16)
        ensures
            *final(self) == old(self).with_hl(v),
    {
        self.h = high(v);
        self.l = low(v);
    }

    /// The eight-bit register that the low three bits of `code` name. Code 6
    /// names the memory byte at HL and no register; it reads as zero here.
    #[verifier::allow_in_spec]
    pub fn reg8(&self, code: u8) -> u8
        returns
            (match code & 7 {
                0 => self.b,
                1 => self.c,
                2 => self.d,
                3 => self.e,
                4 => self.h,
                5 => self.l,
                6 => 0,
                _ => self.a,
            }),
    {
        match code & 7 {
            0 => self.b,
            1 => self.c,
            2 => self.d,
            3 => self.e,
            4 => self.h,
            5 => self.l,
            6 => 0,
            _ => self.a,
        }
    }

    pub open spec fn with_reg8(self, code: u8, v: u8) -> Regs {
        match code & 7 {
            0 => Regs { b: v, ..self },
            1 => Regs { c: v, ..self },
            2 => Regs { d: v, ..self },
            3 => Regs { e: v, ..self },
            4 => Regs { h: v, ..self },
            5 => Regs { l: v, ..self },
            6 => self,
            _ => Regs { a: v, ..self },
        }
    }

    /// Write the register that `code` names; nothing for code 6.
    pub fn set_reg8(&mut self, code: u8, v: u8)
        ensures
            *final(self) == old(self).with_reg8(code, v),
    {
        match code & 7 {
            0 => {
                self.b = v;
            }
            1 => {
                self.c = v;
            }
            2 => {
                self.d = v;
            }
            3 => {
                self.e = v;
            }
            4 => {
                self.h = v;
            }
            5 => {
                self.l = v;
            }
            6 => {}
            _ => {
                self.a = v;
            }
        }
    }

    #[verifier::allow_in_spec]
    pub fn get_flag(&self, flag: Flag) -> bool
        returns
            (self.f & flag.mask()) != 0,
    {
        (self.f & flag.mask()) != 0
    }
}

/// The processor: registers and interrupt inputs.
#[derive(Debug, Clone, Copy, PartialEq, Eq)]
pub struct Cpu {
    pub regs: Regs,
    pub nmi_pending: bool,
    pub irq_line: bool,
    /// What the interrupting device puts on the data bus.
    pub irq_data: u8,
    /// Interrupts stay masked for one instruction after EI.
    pub ei_delay: bool,
}

/// The processor and the bus after a step that also gives a value.
pub type Out<S, V> = (Cpu, S, V);

impl Cpu {
    /// A processor as RESET leaves it.
    pub open spec fn at_reset() -> Cpu {
        Cpu {
            regs: Regs {
                a: 0xFF,
                f: 0xFF,
                b: 0,
                c: 0,
                d: 0,
                e: 0,
                h: 0,
                l: 0,
                af_: 0,
                bc_: 0,
                de_: 0,
                hl_: 0,
                ix: 0,
                iy: 0,
                sp: 0xFFFF,
                pc: 0,
                wz: 0,
                i: 0,
                r: 0,
                im: 0,
                iff1: false,
                iff2: false,
                halted: false,
                q: 0,
                f_was_written: false,
            },
            nmi_pending: false,
            irq_line: false,
            irq_data: 0xFF,
            ei_delay: false,
        }
    }

    pub fn new() -> (c: Cpu)
        ensures
            c == Cpu::at_reset(),
    {
        Cpu {
            regs: Regs {
                a: 0xFF,
                f: 0xFF,
                b: 0,
                c: 0,
                d: 0,
                e: 0,
                h: 0,
                l: 0,
                af_: 0,
                bc_: 0,
                de_: 0,
                hl_: 0,
                ix: 0,
                iy: 0,
                sp: 0xFFFF,
                pc: 0,
                wz: 0,
                i: 0,
                r: 0,
                im: 0,
                iff1: false,
                iff2: false,
                halted: false,
                q: 0,
                f_was_written: false,
            },
            nmi_pending: false,
            irq_line: false,
            irq_data: 0xFF,
            ei_delay: false,
        }
    }

    pub open spec fn with_regs(self, regs: Regs) -> Cpu {
        Cpu { regs, ..self }
    }

    pub open spec fn with_a(self, a: u8) -> Cpu {
        self.with_regs(Regs { a, ..self.regs })
    }

    pub open spec fn with_pc(self, pc: u16) -> Cpu {
        self.with_regs(Regs { pc, ..self.regs })
    }

    pub open spec fn with_sp(self, sp: u16) -> Cpu {
        self.with_regs(Regs { sp, ..self.regs })
    }

    pub open spec fn with_wz(self, wz: u16) -> Cpu {
        self.with_regs(Regs { wz, ..self.regs })
    }

    pub open spec fn with_q(self, q: u8) -> Cpu {
        self.with_regs(Regs { q, ..self.regs })
    }

    pub open spec fn with_bc(self, v: u16) -> Cpu {
        self.with_regs(self.regs.with_bc(v))
    }

    pub open spec fn with_de(self, v: u16) -> Cpu {
        self.with_regs(self.regs.with_de(v))
    }

    pub open spec fn with_hl(self, v: u16) -> Cpu {
        self.with_regs(self.regs.with_hl(v))
    }

    pub open spec fn with_af(self, v: u16) -> Cpu {
        self.with_regs(self.regs.with_af(v))
    }

    pub open spec fn with_reg8(self, code: u8, v: u8) -> Cpu {
        self.with_regs(self.regs.with_reg8(code, v))
    }

    /// F written by an instruction that counts as touching the flags.
    pub open spec fn with_f(self, f: u8) -> Cpu {
        self.with_regs(Regs { f, f_was_written: true, ..self.regs })
    }

    /// PC and the address latch both at `target`.
    pub open spec fn jumped(self, target: u16) -> Cpu {
        self.with_regs(Regs { pc: target, wz: target, ..self.regs })
    }

    /// Write A.
    pub fn set_a(&mut self, v: u8)
        ensures
            *final(self) == old(self).with_a(v),
    {
        self.regs.a = v;
    }

    /// Write PC.
    pub fn set_pc(&mut self, v: u16)
        ensures
            *final(self) == old(self).with_pc(v),
    {
        self.regs.pc = v;
    }

    /// Write SP.
    pub fn set_sp(&mut self, v: u16)
        ensures
            *final(self) == old(self).with_sp(v),
    {
        self.regs.sp = v;
    }

    /// Write the address latch.
    pub fn set_wz(&mut self, v: u16)
        ensures
            *final(self) == old(self).with_wz(v),
    {
        self.regs.wz = v;
    }

    /// Write the copy of F that SCF and CCF consult.
    pub fn set_q(&mut self, v: u8)
        ensures
            *final(self) == old(self).with_q(v),
    {
        self.regs.q = v;
    }

    /// Write BC.
    pub fn set_bc(&mut self, v: u16)
        ensures
            *final(self) == old(self).with_bc(v),
    {
        self.regs.set_bc(v);
    }

    /// Write DE.
    pub fn set_de(&mut self, v: u16)
        ensures
            *final(self) == old(self).with_de(v),
    {
        self.regs.set_de(v);
    }

    /// Write HL.
    pub fn set_hl(&mut self, v: u16)
        ensures
            *final(self) == old(self).with_hl(v),
    {
        self.regs.set_hl(v);
    }

    /// Write AF.
    pub fn set_af(&mut self, v: u16)
        ensures
            *final(self) == old(self).with_af(v),
    {
        self.regs.set_af(v);
    }

    /// Write the register that `code` names; nothing for code 6.
    pub fn set_reg8(&mut self, code: u8, v: u8)
        ensures
            *final(self) == old(self).with_reg8(code, v),
    {
        self.regs.set_reg8(code, v);
    }

    /// Write F and note that the running instruction did.
    pub fn set_f(&mut self, f: u8)
        ensures
            *final(self) == old(self).with_f(f),
    {
        self.regs.f = f;
        self.regs.f_was_written = true;
    }

    /// Go on at `target`.
    pub fn jump(&mut self, target: u16)
        ensures
            *final(self) == old(self).jumped(target),
    {
        self.regs.pc = target;
        self.regs.wz = target;
    }

    /// Raise the non-maskable interrupt; it is taken at the next step.
    pub fn request_nmi(&mut self)
        ensures
            *final(self) == (Cpu { nmi_pending: true, ..*old(self) }),
    {
        self.nmi_pending = true;
    }

    /// Drive the maskable interrupt line.
    pub fn set_irq(&mut self, data: u8)
        ensures
            *final(self) == (Cpu { irq_line: true, irq_data: data, ..*old(self) }),
    {
        self.irq_line = true;
        self.irq_data = data;
    }

    /// Release the maskable interrupt line.
    pub fn clear_irq(&mut self)
        ensures
            *final(self) == (Cpu { irq_line: false, ..*old(self) }),
    {
        self.irq_line = false;
    }

    /// An instruction fetch: the byte at PC, with PC and R advanced.
    pub open spec fn fetch_op_spec<B: Z80Bus>(self, s: B::St) -> Out<B::St, u8> {
        let pc = self.regs.pc;
        (
            self.with_regs(
                Regs { pc: pc.wrapping_add(1), r: refreshed(self.regs.r), ..self.regs },
            ),
            B::read_next(s, pc),
            B::read_val(s, pc),
        )
    }

    pub fn fetch_op<B: Z80Bus>(&mut self, bus: &mut B) -> (op: u8)
        requires
            B::wf(old(bus).st()),
        ensures
            B::wf(final(bus).st()),
            same((*final(self), final(bus).st(), op), old(self).fetch_op_spec::<B>(old(bus).st())),
    {
        let op: u8 = bus.read(self.regs.pc);
        self.regs.pc = self.regs.pc.wrapping_add(1);
        self.regs.r = refreshed(self.regs.r);
        op
    }

    /// An operand byte: the byte at PC, with PC advanced.
    pub open spec fn read_op_spec<B: Z80Bus>(self, s: B::St) -> Out<B::St, u8> {
        let pc = self.regs.pc;
        (self.with_pc(pc.wrapping_add(1)), B::read_next(s, pc), B::read_val(s, pc))
    }

    pub fn read_op<B: Z80Bus>(&mut self, bus: &mut B) -> (v: u8)
        requires
            B::wf(old(bus).st()),
        ensures
            B::wf(final(bus).st()),
            same((*final(self), final(bus).st(), v), old(self).read_op_spec::<B>(old(bus).st())),
    {
        let v: u8 = bus.read(self.regs.pc);
        self.regs.pc = self.regs.pc.wrapping_add(1);
        v
    }

    /// An operand word, low byte first.
    #[verifier::opaque]
    pub open spec fn read_op16_spec<B: Z80Bus>(self, s: B::St) -> Out<B::St, u16> {
        let (c1, s1, lo) = self.read_op_spec::<B>(s);
        let (c2, s2, hi) = c1.read_op_spec::<B>(s1);
        (c2, s2, word(hi, lo))
    }

    pub fn read_op16<B: Z80Bus>(&mut self, bus: &mut B) -> (v: u16)
        requires
            B::wf(old(bus).st()),
        ensures
            B::wf(final(bus).st()),
            same((*final(self), final(bus).st(), v), old(self).read_op16_spec::<B>(old(bus).st())),
    {
        proof {
            reveal(Cpu::read_op16_spec);
        }
        let lo: u8 = self.read_op(bus);
        let hi: u8 = self.read_op(bus);
        word(hi, lo)
    }

    /// Push a word: the high byte below SP, the low byte below that.
    #[verifier::opaque]
    pub open spec fn push16_spec<B: Z80Bus>(self, s: B::St, v: u16) -> (Cpu, B::St) {
        let sp1 = self.regs.sp.wrapping_sub(1);
        let sp2 = sp1.wrapping_sub(1);
        (self.with_sp(sp2), B::write_next(B::write_next(s, sp1, high(v)), sp2, low(v)))
    }

    pub fn push16<B: Z80Bus>(&mut self, bus: &mut B, v: u16)
        requires
            B::wf(old(bus).st()),
        ensures
            B::wf(final(bus).st()),
            same((*final(self), final(bus).st()), old(self).push16_spec::<B>(old(bus).st(), v)),
    {
        proof {
            reveal(Cpu::push16_spec);
        }
        self.regs.sp = self.regs.sp.wrapping_sub(1);
        bus.write(self.regs.sp, high(v));
        self.regs.sp = self.regs.sp.wrapping_sub(1);
        bus.write(self.regs.sp, low(v));
    }

    /// Pop a word: the low byte at SP, the high byte above it.
    #[verifier::opaque]
    pub open spec fn pop16_spec<B: Z80Bus>(self, s: B::St) -> Out<B::St, u16> {
        let sp = self.regs.sp;
        let (s1, lo) = (B::read_next(s, sp), B::read_val(s, sp));
        let sp1 = sp.wrapping_add(1);
        (
            self.with_sp(sp1.wrapping_add(1)),
            B::read_next(s1, sp1),
            word(B::read_val(s1, sp1), lo),
        )
    }

    pub fn pop16<B: Z80Bus>(&mut self, bus: &mut B) -> (v: u16)
        requires
            B::wf(old(bus).st()),
        ensures
            B::wf(final(bus).st()),
            same((*final(self), final(bus).st(), v), old(self).pop16_spec::<B>(old(bus).st())),
    {
        proof {
            reveal(Cpu::pop16_spec);
        }
        let lo: u8 = bus.read(self.regs.sp);
        self.regs.sp = self.regs.sp.wrapping_add(1);
        let hi: u8 = bus.read(self.regs.sp);
        self.regs.sp = self.regs.sp.wrapping_add(1);
        word(hi, lo)
    }
}

/// The byte halves of a word give the word back, and those of `word(h, l)` are
/// `h` and `l`.
pub proof fn word_halves(w: u16, h: u8, l: u8)
    ensures
        word(high(w), low(w)) == w,
        high(word(h, l)) == h,
        low(word(h, l)) == l,
{
    crate::bits::byte_pair(w, h, l);
}

}
