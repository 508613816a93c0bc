//! Instruction stepping and interrupts.
//!
//! An instruction that touches F does so through `Cpu::set_f`, which notes the
//! fact; the copy Q of F is then settled once per step, and SCF and CCF consult
//! it for their undocumented bits.
use vstd::prelude::*;
use crate::bits::same;
use crate::cpu::z80::bus::Z80Bus;
use crate::cpu::z80::cpu::{refreshed, word, Cpu, Out, Regs};
use crate::cpu::z80::index::{
    decode_plain, exec_index, exec_index_spec, is_index_prefix, plain_spec, prefixes_end,
};

verus! {

/// The non-maskable interrupt: a call of 0066 that saves IFF1 in IFF2.
pub open spec fn service_nmi_spec<B: Z80Bus>(c: Cpu, s: B::St) -> Out<B::St, u32> {
    let regs = Regs {
        halted: false,
        iff2: c.regs.iff1,
        iff1: false,
        r: refreshed(c.regs.r),
        q: 0,
        ..c.regs
    };
    let c1 = Cpu { regs, nmi_pending: false, ..c };
    let (c2, s1) = c1.push16_spec::<B>(s, c.regs.pc);
    (c2.jumped(0x0066), s1, 11)
}

pub fn service_nmi<B: Z80Bus>(cpu: &mut Cpu, bus: &mut B) -> (cycles: u32)
    requires
        B::wf(old(bus).st()),
    ensures
        B::wf(final(bus).st()),
        same(
            (*final(cpu), final(bus).st(), cycles),
            service_nmi_spec::<B>(*old(cpu), old(bus).st()),
        ),
{
    cpu.regs.halted = false;
    cpu.regs.iff2 = cpu.regs.iff1;
    cpu.regs.iff1 = false;
    cpu.regs.r = refreshed(cpu.regs.r);
    cpu.regs.q = 0;
    cpu.nmi_pending = false;
    let pc: u16 = cpu.regs.pc;
    cpu.push16(bus, pc);
    cpu.jump(0x0066);
    11
}

/// A maskable interrupt is acknowledged: interrupts off, the line released.
pub open spec fn acknowledged(c: Cpu) -> Cpu {
    let regs = Regs {
        halted: false,
        iff1: false,
        iff2: false,
        r: refreshed(c.regs.r),
        q: 0,
        ..c.regs
    };
    Cpu { regs, irq_line: false, ..c }
}

/// The maskable interrupt. Mode 0 runs the RST that the data byte encodes, mode
/// 1 calls 0038, mode 2 calls through the table entry that I and the data byte
/// select.
pub open spec fn service_irq_spec<B: Z80Bus>(c: Cpu, s: B::St) -> Out<B::St, u32> {
    let (c1, s1) = acknowledged(c).push16_spec::<B>(s, c.regs.pc);
    match c.regs.im {
        0 => (c1.jumped((c.irq_data & 0x38) as u16), s1, 13),
        1 => (c1.jumped(0x0038), s1, 13),
        _ => {
            let entry = word(c.regs.i, c.irq_data & 0xFE);
            let next = entry.wrapping_add(1);
            let (s2, lo) = (B::read_next(s1, entry), B::read_val(s1, entry));
            let (s3, hi) = (B::read_next(s2, next), B::read_val(s2, next));
            (c1.jumped(word(hi, lo)), s3, 19)
        },
    }
}

pub fn service_irq<B: Z80Bus>(cpu: &mut Cpu, bus: &mut B) -> (cycles: u32)
    requires
        B::wf(old(bus).st()),
    ensures
        B::wf(final(bus).st()),
        same(
            (*final(cpu), final(bus).st(), cycles),
            service_irq_spec::<B>(*old(cpu), old(bus).st()),
        ),
{
    let im: u8 = cpu.regs.im;
    let i: u8 = cpu.regs.i;
    let data: u8 = cpu.irq_data;
    let pc: u16 = cpu.regs.pc;
    cpu.regs.halted = false;
    cpu.regs.iff1 = false;
    cpu.regs.iff2 = false;
    cpu.regs.r = refreshed(cpu.regs.r);
    cpu.regs.q = 0;
    cpu.clear_irq();
    cpu.push16(bus, pc);
    match im {
        0 => {
            cpu.jump((data & 0x38) as u16);
            13
        }
        1 => {
            cpu.jump(0x0038);
            13
        }
        _ => {
            let entry: u16 = word(i, data & 0xFE);
            let lo: u8 = bus.read(entry);
            let hi: u8 = bus.read(entry.wrapping_add(1));
            cpu.jump(word(hi, lo));
            19
        }
    }
}

/// One instruction whose first byte `op` has been fetched.
pub open spec fn decode_main_spec<B: Z80Bus>(c: Cpu, s: B::St, op: u8) -> Out<B::St, u32> {
    if is_index_prefix(op) {
        exec_index_spec::<B>(c, s, op == 0xDD)
    } else {
        plain_spec::<B>(c, s, op)
    }
}

pub fn decode_main<B: Z80Bus>(cpu: &mut Cpu, bus: &mut B, op: u8) -> (cycles: u32)
    requires
        B::wf(old(bus).st()),
        is_index_prefix(op) ==> prefixes_end::<B>(*old(cpu), old(bus).st(), op == 0xDD),
    ensures
        B::wf(final(bus).st()),
        same(
            (*final(cpu), final(bus).st(), cycles),
            decode_main_spec::<B>(*old(cpu), old(bus).st(), op),
        ),
{
    if is_index_prefix(op) {
        exec_index(cpu, bus, op == 0xDD)
    } else {
        decode_plain(cpu, bus, op)
    }
}

/// Whether the next step takes an interrupt or idles in HALT instead of running
/// an instruction.
pub open spec fn takes_irq(c: Cpu) -> bool {
    c.irq_line && c.regs.iff1 && !c.ei_delay
}

/// The first byte of the next instruction, with the F tracker cleared.
pub open spec fn first_fetch<B: Z80Bus>(c: Cpu, s: B::St) -> Out<B::St, u8> {
    c.with_regs(Regs { f_was_written: false, ..c.regs }).fetch_op_spec::<B>(s)
}

/// Every step is defined except on an instruction that is nothing but index
/// prefixes for ever.
pub open spec fn can_step<B: Z80Bus>(c: Cpu, s: B::St) -> bool {
    let (c1, s1, op) = first_fetch::<B>(c, s);
    c.nmi_pending || takes_irq(c) || c.regs.halted || (is_index_prefix(op)
        ==> prefixes_end::<B>(c1, s1, op == 0xDD))
}

/// One step: the interrupt inputs first, then HALT, then an instruction.
pub open spec fn step_spec<B: Z80Bus>(c: Cpu, s: B::St) -> Out<B::St, u32> {
    if c.nmi_pending {
        service_nmi_spec::<B>(c, s)
    } else if takes_irq(c) {
        service_irq_spec::<B>(c, s)
    } else if c.regs.halted {
        (
            Cpu {
                regs: Regs { r: refreshed(c.regs.r), q: 0, ..c.regs },
                ei_delay: false,
                ..c
            },
            s,
            4,
        )
    } else {
        let (c1, s1, op) = first_fetch::<B>(c, s);
        let (c2, s2, cycles) = decode_main_spec::<B>(c1, s1, op);
        let q = if c2.regs.f_was_written {
            c2.regs.f
        } else {
            0
        };
        let c3 = c2.with_q(q);
        (
            if c.ei_delay { Cpu { ei_delay: false, ..c3 } } else { c3 },
            s2,
            cycles,
        )
    }
}

impl Cpu {
    /// Run one instruction, or take one pending interrupt. Returns the clock
    /// cycles spent.
    pub fn step<B: Z80Bus>(&mut self, bus: &mut B) -> (cycles: u32)
        requires
            B::wf(old(bus).st()),
            can_step::<B>(*old(self), old(bus).st()),
        ensures
            B::wf(final(bus).st()),
            same(
                (*final(self), final(bus).st(), cycles),
                step_spec::<B>(*old(self), old(bus).st()),
            ),
    {
        if self.nmi_pending {
            return service_nmi(self, bus);
        }
        if self.irq_line && self.regs.iff1 && !self.ei_delay {
            return service_irq(self, bus);
        }
        let was_ei_delay: bool = self.ei_delay;
        if self.regs.halted {
            self.regs.r = refreshed(self.regs.r);
            self.regs.q = 0;
            self.ei_delay = false;
            return 4;
        }
        self.regs.f_was_written = false;
        let op: u8 = self.fetch_op(bus);
        let cycles: u32 = decode_main(self, bus, op);
        let q: u8 = if self.regs.f_was_written {
            self.regs.f
        } else {
            0
        };
        self.set_q(q);
        if was_ei_delay {
            self.ei_delay = false;
        }
        cycles
    }
}

}
