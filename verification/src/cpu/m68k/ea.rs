//! Effective addresses.
use vstd::prelude::*;
use crate::bits::same;
use crate::cpu::m68k::bus::{read32, read32_spec, write32, write32_next, Bus};
use crate::cpu::m68k::cpu::{
    fetch16_spec, fetch32_spec, mach, sext16, sext8, AddressErrorInfo, Cpu, CpuState, Mach, Size,
};
use crate::cpu::m68k::rmw::{rmw_spec, Rmw};

verus! {

/// A decoded operand. Register numbers are below eight.
#[derive(Debug, Clone, Copy, PartialEq, Eq)]
pub enum Ea {
    DataReg(usize),
    AddrReg(usize),
    /// (An)
    AddrInd(usize),
    /// (An)+
    PostInc(usize),
    /// -(An)
    PreDec(usize),
    /// (d16,An), the displacement sign-extended
    AddrDisp(usize, u32),
    /// (d8,An,Xn), with the extension word
    AddrIdx(usize, u16),
    /// (xxx).w and (xxx).l
    Absolute(u32),
    /// (d16,PC), as an address
    PcIndDisp(u32),
    /// (d8,PC,Xn), with the base and the extension word
    PcIndIdx(u32, u16),
    Immediate(u32),
}

/// The three low bits of `x` as an index.
#[verifier::allow_in_spec]
pub fn reg_field(x: u16) -> (n: usize)
    ensures
        n < 8,
    returns
        (x & 7) as usize,
{
    proof {
        crate::bits::three_bits16(x);
    }
    (x & 7) as usize
}

/// The same as a mathematical index.
pub open spec fn reg_number(x: u16) -> int {
    reg_field(x) as int
}

/// What an extension word adds to its base: a sign-extended byte, and an index
/// register taken as a long word or a sign-extended word.
pub open spec fn index_offset(c: CpuState, ext: u16) -> u32 {
    let n = reg_field(ext >> 12) as int;
    let reg = if ext & 0x8000 != 0 {
        c.a[n]
    } else {
        c.d[n]
    };
    let idx = if ext & 0x0800 != 0 {
        reg
    } else {
        sext16(reg)
    };
    sext8(ext as u32).wrapping_add(idx)
}

/// How far (An)+ and -(An) move: by the operand size, but A7 stays even.
#[verifier::allow_in_spec]
pub fn step_of(reg: usize, size: Size) -> u32
    returns
        (if reg == 7 && size == Size::Byte {
            2
        } else {
            size.bytes()
        }),
{
    if reg == 7 && size == Size::Byte {
        2
    } else {
        size.bytes()
    }
}

impl Ea {
    pub open spec fn wf(self) -> bool {
        match self {
            Ea::DataReg(n) => n < 8,
            Ea::AddrReg(n) => n < 8,
            Ea::AddrInd(n) => n < 8,
            Ea::PostInc(n) => n < 8,
            Ea::PreDec(n) => n < 8,
            Ea::AddrDisp(n, _) => n < 8,
            Ea::AddrIdx(n, _) => n < 8,
            _ => true,
        }
    }

    #[verifier::allow_in_spec]
    pub fn is_reg_direct(self) -> bool
        returns
            (match self {
                Ea::DataReg(_) => true,
                Ea::AddrReg(_) => true,
                _ => false,
            }),
    {
        match self {
            Ea::DataReg(_) => true,
            Ea::AddrReg(_) => true,
            _ => false,
        }
    }

    #[verifier::allow_in_spec]
    pub fn is_immediate(self) -> bool
        returns
            (match self {
                Ea::Immediate(_) => true,
                _ => false,
            }),
    {
        match self {
            Ea::Immediate(_) => true,
            _ => false,
        }
    }

    #[verifier::allow_in_spec]
    pub fn is_pc_relative(self) -> bool
        returns
            (match self {
                Ea::PcIndDisp(_) => true,
                Ea::PcIndIdx(_, _) => true,
                _ => false,
            }),
    {
        match self {
            Ea::PcIndDisp(_) => true,
            Ea::PcIndIdx(_, _) => true,
            _ => false,
        }
    }

    /// Which address register the operand is, if it is one.
    #[verifier::allow_in_spec]
    pub fn addr_reg(self) -> Option<usize>
        returns
            (match self {
                Ea::AddrReg(n) => Some(n),
                _ => None,
            }),
    {
        match self {
            Ea::AddrReg(n) => Some(n),
            _ => None,
        }
    }

    /// The clock cycles that reaching the operand costs.
    #[verifier::allow_in_spec]
    pub fn cycles(self, size: Size) -> (r: u32)
        ensures
            r <= 16,
        returns
            ({
                let extra = if size == Size::Long {
                    4u32
                } else {
                    0u32
                };
                match self {
                    Ea::DataReg(_) => 0u32,
                    Ea::AddrReg(_) => 0u32,
                    Ea::AddrInd(_) => (4 + extra) as u32,
                    Ea::PostInc(_) => (4 + extra) as u32,
                    Ea::PreDec(_) => (6 + extra) as u32,
                    Ea::AddrDisp(_, _) => (8 + extra) as u32,
                    Ea::AddrIdx(_, _) => (10 + extra) as u32,
                    Ea::Absolute(_) => (8 + extra) as u32,
                    Ea::PcIndDisp(_) => (8 + extra) as u32,
                    Ea::PcIndIdx(_, _) => (10 + extra) as u32,
                    Ea::Immediate(_) => (4 + extra) as u32,
                }
            }),
    {
        let extra: u32 = if size == Size::Long {
            4
        } else {
            0
        };
        match self {
            Ea::DataReg(_) => 0,
            Ea::AddrReg(_) => 0,
            Ea::AddrInd(_) => 4 + extra,
            Ea::PostInc(_) => 4 + extra,
            Ea::PreDec(_) => 6 + extra,
            Ea::AddrDisp(_, _) => 8 + extra,
            Ea::AddrIdx(_, _) => 10 + extra,
            Ea::Absolute(_) => 8 + extra,
            Ea::PcIndDisp(_) => 8 + extra,
            Ea::PcIndIdx(_, _) => 10 + extra,
            Ea::Immediate(_) => 4 + extra,
        }
    }

    /// The operand that the six low bits of `bits` name, with its extension
    /// words fetched. Unused encodings are an immediate zero.
    #[verifier::opaque]
    pub open spec fn decode_spec<B: Bus>(m: Mach<B::St>, bits: u16, size: Size) -> (
        Mach<B::St>,
        Ea,
    ) {
        let n = reg_field(bits);
        match (bits >> 3) & 7 {
            0 => (m, Ea::DataReg(n)),
            1 => (m, Ea::AddrReg(n)),
            2 => (m, Ea::AddrInd(n)),
            3 => (m, Ea::PostInc(n)),
            4 => (m, Ea::PreDec(n)),
            5 => {
                let (m1, w) = fetch16_spec::<B>(m);
                (m1, Ea::AddrDisp(n, sext16(w as u32)))
            },
            6 => {
                let (m1, w) = fetch16_spec::<B>(m);
                (m1, Ea::AddrIdx(n, w))
            },
            _ => match n {
                0 => {
                    let (m1, w) = fetch16_spec::<B>(m);
                    (m1, Ea::Absolute(sext16(w as u32)))
                },
                1 => {
                    let (m1, v) = fetch32_spec::<B>(m);
                    (m1, Ea::Absolute(v))
                },
                2 => {
                    let (m1, w) = fetch16_spec::<B>(m);
                    (m1, Ea::PcIndDisp(m.c.pc.wrapping_add(sext16(w as u32))))
                },
                3 => {
                    let (m1, w) = fetch16_spec::<B>(m);
                    (m1, Ea::PcIndIdx(m.c.pc, w))
                },
                4 => match size {
                    Size::Byte => {
                        let (m1, w) = fetch16_spec::<B>(m);
                        (m1, Ea::Immediate((w & 0xFF) as u32))
                    },
                    Size::Word => {
                        let (m1, w) = fetch16_spec::<B>(m);
                        (m1, Ea::Immediate(w as u32))
                    },
                    Size::Long => {
                        let (m1, v) = fetch32_spec::<B>(m);
                        (m1, Ea::Immediate(v))
                    },
                },
                _ => (m, Ea::Immediate(0)),
            },
        }
    }

    pub fn decode<B: Bus>(cpu: &mut Cpu, bus: &mut B, bits: u16, size: Size) -> (ea: Ea)
        requires
            B::wf(old(bus).st()),
        ensures
            B::wf(final(bus).st()),
            ea.wf(),
            same(
                (mach(*final(cpu), *final(bus)), ea),
                Ea::decode_spec::<B>(mach(*old(cpu), *old(bus)), bits, size),
            ),
    {
        proof {
            reveal(Ea::decode_spec);
        }
        let n: usize = reg_field(bits);
        let pc: u32 = cpu.pc;
        match (bits >> 3) & 7 {
            0 => Ea::DataReg(n),
            1 => Ea::AddrReg(n),
            2 => Ea::AddrInd(n),
            3 => Ea::PostInc(n),
            4 => Ea::PreDec(n),
            5 => {
                let w: u16 = cpu.fetch16(bus);
                Ea::AddrDisp(n, sext16(w as u32))
            }
            6 => {
                let w: u16 = cpu.fetch16(bus);
                Ea::AddrIdx(n, w)
            }
            _ => match n {
                0 => {
                    let w: u16 = cpu.fetch16(bus);
                    Ea::Absolute(sext16(w as u32))
                }
                1 => {
                    let v: u32 = cpu.fetch32(bus);
                    Ea::Absolute(v)
                }
                2 => {
                    let w: u16 = cpu.fetch16(bus);
                    Ea::PcIndDisp(pc.wrapping_add(sext16(w as u32)))
                }
                3 => {
                    let w: u16 = cpu.fetch16(bus);
                    Ea::PcIndIdx(pc, w)
                }
                4 => match size {
                    Size::Byte => {
                        let w: u16 = cpu.fetch16(bus);
                        Ea::Immediate((w & 0xFF) as u32)
                    }
                    Size::Word => {
                        let w: u16 = cpu.fetch16(bus);
                        Ea::Immediate(w as u32)
                    }
                    Size::Long => {
                        let v: u32 = cpu.fetch32(bus);
                        Ea::Immediate(v)
                    }
                },
                _ => Ea::Immediate(0),
            },
        }
    }

    /// The address of a memory operand.
    pub open spec fn address(self, c: CpuState, size: Size) -> Option<u32> {
        match self {
            Ea::DataReg(_) => None,
            Ea::AddrReg(_) => None,
            Ea::Immediate(_) => None,
            Ea::AddrInd(n) => Some(c.a[n as int]),
            Ea::PostInc(n) => Some(c.a[n as int]),
            Ea::PreDec(n) => Some(c.a[n as int].wrapping_sub(step_of(n, size))),
            Ea::AddrDisp(n, d) => Some(c.a[n as int].wrapping_add(d)),
            Ea::AddrIdx(n, ext) => Some(c.a[n as int].wrapping_add(index_offset(c, ext))),
            Ea::Absolute(addr) => Some(addr),
            Ea::PcIndDisp(addr) => Some(addr),
            Ea::PcIndIdx(base, ext) => Some(base.wrapping_add(index_offset(c, ext))),
        }
    }

    /// The processor after an address is formed: (An)+ and -(An) have moved.
    pub open spec fn after_address(self, c: CpuState, size: Size) -> CpuState {
        match self {
            Ea::PostInc(n) => c.with_a(n as int, c.a[n as int].wrapping_add(step_of(n, size))),
            Ea::PreDec(n) => c.with_a(n as int, c.a[n as int].wrapping_sub(step_of(n, size))),
            _ => c,
        }
    }

    pub fn compute_address(self, cpu: &mut Cpu, size: Size) -> (addr: Option<u32>)
        requires
            self.wf(),
        ensures
            addr == self.address(old(cpu)@, size),
            final(cpu)@ == self.after_address(old(cpu)@, size),
    {
        match self {
            Ea::DataReg(_) => None,
            Ea::AddrReg(_) => None,
            Ea::Immediate(_) => None,
            Ea::AddrInd(n) => Some(cpu.a[n]),
            Ea::PostInc(n) => {
                let addr: u32 = cpu.a[n];
                cpu.set_a(n, addr.wrapping_add(step_of(n, size)));
                Some(addr)
            }
            Ea::PreDec(n) => {
                let addr: u32 = cpu.a[n].wrapping_sub(step_of(n, size));
                cpu.set_a(n, addr);
                Some(addr)
            }
            Ea::AddrDisp(n, d) => Some(cpu.a[n].wrapping_add(d)),
            Ea::AddrIdx(n, ext) => {
                let off: u32 = compute_index_offset(cpu, ext);
                Some(cpu.a[n].wrapping_add(off))
            }
            Ea::Absolute(addr) => Some(addr),
            Ea::PcIndDisp(addr) => Some(addr),
            Ea::PcIndIdx(base, ext) => {
                let off: u32 = compute_index_offset(cpu, ext);
                Some(base.wrapping_add(off))
            }
        }
    }

    /// The move of (An)+ or -(An) taken back.
    pub open spec fn undone(self, c: CpuState, size: Size) -> CpuState {
        match self {
            Ea::PostInc(n) => c.with_a(n as int, c.a[n as int].wrapping_sub(step_of(n, size))),
            Ea::PreDec(n) => c.with_a(n as int, c.a[n as int].wrapping_add(step_of(n, size))),
            _ => c,
        }
    }

    pub fn undo_side_effects(self, cpu: &mut Cpu, size: Size)
        requires
            self.wf(),
        ensures
            final(cpu)@ == self.undone(old(cpu)@, size),
    {
        match self {
            Ea::PostInc(n) => {
                let addr: u32 = cpu.a[n].wrapping_sub(step_of(n, size));
                cpu.set_a(n, addr);
            }
            Ea::PreDec(n) => {
                let addr: u32 = cpu.a[n].wrapping_add(step_of(n, size));
                cpu.set_a(n, addr);
            }
            _ => {}
        }
    }
}

fn compute_index_offset(cpu: &Cpu, ext: u16) -> (off: u32)
    ensures
        off == index_offset(cpu@, ext),
{
    let n: usize = reg_field(ext >> 12);
    let reg: u32 = if ext & 0x8000 != 0 {
        cpu.a[n]
    } else {
        cpu.d[n]
    };
    let idx: u32 = if ext & 0x0800 != 0 {
        reg
    } else {
        sext16(reg)
    };
    sext8(ext as u32).wrapping_add(idx)
}

/// Whether an access would be misaligned.
#[verifier::allow_in_spec]
pub fn misaligned(addr: u32, size: Size) -> bool
    returns
        size != Size::Byte && addr % 2 == 1,
{
    size != Size::Byte && addr % 2 == 1
}

/// A data access at an odd address.
pub open spec fn data_fault(c: CpuState, addr: u32, read: bool) -> CpuState {
    c.with_fault(
        AddressErrorInfo {
            access_addr: addr,
            read,
            fc: c.data_fc(),
            instruction: false,
            from_stack_op: false,
        },
    )
}

/// A read of data space; a misaligned one is an address error and gives zero.
#[verifier::opaque]
pub open spec fn read_at_spec<B: Bus>(m: Mach<B::St>, addr: u32, size: Size) -> (
    Mach<B::St>,
    u32,
) {
    if misaligned(addr, size) {
        (m.with_c(data_fault(m.c, addr, true)), 0)
    } else {
        match size {
            Size::Byte => (
                m.with_s(B::read8_next(m.s, addr)),
                B::read8_val(m.s, addr) as u32,
            ),
            Size::Word => (
                m.with_s(B::read16_next(m.s, addr)),
                B::read16_val(m.s, addr) as u32,
            ),
            Size::Long => {
                let (s1, v) = read32_spec::<B>(m.s, addr);
                (m.with_s(s1), v)
            },
        }
    }
}

pub fn read_at<B: Bus>(cpu: &mut Cpu, bus: &mut B, addr: u32, size: Size) -> (v: u32)
    requires
        B::wf(old(bus).st()),
    ensures
        B::wf(final(bus).st()),
        same(
            (mach(*final(cpu), *final(bus)), v),
            read_at_spec::<B>(mach(*old(cpu), *old(bus)), addr, size),
        ),
{
    proof {
        reveal(read_at_spec);
    }
    if misaligned(addr, size) {
        let fc: u8 = cpu.data_fc();
        cpu.raise(
            AddressErrorInfo {
                access_addr: addr,
                read: true,
                fc,
                instruction: false,
                from_stack_op: false,
            },
        );
        0
    } else {
        match size {
            Size::Byte => bus.read8(addr) as u32,
            Size::Word => bus.read16(addr) as u32,
            Size::Long => read32(bus, addr),
        }
    }
}

/// A write to data space; a misaligned one is an address error.
#[verifier::opaque]
pub open spec fn write_at_spec<B: Bus>(m: Mach<B::St>, addr: u32, size: Size, v: u32) -> Mach<
    B::St,
> {
    if misaligned(addr, size) {
        m.with_c(data_fault(m.c, addr, false))
    } else {
        match size {
            Size::Byte => m.with_s(B::write8_next(m.s, addr, v as u8)),
            Size::Word => m.with_s(B::write16_next(m.s, addr, v as u16)),
            Size::Long => m.with_s(write32_next::<B>(m.s, addr, v)),
        }
    }
}

pub fn write_at<B: Bus>(cpu: &mut Cpu, bus: &mut B, addr: u32, size: Size, v: u32)
    requires
        B::wf(old(bus).st()),
    ensures
        B::wf(final(bus).st()),
        same(
            mach(*final(cpu), *final(bus)),
            write_at_spec::<B>(mach(*old(cpu), *old(bus)), addr, size, v),
        ),
{
    proof {
        reveal(write_at_spec);
    }
    if misaligned(addr, size) {
        let fc: u8 = cpu.data_fc();
        cpu.raise(
            AddressErrorInfo {
                access_addr: addr,
                read: false,
                fc,
                instruction: false,
                from_stack_op: false,
            },
        );
    } else {
        match size {
            Size::Byte => bus.write8(addr, v as u8),
            Size::Word => bus.write16(addr, v as u16),
            Size::Long => write32(bus, addr, v),
        }
    }
}

/// `old` with its low bits, as many as the size has, replaced by those of `v`.
#[verifier::allow_in_spec]
pub fn merged(old_v: u32, v: u32, size: Size) -> u32
    returns
        (old_v & !size.mask()) | (v & size.mask()),
{
    (old_v & !size.mask()) | (v & size.mask())
}

/// An address error on a PC-relative read is in program space.
pub open spec fn program_fault(c: CpuState) -> CpuState {
    match c.fault {
        Some(info) => c.with_fault(
            AddressErrorInfo { fc: c.program_fc(), instruction: true, ..info },
        ),
        None => c,
    }
}

pub fn mark_program_fault(cpu: &mut Cpu)
    ensures
        final(cpu)@ == program_fault(old(cpu)@),
{
    let fc: u8 = cpu.program_fc();
    match cpu.address_error {
        Some(info) => {
            cpu.raise(AddressErrorInfo { fc, instruction: true, ..info });
        }
        None => {}
    }
}

impl Ea {
    /// The state of a faulted memory access put right: the address register is
    /// back, and a PC-relative read is reported in program space.
    pub open spec fn recovered(self, c: CpuState, size: Size) -> CpuState {
        let c1 = self.undone(c, size);
        if self.is_pc_relative() {
            program_fault(c1)
        } else {
            c1
        }
    }

    fn recover(self, cpu: &mut Cpu, size: Size)
        requires
            self.wf(),
        ensures
            final(cpu)@ == self.recovered(old(cpu)@, size),
    {
        self.undo_side_effects(cpu, size);
        if self.is_pc_relative() {
            mark_program_fault(cpu);
        }
    }

    /// The operand's value. A faulting read gives zero.
    #[verifier::opaque]
    pub open spec fn read_spec<B: Bus>(self, m: Mach<B::St>, size: Size) -> (Mach<B::St>, u32) {
        match self {
            Ea::DataReg(n) => (m, m.c.d[n as int] & size.mask()),
            Ea::AddrReg(n) => (m, m.c.a[n as int] & size.mask()),
            Ea::Immediate(v) => (m, v),
            _ => {
                let addr = self.address(m.c, size)->0;
                let (m1, v) = read_at_spec::<B>(
                    m.with_c(self.after_address(m.c, size)),
                    addr,
                    size,
                );
                if m1.c.fault is Some {
                    (m1.with_c(self.recovered(m1.c, size)), v)
                } else {
                    (m1, v)
                }
            },
        }
    }

    pub fn read<B: Bus>(self, cpu: &mut Cpu, bus: &mut B, size: Size) -> (v: u32)
        requires
            self.wf(),
            B::wf(old(bus).st()),
        ensures
            B::wf(final(bus).st()),
            same(
                (mach(*final(cpu), *final(bus)), v),
                self.read_spec::<B>(mach(*old(cpu), *old(bus)), size),
            ),
    {
        proof {
            reveal(Ea::read_spec);
        }
        match self {
            Ea::DataReg(n) => cpu.d[n] & size.mask(),
            Ea::AddrReg(n) => cpu.a[n] & size.mask(),
            Ea::Immediate(v) => v,
            _ => {
                let addr: Option<u32> = self.compute_address(cpu, size);
                match addr {
                    Some(addr) => {
                        let v: u32 = read_at(cpu, bus, addr, size);
                        if cpu.address_error.is_some() {
                            self.recover(cpu, size);
                        }
                        v
                    }
                    None => 0,
                }
            }
        }
    }

    /// The state after `v` is stored in the operand. An address register takes
    /// a word sign-extended; immediates and PC-relative operands ignore writes.
    #[verifier::opaque]
    pub open spec fn write_spec<B: Bus>(self, m: Mach<B::St>, size: Size, v: u32) -> Mach<B::St> {
        match self {
            Ea::DataReg(n) => m.with_c(
                m.c.with_d(n as int, merged(m.c.d[n as int], v, size)),
            ),
            Ea::AddrReg(n) => m.with_c(
                m.c.with_a(n as int, if size == Size::Long { v } else { sext16(v) }),
            ),
            Ea::Immediate(_) => m,
            Ea::PcIndDisp(_) => m,
            Ea::PcIndIdx(_, _) => m,
            _ => {
                let addr = self.address(m.c, size)->0;
                let m1 = write_at_spec::<B>(
                    m.with_c(self.after_address(m.c, size)),
                    addr,
                    size,
                    v,
                );
                if m1.c.fault is Some {
                    m1.with_c(self.undone(m1.c, size))
                } else {
                    m1
                }
            },
        }
    }

    pub fn write<B: Bus>(self, cpu: &mut Cpu, bus: &mut B, size: Size, v: u32)
        requires
            self.wf(),
            B::wf(old(bus).st()),
        ensures
            B::wf(final(bus).st()),
            same(
                mach(*final(cpu), *final(bus)),
                self.write_spec::<B>(mach(*old(cpu), *old(bus)), size, v),
            ),
    {
        proof {
            reveal(Ea::write_spec);
        }
        match self {
            Ea::DataReg(n) => {
                let r: u32 = merged(cpu.d[n], v, size);
                cpu.set_d(n, r);
            }
            Ea::AddrReg(n) => {
                let r: u32 = if size == Size::Long {
                    v
                } else {
                    sext16(v)
                };
                cpu.set_a(n, r);
            }
            Ea::Immediate(_) => {}
            Ea::PcIndDisp(_) => {}
            Ea::PcIndIdx(_, _) => {}
            _ => {
                let addr: Option<u32> = self.compute_address(cpu, size);
                match addr {
                    Some(addr) => {
                        write_at(cpu, bus, addr, size, v);
                        if cpu.address_error.is_some() {
                            self.undo_side_effects(cpu, size);
                        }
                    }
                    None => {}
                }
            }
        }
    }

    /// A read-modify-write of a memory operand at its one address. `au` is the
    /// PC to report if either access faults. A fault on the read takes back
    /// the move of the address register, and nothing else happens.
    pub open spec fn modify_mem_spec<B: Bus>(
        self,
        m: Mach<B::St>,
        size: Size,
        op: Rmw,
        au: Option<u32>,
    ) -> Mach<B::St> {
        let addr = self.address(m.c, size)->0;
        let c1 = self.after_address(m.c, size);
        let c2 = if au is Some {
            c1.with_au(au->0)
        } else {
            c1
        };
        let (m1, v) = read_at_spec::<B>(m.with_c(c2), addr, size);
        if m1.c.fault is Some {
            m1.with_c(self.undone(m1.c, size))
        } else {
            let (sr, r) = rmw_spec(op, m1.c.sr, size, v);
            write_at_spec::<B>(m1.with_c(m1.c.with_sr(sr)), addr, size, r)
        }
    }

    /// A read-modify-write of any operand; immediates and PC-relative operands
    /// are read but not written.
    #[verifier::opaque]
    pub open spec fn modify_spec<B: Bus>(
        self,
        m: Mach<B::St>,
        size: Size,
        op: Rmw,
        au: Option<u32>,
    ) -> Mach<B::St> {
        if self.is_reg_direct() {
            let (m1, v) = self.read_spec::<B>(m, size);
            let (sr, r) = rmw_spec(op, m1.c.sr, size, v);
            self.write_spec::<B>(m1.with_c(m1.c.with_sr(sr)), size, r)
        } else if self.is_immediate() || self.is_pc_relative() {
            let (m1, v) = self.read_spec::<B>(m, size);
            if m1.c.fault is Some {
                m1
            } else {
                m1.with_c(m1.c.with_sr(rmw_spec(op, m1.c.sr, size, v).0))
            }
        } else {
            self.modify_mem_spec::<B>(m, size, op, au)
        }
    }

    pub fn modify<B: Bus>(
        self,
        cpu: &mut Cpu,
        bus: &mut B,
        size: Size,
        op: Rmw,
        au: Option<u32>,
    )
        requires
            self.wf(),
            op.wf(),
            B::wf(old(bus).st()),
        ensures
            B::wf(final(bus).st()),
            same(
                mach(*final(cpu), *final(bus)),
                self.modify_spec::<B>(mach(*old(cpu), *old(bus)), size, op, au),
            ),
    {
        proof {
            reveal(Ea::modify_spec);
        }
        if self.is_reg_direct() {
            let v: u32 = self.read(cpu, bus, size);
            let r: u32 = op.apply(cpu, size, v);
            self.write(cpu, bus, size, r);
        } else if self.is_immediate() || self.is_pc_relative() {
            let v: u32 = self.read(cpu, bus, size);
            if cpu.address_error.is_none() {
                let _r: u32 = op.apply(cpu, size, v);
            }
        } else {
            let addr: Option<u32> = self.compute_address(cpu, size);
            match addr {
                Some(addr) => {
                    match au {
                        Some(pc) => {
                            cpu.set_au(pc);
                        }
                        None => {}
                    }
                    let v: u32 = read_at(cpu, bus, addr, size);
                    if cpu.address_error.is_some() {
                        self.undo_side_effects(cpu, size);
                    } else {
                        let r: u32 = op.apply(cpu, size, v);
                        write_at(cpu, bus, addr, size, r);
                    }
                }
                None => {}
            }
        }
    }
}

/// A faulting memory read leaves every register but the fault report as it was.
pub proof fn faulting_read_moves_nothing<B: Bus>(ea: Ea, m: Mach<B::St>, size: Size)
    requires
        ea.wf(),
        m.c.a.len() == 8,
        ea.address(m.c, size) is Some,
        misaligned(ea.address(m.c, size)->0, size),
    ensures
        ea.read_spec::<B>(m, size).0.c.a == m.c.a,
        ea.read_spec::<B>(m, size).0.c.d == m.c.d,
        ea.read_spec::<B>(m, size).0.c.fault is Some,
        ea.read_spec::<B>(m, size).0.s == m.s,
{
    reveal(Ea::read_spec);
    reveal(read_at_spec);
    assert(ea.read_spec::<B>(m, size).0.c.a =~= m.c.a);
}

}
