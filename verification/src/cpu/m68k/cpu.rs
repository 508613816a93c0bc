//! Registers, status and exceptions of the 68000.
use vstd::prelude::*;
use crate::bits::same;
use crate::cpu::m68k::bus::{read32, read32_spec, write32, write32_next, Bus};

verus! {

/// Operand size.
#[derive(Debug, Clone, Copy, PartialEq, Eq, Structural)]
pub enum Size {
    Byte,
    Word,
    Long,
}

impl Size {
    #[verifier::allow_in_spec]
    pub fn bytes(self) -> u32
        returns
            (match self {
                Size::Byte => 1u32,
                Size::Word => 2u32,
                Size::Long => 4u32,
            }),
    {
        match self {
            Size::Byte => 1,
            Size::Word => 2,
            Size::Long => 4,
        }
    }

    #[verifier::allow_in_spec]
    pub fn bits(self) -> u32
        returns
            (match self {
                Size::Byte => 8u32,
                Size::Word => 16u32,
                Size::Long => 32u32,
            }),
    {
        match self {
            Size::Byte => 8,
            Size::Word => 16,
            Size::Long => 32,
        }
    }

    /// All the bits of an operand of this size.
    #[verifier::allow_in_spec]
    pub fn mask(self) -> u32
        returns
            (match self {
                Size::Byte => 0xFFu32,
                Size::Word => 0xFFFFu32,
                Size::Long => 0xFFFF_FFFFu32,
            }),
    {
        match self {
            Size::Byte => 0xFF,
            Size::Word => 0xFFFF,
            Size::Long => 0xFFFF_FFFF,
        }
    }

    /// The top bit of an operand of this size.
    #[verifier::allow_in_spec]
    pub fn sign_bit(self) -> u32
        returns
            (match self {
                Size::Byte => 0x80u32,
                Size::Word => 0x8000u32,
                Size::Long => 0x8000_0000u32,
            }),
    {
        match self {
            Size::Byte => 0x80,
            Size::Word => 0x8000,
            Size::Long => 0x8000_0000,
        }
    }

    /// How many values an operand of this size has.
    #[verifier::allow_in_spec]
    pub fn modulus(self) -> u64
        returns
            (match self {
                Size::Byte => 0x100u64,
                Size::Word => 0x1_0000u64,
                Size::Long => 0x1_0000_0000u64,
            }),
    {
        match self {
            Size::Byte => 0x100,
            Size::Word => 0x1_0000,
            Size::Long => 0x1_0000_0000,
        }
    }
}

/// A word sign-extended to a long word.
#[verifier::allow_in_spec]
pub fn sext16(v: u32) -> u32
    returns
        v as u16 as i16 as i32 as u32,
{
    v as u16 as i16 as i32 as u32
}

/// A byte sign-extended to a long word.
#[verifier::allow_in_spec]
pub fn sext8(v: u32) -> u32
    returns
        v as u8 as i8 as i32 as u32,
{
    v as u8 as i8 as i32 as u32
}

/// `sr` with the bits of `mask` all set or all clear.
#[verifier::allow_in_spec]
pub fn sr_set(sr: u16, mask: u16, on: bool) -> u16
    returns
        (if on {
            sr | mask
        } else {
            sr & !mask
        }),
{
    if on {
        sr | mask
    } else {
        sr & !mask
    }
}

/// `sr` with N and Z describing `value` as an operand of the given size.
#[verifier::allow_in_spec]
pub fn sr_nz(sr: u16, value: u32, size: Size) -> u16
    returns
        sr_set(
            sr_set(sr, StatusRegister::N, value & size.sign_bit() != 0),
            StatusRegister::Z,
            value & size.mask() == 0,
        ),
{
    sr_set(
        sr_set(sr, StatusRegister::N, value & size.sign_bit() != 0),
        StatusRegister::Z,
        value & size.mask() == 0,
    )
}

/// `sr` after a move or a logic operation: N and Z describe the value, V and C
/// are clear.
#[verifier::allow_in_spec]
pub fn sr_logic(sr: u16, value: u32, size: Size) -> u16
    returns
        sr_nz(
            sr_set(sr_set(sr, StatusRegister::V, false), StatusRegister::C, false),
            value,
            size,
        ),
{
    sr_nz(
        sr_set(sr_set(sr, StatusRegister::V, false), StatusRegister::C, false),
        value,
        size,
    )
}

/// The status register.
#[derive(Debug, Clone, Copy, PartialEq, Eq)]
pub struct StatusRegister(pub u16);

impl StatusRegister {
    pub const C: u16 = 0x0001;

    pub const V: u16 = 0x0002;

    pub const Z: u16 = 0x0004;

    pub const N: u16 = 0x0008;

    pub const X: u16 = 0x0010;

    pub const S: u16 = 0x2000;

    pub const T: u16 = 0x8000;

    #[verifier::allow_in_spec]
    pub fn get(self, mask: u16) -> bool
        returns
            self.0 & mask != 0,
    {
        self.0 & mask != 0
    }

    #[verifier::allow_in_spec]
    pub fn supervisor(self) -> bool
        returns
            self.0 & StatusRegister::S != 0,
    {
        self.0 & StatusRegister::S != 0
    }

    /// Whether a branch on `cond` is taken.
    #[verifier::allow_in_spec]
    pub fn evaluate(self, cond: Condition) -> bool
        returns
            ({
                let c = self.get(StatusRegister::C);
                let v = self.get(StatusRegister::V);
                let z = self.get(StatusRegister::Z);
                let n = self.get(StatusRegister::N);
                match cond {
                    Condition::True => true,
                    Condition::False => false,
                    Condition::Higher => !c && !z,
                    Condition::LowerOrSame => c || z,
                    Condition::CarryClear => !c,
                    Condition::CarrySet => c,
                    Condition::NotEqual => !z,
                    Condition::Equal => z,
                    Condition::OverflowClear => !v,
                    Condition::OverflowSet => v,
                    Condition::Plus => !n,
                    Condition::Minus => n,
                    Condition::GreaterOrEqual => n == v,
                    Condition::LessThan => n != v,
                    Condition::GreaterThan => !z && n == v,
                    Condition::LessOrEqual => z || n != v,
                }
            }),
    {
        let c: bool = self.get(StatusRegister::C);
        let v: bool = self.get(StatusRegister::V);
        let z: bool = self.get(StatusRegister::Z);
        let n: bool = self.get(StatusRegister::N);
        match cond {
            Condition::True => true,
            Condition::False => false,
            Condition::Higher => !c && !z,
            Condition::LowerOrSame => c || z,
            Condition::CarryClear => !c,
            Condition::CarrySet => c,
            Condition::NotEqual => !z,
            Condition::Equal => z,
            Condition::OverflowClear => !v,
            Condition::OverflowSet => v,
            Condition::Plus => !n,
            Condition::Minus => n,
            Condition::GreaterOrEqual => n == v,
            Condition::LessThan => n != v,
            Condition::GreaterThan => !z && n == v,
            Condition::LessOrEqual => z || n != v,
        }
    }
}

/// The sixteen conditions, in encoding order.
#[derive(Debug, Clone, Copy, PartialEq, Eq)]
pub enum Condition {
    True,
    False,
    Higher,
    LowerOrSame,
    CarryClear,
    CarrySet,
    NotEqual,
    Equal,
    OverflowClear,
    OverflowSet,
    Plus,
    Minus,
    GreaterOrEqual,
    LessThan,
    GreaterThan,
    LessOrEqual,
}

impl Condition {
    /// The condition that the low four bits of `bits` encode.
    #[verifier::allow_in_spec]
    pub fn from_bits(bits: u16) -> Condition
        returns
            (match bits & 0xF {
                0 => Condition::True,
                1 => Condition::False,
                2 => Condition::Higher,
                3 => Condition::LowerOrSame,
                4 => Condition::CarryClear,
                5 => Condition::CarrySet,
                6 => Condition::NotEqual,
                7 => Condition::Equal,
                8 => Condition::OverflowClear,
                9 => Condition::OverflowSet,
                10 => Condition::Plus,
                11 => Condition::Minus,
                12 => Condition::GreaterOrEqual,
                13 => Condition::LessThan,
                14 => Condition::GreaterThan,
                _ => Condition::LessOrEqual,
            }),
    {
        match bits & 0xF {
            0 => Condition::True,
            1 => Condition::False,
            2 => Condition::Higher,
            3 => Condition::LowerOrSame,
            4 => Condition::CarryClear,
            5 => Condition::CarrySet,
            6 => Condition::NotEqual,
            7 => Condition::Equal,
            8 => Condition::OverflowClear,
            9 => Condition::OverflowSet,
            10 => Condition::Plus,
            11 => Condition::Minus,
            12 => Condition::GreaterOrEqual,
            13 => Condition::LessThan,
            14 => Condition::GreaterThan,
            _ => Condition::LessOrEqual,
        }
    }
}

/// The exceptions that instructions raise.
#[derive(Debug, Clone, Copy, PartialEq, Eq)]
pub enum Exception {
    IllegalInstruction,
    DivideByZero,
    Chk,
    TrapV,
    PrivilegeViolation,
    LineA,
    LineF,
}

impl Exception {
    /// The address of the exception's vector.
    #[verifier::allow_in_spec]
    pub fn vector(self) -> u32
        returns
            (match self {
                Exception::IllegalInstruction => 0x10u32,
                Exception::DivideByZero => 0x14u32,
                Exception::Chk => 0x18u32,
                Exception::TrapV => 0x1Cu32,
                Exception::PrivilegeViolation => 0x20u32,
                Exception::LineA => 0x28u32,
                Exception::LineF => 0x2Cu32,
            }),
    {
        match self {
            Exception::IllegalInstruction => 0x10,
            Exception::DivideByZero => 0x14,
            Exception::Chk => 0x18,
            Exception::TrapV => 0x1C,
            Exception::PrivilegeViolation => 0x20,
            Exception::LineA => 0x28,
            Exception::LineF => 0x2C,
        }
    }
}

/// A word or long access at an odd address.
#[derive(Debug, Clone, Copy, PartialEq, Eq)]
pub struct AddressErrorInfo {
    pub access_addr: u32,
    pub read: bool,
    /// The function code on the bus.
    pub fc: u8,
    /// Whether program rather than data space was accessed.
    pub instruction: bool,
    /// Whether the access was a push or a pop.
    pub from_stack_op: bool,
}

/// The processor.
pub struct Cpu {
    pub d: [u32; 8],
    /// A7 is the stack pointer of the current mode.
    pub a: [u32; 8],
    pub pc: u32,
    /// Where the running instruction starts.
    pub instr_pc: u32,
    /// The program counter that an address error would push.
    pub au: u32,
    pub sr: StatusRegister,
    /// The stack pointers of the two modes while the other mode runs.
    pub usp: u32,
    pub ssp: u32,
    /// The address error that cut the running instruction short.
    pub address_error: Option<AddressErrorInfo>,
    /// Halted by STOP.
    pub stopped: bool,
}

/// The processor as a mathematical value.
#[verifier::ext_equal]
pub ghost struct CpuState {
    pub d: Seq<u32>,
    pub a: Seq<u32>,
    pub pc: u32,
    pub instr_pc: u32,
    pub au: u32,
    pub sr: u16,
    pub usp: u32,
    pub ssp: u32,
    pub fault: Option<AddressErrorInfo>,
    pub stopped: bool,
}

impl View for Cpu {
    type V = CpuState;

    open spec fn view(&self) -> CpuState {
        CpuState {
            d: self.d@,
            a: self.a@,
            pc: self.pc,
            instr_pc: self.instr_pc,
            au: self.au,
            sr: self.sr.0,
            usp: self.usp,
            ssp: self.ssp,
            fault: self.address_error,
            stopped: self.stopped,
        }
    }
}

impl CpuState {
    pub open spec fn with_d(self, n: int, v: u32) -> CpuState {
        CpuState { d: self.d.update(n, v), ..self }
    }

    pub open spec fn with_a(self, n: int, v: u32) -> CpuState {
        CpuState { a: self.a.update(n, v), ..self }
    }

    pub open spec fn with_pc(self, pc: u32) -> CpuState {
        CpuState { pc, ..self }
    }

    pub open spec fn with_au(self, au: u32) -> CpuState {
        CpuState { au, ..self }
    }

    pub open spec fn with_sr(self, sr: u16) -> CpuState {
        CpuState { sr, ..self }
    }

    pub open spec fn with_fault(self, info: AddressErrorInfo) -> CpuState {
        CpuState { fault: Some(info), ..self }
    }

    pub open spec fn sup(self) -> bool {
        self.sr & StatusRegister::S != 0
    }

    pub open spec fn flag(self, mask: u16) -> bool {
        self.sr & mask != 0
    }

    /// The function code of a data access.
    pub open spec fn data_fc(self) -> u8 {
        if self.sup() {
            5
        } else {
            1
        }
    }

    /// The function code of a program access.
    pub open spec fn program_fc(self) -> u8 {
        if self.sup() {
            6
        } else {
            2
        }
    }
}

/// The processor and its bus together.
pub ghost struct Mach<S> {
    pub c: CpuState,
    pub s: S,
}

impl<S> Mach<S> {
    pub open spec fn with_c(self, c: CpuState) -> Mach<S> {
        Mach { c, ..self }
    }

    pub open spec fn with_s(self, s: S) -> Mach<S> {
        Mach { s, ..self }
    }
}

pub open spec fn mach<B: Bus>(cpu: Cpu, bus: B) -> Mach<B::St> {
    Mach { c: cpu@, s: bus.st() }
}

impl Cpu {
    pub fn set_d(&mut self, n: usize, v: u32)
        requires
            n < 8,
        ensures
            final(self)@ == old(self)@.with_d(n as int, v),
    {
        self.d[n] = v;
        assert(self@.d =~= old(self)@.d.update(n as int, v));
    }

    pub fn set_a(&mut self, n: usize, v: u32)
        requires
            n < 8,
        ensures
            final(self)@ == old(self)@.with_a(n as int, v),
    {
        self.a[n] = v;
        assert(self@.a =~= old(self)@.a.update(n as int, v));
    }

    pub fn set_pc(&mut self, v: u32)
        ensures
            final(self)@ == old(self)@.with_pc(v),
    {
        self.pc = v;
    }

    pub fn set_au(&mut self, v: u32)
        ensures
            final(self)@ == old(self)@.with_au(v),
    {
        self.au = v;
    }

    pub fn set_sr(&mut self, v: u16)
        ensures
            final(self)@ == old(self)@.with_sr(v),
    {
        self.sr = StatusRegister(v);
    }

    pub fn set_usp(&mut self, v: u32)
        ensures
            final(self)@ == (CpuState { usp: v, ..old(self)@ }),
    {
        self.usp = v;
    }

    pub fn set_ssp(&mut self, v: u32)
        ensures
            final(self)@ == (CpuState { ssp: v, ..old(self)@ }),
    {
        self.ssp = v;
    }

    pub fn set_stopped(&mut self)
        ensures
            final(self)@ == (CpuState { stopped: true, ..old(self)@ }),
    {
        self.stopped = true;
    }

    pub fn raise(&mut self, info: AddressErrorInfo)
        ensures
            final(self)@ == old(self)@.with_fault(info),
    {
        self.address_error = Some(info);
    }

    pub fn data_fc(&self) -> (fc: u8)
        ensures
            fc == self@.data_fc(),
    {
        if self.sr.supervisor() {
            5
        } else {
            1
        }
    }

    pub fn program_fc(&self) -> (fc: u8)
        ensures
            fc == self@.program_fc(),
    {
        if self.sr.supervisor() {
            6
        } else {
            2
        }
    }

    /// A processor in supervisor mode with interrupts masked and every register
    /// zero.
    pub fn new() -> (c: Cpu)
        ensures
            c@ == (CpuState {
                d: Seq::new(8, |i: int| 0u32),
                a: Seq::new(8, |i: int| 0u32),
                pc: 0,
                instr_pc: 0,
                au: 0,
                sr: 0x2700,
                usp: 0,
                ssp: 0,
                fault: None,
                stopped: false,
            }),
    {
        let c: Cpu = Cpu {
            d: [0u32; 8],
            a: [0u32; 8],
            pc: 0,
            instr_pc: 0,
            au: 0,
            sr: StatusRegister(0x2700),
            usp: 0,
            ssp: 0,
            address_error: None,
            stopped: false,
        };
        assert(c@.d =~= Seq::new(8, |i: int| 0u32));
        assert(c@.a =~= Seq::new(8, |i: int| 0u32));
        c
    }
}

/// The next word of the instruction stream; PC and the error PC move past it.
pub open spec fn fetch16_spec<B: Bus>(m: Mach<B::St>) -> (Mach<B::St>, u16) {
    let pc = m.c.pc;
    let next = pc.wrapping_add(2);
    (
        Mach { c: CpuState { pc: next, au: next, ..m.c }, s: B::read16_next(m.s, pc) },
        B::read16_val(m.s, pc),
    )
}

/// The next long word of the instruction stream.
pub open spec fn fetch32_spec<B: Bus>(m: Mach<B::St>) -> (Mach<B::St>, u32) {
    let (m1, hi) = fetch16_spec::<B>(m);
    let (m2, lo) = fetch16_spec::<B>(m1);
    (m2, crate::cpu::m68k::bus::long(hi, lo))
}

/// A stack access at an odd address.
pub open spec fn stack_fault(c: CpuState, addr: u32, read: bool) -> CpuState {
    c.with_fault(
        AddressErrorInfo {
            access_addr: addr,
            read,
            fc: c.data_fc(),
            instruction: false,
            from_stack_op: true,
        },
    )
}

/// A push moves A7 down and writes there, unless that address is odd.
#[verifier::opaque]
pub open spec fn push16_spec<B: Bus>(m: Mach<B::St>, v: u16) -> Mach<B::St> {
    let sp = m.c.a[7].wrapping_sub(2);
    if sp % 2 == 1 {
        m.with_c(stack_fault(m.c, sp, false))
    } else {
        Mach { c: m.c.with_a(7, sp), s: B::write16_next(m.s, sp, v) }
    }
}

#[verifier::opaque]
pub open spec fn push32_spec<B: Bus>(m: Mach<B::St>, v: u32) -> Mach<B::St> {
    let sp = m.c.a[7].wrapping_sub(4);
    if sp % 2 == 1 {
        m.with_c(stack_fault(m.c, sp, false))
    } else {
        Mach { c: m.c.with_a(7, sp), s: write32_next::<B>(m.s, sp, v) }
    }
}

/// A pop reads at A7 and moves it up, unless that address is odd.
#[verifier::opaque]
pub open spec fn pop16_spec<B: Bus>(m: Mach<B::St>) -> (Mach<B::St>, u16) {
    let sp = m.c.a[7];
    if sp % 2 == 1 {
        (m.with_c(stack_fault(m.c, sp, true)), 0)
    } else {
        (
            Mach { c: m.c.with_a(7, sp.wrapping_add(2)), s: B::read16_next(m.s, sp) },
            B::read16_val(m.s, sp),
        )
    }
}

#[verifier::opaque]
pub open spec fn pop32_spec<B: Bus>(m: Mach<B::St>) -> (Mach<B::St>, u32) {
    let sp = m.c.a[7];
    if sp % 2 == 1 {
        (m.with_c(stack_fault(m.c, sp, true)), 0)
    } else {
        let (s1, v) = read32_spec::<B>(m.s, sp);
        (Mach { c: m.c.with_a(7, sp.wrapping_add(4)), s: s1 }, v)
    }
}

/// A jump to an odd address.
pub open spec fn jump_fault(c: CpuState, target: u32) -> CpuState {
    c.with_fault(
        AddressErrorInfo {
            access_addr: target,
            read: true,
            fc: c.program_fc(),
            instruction: true,
            from_stack_op: false,
        },
    )
}

/// A jump; to an odd target it is an address error and PC stays.
pub open spec fn jump_to_spec(c: CpuState, target: u32) -> CpuState {
    if target % 2 == 1 {
        jump_fault(c, target)
    } else {
        CpuState { pc: target, au: target, ..c }
    }
}

/// A jump whose address error pushes the PC two bytes on.
pub open spec fn jump_to_subroutine_spec(c: CpuState, target: u32) -> CpuState {
    if target % 2 == 1 {
        jump_fault(c.with_au(c.pc.wrapping_add(2)), target)
    } else {
        CpuState { pc: target, au: target, ..c }
    }
}

/// Enter supervisor mode with tracing off, push PC and the old status, and go
/// on at the vector.
#[verifier::opaque]
pub open spec fn enter_vector_spec<B: Bus>(m: Mach<B::St>, vector: u32) -> Mach<B::St> {
    let c = m.c;
    let c1 = if c.sup() {
        CpuState { ssp: c.a[7], ..c }
    } else {
        CpuState { usp: c.a[7], ..c }.with_a(7, c.ssp)
    };
    let c2 = c1.with_sr(
        sr_set(sr_set(c.sr, StatusRegister::S, true), StatusRegister::T, false),
    );
    let m1 = push32_spec::<B>(m.with_c(c2), c2.pc);
    let m2 = push16_spec::<B>(m1, c.sr);
    let (s3, target) = read32_spec::<B>(m2.s, vector);
    Mach { c: m2.c.with_pc(target), s: s3 }
}

/// An exception that reports the running instruction's own address.
pub open spec fn abort_spec<B: Bus>(m: Mach<B::St>, e: Exception) -> Mach<B::St> {
    enter_vector_spec::<B>(m.with_c(m.c.with_pc(m.c.instr_pc)), e.vector())
}

impl Cpu {
    pub fn fetch16<B: Bus>(&mut self, bus: &mut B) -> (v: u16)
        requires
            B::wf(old(bus).st()),
        ensures
            B::wf(final(bus).st()),
            same(
                (mach(*final(self), *final(bus)), v),
                fetch16_spec::<B>(mach(*old(self), *old(bus))),
            ),
    {
        let v: u16 = bus.read16(self.pc);
        self.pc = self.pc.wrapping_add(2);
        self.au = self.pc;
        v
    }

    pub fn fetch32<B: Bus>(&mut self, bus: &mut B) -> (v: u32)
        requires
            B::wf(old(bus).st()),
        ensures
            B::wf(final(bus).st()),
            same(
                (mach(*final(self), *final(bus)), v),
                fetch32_spec::<B>(mach(*old(self), *old(bus))),
            ),
    {
        let hi: u16 = self.fetch16(bus);
        let lo: u16 = self.fetch16(bus);
        crate::cpu::m68k::bus::long(hi, lo)
    }

    fn raise_stack_fault(&mut self, addr: u32, read: bool)
        ensures
            final(self)@ == stack_fault(old(self)@, addr, read),
    {
        let fc: u8 = self.data_fc();
        self.raise(
            AddressErrorInfo {
                access_addr: addr,
                read,
                fc,
                instruction: false,
                from_stack_op: true,
            },
        );
    }

    pub fn push16<B: Bus>(&mut self, bus: &mut B, v: u16)
        requires
            B::wf(old(bus).st()),
        ensures
            B::wf(final(bus).st()),
            same(
                mach(*final(self), *final(bus)),
                push16_spec::<B>(mach(*old(self), *old(bus)), v),
            ),
    {
        proof {
            reveal(push16_spec);
        }
        let sp: u32 = self.a[7].wrapping_sub(2);
        if sp % 2 == 1 {
            self.raise_stack_fault(sp, false);
        } else {
            self.set_a(7, sp);
            bus.write16(sp, v);
        }
    }

    pub fn push32<B: Bus>(&mut self, bus: &mut B, v: u32)
        requires
            B::wf(old(bus).st()),
        ensures
            B::wf(final(bus).st()),
            same(
                mach(*final(self), *final(bus)),
                push32_spec::<B>(mach(*old(self), *old(bus)), v),
            ),
    {
        proof {
            reveal(push32_spec);
        }
        let sp: u32 = self.a[7].wrapping_sub(4);
        if sp % 2 == 1 {
            self.raise_stack_fault(sp, false);
        } else {
            self.set_a(7, sp);
            write32(bus, sp, v);
        }
    }

    pub fn pop16<B: Bus>(&mut self, bus: &mut B) -> (v: u16)
        requires
            B::wf(old(bus).st()),
        ensures
            B::wf(final(bus).st()),
            same(
                (mach(*final(self), *final(bus)), v),
                pop16_spec::<B>(mach(*old(self), *old(bus))),
            ),
    {
        proof {
            reveal(pop16_spec);
        }
        let sp: u32 = self.a[7];
        if sp % 2 == 1 {
            self.raise_stack_fault(sp, true);
            0
        } else {
            self.set_a(7, sp.wrapping_add(2));
            bus.read16(sp)
        }
    }

    pub fn pop32<B: Bus>(&mut self, bus: &mut B) -> (v: u32)
        requires
            B::wf(old(bus).st()),
        ensures
            B::wf(final(bus).st()),
            same(
                (mach(*final(self), *final(bus)), v),
                pop32_spec::<B>(mach(*old(self), *old(bus))),
            ),
    {
        proof {
            reveal(pop32_spec);
        }
        let sp: u32 = self.a[7];
        if sp % 2 == 1 {
            self.raise_stack_fault(sp, true);
            0
        } else {
            self.set_a(7, sp.wrapping_add(4));
            read32(bus, sp)
        }
    }

    pub fn raise_jump_fault(&mut self, target: u32)
        ensures
            final(self)@ == jump_fault(old(self)@, target),
    {
        let fc: u8 = self.program_fc();
        self.raise(
            AddressErrorInfo {
                access_addr: target,
                read: true,
                fc,
                instruction: true,
                from_stack_op: false,
            },
        );
    }

    pub fn jump_to(&mut self, target: u32)
        ensures
            final(self)@ == jump_to_spec(old(self)@, target),
    {
        if target % 2 == 1 {
            self.raise_jump_fault(target);
        } else {
            self.pc = target;
            self.au = target;
        }
    }

    pub fn jump_to_subroutine(&mut self, target: u32)
        ensures
            final(self)@ == jump_to_subroutine_spec(old(self)@, target),
    {
        if target % 2 == 1 {
            let au: u32 = self.pc.wrapping_add(2);
            self.set_au(au);
            self.raise_jump_fault(target);
        } else {
            self.pc = target;
            self.au = target;
        }
    }

    /// Take the exception whose vector is at `vector`.
    pub fn enter_vector<B: Bus>(&mut self, bus: &mut B, vector: u32)
        requires
            B::wf(old(bus).st()),
        ensures
            B::wf(final(bus).st()),
            same(
                mach(*final(self), *final(bus)),
                enter_vector_spec::<B>(mach(*old(self), *old(bus)), vector),
            ),
    {
        proof {
            reveal(enter_vector_spec);
        }
        let old_sr: u16 = self.sr.0;
        let sp: u32 = self.a[7];
        if self.sr.supervisor() {
            self.set_ssp(sp);
        } else {
            self.set_usp(sp);
            let ssp: u32 = self.ssp;
            self.set_a(7, ssp);
        }
        self.set_sr(sr_set(sr_set(old_sr, StatusRegister::S, true), StatusRegister::T, false));
        let pc: u32 = self.pc;
        self.push32(bus, pc);
        self.push16(bus, old_sr);
        let target: u32 = read32(bus, vector);
        self.set_pc(target);
    }

    /// Take an exception that reports PC as it stands.
    pub fn enter_exception<B: Bus>(&mut self, bus: &mut B, e: Exception)
        requires
            B::wf(old(bus).st()),
        ensures
            B::wf(final(bus).st()),
            same(
                mach(*final(self), *final(bus)),
                enter_vector_spec::<B>(mach(*old(self), *old(bus)), e.vector()),
            ),
    {
        self.enter_vector(bus, e.vector());
    }

    /// Take an exception that reports the running instruction's own address.
    pub fn abort<B: Bus>(&mut self, bus: &mut B, e: Exception)
        requires
            B::wf(old(bus).st()),
        ensures
            B::wf(final(bus).st()),
            same(
                mach(*final(self), *final(bus)),
                abort_spec::<B>(mach(*old(self), *old(bus)), e),
            ),
    {
        let pc: u32 = self.instr_pc;
        self.set_pc(pc);
        self.enter_exception(bus, e);
    }
}

}
