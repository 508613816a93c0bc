//! What the 68000 sees of the rest of the machine.
use vstd::prelude::*;

verus! {

/// A big-endian memory bus with byte and word cycles.
///
/// A bus is modelled by a state: every cycle is a function of the state before
/// it, giving the value read and the state after it.
pub trait Bus: Sized {
    /// The model of the bus.
    type St;

    /// The state the bus is in.
    spec fn st(&self) -> Self::St;

    /// Which states the bus can be in.
    spec fn wf(s: Self::St) -> bool;

    spec fn read8_val(s: Self::St, addr: u32) -> u8;

    spec fn read8_next(s: Self::St, addr: u32) -> Self::St;

    spec fn read16_val(s: Self::St, addr: u32) -> u16;

    spec fn read16_next(s: Self::St, addr: u32) -> Self::St;

    spec fn write8_next(s: Self::St, addr: u32, value: u8) -> Self::St;

    spec fn write16_next(s: Self::St, addr: u32, value: u16) -> Self::St;

    fn read8(&mut self, addr: u32) -> (v: u8)
        requires
            Self::wf(old(self).st()),
        ensures
            Self::wf(final(self).st()),
            v == Self::read8_val(old(self).st(), addr),
            final(self).st() == Self::read8_next(old(self).st(), addr),
    ;

    fn read16(&mut self, addr: u32) -> (v: u16)
        requires
            Self::wf(old(self).st()),
        ensures
            Self::wf(final(self).st()),
            v == Self::read16_val(old(self).st(), addr),
            final(self).st() == Self::read16_next(old(self).st(), addr),
    ;

    fn write8(&mut self, addr: u32, value: u8)
        requires
            Self::wf(old(self).st()),
        ensures
            Self::wf(final(self).st()),
            final(self).st() == Self::write8_next(old(self).st(), addr, value),
    ;

    fn write16(&mut self, addr: u32, value: u16)
        requires
            Self::wf(old(self).st()),
        ensures
            Self::wf(final(self).st()),
            final(self).st() == Self::write16_next(old(self).st(), addr, value),
    ;
}

/// The words `hi` and `lo` as a long word.
#[verifier::allow_in_spec]
pub fn long(hi: u16, lo: u16) -> u32
    returns
        ((hi as u32) << 16) | (lo as u32),
{
    ((hi as u32) << 16) | (lo as u32)
}

#[verifier::allow_in_spec]
pub fn high_word(v: u32) -> u16
    returns
        (v >> 16) as u16,
{
    (v >> 16) as u16
}

#[verifier::allow_in_spec]
pub fn low_word(v: u32) -> u16
    returns
        (v & 0xFFFF) as u16,
{
    (v & 0xFFFF) as u16
}

/// A long read: the high word first, then the word above it.
pub open spec fn read32_spec<B: Bus>(s: B::St, addr: u32) -> (B::St, u32) {
    let s1 = B::read16_next(s, addr);
    let next = addr.wrapping_add(2);
    (B::read16_next(s1, next), long(B::read16_val(s, addr), B::read16_val(s1, next)))
}

pub fn read32<B: Bus>(bus: &mut B, addr: u32) -> (v: u32)
    requires
        B::wf(old(bus).st()),
    ensures
        B::wf(final(bus).st()),
        (final(bus).st(), v) == read32_spec::<B>(old(bus).st(), addr),
{
    let hi: u16 = bus.read16(addr);
    let lo: u16 = bus.read16(addr.wrapping_add(2));
    long(hi, lo)
}

/// A long write: the high word first, then the word above it.
pub open spec fn write32_next<B: Bus>(s: B::St, addr: u32, value: u32) -> B::St {
    B::write16_next(
        B::write16_next(s, addr, high_word(value)),
        addr.wrapping_add(2),
        low_word(value),
    )
}

pub fn write32<B: Bus>(bus: &mut B, addr: u32, value: u32)
    requires
        B::wf(old(bus).st()),
    ensures
        B::wf(final(bus).st()),
        final(bus).st() == write32_next::<B>(old(bus).st(), addr, value),
{
    bus.write16(addr, high_word(value));
    bus.write16(addr.wrapping_add(2), low_word(value));
}

/// The word halves of a long word give it back, and those of `long(h, l)` are
/// `h` and `l`.
pub proof fn long_halves(v: u32, h: u16, l: u16)
    ensures
        long(high_word(v), low_word(v)) == v,
        high_word(long(h, l)) == h,
        low_word(long(h, l)) == l,
{
    crate::bits::word_pair(v, h, l);
}

}
