//! What the Z80 sees of the rest of the machine.
use vstd::prelude::*;

verus! {

/// A memory and I/O bus.
///
/// A bus is modelled by a state: every access is a function of the state
/// before it, giving the byte read and the state after it, so that reads with
/// side effects are described as exactly as writes.
pub trait Z80Bus: Sized {
    /// The model of the bus.
    type St;

    /// The state the bus is in.
    spec fn st(&self) -> Self::St;

    /// Which states the bus can be in.
    spec fn wf(s: Self::St) -> bool;

    /// The byte a memory read at `addr` gives in state `s`.
    spec fn read_val(s: Self::St, addr: u16) -> u8;

    /// The state after a memory read at `addr`.
    spec fn read_next(s: Self::St, addr: u16) -> Self::St;

    /// The state after a memory write at `addr`.
    spec fn write_next(s: Self::St, addr: u16, value: u8) -> Self::St;

    /// The byte an input from `port` gives in state `s`.
    spec fn in_val(s: Self::St, port: u16) -> u8;

    /// The state after an input from `port`.
    spec fn in_next(s: Self::St, port: u16) -> Self::St;

    /// The state after an output to `port`.
    spec fn out_next(s: Self::St, port: u16, value: u8) -> Self::St;

    fn read(&mut self, addr: u16) -> (v: u8)
        requires
            Self::wf(old(self).st()),
        ensures
            Self::wf(final(self).st()),
            v == Self::read_val(old(self).st(), addr),
            final(self).st() == Self::read_next(old(self).st(), addr),
    ;

    fn write(&mut self, addr: u16, value: u8)
        requires
            Self::wf(old(self).st()),
        ensures
            Self::wf(final(self).st()),
            final(self).st() == Self::write_next(old(self).st(), addr, value),
    ;

    fn io_read(&mut self, port: u16) -> (v: u8)
        requires
            Self::wf(old(self).st()),
        ensures
            Self::wf(final(self).st()),
            v == Self::in_val(old(self).st(), port),
            final(self).st() == Self::in_next(old(self).st(), port),
    ;

    fn io_write(&mut self, port: u16, value: u8)
        requires
            Self::wf(old(self).st()),
        ensures
            Self::wf(final(self).st()),
            final(self).st() == Self::out_next(old(self).st(), port, value),
    ;
}

}
