//! Controls, pictures and samples as a touch-screen frontend hands them over and
//! takes them.
use vstd::prelude::*;
use crate::graphics::png::{crc32, crc32_of};
use crate::host::aaudio::{is_running, push, AudioHost, HostState};
use crate::memory::bus::{BusState, NeoGeoBus};

verus! {

/// The rate at which samples are made.
pub const HOST_AUDIO_HZ: u32 = 55_555;

pub const BTN_UP: u32 = 0x001;

pub const BTN_DOWN: u32 = 0x002;

pub const BTN_LEFT: u32 = 0x004;

pub const BTN_RIGHT: u32 = 0x008;

pub const BTN_A: u32 = 0x010;

pub const BTN_B: u32 = 0x020;

pub const BTN_C: u32 = 0x040;

pub const BTN_D: u32 = 0x080;

pub const BTN_START: u32 = 0x100;

pub const BTN_SELECT: u32 = 0x200;

pub const BTN_COIN: u32 = 0x400;

/// The kind of machine.
#[derive(Debug, Clone, Copy, PartialEq, Eq, Structural)]
pub enum Hardware {
    /// An arcade machine.
    Mvs,
    /// A console.
    Aes,
}

/// One stands for a console, anything else for an arcade machine.
pub fn hardware_of(code: i32) -> (h: Hardware)
    ensures
        h == if code == 1 {
            Hardware::Aes
        } else {
            Hardware::Mvs
        },
{
    if code == 1 {
        Hardware::Aes
    } else {
        Hardware::Mvs
    }
}

/// The port of a player's stick and buttons: a pressed one is a zero bit. Both
/// have up, down, left, right and the four buttons in the same order.
#[verifier::allow_in_spec]
pub fn apply_player_mask(mask: u32) -> u8
    returns
        !((mask & 0xFF) as u8),
{
    !((mask & 0xFF) as u8)
}

/// The port of the start and select buttons of two players.
pub open spec fn start_select_of(p1: u32, p2: u32) -> int {
    0xFF - (if p1 & BTN_START != 0 {
        1int
    } else {
        0
    }) - (if p1 & BTN_SELECT != 0 {
        2int
    } else {
        0
    }) - (if p2 & BTN_START != 0 {
        4int
    } else {
        0
    }) - (if p2 & BTN_SELECT != 0 {
        8int
    } else {
        0
    })
}

/// The port of the coin slots.
pub open spec fn coins_of(p1: u32, p2: u32) -> int {
    0xFF - (if p1 & BTN_COIN != 0 {
        1int
    } else {
        0
    }) - (if p2 & BTN_COIN != 0 {
        2int
    } else {
        0
    })
}

/// Set both players' controls.
pub fn set_player_inputs(bus: &mut NeoGeoBus, p1_mask: u32, p2_mask: u32)
    ensures
        final(bus)@ == (BusState {
            p1_input: apply_player_mask(p1_mask),
            p2_input: apply_player_mask(p2_mask),
            start_select: start_select_of(p1_mask, p2_mask) as u8,
            coin_inputs: coins_of(p1_mask, p2_mask) as u8,
            ..old(bus)@
        }),
        old(bus)@.wf() ==> final(bus)@.wf(),
{
    let mut start_select: u8 = 0xFF;
    let mut coins: u8 = 0xFF;
    if p1_mask & BTN_START != 0 {
        start_select = start_select - 1;
    }
    if p1_mask & BTN_SELECT != 0 {
        start_select = start_select - 2;
    }
    if p2_mask & BTN_START != 0 {
        start_select = start_select - 4;
    }
    if p2_mask & BTN_SELECT != 0 {
        start_select = start_select - 8;
    }
    if p1_mask & BTN_COIN != 0 {
        coins = coins - 1;
    }
    if p2_mask & BTN_COIN != 0 {
        coins = coins - 2;
    }
    bus.p1_input = apply_player_mask(p1_mask);
    bus.p2_input = apply_player_mask(p2_mask);
    bus.start_select = start_select;
    bus.coin_inputs = coins;
}

/// A pixel with alpha moved from the bottom to the top.
#[verifier::allow_in_spec]
pub fn argb_of(rgba: u32) -> u32
    returns
        ((rgba & 0xFF) << 24) | (rgba >> 8),
{
    ((rgba & 0xFF) << 24) | (rgba >> 8)
}

/// Repack a picture, as far as the shorter of the two goes.
pub fn repack_argb(frame: &[u32], out: &mut [u32])
    ensures
        final(out)@ == Seq::new(
            old(out)@.len(),
            |i: int|
                if i < frame@.len() {
                    argb_of(frame@[i])
                } else {
                    old(out)@[i]
                },
        ),
{
    let ghost o = out@;
    let n: usize = if frame.len() < out.len() {
        frame.len()
    } else {
        out.len()
    };
    let mut i: usize = 0;
    while i < n
        invariant
            i <= n,
            n <= o.len(),
            n <= frame@.len(),
            out@.len() == o.len(),
            forall|k: int| 0 <= k < i ==> #[trigger] out@[k] == argb_of(frame@[k]),
            forall|k: int| i <= k < o.len() ==> #[trigger] out@[k] == o[k],
        decreases n - i,
    {
        out[i] = argb_of(frame[i]);
        i = i + 1;
    }
}

/// A check sum of the work RAM, by which two machines see that they agree.
pub fn state_checksum(bus: &NeoGeoBus) -> (sum: u32)
    ensures
        sum == crc32_of(bus@.work_ram),
{
    crc32(bus.work_ram.as_slice())
}

/// Take the first samples out of a buffer, as many as fit.
pub fn take_samples(buffer: &mut Vec<i16>, capacity: usize) -> (taken: Vec<i16>)
    ensures
        taken@.len() == if capacity < old(buffer)@.len() {
            capacity as int
        } else {
            old(buffer)@.len() as int
        },
        taken@ + final(buffer)@ == old(buffer)@,
{
    let ghost b = buffer@;
    let total: usize = buffer.len();
    let want: usize = if capacity < total {
        capacity
    } else {
        total
    };
    let mut taken: Vec<i16> = Vec::new();
    let mut rest: Vec<i16> = Vec::new();
    let mut i: usize = 0;
    while i < total
        invariant
            i <= total,
            total == b.len(),
            want <= total,
            buffer@ == b,
            taken@ == b.take(if i < want {
                i as int
            } else {
                want as int
            }),
            rest@ == b.subrange(want as int, if i < want {
                want as int
            } else {
                i as int
            }),
        decreases total - i,
    {
        if i < want {
            taken.push(buffer[i]);
        } else {
            rest.push(buffer[i]);
        }
        assert(taken@ =~= b.take(if i + 1 < want {
            i + 1
        } else {
            want as int
        }));
        assert(rest@ =~= b.subrange(want as int, if i + 1 < want {
            want as int
        } else {
            i + 1
        }));
        i = i + 1;
    }
    *buffer = rest;
    assert(taken@ + buffer@ =~= b);
    taken
}

/// After a frame: give the samples to the ring if a stream plays. What does not
/// fit is dropped rather than played late. Says how many samples are left for
/// another way of playing them.
pub fn feed_ring(host: &mut AudioHost, buffer: &mut Vec<i16>) -> (left: usize)
    requires
        old(host).ring.wf(),
    ensures
        final(host).ring.wf(),
        left == final(buffer)@.len(),
        old(host)@.playing() is None ==> final(host)@ == old(host)@ && final(buffer)@
            == old(buffer)@,
        old(host)@.playing() is Some ==> final(host)@ == (HostState {
            ring: old(host)@.ring.pushed(old(buffer)@),
            ..old(host)@
        }) && final(buffer)@ == Seq::<i16>::empty(),
{
    if is_running(host) {
        let _n: usize = push(host, buffer.as_slice());
        buffer.clear();
    }
    buffer.len()
}

/// Every button has its own bit of the port, zero while it is pressed.
pub proof fn pressed_buttons_are_low(mask: u32, i: u32)
    requires
        i < 8,
    ensures
        (apply_player_mask(mask) >> i) & 1 == if (mask >> i) & 1 == 1 {
            0u8
        } else {
            1u8
        },
{
    crate::bits::inverted_bits(mask, i);
}

/// Pixels keep their colours and their alpha.
pub proof fn repacked_pixels_keep_their_parts(r: u8, g: u8, b: u8, a: u8)
    ensures
        argb_of(((r as u32) << 24) | ((g as u32) << 16) | ((b as u32) << 8) | (a as u32)) == ((
        a as u32) << 24) | ((r as u32) << 16) | ((g as u32) << 8) | (b as u32),
{
    crate::bits::repacked(r, g, b, a);
}

}
