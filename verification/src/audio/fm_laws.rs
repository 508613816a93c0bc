//! What holds of the FM synthesiser as a whole.
use vstd::prelude::*;
use vstd::arithmetic::power2::pow2;
use crate::audio::fm::{routed, FmState};
use crate::audio::fm_channel::{lines_from, with_second, with_third, FmChState, Lfo};
use crate::audio::fm_op::{wave, FmOp};
use crate::audio::tables::{sin_of, tl_base_of, TL_BASE, TL_TAB_LEN};

verus! {

/// What a channel adds to a side: its level, if its pan bit for the side is set.
pub open spec fn panned(c: FmChState, side: u8, level: i32) -> int {
    if c.pan & side != 0 {
        level as int
    } else {
        0
    }
}

/// Each heard channel's level is within fifteen bits, and either side is the sum
/// of the heard channels that are panned to it.
#[verifier::rlimit(40)]
pub proof fn sides_are_sums_of_heard_channels(s: FmState, side: u8)
    requires
        s.ch.len() == 6,
        side == 0x80 || side == 0x40,
    ensures
        ({
            let (l, r, heard) = s.sample();
            &&& heard.len() == 4
            &&& forall|i: int| 0 <= i < 4 ==> -16384 <= #[trigger] heard[i] <= 16383
            &&& (if side == 0x80 { l } else { r }) == panned(s.ch[1], side, heard[0]) + panned(
                s.ch[2],
                side,
                heard[1],
            ) + panned(s.ch[4], side, heard[2]) + panned(s.ch[5], side, heard[3])
        }),
{
    reveal(FmState::sample);
    let t = s.clocked();
    level_is_bounded(t, 1);
    level_is_bounded(t, 2);
    level_is_bounded(t, 4);
    level_is_bounded(t, 5);
    reveal_with_fuel(FmState::side, 7);
}

proof fn level_is_bounded(s: FmState, c: int)
    ensures
        -16384 <= s.ch_stepped(c).1 <= 16383,
{
    crate::bits::halved(s.ch[c].lines(s.lfo.am).carrier);
}

/// Two synthesisers that agree in everything but channels 0 and 3.
pub open spec fn heard_alike(s: FmState, t: FmState) -> bool {
    &&& s.ch.len() == 6
    &&& t == (FmState { ch: t.ch, ..s })
    &&& t.ch.len() == 6
    &&& forall|c: int| routed(c) ==> #[trigger] s.ch[c] == t.ch[c]
}

/// No sample, now or later, depends on what channels 0 and 3 hold.
#[verifier::rlimit(40)]
pub proof fn unheard_channels_do_not_matter(s: FmState, t: FmState)
    requires
        heard_alike(s, t),
    ensures
        s.sample() == t.sample(),
        heard_alike(s.stepped(), t.stepped()),
{
    reveal(FmState::sample);
    reveal(FmState::stepped);
    let (a, b) = (s.clocked(), t.clocked());
    assert forall|c: int| routed(c) implies #[trigger] a.ch_stepped(c) == b.ch_stepped(c)
        && a.ch[c] == b.ch[c] by {
        assert(s.ch[c] == t.ch[c]);
        assert(a.ch[c] == b.ch[c]);
        assert(a.freqs(c) =~= b.freqs(c));
    }
    assert(a.ch_stepped(1) == b.ch_stepped(1));
    assert(a.ch_stepped(2) == b.ch_stepped(2));
    assert(a.ch_stepped(4) == b.ch_stepped(4));
    assert(a.ch_stepped(5) == b.ch_stepped(5));
    reveal_with_fuel(FmState::side, 7);
    let (d, e) = (s.stepped(), t.stepped());
    assert forall|c: int| routed(c) implies #[trigger] d.ch[c] == e.ch[c] by {
        assert(a.ch_stepped(c) == b.ch_stepped(c));
    }
    assert(e == (FmState { ch: e.ch, ..d }));
}

/// Writes to the registers of channels 0 and 3, and their keys, change nothing
/// that is heard. The separate frequencies of channel 2, which lie among the
/// registers of channel 0, are not theirs.
pub proof fn unheard_writes_do_not_matter(s: FmState, addr: u8, val: u8, bank: bool)
    requires
        s.ch.len() == 6,
        addr % 4 == 0,
        !(addr == 0xA8 || addr == 0xAC),
    ensures
        heard_alike(s, s.written(addr, val, bank)),
        heard_alike(s, s.keyed(0, val)),
        heard_alike(s, s.keyed(3, val)),
{
}

/// The same write, or the same key, leaves two such synthesisers alike.
pub proof fn writes_keep_heard_alike(s: FmState, t: FmState, addr: u8, val: u8, bank: bool, c: int)
    requires
        heard_alike(s, t),
        s.multi_freq.len() == 3,
        0 <= c,
    ensures
        heard_alike(s.written(addr, val, bank), t.written(addr, val, bank)),
        heard_alike(s.keyed(c, val), t.keyed(c, val)),
        heard_alike(s.mode_written(val), t.mode_written(val)),
{
    rates_stay_alike(FmState { multi: val >= 64, ..s }, FmState { multi: val >= 64, ..t }, 2);
    if c < 6 {
        rates_stay_alike(
            s.with_ch(c, s.ch[c].keyed(val)),
            t.with_ch(c, t.ch[c].keyed(val)),
            c,
        );
    }
    let k = addr as int % 4 + if bank {
        3int
    } else {
        0
    };
    if addr % 4 != 3 && addr / 16 == 10 {
        let i = addr as int % 4;
        let part = (addr / 4) % 4;
        if part == 0 {
            let f = s.ch[k];
            let g = t.ch[k];
            rates_stay_alike(
                s.with_ch(
                    k,
                    FmChState { fnum_block: (256 * f.fnum_latch_hi + val) as u16, ..f },
                ),
                t.with_ch(
                    k,
                    FmChState { fnum_block: (256 * g.fnum_latch_hi + val) as u16, ..g },
                ),
                k,
            );
        } else if part >= 2 && !bank {
            let f = s.multi_freq[i] as int;
            let g = if part == 2 {
                256 * ((f / 256) % 64) + val
            } else {
                256 * (val as int % 64) + f % 256
            };
            let freqs = s.multi_freq.update(i, g as u16);
            rates_stay_alike(
                FmState { multi_freq: freqs, ..s },
                FmState { multi_freq: freqs, ..t },
                2,
            );
        }
    }
}

proof fn rates_stay_alike(s: FmState, t: FmState, c: int)
    requires
        heard_alike(s, t),
        0 <= c < 6,
    ensures
        heard_alike(s.ksr_updated(c), t.ksr_updated(c)),
{
    if routed(c) {
        assert(s.ch[c] == t.ch[c]);
        assert(s.freqs(c) =~= t.freqs(c));
    }
}

/// The attenuation of an operator: the register's and the envelope's, within ten
/// bits, turned over while a looping envelope runs turned, and the oscillator's
/// share if the operator takes tremolo.
pub open spec fn total_attenuation(op: FmOp, ams: u8, am: u32) -> int {
    let v = if op.volume < 0 {
        0
    } else if op.volume > 1023 {
        1023
    } else {
        op.volume as int
    };
    let turned = op.ssg & 8 != 0 && op.ssgn & 2 != 0 && op.state >= 2;
    op.tl + (if turned { 1023 - v } else { v }) + (if op.am_enabled {
        am as int / pow2(ams as nat) as int
    } else {
        0
    })
}

/// What an operator gives when `pm` modulates it: the wave at its phase, moved by
/// half of `pm`; nothing from an attenuation of 832 on.
pub open spec fn operator_level(op: FmOp, ams: u8, am: u32, pm: int) -> int {
    let env = total_attenuation(op, ams, am);
    if env >= 832 {
        0
    } else {
        wave((op.phase as int / 0x1_0000 + pm / 2) % 1024, env as u32)
    }
}

/// A sum kept within sixteen bits.
pub open spec fn within_word(v: int) -> int {
    if v < -0x8000 {
        -0x8000
    } else if v > 0x7FFF {
        0x7FFF
    } else {
        v
    }
}

/// The levels of the wave are within fourteen bits.
#[verifier::rlimit(40)]
pub proof fn waves_are_bounded(pos: int, env: u32)
    ensures
        -8192 <= wave(pos, env) <= 8192,
{
    let p = (env << 3).wrapping_add(sin_of(pos) as u32);
    if p < TL_TAB_LEN {
        let k = (p as int % 512) / 2;
        reveal(tl_base_of);
        assert(forall|j: int| 0 <= j < 256 ==> #[trigger] TL_BASE@[j] <= 8192);
        assert(TL_BASE@[k] <= 8192);
        crate::bits::shifted_down(tl_base_of(k), (p as int / 512) as u32);
    }
}

proof fn level_of_operator(c: FmChState, i: int, am: u32, pm: int)
    requires
        c.wf(),
        0 <= i < 4,
    ensures
        c.heard(i, am, pm) == operator_level(c.op[i], c.ams, am, pm),
        -8192 <= c.heard(i, am, pm) <= 8192,
{
    assert(c.op[i].wf());
    vstd::bits::lemma_u32_shr_is_div(am, c.ams as u32);
    let env = total_attenuation(c.op[i], c.ams, am);
    waves_are_bounded((c.op[i].phase as int / 0x1_0000 + pm / 2) % 1024, env as u32);
}

/// The eight wirings of the four operators, as the chip has them. The first
/// operator counts with the level it had a sample ago, and a level that has to
/// pass through two operators in one sample is held for the next one. The fourth
/// operator is always heard; the second from wiring 4 on, the third from wiring 5
/// on, the first in wiring 7. The output is half the sum of what is heard, the sum
/// kept within sixteen bits.
#[verifier::rlimit(40)]
pub proof fn wirings_are_as_numbered(c: FmChState, lfo: Lfo, freqs: Seq<u16>)
    requires
        c.wf(),
    ensures
        ({
            let (d, out) = c.stepped(lfo, freqs);
            let (first, held) = (c.op0_prev.1 as int, c.mem_value as int);
            let third_by = if c.alg == 0 || c.alg == 1 || c.alg == 2 || c.alg == 5 {
                held
            } else {
                0
            };
            let second_by = if c.alg == 1 || c.alg == 2 || c.alg == 7 {
                0
            } else {
                first
            };
            let third = operator_level(c.op[2], c.ams, lfo.am, third_by);
            let second = operator_level(c.op[1], c.ams, lfo.am, second_by);
            let fourth_by = if c.alg == 0 || c.alg == 1 || c.alg == 4 {
                third
            } else if c.alg == 2 {
                first + third
            } else if c.alg == 3 {
                held + third
            } else if c.alg == 5 {
                first
            } else {
                0
            };
            let fourth = operator_level(c.op[3], c.ams, lfo.am, fourth_by);
            let sum = if c.alg < 4 {
                fourth
            } else if c.alg == 4 {
                second + fourth
            } else if c.alg < 7 {
                second + third + fourth
            } else {
                first + second + third + fourth
            };
            &&& out == within_word(sum) / 2
            &&& d.mem_value == if c.alg == 0 || c.alg == 2 || c.alg == 3 {
                second
            } else if c.alg == 1 {
                first + second
            } else if c.alg == 5 {
                first
            } else {
                0
            }
        }),
{
    let am = lfo.am;
    let l0 = lines_from(c.alg, c.mem_value, c.op0_prev.1);
    level_of_operator(c, 2, am, l0.m2 as int);
    let l1 = with_third(l0, c.alg, c.heard(2, am, l0.m2 as int));
    level_of_operator(c, 1, am, l1.c1 as int);
    let l2 = with_second(l1, c.alg, c.heard(1, am, l1.c1 as int));
    level_of_operator(c, 3, am, l2.c2 as int);
    halves(c.lines(am).carrier);
}

proof fn halves(x: i32)
    requires
        -32768 <= x <= 32767,
    ensures
        x >> 1 == x as int / 2,
{
    crate::bits::halved(x);
}

/// The first operator modulates itself: with the sum of its last two levels times
/// a power of two, in 65536ths of a step of the wave, unless there is no feedback.
/// The last two levels are remembered.
pub proof fn first_operator_feeds_back(c: FmChState, lfo: Lfo, freqs: Seq<u16>)
    requires
        c.wf(),
    ensures
        ({
            let d = c.stepped(lfo, freqs).0;
            let env = total_attenuation(c.op[0], c.ams, lfo.am);
            let pm = if c.fb == 0 {
                0
            } else {
                (c.op0_prev.0 + c.op0_prev.1) * pow2(c.fb as nat)
            };
            &&& d.op0_prev.0 == c.op0_prev.1
            &&& d.op0_prev.1 == if env >= 832 {
                0
            } else {
                wave((c.op[0].phase as int / 0x1_0000 + pm / 0x1_0000) % 1024, env as u32)
            }
        }),
{
    assert(c.op[0].wf());
    vstd::bits::lemma_u32_shr_is_div(lfo.am, c.ams as u32);
    vstd::arithmetic::power2::lemma2_to64();
    vstd::bits::lemma_u32_pow2_no_overflow(c.fb as nat);
    vstd::bits::lemma_u32_shl_is_mul(1, c.fb as u32);
    let env = total_attenuation(c.op[0], c.ams, lfo.am);
    let pm = if c.fb == 0 {
        0
    } else {
        (c.op0_prev.0 + c.op0_prev.1) * pow2(c.fb as nat)
    };
    waves_are_bounded((c.op[0].phase as int / 0x1_0000 + pm / 0x1_0000) % 1024, env as u32);
}

}
