//! How the square waves, the noise and the envelope of the square-wave generator
//! go, how samples are coded, and which operators the key register presses.
use vstd::prelude::*;
use vstd::arithmetic::power2::pow2;
use crate::audio::adpcm_a::{jedi_of, AdpcmAChan, ADPCMA_STEPS};
use crate::audio::adpcm_b::{DeltaTChan, DELTAT_TABLE_B2};
use crate::audio::ssg::{amplitude_of, noise_after, SsgState, SSG_AMPLITUDES};
use crate::audio::ym2610::YmState;

verus! {

/// A tone turns over whenever its period, in ticks, has passed, and goes on like
/// that: after any number of ticks its count and its state are what the periods
/// passed give.
pub proof fn tones_turn_over_every_period(s: SsgState, i: int, n: int)
    requires
        s.wf(),
        0 <= i < 3,
        s.tone_period[i] >= 1,
        s.tone_count[i] < s.tone_period[i],
        n >= 0,
    ensures
        ({
            let t = s.ticks(n);
            let p = s.tone_period[i] as int;
            let passed = s.tone_count[i] + n;
            &&& t.tone_period == s.tone_period
            &&& t.tone_count.len() == 3 && t.tone_state.len() == 3
            &&& t.tone_count[i] == passed % p
            &&& t.tone_state[i] == if (passed / p) % 2 == 1 {
                1 - s.tone_state[i]
            } else {
                s.tone_state[i] as int
            }
        }),
    decreases n,
{
    let p = s.tone_period[i] as int;
    let passed = s.tone_count[i] + n;
    assert(s.tone_state[i] <= 1);
    if n == 0 {
        vstd::arithmetic::div_mod::lemma_fundamental_div_mod_converse(passed, p, 0, passed);
    } else {
        tones_turn_over_every_period(s, i, n - 1);
        let (q, r) = ((passed - 1) / p, (passed - 1) % p);
        vstd::arithmetic::div_mod::lemma_fundamental_div_mod(passed - 1, p);
        vstd::arithmetic::div_mod::lemma_mod_bound(passed - 1, p);
        if r + 1 == p {
            assert((q + 1) * p == p * q + p) by (nonlinear_arith);
            vstd::arithmetic::div_mod::lemma_fundamental_div_mod_converse(passed, p, q + 1, 0);
        } else {
            assert(q * p == p * q) by (nonlinear_arith);
            vstd::arithmetic::div_mod::lemma_fundamental_div_mod_converse(passed, p, q, r + 1);
        }
        let u = s.ticks(n - 1);
        assert(s.ticks(n) == u.ticked());
        assert(u.tone_period[i] == s.tone_period[i]);
    }
}

/// The sixteen envelope shapes. The first pass of 32 steps rises if bit 2 is set
/// and falls otherwise. Without bit 3 it is over then, and silent; with bit 0 it
/// stays, high if it rose or would turn, but not both; otherwise it goes on, every
/// other pass turned if bit 1 is set.
pub proof fn envelopes_have_their_shapes(s: SsgState)
    requires
        s.env_shape < 16,
    ensures
        ({
            let (shape, pass, pos) = (
                s.env_shape as int,
                s.env_state as int / 32,
                s.env_state as int % 32,
            );
            let v = s.env_volume();
            &&& pass == 0 && (shape / 4) % 2 == 1 ==> v == pos
            &&& pass == 0 && (shape / 4) % 2 == 0 ==> v == 31 - pos
            &&& pass > 0 && shape < 8 ==> v == 0
            &&& pass > 0 && (shape == 9 || shape == 15) ==> v == 0
            &&& pass > 0 && (shape == 11 || shape == 13) ==> v == 31
            &&& shape == 8 ==> v == 31 - pos
            &&& shape == 12 ==> v == pos
            &&& shape == 10 ==> v == if pass % 2 == 0 { 31 - pos } else { pos }
            &&& shape == 14 ==> v == if pass % 2 == 0 { pos } else { 31 - pos }
        }),
{
}

/// Periods are set a byte at a time, in either order; a volume of sixteen and up
/// gives the channel to the envelope.
pub proof fn periods_are_set_in_halves(s: SsgState, i: int, lo: u8, hi: u8)
    requires
        s.wf(),
        0 <= i < 3,
    ensures
        ({
            let (a, b) = ((2 * i) as u8, (2 * i + 1) as u8);
            &&& s.written(a, lo).written(b, hi).tone_period[i] == 256 * (hi % 16) + lo
            &&& s.written(b, hi).written(a, lo).tone_period[i] == 256 * (hi % 16) + lo
            &&& s.written(11, lo).written(12, hi).env_period == 256 * hi + lo
            &&& s.written(12, hi).written(11, lo).env_period == 256 * hi + lo
            &&& s.written((8 + i) as u8, lo).vol[i] == lo % 32
            &&& s.written(6, lo).noise_period == lo % 32
            &&& s.written(7, lo).mixer == lo
            &&& s.written(13, lo).env_shape == lo % 16 && s.written(13, lo).env_state == 0
        }),
{
}

/// A louder volume is never quieter, and volume 0 is silence.
pub proof fn volumes_rise(a: int, b: int)
    requires
        0 <= a <= b < 32,
    ensures
        0 <= amplitude_of(a) <= amplitude_of(b),
        amplitude_of(0) == 0,
    decreases b - a,
{
    reveal(amplitude_of);
    if a < b {
        volumes_rise(a, b - 1);
        assert(forall|k: int|
            0 <= k < 31 ==> #[trigger] SSG_AMPLITUDES@[k] <= SSG_AMPLITUDES@[k + 1]);
        assert(SSG_AMPLITUDES@[b - 1] <= SSG_AMPLITUDES@[b - 1 + 1]);
    }
}

/// The noise never dies out.
pub proof fn noise_goes_on(s: u32)
    requires
        0 < s < 0x2_0000,
    ensures
        0 < noise_after(s) < 0x2_0000,
        noise_after(s) % 0x1_0000 == s / 2,
{
}

/// Register 28 presses and lets go: its low three bits name a channel, three to a
/// bank, and its high four bits the operators that are held down. Other channels
/// stay as they are.
pub proof fn keys_press_operators(s: YmState, val: u8, i: int)
    requires
        s.wf(),
        val % 4 != 3,
        0 <= i < 4,
    ensures
        ({
            let t = s.written_a(0x28, val);
            let c = val as int % 4 + 3 * ((val as int / 4) % 2);
            &&& t.fm.ch[c].op[i].key == ((val as int / 16 / pow2(i as nat) as int) % 2 == 1)
            &&& forall|j: int| 0 <= j < 6 && j != c ==> #[trigger] t.fm.ch[j] == s.fm.ch[j]
        }),
{
    let mask = val / 16;
    vstd::bits::lemma_u8_shr_is_div(mask, i as u8);
    crate::bits::low_bits((mask >> (i as u8)) as u32);
    let c = val as int % 4 + 3 * ((val as int / 4) % 2);
    assert(s.fm.ch[c].wf());
}

/// Both kinds of samples are coded as differences: bit 3 of a nibble is the sign,
/// the other three, doubled and one more, count eighths of the step. Steps shrink
/// a little for small differences and grow for large ones, within bounds.
pub proof fn nibbles_are_signed_differences(c: AdpcmAChan, b: DeltaTChan, nib: int)
    requires
        c.wf(),
        b.wf(),
        0 <= c.acc < 4096,
        0 <= nib < 16,
    ensures
        ({
            let m = nib % 8;
            let size = ((2 * m + 1) * ADPCMA_STEPS@[c.step as int / 16]) / 8;
            let moved = c.step as int / 16 + if m < 4 {
                -1int
            } else if m == 4 {
                2
            } else if m == 5 {
                5
            } else if m == 6 {
                7
            } else {
                9
            };
            let d = c.decoded(nib);
            &&& d.acc == (if nib >= 8 { c.acc - size } else { c.acc + size }) % 4096
            &&& d.step == 16 * (if moved < 0 {
                0
            } else if moved > 48 {
                48
            } else {
                moved
            })
            &&& d.addr_nib == c.addr_nib.wrapping_add(1)
        }),
        ({
            let m = nib % 8;
            let size = ((2 * m + 1) * b.adpcmd) / 8;
            let sum = if nib >= 8 { b.acc - size } else { b.acc + size };
            let grown = (b.adpcmd * (if m < 4 {
                57int
            } else if m == 4 {
                77
            } else if m == 5 {
                102
            } else if m == 6 {
                128
            } else {
                153
            })) / 64;
            let d = b.decoded(nib);
            &&& d.prev_acc == b.acc
            &&& -0x8000 <= sum <= 0x7FFF ==> d.acc == sum
            &&& sum > 0x7FFF ==> d.acc == 0x7FFF
            &&& sum < -0x8000 ==> d.acc == -0x8000
            &&& 127 <= grown <= 24576 ==> d.adpcmd == grown
            &&& grown < 127 ==> d.adpcmd == 127
            &&& grown > 24576 ==> d.adpcmd == 24576
        }),
{
    difference_of_a(c, nib);
    difference_of_b(b, nib);
}

proof fn difference_of_a(c: AdpcmAChan, nib: int)
    requires
        c.wf(),
        0 <= c.acc < 4096,
        0 <= nib < 16,
    ensures
        ({
            let m = nib % 8;
            let size = ((2 * m + 1) * ADPCMA_STEPS@[c.step as int / 16]) / 8;
            let moved = c.step as int / 16 + if m < 4 {
                -1int
            } else if m == 4 {
                2
            } else if m == 5 {
                5
            } else if m == 6 {
                7
            } else {
                9
            };
            let d = c.decoded(nib);
            &&& d.acc == (if nib >= 8 { c.acc - size } else { c.acc + size }) % 4096
            &&& d.step == 16 * (if moved < 0 {
                0
            } else if moved > 48 {
                48
            } else {
                moved
            })
            &&& d.addr_nib == c.addr_nib.wrapping_add(1)
        }),
{
    let k = c.step as int / 16;
    let s = ADPCMA_STEPS@[k];
    assert(16 <= s <= 1552);
    let odd = 2 * (nib % 8) + 1;
    assert(16 <= odd * s <= 23280) by (nonlinear_arith)
        requires
            1 <= odd <= 15,
            16 <= s <= 1552,
    ;
    let delta = jedi_of(k, nib);
    assert(-2910 <= delta <= 2910);
    let sum = c.acc.wrapping_add(delta as i32);
    assert(sum == c.acc + delta);
    crate::bits::low12(sum);
}

proof fn difference_of_b(b: DeltaTChan, nib: int)
    requires
        b.wf(),
        0 <= nib < 16,
    ensures
        ({
            let m = nib % 8;
            let size = ((2 * m + 1) * b.adpcmd) / 8;
            let sum = if nib >= 8 { b.acc - size } else { b.acc + size };
            let grown = (b.adpcmd * (if m < 4 {
                57int
            } else if m == 4 {
                77
            } else if m == 5 {
                102
            } else if m == 6 {
                128
            } else {
                153
            })) / 64;
            let d = b.decoded(nib);
            &&& d.prev_acc == b.acc
            &&& -0x8000 <= sum <= 0x7FFF ==> d.acc == sum
            &&& sum > 0x7FFF ==> d.acc == 0x7FFF
            &&& sum < -0x8000 ==> d.acc == -0x8000
            &&& 127 <= grown <= 24576 ==> d.adpcmd == grown
            &&& grown < 127 ==> d.adpcmd == 127
            &&& grown > 24576 ==> d.adpcmd == 24576
        }),
{
    let m = nib % 8;
    assert(DELTAT_TABLE_B2@[nib] == if m < 4 {
        57int
    } else if m == 4 {
        77
    } else if m == 5 {
        102
    } else if m == 6 {
        128
    } else {
        153
    });
}

}
