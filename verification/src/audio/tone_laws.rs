//! How an FM operator sounds: its frequency, its envelope, its wave, and the
//! registers that set them.
use vstd::prelude::*;
use vstd::arithmetic::power2::pow2;
use crate::audio::fm::FmState;
use crate::audio::fm_channel::{kcode_of, FmChState, Lfo};
use crate::audio::fm_op::{eg_step, wave, FmOp};
use crate::audio::tables::{
    detune_base_of, dt_of, eg_inc_of, sin_of, sin_quarter_of, tl_base_of, tl_of, DT_TAB_BASE,
    EG_INC, SIN_QUARTER, TL_BASE, TL_TAB_LEN,
};

verus! {

/// In a sample an operator moves by its channel's frequency, doubled for each
/// octave, times its multiple, or half of it for multiple 0; detune adds up to a
/// few steps, the same amount upwards and downwards, and nothing for the settings 0
/// and 4. This is without vibrato.
#[verifier::rlimit(40)]
pub proof fn phases_move_by_frequency(c: FmChState, lfo: Lfo, freqs: Seq<u16>, i: int)
    requires
        c.wf(),
        0 <= i < 4,
        freqs.len() == 4,
        !lfo.enabled,
    ensures
        ({
            let d = c.stepped(lfo, freqs).0.op[i];
            let (op, f) = (c.op[i], freqs[i] as int);
            let octave = (f / 2048) % 8;
            let step = (f % 2048) * pow2((octave + 5) as nat);
            let moved = (step + dt_of(op.dt as int, kcode_of(freqs[i]) % 32)) % 0x1000_0000;
            let scaled = if op.mul == 0 { moved / 2 } else { moved * op.mul };
            &&& d == (FmOp { phase: d.phase, ..op })
            &&& d.phase == (op.phase + scaled % 0x8000_0000) % 0x1_0000_0000
            &&& op.dt % 4 == 0 ==> dt_of(op.dt as int, kcode_of(freqs[i]) % 32) == 0
        }),
{
    let (op, f) = (c.op[i], freqs[i] as int);
    assert(op.wf());
    let octave = (f / 2048) % 8;
    vstd::arithmetic::power2::lemma2_to64();
    vstd::bits::lemma_u32_pow2_no_overflow((octave + 5) as nat);
    vstd::bits::lemma_u32_shl_is_mul(1, (octave + 5) as u32);
    let kc = kcode_of(freqs[i]) % 32;
    let step = (f % 2048) * pow2((octave + 5) as nat);
    let moved = (step + dt_of(op.dt as int, kc)) % 0x1000_0000;
    doubled_and_halved(moved, op.mul as int);
    reveal(detune_base_of);
    assert(forall|j: int| 0 <= j < 32 ==> #[trigger] DT_TAB_BASE@[j] == 0);
    assert(DT_TAB_BASE@[kc] == 0);
    let inc = op.phase_step(f % 2048, octave as u32, kcode_of(freqs[i]));
    assert(0 <= inc < 0x1_0000_0000);
}

proof fn doubled_and_halved(moved: int, mul: int)
    requires
        0 <= moved < 0x1000_0000,
        0 <= mul < 16,
    ensures
        ({
            let twice = if mul == 0 { 1int } else { 2 * mul };
            let scaled = if mul == 0 { moved / 2 } else { moved * mul };
            ((moved * twice) % 0x1_0000_0000) / 2 == scaled % 0x8000_0000
        }),
{
    if mul == 0 {
        assert(moved * 1 == moved);
    } else {
        let p = moved * mul;
        assert(moved * (2 * mul) == 2 * p) by (nonlinear_arith)
            requires
                p == moved * mul,
        ;
        assert((2 * p) % 0x1_0000_0000 == 2 * (p % 0x8000_0000));
    }
}

/// The envelope moves only when the counter is a multiple of the span of its rate,
/// and then by a step of the rate's row.
pub open spec fn step_at(cnt: u32, sh: u32, sel: u32) -> int {
    let span = pow2(sh as nat) as int;
    if cnt as int % span == 0 {
        eg_inc_of(sel + (cnt as int / span) % 8) as int
    } else {
        0
    }
}

#[verifier::rlimit(40)]
proof fn steps_agree(cnt: u32, sh: u32, sel: u32)
    requires
        sh <= 11,
        sel <= 144,
    ensures
        eg_step(cnt, sh, sel) is None ==> step_at(cnt, sh, sel) == 0,
        eg_step(cnt, sh, sel) matches Some(inc) ==> step_at(cnt, sh, sel) == inc,
        0 <= step_at(cnt, sh, sel) <= 16,
{
    vstd::bits::lemma_u32_pow2_no_overflow(sh as nat);
    vstd::bits::lemma_u32_shl_is_mul(1, sh);
    vstd::arithmetic::power2::lemma_pow2_pos(sh as nat);
    reveal(eg_inc_of);
    assert(forall|k: int| 0 <= k < 152 ==> #[trigger] EG_INC@[k] <= 16);
}

/// An envelope that does not loop. Attack brings the attenuation down, by the
/// steps' share of itself in sixteenths and at least one for a step, to zero, where
/// decay begins. Decay brings it up to the sustain level, where sustain begins;
/// sustain goes on up to the top; release goes up to the top, where it ends.
/// Nothing but the attenuation and the stage changes.
pub proof fn envelopes_go_through_their_stages(op: FmOp, cnt: u32)
    requires
        op.wf(),
        op.ssg & 8 == 0,
    ensures
        ({
            let d = op.advanced(cnt);
            let a = step_at(cnt, op.eg_sh_ar, op.eg_sel_ar);
            let b = step_at(cnt, op.eg_sh_d1r, op.eg_sel_d1r);
            let s = step_at(cnt, op.eg_sh_d2r, op.eg_sel_d2r);
            let r = step_at(cnt, op.eg_sh_rr, op.eg_sel_rr);
            let v = op.volume;
            let fall = ((v + 1) * a + 15) / 16;
            &&& d == (FmOp { volume: d.volume, state: d.state, ..op })
            &&& op.state == 0 ==> d == op
            &&& op.state == 4 && fall > 0 && fall >= v ==> d.volume == 0 && d.state == 3
            &&& op.state == 4 && 0 < fall < v ==> d.volume == v - fall && d.state == 4
            &&& op.state == 4 && a > 0 && v >= 0 ==> fall > 0
            &&& op.state == 3 && b > 0 ==> d.volume == v + b && d.state == (if v + b >= op.sl {
                2u8
            } else {
                3u8
            })
            &&& op.state == 3 && eg_step(cnt, op.eg_sh_d1r, op.eg_sel_d1r) is None ==> d == op
            &&& op.state == 2 && s > 0 ==> d.volume == (if v + s >= 1023 { 1023 } else { v + s })
                && d.state == 2
            &&& op.state == 1 && r > 0 ==> d.volume == (if v + r >= 1023 { 1023 } else { v + r })
                && d.state == (if v + r >= 1023 { 0u8 } else { 1u8 })
        }),
{
    steps_agree(cnt, op.eg_sh_ar, op.eg_sel_ar);
    steps_agree(cnt, op.eg_sh_d1r, op.eg_sel_d1r);
    steps_agree(cnt, op.eg_sh_d2r, op.eg_sel_d2r);
    steps_agree(cnt, op.eg_sh_rr, op.eg_sel_rr);
    let a = step_at(cnt, op.eg_sh_ar, op.eg_sel_ar);
    let x = (op.volume + 1) * a;
    assert(-(op.volume + 1) * a == -x) by (nonlinear_arith)
        requires
            x == (op.volume + 1) * a,
    ;
    assert((-x) / 16 == -((x + 15) / 16));
    if a > 0 && op.volume >= 0 {
        assert(x >= 1) by (nonlinear_arith)
            requires
                x == (op.volume + 1) * a,
                a >= 1,
                op.volume >= 0,
        ;
    }
}

/// The wave is odd: its second half is its first, turned over. Sixty-four steps of
/// attenuation halve it.
pub proof fn waves_halve(pos: int, env: u32)
    requires
        0 <= pos < 1024,
        env < 832,
    ensures
        ({
            let (v, w) = (wave(pos, env), wave(pos, (env + 64) as u32));
            &&& pos < 512 ==> v >= 0
            &&& pos >= 512 ==> v <= 0
            &&& pos < 512 ==> w == v / 2
            &&& pos >= 512 ==> w == -((-v) / 2)
        }),
{
    crate::bits::times_eight(env);
    crate::bits::times_eight((env + 64) as u32);
    halves_have_signs(pos);
    let p = 8 * env + sin_of(pos);
    if p < TL_TAB_LEN {
        one_octave_lower(p);
    }
}

#[verifier::rlimit(40)]
proof fn halves_have_signs(pos: int)
    requires
        0 <= pos < 1024,
    ensures
        sin_of(pos) % 2 == (if pos < 512 { 0int } else { 1 }),
        0 <= sin_of(pos) <= 5000,
{
    let k = pos % 512;
    let quarter = if k < 256 {
        k
    } else {
        511 - k
    };
    reveal(sin_quarter_of);
    assert(forall|j: int|
        0 <= j < 256 ==> #[trigger] SIN_QUARTER@[j] % 2 == 0 && SIN_QUARTER@[j] < 5000);
    assert(SIN_QUARTER@[quarter] % 2 == 0 && SIN_QUARTER@[quarter] < 5000);
}

/// One octave further down a level is halved.
#[verifier::rlimit(40)]
proof fn one_octave_lower(p: int)
    requires
        0 <= p < TL_TAB_LEN,
    ensures
        p % 2 == 0 ==> tl_of(p) >= 0,
        p % 2 == 1 ==> tl_of(p) <= 0,
        p + 512 < TL_TAB_LEN && p % 2 == 0 ==> tl_of(p + 512) == tl_of(p) / 2,
        p + 512 < TL_TAB_LEN && p % 2 == 1 ==> tl_of(p + 512) == -((-tl_of(p)) / 2),
        p + 512 >= TL_TAB_LEN ==> -1 <= tl_of(p) <= 1,
{
    let j = (p % 512) / 2;
    let o = (p / 512) as u16;
    reveal(tl_base_of);
    assert(forall|j: int| 0 <= j < 256 ==> #[trigger] TL_BASE@[j] < 8192);
    let b = TL_BASE@[j];
    assert(b < 8192);
    assert((p + 512) / 512 == p / 512 + 1 && ((p + 512) % 512) / 2 == j);
    vstd::bits::lemma_u16_shr_is_div(b, o);
    vstd::bits::lemma_u16_shr_is_div(b, (o + 1) as u16);
    vstd::arithmetic::power2::lemma_pow2_unfold((o + 1) as nat);
    vstd::arithmetic::power2::lemma_pow2_pos(o as nat);
    vstd::arithmetic::div_mod::lemma_div_denominator(b as int, pow2(o as nat) as int, 2);
    vstd::arithmetic::power2::lemma2_to64();
    vstd::arithmetic::div_mod::lemma_div_pos_is_pos(b as int, pow2(o as nat) as int);
    if p + 512 >= TL_TAB_LEN {
        assert(o == 12);
        assert(pow2(12) == 4096);
        assert(b as int / 4096 <= 1);
    }
}

/// The registers of an operator, by their group: multiple and detune; level; attack
/// and key scaling; decay and tremolo; sustain; sustain level and release; loop.
#[verifier::rlimit(40)]
pub proof fn registers_set_operators(s: FmState, addr: u8, val: u8, bank: bool)
    requires
        s.wf(),
        addr % 4 != 3,
        0x30 <= addr < 0xA0,
    ensures
        ({
            let t = s.written(addr, val, bank);
            let c = addr as int % 4 + if bank { 3int } else { 0 };
            let raw = (addr as int / 4) % 4;
            let o = if raw == 1 { 2int } else if raw == 2 { 1 } else { raw };
            let (p, q) = (s.ch[c].op[o], t.ch[c].op[o]);
            let rate = |v: int| if v == 0 { 0int } else { 32 + 2 * v };
            &&& addr / 16 == 3 ==> q.mul == val % 16 && q.dt == (val / 16) % 8
            &&& addr / 16 == 4 ==> q.tl == 8 * (val % 128)
            &&& addr / 16 == 5 ==> q.ar == rate(val as int % 32) && q.ksr_shift == 3 - val / 64
            &&& addr / 16 == 6 ==> q.dr == rate(val as int % 32) && q.am_enabled == (val >= 128)
            &&& addr / 16 == 7 ==> q.sr == rate(val as int % 32)
            &&& addr / 16 == 8 ==> q.rr == 34 + 4 * (val % 16) && q.sl == (if val / 16 == 15 {
                992int
            } else {
                32 * (val as int / 16)
            })
            &&& addr / 16 == 9 ==> q.ssg == val % 16
            &&& q.phase == p.phase && q.volume == p.volume && q.state == p.state && q.key
                == p.key
            &&& addr / 16 != 3 ==> q.mul == p.mul && q.dt == p.dt
            &&& addr / 16 != 4 ==> q.tl == p.tl
            &&& addr / 16 != 5 ==> q.ar == p.ar
            &&& addr / 16 != 6 ==> q.dr == p.dr && q.am_enabled == p.am_enabled
            &&& addr / 16 != 7 ==> q.sr == p.sr
            &&& addr / 16 != 8 ==> q.rr == p.rr && q.sl == p.sl
            &&& addr / 16 != 9 ==> q.ssg == p.ssg
        }),
{
    reveal(crate::audio::tables::sustain_level_of);
}

/// Frequency, wiring and pan of a channel: the high part of a frequency waits for
/// the low part, which puts both in place.
pub proof fn registers_set_channels(s: FmState, addr: u8, val: u8, hi: u8, bank: bool)
    requires
        s.wf(),
        addr < 3,
    ensures
        ({
            let c = addr as int + if bank { 3int } else { 0 };
            let t = s.written((0xA4 + addr) as u8, hi, bank).written(
                (0xA0 + addr) as u8,
                val,
                bank,
            ).ch[c];
            let u = s.written((0xB0 + addr) as u8, val, bank).ch[c];
            let w = s.written((0xB4 + addr) as u8, val, bank).ch[c];
            &&& t.fnum_block == 256 * (hi % 64) + val
            &&& s.written((0xA4 + addr) as u8, hi, bank).ch[c].fnum_block == s.ch[c].fnum_block
            &&& u.alg == val % 8
            &&& u.fb == if (val / 8) % 8 == 0 { 0 } else { (val / 8) % 8 + 6 }
            &&& w.pan == val & 0xC0
            &&& w.pms == val % 8
        }),
{
}

}
