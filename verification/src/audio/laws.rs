//! What holds of the sound chip over several calls.
use vstd::prelude::*;
use crate::audio::adpcm_a::{channel_stays_settled, channels_side, volume_scale};
use crate::audio::adpcm_b::DeltaTChan;
use crate::audio::fm::FmState;
use crate::audio::fm_channel::{FmChState, Lfo};
use crate::audio::fm_op::{FmOp, EG_OFF};
use crate::audio::ssg::reset_is_silent;
use crate::audio::ym2610::{page, timer_a_span, timer_b_span, YmState, YM2610_BUSY_Z80_CYCLES};

verus! {

/// A data write keeps the chip busy for exactly 96 cycles, however they are
/// counted off.
pub proof fn busy_for_96_cycles(s: YmState, port: u8, val: u8, c1: u32, c2: u32)
    requires
        port % 2 == 1,
        c1 + c2 <= u32::MAX,
    ensures
        s.port_written(port, val).elapsed(c1).elapsed(c2).busy != 0 <==> c1 + c2
            < YM2610_BUSY_Z80_CYCLES,
        s.port_written(port, val).elapsed(c1).elapsed(c2).busy != 0 ==> s.port_written(
            port,
            val,
        ).elapsed(c1).elapsed(c2).status_seen() == s.port_written(port, val).status | 0x80,
{
}

/// A new master level reaches every channel at once.
pub proof fn master_level_reaches_all(s: YmState, val: u8, i: int)
    requires
        s.wf(),
        0 <= i < 6,
    ensures
        s.written_b(1, val).tl == 63 - val % 64,
        (s.written_b(1, val).a[i].vol_mul, s.written_b(1, val).a[i].vol_shift) == volume_scale(
            s.a[i].il + (63 - val % 64),
        ),
{
}

/// Writing a volume register in mid-sample leaves the level at what the decoder
/// itself would hold at that volume: deriving it anew changes nothing, now or
/// after the next nibble.
pub proof fn refresh_agrees_with_decoder(s: YmState, i: int, nib: int)
    requires
        s.wf(),
        0 <= i < 6,
    ensures
        s.a[i].refreshed(s.tl) == s.a[i],
        s.a[i].on ==> s.a[i].decoded(nib).refreshed(s.tl) == s.a[i].decoded(nib),
{
    assert(s.a[i].settled(s.tl));
    channel_stays_settled(s.a[i], s.tl, s.a_rom);
    assert(s.a[i].on ==> s.a[i].decoded(nib).settled(s.tl));
}

/// From reset on, whatever is written and however many samples pass, no volume
/// is out of date.
pub proof fn volumes_stay_settled(s: YmState, port: u8, val: u8, i: int)
    requires
        s.wf(),
        0 <= i < 6,
    ensures
        YmState::at_reset().a[i].settled(YmState::at_reset().tl),
        s.port_written(port, val).a[i].settled(s.port_written(port, val).tl),
        s.stepped().a[i].settled(s.stepped().tl),
{
    assert(s.a[i].settled(s.tl));
    channel_stays_settled(s.a[i], s.tl, s.a_rom);
}

/// Start and end pages of a channel come from their pairs of registers, in
/// whichever order these are written.
pub proof fn sample_pages_follow_registers(s: YmState, i: int, lo: u8, hi: u8)
    requires
        s.wf(),
        0 <= i < 6,
    ensures
        s.written_b((0x10 + i) as u8, lo).written_b((0x18 + i) as u8, hi).a[i].start == page(
            hi,
            lo,
        ),
        s.written_b((0x18 + i) as u8, hi).written_b((0x10 + i) as u8, lo).a[i].start == page(
            hi,
            lo,
        ),
        s.written_b((0x20 + i) as u8, lo).written_b((0x28 + i) as u8, hi).a[i].end == page(hi, lo)
            + 0xFF,
        s.written_b((0x28 + i) as u8, hi).written_b((0x20 + i) as u8, lo).a[i].end == page(hi, lo)
            + 0xFF,
{
}

/// Starting timer A loads 1024 less its period, timer B sixteen times 256 less
/// its period; a timer that runs already is not loaded again.
pub proof fn timers_load_on_start(s: YmState, val: u8)
    requires
        s.wf(),
    ensures
        val % 2 == 1 && !s.ta_on ==> s.written_a(0x27, val).ta_count == timer_a_span(s.ta_period),
        s.ta_on ==> s.written_a(0x27, val).ta_count == s.ta_count,
        (val / 2) % 2 == 1 && !s.tb_on ==> s.written_a(0x27, val).tb_count == timer_b_span(
            s.tb_period,
        ),
        s.tb_on ==> s.written_a(0x27, val).tb_count == s.tb_count,
{
}

/// A running timer A counts down by one with each sample, and begins a new
/// period when it has run out.
pub proof fn timer_a_counts(s: YmState, n: int)
    requires
        s.wf(),
        s.ta_on,
        s.ta_count >= 1,
        0 <= n <= s.ta_count,
    ensures
        s.after(n).ta_on,
        s.after(n).ta_period == s.ta_period,
        s.after(n).irq_enable == s.irq_enable,
        n < s.ta_count ==> s.after(n).ta_count == s.ta_count - n,
        n == s.ta_count ==> s.after(n).ta_count == timer_a_span(s.ta_period),
        n == s.ta_count && s.irq_enable & 4 != 0 ==> s.after(n).status & 1 != 0,
    decreases n,
{
    if n > 0 {
        timer_a_counts(s, n - 1);
        let p = s.after(n - 1);
        crate::bits::two_flags(p.status);
        crate::bits::two_flags(p.status | 1);
    }
}

/// A running timer B counts likewise.
pub proof fn timer_b_counts(s: YmState, n: int)
    requires
        s.wf(),
        s.tb_on,
        s.tb_count >= 1,
        0 <= n <= s.tb_count,
    ensures
        s.after(n).tb_on,
        s.after(n).tb_period == s.tb_period,
        s.after(n).irq_enable == s.irq_enable,
        n < s.tb_count ==> s.after(n).tb_count == s.tb_count - n,
        n == s.tb_count ==> s.after(n).tb_count == timer_b_span(s.tb_period),
        n == s.tb_count && s.irq_enable & 8 != 0 ==> s.after(n).status & 2 != 0,
    decreases n,
{
    if n > 0 {
        timer_b_counts(s, n - 1);
        let p = s.after(n - 1);
        crate::bits::two_flags(p.status);
        crate::bits::two_flags(p.status | 1);
    }
}

/// Each flag is taken back by its own bit of the mode register and by no other.
pub proof fn flags_are_reset(s: YmState)
    ensures
        s.written_a(0x27, 0x10).status & 1 == 0,
        s.written_a(0x27, 0x10).status & 2 == s.status & 2,
        s.written_a(0x27, 0x20).status & 2 == 0,
        s.written_a(0x27, 0x20).status & 1 == s.status & 1,
{
    crate::bits::two_flags(s.status);
}

/// An operator that has not been pressed since reset.
pub open spec fn op_idle(op: FmOp) -> bool {
    op.state == EG_OFF && op.volume == 1023
}

/// A channel without pressed operators and without an echo of any.
pub open spec fn ch_idle(c: FmChState) -> bool {
    &&& forall|i: int| 0 <= i < 4 ==> op_idle(#[trigger] c.op[i])
    &&& c.op0_prev == (0i32, 0i32)
    &&& c.mem_value == 0
}

/// Nothing plays and nothing echoes.
pub open spec fn idle(s: YmState) -> bool {
    &&& forall|i: int|
        0 <= i < 6 ==> !(#[trigger] s.a[i]).on && s.a[i].adpcm_out == 0
    &&& !s.b.on
    &&& s.b.acc == 0
    &&& forall|c: int| 0 <= c < 6 ==> ch_idle(#[trigger] s.fm.ch[c])
    &&& s.ssg.vol =~= seq![0u8, 0, 0]
    &&& s.ssg.dc == 0
}

proof fn idle_channel_is_silent(c: FmChState, lfo: Lfo, freqs: Seq<u16>)
    requires
        c.wf(),
        ch_idle(c),
    ensures
        c.stepped(lfo, freqs).1 == 0,
        ch_idle(c.stepped(lfo, freqs).0),
{
    assert(op_idle(c.op[0]));
    assert(op_idle(c.op[1]));
    assert(op_idle(c.op[2]));
    assert(op_idle(c.op[3]));
    crate::bits::zero_has_no_bits();
    let d = c.stepped(lfo, freqs).0;
    assert forall|i: int| 0 <= i < 4 implies op_idle(#[trigger] d.op[i]) by {
        assert(op_idle(c.op[i]));
    }
}

proof fn idle_clock(s: FmState)
    requires
        s.wf(),
        forall|c: int| 0 <= c < 6 ==> ch_idle(#[trigger] s.ch[c]),
    ensures
        forall|c: int| 0 <= c < 6 ==> ch_idle(#[trigger] s.clocked().ch[c]),
        forall|c: int| 0 <= c < 6 ==> (#[trigger] s.clocked().ch[c]).wf(),
{
    assert forall|c: int| 0 <= c < 6 implies ch_idle(#[trigger] s.clocked().ch[c])
        && s.clocked().ch[c].wf() by {
        assert(ch_idle(s.ch[c]));
        assert(s.ch[c].wf());
        let d = s.clocked().ch[c];
        assert forall|i: int| 0 <= i < 4 implies op_idle(#[trigger] d.op[i]) && d.op[i].wf() by {
            assert(op_idle(s.ch[c].op[i]));
            assert(s.ch[c].op[i].wf());
        }
    }
}

proof fn idle_fm_is_silent(s: FmState)
    requires
        s.wf(),
        forall|c: int| 0 <= c < 6 ==> ch_idle(#[trigger] s.ch[c]),
    ensures
        s.sample().0 == 0,
        s.sample().1 == 0,
        forall|c: int| 0 <= c < 6 ==> ch_idle(#[trigger] s.stepped().ch[c]),
{
    reveal(FmState::sample);
    reveal(FmState::stepped);
    idle_clock(s);
    let t = s.clocked();
    assert forall|c: int| 0 <= c < 6 implies (#[trigger] t.ch_stepped(c)).1 == 0 && ch_idle(
        t.ch_stepped(c).0,
    ) by {
        assert(ch_idle(t.ch[c]));
        assert(t.ch[c].wf());
        idle_channel_is_silent(t.ch[c], t.lfo, t.freqs(c));
    }
    reveal_with_fuel(FmState::side, 7);
    assert(t.ch_stepped(1).1 == 0);
    assert(t.ch_stepped(2).1 == 0);
    assert(t.ch_stepped(4).1 == 0);
    assert(t.ch_stepped(5).1 == 0);
}

/// A chip on which nothing plays is silent, and stays so.
pub proof fn idle_is_silent(s: YmState)
    requires
        s.wf(),
        idle(s),
    ensures
        s.sample() == (0i16, 0i16),
        idle(s.stepped()),
{
    let t = s.timers_ticked();
    assert(t.fm == s.fm && t.ssg == s.ssg && t.a == s.a && t.b == s.b);
    idle_fm_is_silent(t.fm);
    reset_is_silent(t.ssg);
    reveal(DeltaTChan::stepped);
    crate::bits::zero_has_no_bits();
    assert forall|i: int| 0 <= i < 6 implies !(#[trigger] t.a_next()[i]).on
        && t.a_next()[i].adpcm_out == 0 by {
        assert(!t.a[i].on);
    }
    reveal_with_fuel(channels_side, 7);
    assert(t.a_next()[0].adpcm_out == 0);
    assert(t.a_next()[1].adpcm_out == 0);
    assert(t.a_next()[2].adpcm_out == 0);
    assert(t.a_next()[3].adpcm_out == 0);
    assert(t.a_next()[4].adpcm_out == 0);
    assert(t.a_next()[5].adpcm_out == 0);
    let level = t.b.stepped(t.b_rom).1;
    let volume = t.b.stepped(t.b_rom).0.volume;
    assert(level * volume == 0) by (nonlinear_arith)
        requires
            level == 0,
    ;
    assert(t.digital(0x80, 0) == 0);
    assert(t.digital(0x40, 0) == 0);
    assert(s.stepped().ssg.vol =~= seq![0u8, 0, 0]);
}

/// A chip at reset has nothing playing.
pub proof fn reset_is_idle()
    ensures
        idle(YmState::at_reset()),
        YmState::at_reset().wf(),
{
    let s = YmState::at_reset();
    assert forall|c: int| 0 <= c < 6 implies ch_idle(#[trigger] s.fm.ch[c]) by {
        assert(s.fm.ch[c] == FmChState::at_reset());
    }
}

/// Samples rendered in two pieces are those rendered in one.
pub proof fn pieces_make_the_whole(s: YmState, n: int, m: int)
    requires
        0 <= n,
        0 <= m,
    ensures
        s.after(n).after(m) == s.after(n + m),
    decreases m,
{
    if m > 0 {
        pieces_make_the_whole(s, n, m - 1);
    }
}

}
