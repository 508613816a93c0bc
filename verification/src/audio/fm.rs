//! The FM synthesiser: six channels in two banks, four of them heard.
use vstd::prelude::*;
use crate::audio::fm_channel::{kcode_of, FmCh, FmChState, Lfo};
use crate::audio::fm_op::FmOp;
use crate::audio::tables::{sustain_level, sustain_level_of};

verus! {

/// The synthesiser.
pub struct FmOpn {
    pub ch: [FmCh; 6],
    /// Whether the last three operators of channel 2 have frequencies of their
    /// own.
    pub ch2_multi_freq: bool,
    pub ch2_multi_block_freq: [u16; 3],
    /// The envelopes' counter, one step every third sample.
    pub eg_cnt: u32,
    pub eg_timer: u32,
    pub lfo: Lfo,
}

/// What the synthesiser holds.
#[verifier::ext_equal]
pub ghost struct FmState {
    pub ch: Seq<FmChState>,
    pub multi: bool,
    pub multi_freq: Seq<u16>,
    pub eg_cnt: u32,
    pub eg_timer: u32,
    pub lfo: Lfo,
}

/// The rate for a five-bit register field.
pub open spec fn rate_of(v: int) -> u32 {
    if v == 0 {
        0
    } else {
        (32 + 2 * v) as u32
    }
}

fn rate(v: u8) -> (r: u32)
    requires
        v < 32,
    ensures
        r == rate_of(v as int),
        r <= 94,
{
    if v == 0 {
        0
    } else {
        32 + 2 * v as u32
    }
}

/// The operator that a register addresses: the middle two are swapped.
pub open spec fn slot_of(addr: u8) -> int {
    let raw = (addr / 4) % 4;
    if raw == 1 {
        2
    } else if raw == 2 {
        1
    } else {
        raw as int
    }
}

/// Tremolo shift for a two-bit field.
pub open spec fn ams_of(v: int) -> u8 {
    if v == 0 {
        8
    } else if v == 1 {
        3
    } else if v == 2 {
        1
    } else {
        0
    }
}

fn ams(v: u8) -> (r: u8)
    requires
        v < 4,
    ensures
        r == ams_of(v as int),
        r <= 8,
{
    if v == 0 {
        8
    } else if v == 1 {
        3
    } else if v == 2 {
        1
    } else {
        0
    }
}

/// The tremolo shifts are those of the table.
pub proof fn ams_is_tabled(v: int)
    requires
        0 <= v < 4,
    ensures
        ams_of(v) == crate::audio::tables::LFO_AMS_DEPTH_SHIFT@[v],
{
}

/// An operator after a write to group `group` of its registers. Attack also sets
/// how the key code `kc` counts.
pub open spec fn op_written(op: FmOp, group: u8, val: u8, kc: int) -> FmOp {
    if group == 3 {
        FmOp { mul: val % 16, dt: (val / 16) % 8, ..op }
    } else if group == 4 {
        FmOp { tl: (8 * (val % 128)) as u32, ..op }
    } else if group == 5 {
        let shift = (3 - val / 64) as u32;
        (FmOp {
            ar: rate_of(val as int % 32),
            ksr_shift: shift,
            ksr: (kc as u32) >> shift,
            ..op
        }).rated()
    } else if group == 6 {
        (FmOp { dr: rate_of(val as int % 32), am_enabled: val >= 128, ..op }).rated()
    } else if group == 7 {
        (FmOp { sr: rate_of(val as int % 32), ..op }).rated()
    } else if group == 8 {
        (FmOp {
            sl: sustain_level_of(val as int / 16),
            rr: (34 + 4 * (val % 16)) as u32,
            ..op
        }).rated()
    } else if group == 9 {
        FmOp { ssg: val % 16, ssgn: (val & 4) >> 1, ..op }
    } else {
        op
    }
}

fn write_op(op: FmOp, group: u8, val: u8, kc: u32) -> (r: FmOp)
    requires
        op.wf(),
        kc < 32,
    ensures
        r == op_written(op, group, val, kc as int),
        r.wf(),
{
    let mut r: FmOp = op;
    if group == 3 {
        r.mul = val % 16;
        r.dt = (val / 16) % 8;
    } else if group == 4 {
        r.tl = 8 * (val % 128) as u32;
    } else if group == 5 {
        r.ar = rate(val % 32);
        r.ksr_shift = 3 - (val / 64) as u32;
        proof {
            crate::bits::shifted_down32(kc, r.ksr_shift);
        }
        r.ksr = kc >> r.ksr_shift;
        r.refresh_eg_rates();
    } else if group == 6 {
        r.dr = rate(val % 32);
        r.am_enabled = val >= 128;
        r.refresh_eg_rates();
    } else if group == 7 {
        r.sr = rate(val % 32);
        r.refresh_eg_rates();
    } else if group == 8 {
        r.sl = sustain_level((val / 16) as usize);
        r.rr = 34 + 4 * (val % 16) as u32;
        r.refresh_eg_rates();
    } else if group == 9 {
        r.ssg = val % 16;
        r.ssgn = (val & 4) >> 1;
    }
    r
}

/// The four channels that are heard.
pub open spec fn routed(c: int) -> bool {
    c == 1 || c == 2 || c == 4 || c == 5
}

impl FmState {
    pub open spec fn wf(self) -> bool {
        &&& self.ch.len() == 6
        &&& forall|c: int| 0 <= c < 6 ==> (#[trigger] self.ch[c]).wf()
        &&& self.multi_freq.len() == 3
        &&& self.eg_timer < 3
        &&& self.lfo.wf()
    }

    pub open spec fn at_reset() -> FmState {
        FmState {
            ch: Seq::new(6, |c: int| FmChState::at_reset()),
            multi: false,
            multi_freq: seq![0, 0, 0],
            eg_cnt: 0,
            eg_timer: 0,
            lfo: Lfo::at_reset(),
        }
    }

    pub open spec fn with_ch(self, c: int, ch: FmChState) -> FmState {
        FmState { ch: self.ch.update(c, ch), ..self }
    }

    /// The frequency of operator `o` of channel `c`.
    pub open spec fn freq(self, c: int, o: int) -> u16 {
        if self.multi && c == 2 && o != 0 {
            self.multi_freq[o - 1]
        } else {
            self.ch[c].fnum_block
        }
    }

    pub open spec fn freqs(self, c: int) -> Seq<u16> {
        Seq::new(4, |o: int| self.freq(c, o))
    }

    /// Channel `c` with the rates of its operators brought up to date.
    pub open spec fn ksr_updated(self, c: int) -> FmState {
        self.with_ch(c, self.ch[c].ksr_updated(self.freqs(c)))
    }

    /// The mode register's top bits give channel 2 its several frequencies.
    pub open spec fn mode_written(self, val: u8) -> FmState {
        (FmState { multi: val >= 64, ..self }).ksr_updated(2)
    }

    pub open spec fn keyed(self, c: int, mask: u8) -> FmState {
        if c < 6 {
            self.with_ch(c, self.ch[c].keyed(mask)).ksr_updated(c)
        } else {
            self
        }
    }

    /// A write to the frequency registers: the high part of a frequency waits
    /// for the low part; the separate frequencies of channel 2 belong to the
    /// first bank and are set half by half.
    pub open spec fn freq_written(self, addr: u8, val: u8, c: int, bank: bool) -> FmState {
        let ch = self.ch[c];
        let i = addr as int % 4;
        let part = (addr / 4) % 4;
        if part == 0 {
            self.with_ch(
                c,
                FmChState { fnum_block: (256 * ch.fnum_latch_hi + val) as u16, ..ch },
            ).ksr_updated(c)
        } else if part == 1 {
            self.with_ch(c, FmChState { fnum_latch_hi: val % 64, ..ch })
        } else if bank {
            self
        } else {
            let f = self.multi_freq[i] as int;
            let g = if part == 2 {
                256 * ((f / 256) % 64) + val
            } else {
                256 * (val as int % 64) + f % 256
            };
            (FmState { multi_freq: self.multi_freq.update(i, g as u16), ..self }).ksr_updated(2)
        }
    }

    /// A write to the wiring registers: feedback and wiring, or pan and depths.
    pub open spec fn wiring_written(self, addr: u8, val: u8, c: int) -> FmState {
        let ch = self.ch[c];
        let part = (addr / 4) % 4;
        if part == 0 {
            let feedback = (val / 8) % 8;
            self.with_ch(
                c,
                FmChState {
                    fb: (if feedback == 0 {
                        0
                    } else {
                        feedback + 6
                    }) as u8,
                    alg: val % 8,
                    ..ch
                },
            )
        } else if part == 1 {
            self.with_ch(
                c,
                FmChState {
                    pan: val & 0xC0,
                    pms: val % 8,
                    ams: ams_of((val as int / 16) % 4),
                    ..ch
                },
            )
        } else {
            self
        }
    }

    /// A write to the registers from 0x30 on: the low two bits are the channel
    /// in its bank, the next two the operator, the high four the group.
    pub open spec fn written(self, addr: u8, val: u8, bank: bool) -> FmState {
        let c = addr as int % 4 + if bank {
            3int
        } else {
            0
        };
        let group = addr / 16;
        if addr % 4 == 3 {
            self
        } else if 3 <= group && group <= 9 {
            let o = slot_of(addr);
            let ch = self.ch[c];
            self.with_ch(c, ch.with_op(o, op_written(ch.op[o], group, val, kcode_of(ch.fnum_block))))
        } else if group == 10 {
            self.freq_written(addr, val, c, bank)
        } else if group == 11 {
            self.wiring_written(addr, val, c)
        } else {
            self
        }
    }

    /// Oscillator and envelopes one sample later.
    pub open spec fn clocked(self) -> FmState {
        let s = FmState { lfo: self.lfo.clocked(), ..self };
        if self.eg_timer + 1 >= 3 {
            let cnt = self.eg_cnt.wrapping_add(1);
            FmState {
                eg_timer: 0,
                eg_cnt: cnt,
                ch: Seq::new(6, |c: int| self.ch[c].envelopes_advanced(cnt)),
                ..s
            }
        } else {
            FmState { eg_timer: (self.eg_timer + 1) as u32, ..s }
        }
    }

    /// Channel `c` one sample later, and its output.
    pub open spec fn ch_stepped(self, c: int) -> (FmChState, i32) {
        self.ch[c].stepped(self.lfo, self.freqs(c))
    }

    /// The sum of the heard ones of the first `n` channels on the side whose
    /// pan bit is `side`.
    pub open spec fn side(self, side: u8, n: int) -> int
        decreases n,
    {
        if n <= 0 {
            0
        } else {
            self.side(side, n - 1) + if routed(n - 1) && self.ch[n - 1].pan & side != 0 {
                self.ch_stepped(n - 1).1 as int
            } else {
                0
            }
        }
    }

    /// The synthesiser one sample later.
    #[verifier::opaque]
    pub open spec fn stepped(self) -> FmState {
        let s = self.clocked();
        FmState { ch: Seq::new(6, |c: int| s.ch_stepped(c).0), ..s }
    }

    /// The sample: left, right, and each heard channel.
    #[verifier::opaque]
    pub open spec fn sample(self) -> (int, int, Seq<i32>) {
        let s = self.clocked();
        (
            s.side(0x80, 6),
            s.side(0x40, 6),
            seq![s.ch_stepped(1).1, s.ch_stepped(2).1, s.ch_stepped(4).1, s.ch_stepped(5).1],
        )
    }
}

impl View for FmOpn {
    type V = FmState;

    open spec fn view(&self) -> FmState {
        FmState {
            ch: Seq::new(6, |c: int| self.ch@[c]@),
            multi: self.ch2_multi_freq,
            multi_freq: self.ch2_multi_block_freq@,
            eg_cnt: self.eg_cnt,
            eg_timer: self.eg_timer,
            lfo: self.lfo,
        }
    }
}

impl FmOpn {
    pub fn new() -> (fm: FmOpn)
        ensures
            fm@ == FmState::at_reset(),
            fm@.wf(),
    {
        FmOpn {
            ch: [FmCh::new(), FmCh::new(), FmCh::new(), FmCh::new(), FmCh::new(), FmCh::new()],
            ch2_multi_freq: false,
            ch2_multi_block_freq: [0, 0, 0],
            eg_cnt: 0,
            eg_timer: 0,
            lfo: Lfo::new(),
        }
    }

    fn set_ch(&mut self, c: usize, ch: FmCh)
        requires
            c < 6,
        ensures
            final(self)@ == old(self)@.with_ch(c as int, ch@),
    {
        self.ch[c] = ch;
    }

    pub fn write_lfo(&mut self, val: u8)
        requires
            old(self)@.wf(),
        ensures
            final(self)@ == (FmState { lfo: old(self)@.lfo.written(val), ..old(self)@ }),
            final(self)@.wf(),
    {
        let mut lfo: Lfo = self.lfo;
        lfo.write(val);
        self.lfo = lfo;
    }

    fn clock_lfo(&mut self)
        requires
            old(self)@.wf(),
        ensures
            final(self)@ == (FmState { lfo: old(self)@.lfo.clocked(), ..old(self)@ }),
            final(self)@.wf(),
    {
        let mut lfo: Lfo = self.lfo;
        lfo.clock();
        self.lfo = lfo;
    }

    /// The frequency of operator `op` of channel `c`.
    pub fn block_freq_for_op(&self, c: usize, op: usize) -> (f: u16)
        requires
            c < 6,
            op < 4,
        ensures
            f == self@.freq(c as int, op as int),
    {
        if self.ch2_multi_freq && c == 2 && op != 0 {
            self.ch2_multi_block_freq[op - 1]
        } else {
            let ch: FmCh = self.ch[c];
            ch.fnum_block
        }
    }

    fn freqs_for(&self, c: usize) -> (f: [u16; 4])
        requires
            c < 6,
        ensures
            f@ == self@.freqs(c as int),
    {
        [
            self.block_freq_for_op(c, 0),
            self.block_freq_for_op(c, 1),
            self.block_freq_for_op(c, 2),
            self.block_freq_for_op(c, 3),
        ]
    }

    fn update_channel_ksr(&mut self, c: usize)
        requires
            old(self)@.wf(),
            c < 6,
        ensures
            final(self)@ == old(self)@.ksr_updated(c as int),
            final(self)@.wf(),
    {
        let freqs: [u16; 4] = self.freqs_for(c);
        let mut ch: FmCh = self.ch[c];
        assert(self@.ch[c as int].wf());
        ch.update_ksr(freqs);
        self.set_ch(c, ch);
    }

    pub fn write_mode(&mut self, val: u8)
        requires
            old(self)@.wf(),
        ensures
            final(self)@ == old(self)@.mode_written(val),
            final(self)@.wf(),
    {
        self.ch2_multi_freq = val >= 64;
        self.update_channel_ksr(2);
    }

    /// Press and let go the operators of a channel; nothing for a channel that
    /// is not there.
    pub fn key(&mut self, fm_ch: usize, slot_mask: u8)
        requires
            old(self)@.wf(),
        ensures
            final(self)@ == old(self)@.keyed(fm_ch as int, slot_mask),
            final(self)@.wf(),
    {
        if fm_ch < 6 {
            let mut ch: FmCh = self.ch[fm_ch];
            assert(self@.ch[fm_ch as int].wf());
            ch.key(slot_mask);
            self.set_ch(fm_ch, ch);
            self.update_channel_ksr(fm_ch);
        }
    }

    fn write_freq(&mut self, addr: u8, val: u8, c: usize, bank: bool)
        requires
            old(self)@.wf(),
            c < 6,
            addr % 4 < 3,
        ensures
            final(self)@ == old(self)@.freq_written(addr, val, c as int, bank),
            final(self)@.wf(),
    {
        let mut ch: FmCh = self.ch[c];
        assert(self@.ch[c as int].wf());
        let part: u8 = (addr / 4) % 4;
        let i: usize = (addr % 4) as usize;
        if part == 0 {
            ch.fnum_block = 256 * ch.fnum_latch_hi as u16 + val as u16;
            self.set_ch(c, ch);
            self.update_channel_ksr(c);
        } else if part == 1 {
            ch.fnum_latch_hi = val % 64;
            self.set_ch(c, ch);
        } else if !bank {
            let f: u16 = self.ch2_multi_block_freq[i];
            self.ch2_multi_block_freq[i] = if part == 2 {
                256 * ((f / 256) % 64) + val as u16
            } else {
                256 * (val % 64) as u16 + f % 256
            };
            self.update_channel_ksr(2);
        }
    }

    fn write_wiring(&mut self, addr: u8, val: u8, c: usize)
        requires
            old(self)@.wf(),
            c < 6,
        ensures
            final(self)@ == old(self)@.wiring_written(addr, val, c as int),
            final(self)@.wf(),
    {
        let mut ch: FmCh = self.ch[c];
        assert(self@.ch[c as int].wf());
        let part: u8 = (addr / 4) % 4;
        if part == 0 {
            let feedback: u8 = (val / 8) % 8;
            ch.fb = if feedback == 0 {
                0
            } else {
                feedback + 6
            };
            ch.alg = val % 8;
            self.set_ch(c, ch);
        } else if part == 1 {
            ch.pan = val & 0xC0;
            ch.pms = val % 8;
            ch.ams = ams((val / 16) % 4);
            self.set_ch(c, ch);
        }
    }

    pub fn write_reg(&mut self, addr: u8, val: u8, bank: bool)
        requires
            old(self)@.wf(),
        ensures
            final(self)@ == old(self)@.written(addr, val, bank),
            final(self)@.wf(),
    {
        if addr % 4 == 3 {
            return;
        }
        let c: usize = (addr % 4) as usize + if bank {
            3
        } else {
            0
        };
        let group: u8 = addr / 16;
        if 3 <= group && group <= 9 {
            let raw: usize = ((addr / 4) % 4) as usize;
            let o: usize = if raw == 1 {
                2
            } else if raw == 2 {
                1
            } else {
                raw
            };
            let mut ch: FmCh = self.ch[c];
            assert(self@.ch[c as int].wf());
            assert(ch@.op[o as int].wf());
            let kc: u32 = ch.kcode();
            ch.op[o] = write_op(ch.op[o], group, val, kc);
            self.set_ch(c, ch);
        } else if group == 10 {
            self.write_freq(addr, val, c, bank);
        } else if group == 11 {
            self.write_wiring(addr, val, c);
        }
    }

    fn clock(&mut self)
        requires
            old(self)@.wf(),
        ensures
            final(self)@ == old(self)@.clocked(),
            final(self)@.wf(),
    {
        self.clock_lfo();
        self.eg_timer = self.eg_timer + 1;
        if self.eg_timer >= 3 {
            self.eg_timer = 0;
            self.eg_cnt = self.eg_cnt.wrapping_add(1);
            let cnt: u32 = self.eg_cnt;
            let ghost s = self@;
            let mut c: usize = 0;
            while c < 6
                invariant
                    c <= 6,
                    s.wf(),
                    self@.wf(),
                    self@ == (FmState { ch: self@.ch, ..s }),
                    forall|j: int|
                        0 <= j < c ==> #[trigger] self@.ch[j] == s.ch[j].envelopes_advanced(cnt),
                    forall|j: int| c <= j < 6 ==> #[trigger] self@.ch[j] == s.ch[j],
                decreases 6 - c,
            {
                let mut ch: FmCh = self.ch[c];
                assert(self@.ch[c as int].wf());
                ch.advance_envelopes(cnt);
                self.set_ch(c, ch);
                c = c + 1;
            }
        }
    }

    /// Advance one sample: left, right, and each heard channel.
    pub fn step_one_with_per_channel(&mut self) -> (out: (i32, i32, [i32; 4]))
        requires
            old(self)@.wf(),
        ensures
            final(self)@ == old(self)@.stepped(),
            final(self)@.wf(),
            out.0 == old(self)@.sample().0,
            out.1 == old(self)@.sample().1,
            out.2@ == old(self)@.sample().2,
            -98304 <= out.0 <= 98304,
            -98304 <= out.1 <= 98304,
    {
        proof {
            reveal(FmState::stepped);
            reveal(FmState::sample);
        }
        self.clock();
        let ghost s = self@;
        let mut l: i32 = 0;
        let mut r: i32 = 0;
        let mut levels: [i32; 6] = [0, 0, 0, 0, 0, 0];
        let mut c: usize = 0;
        while c < 6
            invariant
                c <= 6,
                s.wf(),
                self@.wf(),
                self@ == (FmState { ch: self@.ch, ..s }),
                l == s.side(0x80, c as int),
                r == s.side(0x40, c as int),
                -16384 * c <= l <= 16384 * c,
                -16384 * c <= r <= 16384 * c,
                forall|j: int| 0 <= j < c ==> #[trigger] self@.ch[j] == s.ch_stepped(j).0,
                forall|j: int| 0 <= j < c ==> #[trigger] levels@[j] == s.ch_stepped(j).1,
                forall|j: int| c <= j < 6 ==> #[trigger] self@.ch[j] == s.ch[j],
            decreases 6 - c,
        {
            let lfo: Lfo = self.lfo;
            let freqs: [u16; 4] = self.freqs_for(c);
            assert(self@.ch[c as int] == s.ch[c as int]);
            assert(freqs@ =~= s.freqs(c as int));
            let mut ch: FmCh = self.ch[c];
            assert(ch@ == s.ch[c as int]);
            let v: i32 = ch.step(lfo, freqs);
            if c == 1 || c == 2 || c == 4 || c == 5 {
                if ch.pan & 0x80 != 0 {
                    l = l + v;
                }
                if ch.pan & 0x40 != 0 {
                    r = r + v;
                }
            }
            levels[c] = v;
            self.set_ch(c, ch);
            c = c + 1;
        }
        assert(self@.ch =~= Seq::new(6, |c: int| s.ch_stepped(c).0));
        (l, r, [levels[1], levels[2], levels[4], levels[5]])
    }

    /// Advance one sample: left and right.
    pub fn step_one(&mut self) -> (out: (i32, i32))
        requires
            old(self)@.wf(),
        ensures
            final(self)@ == old(self)@.stepped(),
            final(self)@.wf(),
            out.0 == old(self)@.sample().0,
            out.1 == old(self)@.sample().1,
    {
        let (l, r, _) = self.step_one_with_per_channel();
        (l, r)
    }
}

impl Default for FmOpn {
    fn default() -> (fm: FmOpn)
        ensures
            fm@ == FmState::at_reset(),
            fm@.wf(),
    {
        FmOpn::new()
    }
}

/// A channel whose pan leaves one side out is silent there.
pub proof fn pan_silences(s: FmState, side: u8, n: int)
    requires
        0 <= n <= 6,
        forall|c: int| 0 <= c < n && routed(c) ==> (#[trigger] s.ch[c]).pan & side == 0,
    ensures
        s.side(side, n) == 0,
    decreases n,
{
    if n > 0 {
        pan_silences(s, side, n - 1);
    }
}

/// The second register slot is the third operator and the other way round.
pub proof fn slots_are_swapped(addr: u8)
    ensures
        (addr / 4) % 4 == 1 ==> slot_of(addr) == 2,
        (addr / 4) % 4 == 2 ==> slot_of(addr) == 1,
        (addr / 4) % 4 == 0 ==> slot_of(addr) == 0,
        (addr / 4) % 4 == 3 ==> slot_of(addr) == 3,
{
}

/// A register of one channel and operator leaves every other operator alone.
pub proof fn other_operators_are_kept(s: FmState, addr: u8, val: u8, bank: bool, c: int, o: int)
    requires
        s.wf(),
        0x30 <= addr < 0xA0,
        0 <= c < 6,
        0 <= o < 4,
        o != slot_of(addr) || c != addr as int % 4 + if bank {
            3int
        } else {
            0
        },
    ensures
        s.written(addr, val, bank).ch[c].op[o] == s.ch[c].op[o],
{
}

}
