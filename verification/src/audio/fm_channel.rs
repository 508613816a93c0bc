//! One channel of the FM synthesiser: four operators wired in one of eight ways.
use vstd::prelude::*;
use crate::audio::fm_op::{modulated, offset, wave, FmOp};
use crate::audio::tables::{lfo_pm_offset, pm_offset_of, ENV_QUIET, LFO_SAMPLES_PER_STEP};

verus! {

/// The low-frequency oscillator.
#[derive(Debug, Clone, Copy)]
pub struct Lfo {
    pub enabled: bool,
    pub rate: u8,
    /// Samples into the current step.
    pub delay: u32,
    /// The step, of 128.
    pub pos: u8,
    /// Tremolo: up to 126 and down again.
    pub am: u32,
    /// Vibrato: 32 steps.
    pub pm: u8,
}

#[verifier::opaque]
pub open spec fn lfo_period_of(rate: int) -> u32 {
    LFO_SAMPLES_PER_STEP@[rate]
}

fn lfo_period(rate: usize) -> (v: u32)
    requires
        rate < 8,
    ensures
        v == lfo_period_of(rate as int),
        5 <= v <= 108,
{
    proof {
        reveal(lfo_period_of);
    }
    let table: [u32; 8] = LFO_SAMPLES_PER_STEP;
    table[rate]
}

impl Lfo {
    pub open spec fn wf(self) -> bool {
        &&& self.rate < 8
        &&& self.delay < 108
        &&& self.pos < 128
        &&& self.am <= 126
        &&& self.pm < 32
    }

    pub open spec fn at_reset() -> Lfo {
        Lfo { enabled: false, rate: 0, delay: 0, pos: 0, am: 0, pm: 0 }
    }

    pub fn new() -> (l: Lfo)
        ensures
            l == Lfo::at_reset(),
            l.wf(),
    {
        Lfo { enabled: false, rate: 0, delay: 0, pos: 0, am: 0, pm: 0 }
    }

    /// Bit 3 switches it on, the low bits set the rate. Switched off, it goes
    /// back to the start.
    pub open spec fn written(self, val: u8) -> Lfo {
        if (val / 8) % 2 == 1 {
            Lfo { enabled: true, rate: val % 8, ..self }
        } else {
            Lfo { enabled: false, rate: val % 8, delay: 0, pos: 0, am: 0, pm: 0 }
        }
    }

    pub fn write(&mut self, val: u8)
        requires
            old(self).wf(),
        ensures
            *final(self) == old(self).written(val),
            final(self).wf(),
    {
        self.enabled = (val / 8) % 2 == 1;
        self.rate = val % 8;
        if !self.enabled {
            self.delay = 0;
            self.pos = 0;
            self.am = 0;
            self.pm = 0;
        }
    }

    /// One sample later.
    pub open spec fn clocked(self) -> Lfo {
        if self.enabled {
            let turn = self.delay + 1 >= lfo_period_of(self.rate as int);
            let pos = if turn {
                (self.pos + 1) % 128
            } else {
                self.pos as int
            };
            Lfo {
                delay: if turn {
                    0
                } else {
                    (self.delay + 1) as u32
                },
                pos: pos as u8,
                am: (if pos < 64 {
                    2 * pos
                } else {
                    126 - 2 * (pos - 64)
                }) as u32,
                pm: (pos / 4) as u8,
                ..self
            }
        } else {
            Lfo { am: 0, pm: 0, ..self }
        }
    }

    pub fn clock(&mut self)
        requires
            old(self).wf(),
        ensures
            *final(self) == old(self).clocked(),
            final(self).wf(),
    {
        if self.enabled {
            let period: u32 = lfo_period(self.rate as usize);
            self.delay = self.delay + 1;
            if self.delay >= period {
                self.delay = 0;
                self.pos = (self.pos + 1) % 128;
            }
            let pos: u32 = self.pos as u32;
            self.am = if pos < 64 {
                2 * pos
            } else {
                126 - 2 * (pos - 64)
            };
            self.pm = self.pos / 4;
        } else {
            self.am = 0;
            self.pm = 0;
        }
    }
}

/// A channel.
#[derive(Debug, Clone, Copy)]
pub struct FmCh {
    pub op: [FmOp; 4],
    /// Octave in bits 11 to 13, frequency below.
    pub fnum_block: u16,
    /// How the operators are wired.
    pub alg: u8,
    /// Feedback of the first operator: 0 or 7 to 13.
    pub fb: u8,
    /// Bit 7 is left, bit 6 right.
    pub pan: u8,
    /// How far tremolo is shifted down.
    pub ams: u8,
    /// Depth of vibrato.
    pub pms: u8,
    /// The first operator's last two outputs, the older first.
    pub op0_prev: (i32, i32),
    /// A level held for one sample.
    pub mem_value: i32,
    /// High part of a frequency not yet complete.
    pub fnum_latch_hi: u8,
    pub active: bool,
}

/// What a channel holds.
#[verifier::ext_equal]
pub ghost struct FmChState {
    pub op: Seq<FmOp>,
    pub fnum_block: u16,
    pub alg: u8,
    pub fb: u8,
    pub pan: u8,
    pub ams: u8,
    pub pms: u8,
    pub op0_prev: (i32, i32),
    pub mem_value: i32,
    pub fnum_latch_hi: u8,
    pub active: bool,
}

impl View for FmCh {
    type V = FmChState;

    open spec fn view(&self) -> FmChState {
        FmChState {
            op: self.op@,
            fnum_block: self.fnum_block,
            alg: self.alg,
            fb: self.fb,
            pan: self.pan,
            ams: self.ams,
            pms: self.pms,
            op0_prev: self.op0_prev,
            mem_value: self.mem_value,
            fnum_latch_hi: self.fnum_latch_hi,
            active: self.active,
        }
    }
}

/// The five-bit key code of a frequency: its top four bits, and one bit that is
/// set in the upper part of each range.
pub open spec fn kcode_of(block_freq: u16) -> int {
    let idx = (block_freq as int / 128) % 16;
    2 * ((block_freq as int / 1024) % 16) + if idx == 7 || idx >= 9 {
        1int
    } else {
        0
    }
}

/// A level kept within sixteen bits.
pub open spec fn clip(v: int) -> int {
    if v < -32768 {
        -32768
    } else if v > 32767 {
        32767
    } else {
        v
    }
}

fn clipped(v: i32) -> (r: i32)
    ensures
        r == clip(v as int),
{
    if v < -32768 {
        -32768
    } else if v > 32767 {
        32767
    } else {
        v
    }
}

/// Tremolo: the oscillator's level shifted down, if the operator takes it.
pub open spec fn am_attenuation_of(am_enabled: bool, ams_shift: u8, lfo_am: u32) -> u32 {
    if am_enabled {
        lfo_am >> (ams_shift as u32)
    } else {
        0
    }
}

pub fn lfo_am_attenuation(am_enabled: bool, ams_shift: u8, lfo_am: u32) -> (v: u32)
    requires
        ams_shift <= 8,
    ensures
        v == am_attenuation_of(am_enabled, ams_shift, lfo_am),
        v <= lfo_am,
{
    proof {
        crate::bits::shifted_down32(lfo_am, ams_shift as u32);
    }
    if am_enabled {
        lfo_am >> (ams_shift as u32)
    } else {
        0
    }
}

/// The levels on the lines between the operators: into the third operator, into
/// the second, into the fourth, the line held for the next sample, and the
/// output.
#[derive(Debug, Clone, Copy)]
pub struct Lines {
    pub m2: i32,
    pub c1: i32,
    pub c2: i32,
    pub mem: i32,
    pub carrier: i32,
}

/// The lines before any operator but the first has been heard: the held level
/// and the first operator's go where the wiring says.
pub open spec fn lines_from(alg: u8, held: i32, first: i32) -> Lines {
    Lines {
        m2: if alg == 0 || alg == 1 || alg == 2 || alg == 5 {
            held
        } else {
            0
        },
        c1: if alg == 0 || alg == 3 || alg == 4 || alg == 5 || alg == 6 {
            first
        } else {
            0
        },
        c2: if alg == 3 {
            held
        } else if alg == 2 || alg == 5 {
            first
        } else {
            0
        },
        mem: if alg == 1 || alg == 5 {
            first
        } else {
            0
        },
        carrier: if alg == 7 {
            first
        } else {
            0
        },
    }
}

fn first_lines(alg: u8, held: i32, first: i32) -> (l: Lines)
    ensures
        l == lines_from(alg, held, first),
{
    Lines {
        m2: if alg == 0 || alg == 1 || alg == 2 || alg == 5 {
            held
        } else {
            0
        },
        c1: if alg == 0 || alg == 3 || alg == 4 || alg == 5 || alg == 6 {
            first
        } else {
            0
        },
        c2: if alg == 3 {
            held
        } else if alg == 2 || alg == 5 {
            first
        } else {
            0
        },
        mem: if alg == 1 || alg == 5 {
            first
        } else {
            0
        },
        carrier: if alg == 7 {
            first
        } else {
            0
        },
    }
}

/// The lines with the third operator's level added: to the output in the last
/// three wirings, else into the fourth operator.
pub open spec fn with_third(l: Lines, alg: u8, out: int) -> Lines {
    if alg >= 5 {
        Lines { carrier: clip(l.carrier + out) as i32, ..l }
    } else {
        Lines { c2: (l.c2 + out) as i32, ..l }
    }
}

/// The lines with the second operator's level added: held in the first four
/// wirings, else to the output.
pub open spec fn with_second(l: Lines, alg: u8, out: int) -> Lines {
    if alg < 4 {
        Lines { mem: (l.mem + out) as i32, ..l }
    } else {
        Lines { carrier: clip(l.carrier + out) as i32, ..l }
    }
}

impl FmChState {
    pub open spec fn wf(self) -> bool {
        &&& self.op.len() == 4
        &&& forall|i: int| 0 <= i < 4 ==> (#[trigger] self.op[i]).wf()
        &&& self.alg < 8
        &&& self.fb <= 13
        &&& self.ams <= 8
        &&& self.pms < 8
        &&& -8192 <= self.op0_prev.0 <= 8192
        &&& -8192 <= self.op0_prev.1 <= 8192
        &&& -16384 <= self.mem_value <= 16384
    }

    pub open spec fn at_reset() -> FmChState {
        FmChState {
            op: seq![FmOp::at_reset(), FmOp::at_reset(), FmOp::at_reset(), FmOp::at_reset()],
            fnum_block: 0,
            alg: 0,
            fb: 0,
            pan: 0xC0,
            ams: 8,
            pms: 0,
            op0_prev: (0, 0),
            mem_value: 0,
            fnum_latch_hi: 0,
            active: false,
        }
    }

    pub open spec fn with_op(self, i: int, op: FmOp) -> FmChState {
        FmChState { op: self.op.update(i, op), ..self }
    }

    /// The attenuation of operator `i`, tremolo included.
    pub open spec fn env(self, i: int, am: u32) -> int {
        self.op[i].attenuation() + am_attenuation_of(self.op[i].am_enabled, self.ams, am)
    }

    /// The level of operator `i` modulated by `pm`; nothing when it is quiet.
    pub open spec fn heard(self, i: int, am: u32, pm: int) -> int {
        let env = self.env(i, am);
        if env < ENV_QUIET {
            wave(modulated(self.op[i].phase, pm), env as u32)
        } else {
            0
        }
    }

    /// The new level of the first operator, which the sum of its last two
    /// modulates.
    pub open spec fn fed_back(self, am: u32) -> int {
        let env = self.env(0, am);
        let pm = if self.fb == 0 {
            0
        } else {
            (self.op0_prev.0 + self.op0_prev.1) * (1u32 << (self.fb as u32))
        };
        if env < ENV_QUIET {
            wave(offset(self.op[0].phase, pm), env as u32)
        } else {
            0
        }
    }

    /// The lines when all operators have been heard. The first operator counts
    /// with its last level, not with the new one.
    pub open spec fn lines(self, am: u32) -> Lines {
        let l0 = lines_from(self.alg, self.mem_value, self.op0_prev.1);
        let l1 = with_third(l0, self.alg, self.heard(2, am, l0.m2 as int));
        let l2 = with_second(l1, self.alg, self.heard(1, am, l1.c1 as int));
        Lines { carrier: clip(l2.carrier + self.heard(3, am, l2.c2 as int)) as i32, ..l2 }
    }

    /// The operators' phases one sample later, each at its own frequency.
    pub open spec fn phases_moved(self, lfo: Lfo, freqs: Seq<u16>) -> Seq<FmOp> {
        Seq::new(4, |i: int| op_moved(self.op[i], freqs[i], self.pms, lfo))
    }

    /// The channel one sample later, and its output.
    pub open spec fn stepped(self, lfo: Lfo, freqs: Seq<u16>) -> (FmChState, i32) {
        let l = self.lines(lfo.am);
        (
            FmChState {
                op: self.phases_moved(lfo, freqs),
                op0_prev: (self.op0_prev.1, self.fed_back(lfo.am) as i32),
                mem_value: l.mem,
                ..self
            },
            l.carrier >> 1,
        )
    }

    /// Every envelope at counter `cnt`.
    pub open spec fn envelopes_advanced(self, cnt: u32) -> FmChState {
        FmChState { op: Seq::new(4, |i: int| self.op[i].advanced(cnt)), ..self }
    }

    /// Operator `i` pressed or let go by bit `i` of the mask.
    pub open spec fn keyed(self, mask: u8) -> FmChState {
        FmChState {
            op: Seq::new(
                4,
                |i: int|
                    if (mask >> (i as u32)) & 1 == 1 {
                        self.op[i].keyed_on()
                    } else {
                        self.op[i].keyed_off()
                    },
            ),
            active: mask != 0,
            ..self
        }
    }

    /// Every operator with its rates for the key code of its frequency.
    pub open spec fn ksr_updated(self, freqs: Seq<u16>) -> FmChState {
        FmChState {
            op: Seq::new(
                4,
                |i: int|
                    (FmOp {
                        ksr: (kcode_of(freqs[i]) as u32) >> self.op[i].ksr_shift,
                        ..self.op[i]
                    }).rated(),
            ),
            ..self
        }
    }
}

/// An operator's phase one sample later at frequency `freq`.
pub open spec fn op_moved(op: FmOp, freq: u16, pms: u8, lfo: Lfo) -> FmOp {
    let vibrato = if lfo.enabled {
        pm_offset_of(freq as int, pms as int, lfo.pm as int)
    } else {
        0
    };
    op.moved(freq as int % 2048 + vibrato, ((freq / 2048) % 8) as u32, kcode_of(freq))
}

impl FmCh {
    pub fn new() -> (c: FmCh)
        ensures
            c@ == FmChState::at_reset(),
            c@.wf(),
    {
        FmCh {
            op: [FmOp::new(), FmOp::new(), FmOp::new(), FmOp::new()],
            fnum_block: 0,
            alg: 0,
            fb: 0,
            pan: 0xC0,
            ams: 8,
            pms: 0,
            op0_prev: (0, 0),
            mem_value: 0,
            fnum_latch_hi: 0,
            active: false,
        }
    }

    pub fn kcode(&self) -> (kc: u32)
        ensures
            kc == kcode_of(self@.fnum_block),
            kc < 32,
    {
        FmCh::kcode_from_block_freq(self.fnum_block)
    }

    pub fn kcode_from_block_freq(block_freq: u16) -> (kc: u32)
        ensures
            kc == kcode_of(block_freq),
            kc < 32,
    {
        let idx: u32 = ((block_freq / 128) % 16) as u32;
        2 * ((block_freq / 1024) % 16) as u32 + if idx == 7 || idx >= 9 {
            1
        } else {
            0
        }
    }

    fn set_op(&mut self, i: usize, op: FmOp)
        requires
            i < 4,
        ensures
            final(self)@ == old(self)@.with_op(i as int, op),
    {
        self.op[i] = op;
    }

    fn env_of(&self, i: usize, am: u32) -> (env: u32)
        requires
            self@.wf(),
            i < 4,
            am <= 126,
        ensures
            env == self@.env(i as int, am),
            env <= 2165,
    {
        let op: FmOp = self.op[i];
        assert(self@.op[i as int].wf());
        op.vol_out() + lfo_am_attenuation(op.am_enabled, self.ams, am)
    }

    fn hear(&self, i: usize, am: u32, pm: i32) -> (v: i32)
        requires
            self@.wf(),
            i < 4,
            am <= 126,
        ensures
            v == self@.heard(i as int, am, pm as int),
            -8192 <= v <= 8192,
    {
        let env: u32 = self.env_of(i, am);
        if env < ENV_QUIET {
            FmOp::op_calc(self.op[i].phase, env, pm)
        } else {
            0
        }
    }

    fn feed_back(&self, am: u32) -> (v: i32)
        requires
            self@.wf(),
            am <= 126,
        ensures
            v == self@.fed_back(am),
            -8192 <= v <= 8192,
    {
        let env: u32 = self.env_of(0, am);
        if env < ENV_QUIET {
            let pm: i32;
            if self.fb == 0 {
                pm = 0;
            } else {
                let sum: i32 = self.op0_prev.0 + self.op0_prev.1;
                proof {
                    crate::bits::feedback_power(self.fb as u32);
                }
                let power: i32 = (1u32 << (self.fb as u32)) as i32;
                assert(-16384 * 8192 <= sum * power <= 16384 * 8192) by (nonlinear_arith)
                    requires
                        -16384 <= sum <= 16384,
                        0 <= power <= 8192,
                ;
                pm = sum * power;
            }
            FmOp::op_calc1(self.op[0].phase, env, pm)
        } else {
            0
        }
    }

    fn run_lines(&self, am: u32) -> (l: Lines)
        requires
            self@.wf(),
            am <= 126,
        ensures
            l == self@.lines(am),
            -16384 <= l.mem <= 16384,
            -32768 <= l.carrier <= 32767,
    {
        let alg: u8 = self.alg;
        let mut l: Lines = first_lines(alg, self.mem_value, self.op0_prev.1);
        let third: i32 = self.hear(2, am, l.m2);
        if alg >= 5 {
            l.carrier = clipped(l.carrier + third);
        } else {
            l.c2 = l.c2 + third;
        }
        let second: i32 = self.hear(1, am, l.c1);
        if alg < 4 {
            l.mem = l.mem + second;
        } else {
            l.carrier = clipped(l.carrier + second);
        }
        let fourth: i32 = self.hear(3, am, l.c2);
        l.carrier = clipped(l.carrier + fourth);
        l
    }

    fn move_phases(&mut self, lfo: Lfo, freqs: [u16; 4])
        requires
            old(self)@.wf(),
            lfo.wf(),
        ensures
            final(self)@ == (FmChState {
                op: old(self)@.phases_moved(lfo, freqs@),
                ..old(self)@
            }),
            final(self)@.wf(),
    {
        let ghost s = self@;
        let mut i: usize = 0;
        while i < 4
            invariant
                i <= 4,
                s.wf(),
                lfo.wf(),
                self@.wf(),
                self@ == (FmChState { op: self@.op, ..s }),
                forall|j: int|
                    0 <= j < i ==> #[trigger] self@.op[j] == op_moved(
                        s.op[j],
                        freqs@[j],
                        s.pms,
                        lfo,
                    ),
                forall|j: int| i <= j < 4 ==> #[trigger] self@.op[j] == s.op[j],
            decreases 4 - i,
        {
            let f: u16 = freqs[i];
            let kc: u32 = FmCh::kcode_from_block_freq(f);
            let vibrato: i32 = if lfo.enabled {
                lfo_pm_offset(f, self.pms, lfo.pm)
            } else {
                0
            };
            let mut op: FmOp = self.op[i];
            assert(self@.op[i as int].wf());
            op.advance_phase((f % 2048) as i32 + vibrato, ((f / 2048) % 8) as u32, kc);
            self.set_op(i, op);
            i = i + 1;
        }
        assert(self@.op =~= s.phases_moved(lfo, freqs@));
    }

    /// One sample, with each operator at its own frequency.
    pub fn step(&mut self, lfo: Lfo, freqs: [u16; 4]) -> (v: i32)
        requires
            old(self)@.wf(),
            lfo.wf(),
        ensures
            (final(self)@, v) == old(self)@.stepped(lfo, freqs@),
            final(self)@.wf(),
            -16384 <= v <= 16383,
    {
        let l: Lines = self.run_lines(lfo.am);
        let first: i32 = self.feed_back(lfo.am);
        self.op0_prev = (self.op0_prev.1, first);
        self.mem_value = l.mem;
        self.move_phases(lfo, freqs);
        proof {
            crate::bits::halved(l.carrier);
        }
        l.carrier >> 1
    }

    pub fn advance_envelopes(&mut self, cnt: u32)
        requires
            old(self)@.wf(),
        ensures
            final(self)@ == old(self)@.envelopes_advanced(cnt),
            final(self)@.wf(),
    {
        let ghost s = self@;
        let mut i: usize = 0;
        while i < 4
            invariant
                i <= 4,
                s.wf(),
                self@.wf(),
                self@ == (FmChState { op: self@.op, ..s }),
                forall|j: int| 0 <= j < i ==> #[trigger] self@.op[j] == s.op[j].advanced(cnt),
                forall|j: int| i <= j < 4 ==> #[trigger] self@.op[j] == s.op[j],
            decreases 4 - i,
        {
            let mut op: FmOp = self.op[i];
            assert(self@.op[i as int].wf());
            op.advance_eg(cnt);
            self.set_op(i, op);
            i = i + 1;
        }
        assert(self@.op =~= s.envelopes_advanced(cnt).op);
    }

    pub fn key(&mut self, mask: u8)
        requires
            old(self)@.wf(),
        ensures
            final(self)@ == old(self)@.keyed(mask),
            final(self)@.wf(),
    {
        let ghost s = self@;
        let mut i: usize = 0;
        while i < 4
            invariant
                i <= 4,
                s.wf(),
                self@.wf(),
                self@ == (FmChState { op: self@.op, ..s }),
                forall|j: int|
                    0 <= j < i ==> #[trigger] self@.op[j] == if (mask >> (j as u32)) & 1 == 1 {
                        s.op[j].keyed_on()
                    } else {
                        s.op[j].keyed_off()
                    },
                forall|j: int| i <= j < 4 ==> #[trigger] self@.op[j] == s.op[j],
            decreases 4 - i,
        {
            let mut op: FmOp = self.op[i];
            assert(self@.op[i as int].wf());
            if (mask >> (i as u32)) & 1 == 1 {
                op.key_on();
            } else {
                op.key_off();
            }
            self.set_op(i, op);
            i = i + 1;
        }
        self.active = mask != 0;
        assert(self@.op =~= s.keyed(mask).op);
    }

    pub fn update_ksr(&mut self, freqs: [u16; 4])
        requires
            old(self)@.wf(),
        ensures
            final(self)@ == old(self)@.ksr_updated(freqs@),
            final(self)@.wf(),
    {
        let ghost s = self@;
        let mut i: usize = 0;
        while i < 4
            invariant
                i <= 4,
                s.wf(),
                self@.wf(),
                self@ == (FmChState { op: self@.op, ..s }),
                forall|j: int|
                    0 <= j < i ==> #[trigger] self@.op[j] == s.ksr_updated(freqs@).op[j],
                forall|j: int| i <= j < 4 ==> #[trigger] self@.op[j] == s.op[j],
            decreases 4 - i,
        {
            let mut op: FmOp = self.op[i];
            assert(self@.op[i as int].wf());
            let kc: u32 = FmCh::kcode_from_block_freq(freqs[i]);
            proof {
                crate::bits::shifted_down32(kc, op.ksr_shift);
            }
            op.ksr = kc >> op.ksr_shift;
            op.refresh_eg_rates();
            self.set_op(i, op);
            i = i + 1;
        }
        assert(self@.op =~= s.ksr_updated(freqs@).op);
    }
}

}
