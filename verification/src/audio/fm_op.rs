//! One operator of the FM synthesiser: a sine wave under an envelope.
use vstd::prelude::*;
use crate::audio::tables::{
    dt_of, dt_tab, eg_inc, eg_inc_of, eg_rate_select, eg_rate_select_of, eg_rate_shift,
    eg_rate_shift_of, sin_of, sin_tab, tl_of, tl_tab, EG_INC, ENV_QUIET, FN_MAX, MAX_ATT_INDEX,
    MIN_ATT_INDEX, SIN_LEN, TL_TAB_LEN,
};

verus! {

/// Envelope states.
pub const EG_OFF: u8 = 0;

pub const EG_REL: u8 = 1;

pub const EG_SUS: u8 = 2;

pub const EG_DEC: u8 = 3;

pub const EG_ATT: u8 = 4;

/// An operator.
#[derive(Debug, Clone, Copy)]
pub struct FmOp {
    /// Frequency multiple; zero is a half.
    pub mul: u8,
    /// Detune setting.
    pub dt: u8,
    /// Attenuation set by register.
    pub tl: u32,
    /// Rates of attack, decay, sustain and release.
    pub ar: u32,
    pub dr: u32,
    pub sr: u32,
    pub rr: u32,
    /// Where decay ends.
    pub sl: u32,
    /// How far the key code is shifted down.
    pub ksr_shift: u32,
    /// What the key adds to the rates.
    pub ksr: u32,
    pub phase: u32,
    /// Attenuation of the envelope.
    pub volume: i32,
    pub state: u8,
    pub eg_sh_ar: u32,
    pub eg_sh_d1r: u32,
    pub eg_sh_d2r: u32,
    pub eg_sh_rr: u32,
    pub eg_sel_ar: u32,
    pub eg_sel_d1r: u32,
    pub eg_sel_d2r: u32,
    pub eg_sel_rr: u32,
    /// Whether tremolo applies.
    pub am_enabled: bool,
    pub key: bool,
    /// Looping envelope: bit 3 is on, bit 2 attack, bit 1 alternate, bit 0 hold.
    pub ssg: u8,
    /// Bit 1 turns the envelope over; bit 0 says that a held one has turned.
    pub ssgn: u8,
}

/// The step of the envelope when the counter is `cnt`, at a rate with shift `sh`
/// and row `sel`: none unless the low `sh` bits of the counter are clear.
pub open spec fn eg_step(cnt: u32, sh: u32, sel: u32) -> Option<int> {
    let span = (1u32 << sh) as int;
    if cnt as int % span == 0 {
        Some(eg_inc_of(sel + (cnt as int / span) % 8) as int)
    } else {
        None
    }
}

fn envelope_step(cnt: u32, sh: u32, sel: u32) -> (r: Option<i32>)
    requires
        sh <= 11,
        sel <= 144,
    ensures
        match r {
            Some(inc) => eg_step(cnt, sh, sel) == Some(inc as int) && 0 <= inc <= 16,
            None => eg_step(cnt, sh, sel) is None,
        },
{
    proof {
        crate::bits::small_power(sh);
    }
    let span: u32 = 1u32 << sh;
    if cnt % span == 0 {
        Some(eg_inc((sel + (cnt / span) % 8) as usize) as i32)
    } else {
        None
    }
}

/// The level of the wave at a tenth-bit position under an attenuation.
pub open spec fn wave(pos: int, env: u32) -> int {
    let p = (env << 3).wrapping_add(sin_of(pos) as u32);
    if p >= TL_TAB_LEN {
        0
    } else {
        tl_of(p as int)
    }
}

fn wave_at(pos: usize, env: u32) -> (v: i32)
    requires
        pos < SIN_LEN,
    ensures
        v == wave(pos as int, env),
        -8192 <= v <= 8192,
{
    let p: u32 = (env << 3).wrapping_add(sin_tab(pos));
    if p as usize >= TL_TAB_LEN {
        0
    } else {
        tl_tab(p as usize)
    }
}

/// The position of a phase with a modulator's level added: half of it, in
/// steps of the wave.
pub open spec fn modulated(phase: u32, pm: int) -> int {
    (phase as int / 0x1_0000 + pm / 2) % 1024
}

/// The position of a phase with an offset added, in 65536ths of a step.
pub open spec fn offset(phase: u32, pm: int) -> int {
    (phase as int / 0x1_0000 + pm / 0x1_0000) % 1024
}

impl FmOp {
    pub open spec fn wf(self) -> bool {
        &&& self.mul < 16
        &&& self.dt < 8
        &&& self.tl <= 1016
        &&& self.ar <= 94
        &&& self.dr <= 94
        &&& self.sr <= 94
        &&& self.rr <= 94
        &&& self.sl <= 1023
        &&& self.ksr_shift <= 3
        &&& self.ksr <= 31
        &&& self.eg_sh_ar <= 11
        &&& self.eg_sh_d1r <= 11
        &&& self.eg_sh_d2r <= 11
        &&& self.eg_sh_rr <= 11
        &&& self.eg_sel_ar <= 144
        &&& self.eg_sel_d1r <= 144
        &&& self.eg_sel_d2r <= 144
        &&& self.eg_sel_rr <= 144
        &&& 0 <= self.volume <= 1087
        &&& self.state == EG_DEC ==> self.volume <= 1023
    }

    pub open spec fn at_reset() -> FmOp {
        FmOp {
            mul: 1,
            dt: 0,
            tl: 0,
            ar: 0,
            dr: 0,
            sr: 0,
            rr: 34,
            sl: 0,
            ksr_shift: 3,
            ksr: 0,
            phase: 0,
            volume: 1023,
            state: EG_OFF,
            eg_sh_ar: 0,
            eg_sh_d1r: 0,
            eg_sh_d2r: 0,
            eg_sh_rr: 0,
            eg_sel_ar: 136,
            eg_sel_d1r: 136,
            eg_sel_d2r: 136,
            eg_sel_rr: 136,
            am_enabled: false,
            key: false,
            ssg: 0,
            ssgn: 0,
        }
    }

    /// An operator at reset: silent.
    pub fn new() -> (op: FmOp)
        ensures
            op == FmOp::at_reset(),
            op.wf(),
    {
        FmOp {
            mul: 1,
            dt: 0,
            tl: 0,
            ar: 0,
            dr: 0,
            sr: 0,
            rr: 34,
            sl: 0,
            ksr_shift: 3,
            ksr: 0,
            phase: 0,
            volume: MAX_ATT_INDEX,
            state: EG_OFF,
            eg_sh_ar: 0,
            eg_sh_d1r: 0,
            eg_sh_d2r: 0,
            eg_sh_rr: 0,
            eg_sel_ar: 136,
            eg_sel_d1r: 136,
            eg_sel_d2r: 136,
            eg_sel_rr: 136,
            am_enabled: false,
            key: false,
            ssg: 0,
            ssgn: 0,
        }
    }

    /// The operator with the envelope's steps looked up for its rates and key.
    /// The fastest attacks have a row of their own.
    pub open spec fn rated(self) -> FmOp {
        let a = self.ar + self.ksr;
        FmOp {
            eg_sh_ar: if a < 94 {
                eg_rate_shift_of(a)
            } else {
                0
            },
            eg_sel_ar: if a < 94 {
                eg_rate_select_of(a)
            } else {
                136
            },
            eg_sh_d1r: eg_rate_shift_of(self.dr + self.ksr),
            eg_sh_d2r: eg_rate_shift_of(self.sr + self.ksr),
            eg_sh_rr: eg_rate_shift_of(self.rr + self.ksr),
            eg_sel_d1r: eg_rate_select_of(self.dr + self.ksr),
            eg_sel_d2r: eg_rate_select_of(self.sr + self.ksr),
            eg_sel_rr: eg_rate_select_of(self.rr + self.ksr),
            ..self
        }
    }

    pub fn refresh_eg_rates(&mut self)
        requires
            old(self).wf(),
        ensures
            *final(self) == old(self).rated(),
            final(self).wf(),
    {
        let a: u32 = self.ar + self.ksr;
        if a < 94 {
            self.eg_sh_ar = eg_rate_shift(a as usize);
            self.eg_sel_ar = eg_rate_select(a as usize);
        } else {
            self.eg_sh_ar = 0;
            self.eg_sel_ar = 136;
        }
        self.eg_sh_d1r = eg_rate_shift((self.dr + self.ksr) as usize);
        self.eg_sh_d2r = eg_rate_shift((self.sr + self.ksr) as usize);
        self.eg_sh_rr = eg_rate_shift((self.rr + self.ksr) as usize);
        self.eg_sel_d1r = eg_rate_select((self.dr + self.ksr) as usize);
        self.eg_sel_d2r = eg_rate_select((self.sr + self.ksr) as usize);
        self.eg_sel_rr = eg_rate_select((self.rr + self.ksr) as usize);
    }

    /// What the detune adds to a phase step at key code `kc`.
    pub fn detune(&self, kc: u32) -> (v: i32)
        requires
            self.wf(),
        ensures
            v == dt_of(self.dt as int, kc as int % 32),
            -1408 <= v <= 1408,
    {
        dt_tab(self.dt as usize, (kc % 32) as usize)
    }

    /// Pressed: from the start of the wave, into attack; nothing if it was
    /// pressed already.
    pub open spec fn keyed_on(self) -> FmOp {
        if self.key {
            self
        } else {
            FmOp { key: true, phase: 0, ssgn: (self.ssg & 4) >> 1, state: EG_ATT, ..self }
        }
    }

    pub fn key_on(&mut self)
        ensures
            *final(self) == old(self).keyed_on(),
            old(self).wf() ==> final(self).wf(),
    {
        if !self.key {
            self.key = true;
            self.phase = 0;
            self.ssgn = (self.ssg & 4) >> 1;
            self.state = EG_ATT;
        }
    }

    /// Let go: into release from any state but off.
    pub open spec fn keyed_off(self) -> FmOp {
        if !self.key {
            self
        } else if self.state == EG_OFF {
            FmOp { key: false, ..self }
        } else {
            FmOp { key: false, state: EG_REL, ..self }
        }
    }

    pub fn key_off(&mut self)
        ensures
            *final(self) == old(self).keyed_off(),
            old(self).wf() ==> final(self).wf(),
    {
        if self.key {
            self.key = false;
            if self.state != EG_OFF {
                self.state = EG_REL;
            }
        }
    }

    /// Whether the envelope loops.
    pub open spec fn loops(self) -> bool {
        self.ssg & 8 != 0
    }

    /// Attack: the attenuation shrinks in proportion to itself; at zero decay
    /// begins.
    pub open spec fn attacked(self, inc: int) -> FmOp {
        let v = self.volume + (-(self.volume + 1) * inc) / 16;
        if v <= 0 {
            FmOp { volume: 0, state: EG_DEC, ..self }
        } else {
            FmOp { volume: v as i32, ..self }
        }
    }

    /// Decay, four times faster if the envelope loops, until the sustain level.
    pub open spec fn decayed(self, inc: int) -> FmOp {
        let v = self.volume + if self.loops() {
            4 * inc
        } else {
            inc
        };
        FmOp {
            volume: v as i32,
            state: if v >= self.sl {
                EG_SUS
            } else {
                self.state
            },
            ..self
        }
    }

    /// Sustain. A looping envelope that has become quiet either holds, turning
    /// over at most once, or starts again in attack.
    pub open spec fn sustained(self, inc: int) -> FmOp {
        if self.loops() {
            let v = self.volume + 4 * inc;
            if v < ENV_QUIET {
                FmOp { volume: v as i32, ..self }
            } else if self.ssg & 1 != 0 {
                FmOp {
                    volume: 1023,
                    ssgn: if self.ssgn & 1 == 0 {
                        self.ssgn ^ (self.ssg & 2 | 1)
                    } else {
                        self.ssgn ^ 0
                    },
                    ..self
                }
            } else {
                FmOp {
                    phase: 0,
                    volume: 511,
                    state: EG_ATT,
                    ssgn: self.ssgn ^ (self.ssg & 2),
                    ..self
                }
            }
        } else {
            let v = self.volume + inc;
            FmOp {
                volume: if v >= 1023 {
                    1023
                } else {
                    v as i32
                },
                ..self
            }
        }
    }

    /// Release, until silence.
    pub open spec fn released(self, inc: int) -> FmOp {
        let v = self.volume + inc;
        if v >= 1023 {
            FmOp { volume: 1023, state: EG_OFF, ..self }
        } else {
            FmOp { volume: v as i32, ..self }
        }
    }

    /// The operator after the envelope counter has reached `cnt`.
    pub open spec fn advanced(self, cnt: u32) -> FmOp {
        if self.state == EG_ATT {
            match eg_step(cnt, self.eg_sh_ar, self.eg_sel_ar) {
                Some(inc) => self.attacked(inc),
                None => self,
            }
        } else if self.state == EG_DEC {
            match eg_step(cnt, self.eg_sh_d1r, self.eg_sel_d1r) {
                Some(inc) => self.decayed(inc),
                None => self,
            }
        } else if self.state == EG_SUS {
            match eg_step(cnt, self.eg_sh_d2r, self.eg_sel_d2r) {
                Some(inc) => self.sustained(inc),
                None => self,
            }
        } else if self.state == EG_REL {
            match eg_step(cnt, self.eg_sh_rr, self.eg_sel_rr) {
                Some(inc) => self.released(inc),
                None => self,
            }
        } else {
            self
        }
    }

    fn attack(&mut self, inc: i32)
        requires
            old(self).wf(),
            0 <= inc <= 16,
        ensures
            *final(self) == old(self).attacked(inc as int),
            final(self).wf(),
    {
        let up: i32 = self.volume + 1;
        assert(0 <= up * inc <= 1088 * 16) by (nonlinear_arith)
            requires
                1 <= up <= 1088,
                0 <= inc <= 16,
        ;
        assert(-up * inc == -(up * inc)) by (nonlinear_arith);
        let x: i32 = up * inc;
        assert(x <= 16 * up) by (nonlinear_arith)
            requires
                x == up * inc,
                inc <= 16,
                1 <= up,
        ;
        let v: i32 = self.volume - ((x + 15) as u32 / 16) as i32;
        if v <= MIN_ATT_INDEX {
            self.volume = MIN_ATT_INDEX;
            self.state = EG_DEC;
        } else {
            self.volume = v;
        }
    }

    fn decay(&mut self, inc: i32)
        requires
            old(self).wf(),
            old(self).state == EG_DEC,
            0 <= inc <= 16,
        ensures
            *final(self) == old(self).decayed(inc as int),
            final(self).wf(),
    {
        self.volume = self.volume + if self.ssg & 8 != 0 {
            4 * inc
        } else {
            inc
        };
        if self.volume >= self.sl as i32 {
            self.state = EG_SUS;
        }
    }

    fn sustain(&mut self, inc: i32)
        requires
            old(self).wf(),
            old(self).state == EG_SUS,
            0 <= inc <= 16,
        ensures
            *final(self) == old(self).sustained(inc as int),
            final(self).wf(),
    {
        if self.ssg & 8 != 0 {
            self.volume = self.volume + 4 * inc;
            if self.volume >= ENV_QUIET as i32 {
                self.volume = MAX_ATT_INDEX;
                let mut swap: u8 = 0;
                if self.ssg & 1 != 0 {
                    if self.ssgn & 1 == 0 {
                        swap = self.ssg & 2 | 1;
                    }
                } else {
                    self.phase = 0;
                    self.volume = 511;
                    self.state = EG_ATT;
                    swap = self.ssg & 2;
                }
                self.ssgn = self.ssgn ^ swap;
            }
        } else {
            self.volume = self.volume + inc;
            if self.volume >= MAX_ATT_INDEX {
                self.volume = MAX_ATT_INDEX;
            }
        }
    }

    fn release(&mut self, inc: i32)
        requires
            old(self).wf(),
            0 <= inc <= 16,
            old(self).state == EG_REL,
        ensures
            *final(self) == old(self).released(inc as int),
            final(self).wf(),
    {
        self.volume = self.volume + inc;
        if self.volume >= MAX_ATT_INDEX {
            self.volume = MAX_ATT_INDEX;
            self.state = EG_OFF;
        }
    }

    pub fn advance_eg(&mut self, eg_cnt: u32)
        requires
            old(self).wf(),
        ensures
            *final(self) == old(self).advanced(eg_cnt),
            final(self).wf(),
    {
        if self.state == EG_ATT {
            if let Some(inc) = envelope_step(eg_cnt, self.eg_sh_ar, self.eg_sel_ar) {
                self.attack(inc);
            }
        } else if self.state == EG_DEC {
            if let Some(inc) = envelope_step(eg_cnt, self.eg_sh_d1r, self.eg_sel_d1r) {
                self.decay(inc);
            }
        } else if self.state == EG_SUS {
            if let Some(inc) = envelope_step(eg_cnt, self.eg_sh_d2r, self.eg_sel_d2r) {
                self.sustain(inc);
            }
        } else if self.state == EG_REL {
            if let Some(inc) = envelope_step(eg_cnt, self.eg_sh_rr, self.eg_sel_rr) {
                self.release(inc);
            }
        }
    }

    /// The attenuation: the envelope's, turned over if it loops, is turned and
    /// is still running, and the register's added.
    pub open spec fn attenuation(self) -> int {
        let v = if self.volume < 0 {
            0
        } else if self.volume > 1023 {
            1023
        } else {
            self.volume as int
        };
        let turned = self.loops() && self.ssgn & 2 != 0 && self.state > EG_REL;
        self.tl + if turned {
            1023 - v
        } else {
            v
        }
    }

    pub fn vol_out(&self) -> (v: u32)
        requires
            self.wf(),
        ensures
            v == self.attenuation(),
            v <= 2039,
    {
        let v: u32 = if self.volume > MAX_ATT_INDEX {
            1023
        } else {
            self.volume as u32
        };
        if self.ssg & 8 != 0 && self.ssgn & 2 != 0 && self.state > EG_REL {
            1023 - v + self.tl
        } else {
            v + self.tl
        }
    }

    /// The output of an operator that another one modulates.
    pub fn op_calc(phase: u32, env: u32, pm: i32) -> (v: i32)
        ensures
            v == wave(modulated(phase, pm as int), env),
            -8192 <= v <= 8192,
    {
        let half: u64 = (pm as i64 + 0x1_0000_0000) as u64 / 2;
        let pos: usize = (((phase / 0x1_0000) as u64 + half) % 1024) as usize;
        assert(pos as int == modulated(phase, pm as int));
        wave_at(pos, env)
    }

    /// The output of an operator that feeds back on itself.
    pub fn op_calc1(phase: u32, env: u32, pm: i32) -> (v: i32)
        ensures
            v == wave(offset(phase, pm as int), env),
            -8192 <= v <= 8192,
    {
        let steps: u64 = (pm as i64 + 0x1_0000_0000) as u64 / 0x1_0000;
        let pos: usize = (((phase / 0x1_0000) as u64 + steps) % 1024) as usize;
        assert(pos as int == offset(phase, pm as int));
        wave_at(pos, env)
    }

    /// What the phase moves in one sample, for a frequency shifted by vibrato
    /// within twelve bits: doubled once for each octave, detuned, times the
    /// multiple.
    pub open spec fn phase_step(self, fnum: int, octave: u32, kc: int) -> int {
        let step = (fnum % 4096) * (1u32 << ((octave + 5) as u32));
        let base = (step + dt_of(self.dt as int, kc % 32)) % (FN_MAX as int);
        let twice = if self.mul == 0 {
            1
        } else {
            2 * self.mul
        };
        ((base * twice) % 0x1_0000_0000) / 2
    }

    pub open spec fn moved(self, fnum: int, octave: u32, kc: int) -> FmOp {
        FmOp { phase: self.phase.wrapping_add(self.phase_step(fnum, octave, kc) as u32), ..self }
    }

    pub fn advance_phase(&mut self, fnum: i32, octave: u32, kc: u32)
        requires
            old(self).wf(),
            -4096 <= fnum < 0x1_0000,
            octave < 8,
        ensures
            *final(self) == old(self).moved(fnum as int, octave, kc as int),
            final(self).wf(),
    {
        proof {
            crate::bits::octave_power(octave);
        }
        let f: u32 = (fnum + 4096) as u32 % 4096;
        assert(f == fnum as int % 4096);
        let power: u32 = 1u32 << (octave + 5);
        assert(0 <= f * power <= 4095 * 4096) by (nonlinear_arith)
            requires
                0 <= f <= 4095,
                0 <= power <= 4096,
        ;
        let step: u32 = f * power;
        let sum: i64 = step as i64 + self.detune(kc) as i64;
        let base: u64 = if sum < 0 {
            (sum + FN_MAX as i64) as u64
        } else {
            sum as u64
        };
        let twice: u64 = if self.mul == 0 {
            1
        } else {
            2 * self.mul as u64
        };
        assert(0 <= base * twice <= 0x1000_0000 * 30) by (nonlinear_arith)
            requires
                0 <= base <= 0x1000_0000,
                0 <= twice <= 30,
        ;
        let inc: u32 = (((base * twice) % 0x1_0000_0000) / 2) as u32;
        self.phase = self.phase.wrapping_add(inc);
    }
}

/// Pressing a key arms the turned envelope from the shape's attack bit, starts
/// the wave, and enters attack.
pub proof fn key_on_arms(op: FmOp)
    requires
        !op.key,
    ensures
        op.keyed_on().ssgn == (op.ssg & 4) >> 1,
        op.keyed_on().phase == 0,
        op.keyed_on().state == EG_ATT,
{
}

/// Letting go leads to release from every running state.
pub proof fn key_off_releases(op: FmOp)
    requires
        op.key,
        op.state != EG_OFF,
    ensures
        op.keyed_off().state == EG_REL,
{
}

/// A step of the envelope is small.
proof fn steps_are_small(cnt: u32, sh: u32, sel: u32)
    requires
        sh <= 11,
        sel <= 144,
    ensures
        match eg_step(cnt, sh, sel) {
            Some(inc) => 0 <= inc <= 16,
            None => true,
        },
{
    crate::bits::small_power(sh);
    reveal(eg_inc_of);
    assert(forall|k: int| 0 <= k < 152 ==> #[trigger] EG_INC@[k] <= 16);
}

/// A looping envelope decays exactly four times as far as another one, whatever
/// the counter is.
pub proof fn looping_decay_is_fourfold(op: FmOp, cnt: u32)
    requires
        op.wf(),
        op.loops(),
        op.state == EG_DEC,
    ensures
        op.advanced(cnt).volume - op.volume == 4 * ((FmOp { ssg: 0, ..op }).advanced(cnt).volume
            - op.volume),
{
    crate::bits::zero_has_no_bits();
    steps_are_small(cnt, op.eg_sh_d1r, op.eg_sel_d1r);
}

/// At a rate that moves at all, decay moves: every row of steps ends in one.
pub proof fn decay_moves(op: FmOp, cnt: u32)
    requires
        op.wf(),
        op.state == EG_DEC,
        op.eg_sel_d1r % 8 == 0,
        op.eg_sel_d1r < 144,
        cnt == 7 * (1u32 << op.eg_sh_d1r),
    ensures
        op.advanced(cnt).volume > op.volume,
{
    let span = (1u32 << op.eg_sh_d1r) as int;
    crate::bits::small_power(op.eg_sh_d1r);
    vstd::arithmetic::div_mod::lemma_fundamental_div_mod_converse(cnt as int, span, 7, 0);
    steps_are_small(cnt, op.eg_sh_d1r, op.eg_sel_d1r);
    reveal(eg_inc_of);
    assert(forall|r: int| 0 <= r < 18 ==> #[trigger] EG_INC@[8 * r + 7] >= 1);
    let r = op.eg_sel_d1r as int / 8;
    assert(EG_INC@[8 * r + 7] >= 1);
}

/// A held envelope turns over at most once: after that its latch stays.
pub proof fn held_envelope_turns_once(op: FmOp, inc: int)
    requires
        op.loops(),
        op.ssg & 1 != 0,
        op.ssgn & 1 != 0,
    ensures
        op.sustained(inc).ssgn == op.ssgn,
{
    crate::bits::xor_zero(op.ssgn);
}

/// The attenuation at and beyond which an operator gives nothing really gives
/// nothing.
pub proof fn quiet_is_silent(pos: int, env: u32)
    requires
        ENV_QUIET <= env < 0x1000_0000,
        0 <= pos < 1024,
    ensures
        wave(pos, env) == 0,
{
    crate::bits::times_eight(env);
    let k = pos % 512;
    let q = if k < 256 {
        k
    } else {
        511 - k
    };
    crate::audio::tables::quarter_is_small(q);
}

}
