//! The square-wave generator: three tones, noise and an envelope.
use vstd::prelude::*;
use crate::bits::same;

verus! {

/// Levels of the thirty-two volume steps.
pub const SSG_AMPLITUDES: [i16; 32] = [
    0, 32, 78, 141, 178, 222, 262, 306, 369, 441, 509, 585, 701, 836, 965, 1112, 1334, 1595, 1853,
    2146, 2576, 3081, 3576, 4135, 5000, 6006, 7023, 8155, 9963, 11976, 14132, 16382,
];

/// The generator's own clock.
pub const SSG_STEP_CLOCK_HZ: u32 = 250_000;

/// Output samples in a second: 8 MHz over 144.
pub const HOST_SAMPLE_RATE_HZ: u32 = 55_555;

/// Clock ticks in an output sample: four and a half, in 65536ths.
pub const SSG_TICKS_PER_SAMPLE_Q16: u32 = 294_912;

/// How fast the mean level is followed, in 65536ths.
pub const HP_ALPHA_Q16: i64 = 74;

#[verifier::opaque]
pub open spec fn amplitude_of(v: int) -> i16 {
    SSG_AMPLITUDES@[v]
}

fn amplitude(v: usize) -> (a: i16)
    requires
        v < 32,
    ensures
        a == amplitude_of(v as int),
        0 <= a <= 16382,
{
    proof {
        reveal(amplitude_of);
    }
    let table: [i16; 32] = SSG_AMPLITUDES;
    table[v]
}

/// The generator.
#[derive(Debug, Clone, Copy)]
pub struct Ssg {
    pub tone_period: [u16; 3],
    pub noise_period: u8,
    /// Bits 0 to 2 switch the tones off, bits 3 to 5 the noise.
    pub mixer: u8,
    /// Fixed volume in four bits; bit 4 gives it to the envelope.
    pub vol: [u8; 3],
    pub env_period: u16,
    pub env_shape: u8,
    pub tone_count: [u32; 3],
    pub tone_state: [u8; 3],
    pub noise_count: u32,
    /// Seventeen bits that feed back on themselves.
    pub noise_state: u32,
    pub env_count: u32,
    pub env_state: u32,
    /// Part of a tick left over, in 65536ths.
    pub tick_frac: u32,
    /// The mean level, in 65536ths.
    pub dc_estimator_q16: i64,
}

/// What the generator holds.
#[verifier::ext_equal]
pub ghost struct SsgState {
    pub tone_period: Seq<u16>,
    pub noise_period: u8,
    pub mixer: u8,
    pub vol: Seq<u8>,
    pub env_period: u16,
    pub env_shape: u8,
    pub tone_count: Seq<u32>,
    pub tone_state: Seq<u8>,
    pub noise_count: u32,
    pub noise_state: u32,
    pub env_count: u32,
    pub env_state: u32,
    pub tick_frac: u32,
    pub dc: i64,
}

/// A tone's counter and state after one tick: at the end of the period, which is
/// at least one, the state turns.
pub open spec fn tone_after(count: u32, state: u8, period: u16) -> (u32, u8) {
    let c = count.wrapping_add(1);
    if c >= (if period == 0 {
        1
    } else {
        period as int
    }) {
        (0, (1 - state) as u8)
    } else {
        (c, state)
    }
}

/// The noise bits after one shift: bits 0 and 3 feed the top.
pub open spec fn noise_after(s: u32) -> u32 {
    (s / 2 + if s % 2 != (s / 8) % 2 {
        0x1_0000int
    } else {
        0
    }) as u32
}

impl SsgState {
    pub open spec fn wf(self) -> bool {
        &&& self.tone_period.len() == 3
        &&& self.vol.len() == 3
        &&& self.tone_count.len() == 3
        &&& self.tone_state.len() == 3
        &&& forall|i: int| 0 <= i < 3 ==> #[trigger] self.tone_state[i] <= 1
        &&& self.noise_state < 0x2_0000
        &&& self.tick_frac < 0x1_0000
        &&& 0 <= self.dc <= 49146 * 0x1_0000
    }

    /// Silence: everything off.
    pub open spec fn at_reset() -> SsgState {
        SsgState {
            tone_period: seq![0, 0, 0],
            noise_period: 0,
            mixer: 0xFF,
            vol: seq![0, 0, 0],
            env_period: 0,
            env_shape: 0,
            tone_count: seq![0, 0, 0],
            tone_state: seq![0, 0, 0],
            noise_count: 0,
            noise_state: 1,
            env_count: 0,
            env_state: 0,
            tick_frac: 0,
            dc: 0,
        }
    }

    pub open spec fn with_tone_period(self, i: int, p: int) -> SsgState {
        SsgState { tone_period: self.tone_period.update(i, p as u16), ..self }
    }

    /// Registers 0 to 5 hold the tone periods, low byte first and four bits
    /// above it; then come noise, mixer, volumes, and the envelope's period and
    /// shape. A new shape starts the envelope anew.
    pub open spec fn written(self, reg: u8, val: u8) -> SsgState {
        if reg < 6 {
            let i = reg as int / 2;
            let p = self.tone_period[i] as int;
            if reg % 2 == 0 {
                self.with_tone_period(i, 256 * (p / 256) + val)
            } else {
                self.with_tone_period(i, 256 * (val as int % 16) + p % 256)
            }
        } else if reg == 6 {
            SsgState { noise_period: val % 32, ..self }
        } else if reg == 7 {
            SsgState { mixer: val, ..self }
        } else if reg < 11 {
            SsgState { vol: self.vol.update(reg - 8, val % 32), ..self }
        } else if reg == 11 {
            SsgState { env_period: (256 * (self.env_period as int / 256) + val) as u16, ..self }
        } else if reg == 12 {
            SsgState { env_period: (256 * val + self.env_period as int % 256) as u16, ..self }
        } else if reg == 13 {
            SsgState { env_shape: val % 16, env_state: 0, env_count: 0, ..self }
        } else {
            self
        }
    }

    /// One tick of the tones.
    pub open spec fn tones_ticked(self) -> SsgState {
        SsgState {
            tone_count: Seq::new(
                3,
                |i: int|
                    tone_after(self.tone_count[i], self.tone_state[i], self.tone_period[i]).0,
            ),
            tone_state: Seq::new(
                3,
                |i: int|
                    tone_after(self.tone_count[i], self.tone_state[i], self.tone_period[i]).1,
            ),
            ..self
        }
    }

    /// One tick of the noise, which shifts every second tick of its period.
    pub open spec fn noise_ticked(self) -> SsgState {
        let c = self.noise_count.wrapping_add(1);
        let period = if self.noise_period == 0 {
            1
        } else {
            self.noise_period as int
        };
        if c as int / 2 >= period && c != 1 {
            SsgState { noise_count: 0, noise_state: noise_after(self.noise_state), ..self }
        } else {
            SsgState { noise_count: c, ..self }
        }
    }

    /// One tick of the envelope.
    pub open spec fn env_ticked(self) -> SsgState {
        let c = self.env_count.wrapping_add(1);
        let period = if self.env_period == 0 {
            1
        } else {
            self.env_period as int
        };
        if c >= period {
            SsgState { env_count: 0, env_state: self.env_state.wrapping_add(1), ..self }
        } else {
            SsgState { env_count: c, ..self }
        }
    }

    pub open spec fn ticked(self) -> SsgState {
        self.tones_ticked().noise_ticked().env_ticked()
    }

    /// `n` ticks.
    pub open spec fn ticks(self, n: int) -> SsgState
        decreases n,
    {
        if n <= 0 {
            self
        } else {
            self.ticks(n - 1).ticked()
        }
    }

    /// Whether the envelope has run through and stays: after the first pass, if
    /// it holds or does not continue.
    pub open spec fn env_held(self) -> bool {
        (self.env_shape % 2 == 1 || (self.env_shape / 8) % 2 == 0) && self.env_state >= 32
    }

    /// The envelope's volume: up or down, the direction turning on every pass
    /// if it alternates.
    pub open spec fn env_volume(self) -> int {
        let alternate = (self.env_shape / 2) % 2 == 1;
        let attack = (self.env_shape / 4) % 2 == 1;
        let cont = (self.env_shape / 8) % 2 == 1;
        if self.env_held() {
            if attack != alternate && cont {
                31
            } else {
                0
            }
        } else {
            let up = attack != (alternate && (self.env_state / 32) % 2 == 1);
            let pos = self.env_state as int % 32;
            if up {
                pos
            } else {
                31 - pos
            }
        }
    }

    pub open spec fn env_settled(self) -> SsgState {
        SsgState {
            env_state: if self.env_held() {
                32
            } else {
                self.env_state
            },
            ..self
        }
    }

    /// Whether channel `i` is high: its tone and the noise must each be high or
    /// switched off.
    pub open spec fn audible(self, i: int) -> bool {
        &&& (self.mixer >> ((i + 3) as u32)) & 1 == 1 || self.noise_state % 2 == 1
        &&& (self.mixer >> (i as u32)) & 1 == 1 || self.tone_state[i] == 1
    }

    /// The level of channel `i` when it is high.
    pub open spec fn level(self, i: int) -> int {
        let v = self.vol[i] as int;
        if (v / 16) % 2 == 1 {
            amplitude_of(self.env_volume()) as int
        } else if v % 16 == 0 {
            amplitude_of(0) as int
        } else {
            amplitude_of(2 * (v % 16) + 1) as int
        }
    }

    /// The sum of the first `n` channels.
    pub open spec fn mix(self, n: int) -> int
        decreases n,
    {
        if n <= 0 {
            0
        } else {
            self.mix(n - 1) + if self.audible(n - 1) {
                self.level(n - 1)
            } else {
                0
            }
        }
    }

    /// The generator after one output sample, and the sample: the sum of the
    /// channels less the mean level, which follows it slowly.
    #[verifier::opaque]
    pub open spec fn stepped(self) -> (SsgState, int) {
        let t = self.tick_frac + SSG_TICKS_PER_SAMPLE_Q16;
        let s1 = SsgState { tick_frac: (t % 0x1_0000) as u32, ..self };
        let s2 = s1.ticks(t / 0x1_0000);
        let s3 = s2.env_settled();
        let x = s2.mix(3) * 0x1_0000;
        let dc = s3.dc + ((x - s3.dc) * HP_ALPHA_Q16) / 0x1_0000;
        (SsgState { dc: dc as i64, ..s3 }, (x - dc) / 0x1_0000)
    }
}

impl View for Ssg {
    type V = SsgState;

    open spec fn view(&self) -> SsgState {
        SsgState {
            tone_period: self.tone_period@,
            noise_period: self.noise_period,
            mixer: self.mixer,
            vol: self.vol@,
            env_period: self.env_period,
            env_shape: self.env_shape,
            tone_count: self.tone_count@,
            tone_state: self.tone_state@,
            noise_count: self.noise_count,
            noise_state: self.noise_state,
            env_count: self.env_count,
            env_state: self.env_state,
            tick_frac: self.tick_frac,
            dc: self.dc_estimator_q16,
        }
    }
}

impl Ssg {
    pub fn new() -> (s: Ssg)
        ensures
            s@ == SsgState::at_reset(),
            s@.wf(),
    {
        Ssg {
            tone_period: [0, 0, 0],
            noise_period: 0,
            mixer: 0xFF,
            vol: [0, 0, 0],
            env_period: 0,
            env_shape: 0,
            tone_count: [0, 0, 0],
            tone_state: [0, 0, 0],
            noise_count: 0,
            noise_state: 1,
            env_count: 0,
            env_state: 0,
            tick_frac: 0,
            dc_estimator_q16: 0,
        }
    }

    /// Back to silence.
    pub fn reset(&mut self)
        ensures
            final(self)@ == SsgState::at_reset(),
            final(self)@.wf(),
    {
        *self = Ssg::new();
    }

    pub fn write_reg(&mut self, reg: u8, val: u8)
        requires
            old(self)@.wf(),
        ensures
            final(self)@ == old(self)@.written(reg, val),
            final(self)@.wf(),
    {
        if reg < 6 {
            let i: usize = (reg / 2) as usize;
            let p: u16 = self.tone_period[i];
            self.tone_period[i] = if reg % 2 == 0 {
                256 * (p / 256) + val as u16
            } else {
                256 * (val % 16) as u16 + p % 256
            };
        } else if reg == 6 {
            self.noise_period = val % 32;
        } else if reg == 7 {
            self.mixer = val;
        } else if reg < 11 {
            self.vol[(reg - 8) as usize] = val % 32;
        } else if reg == 11 {
            self.env_period = 256 * (self.env_period / 256) + val as u16;
        } else if reg == 12 {
            self.env_period = 256 * val as u16 + self.env_period % 256;
        } else if reg == 13 {
            self.env_shape = val % 16;
            self.env_state = 0;
            self.env_count = 0;
        }
    }

    fn tick_tones(&mut self)
        requires
            old(self)@.wf(),
        ensures
            final(self)@ == old(self)@.tones_ticked(),
            final(self)@.wf(),
    {
        let ghost s = self@;
        let mut i: usize = 0;
        while i < 3
            invariant
                i <= 3,
                s.wf(),
                self@.wf(),
                self@ == (SsgState { tone_count: self@.tone_count, tone_state: self@.tone_state, ..s }),
                forall|j: int|
                    0 <= j < i ==> #[trigger] self@.tone_count[j] == tone_after(
                        s.tone_count[j],
                        s.tone_state[j],
                        s.tone_period[j],
                    ).0,
                forall|j: int|
                    0 <= j < i ==> #[trigger] self@.tone_state[j] == tone_after(
                        s.tone_count[j],
                        s.tone_state[j],
                        s.tone_period[j],
                    ).1,
                forall|j: int| i <= j < 3 ==> #[trigger] self@.tone_count[j] == s.tone_count[j],
                forall|j: int| i <= j < 3 ==> #[trigger] self@.tone_state[j] == s.tone_state[j],
            decreases 3 - i,
        {
            let c: u32 = self.tone_count[i].wrapping_add(1);
            let period: u32 = if self.tone_period[i] == 0 {
                1
            } else {
                self.tone_period[i] as u32
            };
            if c >= period {
                assert(self@.tone_state[i as int] <= 1);
                self.tone_state[i] = 1 - self.tone_state[i];
                self.tone_count[i] = 0;
            } else {
                self.tone_count[i] = c;
            }
            i = i + 1;
        }
        assert(self@ == s.tones_ticked());
    }

    /// One tick of the generator's clock.
    pub fn clock_tick(&mut self)
        requires
            old(self)@.wf(),
        ensures
            final(self)@ == old(self)@.ticked(),
            final(self)@.wf(),
    {
        self.tick_tones();
        let c: u32 = self.noise_count.wrapping_add(1);
        let period: u32 = if self.noise_period == 0 {
            1
        } else {
            self.noise_period as u32
        };
        if c / 2 >= period && c != 1 {
            let s: u32 = self.noise_state;
            self.noise_state = s / 2 + if s % 2 != (s / 8) % 2 {
                0x1_0000
            } else {
                0
            };
            self.noise_count = 0;
        } else {
            self.noise_count = c;
        }
        let e: u32 = self.env_count.wrapping_add(1);
        let env_period: u32 = if self.env_period == 0 {
            1
        } else {
            self.env_period as u32
        };
        if e >= env_period {
            self.env_state = self.env_state.wrapping_add(1);
            self.env_count = 0;
        } else {
            self.env_count = e;
        }
    }

    /// The envelope's volume now.
    pub fn envelope_volume(&mut self) -> (v: u32)
        ensures
            v == old(self)@.env_volume(),
            v < 32,
            final(self)@ == old(self)@.env_settled(),
    {
        let hold: bool = self.env_shape % 2 == 1;
        let alternate: bool = (self.env_shape / 2) % 2 == 1;
        let attack: bool = (self.env_shape / 4) % 2 == 1;
        let cont: bool = (self.env_shape / 8) % 2 == 1;
        if (hold || !cont) && self.env_state >= 32 {
            self.env_state = 32;
            if attack != alternate && cont {
                31
            } else {
                0
            }
        } else {
            let up: bool = attack != (alternate && (self.env_state / 32) % 2 == 1);
            let pos: u32 = self.env_state % 32;
            if up {
                pos
            } else {
                31 - pos
            }
        }
    }

    /// The sum of the channels that are high, with the envelope at `env_vol`.
    fn mixed(&self, env_vol: u32) -> (acc: i32)
        requires
            self@.wf(),
            env_vol == self@.env_volume(),
            env_vol < 32,
        ensures
            acc == self@.mix(3),
            0 <= acc <= 49146,
    {
        let mut acc: i32 = 0;
        let mut i: usize = 0;
        while i < 3
            invariant
                i <= 3,
                self@.wf(),
                env_vol == self@.env_volume(),
                env_vol < 32,
                acc == self@.mix(i as int),
                0 <= acc <= 16382 * i,
            decreases 3 - i,
        {
            let noise_on: bool = (self.mixer >> ((i + 3) as u32)) & 1 == 1 || self.noise_state % 2
                == 1;
            let tone_on: bool = (self.mixer >> (i as u32)) & 1 == 1 || self.tone_state[i] == 1;
            if noise_on && tone_on {
                let v: u8 = self.vol[i];
                let step: usize = if (v / 16) % 2 == 1 {
                    env_vol as usize
                } else if v % 16 == 0 {
                    0
                } else {
                    2 * (v % 16) as usize + 1
                };
                acc = acc + amplitude(step) as i32;
            }
            i = i + 1;
        }
        acc
    }

    /// Advance one output sample.
    pub fn step_one(&mut self) -> (v: i32)
        requires
            old(self)@.wf(),
        ensures
            (final(self)@, v as int) == old(self)@.stepped(),
            final(self)@.wf(),
            -49147 <= v <= 49147,
    {
        proof {
            reveal(SsgState::stepped);
        }
        let t: u32 = self.tick_frac + SSG_TICKS_PER_SAMPLE_Q16;
        self.tick_frac = t % 0x1_0000;
        let ticks: u32 = t / 0x1_0000;
        let ghost s1 = self@;
        let mut k: u32 = 0;
        while k < ticks
            invariant
                k <= ticks,
                self@.wf(),
                same(self@, s1.ticks(k as int)),
            decreases ticks - k,
        {
            self.clock_tick();
            k = k + 1;
        }
        let ghost s2 = self@;
        let env_vol: u32 = self.envelope_volume();
        proof {
            Self::settling_keeps_the_mix(s2, 3);
        }
        let acc: i32 = self.mixed(env_vol);
        let x: i64 = acc as i64 * 0x1_0000;
        let error: i64 = x - self.dc_estimator_q16;
        proof {
            crate::bits::followed(error);
            crate::bits::floor_by_shift((error * HP_ALPHA_Q16) as i64);
        }
        self.dc_estimator_q16 = self.dc_estimator_q16 + ((error * HP_ALPHA_Q16) >> 16);
        proof {
            crate::bits::floor_by_shift((x - self.dc_estimator_q16) as i64);
        }
        ((x - self.dc_estimator_q16) >> 16) as i32
    }

    proof fn settling_keeps_the_mix(s: SsgState, n: int)
        ensures
            s.env_settled().env_volume() == s.env_volume(),
            s.env_settled().mix(n) == s.mix(n),
        decreases n,
    {
        if n > 0 {
            Self::settling_keeps_the_mix(s, n - 1);
        }
    }
}

/// A period of zero ticks like a period of one.
pub proof fn zero_period_is_one(count: u32, state: u8)
    ensures
        tone_after(count, state, 0) == tone_after(count, state, 1),
{
}

/// After a reset, and as long as nothing is written, there is no sound.
pub proof fn reset_is_silent(s: SsgState)
    requires
        s.wf(),
        s.vol =~= seq![0u8, 0, 0],
        s.dc == 0,
    ensures
        s.stepped().1 == 0,
        s.stepped().0.vol == s.vol,
        s.stepped().0.dc == 0,
{
    reveal(SsgState::stepped);
    let t = s.tick_frac + SSG_TICKS_PER_SAMPLE_Q16;
    let s1 = SsgState { tick_frac: (t % 0x1_0000) as u32, ..s };
    ticks_keep_settings(s1, t / 0x1_0000);
    let s2 = s1.ticks(t / 0x1_0000);
    reveal(amplitude_of);
    assert(amplitude_of(0) == 0);
    reveal_with_fuel(SsgState::mix, 4);
    assert(s2.mix(3) == 0);
}

/// Ticking changes neither the volumes nor the mean level.
pub proof fn ticks_keep_settings(s: SsgState, n: int)
    ensures
        s.ticks(n).vol == s.vol,
        s.ticks(n).dc == s.dc,
        s.ticks(n).mixer == s.mixer,
        s.ticks(n).tone_period == s.tone_period,
    decreases n,
{
    if n > 0 {
        ticks_keep_settings(s, n - 1);
    }
}

}
