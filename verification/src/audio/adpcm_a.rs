//! ADPCM-A: six channels of four-bit samples with a twelve-bit accumulator.
use vstd::prelude::*;

verus! {

/// Step sizes: sixteen times powers of 1.1, rounded.
pub const ADPCMA_STEPS: [i32; 49] = [
    16, 17, 19, 21, 23, 25, 28, 31, 34, 37, 41, 45, 50, 55, 60, 66, 73, 80, 88, 97, 107, 118, 130,
    143, 157, 173, 190, 209, 230, 253, 279, 307, 337, 371, 408, 449, 494, 544, 598, 658, 724, 796,
    876, 963, 1060, 1166, 1282, 1411, 1552,
];

/// How the step moves after each of the eight sample magnitudes, in units of a
/// sixteenth of a step.
pub const ADPCMA_STEP_INC: [i32; 8] = [-16, -16, -16, -16, 32, 80, 112, 144];

/// The change that sample `nib` makes at step number `k`: an odd number of
/// eighths of the step size, negative if the top bit is set.
pub open spec fn jedi_of(k: int, nib: int) -> int {
    let size = ((2 * (nib % 8) + 1) * ADPCMA_STEPS@[k]) / 8;
    if nib >= 8 {
        -size
    } else {
        size
    }
}

pub fn jedi(k: usize, nib: u8) -> (delta: i32)
    requires
        k < 49,
        nib < 16,
    ensures
        delta == jedi_of(k as int, nib as int),
        -3000 <= delta <= 3000,
{
    let steps: [i32; 49] = ADPCMA_STEPS;
    let s: i32 = steps[k];
    assert(16 <= s <= 1552);
    let odd: i32 = 2 * (nib % 8) as i32 + 1;
    assert(16 <= odd * s <= 23280) by (nonlinear_arith)
        requires
            1 <= odd <= 15,
            16 <= s <= 1552,
    ;
    let size: i32 = ((odd * s) as u32 / 8) as i32;
    if nib >= 8 {
        -size
    } else {
        size
    }
}

/// The low twelve bits of `acc` as a signed number.
pub open spec fn signed12(acc: i32) -> int {
    let u = acc & 0xFFF;
    if u >= 2048 {
        u - 4096
    } else {
        u as int
    }
}

fn to_signed12(acc: i32) -> (r: i32)
    ensures
        r == signed12(acc),
        -2048 <= r < 2048,
{
    proof {
        crate::bits::low12(acc);
    }
    let u: i32 = acc & 0xFFF;
    if u >= 2048 {
        u - 4096
    } else {
        u
    }
}

/// The level that the converter holds: the accumulator in the top of sixteen
/// bits, multiplied and shifted down, with the low two bits cut off.
pub open spec fn held_level(acc: i32, mul: i32, shift: i32) -> i32 {
    (((16 * signed12(acc) * mul) as i32) >> (shift as u32)) & !3
}

fn compute_held_level(acc: i32, mul: i32, shift: i32) -> (r: i32)
    requires
        0 <= mul <= 15,
        0 <= shift <= 12,
    ensures
        r == held_level(acc, mul, shift),
        -0x8_0000 <= r <= 0x8_0000,
{
    let s: i32 = 16 * to_signed12(acc);
    assert(-491520 <= s * mul <= 491520) by (nonlinear_arith)
        requires
            -32768 <= s <= 32752,
            0 <= mul <= 15,
    ;
    let x: i32 = s * mul;
    proof {
        crate::bits::shifted_level(x, shift as u32);
    }
    (x >> (shift as u32)) & !3
}

/// One channel.
#[derive(Debug, Clone, Copy)]
pub struct AdpcmAChan {
    /// Playing.
    pub on: bool,
    /// Channel attenuation, 0 is loudest.
    pub il: u8,
    /// Bit 7 is left, bit 6 right.
    pub pan: u8,
    /// First byte.
    pub start: u32,
    /// Last byte.
    pub end: u32,
    /// The next sample, in half bytes.
    pub addr_nib: u32,
    /// The byte last fetched.
    pub cur_byte: u8,
    pub acc: i32,
    /// Sixteen times the step number.
    pub step: i32,
    /// The level held until the next sample.
    pub adpcm_out: i32,
    pub vol_mul: i32,
    pub vol_shift: i32,
}

/// The multiplier and the shift of an attenuation; 63 and up is silence.
pub open spec fn volume_scale(volume: int) -> (i32, i32) {
    if volume >= 63 {
        (0, 0)
    } else {
        ((15 - volume % 8) as i32, (5 + volume / 8) as i32)
    }
}

/// The byte at `addr`; zero past the end of the ROM.
pub open spec fn rom_byte(rom: Seq<u8>, addr: int) -> u8 {
    if addr < rom.len() {
        rom[addr]
    } else {
        0
    }
}

/// The address after the last byte, compared in twenty bits of bytes.
pub open spec fn at_end(addr_nib: u32, end: u32) -> bool {
    addr_nib as int % 0x20_0000 == (2 * (end + 1)) % 0x20_0000
}

impl AdpcmAChan {
    pub open spec fn wf(self) -> bool {
        &&& self.start < 0x100_0000
        &&& self.end < 0x100_0000
        &&& 0 <= self.step <= 768
        &&& self.step % 16 == 0
        &&& 0 <= self.vol_mul <= 15
        &&& 0 <= self.vol_shift <= 12
        &&& -0x8_0000 <= self.adpcm_out <= 0x8_0000
    }

    /// A channel at reset: loudest, on both sides.
    pub open spec fn at_reset() -> AdpcmAChan {
        AdpcmAChan {
            on: false,
            il: 0,
            pan: 0xC0,
            start: 0,
            end: 0,
            addr_nib: 0,
            cur_byte: 0,
            acc: 0,
            step: 0,
            adpcm_out: 0,
            vol_mul: 15,
            vol_shift: 5,
        }
    }

    pub fn new() -> (c: AdpcmAChan)
        ensures
            c == AdpcmAChan::at_reset(),
            c.wf(),
    {
        AdpcmAChan {
            on: false,
            il: 0,
            pan: 0xC0,
            start: 0,
            end: 0,
            addr_nib: 0,
            cur_byte: 0,
            acc: 0,
            step: 0,
            adpcm_out: 0,
            vol_mul: 15,
            vol_shift: 5,
        }
    }

    pub open spec fn keyed_on(self) -> AdpcmAChan {
        AdpcmAChan {
            on: true,
            addr_nib: (2 * self.start) as u32,
            acc: 0,
            step: 0,
            cur_byte: 0,
            adpcm_out: 0,
            ..self
        }
    }

    /// Play from the start.
    pub fn key_on(&mut self)
        requires
            old(self).wf(),
        ensures
            *final(self) == old(self).keyed_on(),
            final(self).wf(),
    {
        self.on = true;
        self.addr_nib = self.start * 2;
        self.acc = 0;
        self.step = 0;
        self.cur_byte = 0;
        self.adpcm_out = 0;
    }

    pub open spec fn keyed_off(self) -> AdpcmAChan {
        AdpcmAChan { on: false, acc: 0, adpcm_out: 0, ..self }
    }

    /// Fall silent.
    pub fn key_off(&mut self)
        ensures
            *final(self) == old(self).keyed_off(),
    {
        self.on = false;
        self.acc = 0;
        self.adpcm_out = 0;
    }

    /// The channel with its volume derived anew from its own attenuation and
    /// the master's, and the held level with it.
    pub open spec fn refreshed(self, master_tl: u8) -> AdpcmAChan {
        let (mul, shift) = volume_scale(self.il + master_tl);
        AdpcmAChan {
            vol_mul: mul,
            vol_shift: shift,
            adpcm_out: if !self.on || mul == 0 { 0 } else { held_level(self.acc, mul, shift) },
            ..self
        }
    }

    /// The volume is the one that the attenuations give, and so is the held level:
    /// deriving them anew would change nothing.
    pub open spec fn settled(self, master_tl: u8) -> bool {
        self.refreshed(master_tl) == self
    }

    pub fn refresh_volume(&mut self, master_tl: u8)
        ensures
            *final(self) == old(self).refreshed(master_tl),
            old(self).wf() ==> final(self).wf(),
    {
        let volume: u32 = self.il as u32 + master_tl as u32;
        if volume >= 63 {
            self.vol_mul = 0;
            self.vol_shift = 0;
        } else {
            self.vol_mul = 15 - (volume % 8) as i32;
            self.vol_shift = 5 + (volume / 8) as i32;
        }
        self.adpcm_out = if !self.on || self.vol_mul == 0 {
            0
        } else {
            compute_held_level(self.acc, self.vol_mul, self.vol_shift)
        };
    }

    /// The channel after sample `nib` is taken: accumulator modulo 4096, step
    /// kept between the smallest and the largest.
    pub open spec fn decoded(self, nib: int) -> AdpcmAChan {
        let acc = self.acc.wrapping_add(jedi_of(self.step as int / 16, nib) as i32) & 0xFFF;
        let moved = self.step + ADPCMA_STEP_INC@[nib % 8];
        let step = if moved > 768 {
            768
        } else if moved < 0 {
            0
        } else {
            moved
        };
        AdpcmAChan {
            addr_nib: self.addr_nib.wrapping_add(1),
            acc,
            step: step as i32,
            adpcm_out: if self.vol_mul == 0 {
                0
            } else {
                held_level(acc, self.vol_mul, self.vol_shift)
            },
            ..self
        }
    }

    /// The channel after one sample period, and the accumulator as a signed
    /// number. A byte is fetched for every other sample; the end is noticed
    /// there and silences the channel.
    pub open spec fn stepped(self, rom: Seq<u8>) -> (AdpcmAChan, int) {
        if !self.on {
            (AdpcmAChan { acc: 0, ..self }, 0)
        } else if self.addr_nib % 2 == 0 && at_end(self.addr_nib, self.end) {
            (AdpcmAChan { on: false, acc: 0, adpcm_out: 0, ..self }, 0)
        } else {
            let fetched = if self.addr_nib % 2 == 0 {
                AdpcmAChan { cur_byte: rom_byte(rom, self.addr_nib as int / 2), ..self }
            } else {
                self
            };
            let nib = if self.addr_nib % 2 == 0 {
                fetched.cur_byte as int / 16
            } else {
                fetched.cur_byte as int % 16
            };
            let next = fetched.decoded(nib);
            (next, signed12(next.acc))
        }
    }

    pub fn step_nibble(&mut self, rom: &[u8]) -> (sample: i32)
        requires
            old(self).wf(),
        ensures
            (*final(self), sample as int) == old(self).stepped(rom@),
            final(self).wf(),
    {
        if !self.on {
            self.acc = 0;
            return 0;
        }
        let nib: u8;
        if self.addr_nib % 2 == 0 {
            let end_nib: u32 = 2 * (self.end + 1);
            if self.addr_nib % 0x20_0000 == end_nib % 0x20_0000 {
                self.on = false;
                self.acc = 0;
                self.adpcm_out = 0;
                return 0;
            }
            let addr: usize = (self.addr_nib / 2) as usize;
            self.cur_byte = if addr < rom.len() {
                rom[addr]
            } else {
                0
            };
            nib = self.cur_byte / 16;
        } else {
            nib = self.cur_byte % 16;
        }
        self.addr_nib = self.addr_nib.wrapping_add(1);
        let delta: i32 = jedi((self.step as u32 / 16) as usize, nib);
        self.acc = self.acc.wrapping_add(delta) & 0xFFF;
        let incs: [i32; 8] = ADPCMA_STEP_INC;
        let moved: i32 = self.step + incs[(nib % 8) as usize];
        self.step = if moved > 768 {
            768
        } else if moved < 0 {
            0
        } else {
            moved
        };
        self.adpcm_out = if self.vol_mul == 0 {
            0
        } else {
            compute_held_level(self.acc, self.vol_mul, self.vol_shift)
        };
        to_signed12(self.acc)
    }
}

/// The channels after one output sample: on every third they advance.
pub open spec fn channels_after(chans: Seq<AdpcmAChan>, rom: Seq<u8>, advance: bool) -> Seq<
    AdpcmAChan,
> {
    Seq::new(
        chans.len(),
        |i: int|
            if advance {
                chans[i].stepped(rom).0
            } else {
                chans[i]
            },
    )
}

/// The sum of the held levels of the first `n` channels on the side whose pan
/// bit is `side`.
pub open spec fn channels_side(chans: Seq<AdpcmAChan>, side: u8, n: int) -> int
    decreases n,
{
    if n <= 0 {
        0
    } else {
        channels_side(chans, side, n - 1) + if chans[n - 1].pan & side != 0 {
            chans[n - 1].adpcm_out as int
        } else {
            0
        }
    }
}

/// The end flags with one set for each of the first `n` channels that has
/// stopped by itself.
pub open spec fn ended_flags(
    before: Seq<AdpcmAChan>,
    after: Seq<AdpcmAChan>,
    flags: u8,
    n: int,
) -> u8
    decreases n,
{
    if n <= 0 {
        flags
    } else {
        let f = ended_flags(before, after, flags, n - 1);
        if before[n - 1].on && !after[n - 1].on {
            f | (1u8 << ((n - 1) as u32))
        } else {
            f
        }
    }
}

/// All channels are sound.
pub open spec fn channels_wf(chans: Seq<AdpcmAChan>) -> bool {
    chans.len() == 6 && forall|i: int| 0 <= i < 6 ==> (#[trigger] chans[i]).wf()
}

/// Left, right and the end flags after an output sample.
#[derive(Debug, Clone, Copy)]
pub struct AdpcmAOut {
    pub left: i32,
    pub right: i32,
    pub flags: u8,
}

/// Advance the channels and mix them.
pub fn mix_channels(chans: &mut [AdpcmAChan; 6], rom: &[u8], advance: bool, flags: u8) -> (out:
    AdpcmAOut)
    requires
        channels_wf(old(chans)@),
    ensures
        channels_wf(final(chans)@),
        final(chans)@ == channels_after(old(chans)@, rom@, advance),
        out.left == channels_side(final(chans)@, 0x80, 6),
        out.right == channels_side(final(chans)@, 0x40, 6),
        out.flags == ended_flags(old(chans)@, final(chans)@, flags, 6),
        -0x30_0000 <= out.left <= 0x30_0000,
        -0x30_0000 <= out.right <= 0x30_0000,
{
    let ghost before = chans@;
    let ghost after = channels_after(before, rom@, advance);
    let mut out: AdpcmAOut = AdpcmAOut { left: 0, right: 0, flags };
    let mut i: usize = 0;
    while i < 6
        invariant
            i <= 6,
            channels_wf(before),
            channels_wf(chans@),
            after == channels_after(before, rom@, advance),
            forall|j: int| 0 <= j < i ==> #[trigger] chans@[j] == after[j],
            forall|j: int| i <= j < 6 ==> #[trigger] chans@[j] == before[j],
            out.left == channels_side(after, 0x80, i as int),
            out.right == channels_side(after, 0x40, i as int),
            out.flags == ended_flags(before, after, flags, i as int),
            -0x8_0000 * i <= out.left <= 0x8_0000 * i,
            -0x8_0000 * i <= out.right <= 0x8_0000 * i,
        decreases 6 - i,
    {
        let mut c: AdpcmAChan = chans[i];
        assert(chans@[i as int].wf());
        let was_on: bool = c.on;
        if advance {
            let _ = c.step_nibble(rom);
        }
        assert(c == after[i as int]);
        if c.pan & 0x80 != 0 {
            out.left = out.left + c.adpcm_out;
        }
        if c.pan & 0x40 != 0 {
            out.right = out.right + c.adpcm_out;
        }
        if was_on && !c.on {
            out.flags = out.flags | (1u8 << (i as u32));
        }
        chans[i] = c;
        i = i + 1;
    }
    assert(chans@ =~= after);
    out
}

/// Whatever happens to a channel leaves its volume and its level what its
/// attenuations give.
pub proof fn channel_stays_settled(c: AdpcmAChan, master_tl: u8, rom: Seq<u8>)
    requires
        c.settled(master_tl),
    ensures
        c.keyed_on().settled(master_tl),
        c.keyed_off().settled(master_tl),
        c.stepped(rom).0.settled(master_tl),
        forall|nib: int| c.on ==> (#[trigger] c.decoded(nib)).settled(master_tl),
{
    crate::bits::low12(0);
    crate::bits::shifted_level(0, c.vol_shift as u32);
    let level = 16 * signed12(0);
    assert(level == 0);
    assert(level * c.vol_mul == 0) by (nonlinear_arith)
        requires
            level == 0,
    ;
}

/// An attenuation of 63 or more is silence.
pub proof fn loud_attenuation_is_silent(c: AdpcmAChan, master_tl: u8)
    requires
        c.il + master_tl >= 63,
    ensures
        c.refreshed(master_tl).adpcm_out == 0,
        c.refreshed(master_tl).vol_mul == 0,
{
}

}
