//! ADPCM-B, also called Delta-T: one channel of four-bit samples played at any
//! rate.
use vstd::prelude::*;
use crate::audio::adpcm_a::rom_byte;

verus! {

/// Step scale of each sample, in sixty-fourths.
pub const DELTAT_TABLE_B2: [i32; 16] = [
    57, 57, 57, 57, 77, 102, 128, 153, 57, 57, 57, 57, 77, 102, 128, 153,
];

/// Addresses have twenty-five bits, in half bytes.
pub const DELTAT_ADDR_MASK: u32 = 0x1FF_FFFF;

/// The channel.
#[derive(Debug, Clone, Copy)]
pub struct DeltaTChan {
    pub on: bool,
    pub volume: u8,
    /// Bit 7 is left, bit 6 right.
    pub pan: u8,
    /// Samples per output sample, in 65536ths.
    pub delta: u16,
    /// First byte.
    pub start: u32,
    /// Last byte.
    pub end: u32,
    /// Whether the output runs in straight lines between samples.
    pub interpolate: bool,
    /// Position between two samples, in 65536ths.
    pub now_step: u32,
    /// The byte being played, in half bytes.
    pub addr_nib: u32,
    pub cur_byte: u8,
    pub acc: i32,
    pub prev_acc: i32,
    /// The step size.
    pub adpcmd: i32,
    pub looped: bool,
    /// Which half of the byte comes next: 0 is the high one.
    pub curnibble: u8,
}

impl DeltaTChan {
    pub open spec fn wf(self) -> bool {
        &&& self.start < 0x100_0000
        &&& self.end < 0x100_0000
        &&& self.now_step < 0x1_0000
        &&& -32768 <= self.acc <= 32767
        &&& -32768 <= self.prev_acc <= 32767
        &&& 127 <= self.adpcmd <= 24576
        &&& self.curnibble <= 1
    }

    pub open spec fn at_reset() -> DeltaTChan {
        DeltaTChan {
            on: false,
            volume: 0,
            pan: 0,
            delta: 0,
            start: 0,
            end: 0,
            interpolate: true,
            now_step: 0,
            addr_nib: 0,
            cur_byte: 0,
            acc: 0,
            prev_acc: 0,
            adpcmd: 127,
            looped: false,
            curnibble: 0,
        }
    }

    pub fn new() -> (c: DeltaTChan)
        ensures
            c == DeltaTChan::at_reset(),
            c.wf(),
    {
        DeltaTChan {
            on: false,
            volume: 0,
            pan: 0,
            delta: 0,
            start: 0,
            end: 0,
            interpolate: true,
            now_step: 0,
            addr_nib: 0,
            cur_byte: 0,
            acc: 0,
            prev_acc: 0,
            adpcmd: 127,
            looped: false,
            curnibble: 0,
        }
    }

    pub open spec fn keyed_on(self) -> DeltaTChan {
        DeltaTChan {
            on: true,
            addr_nib: ((2 * self.start) % 0x200_0000) as u32,
            curnibble: 0,
            now_step: 0,
            acc: 0,
            prev_acc: 0,
            adpcmd: 127,
            cur_byte: 0,
            ..self
        }
    }

    /// Play from the start.
    pub fn key_on(&mut self)
        requires
            old(self).wf(),
        ensures
            *final(self) == old(self).keyed_on(),
            final(self).wf(),
    {
        self.on = true;
        self.addr_nib = (self.start * 2) % 0x200_0000;
        self.curnibble = 0;
        self.now_step = 0;
        self.acc = 0;
        self.prev_acc = 0;
        self.adpcmd = 127;
        self.cur_byte = 0;
    }

    pub open spec fn keyed_off(self) -> DeltaTChan {
        DeltaTChan { on: false, acc: 0, prev_acc: 0, ..self }
    }

    /// Fall silent.
    pub fn key_off(&mut self)
        ensures
            *final(self) == old(self).keyed_off(),
            old(self).wf() ==> final(self).wf(),
    {
        self.on = false;
        self.acc = 0;
        self.prev_acc = 0;
    }

    /// The output between the previous sample and the current one.
    pub open spec fn output(self) -> i32 {
        if self.interpolate {
            let mix = self.prev_acc * (0x1_0000 - self.now_step) + self.acc * self.now_step;
            ((mix as i64) >> 16) as i32
        } else {
            self.acc
        }
    }

    pub fn output_sample(&self) -> (v: i32)
        requires
            self.wf(),
        ensures
            v == self.output(),
            -32768 <= v <= 32767,
    {
        if self.interpolate {
            let p: i64 = self.prev_acc as i64;
            let a: i64 = self.acc as i64;
            let pos: i64 = self.now_step as i64;
            let inv: i64 = 0x1_0000 - pos;
            assert(-32768 * 0x1_0000 <= p * inv + a * pos <= 32767 * 0x1_0000) by (nonlinear_arith)
                requires
                    -32768 <= p <= 32767,
                    -32768 <= a <= 32767,
                    0 <= pos < 0x1_0000,
                    inv == 0x1_0000 - pos,
            ;
            assert(-32768 * 0x1_0000 <= p * inv <= 32767 * 0x1_0000) by (nonlinear_arith)
                requires
                    -32768 <= p <= 32767,
                    0 < inv <= 0x1_0000,
            ;
            assert(-32768 * 0x1_0000 <= a * pos <= 32767 * 0x1_0000) by (nonlinear_arith)
                requires
                    -32768 <= a <= 32767,
                    0 <= pos < 0x1_0000,
            ;
            let mix: i64 = p * inv + a * pos;
            proof {
                crate::bits::mix_bounds(mix);
            }
            (mix >> 16) as i32
        } else {
            self.acc
        }
    }

    /// The channel after sample `nib` is taken: the step times an odd number of
    /// eighths is added, within sixteen bits, and the step itself is scaled.
    pub open spec fn decoded(self, nib: int) -> DeltaTChan {
        let size = ((2 * (nib % 8) + 1) * self.adpcmd) / 8;
        let sum = if nib >= 8 {
            self.acc - size
        } else {
            self.acc + size
        };
        let scaled = (self.adpcmd * DELTAT_TABLE_B2@[nib]) / 64;
        DeltaTChan {
            prev_acc: self.acc,
            acc: (if sum < -32768 {
                -32768
            } else if sum > 32767 {
                32767
            } else {
                sum
            }) as i32,
            adpcmd: (if scaled < 127 {
                127
            } else if scaled > 24576 {
                24576
            } else {
                scaled
            }) as i32,
            ..self
        }
    }

    /// The channel after both halves of a byte are taken: at the last byte it
    /// goes back to the start or stops, else it goes on to the next.
    pub open spec fn advanced(self) -> DeltaTChan {
        if self.addr_nib / 2 != self.end {
            DeltaTChan {
                addr_nib: (self.addr_nib.wrapping_add(2) as int % 0x200_0000) as u32,
                ..self
            }
        } else if self.looped {
            DeltaTChan { addr_nib: ((2 * self.start) % 0x200_0000) as u32, ..self }
        } else {
            self.keyed_off()
        }
    }

    /// The channel after one output sample, and the output. A new sample is
    /// taken whenever the position passes a whole one.
    #[verifier::opaque]
    pub open spec fn stepped(self, rom: Seq<u8>) -> (DeltaTChan, i32) {
        let pos = self.now_step + self.delta;
        let c1 = DeltaTChan { now_step: (pos % 0x1_0000) as u32, ..self };
        if !self.on {
            (self, self.acc)
        } else if pos < 0x1_0000 {
            (c1, c1.output())
        } else {
            let c2 = if c1.curnibble == 0 {
                DeltaTChan { cur_byte: rom_byte(rom, c1.addr_nib as int / 2), ..c1 }
            } else {
                c1
            };
            let nib = if c1.curnibble == 0 {
                c2.cur_byte as int / 16
            } else {
                c2.cur_byte as int % 16
            };
            let c3 = DeltaTChan { curnibble: (1 - c2.curnibble) as u8, ..c2 };
            let c4 = if c3.curnibble == 0 {
                c3.advanced()
            } else {
                c3
            };
            if !c4.on {
                (c4, 0)
            } else {
                let c5 = c4.decoded(nib);
                (c5, c5.output())
            }
        }
    }

    fn decode(&mut self, nib: u8)
        requires
            old(self).wf(),
            nib < 16,
        ensures
            *final(self) == old(self).decoded(nib as int),
            final(self).wf(),
    {
        let odd: i32 = 2 * (nib % 8) as i32 + 1;
        let d: i32 = self.adpcmd;
        assert(0 <= odd * d <= 400000) by (nonlinear_arith)
            requires
                1 <= odd <= 15,
                127 <= d <= 24576,
        ;
        let size: i32 = ((odd * d) as u32 / 8) as i32;
        let sum: i32 = if nib >= 8 {
            self.acc - size
        } else {
            self.acc + size
        };
        let scales: [i32; 16] = DELTAT_TABLE_B2;
        let s: i32 = scales[nib as usize];
        assert(57 <= s <= 153);
        assert(0 <= d * s <= 4000000) by (nonlinear_arith)
            requires
                57 <= s <= 153,
                127 <= d <= 24576,
        ;
        let scaled: i32 = ((d * s) as u32 / 64) as i32;
        self.prev_acc = self.acc;
        self.acc = if sum < -32768 {
            -32768
        } else if sum > 32767 {
            32767
        } else {
            sum
        };
        self.adpcmd = if scaled < 127 {
            127
        } else if scaled > 24576 {
            24576
        } else {
            scaled
        };
    }

    fn advance(&mut self)
        requires
            old(self).wf(),
        ensures
            *final(self) == old(self).advanced(),
            final(self).wf(),
    {
        if self.addr_nib / 2 != self.end {
            self.addr_nib = self.addr_nib.wrapping_add(2) % 0x200_0000;
        } else if self.looped {
            self.addr_nib = (self.start * 2) % 0x200_0000;
        } else {
            self.key_off();
        }
    }

    pub fn step_one(&mut self, rom: &[u8]) -> (v: i32)
        requires
            old(self).wf(),
        ensures
            (*final(self), v) == old(self).stepped(rom@),
            final(self).wf(),
            -32768 <= v <= 32767,
    {
        proof {
            reveal(DeltaTChan::stepped);
        }
        if !self.on {
            return self.acc;
        }
        let pos: u32 = self.now_step + self.delta as u32;
        self.now_step = pos % 0x1_0000;
        if pos < 0x1_0000 {
            return self.output_sample();
        }
        if self.curnibble == 0 {
            let addr: usize = (self.addr_nib / 2) as usize;
            self.cur_byte = if addr < rom.len() {
                rom[addr]
            } else {
                0
            };
        }
        let nib: u8 = if self.curnibble == 0 {
            self.cur_byte / 16
        } else {
            self.cur_byte % 16
        };
        self.curnibble = 1 - self.curnibble;
        if self.curnibble == 0 {
            self.advance();
            if !self.on {
                return 0;
            }
        }
        self.decode(nib);
        self.output_sample()
    }
}

/// The output lies between the two samples it runs from and to.
pub proof fn output_is_between(c: DeltaTChan)
    requires
        c.wf(),
        c.interpolate,
        c.prev_acc <= c.acc,
    ensures
        c.prev_acc <= c.output() <= c.acc,
{
    let p = c.prev_acc as int;
    let a = c.acc as int;
    let pos = c.now_step as int;
    let inv = 0x1_0000 - pos;
    let mix = p * inv + a * pos;
    assert(p * 0x1_0000 <= mix <= a * 0x1_0000) by (nonlinear_arith)
        requires
            p <= a,
            0 <= pos < 0x1_0000,
            inv == 0x1_0000 - pos,
            mix == p * inv + a * pos,
    ;
    crate::bits::mix_bounds(mix as i64);
}

/// The byte address stays within its twenty-five bits.
pub proof fn address_wraps(c: DeltaTChan)
    requires
        c.addr_nib < 0x200_0000,
    ensures
        c.advanced().addr_nib < 0x200_0000,
{
}

}
