//! The YM2610: FM, square waves, two kinds of samples, and two timers.
use vstd::prelude::*;
use crate::audio::adpcm_a::{
    channel_stays_settled, channels_after, channels_side, channels_wf, ended_flags, mix_channels,
    AdpcmAChan, AdpcmAOut,
};
use crate::audio::adpcm_b::DeltaTChan;
use crate::audio::counters::{
    bump, bump_four, bump_six, bump_total, bumped, bumped_all, bumped_each, Counters, CountersState,
};
use crate::audio::fm::{FmOpn, FmState};
use crate::audio::ssg::{Ssg, SsgState};
use crate::audio::vrom::{memories, split_v_roms};
use crate::bits::same;

verus! {

/// How long the chip is busy after a data write, in cycles of the sound
/// processor.
pub const YM2610_BUSY_Z80_CYCLES: u32 = 96;

/// The chip.
pub struct Ym2610 {
    /// What was last written to each register of the two banks.
    pub regs_a: [u8; 256],
    pub regs_b: [u8; 256],
    pub addr_a: u8,
    pub addr_b: u8,
    /// Bit 0 is timer A, bit 1 timer B.
    pub status_a: u8,
    pub busy_z80_cycles: u32,
    pub adpcm_a: [AdpcmAChan; 6],
    pub adpcm_b: DeltaTChan,
    pub ssg: Ssg,
    pub irq_out: bool,
    /// Bit 2 lets timer A raise its flag, bit 3 timer B.
    pub irq_enable: u8,
    pub timer_a_period: u32,
    pub timer_b_period: u32,
    pub timer_a_enabled: bool,
    pub timer_b_enabled: bool,
    /// Samples until each timer runs out.
    pub timer_a_count: i32,
    pub timer_b_count: i32,
    /// One bit for each ADPCM-A channel that has played to its end.
    pub adpcm_a_end_flags: u8,
    /// Attenuation of all ADPCM-A channels, 0 is loudest.
    pub adpcma_tl: u8,
    pub fm: FmOpn,
    pub dbg: Counters,
    /// Samples since the ADPCM-A channels last advanced.
    pub adpcm_a_frac: u32,
    pub adpcm_a_rom: Vec<u8>,
    pub adpcm_b_rom: Vec<u8>,
}

/// What the chip holds.
#[verifier::ext_equal]
pub ghost struct YmState {
    pub regs_a: Seq<u8>,
    pub regs_b: Seq<u8>,
    pub addr_a: u8,
    pub addr_b: u8,
    pub status: u8,
    pub busy: u32,
    pub a: Seq<AdpcmAChan>,
    pub b: DeltaTChan,
    pub ssg: SsgState,
    pub irq_out: bool,
    pub irq_enable: u8,
    pub ta_period: u32,
    pub tb_period: u32,
    pub ta_on: bool,
    pub tb_on: bool,
    pub ta_count: i32,
    pub tb_count: i32,
    pub end_flags: u8,
    pub tl: u8,
    pub fm: FmState,
    pub dbg: CountersState,
    pub frac: u32,
    pub a_rom: Seq<u8>,
    pub b_rom: Seq<u8>,
}

/// The levels of a sample: the two sides of samples and FM, and the square
/// waves.
#[derive(Debug, Clone, Copy)]
pub struct Levels {
    pub left: i32,
    pub right: i32,
    pub square: i32,
}

/// Samples in a period of timer A.
pub open spec fn timer_a_span(period: u32) -> int {
    1024 - period
}

/// Samples in a period of timer B.
pub open spec fn timer_b_span(period: u32) -> int {
    16 * (256 - period)
}

/// The quotient of a product by 100, towards zero.
pub open spec fn percent(x: int, p: int) -> int {
    if x >= 0 {
        (x * p) / 100
    } else {
        -((-x * p) / 100)
    }
}

/// A level within sixteen bits.
pub open spec fn clip16(v: int) -> i16 {
    (if v < -32768 {
        -32768
    } else if v > 32767 {
        32767
    } else {
        v
    }) as i16
}

/// Which of six channels a mask names.
pub open spec fn masked(mask: u8) -> Seq<bool> {
    Seq::new(6, |i: int| (mask >> (i as u32)) & 1 == 1)
}

fn mask_bits(mask: u8) -> (r: [bool; 6])
    ensures
        r@ == masked(mask),
{
    [
        (mask >> 0u32) & 1 == 1,
        (mask >> 1u32) & 1 == 1,
        (mask >> 2u32) & 1 == 1,
        (mask >> 3u32) & 1 == 1,
        (mask >> 4u32) & 1 == 1,
        (mask >> 5u32) & 1 == 1,
    ]
}

/// The byte address of a page number in two registers.
pub open spec fn page(hi: u8, lo: u8) -> u32 {
    (0x1_0000 * hi + 0x100 * lo) as u32
}

fn page_address(hi: u8, lo: u8) -> (r: u32)
    ensures
        r == page(hi, lo),
        r <= 0xFF_FF00,
{
    0x1_0000 * hi as u32 + 0x100 * lo as u32
}

impl YmState {
    pub open spec fn wf(self) -> bool {
        &&& self.regs_a.len() == 256
        &&& self.regs_b.len() == 256
        &&& channels_wf(self.a)
        &&& forall|i: int| 0 <= i < 6 ==> (#[trigger] self.a[i]).settled(self.tl)
        &&& self.b.wf()
        &&& self.ssg.wf()
        &&& self.fm.wf()
        &&& self.ta_period <= 1023
        &&& self.tb_period <= 255
        &&& 0 <= self.ta_count <= 1024
        &&& 0 <= self.tb_count <= 4096
        &&& self.frac < 3
    }

    pub open spec fn at_reset() -> YmState {
        YmState {
            regs_a: Seq::new(256, |i: int| 0u8),
            regs_b: Seq::new(256, |i: int| 0u8),
            addr_a: 0,
            addr_b: 0,
            status: 0,
            busy: 0,
            a: Seq::new(6, |i: int| AdpcmAChan::at_reset()),
            b: DeltaTChan::at_reset(),
            ssg: SsgState::at_reset(),
            irq_out: false,
            irq_enable: 0,
            ta_period: 0,
            tb_period: 0,
            ta_on: false,
            tb_on: false,
            ta_count: 0,
            tb_count: 0,
            end_flags: 0,
            tl: 0,
            fm: FmState::at_reset(),
            dbg: CountersState::zero(),
            frac: 0,
            a_rom: seq![],
            b_rom: seq![],
        }
    }

    /// The status as a reader sees it: bit 7 is set while the chip is busy.
    pub open spec fn status_seen(self) -> u8 {
        if self.busy != 0 {
            self.status | 0x80
        } else {
            self.status
        }
    }

    /// What a read of a port gives.
    pub open spec fn port_value(self, port: u8) -> u8 {
        if port % 4 == 0 {
            self.status_seen()
        } else if port % 4 == 1 {
            self.regs_a[self.addr_a as int % 16]
        } else if port % 4 == 2 {
            self.end_flags
        } else {
            0
        }
    }

    /// Reads of the status are counted.
    pub open spec fn port_read(self, port: u8) -> YmState {
        if port % 4 == 0 {
            YmState {
                dbg: CountersState {
                    status_read_total: self.dbg.status_read_total.wrapping_add(1),
                    status_read_nonzero: bumped(
                        self.dbg.status_read_nonzero,
                        self.status_seen() != 0,
                    ),
                    ..self.dbg
                },
                ..self
            }
        } else {
            self
        }
    }

    /// Writes to the registers of ADPCM-B.
    pub open spec fn delta_t_written(self, addr: u8, val: u8) -> YmState {
        if addr == 0x10 {
            let b1 = if val % 2 == 1 {
                self.b.keyed_off()
            } else {
                self.b
            };
            if val >= 0x80 {
                YmState {
                    b: (DeltaTChan { looped: (val / 16) % 2 == 1, ..b1 }).keyed_on(),
                    dbg: CountersState {
                        adpcmb_keyon: self.dbg.adpcmb_keyon.wrapping_add(1),
                        ..self.dbg
                    },
                    ..self
                }
            } else {
                YmState { b: b1, ..self }
            }
        } else if addr == 0x11 {
            YmState { b: DeltaTChan { pan: val & 0xC0, ..self.b }, ..self }
        } else if addr == 0x12 || addr == 0x13 {
            YmState {
                b: DeltaTChan { start: page(self.regs_a[0x13], self.regs_a[0x12]), ..self.b },
                ..self
            }
        } else if addr == 0x14 || addr == 0x15 {
            YmState {
                b: DeltaTChan {
                    end: (page(self.regs_a[0x15], self.regs_a[0x14]) + 0xFF) as u32,
                    ..self.b
                },
                ..self
            }
        } else if addr == 0x19 || addr == 0x1A {
            YmState {
                b: DeltaTChan {
                    delta: (self.regs_a[0x19] + 256 * self.regs_a[0x1A]) as u16,
                    ..self.b
                },
                ..self
            }
        } else if addr == 0x1B {
            YmState { b: DeltaTChan { volume: val, ..self.b }, ..self }
        } else {
            self
        }
    }

    /// The timer control register: bits 4 and 5 take the flags back, bits 0 and
    /// 1 run the timers, which load when they start, bits 2 and 3 let them raise
    /// their flags.
    pub open spec fn mode_written(self, val: u8) -> YmState {
        let run_a = val % 2 == 1;
        let run_b = (val / 2) % 2 == 1;
        let status1 = if (val / 16) % 2 == 1 {
            self.status & !1u8
        } else {
            self.status
        };
        YmState {
            status: if (val / 32) % 2 == 1 {
                status1 & !2u8
            } else {
                status1
            },
            ta_on: run_a,
            tb_on: run_b,
            ta_count: if run_a && !self.ta_on {
                timer_a_span(self.ta_period) as i32
            } else {
                self.ta_count
            },
            tb_count: if run_b && !self.tb_on {
                timer_b_span(self.tb_period) as i32
            } else {
                self.tb_count
            },
            irq_enable: val & 0x0C,
            fm: self.fm.mode_written(val),
            ..self
        }
    }

    /// The FM key register: three channels of either bank, and a mask of
    /// operators.
    pub open spec fn fm_keyed(self, val: u8) -> YmState {
        if val % 4 == 3 {
            self
        } else {
            let c = val as int % 4 + if (val / 4) % 2 == 1 {
                3int
            } else {
                0
            };
            let mask = val / 16;
            let dbg = if mask != 0 {
                CountersState {
                    fm_keyon: self.dbg.fm_keyon.wrapping_add(1),
                    fm_keyon_ch: bumped_each(
                        self.dbg.fm_keyon_ch,
                        seq![c == 1, c == 2, c == 4, c == 5],
                    ),
                    ..self.dbg
                }
            } else {
                self.dbg
            };
            YmState { fm: self.fm.keyed(c, mask), dbg, ..self }
        }
    }

    /// Writes to the timers and the FM mode.
    pub open spec fn control_written(self, addr: u8, val: u8) -> YmState {
        if addr == 0x22 {
            YmState { fm: FmState { lfo: self.fm.lfo.written(val), ..self.fm }, ..self }
        } else if addr == 0x24 || addr == 0x25 {
            YmState {
                ta_period: (4 * self.regs_a[0x24] + self.regs_a[0x25] % 4) as u32,
                ..self
            }
        } else if addr == 0x26 {
            YmState { tb_period: self.regs_a[0x26] as u32, ..self }
        } else if addr == 0x27 {
            self.mode_written(val)
        } else if addr == 0x28 {
            self.fm_keyed(val)
        } else {
            self
        }
    }

    /// A write to the first bank: square waves, ADPCM-B, timers and control, FM.
    pub open spec fn written_a(self, addr: u8, val: u8) -> YmState {
        let s = YmState { regs_a: self.regs_a.update(addr as int, val), ..self };
        if addr < 0x10 {
            YmState { ssg: s.ssg.written(addr, val), ..s }
        } else if addr < 0x20 {
            s.delta_t_written(addr, val)
        } else if addr < 0x30 {
            s.control_written(addr, val)
        } else {
            YmState { fm: s.fm.written(addr, val, false), ..s }
        }
    }

    /// The ADPCM-A key register: bit 7 lets go, else the channels are pressed.
    pub open spec fn a_keyed(self, val: u8) -> YmState {
        let m = masked(val);
        if val >= 0x80 {
            YmState {
                a: Seq::new(
                    6,
                    |i: int|
                        if m[i] {
                            self.a[i].keyed_off()
                        } else {
                            self.a[i]
                        },
                ),
                ..self
            }
        } else {
            YmState {
                a: Seq::new(
                    6,
                    |i: int|
                        if m[i] {
                            self.a[i].keyed_on()
                        } else {
                            self.a[i]
                        },
                ),
                dbg: CountersState {
                    adpcma_keyon: bumped_all(self.dbg.adpcma_keyon, m, 6),
                    adpcma_keyon_ch: bumped_each(self.dbg.adpcma_keyon_ch, m),
                    ..self.dbg
                },
                ..self
            }
        }
    }

    pub open spec fn with_a(self, i: int, c: AdpcmAChan) -> YmState {
        YmState { a: self.a.update(i, c), ..self }
    }

    /// A write to the ADPCM-A registers: keys, master level, then for each
    /// channel level and pan, start page and end page.
    pub open spec fn adpcm_a_written(self, addr: u8, val: u8) -> YmState {
        let i = addr as int % 8;
        let c = self.a[i];
        if addr == 0 {
            self.a_keyed(val)
        } else if addr == 1 {
            let tl = (63 - val % 64) as u8;
            YmState { tl, a: Seq::new(6, |j: int| self.a[j].refreshed(tl)), ..self }
        } else if i >= 6 {
            self
        } else if addr / 8 == 1 {
            self.with_a(
                i,
                (AdpcmAChan {
                    il: (31 - val % 32) as u8,
                    pan: val & 0xC0,
                    ..c
                }).refreshed(self.tl),
            )
        } else if addr / 8 == 2 || addr / 8 == 3 {
            self.with_a(
                i,
                AdpcmAChan { start: page(self.regs_b[0x18 + i], self.regs_b[0x10 + i]), ..c },
            )
        } else if addr / 8 == 4 || addr / 8 == 5 {
            self.with_a(
                i,
                AdpcmAChan {
                    end: (page(self.regs_b[0x28 + i], self.regs_b[0x20 + i]) + 0xFF) as u32,
                    ..c
                },
            )
        } else {
            self
        }
    }

    /// A write to the second bank: ADPCM-A, then FM.
    pub open spec fn written_b(self, addr: u8, val: u8) -> YmState {
        let s = YmState { regs_b: self.regs_b.update(addr as int, val), ..self };
        if addr < 0x30 {
            s.adpcm_a_written(addr, val)
        } else {
            YmState { fm: s.fm.written(addr, val, true), ..s }
        }
    }

    /// A write to a port: two pairs of address and data. Data keep the chip
    /// busy.
    pub open spec fn port_written(self, port: u8, val: u8) -> YmState {
        if port % 4 == 0 {
            YmState { addr_a: val, ..self }
        } else if port % 4 == 1 {
            YmState { busy: YM2610_BUSY_Z80_CYCLES, ..self.written_a(self.addr_a, val) }
        } else if port % 4 == 2 {
            YmState { addr_b: val, ..self }
        } else {
            YmState { busy: YM2610_BUSY_Z80_CYCLES, ..self.written_b(self.addr_b, val) }
        }
    }

    /// Time passes for the busy flag.
    pub open spec fn elapsed(self, cycles: u32) -> YmState {
        YmState {
            busy: (if self.busy > cycles {
                self.busy - cycles
            } else {
                0
            }) as u32,
            ..self
        }
    }

    /// Whether timer A runs out with this sample.
    pub open spec fn ta_out(self) -> bool {
        self.ta_on && self.ta_count <= 1
    }

    pub open spec fn tb_out(self) -> bool {
        self.tb_on && self.tb_count <= 1
    }

    /// Whether timer A raises its flag with this sample.
    pub open spec fn ta_raised(self) -> bool {
        self.ta_out() && self.irq_enable & 4 != 0 && self.status & 1 == 0
    }

    pub open spec fn tb_raised(self, status: u8) -> bool {
        self.tb_out() && self.irq_enable & 8 != 0 && status & 2 == 0
    }

    /// The timers one sample later: at zero they reload and raise their flags.
    pub open spec fn timers_ticked(self) -> YmState {
        let status1 = if self.ta_raised() {
            self.status | 1
        } else {
            self.status
        };
        let raised = self.ta_raised() || self.tb_raised(status1);
        YmState {
            ta_count: (if self.ta_out() {
                self.ta_count - 1 + timer_a_span(self.ta_period)
            } else if self.ta_on {
                self.ta_count - 1
            } else {
                self.ta_count as int
            }) as i32,
            tb_count: (if self.tb_out() {
                self.tb_count - 1 + timer_b_span(self.tb_period)
            } else if self.tb_on {
                self.tb_count - 1
            } else {
                self.tb_count as int
            }) as i32,
            status: if self.tb_raised(status1) {
                status1 | 2
            } else {
                status1
            },
            irq_out: self.irq_out || raised,
            dbg: CountersState {
                timer_flag_set: bumped(self.dbg.timer_flag_set, raised),
                ..self.dbg
            },
            ..self
        }
    }

    /// Whether the ADPCM-A channels advance with this sample: on every third.
    pub open spec fn a_due(self) -> bool {
        self.frac + 1 >= 3
    }

    /// The ADPCM-A channels one sample later.
    pub open spec fn a_next(self) -> Seq<AdpcmAChan> {
        channels_after(self.a, self.a_rom, self.a_due())
    }

    /// What ADPCM-B adds: its level times its volume, in 512ths.
    pub open spec fn b_level(self) -> i32 {
        ((self.b.stepped(self.b_rom).1 * self.b.stepped(self.b_rom).0.volume) as i32) >> 9
    }

    /// The sum of samples and FM on one side.
    pub open spec fn digital(self, side: u8, fm: int) -> int {
        channels_side(self.a_next(), side, 6) + (if self.b.stepped(self.b_rom).0.pan & side != 0 {
            self.b_level() as int
        } else {
            0
        }) + fm
    }

    /// Everything that sounds one sample later.
    pub open spec fn voices_stepped(self) -> YmState {
        let s = self;
        let heard = Seq::new(6, |i: int| s.a_next()[i].adpcm_out != 0);
        let fm = s.fm.sample();
        YmState {
            frac: if s.a_due() {
                0
            } else {
                (s.frac + 1) as u32
            },
            a: s.a_next(),
            end_flags: ended_flags(s.a, s.a_next(), s.end_flags, 6),
            b: s.b.stepped(s.b_rom).0,
            fm: s.fm.stepped(),
            ssg: s.ssg.stepped().0,
            dbg: CountersState {
                adpcma_nz: bumped_all(s.dbg.adpcma_nz, heard, 6),
                adpcma_nz_ch: bumped_each(s.dbg.adpcma_nz_ch, heard),
                adpcmb_nz: bumped(s.dbg.adpcmb_nz, s.b_level() != 0),
                fm_nz: bumped(s.dbg.fm_nz, fm.0 != 0 || fm.1 != 0),
                fm_nz_ch: bumped_each(
                    s.dbg.fm_nz_ch,
                    seq![fm.2[0] != 0, fm.2[1] != 0, fm.2[2] != 0, fm.2[3] != 0],
                ),
                ssg_nz: bumped(s.dbg.ssg_nz, s.ssg.stepped().1 != 0),
                ..s.dbg
            },
            ..s
        }
    }

    /// The chip one sample later.
    pub open spec fn stepped(self) -> YmState {
        self.timers_ticked().voices_stepped()
    }

    /// The sample, left and right: 98 percent of samples and FM, 84 percent of
    /// the square waves.
    pub open spec fn sample(self) -> (i16, i16) {
        let s = self.timers_ticked();
        let square = percent(s.ssg.stepped().1, 84);
        (
            clip16(percent(s.digital(0x80, s.fm.sample().0), 98) + square),
            clip16(percent(s.digital(0x40, s.fm.sample().1), 98) + square),
        )
    }

    /// The chip `n` samples later.
    pub open spec fn after(self, n: int) -> YmState
        decreases n,
    {
        if n <= 0 {
            self
        } else {
            self.after(n - 1).stepped()
        }
    }
}

impl View for Ym2610 {
    type V = YmState;

    open spec fn view(&self) -> YmState {
        YmState {
            regs_a: self.regs_a@,
            regs_b: self.regs_b@,
            addr_a: self.addr_a,
            addr_b: self.addr_b,
            status: self.status_a,
            busy: self.busy_z80_cycles,
            a: self.adpcm_a@,
            b: self.adpcm_b,
            ssg: self.ssg@,
            irq_out: self.irq_out,
            irq_enable: self.irq_enable,
            ta_period: self.timer_a_period,
            tb_period: self.timer_b_period,
            ta_on: self.timer_a_enabled,
            tb_on: self.timer_b_enabled,
            ta_count: self.timer_a_count,
            tb_count: self.timer_b_count,
            end_flags: self.adpcm_a_end_flags,
            tl: self.adpcma_tl,
            fm: self.fm@,
            dbg: self.dbg@,
            frac: self.adpcm_a_frac,
            a_rom: self.adpcm_a_rom@,
            b_rom: self.adpcm_b_rom@,
        }
    }
}

fn percent_of(x: i64, p: i64) -> (r: i64)
    requires
        -0x100_0000 <= x <= 0x100_0000,
        0 <= p <= 100,
    ensures
        r == percent(x as int, p as int),
        -0x100_0000 <= r <= 0x100_0000,
{
    if x >= 0 {
        assert(0 <= x * p <= 100 * x) by (nonlinear_arith)
            requires
                0 <= x,
                0 <= p <= 100,
        ;
        ((x * p) as u64 / 100) as i64
    } else {
        let y: i64 = -x;
        assert(0 <= y * p <= 100 * y) by (nonlinear_arith)
            requires
                0 <= y,
                0 <= p <= 100,
        ;
        -(((y * p) as u64 / 100) as i64)
    }
}

fn clipped16(v: i64) -> (r: i16)
    ensures
        r == clip16(v as int),
{
    if v < -32768 {
        -32768
    } else if v > 32767 {
        32767
    } else {
        v as i16
    }
}

impl Default for Ym2610 {
    fn default() -> (ym: Ym2610)
        ensures
            ym@ == YmState::at_reset(),
            ym@.wf(),
    {
        Ym2610::new()
    }
}

impl Ym2610 {
    pub fn new() -> (ym: Ym2610)
        ensures
            ym@ == YmState::at_reset(),
            ym@.wf(),
    {
        Ym2610 {
            regs_a: [0;256],
            regs_b: [0;256],
            addr_a: 0,
            addr_b: 0,
            status_a: 0,
            busy_z80_cycles: 0,
            adpcm_a: [
                AdpcmAChan::new(),
                AdpcmAChan::new(),
                AdpcmAChan::new(),
                AdpcmAChan::new(),
                AdpcmAChan::new(),
                AdpcmAChan::new(),
            ],
            adpcm_b: DeltaTChan::new(),
            ssg: Ssg::new(),
            irq_out: false,
            irq_enable: 0,
            timer_a_period: 0,
            timer_b_period: 0,
            timer_a_enabled: false,
            timer_b_enabled: false,
            timer_a_count: 0,
            timer_b_count: 0,
            adpcm_a_end_flags: 0,
            adpcma_tl: 0,
            fm: FmOpn::new(),
            dbg: Counters::new(),
            adpcm_a_frac: 0,
            adpcm_a_rom: Vec::new(),
            adpcm_b_rom: Vec::new(),
        }
    }

    /// Put the sample ROMs, given by name, into the two memories. An empty set
    /// changes nothing.
    pub fn install_v_roms(&mut self, v_roms: &[(String, Vec<u8>)])
        ensures
            v_roms@.len() == 0 ==> final(self)@ == old(self)@,
            v_roms@.len() > 0 ==> final(self)@ == (YmState {
                a_rom: memories(v_roms@).0,
                b_rom: memories(v_roms@).1,
                ..old(self)@
            }),
    {
        if v_roms.len() > 0 {
            let (a, b) = split_v_roms(v_roms);
            self.adpcm_a_rom = a;
            self.adpcm_b_rom = b;
        }
    }

    fn status_with_busy(&self) -> (v: u8)
        ensures
            v == self@.status_seen(),
    {
        if self.busy_z80_cycles != 0 {
            self.status_a | 0x80
        } else {
            self.status_a
        }
    }

    /// Read the status without counting it.
    pub fn read_status(&self) -> (v: u8)
        ensures
            v == self@.status_seen(),
    {
        self.status_with_busy()
    }

    /// Read a port: status, the latched square-wave register, end flags, zero.
    pub fn read_port(&mut self, port: u8) -> (v: u8)
        ensures
            v == old(self)@.port_value(port),
            final(self)@ == old(self)@.port_read(port),
    {
        let p: u8 = port % 4;
        if p == 0 {
            let status: u8 = self.status_with_busy();
            let mut dbg: Counters = self.dbg;
            dbg.status_read_total = dbg.status_read_total.wrapping_add(1);
            dbg.status_read_nonzero = bump(dbg.status_read_nonzero, status != 0);
            self.dbg = dbg;
            status
        } else if p == 1 {
            self.regs_a[(self.addr_a % 16) as usize]
        } else if p == 2 {
            self.adpcm_a_end_flags
        } else {
            0
        }
    }

    /// Write a port: address and data of the first bank, then of the second.
    pub fn write_port(&mut self, port: u8, val: u8)
        requires
            old(self)@.wf(),
        ensures
            final(self)@ == old(self)@.port_written(port, val),
            final(self)@.wf(),
    {
        let p: u8 = port % 4;
        if p == 0 {
            self.addr_a = val;
        } else if p == 1 {
            let addr: u8 = self.addr_a;
            self.write_reg_a(addr, val);
            self.busy_z80_cycles = YM2610_BUSY_Z80_CYCLES;
        } else if p == 2 {
            self.addr_b = val;
        } else {
            let addr: u8 = self.addr_b;
            self.write_reg_b(addr, val);
            self.busy_z80_cycles = YM2610_BUSY_Z80_CYCLES;
        }
    }

    /// Let the sound processor's cycles pass.
    pub fn elapse_z80_cycles(&mut self, cycles: u32)
        ensures
            final(self)@ == old(self)@.elapsed(cycles),
            old(self)@.wf() ==> final(self)@.wf(),
    {
        self.busy_z80_cycles = if self.busy_z80_cycles > cycles {
            self.busy_z80_cycles - cycles
        } else {
            0
        };
    }

    fn write_delta_t(&mut self, addr: u8, val: u8)
        requires
            old(self)@.wf(),
        ensures
            final(self)@ == old(self)@.delta_t_written(addr, val),
            final(self)@.wf(),
    {
        let mut b: DeltaTChan = self.adpcm_b;
        if addr == 0x10 {
            if val % 2 == 1 {
                b.key_off();
            }
            if val >= 0x80 {
                b.looped = (val / 16) % 2 == 1;
                b.key_on();
                let mut dbg: Counters = self.dbg;
                dbg.adpcmb_keyon = dbg.adpcmb_keyon.wrapping_add(1);
                self.dbg = dbg;
            }
        } else if addr == 0x11 {
            b.pan = val & 0xC0;
        } else if addr == 0x12 || addr == 0x13 {
            b.start = page_address(self.regs_a[0x13], self.regs_a[0x12]);
        } else if addr == 0x14 || addr == 0x15 {
            b.end = page_address(self.regs_a[0x15], self.regs_a[0x14]) + 0xFF;
        } else if addr == 0x19 || addr == 0x1A {
            b.delta = self.regs_a[0x19] as u16 + 256 * self.regs_a[0x1A] as u16;
        } else if addr == 0x1B {
            b.volume = val;
        }
        self.adpcm_b = b;
    }

    fn write_mode(&mut self, val: u8)
        requires
            old(self)@.wf(),
        ensures
            final(self)@ == old(self)@.mode_written(val),
            final(self)@.wf(),
    {
        let run_a: bool = val % 2 == 1;
        let run_b: bool = (val / 2) % 2 == 1;
        if (val / 16) % 2 == 1 {
            self.status_a = self.status_a & !1u8;
        }
        if (val / 32) % 2 == 1 {
            self.status_a = self.status_a & !2u8;
        }
        if run_a && !self.timer_a_enabled {
            self.timer_a_count = 1024 - self.timer_a_period as i32;
        }
        if run_b && !self.timer_b_enabled {
            self.timer_b_count = 16 * (256 - self.timer_b_period as i32);
        }
        self.timer_a_enabled = run_a;
        self.timer_b_enabled = run_b;
        self.irq_enable = val & 0x0C;
        self.fm.write_mode(val);
    }

    fn key_fm(&mut self, val: u8)
        requires
            old(self)@.wf(),
        ensures
            final(self)@ == old(self)@.fm_keyed(val),
            final(self)@.wf(),
    {
        if val % 4 == 3 {
            return;
        }
        let c: usize = (val % 4) as usize + if (val / 4) % 2 == 1 {
            3
        } else {
            0
        };
        let mask: u8 = val / 16;
        if mask != 0 {
            let mut dbg: Counters = self.dbg;
            dbg.fm_keyon = dbg.fm_keyon.wrapping_add(1);
            dbg.fm_keyon_ch = bump_four(dbg.fm_keyon_ch, [c == 1, c == 2, c == 4, c == 5]);
            self.dbg = dbg;
        }
        self.fm.key(c, mask);
    }

    fn write_control(&mut self, addr: u8, val: u8)
        requires
            old(self)@.wf(),
        ensures
            final(self)@ == old(self)@.control_written(addr, val),
            final(self)@.wf(),
    {
        if addr == 0x22 {
            self.fm.write_lfo(val);
        } else if addr == 0x24 || addr == 0x25 {
            self.timer_a_period = 4 * self.regs_a[0x24] as u32 + (self.regs_a[0x25] % 4) as u32;
        } else if addr == 0x26 {
            self.timer_b_period = self.regs_a[0x26] as u32;
        } else if addr == 0x27 {
            self.write_mode(val);
        } else if addr == 0x28 {
            self.key_fm(val);
        }
    }

    /// Write a register of the first bank.
    pub fn write_reg_a(&mut self, addr: u8, val: u8)
        requires
            old(self)@.wf(),
        ensures
            final(self)@ == old(self)@.written_a(addr, val),
            final(self)@.wf(),
    {
        self.regs_a[addr as usize] = val;
        if addr < 0x10 {
            self.ssg.write_reg(addr, val);
        } else if addr < 0x20 {
            self.write_delta_t(addr, val);
        } else if addr < 0x30 {
            self.write_control(addr, val);
        } else {
            self.fm.write_reg(addr, val, false);
        }
    }

    fn key_adpcm_a(&mut self, val: u8)
        requires
            old(self)@.wf(),
        ensures
            final(self)@ == old(self)@.a_keyed(val),
            final(self)@.wf(),
    {
        let ghost s = self@;
        let m: [bool; 6] = mask_bits(val);
        let mut i: usize = 0;
        while i < 6
            invariant
                i <= 6,
                s.wf(),
                self@.wf(),
                m@ == masked(val),
                self@ == (YmState { a: self@.a, ..s }),
                forall|j: int|
                    0 <= j < i ==> #[trigger] self@.a[j] == if m@[j] {
                        if val >= 0x80 {
                            s.a[j].keyed_off()
                        } else {
                            s.a[j].keyed_on()
                        }
                    } else {
                        s.a[j]
                    },
                forall|j: int| i <= j < 6 ==> #[trigger] self@.a[j] == s.a[j],
            decreases 6 - i,
        {
            let mut c: AdpcmAChan = self.adpcm_a[i];
            assert(self@.a[i as int].wf());
            proof {
                channel_stays_settled(c, s.tl, s.a_rom);
            }
            if m[i] {
                if val >= 0x80 {
                    c.key_off();
                } else {
                    c.key_on();
                }
            }
            self.adpcm_a[i] = c;
            i = i + 1;
        }
        if val < 0x80 {
            let mut dbg: Counters = self.dbg;
            dbg.adpcma_keyon = bump_total(dbg.adpcma_keyon, m);
            dbg.adpcma_keyon_ch = bump_six(dbg.adpcma_keyon_ch, m);
            self.dbg = dbg;
        }
        assert(self@.a =~= s.a_keyed(val).a);
    }

    fn write_master_level(&mut self, tl: u8)
        requires
            old(self)@.wf(),
        ensures
            final(self)@ == (YmState {
                tl,
                a: Seq::new(6, |j: int| old(self)@.a[j].refreshed(tl)),
                ..old(self)@
            }),
            final(self)@.wf(),
    {
        let ghost s = self@;
        self.adpcma_tl = tl;
        let mut i: usize = 0;
        while i < 6
            invariant
                i <= 6,
                s.wf(),
                channels_wf(self@.a),
                self@ == (YmState { a: self@.a, tl, ..s }),
                forall|j: int| 0 <= j < i ==> #[trigger] self@.a[j] == s.a[j].refreshed(tl),
                forall|j: int| i <= j < 6 ==> #[trigger] self@.a[j] == s.a[j],
            decreases 6 - i,
        {
            let mut c: AdpcmAChan = self.adpcm_a[i];
            assert(self@.a[i as int].wf());
            c.refresh_volume(tl);
            self.adpcm_a[i] = c;
            i = i + 1;
        }
        assert(self@.a =~= Seq::new(6, |j: int| s.a[j].refreshed(tl)));
    }

    fn write_adpcm_a(&mut self, addr: u8, val: u8)
        requires
            old(self)@.wf(),
            addr < 0x30,
        ensures
            final(self)@ == old(self)@.adpcm_a_written(addr, val),
            final(self)@.wf(),
    {
        let i: usize = (addr % 8) as usize;
        if addr == 0 {
            self.key_adpcm_a(val);
        } else if addr == 1 {
            self.write_master_level(63 - val % 64);
        } else if i < 6 {
            let mut c: AdpcmAChan = self.adpcm_a[i];
            assert(self@.a[i as int].wf());
            let group: u8 = addr / 8;
            if group == 1 {
                c.il = 31 - val % 32;
                c.pan = val & 0xC0;
                c.refresh_volume(self.adpcma_tl);
            } else if group == 2 || group == 3 {
                c.start = page_address(self.regs_b[0x18 + i], self.regs_b[0x10 + i]);
            } else if group == 4 || group == 5 {
                c.end = page_address(self.regs_b[0x28 + i], self.regs_b[0x20 + i]) + 0xFF;
            }
            self.adpcm_a[i] = c;
            assert(self@.a =~= old(self)@.adpcm_a_written(addr, val).a);
        }
    }

    /// Write a register of the second bank.
    pub fn write_reg_b(&mut self, addr: u8, val: u8)
        requires
            old(self)@.wf(),
        ensures
            final(self)@ == old(self)@.written_b(addr, val),
            final(self)@.wf(),
    {
        self.regs_b[addr as usize] = val;
        if addr < 0x30 {
            self.write_adpcm_a(addr, val);
        } else {
            self.fm.write_reg(addr, val, true);
        }
    }

    /// Advance the timers by one sample; whether a flag was raised.
    fn tick_timers(&mut self) -> (raised: bool)
        requires
            old(self)@.wf(),
        ensures
            final(self)@ == old(self)@.timers_ticked(),
            final(self)@.wf(),
            raised == (final(self)@.dbg.timer_flag_set != old(self)@.dbg.timer_flag_set),
    {
        let mut raised: bool = false;
        if self.timer_a_enabled {
            self.timer_a_count = self.timer_a_count - 1;
            if self.timer_a_count <= 0 {
                self.timer_a_count = self.timer_a_count + (1024 - self.timer_a_period as i32);
                if self.irq_enable & 4 != 0 && self.status_a & 1 == 0 {
                    self.status_a = self.status_a | 1;
                    raised = true;
                }
            }
        }
        if self.timer_b_enabled {
            self.timer_b_count = self.timer_b_count - 1;
            if self.timer_b_count <= 0 {
                self.timer_b_count = self.timer_b_count + 16 * (256 - self.timer_b_period as i32);
                if self.irq_enable & 8 != 0 && self.status_a & 2 == 0 {
                    self.status_a = self.status_a | 2;
                    raised = true;
                }
            }
        }
        if raised {
            self.irq_out = true;
        }
        let mut dbg: Counters = self.dbg;
        dbg.timer_flag_set = bump(dbg.timer_flag_set, raised);
        self.dbg = dbg;
        raised
    }

    /// Advance everything that sounds by one sample.
    fn step_voices(&mut self) -> (l: Levels)
        requires
            old(self)@.wf(),
        ensures
            final(self)@ == old(self)@.voices_stepped(),
            final(self)@.wf(),
            l.left == old(self)@.digital(0x80, old(self)@.fm.sample().0),
            l.right == old(self)@.digital(0x40, old(self)@.fm.sample().1),
            l.square == old(self)@.ssg.stepped().1,
            -0x40_0000 <= l.left <= 0x40_0000,
            -0x40_0000 <= l.right <= 0x40_0000,
            -49147 <= l.square <= 49147,
    {
        let ghost s = self@;
        let advance: bool = self.adpcm_a_frac + 1 >= 3;
        self.adpcm_a_frac = if advance {
            0
        } else {
            self.adpcm_a_frac + 1
        };
        let mut chans: [AdpcmAChan; 6] = self.adpcm_a;
        let a: AdpcmAOut = mix_channels(
            &mut chans,
            self.adpcm_a_rom.as_slice(),
            advance,
            self.adpcm_a_end_flags,
        );
        self.adpcm_a = chans;
        self.adpcm_a_end_flags = a.flags;
        let heard: [bool; 6] = [
            chans[0].adpcm_out != 0,
            chans[1].adpcm_out != 0,
            chans[2].adpcm_out != 0,
            chans[3].adpcm_out != 0,
            chans[4].adpcm_out != 0,
            chans[5].adpcm_out != 0,
        ];
        assert(heard@ =~= Seq::new(6, |i: int| s.a_next()[i].adpcm_out != 0));
        let mut b: DeltaTChan = self.adpcm_b;
        let level: i32 = b.step_one(self.adpcm_b_rom.as_slice());
        self.adpcm_b = b;
        let vol: i32 = b.volume as i32;
        assert(-32768 * 255 <= level * vol <= 32768 * 255) by (nonlinear_arith)
            requires
                -32768 <= level <= 32767,
                0 <= vol <= 255,
        ;
        let b_level: i32 = (level * vol) >> 9;
        proof {
            crate::bits::scaled_level((level * vol) as i32);
        }
        let (fm_l, fm_r, per_ch) = self.fm.step_one_with_per_channel();
        let square: i32 = self.ssg.step_one();
        let left: i32 = a.left + (if b.pan & 0x80 != 0 {
            b_level
        } else {
            0
        }) + fm_l;
        let right: i32 = a.right + (if b.pan & 0x40 != 0 {
            b_level
        } else {
            0
        }) + fm_r;
        let mut dbg: Counters = self.dbg;
        dbg.adpcma_nz = bump_total(dbg.adpcma_nz, heard);
        dbg.adpcma_nz_ch = bump_six(dbg.adpcma_nz_ch, heard);
        dbg.adpcmb_nz = bump(dbg.adpcmb_nz, b_level != 0);
        dbg.fm_nz = bump(dbg.fm_nz, fm_l != 0 || fm_r != 0);
        dbg.fm_nz_ch = bump_four(
            dbg.fm_nz_ch,
            [per_ch[0] != 0, per_ch[1] != 0, per_ch[2] != 0, per_ch[3] != 0],
        );
        dbg.ssg_nz = bump(dbg.ssg_nz, square != 0);
        self.dbg = dbg;
        Levels { left, right, square }
    }

    /// Advance one sample; left and right.
    pub fn step_one_sample(&mut self) -> (out: (i16, i16))
        requires
            old(self)@.wf(),
        ensures
            out == old(self)@.sample(),
            final(self)@ == old(self)@.stepped(),
            final(self)@.wf(),
    {
        let _ = self.tick_timers();
        let l: Levels = self.step_voices();
        let square: i64 = percent_of(l.square as i64, 84);
        (
            clipped16(percent_of(l.left as i64, 98) + square),
            clipped16(percent_of(l.right as i64, 98) + square),
        )
    }

    /// Fill two buffers, as far as the shorter goes.
    pub fn render(&mut self, out_l: &mut [i16], out_r: &mut [i16])
        requires
            old(self)@.wf(),
        ensures
            final(self)@.wf(),
            ({
                let n = if old(out_l)@.len() < old(out_r)@.len() {
                    old(out_l)@.len() as int
                } else {
                    old(out_r)@.len() as int
                };
                &&& final(self)@ == old(self)@.after(n)
                &&& final(out_l)@ == Seq::new(
                    old(out_l)@.len(),
                    |i: int|
                        if i < n {
                            old(self)@.after(i).sample().0
                        } else {
                            old(out_l)@[i]
                        },
                )
                &&& final(out_r)@ == Seq::new(
                    old(out_r)@.len(),
                    |i: int|
                        if i < n {
                            old(self)@.after(i).sample().1
                        } else {
                            old(out_r)@[i]
                        },
                )
            }),
    {
        let ghost s = self@;
        let ghost l0 = out_l@;
        let ghost r0 = out_r@;
        let n: usize = if out_l.len() < out_r.len() {
            out_l.len()
        } else {
            out_r.len()
        };
        let mut i: usize = 0;
        while i < n
            invariant
                i <= n,
                n <= l0.len(),
                n <= r0.len(),
                self@.wf(),
                same(self@, s.after(i as int)),
                out_l@.len() == l0.len(),
                out_r@.len() == r0.len(),
                forall|j: int| 0 <= j < i ==> #[trigger] out_l@[j] == s.after(j).sample().0,
                forall|j: int| i <= j < l0.len() ==> #[trigger] out_l@[j] == l0[j],
                forall|j: int| 0 <= j < i ==> #[trigger] out_r@[j] == s.after(j).sample().1,
                forall|j: int| i <= j < r0.len() ==> #[trigger] out_r@[j] == r0[j],
            decreases n - i,
        {
            let (l, r) = self.step_one_sample();
            out_l[i] = l;
            out_r[i] = r;
            i = i + 1;
        }
    }
}

}
