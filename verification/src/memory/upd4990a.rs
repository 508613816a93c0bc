//! The uPD4990A clock and calendar, reached over three wires.
use vstd::prelude::*;

verus! {

/// Cycles of the main processor in a second.
pub const CYCLES_PER_SECOND: u64 = 12_000_000;

/// The clock's own crystal.
pub const XTAL_HZ: u64 = 32_768;

/// The chip.
#[derive(Debug, Clone, Copy)]
pub struct Upd4990a {
    pub seconds: u32,
    pub minutes: u32,
    pub hours: u32,
    pub day: u32,
    pub month: u32,
    pub year: u32,
    pub weekday: u32,
    /// 0 puts the pulse on the data line, 1 shifts, 2 has set the time.
    pub mode: u8,
    /// Whether the timing pulse has a rate of its own.
    pub tp_mode: u8,
    /// Bits 24 to 27 are the command nibble.
    pub shift_reg: u64,
    pub command: u8,
    /// Cycles into the second.
    pub count: u64,
    pub tp_count: u64,
    /// Cycles in half a period of the timing pulse.
    pub tp_interval: u64,
    pub data_out_count: u64,
    pub data_out_interval: u64,
    pub data_out_pulse: bool,
    pub tp: bool,
    pub prev_clk: bool,
    pub prev_stb: bool,
}

/// The cycles between toggles at a rate; a second if there is no rate.
pub open spec fn half_period_of(toggle_hz: int) -> int {
    if toggle_hz == 0 {
        CYCLES_PER_SECOND as int
    } else {
        CYCLES_PER_SECOND as int / toggle_hz
    }
}

pub fn half_period_cycles(toggle_hz: u64) -> (c: u64)
    ensures
        c == half_period_of(toggle_hz as int),
{
    if toggle_hz == 0 {
        CYCLES_PER_SECOND
    } else {
        CYCLES_PER_SECOND / toggle_hz
    }
}

/// A digit of four bits.
pub open spec fn digit(r: u64, i: u32) -> int {
    ((r >> ((4 * i) as u32)) & 0xF) as int
}

/// Two digits, the lower first.
pub open spec fn two_digits(r: u64, i: u32) -> u32 {
    (digit(r, i) + 10 * digit(r, (i + 1) as u32)) as u32
}

/// The shift register holding a time, digit by digit.
pub open spec fn packed_time(t: Upd4990a) -> u64 {
    let r0 = (t.seconds % 10) | ((t.seconds / 10) << 4) | ((t.minutes % 10) << 8) | ((t.minutes
        / 10) << 12) | ((t.hours % 10) << 16) | ((t.hours / 10) << 20) | ((t.day % 10) << 24) | ((
    t.day / 10) << 28);
    let r1 = t.weekday | (t.month << 4) | ((t.year % 10) << 8) | ((t.year / 10) << 12);
    (r0 as u64) | ((r1 as u64) << 32)
}

/// The time one second later; the date stays.
pub open spec fn second_later(t: Upd4990a) -> Upd4990a {
    if t.seconds + 1 < 60 {
        Upd4990a { seconds: (t.seconds + 1) as u32, ..t }
    } else if t.minutes + 1 < 60 {
        Upd4990a { seconds: 0, minutes: (t.minutes + 1) as u32, ..t }
    } else if t.hours + 1 < 24 {
        Upd4990a { seconds: 0, minutes: 0, hours: (t.hours + 1) as u32, ..t }
    } else {
        Upd4990a {
            seconds: 0,
            minutes: 0,
            hours: 0,
            weekday: ((t.weekday + 1) % 7) as u32,
            ..t
        }
    }
}

/// The time some seconds later.
pub open spec fn seconds_later(t: Upd4990a, n: nat) -> Upd4990a
    decreases n,
{
    if n == 0 {
        t
    } else {
        second_later(seconds_later(t, (n - 1) as nat))
    }
}

/// A line that toggles every `interval` cycles: its counter and level when the
/// counter has reached `count`.
pub open spec fn toggled(count: u64, interval: u64, level: bool) -> (u64, bool) {
    if interval == 0 {
        (count, level)
    } else {
        (count % interval, if (count / interval) % 2 == 1 {
            !level
        } else {
            level
        })
    }
}

fn toggle(count: u64, interval: u64, level: bool) -> (r: (u64, bool))
    ensures
        r == toggled(count, interval, level),
{
    if interval == 0 {
        (count, level)
    } else {
        (count % interval, if (count / interval) % 2 == 1 {
            !level
        } else {
            level
        })
    }
}

/// The shift register after a clock edge: the command nibble takes the data bit
/// at its top, and in shift mode the three bytes below take the nibble's lowest
/// bit at theirs.
pub open spec fn shifted(r: u64, mode: u8, data: bool) -> u64 {
    let nib = ((r >> 24) & 0xF) >> 1 | if data {
        8u64
    } else {
        0
    };
    let s = (r & !0x0F00_0000u64) | (nib << 24);
    if mode == 1 {
        (s & !0x00FF_FFFFu64) | ((s & 0x00FF_FFFF) >> 1 | ((nib & 1) << 23))
    } else {
        s
    }
}

fn shift(r: u64, mode: u8, data: bool) -> (v: u64)
    ensures
        v == shifted(r, mode, data),
{
    let nib: u64 = ((r >> 24) & 0xF) >> 1 | if data {
        8u64
    } else {
        0
    };
    let s: u64 = (r & !0x0F00_0000u64) | (nib << 24);
    if mode == 1 {
        (s & !0x00FF_FFFFu64) | ((s & 0x00FF_FFFF) >> 1 | ((nib & 1) << 23))
    } else {
        s
    }
}

impl Upd4990a {
    /// Every part of the time is what two digits, or one, can hold, and the count
    /// is within a second.
    pub open spec fn wf(self) -> bool {
        &&& self.count < CYCLES_PER_SECOND
        &&& self.seconds <= 165
        &&& self.minutes <= 165
        &&& self.hours <= 165
        &&& self.day <= 165
        &&& self.year <= 165
        &&& self.month <= 15
        &&& self.weekday <= 15
    }

    /// Noon on the first of January 2024, a Monday; the lines toggle from the
    /// start.
    pub open spec fn at_reset() -> Upd4990a {
        Upd4990a {
            seconds: 0,
            minutes: 0,
            hours: 12,
            day: 1,
            month: 1,
            year: 24,
            weekday: 1,
            mode: 0,
            tp_mode: 0,
            shift_reg: 0,
            command: 0,
            count: 0,
            tp_count: 0,
            tp_interval: 93_750,
            data_out_count: 0,
            data_out_interval: 6_000_000,
            data_out_pulse: false,
            tp: false,
            prev_clk: false,
            prev_stb: false,
        }
    }

    pub fn new() -> (c: Upd4990a)
        ensures
            c == Upd4990a::at_reset(),
            c.wf(),
    {
        Upd4990a {
            seconds: 0,
            minutes: 0,
            hours: 12,
            day: 1,
            month: 1,
            year: 24,
            weekday: 1,
            mode: 0,
            tp_mode: 0,
            shift_reg: 0,
            command: 0,
            count: 0,
            tp_count: 0,
            tp_interval: half_period_cycles(128),
            data_out_count: 0,
            data_out_interval: half_period_cycles(2),
            data_out_pulse: false,
            tp: false,
            prev_clk: false,
            prev_stb: false,
        }
    }

    pub fn reset(&mut self)
        ensures
            *final(self) == Upd4990a::at_reset(),
            final(self).wf(),
    {
        *self = Upd4990a::new();
    }

    /// The chip `cycles` later: each full second moves the time on, and the rest
    /// of the cycles stays counted.
    pub open spec fn ticked(self, cycles: u32) -> Upd4990a {
        let c = self.count + cycles;
        let t = Upd4990a {
            count: (c % CYCLES_PER_SECOND as int) as u64,
            ..seconds_later(self, (c / CYCLES_PER_SECOND as int) as nat)
        };
        let (tp_count, tp) = toggled(
            self.tp_count.wrapping_add(cycles as u64),
            self.tp_interval,
            self.tp,
        );
        let (data_out_count, data_out_pulse) = toggled(
            self.data_out_count.wrapping_add(cycles as u64),
            self.data_out_interval,
            self.data_out_pulse,
        );
        Upd4990a { tp_count, tp, data_out_count, data_out_pulse, ..t }
    }

    /// Let cycles pass.
    pub fn tick(&mut self, cycles: u32)
        requires
            old(self).wf(),
        ensures
            *final(self) == old(self).ticked(cycles),
            final(self).count < CYCLES_PER_SECOND,
            final(self).wf(),
    {
        let c: u64 = cycles as u64;
        self.count = self.count + c;
        let ghost begun = *self;
        let ghost mut passed: nat = 0;
        while self.count >= CYCLES_PER_SECOND
            invariant
                begun.count == passed * CYCLES_PER_SECOND + self.count,
                *self == (Upd4990a { count: self.count, ..seconds_later(begun, passed) }),
                self.seconds <= 165,
                self.minutes <= 165,
                self.hours <= 165,
                self.day <= 165,
                self.year <= 165,
                self.month <= 15,
                self.weekday <= 15,
            decreases self.count,
        {
            self.count = self.count - CYCLES_PER_SECOND;
            self.seconds = self.seconds + 1;
            if self.seconds >= 60 {
                self.seconds = 0;
                self.minutes = self.minutes + 1;
                if self.minutes >= 60 {
                    self.minutes = 0;
                    self.hours = self.hours + 1;
                    if self.hours >= 24 {
                        self.hours = 0;
                        self.weekday = (self.weekday + 1) % 7;
                    }
                }
            }
            proof {
                passed = passed + 1;
            }
        }
        proof {
            only_the_time_moves(*old(self), begun, passed);
        }
        let (tp_count, tp) = toggle(self.tp_count.wrapping_add(c), self.tp_interval, self.tp);
        self.tp_count = tp_count;
        self.tp = tp;
        let (out_count, out_level) = toggle(
            self.data_out_count.wrapping_add(c),
            self.data_out_interval,
            self.data_out_pulse,
        );
        self.data_out_count = out_count;
        self.data_out_pulse = out_level;
    }

    /// The time taken from the shift register.
    pub open spec fn time_set(self) -> Upd4990a {
        let r = self.shift_reg;
        Upd4990a {
            mode: 2,
            seconds: two_digits(r, 0),
            minutes: two_digits(r, 2),
            hours: two_digits(r, 4),
            day: two_digits(r, 6),
            weekday: digit(r, 8) as u32,
            month: digit(r, 9) as u32,
            year: two_digits(r, 10),
            ..self
        }
    }

    /// The time put into the shift register.
    pub open spec fn time_read(self) -> Upd4990a {
        Upd4990a { mode: 0, shift_reg: packed_time(self), ..self }
    }

    /// The latched command carried out: hold, shift, set, read, a pulse of 64,
    /// 256, 2048 or 4096 hertz, an interval of 1, 10, 30 or 60 seconds that
    /// starts high, or the pulse reset.
    pub open spec fn commanded(self) -> Upd4990a {
        let cmd = self.command % 16;
        if cmd == 0 {
            Upd4990a {
                mode: 0,
                tp_mode: 0,
                tp_interval: 93_750,
                data_out_interval: 6_000_000,
                tp_count: 0,
                data_out_count: 0,
                tp: false,
                data_out_pulse: false,
                ..self
            }
        } else if cmd == 1 {
            Upd4990a { mode: 1, ..self }
        } else if cmd == 2 {
            self.time_set()
        } else if cmd == 3 {
            self.time_read()
        } else if cmd < 8 {
            let hz = if cmd == 4 {
                64int
            } else if cmd == 5 {
                256
            } else if cmd == 6 {
                2048
            } else {
                4096
            };
            Upd4990a {
                tp_mode: 1,
                tp_interval: half_period_of(2 * hz) as u64,
                tp_count: 0,
                tp: false,
                ..self
            }
        } else if cmd < 12 {
            let s = if cmd == 8 {
                1int
            } else if cmd == 9 {
                10
            } else if cmd == 10 {
                30
            } else {
                60
            };
            Upd4990a {
                tp_mode: 1,
                tp_interval: ((CYCLES_PER_SECOND * s) / 2) as u64,
                tp_count: 0,
                tp: true,
                ..self
            }
        } else {
            Upd4990a { mode: 0, tp: false, tp_count: 0, ..self }
        }
    }

    fn set_time(&mut self)
        requires
            old(self).wf(),
        ensures
            *final(self) == old(self).time_set(),
            final(self).wf(),
    {
        let r: u64 = self.shift_reg;
        self.mode = 2;
        self.seconds = (nibble(r, 0) + 10 * nibble(r, 1)) as u32;
        self.minutes = (nibble(r, 2) + 10 * nibble(r, 3)) as u32;
        self.hours = (nibble(r, 4) + 10 * nibble(r, 5)) as u32;
        self.day = (nibble(r, 6) + 10 * nibble(r, 7)) as u32;
        self.weekday = nibble(r, 8) as u32;
        self.month = nibble(r, 9) as u32;
        self.year = (nibble(r, 10) + 10 * nibble(r, 11)) as u32;
    }

    fn read_time(&mut self)
        ensures
            *final(self) == old(self).time_read(),
            old(self).wf() ==> final(self).wf(),
    {
        self.mode = 0;
        let r0: u32 = (self.seconds % 10) | ((self.seconds / 10) << 4) | ((self.minutes % 10) << 8)
            | ((self.minutes / 10) << 12) | ((self.hours % 10) << 16) | ((self.hours / 10) << 20)
            | ((self.day % 10) << 24) | ((self.day / 10) << 28);
        let r1: u32 = self.weekday | (self.month << 4) | ((self.year % 10) << 8) | ((self.year / 10)
            << 12);
        self.shift_reg = (r0 as u64) | ((r1 as u64) << 32);
    }

    /// Carry out the latched command.
    pub fn process_command(&mut self)
        requires
            old(self).wf(),
        ensures
            *final(self) == old(self).commanded(),
            final(self).wf(),
    {
        let cmd: u8 = self.command % 16;
        if cmd == 0 {
            self.mode = 0;
            self.tp_mode = 0;
            self.tp_interval = half_period_cycles(128);
            self.data_out_interval = half_period_cycles(2);
            self.tp_count = 0;
            self.data_out_count = 0;
            self.tp = false;
            self.data_out_pulse = false;
        } else if cmd == 1 {
            self.mode = 1;
        } else if cmd == 2 {
            self.set_time();
        } else if cmd == 3 {
            self.read_time();
        } else if cmd < 8 {
            let hz: u64 = if cmd == 4 {
                64
            } else if cmd == 5 {
                256
            } else if cmd == 6 {
                2048
            } else {
                4096
            };
            self.tp_mode = 1;
            self.tp_interval = half_period_cycles(2 * hz);
            self.tp_count = 0;
            self.tp = false;
        } else if cmd < 12 {
            let s: u64 = if cmd == 8 {
                1
            } else if cmd == 9 {
                10
            } else if cmd == 10 {
                30
            } else {
                60
            };
            self.tp_mode = 1;
            self.tp_interval = (CYCLES_PER_SECOND * s) / 2;
            self.tp_count = 0;
            self.tp = true;
        } else {
            self.mode = 0;
            self.tp = false;
            self.tp_count = 0;
        }
    }

    /// The chip after its wires are driven: bit 0 is data, bit 1 the clock, which
    /// shifts as it rises, bit 2 the strobe, which latches the command as it
    /// rises.
    pub open spec fn written(self, data: u8) -> Upd4990a {
        let clk = (data / 2) % 2 == 1;
        let stb = (data / 4) % 2 == 1;
        let s1 = if clk && !self.prev_clk {
            Upd4990a { shift_reg: shifted(self.shift_reg, self.mode, data % 2 == 1), ..self }
        } else {
            self
        };
        let s2 = if stb && !self.prev_stb {
            (Upd4990a { command: digit(s1.shift_reg, 6) as u8, ..s1 }).commanded()
        } else {
            s1
        };
        Upd4990a { prev_clk: clk, prev_stb: stb, ..s2 }
    }

    /// Drive the wires.
    pub fn write(&mut self, data: u8)
        requires
            old(self).wf(),
        ensures
            *final(self) == old(self).written(data),
            final(self).wf(),
    {
        let clk: bool = (data / 2) % 2 == 1;
        let stb: bool = (data / 4) % 2 == 1;
        if clk && !self.prev_clk {
            self.shift_reg = shift(self.shift_reg, self.mode, data % 2 == 1);
        }
        if stb && !self.prev_stb {
            self.command = nibble(self.shift_reg, 6) as u8;
            self.process_command();
        }
        self.prev_clk = clk;
        self.prev_stb = stb;
    }

    /// The data line.
    pub open spec fn out(self) -> bool {
        if self.mode == 0 {
            self.data_out_pulse
        } else {
            self.shift_reg & 1 != 0
        }
    }

    pub fn data_out(&self) -> (b: bool)
        ensures
            b == self.out(),
    {
        if self.mode == 0 {
            self.data_out_pulse
        } else {
            self.shift_reg & 1 != 0
        }
    }

    /// The two lines as status bits: bit 6 is the timing pulse, bit 7 the data.
    pub open spec fn status(self) -> u8 {
        let t = if self.tp {
            0x40u8
        } else {
            0
        };
        let d = if self.out() {
            0x80u8
        } else {
            0
        };
        t | d
    }

    pub fn status_bits(&self) -> (v: u8)
        ensures
            v == self.status(),
    {
        let t: u8 = if self.tp {
            0x40
        } else {
            0
        };
        let d: u8 = if self.data_out() {
            0x80
        } else {
            0
        };
        t | d
    }
}

impl Default for Upd4990a {
    fn default() -> (c: Upd4990a)
        ensures
            c == Upd4990a::at_reset(),
            c.wf(),
    {
        Upd4990a::new()
    }
}

fn nibble(r: u64, i: u32) -> (v: u64)
    requires
        i < 16,
    ensures
        v == digit(r, i),
        v < 16,
{
    proof {
        crate::bits::one_nibble(r, (4 * i) as u32);
    }
    (r >> (4 * i)) & 0xF
}

/// A time set from proper digits reads back as the same digits.
pub proof fn set_time_reads_back(c: Upd4990a)
    requires
        digit(c.shift_reg, 0) < 10,
        digit(c.shift_reg, 2) < 10,
        digit(c.shift_reg, 4) < 10,
        digit(c.shift_reg, 6) < 10,
        digit(c.shift_reg, 10) < 10,
    ensures
        c.time_set().time_read().shift_reg == c.shift_reg & 0xFFFF_FFFF_FFFF,
{
    let r = c.shift_reg;
    crate::bits::nibbles_make_time(r);
    crate::bits::small_digits(r);
}

/// A proper time read into the register and set from it stays what it was.
pub proof fn read_time_sets_back(c: Upd4990a)
    requires
        c.seconds < 100,
        c.minutes < 100,
        c.hours < 100,
        c.day < 100,
        c.year < 100,
        c.month < 16,
        c.weekday < 16,
    ensures
        ({
            let d = c.time_read().time_set();
            &&& d.seconds == c.seconds
            &&& d.minutes == c.minutes
            &&& d.hours == c.hours
            &&& d.day == c.day
            &&& d.year == c.year
            &&& d.month == c.month
            &&& d.weekday == c.weekday
        }),
{
    crate::bits::time_nibbles(
        c.seconds % 10,
        c.seconds / 10,
        c.minutes % 10,
        c.minutes / 10,
        c.hours % 10,
        c.hours / 10,
        c.day % 10,
        c.day / 10,
        c.weekday,
        c.month,
        c.year % 10,
        c.year / 10,
    );
}

/// Seconds that pass leave all but the time of day alone, and the time of day
/// depends on nothing else.
proof fn only_the_time_moves(c: Upd4990a, d: Upd4990a, n: nat)
    requires
        c.seconds == d.seconds,
        c.minutes == d.minutes,
        c.hours == d.hours,
        c.weekday == d.weekday,
    ensures
        ({
            let (e, f) = (seconds_later(c, n), seconds_later(d, n));
            &&& e == (Upd4990a {
                seconds: f.seconds,
                minutes: f.minutes,
                hours: f.hours,
                weekday: f.weekday,
                ..c
            })
            &&& f == (Upd4990a {
                seconds: f.seconds,
                minutes: f.minutes,
                hours: f.hours,
                weekday: f.weekday,
                ..d
            })
        }),
    decreases n,
{
    if n > 0 {
        only_the_time_moves(c, d, (n - 1) as nat);
    }
}

/// Seconds add up.
proof fn seconds_add_up(c: Upd4990a, m: nat, n: nat)
    ensures
        seconds_later(seconds_later(c, m), n) == seconds_later(c, m + n),
    decreases n,
{
    if n > 0 {
        seconds_add_up(c, m, (n - 1) as nat);
    }
}

/// A proper time of day stays one, however many seconds pass.
proof fn seconds_stay_proper(c: Upd4990a, n: nat)
    requires
        c.seconds < 60,
        c.minutes < 60,
        c.hours < 24,
        c.weekday < 7,
    ensures
        seconds_later(c, n).seconds < 60,
        seconds_later(c, n).minutes < 60,
        seconds_later(c, n).hours < 24,
        seconds_later(c, n).weekday < 7,
    decreases n,
{
    if n > 0 {
        seconds_stay_proper(c, (n - 1) as nat);
    }
}

/// A proper time of day stays one.
pub proof fn time_stays_proper(c: Upd4990a, cycles: u32)
    requires
        c.seconds < 60,
        c.minutes < 60,
        c.hours < 24,
        c.weekday < 7,
    ensures
        c.ticked(cycles).seconds < 60,
        c.ticked(cycles).minutes < 60,
        c.ticked(cycles).hours < 24,
        c.ticked(cycles).weekday < 7,
{
    seconds_stay_proper(c, ((c.count + cycles) / CYCLES_PER_SECOND as int) as nat);
}

/// The calendar does not care how the time is counted off: the time and the
/// cycles into the second come out the same in two parts and at once.
pub proof fn time_adds_up(c: Upd4990a, a: u32, b: u32)
    requires
        c.wf(),
        a + b <= u32::MAX,
    ensures
        ({
            let apart = c.ticked(a).ticked(b);
            let once = c.ticked((a + b) as u32);
            &&& apart.seconds == once.seconds
            &&& apart.minutes == once.minutes
            &&& apart.hours == once.hours
            &&& apart.weekday == once.weekday
            &&& apart.day == once.day
            &&& apart.month == once.month
            &&& apart.year == once.year
            &&& apart.count == once.count
            &&& apart.count < CYCLES_PER_SECOND
        }),
{
    let second = CYCLES_PER_SECOND as int;
    let first = ((c.count + a) / second) as nat;
    let d = c.ticked(a);
    let more = ((d.count + b) / second) as nat;
    assert((c.count + a + b) / second == first + more);
    assert((c.count + a + b) % second == (d.count + b) % second);
    only_the_time_moves(c, c, first);
    only_the_time_moves(d, seconds_later(c, first), more);
    only_the_time_moves(seconds_later(c, first), seconds_later(c, first), more);
    seconds_add_up(c, first, more);
    only_the_time_moves(c, c, first + more);
}

/// Counting a line's cycles in two parts or at once comes to the same.
pub proof fn toggles_add_up(count: u64, a: u32, b: u32, interval: u64, level: bool)
    requires
        interval > 0,
        count + a + b <= u64::MAX,
    ensures
        ({
            let (c1, l1) = toggled((count + a) as u64, interval, level);
            &&& c1 <= count + a
            &&& toggled((c1 + b) as u64, interval, l1) == toggled(
                (count + a + b) as u64,
                interval,
                level,
            )
        }),
{
    let i = interval as int;
    let x = count + a;
    let q = x / i;
    let r = x % i;
    vstd::arithmetic::div_mod::lemma_fundamental_div_mod(x, i);
    vstd::arithmetic::div_mod::lemma_mod_bound(x, i);
    vstd::arithmetic::div_mod::lemma_fundamental_div_mod(r + b, i);
    vstd::arithmetic::div_mod::lemma_mod_bound(r + b, i);
    let q2 = (r + b) / i;
    let r2 = (r + b) % i;
    assert(x + b == i * (q + q2) + r2) by (nonlinear_arith)
        requires
            x == i * q + r,
            r + b == i * q2 + r2,
    ;
    vstd::arithmetic::div_mod::lemma_fundamental_div_mod_converse(x + b, i, q + q2, r2);
    assert(r <= x) by (nonlinear_arith)
        requires
            x == i * q + r,
            i > 0,
            q >= 0,
    ;
}

/// The pulse and the output line do not care how the time is counted off.
pub proof fn pulses_add_up(c: Upd4990a, a: u32, b: u32)
    requires
        c.tp_interval > 0,
        c.data_out_interval > 0,
        c.tp_count + a + b <= u64::MAX,
        c.data_out_count + a + b <= u64::MAX,
        a + b <= u32::MAX,
    ensures
        ({
            let apart = c.ticked(a).ticked(b);
            let once = c.ticked((a + b) as u32);
            &&& apart.tp == once.tp
            &&& apart.tp_count == once.tp_count
            &&& apart.data_out_pulse == once.data_out_pulse
            &&& apart.data_out_count == once.data_out_count
        }),
{
    let d = c.ticked(a);
    let first = ((c.count + a) / CYCLES_PER_SECOND as int) as nat;
    only_the_time_moves(c, c, first);
    assert(d.tp_interval == c.tp_interval && d.data_out_interval == c.data_out_interval);
    assert((d.tp_count, d.tp) == toggled((c.tp_count + a) as u64, c.tp_interval, c.tp));
    toggles_add_up(c.tp_count, a, b, c.tp_interval, c.tp);
    toggles_add_up(c.data_out_count, a, b, c.data_out_interval, c.data_out_pulse);
}

/// An interval pulse starts high, stays so for half its interval, is low for the
/// other half, and is then high again.
pub proof fn interval_pulse_repeats(c: Upd4990a, cycles: u32)
    requires
        8 <= c.command % 16 < 12,
    ensures
        ({
            let d = c.commanded();
            let half = d.tp_interval;
            &&& d.tp
            &&& cycles < half ==> d.ticked(cycles).tp
            &&& half <= cycles < 2 * half ==> !d.ticked(cycles).tp
            &&& cycles == 2 * half ==> d.ticked(cycles).tp && d.ticked(cycles).tp_count == 0
        }),
{
    let half = c.commanded().tp_interval as int;
    assert(half > 0);
    let n = cycles as int;
    if n < half {
        vstd::arithmetic::div_mod::lemma_fundamental_div_mod_converse(n, half, 0, n);
    } else if n < 2 * half {
        vstd::arithmetic::div_mod::lemma_fundamental_div_mod_converse(n, half, 1, n - half);
    } else if n == 2 * half {
        vstd::arithmetic::div_mod::lemma_fundamental_div_mod_converse(n, half, 2, 0);
    }
}

/// Without a rising edge nothing happens but that the levels are remembered.
pub proof fn only_edges_count(c: Upd4990a, data: u8)
    requires
        (data / 2) % 2 == 1 ==> c.prev_clk,
        (data / 4) % 2 == 1 ==> c.prev_stb,
    ensures
        c.written(data) == (Upd4990a {
            prev_clk: (data / 2) % 2 == 1,
            prev_stb: (data / 4) % 2 == 1,
            ..c
        }),
{
}

/// A command clocked in bit by bit, lowest first, is the one that the strobe
/// latches.
pub proof fn clocked_command_is_latched(r: u64, b0: bool, b1: bool, b2: bool, b3: bool)
    ensures
        digit(shifted(shifted(shifted(shifted(r, 0, b0), 0, b1), 0, b2), 0, b3), 6) == (if b0 {
            1int
        } else {
            0
        }) + (if b1 {
            2int
        } else {
            0
        }) + (if b2 {
            4int
        } else {
            0
        }) + (if b3 {
            8int
        } else {
            0
        }),
{
    crate::bits::four_shifts(
        r,
        if b0 {
            8u64
        } else {
            0
        },
        if b1 {
            8u64
        } else {
            0
        },
        if b2 {
            8u64
        } else {
            0
        },
        if b3 {
            8u64
        } else {
            0
        },
    );
}

}
