//! Counts of what the chip has been asked and what it has played. They wrap.
use vstd::prelude::*;

verus! {

#[derive(Debug, Clone, Copy)]
pub struct Counters {
    /// Samples to which each part contributed.
    pub fm_nz: u64,
    pub adpcma_nz: u64,
    pub adpcmb_nz: u64,
    pub ssg_nz: u64,
    /// Keys pressed.
    pub adpcma_keyon: u64,
    pub adpcmb_keyon: u64,
    pub fm_keyon: u64,
    /// The same by channel.
    pub adpcma_keyon_ch: [u64; 6],
    pub adpcma_nz_ch: [u64; 6],
    pub fm_keyon_ch: [u64; 4],
    pub fm_nz_ch: [u64; 4],
    /// Samples at which a timer flag was raised.
    pub timer_flag_set: u64,
    /// Reads of the status.
    pub status_read_nonzero: u64,
    pub status_read_total: u64,
}

#[verifier::ext_equal]
pub ghost struct CountersState {
    pub fm_nz: u64,
    pub adpcma_nz: u64,
    pub adpcmb_nz: u64,
    pub ssg_nz: u64,
    pub adpcma_keyon: u64,
    pub adpcmb_keyon: u64,
    pub fm_keyon: u64,
    pub adpcma_keyon_ch: Seq<u64>,
    pub adpcma_nz_ch: Seq<u64>,
    pub fm_keyon_ch: Seq<u64>,
    pub fm_nz_ch: Seq<u64>,
    pub timer_flag_set: u64,
    pub status_read_nonzero: u64,
    pub status_read_total: u64,
}

/// One more if `event`.
pub open spec fn bumped(n: u64, event: bool) -> u64 {
    if event {
        n.wrapping_add(1)
    } else {
        n
    }
}

pub fn bump(n: u64, event: bool) -> (r: u64)
    ensures
        r == bumped(n, event),
{
    if event {
        n.wrapping_add(1)
    } else {
        n
    }
}

/// One more in each place whose event happened.
pub open spec fn bumped_each(s: Seq<u64>, events: Seq<bool>) -> Seq<u64> {
    Seq::new(s.len(), |i: int| bumped(s[i], events[i]))
}

/// One more for each of the first `n` events that happened.
pub open spec fn bumped_all(t: u64, events: Seq<bool>, n: int) -> u64
    decreases n,
{
    if n <= 0 {
        t
    } else {
        bumped(bumped_all(t, events, n - 1), events[n - 1])
    }
}

pub fn bump_six(s: [u64; 6], events: [bool; 6]) -> (r: [u64; 6])
    ensures
        r@ == bumped_each(s@, events@),
{
    [
        bump(s[0], events[0]),
        bump(s[1], events[1]),
        bump(s[2], events[2]),
        bump(s[3], events[3]),
        bump(s[4], events[4]),
        bump(s[5], events[5]),
    ]
}

pub fn bump_four(s: [u64; 4], events: [bool; 4]) -> (r: [u64; 4])
    ensures
        r@ == bumped_each(s@, events@),
{
    [bump(s[0], events[0]), bump(s[1], events[1]), bump(s[2], events[2]), bump(s[3], events[3])]
}

pub fn bump_total(t: u64, events: [bool; 6]) -> (r: u64)
    ensures
        r == bumped_all(t, events@, 6),
{
    proof {
        reveal_with_fuel(bumped_all, 7);
    }
    let t1: u64 = bump(t, events[0]);
    let t2: u64 = bump(t1, events[1]);
    let t3: u64 = bump(t2, events[2]);
    let t4: u64 = bump(t3, events[3]);
    let t5: u64 = bump(t4, events[4]);
    bump(t5, events[5])
}

impl View for Counters {
    type V = CountersState;

    open spec fn view(&self) -> CountersState {
        CountersState {
            fm_nz: self.fm_nz,
            adpcma_nz: self.adpcma_nz,
            adpcmb_nz: self.adpcmb_nz,
            ssg_nz: self.ssg_nz,
            adpcma_keyon: self.adpcma_keyon,
            adpcmb_keyon: self.adpcmb_keyon,
            fm_keyon: self.fm_keyon,
            adpcma_keyon_ch: self.adpcma_keyon_ch@,
            adpcma_nz_ch: self.adpcma_nz_ch@,
            fm_keyon_ch: self.fm_keyon_ch@,
            fm_nz_ch: self.fm_nz_ch@,
            timer_flag_set: self.timer_flag_set,
            status_read_nonzero: self.status_read_nonzero,
            status_read_total: self.status_read_total,
        }
    }
}

impl CountersState {
    pub open spec fn zero() -> CountersState {
        CountersState {
            fm_nz: 0,
            adpcma_nz: 0,
            adpcmb_nz: 0,
            ssg_nz: 0,
            adpcma_keyon: 0,
            adpcmb_keyon: 0,
            fm_keyon: 0,
            adpcma_keyon_ch: Seq::new(6, |i: int| 0u64),
            adpcma_nz_ch: Seq::new(6, |i: int| 0u64),
            fm_keyon_ch: Seq::new(4, |i: int| 0u64),
            fm_nz_ch: Seq::new(4, |i: int| 0u64),
            timer_flag_set: 0,
            status_read_nonzero: 0,
            status_read_total: 0,
        }
    }
}

impl Counters {
    pub fn new() -> (c: Counters)
        ensures
            c@ == CountersState::zero(),
    {
        Counters {
            fm_nz: 0,
            adpcma_nz: 0,
            adpcmb_nz: 0,
            ssg_nz: 0,
            adpcma_keyon: 0,
            adpcmb_keyon: 0,
            fm_keyon: 0,
            adpcma_keyon_ch: [0, 0, 0, 0, 0, 0],
            adpcma_nz_ch: [0, 0, 0, 0, 0, 0],
            fm_keyon_ch: [0, 0, 0, 0],
            fm_nz_ch: [0, 0, 0, 0],
            timer_flag_set: 0,
            status_read_nonzero: 0,
            status_read_total: 0,
        }
    }
}

}
