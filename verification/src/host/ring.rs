//! A queue of stereo frames between the emulator and the audio device.
use vstd::prelude::*;
use vstd::arithmetic::power::pow;
use vstd::arithmetic::power2::{is_pow2, is_pow2_exists, pow2};

verus! {

/// A ring of interleaved samples. Head and tail count frames and wrap; their
/// difference is what is queued.
pub struct StereoRing {
    pub buf: Vec<i16>,
    pub cap_frames: usize,
    pub head: u32,
    pub tail: u32,
}

/// What the ring holds.
#[verifier::ext_equal]
pub ghost struct RingState {
    /// How many frames fit.
    pub cap: int,
    /// The queued frames, the oldest first.
    pub queue: Seq<(i16, i16)>,
}

/// Frame `i` of interleaved samples.
pub open spec fn frame(s: Seq<i16>, i: int) -> (i16, i16) {
    (s[2 * i], s[2 * i + 1])
}

/// The first `n` frames of interleaved samples.
pub open spec fn frames(s: Seq<i16>, n: int) -> Seq<(i16, i16)> {
    Seq::new(n as nat, |i: int| frame(s, i))
}

/// The smaller of two numbers.
pub open spec fn least(a: int, b: int) -> int {
    if a < b {
        a
    } else {
        b
    }
}

impl RingState {
    /// How many frames of `src` are taken.
    pub open spec fn taken(self, src: Seq<i16>) -> int {
        least(src.len() as int / 2, self.cap - self.queue.len())
    }

    /// As many frames appended as there is room for.
    pub open spec fn pushed(self, src: Seq<i16>) -> RingState {
        RingState { queue: self.queue + frames(src, self.taken(src)), ..self }
    }

    /// How many frames come out when `n` are asked for.
    pub open spec fn given(self, n: int) -> int {
        least(self.queue.len() as int, n)
    }

    /// The oldest frames removed.
    pub open spec fn popped(self, n: int) -> RingState {
        RingState { queue: self.queue.skip(self.given(n)), ..self }
    }

    /// A buffer filled with `n` frames: the queued ones, then silence.
    pub open spec fn filled(self, dst: Seq<i16>, n: int) -> Seq<i16> {
        Seq::new(
            dst.len(),
            |i: int|
                if i < 2 * self.given(n) {
                    if i % 2 == 0 {
                        self.queue[i / 2].0
                    } else {
                        self.queue[i / 2].1
                    }
                } else if i < 2 * n {
                    0
                } else {
                    dst[i]
                },
        )
    }
}

/// Frames queued: how far the head is ahead of the tail.
pub open spec fn ahead(head: u32, tail: u32) -> int {
    if head >= tail {
        head - tail
    } else {
        head - tail + 0x1_0000_0000
    }
}

impl StereoRing {
    pub open spec fn wf(self) -> bool {
        &&& is_pow2(self.cap_frames as int)
        &&& self.cap_frames <= 0x8000_0000
        &&& self.buf@.len() == 2 * self.cap_frames
        &&& ahead(self.head, self.tail) <= self.cap_frames
    }
}

impl View for StereoRing {
    type V = RingState;

    open spec fn view(&self) -> RingState {
        RingState {
            cap: self.cap_frames as int,
            queue: Seq::new(
                ahead(self.head, self.tail) as nat,
                |k: int| frame(self.buf@, (self.tail + k) % (self.cap_frames as int)),
            ),
        }
    }
}

/// A wrapped counter falls on the same slot as the number it stands for.
proof fn slot_of_wrapped(x: int, cap: int)
    requires
        is_pow2(cap),
        cap <= 0x8000_0000,
        0 <= x < 0x2_0000_0000,
    ensures
        cap > 0,
        (if x >= 0x1_0000_0000 {
            x - 0x1_0000_0000
        } else {
            x
        }) % cap == x % cap,
{
    vstd::arithmetic::power2::is_pow2_equiv(cap);
    assert(is_pow2_exists(cap));
    let e = choose|e: nat| pow(2, e) == cap;
    vstd::arithmetic::power2::lemma_pow2_pos(e);
    assert(cap > 0) by {
        vstd::arithmetic::power::lemma_pow_positive(2, e);
    }
    assert(pow2(e) == cap);
    assert(e <= 31) by {
        if e > 31 {
            vstd::arithmetic::power2::lemma_pow2_strictly_increases(31, e);
            vstd::arithmetic::power2::lemma2_to64();
        }
    }
    let f = (32 - e) as nat;
    vstd::arithmetic::power2::lemma_pow2_adds(e, f);
    assert(pow2(32) == 0x1_0000_0000) by {
        vstd::arithmetic::power2::lemma2_to64();
    }
    let m = pow2(f) as int;
    assert(cap * m == 0x1_0000_0000);
    if x >= 0x1_0000_0000 {
        let y = x - 0x1_0000_0000;
        vstd::arithmetic::div_mod::lemma_mod_multiples_vanish(m, y, cap);
        assert(cap * m + y == x);
    }
}

/// Numbers less than a lap apart fall on different slots.
proof fn slots_differ(a: int, b: int, cap: int)
    requires
        0 <= a < b < a + cap,
    ensures
        a % cap != b % cap,
        0 <= a % cap < cap,
        0 <= b % cap < cap,
{
    vstd::arithmetic::div_mod::lemma_fundamental_div_mod(a, cap);
    vstd::arithmetic::div_mod::lemma_fundamental_div_mod(b, cap);
    vstd::arithmetic::div_mod::lemma_mod_bound(a, cap);
    vstd::arithmetic::div_mod::lemma_mod_bound(b, cap);
    if a % cap == b % cap {
        let qa = a / cap;
        let qb = b / cap;
        assert(cap * qb - cap * qa == b - a);
        assert(false) by (nonlinear_arith)
            requires
                cap * qb - cap * qa == b - a,
                0 < b - a < cap,
        ;
    }
}

impl StereoRing {
    /// An empty ring for a power of two of frames.
    pub fn new(cap_frames: usize) -> (r: StereoRing)
        requires
            is_pow2(cap_frames as int),
            cap_frames <= 0x8000_0000,
            2 * cap_frames <= usize::MAX,
        ensures
            r.wf(),
            r@ == (RingState { cap: cap_frames as int, queue: seq![] }),
    {
        StereoRing { buf: vec![0i16; 2 * cap_frames], cap_frames, head: 0, tail: 0 }
    }

    /// How many frames are queued.
    pub fn used_frames(&self) -> (n: usize)
        requires
            self.wf(),
        ensures
            n == self@.queue.len(),
            n <= self.cap_frames,
    {
        if self.head >= self.tail {
            (self.head - self.tail) as usize
        } else {
            (self.head as u64 + 0x1_0000_0000 - self.tail as u64) as usize
        }
    }

    /// Queue as many frames as fit; how many these are.
    pub fn push_stereo(&mut self, src: &[i16]) -> (n: usize)
        requires
            old(self).wf(),
        ensures
            final(self).wf(),
            n == old(self)@.taken(src@),
            final(self)@ == old(self)@.pushed(src@),
    {
        let ghost s = self@;
        let ghost cap = self.cap_frames as int;
        let ghost tail = self.tail as int;
        let used: usize = self.used_frames();
        let free: usize = self.cap_frames - used;
        let want: usize = src.len() / 2;
        let n: usize = if want < free {
            want
        } else {
            free
        };
        let head: u32 = self.head;
        let mut i: usize = 0;
        proof {
            slot_of_wrapped(0, cap);
        }
        while i < n
            invariant
                i <= n,
                n <= free,
                n <= src@.len() as int / 2,
                free == cap - used,
                used == ahead(head, self.tail),
                cap == self.cap_frames,
                cap > 0,
                tail == self.tail,
                is_pow2(cap),
                cap <= 0x8000_0000,
                self.head == head,
                self.buf@.len() == 2 * cap,
                s.queue.len() == used,
                forall|k: int|
                    0 <= k < used ==> #[trigger] s.queue[k] == frame(
                        self.buf@,
                        (tail + k) % cap,
                    ),
                forall|k: int|
                    0 <= k < i ==> frame(src@, k) == #[trigger] frame(
                        self.buf@,
                        (tail + used + k) % cap,
                    ),
            decreases n - i,
        {
            let ghost before = self.buf@;
            proof {
                slot_of_wrapped(head + i, cap);
                slot_of_wrapped(tail + used + i, cap);
                vstd::arithmetic::div_mod::lemma_mod_bound(tail + used + i, cap);
            }
            let at: u64 = head as u64 + i as u64;
            let wrapped: u64 = if at >= 0x1_0000_0000 {
                at - 0x1_0000_0000
            } else {
                at
            };
            let pos: usize = (wrapped % self.cap_frames as u64) as usize;
            assert(pos as int == (tail + used + i) % cap);
            self.buf.set(2 * pos, src[2 * i]);
            self.buf.set(2 * pos + 1, src[2 * i + 1]);
            proof {
                assert forall|k: int| 0 <= k < used implies #[trigger] s.queue[k] == frame(
                    self.buf@,
                    (tail + k) % cap,
                ) by {
                    slots_differ(tail + k, tail + used + i, cap);
                }
                assert forall|k: int| 0 <= k < i + 1 implies frame(src@, k) == #[trigger] frame(
                    self.buf@,
                    (tail + used + k) % cap,
                ) by {
                    if k < i {
                        slots_differ(tail + used + k, tail + used + i, cap);
                        assert(frame(src@, k) == frame(before, (tail + used + k) % cap));
                    }
                }
            }
            i = i + 1;
        }
        let next: u64 = head as u64 + n as u64;
        self.head = if next >= 0x1_0000_0000 {
            (next - 0x1_0000_0000) as u32
        } else {
            next as u32
        };
        proof {
            assert(ahead(self.head, self.tail) == used + n);
            let p = s.pushed(src@);
            assert(self@.queue.len() == used + n);
            assert forall|k: int| 0 <= k < used + n implies self@.queue[k] == p.queue[k] by {
                if k < used {
                } else {
                    let j = k - used;
                    assert(frame(src@, j) == frame(self.buf@, (tail + used + j) % cap));
                }
            }
            assert(self@.queue =~= p.queue);
        }
        n
    }

    /// Fill the first `frames_wanted` frames of a buffer from the queue, the rest
    /// of them with silence; how many came from the queue.
    pub fn pop_frames_into(&mut self, dst: &mut [i16], frames_wanted: usize) -> (n: usize)
        requires
            old(self).wf(),
            2 * frames_wanted <= old(dst)@.len(),
        ensures
            final(self).wf(),
            n == old(self)@.given(frames_wanted as int),
            final(self)@ == old(self)@.popped(frames_wanted as int),
            final(dst)@ == old(self)@.filled(old(dst)@, frames_wanted as int),
    {
        let ghost s = self@;
        let ghost cap = self.cap_frames as int;
        let ghost tail0 = self.tail as int;
        let ghost d0 = dst@;
        let avail: usize = self.used_frames();
        let n: usize = if avail < frames_wanted {
            avail
        } else {
            frames_wanted
        };
        let tail: u32 = self.tail;
        let mut i: usize = 0;
        proof {
            slot_of_wrapped(0, cap);
        }
        while i < frames_wanted
            invariant
                i <= frames_wanted,
                2 * frames_wanted <= d0.len(),
                n <= frames_wanted,
                n <= s.queue.len(),
                n == s.given(frames_wanted as int),
                cap == self.cap_frames,
                cap > 0,
                is_pow2(cap),
                cap <= 0x8000_0000,
                s == self@,
                s.queue.len() <= cap,
                tail0 == tail,
                tail == self.tail,
                self.wf(),
                dst@.len() == d0.len(),
                forall|k: int|
                    0 <= k < 2 * i ==> #[trigger] dst@[k] == s.filled(d0, frames_wanted as int)[k],
                forall|k: int| 2 * i <= k < d0.len() ==> #[trigger] dst@[k] == d0[k],
            decreases frames_wanted - i,
        {
            if i < n {
                proof {
                    slot_of_wrapped(tail + i, cap);
                    vstd::arithmetic::div_mod::lemma_mod_bound(tail + i, cap);
                }
                let at: u64 = tail as u64 + i as u64;
                let wrapped: u64 = if at >= 0x1_0000_0000 {
                    at - 0x1_0000_0000
                } else {
                    at
                };
                let pos: usize = (wrapped % self.cap_frames as u64) as usize;
                assert(s.queue[i as int] == frame(self.buf@, pos as int));
                dst[2 * i] = self.buf[2 * pos];
                dst[2 * i + 1] = self.buf[2 * pos + 1];
            } else {
                dst[2 * i] = 0;
                dst[2 * i + 1] = 0;
            }
            i = i + 1;
        }
        assert(dst@ =~= s.filled(d0, frames_wanted as int));
        let next: u64 = tail as u64 + n as u64;
        self.tail = if next >= 0x1_0000_0000 {
            (next - 0x1_0000_0000) as u32
        } else {
            next as u32
        };
        proof {
            let p = s.popped(frames_wanted as int);
            assert(ahead(self.head, self.tail) == s.queue.len() - n);
            assert forall|k: int| 0 <= k < s.queue.len() - n implies self@.queue[k]
                == p.queue[k] by {
                slot_of_wrapped(tail + n + k, cap);
                slot_of_wrapped(self.tail + k, cap);
                assert(p.queue[k] == s.queue[n + k]);
                vstd::arithmetic::div_mod::lemma_mod_bound(tail + n + k, cap);
                same_slot(tail + n, self.tail as int, k, cap);
            }
            assert(self@.queue =~= p.queue);
        }
        n
    }
}

/// A number and its wrapped form stay on the same slot when both move.
proof fn same_slot(x: int, y: int, k: int, cap: int)
    requires
        is_pow2(cap),
        cap <= 0x8000_0000,
        0 <= k,
        0 <= x,
        x + k < 0x2_0000_0000,
        y == if x >= 0x1_0000_0000 {
            x - 0x1_0000_0000
        } else {
            x
        },
    ensures
        (x + k) % cap == (y + k) % cap,
{
    slot_of_wrapped(x + k, cap);
    slot_of_wrapped(y + k, cap);
    if x >= 0x1_0000_0000 {
        assert(x + k >= 0x1_0000_0000);
    }
}

/// What goes in comes out, in order: from an empty ring, the same frames.
pub proof fn round_trip(s: RingState, src: Seq<i16>, dst: Seq<i16>)
    requires
        s.queue.len() == 0,
        src.len() % 2 == 0,
        src.len() as int / 2 <= s.cap,
        dst.len() == src.len(),
    ensures
        s.pushed(src).filled(dst, src.len() as int / 2) == src,
        s.pushed(src).popped(src.len() as int / 2).queue.len() == 0,
{
    let t = s.pushed(src);
    assert(t.filled(dst, src.len() as int / 2) =~= src);
}

/// The ring never holds more than fits, and what does not fit is left out.
pub proof fn ring_is_bounded(s: RingState, src: Seq<i16>)
    requires
        s.queue.len() <= s.cap,
    ensures
        s.pushed(src).queue.len() <= s.cap,
        s.pushed(src).queue.len() == s.queue.len() + s.taken(src),
        src.len() as int / 2 > s.cap - s.queue.len() ==> s.pushed(src).queue.len() == s.cap,
        s.queue =~= s.pushed(src).queue.take(s.queue.len() as int),
{
}

/// An empty ring gives silence.
pub proof fn empty_ring_is_silent(s: RingState, dst: Seq<i16>, n: int, i: int)
    requires
        s.queue.len() == 0,
        0 <= i < 2 * n <= dst.len(),
    ensures
        s.filled(dst, n)[i] == 0,
        s.given(n) == 0,
{
}

}
