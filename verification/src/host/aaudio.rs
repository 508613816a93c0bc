//! Playback through AAudio: what is asked of the device, in what order, and what
//! is done with its answers. The calls themselves are made by the program around
//! this library.
use vstd::prelude::*;
use crate::host::ring::{RingState, StereoRing};

verus! {

pub const AAUDIO_OK: i32 = 0;

pub const AAUDIO_FORMAT_PCM_I16: i32 = 1;

pub const AAUDIO_FORMAT_PCM_FLOAT: i32 = 2;

pub const AAUDIO_DIRECTION_OUTPUT: i32 = 0;

pub const AAUDIO_PERFORMANCE_MODE_NONE: i32 = 10;

pub const AAUDIO_PERFORMANCE_MODE_POWER_SAVING: i32 = 11;

pub const AAUDIO_PERFORMANCE_MODE_LOW_LATENCY: i32 = 12;

pub const AAUDIO_SHARING_MODE_EXCLUSIVE: i32 = 0;

pub const AAUDIO_SHARING_MODE_SHARED: i32 = 1;

pub const AAUDIO_USAGE_GAME: i32 = 14;

pub const AAUDIO_CONTENT_TYPE_MUSIC: i32 = 2;

pub const AAUDIO_CALLBACK_RESULT_CONTINUE: i32 = 0;

pub const AAUDIO_CALLBACK_RESULT_STOP: i32 = 1;

/// Frames that wait between the emulator and the device: two frames of video.
pub const RING_FRAMES: usize = 2048;

/// An open stream, by the number that the program knows it by.
#[derive(Debug, Clone, Copy, PartialEq, Eq, Structural)]
pub struct AAudioStream {
    pub id: u64,
}

/// What a stream is opened with.
#[derive(Debug, Clone, Copy, PartialEq, Eq, Structural)]
pub struct AAudioStreamBuilder {
    pub direction: i32,
    pub format: i32,
    pub channels: i32,
    pub sample_rate: i32,
    pub performance_mode: i32,
    pub sharing_mode: i32,
    pub usage: i32,
    pub content_type: i32,
}

impl AAudioStreamBuilder {
    /// Stereo output of a game with low latency.
    pub open spec fn for_game(sample_rate: i32, sharing_mode: i32) -> AAudioStreamBuilder {
        AAudioStreamBuilder {
            direction: AAUDIO_DIRECTION_OUTPUT,
            format: AAUDIO_FORMAT_PCM_I16,
            channels: 2,
            sample_rate,
            performance_mode: AAUDIO_PERFORMANCE_MODE_LOW_LATENCY,
            sharing_mode,
            usage: AAUDIO_USAGE_GAME,
            content_type: AAUDIO_CONTENT_TYPE_MUSIC,
        }
    }

    pub fn new(sample_rate: i32, sharing_mode: i32) -> (b: AAudioStreamBuilder)
        ensures
            b == AAudioStreamBuilder::for_game(sample_rate, sharing_mode),
    {
        AAudioStreamBuilder {
            direction: AAUDIO_DIRECTION_OUTPUT,
            format: AAUDIO_FORMAT_PCM_I16,
            channels: 2,
            sample_rate,
            performance_mode: AAUDIO_PERFORMANCE_MODE_LOW_LATENCY,
            sharing_mode,
            usage: AAUDIO_USAGE_GAME,
            content_type: AAUDIO_CONTENT_TYPE_MUSIC,
        }
    }
}

/// A stream that plays, and what the device has said of it.
#[derive(Debug, Clone, Copy, PartialEq, Eq, Structural)]
pub struct AAudioDriver {
    pub stream: AAudioStream,
    pub running: bool,
    pub sample_rate: i32,
    pub frames_per_burst: i32,
    pub perf_mode: i32,
    pub sharing_mode: i32,
}

/// How far a stream has come.
#[derive(Debug, Clone, Copy, PartialEq, Eq, Structural)]
pub enum Starting {
    /// Nothing is being started.
    Idle,
    /// A stream is being opened.
    Opening { sample_rate: i32, sharing_mode: i32 },
    /// The device is being asked what it has opened.
    Asking { stream: AAudioStream },
    /// The buffer is being sized.
    Sizing { driver: AAudioDriver },
    /// The stream is being started.
    Launching { driver: AAudioDriver },
    /// A stream that would not start is being closed.
    Closing,
}

/// What the program does next.
#[derive(Debug, Clone, Copy, PartialEq, Eq, Structural)]
pub enum Action {
    /// Open a stream.
    Open(AAudioStreamBuilder),
    /// Ask for rate, burst and modes.
    Ask(AAudioStream),
    /// Set the buffer to so many frames.
    Resize(AAudioStream, i32),
    /// Request the start.
    Launch(AAudioStream),
    /// Close the stream.
    Close(AAudioStream),
    /// Sound plays.
    Ready,
    /// There is no sound this way.
    Failed,
}

/// What the device has answered.
#[derive(Debug, Clone, Copy, PartialEq, Eq, Structural)]
pub enum Event {
    /// The stream, if it was opened.
    Opened(Option<AAudioStream>),
    /// Burst, rate, performance and sharing mode.
    Told(i32, i32, i32, i32),
    /// The buffer has its size.
    Resized,
    /// The result of the start.
    Launched(i32),
    /// The stream is closed.
    Closed,
}

/// Everything between the emulator and the device.
pub struct AudioHost {
    pub ring: StereoRing,
    /// Times that the ring ran dry.
    pub underruns: u32,
    pub driver: Option<AAudioDriver>,
    pub starting: Starting,
}

/// What it holds.
#[verifier::ext_equal]
pub ghost struct HostState {
    pub ring: RingState,
    pub underruns: u32,
    pub driver: Option<AAudioDriver>,
    pub starting: Starting,
}

impl View for AudioHost {
    type V = HostState;

    open spec fn view(&self) -> HostState {
        HostState {
            ring: self.ring@,
            underruns: self.underruns,
            driver: self.driver,
            starting: self.starting,
        }
    }
}

impl HostState {
    /// A start: done already if a stream plays, impossible without the library,
    /// else a stream is opened for this program alone.
    pub open spec fn start_of(self, sample_rate: i32, available: bool) -> (HostState, Action) {
        if self.driver is Some {
            (self, Action::Ready)
        } else if !available {
            (self, Action::Failed)
        } else {
            (
                HostState {
                    starting: Starting::Opening {
                        sample_rate,
                        sharing_mode: AAUDIO_SHARING_MODE_EXCLUSIVE,
                    },
                    ..self
                },
                Action::Open(
                    AAudioStreamBuilder::for_game(sample_rate, AAUDIO_SHARING_MODE_EXCLUSIVE),
                ),
            )
        }
    }

    pub open spec fn now(self, starting: Starting) -> HostState {
        HostState { starting, ..self }
    }

    /// An answer to the last action. A stream refused to this program alone is
    /// tried once more as a shared one. The buffer is three bursts. A stream that
    /// will not start is closed. Answers that nothing was asked for end the
    /// attempt.
    pub open spec fn advanced(self, event: Event) -> (HostState, Action) {
        match (self.starting, event) {
            (Starting::Opening { sample_rate, sharing_mode }, Event::Opened(None)) => if sharing_mode
                == AAUDIO_SHARING_MODE_EXCLUSIVE {
                (
                    self.now(
                        Starting::Opening { sample_rate, sharing_mode: AAUDIO_SHARING_MODE_SHARED },
                    ),
                    Action::Open(
                        AAudioStreamBuilder::for_game(sample_rate, AAUDIO_SHARING_MODE_SHARED),
                    ),
                )
            } else {
                (self.now(Starting::Idle), Action::Failed)
            },
            (Starting::Opening { .. }, Event::Opened(Some(stream))) => (
                self.now(Starting::Asking { stream }),
                Action::Ask(stream),
            ),
            (Starting::Asking { stream }, Event::Told(burst, rate, perf, sharing)) => (
                self.now(
                    Starting::Sizing {
                        driver: AAudioDriver {
                            stream,
                            running: true,
                            sample_rate: rate,
                            frames_per_burst: burst,
                            perf_mode: perf,
                            sharing_mode: sharing,
                        },
                    },
                ),
                Action::Resize(stream, (3 * burst) as i32),
            ),
            (Starting::Sizing { driver }, Event::Resized) => (
                self.now(Starting::Launching { driver }),
                Action::Launch(driver.stream),
            ),
            (Starting::Launching { driver }, Event::Launched(result)) => if result == AAUDIO_OK {
                (
                    HostState { driver: Some(driver), starting: Starting::Idle, ..self },
                    Action::Ready,
                )
            } else {
                (self.now(Starting::Closing), Action::Close(driver.stream))
            },
            _ => (self.now(Starting::Idle), Action::Failed),
        }
    }

    /// Playback stopped.
    pub open spec fn stopped(self) -> HostState {
        HostState { driver: None, ..self }
    }

    /// The stream to stop and close, if one plays.
    pub open spec fn playing(self) -> Option<AAudioStream> {
        match self.driver {
            Some(d) => if d.running {
                Some(d.stream)
            } else {
                None
            },
            None => None,
        }
    }

    /// The device has taken `n` frames.
    pub open spec fn drained(self, n: int) -> HostState {
        HostState {
            ring: self.ring.popped(n),
            underruns: if self.ring.given(n) < n {
                self.underruns.wrapping_add(1)
            } else {
                self.underruns
            },
            ..self
        }
    }
}

impl AAudioDriver {
    /// Queue samples for the device; how many frames were taken.
    pub fn push_samples(&self, ring: &mut StereoRing, interleaved_i16: &[i16]) -> (n: usize)
        requires
            old(ring).wf(),
        ensures
            final(ring).wf(),
            n == old(ring)@.taken(interleaved_i16@),
            final(ring)@ == old(ring)@.pushed(interleaved_i16@),
    {
        ring.push_stereo(interleaved_i16)
    }

    /// Times that the ring has run dry since the program began.
    pub fn underruns(&self, host: &AudioHost) -> (n: u32)
        ensures
            n == host@.underruns,
    {
        host.underruns
    }

    /// Times that the device has run dry, which it says is `counted`; none once
    /// the stream has stopped.
    pub fn xruns(&self, counted: i32) -> (n: i32)
        ensures
            n == if self.running {
                counted
            } else {
                0
            },
    {
        if self.running {
            counted
        } else {
            0
        }
    }

    /// Stop; the stream to stop and close, if it was playing.
    pub fn stop(&mut self) -> (stream: Option<AAudioStream>)
        ensures
            *final(self) == (AAudioDriver { running: false, ..*old(self) }),
            stream == if old(self).running {
                Some(old(self).stream)
            } else {
                None
            },
    {
        if self.running {
            self.running = false;
            Some(self.stream)
        } else {
            None
        }
    }

    pub fn sample_rate(&self) -> (v: i32)
        ensures
            v == self.sample_rate,
    {
        self.sample_rate
    }

    pub fn frames_per_burst(&self) -> (v: i32)
        ensures
            v == self.frames_per_burst,
    {
        self.frames_per_burst
    }

    pub fn perf_mode(&self) -> (v: i32)
        ensures
            v == self.perf_mode,
    {
        self.perf_mode
    }

    pub fn sharing_mode(&self) -> (v: i32)
        ensures
            v == self.sharing_mode,
    {
        self.sharing_mode
    }
}

proof fn ring_size_is_a_power()
    ensures
        vstd::arithmetic::power2::is_pow2(RING_FRAMES as int),
{
    reveal_with_fuel(vstd::arithmetic::power2::is_pow2, 12);
}

impl AudioHost {
    /// An empty ring and no stream.
    pub fn new() -> (h: AudioHost)
        ensures
            h.ring.wf(),
            h@ == (HostState {
                ring: RingState { cap: RING_FRAMES as int, queue: seq![] },
                underruns: 0,
                driver: None,
                starting: Starting::Idle,
            }),
    {
        proof {
            ring_size_is_a_power();
        }
        AudioHost {
            ring: StereoRing::new(RING_FRAMES),
            underruns: 0,
            driver: None,
            starting: Starting::Idle,
        }
    }

    /// Take the device's answer to the last action; what to do next.
    pub fn advance(&mut self, event: Event) -> (action: Action)
        requires
            match event {
                Event::Told(burst, _, _, _) => i32::MIN <= 3 * burst <= i32::MAX,
                _ => true,
            },
        ensures
            (final(self)@, action) == old(self)@.advanced(event),
            final(self).ring == old(self).ring,
    {
        match (self.starting, event) {
            (Starting::Opening { sample_rate, sharing_mode }, Event::Opened(None)) => {
                if sharing_mode == AAUDIO_SHARING_MODE_EXCLUSIVE {
                    self.starting = Starting::Opening {
                        sample_rate,
                        sharing_mode: AAUDIO_SHARING_MODE_SHARED,
                    };
                    Action::Open(
                        AAudioStreamBuilder::new(sample_rate, AAUDIO_SHARING_MODE_SHARED),
                    )
                } else {
                    self.starting = Starting::Idle;
                    Action::Failed
                }
            },
            (Starting::Opening { .. }, Event::Opened(Some(stream))) => {
                self.starting = Starting::Asking { stream };
                Action::Ask(stream)
            },
            (Starting::Asking { stream }, Event::Told(burst, rate, perf, sharing)) => {
                let driver: AAudioDriver = AAudioDriver {
                    stream,
                    running: true,
                    sample_rate: rate,
                    frames_per_burst: burst,
                    perf_mode: perf,
                    sharing_mode: sharing,
                };
                self.starting = Starting::Sizing { driver };
                Action::Resize(stream, 3 * burst)
            },
            (Starting::Sizing { driver }, Event::Resized) => {
                self.starting = Starting::Launching { driver };
                Action::Launch(driver.stream)
            },
            (Starting::Launching { driver }, Event::Launched(result)) => {
                if result == AAUDIO_OK {
                    self.driver = Some(driver);
                    self.starting = Starting::Idle;
                    Action::Ready
                } else {
                    self.starting = Starting::Closing;
                    Action::Close(driver.stream)
                }
            },
            _ => {
                self.starting = Starting::Idle;
                Action::Failed
            },
        }
    }

    /// Fill the device's buffer; what to tell it.
    pub fn fill(&mut self, out: &mut [i16], num_frames: usize) -> (result: i32)
        requires
            old(self).ring.wf(),
            2 * num_frames <= old(out)@.len(),
        ensures
            final(self).ring.wf(),
            result == AAUDIO_CALLBACK_RESULT_CONTINUE,
            final(self)@ == old(self)@.drained(num_frames as int),
            final(out)@ == old(self)@.ring.filled(old(out)@, num_frames as int),
    {
        let got: usize = self.ring.pop_frames_into(out, num_frames);
        if got < num_frames {
            self.underruns = self.underruns.wrapping_add(1);
        }
        AAUDIO_CALLBACK_RESULT_CONTINUE
    }
}

/// Begin to play; what to do first. `available` says whether the device has
/// AAudio at all.
pub fn start(host: &mut AudioHost, sample_rate: i32, available: bool) -> (action: Action)
    ensures
        (final(host)@, action) == old(host)@.start_of(sample_rate, available),
        final(host).ring == old(host).ring,
{
    if host.driver.is_some() {
        return Action::Ready;
    }
    if !available {
        return Action::Failed;
    }
    host.starting = Starting::Opening { sample_rate, sharing_mode: AAUDIO_SHARING_MODE_EXCLUSIVE };
    Action::Open(AAudioStreamBuilder::new(sample_rate, AAUDIO_SHARING_MODE_EXCLUSIVE))
}

/// Stop playing; the stream to stop and close, if one plays.
pub fn stop(host: &mut AudioHost) -> (stream: Option<AAudioStream>)
    ensures
        stream == old(host)@.playing(),
        final(host)@ == old(host)@.stopped(),
        final(host).ring == old(host).ring,
{
    match host.driver {
        Some(d) => {
            let mut driver: AAudioDriver = d;
            host.driver = None;
            driver.stop()
        },
        None => None,
    }
}

/// Queue samples, whether or not a stream plays; how many frames were taken.
pub fn push(host: &mut AudioHost, samples: &[i16]) -> (n: usize)
    requires
        old(host).ring.wf(),
    ensures
        final(host).ring.wf(),
        n == old(host)@.ring.taken(samples@),
        final(host)@ == (HostState { ring: old(host)@.ring.pushed(samples@), ..old(host)@ }),
{
    host.ring.push_stereo(samples)
}

/// Underruns here and in the device (`xruns`), rate, burst and performance mode;
/// all zero if no stream plays.
pub fn stats(host: &AudioHost, xruns: i32) -> (s: (u32, i32, i32, i32, i32))
    ensures
        s == match host@.driver {
            Some(d) => (
                host@.underruns,
                if d.running {
                    xruns
                } else {
                    0i32
                },
                d.sample_rate,
                d.frames_per_burst,
                d.perf_mode,
            ),
            None => (0u32, 0i32, 0i32, 0i32, 0i32),
        },
{
    match host.driver {
        Some(d) => (
            d.underruns(host),
            d.xruns(xruns),
            d.sample_rate(),
            d.frames_per_burst(),
            d.perf_mode(),
        ),
        None => (0, 0, 0, 0, 0),
    }
}

/// Whether a stream plays.
pub fn is_running(host: &AudioHost) -> (b: bool)
    ensures
        b == (host@.playing() is Some),
{
    match host.driver {
        Some(d) => d.running,
        None => false,
    }
}

/// A start while a stream plays changes nothing.
pub proof fn starting_twice_is_harmless(s: HostState, rate: i32, available: bool)
    requires
        s.driver is Some,
    ensures
        s.start_of(rate, available) == (s, Action::Ready),
{
}

/// A stream refused to one program is tried once as a shared one, and then given
/// up.
pub proof fn refusals_are_retried_once(s: HostState, rate: i32)
    requires
        s.driver is None,
    ensures
        ({
            let (s1, a1) = s.start_of(rate, true);
            let (s2, a2) = s1.advanced(Event::Opened(None));
            let (s3, a3) = s2.advanced(Event::Opened(None));
            &&& a1 == Action::Open(AAudioStreamBuilder::for_game(rate, AAUDIO_SHARING_MODE_EXCLUSIVE))
            &&& a2 == Action::Open(AAudioStreamBuilder::for_game(rate, AAUDIO_SHARING_MODE_SHARED))
            &&& a3 == Action::Failed
            &&& s3.driver is None
        }),
{
}

/// A stream that opens and starts plays with what the device has told of it, from
/// a buffer of three bursts.
pub proof fn opened_streams_play(s: HostState, rate: i32, st: AAudioStream, b: i32, r: i32, p: i32, m: i32)
    requires
        s.driver is None,
        i32::MIN <= 3 * b <= i32::MAX,
    ensures
        ({
            let s1 = s.start_of(rate, true).0.advanced(Event::Opened(Some(st))).0;
            let (s2, a2) = s1.advanced(Event::Told(b, r, p, m));
            let s3 = s2.advanced(Event::Resized).0;
            let (s4, a4) = s3.advanced(Event::Launched(AAUDIO_OK));
            &&& a2 == Action::Resize(st, (3 * b) as i32)
            &&& a4 == Action::Ready
            &&& s4.playing() == Some(st)
            &&& s4.driver->0.sample_rate == r
            &&& s4.stopped().playing() is None
        }),
{
}

/// A stream that does not start is closed, and nothing plays.
pub proof fn failed_starts_close(s: HostState, driver: AAudioDriver, result: i32)
    requires
        s.driver is None,
        s.starting == (Starting::Launching { driver }),
        result != AAUDIO_OK,
    ensures
        s.advanced(Event::Launched(result)).1 == Action::Close(driver.stream),
        s.advanced(Event::Launched(result)).0.playing() is None,
        s.advanced(Event::Launched(result)).0.advanced(Event::Closed).1 == Action::Failed,
{
}

/// The ring running dry is counted once a call, and only then.
pub proof fn dry_rings_are_counted(s: HostState, n: int)
    ensures
        s.ring.queue.len() >= n ==> s.drained(n).underruns == s.underruns,
        s.ring.queue.len() < n ==> s.drained(n).underruns == s.underruns.wrapping_add(1),
{
}

}
