//! Frame timing: the time that each frame took, a frame rate averaged over
//! the last frames, and stop-watches for spans of a frame.
//!
//! All durations are whole nanoseconds.

use std::time::{Duration, Instant};
use vstd::prelude::*;

verus! {

/// The time between two refreshes of the frame rate, in nanoseconds.
pub const UPDATE_INTERVAL: u64 = 500_000_000;

/// The number of frame times that are kept for the average.
pub const PAST_FPS_LIMIT: usize = 1000;

/// The nanoseconds in a second.
pub const NANOS_PER_SECOND: u64 = 1_000_000_000;

/// An outside type: a reading of std's monotonic clock. Nothing is known of
/// what it holds.
#[verifier::external_type_specification]
#[verifier::external_body]
pub struct ExInstant(Instant);

/// `Instant::now`: the clock's reading at the time of the call. Nothing is
/// claimed of it.
pub assume_specification[ Instant::now ]() -> (now: Instant)
;

/// `Instant::elapsed`: the time that has passed since the reading was
/// taken. Nothing is claimed of it.
pub assume_specification[ Instant::elapsed ](instant: &Instant) -> (elapsed: Duration)
;

/// `Duration::as_nanos`: the duration in whole nanoseconds. Nothing is
/// claimed of the number.
pub assume_specification[ Duration::as_nanos ](duration: &Duration) -> (nanos: u128)
;

/// `nanos` as a 64-bit number; what does not fit becomes the greatest one.
pub open spec fn clamped(nanos: u128) -> u64 {
    if nanos > u64::MAX {
        u64::MAX
    } else {
        nanos as u64
    }
}

/// `nanos` as a 64-bit number; what does not fit becomes the greatest one.
pub fn clamp_nanos(nanos: u128) -> (r: u64)
    ensures
        r == clamped(nanos),
{
    if nanos > u64::MAX as u128 {
        u64::MAX
    } else {
        nanos as u64
    }
}

/// The nanoseconds that have passed since `instant` was taken, at most
/// `u64::MAX`. What comes back depends on the clock.
pub fn elapsed_nanos(instant: &Instant) -> (nanos: u64) {
    let elapsed: Duration = instant.elapsed();
    clamp_nanos(elapsed.as_nanos())
}

/// The sum of the first `n` of `deltas`.
pub open spec fn total(deltas: Seq<u64>, n: int) -> int
    decreases n,
{
    if n <= 0 {
        0
    } else {
        total(deltas, n - 1) + deltas[n - 1]
    }
}

/// The whole frames per second of `frames` frames that took `nanos`
/// nanoseconds together: the number of frames over the time, rounded down.
/// Frames that took no time, or a rate beyond `i32::MAX`, give `i32::MAX`.
pub open spec fn rate(frames: int, nanos: int) -> int {
    if nanos == 0 {
        0x7fff_ffff
    } else if (frames * 1_000_000_000) / nanos > 0x7fff_ffff {
        0x7fff_ffff
    } else {
        (frames * 1_000_000_000) / nanos
    }
}

/// The frame rate that the frame times `deltas` average to, in frames per
/// second; 0 where there is no frame.
pub open spec fn average_fps(deltas: Seq<u64>) -> int {
    if deltas.len() == 0 {
        0
    } else {
        rate(deltas.len() as int, total(deltas, deltas.len() as int))
    }
}

/// `fps` is the rate of `frames` frames in `nanos` nanoseconds where that
/// many frames, and not one more, fit into each second of the time.
pub proof fn lemma_rate_is(frames: nat, nanos: nat, fps: nat)
    requires
        nanos > 0,
        fps <= 0x7fff_ffff,
        fps * nanos <= frames * 1_000_000_000 < (fps + 1) * nanos,
    ensures
        rate(frames as int, nanos as int) == fps,
{
    assert((fps + 1) * nanos == fps * nanos + nanos) by (nonlinear_arith);
    vstd::arithmetic::div_mod::lemma_fundamental_div_mod_converse(
        (frames * 1_000_000_000) as int,
        nanos as int,
        fps as int,
        frames * 1_000_000_000 - fps * nanos,
    );
}

/// The frame rate that the frame times `deltas` average to.
pub fn calc_ave_fps(deltas: &Vec<u64>) -> (fps: i32)
    ensures
        fps == average_fps(deltas@),
{
    let count: usize = deltas.len();
    let mut sum: u128 = 0;
    let mut k: usize = 0;
    while k < count
        invariant
            k <= count,
            count == deltas@.len(),
            sum == total(deltas@, k as int),
            sum <= k * u64::MAX,
        decreases count - k,
    {
        assert((k + 1) * u64::MAX <= 0x1_0000_0000_0000_0000 * 0xffff_ffff_ffff_ffff)
            by (nonlinear_arith)
            requires
                0 <= k + 1 <= 0x1_0000_0000_0000_0000,
        ;
        assert(k * u64::MAX + u64::MAX == (k + 1) * u64::MAX) by (nonlinear_arith);
        sum = sum + deltas[k] as u128;
        k = k + 1;
    }
    if count == 0 {
        0
    } else if sum == 0 {
        i32::MAX
    } else {
        assert(count * NANOS_PER_SECOND <= 0xffff_ffff_ffff_ffff * 1_000_000_000)
            by (nonlinear_arith)
            requires
                0 <= count <= 0xffff_ffff_ffff_ffff,
                NANOS_PER_SECOND == 1_000_000_000,
        ;
        let frames: u128 = (count as u128) * (NANOS_PER_SECOND as u128);
        let rate: u128 = frames / sum;
        if rate > i32::MAX as u128 {
            i32::MAX
        } else {
            rate as i32
        }
    }
}

/// A stop-watch for one span of a frame, with a label for the report.
pub struct Timer {
    st: Instant,
    elapsed: Option<Duration>,
    label: &'static str,
}

impl Timer {
    /// The label that the timer was given.
    pub closed spec fn spec_label(&self) -> &'static str {
        self.label
    }

    /// Whether the timer has been stopped.
    pub closed spec fn ended(&self) -> bool {
        self.elapsed is Some
    }

    /// The clock's reading at which the timer was started.
    pub closed spec fn started_at(&self) -> Instant {
        self.st
    }

    /// Starts a timer that carries `label`. It runs until `end` is called.
    pub fn new(label: &'static str) -> (timer: Self)
        ensures
            timer.spec_label() == label,
            !timer.ended(),
    {
        Self { label, elapsed: None, st: Instant::now() }
    }

    /// Stops the timer: it now holds the time since its start. Its label
    /// and its start stay as they are.
    pub fn end(&mut self)
        ensures
            final(self).ended(),
            final(self).spec_label() == old(self).spec_label(),
            final(self).started_at() == old(self).started_at(),
    {
        self.elapsed = Some(self.st.elapsed());
    }

    /// The label that the timer was given.
    pub fn label(&self) -> (label: &'static str)
        ensures
            label == self.spec_label(),
    {
        self.label
    }

    /// The nanoseconds that the timer measured, at most `u64::MAX`; `None`
    /// while it has not been stopped.
    pub fn elapsed(&self) -> (nanos: Option<u64>)
        ensures
            nanos is Some <==> self.ended(),
    {
        match &self.elapsed {
            Some(duration) => Some(clamp_nanos(duration.as_nanos())),
            None => None,
        }
    }
}

/// The timing of the frames as a plain value.
pub ghost struct Timing {
    pub fps: i32,
    pub delta_time: u64,
    pub history: Seq<u64>,
    pub timers: Seq<Timer>,
}

impl Timing {
    /// No more frame times are kept than the limit allows.
    pub open spec fn wf(self) -> bool {
        self.history.len() <= PAST_FPS_LIMIT
    }

    /// The timing once a frame has been closed that took `delta_time`
    /// nanoseconds, `since_dump` nanoseconds after the frame rate was last
    /// refreshed. The frame time is kept while there is room for it. When
    /// more than `UPDATE_INTERVAL` has passed, the frame rate becomes the
    /// average over the kept frame times, and these are dropped. The frame's
    /// timers are dropped in any case.
    pub open spec fn frame_closed(self, delta_time: u64, since_dump: u64) -> Timing {
        let kept = if self.history.len() < PAST_FPS_LIMIT {
            self.history.push(delta_time)
        } else {
            self.history
        };
        if since_dump > UPDATE_INTERVAL {
            Timing {
                fps: average_fps(kept) as i32,
                delta_time,
                history: Seq::empty(),
                timers: Seq::empty(),
            }
        } else {
            Timing { fps: self.fps, delta_time, history: kept, timers: Seq::empty() }
        }
    }
}

/// Closing a frame never makes the history longer than the limit allows.
pub proof fn lemma_frame_closed_keeps_limit(timing: Timing, delta_time: u64, since_dump: u64)
    requires
        timing.wf(),
    ensures
        timing.frame_closed(delta_time, since_dump).wf(),
{
}

/// The timing of the frames.
pub struct TimePackage {
    /// The frame rate as it was last averaged, in frames per second.
    pub fps: i32,
    /// The time that the last frame took, in nanoseconds.
    pub delta_time: u64,
    start_time: Instant,
    last_frame: Instant,
    last_data_dump: Instant,
    past_delta_times: Vec<u64>,
    timers: Vec<Timer>,
}

impl View for TimePackage {
    type V = Timing;

    closed spec fn view(&self) -> Timing {
        Timing {
            fps: self.fps,
            delta_time: self.delta_time,
            history: self.past_delta_times@,
            timers: self.timers@,
        }
    }
}

impl TimePackage {
    /// A package with no frame recorded yet; its clocks start now.
    pub fn new() -> (package: Self)
        ensures
            package@ == (Timing {
                fps: 0,
                delta_time: 0,
                history: Seq::empty(),
                timers: Seq::empty(),
            }),
    {
        Self {
            fps: 0,
            delta_time: 0,
            start_time: Instant::now(),
            last_frame: Instant::now(),
            last_data_dump: Instant::now(),
            past_delta_times: Vec::new(),
            timers: Vec::new(),
        }
    }

    /// Closes a frame by the clock: the frame took the time since the last
    /// call, and the time since the frame rate was last refreshed is read
    /// from the clock too. What is done with the two is what `record_frame`
    /// does.
    pub fn update(&mut self)
        ensures
            exists|delta_time: u64, since_dump: u64|
                final(self)@ == old(self)@.frame_closed(delta_time, since_dump),
    {
        let delta_time: u64 = elapsed_nanos(&self.last_frame);
        let since_dump: u64 = elapsed_nanos(&self.last_data_dump);
        let refreshed: bool = self.record_frame(delta_time, since_dump);
        if refreshed {
            self.last_data_dump = Instant::now();
        }
        self.last_frame = Instant::now();
    }

    /// Closes a frame that took `delta_time` nanoseconds, `since_dump`
    /// nanoseconds after the frame rate was last refreshed. Returns whether
    /// the frame rate was refreshed.
    pub fn record_frame(&mut self, delta_time: u64, since_dump: u64) -> (refreshed: bool)
        ensures
            refreshed == (since_dump > UPDATE_INTERVAL),
            final(self)@ == old(self)@.frame_closed(delta_time, since_dump),
    {
        self.delta_time = delta_time;
        if self.past_delta_times.len() < PAST_FPS_LIMIT {
            self.past_delta_times.push(delta_time);
        }
        let refreshed: bool = since_dump > UPDATE_INTERVAL;
        if refreshed {
            self.fps = calc_ave_fps(&self.past_delta_times);
            self.past_delta_times.clear();
        }
        self.timers.clear();
        refreshed
    }

    /// Adds a timer to those of this frame.
    pub fn add_timer(&mut self, timer: Timer)
        ensures
            final(self)@ == (Timing { timers: old(self)@.timers.push(timer), ..old(self)@ }),
    {
        self.timers.push(timer);
    }

    /// The number of timers of this frame.
    pub fn timer_count(&self) -> (n: usize)
        ensures
            n == self@.timers.len(),
    {
        self.timers.len()
    }

    /// The timer that was added as number `index` of this frame, or `None`
    /// where there is no such timer.
    pub fn timer(&self, index: usize) -> (timer: Option<&Timer>)
        ensures
            timer == if index < self@.timers.len() {
                Some(&self@.timers[index as int])
            } else {
                None
            },
    {
        if index < self.timers.len() {
            Some(&self.timers[index])
        } else {
            None
        }
    }
}

} // verus!
