//! Frame rate limiting for consistent output timing.
//!
//! The limiter keeps the target frame period and the frame counters. Waiting
//! itself is split in two: `plan_frame` decides, from the time elapsed since
//! the previous frame, whether to sleep and for how long or how many frame
//! periods were missed; `complete_frame` then books the frame. The caller
//! performs the sleep in between.
use std::time::{Duration, Instant};
use vstd::prelude::*;

verus! {

/// The clock type of the limiter; its readings are opaque.
#[verifier::external_type_specification]
#[verifier::external_body]
pub struct ExInstant(Instant);

/// Calls `std::time::Instant::now`. Nothing is stated of the reading it
/// returns: it is the current time of the monotonic clock.
#[verifier::external_body]
fn instant_now() -> Instant {
    Instant::now()
}

/// Calls `std::time::Instant::elapsed`. Nothing is stated of the duration: it
/// depends on the current time.
#[verifier::external_body]
fn instant_elapsed(since: &Instant) -> Duration {
    since.elapsed()
}

/// Calls `std::time::Duration::as_nanos`. Nothing is stated of the count,
/// since a `Duration` is opaque here.
#[verifier::external_body]
fn duration_as_nanos(d: &Duration) -> u128 {
    d.as_nanos()
}

/// Nanoseconds per second.
pub const NANOS_PER_SEC: u64 = 1_000_000_000;

/// Lowest frame rate the limiter accepts.
pub const MIN_FPS: u32 = 1;

/// Highest frame rate the limiter accepts.
pub const MAX_FPS: u32 = 240;

/// `fps` clamped to the accepted range.
pub open spec fn clamp_fps(fps: u32) -> int {
    if fps < MIN_FPS {
        MIN_FPS as int
    } else if fps > MAX_FPS {
        MAX_FPS as int
    } else {
        fps as int
    }
}

/// Frame period for a frame rate of `fps` (after clamping): one second
/// divided by the rate, rounded to the nearest whole nanosecond.
pub open spec fn frame_nanos_for(fps: u32) -> int {
    (2 * NANOS_PER_SEC as int + clamp_fps(fps)) / (2 * clamp_fps(fps))
}

/// Frame rate, rounded to the nearest integer, of a period of `nanos`
/// nanoseconds.
pub open spec fn rounded_rate(nanos: int) -> int {
    (2 * NANOS_PER_SEC as int + nanos) / (2 * nanos)
}

/// The dropped-frame count after booking a frame planned as `plan`: the
/// periods missed beyond the first are added.
pub open spec fn dropped_after_frame(dropped: int, plan: FramePlan) -> int {
    match plan {
        FramePlan::Late { frames_behind } => if frames_behind > 1 {
            dropped + frames_behind - 1
        } else {
            dropped
        },
        FramePlan::Sleep { .. } => dropped,
    }
}

/// A call that changes a limiter's counters or period: `set_fps`, or
/// `complete_frame` booking a frame.
pub enum LimiterEvent {
    SetFps(u32),
    Frame(FramePlan),
}

/// The frame count after `event`.
pub open spec fn count_after_event(count: int, event: LimiterEvent) -> int {
    match event {
        LimiterEvent::Frame(_) => count + 1,
        LimiterEvent::SetFps(_) => count,
    }
}

/// The frame count after the events `events`, in order, starting from
/// `count`.
pub open spec fn count_after_events(count: int, events: Seq<LimiterEvent>) -> int
    decreases events.len(),
{
    if events.len() == 0 {
        count
    } else {
        count_after_event(count_after_events(count, events.drop_last()), events.last())
    }
}

/// Whether an event books a frame.
pub open spec fn is_frame(event: LimiterEvent) -> bool {
    event is Frame
}

/// What the limiter decides for the next frame.
#[derive(Debug, Clone, Copy, PartialEq, Eq, Structural)]
pub enum FramePlan {
    /// On time: sleep for the rest of the frame period.
    Sleep { nanos: u64 },
    /// Behind schedule by the given number of whole frame periods.
    Late { frames_behind: u64 },
}

/// Frame rate limiter.
pub struct RateLimiter {
    /// Target frame period in nanoseconds.
    frame_nanos: u64,
    /// Time of the last frame.
    last_frame: Instant,
    /// Frames sent.
    frame_count: u64,
    /// Frame periods missed because of overruns.
    dropped_frames: u64,
}

impl RateLimiter {
    /// Target frame period in nanoseconds.
    pub closed spec fn spec_frame_nanos(self) -> int {
        self.frame_nanos as int
    }

    /// Frames sent since creation or the last reset.
    pub closed spec fn spec_frame_count(self) -> int {
        self.frame_count as int
    }

    /// Frame periods missed since creation or the last reset.
    pub closed spec fn spec_dropped_frames(self) -> int {
        self.dropped_frames as int
    }

    /// The period lies between the periods of the highest and lowest
    /// accepted frame rates (one second divided by 240, rounded, and one
    /// second).
    pub closed spec fn wf(self) -> bool {
        4_166_667 <= self.frame_nanos <= NANOS_PER_SEC
    }

    fn period_for(fps: u32) -> (nanos: u64)
        ensures
            nanos == frame_nanos_for(fps),
            4_166_667 <= nanos <= NANOS_PER_SEC,
    {
        let fps = if fps < MIN_FPS {
            MIN_FPS
        } else if fps > MAX_FPS {
            MAX_FPS
        } else {
            fps
        };
        let f = fps as u64;
        let nanos = (2 * NANOS_PER_SEC + f) / (2 * f);
        assert(4_166_667 <= nanos <= NANOS_PER_SEC) by (nonlinear_arith)
            requires
                1 <= f <= 240,
                nanos == (2_000_000_000u64 + f) / (2 * f),
        {
            assert(2 * f * 4_166_667 <= 2_000_000_000u64 + f);
            assert(2_000_000_000u64 + f < 2 * f * (NANOS_PER_SEC + 1));
        }
        nanos
    }

    /// Create a new rate limiter for `fps` frames per second, clamped to
    /// 1..=240.
    pub fn new(fps: u32) -> (rl: Self)
        ensures
            rl.wf(),
            rl.spec_frame_nanos() == frame_nanos_for(fps),
            rl.spec_frame_count() == 0,
            rl.spec_dropped_frames() == 0,
    {
        RateLimiter {
            frame_nanos: Self::period_for(fps),
            last_frame: instant_now(),
            frame_count: 0,
            dropped_frames: 0,
        }
    }

    /// Restart timing and zero the counters (call when starting a new session).
    pub fn reset(&mut self)
        ensures
            final(self).spec_frame_nanos() == old(self).spec_frame_nanos(),
            final(self).wf() == old(self).wf(),
            final(self).spec_frame_count() == 0,
            final(self).spec_dropped_frames() == 0,
    {
        self.last_frame = instant_now();
        self.frame_count = 0;
        self.dropped_frames = 0;
    }

    /// Set the target frame rate, clamped to 1..=240.
    pub fn set_fps(&mut self, fps: u32)
        ensures
            final(self).wf(),
            final(self).spec_frame_nanos() == frame_nanos_for(fps),
            final(self).spec_frame_count() == old(self).spec_frame_count(),
            final(self).spec_frame_count() == count_after_event(
                old(self).spec_frame_count(),
                LimiterEvent::SetFps(fps),
            ),
            final(self).spec_dropped_frames() == old(self).spec_dropped_frames(),
    {
        self.frame_nanos = Self::period_for(fps);
    }

    /// Current target frame rate: the frame period converted back to frames
    /// per second and rounded.
    pub fn fps(&self) -> (fps: u32)
        requires
            self.wf(),
        ensures
            fps == rounded_rate(self.spec_frame_nanos()),
            MIN_FPS <= fps <= MAX_FPS,
    {
        let n = self.frame_nanos;
        let r = (2 * NANOS_PER_SEC + n) / (2 * n);
        assert(1 <= r <= 240) by (nonlinear_arith)
            requires
                4_166_667 <= n <= 1_000_000_000,
                r == (2_000_000_000u64 + n) / (2 * n),
        {
            assert(2 * n * 1 <= 2_000_000_000u64 + n);
            assert(2_000_000_000u64 + n < 2 * n * 241);
        }
        r as u32
    }

    /// Total frames sent.
    pub fn frame_count(&self) -> (n: u64)
        ensures
            n == self.spec_frame_count(),
    {
        self.frame_count
    }

    /// Number of frame periods missed.
    pub fn dropped_frames(&self) -> (n: u64)
        ensures
            n == self.spec_dropped_frames(),
    {
        self.dropped_frames
    }

    /// Whether no frame period has been missed.
    pub fn is_on_time(&self) -> (b: bool)
        ensures
            b == (self.spec_dropped_frames() == 0),
    {
        self.dropped_frames == 0
    }

    /// Nanoseconds since the last frame, read from the clock.
    pub fn elapsed_nanos(&self) -> u128 {
        let d = instant_elapsed(&self.last_frame);
        duration_as_nanos(&d)
    }

    /// Decide the next frame from `elapsed_nanos`, the time since the last
    /// frame: sleep for the rest of the period when it has not run out, or
    /// count the whole periods that went by (saturating at `u64::MAX`).
    pub fn plan_frame(&self, elapsed_nanos: u128) -> (plan: FramePlan)
        requires
            self.wf(),
        ensures
            elapsed_nanos < self.spec_frame_nanos() ==> plan == (FramePlan::Sleep {
                nanos: (self.spec_frame_nanos() - elapsed_nanos) as u64,
            }),
            elapsed_nanos >= self.spec_frame_nanos() ==> plan == (FramePlan::Late {
                frames_behind: if (elapsed_nanos as int) / self.spec_frame_nanos() > u64::MAX {
                    u64::MAX
                } else {
                    ((elapsed_nanos as int) / self.spec_frame_nanos()) as u64
                },
            }),
    {
        let period = self.frame_nanos as u128;
        if elapsed_nanos < period {
            FramePlan::Sleep { nanos: (period - elapsed_nanos) as u64 }
        } else {
            let behind = elapsed_nanos / period;
            let frames_behind = if behind > u64::MAX as u128 {
                u64::MAX
            } else {
                behind as u64
            };
            FramePlan::Late { frames_behind }
        }
    }

    /// Book the frame decided by `plan`, after any sleep it asked for: count
    /// it, add the periods missed beyond the first to the dropped frames, and
    /// restart the period from now. Returns whether the frame was on time.
    pub fn complete_frame(&mut self, plan: FramePlan) -> (on_time: bool)
        requires
            old(self).spec_frame_count() < u64::MAX,
            plan matches FramePlan::Late { frames_behind } ==> frames_behind <= 1
                || old(self).spec_dropped_frames() + frames_behind - 1 <= u64::MAX,
        ensures
            on_time == (plan is Sleep),
            final(self).spec_frame_nanos() == old(self).spec_frame_nanos(),
            final(self).wf() == old(self).wf(),
            final(self).spec_frame_count() == old(self).spec_frame_count() + 1,
            final(self).spec_frame_count() == count_after_event(
                old(self).spec_frame_count(),
                LimiterEvent::Frame(plan),
            ),
            final(self).spec_dropped_frames() == dropped_after_frame(
                old(self).spec_dropped_frames(),
                plan,
            ),
            plan matches FramePlan::Late { frames_behind } ==> (frames_behind >= 1
                ==> final(self).spec_dropped_frames() == old(self).spec_dropped_frames()
                + frames_behind - 1),
            plan matches FramePlan::Late { frames_behind } ==> (frames_behind == 0
                ==> final(self).spec_dropped_frames() == old(self).spec_dropped_frames()),
            plan is Sleep ==> final(self).spec_dropped_frames() == old(
                self,
            ).spec_dropped_frames(),
    {
        let on_time = match plan {
            FramePlan::Sleep { .. } => true,
            FramePlan::Late { frames_behind } => {
                if frames_behind > 1 {
                    self.dropped_frames = self.dropped_frames + (frames_behind - 1);
                }
                false
            },
        };
        self.last_frame = instant_now();
        self.frame_count = self.frame_count + 1;
        on_time
    }
}

/// A frame rate set on the limiter reads back unchanged, after clamping to
/// 1..=240: converting the clamped rate to a period rounded to the nearest
/// whole nanosecond, and that period back to a rate rounded to the nearest
/// integer, gives the rate again.
pub proof fn fps_round_trip(fps: u32)
    ensures
        rounded_rate(frame_nanos_for(fps)) == clamp_fps(fps),
{
    let f = clamp_fps(fps);
    let n = frame_nanos_for(fps);
    let s = NANOS_PER_SEC as int;
    assert(1 <= f <= 240);
    assert(n == (2 * s + f) / (2 * f));
    assert(2 * f * n <= 2 * s + f && 2 * s + f < 2 * f * n + 2 * f) by (nonlinear_arith)
        requires
            1 <= f,
            n == (2 * s + f) / (2 * f),
    ;
    assert(n >= 240) by (nonlinear_arith)
        requires
            1 <= f <= 240,
            2 * s + f < 2 * f * n + 2 * f,
            s == 1_000_000_000,
    ;
    assert((2 * s + n) / (2 * n) == f) by (nonlinear_arith)
        requires
            n >= 240,
            1 <= f <= 240,
            2 * f * n <= 2 * s + f,
            2 * s + f < 2 * f * n + 2 * f,
    {
        assert(2 * n * f <= 2 * s + n);
        assert(2 * s + n < 2 * n * (f + 1));
        vstd::arithmetic::div_mod::lemma_div_is_ordered(2 * n * f, 2 * s + n, 2 * n);
    }
}

/// The frame count counts frames: from a new or reset limiter (count 0),
/// any run of booked frames with rate changes in between leaves the count
/// equal to the number of frames booked.
pub proof fn frame_count_counts_frames(events: Seq<LimiterEvent>)
    ensures
        count_after_events(0, events) == events.filter(|e: LimiterEvent| is_frame(e)).len(),
    decreases events.len(),
{
    broadcast use Seq::lemma_filter_push;

    if events.len() > 0 {
        let init = events.drop_last();
        frame_count_counts_frames(init);
        assert(events =~= init.push(events.last()));
    }
}

/// Booking a frame counts the periods it missed: a frame planned as
/// `frames_behind` periods late (at least one) adds the periods missed
/// beyond its own, `frames_behind - 1`, to the dropped frames, and an
/// on-time frame adds none. So the limiter stays on time exactly while no
/// frame has been two or more periods late; and a frame that `plan_frame`
/// found `elapsed` nanoseconds after the last, with period `period`, drops
/// `elapsed / period - 1` frames.
pub proof fn booking_counts_missed_periods(dropped: int, plan: FramePlan, period: int, elapsed: int)
    requires
        dropped >= 0,
    ensures
        plan matches FramePlan::Late { frames_behind } ==> (frames_behind >= 1
            ==> dropped_after_frame(dropped, plan) == dropped + frames_behind - 1),
        plan is Sleep ==> dropped_after_frame(dropped, plan) == dropped,
        (dropped_after_frame(dropped, plan) == 0) == (dropped == 0 && !(
        plan matches FramePlan::Late { frames_behind } && frames_behind >= 2)),
        period >= 1 && elapsed >= period && elapsed / period <= u64::MAX ==> dropped_after_frame(
            dropped,
            FramePlan::Late { frames_behind: (elapsed / period) as u64 },
        ) == dropped + elapsed / period - 1,
{
    if period >= 1 && elapsed >= period {
        assert(elapsed / period >= 1) by (nonlinear_arith)
            requires
                period >= 1,
                elapsed >= period,
        ;
    }
}

} // verus!
