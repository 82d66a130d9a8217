//! Tracking frame rate against a target.
//!
//! A [`FrameCounter`] composes a target frame rate (in millihertz), a
//! slow-frame threshold (in thousandths), and a
//! [`FrameRateSampler`]. It reports the target period per frame, how much
//! of the current frame's budget remains, and whether the loop is
//! running slow: a frame is slow when the ratio of the target period to
//! the frame's elapsed wall time is at most the threshold.

use vstd::arithmetic::div_mod::{lemma_div_nonincreasing, lemma_div_pos_is_pos};
use vstd::prelude::*;

use crate::clock::GameTime;
use crate::duration::{DurationError, TimeDelta, WallInstant};
use crate::framerate::sample::{rate_of, FrameRate, FrameRateSampler, MILLIHERTZ_NANOS};

verus! {

/// The default slow threshold, in thousandths: a frame is slow once the
/// target period falls to 95 percent of the elapsed wall time or less.
pub const DEFAULT_SLOW_THRESHOLD: u32 = 950;

/// Whether a frame is running slow: the ratio of `period_nanos` to
/// `elapsed_wall_nanos` is at most `threshold_milli` thousandths. For
/// positive elapsed time that is the cross-multiplied inequality; a
/// frame with negative elapsed wall time counts as slow (the ratio is
/// negative), and one with no measurable elapsed time does not (the
/// ratio is unbounded above).
pub open spec fn running_slow_pred(
    period_nanos: int,
    elapsed_wall_nanos: int,
    threshold_milli: int,
) -> bool {
    if elapsed_wall_nanos > 0 {
        period_nanos * 1000 <= elapsed_wall_nanos * threshold_milli
    } else {
        elapsed_wall_nanos < 0
    }
}

/// A frame rate counter and tracker.
///
/// The exact effect of an update on the owned sampler is pinned by the
/// implementation's [`ticks_to`] relation.
///
/// [`ticks_to`]: FrameCount::ticks_to
pub trait FrameCount: Sized {
    /// Well-formedness of the counter's state: established by the
    /// constructors and preserved by every method.
    spec fn wf(&self) -> bool;

    /// The target frame rate, in millihertz.
    spec fn target_rate_spec(&self) -> int;

    /// The target wall time per frame, in nanoseconds.
    spec fn target_period_spec(&self) -> int;

    /// The slow threshold, in thousandths.
    spec fn slow_threshold_spec(&self) -> int;

    /// The exact relation between the state before and after one update
    /// that observed the instantaneous rate `rate`.
    spec fn ticks_to(self, post: Self, rate: u64) -> bool;

    /// The reported average as an exact ratio.
    spec fn average_spec(&self) -> FrameRate;

    /// The target frame rate for the simulation, in millihertz.
    fn target_frame_rate(&self) -> (r: u64)
        requires
            self.wf(),
        ensures
            r == self.target_rate_spec(),
    ;

    /// The target wall time for each frame.
    fn target_time_per_frame(&self) -> (r: TimeDelta)
        requires
            self.wf(),
        ensures
            r@ == self.target_period_spec(),
            0 <= r@ <= MILLIHERTZ_NANOS,
    ;

    /// The duration remaining until the target frame time, measured
    /// against the system clock when called; negative once the current
    /// frame has overrun its budget. The error is returned exactly when
    /// the measured instant puts the difference outside the representable
    /// range. The relation of the result to a given instant is specified
    /// by `remaining_frame_time_at` on the implementing type.
    fn remaining_frame_time(&self, time: &GameTime) -> Result<TimeDelta, DurationError>
        requires
            self.wf(),
    ;

    /// Update the counter for a new frame.
    fn tick(&mut self, time: &GameTime)
        requires
            old(self).wf(),
        ensures
            final(self).wf(),
            old(self).ticks_to(*final(self), rate_of(*time)),
            final(self).target_rate_spec() == old(self).target_rate_spec(),
            final(self).target_period_spec() == old(self).target_period_spec(),
            final(self).slow_threshold_spec() == old(self).slow_threshold_spec(),
    ;

    /// The average frame rate over the recent frames.
    fn average_frame_rate(&self) -> (r: FrameRate)
        requires
            self.wf(),
        ensures
            r == self.average_spec(),
            1 <= r.den,
            r.num <= MILLIHERTZ_NANOS * r.den,
    ;

    /// Whether the simulation is running slowly: true exactly when the
    /// ratio of the target period to the snapshot's elapsed wall time is
    /// at most the slow threshold.
    fn is_running_slow(&self, time: &GameTime) -> (r: bool)
        requires
            self.wf(),
        ensures
            r == running_slow_pred(
                self.target_period_spec(),
                time@.elapsed_wall_nanos,
                self.slow_threshold_spec(),
            ),
    ;
}

/// A basic frame rate counter.
#[derive(Clone, Debug)]
pub struct FrameCounter<S: FrameRateSampler> {
    target_frame_rate: u64,
    slow_threshold: u32,
    sampler: S,
}

impl<S: FrameRateSampler> FrameCounter<S> {
    /// The target frame rate, in millihertz.
    pub closed spec fn spec_target_frame_rate(&self) -> u64 {
        self.target_frame_rate
    }

    /// The slow threshold, in thousandths.
    pub closed spec fn spec_slow_threshold(&self) -> u32 {
        self.slow_threshold
    }

    /// The owned sampler.
    pub closed spec fn spec_sampler(&self) -> S {
        self.sampler
    }

    /// Create a new `FrameCounter` with a target frame rate, in
    /// millihertz, and a sampler; the slow threshold starts at
    /// [`DEFAULT_SLOW_THRESHOLD`].
    pub fn new(target_frame_rate: u64, sampler: S) -> (r: FrameCounter<S>)
        requires
            1 <= target_frame_rate,
            sampler.wf(),
        ensures
            r.wf(),
            r.spec_target_frame_rate() == target_frame_rate,
            r.spec_slow_threshold() == DEFAULT_SLOW_THRESHOLD,
            r.spec_sampler() == sampler,
    {
        FrameCounter { target_frame_rate, slow_threshold: DEFAULT_SLOW_THRESHOLD, sampler }
    }

    /// Set a new slow threshold, in thousandths.
    pub fn set_slow_threshold(&mut self, val: u32) -> (r: &mut FrameCounter<S>)
        requires
            old(self).wf(),
            1 <= val <= 1000,
        ensures
            r.spec_slow_threshold() == val,
            r.spec_target_frame_rate() == old(self).spec_target_frame_rate(),
            r.spec_sampler() == old(self).spec_sampler(),
            r.wf(),
            *final(self) == *final(r),
    {
        self.slow_threshold = val;
        self
    }

    /// The current slow threshold, in thousandths.
    pub fn slow_threshold(&self) -> (r: u32)
        ensures
            r == self.spec_slow_threshold(),
    {
        self.slow_threshold
    }

    /// Set the target frame rate, in millihertz.
    pub fn set_target_frame_rate(&mut self, val: u64) -> (r: &mut FrameCounter<S>)
        requires
            old(self).wf(),
            1 <= val,
        ensures
            r.spec_target_frame_rate() == val,
            r.spec_slow_threshold() == old(self).spec_slow_threshold(),
            r.spec_sampler() == old(self).spec_sampler(),
            r.wf(),
            *final(self) == *final(r),
    {
        self.target_frame_rate = val;
        self
    }

    /// Return true if the sampler is saturated.
    pub fn is_saturated(&self) -> (r: bool)
        ensures
            r == self.spec_sampler().saturated_spec(),
    {
        self.sampler.is_saturated()
    }

    /// Return a reference to the sampler object.
    pub fn sampler(&self) -> (r: &S)
        ensures
            *r == self.spec_sampler(),
    {
        &self.sampler
    }

    /// The duration remaining from `now` until the target frame time of
    /// the frame that `time` belongs to; negative once the frame has
    /// overrun its budget.
    pub fn remaining_frame_time_at(&self, time: &GameTime, now: WallInstant) -> (r: TimeDelta)
        requires
            self.wf(),
            now@ - time@.frame_wall_nanos <= i64::MAX,
            i64::MIN <= now@ - time@.frame_wall_nanos,
            i64::MIN <= self.target_period_spec() - (now@ - time@.frame_wall_nanos),
            self.target_period_spec() - (now@ - time@.frame_wall_nanos) <= i64::MAX,
        ensures
            r@ == self.target_period_spec() - (now@ - time@.frame_wall_nanos),
    {
        let period: TimeDelta = self.target_time_per_frame();
        let elapsed: TimeDelta = time.elapsed_time_since(now);
        TimeDelta::nanoseconds(period.nanos() - elapsed.nanos())
    }
}

impl<S: FrameRateSampler> FrameCount for FrameCounter<S> {
    /// The rate is positive, the threshold lies in `1..=1000`, and the
    /// owned sampler is well formed.
    open spec fn wf(&self) -> bool {
        &&& 1 <= self.spec_target_frame_rate()
        &&& 1 <= self.spec_slow_threshold() <= 1000
        &&& self.spec_sampler().wf()
    }

    open spec fn target_rate_spec(&self) -> int {
        self.spec_target_frame_rate() as int
    }

    /// The period is the reciprocal of the rate at the chosen scales:
    /// `1_000_000_000_000 / rate` nanoseconds, rounded down.
    open spec fn target_period_spec(&self) -> int {
        MILLIHERTZ_NANOS as int / self.spec_target_frame_rate() as int
    }

    open spec fn slow_threshold_spec(&self) -> int {
        self.spec_slow_threshold() as int
    }

    /// The rate and threshold are unchanged and the sampler steps by its
    /// own [`FrameRateSampler::ticks_to`] relation.
    open spec fn ticks_to(self, post: Self, rate: u64) -> bool {
        &&& post.spec_target_frame_rate() == self.spec_target_frame_rate()
        &&& post.spec_slow_threshold() == self.spec_slow_threshold()
        &&& self.spec_sampler().ticks_to(post.spec_sampler(), rate)
    }

    open spec fn average_spec(&self) -> FrameRate {
        self.spec_sampler().average_spec()
    }

    fn target_frame_rate(&self) -> (r: u64) {
        self.target_frame_rate
    }

    fn target_time_per_frame(&self) -> (r: TimeDelta) {
        proof {
            lemma_div_pos_is_pos(MILLIHERTZ_NANOS as int, self.target_frame_rate as int);
            lemma_div_nonincreasing(MILLIHERTZ_NANOS as int, self.target_frame_rate as int);
        }
        let period: u64 = MILLIHERTZ_NANOS / self.target_frame_rate;
        TimeDelta::nanoseconds(period as i64)
    }

    fn remaining_frame_time(&self, time: &GameTime) -> Result<TimeDelta, DurationError> {
        let now = WallInstant::now();
        let frame_start: i64 = time.frame_wall_time().nanos();
        let diff: i128 = now.nanos() as i128 - frame_start as i128;
        let period: TimeDelta = self.target_time_per_frame();
        if i64::MIN as i128 <= diff && diff <= i64::MAX as i128 && i64::MIN as i128
            <= period.nanos() as i128 - diff && period.nanos() as i128 - diff
            <= i64::MAX as i128 {
            Ok(self.remaining_frame_time_at(time, now))
        } else {
            Err(DurationError::OutOfRange)
        }
    }

    fn tick(&mut self, time: &GameTime) {
        self.sampler.tick(time);
    }

    fn average_frame_rate(&self) -> (r: FrameRate) {
        self.sampler.average_frame_rate()
    }

    fn is_running_slow(&self, time: &GameTime) -> (r: bool) {
        let period: TimeDelta = self.target_time_per_frame();
        let elapsed: i64 = time.elapsed_wall_time().nanos();
        if elapsed < 0 {
            true
        } else if elapsed == 0 {
            false
        } else {
            proof {
                assert(i128::MIN <= (elapsed as int) * (self.slow_threshold as int)
                    <= i128::MAX) by (nonlinear_arith)
                    requires
                        0 < elapsed <= i64::MAX,
                        0 <= self.slow_threshold <= 1000,
                ;
            }
            let lhs: i128 = (period.nanos() as i128) * 1000;
            let rhs: i128 = (elapsed as i128) * (self.slow_threshold as i128);
            lhs <= rhs
        }
    }
}

} // verus!
