//! Counting and recording time in a simulation.
//!
//! [`GameClock`] tracks frames and time progression; each call to
//! [`GameClock::tick`] starts a new frame and returns a [`GameTime`], an
//! immutable snapshot of the timing picture for that frame. Game time is
//! advanced by a [`TimeStep`](crate::step::TimeStep) policy and scaled by
//! the clock multiplier, a signed count of thousandths, so game time may
//! run faster, slower, or backward relative to wall time.

use vstd::arithmetic::div_mod::{lemma_div_by_multiple, lemma_div_of0};
use vstd::arithmetic::mul::lemma_mul_is_distributive_add_other_way;
use vstd::math::abs;
use vstd::prelude::*;

use crate::duration::{DurationError, TimeDelta, WallInstant};
use crate::step::TimeStep;

verus! {

/// The clock multiplier value that advances game time at wall speed:
/// multipliers are counted in thousandths.
pub const MULTIPLIER_ONE: i64 = 1000;

/// The mathematical content of a [`GameTime`]: every field as an
/// unbounded integer, nanosecond counts for the times.
pub struct GameTimeModel {
    /// Wall time at which the frame began, in nanoseconds since the epoch.
    pub frame_wall_nanos: int,
    /// Cumulative game time as of this frame, in nanoseconds.
    pub frame_game_nanos: int,
    /// Game time that passed during the previous frame, in nanoseconds.
    pub elapsed_game_nanos: int,
    /// Wall time that passed during the previous frame, in nanoseconds.
    pub elapsed_wall_nanos: int,
    /// Index of the frame.
    pub frame_number: int,
}

/// A specific point of time in a simulation.
///
/// A `GameTime` knows both the wall time and the game time of the
/// simulation at a fixed moment, together with the deltas for the frame
/// that produced it. Values are created by
/// [`GameClock::tick`] and are cheap immutable data.
#[derive(Clone, Copy, Debug, PartialEq, Eq, Structural)]
pub struct GameTime {
    frame_wall_time: WallInstant,
    frame_game_time: TimeDelta,
    elapsed_game_time: TimeDelta,
    elapsed_wall_time: TimeDelta,
    frame_number: u64,
}

impl View for GameTime {
    type V = GameTimeModel;

    closed spec fn view(&self) -> GameTimeModel {
        GameTimeModel {
            frame_wall_nanos: self.frame_wall_time@,
            frame_game_nanos: self.frame_game_time@,
            elapsed_game_nanos: self.elapsed_game_time@,
            elapsed_wall_nanos: self.elapsed_wall_time@,
            frame_number: self.frame_number as int,
        }
    }
}

impl GameTime {
    /// The cumulative game time at the creation of this snapshot.
    pub fn frame_game_time(&self) -> (r: TimeDelta)
        ensures
            r@ == self@.frame_game_nanos,
    {
        self.frame_game_time
    }

    /// The wall time at the creation of this snapshot.
    pub fn frame_wall_time(&self) -> (r: WallInstant)
        ensures
            r@ == self@.frame_wall_nanos,
    {
        self.frame_wall_time
    }

    /// The amount of game time that passed since the previous frame.
    pub fn elapsed_game_time(&self) -> (r: TimeDelta)
        ensures
            r@ == self@.elapsed_game_nanos,
    {
        self.elapsed_game_time
    }

    /// The amount of wall time that passed since the previous frame.
    pub fn elapsed_wall_time(&self) -> (r: TimeDelta)
        ensures
            r@ == self@.elapsed_wall_nanos,
    {
        self.elapsed_wall_time
    }

    /// The index of the frame this snapshot belongs to.
    pub fn frame_number(&self) -> (r: u64)
        ensures
            r == self@.frame_number,
    {
        self.frame_number
    }

    /// Return the instantaneous frame rate between the last and current
    /// frames, in millihertz: the rate of this frame's elapsed game
    /// time, which takes no previous frames into account. For a more
    /// stable figure, use a [`FrameCount`](crate::framerate::counter::FrameCount)
    /// object.
    pub fn instantaneous_frame_rate(&self) -> (r: u64)
        ensures
            r == crate::framerate::sample::rate_millihertz(self@.elapsed_game_nanos),
    {
        crate::framerate::sample::rate_from_delta(&self.elapsed_game_time)
    }

    /// The wall time elapsed from the start of this frame to `now`.
    pub fn elapsed_time_since(&self, now: WallInstant) -> (r: TimeDelta)
        requires
            now@ - self@.frame_wall_nanos <= i64::MAX,
            i64::MIN <= now@ - self@.frame_wall_nanos,
        ensures
            r@ == now@ - self@.frame_wall_nanos,
    {
        now.signed_duration_since(&self.frame_wall_time)
    }

    /// The wall time elapsed since the start of this frame, measured
    /// against the system clock when called, or
    /// [`DurationError::OutOfRange`] when the difference leaves the
    /// representable range. The relation of the result to a given instant
    /// is specified by [`GameTime::elapsed_time_since`].
    pub fn elapsed_time_since_frame_start(&self) -> Result<TimeDelta, DurationError> {
        let now = WallInstant::now();
        let frame_start: i64 = self.frame_wall_time.nanos();
        let diff: i128 = now.nanos() as i128 - frame_start as i128;
        if i64::MIN as i128 <= diff && diff <= i64::MAX as i128 {
            Ok(self.elapsed_time_since(now))
        } else {
            Err(DurationError::OutOfRange)
        }
    }
}

/// A game-time delta scaled by the clock multiplier: the product of
/// `step_nanos` and `multiplier_milli` thousandths, rounded toward zero.
pub open spec fn scale_by_multiplier(step_nanos: int, multiplier_milli: int) -> int {
    let mag = (abs(step_nanos) * abs(multiplier_milli)) / 1000;
    if (step_nanos < 0) == (multiplier_milli < 0) {
        mag as int
    } else {
        -(mag as int)
    }
}

/// Scaling by the identity multiplier returns the step unchanged.
pub proof fn lemma_scale_identity(step_nanos: int)
    ensures
        scale_by_multiplier(step_nanos, MULTIPLIER_ONE as int) == step_nanos,
{
    lemma_div_by_multiple(abs(step_nanos) as int, 1000);
}

/// A zero step is frozen by every multiplier: the scaled delta is zero,
/// whatever the multiplier.
pub proof fn lemma_scale_null_step(multiplier_milli: int)
    ensures
        scale_by_multiplier(0, multiplier_milli) == 0,
{
    assert(abs(0) == 0);
    assert(abs(0) * abs(multiplier_milli) == 0);
    lemma_div_of0(1000);
}

/// The magnitude of `x` as an unsigned count.
fn i64_abs(x: i64) -> (r: u64)
    ensures
        r == abs(x as int),
{
    if x < 0 {
        (-(x as i128)) as u64
    } else {
        x as u64
    }
}

/// Scale `step` by `multiplier_milli` thousandths, rounding toward zero,
/// or [`DurationError::OutOfRange`] exactly when the magnitude of the
/// scaled delta leaves the signed 64-bit nanosecond range.
fn scale_delta(step: TimeDelta, multiplier_milli: i64) -> (r: Result<TimeDelta, DurationError>)
    ensures
        match r {
            Ok(d) => {
                &&& d@ == scale_by_multiplier(step@, multiplier_milli as int)
                &&& abs(scale_by_multiplier(step@, multiplier_milli as int)) <= i64::MAX
            },
            Err(err) => {
                &&& err == DurationError::OutOfRange
                &&& abs(scale_by_multiplier(step@, multiplier_milli as int)) > i64::MAX
            },
        },
{
    let step_n: i64 = step.nanos();
    let negative: bool = (step_n < 0) != (multiplier_milli < 0);
    let step_mag: u128 = i64_abs(step_n) as u128;
    let mult_mag: u128 = i64_abs(multiplier_milli) as u128;
    proof {
        assert(step_mag * mult_mag <= 0x8000000000000000u128 * 0x8000000000000000u128)
            by (nonlinear_arith)
            requires
                step_mag <= 0x8000000000000000u128,
                mult_mag <= 0x8000000000000000u128,
        ;
    }
    let mag: u128 = step_mag * mult_mag / 1000;
    if mag > i64::MAX as u128 {
        Err(DurationError::OutOfRange)
    } else if negative {
        Ok(TimeDelta::nanoseconds(-(mag as i64)))
    } else {
        Ok(TimeDelta::nanoseconds(mag as i64))
    }
}

/// The mathematical content of a [`GameClock`].
pub struct GameClockModel {
    /// The snapshot of the most recent frame.
    pub last_frame_time: GameTimeModel,
    /// Wall time at which the clock was created, in nanoseconds since
    /// the epoch.
    pub start_wall_nanos: int,
    /// Cumulative game time: the sum of every scaled delta produced so
    /// far, in nanoseconds.
    pub total_game_nanos: int,
    /// Index of the current frame.
    pub current_frame: int,
    /// The clock multiplier, in thousandths.
    pub multiplier_milli: int,
}

/// Time-tracking for use in real-time simulations.
///
/// `GameClock` tracks the total time a simulation has run for, the
/// elapsed time between individual frames, and the current frame index.
/// Game time is advanced each frame by a [`TimeStep`] policy and scaled
/// by the clock multiplier. Each [`tick`](GameClock::tick) starts a new
/// frame and reports it as a [`GameTime`].
#[derive(Clone, Copy, Debug)]
pub struct GameClock {
    last_frame_time: GameTime,
    start_wall_time: WallInstant,
    total_game_time: TimeDelta,
    current_frame: u64,
    clock_multiplier: i64,
}

impl View for GameClock {
    type V = GameClockModel;

    closed spec fn view(&self) -> GameClockModel {
        GameClockModel {
            last_frame_time: self.last_frame_time@,
            start_wall_nanos: self.start_wall_time@,
            total_game_nanos: self.total_game_time@,
            current_frame: self.current_frame as int,
            multiplier_milli: self.clock_multiplier as int,
        }
    }
}

/// Whether a tick at the instant `now` stays within the representable
/// range: the elapsed wall time, the scaled game-time delta, and the new
/// total must all fit in signed 64-bit nanosecond counts. A tick fails
/// with [`DurationError::OutOfRange`] exactly otherwise.
pub open spec fn tick_ok<T: TimeStep>(pre: GameClockModel, stepper: &T, now: int) -> bool {
    let e = now - pre.last_frame_time.frame_wall_nanos;
    let g = scale_by_multiplier(stepper.step_spec(e), pre.multiplier_milli);
    &&& i64::MIN <= e <= i64::MAX
    &&& abs(g) <= i64::MAX
    &&& i64::MIN <= pre.total_game_nanos + g <= i64::MAX
}

/// The clock state after one tick at the instant `now` that produced the
/// scaled game-time delta `g` from the elapsed wall time `e`: the frame
/// index rises by one, the delta joins the total, and the new snapshot
/// records the full picture.
pub open spec fn ticked_model(pre: GameClockModel, now: int, g: int, e: int) -> GameClockModel {
    GameClockModel {
        last_frame_time: GameTimeModel {
            frame_wall_nanos: now,
            frame_game_nanos: pre.total_game_nanos + g,
            elapsed_game_nanos: g,
            elapsed_wall_nanos: e,
            frame_number: pre.current_frame + 1,
        },
        start_wall_nanos: pre.start_wall_nanos,
        total_game_nanos: pre.total_game_nanos + g,
        current_frame: pre.current_frame + 1,
        multiplier_milli: pre.multiplier_milli,
    }
}

impl GameClock {
    /// Construct a new `GameClock` object, initialized to start at zero
    /// game time, frame zero, the identity multiplier, and the current
    /// wall time.
    pub fn new() -> (r: GameClock)
        ensures
            r@.current_frame == 0,
            r@.total_game_nanos == 0,
            r@.multiplier_milli == MULTIPLIER_ONE,
            r@.start_wall_nanos == r@.last_frame_time.frame_wall_nanos,
            r@.last_frame_time.frame_number == 0,
            r@.last_frame_time.frame_game_nanos == 0,
            r@.last_frame_time.elapsed_game_nanos == 0,
            r@.last_frame_time.elapsed_wall_nanos == 0,
    {
        let now = WallInstant::now();
        GameClock {
            last_frame_time: GameTime {
                frame_wall_time: now,
                frame_game_time: TimeDelta::zero(),
                elapsed_game_time: TimeDelta::zero(),
                elapsed_wall_time: TimeDelta::zero(),
                frame_number: 0,
            },
            start_wall_time: now,
            total_game_time: TimeDelta::zero(),
            current_frame: 0,
            clock_multiplier: MULTIPLIER_ONE,
        }
    }

    /// Return the current frame number: `0` before the first tick, and
    /// one more after every tick.
    pub fn current_frame_number(&self) -> (r: u64)
        ensures
            r == self@.current_frame,
    {
        self.current_frame
    }

    /// Return the wall time when the `GameClock` was created.
    pub fn start_wall_time(&self) -> (r: WallInstant)
        ensures
            r@ == self@.start_wall_nanos,
    {
        self.start_wall_time
    }

    /// Return the wall time at the start of the current frame.
    pub fn frame_wall_time(&self) -> (r: WallInstant)
        ensures
            r@ == self@.last_frame_time.frame_wall_nanos,
    {
        self.last_frame_time.frame_wall_time
    }

    /// Return the amount of wall time elapsed since the start of the
    /// current frame, measured against the system clock when called, or
    /// [`DurationError::OutOfRange`] when the difference leaves the
    /// representable range. The relation of the result to a given
    /// instant is specified by [`GameTime::elapsed_time_since`].
    pub fn frame_elapsed_time(&self) -> Result<TimeDelta, DurationError> {
        self.last_frame_time.elapsed_time_since_frame_start()
    }

    /// Return the [`GameTime`] for the current frame.
    pub fn last_frame_time(&self) -> (r: &GameTime)
        ensures
            r@ == self@.last_frame_time,
    {
        &self.last_frame_time
    }

    /// Return the rate at which game time is increasing, in thousandths.
    pub fn clock_multiplier(&self) -> (r: i64)
        ensures
            r == self@.multiplier_milli,
    {
        self.clock_multiplier
    }

    /// Set the rate at which game time is increasing, in thousandths.
    pub fn set_clock_multiplier(&mut self, val: i64) -> (r: &mut GameClock)
        ensures
            r@.multiplier_milli == val,
            r@.last_frame_time == old(self)@.last_frame_time,
            r@.start_wall_nanos == old(self)@.start_wall_nanos,
            r@.total_game_nanos == old(self)@.total_game_nanos,
            r@.current_frame == old(self)@.current_frame,
            *final(self) == *final(r),
    {
        self.clock_multiplier = val;
        self
    }

    /// Mark the start of a new frame at the wall time `frame_start`,
    /// updating time statistics.
    ///
    /// The elapsed wall time is the span from the previous frame's start
    /// to `frame_start`; the policy turns it into a step, the multiplier
    /// scales the step, and the scaled delta joins the total game time.
    /// The returned [`GameTime`] reports all of it, and is also cached as
    /// [`last_frame_time`](GameClock::last_frame_time). The tick fails
    /// with [`DurationError::OutOfRange`], leaving the clock unchanged,
    /// exactly when a computed span leaves the representable range
    /// ([`tick_ok`]).
    pub fn tick_with_wall_time<T: TimeStep>(
        &mut self,
        time_progress: &T,
        frame_start: WallInstant,
    ) -> (r: Result<GameTime, DurationError>)
        requires
            old(self)@.current_frame < u64::MAX,
        ensures
            ({
                let e = frame_start@ - old(self)@.last_frame_time.frame_wall_nanos;
                let g = scale_by_multiplier(
                    time_progress.step_spec(e),
                    old(self)@.multiplier_milli,
                );
                match r {
                    Ok(t) => {
                        &&& tick_ok(old(self)@, time_progress, frame_start@)
                        &&& final(self)@ == ticked_model(old(self)@, frame_start@, g, e)
                        &&& t@ == final(self)@.last_frame_time
                    },
                    Err(err) => {
                        &&& !tick_ok(old(self)@, time_progress, frame_start@)
                        &&& err == DurationError::OutOfRange
                        &&& *final(self) == *old(self)
                    },
                }
            }),
    {
        let frame_wall: i64 = self.last_frame_time.frame_wall_time.nanos();
        let diff: i128 = frame_start.nanos() as i128 - frame_wall as i128;
        if diff < i64::MIN as i128 || diff > i64::MAX as i128 {
            return Err(DurationError::OutOfRange);
        }
        let elapsed_wall: TimeDelta = TimeDelta::nanoseconds(diff as i64);
        let step: TimeDelta = time_progress.time_step(&elapsed_wall);
        let scaled: TimeDelta = match scale_delta(step, self.clock_multiplier) {
            Ok(d) => d,
            Err(err) => {
                return Err(err);
            },
        };
        let total: i128 = self.total_game_time.nanos() as i128 + scaled.nanos() as i128;
        if total < i64::MIN as i128 || total > i64::MAX as i128 {
            return Err(DurationError::OutOfRange);
        }
        let new_total: TimeDelta = TimeDelta::nanoseconds(total as i64);
        self.current_frame = self.current_frame + 1;
        self.total_game_time = new_total;
        let time = GameTime {
            frame_wall_time: frame_start,
            frame_game_time: new_total,
            elapsed_game_time: scaled,
            elapsed_wall_time: elapsed_wall,
            frame_number: self.current_frame,
        };
        self.last_frame_time = time;
        Ok(time)
    }

    /// Mark the start of a new frame at the current wall time, updating
    /// time statistics.
    ///
    /// The update is that of [`tick_with_wall_time`] at the measured
    /// instant, which the returned snapshot records as its frame wall
    /// time.
    ///
    /// [`tick_with_wall_time`]: GameClock::tick_with_wall_time
    pub fn tick<T: TimeStep>(&mut self, time_progress: &T) -> (r: Result<GameTime, DurationError>)
        requires
            old(self)@.current_frame < u64::MAX,
        ensures
            match r {
                Ok(t) => {
                    &&& tick_ok(old(self)@, time_progress, t@.frame_wall_nanos)
                    &&& final(self)@ == ticked_model(
                        old(self)@,
                        t@.frame_wall_nanos,
                        t@.elapsed_game_nanos,
                        t@.elapsed_wall_nanos,
                    )
                    &&& t@ == final(self)@.last_frame_time
                    &&& t@.elapsed_game_nanos == scale_by_multiplier(
                        time_progress.step_spec(t@.elapsed_wall_nanos),
                        old(self)@.multiplier_milli,
                    )
                },
                Err(err) => {
                    &&& err == DurationError::OutOfRange
                    &&& *final(self) == *old(self)
                },
            },
    {
        let now = WallInstant::now();
        self.tick_with_wall_time(time_progress, now)
    }
}

/// The clock state after a run of ticks with the constant step `d`, one
/// tick per instant in `nows`, in order.
pub open spec fn constant_ticks_model(pre: GameClockModel, d: int, nows: Seq<int>) -> GameClockModel
    decreases nows.len(),
{
    if nows.len() == 0 {
        pre
    } else {
        let e = nows[0] - pre.last_frame_time.frame_wall_nanos;
        let g = scale_by_multiplier(d, pre.multiplier_milli);
        constant_ticks_model(ticked_model(pre, nows[0], g, e), d, nows.drop_first())
    }
}

/// A run of constant-step ticks ends with one more tick at the last
/// instant.
proof fn lemma_constant_ticks_snoc(pre: GameClockModel, d: int, nows: Seq<int>, now: int)
    ensures
        constant_ticks_model(pre, d, nows.push(now)) == ({
            let mid = constant_ticks_model(pre, d, nows);
            ticked_model(
                mid,
                now,
                scale_by_multiplier(d, mid.multiplier_milli),
                now - mid.last_frame_time.frame_wall_nanos,
            )
        }),
    decreases nows.len(),
{
    if nows.len() == 0 {
        reveal_with_fuel(constant_ticks_model, 3);
        assert(nows.push(now).drop_first() =~= Seq::<int>::empty());
        assert(nows.push(now)[0] == now);
    } else {
        assert(nows.push(now).drop_first() =~= nows.drop_first().push(now));
        let e = nows[0] - pre.last_frame_time.frame_wall_nanos;
        let g = scale_by_multiplier(d, pre.multiplier_milli);
        lemma_constant_ticks_snoc(ticked_model(pre, nows[0], g, e), d, nows.drop_first(), now);
    }
}

/// A run of N constant-step ticks raises the total game time by exactly
/// N times the scaled step, and the frame number by N, one per tick; the
/// multiplier never moves.
pub proof fn lemma_constant_step_accumulates(pre: GameClockModel, d: int, nows: Seq<int>)
    ensures
        constant_ticks_model(pre, d, nows).total_game_nanos == pre.total_game_nanos + nows.len()
            * scale_by_multiplier(d, pre.multiplier_milli),
        constant_ticks_model(pre, d, nows).current_frame == pre.current_frame + nows.len(),
        constant_ticks_model(pre, d, nows).multiplier_milli == pre.multiplier_milli,
    decreases nows.len(),
{
    let g = scale_by_multiplier(d, pre.multiplier_milli);
    if nows.len() > 0 {
        let mid = ticked_model(pre, nows[0], g, nows[0] - pre.last_frame_time.frame_wall_nanos);
        lemma_constant_step_accumulates(mid, d, nows.drop_first());
        assert(nows.len() as int * g == nows.drop_first().len() as int * g + g) by {
            lemma_mul_is_distributive_add_other_way(g, nows.drop_first().len() as int, 1);
        }
    }
}

/// With the identity multiplier, N constant-step ticks advance the
/// total game time by exactly N times the step, and the frame number by
/// exactly one per tick.
pub proof fn lemma_constant_step_total(pre: GameClockModel, d: int, nows: Seq<int>)
    requires
        pre.multiplier_milli == MULTIPLIER_ONE,
    ensures
        constant_ticks_model(pre, d, nows).total_game_nanos == pre.total_game_nanos + nows.len()
            * d,
        constant_ticks_model(pre, d, nows).current_frame == pre.current_frame + nows.len(),
{
    lemma_scale_identity(d);
    lemma_constant_step_accumulates(pre, d, nows);
}

/// For a monotonic wall-clock source — a tick instant no earlier than
/// the previous frame's start — the produced snapshot reports
/// nonnegative elapsed wall time, whatever game-time delta the tick
/// produced.
pub proof fn lemma_monotonic_elapsed_wall_nonneg(pre: GameClockModel, now: int, g: int)
    requires
        pre.last_frame_time.frame_wall_nanos <= now,
    ensures
        ticked_model(
            pre,
            now,
            g,
            now - pre.last_frame_time.frame_wall_nanos,
        ).last_frame_time.elapsed_wall_nanos >= 0,
{
}

/// A null step freezes game time: a run of ticks with constant step
/// zero leaves the total game time unchanged, and every tick of the
/// run, however long it is and whatever the multiplier, reports zero
/// elapsed game time.
pub proof fn lemma_null_step_freezes_game_time(pre: GameClockModel, nows: Seq<int>)
    ensures
        constant_ticks_model(pre, 0, nows).total_game_nanos == pre.total_game_nanos,
        forall|i: int|
            1 <= i <= nows.len() ==> constant_ticks_model(
                pre,
                0,
                nows.subrange(0, i),
            ).last_frame_time.elapsed_game_nanos == 0,
{
    lemma_scale_null_step(pre.multiplier_milli);
    lemma_constant_step_accumulates(pre, 0, nows);
    assert forall|i: int| 1 <= i <= nows.len() implies constant_ticks_model(
        pre,
        0,
        nows.subrange(0, i),
    ).last_frame_time.elapsed_game_nanos == 0 by {
        let prefix = nows.subrange(0, i - 1);
        assert(nows.subrange(0, i) =~= prefix.push(nows[i - 1]));
        lemma_constant_ticks_snoc(pre, 0, prefix, nows[i - 1]);
        let mid = constant_ticks_model(pre, 0, prefix);
        lemma_scale_null_step(mid.multiplier_milli);
    }
}

/// The sleep request for a frame whose target period is `period_nanos`
/// when `elapsed_nanos` of it have already passed: the nonnegative
/// remainder, or nothing when the frame has overrun its budget (or the
/// remainder cannot be represented).
pub open spec fn sleep_request_spec(period_nanos: int, elapsed_nanos: int) -> Option<int> {
    if 0 <= period_nanos - elapsed_nanos <= i64::MAX {
        Some(period_nanos - elapsed_nanos)
    } else {
        None
    }
}

/// The pacing decision for one frame: how long to sleep, if at all.
///
/// The result is exactly `period - elapsed` when that remainder is
/// nonnegative (and representable), and nothing when the remainder is
/// negative: a frame that overran its budget never sleeps, and never
/// sleeps a negative span.
pub fn sleep_request(period: &TimeDelta, elapsed: &TimeDelta) -> (r: Option<TimeDelta>)
    ensures
        match r {
            Some(d) => {
                &&& sleep_request_spec(period@, elapsed@) == Some(d@)
                &&& d@ == period@ - elapsed@
                &&& 0 <= d@
            },
            None => {
                &&& sleep_request_spec(period@, elapsed@) is None
                &&& (period@ - elapsed@ < 0 || period@ - elapsed@ > i64::MAX)
            },
        },
{
    let diff: i128 = period.nanos() as i128 - elapsed.nanos() as i128;
    if 0 <= diff && diff <= i64::MAX as i128 {
        Some(TimeDelta::nanoseconds(diff as i64))
    } else {
        None
    }
}

impl GameClock {
    /// Pace the frame loop towards the counter's target frame rate,
    /// through the sleep action `f`.
    ///
    /// The remaining frame time is the counter's target period minus the
    /// wall time elapsed since the current frame started, measured
    /// against the system clock. `f` receives exactly that remainder
    /// when it is nonnegative, by [`sleep_request`]; when the frame has
    /// already overrun its budget — or no elapsed time could be measured
    /// — nothing is invoked and the loop simply proceeds.
    pub fn sleep_remaining_via<C: crate::framerate::counter::FrameCount, F: FnOnce(
        TimeDelta,
    )>(&mut self, counter: &C, f: F)
        requires
            counter.wf(),
            forall|d: TimeDelta| 0 <= d@ ==> call_requires(f, (d,)),
        ensures
            *final(self) == *old(self),
    {
        let period: TimeDelta = counter.target_time_per_frame();
        match self.last_frame_time.elapsed_time_since_frame_start() {
            Ok(elapsed) => {
                match sleep_request(&period, &elapsed) {
                    Some(remaining) => f(remaining),
                    None => {},
                }
            },
            Err(_) => {},
        }
    }
}

/// A [`GameClock`] builder, allowing for customization of the initial
/// time and parameters.
///
/// Calling [`build`](GameClockBuilder::build) on a fresh builder gives
/// the same result as [`GameClock::new`]; the initial game time, wall
/// time, frame number and multiplier can each be overridden first.
#[derive(Clone, Copy, Debug)]
pub struct GameClockBuilder {
    start_game_time: TimeDelta,
    start_wall_time: WallInstant,
    start_frame: u64,
    clock_multiplier: i64,
}

impl GameClockBuilder {
    /// The initial game time the clock's first snapshot will report.
    pub closed spec fn spec_start_game_time(&self) -> TimeDelta {
        self.start_game_time
    }

    /// The initial wall time.
    pub closed spec fn spec_start_wall_time(&self) -> WallInstant {
        self.start_wall_time
    }

    /// The initial frame number.
    pub closed spec fn spec_start_frame(&self) -> u64 {
        self.start_frame
    }

    /// The initial clock multiplier, in thousandths.
    pub closed spec fn spec_clock_multiplier(&self) -> i64 {
        self.clock_multiplier
    }

    /// Construct a new `GameClockBuilder` with default values: zero game
    /// time, the current wall time, frame zero, and the identity
    /// multiplier.
    pub fn new() -> (r: GameClockBuilder)
        ensures
            r.spec_start_game_time()@ == 0,
            r.spec_start_frame() == 0,
            r.spec_clock_multiplier() == MULTIPLIER_ONE,
    {
        GameClockBuilder {
            start_game_time: TimeDelta::zero(),
            start_wall_time: WallInstant::now(),
            start_frame: 0,
            clock_multiplier: MULTIPLIER_ONE,
        }
    }

    /// Set the initial game time when the game is started. Defaults to
    /// zero.
    pub fn start_game_time(&mut self, time: TimeDelta) -> (r: &mut GameClockBuilder)
        ensures
            r.spec_start_game_time() == time,
            r.spec_start_wall_time() == old(self).spec_start_wall_time(),
            r.spec_start_frame() == old(self).spec_start_frame(),
            r.spec_clock_multiplier() == old(self).spec_clock_multiplier(),
            *final(self) == *final(r),
    {
        self.start_game_time = time;
        self
    }

    /// Set the initial wall time when the game is started. Defaults to
    /// the current wall time.
    pub fn start_wall_time(&mut self, time: WallInstant) -> (r: &mut GameClockBuilder)
        ensures
            r.spec_start_wall_time() == time,
            r.spec_start_game_time() == old(self).spec_start_game_time(),
            r.spec_start_frame() == old(self).spec_start_frame(),
            r.spec_clock_multiplier() == old(self).spec_clock_multiplier(),
            *final(self) == *final(r),
    {
        self.start_wall_time = time;
        self
    }

    /// Set the initial frame number. Defaults to `0`.
    pub fn start_frame(&mut self, frame_num: u64) -> (r: &mut GameClockBuilder)
        ensures
            r.spec_start_frame() == frame_num,
            r.spec_start_game_time() == old(self).spec_start_game_time(),
            r.spec_start_wall_time() == old(self).spec_start_wall_time(),
            r.spec_clock_multiplier() == old(self).spec_clock_multiplier(),
            *final(self) == *final(r),
    {
        self.start_frame = frame_num;
        self
    }

    /// Set the initial clock multiplier, in thousandths. Defaults to
    /// [`MULTIPLIER_ONE`].
    pub fn clock_multiplier(&mut self, multiplier: i64) -> (r: &mut GameClockBuilder)
        ensures
            r.spec_clock_multiplier() == multiplier,
            r.spec_start_game_time() == old(self).spec_start_game_time(),
            r.spec_start_wall_time() == old(self).spec_start_wall_time(),
            r.spec_start_frame() == old(self).spec_start_frame(),
            *final(self) == *final(r),
    {
        self.clock_multiplier = multiplier;
        self
    }

    /// Construct a `GameClock` object with the set parameters. The
    /// initial snapshot reports the chosen game time, while the running
    /// total starts at zero: the total strictly reflects the deltas the
    /// clock itself produces.
    pub fn build(&self) -> (r: GameClock)
        ensures
            r@ == (GameClockModel {
                last_frame_time: GameTimeModel {
                    frame_wall_nanos: self.spec_start_wall_time()@,
                    frame_game_nanos: self.spec_start_game_time()@,
                    elapsed_game_nanos: 0,
                    elapsed_wall_nanos: 0,
                    frame_number: self.spec_start_frame() as int,
                },
                start_wall_nanos: self.spec_start_wall_time()@,
                total_game_nanos: 0,
                current_frame: self.spec_start_frame() as int,
                multiplier_milli: self.spec_clock_multiplier() as int,
            }),
    {
        GameClock {
            last_frame_time: GameTime {
                frame_wall_time: self.start_wall_time,
                frame_game_time: self.start_game_time,
                elapsed_game_time: TimeDelta::zero(),
                elapsed_wall_time: TimeDelta::zero(),
                frame_number: self.start_frame,
            },
            start_wall_time: self.start_wall_time,
            total_game_time: TimeDelta::zero(),
            current_frame: self.start_frame,
            clock_multiplier: self.clock_multiplier,
        }
    }
}

impl Default for GameClockBuilder {
    /// The same builder as [`GameClockBuilder::new`].
    fn default() -> (r: GameClockBuilder)
        ensures
            r.spec_start_game_time()@ == 0,
            r.spec_start_frame() == 0,
            r.spec_clock_multiplier() == MULTIPLIER_ONE,
    {
        GameClockBuilder::new()
    }
}

impl Default for GameClock {
    /// The same clock as [`GameClock::new`].
    fn default() -> (r: GameClock)
        ensures
            r@.current_frame == 0,
            r@.total_game_nanos == 0,
            r@.multiplier_milli == MULTIPLIER_ONE,
            r@.start_wall_nanos == r@.last_frame_time.frame_wall_nanos,
            r@.last_frame_time.frame_number == 0,
            r@.last_frame_time.frame_game_nanos == 0,
            r@.last_frame_time.elapsed_game_nanos == 0,
            r@.last_frame_time.elapsed_wall_nanos == 0,
    {
        GameClock::new()
    }
}

} // verus!
