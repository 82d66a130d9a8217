//! Running frame simulations with a frame counter.
//!
//! A [`FrameRunner`] combines a [`GameClock`] and a [`FrameCount`]
//! object, advancing both once per frame: each tick starts a new frame
//! on the clock and feeds the produced [`GameTime`] to the counter's
//! sampler. [`do_frame`](FrameRunner::do_frame) performs one whole frame:
//! tick, run the caller's frame logic, then pace the loop through an
//! injected sleep action.

use vstd::prelude::*;

use crate::clock::{tick_ok, ticked_model, GameClock, GameTime};
use crate::duration::{DurationError, TimeDelta, WallInstant};
use crate::framerate::counter::FrameCount;
use crate::framerate::sample::{rate_millihertz, rate_of};
use crate::step::TimeStep;

verus! {

/// A helper type for running frame simulations with a frame counter.
#[derive(Clone, Debug)]
pub struct FrameRunner<C: FrameCount> {
    clock: GameClock,
    counter: C,
}

impl<C: FrameCount> FrameRunner<C> {
    /// The contained clock.
    pub closed spec fn spec_clock(&self) -> GameClock {
        self.clock
    }

    /// The contained counter.
    pub closed spec fn spec_counter(&self) -> C {
        self.counter
    }

    /// Construct a new `FrameRunner` from a `GameClock` and a
    /// `FrameCount`.
    pub fn new(clock: GameClock, counter: C) -> (r: FrameRunner<C>)
        requires
            counter.wf(),
        ensures
            r.spec_clock() == clock,
            r.spec_counter() == counter,
    {
        FrameRunner { clock, counter }
    }

    /// Get a reference to the contained `GameClock`.
    pub fn clock(&self) -> (r: &GameClock)
        ensures
            *r == self.spec_clock(),
    {
        &self.clock
    }

    /// Get a mutable reference to the contained `GameClock`.
    pub fn clock_mut(&mut self) -> (r: &mut GameClock)
        ensures
            *r == old(self).spec_clock(),
            final(self).spec_clock() == *final(r),
            final(self).spec_counter() == old(self).spec_counter(),
    {
        &mut self.clock
    }

    /// Get a reference to the contained `FrameCount`.
    pub fn counter(&self) -> (r: &C)
        ensures
            *r == self.spec_counter(),
    {
        &self.counter
    }

    /// Get a mutable reference to the contained `FrameCount`.
    pub fn counter_mut(&mut self) -> (r: &mut C)
        ensures
            *r == old(self).spec_counter(),
            final(self).spec_counter() == *final(r),
            final(self).spec_clock() == old(self).spec_clock(),
    {
        &mut self.counter
    }

    /// Mark the start of a new frame, updating time and frame rate
    /// statistics: the clock ticks at the current wall time as
    /// [`GameClock::tick`] does, and on success the counter observes the
    /// produced snapshot.
    pub fn tick<T: TimeStep>(&mut self, time_step: &T) -> (r: Result<GameTime, DurationError>)
        requires
            old(self).spec_counter().wf(),
            old(self).spec_clock()@.current_frame < u64::MAX,
        ensures
            final(self).spec_counter().wf(),
            match r {
                Ok(t) => {
                    &&& tick_ok(old(self).spec_clock()@, time_step, t@.frame_wall_nanos)
                    &&& final(self).spec_clock()@ == ticked_model(
                        old(self).spec_clock()@,
                        t@.frame_wall_nanos,
                        t@.elapsed_game_nanos,
                        t@.elapsed_wall_nanos,
                    )
                    &&& t@ == final(self).spec_clock()@.last_frame_time
                    &&& t@.elapsed_game_nanos == crate::clock::scale_by_multiplier(
                        time_step.step_spec(t@.elapsed_wall_nanos),
                        old(self).spec_clock()@.multiplier_milli,
                    )
                    &&& old(self).spec_counter().ticks_to(final(self).spec_counter(), rate_of(t))
                },
                Err(err) => {
                    &&& err == DurationError::OutOfRange
                    &&& *final(self) == *old(self)
                },
            },
    {
        let time = match self.clock.tick(time_step) {
            Ok(t) => t,
            Err(err) => {
                return Err(err);
            },
        };
        self.counter.tick(&time);
        Ok(time)
    }

    /// Mark the start of a new frame with a specified wall time,
    /// updating time and frame rate statistics: the clock ticks as
    /// [`GameClock::tick_with_wall_time`] does, and on success the
    /// counter observes the produced snapshot.
    pub fn tick_with_wall_time<T: TimeStep>(
        &mut self,
        time_step: &T,
        frame_start: WallInstant,
    ) -> (r: Result<GameTime, DurationError>)
        requires
            old(self).spec_counter().wf(),
            old(self).spec_clock()@.current_frame < u64::MAX,
        ensures
            final(self).spec_counter().wf(),
            ({
                let e = frame_start@ - old(self).spec_clock()@.last_frame_time.frame_wall_nanos;
                let g = crate::clock::scale_by_multiplier(
                    time_step.step_spec(e),
                    old(self).spec_clock()@.multiplier_milli,
                );
                match r {
                    Ok(t) => {
                        &&& tick_ok(old(self).spec_clock()@, time_step, frame_start@)
                        &&& final(self).spec_clock()@ == ticked_model(
                            old(self).spec_clock()@,
                            frame_start@,
                            g,
                            e,
                        )
                        &&& t@ == final(self).spec_clock()@.last_frame_time
                        &&& old(self).spec_counter().ticks_to(
                            final(self).spec_counter(),
                            rate_of(t),
                        )
                    },
                    Err(err) => {
                        &&& !tick_ok(old(self).spec_clock()@, time_step, frame_start@)
                        &&& err == DurationError::OutOfRange
                        &&& *final(self) == *old(self)
                    },
                }
            }),
    {
        let time = match self.clock.tick_with_wall_time(time_step, frame_start) {
            Ok(t) => t,
            Err(err) => {
                return Err(err);
            },
        };
        self.counter.tick(&time);
        Ok(time)
    }

    /// Perform one frame of the simulation.
    ///
    /// The clock and counter tick as in [`tick`](FrameRunner::tick), the
    /// produced [`GameTime`] is handed to `frame_fn` — the caller's
    /// simulation or render logic — and the loop is then paced through
    /// `sleep_fn` as [`GameClock::sleep_remaining_via`] does. When the
    /// tick fails, nothing runs and the runner is unchanged.
    pub fn do_frame<T: TimeStep, F: FnOnce(GameTime), G: FnOnce(TimeDelta)>(
        &mut self,
        time_step: &T,
        frame_fn: F,
        sleep_fn: G,
    ) -> (r: Result<(), DurationError>)
        requires
            old(self).spec_counter().wf(),
            old(self).spec_clock()@.current_frame < u64::MAX,
            forall|t: GameTime| call_requires(frame_fn, (t,)),
            forall|d: TimeDelta| 0 <= d@ ==> call_requires(sleep_fn, (d,)),
        ensures
            final(self).spec_counter().wf(),
            match r {
                Ok(u) => {
                    let t = final(self).spec_clock()@.last_frame_time;
                    &&& final(self).spec_clock()@ == ticked_model(
                        old(self).spec_clock()@,
                        t.frame_wall_nanos,
                        t.elapsed_game_nanos,
                        t.elapsed_wall_nanos,
                    )
                    &&& t.elapsed_game_nanos == crate::clock::scale_by_multiplier(
                        time_step.step_spec(t.elapsed_wall_nanos),
                        old(self).spec_clock()@.multiplier_milli,
                    )
                    &&& old(self).spec_counter().ticks_to(
                        final(self).spec_counter(),
                        rate_millihertz(t.elapsed_wall_nanos) as u64,
                    )
                },
                Err(err) => {
                    &&& err == DurationError::OutOfRange
                    &&& *final(self) == *old(self)
                },
            },
    {
        let time = match self.tick(time_step) {
            Ok(t) => t,
            Err(err) => {
                return Err(err);
            },
        };
        frame_fn(time);
        self.clock.sleep_remaining_via(&self.counter, sleep_fn);
        Ok(())
    }
}

} // verus!
