//! Policies for computing game time from wall time.
//!
//! A [`TimeStep`] turns the wall time a frame took into the amount of
//! game time the frame is worth, before the clock multiplier is applied.
//! The policies are pure: computing a step never changes the policy or
//! the counter it reads.

use vstd::prelude::*;

use crate::duration::TimeDelta;
use crate::framerate::counter::FrameCount;
use crate::framerate::sample::MILLIHERTZ_NANOS;

verus! {

/// Compute elapsed game time for a frame.
pub trait TimeStep {
    /// The game-time delta, in nanoseconds, that the policy assigns to a
    /// frame that took `wall_nanos` nanoseconds of wall time.
    spec fn step_spec(&self, wall_nanos: int) -> int;

    /// Compute the time step for the next frame from the frame's elapsed
    /// wall time.
    fn time_step(&self, wall_time: &TimeDelta) -> (r: TimeDelta)
        ensures
            r@ == self.step_spec(wall_time@),
    ;
}

/// A time step based on elapsed wall time: game time tracks wall time
/// one to one.
#[derive(Clone, Copy, Debug, PartialEq, Eq, Structural)]
pub struct VariableStep {}

/// A fixed time step derived from the frame rate set in a counter: every
/// frame is worth exactly one target period. The policy holds an
/// immutable copy of the counter's target period, taken when the policy
/// is built, so it never aliases a counter that is mutated elsewhere in
/// the same frame.
#[derive(Clone, Copy, Debug, PartialEq, Eq, Structural)]
pub struct FixedStep {
    period: TimeDelta,
}

/// A specific, constant time step: every frame is worth the same fixed
/// amount of game time, whatever wall time it took.
#[derive(Clone, Copy, Debug, PartialEq, Eq, Structural)]
pub struct ConstantStep {
    step: TimeDelta,
}

impl VariableStep {
    /// Construct a new `VariableStep` object.
    pub fn new() -> (r: VariableStep)
        ensures
            r == (VariableStep {  }),
    {
        VariableStep {  }
    }
}

impl Default for VariableStep {
    /// The same policy as [`VariableStep::new`].
    fn default() -> (r: VariableStep)
        ensures
            r == (VariableStep {  }),
    {
        VariableStep {  }
    }
}

impl FixedStep {
    /// The target period the policy was built with.
    pub closed spec fn spec_period(&self) -> TimeDelta {
        self.period
    }

    /// Construct a new `FixedStep` object based on the frame rate set in
    /// `counter`: the counter's target period at this moment becomes the
    /// fixed step.
    pub fn new<C: FrameCount>(counter: &C) -> (r: FixedStep)
        requires
            counter.wf(),
        ensures
            r.spec_period()@ == counter.target_period_spec(),
            0 <= r.spec_period()@ <= MILLIHERTZ_NANOS,
    {
        FixedStep { period: counter.target_time_per_frame() }
    }
}

impl ConstantStep {
    /// The fixed step.
    pub closed spec fn spec_step(&self) -> TimeDelta {
        self.step
    }

    /// Construct a new `ConstantStep` object with a set time step `step`.
    pub fn new(step: TimeDelta) -> (r: ConstantStep)
        ensures
            r.spec_step() == step,
    {
        ConstantStep { step }
    }

    /// Construct a new `ConstantStep` that does not advance game time.
    pub fn null_step() -> (r: ConstantStep)
        ensures
            r.spec_step()@ == 0,
    {
        ConstantStep::new(TimeDelta::zero())
    }
}

impl Default for ConstantStep {
    /// The same policy as [`ConstantStep::null_step`]: a zero step.
    fn default() -> (r: ConstantStep)
        ensures
            r.spec_step()@ == 0,
    {
        ConstantStep::null_step()
    }
}

impl TimeStep for VariableStep {
    /// The step is the elapsed wall time itself.
    open spec fn step_spec(&self, wall_nanos: int) -> int {
        wall_nanos
    }

    fn time_step(&self, wall_time: &TimeDelta) -> (r: TimeDelta) {
        *wall_time
    }
}

impl TimeStep for FixedStep {
    /// The step is the captured target period.
    open spec fn step_spec(&self, wall_nanos: int) -> int {
        self.spec_period()@
    }

    fn time_step(&self, wall_time: &TimeDelta) -> (r: TimeDelta) {
        self.period
    }
}

impl TimeStep for ConstantStep {
    /// The step is the configured constant.
    open spec fn step_spec(&self, wall_nanos: int) -> int {
        self.spec_step()@
    }

    fn time_step(&self, wall_time: &TimeDelta) -> (r: TimeDelta) {
        self.step
    }
}

} // verus!
