//! Time handling for games and other real-time simulations.
//!
//! The crate decouples internal "game" time from external "wall" time in a
//! real-time loop. A [`GameClock`] advances once per frame and hands out an
//! immutable [`GameTime`] snapshot; a [`TimeStep`] policy decides how much
//! game time a frame is worth; a [`FrameCounter`] tracks the average frame
//! rate through a swappable [`FrameRateSampler`] and flags frames that run
//! slow; a [`FrameRunner`] combines the pieces into a single per-frame
//! operation.
//!
//! All time quantities are held as signed nanosecond counts ([`TimeDelta`]
//! for durations, [`WallInstant`] for points in wall time), the clock
//! multiplier as a signed count of thousandths, and frame rates as
//! millihertz. Every operation on these representations is specified and
//! verified exactly; the only failure mode is a value that leaves the
//! representable range, reported as a [`DurationError`].

pub mod clock;
pub mod duration;
pub mod framerate;
pub mod runner;
pub mod step;

pub use crate::clock::{GameClock, GameClockBuilder, GameTime};
pub use crate::duration::{DurationError, TimeDelta, WallInstant};
pub use crate::framerate::{FrameCount, FrameCounter, FrameRate, FrameRateSampler};
pub use crate::runner::FrameRunner;
pub use crate::step::TimeStep;
