//! Utilities for frame rate computation and management.

pub mod counter;
pub mod sample;

pub use self::counter::{FrameCount, FrameCounter};
pub use self::sample::{FrameRate, FrameRateSampler, LinearAverageSampler, RunningAverageSampler};
