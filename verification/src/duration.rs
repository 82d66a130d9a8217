//! Signed nanosecond durations and wall-clock instants.
//!
//! [`TimeDelta`] is the crate's duration type: a signed count of
//! nanoseconds, so a delta of game time may run backward when the clock
//! multiplier is negative. [`WallInstant`] is a point in wall time, held as
//! nanoseconds relative to the Unix epoch. Converting a delta to an
//! unsigned count fails with [`DurationError`] when the value is negative;
//! the failure is reported, never clamped.

use vstd::prelude::*;

verus! {

/// Nanoseconds in one millisecond.
pub const NANOS_PER_MILLI: i64 = 1_000_000;

/// Nanoseconds in one second.
pub const NANOS_PER_SEC: i64 = 1_000_000_000;

/// The error produced when a duration leaves the representable range:
/// a negative value where an unsigned count is required, or a magnitude
/// beyond the signed 64-bit nanosecond range.
#[derive(Clone, Copy, Debug, PartialEq, Eq, Structural)]
pub enum DurationError {
    /// The value cannot be represented in the requested form.
    OutOfRange,
}

impl DurationError {
    /// A short human-readable account of the error.
    pub fn description(&self) -> (r: &'static str)
        ensures
            r@ == "duration conversion out of range"@,
    {
        proof {
            reveal_strlit("duration conversion out of range");
        }
        "duration conversion out of range"
    }
}

/// A signed span of time, counted in nanoseconds.
#[derive(Clone, Copy, Debug, PartialEq, Eq, PartialOrd, Ord, Structural)]
pub struct TimeDelta {
    nanos: i64,
}

impl View for TimeDelta {
    type V = int;

    closed spec fn view(&self) -> int {
        self.nanos as int
    }
}

impl TimeDelta {
    /// The zero duration.
    pub fn zero() -> (r: TimeDelta)
        ensures
            r@ == 0,
    {
        TimeDelta { nanos: 0 }
    }

    /// A duration of `nanos` nanoseconds.
    pub fn nanoseconds(nanos: i64) -> (r: TimeDelta)
        ensures
            r@ == nanos,
    {
        TimeDelta { nanos }
    }

    /// A duration of `millis` milliseconds.
    pub fn milliseconds(millis: i64) -> (r: TimeDelta)
        requires
            millis * NANOS_PER_MILLI <= i64::MAX,
            i64::MIN <= millis * NANOS_PER_MILLI,
        ensures
            r@ == millis * NANOS_PER_MILLI,
    {
        TimeDelta { nanos: millis * NANOS_PER_MILLI }
    }

    /// A duration of `secs` seconds.
    pub fn seconds(secs: i64) -> (r: TimeDelta)
        requires
            secs * NANOS_PER_SEC <= i64::MAX,
            i64::MIN <= secs * NANOS_PER_SEC,
        ensures
            r@ == secs * NANOS_PER_SEC,
    {
        TimeDelta { nanos: secs * NANOS_PER_SEC }
    }

    /// The duration as a signed count of nanoseconds.
    pub fn nanos(&self) -> (r: i64)
        ensures
            r == self@,
    {
        self.nanos
    }

    /// True when the duration is strictly negative.
    pub fn is_negative(&self) -> (r: bool)
        ensures
            r == (self@ < 0),
    {
        self.nanos < 0
    }

    /// True when the duration is zero.
    pub fn is_zero(&self) -> (r: bool)
        ensures
            r == (self@ == 0),
    {
        self.nanos == 0
    }

    /// The duration as an unsigned count of nanoseconds, or
    /// [`DurationError::OutOfRange`] exactly when the duration is negative.
    pub fn to_unsigned_nanos(&self) -> (r: Result<u64, DurationError>)
        ensures
            self@ >= 0 ==> r == Ok::<u64, DurationError>(self@ as u64),
            self@ < 0 ==> r == Err::<u64, DurationError>(DurationError::OutOfRange),
    {
        if self.nanos >= 0 {
            Ok(self.nanos as u64)
        } else {
            Err(DurationError::OutOfRange)
        }
    }
}

/// A point in wall-clock time, counted in nanoseconds relative to the
/// Unix epoch.
#[derive(Clone, Copy, Debug, PartialEq, Eq, PartialOrd, Ord, Structural)]
pub struct WallInstant {
    nanos: i64,
}

impl View for WallInstant {
    type V = int;

    closed spec fn view(&self) -> int {
        self.nanos as int
    }
}

impl WallInstant {
    /// The instant `nanos` nanoseconds after the Unix epoch.
    pub fn from_nanos(nanos: i64) -> (r: WallInstant)
        ensures
            r@ == nanos,
    {
        WallInstant { nanos }
    }

    /// The instant as a signed count of nanoseconds since the Unix epoch.
    pub fn nanos(&self) -> (r: i64)
        ensures
            r == self@,
    {
        self.nanos
    }

    /// The signed duration from `earlier` to `self`.
    pub fn signed_duration_since(&self, earlier: &WallInstant) -> (r: TimeDelta)
        requires
            self@ - earlier@ <= i64::MAX,
            i64::MIN <= self@ - earlier@,
        ensures
            r@ == self@ - earlier@,
    {
        TimeDelta { nanos: self.nanos - earlier.nanos }
    }

    /// The current wall-clock time. When the platform clock reports an
    /// instant outside the representable range, the Unix epoch is returned
    /// instead; no property of the returned instant is assumed.
    pub fn now() -> (r: WallInstant)
    {
        match wall_clock_now_nanos() {
            Some(n) => WallInstant { nanos: n },
            None => WallInstant { nanos: 0 },
        }
    }
}

/// Relies on `chrono::Local::now` and `chrono::DateTime::timestamp_nanos_opt`
/// to read the system clock: the current time as whole nanoseconds since the
/// Unix epoch, or `None` for an instant outside the `i64` nanosecond range.
/// Nothing is assumed about the returned value.
#[verifier::external_body]
fn wall_clock_now_nanos() -> (r: Option<i64>) {
    chrono::Local::now().timestamp_nanos_opt()
}

} // verus!
