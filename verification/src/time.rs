//! Wall-clock instants and durations, counted in whole nanoseconds.

use vstd::prelude::*;

verus! {

/// Nanoseconds in one millisecond.
pub const NANOS_PER_MILLI: u128 = 1_000_000;

/// A length of time in nanoseconds.
#[derive(Clone, Copy, Debug, PartialEq, Eq, Structural)]
pub struct Duration {
    pub nanos: u128,
}

/// A wall-clock instant: nanoseconds since the Unix epoch.
#[derive(Clone, Copy, Debug, PartialEq, Eq, Structural)]
pub struct Timestamp {
    pub nanos: u128,
}

/// Start instant of the current tick and the length of the previous one.
#[derive(Clone, Copy, Debug, PartialEq, Eq, Structural)]
pub struct CycleTime {
    pub start_time: Timestamp,
    pub last_cycle_duration: Duration,
}

impl Duration {
    /// The duration of `millis` milliseconds.
    pub open spec fn millis(millis: u64) -> Duration {
        Duration { nanos: (millis * NANOS_PER_MILLI) as u128 }
    }

    pub fn from_millis(millis: u64) -> (duration: Duration)
        ensures
            duration == Duration::millis(millis),
            duration.nanos == millis * 1_000_000,
    {
        let wide: u128 = millis as u128;
        assert(wide * NANOS_PER_MILLI <= u64::MAX * NANOS_PER_MILLI) by (nonlinear_arith)
            requires
                wide <= u64::MAX,
        ;
        Duration { nanos: wide * NANOS_PER_MILLI }
    }
}

impl Timestamp {
    /// The Unix epoch itself.
    pub open spec fn unix_epoch() -> Timestamp {
        Timestamp { nanos: 0 }
    }

    pub fn epoch() -> (epoch: Timestamp)
        ensures
            epoch == Timestamp::unix_epoch(),
    {
        Timestamp { nanos: 0 }
    }

    /// Whether `self` is no earlier than `reference`.
    pub open spec fn not_before(self, reference: Timestamp) -> bool {
        reference.nanos <= self.nanos
    }

    /// Nanoseconds from `reference` to `self`; negative when the clock ran backwards.
    pub open spec fn nanos_since(self, reference: Timestamp) -> int {
        self.nanos - reference.nanos
    }

    /// Whether at least `span` lies between `reference` and `self`.
    pub open spec fn reached(self, reference: Timestamp, span: Duration) -> bool {
        self.nanos_since(reference) >= span.nanos
    }

    /// Time from `earlier` to `self`, or `None` when `earlier` is the later of the two.
    pub fn duration_since(&self, earlier: Timestamp) -> (elapsed: Option<Duration>)
        ensures
            self.not_before(earlier) ==> elapsed == Some(
                Duration { nanos: self.nanos_since(earlier) as u128 },
            ),
            !self.not_before(earlier) ==> elapsed.is_none(),
    {
        if earlier.nanos <= self.nanos {
            Some(Duration { nanos: self.nanos - earlier.nanos })
        } else {
            None
        }
    }

    /// Whether at least `span` has passed since `reference`.
    pub fn has_reached(&self, reference: Timestamp, span: Duration) -> (reached: bool)
        requires
            self.not_before(reference),
        ensures
            reached == self.reached(reference, span),
    {
        self.nanos - reference.nanos >= span.nanos
    }
}

} // verus!
