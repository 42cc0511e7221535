//! Points in time and spans of time, in whole seconds.

use vstd::prelude::*;

verus! {

/// A span of time in whole seconds.
#[derive(Clone, Copy, Debug, PartialEq, Eq, Structural)]
pub struct Duration {
    pub seconds: u64,
}

/// A point in time: seconds since the Unix epoch.
#[derive(Clone, Copy, Debug, PartialEq, Eq, Structural)]
pub struct Timestamp {
    pub seconds: i64,
}

/// Reads the system clock through `chrono::Utc::now` and returns its Unix
/// timestamp in seconds. Nothing is claimed of the value: it is whatever
/// the machine's clock says. `chrono` panics where that clock is set before
/// the Unix epoch.
#[verifier::external_body]
fn clock_seconds() -> (seconds: i64) {
    chrono::Utc::now().timestamp()
}

impl Duration {
    /// A span of `seconds` seconds.
    pub fn from_seconds(seconds: u64) -> (d: Self)
        ensures
            d.seconds == seconds,
    {
        Duration { seconds }
    }
}

impl Timestamp {
    /// The point in time `seconds` seconds after the Unix epoch.
    pub fn from_seconds(seconds: i64) -> (t: Self)
        ensures
            t.seconds == seconds,
    {
        Timestamp { seconds }
    }

    /// The current time by the system clock.
    pub fn now() -> (t: Self) {
        Timestamp { seconds: clock_seconds() }
    }

    /// Seconds from `self` to `now`; negative where `now` is the earlier.
    pub open spec fn age_at(self, now: Timestamp) -> int {
        now.seconds - self.seconds
    }

    /// The time elapsed from `self` to `now`, or `None` where `now` is the
    /// earlier of the two.
    pub fn elapsed_at(&self, now: Timestamp) -> (elapsed: Option<Duration>)
        ensures
            self.age_at(now) < 0 ==> elapsed.is_none(),
            self.age_at(now) >= 0 ==> elapsed.is_some() && elapsed.unwrap().seconds
                == self.age_at(now),
    {
        if now.seconds < self.seconds {
            None
        } else {
            let wide: i128 = (now.seconds as i128) - (self.seconds as i128);
            Some(Duration { seconds: wide as u64 })
        }
    }

    /// Whether `self` is strictly later than `other`.
    pub fn is_after(&self, other: Timestamp) -> (later: bool)
        ensures
            later == (self.seconds > other.seconds),
    {
        self.seconds > other.seconds
    }
}

} // verus!
