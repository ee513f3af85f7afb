//! When a request began.
use vstd::prelude::*;

verus! {

/// The time at which a request began, in microseconds since the epoch, or nothing for
/// a request whose beginning was not seen.
#[derive(Debug, PartialEq, Eq, Structural, Clone, Copy)]
pub struct RequestTimer(pub Option<i64>);

/// `Utc::now` and `DateTime::timestamp_micros`: the microseconds since the epoch, by
/// the clock of this machine. Nothing is known of the number.
#[verifier::external_body]
fn timestamp_micros() -> (microseconds: i64) {
    chrono::Utc::now().timestamp_micros()
}

impl RequestTimer {
    /// A timer that began now.
    pub fn begin() -> (timer: Self)
        ensures
            timer.0 is Some,
    {
        RequestTimer::began_at(timestamp_micros())
    }

    /// A timer that began at `start`.
    pub fn began_at(start: i64) -> (timer: Self)
        ensures
            timer.0 == Some(start),
    {
        Self(Some(start))
    }

    /// A timer that never began.
    pub fn end() -> (timer: Self)
        ensures
            timer.0 is None,
    {
        Self(None)
    }

    /// When the timer began, if it did.
    pub fn deref(&self) -> (start: &Option<i64>)
        ensures
            *start == self.0,
    {
        &self.0
    }
}

} // verus!
