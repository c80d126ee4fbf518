//! The single deadline that every portal call of one run shares.

use vstd::prelude::*;
use super::contract::Failure;

verus! {

/// A failure projected to the caller together with the confirmed cleanup fact.
#[derive(Clone, Copy, Debug, PartialEq, Eq)]
pub struct RunFailure {
    pub failure: Failure,
    pub session_closed: bool,
}

impl RunFailure {
    /// Pairs a failure with whether the session was confirmed closed.
    pub fn new(failure: Failure, session_closed: bool) -> (r: Self)
        ensures
            r.failure == failure,
            r.session_closed == session_closed,
    {
        RunFailure { failure, session_closed }
    }
}

/// The shared deadline of a run.
pub struct Deadline {
    pub expires: std::time::Instant,
}

impl Deadline {
    /// A deadline `timeout_ms` milliseconds from now; an instant the clock
    /// cannot represent leaves a deadline that has already passed.
    pub fn new(timeout_ms: u32) -> (r: Self) {
        match crate::clock::instant_after_ms(timeout_ms as u64) {
            Some(expires) => Deadline { expires },
            None => Deadline { expires: crate::clock::instant_now() },
        }
    }

    /// The time left before the deadline, in nanoseconds; a passed or reached
    /// deadline is a timeout of `stage`.
    pub fn remaining(&self, stage: &'static str) -> (r: Result<u128, Failure>)
        ensures
            exists|left: Option<u128>| #[trigger] remaining_outcome(left, stage, r),
            r matches Ok(n) ==> n > 0,
            r matches Err(f) ==> f.code@ == "TIMEOUT"@ && f.stage == stage,
    {
        let left = crate::clock::nanos_until(&self.expires);
        let r = remaining_from(left, stage);
        assert(remaining_outcome(left, stage, r));
        r
    }
}

/// Whether `r` answers the clock's report `left` of the nanoseconds before
/// the deadline (`None` once it has passed): strictly positive time left is
/// returned, anything else is a timeout of `stage`.
pub open spec fn remaining_outcome(left: Option<u128>, stage: &'static str, r: Result<u128, Failure>) -> bool {
    if left matches Some(n) && n > 0 {
        r == Ok::<u128, Failure>(left->0)
    } else {
        r matches Err(f) && f.code@ == "TIMEOUT"@ && f.stage == stage
    }
}

/// Whatever the clock reports: strictly positive time left is returned, no
/// time left is a timeout of `stage`.
pub fn remaining_from(left: Option<u128>, stage: &'static str) -> (r: Result<u128, Failure>)
    ensures
        remaining_outcome(left, stage, r),
{
    match left {
        Some(n) => if n > 0 { Ok(n) } else { Err(Failure::new("TIMEOUT", stage)) },
        None => Err(Failure::new("TIMEOUT", stage)),
    }
}

} // verus!
