//! The fixed policy: how many votes it takes, and how long a count lives.

use vstd::prelude::*;

verus! {

/// A count passes only when it is strictly greater than this.
pub const VOTE_THRESHOLD: u32 = 5;

/// Seconds a stored count lives after its latest increment (seven days).
pub const VOTE_TTL_SECONDS: i64 = 604800;

/// Whether a count of `count` votes has passed the threshold.
pub open spec fn exceeds_threshold(count: int) -> bool {
    count > VOTE_THRESHOLD
}

/// The status of a key whose stored count is `stored`; an absent count is zero.
pub open spec fn status_of(stored: Option<int>) -> bool {
    match stored {
        Some(count) => exceeds_threshold(count),
        None => false,
    }
}

/// A count as read from the store, as a mathematical integer.
pub open spec fn stored_count(stored: Option<u32>) -> Option<int> {
    match stored {
        Some(count) => Some(count as int),
        None => None,
    }
}

/// Tells whether `count` votes pass the threshold.
pub fn passed_threshold(count: u32) -> (passed: bool)
    ensures
        passed == exceeds_threshold(count as int),
        passed == (count >= 6),
{
    count > VOTE_THRESHOLD
}

/// Tells whether a key passes the threshold, given what the store holds for it.
pub fn status_from_stored(stored: Option<u32>) -> (passed: bool)
    ensures
        passed == status_of(stored_count(stored)),
        stored.is_none() ==> !passed,
{
    match stored {
        Some(count) => passed_threshold(count),
        None => false,
    }
}

} // verus!
