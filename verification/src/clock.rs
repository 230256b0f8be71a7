//! Readings of a monotonic clock, in milliseconds.

use vstd::prelude::*;

verus! {

/// The time from `since` to `now`, zero if the clock went back.
pub open spec fn elapsed(since: u64, now: u64) -> u64 {
    if now >= since {
        (now - since) as u64
    } else {
        0
    }
}

/// The time from `since` to `now`, zero if the clock went back.
pub fn elapsed_ms(since: u64, now: u64) -> (ms: u64)
    ensures
        ms == elapsed(since, now),
{
    if now >= since {
        now - since
    } else {
        0
    }
}

} // verus!
