//! Time as the library sees it: milliseconds on a monotonic clock that the
//! caller owns.

use vstd::prelude::*;

verus! {

/// How long a cached answer stays valid, in milliseconds.
pub const TTL_MILLIS: u64 = 60_000;

/// How long the blocklist refresh loop sleeps between two refreshes, in seconds.
pub const REFRESH_INTERVAL_SECS: u64 = 3600;

/// How long a listener waits for the upstream resolver's reply, in seconds.
/// No reply within that time counts as no answer.
pub const UPSTREAM_TIMEOUT_SECS: u64 = 5;

/// The instant at which an answer stored at `now` stops being served.
pub open spec fn expiry_of(now: u64) -> int {
    now + TTL_MILLIS
}

/// Whether an entry that expires at `expiry` may still be served at `now`.
pub open spec fn is_fresh(expiry: u64, now: u64) -> bool {
    now < expiry
}

/// Computes the expiry of an answer stored at `now`, or `None` where the
/// clock is so close to its end that the expiry cannot be represented.
pub fn expiry_at(now: u64) -> (r: Option<u64>)
    ensures
        r == (if expiry_of(now) <= u64::MAX { Some(expiry_of(now) as u64) } else { None }),
{
    now.checked_add(TTL_MILLIS)
}

} // verus!
