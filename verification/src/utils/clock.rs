use std::time::Duration;
use std::time::SystemTime;
use std::time::UNIX_EPOCH;
use vstd::prelude::*;

verus! {

/// The length of a `Duration` in nanoseconds.
pub uninterp spec fn duration_nanos(d: Duration) -> nat;

/// `Duration::as_nanos`: the whole length in nanoseconds.
#[verifier::external_body]
pub(crate) fn nanos_of(d: Duration) -> (n: u128)
    ensures
        n == duration_nanos(d),
{
    d.as_nanos()
}

/// `SystemTime::now`, given as nanoseconds since the Unix epoch (zero for a
/// clock set before it). Nothing is known of the value: two readings may
/// even go backwards.
#[verifier::external_body]
pub(crate) fn now_nanos() -> u128 {
    SystemTime::now().duration_since(UNIX_EPOCH).map(|d| d.as_nanos()).unwrap_or(0)
}

/// Nanoseconds in a second.
pub const NANOS_PER_SECOND: u128 = 1_000_000_000;

/// The instant `ttl_seconds` after `now`, in nanoseconds; the largest
/// instant there is where that would not fit.
pub open spec fn deadline(now: u128, ttl_seconds: u64) -> u128 {
    if now + ttl_seconds * NANOS_PER_SECOND <= u128::MAX {
        (now + ttl_seconds * NANOS_PER_SECOND) as u128
    } else {
        u128::MAX
    }
}

/// The instant `ttl_seconds` after `now`.
pub fn deadline_after(now: u128, ttl_seconds: u64) -> (at: u128)
    ensures
        at == deadline(now, ttl_seconds),
{
    let span: u128 = (ttl_seconds as u128) * NANOS_PER_SECOND;
    now.saturating_add(span)
}

/// The whole seconds of an instant given in nanoseconds, as far as a
/// signed number of 64 bits can count them.
pub open spec fn seconds_of(now: u128) -> i64 {
    if now / NANOS_PER_SECOND <= i64::MAX {
        (now / NANOS_PER_SECOND) as i64
    } else {
        i64::MAX
    }
}

/// The whole seconds of an instant given in nanoseconds.
pub fn whole_seconds(now: u128) -> (seconds: i64)
    ensures
        seconds == seconds_of(now),
{
    let seconds: u128 = now / NANOS_PER_SECOND;
    if seconds <= i64::MAX as u128 {
        seconds as i64
    } else {
        i64::MAX
    }
}

} // verus!
