//! The current time, read from `chrono`, in nanoseconds since the Unix epoch.

use vstd::prelude::*;

verus! {

/// Seconds since the Unix epoch of the latest timestamp that `chrono` can
/// represent, rounded up.
pub open spec fn timestamp_bound() -> int {
    10_000_000_000_000
}

/// Nanoseconds in a second.
pub open spec fn nanos_per_second() -> int {
    1_000_000_000
}

/// Nanoseconds since the Unix epoch of the latest time that `chrono` can
/// represent, rounded up.
pub open spec fn time_bound() -> int {
    timestamp_bound() * nanos_per_second()
}

/// The whole seconds in a span of nanoseconds, rounded toward zero (as
/// `chrono`'s `TimeDelta::num_seconds` counts them).
pub open spec fn whole_seconds(span: int) -> int {
    if span >= 0 {
        span / nanos_per_second()
    } else {
        -((-span) / nanos_per_second())
    }
}

/// Whole seconds left, rounded toward zero, from time `now` until time
/// `expiration` (negative once it has passed).
pub open spec fn seconds_left(expiration: int, now: int) -> int {
    whole_seconds(expiration - now)
}

/// Calls `chrono::Utc::now` and reads its Unix timestamp: the whole seconds
/// and the nanoseconds past them. Claimed of every outcome: the time is not
/// before the epoch (`now` panics otherwise) and lies within `chrono`'s range
/// of dates, and the nanoseconds are those of `std`'s `Duration`, under a
/// second; nothing is claimed of which time it is.
#[verifier::external_body]
fn current_instant() -> (r: (i64, u32))
    ensures
        0 <= r.0 < timestamp_bound(),
        r.1 < nanos_per_second(),
{
    let now = chrono::Utc::now();
    (now.timestamp(), now.timestamp_subsec_nanos())
}

/// The current time in nanoseconds since the Unix epoch.
pub(crate) fn current_time() -> (r: i128)
    ensures
        0 <= r < time_bound(),
{
    let (secs, nanos) = current_instant();
    secs as i128 * 1_000_000_000 + nanos as i128
}

/// The whole seconds in a span of nanoseconds, rounded toward zero.
pub(crate) fn seconds_of(span: i128) -> (r: i64)
    requires
        -0x7fff_ffff_ffff_ffff * nanos_per_second() <= span <= 0x7fff_ffff_ffff_ffff * nanos_per_second(),
    ensures
        r == whole_seconds(span as int),
{
    if span >= 0 {
        let q: i128 = span / 1_000_000_000;
        assert(q <= 0x7fff_ffff_ffff_ffff) by (nonlinear_arith)
            requires
                q == span / 1_000_000_000,
                0 <= span <= 0x7fff_ffff_ffff_ffff * 1_000_000_000,
        ;
        q as i64
    } else {
        let q: i128 = (-span) / 1_000_000_000;
        assert(q <= 0x7fff_ffff_ffff_ffff) by (nonlinear_arith)
            requires
                q == (-span) / 1_000_000_000,
                0 < -span <= 0x7fff_ffff_ffff_ffff * 1_000_000_000,
        ;
        -(q as i64)
    }
}

} // verus!
