//! Wall-clock time, as milliseconds since the Unix epoch.

use vstd::prelude::*;

verus! {

/// Bound on the magnitude of any instant that `chrono` can represent
/// (its range spans about 262 000 years on each side of the epoch).
pub const MAX_MILLIS: i64 = 8_300_000_000_000_000i64;

/// The current time (`chrono::Utc::now`), in milliseconds since the Unix epoch.
/// Claims only that the instant lies within `chrono`'s representable range.
#[verifier::external_body]
pub(crate) fn now_millis() -> (t: i64)
    ensures
        -MAX_MILLIS <= t <= MAX_MILLIS,
{
    chrono::Utc::now().timestamp_millis()
}

/// An instant within `chrono`'s representable range.
pub open spec fn is_instant(t: i64) -> bool {
    -MAX_MILLIS <= t <= MAX_MILLIS
}

/// A duration in milliseconds that keeps sums with representable instants
/// inside the `i64` range.
pub open spec fn duration_in_range(d: i64) -> bool {
    -MAX_MILLIS <= d <= MAX_MILLIS
}

/// The current time in milliseconds since the Unix epoch, an instant within
/// `chrono`'s range.
pub fn current_millis() -> (t: i64)
    ensures
        is_instant(t),
{
    now_millis()
}

/// Bound on the whole seconds of any instant that `chrono` can represent.
pub const MAX_SECS: i64 = 8_300_000_000_000_000i64;

/// The current time (`chrono::Utc::now`) as its whole seconds since the Unix
/// epoch (`timestamp`) and the nanoseconds past them (`timestamp_subsec_nanos`,
/// below two seconds' worth, a leap second included). Claims only those
/// ranges.
#[verifier::external_body]
fn now_parts() -> (r: (i64, u32))
    ensures
        -MAX_SECS <= r.0 <= MAX_SECS,
        r.1 < 2_000_000_000,
{
    let now = chrono::Utc::now();
    (now.timestamp(), now.timestamp_subsec_nanos())
}

/// An instant in nanoseconds since the Unix epoch within `chrono`'s range.
pub open spec fn is_nano_instant(t: i128) -> bool {
    -10_000_000_000_000_000_000_000_000int <= t <= 10_000_000_000_000_000_000_000_000int
}

/// The current time in nanoseconds since the Unix epoch.
pub fn now_nanos() -> (t: i128)
    ensures
        is_nano_instant(t),
{
    let (secs, nanos) = now_parts();
    secs as i128 * 1_000_000_000 + nanos as i128
}

} // verus!
