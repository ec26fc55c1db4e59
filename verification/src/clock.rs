//! Time, as `std::time` measures it.
//!
//! Nothing in this file is proved: each function states what the standard
//! library documents of the one function that it calls.

use std::time::Duration;
use std::time::Instant;
use vstd::prelude::*;

verus! {

/// A moment on the monotonic clock, opaque to the verifier.
#[verifier::external_type_specification]
#[verifier::external_body]
pub struct ExInstant(Instant);

/// The length of `span` in nanoseconds.
pub uninterp spec fn duration_nanos(span: Duration) -> nat;

/// The length of the longest span that a `Duration` can hold: `u64::MAX`
/// seconds and 999,999,999 nanoseconds.
pub open spec fn max_nanos() -> nat {
    (u64::MAX as nat) * 1_000_000_000 + 999_999_999
}

/// `Instant::now`: the present moment.
#[verifier::external_body]
pub(crate) fn now() -> Instant {
    Instant::now()
}

/// `Instant::elapsed`: the time that has passed since `start`.
#[verifier::external_body]
pub(crate) fn elapsed(start: &Instant) -> Duration {
    start.elapsed()
}

/// `Duration::from_secs`: a span of `secs` whole seconds.
#[verifier::external_body]
pub(crate) fn seconds(secs: u64) -> (span: Duration)
    ensures
        duration_nanos(span) == secs * 1_000_000_000,
{
    Duration::from_secs(secs)
}

/// `Duration::checked_add`: the two spans added, or `None` where the sum is
/// longer than a `Duration` can hold.
#[verifier::external_body]
pub(crate) fn checked_add(left: Duration, right: Duration) -> (sum: Option<Duration>)
    ensures
        sum is Some <==> duration_nanos(left) + duration_nanos(right) <= max_nanos(),
        sum matches Some(span) ==> duration_nanos(span) == duration_nanos(left) + duration_nanos(
            right,
        ),
{
    left.checked_add(right)
}

} // verus!
