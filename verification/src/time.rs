//! What the library relies on from `std::time::Duration`.
//!
//! A `Duration` is opaque to the verifier. It is read as the whole number of
//! nanoseconds it holds, and the few operations the library needs are stated
//! over that number.

use vstd::prelude::*;
use std::time::Duration;

verus! {

/// The number of nanoseconds in a duration: what `Duration::as_nanos` returns.
pub uninterp spec fn duration_nanos(d: Duration) -> nat;

/// The nanoseconds in `Duration::MAX`, the longest duration there is:
/// `u64::MAX` seconds and 999,999,999 nanoseconds.
pub open spec fn max_nanos() -> nat {
    18_446_744_073_709_551_615_999_999_999
}

/// The sum of two nanosecond counts, held at the longest duration.
pub open spec fn saturating_sum(a: nat, b: nat) -> nat {
    if a + b <= max_nanos() {
        a + b
    } else {
        max_nanos()
    }
}

/// Trusted: the constant `Duration::MAX`. The standard library documents it
/// as equal to `Duration::new(u64::MAX, 999_999_999)`.
#[verifier::external_body]
pub(crate) fn duration_max() -> (d: Duration)
    ensures
        duration_nanos(d) == max_nanos(),
{
    Duration::MAX
}

/// Trusted: `>=` on two durations, which orders them by their length.
#[verifier::external_body]
pub(crate) fn duration_ge(a: Duration, b: Duration) -> (r: bool)
    ensures
        r == (duration_nanos(a) >= duration_nanos(b)),
{
    a >= b
}

} // verus!
