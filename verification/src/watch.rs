//! What the library relies on from `bevy_time::Stopwatch`.
//!
//! A stopwatch holds the time that has elapsed since it was last reset and
//! a pause flag. Both are opaque to the verifier and are given names here;
//! the contracts below say what each method does to them.

use vstd::prelude::*;
use bevy_time::Stopwatch;
use std::time::Duration;
use crate::time::{duration_nanos, saturating_sum};

verus! {

#[verifier::external_type_specification]
#[verifier::external_body]
pub struct ExStopwatch(bevy_time::Stopwatch);

/// The nanoseconds a stopwatch has accumulated since its last reset.
pub uninterp spec fn stopwatch_elapsed(w: Stopwatch) -> nat;

/// Whether a stopwatch is paused. A paused stopwatch ignores ticks.
pub uninterp spec fn stopwatch_paused(w: Stopwatch) -> bool;

/// Trusted: `Stopwatch::new` returns an unpaused stopwatch with no elapsed
/// time.
pub assume_specification[ Stopwatch::new ]() -> (w: Stopwatch)
    ensures
        stopwatch_elapsed(w) == 0,
        !stopwatch_paused(w),
;

/// Trusted: `Stopwatch::elapsed` returns the accumulated time and leaves
/// the stopwatch as it is.
pub assume_specification[ Stopwatch::elapsed ](w: &Stopwatch) -> (d: Duration)
    ensures
        duration_nanos(d) == stopwatch_elapsed(*w),
;

/// Trusted: `Stopwatch::tick` adds `delta` to the accumulated time of a
/// stopwatch that is not paused, stopping at the longest duration, and does
/// nothing to one that is paused. It returns the stopwatch it was given.
pub assume_specification[ Stopwatch::tick ](w: &mut Stopwatch, delta: Duration) -> (r: &Stopwatch)
    ensures
        stopwatch_paused(*final(w)) == stopwatch_paused(*old(w)),
        stopwatch_elapsed(*final(w)) == if stopwatch_paused(*old(w)) {
            stopwatch_elapsed(*old(w))
        } else {
            saturating_sum(stopwatch_elapsed(*old(w)), duration_nanos(delta))
        },
        *r == *final(w),
;

/// Trusted: `Stopwatch::reset` sets the accumulated time to zero and keeps
/// the pause flag.
pub assume_specification[ Stopwatch::reset ](w: &mut Stopwatch)
    ensures
        stopwatch_elapsed(*final(w)) == 0,
        stopwatch_paused(*final(w)) == stopwatch_paused(*old(w)),
;

} // verus!
