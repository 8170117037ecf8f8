//! The mathematical model of an activity timer.

use vstd::prelude::*;
use crate::time::{max_nanos, saturating_sum};

verus! {

/// An activity timer as a plain value. Times are whole nanoseconds.
pub struct Timer {
    /// `true` while the entity is active, `false` once it has gone idle.
    pub active: bool,
    /// The time accumulated since the last reset, or `None` where idle
    /// detection is switched off.
    pub elapsed: Option<nat>,
    /// The accumulated time at which the entity goes idle.
    pub threshold: nat,
}

impl Timer {
    /// The timer that never times out.
    pub open spec fn always() -> Timer {
        Timer { active: true, elapsed: None, threshold: max_nanos() }
    }

    /// A fresh timer that goes idle once `threshold` has elapsed.
    pub open spec fn with_timeout(threshold: nat) -> Timer {
        Timer { active: true, elapsed: Some(0nat), threshold }
    }

    /// The timer with a new threshold. A timer whose idle detection was off
    /// starts accumulating from zero; the activity flag stays.
    pub open spec fn with_threshold(self, threshold: nat) -> Timer {
        Timer {
            active: self.active,
            elapsed: if self.elapsed is None { Some(0nat) } else { self.elapsed },
            threshold,
        }
    }

    /// The timer after renewed activity: active, with nothing accumulated.
    pub open spec fn reactivate(self) -> Timer {
        Timer {
            active: true,
            elapsed: if self.elapsed is None { None } else { Some(0nat) },
            threshold: self.threshold,
        }
    }

    /// Whether a tick of length `delta` takes the timer from active to idle.
    pub open spec fn fires(self, delta: nat) -> bool {
        &&& self.active
        &&& self.elapsed matches Some(e)
        &&& saturating_sum(e, delta) >= self.threshold
    }

    /// The timer after a tick of length `delta`.
    pub open spec fn step(self, delta: nat) -> Timer {
        if !self.active {
            self
        } else if self.fires(delta) {
            Timer { active: false, elapsed: Some(0nat), threshold: self.threshold }
        } else {
            match self.elapsed {
                Some(e) => Timer {
                    active: true,
                    elapsed: Some(saturating_sum(e, delta)),
                    threshold: self.threshold,
                },
                None => self,
            }
        }
    }

    /// The timer after the ticks `deltas`, in order.
    pub open spec fn run(self, deltas: Seq<nat>) -> Timer
        decreases deltas.len(),
    {
        if deltas.len() == 0 {
            self
        } else {
            self.step(deltas[0]).run(deltas.subrange(1, deltas.len() as int))
        }
    }

    /// How many of the ticks `deltas` took the timer from active to idle.
    pub open spec fn fired(self, deltas: Seq<nat>) -> nat
        decreases deltas.len(),
    {
        if deltas.len() == 0 {
            0
        } else {
            (if self.fires(deltas[0]) { 1nat } else { 0nat })
                + self.step(deltas[0]).fired(deltas.subrange(1, deltas.len() as int))
        }
    }
}

/// The total length of the ticks `deltas`.
pub open spec fn total(deltas: Seq<nat>) -> nat
    decreases deltas.len(),
{
    if deltas.len() == 0 {
        0
    } else {
        deltas[0] + total(deltas.subrange(1, deltas.len() as int))
    }
}

} // verus!
