//! The activity state attached to an entity, and the per-tick check on it.

use vstd::prelude::*;
use bevy_ecs::entity::Entity;
use bevy_time::Stopwatch;
use std::time::Duration;
use crate::time::{duration_ge, duration_max, duration_nanos};
use crate::timer::Timer;
use crate::watch::{stopwatch_elapsed, stopwatch_paused};

verus! {

#[verifier::external_type_specification]
#[verifier::external_body]
pub struct ExEntity(bevy_ecs::entity::Entity);

/// Timeout Event: the entity it names has just gone from active to idle.
#[derive(Debug)]
pub struct TimeoutEvent(pub Entity);

/// Activation State: whether an entity is active or idle, and when it goes
/// idle.
#[derive(Debug)]
pub struct ActiveState {
    /// is active
    active: bool,
    /// stopwatch; `None` where the entity never times out
    watch: Option<Stopwatch>,
    /// time to idle
    time_to_idle: Duration,
}

impl View for ActiveState {
    type V = Timer;

    /// The state as a timer over nanoseconds.
    closed spec fn view(&self) -> Timer {
        Timer {
            active: self.active,
            elapsed: match self.watch {
                Some(w) => Some(stopwatch_elapsed(w)),
                None => None,
            },
            threshold: duration_nanos(self.time_to_idle),
        }
    }
}

impl Default for ActiveState {
    /// The default state never times out.
    fn default() -> (s: ActiveState)
        ensures
            s.well_formed(),
            s@ == Timer::always(),
    {
        ActiveState::always()
    }
}

impl ActiveState {
    /// The state's stopwatch, where it has one, is running: the library
    /// never pauses it.
    pub closed spec fn well_formed(self) -> bool {
        self.watch matches Some(w) ==> !stopwatch_paused(w)
    }

    /// no timeout
    pub fn always() -> (s: ActiveState)
        ensures
            s.well_formed(),
            s@ == Timer::always(),
    {
        ActiveState { active: true, watch: None, time_to_idle: duration_max() }
    }

    #[inline]
    pub fn is_active(&self) -> (b: bool)
        ensures
            b == self@.active,
    {
        self.active
    }

    #[inline]
    pub fn is_idle(&self) -> (b: bool)
        ensures
            b == !self@.active,
    {
        !self.is_active()
    }

    /// set active
    #[inline]
    pub fn active_mut(&mut self) -> (flag: &mut bool)
        ensures
            *flag == old(self)@.active,
            final(self)@ == (Timer { active: *final(flag), ..old(self)@ }),
            final(self).well_formed() == old(self).well_formed(),
    {
        &mut self.active
    }

    /// setup timeout time
    #[inline]
    pub fn time_to_idle_mut(&mut self) -> (timeout: &mut Duration)
        ensures
            duration_nanos(*timeout) == old(self)@.threshold,
            final(self)@ == (Timer { threshold: duration_nanos(*final(timeout)), ..old(self)@ }),
            final(self).well_formed() == old(self).well_formed(),
    {
        &mut self.time_to_idle
    }

    /// new active state with timeout
    pub fn new(timeout: Duration) -> (s: ActiveState)
        ensures
            s.well_formed(),
            s@ == Timer::with_timeout(duration_nanos(timeout)),
    {
        ActiveState { active: true, watch: Some(Stopwatch::new()), time_to_idle: timeout }
    }

    /// set timeout time
    pub fn set_tti_time(&mut self, timeout: Duration) -> (s: &mut ActiveState)
        requires
            old(self).well_formed(),
        ensures
            s.well_formed(),
            s@ == old(self)@.with_threshold(duration_nanos(timeout)),
            *final(self) == *final(s),
    {
        self.time_to_idle = timeout;
        if self.watch.is_none() {
            self.watch = Some(Stopwatch::new());
        }
        self
    }

    /// toggle active state
    pub fn toggle(&mut self)
        requires
            old(self).well_formed(),
        ensures
            final(self).well_formed(),
            final(self)@ == old(self)@.reactivate(),
    {
        self.active = true;
        if let Some(watch) = &mut self.watch {
            watch.reset();
        }
    }
}

/// Advances the state of `entity` by a tick of length `delta`: an idle
/// entity and one that never times out are left alone; otherwise the tick is
/// added to the stopwatch, and an entity whose time has run out is set to not
/// active with its stopwatch reset. Returns the timeout event for `entity`
/// exactly when the entity went from active to idle in this tick.
pub fn check_timeout(delta: Duration, entity: Entity, active_state: &mut ActiveState) -> (event:
    Option<TimeoutEvent>)
    requires
        old(active_state).well_formed(),
    ensures
        final(active_state).well_formed(),
        final(active_state)@ == old(active_state)@.step(duration_nanos(delta)),
        event == if old(active_state)@.fires(duration_nanos(delta)) {
            Some(TimeoutEvent(entity))
        } else {
            None
        },
{
    if active_state.is_idle() {
        return None;
    }
    let timeout = active_state.time_to_idle;
    if let Some(watch) = &mut active_state.watch {
        watch.tick(delta);

        if duration_ge(watch.elapsed(), timeout) {
            watch.reset();
            active_state.active = false;
            return Some(TimeoutEvent(entity));
        }
    }
    None
}

} // verus!
