//! The per-tick check over a whole set of entities.

use vstd::prelude::*;
use bevy_ecs::entity::Entity;
use std::time::Duration;
use crate::state::{check_timeout, ActiveState, TimeoutEvent};
use crate::time::duration_nanos;

verus! {

/// The entities among `entries` that a tick of length `delta` takes from
/// active to idle, in the order in which `entries` holds them.
pub open spec fn timed_out(entries: Seq<(Entity, ActiveState)>, delta: nat) -> Seq<Entity> {
    entries.filter(fires_on(delta)).map_values(|entry: (Entity, ActiveState)| entry.0)
}

/// The test that picks the entries whose state fires on a tick of length
/// `delta`.
pub open spec fn fires_on(delta: nat) -> spec_fn((Entity, ActiveState)) -> bool {
    |entry: (Entity, ActiveState)| entry.1@.fires(delta)
}

/// The entities that the events name, in order.
pub open spec fn named(events: Seq<TimeoutEvent>) -> Seq<Entity> {
    events.map_values(|event: TimeoutEvent| event.0)
}

/// Taking one more entry adds its entity to those timed out exactly when
/// its state fires.
proof fn timed_out_of_next(entries: Seq<(Entity, ActiveState)>, delta: nat, i: int)
    requires
        0 <= i < entries.len(),
    ensures
        timed_out(entries.take(i + 1), delta) == if entries[i].1@.fires(delta) {
            timed_out(entries.take(i), delta).push(entries[i].0)
        } else {
            timed_out(entries.take(i), delta)
        },
{
    let front = entries.take(i);
    assert(entries.take(i + 1) =~= front.push(entries[i]));
    front.lemma_filter_push(entries[i], fires_on(delta));
    if entries[i].1@.fires(delta) {
        assert(timed_out(entries.take(i + 1), delta) =~= timed_out(front, delta).push(
            entries[i].0,
        ));
    }
}

/// Advances every entity's state by a tick of length `delta`, each as
/// [`check_timeout`] does and independently of the others, and returns one
/// timeout event for each entity that went from active to idle in this tick.
pub fn check_timeouts(delta: Duration, entries: &mut Vec<(Entity, ActiveState)>) -> (events: Vec<
    TimeoutEvent,
>)
    requires
        forall|i: int| 0 <= i < old(entries).len() ==> (#[trigger] old(entries)[i]).1.well_formed(),
    ensures
        final(entries).len() == old(entries).len(),
        forall|i: int|
            0 <= i < old(entries).len() ==> {
                &&& (#[trigger] final(entries)[i]).0 == old(entries)[i].0
                &&& final(entries)[i].1.well_formed()
                &&& final(entries)[i].1@ == old(entries)[i].1@.step(duration_nanos(delta))
            },
        named(events@) == timed_out(old(entries)@, duration_nanos(delta)),
{
    let mut events: Vec<TimeoutEvent> = Vec::new();
    let mut i: usize = 0;
    while i < entries.len()
        invariant
            i <= entries.len(),
            entries.len() == old(entries).len(),
            forall|j: int|
                0 <= j < i ==> {
                    &&& (#[trigger] entries[j]).0 == old(entries)[j].0
                    &&& entries[j].1.well_formed()
                    &&& entries[j].1@ == old(entries)[j].1@.step(duration_nanos(delta))
                },
            forall|j: int| i <= j < entries.len() ==> (#[trigger] entries[j]) == old(entries)[j],
            forall|j: int| 0 <= j < old(entries).len() ==> (#[trigger] old(entries)[j]).1.well_formed(),
            named(events@) == timed_out(old(entries)@.take(i as int), duration_nanos(delta)),
        decreases entries.len() - i,
    {
        let ghost before = events@;
        let entry = &mut entries[i];
        let entity = entry.0;
        match check_timeout(delta, entity, &mut entry.1) {
            Some(event) => {
                events.push(event);
            },
            None => {},
        }
        proof {
            timed_out_of_next(old(entries)@, duration_nanos(delta), i as int);
            if old(entries)[i as int].1@.fires(duration_nanos(delta)) {
                assert(named(events@) =~= named(before).push(old(entries)[i as int].0));
            }
        }
        i = i + 1;
    }
    proof {
        assert(old(entries)@.take(i as int) =~= old(entries)@);
    }
    events
}

} // verus!
