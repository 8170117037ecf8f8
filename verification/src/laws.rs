//! General facts about the timer model.
//!
//! Each fact is stated over [`Timer`], the view of an `ActiveState`, so it
//! holds of every sequence of calls on a state that the contracts of those
//! calls describe.

use vstd::prelude::*;
use bevy_ecs::entity::Entity;
use crate::scan::{fires_on, timed_out};
use crate::state::ActiveState;
use crate::time::max_nanos;
use crate::timer::{total, Timer};

verus! {

/// An idle timer ignores ticks: it stays as it is and nothing fires.
pub proof fn idle_timer_ignores_ticks(t: Timer, deltas: Seq<nat>)
    requires
        !t.active,
    ensures
        t.run(deltas) == t,
        t.fired(deltas) == 0,
    decreases deltas.len(),
{
    if deltas.len() > 0 {
        idle_timer_ignores_ticks(t, deltas.subrange(1, deltas.len() as int));
    }
}

/// A timer whose idle detection is off ignores ticks: it stays as it is and
/// nothing fires.
pub proof fn disabled_timer_ignores_ticks(t: Timer, deltas: Seq<nat>)
    requires
        t.elapsed is None,
    ensures
        t.run(deltas) == t,
        t.fired(deltas) == 0,
    decreases deltas.len(),
{
    if deltas.len() > 0 {
        disabled_timer_ignores_ticks(t, deltas.subrange(1, deltas.len() as int));
    }
}

/// The timer that never times out stays active and as it was made, and
/// nothing ever fires, however many ticks of whatever length go by and
/// however often it is reactivated.
pub proof fn always_active_never_fires(deltas: Seq<nat>)
    ensures
        Timer::always().run(deltas) == Timer::always(),
        Timer::always().run(deltas).active,
        Timer::always().fired(deltas) == 0,
        Timer::always().reactivate() == Timer::always(),
{
    disabled_timer_ignores_ticks(Timer::always(), deltas);
}

/// An active timer, whose threshold is one that a duration can hold, goes
/// idle at the first tick that brings the accumulated time to its threshold,
/// and fires exactly then. Until that tick it stays active, nothing fires,
/// and the time accumulates tick by tick.
pub proof fn active_timer_fires_once(t: Timer, deltas: Seq<nat>)
    requires
        t.threshold <= max_nanos(),
        t.active,
        t.elapsed is Some,
        deltas.len() > 0,
    ensures
        t.elapsed.unwrap() + total(deltas) >= t.threshold ==> {
            &&& t.run(deltas) == (Timer { active: false, elapsed: Some(0nat), threshold: t.threshold })
            &&& t.fired(deltas) == 1
        },
        t.elapsed.unwrap() + total(deltas) < t.threshold ==> {
            &&& t.run(deltas) == (Timer {
                active: true,
                elapsed: Some(t.elapsed.unwrap() + total(deltas)),
                threshold: t.threshold,
            })
            &&& t.fired(deltas) == 0
        },
    decreases deltas.len(),
{
    let d = deltas[0];
    let rest = deltas.subrange(1, deltas.len() as int);
    let next = t.step(d);
    if t.fires(d) {
        idle_timer_ignores_ticks(next, rest);
    } else if rest.len() > 0 {
        active_timer_fires_once(next, rest);
    }
}

/// A fresh timer with a threshold that a duration can hold, ticked without
/// reactivation: once the ticks add up to the threshold or more, it is idle and has fired
/// exactly once; while they add up to less, it is active and has not fired.
pub proof fn timeout_fires_exactly_once(threshold: nat, deltas: Seq<nat>)
    requires
        threshold <= max_nanos(),
        deltas.len() > 0,
    ensures
        total(deltas) >= threshold ==> {
            &&& !Timer::with_timeout(threshold).run(deltas).active
            &&& Timer::with_timeout(threshold).fired(deltas) == 1
        },
        total(deltas) < threshold ==> {
            &&& Timer::with_timeout(threshold).run(deltas).active
            &&& Timer::with_timeout(threshold).fired(deltas) == 0
        },
{
    active_timer_fires_once(Timer::with_timeout(threshold), deltas);
}

/// Reactivating a timer makes it active with nothing accumulated and keeps
/// its threshold; doing so again changes nothing. Reactivating is no tick,
/// so nothing fires on it.
pub proof fn reactivate_is_idempotent(t: Timer)
    ensures
        t.reactivate().active,
        t.elapsed is Some ==> t.reactivate().elapsed == Some(0nat),
        t.elapsed is None ==> t.reactivate().elapsed is None,
        t.reactivate().threshold == t.threshold,
        t.reactivate().reactivate() == t.reactivate(),
{
}

/// The tick on which a timer fires leaves nothing accumulated. So once it
/// is reactivated it is a fresh timer with the same threshold, and the whole
/// threshold has to elapse again before it fires once more.
pub proof fn timeout_resets_accumulated_time(t: Timer, delta: nat, deltas: Seq<nat>)
    requires
        t.threshold <= max_nanos(),
        t.fires(delta),
        deltas.len() > 0,
    ensures
        !t.step(delta).active,
        t.step(delta).elapsed == Some(0nat),
        t.step(delta).reactivate() == Timer::with_timeout(t.threshold),
        total(deltas) < t.threshold ==> {
            &&& t.step(delta).reactivate().run(deltas).active
            &&& t.step(delta).reactivate().fired(deltas) == 0
        },
        total(deltas) >= t.threshold ==> {
            &&& !t.step(delta).reactivate().run(deltas).active
            &&& t.step(delta).reactivate().fired(deltas) == 1
        },
{
    timeout_fires_exactly_once(t.threshold, deltas);
}

/// A fresh timer with a threshold of zero fires and goes idle on its first
/// tick, whatever the tick's length, zero included.
pub proof fn zero_timeout_fires_on_first_tick(delta: nat)
    ensures
        Timer::with_timeout(0).fires(delta),
        !Timer::with_timeout(0).step(delta).active,
        Timer::with_timeout(0).step(delta).elapsed == Some(0nat),
{
}

/// A tick fires exactly when it takes the timer from active to idle, and a
/// tick never takes a timer from idle to active.
pub proof fn fires_exactly_on_transition(t: Timer, delta: nat)
    ensures
        t.fires(delta) <==> (t.active && !t.step(delta).active),
        !t.active ==> !t.step(delta).active,
{
}

/// Over a whole set of entities, a tick announces exactly the transitions:
/// every entry whose state fires has its entity among those timed out, every
/// entity timed out belongs to an entry whose state fires, and there are as
/// many of them as there are such entries.
pub proof fn scan_announces_exactly_the_transitions(
    entries: Seq<(Entity, ActiveState)>,
    delta: nat,
)
    ensures
        forall|i: int|
            0 <= i < entries.len() && (#[trigger] entries[i]).1@.fires(delta) ==> timed_out(
                entries,
                delta,
            ).contains(entries[i].0),
        forall|entity: Entity| #[trigger]
            timed_out(entries, delta).contains(entity) ==> exists|i: int|
                0 <= i < entries.len() && (#[trigger] entries[i]).0 == entity
                    && entries[i].1@.fires(delta),
        timed_out(entries, delta).len() == entries.filter(fires_on(delta)).len(),
        timed_out(entries, delta).len() <= entries.len(),
{
    let firing = entries.filter(fires_on(delta));
    let out = timed_out(entries, delta);
    entries.lemma_filter_len(fires_on(delta));
    assert forall|i: int| 0 <= i < entries.len() && (#[trigger] entries[i]).1@.fires(delta) implies out.contains(
        entries[i].0,
    ) by {
        entries.lemma_filter_contains(fires_on(delta), i);
        let k = choose|k: int| 0 <= k < firing.len() && firing[k] == entries[i];
        assert(out[k] == entries[i].0);
    }
    assert forall|entity: Entity| #[trigger] out.contains(entity) implies exists|i: int|
        0 <= i < entries.len() && (#[trigger] entries[i]).0 == entity && entries[i].1@.fires(
            delta,
        ) by {
        let k = choose|k: int| 0 <= k < out.len() && out[k] == entity;
        entries.lemma_filter_pred(fires_on(delta), k);
        entries.lemma_filter_contains_rev(fires_on(delta), firing[k]);
        let i = choose|i: int| 0 <= i < entries.len() && entries[i] == firing[k];
    }
}

} // verus!
