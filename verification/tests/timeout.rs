use bevy_activation::{check_timeout, ActiveState, TimeoutEvent};
use bevy_ecs::entity::Entity;
use std::time::Duration;

fn secs(n: u64) -> Duration {
    Duration::from_secs(n)
}

fn fired(event: &Option<TimeoutEvent>, entity: Entity) -> bool {
    match event {
        Some(TimeoutEvent(e)) => *e == entity,
        None => false,
    }
}

#[test]
fn always_is_active_and_never_times_out() {
    let entity = Entity::from_raw(7);
    let mut state = ActiveState::always();
    assert!(state.is_active());
    assert!(!state.is_idle());
    for i in 0..1000u64 {
        let delta = Duration::from_millis(i * 37 % 5000);
        assert!(check_timeout(delta, entity, &mut state).is_none());
        assert!(state.is_active());
    }
    assert!(check_timeout(Duration::MAX, entity, &mut state).is_none());
    assert!(state.is_active());
}

#[test]
fn always_holds_the_longest_duration() {
    let mut state = ActiveState::always();
    assert_eq!(*state.time_to_idle_mut(), Duration::MAX);
}

#[test]
fn default_never_times_out() {
    let entity = Entity::from_raw(1);
    let mut state = ActiveState::default();
    assert!(state.is_active());
    assert_eq!(*state.time_to_idle_mut(), Duration::MAX);
    assert!(check_timeout(secs(1_000_000), entity, &mut state).is_none());
    assert!(state.is_active());
}

#[test]
fn new_is_active_with_its_timeout() {
    let mut state = ActiveState::new(secs(2));
    assert!(state.is_active());
    assert!(!state.is_idle());
    assert_eq!(*state.time_to_idle_mut(), secs(2));
}

#[test]
fn two_ticks_of_one_second_reach_two_seconds() {
    let entity = Entity::from_raw(3);
    let mut state = ActiveState::new(secs(2));
    let first = check_timeout(secs(1), entity, &mut state);
    assert!(first.is_none());
    assert!(state.is_active());
    let second = check_timeout(secs(1), entity, &mut state);
    assert!(fired(&second, entity));
    assert!(state.is_idle());
    assert!(!state.is_active());
}

#[test]
fn reactivation_before_timeout_starts_over() {
    let entity = Entity::from_raw(4);
    let mut state = ActiveState::new(secs(2));
    assert!(check_timeout(secs(1), entity, &mut state).is_none());
    state.toggle();
    assert!(state.is_active());
    assert!(check_timeout(secs(1), entity, &mut state).is_none());
    assert!(state.is_active());
    let third = check_timeout(secs(1), entity, &mut state);
    assert!(fired(&third, entity));
    assert!(state.is_idle());
}

#[test]
fn two_timers_fire_each_at_its_own_tick() {
    let short_entity = Entity::from_raw(10);
    let long_entity = Entity::from_raw(11);
    let mut short = ActiveState::new(secs(1));
    let mut long = ActiveState::new(secs(3));

    let short_first = check_timeout(secs(1), short_entity, &mut short);
    let long_first = check_timeout(secs(1), long_entity, &mut long);
    assert!(fired(&short_first, short_entity));
    assert!(long_first.is_none());
    assert!(short.is_idle());
    assert!(long.is_active());

    let short_second = check_timeout(secs(2), short_entity, &mut short);
    let long_second = check_timeout(secs(2), long_entity, &mut long);
    assert!(short_second.is_none());
    assert!(fired(&long_second, long_entity));
    assert!(short.is_idle());
    assert!(long.is_idle());
}

#[test]
fn event_names_the_entity_that_went_idle() {
    let entity = Entity::from_raw(42);
    let other = Entity::from_raw(43);
    let mut state = ActiveState::new(secs(1));
    let event = check_timeout(secs(5), entity, &mut state);
    let TimeoutEvent(named) = event.expect("the timeout has passed");
    assert_eq!(named, entity);
    assert_ne!(named, other);
}

#[test]
fn timeout_fires_exactly_once() {
    let entity = Entity::from_raw(5);
    let mut state = ActiveState::new(Duration::from_millis(2500));
    let mut events: u32 = 0;
    for tick in 1..=10u32 {
        let event = check_timeout(Duration::from_millis(500), entity, &mut state);
        if event.is_some() {
            events += 1;
        }
        if tick < 5 {
            assert!(state.is_active());
            assert_eq!(events, 0);
        } else {
            assert!(state.is_idle());
            assert_eq!(events, 1);
        }
    }
}

#[test]
fn one_nanosecond_short_does_not_fire() {
    let entity = Entity::from_raw(6);
    let mut state = ActiveState::new(secs(2));
    assert!(check_timeout(Duration::new(1, 999_999_999), entity, &mut state).is_none());
    assert!(state.is_active());
    let event = check_timeout(Duration::from_nanos(1), entity, &mut state);
    assert!(fired(&event, entity));
    assert!(state.is_idle());
}

#[test]
fn idle_state_is_not_evaluated_again() {
    let entity = Entity::from_raw(8);
    let mut state = ActiveState::new(secs(1));
    assert!(check_timeout(secs(1), entity, &mut state).is_some());
    for _ in 0..5 {
        assert!(check_timeout(secs(10), entity, &mut state).is_none());
        assert!(state.is_idle());
    }
}

#[test]
fn toggle_on_active_state_resets_elapsed_time() {
    let entity = Entity::from_raw(9);
    let mut state = ActiveState::new(secs(3));
    assert!(check_timeout(secs(2), entity, &mut state).is_none());
    state.toggle();
    state.toggle();
    assert!(state.is_active());
    assert!(check_timeout(secs(2), entity, &mut state).is_none());
    assert!(state.is_active());
    assert!(check_timeout(secs(1), entity, &mut state).is_some());
}

#[test]
fn toggle_keeps_always_active_without_timeout() {
    let entity = Entity::from_raw(12);
    let mut state = ActiveState::always();
    state.toggle();
    assert!(state.is_active());
    assert!(check_timeout(Duration::MAX, entity, &mut state).is_none());
    assert!(state.is_active());
}

#[test]
fn timeout_leaves_nothing_accumulated() {
    let entity = Entity::from_raw(13);
    let mut state = ActiveState::new(secs(2));
    assert!(check_timeout(secs(5), entity, &mut state).is_some());
    assert!(state.is_idle());
    state.toggle();
    assert!(state.is_active());
    assert!(check_timeout(secs(1), entity, &mut state).is_none());
    assert!(state.is_active());
    assert!(check_timeout(secs(1), entity, &mut state).is_some());
    assert!(state.is_idle());
}

#[test]
fn zero_timeout_fires_on_first_tick_of_zero_length() {
    let entity = Entity::from_raw(14);
    let mut state = ActiveState::new(Duration::ZERO);
    assert!(state.is_active());
    let event = check_timeout(Duration::ZERO, entity, &mut state);
    assert!(fired(&event, entity));
    assert!(state.is_idle());
}

#[test]
fn zero_timeout_fires_on_first_tick_of_any_length() {
    let entity = Entity::from_raw(15);
    let mut state = ActiveState::new(Duration::ZERO);
    let event = check_timeout(Duration::from_millis(16), entity, &mut state);
    assert!(fired(&event, entity));
    assert!(state.is_idle());
}

#[test]
fn zero_length_tick_adds_nothing() {
    let entity = Entity::from_raw(16);
    let mut state = ActiveState::new(secs(1));
    for _ in 0..100 {
        assert!(check_timeout(Duration::ZERO, entity, &mut state).is_none());
        assert!(state.is_active());
    }
    assert!(check_timeout(secs(1), entity, &mut state).is_some());
}

#[test]
fn elapsed_time_stops_at_the_longest_duration() {
    let entity = Entity::from_raw(17);
    let mut state = ActiveState::new(Duration::MAX);
    let almost = Duration::MAX - Duration::from_nanos(1);
    assert!(check_timeout(almost, entity, &mut state).is_none());
    assert!(state.is_active());
    let event = check_timeout(Duration::MAX, entity, &mut state);
    assert!(fired(&event, entity));
    assert!(state.is_idle());
}

#[test]
fn set_tti_time_switches_idle_detection_on() {
    let entity = Entity::from_raw(18);
    let mut state = ActiveState::always();
    assert!(check_timeout(secs(100), entity, &mut state).is_none());
    state.set_tti_time(secs(2));
    assert!(state.is_active());
    assert_eq!(*state.time_to_idle_mut(), secs(2));
    assert!(check_timeout(secs(1), entity, &mut state).is_none());
    assert!(state.is_active());
    assert!(check_timeout(secs(1), entity, &mut state).is_some());
    assert!(state.is_idle());
}

#[test]
fn set_tti_time_keeps_elapsed_time_and_activity() {
    let entity = Entity::from_raw(19);
    let mut state = ActiveState::new(secs(10));
    assert!(check_timeout(secs(3), entity, &mut state).is_none());
    state.set_tti_time(secs(4));
    assert!(state.is_active());
    assert!(check_timeout(secs(1), entity, &mut state).is_some());
    assert!(state.is_idle());
    state.set_tti_time(secs(1));
    assert!(state.is_idle());
}

#[test]
fn set_tti_time_returns_the_state_for_chaining() {
    let entity = Entity::from_raw(20);
    let mut state = ActiveState::new(secs(1));
    assert!(check_timeout(secs(1), entity, &mut state).is_some());
    state.set_tti_time(secs(2)).toggle();
    assert!(state.is_active());
    assert!(check_timeout(secs(1), entity, &mut state).is_none());
    assert!(check_timeout(secs(1), entity, &mut state).is_some());
}

#[test]
fn active_mut_sets_the_flag_only() {
    let entity = Entity::from_raw(21);
    let mut state = ActiveState::new(secs(2));
    assert!(check_timeout(secs(1), entity, &mut state).is_none());
    assert!(*state.active_mut());
    *state.active_mut() = false;
    assert!(state.is_idle());
    assert!(check_timeout(secs(5), entity, &mut state).is_none());
    *state.active_mut() = true;
    assert!(state.is_active());
    // the second in the stopwatch is still there
    assert!(check_timeout(secs(1), entity, &mut state).is_some());
}

#[test]
fn time_to_idle_mut_sets_the_timeout_only() {
    let entity = Entity::from_raw(22);
    let mut state = ActiveState::new(secs(5));
    assert!(check_timeout(secs(2), entity, &mut state).is_none());
    *state.time_to_idle_mut() = secs(3);
    assert!(state.is_active());
    assert!(check_timeout(secs(1), entity, &mut state).is_some());

    let mut never = ActiveState::always();
    *never.time_to_idle_mut() = secs(1);
    assert!(check_timeout(secs(10), entity, &mut never).is_none());
    assert!(never.is_active());
}
