use chrono::Utc;
use wayland_protocols::ext::idle_notify::v1::client::ext_idle_notification_v1::Event;

use user_idle::compositor::{
    get_idle_time_from_wayland_compositor, idle_after_handshake, Handshake, IdleSignal,
    WaylandIdleState,
};
use user_idle::duration::IdleDuration;
use user_idle::error::Error;

#[test]
fn seat_starts_active() {
    let state = WaylandIdleState::starting_at(77);
    assert_eq!(state, WaylandIdleState { last_fetch: 77, last_change: 77, was_active: true });
    assert_eq!(state.idle_at(1_000_000), IdleDuration::zero());
}

#[test]
fn seat_starts_at_the_clocks_reading() {
    let before = Utc::now().timestamp_millis();
    let state = WaylandIdleState::default();
    let after = Utc::now().timestamp_millis();
    assert!(state.was_active);
    assert_eq!(state.last_fetch, state.last_change);
    assert!(before <= state.last_change && state.last_change <= after);
}

#[test]
fn idled_signal_starts_the_idle_time() {
    let mut state = WaylandIdleState::starting_at(100);
    state.apply(IdleSignal::Idled, 250);
    assert_eq!(state, WaylandIdleState { last_fetch: 250, last_change: 250, was_active: false });
    assert_eq!(state.idle_at(250), IdleDuration::zero());
    assert_eq!(state.idle_at(1250), IdleDuration::from_millis(1000));
    assert_eq!(state.idle_at(249), IdleDuration::zero());
}

#[test]
fn repeated_signal_keeps_the_time_of_the_change() {
    let mut state = WaylandIdleState::starting_at(100);
    state.apply(IdleSignal::Resumed, 150);
    assert_eq!(state, WaylandIdleState { last_fetch: 150, last_change: 100, was_active: true });
    state.apply(IdleSignal::Idled, 200);
    state.apply(IdleSignal::Idled, 300);
    assert_eq!(state, WaylandIdleState { last_fetch: 300, last_change: 200, was_active: false });
    assert_eq!(state.idle_at(500), IdleDuration::from_millis(300));
}

#[test]
fn resumed_signal_ends_the_idle_time() {
    let mut state = WaylandIdleState::starting_at(0);
    state.apply(IdleSignal::Idled, 10);
    state.apply(IdleSignal::Resumed, 40);
    assert_eq!(state, WaylandIdleState { last_fetch: 40, last_change: 40, was_active: true });
    assert_eq!(state.idle_at(90), IdleDuration::zero());
}

#[test]
fn idle_time_before_the_epoch() {
    let mut state = WaylandIdleState::starting_at(-5000);
    state.apply(IdleSignal::Idled, -3000);
    assert_eq!(state.idle_at(-1000), IdleDuration::from_millis(2000));
    assert_eq!(state.idle_at(2000), IdleDuration::from_millis(5000));
}

#[test]
fn compositor_events_are_told_apart() {
    let mut state = WaylandIdleState::starting_at(0);
    let before = Utc::now().timestamp_millis();
    assert_eq!(state.event(&Event::Idled), Some(IdleSignal::Idled));
    let after = Utc::now().timestamp_millis();
    assert!(!state.was_active);
    assert!(before <= state.last_change && state.last_change <= after);
    assert_eq!(state.last_fetch, state.last_change);
    let changed = state.last_change;
    assert_eq!(state.event(&Event::Idled), Some(IdleSignal::Idled));
    assert!(!state.was_active);
    assert_eq!(state.last_change, changed);
    assert_eq!(state.event(&Event::Resumed), Some(IdleSignal::Resumed));
    assert!(state.was_active);
    assert!(state.last_change >= changed);
}

#[test]
fn failed_handshake_gives_its_failure() {
    let mut state = WaylandIdleState::starting_at(0);
    state.apply(IdleSignal::Idled, 10);
    let cases = [
        (Handshake::ConnectionFailed, Error::ConnectionFailed),
        (Handshake::RegistryFailed, Error::RegistryFailed),
        (Handshake::SeatMissing, Error::SeatUnavailable),
        (Handshake::NotifierMissing, Error::NotifierUnavailable),
        (Handshake::DispatchFailed, Error::DispatchFailed),
    ];
    for (handshake, error) in cases {
        assert_eq!(handshake.failure(), Some(error));
        assert_eq!(idle_after_handshake(handshake, &state, 500), Err(error));
        assert_eq!(get_idle_time_from_wayland_compositor(handshake, &state), Err(error));
    }
    assert_eq!(Handshake::Completed.failure(), None);
}

#[test]
fn completed_handshake_gives_the_seats_idle_time() {
    let mut state = WaylandIdleState::starting_at(0);
    assert_eq!(idle_after_handshake(Handshake::Completed, &state, 500), Ok(IdleDuration::zero()));
    assert_eq!(
        get_idle_time_from_wayland_compositor(Handshake::Completed, &state),
        Ok(IdleDuration::zero())
    );
    state.apply(IdleSignal::Idled, 100);
    assert_eq!(
        idle_after_handshake(Handshake::Completed, &state, 500),
        Ok(IdleDuration::from_millis(400))
    );
}

#[test]
fn idle_seat_is_measured_against_the_clock() {
    let now = Utc::now().timestamp_millis();
    let mut state = WaylandIdleState::starting_at(now - 90_000);
    state.apply(IdleSignal::Idled, now - 60_000);
    let idle = get_idle_time_from_wayland_compositor(Handshake::Completed, &state).unwrap();
    assert!(idle.as_millis() >= 60_000);
    assert!(idle.as_millis() < 120_000);

    let mut ahead = WaylandIdleState::starting_at(now);
    ahead.apply(IdleSignal::Idled, now + 3_600_000);
    assert_eq!(
        get_idle_time_from_wayland_compositor(Handshake::Completed, &ahead),
        Ok(IdleDuration::zero())
    );
}
