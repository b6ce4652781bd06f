//! The compositor's idle notification as a provider.
//!
//! The compositor says when the seat falls idle and when it resumes. The state
//! kept here remembers the last change; the connection and the round trip that
//! delivers the signals are made by the caller.

use vstd::prelude::*;
use wayland_protocols::ext::idle_notify::v1::client::ext_idle_notification_v1::Event;
use crate::clock::current_time_signed;
use crate::duration::IdleDuration;
use crate::error::Error;

verus! {

/// The compositor's notification event. Nothing of its content is visible to the
/// proofs; `signal_of` reads it.
#[verifier::external_type_specification]
#[verifier::external_body]
pub struct ExEvent(
    wayland_protocols::ext::idle_notify::v1::client::ext_idle_notification_v1::Event,
);

/// What the compositor can say of the seat.
#[derive(Clone, Copy, Debug, PartialEq, Eq, Structural)]
pub enum IdleSignal {
    /// The seat has had no input for the time that was asked for.
    Idled,
    /// The seat has input again.
    Resumed,
}

/// How the exchange with the compositor went.
#[derive(Clone, Copy, Debug, PartialEq, Eq, Structural)]
pub enum Handshake {
    /// Every step succeeded and the pending signals were delivered.
    Completed,
    /// No connection to the compositor could be made.
    ConnectionFailed,
    /// The registry of globals could not be read.
    RegistryFailed,
    /// The compositor offers no seat.
    SeatMissing,
    /// The compositor offers no idle notifier.
    NotifierMissing,
    /// The round trip that delivers the signals failed.
    DispatchFailed,
}

/// What is known of the seat: whether it was active at the last signal, and
/// when that last changed. Times are milliseconds since the Unix epoch.
#[derive(Clone, Copy, Debug, PartialEq, Eq, Structural)]
pub struct WaylandIdleState {
    /// When the last signal arrived.
    pub last_fetch: i64,
    /// When the seat last went from active to idle or back.
    pub last_change: i64,
    /// Whether the seat was active at the last signal.
    pub was_active: bool,
}

/// The signal that an event of the compositor carries: that the seat fell idle,
/// that it resumed, or none for an event of a kind that is not known here.
pub uninterp spec fn carried_signal(event: &Event) -> Option<IdleSignal>;

/// Tells the variants of the compositor's notification event apart: `Idled`,
/// `Resumed`, or a variant that this library does not know. The event is opaque
/// to the proofs, so the claim is only that the result is the signal that this
/// event carries, the same for the same event.
#[verifier::external_body]
fn signal_of(event: &Event) -> (signal: Option<IdleSignal>)
    ensures
        signal == carried_signal(event),
{
    match event {
        Event::Idled => Some(IdleSignal::Idled),
        Event::Resumed => Some(IdleSignal::Resumed),
        _ => None,
    }
}

impl Handshake {
    /// The failure that an exchange ended in, if it did not complete.
    pub open spec fn spec_failure(self) -> Option<Error> {
        match self {
            Handshake::Completed => None,
            Handshake::ConnectionFailed => Some(Error::ConnectionFailed),
            Handshake::RegistryFailed => Some(Error::RegistryFailed),
            Handshake::SeatMissing => Some(Error::SeatUnavailable),
            Handshake::NotifierMissing => Some(Error::NotifierUnavailable),
            Handshake::DispatchFailed => Some(Error::DispatchFailed),
        }
    }

    /// The failure that an exchange ended in, if it did not complete.
    #[verifier::when_used_as_spec(spec_failure)]
    pub fn failure(self) -> (e: Option<Error>)
        ensures
            e == self.spec_failure(),
    {
        match self {
            Handshake::Completed => None,
            Handshake::ConnectionFailed => Some(Error::ConnectionFailed),
            Handshake::RegistryFailed => Some(Error::RegistryFailed),
            Handshake::SeatMissing => Some(Error::SeatUnavailable),
            Handshake::NotifierMissing => Some(Error::NotifierUnavailable),
            Handshake::DispatchFailed => Some(Error::DispatchFailed),
        }
    }
}

impl WaylandIdleState {
    /// The state of a seat that is taken to be active at `now`.
    pub open spec fn spec_starting_at(now: i64) -> WaylandIdleState {
        WaylandIdleState { last_fetch: now, last_change: now, was_active: true }
    }

    /// The state after `signal` has arrived at `now`. The time of the last change
    /// moves only where the signal changes whether the seat is active.
    pub open spec fn spec_apply(self, signal: IdleSignal, now: i64) -> WaylandIdleState {
        let active = signal is Resumed;
        WaylandIdleState {
            last_fetch: now,
            last_change: if active != self.was_active {
                now
            } else {
                self.last_change
            },
            was_active: active,
        }
    }

    /// The idle time at `now`: none while the seat is active, else the time since
    /// it fell idle, and zero where `now` lies before that.
    pub open spec fn spec_idle_at(self, now: i64) -> IdleDuration {
        if self.was_active {
            IdleDuration { millis: 0 }
        } else {
            IdleDuration::spec_between_signed(self.last_change, now)
        }
    }

    /// The state of a seat that is taken to be active at `now`.
    #[verifier::when_used_as_spec(spec_starting_at)]
    pub fn starting_at(now: i64) -> (s: WaylandIdleState)
        ensures
            s == WaylandIdleState::spec_starting_at(now),
    {
        WaylandIdleState { last_fetch: now, last_change: now, was_active: true }
    }

    /// The state of a seat that is taken to be active at the clock's reading.
    pub fn default() -> (s: WaylandIdleState)
        ensures
            exists|now: i64| now >= 0 && s == #[trigger] WaylandIdleState::spec_starting_at(now),
    {
        let now = current_time_signed();
        WaylandIdleState::starting_at(now)
    }

    /// Takes `signal`, which arrived at `now`.
    pub fn apply(&mut self, signal: IdleSignal, now: i64)
        ensures
            *final(self) == old(self).spec_apply(signal, now),
    {
        let active = match signal {
            IdleSignal::Idled => false,
            IdleSignal::Resumed => true,
        };
        if active != self.was_active {
            self.was_active = active;
            self.last_change = now;
        }
        self.last_fetch = now;
    }

    /// Takes an event of the compositor at the clock's reading and returns the
    /// signal that it carried. An event of a kind that is not known carries
    /// none and leaves the state as it is.
    pub fn event(&mut self, event: &Event) -> (signal: Option<IdleSignal>)
        ensures
            signal == carried_signal(event),
            match signal {
                Some(s) => exists|now: i64|
                    now >= 0 && *final(self) == #[trigger] old(self).spec_apply(s, now),
                None => *final(self) == *old(self),
            },
    {
        match signal_of(event) {
            Some(signal) => {
                let now = current_time_signed();
                self.apply(signal, now);
                Some(signal)
            },
            None => None,
        }
    }

    /// The idle time at `now`: none while the seat is active, else the time since
    /// it fell idle, and zero where `now` lies before that.
    pub fn idle_at(&self, now: i64) -> (d: IdleDuration)
        ensures
            d == self.spec_idle_at(now),
    {
        if self.was_active {
            IdleDuration::zero()
        } else {
            IdleDuration::between_signed(self.last_change, now)
        }
    }
}

/// The answer of the compositor provider at `now`, after an exchange that went
/// as `handshake` says and left `state`: the failure of the exchange, or the
/// idle time of the seat.
pub open spec fn spec_idle_after_handshake(
    handshake: Handshake,
    state: WaylandIdleState,
    now: i64,
) -> Result<IdleDuration, Error> {
    match handshake.spec_failure() {
        Some(e) => Err(e),
        None => Ok(state.spec_idle_at(now)),
    }
}

/// The answer of the compositor provider at `now`, after an exchange that went
/// as `handshake` says and left `state`.
pub fn idle_after_handshake(handshake: Handshake, state: &WaylandIdleState, now: i64) -> (r: Result<
    IdleDuration,
    Error,
>)
    ensures
        r == spec_idle_after_handshake(handshake, *state, now),
{
    match handshake.failure() {
        Some(e) => Err(e),
        None => Ok(state.idle_at(now)),
    }
}

/// The answer of the compositor provider at the clock's reading, after an
/// exchange that went as `handshake` says and left `state`. A failed exchange
/// gives its failure and an active seat gives zero, whatever the clock says.
pub fn get_idle_time_from_wayland_compositor(handshake: Handshake, state: &WaylandIdleState) -> (r:
    Result<IdleDuration, Error>)
    ensures
        exists|now: i64|
            now >= 0 && r == #[trigger] spec_idle_after_handshake(handshake, *state, now),
        handshake.spec_failure() is Some ==> r == Err::<IdleDuration, Error>(
            handshake.spec_failure()->Some_0,
        ),
        handshake is Completed && state.was_active ==> r == Ok::<IdleDuration, Error>(
            IdleDuration { millis: 0 },
        ),
{
    match handshake.failure() {
        Some(e) => {
            assert(spec_idle_after_handshake(handshake, *state, 0) == Err::<IdleDuration, Error>(e));
            Err(e)
        },
        None => {
            if state.was_active {
                assert(spec_idle_after_handshake(handshake, *state, 0) == Ok::<IdleDuration, Error>(
                    IdleDuration { millis: 0 },
                ));
                Ok(IdleDuration::zero())
            } else {
                let now = current_time_signed();
                idle_after_handshake(handshake, state, now)
            }
        },
    }
}

/// After the seat has fallen idle at `since`, further `Idled` signals change
/// nothing of the idle time: a query at `now` reports the distance from `since`
/// to `now`. After a `Resumed` signal it reports zero.
pub proof fn lemma_idle_since_change(s: WaylandIdleState, since: i64, later: i64, now: i64)
    requires
        s.was_active,
    ensures
        s.spec_apply(IdleSignal::Idled, since).spec_apply(IdleSignal::Idled, later).spec_idle_at(
            now,
        ) == IdleDuration::spec_between_signed(since, now),
        s.spec_apply(IdleSignal::Idled, since).spec_apply(IdleSignal::Resumed, later).spec_idle_at(
            now,
        ) == (IdleDuration { millis: 0 }),
{
}

} // verus!
