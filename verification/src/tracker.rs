//! The provider that derives idle time from raw input events.
//!
//! Nothing tells this provider how long the session has been idle. A listener
//! in the background stamps the state on every input event, and a query answers
//! with the time since the last stamp, or since the listener was first asked
//! for while no event has been seen.

use vstd::prelude::*;
use crate::clock::current_time_millis;
use crate::duration::{elapsed, IdleDuration};
use crate::error::Error;

verus! {

/// How far the listener has come.
#[derive(Clone, Copy, Debug, PartialEq, Eq, Structural)]
pub enum Phase {
    /// No query has been made; no listener has been asked for.
    Uninitialized,
    /// The listener has been asked for and is not known to watch any source yet.
    Initializing,
    /// The listener watches its sources.
    Running,
    /// The listener could not watch any source and never will.
    Failed,
}

/// The state that the listener and the queries share.
#[derive(Clone, Copy, Debug, PartialEq, Eq, Structural)]
pub struct ListenerState {
    /// How far the listener has come.
    pub phase: Phase,
    /// The clock's reading when the listener was first asked for.
    pub start_time: u64,
    /// The clock's reading at the last input event, if there has been one.
    pub last_input: Option<u64>,
}

/// What a query yields: the idle time, and whether the caller now has to spawn
/// the listener.
#[derive(Clone, Copy, Debug, PartialEq, Eq)]
pub struct Reply {
    /// The idle time, or why there is none.
    pub idle: Result<IdleDuration, Error>,
    /// Whether this query was the first, so that the listener is to be spawned.
    pub spawn_listener: bool,
}

impl ListenerState {
    /// The state of a process that has made no query yet.
    pub open spec fn initial() -> ListenerState {
        ListenerState { phase: Phase::Uninitialized, start_time: 0, last_input: None }
    }

    /// Whether the listener has been asked for and has not failed.
    pub open spec fn is_live(self) -> bool {
        self.phase is Initializing || self.phase is Running
    }

    /// The state after the listener has been asked for at `now`. Only the first
    /// request changes anything: it records `now` as the start and forgets any
    /// earlier input.
    pub open spec fn spec_start(self, now: u64) -> ListenerState {
        if self.phase is Uninitialized {
            ListenerState { phase: Phase::Initializing, start_time: now, last_input: None }
        } else {
            self
        }
    }

    /// The state after an input event at `now`: the stamp is overwritten, and a
    /// listener that delivers events is running.
    pub open spec fn spec_record_input(self, now: u64) -> ListenerState {
        ListenerState {
            phase: if self.phase is Initializing {
                Phase::Running
            } else {
                self.phase
            },
            last_input: Some(now),
            ..self
        }
    }

    /// The state after the listener has reported that it watches its sources.
    pub open spec fn spec_listener_running(self) -> ListenerState {
        if self.phase is Initializing {
            ListenerState { phase: Phase::Running, ..self }
        } else {
            self
        }
    }

    /// The state after the listener has reported that it can watch no source.
    /// A listener that runs already stays as it is.
    pub open spec fn spec_listener_failed(self) -> ListenerState {
        if self.phase is Initializing {
            ListenerState { phase: Phase::Failed, ..self }
        } else {
            self
        }
    }

    /// The clock's reading from which idle time counts: the last input, or the
    /// start while there has been none.
    pub open spec fn baseline(self) -> u64 {
        match self.last_input {
            Some(t) => t,
            None => self.start_time,
        }
    }

    /// The answer to a query at `now` that leaves the state as it is.
    pub open spec fn spec_idle_at(self, now: u64) -> Result<IdleDuration, Error> {
        match self.phase {
            Phase::Uninitialized => Err(Error::ListenerNotStarted),
            Phase::Failed => Err(Error::ListenerFailed),
            _ => Ok(IdleDuration::spec_between(self.baseline(), now)),
        }
    }

    /// The reply to a query at `now`, which first asks for the listener.
    pub open spec fn spec_reply(self, now: u64) -> Reply {
        Reply {
            idle: self.spec_start(now).spec_idle_at(now),
            spawn_listener: self.phase is Uninitialized,
        }
    }

    /// The state after the input events at `times`, in their order.
    pub open spec fn after_inputs(self, times: Seq<u64>) -> ListenerState
        decreases times.len(),
    {
        if times.len() == 0 {
            self
        } else {
            self.after_inputs(times.drop_last()).spec_record_input(times.last())
        }
    }

    /// The state after the listener has been asked for at each of `times`, in
    /// their order.
    pub open spec fn after_starts(self, times: Seq<u64>) -> ListenerState
        decreases times.len(),
    {
        if times.len() == 0 {
            self
        } else {
            self.after_starts(times.drop_last()).spec_start(times.last())
        }
    }

    /// How many of the requests at `times` ask the caller to spawn the listener.
    pub open spec fn spawns(self, times: Seq<u64>) -> nat
        decreases times.len(),
    {
        if times.len() == 0 {
            0
        } else {
            let before = self.after_starts(times.drop_last());
            self.spawns(times.drop_last()) + if before.phase is Uninitialized {
                1nat
            } else {
                0nat
            }
        }
    }

    /// The state of a process that has made no query yet.
    pub fn new() -> (s: ListenerState)
        ensures
            s == ListenerState::initial(),
    {
        ListenerState { phase: Phase::Uninitialized, start_time: 0, last_input: None }
    }

    /// Asks for the listener at `now`. Returns whether this was the first
    /// request: the caller then spawns the listener, once.
    pub fn start(&mut self, now: u64) -> (spawn: bool)
        ensures
            *final(self) == old(self).spec_start(now),
            spawn == (old(self).phase is Uninitialized),
    {
        match self.phase {
            Phase::Uninitialized => {
                self.phase = Phase::Initializing;
                self.start_time = now;
                self.last_input = None;
                true
            },
            _ => false,
        }
    }

    /// Records an input event at `now`.
    pub fn record_input(&mut self, now: u64)
        ensures
            *final(self) == old(self).spec_record_input(now),
    {
        match self.phase {
            Phase::Initializing => {
                self.phase = Phase::Running;
            },
            _ => {},
        }
        self.last_input = Some(now);
    }

    /// Records that the listener watches its sources.
    pub fn listener_running(&mut self)
        ensures
            *final(self) == old(self).spec_listener_running(),
    {
        match self.phase {
            Phase::Initializing => {
                self.phase = Phase::Running;
            },
            _ => {},
        }
    }

    /// Records that the listener can watch no source.
    pub fn listener_failed(&mut self)
        ensures
            *final(self) == old(self).spec_listener_failed(),
    {
        match self.phase {
            Phase::Initializing => {
                self.phase = Phase::Failed;
            },
            _ => {},
        }
    }

    /// The idle time at `now`: the time since the last input event, or since the
    /// start while there has been none, and zero where `now` lies before that.
    /// There is none before the listener was asked for, nor after it failed.
    pub fn idle_at(&self, now: u64) -> (r: Result<IdleDuration, Error>)
        ensures
            r == self.spec_idle_at(now),
    {
        match self.phase {
            Phase::Uninitialized => Err(Error::ListenerNotStarted),
            Phase::Failed => Err(Error::ListenerFailed),
            _ => {
                let baseline = match self.last_input {
                    Some(t) => t,
                    None => self.start_time,
                };
                Ok(IdleDuration::between(baseline, now))
            },
        }
    }

    /// Answers a query at `now`: asks for the listener if nobody has, and gives
    /// the idle time at `now`.
    pub fn query(&mut self, now: u64) -> (reply: Reply)
        ensures
            *final(self) == old(self).spec_start(now),
            reply == old(self).spec_reply(now),
    {
        let spawn_listener = self.start(now);
        let idle = self.idle_at(now);
        Reply { idle, spawn_listener }
    }
}

/// Asks for the listener, with the clock's reading as the start. Returns whether
/// this was the first request: the caller then spawns the listener, once.
pub fn ensure_listener_started(state: &mut ListenerState) -> (spawn: bool)
    ensures
        spawn == (old(state).phase is Uninitialized),
        exists|now: u64| *final(state) == #[trigger] old(state).spec_start(now),
{
    let now = current_time_millis();
    state.start(now)
}

/// Stamps the state with the clock's reading: an input event was seen.
pub fn update_last_input_time(state: &mut ListenerState)
    ensures
        exists|now: u64| *final(state) == #[trigger] old(state).spec_record_input(now),
{
    let now = current_time_millis();
    state.record_input(now);
}

/// Answers a query at the clock's reading: asks for the listener if nobody has,
/// and gives the idle time.
pub fn get_idle_time(state: &mut ListenerState) -> (reply: Reply)
    ensures
        exists|now: u64|
            *final(state) == #[trigger] old(state).spec_start(now) && reply == old(
                state,
            ).spec_reply(now),
{
    let now = current_time_millis();
    state.query(now)
}

/// Input events move a live listener to no other phase than running, leave the
/// start as it was, and leave the stamp at the last of them.
proof fn lemma_after_inputs(s: ListenerState, times: Seq<u64>)
    requires
        s.is_live(),
    ensures
        s.after_inputs(times).is_live(),
        s.after_inputs(times).start_time == s.start_time,
        times.len() > 0 ==> s.after_inputs(times).last_input == Some(times.last()),
        times.len() == 0 ==> s.after_inputs(times) == s,
    decreases times.len(),
{
    if times.len() > 0 {
        lemma_after_inputs(s, times.drop_last());
    }
}

/// Once the listener has been asked for, further requests change nothing and
/// ask for no spawn: a failed listener is not started again.
pub proof fn lemma_started_stays(s: ListenerState, times: Seq<u64>)
    requires
        !(s.phase is Uninitialized),
    ensures
        s.after_starts(times) == s,
        s.spawns(times) == 0,
    decreases times.len(),
{
    if times.len() > 0 {
        lemma_started_stays(s, times.drop_last());
    }
}

/// After input events at `times`, whatever their order, a query at a reading
/// `now` that is not before the last of them reports exactly the time since the
/// last of them. This holds in particular of events at increasing readings.
pub proof fn lemma_idle_after_inputs(s: ListenerState, times: Seq<u64>, now: u64)
    requires
        s.is_live(),
        times.len() > 0,
        now >= times.last(),
    ensures
        s.after_inputs(times).spec_idle_at(now) == Ok::<IdleDuration, Error>(
            IdleDuration { millis: (now - times.last()) as u64 },
        ),
        s.after_inputs(times).spec_start(now) == s.after_inputs(times),
{
    lemma_after_inputs(s, times);
}

/// Input events at readings that do not go back never move the stamp back.
pub proof fn lemma_stamp_monotonic(s: ListenerState, now: u64)
    requires
        s.last_input is Some ==> s.last_input->Some_0 <= now,
    ensures
        s.spec_record_input(now).last_input == Some(now),
        s.last_input is Some ==> s.last_input->Some_0 <= s.spec_record_input(
            now,
        ).last_input->Some_0,
{
}

/// Before any input event has been seen, a query reports the time since the
/// listener was first asked for. A query leaves the state untouched, and while
/// it stays untouched the reported idle time does not shrink as the clock
/// advances.
pub proof fn lemma_idle_before_first_input(start: u64, first: u64, second: u64)
    requires
        start <= first <= second,
    ensures
        ({
            let started = ListenerState::initial().spec_start(start);
            &&& started.spec_idle_at(first) == Ok::<IdleDuration, Error>(
                IdleDuration { millis: (first - start) as u64 },
            )
            &&& started.spec_start(first) == started
            &&& started.spec_idle_at(first)->Ok_0@ <= started.spec_idle_at(second)->Ok_0@
        }),
{
}

/// While a live state stays untouched, the reported idle time does not shrink
/// as the clock advances.
pub proof fn lemma_idle_grows(s: ListenerState, first: u64, second: u64)
    requires
        s.is_live(),
        first <= second,
    ensures
        s.spec_idle_at(first) is Ok,
        s.spec_idle_at(second) is Ok,
        s.spec_idle_at(first)->Ok_0@ <= s.spec_idle_at(second)->Ok_0@,
{
}

/// After any input events, a query at any reading of the clock reports the
/// distance from the last stamp to that reading, and zero where the reading
/// lies before the stamp: the idle time is never negative, however the clock
/// jumps.
pub proof fn lemma_idle_never_negative(s: ListenerState, times: Seq<u64>, now: u64)
    requires
        s.is_live(),
    ensures
        ({
            let after = s.after_inputs(times);
            &&& after.spec_idle_at(now) is Ok
            &&& after.spec_idle_at(now)->Ok_0@ == elapsed(after.baseline() as int, now as int)
            &&& now <= after.baseline() ==> after.spec_idle_at(now)->Ok_0@ == 0
        }),
{
    lemma_after_inputs(s, times);
}

/// However often the listener is asked for, it is spawned exactly once, at the
/// first request, and the start stays the reading of that first request.
pub proof fn lemma_listener_spawned_once(times: Seq<u64>)
    requires
        times.len() > 0,
    ensures
        ListenerState::initial().spawns(times) == 1,
        ListenerState::initial().after_starts(times) == ListenerState::initial().spec_start(
            times[0],
        ),
    decreases times.len(),
{
    let init = ListenerState::initial();
    let front = times.drop_last();
    if front.len() > 0 {
        lemma_listener_spawned_once(front);
        assert(front[0] == times[0]);
    } else {
        assert(init.after_starts(front) == init);
        assert(init.spawns(front) == 0);
        assert(times.last() == times[0]);
    }
}


/// No step takes the state back to where no listener had been asked for, and
/// the start, once recorded, is never recorded anew.
pub proof fn lemma_start_is_final(s: ListenerState, now: u64)
    requires
        !(s.phase is Uninitialized),
    ensures
        !(s.spec_start(now).phase is Uninitialized),
        !(s.spec_record_input(now).phase is Uninitialized),
        !(s.spec_listener_running().phase is Uninitialized),
        !(s.spec_listener_failed().phase is Uninitialized),
        s.spec_start(now).start_time == s.start_time,
        s.spec_record_input(now).start_time == s.start_time,
        s.spec_listener_running().start_time == s.start_time,
        s.spec_listener_failed().start_time == s.start_time,
{
}

/// A listener that has failed stays failed whatever happens, and no query is
/// answered from then on.
pub proof fn lemma_failure_is_final(s: ListenerState, now: u64)
    requires
        s.phase is Failed,
    ensures
        s.spec_start(now).phase is Failed,
        s.spec_record_input(now).phase is Failed,
        s.spec_listener_running().phase is Failed,
        s.spec_listener_failed().phase is Failed,
        s.spec_reply(now) == (Reply {
            idle: Err(Error::ListenerFailed),
            spawn_listener: false,
        }),
{
}

/// A listener that runs keeps running: the failure of one source, or a late
/// report of failure, does not stop it.
pub proof fn lemma_running_is_final(s: ListenerState, now: u64)
    requires
        s.phase is Running,
    ensures
        s.spec_start(now).phase is Running,
        s.spec_record_input(now).phase is Running,
        s.spec_listener_running().phase is Running,
        s.spec_listener_failed().phase is Running,
{
}


} // verus!
