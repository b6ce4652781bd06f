//! The input sources that the listener watches, and what it does with what
//! they deliver.

use vstd::prelude::*;
use evdev::{AttributeSetRef, EventType};
use crate::tracker::{update_last_input_time, ListenerState};

verus! {

/// A set of attributes of an input device. Its content is visible to the proofs
/// only through `event_types`.
#[verifier::external_type_specification]
#[verifier::external_body]
#[verifier::reject_recursive_types(T)]
pub struct ExAttributeSetRef<T>(evdev::AttributeSetRef<T>);

/// The type of an input event, a number of the kernel's input interface.
#[verifier::external_type_specification]
#[verifier::external_body]
pub struct ExEventType(evdev::EventType);

/// The event types that a set holds, each as its number.
pub uninterp spec fn event_types(set: &AttributeSetRef<EventType>) -> Set<u16>;

/// The number of the event type for keys and buttons.
pub const EV_KEY: u16 = 0x01;

/// The number of the event type for movement on a relative axis.
pub const EV_REL: u16 = 0x02;

/// The number of the event type for movement on an absolute axis.
pub const EV_ABS: u16 = 0x03;

/// `AttributeSetRef::contains` for the event type with the number `code`:
/// whether the set holds that type.
#[verifier::external_body]
fn supports(set: &AttributeSetRef<EventType>, code: u16) -> (b: bool)
    ensures
        b == event_types(set).contains(code),
{
    set.contains(EventType(code))
}

/// Whether a device with these event types shows user activity: it has keys or
/// buttons, or moves on a relative or an absolute axis.
pub open spec fn shows_activity(types: Set<u16>) -> bool {
    types.contains(EV_KEY) || types.contains(EV_REL) || types.contains(EV_ABS)
}

/// Whether the listener watches a device that supports `events`.
pub fn is_input_source(events: &AttributeSetRef<EventType>) -> (b: bool)
    ensures
        b == shows_activity(event_types(events)),
{
    supports(events, EV_KEY) || supports(events, EV_REL) || supports(events, EV_ABS)
}

/// What one read of a source's event stream gave.
#[derive(Clone, Copy, Debug, PartialEq, Eq, Structural)]
pub enum Fetch {
    /// This many events arrived.
    Events(usize),
    /// The stream failed: the device is gone, or cannot be read.
    Failed,
}

/// Picks the devices that the listener watches. `devices` holds the event types
/// that each enumerated device supports; the result holds the places of those
/// that show user activity, each once and in rising order.
pub fn select_sources(devices: &Vec<&AttributeSetRef<EventType>>) -> (watched: Vec<usize>)
    ensures
        forall|j: int|
            0 <= j < watched.len() ==> 0 <= #[trigger] watched[j] < devices.len()
                && shows_activity(event_types(devices[watched[j] as int])),
        forall|j: int, k: int| 0 <= j < k < watched.len() ==> watched[j] < watched[k],
        forall|i: int|
            0 <= i < devices.len() && shows_activity(event_types(#[trigger] devices[i]))
                ==> watched@.contains(i as usize),
{
    let mut watched: Vec<usize> = Vec::new();
    let mut i: usize = 0;
    while i < devices.len()
        invariant
            i <= devices.len(),
            forall|j: int|
                0 <= j < watched.len() ==> 0 <= #[trigger] watched[j] < i && shows_activity(
                    event_types(devices[watched[j] as int]),
                ),
            forall|j: int, k: int| 0 <= j < k < watched.len() ==> watched[j] < watched[k],
            forall|n: int|
                0 <= n < i && shows_activity(event_types(#[trigger] devices[n]))
                    ==> watched@.contains(n as usize),
        decreases devices.len() - i,
    {
        if is_input_source(devices[i]) {
            let ghost before = watched@;
            watched.push(i);
            proof {
                assert(watched@[before.len() as int] == i);
                assert forall|n: int|
                    0 <= n < i + 1 && shows_activity(
                        event_types(#[trigger] devices[n]),
                    ) implies watched@.contains(n as usize) by {
                    if n < i {
                        let j = choose|j: int| 0 <= j < before.len() && before[j] == n as usize;
                        assert(watched@[j] == n as usize);
                    }
                }
            }
        }
        i = i + 1;
    }
    watched
}

/// Tells the shared state how the listener's subscriptions went: with no source
/// subscribed the listener has failed for good, with one or more it runs.
/// Returns whether the listener goes on: it does where it has a source to read.
pub fn listener_subscribed(state: &mut ListenerState, sources: usize) -> (goes_on: bool)
    ensures
        goes_on == (sources != 0),
        *final(state) == if sources == 0 {
            old(state).spec_listener_failed()
        } else {
            old(state).spec_listener_running()
        },
{
    if sources == 0 {
        state.listener_failed();
        false
    } else {
        state.listener_running();
        true
    }
}

/// Stamps the state once for each of `count` events, each time with the clock's
/// reading.
pub fn record_events(state: &mut ListenerState, count: usize)
    ensures
        exists|times: Seq<u64>|
            times.len() == count && *final(state) == #[trigger] old(state).after_inputs(times),
{
    let ghost mut times: Seq<u64> = Seq::empty();
    let mut done: usize = 0;
    while done < count
        invariant
            done <= count,
            times.len() == done,
            *state == old(state).after_inputs(times),
        decreases count - done,
    {
        let ghost before = *state;
        update_last_input_time(state);
        proof {
            let now = choose|now: u64| *state == #[trigger] before.spec_record_input(now);
            let longer = times.push(now);
            assert(longer.drop_last() =~= times);
            times = longer;
        }
        done = done + 1;
    }
}

/// Takes what one read of a source gave and says whether to read that source
/// again. Events stamp the state; a failure ends the reading of this source and
/// touches nothing else.
pub fn handle_fetch(state: &mut ListenerState, fetch: Fetch) -> (keep_reading: bool)
    ensures
        keep_reading == (fetch is Events),
        match fetch {
            Fetch::Events(count) => exists|times: Seq<u64>|
                times.len() == count && *final(state) == #[trigger] old(state).after_inputs(times),
            Fetch::Failed => *final(state) == *old(state),
        },
{
    match fetch {
        Fetch::Events(count) => {
            record_events(state, count);
            true
        },
        Fetch::Failed => false,
    }
}


} // verus!
