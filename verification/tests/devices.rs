use evdev::{AttributeSet, AttributeSetRef, EventType};

use user_idle::sources::{
    handle_fetch, is_input_source, listener_subscribed, record_events, select_sources, Fetch,
    EV_ABS, EV_KEY, EV_REL,
};
use user_idle::tracker::{ListenerState, Phase};

fn set_of(types: &[EventType]) -> AttributeSet<EventType> {
    let mut set = AttributeSet::<EventType>::new();
    for t in types {
        set.insert(*t);
    }
    set
}

#[test]
fn event_type_numbers_are_the_kernels() {
    assert_eq!(EV_KEY, EventType::KEY.0);
    assert_eq!(EV_REL, EventType::RELATIVE.0);
    assert_eq!(EV_ABS, EventType::ABSOLUTE.0);
}

#[test]
fn keyboard_mouse_and_touch_devices_are_watched() {
    assert!(is_input_source(&set_of(&[EventType::SYNCHRONIZATION, EventType::KEY])));
    assert!(is_input_source(&set_of(&[EventType::RELATIVE])));
    assert!(is_input_source(&set_of(&[EventType::ABSOLUTE, EventType::MISC])));
    assert!(is_input_source(&set_of(&[
        EventType::KEY,
        EventType::RELATIVE,
        EventType::ABSOLUTE
    ])));
}

#[test]
fn devices_without_keys_or_axes_are_not_watched() {
    assert!(!is_input_source(&set_of(&[])));
    assert!(!is_input_source(&set_of(&[EventType::SYNCHRONIZATION])));
    assert!(!is_input_source(&set_of(&[
        EventType::MISC,
        EventType::SWITCH,
        EventType::LED,
        EventType::SOUND,
        EventType::REPEAT,
        EventType::FORCEFEEDBACK,
        EventType::POWER,
        EventType::FORCEFEEDBACKSTATUS
    ])));
}

#[test]
fn sources_are_selected_in_order() {
    let keyboard = set_of(&[EventType::SYNCHRONIZATION, EventType::KEY, EventType::LED]);
    let lid = set_of(&[EventType::SYNCHRONIZATION, EventType::SWITCH]);
    let mouse = set_of(&[EventType::KEY, EventType::RELATIVE]);
    let speaker = set_of(&[EventType::SOUND]);
    let tablet = set_of(&[EventType::ABSOLUTE]);
    let devices: Vec<&AttributeSetRef<EventType>> =
        vec![&*lid, &*keyboard, &*speaker, &*mouse, &*tablet, &*lid];
    assert_eq!(select_sources(&devices), vec![1, 3, 4]);
    let none: Vec<&AttributeSetRef<EventType>> = vec![&*lid, &*speaker];
    assert_eq!(select_sources(&none), Vec::<usize>::new());
    assert_eq!(select_sources(&Vec::new()), Vec::<usize>::new());
    let all: Vec<&AttributeSetRef<EventType>> = vec![&*mouse, &*mouse];
    assert_eq!(select_sources(&all), vec![0, 1]);
}

#[test]
fn listener_without_sources_has_failed() {
    let mut state = ListenerState::new();
    state.start(5);
    assert!(!listener_subscribed(&mut state, 0));
    assert_eq!(state.phase, Phase::Failed);

    let mut other = ListenerState::new();
    other.start(5);
    assert!(listener_subscribed(&mut other, 3));
    assert_eq!(other.phase, Phase::Running);
    assert!(!listener_subscribed(&mut other, 0));
    assert_eq!(other.phase, Phase::Running);
}

#[test]
fn events_stamp_the_state() {
    let mut state = ListenerState::new();
    state.start(5);
    record_events(&mut state, 0);
    assert_eq!(state.last_input, None);
    assert_eq!(state.phase, Phase::Initializing);
    record_events(&mut state, 3);
    assert!(state.last_input.unwrap() > 1_600_000_000_000);
    assert_eq!(state.phase, Phase::Running);
    assert_eq!(state.start_time, 5);
}

#[test]
fn failed_fetch_ends_one_source_and_touches_nothing() {
    let mut state = ListenerState::new();
    state.start(5);
    state.record_input(9);
    let before = state;
    assert!(!handle_fetch(&mut state, Fetch::Failed));
    assert_eq!(state, before);
    assert!(handle_fetch(&mut state, Fetch::Events(0)));
    assert_eq!(state, before);
    assert!(handle_fetch(&mut state, Fetch::Events(2)));
    assert!(state.last_input.unwrap() > 9);
    assert_eq!(state.phase, Phase::Running);
}
