use user_idle::clock::{millis_or_zero, signed_millis};
use user_idle::display::{get_idle_time, ScreenSaverQuery};
use user_idle::duration::IdleDuration;
use user_idle::error::{Error, ErrorKind};

#[test]
fn seconds_become_milliseconds() {
    assert_eq!(IdleDuration::from_secs(42).as_millis(), 42_000);
    assert_eq!(IdleDuration::from_secs(42).as_secs(), 42);
    assert_eq!(IdleDuration::from_secs(0), IdleDuration::zero());
    assert_eq!(IdleDuration::from_millis(1999).as_secs(), 1);
    assert_eq!(IdleDuration::from_millis(2000).as_secs(), 2);
}

#[test]
fn too_many_seconds_give_the_longest_span() {
    let most = u64::MAX / 1000;
    assert_eq!(IdleDuration::from_secs(most).as_millis(), most * 1000);
    assert_eq!(IdleDuration::from_secs(most + 1).as_millis(), u64::MAX);
    assert_eq!(IdleDuration::from_secs(u64::MAX).as_millis(), u64::MAX);
}

#[test]
fn span_between_two_readings() {
    assert_eq!(IdleDuration::between(1000, 1500).as_millis(), 500);
    assert_eq!(IdleDuration::between(1500, 1000).as_millis(), 0);
    assert_eq!(IdleDuration::between(7, 7), IdleDuration::zero());
    assert_eq!(IdleDuration::between(0, u64::MAX).as_millis(), u64::MAX);
}

#[test]
fn span_between_two_signed_readings() {
    assert_eq!(IdleDuration::between_signed(-200, 300).as_millis(), 500);
    assert_eq!(IdleDuration::between_signed(300, -200).as_millis(), 0);
    assert_eq!(IdleDuration::between_signed(i64::MIN, i64::MAX).as_millis(), u64::MAX);
    assert_eq!(IdleDuration::between_signed(i64::MAX, i64::MIN).as_millis(), 0);
    assert_eq!(IdleDuration::between_signed(-5, -5).as_millis(), 0);
}

#[test]
fn zero_means_active_now() {
    assert!(IdleDuration::zero().is_zero());
    assert!(IdleDuration::from_millis(0).is_zero());
    assert!(!IdleDuration::from_millis(1).is_zero());
}

#[test]
fn every_failure_has_its_text() {
    assert_eq!(Error::ConnectionFailed.message(), "Connection failed");
    assert_eq!(Error::RegistryFailed.message(), "Failed to init registry");
    assert_eq!(Error::SeatUnavailable.message(), "Could not get Wayland seat");
    assert_eq!(Error::NotifierUnavailable.message(), "Could not get Wayland notifier");
    assert_eq!(Error::DispatchFailed.message(), "Failed to dispatch events");
    assert_eq!(
        Error::DisplayUnavailable.message(),
        "Failed to open X11 display (no X11 server available)"
    );
    assert_eq!(Error::InfoUnavailable.message(), "Failed to allocate XScreenSaverInfo");
    assert_eq!(Error::QueryRejected.message(), "Status not OK");
    assert_eq!(Error::ServiceUnavailable.message(), "Session idle service is not available");
    assert_eq!(Error::ListenerNotStarted.message(), "Start time not initialized");
    assert_eq!(Error::ListenerFailed.message(), "Input listener could not be started");
    assert_eq!(
        Error::NoProviderAvailable.message(),
        "No idle time provider available. Consider enabling the input listener for Wayland support."
    );
}

#[test]
fn every_failure_has_its_kind() {
    assert_eq!(Error::ConnectionFailed.kind(), ErrorKind::MechanismUnavailable);
    assert_eq!(Error::SeatUnavailable.kind(), ErrorKind::MechanismUnavailable);
    assert_eq!(Error::NotifierUnavailable.kind(), ErrorKind::MechanismUnavailable);
    assert_eq!(Error::DisplayUnavailable.kind(), ErrorKind::MechanismUnavailable);
    assert_eq!(Error::ServiceUnavailable.kind(), ErrorKind::MechanismUnavailable);
    assert_eq!(Error::RegistryFailed.kind(), ErrorKind::TransientFailure);
    assert_eq!(Error::DispatchFailed.kind(), ErrorKind::TransientFailure);
    assert_eq!(Error::InfoUnavailable.kind(), ErrorKind::TransientFailure);
    assert_eq!(Error::QueryRejected.kind(), ErrorKind::TransientFailure);
    assert_eq!(Error::ListenerNotStarted.kind(), ErrorKind::ListenerInitialization);
    assert_eq!(Error::ListenerFailed.kind(), ErrorKind::ListenerInitialization);
    assert_eq!(Error::NoProviderAvailable.kind(), ErrorKind::TotalExhaustion);
}

#[test]
fn answered_screen_saver_query_gives_its_milliseconds() {
    let query = ScreenSaverQuery::Answered { status: 1, idle_millis: 61_250 };
    assert_eq!(get_idle_time(query), Ok(IdleDuration::from_millis(61_250)));
    let none = ScreenSaverQuery::Answered { status: 1, idle_millis: 0 };
    assert_eq!(get_idle_time(none), Ok(IdleDuration::zero()));
}

#[test]
fn rejected_screen_saver_query_fails() {
    for status in [0, 2, -1, i32::MAX] {
        let query = ScreenSaverQuery::Answered { status, idle_millis: 61_250 };
        assert_eq!(get_idle_time(query), Err(Error::QueryRejected));
    }
}

#[test]
fn screen_saver_query_without_display_or_record_fails() {
    assert_eq!(get_idle_time(ScreenSaverQuery::NoDisplay), Err(Error::DisplayUnavailable));
    assert_eq!(get_idle_time(ScreenSaverQuery::NoInfo), Err(Error::InfoUnavailable));
}

#[test]
fn clock_before_the_epoch_reads_zero() {
    assert_eq!(millis_or_zero(None), 0);
}

#[test]
fn clock_after_the_epoch_reads_its_milliseconds() {
    assert_eq!(millis_or_zero(Some(0)), 0);
    assert_eq!(millis_or_zero(Some(1_700_000_000_123)), 1_700_000_000_123);
    assert_eq!(millis_or_zero(Some(u64::MAX as u128)), u64::MAX);
}

#[test]
fn milliseconds_beyond_a_stamp_wrap_round() {
    let range: u128 = 1 << 64;
    assert_eq!(millis_or_zero(Some(range)), 0);
    assert_eq!(millis_or_zero(Some(range + 7)), 7);
    assert_eq!(millis_or_zero(Some(3 * range + 1_000)), 1_000);
    assert_eq!(millis_or_zero(Some(u128::MAX)), u64::MAX);
}

#[test]
fn stamp_as_a_signed_number() {
    assert_eq!(signed_millis(0), 0);
    assert_eq!(signed_millis(1_700_000_000_123), 1_700_000_000_123);
    assert_eq!(signed_millis(i64::MAX as u64), i64::MAX);
    assert_eq!(signed_millis(i64::MAX as u64 + 1), i64::MAX);
    assert_eq!(signed_millis(u64::MAX), i64::MAX);
}
