//! The wall clock that time stamps are read from.

use vstd::prelude::*;
use std::time::{Duration, SystemTime, SystemTimeError};

verus! {

/// A reading of the system clock. Nothing of it is visible to the proofs.
#[verifier::external_type_specification]
#[verifier::external_body]
pub struct ExSystemTime(std::time::SystemTime);

/// The failure of `SystemTime::duration_since`: the other time is later.
#[verifier::external_type_specification]
#[verifier::external_body]
pub struct ExSystemTimeError(std::time::SystemTimeError);

/// `SystemTime::now`: the clock's reading at the moment of the call. Nothing is
/// claimed of it: two readings may come in any order.
pub assume_specification[ std::time::SystemTime::now ]() -> SystemTime;

/// `SystemTime::duration_since`, with the Unix epoch as the earlier time: the
/// span from the epoch to `time`, or a failure where `time` lies before the
/// epoch. Nothing is claimed of the span.
#[verifier::external_body]
fn since_epoch(time: &SystemTime) -> (span: Result<Duration, SystemTimeError>) {
    time.duration_since(std::time::UNIX_EPOCH)
}

/// `Duration::as_millis`: the whole milliseconds in a span. Nothing is claimed
/// of the number, since the span is opaque here.
pub assume_specification[ std::time::Duration::as_millis ](span: &Duration) -> u128;

/// The number of values that a time stamp can take.
pub const STAMP_RANGE: u128 = 0x1_0000_0000_0000_0000;

/// The time stamp for a clock that stands `span_millis` milliseconds after the
/// epoch, or before the epoch where there is no such span: the milliseconds,
/// counted round the range of a stamp, and zero before the epoch.
pub open spec fn spec_millis_or_zero(span_millis: Option<u128>) -> u64 {
    match span_millis {
        Some(millis) => (millis % STAMP_RANGE) as u64,
        None => 0,
    }
}

/// A time stamp as a signed number of milliseconds, the largest there is where
/// the stamp is beyond it.
pub open spec fn spec_signed_millis(millis: u64) -> i64 {
    if millis <= i64::MAX {
        millis as i64
    } else {
        i64::MAX
    }
}

/// The time stamp for a clock that stands `span_millis` milliseconds after the
/// epoch, or before the epoch where there is no such span: the milliseconds,
/// counted round the range of a stamp, and zero before the epoch.
#[verifier::when_used_as_spec(spec_millis_or_zero)]
pub fn millis_or_zero(span_millis: Option<u128>) -> (now: u64)
    ensures
        now == spec_millis_or_zero(span_millis),
{
    match span_millis {
        Some(millis) => {
            let low: u128 = millis % STAMP_RANGE;
            low as u64
        },
        None => 0,
    }
}

/// A time stamp as a signed number of milliseconds, the largest there is where
/// the stamp is beyond it.
#[verifier::when_used_as_spec(spec_signed_millis)]
pub fn signed_millis(millis: u64) -> (signed: i64)
    ensures
        signed == spec_signed_millis(millis),
        signed >= 0,
{
    if millis <= i64::MAX as u64 {
        millis as i64
    } else {
        i64::MAX
    }
}

/// The clock's reading in whole milliseconds since the Unix epoch, zero for a
/// clock that is set before the epoch. Nothing is known of the value: the clock
/// may jump in either direction between two readings.
pub(crate) fn current_time_millis() -> (now: u64) {
    let time = SystemTime::now();
    let span_millis = match since_epoch(&time) {
        Ok(span) => Some(span.as_millis()),
        Err(_) => None,
    };
    millis_or_zero(span_millis)
}

/// The clock's reading as a signed number of milliseconds since the Unix epoch.
/// A reading of the clock is never negative: a clock before the epoch reads zero.
pub(crate) fn current_time_signed() -> (now: i64)
    ensures
        now >= 0,
{
    signed_millis(current_time_millis())
}

} // verus!
