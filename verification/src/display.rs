//! The display server's screen saver extension as a provider.
//!
//! The query itself is made by the caller; this module reads its outcome.

use vstd::prelude::*;
use crate::duration::IdleDuration;
use crate::error::Error;

verus! {

/// The status with which the display server reports that a screen saver query
/// was answered.
pub const STATUS_ANSWERED: i32 = 1;

/// How a query of the screen saver extension went.
#[derive(Clone, Copy, Debug, PartialEq, Eq, Structural)]
pub enum ScreenSaverQuery {
    /// No display could be opened.
    NoDisplay,
    /// The record that takes the answer could not be allocated.
    NoInfo,
    /// The server returned `status`, with `idle_millis` in the record.
    Answered { status: i32, idle_millis: u64 },
}

/// The idle time that a screen saver query stands for: the milliseconds in the
/// record where the server answered, a failure otherwise.
pub open spec fn spec_get_idle_time(query: ScreenSaverQuery) -> Result<IdleDuration, Error> {
    match query {
        ScreenSaverQuery::NoDisplay => Err(Error::DisplayUnavailable),
        ScreenSaverQuery::NoInfo => Err(Error::InfoUnavailable),
        ScreenSaverQuery::Answered { status, idle_millis } => if status == STATUS_ANSWERED {
            Ok(IdleDuration { millis: idle_millis })
        } else {
            Err(Error::QueryRejected)
        },
    }
}

/// The idle time that a screen saver query stands for: the milliseconds in the
/// record where the server answered, a failure otherwise.
#[verifier::when_used_as_spec(spec_get_idle_time)]
pub fn get_idle_time(query: ScreenSaverQuery) -> (r: Result<IdleDuration, Error>)
    ensures
        r == spec_get_idle_time(query),
{
    match query {
        ScreenSaverQuery::NoDisplay => Err(Error::DisplayUnavailable),
        ScreenSaverQuery::NoInfo => Err(Error::InfoUnavailable),
        ScreenSaverQuery::Answered { status, idle_millis } => if status == STATUS_ANSWERED {
            Ok(IdleDuration::from_millis(idle_millis))
        } else {
            Err(Error::QueryRejected)
        },
    }
}

} // verus!
