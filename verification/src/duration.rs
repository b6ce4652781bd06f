//! The time span that every idle query answers with.

use vstd::prelude::*;

verus! {

/// The number of milliseconds in one second.
pub const MILLIS_PER_SEC: u64 = 1000;

/// A span of time without user input, counted in whole milliseconds.
///
/// The span cannot be negative; zero means that the user is active right now.
#[derive(Clone, Copy, Debug, PartialEq, Eq, Structural)]
pub struct IdleDuration {
    pub millis: u64,
}

impl View for IdleDuration {
    type V = nat;

    /// The span in milliseconds.
    open spec fn view(&self) -> nat {
        self.millis as nat
    }
}

/// The distance from `earlier` to `later`, zero where `later` lies before `earlier`.
pub open spec fn elapsed(earlier: int, later: int) -> nat {
    if later >= earlier {
        (later - earlier) as nat
    } else {
        0
    }
}

impl IdleDuration {
    /// The span of `secs` seconds, or the longest span there is where that many
    /// milliseconds cannot be counted.
    pub open spec fn spec_from_secs(secs: u64) -> IdleDuration {
        if secs * MILLIS_PER_SEC <= u64::MAX {
            IdleDuration { millis: (secs * MILLIS_PER_SEC) as u64 }
        } else {
            IdleDuration { millis: u64::MAX }
        }
    }

    /// The span between two readings of a millisecond clock, zero where the
    /// clock has gone back.
    pub open spec fn spec_between(earlier: u64, later: u64) -> IdleDuration {
        IdleDuration { millis: elapsed(earlier as int, later as int) as u64 }
    }

    /// The span between two readings of a millisecond clock that counts from an
    /// epoch in both directions, zero where the clock has gone back.
    pub open spec fn spec_between_signed(earlier: i64, later: i64) -> IdleDuration {
        IdleDuration { millis: elapsed(earlier as int, later as int) as u64 }
    }

    /// The empty span.
    pub fn zero() -> (d: IdleDuration)
        ensures
            d == (IdleDuration { millis: 0 }),
    {
        IdleDuration { millis: 0 }
    }

    /// The span of `millis` milliseconds.
    pub fn from_millis(millis: u64) -> (d: IdleDuration)
        ensures
            d == (IdleDuration { millis }),
    {
        IdleDuration { millis }
    }

    /// The span of `secs` seconds, or the longest span there is where that many
    /// milliseconds cannot be counted.
    #[verifier::when_used_as_spec(spec_from_secs)]
    pub fn from_secs(secs: u64) -> (d: IdleDuration)
        ensures
            d == IdleDuration::spec_from_secs(secs),
    {
        if secs <= u64::MAX / MILLIS_PER_SEC {
            IdleDuration { millis: secs * MILLIS_PER_SEC }
        } else {
            IdleDuration { millis: u64::MAX }
        }
    }

    /// The span between two readings of a millisecond clock, zero where the
    /// clock has gone back.
    #[verifier::when_used_as_spec(spec_between)]
    pub fn between(earlier: u64, later: u64) -> (d: IdleDuration)
        ensures
            d == IdleDuration::spec_between(earlier, later),
            d@ == elapsed(earlier as int, later as int),
    {
        if later >= earlier {
            IdleDuration { millis: later - earlier }
        } else {
            IdleDuration { millis: 0 }
        }
    }

    /// The span between two readings of a millisecond clock that counts from an
    /// epoch in both directions, zero where the clock has gone back.
    #[verifier::when_used_as_spec(spec_between_signed)]
    pub fn between_signed(earlier: i64, later: i64) -> (d: IdleDuration)
        ensures
            d == IdleDuration::spec_between_signed(earlier, later),
            d@ == elapsed(earlier as int, later as int),
    {
        if later >= earlier {
            let distance: i128 = later as i128 - earlier as i128;
            IdleDuration { millis: distance as u64 }
        } else {
            IdleDuration { millis: 0 }
        }
    }

    /// The number of milliseconds in the span.
    pub fn as_millis(&self) -> (millis: u64)
        ensures
            millis == self@,
    {
        self.millis
    }

    /// The number of whole seconds in the span.
    pub fn as_secs(&self) -> (secs: u64)
        ensures
            secs == self@ / (MILLIS_PER_SEC as nat),
    {
        self.millis / MILLIS_PER_SEC
    }

    /// Whether the span is empty: the user is active right now.
    pub fn is_zero(&self) -> (b: bool)
        ensures
            b == (self@ == 0),
    {
        self.millis == 0
    }
}

} // verus!
