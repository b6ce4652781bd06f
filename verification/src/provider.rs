//! The sources of idle time and what one probe of a source yields.

use vstd::prelude::*;
use crate::duration::IdleDuration;
use crate::error::Error;

verus! {

/// One strategy for learning the idle time from the session.
#[derive(Clone, Copy, Debug, PartialEq, Eq, Structural)]
pub enum Provider {
    /// The compositor's own idle notification.
    Compositor,
    /// The display server's screen saver extension.
    DisplayServer,
    /// The session's idle service.
    SessionService,
    /// The listener that watches raw input events.
    EventTracker,
}

/// The outcome of one probe: a duration, or the reason why there is none.
#[derive(Clone, Copy, Debug, PartialEq, Eq, Structural)]
pub enum ProviderResult {
    /// The provider answered.
    Success(IdleDuration),
    /// The provider cannot answer on this system or at this moment.
    Unavailable(Error),
}

impl ProviderResult {
    /// Whether the provider answered.
    pub open spec fn spec_is_success(self) -> bool {
        self is Success
    }

    /// This outcome as a `Result`.
    pub open spec fn spec_into_result(self) -> Result<IdleDuration, Error> {
        match self {
            ProviderResult::Success(d) => Ok(d),
            ProviderResult::Unavailable(e) => Err(e),
        }
    }

    /// The outcome that a `Result` stands for.
    pub open spec fn spec_from_result(r: Result<IdleDuration, Error>) -> ProviderResult {
        match r {
            Ok(d) => ProviderResult::Success(d),
            Err(e) => ProviderResult::Unavailable(e),
        }
    }

    /// Whether the provider answered.
    #[verifier::when_used_as_spec(spec_is_success)]
    pub fn is_success(self) -> (b: bool)
        ensures
            b == self.spec_is_success(),
    {
        match self {
            ProviderResult::Success(_) => true,
            ProviderResult::Unavailable(_) => false,
        }
    }

    /// This outcome as a `Result`.
    #[verifier::when_used_as_spec(spec_into_result)]
    pub fn into_result(self) -> (r: Result<IdleDuration, Error>)
        ensures
            r == self.spec_into_result(),
    {
        match self {
            ProviderResult::Success(d) => Ok(d),
            ProviderResult::Unavailable(e) => Err(e),
        }
    }

    /// The outcome that a `Result` stands for.
    #[verifier::when_used_as_spec(spec_from_result)]
    pub fn from_result(r: Result<IdleDuration, Error>) -> (p: ProviderResult)
        ensures
            p == ProviderResult::spec_from_result(r),
    {
        match r {
            Ok(d) => ProviderResult::Success(d),
            Err(e) => ProviderResult::Unavailable(e),
        }
    }
}

/// Turning an outcome into a `Result` and back loses nothing, in either direction.
pub proof fn lemma_result_round_trip(p: ProviderResult, r: Result<IdleDuration, Error>)
    ensures
        ProviderResult::spec_from_result(p.spec_into_result()) == p,
        ProviderResult::spec_from_result(r).spec_into_result() == r,
{
}

} // verus!
