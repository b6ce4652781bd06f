//! The failures that an idle query can end in.

use vstd::prelude::*;

verus! {

/// Why an idle query, or one provider's probe, gave no duration.
#[derive(Clone, Copy, Debug, PartialEq, Eq, Structural)]
pub enum Error {
    /// No connection to the compositor could be made.
    ConnectionFailed,
    /// The compositor's registry could not be read.
    RegistryFailed,
    /// The compositor offers no seat.
    SeatUnavailable,
    /// The compositor offers no idle notifier.
    NotifierUnavailable,
    /// The round trip that delivers the compositor's events failed.
    DispatchFailed,
    /// No display server could be reached.
    DisplayUnavailable,
    /// The display server's screen saver record could not be allocated.
    InfoUnavailable,
    /// The display server rejected the screen saver query.
    QueryRejected,
    /// The session's idle service did not answer.
    ServiceUnavailable,
    /// The input listener has not been started.
    ListenerNotStarted,
    /// The input listener could not subscribe to any input source.
    ListenerFailed,
    /// Every provider was asked and none could answer.
    NoProviderAvailable,
}

/// The broad class of a failure, which decides how it is handled.
#[derive(Clone, Copy, Debug, PartialEq, Eq, Structural)]
pub enum ErrorKind {
    /// What a provider needs is absent on this system.
    MechanismUnavailable,
    /// A single call into the underlying mechanism failed.
    TransientFailure,
    /// The input listener could not be brought up.
    ListenerInitialization,
    /// Every provider reported that it is unavailable.
    TotalExhaustion,
}

impl Error {
    /// The class that this failure belongs to.
    pub open spec fn spec_kind(self) -> ErrorKind {
        match self {
            Error::ConnectionFailed => ErrorKind::MechanismUnavailable,
            Error::RegistryFailed => ErrorKind::TransientFailure,
            Error::SeatUnavailable => ErrorKind::MechanismUnavailable,
            Error::NotifierUnavailable => ErrorKind::MechanismUnavailable,
            Error::DispatchFailed => ErrorKind::TransientFailure,
            Error::DisplayUnavailable => ErrorKind::MechanismUnavailable,
            Error::InfoUnavailable => ErrorKind::TransientFailure,
            Error::QueryRejected => ErrorKind::TransientFailure,
            Error::ServiceUnavailable => ErrorKind::MechanismUnavailable,
            Error::ListenerNotStarted => ErrorKind::ListenerInitialization,
            Error::ListenerFailed => ErrorKind::ListenerInitialization,
            Error::NoProviderAvailable => ErrorKind::TotalExhaustion,
        }
    }

    /// The text that describes this failure.
    pub open spec fn spec_message(self) -> Seq<char> {
        match self {
            Error::ConnectionFailed => "Connection failed"@,
            Error::RegistryFailed => "Failed to init registry"@,
            Error::SeatUnavailable => "Could not get Wayland seat"@,
            Error::NotifierUnavailable => "Could not get Wayland notifier"@,
            Error::DispatchFailed => "Failed to dispatch events"@,
            Error::DisplayUnavailable => "Failed to open X11 display (no X11 server available)"@,
            Error::InfoUnavailable => "Failed to allocate XScreenSaverInfo"@,
            Error::QueryRejected => "Status not OK"@,
            Error::ServiceUnavailable => "Session idle service is not available"@,
            Error::ListenerNotStarted => "Start time not initialized"@,
            Error::ListenerFailed => "Input listener could not be started"@,
            Error::NoProviderAvailable =>
                "No idle time provider available. Consider enabling the input listener for Wayland support."@,
        }
    }

    /// The class that this failure belongs to.
    #[verifier::when_used_as_spec(spec_kind)]
    pub fn kind(self) -> (kind: ErrorKind)
        ensures
            kind == self.spec_kind(),
    {
        match self {
            Error::ConnectionFailed => ErrorKind::MechanismUnavailable,
            Error::RegistryFailed => ErrorKind::TransientFailure,
            Error::SeatUnavailable => ErrorKind::MechanismUnavailable,
            Error::NotifierUnavailable => ErrorKind::MechanismUnavailable,
            Error::DispatchFailed => ErrorKind::TransientFailure,
            Error::DisplayUnavailable => ErrorKind::MechanismUnavailable,
            Error::InfoUnavailable => ErrorKind::TransientFailure,
            Error::QueryRejected => ErrorKind::TransientFailure,
            Error::ServiceUnavailable => ErrorKind::MechanismUnavailable,
            Error::ListenerNotStarted => ErrorKind::ListenerInitialization,
            Error::ListenerFailed => ErrorKind::ListenerInitialization,
            Error::NoProviderAvailable => ErrorKind::TotalExhaustion,
        }
    }

    /// The text that describes this failure.
    pub fn message(self) -> (text: String)
        ensures
            text@ == self.spec_message(),
    {
        match self {
            Error::ConnectionFailed => "Connection failed".to_owned(),
            Error::RegistryFailed => "Failed to init registry".to_owned(),
            Error::SeatUnavailable => "Could not get Wayland seat".to_owned(),
            Error::NotifierUnavailable => "Could not get Wayland notifier".to_owned(),
            Error::DispatchFailed => "Failed to dispatch events".to_owned(),
            Error::DisplayUnavailable =>
                "Failed to open X11 display (no X11 server available)".to_owned(),
            Error::InfoUnavailable => "Failed to allocate XScreenSaverInfo".to_owned(),
            Error::QueryRejected => "Status not OK".to_owned(),
            Error::ServiceUnavailable => "Session idle service is not available".to_owned(),
            Error::ListenerNotStarted => "Start time not initialized".to_owned(),
            Error::ListenerFailed => "Input listener could not be started".to_owned(),
            Error::NoProviderAvailable =>
                "No idle time provider available. Consider enabling the input listener for Wayland support.".to_owned(),
        }
    }
}

} // verus!
