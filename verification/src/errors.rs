//! How a session fails, and how it ends.

use vstd::prelude::*;

verus! {

/// A failure that ends a session. `E` is whatever the caller wants to keep of
/// a failure that fits none of the named classes.
#[derive(Clone, Debug, PartialEq, Eq)]
pub enum Error<E> {
    /// No reading arrived within the liveness timeout.
    TimedOut,
    /// The device connection could not be opened or dropped. `peer_closed`
    /// tells the broken pipe that the bridge leaves behind when it hangs up
    /// from every other loss.
    ConnectionLost { peer_closed: bool },
    /// An upload could not be carried out at all.
    UploadTransportFailed,
    /// Any other failure.
    Other(E),
}

/// What the session tells apart in a failure of the device connection.
#[derive(Clone, Copy, Debug, PartialEq, Eq, Structural)]
pub enum IoFailure {
    /// The pipe is broken: the bridge has hung up.
    BrokenPipe,
    /// Any other failure of the connection.
    Other,
}

impl IoFailure {
    /// Whether the peer closed the connection.
    pub open spec fn spec_is_peer_closed(&self) -> bool {
        *self is BrokenPipe
    }

    /// Whether the peer closed the connection.
    #[verifier::when_used_as_spec(spec_is_peer_closed)]
    pub fn is_peer_closed(&self) -> (closed: bool)
        ensures
            closed == self.is_peer_closed(),
    {
        match self {
            IoFailure::BrokenPipe => true,
            IoFailure::Other => false,
        }
    }
}

impl<E> Error<E> {
    /// The failure of a session whose device connection failed: the
    /// connection is lost, and the peer closed it if the pipe is broken.
    pub fn connection_lost(failure: IoFailure) -> (error: Error<E>)
        ensures
            error == (Error::<E>::ConnectionLost { peer_closed: failure.is_peer_closed() }),
    {
        Error::ConnectionLost { peer_closed: failure.is_peer_closed() }
    }
}

/// Why a polling policy is refused.
#[derive(Clone, Copy, Debug, PartialEq, Eq, Structural)]
pub enum ConfigInvalid {
    /// The timeout does not exceed the polling interval.
    TimeoutTooShort,
    /// The timeout does not fit the clock.
    TimeoutOutOfRange,
}

/// How a session ended.
#[derive(Clone, Debug, PartialEq, Eq)]
pub enum SessionOutcome<E> {
    /// The stream of readings ended by itself.
    Completed,
    TimedOut,
    ConnectionLost { peer_closed: bool },
    UploadTransportFailed,
    Other(E),
}

impl<E> SessionOutcome<E> {
    /// The outcome of a session that stopped on `error`.
    pub open spec fn of_error(error: Error<E>) -> SessionOutcome<E> {
        match error {
            Error::TimedOut => SessionOutcome::TimedOut,
            Error::ConnectionLost { peer_closed } => SessionOutcome::ConnectionLost { peer_closed },
            Error::UploadTransportFailed => SessionOutcome::UploadTransportFailed,
            Error::Other(e) => SessionOutcome::Other(e),
        }
    }

    /// Whether the scheduler goes on after this outcome: a session that
    /// completed, or one whose connection the peer closed.
    pub open spec fn spec_is_recoverable(&self) -> bool {
        *self is Completed || *self == (SessionOutcome::<E>::ConnectionLost { peer_closed: true })
    }

    /// The outcome of a session that stopped on `error`.
    pub fn from_error(error: Error<E>) -> (outcome: SessionOutcome<E>)
        ensures
            outcome == Self::of_error(error),
    {
        match error {
            Error::TimedOut => SessionOutcome::TimedOut,
            Error::ConnectionLost { peer_closed } => SessionOutcome::ConnectionLost { peer_closed },
            Error::UploadTransportFailed => SessionOutcome::UploadTransportFailed,
            Error::Other(e) => SessionOutcome::Other(e),
        }
    }

    /// Whether the scheduler goes on after this outcome: a session that
    /// completed, or one whose connection the peer closed.
    #[verifier::when_used_as_spec(spec_is_recoverable)]
    pub fn is_recoverable(&self) -> (yes: bool)
        ensures
            yes == self.is_recoverable(),
    {
        match self {
            SessionOutcome::Completed => true,
            SessionOutcome::ConnectionLost { peer_closed } => *peer_closed,
            _ => false,
        }
    }
}

} // verus!
