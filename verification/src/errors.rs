use vstd::prelude::*;

verus! {

/// Every way a transfer can end other than a completed handoff.
/// Each kind is terminal for its transfer: the registry entry is removed
/// and the caller sees an error.
#[derive(Clone, Copy, Debug, PartialEq, Eq, Structural)]
pub enum RelayError {
    /// A live transfer already holds the requested id.
    IdConflict,
    /// No live transfer holds the requested id.
    NotFound,
    /// The readiness signal of this transfer was already consumed by an
    /// earlier receiver.
    AlreadyPaired,
    /// No receiver arrived within the configured maximum wait.
    ReceiverTimeout,
    /// A signal's producing side was dropped before it fired, so the
    /// waiting sender can no longer learn a result.
    ReceiverSignalLost,
    /// Reading a chunk from the sender's stream failed mid-drain.
    UpstreamReadError,
    /// Writing a chunk to the receiver's stream failed mid-drain.
    DownstreamWriteError,
    /// A receiver claimed a transfer whose body was never attached.
    SenderNotReady,
}

impl RelayError {
    /// The plaintext line reported to the caller for this failure.
    pub fn message(&self) -> (r: &'static str)
        ensures
            *self is IdConflict ==> r@ == "Transfer ID already in use"@,
            *self is NotFound ==> r@ == "Transfer not found"@,
            *self is AlreadyPaired ==> r@ == "Transfer already paired"@,
            *self is ReceiverTimeout ==> r@ == "Timeout waiting for receiver"@,
            *self is ReceiverSignalLost ==> r@ == "Receiver disconnected"@,
            *self is UpstreamReadError ==> r@ == "Upstream read error"@,
            *self is DownstreamWriteError ==> r@ == "Downstream write error"@,
            *self is SenderNotReady ==> r@ == "Sender not ready"@,
    {
        match self {
            RelayError::IdConflict => "Transfer ID already in use",
            RelayError::NotFound => "Transfer not found",
            RelayError::AlreadyPaired => "Transfer already paired",
            RelayError::ReceiverTimeout => "Timeout waiting for receiver",
            RelayError::ReceiverSignalLost => "Receiver disconnected",
            RelayError::UpstreamReadError => "Upstream read error",
            RelayError::DownstreamWriteError => "Downstream write error",
            RelayError::SenderNotReady => "Sender not ready",
        }
    }
}

} // verus!
