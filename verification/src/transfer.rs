use vstd::prelude::*;

verus! {

/// The per-id rendezvous record. It owns the single-use resources of one
/// transfer: the producing halves of the readiness and completion
/// signals, and the exclusively owned handle over the sender's inbound
/// byte stream. Each sits in a slot that is taken at most once; the
/// consuming halves of the two signals are handed to the sender's
/// supervisor at creation and never stored here.
pub struct Transfer {
    /// Producer of the readiness signal; taken (and fired) by the one
    /// receiver that pairs.
    pub ready_tx: Option<tokio::sync::oneshot::Sender<()>>,
    /// Producer of the completion signal; taken by the pairing receiver,
    /// fired with the total byte count when draining ends cleanly.
    pub done_tx: Option<tokio::sync::oneshot::Sender<u64>>,
    /// The sender's inbound byte stream; claimed by the pairing receiver.
    pub body: Option<axum::body::Body>,
    /// Registration time, in whole seconds on the caller's clock.
    pub created_at: u64,
}

/// The abstract state of a transfer: which single-use resources are still
/// unconsumed, and when the transfer was registered.
pub struct TransferModel {
    pub ready_armed: bool,
    pub done_armed: bool,
    pub body_attached: bool,
    pub created_at: u64,
}

impl TransferModel {
    /// The state right after registration: both signals armed, body not
    /// yet attached.
    pub open spec fn fresh(now: u64) -> TransferModel {
        TransferModel { ready_armed: true, done_armed: true, body_attached: false, created_at: now }
    }

    /// Still in the `Created` stage: no receiver has paired yet.
    pub open spec fn is_created(self) -> bool {
        self.ready_armed
    }

    /// Past the pairing point: the readiness signal has been consumed.
    pub open spec fn is_paired(self) -> bool {
        !self.ready_armed
    }

    /// Age in seconds at time `now`; zero if the clock reads earlier than
    /// the registration time.
    pub open spec fn age_secs(self, now: u64) -> int {
        if now >= self.created_at {
            now - self.created_at
        } else {
            0
        }
    }

    /// Whether the sweeper may evict this transfer at time `now`.
    pub open spec fn is_expired(self, now: u64, max_wait_secs: u64) -> bool {
        self.age_secs(now) > max_wait_secs
    }
}

impl View for Transfer {
    type V = TransferModel;

    open spec fn view(&self) -> TransferModel {
        TransferModel {
            ready_armed: self.ready_tx is Some,
            done_armed: self.done_tx is Some,
            body_attached: self.body is Some,
            created_at: self.created_at,
        }
    }
}

impl Transfer {
    /// Creates a fresh record for a registration at time `now`, together
    /// with the consuming halves of its two signals, which go to the
    /// sender's supervisor: the readiness consumer wakes it when a
    /// receiver pairs, the completion consumer delivers the final byte
    /// count.
    pub fn new(now: u64) -> (r: (
        Transfer,
        tokio::sync::oneshot::Receiver<()>,
        tokio::sync::oneshot::Receiver<u64>,
    ))
        ensures
            r.0@ == TransferModel::fresh(now),
    {
        let (ready_tx, ready_rx) = tokio::sync::oneshot::channel::<()>();
        let (done_tx, done_rx) = tokio::sync::oneshot::channel::<u64>();
        let t = Transfer { ready_tx: Some(ready_tx), done_tx: Some(done_tx), body: None, created_at: now };
        (t, ready_rx, done_rx)
    }

    /// Age in seconds at time `now`.
    pub fn age_secs(&self, now: u64) -> (r: u64)
        ensures
            r == self@.age_secs(now),
    {
        if now >= self.created_at {
            now - self.created_at
        } else {
            0
        }
    }

    /// Whether this transfer is older than the maximum wait at time `now`.
    pub fn is_expired(&self, now: u64, max_wait_secs: u64) -> (r: bool)
        ensures
            r == self@.is_expired(now, max_wait_secs),
    {
        self.age_secs(now) > max_wait_secs
    }
}

} // verus!
