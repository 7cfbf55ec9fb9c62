use vstd::prelude::*;

verus! {

/// Single-fire signalling for the rendezvous handshake.
///
/// The readiness and completion signals of a transfer are tokio oneshot
/// channels: the producing half fires at most once, because `send` consumes
/// it; the consuming half is awaited outside the library. The library only
/// creates the pairs, stores the halves in single-take slots, and fires the
/// producing half at the pairing and completion points.

/// Relies on tokio's `oneshot::Sender`: the producing half of a
/// single-fire channel. Opaque to the verifier; `send` consumes it, which
/// is what makes the signal single-fire.
#[verifier::external_type_specification]
#[verifier::external_body]
#[verifier::reject_recursive_types(T)]
pub struct ExOneshotSender<T>(tokio::sync::oneshot::Sender<T>);

/// Relies on tokio's `oneshot::Receiver`: the consuming half of a
/// single-fire channel. Opaque to the verifier; it is handed out of the
/// library and awaited at the boundary.
#[verifier::external_type_specification]
#[verifier::external_body]
#[verifier::reject_recursive_types(T)]
pub struct ExOneshotReceiver<T>(tokio::sync::oneshot::Receiver<T>);

/// Relies on tokio's `oneshot::error::RecvError`: the error a consumer
/// sees when the producer was dropped unfired. Declared only so the
/// consumer type above is accepted; the library never handles it.
#[verifier::external_type_specification]
#[verifier::external_body]
pub struct ExOneshotRecvError(tokio::sync::oneshot::error::RecvError);

/// Relies on tokio's `oneshot::channel`: returns a fresh, unused
/// producer/consumer pair. Nothing further can be said of the opaque
/// halves themselves.
pub assume_specification<T>[ tokio::sync::oneshot::channel::<T> ]() -> (r: (
    tokio::sync::oneshot::Sender<T>,
    tokio::sync::oneshot::Receiver<T>,
));

/// Relies on tokio's `oneshot::Sender::send`: it consumes the producer,
/// and on failure (the consumer was already dropped) it hands the value
/// back unchanged.
pub assume_specification<T>[ tokio::sync::oneshot::Sender::<T>::send ](
    s: tokio::sync::oneshot::Sender<T>,
    t: T,
) -> (r: Result<(), T>)
    ensures
        r matches Err(v) ==> v == t,
;

/// Fires a readiness signal. The producer is consumed whatever happens;
/// the result says whether the consuming half was still alive to hear it.
pub fn fire_ready(tx: tokio::sync::oneshot::Sender<()>) -> (heard: bool) {
    match tx.send(()) {
        Ok(()) => true,
        Err(_) => false,
    }
}

/// Fires a completion signal carrying the total byte count. The producer
/// is consumed whatever happens; the result says whether the consuming
/// half was still alive to hear it.
pub fn fire_completion(tx: tokio::sync::oneshot::Sender<u64>, total: u64) -> (heard: bool) {
    match tx.send(total) {
        Ok(()) => true,
        Err(_) => false,
    }
}

} // verus!
