use vstd::prelude::*;

verus! {

/// The payload side of the handoff: the sender's inbound byte stream and
/// the chunks drained from it.

/// Relies on axum's `Body`: the handle over the sender's live inbound
/// byte stream. Opaque to the verifier; the library only stores it in a
/// single-take slot and moves it, unread, to the one receiver that claims
/// the transfer.
#[verifier::external_type_specification]
#[verifier::external_body]
pub struct ExBody(axum::body::Body);

/// Relies on bytes' `Bytes`: one drained chunk. Opaque to the verifier;
/// `chunk_bytes` names the byte sequence it holds.
#[verifier::external_type_specification]
#[verifier::external_body]
pub struct ExBytes(bytes::Bytes);

/// The byte sequence a `Bytes` chunk holds.
pub uninterp spec fn chunk_bytes(b: bytes::Bytes) -> Seq<u8>;

/// Relies on bytes' `Bytes::len`: the number of bytes the chunk holds.
pub assume_specification[ bytes::Bytes::len ](b: &bytes::Bytes) -> (r: usize)
    ensures
        r == chunk_bytes(*b).len(),
;

} // verus!
