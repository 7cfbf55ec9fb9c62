use vstd::prelude::*;
use crate::errors::RelayError;
use crate::payload::chunk_bytes;

verus! {

/// The rendezvous protocol around the registry: what the sender's
/// supervisor does with each signal outcome, and how the receiver's drain
/// accounts for the bytes it forwards. The waits themselves happen at the
/// boundary; every outcome is decided here.

/// What the sender's supervisor observed while waiting on the readiness
/// signal, within the maximum wait.
#[derive(Clone, Copy, Debug, PartialEq, Eq, Structural)]
pub enum ReadyWait {
    /// A receiver paired and fired the signal.
    Fired,
    /// The producing half was dropped unfired (the entry was evicted).
    ProducerDropped,
    /// The maximum wait elapsed with no receiver.
    TimedOut,
}

/// The supervisor's step after the readiness wait: go on to the
/// completion wait, or fail. On `Fail` the caller must purge the entry,
/// so the id becomes reusable.
#[derive(Clone, Copy, Debug, PartialEq, Eq, Structural)]
pub enum SenderStep {
    Proceed,
    Fail(RelayError),
}

/// Decides the sender's step after the readiness wait: only a fired
/// signal lets the transfer proceed; a dropped producer means the signal
/// is lost, and an elapsed wait is a receiver timeout.
pub fn sender_on_ready_wait(w: ReadyWait) -> (r: SenderStep)
    ensures
        w is Fired <==> r is Proceed,
        w is ProducerDropped ==> r == SenderStep::Fail(RelayError::ReceiverSignalLost),
        w is TimedOut ==> r == SenderStep::Fail(RelayError::ReceiverTimeout),
{
    match w {
        ReadyWait::Fired => SenderStep::Proceed,
        ReadyWait::ProducerDropped => SenderStep::Fail(RelayError::ReceiverSignalLost),
        ReadyWait::TimedOut => SenderStep::Fail(RelayError::ReceiverTimeout),
    }
}

/// What the sender's supervisor observed waiting on the completion
/// signal.
#[derive(Clone, Copy, Debug, PartialEq, Eq, Structural)]
pub enum DoneWait {
    /// The signal fired with the total byte count of the finished drain.
    Completed(u64),
    /// The producing half was dropped unfired: the drain ended abnormally.
    ProducerDropped,
}

/// What the sender finally reports. On `Failed` the caller must purge
/// the entry.
#[derive(Clone, Copy, Debug, PartialEq, Eq, Structural)]
pub enum SenderOutcome {
    /// The drain finished; exactly this many bytes were forwarded.
    Delivered(u64),
    Failed(RelayError),
}

/// Decides the sender's report after the completion wait. A dropped,
/// unfired completion signal is failure — never a zero-byte success: the
/// only way to a `Delivered` report is a fired signal, and the reported
/// count is exactly the one the signal carried.
pub fn sender_on_done_wait(w: DoneWait) -> (r: SenderOutcome)
    ensures
        forall|n: u64| w == DoneWait::Completed(n) <==> r == SenderOutcome::Delivered(n),
        w is ProducerDropped ==> r == SenderOutcome::Failed(RelayError::ReceiverSignalLost),
{
    match w {
        DoneWait::Completed(n) => SenderOutcome::Delivered(n),
        DoneWait::ProducerDropped => SenderOutcome::Failed(RelayError::ReceiverSignalLost),
    }
}

/// What one poll of the claimed byte source yielded.
#[derive(Clone, Copy, Debug, PartialEq, Eq, Structural)]
pub enum DrainEvent {
    /// A chunk arrived.
    Chunk,
    /// Reading from the source failed.
    ReadFailed,
    /// The source ended cleanly.
    Exhausted,
}

/// The drain loop's next step.
#[derive(Clone, Copy, Debug, PartialEq, Eq, Structural)]
pub enum DrainStep {
    /// Forward the chunk and keep draining.
    Forward,
    /// Stop at once; the completion signal must be left unfired.
    StopFailed(RelayError),
    /// The drain is complete; the completion signal may fire.
    FinishClean,
}

/// Decides the drain loop's step for each event: only a chunk is
/// forwarded; a read failure stops the drain as an upstream read error —
/// forwarding never continues past a failure — and only a cleanly
/// exhausted source finishes clean.
pub fn receiver_on_drain_event(e: DrainEvent) -> (r: DrainStep)
    ensures
        e is Chunk <==> r is Forward,
        e is ReadFailed ==> r == DrainStep::StopFailed(RelayError::UpstreamReadError),
        e is Exhausted <==> r is FinishClean,
{
    match e {
        DrainEvent::Chunk => DrainStep::Forward,
        DrainEvent::ReadFailed => DrainStep::StopFailed(RelayError::UpstreamReadError),
        DrainEvent::Exhausted => DrainStep::FinishClean,
    }
}

/// A byte count that saturates at the top of `u64` instead of wrapping.
pub open spec fn note_bytes(total: u64, n: nat) -> u64 {
    if total + n <= u64::MAX {
        (total + n) as u64
    } else {
        u64::MAX
    }
}

/// The receiver-side account of a drain in progress: how many bytes have
/// been forwarded so far. The drain holds no buffer of its own — each
/// chunk passes through unchanged — so this single counter is the whole
/// per-transfer drain state.
pub struct DrainTally {
    pub total: u64,
}

impl DrainTally {
    /// A drain that has forwarded nothing yet.
    pub fn new() -> (r: DrainTally)
        ensures
            r.total == 0,
    {
        DrainTally { total: 0 }
    }

    /// Forwards one chunk: hands back exactly the chunk it was given —
    /// the pass-through that keeps the relay zero-copy — and adds its
    /// length to the running total.
    pub fn forward_chunk(&mut self, chunk: bytes::Bytes) -> (out: bytes::Bytes)
        ensures
            out == chunk,
            final(self).total == note_bytes(old(self).total, chunk_bytes(chunk).len()),
    {
        let n = chunk.len();
        if n as u64 <= u64::MAX - self.total {
            self.total = self.total + n as u64;
        } else {
            self.total = u64::MAX;
        }
        chunk
    }
}

/// Decides what the completion signal must carry when a drain ends: a
/// clean end reports exactly the tally's total — the byte count the
/// waiting sender will announce — and an abnormal end reports nothing,
/// so a possibly short count is never signalled.
pub fn completion_to_send(tally: &DrainTally, clean: bool) -> (r: Option<u64>)
    ensures
        r == if clean {
            Some(tally.total)
        } else {
            None::<u64>
        },
{
    if clean {
        Some(tally.total)
    } else {
        None
    }
}

/// Ends a drain. The result is exactly the count handed to the
/// completion signal: the tally's total when the end was clean and the
/// producer was present, and nothing otherwise — an abnormal end drops
/// the producer unfired, which the waiting sender reads as failure,
/// never as a zero-byte success. Whether the fired signal was heard
/// depends on the consumer's side and is not reported.
pub fn finish_drain(
    tally: &DrainTally,
    done_tx: Option<tokio::sync::oneshot::Sender<u64>>,
    clean: bool,
) -> (sent: Option<u64>)
    ensures
        sent == if clean && done_tx is Some {
            Some(tally.total)
        } else {
            None::<u64>
        },
{
    let payload = completion_to_send(tally, clean);
    match (payload, done_tx) {
        (Some(n), Some(tx)) => {
            let _heard = crate::signal::fire_completion(tx, n);
            Some(n)
        },
        _ => None,
    }
}

/// The total length of a run of chunks.
pub open spec fn sum_lens(lens: Seq<nat>) -> int
    decreases lens.len(),
{
    if lens.len() == 0 {
        0
    } else {
        lens[0] + sum_lens(lens.skip(1))
    }
}

/// The tally a drain reaches after forwarding chunks of the given
/// lengths, starting from `total`.
pub open spec fn fold_tally(total: u64, lens: Seq<nat>) -> u64
    decreases lens.len(),
{
    if lens.len() == 0 {
        total
    } else {
        fold_tally(note_bytes(total, lens[0]), lens.skip(1))
    }
}

/// The drain tally is exact: after forwarding any run of chunks the
/// total is the sum of their lengths — however the payload was cut into
/// chunks — saturating only past the top of `u64`. In particular a
/// payload whose size fits in `u64` is reported byte-exactly.
pub proof fn lemma_tally_exact(total: u64, lens: Seq<nat>)
    ensures
        fold_tally(total, lens) == if total + sum_lens(lens) <= u64::MAX {
            total + sum_lens(lens)
        } else {
            u64::MAX as int
        },
    decreases lens.len(),
{
    if lens.len() == 0 {
    } else {
        lemma_tally_exact(note_bytes(total, lens[0]), lens.skip(1));
        assert(sum_lens(lens.skip(1)) >= 0) by {
            lemma_sum_lens_nonneg(lens.skip(1));
        }
    }
}

/// A run of chunks never has a negative total length.
pub proof fn lemma_sum_lens_nonneg(lens: Seq<nat>)
    ensures
        sum_lens(lens) >= 0,
    decreases lens.len(),
{
    if lens.len() > 0 {
        lemma_sum_lens_nonneg(lens.skip(1));
    }
}

/// The whole payload a drain forwards: its chunks, concatenated in order.
pub open spec fn concat_chunks(chunks: Seq<Seq<u8>>) -> Seq<u8>
    decreases chunks.len(),
{
    if chunks.len() == 0 {
        Seq::empty()
    } else {
        chunks[0] + concat_chunks(chunks.skip(1))
    }
}

/// The chunk lengths of a run sum to the length of the concatenated
/// payload: how the payload was cut into chunks changes nothing.
pub proof fn lemma_sum_is_payload_len(chunks: Seq<Seq<u8>>)
    ensures
        sum_lens(chunks.map_values(|c: Seq<u8>| c.len())) == concat_chunks(chunks).len(),
    decreases chunks.len(),
{
    let lens = chunks.map_values(|c: Seq<u8>| c.len());
    if chunks.len() > 0 {
        lemma_sum_is_payload_len(chunks.skip(1));
        assert(lens.skip(1) =~= chunks.skip(1).map_values(|c: Seq<u8>| c.len()));
    }
}

/// A drain that starts at zero and forwards a payload reports exactly
/// that payload's byte length, whatever the chunk boundaries were,
/// saturating only for payloads past the top of `u64`.
pub proof fn lemma_drain_reports_payload_length(chunks: Seq<Seq<u8>>)
    ensures
        concat_chunks(chunks).len() <= u64::MAX ==> fold_tally(
            0,
            chunks.map_values(|c: Seq<u8>| c.len()),
        ) == concat_chunks(chunks).len(),
        concat_chunks(chunks).len() > u64::MAX ==> fold_tally(
            0,
            chunks.map_values(|c: Seq<u8>| c.len()),
        ) == u64::MAX,
{
    lemma_sum_is_payload_len(chunks);
    lemma_tally_exact(0, chunks.map_values(|c: Seq<u8>| c.len()));
}

} // verus!
