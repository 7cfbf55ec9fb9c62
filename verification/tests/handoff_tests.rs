use futures_util::StreamExt;
use pipe_relay::errors::RelayError;
use pipe_relay::protocol::{
    completion_to_send, finish_drain, receiver_on_drain_event, sender_on_done_wait,
    sender_on_ready_wait, DoneWait, DrainEvent, DrainStep, DrainTally, ReadyWait, SenderOutcome,
    SenderStep,
};
use pipe_relay::registry::Registry;

#[test]
fn ready_signal_fires_on_claim() {
    let mut r = Registry::new(86_400);
    let id = String::from("abc");
    let (mut ready_rx, _done_rx) = r.register(id.clone(), 0).unwrap();
    r.attach_body(&id, axum::body::Body::from("hello")).unwrap();
    assert!(ready_rx.try_recv().is_err());
    let _claimed = r.claim(&id).unwrap();
    assert!(ready_rx.try_recv().is_ok());
}

#[test]
fn end_to_end_hello() {
    let mut r = Registry::new(86_400);
    let id = String::from("abc");
    let (mut ready_rx, done_rx) = r.register(id.clone(), 0).unwrap();
    r.attach_body(&id, axum::body::Body::from("hello")).unwrap();
    let (body, done_tx) = r.claim(&id).unwrap();
    assert!(ready_rx.try_recv().is_ok());

    let rt = tokio::runtime::Runtime::new().unwrap();
    let mut tally = DrainTally::new();
    let mut out: Vec<u8> = Vec::new();
    rt.block_on(async {
        let mut stream = body.into_data_stream();
        while let Some(chunk) = stream.next().await {
            let forwarded = tally.forward_chunk(chunk.unwrap());
            out.extend_from_slice(&forwarded);
        }
    });
    assert_eq!(out, b"hello");
    assert_eq!(tally.total, 5);

    let sent = finish_drain(&tally, done_tx, true);
    assert_eq!(sent, Some(5));
    r.remove(&id);

    let got = rt.block_on(done_rx).unwrap();
    assert_eq!(got, 5);
    let outcome = sender_on_done_wait(DoneWait::Completed(got));
    assert_eq!(outcome, SenderOutcome::Delivered(5));
}

#[test]
fn chunk_boundaries_do_not_matter() {
    let mut r = Registry::new(86_400);
    let id = String::from("abc");
    let (_ready_rx, _done_rx) = r.register(id.clone(), 0).unwrap();
    let parts: Vec<Result<bytes::Bytes, std::io::Error>> = vec![
        Ok(bytes::Bytes::from_static(b"he")),
        Ok(bytes::Bytes::from_static(b"l")),
        Ok(bytes::Bytes::from_static(b"lo")),
    ];
    let body = axum::body::Body::from_stream(futures_util::stream::iter(parts));
    r.attach_body(&id, body).unwrap();
    let (claimed, _done_tx) = r.claim(&id).unwrap();

    let rt = tokio::runtime::Runtime::new().unwrap();
    let mut tally = DrainTally::new();
    let mut out: Vec<u8> = Vec::new();
    rt.block_on(async {
        let mut stream = claimed.into_data_stream();
        while let Some(chunk) = stream.next().await {
            let forwarded = tally.forward_chunk(chunk.unwrap());
            out.extend_from_slice(&forwarded);
        }
    });
    assert_eq!(out, b"hello");
    assert_eq!(tally.total, 5);
}

#[test]
fn large_payload_is_counted_exactly() {
    let chunk = bytes::Bytes::from(vec![7u8; 4096]);
    let mut tally = DrainTally::new();
    for _ in 0..2560 {
        let forwarded = tally.forward_chunk(chunk.clone());
        assert_eq!(forwarded.len(), 4096);
    }
    assert_eq!(tally.total, 10_485_760);
}

#[test]
fn tally_saturates_at_top() {
    let mut tally = DrainTally { total: u64::MAX - 3 };
    let forwarded = tally.forward_chunk(bytes::Bytes::from_static(b"abcdef"));
    assert_eq!(forwarded, bytes::Bytes::from_static(b"abcdef"));
    assert_eq!(tally.total, u64::MAX);
}

#[test]
fn forward_chunk_passes_data_through() {
    let mut tally = DrainTally::new();
    let chunk = bytes::Bytes::from_static(b"abc");
    let forwarded = tally.forward_chunk(chunk.clone());
    assert_eq!(forwarded, chunk);
    assert_eq!(tally.total, 3);
    let forwarded2 = tally.forward_chunk(bytes::Bytes::from_static(b"de"));
    assert_eq!(forwarded2, bytes::Bytes::from_static(b"de"));
    assert_eq!(tally.total, 5);
}

#[test]
fn ready_wait_decisions() {
    assert_eq!(sender_on_ready_wait(ReadyWait::Fired), SenderStep::Proceed);
    assert_eq!(
        sender_on_ready_wait(ReadyWait::TimedOut),
        SenderStep::Fail(RelayError::ReceiverTimeout)
    );
    assert_eq!(
        sender_on_ready_wait(ReadyWait::ProducerDropped),
        SenderStep::Fail(RelayError::ReceiverSignalLost)
    );
}

#[test]
fn completion_carries_the_tally_only_when_clean() {
    let mut tally = DrainTally::new();
    let _ = tally.forward_chunk(bytes::Bytes::from_static(b"hello"));
    assert_eq!(completion_to_send(&tally, true), Some(5));
    assert_eq!(completion_to_send(&tally, false), None);
}

#[test]
fn finish_drain_reports_exactly_what_it_fired() {
    let (tx, rx) = tokio::sync::oneshot::channel::<u64>();
    let mut tally = DrainTally::new();
    let _ = tally.forward_chunk(bytes::Bytes::from_static(b"hello"));
    let sent = finish_drain(&tally, Some(tx), true);
    assert_eq!(sent, Some(5));
    let rt = tokio::runtime::Runtime::new().unwrap();
    assert_eq!(rt.block_on(rx).unwrap(), 5);

    let sent_without_producer = finish_drain(&tally, None, true);
    assert_eq!(sent_without_producer, None);
}

#[test]
fn drain_event_decisions() {
    assert_eq!(receiver_on_drain_event(DrainEvent::Chunk), DrainStep::Forward);
    assert_eq!(
        receiver_on_drain_event(DrainEvent::ReadFailed),
        DrainStep::StopFailed(RelayError::UpstreamReadError)
    );
    assert_eq!(receiver_on_drain_event(DrainEvent::Exhausted), DrainStep::FinishClean);
}

#[test]
fn dropped_completion_is_failure_not_zero_bytes() {
    let mut r = Registry::new(86_400);
    let id = String::from("abc");
    let (_ready_rx, done_rx) = r.register(id.clone(), 0).unwrap();
    r.attach_body(&id, axum::body::Body::from("hello")).unwrap();
    let (_body, done_tx) = r.claim(&id).unwrap();

    let tally = DrainTally::new();
    let sent = finish_drain(&tally, done_tx, false);
    assert_eq!(sent, None);
    r.remove(&id);

    let rt = tokio::runtime::Runtime::new().unwrap();
    assert!(rt.block_on(done_rx).is_err());
    let outcome = sender_on_done_wait(DoneWait::ProducerDropped);
    assert_eq!(outcome, SenderOutcome::Failed(RelayError::ReceiverSignalLost));
    assert!(!matches!(outcome, SenderOutcome::Delivered(_)));
}

#[test]
fn abandoned_registration_drops_ready_signal() {
    let mut r = Registry::new(86_400);
    let id = String::from("abc");
    let (ready_rx, _done_rx) = r.register(id.clone(), 0).unwrap();
    r.remove(&id);
    let rt = tokio::runtime::Runtime::new().unwrap();
    assert!(rt.block_on(ready_rx).is_err());
    assert_eq!(
        sender_on_ready_wait(ReadyWait::ProducerDropped),
        SenderStep::Fail(RelayError::ReceiverSignalLost)
    );
}
