use pipe_relay::config::RelayConfig;
use pipe_relay::errors::RelayError;
use pipe_relay::registry::Registry;

#[test]
fn register_then_conflict() {
    let mut r = Registry::new(86_400);
    assert!(r.register(String::from("abc"), 0).is_ok());
    assert_eq!(r.len(), 1);
    let second = r.register(String::from("abc"), 1);
    assert!(matches!(second, Err(RelayError::IdConflict)));
    assert_eq!(r.len(), 1);
}

#[test]
fn distinct_ids_coexist() {
    let mut r = Registry::new(86_400);
    assert!(r.register(String::from("abc"), 0).is_ok());
    assert!(r.register(String::from("xyz"), 0).is_ok());
    assert_eq!(r.len(), 2);
    assert!(r.contains(&String::from("abc")));
    assert!(r.contains(&String::from("xyz")));
}

#[test]
fn download_unknown_id_not_found() {
    let mut r = Registry::new(86_400);
    let c = r.claim(&String::from("nope"));
    assert!(matches!(c, Err(RelayError::NotFound)));
}

#[test]
fn pairing_single_use() {
    let mut r = Registry::new(86_400);
    let id = String::from("abc");
    let _rxs = r.register(id.clone(), 0).unwrap();
    r.attach_body(&id, axum::body::Body::from("hello")).unwrap();
    let first = r.claim(&id);
    assert!(first.is_ok());
    let second = r.claim(&id);
    assert!(matches!(second, Err(RelayError::AlreadyPaired)));
}

#[test]
fn claim_before_attach_sender_not_ready() {
    let mut r = Registry::new(86_400);
    let id = String::from("abc");
    let _rxs = r.register(id.clone(), 0).unwrap();
    let c = r.claim(&id);
    assert!(matches!(c, Err(RelayError::SenderNotReady)));
}

#[test]
fn attach_unknown_id_not_found() {
    let mut r = Registry::new(86_400);
    let a = r.attach_body(&String::from("ghost"), axum::body::Body::empty());
    assert!(matches!(a, Err(RelayError::NotFound)));
}

#[test]
fn removed_id_is_reusable() {
    let mut r = Registry::new(86_400);
    let id = String::from("xyz");
    let _rxs = r.register(id.clone(), 0).unwrap();
    r.remove(&id);
    assert!(!r.contains(&id));
    let again = r.claim(&id);
    assert!(matches!(again, Err(RelayError::NotFound)));
    assert!(r.register(id.clone(), 5).is_ok());
    assert_eq!(r.len(), 1);
}

#[test]
fn remove_is_idempotent() {
    let mut r = Registry::new(86_400);
    let id = String::from("abc");
    let _rxs = r.register(id.clone(), 0).unwrap();
    r.remove(&id);
    r.remove(&id);
    assert_eq!(r.len(), 0);
}

#[test]
fn sweep_evicts_stale_entries() {
    let mut r = Registry::new(10);
    let _a = r.register(String::from("old"), 0).unwrap();
    let _b = r.register(String::from("new"), 95).unwrap();
    let evicted = r.sweep(100);
    assert_eq!(evicted, 1);
    assert!(!r.contains(&String::from("old")));
    assert!(r.contains(&String::from("new")));
    assert_eq!(r.len(), 1);
}

#[test]
fn sweep_keeps_entry_at_exact_ceiling() {
    let mut r = Registry::new(10);
    let _a = r.register(String::from("edge"), 0).unwrap();
    let evicted = r.sweep(10);
    assert_eq!(evicted, 0);
    assert!(r.contains(&String::from("edge")));
}

#[test]
fn sweep_evicts_in_any_state() {
    let mut r = Registry::new(10);
    let id = String::from("paired");
    let _rxs = r.register(id.clone(), 0).unwrap();
    r.attach_body(&id, axum::body::Body::from("data")).unwrap();
    let _claimed = r.claim(&id).unwrap();
    let evicted = r.sweep(1_000);
    assert_eq!(evicted, 1);
    assert_eq!(r.len(), 0);
}

#[test]
fn enumerate_reports_ids_and_ages() {
    let mut r = Registry::new(86_400);
    let _a = r.register(String::from("a"), 0).unwrap();
    let _b = r.register(String::from("b"), 3).unwrap();
    let snap = r.enumerate(10);
    assert_eq!(snap.len(), 2);
    let mut seen_a = false;
    let mut seen_b = false;
    for line in &snap {
        if line.id == "a" {
            assert_eq!(line.age_secs, 10);
            seen_a = true;
        }
        if line.id == "b" {
            assert_eq!(line.age_secs, 7);
            seen_b = true;
        }
    }
    assert!(seen_a && seen_b);
}

#[test]
fn age_is_zero_for_clock_before_creation() {
    let mut r = Registry::new(86_400);
    let _a = r.register(String::from("a"), 50).unwrap();
    let snap = r.enumerate(40);
    assert_eq!(snap.len(), 1);
    assert_eq!(snap[0].age_secs, 0);
}

#[test]
fn error_messages() {
    assert_eq!(RelayError::IdConflict.message(), "Transfer ID already in use");
    assert_eq!(RelayError::NotFound.message(), "Transfer not found");
    assert_eq!(RelayError::AlreadyPaired.message(), "Transfer already paired");
    assert_eq!(RelayError::ReceiverTimeout.message(), "Timeout waiting for receiver");
    assert_eq!(RelayError::ReceiverSignalLost.message(), "Receiver disconnected");
    assert_eq!(RelayError::UpstreamReadError.message(), "Upstream read error");
    assert_eq!(RelayError::DownstreamWriteError.message(), "Downstream write error");
    assert_eq!(RelayError::SenderNotReady.message(), "Sender not ready");
}

#[test]
fn standard_config_defaults() {
    let c = RelayConfig::standard();
    assert_eq!(c.max_wait_secs, 86_400);
    assert_eq!(c.sweep_interval_secs, 300);
}
