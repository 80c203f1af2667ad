use zubridge_middleware::error::Error;
use zubridge_middleware::transaction::{Config, TransactionManager};

const SEC: u128 = 1_000_000_000;

#[test]
fn receive_on_unknown_id_uses_receive_time_as_dispatch() {
    let mut m = TransactionManager::new();
    m.record_receive_at("x", "T", 42);
    let t = m.get_transaction("x").unwrap();
    assert_eq!(t.dispatch_timestamp, 42);
    assert_eq!(t.receive_timestamp, Some(42));
    assert_eq!(t.action_type, "T");
    assert_eq!(t.action_id, Some("x".to_string()));
}

#[test]
fn record_receive_unknown_id_with_clock() {
    let mut m = TransactionManager::new();
    m.record_receive("x", "T").unwrap();
    let t = m.get_transaction("x").unwrap();
    assert_eq!(Some(t.dispatch_timestamp), t.receive_timestamp);
    assert!(t.dispatch_timestamp > 0);
}

#[test]
fn lifecycle_with_clock() {
    let mut m = TransactionManager::new();
    m.record_dispatch("a", "INC").unwrap();
    m.record_receive("a", "INC").unwrap();
    m.record_state_update("a").unwrap();
    m.record_acknowledgement("a").unwrap();
    assert_eq!(m.transaction_count(), 1);
    let metrics = m.calculate_metrics("a").unwrap().unwrap();
    let sum = metrics.deserialization_ns.unwrap()
        + metrics.action_processing_ns.unwrap()
        + metrics.state_update_ns.unwrap();
    assert_eq!(sum, metrics.total_ns);
}

#[test]
fn lifecycle_metrics() {
    let mut m = TransactionManager::new();
    m.record_dispatch_at("a", "INC", 100);
    m.record_receive_at("a", "INC", 150);
    m.record_state_update_at("a", 170);
    m.record_acknowledgement_at("a", 200);
    let metrics = m.calculate_metrics("a").unwrap().unwrap();
    assert_eq!(metrics.total_ns, 100);
    assert_eq!(metrics.deserialization_ns, Some(50));
    assert_eq!(metrics.action_processing_ns, Some(20));
    assert_eq!(metrics.state_update_ns, Some(30));
}

#[test]
fn missing_data_errors() {
    let mut m = TransactionManager::new();
    m.record_dispatch_at("a", "INC", 100);
    assert!(matches!(m.calculate_metrics("a"), Err(Error::MissingData(_))));
    m.record_acknowledgement_at("a", 200);
    assert!(matches!(m.calculate_metrics("a"), Err(Error::MissingData(_))));
    m.record_receive_at("a", "INC", 150);
    assert!(m.calculate_metrics("a").unwrap().is_some());
    assert!(matches!(m.calculate_metrics("unknown"), Err(Error::MissingData(_))));
}

#[test]
fn disordered_ledger_metrics_are_none() {
    let mut m = TransactionManager::new();
    m.record_dispatch_at("a", "INC", 100);
    m.record_receive_at("a", "INC", 150);
    m.record_state_update_at("a", 300);
    m.record_acknowledgement_at("a", 200);
    assert!(m.calculate_metrics("a").unwrap().is_none());
}

#[test]
fn unknown_ids_are_noops() {
    let mut m = TransactionManager::new();
    m.record_state_update_at("nope", 5);
    m.record_acknowledgement_at("nope", 6);
    assert_eq!(m.transaction_count(), 0);
    assert!(m.get_transaction("nope").is_none());
}

#[test]
fn redispatch_replaces_transaction() {
    let mut m = TransactionManager::new();
    m.record_dispatch_at("a", "ONE", 1);
    m.record_receive_at("a", "ONE", 2);
    m.record_dispatch_at("a", "TWO", 3);
    assert_eq!(m.transaction_count(), 1);
    let t = m.get_transaction("a").unwrap();
    assert_eq!(t.action_type, "TWO");
    assert_eq!(t.dispatch_timestamp, 3);
    assert_eq!(t.receive_timestamp, None);
}

#[test]
fn cleanup_evicts_by_age() {
    let cfg = Config { max_age_seconds: 1, max_transactions: 100, cleanup_interval_seconds: 1 };
    let mut m = TransactionManager::with_config(cfg);
    let now = 10 * SEC;
    m.record_dispatch_at("old-done", "T", now - 3 * SEC / 2);
    m.record_acknowledgement_at("old-done", now - SEC);
    m.record_dispatch_at("old-open", "T", now - 3 * SEC / 2);
    m.record_dispatch_at("stuck", "T", now - 3 * SEC);
    m.record_dispatch_at("fresh-done", "T", now - SEC / 2);
    m.record_acknowledgement_at("fresh-done", now);
    m.record_dispatch_at("future", "T", now + SEC);
    m.cleanup_at(now);
    assert!(m.get_transaction("old-done").is_none());
    assert!(m.get_transaction("old-open").is_some());
    assert!(m.get_transaction("stuck").is_none());
    assert!(m.get_transaction("fresh-done").is_some());
    assert!(m.get_transaction("future").is_some());
    assert_eq!(m.transaction_count(), 3);
}

#[test]
fn cleanup_truncates_to_newest() {
    let cfg = Config { max_age_seconds: 300, max_transactions: 2, cleanup_interval_seconds: 60 };
    let mut m = TransactionManager::with_config(cfg);
    m.record_dispatch_at("b", "T", 20);
    m.record_dispatch_at("a", "T", 10);
    m.record_dispatch_at("d", "T", 40);
    m.record_dispatch_at("c", "T", 30);
    m.cleanup_at(50);
    assert_eq!(m.transaction_count(), 2);
    assert!(m.get_transaction("c").is_some());
    assert!(m.get_transaction("d").is_some());
    assert!(m.get_transaction("a").is_none());
    assert!(m.get_transaction("b").is_none());
}

#[test]
fn default_ledger_config() {
    let m = TransactionManager::new();
    let c = m.get_config();
    assert_eq!(c.max_age_seconds, 300);
    assert_eq!(c.max_transactions, 1000);
    assert_eq!(c.cleanup_interval_seconds, 60);
    assert_eq!(m.transaction_count(), 0);
}

#[test]
fn set_timestamps_are_not_overwritten() {
    let mut m = TransactionManager::new();
    m.record_dispatch_at("a", "INC", 100);
    m.record_receive_at("a", "INC", 150);
    m.record_receive_at("a", "INC", 160);
    m.record_state_update_at("a", 170);
    m.record_state_update_at("a", 180);
    m.record_acknowledgement_at("a", 200);
    m.record_acknowledgement_at("a", 210);
    let t = m.get_transaction("a").unwrap();
    assert_eq!(t.receive_timestamp, Some(150));
    assert_eq!(t.state_update_timestamp, Some(170));
    assert_eq!(t.acknowledge_timestamp, Some(200));
}
