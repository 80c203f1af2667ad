use zubridge_middleware::action::Action;
use zubridge_middleware::context::{Context, PhaseTimings};
use zubridge_middleware::json::{JsonValue, Member};
use zubridge_middleware::metrics::{DetailLevel, PerformanceSettings};
use zubridge_middleware::telemetry::{TelemetryConfig, TelemetryEntry, TelemetryEntryType, TelemetryMiddleware};
use zubridge_middleware::transaction::PerformanceTransaction;

fn entry(n: u128) -> TelemetryEntry {
    TelemetryEntry {
        timestamp: n,
        entry_type: TelemetryEntryType::Error,
        action: None,
        state: None,
        state_summary: None,
        state_delta: None,
        context_id: format!("entry-{}", n),
        processing_metrics: None,
    }
}

fn config(limit: usize) -> TelemetryConfig {
    TelemetryConfig { log_limit: limit, websocket_port: None, ..TelemetryConfig::default() }
}

fn obj(pairs: &[(&str, &str)]) -> JsonValue {
    JsonValue::Object(
        pairs.iter().map(|(k, v)| Member { key: k.to_string(), value: v.to_string() }).collect(),
    )
}

fn action(ty: &str, id: Option<&str>) -> Action {
    Action { action_type: ty.to_string(), payload: None, id: id.map(|s| s.to_string()), source_window_id: None }
}

#[test]
fn history_keeps_last_1000_of_1100() {
    let mut t = TelemetryMiddleware::new(config(1000));
    for n in 1..=1100u128 {
        t.add_log_entry(entry(n));
        assert!(t.get_history().len() <= 1000);
    }
    let h = t.get_history();
    assert_eq!(h.len(), 1000);
    for (i, e) in h.iter().enumerate() {
        assert_eq!(e.timestamp, 101 + i as u128);
        assert_eq!(e.context_id, format!("entry-{}", 101 + i));
    }
}

#[test]
fn history_fifo_small_limit() {
    let mut t = TelemetryMiddleware::new(config(3));
    for n in 1..=5u128 {
        t.add_log_entry(entry(n));
    }
    let ts: Vec<u128> = t.get_history().iter().map(|e| e.timestamp).collect();
    assert_eq!(ts, vec![3, 4, 5]);
}

#[test]
fn history_zero_limit_keeps_nothing() {
    let mut t = TelemetryMiddleware::new(config(0));
    t.add_log_entry(entry(1));
    assert!(t.get_history().is_empty());
}

#[test]
fn clear_history_empties() {
    let mut t = TelemetryMiddleware::new(config(10));
    t.add_log_entry(entry(1));
    t.clear_history();
    assert!(t.get_history().is_empty());
}

#[test]
fn before_action_records_dispatch() {
    let mut t = TelemetryMiddleware::new(config(10));
    let ctx = Context::with_id("c1".to_string(), None);
    let a = action("INC", Some("id1"));
    let out = t.before_action(&a, &ctx, 77).unwrap();
    assert_eq!(out.action_type, "INC");
    let e = &t.get_history()[0];
    assert_eq!(e.entry_type, TelemetryEntryType::ActionDispatched);
    assert_eq!(e.timestamp, 77);
    assert_eq!(e.context_id, "c1");
    assert_eq!(e.action.as_ref().unwrap().action_type, "INC");
}

#[test]
fn after_action_records_metrics_summary_and_delta() {
    let mut cfg = config(10);
    cfg.performance.detail = DetailLevel::High;
    let mut t = TelemetryMiddleware::new(cfg);
    let mut ctx = Context::with_id("c2".to_string(), None);
    ctx.metadata = PhaseTimings {
        processing_ns: Some(9),
        deserialization_ns: Some(1),
        action_processing_ns: Some(2),
        state_update_ns: Some(3),
        serialization_ns: Some(4),
    };
    let a = action("SET", None);
    t.after_action(&a, &obj(&[("a", "1"), ("b", "2")]), &ctx, 5);
    let first = &t.get_history()[0];
    assert_eq!(first.entry_type, TelemetryEntryType::StateUpdated);
    assert!(first.state_delta.is_none());
    let m = first.processing_metrics.unwrap();
    assert_eq!(m.total_ns, 9);
    assert_eq!(m.serialization_ns, Some(4));
    let s = first.state_summary.as_ref().unwrap();
    assert_eq!(s.size_bytes, "{\"a\":1,\"b\":2}".len());
    assert_eq!(s.property_count, 2);
    assert_eq!(s.properties, vec!["a".to_string(), "b".to_string()]);

    t.after_action(&a, &obj(&[("a", "1"), ("b", "3")]), &ctx, 6);
    let second = &t.get_history()[1];
    assert_eq!(second.state_delta, Some(obj(&[("b", "3")])));

    t.after_action(&a, &obj(&[("a", "1"), ("b", "3")]), &ctx, 7);
    assert!(t.get_history()[2].state_delta.is_none());
}

#[test]
fn after_action_without_measurement_has_no_metrics() {
    let mut cfg = config(10);
    cfg.measure_performance = false;
    cfg.record_state_size = false;
    let mut t = TelemetryMiddleware::new(cfg);
    let ctx = Context::with_id("c3".to_string(), Some(1));
    t.after_action(&action("X", None), &obj(&[]), &ctx, 5);
    let e = &t.get_history()[0];
    assert!(e.processing_metrics.is_none());
    assert!(e.state_summary.is_none());
}

#[test]
fn observational_entries_have_phase_context_ids() {
    let mut t = TelemetryMiddleware::new(config(10));
    let a = action("INC", Some("42"));
    t.record_action_dispatch(&a, 1);
    t.record_action_received(&action("INC", None), 2);
    t.record_state_update(&a, &obj(&[("n", "1")]), 3);
    t.record_action_acknowledgement("42", 4);
    let ids: Vec<String> = t.get_history().iter().map(|e| e.context_id.clone()).collect();
    assert_eq!(ids, vec!["ipc-dispatch-42", "ipc-receive-unknown", "ipc-update-42", "ipc-ack-42"]);
    let ack = &t.get_history()[3];
    assert_eq!(ack.action.as_ref().unwrap().action_type, "ACTION_ACKNOWLEDGED");
    assert_eq!(ack.state, Some(obj(&[("action_id", "\"42\""), ("acknowledged", "true")])));
    assert_eq!(t.get_history()[2].state_summary.as_ref().unwrap().properties, vec!["n".to_string()]);
}

#[test]
fn acknowledgement_with_transaction_carries_metrics() {
    let mut t = TelemetryMiddleware::new(config(10));
    let tx = PerformanceTransaction {
        action_type: "INC".to_string(),
        action_id: Some("7".to_string()),
        dispatch_timestamp: 0,
        receive_timestamp: Some(5_000_000),
        state_update_timestamp: Some(7_000_000),
        acknowledge_timestamp: Some(10_000_000),
    };
    t.track_action_acknowledged_with_transaction("7", &tx, 11);
    let e = &t.get_history()[0];
    assert_eq!(e.context_id, "ipc-ack-7");
    assert_eq!(e.processing_metrics.unwrap().total_ns, 10_000_000);
    let a = e.action.as_ref().unwrap();
    assert_eq!(a.action_type, "INC");
    assert_eq!(a.payload, Some(obj(&[("action_id", "\"7\""), ("has_metrics", "true")])));
}

#[test]
fn default_telemetry_config() {
    let c = TelemetryConfig::default();
    assert!(c.enabled && c.console_output && c.measure_performance);
    assert_eq!(c.websocket_port, Some(9000));
    assert_eq!(c.log_limit, 1000);
    let t = TelemetryMiddleware::new(c);
    assert!(t.is_performance_measurement_enabled());
    assert_eq!(t.get_config().log_limit, 1000);
}

#[test]
fn telemetry_with_performance_settings() {
    let settings = PerformanceSettings {
        enabled: None,
        detail: Some("LOW".to_string()),
        include_in_logs: None,
        record_timings: None,
        verbose_output: Some(true),
    };
    let t = TelemetryMiddleware::with_performance_settings(config(5), &settings);
    assert_eq!(t.get_config().performance.detail, DetailLevel::Low);
    assert!(t.get_config().performance.verbose_output);
    assert_eq!(t.get_config().log_limit, 5);
}
