use zubridge_middleware::action::Action;
use zubridge_middleware::context::Context;
use zubridge_middleware::json::{JsonValue, Member};
use zubridge_middleware::middleware::{ZubridgeMiddleware, ZubridgeMiddlewareConfig};
use zubridge_middleware::telemetry::TelemetryEntryType;

fn obj(pairs: &[(&str, &str)]) -> JsonValue {
    JsonValue::Object(
        pairs.iter().map(|(k, v)| Member { key: k.to_string(), value: v.to_string() }).collect(),
    )
}

fn config() -> ZubridgeMiddlewareConfig {
    let mut c = ZubridgeMiddlewareConfig::default();
    c.telemetry.websocket_port = None;
    c.telemetry.console_output = false;
    c
}

#[test]
fn process_action_merges_and_records() {
    let mut mw = ZubridgeMiddleware::new(config());
    let action = Action {
        action_type: "TEST_ACTION".to_string(),
        payload: Some(obj(&[("test", "true")])),
        id: None,
        source_window_id: None,
    };
    let ctx = Context::with_id("ctx".to_string(), Some(0));
    assert!(mw.process_action(action, &ctx, 1_000).is_ok());
    assert_eq!(mw.get_state(), obj(&[("test", "true")]));
    let t = mw.telemetry_middleware().unwrap();
    let h = t.get_history();
    assert_eq!(h.len(), 2);
    assert_eq!(h[0].entry_type, TelemetryEntryType::ActionDispatched);
    assert_eq!(h[1].entry_type, TelemetryEntryType::StateUpdated);
    assert_eq!(h[1].processing_metrics.unwrap().total_ns, 1_000);
}

#[test]
fn identified_action_lifecycle() {
    let mut mw = ZubridgeMiddleware::new(config());
    let action = Action {
        action_type: "INC".to_string(),
        payload: Some(JsonValue::Other("1".to_string())),
        id: Some("a1".to_string()),
        source_window_id: Some(3),
    };
    mw.record_action_dispatch(&action, 100).unwrap();
    mw.record_action_received(&action, 150).unwrap();
    let ctx = Context::with_id("ctx".to_string(), None);
    mw.process_action(action, &ctx, 170).unwrap();
    mw.record_action_acknowledgement("a1", 200).unwrap();
    assert_eq!(mw.get_state(), obj(&[("inc", "1")]));
    let m = mw.transactions().calculate_metrics("a1").unwrap().unwrap();
    assert_eq!(m.total_ns, 100);
    assert_eq!(m.action_processing_ns, Some(20));
}

#[test]
fn disabled_telemetry_has_no_middleware() {
    let mut c = config();
    c.telemetry.enabled = false;
    let mut mw = ZubridgeMiddleware::new(c);
    assert!(mw.telemetry_middleware().is_none());
    mw.set_state(obj(&[("k", "1")])).unwrap();
    assert_eq!(mw.get_state(), obj(&[("k", "1")]));
}

#[test]
fn unidentified_actions_are_not_tracked() {
    let mut mw = ZubridgeMiddleware::new(config());
    let action = Action { action_type: "X".to_string(), payload: None, id: None, source_window_id: None };
    mw.record_action_dispatch(&action, 1).unwrap();
    mw.record_action_received(&action, 2).unwrap();
    assert_eq!(mw.transactions().transaction_count(), 0);
}
