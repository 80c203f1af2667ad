use zubridge_middleware::action::Action;
use zubridge_middleware::json::{JsonValue, Member};
use zubridge_middleware::reducer::apply_default_reducer;
use zubridge_middleware::state::{calculate_state_delta, create_state_summary};

fn obj(pairs: &[(&str, &str)]) -> JsonValue {
    JsonValue::Object(
        pairs.iter().map(|(k, v)| Member { key: k.to_string(), value: v.to_string() }).collect(),
    )
}

fn action(ty: &str, payload: Option<JsonValue>) -> Action {
    Action { action_type: ty.to_string(), payload, id: None, source_window_id: None }
}

#[test]
fn identical_states_have_no_delta() {
    let s = obj(&[("a", "1"), ("b", "[1,2]")]);
    assert_eq!(calculate_state_delta(&Some(s.clone()), &s), None);
}

#[test]
fn one_changed_key_is_the_delta() {
    let prev = obj(&[("a", "1"), ("b", "2"), ("c", "3")]);
    let cur = obj(&[("a", "1"), ("b", "\"two\""), ("c", "3")]);
    assert_eq!(calculate_state_delta(&Some(prev), &cur), Some(obj(&[("b", "\"two\"")])));
}

#[test]
fn new_key_is_in_the_delta() {
    let prev = obj(&[("a", "1")]);
    let cur = obj(&[("a", "1"), ("z", "null")]);
    assert_eq!(calculate_state_delta(&Some(prev), &cur), Some(obj(&[("z", "null")])));
}

#[test]
fn delta_needs_previous_object_state() {
    let cur = obj(&[("a", "1")]);
    assert_eq!(calculate_state_delta(&None, &cur), None);
    assert_eq!(calculate_state_delta(&Some(JsonValue::Other("3".to_string())), &cur), None);
    assert_eq!(calculate_state_delta(&Some(cur.clone()), &JsonValue::Other("3".to_string())), None);
}

#[test]
fn summary_of_object_state() {
    let s = obj(&[("count", "2"), ("name", "\"x\"")]);
    let summary = create_state_summary(&s).unwrap();
    assert_eq!(summary.size_bytes, "{\"count\":2,\"name\":\"x\"}".len());
    assert_eq!(summary.property_count, 2);
    assert_eq!(summary.properties, vec!["count".to_string(), "name".to_string()]);
    assert_eq!(s.to_text().unwrap(), "{\"count\":2,\"name\":\"x\"}");
}

#[test]
fn summary_escapes_keys_and_counts_bytes() {
    let s = obj(&[("q\"é", "1")]);
    let text = s.to_text().unwrap();
    assert_eq!(text, "{\"q\\\"é\":1}");
    assert_eq!(create_state_summary(&s).unwrap().size_bytes, text.len());
}

#[test]
fn summary_of_scalar_and_empty_states() {
    let scalar = create_state_summary(&JsonValue::Other("42".to_string())).unwrap();
    assert_eq!(scalar.size_bytes, 2);
    assert_eq!(scalar.property_count, 0);
    assert!(scalar.properties.is_empty());
    let empty = create_state_summary(&obj(&[])).unwrap();
    assert_eq!(empty.size_bytes, 2);
}

#[test]
fn object_payload_merges_key_by_key() {
    let mut state = obj(&[("a", "1"), ("b", "2")]);
    apply_default_reducer(&mut state, &action("SET", Some(obj(&[("b", "20"), ("c", "30")])))).unwrap();
    assert_eq!(state, obj(&[("a", "1"), ("b", "20"), ("c", "30")]));
}

#[test]
fn object_payload_leaves_non_object_state() {
    let mut state = JsonValue::Other("5".to_string());
    apply_default_reducer(&mut state, &action("SET", Some(obj(&[("b", "20")])))).unwrap();
    assert_eq!(state, JsonValue::Other("5".to_string()));
}

#[test]
fn scalar_payload_goes_under_sanitized_type() {
    let mut state = obj(&[]);
    apply_default_reducer(&mut state, &action("Counter:SET", Some(JsonValue::Other("3".to_string())))).unwrap();
    assert_eq!(state, obj(&[("counter_set", "3")]));
    let mut scalar_state = JsonValue::Other("true".to_string());
    apply_default_reducer(&mut scalar_state, &action("A:B", Some(JsonValue::Other("1".to_string())))).unwrap();
    assert_eq!(scalar_state, obj(&[("a_b", "1")]));
}

#[test]
fn payloadless_action_records_last_action() {
    let mut state = obj(&[("x", "1")]);
    apply_default_reducer(&mut state, &action("PING", None)).unwrap();
    assert_eq!(state, obj(&[("x", "1"), ("last_action", "\"PING\"")]));
    apply_default_reducer(&mut state, &action("PONG", None)).unwrap();
    assert_eq!(state, obj(&[("x", "1"), ("last_action", "\"PONG\"")]));
}
