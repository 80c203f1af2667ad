use zubridge_middleware::metrics::Metrics;
use zubridge_middleware::serialization::{convert_format, default_serialization_format, metrics_to_json, Format};

const MS: u128 = 1_000_000;

#[test]
fn test_numeric_value_preservation() {
    let metrics = Metrics {
        total_ns: 15 * MS + MS / 2,
        deserialization_ns: Some(2 * MS),
        action_processing_ns: Some(10 * MS),
        state_update_ns: Some(3 * MS),
        serialization_ns: Some(MS / 2),
    };
    let json_str = metrics_to_json(&metrics);
    assert!(json_str.contains("\"total_ms\":15.5"), "total_ms should be serialized as a number");
    assert!(json_str.contains("\"deserialization_ms\":2.0"), "deserialization_ms should be serialized as a number");
    assert!(!json_str.contains("\"total_ms\":\"15.5\""), "total_ms should not be serialized as a string");
}

#[test]
fn metrics_json_exact_text() {
    let metrics = Metrics {
        total_ns: 15 * MS + MS / 2,
        deserialization_ns: Some(2 * MS),
        action_processing_ns: Some(10 * MS),
        state_update_ns: Some(3 * MS),
        serialization_ns: Some(MS / 2),
    };
    assert_eq!(
        metrics_to_json(&metrics),
        "{\"total_ms\":15.5,\"deserialization_ms\":2.0,\"action_processing_ms\":10.0,\"state_update_ms\":3.0,\"serialization_ms\":0.5}"
    );
}

#[test]
fn metrics_json_omits_absent_fields_and_pads_fractions() {
    let metrics = Metrics {
        total_ns: 1_234_005_000,
        deserialization_ns: None,
        action_processing_ns: None,
        state_update_ns: Some(7),
        serialization_ns: None,
    };
    assert_eq!(metrics_to_json(&metrics), "{\"total_ms\":1234.005,\"state_update_ms\":0.000007}");
}

#[test]
fn metrics_json_values_parse_as_json_numbers() {
    for ns in [0u128, 1, 999_999, 1_000_000, 12_345_678, 10_000_000_000] {
        let m = Metrics {
            total_ns: ns,
            deserialization_ns: Some(ns),
            action_processing_ns: None,
            state_update_ns: None,
            serialization_ns: None,
        };
        let v: serde_json::Value = serde_json::from_str(&metrics_to_json(&m)).unwrap();
        assert!(v["total_ms"].is_f64());
        assert!(v["deserialization_ms"].is_number());
        let expected = ns as f64 / 1_000_000.0;
        assert!((v["total_ms"].as_f64().unwrap() - expected).abs() < 1e-9);
    }
}

#[test]
fn default_format_is_text() {
    assert_eq!(default_serialization_format(), Format::Json);
    assert_eq!(Format::default(), Format::Json);
    assert_eq!(convert_format(&Format::MessagePack), Format::MessagePack);
}
