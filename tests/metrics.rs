use zubridge_middleware::context::{Context, PhaseTimings, TimingField};
use zubridge_middleware::metrics::{
    calculate_from_transaction, detail_from_lowercase, detail_from_name, extract_from_context,
    extract_from_context_at, metrics_from_timestamps, Config, DetailLevel, Metrics, PerformanceSettings,
};
use zubridge_middleware::transaction::PerformanceTransaction;

const MS: u128 = 1_000_000;

fn tx(d: u128, r: Option<u128>, u: Option<u128>, a: Option<u128>) -> PerformanceTransaction {
    PerformanceTransaction {
        action_type: "T".to_string(),
        action_id: Some("x".to_string()),
        dispatch_timestamp: d,
        receive_timestamp: r,
        state_update_timestamp: u,
        acknowledge_timestamp: a,
    }
}

#[test]
fn phase_breakdown_of_ordered_transaction() {
    let t0: u128 = 1_700_000_000_000_000_000;
    let t = tx(t0, Some(t0 + 5 * MS), Some(t0 + 7 * MS), Some(t0 + 10 * MS));
    let m = calculate_from_transaction(&t).unwrap().unwrap();
    assert_eq!(m.total_ns, 10 * MS);
    assert_eq!(m.deserialization_ns, Some(5 * MS));
    assert_eq!(m.action_processing_ns, Some(2 * MS));
    assert_eq!(m.state_update_ns, Some(3 * MS));
    assert_eq!(m.serialization_ns, None);
}

#[test]
fn phases_sum_to_total() {
    let m = metrics_from_timestamps(100, Some(130), Some(170), Some(1000)).unwrap();
    let sum = m.deserialization_ns.unwrap() + m.action_processing_ns.unwrap() + m.state_update_ns.unwrap();
    assert_eq!(sum, m.total_ns);
    assert_eq!(m.total_ns, 900);
}

#[test]
fn missing_update_falls_back_to_receive() {
    let m = metrics_from_timestamps(100, Some(150), None, Some(400)).unwrap();
    assert_eq!(m.total_ns, 300);
    assert_eq!(m.deserialization_ns, Some(50));
    assert_eq!(m.action_processing_ns, Some(0));
    assert_eq!(m.state_update_ns, Some(250));
}

#[test]
fn disordered_timestamps_give_none() {
    assert!(metrics_from_timestamps(100, Some(90), None, Some(200)).is_none());
    assert!(metrics_from_timestamps(100, Some(150), Some(140), Some(200)).is_none());
    assert!(metrics_from_timestamps(100, Some(150), Some(250), Some(200)).is_none());
    assert!(metrics_from_timestamps(300, Some(350), None, Some(200)).is_none());
    let t = tx(500, Some(400), Some(450), Some(600));
    assert!(calculate_from_transaction(&t).unwrap().is_none());
}

#[test]
fn missing_timestamps_give_none() {
    assert!(metrics_from_timestamps(100, None, None, Some(200)).is_none());
    assert!(metrics_from_timestamps(100, Some(150), None, None).is_none());
    assert!(calculate_from_transaction(&tx(1, None, None, None)).unwrap().is_none());
}

fn ctx_with(timings: PhaseTimings, start: Option<u128>) -> Context {
    let mut c = Context::with_id("ctx".to_string(), start);
    c.metadata = timings;
    c
}

fn all_timings() -> PhaseTimings {
    PhaseTimings {
        processing_ns: Some(10),
        deserialization_ns: Some(1),
        action_processing_ns: Some(2),
        state_update_ns: Some(3),
        serialization_ns: Some(4),
    }
}

fn config(detail: DetailLevel) -> Config {
    Config { detail, ..Config::default() }
}

#[test]
fn detail_levels_gate_fields() {
    let c = ctx_with(all_timings(), None);
    let low = extract_from_context_at(&c, &config(DetailLevel::Low), 0).unwrap();
    assert_eq!(
        low,
        Metrics {
            total_ns: 10,
            deserialization_ns: None,
            action_processing_ns: None,
            state_update_ns: None,
            serialization_ns: None,
        }
    );
    let medium = extract_from_context_at(&c, &config(DetailLevel::Medium), 0).unwrap();
    assert_eq!(medium.deserialization_ns, Some(1));
    assert_eq!(medium.action_processing_ns, Some(2));
    assert_eq!(medium.state_update_ns, Some(3));
    assert_eq!(medium.serialization_ns, None);
    let high = extract_from_context_at(&c, &config(DetailLevel::High), 0).unwrap();
    assert_eq!(high.serialization_ns, Some(4));
}

#[test]
fn disabled_measurement_gives_none() {
    let c = ctx_with(all_timings(), Some(5));
    let cfg = Config { enabled: false, ..Config::default() };
    assert!(extract_from_context_at(&c, &cfg, 100).is_none());
    assert!(extract_from_context(&c, &cfg).is_none());
}

#[test]
fn total_falls_back_to_start_time() {
    let c = ctx_with(PhaseTimings::empty(), Some(1_000));
    let m = extract_from_context_at(&c, &Config::default(), 4_500).unwrap();
    assert_eq!(m.total_ns, 3_500);
    let backwards = extract_from_context_at(&c, &Config::default(), 10).unwrap();
    assert_eq!(backwards.total_ns, 0);
}

#[test]
fn no_timing_data_gives_none() {
    let c = ctx_with(PhaseTimings::empty(), None);
    assert!(extract_from_context_at(&c, &Config::default(), 99).is_none());
    assert!(extract_from_context(&c, &Config::default()).is_none());
}

#[test]
fn clocked_extraction_uses_elapsed_time() {
    let mut c = Context::new();
    c.start_time = Some(0);
    let m = extract_from_context(&c, &Config::default()).unwrap();
    assert!(m.total_ns > 0);
}

#[test]
fn default_config_values() {
    let c = Config::default();
    assert!(c.enabled && c.include_in_logs && c.record_timings && !c.verbose_output);
    assert_eq!(c.detail, DetailLevel::Medium);
    assert_eq!(DetailLevel::default(), DetailLevel::Medium);
}

#[test]
fn context_records_timings() {
    let mut c = Context::new();
    assert_eq!(c.id.len(), 36);
    assert_ne!(c.id, Context::new().id);
    c.add_performance_metric(TimingField::StateUpdate, 7);
    assert_eq!(c.metadata.state_update_ns, Some(7));
    c.set_performance_metrics(20, Some(1), None, None, Some(2));
    assert_eq!(c.metadata.processing_ns, Some(20));
    assert_eq!(c.metadata.deserialization_ns, Some(1));
    assert_eq!(c.metadata.state_update_ns, Some(7));
    assert_eq!(c.metadata.serialization_ns, Some(2));
    let t = Context::with_transaction_id("abc".to_string());
    assert_eq!(t.transaction_id, Some("abc".to_string()));
}

#[test]
fn detail_names_ignore_case() {
    assert_eq!(detail_from_name("HIGH"), DetailLevel::High);
    assert_eq!(detail_from_name("Low"), DetailLevel::Low);
    assert_eq!(detail_from_name("medium"), DetailLevel::Medium);
    assert_eq!(detail_from_name("extreme"), DetailLevel::Medium);
    assert_eq!(detail_from_lowercase("high"), DetailLevel::High);
    assert_eq!(detail_from_lowercase("HIGH"), DetailLevel::Medium);
}

#[test]
fn performance_settings_override_given_fields() {
    let settings = PerformanceSettings {
        enabled: Some(false),
        detail: Some("High".to_string()),
        include_in_logs: None,
        record_timings: Some(false),
        verbose_output: None,
    };
    let c = Config::default().with_overrides(&settings);
    assert!(!c.enabled);
    assert_eq!(c.detail, DetailLevel::High);
    assert!(c.include_in_logs);
    assert!(!c.record_timings);
    assert!(!c.verbose_output);
}
