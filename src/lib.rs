//! Telemetry core for a cross-process state-dispatch pipeline: per-phase
//! latency metrics, a transaction ledger keyed by action id, a bounded
//! history of telemetry entries, shallow state diffing, the default
//! state-merge rule, and the orchestrator that runs them around each action.
pub mod action;
pub mod broadcast;
pub mod clock;
pub mod context;
pub mod error;
pub mod json;
pub mod metrics;
pub mod middleware;
pub mod reducer;
pub mod serialization;
pub mod state;
pub mod store;
pub mod telemetry;
pub mod text;
pub mod transaction;

pub use action::Action;
pub use context::{Context, PhaseTimings, TimingField};
pub use error::Error;
pub use json::{JsonValue, Member};
pub use metrics::{Config as PerformanceConfig, DetailLevel as PerformanceDetail, Metrics as PerformanceMetrics};
pub use middleware::{ZubridgeMiddleware, ZubridgeMiddlewareConfig};
pub use serialization::Format as SerializationFormat;
pub use state::StateSummary;
pub use store::{create_store, Store};
pub use telemetry::{TelemetryConfig, TelemetryEntry, TelemetryEntryType, TelemetryMiddleware};
pub use transaction::{Config as TransactionConfig, PerformanceTransaction, TransactionManager};
