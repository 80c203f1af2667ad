//! Phase durations derived from a transaction record or from a context's
//! recorded timings. All durations are whole nanoseconds.
use vstd::prelude::*;
use crate::clock::current_timestamp;
use crate::context::{Context, PhaseTimings};
use crate::error::Error;
use crate::text::{lower_of, lowercase};
use crate::transaction::PerformanceTransaction;

verus! {

/// How much of the timing breakdown is reported.
#[derive(Clone, Copy, Debug, PartialEq, Eq, Structural)]
pub enum DetailLevel {
    /// Total time only.
    Low,
    /// Total time and the three main phases.
    Medium,
    /// Everything, serialization time included.
    High,
}

impl Default for DetailLevel {
    fn default() -> (r: Self)
        ensures
            r == DetailLevel::Medium,
    {
        DetailLevel::Medium
    }
}

/// Performance measurement configuration.
#[derive(Clone, Copy, Debug)]
pub struct Config {
    /// Whether performance measurement is enabled.
    pub enabled: bool,
    /// Level of detail of the reported metrics.
    pub detail: DetailLevel,
    /// Whether metrics are attached to telemetry entries.
    pub include_in_logs: bool,
    /// Whether detailed timings are recorded.
    pub record_timings: bool,
    /// Whether verbose performance details are reported.
    pub verbose_output: bool,
}

pub fn default_true() -> (r: bool)
    ensures
        r,
{
    true
}

pub fn default_false() -> (r: bool)
    ensures
        !r,
{
    false
}

impl Default for Config {
    fn default() -> (r: Self)
        ensures
            r.enabled,
            r.detail == DetailLevel::Medium,
            r.include_in_logs,
            r.record_timings,
            !r.verbose_output,
    {
        Config {
            enabled: default_true(),
            detail: DetailLevel::default(),
            include_in_logs: default_true(),
            record_timings: default_true(),
            verbose_output: default_false(),
        }
    }
}

/// Partial performance settings: each field that is given replaces the
/// configured one. The detail level is named, case-insensitively.
#[derive(Clone, Debug)]
pub struct PerformanceSettings {
    pub enabled: Option<bool>,
    pub detail: Option<String>,
    pub include_in_logs: Option<bool>,
    pub record_timings: Option<bool>,
    pub verbose_output: Option<bool>,
}

/// The detail level of an already lower-cased name: `high`, `low`, and
/// `medium` for anything else.
pub open spec fn detail_of_lower(name: Seq<char>) -> DetailLevel {
    if name == "high"@ {
        DetailLevel::High
    } else if name == "low"@ {
        DetailLevel::Low
    } else {
        DetailLevel::Medium
    }
}

/// The detail level named by `name`, ignoring case.
pub open spec fn detail_named(name: Seq<char>) -> DetailLevel {
    detail_of_lower(lower_of(name))
}

/// The detail level of an already lower-cased name.
pub fn detail_from_lowercase(name: &str) -> (r: DetailLevel)
    ensures
        r == detail_of_lower(name@),
{
    let n = name.to_owned();
    if n == "high".to_owned() {
        DetailLevel::High
    } else if n == "low".to_owned() {
        DetailLevel::Low
    } else {
        DetailLevel::Medium
    }
}

/// The detail level named by `name`, ignoring case; unknown names give
/// `Medium`.
pub fn detail_from_name(name: &str) -> (r: DetailLevel)
    ensures
        r == detail_named(name@),
{
    let lower = lowercase(name);
    detail_from_lowercase(lower.as_str())
}

/// `given` when present, `current` otherwise.
pub open spec fn given_or<T>(given: Option<T>, current: T) -> T {
    match given {
        Some(v) => v,
        None => current,
    }
}

/// `config` with the given settings applied.
pub open spec fn with_settings(config: Config, s: PerformanceSettings) -> Config {
    Config {
        enabled: given_or(s.enabled, config.enabled),
        detail: match s.detail {
            Some(n) => detail_named(n@),
            None => config.detail,
        },
        include_in_logs: given_or(s.include_in_logs, config.include_in_logs),
        record_timings: given_or(s.record_timings, config.record_timings),
        verbose_output: given_or(s.verbose_output, config.verbose_output),
    }
}

impl Config {
    /// This configuration with every given setting applied.
    pub fn with_overrides(&self, settings: &PerformanceSettings) -> (r: Config)
        ensures
            r == with_settings(*self, *settings),
    {
        let mut r = *self;
        if let Some(v) = settings.enabled {
            r.enabled = v;
        }
        if let Some(n) = &settings.detail {
            r.detail = detail_from_name(n.as_str());
        }
        if let Some(v) = settings.include_in_logs {
            r.include_in_logs = v;
        }
        if let Some(v) = settings.record_timings {
            r.record_timings = v;
        }
        if let Some(v) = settings.verbose_output {
            r.verbose_output = v;
        }
        r
    }
}

/// Per-phase durations of one action, in nanoseconds.
#[derive(Clone, Copy, Debug, PartialEq, Eq, Structural)]
pub struct Metrics {
    /// Total processing time.
    pub total_ns: u128,
    /// Time from dispatch to receipt (or spent deserializing the action).
    pub deserialization_ns: Option<u128>,
    /// Time spent processing the action.
    pub action_processing_ns: Option<u128>,
    /// Time spent updating (and acknowledging) the state.
    pub state_update_ns: Option<u128>,
    /// Time spent serializing the response.
    pub serialization_ns: Option<u128>,
}

/// The metrics of a transaction with the given timestamps: `None` when the
/// receive or acknowledge timestamp is missing, or when the timestamps that
/// are present are out of order (`dispatch <= receive <= update <= ack`).
/// Without a state update the update phase is empty and the acknowledge phase
/// runs from receipt.
pub open spec fn transaction_metrics(
    dispatch: u128,
    receive: Option<u128>,
    update: Option<u128>,
    ack: Option<u128>,
) -> Option<Metrics> {
    match (receive, ack) {
        (Some(r), Some(a)) => match update {
            Some(u) => if dispatch <= r && r <= u && u <= a {
                Some(Metrics {
                    total_ns: (a - dispatch) as u128,
                    deserialization_ns: Some((r - dispatch) as u128),
                    action_processing_ns: Some((u - r) as u128),
                    state_update_ns: Some((a - u) as u128),
                    serialization_ns: None,
                })
            } else {
                None
            },
            None => if dispatch <= r && r <= a {
                Some(Metrics {
                    total_ns: (a - dispatch) as u128,
                    deserialization_ns: Some((r - dispatch) as u128),
                    action_processing_ns: Some(0),
                    state_update_ns: Some((a - r) as u128),
                    serialization_ns: None,
                })
            } else {
                None
            },
        },
        _ => None,
    }
}

/// Computes the metrics of a transaction from its four timestamps.
pub fn metrics_from_timestamps(
    dispatch: u128,
    receive: Option<u128>,
    update: Option<u128>,
    ack: Option<u128>,
) -> (r: Option<Metrics>)
    ensures
        r == transaction_metrics(dispatch, receive, update, ack),
{
    let a = match ack {
        Some(a) => a,
        None => return None,
    };
    let r = match receive {
        Some(r) => r,
        None => return None,
    };
    if a < dispatch || r < dispatch || a < r {
        return None;
    }
    match update {
        Some(u) => {
            if u < r || a < u {
                return None;
            }
            Some(Metrics {
                total_ns: a - dispatch,
                deserialization_ns: Some(r - dispatch),
                action_processing_ns: Some(u - r),
                state_update_ns: Some(a - u),
                serialization_ns: None,
            })
        },
        None => Some(Metrics {
            total_ns: a - dispatch,
            deserialization_ns: Some(r - dispatch),
            action_processing_ns: Some(0),
            state_update_ns: Some(a - r),
            serialization_ns: None,
        }),
    }
}

/// The elapsed time from `start` to `now`, zero if the clock went backwards.
pub open spec fn elapsed(start: u128, now: u128) -> u128 {
    if start <= now { (now - start) as u128 } else { 0 }
}

/// The metrics that a context yields under `config` at time `now`: nothing
/// when measurement is disabled or when neither a total nor a start time was
/// recorded; otherwise the recorded total (or the time elapsed since the
/// start) and the phases that the detail level admits.
pub open spec fn context_metrics(
    timings: PhaseTimings,
    start_time: Option<u128>,
    config: Config,
    now: u128,
) -> Option<Metrics> {
    let total = match timings.processing_ns {
        Some(t) => Some(t),
        None => match start_time {
            Some(s) => Some(elapsed(s, now)),
            None => None,
        },
    };
    if !config.enabled {
        None
    } else {
        match total {
            None => None,
            Some(t) => Some(Metrics {
                total_ns: t,
                deserialization_ns: if config.detail != DetailLevel::Low {
                    timings.deserialization_ns
                } else {
                    None
                },
                action_processing_ns: if config.detail != DetailLevel::Low {
                    timings.action_processing_ns
                } else {
                    None
                },
                state_update_ns: if config.detail != DetailLevel::Low {
                    timings.state_update_ns
                } else {
                    None
                },
                serialization_ns: if config.detail == DetailLevel::High {
                    timings.serialization_ns
                } else {
                    None
                },
            }),
        }
    }
}

/// Extracts metrics from a context's timings, taking `now` as the end of
/// processing when no total was recorded.
pub fn extract_from_context_at(ctx: &Context, config: &Config, now: u128) -> (r: Option<Metrics>)
    ensures
        r == context_metrics(ctx.metadata, ctx.start_time, *config, now),
{
    if !config.enabled {
        return None;
    }
    let total = match ctx.metadata.processing_ns {
        Some(t) => t,
        None => match ctx.start_time {
            Some(s) => if s <= now { now - s } else { 0 },
            None => return None,
        },
    };
    if config.detail == DetailLevel::Low {
        return Some(Metrics {
            total_ns: total,
            deserialization_ns: None,
            action_processing_ns: None,
            state_update_ns: None,
            serialization_ns: None,
        });
    }
    let serialization_ns = if config.detail == DetailLevel::High {
        ctx.metadata.serialization_ns
    } else {
        None
    };
    Some(Metrics {
        total_ns: total,
        deserialization_ns: ctx.metadata.deserialization_ns,
        action_processing_ns: ctx.metadata.action_processing_ns,
        state_update_ns: ctx.metadata.state_update_ns,
        serialization_ns,
    })
}

/// The metrics of a transaction record (see [`transaction_metrics`]). Never
/// fails: missing or disordered timestamps give `Ok(None)`.
pub fn calculate_from_transaction(transaction: &PerformanceTransaction) -> (r: Result<Option<Metrics>, Error>)
    ensures
        r == Ok::<Option<Metrics>, Error>(
            transaction_metrics(
                transaction@.dispatch,
                transaction@.receive,
                transaction@.update,
                transaction@.ack,
            ),
        ),
{
    Ok(
        metrics_from_timestamps(
            transaction.dispatch_timestamp,
            transaction.receive_timestamp,
            transaction.state_update_timestamp,
            transaction.acknowledge_timestamp,
        ),
    )
}

/// Extracts metrics from a context, reading the clock only when no total was
/// recorded but a start time was. When the clock cannot be read there, the
/// result is `None`.
pub fn extract_from_context(ctx: &Context, config: &Config) -> (r: Option<Metrics>)
    ensures
        ctx.metadata.processing_ns is Some || ctx.start_time is None ==> r == context_metrics(
            ctx.metadata,
            ctx.start_time,
            *config,
            0,
        ),
        r is Some ==> exists|now: u128| r == context_metrics(ctx.metadata, ctx.start_time, *config, now),
{
    if ctx.metadata.processing_ns.is_none() && ctx.start_time.is_some() && config.enabled {
        match current_timestamp() {
            Ok(now) => extract_from_context_at(ctx, config, now),
            Err(_) => None,
        }
    } else {
        extract_from_context_at(ctx, config, 0)
    }
}

/// For a transaction whose timestamps are in order, the metrics exist, their
/// total is the time from dispatch to acknowledgement, and the three phases
/// add up to that total.
pub proof fn lemma_ordered_transaction_metrics(
    dispatch: u128,
    receive: u128,
    update: Option<u128>,
    ack: u128,
)
    requires
        dispatch <= receive,
        match update {
            Some(u) => receive <= u && u <= ack,
            None => receive <= ack,
        },
    ensures
        transaction_metrics(dispatch, Some(receive), update, Some(ack)) matches Some(m) && {
            &&& m.total_ns == ack - dispatch
            &&& m.deserialization_ns == Some((receive - dispatch) as u128)
            &&& m.action_processing_ns is Some
            &&& m.state_update_ns is Some
            &&& m.deserialization_ns.unwrap() + m.action_processing_ns.unwrap()
                + m.state_update_ns.unwrap() == m.total_ns
        },
{
}

/// For a transaction whose timestamps are out of order, there are no
/// metrics, so no negative duration is ever reported.
pub proof fn lemma_disordered_transaction_metrics(
    dispatch: u128,
    receive: Option<u128>,
    update: Option<u128>,
    ack: Option<u128>,
)
    requires
        !(match (receive, ack) {
            (Some(r), Some(a)) => dispatch <= r && match update {
                Some(u) => r <= u && u <= a,
                None => r <= a,
            },
            _ => true,
        }),
    ensures
        transaction_metrics(dispatch, receive, update, ack) is None,
{
}

} // verus!
