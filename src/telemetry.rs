//! The telemetry middleware: builds entries for the pipeline's hooks, keeps a
//! bounded history of them, and tracks the previous state for deltas.
use vstd::prelude::*;
use crate::action::Action;
use crate::context::Context;
use crate::json::{json_string, opt_view, JsonValue, JsonView, Member};
use crate::metrics::{
    calculate_from_transaction, context_metrics, extract_from_context_at, transaction_metrics, with_settings,
    Config as PerformanceConfig, Metrics, PerformanceSettings,
};
use crate::serialization::{default_serialization_format, Format};
use crate::state::{calculate_state_delta, create_state_summary, state_delta, summarizes, StateSummary};
use crate::transaction::PerformanceTransaction;

verus! {

/// What a telemetry entry records.
#[derive(Clone, Copy, Debug, PartialEq, Eq, Structural)]
pub enum TelemetryEntryType {
    /// An action was dispatched.
    ActionDispatched,
    /// An action was processed and the state updated.
    StateUpdated,
    /// An action was cancelled by a middleware.
    ActionCancelled,
    /// An error occurred.
    Error,
}

/// One recorded, broadcastable observation.
#[derive(Clone, Debug)]
pub struct TelemetryEntry {
    /// When the entry was made, in epoch nanoseconds.
    pub timestamp: u128,
    /// What the entry records.
    pub entry_type: TelemetryEntryType,
    /// The action concerned.
    pub action: Option<Action>,
    /// The state snapshot.
    pub state: Option<JsonValue>,
    /// Size and shape of the state.
    pub state_summary: Option<StateSummary>,
    /// The members of the state that changed since the previous update.
    pub state_delta: Option<JsonValue>,
    /// Identifier tying related entries together.
    pub context_id: String,
    /// Processing metrics.
    pub processing_metrics: Option<Metrics>,
}

/// Configuration of the telemetry middleware.
#[derive(Clone, Copy, Debug)]
pub struct TelemetryConfig {
    /// Whether telemetry is enabled.
    pub enabled: bool,
    /// Port of the broadcast server (`None` disables it).
    pub websocket_port: Option<u16>,
    /// Whether entries are also written to the console.
    pub console_output: bool,
    /// Maximum number of entries kept in the history.
    pub log_limit: usize,
    /// Whether action processing time is measured.
    pub measure_performance: bool,
    /// Whether state summaries are recorded.
    pub record_state_size: bool,
    /// Whether state deltas are recorded.
    pub record_state_delta: bool,
    /// Whether console output is pretty-printed.
    pub pretty_print: bool,
    /// Whether verbose diagnostics are written.
    pub verbose: bool,
    /// Format of broadcast messages.
    pub serialization_format: Format,
    /// Performance measurement settings.
    pub performance: PerformanceConfig,
}

/// The default history size.
pub fn default_log_limit() -> (r: usize)
    ensures
        r == 1000,
{
    1000
}

impl Default for TelemetryConfig {
    fn default() -> (r: Self)
        ensures
            r.enabled,
            r.websocket_port == Some(9000u16),
            r.console_output,
            r.log_limit == 1000,
            r.measure_performance,
            r.record_state_size,
            r.record_state_delta,
            !r.pretty_print,
            !r.verbose,
            r.serialization_format == Format::Json,
            r.performance.enabled,
    {
        TelemetryConfig {
            enabled: true,
            websocket_port: Some(9000),
            console_output: true,
            log_limit: default_log_limit(),
            measure_performance: true,
            record_state_size: true,
            record_state_delta: true,
            pretty_print: false,
            verbose: false,
            serialization_format: default_serialization_format(),
            performance: PerformanceConfig::default(),
        }
    }
}

/// The last `n` elements of `s` (all of them when there are fewer).
pub open spec fn keep_last<A>(s: Seq<A>, n: nat) -> Seq<A> {
    if s.len() <= n {
        s
    } else {
        s.subrange(s.len() - n, s.len() as int)
    }
}

/// The history after appending `e` under the limit `limit`: the oldest
/// entries are evicted first.
pub open spec fn bounded_push<A>(h: Seq<A>, e: A, limit: nat) -> Seq<A> {
    keep_last(h.push(e), limit)
}

/// The history after appending every element of `es`, in order.
pub open spec fn push_all<A>(h: Seq<A>, es: Seq<A>, limit: nat) -> Seq<A>
    decreases es.len(),
{
    if es.len() == 0 {
        h
    } else {
        bounded_push(push_all(h, es.drop_last(), limit), es.last(), limit)
    }
}

/// `new` is `old` with one more entry appended under `limit` (nothing is
/// kept under a zero limit).
pub open spec fn appended<A>(old: Seq<A>, new: Seq<A>, limit: nat) -> bool {
    if limit == 0 {
        new.len() == 0
    } else {
        new.len() > 0 && new == bounded_push(old, new.last(), limit)
    }
}

proof fn lemma_keep_last_push<A>(s: Seq<A>, e: A, n: nat)
    ensures
        keep_last(keep_last(s, n).push(e), n) == keep_last(s.push(e), n),
{
    let k = keep_last(s, n);
    if s.len() > n {
        assert(keep_last(k.push(e), n) =~= keep_last(s.push(e), n));
    }
}

/// Appending any sequence of entries, one at a time, to a history within its
/// limit leaves exactly the last `limit` entries of the whole sequence, in
/// order: the history never exceeds the limit and evicts oldest first.
pub proof fn lemma_history_window<A>(h: Seq<A>, es: Seq<A>, limit: nat)
    requires
        h.len() <= limit,
    ensures
        push_all(h, es, limit) == keep_last(h + es, limit),
        push_all(h, es, limit).len() <= limit,
    decreases es.len(),
{
    if es.len() > 0 {
        lemma_history_window(h, es.drop_last(), limit);
        lemma_keep_last_push(h + es.drop_last(), es.last(), limit);
        assert((h + es.drop_last()).push(es.last()) =~= h + es);
    } else {
        assert(h + es =~= h);
    }
}

/// The context id of an observational entry: the phase prefix followed by
/// the action id, or `unknown`.
pub open spec fn phase_context_id(prefix: Seq<char>, id: Option<Seq<char>>) -> Seq<char> {
    match id {
        Some(i) => prefix + i,
        None => prefix + "unknown"@,
    }
}

fn phase_id(prefix: &str, id: &Option<String>) -> (r: String)
    ensures
        r@ == phase_context_id(prefix@, match id { Some(s) => Some(s@), None => None }),
{
    let mut r = prefix.to_owned();
    match id {
        Some(s) => r.append(s.as_str()),
        None => r.append("unknown"),
    }
    r
}

/// Builds `{"action_id": <id>}` (plus `extra`, when given, as a second
/// member).
fn id_object(id: &str, extra: Option<Member>) -> (r: Option<JsonValue>)
    ensures
        r matches Some(v) && v@ is Object,
{
    let quoted = match json_string(id) {
        Ok(q) => q,
        Err(_) => return None,
    };
    let mut ms: Vec<Member> = Vec::new();
    ms.push(Member { key: "action_id".to_owned(), value: quoted });
    match extra {
        Some(m) => ms.push(m),
        None => {},
    }
    Some(JsonValue::Object(ms))
}

/// Middleware that records actions and state changes.
pub struct TelemetryMiddleware {
    config: TelemetryConfig,
    log_history: Vec<TelemetryEntry>,
    last_state: Option<JsonValue>,
}

impl TelemetryMiddleware {
    /// The configuration.
    pub closed spec fn config(&self) -> TelemetryConfig {
        self.config
    }

    /// The entries recorded so far, oldest first.
    pub closed spec fn history(&self) -> Seq<TelemetryEntry> {
        self.log_history@
    }

    /// The state of the most recent state update, if any.
    pub closed spec fn previous_state(&self) -> Option<JsonView> {
        match self.last_state {
            Some(s) => Some(s@),
            None => None,
        }
    }

    /// The history stays within its limit.
    pub open spec fn wf(&self) -> bool {
        self.history().len() <= self.config().log_limit
    }

    /// A middleware with an empty history.
    pub fn new(config: TelemetryConfig) -> (r: TelemetryMiddleware)
        ensures
            r.wf(),
            r.config() == config,
            r.history().len() == 0,
            r.previous_state() is None,
    {
        TelemetryMiddleware { config, log_history: Vec::new(), last_state: None }
    }

    /// A middleware whose performance configuration has the given settings
    /// applied on top of `config`'s.
    pub fn with_performance_settings(config: TelemetryConfig, settings: &PerformanceSettings) -> (r: TelemetryMiddleware)
        ensures
            r.wf(),
            r.config() == (TelemetryConfig { performance: with_settings(config.performance, *settings), ..config }),
            r.history().len() == 0,
            r.previous_state() is None,
    {
        let mut updated = config;
        updated.performance = config.performance.with_overrides(settings);
        TelemetryMiddleware::new(updated)
    }

    /// Whether processing time is measured.
    pub fn is_performance_measurement_enabled(&self) -> (r: bool)
        ensures
            r == self.config().measure_performance,
    {
        self.config.measure_performance
    }

    /// The configuration.
    pub fn get_config(&self) -> (r: &TelemetryConfig)
        ensures
            *r == self.config(),
    {
        &self.config
    }

    /// The entries recorded so far, oldest first.
    pub fn get_history(&self) -> (r: &Vec<TelemetryEntry>)
        ensures
            r@ == self.history(),
    {
        &self.log_history
    }

    /// Forgets every entry.
    pub fn clear_history(&mut self)
        ensures
            final(self).wf(),
            final(self).history().len() == 0,
            final(self).config() == old(self).config(),
            final(self).previous_state() == old(self).previous_state(),
    {
        self.log_history.clear();
    }

    /// Appends an entry, first evicting in one batch the fewest oldest
    /// entries that keep the history within its limit.
    pub fn add_log_entry(&mut self, entry: TelemetryEntry)
        ensures
            final(self).history() == bounded_push(old(self).history(), entry, old(self).config().log_limit as nat),
            final(self).wf(),
            final(self).config() == old(self).config(),
            final(self).previous_state() == old(self).previous_state(),
    {
        let limit = self.config.log_limit;
        if limit == 0 {
            self.log_history.clear();
            assert(self.log_history@ =~= bounded_push(old(self).history(), entry, 0));
            return;
        }
        let len = self.log_history.len();
        if len >= limit {
            let start = len - limit + 1;
            let tail = self.log_history.split_off(start);
            self.log_history = tail;
        }
        let ghost e = entry;
        self.log_history.push(entry);
        assert(self.log_history@ =~= bounded_push(old(self).history(), e, limit as nat));
    }

    /// Records an entry for an action about to be processed and passes the
    /// action on unchanged.
    pub fn before_action(&mut self, action: &Action, ctx: &Context, now: u128) -> (r: Option<Action>)
        ensures
            r matches Some(a) && a@ == action@,
            final(self).wf(),
            appended(old(self).history(), final(self).history(), old(self).config().log_limit as nat),
            old(self).config().log_limit > 0 ==> {
                let e = final(self).history().last();
                &&& e.entry_type == TelemetryEntryType::ActionDispatched
                &&& e.timestamp == now
                &&& e.action matches Some(a) && a@ == action@
                &&& e.state is None
                &&& e.state_summary is None
                &&& e.state_delta is None
                &&& e.context_id@ == ctx.id@
                &&& e.processing_metrics is None
            },
            final(self).config() == old(self).config(),
            final(self).previous_state() == old(self).previous_state(),
    {
        let entry = TelemetryEntry {
            timestamp: now,
            entry_type: TelemetryEntryType::ActionDispatched,
            action: Some(action.copy_of()),
            state: None,
            state_summary: None,
            state_delta: None,
            context_id: ctx.id.clone(),
            processing_metrics: None,
        };
        let ghost e = entry;
        self.add_log_entry(entry);
        proof {
            if self.config.log_limit > 0 {
                assert(self.history().last() == e);
            }
        }
        Some(action.copy_of())
    }

    /// Records the state reached after an action: the metrics extracted
    /// from the context (when measured and logged), the delta against the
    /// previous state and the state's summary (each when configured). The
    /// state becomes the previous state.
    pub fn after_action(&mut self, action: &Action, state: &JsonValue, ctx: &Context, now: u128)
        ensures
            final(self).wf(),
            appended(old(self).history(), final(self).history(), old(self).config().log_limit as nat),
            old(self).config().log_limit > 0 ==> {
                let e = final(self).history().last();
                let cfg = old(self).config();
                &&& e.entry_type == TelemetryEntryType::StateUpdated
                &&& e.timestamp == now
                &&& e.action matches Some(a) && a@ == action@
                &&& opt_view(e.state) == Some(state@)
                &&& e.context_id@ == ctx.id@
                &&& e.processing_metrics == if cfg.measure_performance && cfg.performance.include_in_logs {
                    context_metrics(ctx.metadata, ctx.start_time, cfg.performance, now)
                } else {
                    None
                }
                &&& opt_view(e.state_delta) == if cfg.record_state_delta {
                    state_delta(old(self).previous_state(), state@)
                } else {
                    None
                }
                &&& (cfg.record_state_size ==> (e.state_summary matches Some(s) && summarizes(s, state@)))
                &&& (!cfg.record_state_size ==> e.state_summary is None)
            },
            final(self).previous_state() == Some(state@),
            final(self).config() == old(self).config(),
    {
        let processing_metrics = if self.config.measure_performance && self.config.performance.include_in_logs {
            extract_from_context_at(ctx, &self.config.performance, now)
        } else {
            None
        };
        let state_delta = if self.config.record_state_delta {
            calculate_state_delta(&self.last_state, state)
        } else {
            None
        };
        let state_summary = if self.config.record_state_size {
            create_state_summary(state)
        } else {
            None
        };
        let entry = TelemetryEntry {
            timestamp: now,
            entry_type: TelemetryEntryType::StateUpdated,
            action: Some(action.copy_of()),
            state: Some(state.copy_of()),
            state_summary,
            state_delta,
            context_id: ctx.id.clone(),
            processing_metrics,
        };
        let ghost e = entry;
        self.add_log_entry(entry);
        self.last_state = Some(state.copy_of());
        proof {
            if self.config.log_limit > 0 {
                assert(self.history().last() == e);
            }
        }
    }

    /// Records an observational entry of the given type and phase for an
    /// action, optionally with a state and its summary.
    fn record_phase(
        &mut self,
        entry_type: TelemetryEntryType,
        prefix: &str,
        action: &Action,
        state: Option<&JsonValue>,
        now: u128,
    )
        ensures
            final(self).wf(),
            appended(old(self).history(), final(self).history(), old(self).config().log_limit as nat),
            old(self).config().log_limit > 0 ==> {
                let e = final(self).history().last();
                &&& e.entry_type == entry_type
                &&& e.timestamp == now
                &&& e.action matches Some(a) && a@ == action@
                &&& opt_view(e.state) == match state { Some(s) => Some(s@), None => None }
                &&& e.state_delta is None
                &&& e.context_id@ == phase_context_id(prefix@, action@.id)
                &&& e.processing_metrics is None
                &&& match state {
                    Some(st) => if old(self).config().record_state_size {
                        e.state_summary matches Some(s) && summarizes(s, st@)
                    } else {
                        e.state_summary is None
                    },
                    None => e.state_summary is None,
                }
            },
            final(self).config() == old(self).config(),
            final(self).previous_state() == old(self).previous_state(),
    {
        let (state_copy, state_summary) = match state {
            Some(s) => {
                let summary = if self.config.record_state_size {
                    create_state_summary(s)
                } else {
                    None
                };
                (Some(s.copy_of()), summary)
            },
            None => (None, None),
        };
        let entry = TelemetryEntry {
            timestamp: now,
            entry_type,
            action: Some(action.copy_of()),
            state: state_copy,
            state_summary,
            state_delta: None,
            context_id: phase_id(prefix, &action.id),
            processing_metrics: None,
        };
        let ghost e = entry;
        self.add_log_entry(entry);
        proof {
            if self.config.log_limit > 0 {
                assert(self.history().last() == e);
            }
        }
    }

    /// Records that an action was dispatched across the process boundary.
    pub fn record_action_dispatch(&mut self, action: &Action, now: u128)
        ensures
            final(self).wf(),
            appended(old(self).history(), final(self).history(), old(self).config().log_limit as nat),
            old(self).config().log_limit > 0 ==> {
                let e = final(self).history().last();
                &&& e.entry_type == TelemetryEntryType::ActionDispatched
                &&& e.timestamp == now
                &&& e.action matches Some(a) && a@ == action@
                &&& e.state is None
                &&& e.context_id@ == phase_context_id("ipc-dispatch-"@, action@.id)
                &&& e.processing_metrics is None
            },
            final(self).config() == old(self).config(),
            final(self).previous_state() == old(self).previous_state(),
    {
        self.record_phase(TelemetryEntryType::ActionDispatched, "ipc-dispatch-", action, None, now);
    }

    /// Records that an action was received across the process boundary.
    pub fn record_action_received(&mut self, action: &Action, now: u128)
        ensures
            final(self).wf(),
            appended(old(self).history(), final(self).history(), old(self).config().log_limit as nat),
            old(self).config().log_limit > 0 ==> {
                let e = final(self).history().last();
                &&& e.entry_type == TelemetryEntryType::ActionDispatched
                &&& e.timestamp == now
                &&& e.action matches Some(a) && a@ == action@
                &&& e.state is None
                &&& e.context_id@ == phase_context_id("ipc-receive-"@, action@.id)
                &&& e.processing_metrics is None
            },
            final(self).config() == old(self).config(),
            final(self).previous_state() == old(self).previous_state(),
    {
        self.record_phase(TelemetryEntryType::ActionDispatched, "ipc-receive-", action, None, now);
    }

    /// Records the state update that follows an action across the process
    /// boundary, with the state's summary when configured.
    pub fn record_state_update(&mut self, action: &Action, state: &JsonValue, now: u128)
        ensures
            final(self).wf(),
            appended(old(self).history(), final(self).history(), old(self).config().log_limit as nat),
            old(self).config().log_limit > 0 ==> {
                let e = final(self).history().last();
                &&& e.entry_type == TelemetryEntryType::StateUpdated
                &&& e.timestamp == now
                &&& e.action matches Some(a) && a@ == action@
                &&& opt_view(e.state) == Some(state@)
                &&& e.context_id@ == phase_context_id("ipc-update-"@, action@.id)
                &&& e.processing_metrics is None
                &&& (old(self).config().record_state_size ==> (e.state_summary matches Some(s)
                    && summarizes(s, state@)))
                &&& (!old(self).config().record_state_size ==> e.state_summary is None)
            },
            final(self).config() == old(self).config(),
            final(self).previous_state() == old(self).previous_state(),
    {
        self.record_phase(TelemetryEntryType::StateUpdated, "ipc-update-", action, Some(state), now);
    }

    /// Records an acknowledgement entry for `action_id`, built without
    /// transaction data and so without metrics.
    pub fn record_action_acknowledgement(&mut self, action_id: &str, now: u128)
        ensures
            final(self).wf(),
            appended(old(self).history(), final(self).history(), old(self).config().log_limit as nat),
            old(self).config().log_limit > 0 ==> {
                let e = final(self).history().last();
                &&& e.entry_type == TelemetryEntryType::StateUpdated
                &&& e.timestamp == now
                &&& e.action matches Some(a) && a.action_type@ == "ACTION_ACKNOWLEDGED"@
                    && (a.id matches Some(i) && i@ == action_id@)
                &&& e.context_id@ == "ipc-ack-"@ + action_id@
                &&& e.processing_metrics is None
            },
            final(self).config() == old(self).config(),
            final(self).previous_state() == old(self).previous_state(),
    {
        self.record_acknowledged(action_id, "ACTION_ACKNOWLEDGED".to_owned(), None, false, now);
    }

    /// Records the canonical acknowledgement entry of `action_id`, with the
    /// metrics derived from its transaction record.
    pub fn track_action_acknowledged_with_transaction(
        &mut self,
        action_id: &str,
        transaction: &PerformanceTransaction,
        now: u128,
    )
        ensures
            final(self).wf(),
            appended(old(self).history(), final(self).history(), old(self).config().log_limit as nat),
            old(self).config().log_limit > 0 ==> {
                let e = final(self).history().last();
                &&& e.entry_type == TelemetryEntryType::StateUpdated
                &&& e.timestamp == now
                &&& e.action matches Some(a) && a.action_type@ == transaction@.action_type
                    && (a.id matches Some(i) && i@ == action_id@)
                &&& e.context_id@ == "ipc-ack-"@ + action_id@
                &&& e.processing_metrics == transaction_metrics(
                    transaction@.dispatch,
                    transaction@.receive,
                    transaction@.update,
                    transaction@.ack,
                )
            },
            final(self).config() == old(self).config(),
            final(self).previous_state() == old(self).previous_state(),
    {
        let metrics = match calculate_from_transaction(transaction) {
            Ok(m) => m,
            Err(_) => None,
        };
        self.record_acknowledged(action_id, transaction.action_type.clone(), metrics, true, now);
    }

    /// Records an acknowledgement entry: the action carries the id (and,
    /// when `flag_metrics`, whether metrics were found); the state notes the
    /// acknowledgement.
    fn record_acknowledged(
        &mut self,
        action_id: &str,
        action_type: String,
        metrics: Option<Metrics>,
        flag_metrics: bool,
        now: u128,
    )
        ensures
            final(self).wf(),
            appended(old(self).history(), final(self).history(), old(self).config().log_limit as nat),
            old(self).config().log_limit > 0 ==> {
                let e = final(self).history().last();
                &&& e.entry_type == TelemetryEntryType::StateUpdated
                &&& e.timestamp == now
                &&& e.action matches Some(a) && a.action_type@ == action_type@
                    && (a.id matches Some(i) && i@ == action_id@)
                &&& e.context_id@ == "ipc-ack-"@ + action_id@
                &&& e.processing_metrics == metrics
            },
            final(self).config() == old(self).config(),
            final(self).previous_state() == old(self).previous_state(),
    {
        let extra = if flag_metrics {
            let text = if metrics.is_some() { "true".to_owned() } else { "false".to_owned() };
            Some(Member { key: "has_metrics".to_owned(), value: text })
        } else {
            None
        };
        let payload = id_object(action_id, extra);
        let acknowledged = Member { key: "acknowledged".to_owned(), value: "true".to_owned() };
        let state = id_object(action_id, Some(acknowledged));
        let action = Action {
            action_type,
            payload,
            id: Some(action_id.to_owned()),
            source_window_id: None,
        };
        let mut context_id = "ipc-ack-".to_owned();
        context_id.append(action_id);
        let entry = TelemetryEntry {
            timestamp: now,
            entry_type: TelemetryEntryType::StateUpdated,
            action: Some(action),
            state,
            state_summary: None,
            state_delta: None,
            context_id,
            processing_metrics: metrics,
        };
        let ghost e = entry;
        self.add_log_entry(entry);
        proof {
            if self.config.log_limit > 0 {
                assert(self.history().last() == e);
            }
        }
    }
}

} // verus!
