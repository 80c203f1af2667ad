//! The pipeline orchestrator: owns the shared state, the transaction ledger
//! and the telemetry middleware, and runs the hook sequence around each
//! action.
use vstd::prelude::*;
use crate::action::Action;
use crate::context::Context;
use crate::error::Error;
use crate::json::{JsonValue, JsonView, Member};
use crate::reducer::{apply_default_reducer, reduce};
use crate::telemetry::{TelemetryConfig, TelemetryMiddleware};
use crate::transaction::{
    after_acknowledgement, after_dispatch, after_receive, after_state_update, evict_expired, keeps_newest,
    Config as TransactionConfig, TransactionManager, TransactionView,
};

verus! {

/// Configuration of the orchestrator.
#[derive(Clone, Copy, Debug)]
pub struct ZubridgeMiddlewareConfig {
    /// Telemetry settings.
    pub telemetry: TelemetryConfig,
    /// Transaction ledger settings.
    pub transaction: TransactionConfig,
}

impl Default for ZubridgeMiddlewareConfig {
    fn default() -> (r: Self)
        ensures
            r.telemetry.enabled,
            r.telemetry.log_limit == 1000,
            r.transaction.max_age_seconds == 300,
            r.transaction.max_transactions == 1000,
    {
        ZubridgeMiddlewareConfig {
            telemetry: TelemetryConfig::default(),
            transaction: TransactionConfig::default(),
        }
    }
}

/// Runs actions through the telemetry hooks and the default merge rule.
pub struct ZubridgeMiddleware {
    state: JsonValue,
    config: ZubridgeMiddlewareConfig,
    telemetry: Option<TelemetryMiddleware>,
    transaction_manager: TransactionManager,
}

impl ZubridgeMiddleware {
    /// The shared state.
    pub closed spec fn state(&self) -> JsonView {
        self.state@
    }

    /// The transaction ledger.
    pub closed spec fn ledger(&self) -> Seq<TransactionView> {
        self.transaction_manager@
    }

    /// The configuration.
    pub closed spec fn config(&self) -> ZubridgeMiddlewareConfig {
        self.config
    }

    /// The telemetry middleware, present when telemetry is enabled.
    pub closed spec fn telemetry(&self) -> Option<TelemetryMiddleware> {
        self.telemetry
    }

    /// The state is well formed, and so are the ledger and the history.
    pub closed spec fn wf(&self) -> bool {
        &&& self.state@.wf()
        &&& self.transaction_manager.wf()
        &&& match self.telemetry {
            Some(t) => t.wf(),
            None => true,
        }
    }

    /// An orchestrator with an empty object state, an empty ledger with the
    /// default ledger settings, and a telemetry middleware when telemetry is
    /// enabled.
    pub fn new(config: ZubridgeMiddlewareConfig) -> (r: ZubridgeMiddleware)
        ensures
            r.wf(),
            r.state() == JsonView::Object(Seq::empty()),
            r.ledger().len() == 0,
            r.config() == config,
            r.telemetry() is Some <==> config.telemetry.enabled,
            r.transactions_config().max_age_seconds == 300,
            r.transactions_config().max_transactions == 1000,
            r.transactions_config().cleanup_interval_seconds == 60,
    {
        ZubridgeMiddleware::with_transaction_config(config, TransactionConfig::default())
    }

    /// Like [`ZubridgeMiddleware::new`], with the given ledger settings.
    pub fn with_transaction_config(
        config: ZubridgeMiddlewareConfig,
        transaction_config: TransactionConfig,
    ) -> (r: ZubridgeMiddleware)
        ensures
            r.wf(),
            r.state() == JsonView::Object(Seq::empty()),
            r.ledger().len() == 0,
            r.config() == config,
            r.telemetry() is Some <==> config.telemetry.enabled,
            r.transactions_config() == transaction_config,
    {
        let telemetry = if config.telemetry.enabled {
            Some(TelemetryMiddleware::new(config.telemetry))
        } else {
            None
        };
        let members: Vec<Member> = Vec::new();
        let r = ZubridgeMiddleware {
            state: JsonValue::Object(members),
            config,
            telemetry,
            transaction_manager: TransactionManager::with_config(transaction_config),
        };
        assert(r.state@ == JsonView::Object(Seq::empty())) by {
            assert(members@.map_values(|m: Member| m@) =~= Seq::empty());
        }
        r
    }

    /// The telemetry middleware, if telemetry is enabled.
    pub fn telemetry_middleware(&self) -> (r: Option<&TelemetryMiddleware>)
        ensures
            match r {
                Some(t) => self.telemetry() == Some(*t),
                None => self.telemetry() is None,
            },
    {
        match &self.telemetry {
            Some(t) => Some(t),
            None => None,
        }
    }

    /// The transaction ledger.
    pub fn transactions(&self) -> (r: &TransactionManager)
        ensures
            r@ == self.ledger(),
            self.wf() ==> r.wf(),
    {
        &self.transaction_manager
    }

    /// A copy of the shared state.
    pub fn get_state(&self) -> (r: JsonValue)
        ensures
            r@ == self.state(),
    {
        self.state.copy_of()
    }

    /// Replaces the whole state.
    pub fn set_state(&mut self, new_state: JsonValue) -> (r: Result<(), Error>)
        requires
            old(self).wf(),
            new_state@.wf(),
        ensures
            r is Ok,
            final(self).wf(),
            final(self).state() == new_state@,
            final(self).ledger() == old(self).ledger(),
            final(self).config() == old(self).config(),
            final(self).transactions_config() == old(self).transactions_config(),
    {
        self.state = new_state;
        Ok(())
    }

    /// Records, at `now`, that an identified action was dispatched; actions
    /// without id are not tracked.
    pub fn record_action_dispatch(&mut self, action: &Action, now: u128) -> (r: Result<(), Error>)
        requires
            old(self).wf(),
        ensures
            r is Ok,
            final(self).wf(),
            final(self).ledger() == match action@.id {
                Some(id) => after_dispatch(old(self).ledger(), id, action@.action_type, now),
                None => old(self).ledger(),
            },
            final(self).state() == old(self).state(),
            final(self).telemetry() == old(self).telemetry(),
            final(self).config() == old(self).config(),
            final(self).transactions_config() == old(self).transactions_config(),
    {
        match &action.id {
            Some(id) => {
                self.transaction_manager.record_dispatch_at(id.as_str(), action.action_type.as_str(), now);
            },
            None => {},
        }
        Ok(())
    }

    /// Records, at `now`, that an identified action was received, and lets
    /// telemetry observe it; actions without id are not tracked.
    pub fn record_action_received(&mut self, action: &Action, now: u128) -> (r: Result<(), Error>)
        requires
            old(self).wf(),
        ensures
            r is Ok,
            final(self).wf(),
            final(self).ledger() == match action@.id {
                Some(id) => after_receive(old(self).ledger(), id, action@.action_type, now),
                None => old(self).ledger(),
            },
            final(self).state() == old(self).state(),
            final(self).config() == old(self).config(),
            final(self).transactions_config() == old(self).transactions_config(),
            match (old(self).telemetry(), final(self).telemetry()) {
                (Some(before), Some(after)) => after.config() == before.config()
                    && after.previous_state() == before.previous_state(),
                (None, None) => true,
                _ => false,
            },
    {
        match &action.id {
            Some(id) => {
                self.transaction_manager.record_receive_at(id.as_str(), action.action_type.as_str(), now);
                match &mut self.telemetry {
                    Some(t) => t.record_action_received(action, now),
                    None => {},
                }
            },
            None => {},
        }
        Ok(())
    }

    /// Records, at `now`, the state update that followed an identified
    /// action, and lets telemetry observe it.
    pub fn record_state_update(&mut self, action: &Action, state: &JsonValue, now: u128) -> (r: Result<(), Error>)
        requires
            old(self).wf(),
        ensures
            r is Ok,
            final(self).wf(),
            final(self).ledger() == match action@.id {
                Some(id) => after_state_update(old(self).ledger(), id, now),
                None => old(self).ledger(),
            },
            final(self).state() == old(self).state(),
            final(self).config() == old(self).config(),
            final(self).transactions_config() == old(self).transactions_config(),
            match (old(self).telemetry(), final(self).telemetry()) {
                (Some(before), Some(after)) => after.config() == before.config()
                    && after.previous_state() == before.previous_state(),
                (None, None) => true,
                _ => false,
            },
    {
        match &action.id {
            Some(id) => {
                self.transaction_manager.record_state_update_at(id.as_str(), now);
                match &mut self.telemetry {
                    Some(t) => t.record_state_update(action, state, now),
                    None => {},
                }
            },
            None => {},
        }
        Ok(())
    }

    /// Records, at `now`, that an action was acknowledged.
    pub fn record_action_acknowledgement(&mut self, action_id: &str, now: u128) -> (r: Result<(), Error>)
        requires
            old(self).wf(),
        ensures
            r is Ok,
            final(self).wf(),
            final(self).ledger() == after_acknowledgement(old(self).ledger(), action_id@, now),
            final(self).state() == old(self).state(),
            final(self).telemetry() == old(self).telemetry(),
            final(self).config() == old(self).config(),
            final(self).transactions_config() == old(self).transactions_config(),
    {
        self.transaction_manager.record_acknowledgement_at(action_id, now);
        Ok(())
    }

    /// Processes an action at `now`: telemetry sees it first, then it is
    /// merged into the state by the default rule, telemetry sees the new
    /// state, and an identified action gets its state update recorded.
    pub fn process_action(&mut self, action: Action, ctx: &Context, now: u128) -> (r: Result<(), Error>)
        requires
            old(self).wf(),
        ensures
            r is Ok,
            final(self).wf(),
            final(self).config() == old(self).config(),
            final(self).transactions_config() == old(self).transactions_config(),
            match (old(self).telemetry(), final(self).telemetry()) {
                (Some(before), Some(after)) => after.config() == before.config()
                    && after.previous_state() == Some(final(self).state()),
                (None, None) => true,
                _ => false,
            },
            final(self).state() == reduce(old(self).state(), action@.action_type, action@.payload),
            final(self).ledger() == match action@.id {
                Some(id) => after_state_update(old(self).ledger(), id, now),
                None => old(self).ledger(),
            },
    {
        let current = match &mut self.telemetry {
            Some(t) => match t.before_action(&action, ctx, now) {
                Some(a) => a,
                None => return Ok(()),
            },
            None => action,
        };
        apply_default_reducer(&mut self.state, &current)?;
        match &mut self.telemetry {
            Some(t) => t.after_action(&current, &self.state, ctx, now),
            None => {},
        }
        if current.id.is_some() {
            let snapshot = self.state.copy_of();
            self.record_state_update(&current, &snapshot, now)?;
        }
        Ok(())
    }

    /// One run of the ledger's eviction policy at `now`.
    pub fn cleanup_transactions(&mut self, now: u128)
        requires
            old(self).wf(),
        ensures
            final(self).wf(),
            keeps_newest(
                evict_expired(old(self).ledger(), now, old(self).transactions_config()),
                final(self).ledger(),
                old(self).transactions_config().max_transactions as nat,
            ),
            final(self).state() == old(self).state(),
            final(self).telemetry() == old(self).telemetry(),
            final(self).config() == old(self).config(),
            final(self).transactions_config() == old(self).transactions_config(),
    {
        self.transaction_manager.cleanup_at(now);
    }

    /// The ledger's configuration.
    pub closed spec fn transactions_config(&self) -> TransactionConfig {
        self.transaction_manager.config()
    }

    /// The ledger's configuration.
    pub fn get_transaction_config(&self) -> (r: TransactionConfig)
        ensures
            r == self.transactions_config(),
    {
        self.transaction_manager.get_config()
    }
}

} // verus!
