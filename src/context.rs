//! The per-action processing scratch record.
use vstd::prelude::*;
use crate::clock::{current_timestamp, new_context_id};

verus! {

/// The timings recorded while one action is processed, in nanoseconds.
#[derive(Clone, Copy, Debug, PartialEq, Eq, Structural)]
pub struct PhaseTimings {
    /// Total processing time.
    pub processing_ns: Option<u128>,
    /// Time spent deserializing the action.
    pub deserialization_ns: Option<u128>,
    /// Time spent in the action handlers and state update together.
    pub action_processing_ns: Option<u128>,
    /// Time spent updating the state.
    pub state_update_ns: Option<u128>,
    /// Time spent serializing the response.
    pub serialization_ns: Option<u128>,
}

/// Timings with nothing recorded.
pub open spec fn no_timings() -> PhaseTimings {
    PhaseTimings {
        processing_ns: None,
        deserialization_ns: None,
        action_processing_ns: None,
        state_update_ns: None,
        serialization_ns: None,
    }
}

/// The well-known timing fields of a context.
#[derive(Clone, Copy, Debug, PartialEq, Eq, Structural)]
pub enum TimingField {
    Processing,
    Deserialization,
    ActionProcessing,
    StateUpdate,
    Serialization,
}

impl PhaseTimings {
    /// No timing recorded.
    pub fn empty() -> (r: PhaseTimings)
        ensures
            r == no_timings(),
    {
        PhaseTimings {
            processing_ns: None,
            deserialization_ns: None,
            action_processing_ns: None,
            state_update_ns: None,
            serialization_ns: None,
        }
    }

    /// These timings with `field` set to `value`.
    pub open spec fn with(self, field: TimingField, value: u128) -> PhaseTimings {
        match field {
            TimingField::Processing => PhaseTimings { processing_ns: Some(value), ..self },
            TimingField::Deserialization => PhaseTimings { deserialization_ns: Some(value), ..self },
            TimingField::ActionProcessing => PhaseTimings { action_processing_ns: Some(value), ..self },
            TimingField::StateUpdate => PhaseTimings { state_update_ns: Some(value), ..self },
            TimingField::Serialization => PhaseTimings { serialization_ns: Some(value), ..self },
        }
    }
}

/// Scratch record for the processing of one action.
#[derive(Debug)]
pub struct Context {
    /// Identifier of this processing run.
    pub id: String,
    /// Timings recorded so far.
    pub metadata: PhaseTimings,
    /// Wall-clock start of processing, in epoch nanoseconds.
    pub start_time: Option<u128>,
    /// The transaction this processing belongs to, if any.
    pub transaction_id: Option<String>,
}

impl Context {
    /// A context with the given id and start time and no timings.
    pub fn with_id(id: String, start_time: Option<u128>) -> (r: Context)
        ensures
            r.id@ == id@,
            r.metadata == no_timings(),
            r.start_time == start_time,
            r.transaction_id is None,
    {
        Context { id, metadata: PhaseTimings::empty(), start_time, transaction_id: None }
    }

    /// A context with a fresh random id, started now (no start time when the
    /// clock cannot be read).
    pub fn new() -> (r: Context)
        ensures
            r.id@.len() == 36,
            r.metadata == no_timings(),
            r.transaction_id is None,
    {
        let id = new_context_id();
        let start = match current_timestamp() {
            Ok(t) => Some(t),
            Err(_) => None,
        };
        Context::with_id(id, start)
    }

    /// A fresh context that belongs to the given transaction.
    pub fn with_transaction_id(transaction_id: String) -> (r: Context)
        ensures
            r.id@.len() == 36,
            r.metadata == no_timings(),
            r.transaction_id matches Some(t) && t@ == transaction_id@,
    {
        let mut ctx = Context::new();
        ctx.transaction_id = Some(transaction_id);
        ctx
    }

    /// Records one timing field.
    pub fn add_performance_metric(&mut self, field: TimingField, value: u128)
        ensures
            final(self).metadata == old(self).metadata.with(field, value),
            final(self).id == old(self).id,
            final(self).start_time == old(self).start_time,
            final(self).transaction_id == old(self).transaction_id,
    {
        match field {
            TimingField::Processing => self.metadata.processing_ns = Some(value),
            TimingField::Deserialization => self.metadata.deserialization_ns = Some(value),
            TimingField::ActionProcessing => self.metadata.action_processing_ns = Some(value),
            TimingField::StateUpdate => self.metadata.state_update_ns = Some(value),
            TimingField::Serialization => self.metadata.serialization_ns = Some(value),
        }
    }

    /// Records the total and every phase that is given; phases that are not
    /// given keep what was recorded before.
    pub fn set_performance_metrics(
        &mut self,
        total: u128,
        deserialization: Option<u128>,
        action: Option<u128>,
        state: Option<u128>,
        serialization: Option<u128>,
    )
        ensures
            final(self).metadata.processing_ns == Some(total),
            final(self).metadata.deserialization_ns == (if deserialization is Some {
                deserialization
            } else {
                old(self).metadata.deserialization_ns
            }),
            final(self).metadata.action_processing_ns == (if action is Some {
                action
            } else {
                old(self).metadata.action_processing_ns
            }),
            final(self).metadata.state_update_ns == (if state is Some {
                state
            } else {
                old(self).metadata.state_update_ns
            }),
            final(self).metadata.serialization_ns == (if serialization is Some {
                serialization
            } else {
                old(self).metadata.serialization_ns
            }),
            final(self).id == old(self).id,
            final(self).start_time == old(self).start_time,
            final(self).transaction_id == old(self).transaction_id,
    {
        self.add_performance_metric(TimingField::Processing, total);
        if let Some(v) = deserialization {
            self.add_performance_metric(TimingField::Deserialization, v);
        }
        if let Some(v) = action {
            self.add_performance_metric(TimingField::ActionProcessing, v);
        }
        if let Some(v) = state {
            self.add_performance_metric(TimingField::StateUpdate, v);
        }
        if let Some(v) = serialization {
            self.add_performance_metric(TimingField::Serialization, v);
        }
    }
}

} // verus!
