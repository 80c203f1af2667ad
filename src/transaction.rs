//! The transaction ledger: lifecycle timestamps of each identified action,
//! keyed by action id, with age- and size-based eviction.
use vstd::prelude::*;
use crate::clock::current_timestamp;
use crate::error::Error;
use crate::metrics::{metrics_from_timestamps, transaction_metrics, Metrics};

verus! {

/// The timing record of one action's round trip, in epoch nanoseconds.
#[derive(Clone, Debug)]
pub struct PerformanceTransaction {
    /// Type of the action.
    pub action_type: String,
    /// Id of the action.
    pub action_id: Option<String>,
    /// When the action was dispatched.
    pub dispatch_timestamp: u128,
    /// When the action was received.
    pub receive_timestamp: Option<u128>,
    /// When the state was updated.
    pub state_update_timestamp: Option<u128>,
    /// When the acknowledgement was sent.
    pub acknowledge_timestamp: Option<u128>,
}

/// The mathematical content of a [`PerformanceTransaction`].
pub struct TransactionView {
    pub action_type: Seq<char>,
    pub action_id: Option<Seq<char>>,
    pub dispatch: u128,
    pub receive: Option<u128>,
    pub update: Option<u128>,
    pub ack: Option<u128>,
}

pub open spec fn opt_string_view(o: Option<String>) -> Option<Seq<char>> {
    match o {
        Some(s) => Some(s@),
        None => None,
    }
}

impl View for PerformanceTransaction {
    type V = TransactionView;

    open spec fn view(&self) -> TransactionView {
        TransactionView {
            action_type: self.action_type@,
            action_id: opt_string_view(self.action_id),
            dispatch: self.dispatch_timestamp,
            receive: self.receive_timestamp,
            update: self.state_update_timestamp,
            ack: self.acknowledge_timestamp,
        }
    }
}

fn copy_opt_string(o: &Option<String>) -> (r: Option<String>)
    ensures
        opt_string_view(r) == opt_string_view(*o),
{
    match o {
        Some(s) => Some(s.clone()),
        None => None,
    }
}

impl PerformanceTransaction {
    /// An independent copy of this record.
    pub fn copy_of(&self) -> (r: PerformanceTransaction)
        ensures
            r@ == self@,
    {
        PerformanceTransaction {
            action_type: self.action_type.clone(),
            action_id: copy_opt_string(&self.action_id),
            dispatch_timestamp: self.dispatch_timestamp,
            receive_timestamp: self.receive_timestamp,
            state_update_timestamp: self.state_update_timestamp,
            acknowledge_timestamp: self.acknowledge_timestamp,
        }
    }

    /// The record of an action dispatched at `now`.
    fn dispatched_at(action_id: &str, action_type: &str, now: u128) -> (r: PerformanceTransaction)
        ensures
            r@ == dispatched(action_id@, action_type@, now),
    {
        PerformanceTransaction {
            action_type: action_type.to_owned(),
            action_id: Some(action_id.to_owned()),
            dispatch_timestamp: now,
            receive_timestamp: None,
            state_update_timestamp: None,
            acknowledge_timestamp: None,
        }
    }
}

/// A fresh transaction of an action dispatched at `now`.
pub open spec fn dispatched(id: Seq<char>, ty: Seq<char>, now: u128) -> TransactionView {
    TransactionView {
        action_type: ty,
        action_id: Some(id),
        dispatch: now,
        receive: None,
        update: None,
        ack: None,
    }
}

/// Configuration of transaction tracking.
#[derive(Clone, Copy, Debug)]
pub struct Config {
    /// Age after which a completed transaction is evicted, in seconds.
    pub max_age_seconds: u64,
    /// Maximum number of transactions kept.
    pub max_transactions: usize,
    /// Interval between two cleanup runs, in seconds.
    pub cleanup_interval_seconds: u64,
}

pub fn default_max_age() -> (r: u64)
    ensures
        r == 300,
{
    300
}

pub fn default_max_transactions() -> (r: usize)
    ensures
        r == 1000,
{
    1000
}

pub fn default_cleanup_interval() -> (r: u64)
    ensures
        r == 60,
{
    60
}

impl Default for Config {
    fn default() -> (r: Self)
        ensures
            r.max_age_seconds == 300,
            r.max_transactions == 1000,
            r.cleanup_interval_seconds == 60,
    {
        Config {
            max_age_seconds: default_max_age(),
            max_transactions: default_max_transactions(),
            cleanup_interval_seconds: default_cleanup_interval(),
        }
    }
}

// ---------------------------------------------------------------------------
// The ledger as a sequence of transactions with distinct ids.

/// Whether some transaction of `s` has the id `id`.
pub open spec fn has_id(s: Seq<TransactionView>, id: Seq<char>) -> bool {
    exists|i: int| 0 <= i < s.len() && (#[trigger] s[i]).action_id == Some(id)
}

/// The position of the transaction with id `id` (meaningful when `has_id`).
pub open spec fn position(s: Seq<TransactionView>, id: Seq<char>) -> int {
    choose|i: int| 0 <= i < s.len() && (#[trigger] s[i]).action_id == Some(id)
}

/// The transaction with id `id`, if any.
pub open spec fn lookup(s: Seq<TransactionView>, id: Seq<char>) -> Option<TransactionView> {
    if has_id(s, id) {
        Some(s[position(s, id)])
    } else {
        None
    }
}

/// Every transaction has an id, and no two share one.
pub open spec fn unique_ids(s: Seq<TransactionView>) -> bool {
    &&& forall|i: int| 0 <= i < s.len() ==> (#[trigger] s[i]).action_id is Some
    &&& forall|i: int, j: int|
        0 <= i < s.len() && 0 <= j < s.len() && i != j ==> (#[trigger] s[i]).action_id
            != (#[trigger] s[j]).action_id
}

/// The ledger after a dispatch of `id` at `now`: a fresh transaction that
/// replaces any earlier one with the same id.
pub open spec fn after_dispatch(s: Seq<TransactionView>, id: Seq<char>, ty: Seq<char>, now: u128) -> Seq<TransactionView> {
    if has_id(s, id) {
        s.update(position(s, id), dispatched(id, ty, now))
    } else {
        s.push(dispatched(id, ty, now))
    }
}

/// The ledger after a receipt of `id` at `now`: the receive timestamp is set
/// unless it already was (a set timestamp never changes), and an unknown id
/// gets a transaction dispatched and received at `now`.
pub open spec fn after_receive(s: Seq<TransactionView>, id: Seq<char>, ty: Seq<char>, now: u128) -> Seq<TransactionView> {
    if has_id(s, id) {
        if s[position(s, id)].receive is None {
            s.update(position(s, id), TransactionView { receive: Some(now), ..s[position(s, id)] })
        } else {
            s
        }
    } else {
        s.push(TransactionView { receive: Some(now), ..dispatched(id, ty, now) })
    }
}

/// The ledger after a state update of `id` at `now`: the timestamp is set
/// unless it already was (unchanged for an unknown id).
pub open spec fn after_state_update(s: Seq<TransactionView>, id: Seq<char>, now: u128) -> Seq<TransactionView> {
    if has_id(s, id) && s[position(s, id)].update is None {
        s.update(position(s, id), TransactionView { update: Some(now), ..s[position(s, id)] })
    } else {
        s
    }
}

/// The ledger after an acknowledgement of `id` at `now`: the timestamp is
/// set unless it already was (unchanged for an unknown id).
pub open spec fn after_acknowledgement(s: Seq<TransactionView>, id: Seq<char>, now: u128) -> Seq<TransactionView> {
    if has_id(s, id) && s[position(s, id)].ack is None {
        s.update(position(s, id), TransactionView { ack: Some(now), ..s[position(s, id)] })
    } else {
        s
    }
}

/// How long ago, at `now`, the transaction was dispatched (zero if later).
pub open spec fn age(t: TransactionView, now: u128) -> int {
    if t.dispatch <= now { now - t.dispatch } else { 0 }
}

/// The maximum age of a completed transaction, in nanoseconds.
pub open spec fn max_age_nanos(config: Config) -> int {
    config.max_age_seconds * 1_000_000_000
}

/// Whether a cleanup at `now` keeps the transaction: a completed one at most
/// the maximum age old, any other at most twice that.
pub open spec fn retained(t: TransactionView, now: u128, config: Config) -> bool {
    &&& !(t.ack is Some && age(t, now) > max_age_nanos(config))
    &&& !(age(t, now) > 2 * max_age_nanos(config))
}

/// The ledger after the age-based eviction at `now`.
pub open spec fn evict_expired(s: Seq<TransactionView>, now: u128, config: Config) -> Seq<TransactionView> {
    s.filter(|t: TransactionView| retained(t, now, config))
}

/// `kept` is what remains of `s` after dropping the oldest transactions
/// (by dispatch time) until at most `limit` are left.
pub open spec fn keeps_newest(s: Seq<TransactionView>, kept: Seq<TransactionView>, limit: nat) -> bool {
    &&& kept.len() == if s.len() <= limit { s.len() } else { limit }
    &&& forall|t: TransactionView| kept.contains(t) ==> s.contains(t)
    &&& forall|t: TransactionView, u: TransactionView|
        s.contains(t) && !kept.contains(t) && #[trigger] kept.contains(u) ==> #[trigger] t.dispatch <= u.dispatch
    &&& s.len() <= limit ==> kept == s
}

proof fn lemma_update_keeps_unique(s: Seq<TransactionView>, i: int, t: TransactionView)
    requires
        unique_ids(s),
        0 <= i < s.len(),
        t.action_id == s[i].action_id,
    ensures
        unique_ids(s.update(i, t)),
{
    let r = s.update(i, t);
    assert forall|a: int, b: int| 0 <= a < r.len() && 0 <= b < r.len() && a != b implies
        (#[trigger] r[a]).action_id != (#[trigger] r[b]).action_id by {
        assert(s[a].action_id != s[b].action_id);
    }
}

proof fn lemma_remove_keeps_unique(s: Seq<TransactionView>, i: int)
    requires
        unique_ids(s),
        0 <= i < s.len(),
    ensures
        unique_ids(s.remove(i)),
{
    let r = s.remove(i);
    assert forall|a: int, b: int| 0 <= a < r.len() && 0 <= b < r.len() && a != b implies
        (#[trigger] r[a]).action_id != (#[trigger] r[b]).action_id by {
        let a2 = if a < i { a } else { a + 1 };
        let b2 = if b < i { b } else { b + 1 };
        assert(r[a] == s[a2]);
        assert(r[b] == s[b2]);
        assert(s[a2].action_id != s[b2].action_id);
    }
    assert forall|a: int| 0 <= a < r.len() implies (#[trigger] r[a]).action_id is Some by {
        let a2 = if a < i { a } else { a + 1 };
        assert(r[a] == s[a2]);
    }
}

proof fn lemma_position(s: Seq<TransactionView>, id: Seq<char>, i: int)
    requires
        unique_ids(s),
        0 <= i < s.len(),
        s[i].action_id == Some(id),
    ensures
        has_id(s, id),
        position(s, id) == i,
{
    assert(has_id(s, id));
    let p = position(s, id);
    assert(s[p].action_id == Some(id));
}

proof fn lemma_filter_step(s: Seq<TransactionView>, j: int, f: spec_fn(TransactionView) -> bool)
    requires
        0 <= j < s.len(),
    ensures
        s.subrange(0, j + 1).filter(f) == if f(s[j]) {
            s.subrange(0, j).filter(f).push(s[j])
        } else {
            s.subrange(0, j).filter(f)
        },
{
    reveal(Seq::filter);
    assert(s.subrange(0, j + 1).drop_last() =~= s.subrange(0, j));
}

/// Tracks the lifecycle timestamps of identified actions.
pub struct TransactionManager {
    transactions: Vec<PerformanceTransaction>,
    config: Config,
}

impl View for TransactionManager {
    type V = Seq<TransactionView>;

    closed spec fn view(&self) -> Seq<TransactionView> {
        self.transactions@.map_values(|t: PerformanceTransaction| t@)
    }
}

impl TransactionManager {
    /// The configuration of the ledger.
    pub closed spec fn config(&self) -> Config {
        self.config
    }

    /// The configuration of the ledger.
    pub fn get_config(&self) -> (r: Config)
        ensures
            r == self.config(),
    {
        self.config
    }

    /// The ledger's invariant: ids are present and distinct.
    pub open spec fn wf(&self) -> bool {
        unique_ids(self@)
    }

    /// An empty ledger with the default configuration.
    pub fn new() -> (r: TransactionManager)
        ensures
            r.wf(),
            r@.len() == 0,
            r.config().max_age_seconds == 300,
            r.config().max_transactions == 1000,
            r.config().cleanup_interval_seconds == 60,
    {
        TransactionManager::with_config(Config::default())
    }

    /// An empty ledger with the given configuration.
    pub fn with_config(config: Config) -> (r: TransactionManager)
        ensures
            r.wf(),
            r@.len() == 0,
            r.config() == config,
    {
        let r = TransactionManager { transactions: Vec::new(), config };
        assert(r@ =~= Seq::<TransactionView>::empty());
        r
    }

    fn find(&self, id: &str) -> (r: Option<usize>)
        requires
            self.wf(),
        ensures
            match r {
                Some(i) => has_id(self@, id@) && i == position(self@, id@) && i < self@.len(),
                None => !has_id(self@, id@),
            },
    {
        let key = id.to_owned();
        let mut i: usize = 0;
        while i < self.transactions.len()
            invariant
                self.wf(),
                key@ == id@,
                i <= self.transactions.len(),
                forall|k: int| 0 <= k < i ==> (#[trigger] self@[k]).action_id != Some(id@),
            decreases self.transactions.len() - i,
        {
            match &self.transactions[i].action_id {
                Some(s) => {
                    if *s == key {
                        proof {
                            assert(self@[i as int].action_id == Some(id@));
                            lemma_position(self@, id@, i as int);
                        }
                        return Some(i);
                    }
                },
                None => {},
            }
            assert(self@[i as int] == self.transactions@[i as int]@);
            i += 1;
        }
        None
    }

    /// Records the dispatch of an action at `now`: a fresh transaction,
    /// replacing any earlier one with the same id.
    pub fn record_dispatch_at(&mut self, action_id: &str, action_type: &str, now: u128)
        requires
            old(self).wf(),
        ensures
            final(self).wf(),
            final(self)@ == after_dispatch(old(self)@, action_id@, action_type@, now),
            final(self).config() == old(self).config(),
    {
        let tx = PerformanceTransaction::dispatched_at(action_id, action_type, now);
        match self.find(action_id) {
            Some(i) => {
                proof {
                    lemma_update_keeps_unique(self@, i as int, tx@);
                }
                self.transactions.set(i, tx);
            },
            None => {
                self.transactions.push(tx);
            },
        }
        assert(self@ =~= after_dispatch(old(self)@, action_id@, action_type@, now));
    }

    /// Records the receipt of an action at `now`, unless its receipt was
    /// already recorded. An unknown id gets a transaction whose dispatch and
    /// receive timestamps are both `now`.
    pub fn record_receive_at(&mut self, action_id: &str, action_type: &str, now: u128)
        requires
            old(self).wf(),
        ensures
            final(self).wf(),
            final(self)@ == after_receive(old(self)@, action_id@, action_type@, now),
            final(self).config() == old(self).config(),
    {
        match self.find(action_id) {
            Some(i) => {
                assert(self@[i as int] == self.transactions@[i as int]@);
                if self.transactions[i].receive_timestamp.is_some() {
                    return;
                }
                let mut tx = self.transactions[i].copy_of();
                tx.receive_timestamp = Some(now);
                proof {
                    lemma_update_keeps_unique(self@, i as int, tx@);
                }
                self.transactions.set(i, tx);
            },
            None => {
                let mut tx = PerformanceTransaction::dispatched_at(action_id, action_type, now);
                tx.receive_timestamp = Some(now);
                self.transactions.push(tx);
            },
        }
        assert(self@ =~= after_receive(old(self)@, action_id@, action_type@, now));
    }

    /// Records the state update of an action at `now`, unless one was
    /// already recorded (no-op for an unknown id).
    pub fn record_state_update_at(&mut self, action_id: &str, now: u128)
        requires
            old(self).wf(),
        ensures
            final(self).wf(),
            final(self)@ == after_state_update(old(self)@, action_id@, now),
            final(self).config() == old(self).config(),
    {
        match self.find(action_id) {
            Some(i) => {
                assert(self@[i as int] == self.transactions@[i as int]@);
                if self.transactions[i].state_update_timestamp.is_some() {
                    return;
                }
                let mut tx = self.transactions[i].copy_of();
                tx.state_update_timestamp = Some(now);
                proof {
                    lemma_update_keeps_unique(self@, i as int, tx@);
                }
                self.transactions.set(i, tx);
            },
            None => {},
        }
        assert(self@ =~= after_state_update(old(self)@, action_id@, now));
    }

    /// Records the acknowledgement of an action at `now`, unless one was
    /// already recorded (no-op for an unknown id).
    pub fn record_acknowledgement_at(&mut self, action_id: &str, now: u128)
        requires
            old(self).wf(),
        ensures
            final(self).wf(),
            final(self)@ == after_acknowledgement(old(self)@, action_id@, now),
            final(self).config() == old(self).config(),
    {
        match self.find(action_id) {
            Some(i) => {
                assert(self@[i as int] == self.transactions@[i as int]@);
                if self.transactions[i].acknowledge_timestamp.is_some() {
                    return;
                }
                let mut tx = self.transactions[i].copy_of();
                tx.acknowledge_timestamp = Some(now);
                proof {
                    lemma_update_keeps_unique(self@, i as int, tx@);
                }
                self.transactions.set(i, tx);
            },
            None => {},
        }
        assert(self@ =~= after_acknowledgement(old(self)@, action_id@, now));
    }

    /// Records the dispatch of an action now. Fails, leaving the ledger
    /// unchanged, only when the clock cannot be read.
    pub fn record_dispatch(&mut self, action_id: &str, action_type: &str) -> (r: Result<(), Error>)
        requires
            old(self).wf(),
        ensures
            final(self).wf(),
            final(self).config() == old(self).config(),
            match r {
                Ok(()) => exists|now: u128|
                    final(self)@ == after_dispatch(old(self)@, action_id@, action_type@, now),
                Err(e) => e is TimestampError && final(self)@ == old(self)@,
            },
    {
        let now = current_timestamp()?;
        self.record_dispatch_at(action_id, action_type, now);
        Ok(())
    }

    /// Records the receipt of an action now. Fails, leaving the ledger
    /// unchanged, only when the clock cannot be read.
    pub fn record_receive(&mut self, action_id: &str, action_type: &str) -> (r: Result<(), Error>)
        requires
            old(self).wf(),
        ensures
            final(self).wf(),
            final(self).config() == old(self).config(),
            match r {
                Ok(()) => exists|now: u128|
                    final(self)@ == after_receive(old(self)@, action_id@, action_type@, now),
                Err(e) => e is TimestampError && final(self)@ == old(self)@,
            },
    {
        let now = current_timestamp()?;
        self.record_receive_at(action_id, action_type, now);
        Ok(())
    }

    /// Records the state update of an action now. Fails, leaving the ledger
    /// unchanged, only when the clock cannot be read.
    pub fn record_state_update(&mut self, action_id: &str) -> (r: Result<(), Error>)
        requires
            old(self).wf(),
        ensures
            final(self).wf(),
            final(self).config() == old(self).config(),
            match r {
                Ok(()) => exists|now: u128| final(self)@ == after_state_update(old(self)@, action_id@, now),
                Err(e) => e is TimestampError && final(self)@ == old(self)@,
            },
    {
        let now = current_timestamp()?;
        self.record_state_update_at(action_id, now);
        Ok(())
    }

    /// Records the acknowledgement of an action now. Fails, leaving the
    /// ledger unchanged, only when the clock cannot be read.
    pub fn record_acknowledgement(&mut self, action_id: &str) -> (r: Result<(), Error>)
        requires
            old(self).wf(),
        ensures
            final(self).wf(),
            final(self).config() == old(self).config(),
            match r {
                Ok(()) => exists|now: u128|
                    final(self)@ == after_acknowledgement(old(self)@, action_id@, now),
                Err(e) => e is TimestampError && final(self)@ == old(self)@,
            },
    {
        let now = current_timestamp()?;
        self.record_acknowledgement_at(action_id, now);
        Ok(())
    }

    /// The metrics of the transaction with id `action_id`: `MissingData` for
    /// an unknown id or when the acknowledge or receive timestamp is absent,
    /// `Ok(None)` for out-of-order timestamps.
    pub fn calculate_metrics(&self, action_id: &str) -> (r: Result<Option<Metrics>, Error>)
        requires
            self.wf(),
        ensures
            match lookup(self@, action_id@) {
                None => r matches Err(e) && e is MissingData,
                Some(t) => if t.ack is None || t.receive is None {
                    r matches Err(e) && e is MissingData
                } else {
                    r == Ok::<Option<Metrics>, Error>(
                        transaction_metrics(t.dispatch, t.receive, t.update, t.ack),
                    )
                },
            },
    {
        match self.find(action_id) {
            None => Err(Error::MissingData("No transaction recorded for action".to_owned())),
            Some(i) => {
                let tx = &self.transactions[i];
                assert(self@[i as int] == tx@);
                if tx.acknowledge_timestamp.is_none() {
                    return Err(Error::MissingData(
                        "Missing acknowledgement timestamp for action".to_owned(),
                    ));
                }
                if tx.receive_timestamp.is_none() {
                    return Err(Error::MissingData("Missing receive timestamp for action".to_owned()));
                }
                Ok(
                    metrics_from_timestamps(
                        tx.dispatch_timestamp,
                        tx.receive_timestamp,
                        tx.state_update_timestamp,
                        tx.acknowledge_timestamp,
                    ),
                )
            },
        }
    }

    /// A copy of the transaction with id `action_id`, if any.
    pub fn get_transaction(&self, action_id: &str) -> (r: Option<PerformanceTransaction>)
        requires
            self.wf(),
        ensures
            match r {
                Some(t) => lookup(self@, action_id@) == Some(t@),
                None => lookup(self@, action_id@) is None,
            },
    {
        match self.find(action_id) {
            None => None,
            Some(i) => {
                assert(self@[i as int] == self.transactions@[i as int]@);
                Some(self.transactions[i].copy_of())
            },
        }
    }

    /// The number of transactions in the ledger.
    pub fn transaction_count(&self) -> (r: usize)
        ensures
            r == self@.len(),
    {
        self.transactions.len()
    }

    /// Removes the transactions that have outlived their age at `now`: a
    /// completed one older than the maximum age, any one older than twice it.
    pub fn evict_expired_at(&mut self, now: u128)
        requires
            old(self).wf(),
        ensures
            final(self).wf(),
            final(self)@ == evict_expired(old(self)@, now, old(self).config()),
            final(self).config() == old(self).config(),
    {
        let ghost s = self@;
        let ghost f = |t: TransactionView| retained(t, now, self.config);
        let max_age: u128 = self.config.max_age_seconds as u128 * 1_000_000_000;
        let mut i: usize = 0;
        let ghost mut j: int = 0;
        while i < self.transactions.len()
            invariant
                self.config == old(self).config,
                max_age == max_age_nanos(self.config),
                f == (|t: TransactionView| retained(t, now, self.config)),
                s == old(self)@,
                unique_ids(self@),
                0 <= i <= j <= s.len(),
                self@ == s.subrange(0, j).filter(f) + s.subrange(j, s.len() as int),
                s.subrange(0, j).filter(f).len() == i,
            decreases s.len() - j,
        {
            proof {
                assert(self@[i as int] == s[j]);
                lemma_filter_step(s, j, f);
            }
            let tx = &self.transactions[i];
            assert(self@[i as int] == tx@);
            let age: u128 = if tx.dispatch_timestamp <= now { now - tx.dispatch_timestamp } else { 0 };
            let keep = !(tx.acknowledge_timestamp.is_some() && age > max_age) && !(age > 2 * max_age);
            assert(keep == f(s[j]));
            let ghost prev = self@;
            let ghost pre = s.subrange(0, j).filter(f);
            if keep {
                i += 1;
                proof {
                    assert(s.subrange(0, j + 1).filter(f) == pre.push(s[j]));
                    assert(self@ =~= pre.push(s[j]) + s.subrange(j + 1, s.len() as int));
                }
            } else {
                proof {
                    lemma_remove_keeps_unique(self@, i as int);
                }
                self.transactions.remove(i);
                proof {
                    assert(self@ =~= prev.remove(i as int));
                    assert(s.subrange(0, j + 1).filter(f) == pre);
                    assert(self@ =~= pre + s.subrange(j + 1, s.len() as int));
                }
            }
            proof {
                j = j + 1;
            }
        }
        proof {
            assert(s.subrange(j, s.len() as int).len() == 0);
            assert(s.subrange(0, s.len() as int) =~= s);
            assert(self@ =~= s.filter(f));
        }
    }

    /// Drops the oldest transactions (by dispatch time) until at most
    /// `max_transactions` are left.
    pub fn enforce_limit(&mut self)
        requires
            old(self).wf(),
        ensures
            final(self).wf(),
            keeps_newest(old(self)@, final(self)@, old(self).config().max_transactions as nat),
            final(self).config() == old(self).config(),
    {
        let ghost s = self@;
        let limit = self.config.max_transactions;
        while self.transactions.len() > limit
            invariant
                self.config == old(self).config,
                limit == self.config.max_transactions,
                s == old(self)@,
                unique_ids(self@),
                s.len() > limit ==> self@.len() >= limit,
                s.len() <= limit ==> self@ == s,
                self@.len() <= s.len(),
                forall|t: TransactionView| self@.contains(t) ==> s.contains(t),
                forall|t: TransactionView, u: TransactionView|
                    s.contains(t) && !self@.contains(t) && #[trigger] self@.contains(u)
                        ==> #[trigger] t.dispatch <= u.dispatch,
            decreases self.transactions.len(),
        {
            let mut m: usize = 0;
            let mut k: usize = 1;
            while k < self.transactions.len()
                invariant
                    1 <= k <= self.transactions.len(),
                    m < self.transactions.len(),
                    forall|x: int| 0 <= x < k ==> self@[m as int].dispatch <= (#[trigger] self@[x]).dispatch,
                decreases self.transactions.len() - k,
            {
                assert(self@[k as int] == self.transactions@[k as int]@);
                assert(self@[m as int] == self.transactions@[m as int]@);
                if self.transactions[k].dispatch_timestamp < self.transactions[m].dispatch_timestamp {
                    m = k;
                }
                k += 1;
            }
            let ghost cur = self@;
            let ghost gone = cur[m as int];
            proof {
                lemma_remove_keeps_unique(cur, m as int);
            }
            self.transactions.remove(m);
            proof {
                let r = self@;
                assert(r =~= cur.remove(m as int));
                assert forall|t: TransactionView| r.contains(t) implies cur.contains(t) by {
                    let a = choose|a: int| 0 <= a < r.len() && r[a] == t;
                    let a2 = if a < m { a } else { a + 1 };
                    assert(cur[a2] == t);
                }
                assert forall|t: TransactionView, u: TransactionView|
                    s.contains(t) && !r.contains(t) && #[trigger] r.contains(u)
                        implies #[trigger] t.dispatch <= u.dispatch by {
                    let b = choose|b: int| 0 <= b < r.len() && r[b] == u;
                    let b2 = if b < m { b } else { b + 1 };
                    assert(cur[b2] == u);
                    assert(cur.contains(u));
                    if cur.contains(t) {
                        let a = choose|a: int| 0 <= a < cur.len() && cur[a] == t;
                        if a < m {
                            assert(r[a] == t);
                        } else if a > m {
                            assert(r[a - 1] == t);
                        }
                        assert(a == m);
                        assert(gone.dispatch <= cur[b2].dispatch);
                    }
                }
            }
        }
    }

    /// One cleanup run at `now`: age-based eviction, then the size limit.
    pub fn cleanup_at(&mut self, now: u128)
        requires
            old(self).wf(),
        ensures
            final(self).wf(),
            keeps_newest(
                evict_expired(old(self)@, now, old(self).config()),
                final(self)@,
                old(self).config().max_transactions as nat,
            ),
            final(self).config() == old(self).config(),
    {
        self.evict_expired_at(now);
        self.enforce_limit();
    }
}

/// Receiving an action whose id the ledger does not know creates a
/// transaction whose dispatch and receive timestamps coincide.
pub proof fn lemma_receive_unknown_id(s: Seq<TransactionView>, id: Seq<char>, ty: Seq<char>, now: u128)
    requires
        !has_id(s, id),
    ensures
        lookup(after_receive(s, id, ty, now), id) matches Some(t) && {
            &&& t.dispatch == now
            &&& t.receive == Some(now)
            &&& t.action_type == ty
        },
{
    let r = after_receive(s, id, ty, now);
    assert(r[s.len() as int].action_id == Some(id));
    assert(has_id(r, id));
    let p = position(r, id);
    if p < s.len() {
        assert(s[p].action_id == Some(id));
    }
}

/// After a cleanup run at `now`, no completed transaction is older than the
/// maximum age and no transaction at all is older than twice that age.
pub proof fn lemma_cleanup_bounds_age(
    s: Seq<TransactionView>,
    kept: Seq<TransactionView>,
    now: u128,
    config: Config,
)
    requires
        keeps_newest(evict_expired(s, now, config), kept, config.max_transactions as nat),
    ensures
        forall|t: TransactionView| #[trigger] kept.contains(t) ==> {
            &&& !(t.ack is Some && age(t, now) > max_age_nanos(config))
            &&& age(t, now) <= 2 * max_age_nanos(config)
        },
{
    broadcast use vstd::seq_lib::group_filter_ensures;

    let f = |t: TransactionView| retained(t, now, config);
    let e = evict_expired(s, now, config);
    assert forall|t: TransactionView| #[trigger] kept.contains(t) implies retained(t, now, config) by {
        assert(e.contains(t));
        let i = choose|i: int| 0 <= i < e.len() && e[i] == t;
        assert(f(s.filter(f)[i]));
    }
}

/// Once set, a receive, state-update or acknowledge timestamp never
/// changes: recording that phase again leaves the transaction as it was.
pub proof fn lemma_set_timestamps_are_immutable(
    s: Seq<TransactionView>,
    id: Seq<char>,
    ty: Seq<char>,
    now: u128,
)
    requires
        unique_ids(s),
        has_id(s, id),
    ensures
        s[position(s, id)].receive is Some ==> after_receive(s, id, ty, now) == s,
        s[position(s, id)].update is Some ==> after_state_update(s, id, now) == s,
        s[position(s, id)].ack is Some ==> after_acknowledgement(s, id, now) == s,
        lookup(after_receive(s, id, ty, now), id) matches Some(t) && t.receive is Some,
{
    let p = position(s, id);
    let r = after_receive(s, id, ty, now);
    assert(r[p].action_id == Some(id));
    if s[p].receive is None {
        lemma_update_keeps_unique(s, p, r[p]);
    }
    lemma_position(r, id, p);
}

} // verus!
