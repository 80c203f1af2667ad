//! Decisions of the live broadcast server: which address to fall back to
//! when binding fails, which viewers are connected, and whether a new entry
//! is delivered at all.
use std::collections::HashSet;
use vstd::prelude::*;
use vstd::std_specs::hash::group_hash_axioms;

verus! {

broadcast use group_hash_axioms;

/// The loopback address that the server binds to by default.
pub open spec fn loopback() -> Seq<char> {
    "127.0.0.1"@
}

/// The address to retry on after binding to `bind_address` failed: loopback,
/// unless loopback was what failed.
pub fn fallback_bind_address(bind_address: &str) -> (r: Option<String>)
    ensures
        r is Some <==> bind_address@ != loopback(),
        r matches Some(a) ==> a@ == loopback(),
{
    let loop_back = "127.0.0.1".to_owned();
    if bind_address.to_owned() == loop_back {
        None
    } else {
        Some(loop_back)
    }
}

/// The connected viewers, each by a connection number.
pub struct ClientRegistry {
    clients: HashSet<u64>,
}

impl View for ClientRegistry {
    type V = Set<u64>;

    closed spec fn view(&self) -> Set<u64> {
        self.clients@
    }
}

/// What to do with a new entry.
#[derive(Clone, Copy, Debug, PartialEq, Eq, Structural)]
pub enum BroadcastStep {
    /// Nobody listens: no encoding, no socket work.
    Skip,
    /// Encode the entry once and hand it to the fan-out channel.
    Deliver,
}

impl ClientRegistry {
    /// No viewer connected.
    pub fn new() -> (r: ClientRegistry)
        ensures
            r@ == Set::<u64>::empty(),
    {
        ClientRegistry { clients: HashSet::new() }
    }

    /// Adds a viewer.
    pub fn register(&mut self, client: u64)
        ensures
            final(self)@ == old(self)@.insert(client),
    {
        self.clients.insert(client);
    }

    /// Removes a viewer whose connection ended.
    pub fn unregister(&mut self, client: u64)
        ensures
            final(self)@ == old(self)@.remove(client),
    {
        self.clients.remove(&client);
    }

    /// The number of connected viewers.
    pub fn client_count(&self) -> (r: usize)
        ensures
            r == self@.len(),
    {
        self.clients.len()
    }

    /// Whether no viewer is connected.
    pub fn is_empty(&self) -> (r: bool)
        ensures
            r == (self@ == Set::<u64>::empty()),
    {
        let r = self.clients.is_empty();
        proof {
            if !r {
                assert(!(self@ =~= Set::<u64>::empty()));
            }
        }
        r
    }
}

/// Decides whether a new entry goes out: a broadcast with no viewer
/// connected is skipped, before any encoding or socket work, and is not a
/// failure.
pub fn plan_broadcast(registry: &ClientRegistry) -> (r: BroadcastStep)
    ensures
        r == BroadcastStep::Skip <==> registry@ == Set::<u64>::empty(),
        r == BroadcastStep::Deliver <==> registry@ != Set::<u64>::empty(),
{
    if registry.is_empty() {
        BroadcastStep::Skip
    } else {
        BroadcastStep::Deliver
    }
}

} // verus!
