//! A named store handle.
use vstd::prelude::*;

verus! {

/// A platform-agnostic store, identified by its name.
pub struct Store {
    pub name: String,
}

impl Store {
    /// Creates a store with the given name.
    pub fn new(name: String) -> (r: Store)
        ensures
            r.name@ == name@,
    {
        Store { name }
    }

    /// Returns a copy of the store's name.
    pub fn get_name(&self) -> (r: String)
        ensures
            r@ == self.name@,
    {
        self.name.clone()
    }
}

/// Creates a store with the given name (binding-friendly free function).
pub fn create_store(name: String) -> (r: Store)
    ensures
        r.name@ == name@,
{
    Store::new(name)
}

} // verus!
