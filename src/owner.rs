use vstd::prelude::*;
use crate::discipline::{Discipline, PanicDiscipline};
use crate::keys::key_well_formed;
use crate::sovereign::{Lease, Sovereign};

verus! {

/// The single-resource form of the guard: one owner holds one resource and
/// hands out any number of leases to it.
///
/// Dropping the owner drops the registry without going through `kill`, so it
/// does not check for borrows in flight: those finish on their own copy of
/// the cell, and later borrows get `RegistryDropped`.
#[verifier::reject_recursive_types(T)]
pub struct Owner<T, D: Discipline = PanicDiscipline> {
    sovereign: Sovereign<T, D>,
    lease: Lease<T, D>,
}

impl<T, D: Discipline> Owner<T, D> {
    /// Takes custody of `resource`; returns the owner and a first lease.
    pub fn new(resource: T) -> (made: (Owner<T, D>, Lease<T, D>))
        ensures
            made.1.key() == made.0.key(),
    {
        let sovereign: Sovereign<T, D> = Sovereign::new();
        let lease = sovereign.register(resource);
        let handed = lease.clone();
        (Owner { sovereign, lease }, handed)
    }

    /// The key of the one resource.
    pub closed spec fn key(&self) -> u64 {
        self.lease.key()
    }

    /// Another lease to the resource.
    pub fn issue_lease(&self) -> (lease: Lease<T, D>)
        ensures
            lease.key() == self.key(),
    {
        self.lease.clone()
    }

    /// Terminates the resource, as `Sovereign::force_kill` does. Returns
    /// whether it was still alive; a second call does nothing.
    pub fn kill(&self) -> (killed: bool)
        ensures
            killed ==> key_well_formed(self.key()),
    {
        self.sovereign.force_kill(&self.lease)
    }

    /// Whether the resource is still alive. The answer may be out of date as
    /// soon as it is given.
    pub fn is_alive(&self) -> (alive: bool)
        ensures
            alive ==> key_well_formed(self.key()),
    {
        self.lease.is_alive()
    }
}

} // verus!
