use vstd::prelude::*;
use std::collections::HashMap;
use std::sync::Arc;
use parking_lot::lock_api::RwLock;
use parking_lot::RawRwLock;
use crate::keys::{
    empty_key_slots, issue_key, key_well_formed, live_keys, retire_key, spent_keys, KeySlots,
    KEY_BUDGET,
};
use crate::status::ResourceStatus;

verus! {

/// A resource, behind the lock that its borrows take, together with the
/// status that every handle to it shares.
#[verifier::reject_recursive_types(T)]
pub struct SovereignCell<T> {
    pub instance: RwLock<RawRwLock, T>,
    pub status: ResourceStatus,
}

/// The keyed store of resource cells. Keys come from a slot map, so a key that
/// was removed never matches again, even when its storage slot is reused; the
/// cells are kept in a map from key to cell.
#[verifier::reject_recursive_types(T)]
pub struct Registry<T> {
    slots: KeySlots,
    cells: HashMap<u64, Arc<SovereignCell<T>>>,
    issued: u64,
}

impl<T> Registry<T> {
    /// The live entries, by key.
    pub closed spec fn view(&self) -> Map<u64, Arc<SovereignCell<T>>> {
        self.cells@
    }

    /// The keys whose resources were removed: none of them resolves again.
    pub closed spec fn retired(&self) -> Set<u64> {
        spent_keys(self.slots)
    }

    /// The number of keys handed out so far, live or retired.
    pub closed spec fn issued(&self) -> nat {
        self.issued as nat
    }

    /// The registry's own consistency: every live key came from the slot map
    /// and is well formed, and no retired key is live.
    #[verifier::type_invariant]
    pub closed spec fn wf(&self) -> bool {
        &&& live_keys(self.slots) == self.cells@.dom()
        &&& live_keys(self.slots).finite()
        &&& spent_keys(self.slots).finite()
        &&& self.issued as nat == live_keys(self.slots).len() + spent_keys(self.slots).len()
        &&& forall|k: u64| #[trigger] spent_keys(self.slots).contains(k) ==> !live_keys(self.slots).contains(k)
        &&& forall|k: u64| #[trigger] live_keys(self.slots).contains(k) ==> key_well_formed(k)
    }

    /// An empty registry.
    pub fn new() -> (r: Registry<T>)
        ensures
            r.view() == Map::<u64, Arc<SovereignCell<T>>>::empty(),
            r.retired() == Set::<u64>::empty(),
            r.issued() == 0,
    {
        Registry { slots: empty_key_slots(), cells: HashMap::new(), issued: 0 }
    }

    /// Whether another key can be handed out.
    pub fn has_room(&self) -> (r: bool)
        ensures
            r == (self.issued() < KEY_BUDGET),
    {
        self.issued < KEY_BUDGET
    }

    /// Stores `cell` under a new key and returns the key. The key differs from
    /// every key that is live or retired.
    pub fn insert(&mut self, cell: Arc<SovereignCell<T>>) -> (key: u64)
        requires
            old(self).issued() < KEY_BUDGET,
        ensures
            insertion(*old(self), key, cell, *final(self)),
            key_well_formed(key),
            final(self).issued() == old(self).issued() + 1,
    {
        let mut taken = Registry::new();
        std::mem::swap(self, &mut taken);
        let (next, key) = taken.with_inserted(cell);
        *self = next;
        key
    }

    /// Removes the entry under `key` and returns its cell; the key is retired.
    /// A key that is not live leaves the registry unchanged.
    pub fn remove(&mut self, key: u64) -> (removed: Option<Arc<SovereignCell<T>>>)
        ensures
            removed == old(self).view().get(key),
            removed is Some ==> key_well_formed(key),
            removal(*old(self), key, *final(self)),
            final(self).issued() == old(self).issued(),
    {
        let mut taken = Registry::new();
        std::mem::swap(self, &mut taken);
        let (next, removed) = taken.without(key);
        *self = next;
        removed
    }

    /// `insert`, on a registry taken by value.
    fn with_inserted(self, cell: Arc<SovereignCell<T>>) -> (out: (Registry<T>, u64))
        requires
            self.issued() < KEY_BUDGET,
        ensures
            insertion(self, out.1, cell, out.0),
            key_well_formed(out.1),
            out.0.issued() == self.issued() + 1,
    {
        proof {
            use_type_invariant(&self);
        }
        let Registry { mut slots, mut cells, issued } = self;
        let key = issue_key(&mut slots);
        cells.insert(key, cell);
        (Registry { slots, cells, issued: issued + 1 }, key)
    }

    /// Looks up the cell stored under `key`.
    pub fn lookup(&self, key: u64) -> (found: Option<Arc<SovereignCell<T>>>)
        ensures
            found == self.view().get(key),
            found is Some ==> key_well_formed(key),
    {
        proof {
            use_type_invariant(self);
        }
        match self.cells.get(&key) {
            Some(cell) => Some(Arc::clone(cell)),
            None => None,
        }
    }

    /// `remove`, on a registry taken by value.
    fn without(self, key: u64) -> (out: (Registry<T>, Option<Arc<SovereignCell<T>>>))
        ensures
            out.1 == self.view().get(key),
            out.1 is Some ==> key_well_formed(key),
            removal(self, key, out.0),
            out.0.issued() == self.issued(),
    {
        proof {
            use_type_invariant(&self);
        }
        if !well_formed(key) {
            assert(self.cells@.remove(key) =~= self.cells@);
            return (self, None);
        }
        let Registry { mut slots, mut cells, issued } = self;
        let present = retire_key(&mut slots, key);
        let removed = if present {
            cells.remove(&key)
        } else {
            assert(cells@.remove(key) =~= cells@);
            None
        };
        (Registry { slots, cells, issued }, removed)
    }
}

/// `after` is `before` with `cell` stored under `key`, a key that was neither
/// live nor retired.
pub open spec fn insertion<T>(
    before: Registry<T>,
    key: u64,
    cell: Arc<SovereignCell<T>>,
    after: Registry<T>,
) -> bool {
    &&& !before.view().contains_key(key)
    &&& !before.retired().contains(key)
    &&& after.view() == before.view().insert(key, cell)
    &&& after.retired() == before.retired()
}

/// `after` is `before` without the entry under `key`, which is retired if it
/// was live; a key that was not live changes nothing.
pub open spec fn removal<T>(before: Registry<T>, key: u64, after: Registry<T>) -> bool {
    &&& after.view() == before.view().remove(key)
    &&& after.retired() == (if before.view().contains_key(key) {
        before.retired().insert(key)
    } else {
        before.retired()
    })
}

/// A retired key never resolves: the registry never holds it again.
pub proof fn lemma_retired_key_never_resolves<T>(registry: Registry<T>, key: u64)
    requires
        registry.wf(),
        registry.retired().contains(key),
    ensures
        !registry.view().contains_key(key),
{
}

/// Once its resource is removed, a key never matches the resource that is
/// registered next, even where the slot map reuses the storage slot: the new
/// key differs from it and the old key finds nothing.
pub proof fn lemma_removed_key_never_matches_successor<T>(
    first: Registry<T>,
    emptied: Registry<T>,
    refilled: Registry<T>,
    key: u64,
    next_key: u64,
    next: Arc<SovereignCell<T>>,
)
    requires
        first.view().contains_key(key),
        removal(first, key, emptied),
        insertion(emptied, next_key, next, refilled),
    ensures
        next_key != key,
        refilled.view().get(key) == None::<Arc<SovereignCell<T>>>,
        refilled.view().get(next_key) == Some(next),
        refilled.retired().contains(key),
{
}

/// The retired keys only grow: neither an insertion nor a removal brings one
/// back.
pub proof fn lemma_retired_only_grows<T>(
    before: Registry<T>,
    after: Registry<T>,
    key: u64,
    cell: Arc<SovereignCell<T>>,
)
    requires
        insertion(before, key, cell, after) || removal(before, key, after),
    ensures
        before.retired().subset_of(after.retired()),
{
}

/// A key handed out earlier, live or retired, is never handed out again: the
/// key of a new entry differs from it.
pub proof fn lemma_new_key_differs_from_earlier<T>(
    before: Registry<T>,
    after: Registry<T>,
    earlier: u64,
    key: u64,
    cell: Arc<SovereignCell<T>>,
)
    requires
        before.view().contains_key(earlier) || before.retired().contains(earlier),
        insertion(before, key, cell, after),
    ensures
        key != earlier,
{
}

/// Termination of a registered resource leaves its key unresolved: a later
/// lookup finds nothing.
pub proof fn lemma_removed_resource_not_found<T>(before: Registry<T>, key: u64, after: Registry<T>)
    requires
        before.view().contains_key(key),
        removal(before, key, after),
    ensures
        after.view().get(key) == None::<Arc<SovereignCell<T>>>,
        after.retired().contains(key),
{
}

/// Removing a key a second time is a no-op: it finds nothing and changes
/// nothing.
pub proof fn lemma_second_removal_is_noop<T>(
    before: Registry<T>,
    once: Registry<T>,
    twice: Registry<T>,
    key: u64,
)
    requires
        removal(before, key, once),
        removal(once, key, twice),
    ensures
        once.view().get(key) == None::<Arc<SovereignCell<T>>>,
        twice.view() == once.view(),
        twice.retired() == once.retired(),
{
    assert(twice.view() =~= once.view());
}

/// Whether `key` could have been written by the slot map: its version is odd.
fn well_formed(key: u64) -> (r: bool)
    ensures
        r == key_well_formed(key),
{
    (key / 0x1_0000_0000) % 2 == 1
}

} // verus!
