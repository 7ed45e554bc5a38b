use vstd::prelude::*;
use std::marker::PhantomData;
use std::sync::{Arc, Weak};
use parking_lot::lock_api::RwLock;
use parking_lot::RawRwLock;
use crate::discipline::{Discipline, PanicDiscipline};
use crate::error::AccessError;
use crate::keys::{key_well_formed, KEY_BUDGET};
use crate::lock::{read_locked, write_locked};
use crate::registry::{insertion, removal, Registry, SovereignCell};
use crate::status::{entry_verdict, kill_verdict, EntryVerdict, KillVerdict, ResourceStatus};

verus! {

/// The registry behind its lock.
pub type SharedRegistry<T> = RwLock<RawRwLock, Registry<T>>;

/// A link to a registry that does not keep it alive (a `std::sync::Weak`).
#[verifier::external_body]
#[verifier::reject_recursive_types(T)]
struct RegistryLink<T> {
    weak: Weak<SharedRegistry<T>>,
}

/// Relies on `Arc::downgrade`: a weak link to the same allocation.
#[verifier::external_body]
fn downgrade<T>(registry: &Arc<SharedRegistry<T>>) -> RegistryLink<T> {
    RegistryLink { weak: Arc::downgrade(registry) }
}

/// Relies on `Weak::upgrade`: the registry while its owner still holds it,
/// `None` once it is gone. Which one comes back depends on other threads.
#[verifier::external_body]
fn upgrade<T>(link: &RegistryLink<T>) -> Option<Arc<SharedRegistry<T>>> {
    link.weak.upgrade()
}

/// Relies on `Weak::clone`: another weak link to the same allocation.
#[verifier::external_body]
fn clone_link<T>(link: &RegistryLink<T>) -> RegistryLink<T> {
    RegistryLink { weak: link.weak.clone() }
}

/// Relies on `Weak::ptr_eq`: whether two links point to the same allocation.
/// A weak link keeps its allocation from being reused, so links of two
/// different owners never compare equal.
#[verifier::external_body]
fn same_registry<T>(a: &RegistryLink<T>, b: &RegistryLink<T>) -> bool {
    Weak::ptr_eq(&a.weak, &b.weak)
}

/// The key of a lease whose registration could not be made: no key the
/// registry hands out has an even version, so it never resolves.
pub const DEAD_KEY: u64 = 0;

/// Stores `cell` in the registry under a new key, if it has a key left to
/// hand out.
pub fn insert_into<T>(registry: &mut Registry<T>, cell: Arc<SovereignCell<T>>) -> (key: Option<u64>)
    ensures
        old(registry).issued() < KEY_BUDGET ==> {
            &&& key is Some
            &&& key_well_formed(key->Some_0)
            &&& insertion(*old(registry), key->Some_0, cell, *final(registry))
            &&& final(registry).issued() == old(registry).issued() + 1
        },
        old(registry).issued() >= KEY_BUDGET ==> key is None && *final(registry) == *old(
            registry,
        ),
{
    if registry.has_room() {
        Some(registry.insert(cell))
    } else {
        None
    }
}

/// Removes the resource under `key` from the registry, raises its kill flag
/// and reads its visitor count. Returns the count, or `None` where the
/// registry did not hold the key and is left as it was.
pub fn terminate_in<T>(registry: &mut Registry<T>, key: u64) -> (visitors: Option<isize>)
    ensures
        visitors is Some <==> old(registry).view().contains_key(key),
        visitors is Some ==> key_well_formed(key),
        removal(*old(registry), key, *final(registry)),
        final(registry).issued() == old(registry).issued(),
{
    match registry.remove(key) {
        Some(cell) => {
            cell.status.mark_killed();
            Some(cell.status.visitors())
        },
        None => None,
    }
}

/// The key a registration hands out, from the key the registry took: a
/// registry with no key left to hand out is a violation, and the discipline
/// is invoked.
pub fn settle_registration<D: Discipline>(inserted: Option<u64>) -> (key: u64)
    ensures
        inserted is Some ==> key == inserted->Some_0,
        inserted is None ==> key == DEAD_KEY,
{
    match inserted {
        Some(key) => key,
        None => {
            let _ = D::punish("register", 0);
            DEAD_KEY
        },
    }
}

/// Whether a termination terminated anything, from the visitor count it read
/// (`None`: there was no such resource). A count above zero is a violation,
/// and the discipline is invoked; a count of zero returns normally.
pub fn settle_kill<D: Discipline>(report: Option<isize>) -> (killed: bool)
    ensures
        killed == report is Some,
{
    match report {
        Some(visitors) => {
            if kill_verdict(visitors) == KillVerdict::Violation {
                let _ = D::punish("force_kill", visitors);
            }
            true
        },
        None => false,
    }
}

/// Finishes a shared borrow from the cell that the lookup found: none gives
/// `ResourceNotFound` and `f` does not run. A cell found is checked in and its
/// kill flag read; `enter_checked` says what each value of the flag gives.
pub fn settle_access<T, D: Discipline, F, R>(
    found: Option<Arc<SovereignCell<T>>>,
    action: &'static str,
    f: F,
) -> (result: Result<R, AccessError>) where F: FnOnce(&T) -> R
    requires
        forall|t: &T| f.requires((t,)),
    ensures
        found is None ==> result == Err::<R, AccessError>(AccessError::ResourceNotFound),
        found is Some ==> result == Err::<R, AccessError>(AccessError::ResourceKilled) || (
        result is Ok && exists|t: &T| f.ensures((t,), result->Ok_0)),
{
    let cell = match found {
        Some(cell) => cell,
        None => return Err(AccessError::ResourceNotFound),
    };
    let _visit = cell.status.check_in();
    let killed = cell.status.is_killed();
    enter_checked::<T, D, F, R>(&cell, killed, action, f)
}

/// The checked-in part of `settle_access`, from the kill flag it read: a
/// killed resource is a violation, the discipline is invoked and `f` does not
/// run; a live one gives `Ok` of `f` on the resource.
pub fn enter_checked<T, D: Discipline, F, R>(
    cell: &SovereignCell<T>,
    killed: bool,
    action: &'static str,
    f: F,
) -> (result: Result<R, AccessError>) where F: FnOnce(&T) -> R
    requires
        forall|t: &T| f.requires((t,)),
    ensures
        killed ==> result == Err::<R, AccessError>(AccessError::ResourceKilled),
        !killed ==> result is Ok && exists|t: &T| f.ensures((t,), result->Ok_0),
{
    if entry_verdict(killed) == EntryVerdict::Violation {
        let _ = D::punish(action, cell.status.visitors());
        return Err(AccessError::ResourceKilled);
    }
    let out = read_locked(&cell.instance, f);
    let result: Result<R, AccessError> = Ok(out);
    proof {
        let t = choose|t: &T| f.ensures((t,), out);
        assert(f.ensures((t,), result->Ok_0));
    }
    result
}

/// `settle_access` for a mutating borrow, which takes the resource's lock
/// exclusively.
pub fn settle_access_mut<T, D: Discipline, F, R>(
    found: Option<Arc<SovereignCell<T>>>,
    action: &'static str,
    f: F,
) -> (result: Result<R, AccessError>) where F: FnOnce(&mut T) -> R
    requires
        forall|t: &mut T| f.requires((t,)),
    ensures
        found is None ==> result == Err::<R, AccessError>(AccessError::ResourceNotFound),
        found is Some ==> result == Err::<R, AccessError>(AccessError::ResourceKilled) || (
        result is Ok && exists|t: &mut T| f.ensures((t,), result->Ok_0)),
{
    let cell = match found {
        Some(cell) => cell,
        None => return Err(AccessError::ResourceNotFound),
    };
    let _visit = cell.status.check_in();
    let killed = cell.status.is_killed();
    enter_checked_mut::<T, D, F, R>(&cell, killed, action, f)
}

/// The checked-in part of `settle_access_mut`, from the kill flag it read: a
/// killed resource is a violation, the discipline is invoked and `f` does not
/// run; a live one gives `Ok` of `f` on the resource.
pub fn enter_checked_mut<T, D: Discipline, F, R>(
    cell: &SovereignCell<T>,
    killed: bool,
    action: &'static str,
    f: F,
) -> (result: Result<R, AccessError>) where F: FnOnce(&mut T) -> R
    requires
        forall|t: &mut T| f.requires((t,)),
    ensures
        killed ==> result == Err::<R, AccessError>(AccessError::ResourceKilled),
        !killed ==> result is Ok && exists|t: &mut T| f.ensures((t,), result->Ok_0),
{
    if entry_verdict(killed) == EntryVerdict::Violation {
        let _ = D::punish(action, cell.status.visitors());
        return Err(AccessError::ResourceKilled);
    }
    let out = write_locked(&cell.instance, f);
    let result: Result<R, AccessError> = Ok(out);
    proof {
        let t = choose|t: &mut T| f.ensures((t,), out);
        assert(f.ensures((t,), result->Ok_0));
    }
    result
}

/// The owner of a set of resources. It registers them, handing out leases,
/// and may terminate any of them at any moment.
#[verifier::reject_recursive_types(T)]
pub struct Sovereign<T, D: Discipline = PanicDiscipline> {
    internal: Arc<SharedRegistry<T>>,
    anchor: RegistryLink<T>,
    initial: Ghost<Map<u64, Arc<SovereignCell<T>>>>,
    _marker: PhantomData<D>,
}

/// A handle to one registered resource. It does not own the resource and
/// does not keep it alive; the resource is reached only through `access`.
#[verifier::reject_recursive_types(T)]
pub struct Lease<T, D: Discipline = PanicDiscipline> {
    registry: RegistryLink<T>,
    key: u64,
    _marker: PhantomData<D>,
}

impl<T, D: Discipline> Sovereign<T, D> {
    /// The entries the registry held when this owner was made. Later changes
    /// happen under the registry's lock, on behalf of any thread, and are not
    /// recorded here.
    pub closed spec fn initial(&self) -> Map<u64, Arc<SovereignCell<T>>> {
        self.initial@
    }

    /// An owner with no resources: its registry starts empty.
    pub fn new() -> (s: Self)
        ensures
            s.initial() == Map::<u64, Arc<SovereignCell<T>>>::empty(),
    {
        let registry: Registry<T> = Registry::new();
        let initial = Ghost(registry.view());
        let internal = Arc::new(RwLock::new(registry));
        let anchor = downgrade(&internal);
        Sovereign { internal, anchor, initial, _marker: PhantomData }
    }

    /// Takes ownership of `resource` and returns a lease to it, under the key
    /// that the registry took for it: one that was neither live nor retired
    /// there. Should the registry have no key left to hand out, the
    /// discipline is invoked.
    pub fn register(&self, resource: T) -> (lease: Lease<T, D>)
        ensures
            lease.key() == DEAD_KEY || key_well_formed(lease.key()),
    {
        let cell = Arc::new(
            SovereignCell { instance: RwLock::new(resource), status: ResourceStatus::new() },
        );
        let inserted = write_locked(
            &*self.internal,
            (move |registry: &mut Registry<T>| -> (key: Option<u64>)
                ensures
                    key is Some ==> key_well_formed(key->Some_0),
                { insert_into(registry, cell) }),
        );
        let key = settle_registration::<D>(inserted);
        Lease { registry: clone_link(&self.anchor), key, _marker: PhantomData }
    }

    /// Terminates the resource that `lease` refers to: removes it from the
    /// registry, raises its kill flag and reads its visitor count, all under
    /// the registry's exclusive lock. Returns whether there was a resource to
    /// terminate; a lease of another owner, or one whose resource is already
    /// gone, changes nothing. A borrow still in flight is a violation: the
    /// discipline is invoked.
    pub fn force_kill(&self, lease: &Lease<T, D>) -> (killed: bool)
        ensures
            killed ==> key_well_formed(lease.key()),
    {
        if !same_registry(&lease.registry, &self.anchor) {
            return false;
        }
        let key = lease.key;
        let report = write_locked(
            &*self.internal,
            (move |registry: &mut Registry<T>| -> (visitors: Option<isize>)
                ensures
                    visitors is Some ==> key_well_formed(key),
                { terminate_in(registry, key) }),
        );
        settle_kill::<D>(report)
    }
}

impl<T, D: Discipline> Lease<T, D> {
    /// The registry key this lease refers to.
    pub closed spec fn key(&self) -> u64 {
        self.key
    }

    /// The cell that the registry holds under this lease's key, if the
    /// registry still exists; `Err(RegistryDropped)` if it does not.
    fn find(&self) -> (found: Result<Option<Arc<SovereignCell<T>>>, AccessError>)
        ensures
            found is Err ==> found == Err::<Option<Arc<SovereignCell<T>>>, AccessError>(
                AccessError::RegistryDropped,
            ),
            found matches Ok(Some(_)) ==> key_well_formed(self.key()),
    {
        let registry = match upgrade(&self.registry) {
            Some(registry) => registry,
            None => return Err(AccessError::RegistryDropped),
        };
        let key = self.key;
        let found = read_locked(
            &*registry,
            (move |registry: &Registry<T>| -> (found: Option<Arc<SovereignCell<T>>>)
                ensures
                    found is Some ==> key_well_formed(key),
                { registry.lookup(key) }),
        );
        Ok(found)
    }

    /// Runs `f` on the resource under a shared lock and returns its result.
    /// `f` sees the resource only for the duration of the call: its result
    /// cannot borrow from it. While `f` runs the borrow is counted as a
    /// visitor, and the count goes down again however `f` ends. A gone owner
    /// gives `RegistryDropped` and a key the registry does not hold gives
    /// `ResourceNotFound`; `f` does not run then. A resource found terminated
    /// as the borrow checks in is a violation: the discipline is invoked.
    ///
    /// The locks are not reentrant. `f` must not borrow this same resource
    /// again, mutably or not (a shared borrow inside a shared borrow blocks
    /// once a writer waits), nor call into the owner while another thread
    /// terminates or registers: each of these can deadlock.
    pub fn access<F, R>(&self, action: &'static str, f: F) -> (result: Result<R, AccessError>)
        where
            F: FnOnce(&T) -> R,
        requires
            forall|t: &T| f.requires((t,)),
        ensures
            result is Ok ==> key_well_formed(self.key()),
            result is Ok ==> exists|t: &T| f.ensures((t,), result->Ok_0),
    {
        match self.find() {
            Ok(found) => settle_access::<T, D, F, R>(found, action, f),
            Err(e) => Err(e),
        }
    }

    /// Runs `f` on the resource under an exclusive lock and returns its
    /// result: mutating borrows of one resource run one at a time. Otherwise
    /// as `access`; in particular `f` must not borrow this same resource
    /// again, which deadlocks.
    pub fn access_mut<F, R>(&self, action: &'static str, f: F) -> (result: Result<R, AccessError>)
        where
            F: FnOnce(&mut T) -> R,
        requires
            forall|t: &mut T| f.requires((t,)),
        ensures
            result is Ok ==> key_well_formed(self.key()),
            result is Ok ==> exists|t: &mut T| f.ensures((t,), result->Ok_0),
    {
        match self.find() {
            Ok(found) => settle_access_mut::<T, D, F, R>(found, action, f),
            Err(e) => Err(e),
        }
    }

    /// Whether the registry still holds the resource. The answer may be out
    /// of date as soon as it is given.
    pub fn is_alive(&self) -> (alive: bool)
        ensures
            alive ==> key_well_formed(self.key()),
    {
        match self.find() {
            Ok(Some(_)) => true,
            _ => false,
        }
    }
}

impl<T, D: Discipline> Clone for Lease<T, D> {
    fn clone(&self) -> (copy: Self)
        ensures
            copy.key() == self.key(),
    {
        Lease { registry: clone_link(&self.registry), key: self.key, _marker: PhantomData }
    }
}

impl<T, D: Discipline> Default for Sovereign<T, D> {
    fn default() -> (s: Self)
        ensures
            s.initial() == Map::<u64, Arc<SovereignCell<T>>>::empty(),
    {
        Self::new()
    }
}

} // verus!
