use vstd::prelude::*;
use parking_lot::lock_api::RwLock;
use parking_lot::RawRwLock;

verus! {

/// `lock_api`'s reader-writer lock (parking_lot's `RwLock`). Other threads
/// change what it holds, so its contents are seen only through `read_locked`
/// and `write_locked`.
#[verifier::external_type_specification]
#[verifier::external_body]
#[verifier::reject_recursive_types(R)]
#[verifier::reject_recursive_types(T)]
pub struct ExRwLock<R, T: ?Sized>(RwLock<R, T>);

/// parking_lot's raw lock, the one its `RwLock` is built on.
#[verifier::external_type_specification]
#[verifier::external_body]
pub struct ExRawRwLock(RawRwLock);

/// Relies on `lock_api::RwLock::new`: an unlocked lock around `val`.
pub assume_specification<R: parking_lot::lock_api::RawRwLock, T>[ RwLock::<R, T>::new ](val: T) -> RwLock<R, T>;

/// Relies on `lock_api::RwLock::read`: `f` runs on the data while shared
/// access is held, and the access ends when `f` returns. What the data is
/// depends on the other threads, so all that is known of the result is that
/// `f` produced it from some value.
#[verifier::external_body]
pub(crate) fn read_locked<X, Out, F: FnOnce(&X) -> Out>(lock: &RwLock<RawRwLock, X>, f: F) -> (out: Out)
    requires
        forall|x: &X| f.requires((x,)),
    ensures
        exists|x: &X| f.ensures((x,), out),
{
    let guard = lock.read();
    f(&guard)
}

/// Relies on `lock_api::RwLock::write`: `f` runs on the data while exclusive
/// access is held, and the access ends when `f` returns. What the data is
/// depends on the other threads, so all that is known of the result is that
/// `f` produced it from some value.
#[verifier::external_body]
pub(crate) fn write_locked<X, Out, F: FnOnce(&mut X) -> Out>(lock: &RwLock<RawRwLock, X>, f: F) -> (out: Out)
    requires
        forall|x: &mut X| f.requires((x,)),
    ensures
        exists|x: &mut X| f.ensures((x,), out),
{
    let mut guard = lock.write();
    f(&mut guard)
}

} // verus!
