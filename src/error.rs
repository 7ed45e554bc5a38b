use vstd::prelude::*;

verus! {

/// Why a borrow could not be granted. None of these is a violation: the
/// caller decides what to do next.
#[derive(Debug, Clone, Copy, PartialEq, Eq, Structural)]
pub enum AccessError {
    /// The owner, and with it the registry, no longer exists.
    RegistryDropped,
    /// The handle's key is stale: its resource was terminated.
    ResourceNotFound,
    /// The resource was found terminated as this borrow checked in. The
    /// discipline is invoked first and does not return, so this is only the
    /// value that the borrow would have had.
    ResourceKilled,
}

} // verus!
