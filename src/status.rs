use vstd::prelude::*;
use std::sync::atomic::{AtomicBool, AtomicIsize, Ordering};

verus! {

/// The shared state of one resource: how many borrows are in flight, and
/// whether termination has been signalled. Threads read and write it
/// concurrently, so the values are only known at the instant they are read.
pub struct ResourceStatus {
    visitor_count: AtomicIsize,
    is_killed: AtomicBool,
}

/// What a termination found when it looked at the visitor count.
#[derive(Debug, Clone, Copy, PartialEq, Eq, Structural)]
pub enum KillVerdict {
    /// No borrow was in flight: the resource may be destroyed.
    Clean,
    /// At least one borrow was still inside its callback.
    Violation,
}

/// What a borrow found when it looked at the kill flag after checking in.
#[derive(Debug, Clone, Copy, PartialEq, Eq, Structural)]
pub enum EntryVerdict {
    /// The resource was alive: the callback may run.
    Admit,
    /// The resource had already been terminated.
    Violation,
}

/// A termination is a violation exactly when some borrow is still in flight.
pub open spec fn kill_violates(visitors: int) -> bool {
    visitors > 0
}

/// Judges a termination from the visitor count it read after raising the
/// kill flag.
pub fn kill_verdict(visitors: isize) -> (verdict: KillVerdict)
    ensures
        verdict == (if kill_violates(visitors as int) {
            KillVerdict::Violation
        } else {
            KillVerdict::Clean
        }),
{
    if visitors > 0 {
        KillVerdict::Violation
    } else {
        KillVerdict::Clean
    }
}

/// Judges a borrow from the kill flag it read after checking in: a borrow of
/// a terminated resource is never admitted.
pub fn entry_verdict(killed: bool) -> (verdict: EntryVerdict)
    ensures
        verdict == (if killed {
            EntryVerdict::Violation
        } else {
            EntryVerdict::Admit
        }),
{
    if killed {
        EntryVerdict::Violation
    } else {
        EntryVerdict::Admit
    }
}

impl ResourceStatus {
    /// A fresh status: no visitors, not killed.
    pub fn new() -> (status: ResourceStatus) {
        ResourceStatus { visitor_count: AtomicIsize::new(0), is_killed: AtomicBool::new(false) }
    }

    /// Counts one more borrow in flight. The count goes down again when the
    /// returned guard is dropped, however the borrow ends.
    pub fn check_in(&self) -> (guard: VisitorGuard<'_>)
        ensures
            guard.status() == self,
    {
        self.visitor_count.fetch_add(1, Ordering::SeqCst);
        VisitorGuard { status: self }
    }

    /// Raises the kill flag. Nothing ever lowers it.
    pub fn mark_killed(&self) {
        self.is_killed.store(true, Ordering::SeqCst);
    }

    /// Reads the kill flag.
    pub fn is_killed(&self) -> bool {
        self.is_killed.load(Ordering::SeqCst)
    }

    /// Reads the number of borrows in flight.
    pub fn visitors(&self) -> isize {
        self.visitor_count.load(Ordering::SeqCst)
    }
}

/// The token of one borrow in flight: dropping it checks the borrow out.
pub struct VisitorGuard<'a> {
    status: &'a ResourceStatus,
}

impl<'a> VisitorGuard<'a> {
    /// The status this borrow is counted in.
    pub closed spec fn status(&self) -> &'a ResourceStatus {
        self.status
    }
}

impl<'a> Drop for VisitorGuard<'a> {
    fn drop(&mut self)
        opens_invariants none
        no_unwind
    {
        release_visitor(&self.status.visitor_count);
    }
}

/// Relies on `AtomicIsize::fetch_sub`, which wraps on overflow rather than
/// panicking: lowering the count never unwinds, so a guard can do it as it
/// is dropped.
#[verifier::external_body]
fn release_visitor(count: &AtomicIsize)
    opens_invariants none
    no_unwind
{
    count.fetch_sub(1, Ordering::SeqCst);
}

} // verus!
