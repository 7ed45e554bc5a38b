use vstd::prelude::*;
use std::convert::Infallible;

verus! {

/// What happens when the guard detects a violation: a borrow that found its
/// resource already terminated, or a termination that found borrows still open.
///
/// An implementation never returns control to its caller: it returns a value
/// of a type that has none. `action` names the offending operation and
/// `visitors` is the visitor count it read: for a termination, the borrows
/// still in flight.
pub trait Discipline: Send + Sync + 'static {
    fn punish(action: &'static str, visitors: isize) -> Infallible;
}

/// The default policy: the current thread panics, naming the offending action
/// and the visitor count.
pub struct PanicDiscipline;

impl Discipline for PanicDiscipline {
    fn punish(action: &'static str, visitors: isize) -> Infallible {
        halt(action, visitors)
    }
}

/// Relies on `Option::expect`, which panics with the given message when the
/// option is `None`: this never returns.
#[verifier::external_body]
fn halt(action: &'static str, visitors: isize) -> Infallible {
    let nothing: Option<Infallible> = None;
    nothing.expect(&format!("sovereign violation by action `{}`: {} visitors in flight", action, visitors))
}

} // verus!
