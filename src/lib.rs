//! A guard that gives one owner revocable custody of resources while any
//! number of callers borrow them through scoped callbacks.
mod discipline;
mod error;
mod keys;
mod lock;
mod owner;
mod registry;
mod sovereign;
mod status;

pub use discipline::{Discipline, PanicDiscipline};
pub use error::AccessError;
pub use owner::Owner;
pub use registry::{Registry, SovereignCell};
pub use sovereign::{
    enter_checked, enter_checked_mut, insert_into, settle_access, settle_access_mut, settle_kill,
    settle_registration, terminate_in, Lease, Sovereign, DEAD_KEY,
};
pub use status::{entry_verdict, kill_verdict, EntryVerdict, KillVerdict, ResourceStatus};
