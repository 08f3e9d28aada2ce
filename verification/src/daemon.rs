//! The handle of a process that was started in the background by another.
//!
//! Windows has no such processes: there the backend runs in the foreground, and
//! nobody waits for a word of it.
use vstd::prelude::*;

verus! {

/// The word that another process waits for.
#[derive(Clone, Copy, PartialEq, Eq, Structural, Debug)]
pub struct DaemonGuard;

impl DaemonGuard {
    /// The handle, where another process waits.
    pub fn from_env() -> (r: Option<DaemonGuard>)
        ensures
            r is None,
    {
        None
    }

    /// Says that the mount is there.
    pub fn notify_ready(&mut self)
        ensures
            *final(self) == *old(self),
    {
    }
}

} // verus!
