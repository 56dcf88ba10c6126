//! Ownership of the spawned child and the termination path.
//!
//! The supervisor holds at most one live child handle. The host shell keeps
//! the `ServerState` behind a mutual-exclusion lock and calls into it from
//! the quit action and the final exit event; because `terminate` takes the
//! handle as it acts, the kill is issued at most once however many triggers
//! fire.

use vstd::prelude::*;

verus! {

/// Handle to the child process this supervisor spawned and owns. Holding it
/// means the supervisor is responsible for eventually terminating the whole
/// process tree rooted at `pid`.
#[derive(Clone, Copy, Debug, PartialEq, Eq, Structural)]
pub struct ChildHandle {
    pub pid: u32,
}

/// The supervisor's ownership record: empty at start, populated once after a
/// successful spawn, cleared exactly once during termination.
#[derive(Debug)]
pub struct ServerState {
    pub child: Option<ChildHandle>,
}

/// What a shutdown trigger must do: force-kill the process tree rooted at
/// the given pid, or nothing because the state was already clear.
#[derive(Clone, Copy, Debug, PartialEq, Eq, Structural)]
pub enum ShutdownAction {
    KillTree { pid: u32 },
    AlreadyClean,
}

/// The termination rule: clear the state, and demand a tree kill exactly
/// when a handle was still held.
pub open spec fn spec_terminate(s: ServerState) -> (ServerState, ShutdownAction) {
    match s.child {
        Some(h) => (ServerState { child: None }, ShutdownAction::KillTree { pid: h.pid }),
        None => (ServerState { child: None }, ShutdownAction::AlreadyClean),
    }
}

impl ServerState {
    /// The empty state created at application start.
    pub fn new() -> (s: Self)
        ensures
            s.child is None,
    {
        ServerState { child: None }
    }

    /// Move the freshly spawned child under the supervisor's ownership.
    /// Only ever called on the empty state: a second live handle would have
    /// no owner for its termination.
    pub fn store(&mut self, handle: ChildHandle)
        requires
            old(self).child is None,
        ensures
            final(self).child == Some(handle),
    {
        self.child = Some(handle);
    }

    /// Atomically claim the held handle, leaving the state empty. At most
    /// one caller ever receives a handle.
    pub fn take(&mut self) -> (r: Option<ChildHandle>)
        ensures
            final(self).child is None,
            r == old(self).child,
    {
        self.child.take()
    }

    /// The termination path of both shutdown triggers: claim the handle and
    /// say what must be killed. A trigger firing on an already-cleared state
    /// is a silent no-op.
    pub fn terminate(&mut self) -> (a: ShutdownAction)
        ensures
            (*final(self), a) == spec_terminate(*old(self)),
            final(self).child is None,
    {
        match self.take() {
            Some(h) => ShutdownAction::KillTree { pid: h.pid },
            None => ShutdownAction::AlreadyClean,
        }
    }
}

/// Shutdown is idempotent: run the termination rule twice from any state and
/// the second run demands no kill, so the kill is performed at most once.
pub proof fn lemma_terminate_idempotent(s: ServerState)
    ensures
        spec_terminate(spec_terminate(s).0).1 == ShutdownAction::AlreadyClean,
        spec_terminate(spec_terminate(s).0).0.child is None,
{
}

} // verus!
