//! Lifecycle supervisor for the Slate editor's sidecar server.
//!
//! The supervisor decides whether a compatible server already listens on the
//! local port, reconciles stale or foreign instances, tracks the child it
//! spawns, waits for it to become ready, and guarantees the owned process
//! tree is torn down exactly once on exit. All decisions are made here, on
//! plain values; the host shell performs the probing, spawning, sleeping and
//! killing that the decisions call for.

pub mod events;
pub mod health;
pub mod identity;
pub mod poll;
pub mod reconcile;
pub mod startup;
pub mod state;

use vstd::prelude::*;

verus! {

} // verus!
