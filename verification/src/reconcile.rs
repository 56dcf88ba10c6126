//! Classifying whatever occupies the server port before any spawn is
//! attempted: free, foreign, or a reclaimable zombie of this very identity.

use vstd::prelude::*;
use crate::health::{HealthFields, HealthResponse};
use crate::identity::{expected_app_name, owner_tag, env_tag, expected_app_name_str, owner_tag_str, env_tag_str};

verus! {

/// Outcome of classifying the current port occupant.
#[derive(Clone, Copy, Debug, PartialEq, Eq, Structural)]
pub enum ReconciliationDecision {
    /// Nothing answers on the port: safe to spawn.
    PortFree,
    /// The port is held by an unknown application, or by something that
    /// listens without answering the health probe: fatal, do not spawn.
    ForeignApplication,
    /// A legitimate server of the same application but another owner or
    /// environment identity: fatal, do not touch it.
    ForeignOwnerOrEnv,
    /// A previous run of this very identity survived: kill it, then spawn.
    OwnedZombie { pid: u32 },
}

/// View of an optional probe outcome.
pub open spec fn probe_view(probe_result: Option<HealthResponse>) -> Option<HealthFields> {
    match probe_result {
        Some(h) => Some(h@),
        None => None,
    }
}

/// The reconciliation rule. A parseable health answer is strong identity
/// evidence and is judged by its tags; a bare TCP-level listener that could
/// not answer the probe is treated conservatively as a foreign conflict.
pub open spec fn spec_reconcile(probe: Option<HealthFields>, raw_port_connectable: bool) -> ReconciliationDecision {
    match probe {
        None => if raw_port_connectable {
            ReconciliationDecision::ForeignApplication
        } else {
            ReconciliationDecision::PortFree
        },
        Some(h) => if h.app_name != expected_app_name() {
            ReconciliationDecision::ForeignApplication
        } else if h.owner != owner_tag() || h.env != env_tag() {
            ReconciliationDecision::ForeignOwnerOrEnv
        } else {
            ReconciliationDecision::OwnedZombie { pid: h.pid }
        },
    }
}

/// Classify the port occupant from the probe outcome and, where the probe
/// failed, from whether a raw TCP connect to the port succeeded.
pub fn reconcile(probe_result: &Option<HealthResponse>, raw_port_connectable: bool) -> (d: ReconciliationDecision)
    ensures
        d == spec_reconcile(probe_view(*probe_result), raw_port_connectable),
{
    match probe_result {
        None => {
            if raw_port_connectable {
                ReconciliationDecision::ForeignApplication
            } else {
                ReconciliationDecision::PortFree
            }
        },
        Some(h) => {
            let expected = expected_app_name_str();
            if !(h.app_name == expected) {
                ReconciliationDecision::ForeignApplication
            } else {
                let owner = owner_tag_str();
                let env = env_tag_str();
                if !(h.owner == owner) || !(h.env == env) {
                    ReconciliationDecision::ForeignOwnerOrEnv
                } else {
                    ReconciliationDecision::OwnedZombie { pid: h.pid }
                }
            }
        },
    }
}

/// A probed process that does not report the expected application name is a
/// foreign application, whatever its owner and environment tags say.
pub proof fn lemma_foreign_app_name_rejected(h: HealthFields, raw_port_connectable: bool)
    requires
        h.app_name != expected_app_name(),
    ensures
        spec_reconcile(Some(h), raw_port_connectable) == ReconciliationDecision::ForeignApplication,
{
}

/// A probed process of the expected application whose owner or environment
/// tag differs from this instance's identity is left alone as foreign.
pub proof fn lemma_foreign_identity_rejected(h: HealthFields, raw_port_connectable: bool)
    requires
        h.app_name == expected_app_name(),
        h.owner != owner_tag() || h.env != env_tag(),
    ensures
        spec_reconcile(Some(h), raw_port_connectable) == ReconciliationDecision::ForeignOwnerOrEnv,
{
}

/// A probed process matching this instance's exact identity is reclaimed as
/// an owned zombie, under the pid it reported.
pub proof fn lemma_owned_zombie_reclaimed(h: HealthFields, raw_port_connectable: bool)
    requires
        h.app_name == expected_app_name(),
        h.owner == owner_tag(),
        h.env == env_tag(),
    ensures
        spec_reconcile(Some(h), raw_port_connectable) == (ReconciliationDecision::OwnedZombie { pid: h.pid }),
{
}

/// When the probe fails and a raw TCP connect to the port fails as well, the
/// port is judged free.
pub proof fn lemma_port_free_when_silent()
    ensures
        spec_reconcile(None::<HealthFields>, false) == ReconciliationDecision::PortFree,
{
}

} // verus!
