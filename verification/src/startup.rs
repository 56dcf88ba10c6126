//! The startup sequence, as a state machine from probe answers and process
//! events to the next action the host shell must perform.
//!
//! The shell drives it: perform the action the last step returned, feed the
//! outcome back as the next event. All decisions — whom the port belongs to,
//! whether to kill, when a wait has timed out, whether a failure aborts
//! startup or merely degrades it — are taken here.

use vstd::prelude::*;
use vstd::pervasive::unreached;
use vstd::string::StringExecFns;
use crate::health::{HealthFields, HealthResponse};
use crate::identity::{expected_app_name, owner_tag, env_tag, expected_app_name_str, owner_tag_str, env_tag_str};
use crate::poll::{
    Poller, PollRun, spec_run, lemma_run_decides_true_iff_hit_within_window,
    lemma_run_times_out_on_misses, POLL_INTERVAL_MS, PORT_FREE_TIMEOUT_MS, READY_TIMEOUT_MS,
};
use crate::reconcile::{spec_reconcile, ReconciliationDecision};

verus! {

/// Why startup aborted. Every variant is fatal: the application does not
/// open, and nothing is retried.
#[derive(Debug)]
pub enum StartupError {
    /// The probe failed, yet something listens on the port: an unknown
    /// occupant, unsafe to touch.
    PortOccupiedUnknown,
    /// The port occupant reports another application's name.
    ForeignApplication,
    /// A server of the expected application but another identity, with the
    /// owner and environment tags it reported.
    ForeignOwnerOrEnv { owner: String, env: String },
    /// The zombie's kill command did not succeed.
    ZombieKillFailed,
    /// The port stayed occupied after the zombie was killed.
    PortNotFreed,
    /// The child process could not be spawned.
    SpawnFailed,
}

/// Where the startup sequence stands.
#[derive(Debug)]
pub enum StartupPhase {
    /// Awaiting the initial health probe.
    ProbePending,
    /// The probe failed: awaiting the raw TCP connect check.
    RawCheckPending,
    /// Awaiting the outcome of force-killing the zombie's process tree.
    ZombieKillPending { pid: u32 },
    /// Polling until the port frees after the kill.
    PortFreeWait { poller: Poller },
    /// Awaiting the spawn outcome.
    SpawnPending,
    /// Polling until the spawned server reports ready.
    ReadyWait { pid: u32, poller: Poller },
    /// Startup is complete; the application proceeds even when the server
    /// never reported ready within its window.
    Running { pid: u32, ready: bool },
    /// Startup aborted with a fatal error.
    Aborted { error: StartupError },
}

/// What the host shell reports back to the machine.
#[derive(Debug)]
pub enum StartupEvent {
    /// The health probe answered, or failed in any way.
    ProbeAnswered { result: Option<HealthResponse> },
    /// The raw TCP connect succeeded or failed.
    RawConnectChecked { listening: bool },
    /// The kill command succeeded or failed.
    KillAttempted { ok: bool },
    /// One port poll: does anything still answer the health probe?
    PortPolled { occupied: bool },
    /// The spawn succeeded with the child's pid, or failed.
    SpawnAttempted { pid: Option<u32> },
    /// One readiness poll: did the health probe answer?
    ReadyPolled { up: bool },
}

/// What the host shell must do next.
#[derive(Clone, Copy, Debug, PartialEq, Eq, Structural)]
pub enum StartupAction {
    /// Issue the health probe.
    Probe,
    /// Attempt a raw TCP connect to the port.
    RawConnect,
    /// Force-kill the process tree rooted at this pid.
    KillTree { pid: u32 },
    /// Probe the port now to see whether it is still occupied.
    PollPort,
    /// Sleep this many milliseconds, then probe the port again.
    SleepThenPollPort { ms: u64 },
    /// Spawn the sidecar with the identity environment injected.
    Spawn,
    /// Probe readiness now.
    PollReady,
    /// Sleep this many milliseconds, then probe readiness again.
    SleepThenPollReady { ms: u64 },
    /// Surface the error of the aborted phase; the application does not open.
    Abort,
    /// Enter the application, noting whether readiness was observed.
    Proceed { ready: bool },
}

/// The clock of the port-free wait as it starts: a fresh two-second window.
pub open spec fn spec_port_free_poller() -> Poller {
    Poller { elapsed_ms: 0, timeout_ms: PORT_FREE_TIMEOUT_MS, interval_ms: POLL_INTERVAL_MS }
}

/// The clock of the readiness wait as it starts: a fresh ten-second window.
pub open spec fn spec_ready_poller() -> Poller {
    Poller { elapsed_ms: 0, timeout_ms: READY_TIMEOUT_MS, interval_ms: POLL_INTERVAL_MS }
}

/// Every poller a waiting phase holds can still examine a probe.
pub open spec fn phase_wf(phase: StartupPhase) -> bool {
    match phase {
        StartupPhase::PortFreeWait { poller } => poller.wf() && !poller.spec_expired(),
        StartupPhase::ReadyWait { poller, .. } => poller.wf() && !poller.spec_expired(),
        _ => true,
    }
}

/// The transition relation: which event each phase expects, and what phase
/// and action follow. `None` marks an event the phase does not expect.
pub open spec fn spec_step(phase: StartupPhase, event: StartupEvent) -> Option<
    (StartupPhase, StartupAction),
> {
    match (phase, event) {
        (StartupPhase::ProbePending, StartupEvent::ProbeAnswered { result }) => Some(
            match result {
                None => (StartupPhase::RawCheckPending, StartupAction::RawConnect),
                Some(h) => if h@.app_name != expected_app_name() {
                    (
                        (StartupPhase::Aborted { error: StartupError::ForeignApplication }),
                        StartupAction::Abort,
                    )
                } else if h@.owner != owner_tag() || h@.env != env_tag() {
                    (
                        (StartupPhase::Aborted {
                            error: StartupError::ForeignOwnerOrEnv { owner: h.owner, env: h.env },
                        }),
                        StartupAction::Abort,
                    )
                } else {
                    (
                        (StartupPhase::ZombieKillPending { pid: h.pid }),
                        (StartupAction::KillTree { pid: h.pid }),
                    )
                },
            },
        ),
        (StartupPhase::RawCheckPending, StartupEvent::RawConnectChecked { listening }) => Some(
            if listening {
                (
                    (StartupPhase::Aborted { error: StartupError::PortOccupiedUnknown }),
                    StartupAction::Abort,
                )
            } else {
                (StartupPhase::SpawnPending, StartupAction::Spawn)
            },
        ),
        (StartupPhase::ZombieKillPending { pid }, StartupEvent::KillAttempted { ok }) => Some(
            if ok {
                ((StartupPhase::PortFreeWait { poller: spec_port_free_poller() }), StartupAction::PollPort)
            } else {
                (
                    (StartupPhase::Aborted { error: StartupError::ZombieKillFailed }),
                    StartupAction::Abort,
                )
            },
        ),
        (StartupPhase::PortFreeWait { poller }, StartupEvent::PortPolled { occupied }) => Some(
            if !occupied {
                (StartupPhase::SpawnPending, StartupAction::Spawn)
            } else {
                let q = poller.advanced();
                if q.spec_expired() {
                    (
                        (StartupPhase::Aborted { error: StartupError::PortNotFreed }),
                        StartupAction::Abort,
                    )
                } else {
                    (
                        (StartupPhase::PortFreeWait { poller: q }),
                        (StartupAction::SleepThenPollPort { ms: q.interval_ms }),
                    )
                }
            },
        ),
        (StartupPhase::SpawnPending, StartupEvent::SpawnAttempted { pid }) => Some(
            match pid {
                None => (
                    (StartupPhase::Aborted { error: StartupError::SpawnFailed }),
                    StartupAction::Abort,
                ),
                Some(pid) => (
                    (StartupPhase::ReadyWait { pid, poller: spec_ready_poller() }),
                    StartupAction::PollReady,
                ),
            },
        ),
        (StartupPhase::ReadyWait { pid, poller }, StartupEvent::ReadyPolled { up }) => Some(
            if up {
                ((StartupPhase::Running { pid, ready: true }), (StartupAction::Proceed { ready: true }))
            } else {
                let q = poller.advanced();
                if q.spec_expired() {
                    (
                        (StartupPhase::Running { pid, ready: false }),
                        (StartupAction::Proceed { ready: false }),
                    )
                } else {
                    (
                        (StartupPhase::ReadyWait { pid, poller: q }),
                        (StartupAction::SleepThenPollReady { ms: q.interval_ms }),
                    )
                }
            },
        ),
        _ => None,
    }
}

/// Begin the startup sequence: the machine awaits the initial health probe,
/// which is the sole means of learning whether a compatible server already
/// runs.
pub fn start() -> (r: (StartupPhase, StartupAction))
    ensures
        r == (StartupPhase::ProbePending, StartupAction::Probe),
        phase_wf(r.0),
{
    (StartupPhase::ProbePending, StartupAction::Probe)
}

/// Take one step: consume the event the current phase awaits, return the
/// next phase and the action the host shell must perform.
pub fn step(phase: StartupPhase, event: StartupEvent) -> (r: (StartupPhase, StartupAction))
    requires
        phase_wf(phase),
        spec_step(phase, event) is Some,
    ensures
        Some(r) == spec_step(phase, event),
        phase_wf(r.0),
{
    match (phase, event) {
        (StartupPhase::ProbePending, StartupEvent::ProbeAnswered { result }) => match result {
            None => (StartupPhase::RawCheckPending, StartupAction::RawConnect),
            Some(h) => {
                let expected = expected_app_name_str();
                if !(h.app_name == expected) {
                    (
                        StartupPhase::Aborted { error: StartupError::ForeignApplication },
                        StartupAction::Abort,
                    )
                } else {
                    let owner = owner_tag_str();
                    let env = env_tag_str();
                    if !(h.owner == owner) || !(h.env == env) {
                        (
                            StartupPhase::Aborted {
                                error: StartupError::ForeignOwnerOrEnv {
                                    owner: h.owner,
                                    env: h.env,
                                },
                            },
                            StartupAction::Abort,
                        )
                    } else {
                        (
                            StartupPhase::ZombieKillPending { pid: h.pid },
                            StartupAction::KillTree { pid: h.pid },
                        )
                    }
                }
            },
        },
        (StartupPhase::RawCheckPending, StartupEvent::RawConnectChecked { listening }) => {
            if listening {
                (
                    StartupPhase::Aborted { error: StartupError::PortOccupiedUnknown },
                    StartupAction::Abort,
                )
            } else {
                (StartupPhase::SpawnPending, StartupAction::Spawn)
            }
        },
        (StartupPhase::ZombieKillPending { pid: _ }, StartupEvent::KillAttempted { ok }) => {
            if ok {
                let poller = Poller::new(PORT_FREE_TIMEOUT_MS, POLL_INTERVAL_MS);
                (StartupPhase::PortFreeWait { poller }, StartupAction::PollPort)
            } else {
                (
                    StartupPhase::Aborted { error: StartupError::ZombieKillFailed },
                    StartupAction::Abort,
                )
            }
        },
        (StartupPhase::PortFreeWait { poller }, StartupEvent::PortPolled { occupied }) => {
            if !occupied {
                (StartupPhase::SpawnPending, StartupAction::Spawn)
            } else {
                let mut q = poller;
                q.elapsed_ms = q.elapsed_ms + q.interval_ms;
                if q.elapsed_ms >= q.timeout_ms {
                    (
                        StartupPhase::Aborted { error: StartupError::PortNotFreed },
                        StartupAction::Abort,
                    )
                } else {
                    (
                        StartupPhase::PortFreeWait { poller: q },
                        StartupAction::SleepThenPollPort { ms: q.interval_ms },
                    )
                }
            }
        },
        (StartupPhase::SpawnPending, StartupEvent::SpawnAttempted { pid }) => match pid {
            None => (
                StartupPhase::Aborted { error: StartupError::SpawnFailed },
                StartupAction::Abort,
            ),
            Some(pid) => {
                let poller = Poller::new(READY_TIMEOUT_MS, POLL_INTERVAL_MS);
                (StartupPhase::ReadyWait { pid, poller }, StartupAction::PollReady)
            },
        },
        (StartupPhase::ReadyWait { pid, poller }, StartupEvent::ReadyPolled { up }) => {
            if up {
                (StartupPhase::Running { pid, ready: true }, StartupAction::Proceed { ready: true })
            } else {
                let mut q = poller;
                q.elapsed_ms = q.elapsed_ms + q.interval_ms;
                if q.elapsed_ms >= q.timeout_ms {
                    (
                        StartupPhase::Running { pid, ready: false },
                        StartupAction::Proceed { ready: false },
                    )
                } else {
                    (
                        StartupPhase::ReadyWait { pid, poller: q },
                        StartupAction::SleepThenPollReady { ms: q.interval_ms },
                    )
                }
            }
        },
        _ => unreached(),
    }
}

/// On a parseable probe answer the machine rules exactly as reconciliation
/// does, whatever the raw connectivity state: a foreign application or a
/// foreign identity aborts startup with the matching error, and this
/// instance's own zombie is killed under the pid it reported.
pub proof fn lemma_probe_step_follows_reconcile(h: HealthResponse, raw_port_connectable: bool)
    ensures
        ({
            let d = spec_reconcile(Some(h@), raw_port_connectable);
            let r = spec_step(
                StartupPhase::ProbePending,
                (StartupEvent::ProbeAnswered { result: Some(h) }),
            );
            match d {
                ReconciliationDecision::PortFree => false,
                ReconciliationDecision::ForeignApplication => r == Some(
                    (
                        (StartupPhase::Aborted { error: StartupError::ForeignApplication }),
                        StartupAction::Abort,
                    ),
                ),
                ReconciliationDecision::ForeignOwnerOrEnv => r == Some(
                    (
                        (StartupPhase::Aborted {
                            error: StartupError::ForeignOwnerOrEnv { owner: h.owner, env: h.env },
                        }),
                        StartupAction::Abort,
                    ),
                ),
                ReconciliationDecision::OwnedZombie { pid } => pid == h.pid && r == Some(
                    (
                        (StartupPhase::ZombieKillPending { pid }),
                        (StartupAction::KillTree { pid }),
                    ),
                ),
            }
        }),
{
}

/// When the probe fails the machine defers to the raw connect check and then
/// rules exactly as reconciliation does: a silent port is judged free and
/// spawned on; a listener that would not answer the probe is a fatal
/// conflict, and no kill or spawn is attempted.
pub proof fn lemma_raw_check_follows_reconcile(listening: bool)
    ensures
        spec_step(StartupPhase::ProbePending, (StartupEvent::ProbeAnswered { result: None }))
            == Some((StartupPhase::RawCheckPending, StartupAction::RawConnect)),
        ({
            let d = spec_reconcile(None::<HealthFields>, listening);
            let r = spec_step(
                StartupPhase::RawCheckPending,
                (StartupEvent::RawConnectChecked { listening }),
            );
            match d {
                ReconciliationDecision::PortFree => r == Some(
                    (StartupPhase::SpawnPending, StartupAction::Spawn),
                ),
                ReconciliationDecision::ForeignApplication => r == Some(
                    (
                        (StartupPhase::Aborted { error: StartupError::PortOccupiedUnknown }),
                        StartupAction::Abort,
                    ),
                ),
                _ => false,
            }
        }),
{
}

/// The readiness wait run over recorded poll outcomes: `Some(ready)` once
/// the machine proceeds into the application, `None` while the recorded
/// outcomes ran out first.
pub open spec fn spec_ready_run(pid: u32, poller: Poller, outcomes: Seq<bool>) -> Option<bool>
    decreases outcomes.len(),
{
    if outcomes.len() == 0 {
        None
    } else {
        match spec_step(
            (StartupPhase::ReadyWait { pid, poller }),
            (StartupEvent::ReadyPolled { up: outcomes[0] }),
        ) {
            Some((next, action)) => match action {
                StartupAction::Proceed { ready } => Some(ready),
                _ => match next {
                    StartupPhase::ReadyWait { pid: next_pid, poller: q } => spec_ready_run(
                        next_pid,
                        q,
                        outcomes.skip(1),
                    ),
                    _ => None,
                },
            },
            None => None,
        }
    }
}

/// The readiness wait follows the poll-loop model step for step: starting
/// inside the window, the machine proceeds ready exactly when the model
/// decides `true` and proceeds degraded exactly when it times out to
/// `false`.
pub proof fn lemma_ready_wait_matches_poll_model(pid: u32, poller: Poller, outcomes: Seq<bool>)
    requires
        poller.wf(),
        !poller.spec_expired(),
    ensures
        (spec_ready_run(pid, poller, outcomes) == Some(true)) == (spec_run(poller, outcomes)
            == PollRun::Decided(true)),
        (spec_ready_run(pid, poller, outcomes) == Some(false)) == (spec_run(poller, outcomes)
            == PollRun::Decided(false)),
    decreases outcomes.len(),
{
    if outcomes.len() == 0 {
    } else if outcomes[0] {
    } else {
        let q = poller.advanced();
        if q.spec_expired() {
            assert(spec_run(q, outcomes.skip(1)) == PollRun::Decided(false));
        } else {
            lemma_ready_wait_matches_poll_model(pid, q, outcomes.skip(1));
        }
    }
}

/// The readiness contract at the machine level: the wait proceeds ready if
/// and only if some poll within the ten-second window answered, and with
/// misses alone it proceeds degraded — it never aborts — once enough misses
/// close the window.
pub proof fn lemma_await_ready_iff_hit_within_window(pid: u32, outcomes: Seq<bool>)
    ensures
        (spec_ready_run(pid, spec_ready_poller(), outcomes) == Some(true)) <==> (exists|i: int|
            0 <= i < outcomes.len() && i * POLL_INTERVAL_MS < READY_TIMEOUT_MS && outcomes[i]),
        ((forall|i: int| 0 <= i < outcomes.len() ==> !outcomes[i]) && READY_TIMEOUT_MS
            <= outcomes.len() * POLL_INTERVAL_MS) ==> spec_ready_run(
            pid,
            spec_ready_poller(),
            outcomes,
        ) == Some(false),
{
    let p = spec_ready_poller();
    lemma_ready_wait_matches_poll_model(pid, p, outcomes);
    lemma_run_decides_true_iff_hit_within_window(p, outcomes);
    if (forall|i: int| 0 <= i < outcomes.len() ==> !outcomes[i]) && READY_TIMEOUT_MS
        <= outcomes.len() * POLL_INTERVAL_MS {
        lemma_run_times_out_on_misses(p, outcomes);
    }
}

/// The port-free wait run over recorded poll outcomes (`true` meaning the
/// port was still occupied): `Some(true)` once the machine proceeds to
/// spawn, `Some(false)` once it aborts, `None` while the recorded outcomes
/// ran out first.
pub open spec fn spec_port_run(poller: Poller, occupied: Seq<bool>) -> Option<bool>
    decreases occupied.len(),
{
    if occupied.len() == 0 {
        None
    } else {
        match spec_step(
            (StartupPhase::PortFreeWait { poller }),
            (StartupEvent::PortPolled { occupied: occupied[0] }),
        ) {
            Some((next, action)) => match action {
                StartupAction::Spawn => Some(true),
                StartupAction::Abort => Some(false),
                _ => match next {
                    StartupPhase::PortFreeWait { poller: q } => spec_port_run(
                        q,
                        occupied.skip(1),
                    ),
                    _ => None,
                },
            },
            None => None,
        }
    }
}

/// The poll outcomes with the opposite polarity: the port-free wait is
/// satisfied by a poll that finds the port no longer occupied.
pub open spec fn negated(outcomes: Seq<bool>) -> Seq<bool> {
    outcomes.map_values(|b: bool| !b)
}

/// The port-free wait follows the poll-loop model step for step, a hit
/// being a poll that found the port free: starting inside the window, the
/// machine proceeds to spawn exactly when the model decides `true` and
/// aborts exactly when it times out to `false`.
pub proof fn lemma_port_wait_matches_poll_model(poller: Poller, occupied: Seq<bool>)
    requires
        poller.wf(),
        !poller.spec_expired(),
    ensures
        (spec_port_run(poller, occupied) == Some(true)) == (spec_run(poller, negated(occupied))
            == PollRun::Decided(true)),
        (spec_port_run(poller, occupied) == Some(false)) == (spec_run(poller, negated(occupied))
            == PollRun::Decided(false)),
    decreases occupied.len(),
{
    if occupied.len() == 0 {
    } else if !occupied[0] {
        assert(negated(occupied)[0]);
    } else {
        assert(!negated(occupied)[0]);
        let q = poller.advanced();
        if q.spec_expired() {
            assert(spec_run(q, negated(occupied).skip(1)) == PollRun::Decided(false));
        } else {
            lemma_port_wait_matches_poll_model(q, occupied.skip(1));
            assert(negated(occupied).skip(1) =~= negated(occupied.skip(1)));
        }
    }
}

/// The port-free wait at the machine level: after a successful zombie kill
/// the machine proceeds to spawn if and only if some poll within the
/// two-second window found the port free, and with the port stuck occupied
/// it aborts once enough polls close the window.
pub proof fn lemma_port_free_wait_iff_freed_within_window(occupied: Seq<bool>)
    ensures
        (spec_port_run(spec_port_free_poller(), occupied) == Some(true)) <==> (exists|i: int|
            0 <= i < occupied.len() && i * POLL_INTERVAL_MS < PORT_FREE_TIMEOUT_MS
                && !occupied[i]),
        ((forall|i: int| 0 <= i < occupied.len() ==> occupied[i]) && PORT_FREE_TIMEOUT_MS
            <= occupied.len() * POLL_INTERVAL_MS) ==> spec_port_run(
            spec_port_free_poller(),
            occupied,
        ) == Some(false),
{
    let p = spec_port_free_poller();
    let freed = negated(occupied);
    lemma_port_wait_matches_poll_model(p, occupied);
    lemma_run_decides_true_iff_hit_within_window(p, freed);
    if spec_port_run(p, occupied) == Some(true) {
        let i = choose|i: int|
            0 <= i < freed.len() && p.elapsed_ms + i * p.interval_ms < p.timeout_ms && freed[i];
        assert(0 <= i < occupied.len() && i * POLL_INTERVAL_MS < PORT_FREE_TIMEOUT_MS
            && !occupied[i]);
    }
    if exists|i: int|
        0 <= i < occupied.len() && i * POLL_INTERVAL_MS < PORT_FREE_TIMEOUT_MS && !occupied[i] {
        let i = choose|i: int|
            0 <= i < occupied.len() && i * POLL_INTERVAL_MS < PORT_FREE_TIMEOUT_MS
                && !occupied[i];
        assert(0 <= i < freed.len() && p.elapsed_ms + i * p.interval_ms < p.timeout_ms
            && freed[i]);
    }
    if (forall|i: int| 0 <= i < occupied.len() ==> occupied[i]) && PORT_FREE_TIMEOUT_MS
        <= occupied.len() * POLL_INTERVAL_MS {
        lemma_run_times_out_on_misses(p, freed);
    }
}

impl StartupError {
    /// The user-facing description of the failure that aborted startup.
    pub open spec fn spec_message(self) -> Seq<char> {
        match self {
            StartupError::PortOccupiedUnknown => "Port 8000 is occupied. Close old server instances first."@,
            StartupError::ForeignApplication => "Port 8000 is in use by another application."@,
            StartupError::ForeignOwnerOrEnv { owner, env } => "A "@ + owner@ + "/"@ + env@
                + " Slate server is running. Close it before opening the editor."@,
            StartupError::ZombieKillFailed => "Failed to terminate zombie server."@,
            StartupError::PortNotFreed => "Could not free port 8000 after killing zombie."@,
            StartupError::SpawnFailed => "Failed to spawn sidecar."@,
        }
    }

    /// Render the user-facing description of this failure.
    pub fn message(&self) -> (m: String)
        ensures
            m@ == self.spec_message(),
    {
        match self {
            StartupError::PortOccupiedUnknown => "Port 8000 is occupied. Close old server instances first.".to_owned(),
            StartupError::ForeignApplication => "Port 8000 is in use by another application.".to_owned(),
            StartupError::ForeignOwnerOrEnv { owner, env } => {
                let mut m: String = "A ".to_owned();
                m.append(owner.as_str());
                m.append("/");
                m.append(env.as_str());
                m.append(" Slate server is running. Close it before opening the editor.");
                m
            },
            StartupError::ZombieKillFailed => "Failed to terminate zombie server.".to_owned(),
            StartupError::PortNotFreed => "Could not free port 8000 after killing zombie.".to_owned(),
            StartupError::SpawnFailed => "Failed to spawn sidecar.".to_owned(),
        }
    }
}

} // verus!
