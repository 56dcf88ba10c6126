use slate_supervisor::health::HealthResponse;
use slate_supervisor::poll::{Poller, POLL_INTERVAL_MS, PORT_FREE_TIMEOUT_MS, READY_TIMEOUT_MS};
use slate_supervisor::startup::{start, step, StartupAction, StartupEvent, StartupPhase};

fn zombie_probe(pid: u32) -> HealthResponse {
    HealthResponse::new(
        "ok".to_owned(),
        "slate-server".to_owned(),
        "tauri".to_owned(),
        "prod".to_owned(),
        pid,
    )
}

#[test]
fn owned_zombie_is_killed_waited_out_and_replaced() {
    // probe answers {app:"slate-server", owner:"tauri", env:"prod", pid:4321}
    let (phase, action) = step(
        StartupPhase::ProbePending,
        StartupEvent::ProbeAnswered { result: Some(zombie_probe(4321)) },
    );
    assert_eq!(action, StartupAction::KillTree { pid: 4321 });
    assert!(matches!(phase, StartupPhase::ZombieKillPending { pid: 4321 }));

    // the kill succeeds: wait up to 2 s for the probe to go empty
    let (phase, action) = step(phase, StartupEvent::KillAttempted { ok: true });
    assert_eq!(action, StartupAction::PollPort);
    match &phase {
        StartupPhase::PortFreeWait { poller } => {
            assert_eq!(poller.timeout_ms, PORT_FREE_TIMEOUT_MS);
            assert_eq!(poller.interval_ms, POLL_INTERVAL_MS);
            assert_eq!(poller.elapsed_ms, 0);
        }
        other => panic!("unexpected phase {:?}", other),
    }

    // the port frees at once: spawn the replacement
    let (phase, action) = step(phase, StartupEvent::PortPolled { occupied: false });
    assert_eq!(action, StartupAction::Spawn);
    assert!(matches!(phase, StartupPhase::SpawnPending));
}

#[test]
fn foreign_application_aborts_without_kill_or_spawn() {
    // probe answers {app:"other-app", owner:"x", env:"y", pid:99}
    let probe = HealthResponse::new(
        "ok".to_owned(),
        "other-app".to_owned(),
        "x".to_owned(),
        "y".to_owned(),
        99,
    );
    let (phase, action) = step(
        StartupPhase::ProbePending,
        StartupEvent::ProbeAnswered { result: Some(probe) },
    );
    assert_eq!(action, StartupAction::Abort);
    match phase {
        StartupPhase::Aborted { error } => {
            assert_eq!(error.message(), "Port 8000 is in use by another application.");
        }
        other => panic!("unexpected phase {:?}", other),
    }
}

#[test]
fn foreign_identity_aborts_naming_its_tags() {
    let probe = HealthResponse::new(
        "ok".to_owned(),
        "slate-server".to_owned(),
        "dev".to_owned(),
        "staging".to_owned(),
        12,
    );
    let (phase, action) = step(
        StartupPhase::ProbePending,
        StartupEvent::ProbeAnswered { result: Some(probe) },
    );
    assert_eq!(action, StartupAction::Abort);
    match phase {
        StartupPhase::Aborted { error } => {
            assert_eq!(
                error.message(),
                "A dev/staging Slate server is running. Close it before opening the editor."
            );
        }
        other => panic!("unexpected phase {:?}", other),
    }
}

#[test]
fn failed_probe_and_failed_connect_spawn_directly() {
    // the sequence begins by probing
    let (phase, action) = start();
    assert_eq!(action, StartupAction::Probe);
    assert!(matches!(phase, StartupPhase::ProbePending));

    // probe fails: check the raw port first
    let (phase, action) = step(phase, StartupEvent::ProbeAnswered { result: None });
    assert_eq!(action, StartupAction::RawConnect);
    assert!(matches!(phase, StartupPhase::RawCheckPending));

    // nothing listens: proceed straight to spawn, no kill step
    let (phase, action) = step(phase, StartupEvent::RawConnectChecked { listening: false });
    assert_eq!(action, StartupAction::Spawn);
    assert!(matches!(phase, StartupPhase::SpawnPending));
}

#[test]
fn mute_listener_aborts_as_occupied() {
    let (phase, _) = step(
        StartupPhase::ProbePending,
        StartupEvent::ProbeAnswered { result: None },
    );
    let (phase, action) = step(phase, StartupEvent::RawConnectChecked { listening: true });
    assert_eq!(action, StartupAction::Abort);
    match phase {
        StartupPhase::Aborted { error } => {
            assert_eq!(
                error.message(),
                "Port 8000 is occupied. Close old server instances first."
            );
        }
        other => panic!("unexpected phase {:?}", other),
    }
}

#[test]
fn failed_kill_aborts() {
    let (phase, _) = step(
        StartupPhase::ProbePending,
        StartupEvent::ProbeAnswered { result: Some(zombie_probe(4321)) },
    );
    let (phase, action) = step(phase, StartupEvent::KillAttempted { ok: false });
    assert_eq!(action, StartupAction::Abort);
    match phase {
        StartupPhase::Aborted { error } => {
            assert_eq!(error.message(), "Failed to terminate zombie server.");
        }
        other => panic!("unexpected phase {:?}", other),
    }
}

#[test]
fn port_stuck_occupied_aborts_after_ten_polls() {
    let (phase, _) = step(
        StartupPhase::ProbePending,
        StartupEvent::ProbeAnswered { result: Some(zombie_probe(8)) },
    );
    let (mut phase, _) = step(phase, StartupEvent::KillAttempted { ok: true });
    let mut polls: u32 = 0;
    loop {
        let (next, action) = step(phase, StartupEvent::PortPolled { occupied: true });
        polls += 1;
        match action {
            StartupAction::SleepThenPollPort { ms } => {
                assert_eq!(ms, POLL_INTERVAL_MS);
                phase = next;
            }
            StartupAction::Abort => {
                match next {
                    StartupPhase::Aborted { error } => {
                        assert_eq!(
                            error.message(),
                            "Could not free port 8000 after killing zombie."
                        );
                    }
                    other => panic!("unexpected phase {:?}", other),
                }
                break;
            }
            other => panic!("unexpected action {:?}", other),
        }
    }
    // a 2 s window polled every 200 ms allows exactly ten polls
    assert_eq!(polls, (PORT_FREE_TIMEOUT_MS / POLL_INTERVAL_MS) as u32);
}

#[test]
fn failed_spawn_aborts() {
    let (phase, _) = step(
        StartupPhase::ProbePending,
        StartupEvent::ProbeAnswered { result: None },
    );
    let (phase, _) = step(phase, StartupEvent::RawConnectChecked { listening: false });
    let (phase, action) = step(phase, StartupEvent::SpawnAttempted { pid: None });
    assert_eq!(action, StartupAction::Abort);
    match phase {
        StartupPhase::Aborted { error } => {
            assert_eq!(error.message(), "Failed to spawn sidecar.");
        }
        other => panic!("unexpected phase {:?}", other),
    }
}

#[test]
fn ready_server_completes_startup() {
    let (phase, _) = step(
        StartupPhase::ProbePending,
        StartupEvent::ProbeAnswered { result: None },
    );
    let (phase, _) = step(phase, StartupEvent::RawConnectChecked { listening: false });
    let (phase, action) = step(phase, StartupEvent::SpawnAttempted { pid: Some(777) });
    assert_eq!(action, StartupAction::PollReady);
    let (phase, action) = step(phase, StartupEvent::ReadyPolled { up: true });
    assert_eq!(action, StartupAction::Proceed { ready: true });
    assert!(matches!(phase, StartupPhase::Running { pid: 777, ready: true }));
}

#[test]
fn unready_server_degrades_but_startup_completes() {
    // spawn succeeds but the probe never answers within 10 s
    let (phase, _) = step(
        StartupPhase::ProbePending,
        StartupEvent::ProbeAnswered { result: None },
    );
    let (phase, _) = step(phase, StartupEvent::RawConnectChecked { listening: false });
    let (mut phase, _) = step(phase, StartupEvent::SpawnAttempted { pid: Some(5) });
    let mut polls: u32 = 0;
    loop {
        let (next, action) = step(phase, StartupEvent::ReadyPolled { up: false });
        polls += 1;
        match action {
            StartupAction::SleepThenPollReady { ms } => {
                assert_eq!(ms, POLL_INTERVAL_MS);
                phase = next;
            }
            StartupAction::Proceed { ready } => {
                // a timeout is a warning, not an abort: the application opens
                assert!(!ready);
                assert!(matches!(next, StartupPhase::Running { pid: 5, ready: false }));
                break;
            }
            other => panic!("unexpected action {:?}", other),
        }
    }
    assert_eq!(polls, (READY_TIMEOUT_MS / POLL_INTERVAL_MS) as u32);
}

#[test]
fn poller_decides_true_only_on_a_hit_within_the_window() {
    // a miss sleeps one interval; a hit decides at once
    let mut p = Poller::new(READY_TIMEOUT_MS, POLL_INTERVAL_MS);
    assert!(!p.expired());
    assert!(!p.observe(false));
    assert_eq!(p.elapsed_ms, POLL_INTERVAL_MS);
    assert!(p.observe(true));
    assert_eq!(p.elapsed_ms, POLL_INTERVAL_MS);
}

#[test]
fn poller_times_out_to_false_without_an_error() {
    let mut p = Poller::new(PORT_FREE_TIMEOUT_MS, POLL_INTERVAL_MS);
    let mut polls: u32 = 0;
    let decided: bool = loop {
        if p.expired() {
            break false;
        }
        polls += 1;
        if p.observe(false) {
            break true;
        }
    };
    assert!(!decided);
    assert_eq!(polls, (PORT_FREE_TIMEOUT_MS / POLL_INTERVAL_MS) as u32);
}
