use slate_supervisor::health::HealthResponse;
use slate_supervisor::identity::{expected_app_name_str, owner_tag_str, env_tag_str, spawn_environment};
use slate_supervisor::reconcile::{reconcile, ReconciliationDecision};
use slate_supervisor::state::{ChildHandle, ServerState, ShutdownAction};

fn health(app: &str, owner: &str, env: &str, pid: u32) -> HealthResponse {
    HealthResponse::new(
        "ok".to_owned(),
        app.to_owned(),
        owner.to_owned(),
        env.to_owned(),
        pid,
    )
}

#[test]
fn foreign_app_name_is_foreign_application() {
    let probe = Some(health("other-app", "x", "y", 99));
    assert_eq!(reconcile(&probe, false), ReconciliationDecision::ForeignApplication);
    // the tags are not even consulted: matching tags do not save it
    let probe = Some(health("other-app", "tauri", "prod", 99));
    assert_eq!(reconcile(&probe, true), ReconciliationDecision::ForeignApplication);
}

#[test]
fn foreign_owner_or_env_is_not_touched() {
    let probe = Some(health("slate-server", "someone-else", "prod", 7));
    assert_eq!(reconcile(&probe, false), ReconciliationDecision::ForeignOwnerOrEnv);
    let probe = Some(health("slate-server", "tauri", "staging", 7));
    assert_eq!(reconcile(&probe, false), ReconciliationDecision::ForeignOwnerOrEnv);
    let probe = Some(health("slate-server", "someone-else", "staging", 7));
    assert_eq!(reconcile(&probe, true), ReconciliationDecision::ForeignOwnerOrEnv);
}

#[test]
fn exact_identity_is_owned_zombie_with_reported_pid() {
    let probe = Some(health("slate-server", "tauri", "prod", 4321));
    assert_eq!(
        reconcile(&probe, false),
        ReconciliationDecision::OwnedZombie { pid: 4321 }
    );
    let probe = Some(health("slate-server", "tauri", "prod", u32::MAX));
    assert_eq!(
        reconcile(&probe, true),
        ReconciliationDecision::OwnedZombie { pid: u32::MAX }
    );
}

#[test]
fn silent_port_is_free() {
    assert_eq!(reconcile(&None, false), ReconciliationDecision::PortFree);
}

#[test]
fn mute_listener_is_foreign() {
    // something accepts TCP connects but would not answer the health probe
    assert_eq!(reconcile(&None, true), ReconciliationDecision::ForeignApplication);
}

#[test]
fn identity_strings_and_spawn_environment() {
    assert_eq!(expected_app_name_str(), "slate-server");
    assert_eq!(owner_tag_str(), "tauri");
    assert_eq!(env_tag_str(), "prod");
    let env = spawn_environment();
    assert_eq!(env.len(), 2);
    assert_eq!(env[0].0, "SLATE_OWNER");
    assert_eq!(env[0].1, "tauri");
    assert_eq!(env[1].0, "SLATE_ENV");
    assert_eq!(env[1].1, "prod");
}

#[test]
fn fresh_state_holds_no_child() {
    let mut state = ServerState::new();
    assert_eq!(state.take(), None);
}

#[test]
fn take_claims_the_handle_at_most_once() {
    let mut state = ServerState::new();
    state.store(ChildHandle { pid: 77 });
    assert_eq!(state.take(), Some(ChildHandle { pid: 77 }));
    assert_eq!(state.take(), None);
}

#[test]
fn terminate_kills_the_held_tree() {
    let mut state = ServerState::new();
    state.store(ChildHandle { pid: 4321 });
    assert_eq!(state.terminate(), ShutdownAction::KillTree { pid: 4321 });
}

#[test]
fn terminate_twice_kills_at_most_once() {
    let mut state = ServerState::new();
    state.store(ChildHandle { pid: 4321 });
    let first = state.terminate();
    let second = state.terminate();
    assert_eq!(first, ShutdownAction::KillTree { pid: 4321 });
    assert_eq!(second, ShutdownAction::AlreadyClean);
}

#[test]
fn terminate_on_empty_state_is_a_noop() {
    let mut state = ServerState::new();
    assert_eq!(state.terminate(), ShutdownAction::AlreadyClean);
}
