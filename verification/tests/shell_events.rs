use slate_supervisor::events::{handle_menu_event, on_window_close_request, CloseDisposition, MenuOutcome};
use slate_supervisor::state::{ChildHandle, ServerState, ShutdownAction};

#[test]
fn closing_the_main_window_hides_it() {
    assert_eq!(
        on_window_close_request(&"main".to_owned()),
        CloseDisposition::HideWindow
    );
}

#[test]
fn other_windows_close_normally() {
    assert_eq!(
        on_window_close_request(&"settings".to_owned()),
        CloseDisposition::CloseWindow
    );
    assert_eq!(
        on_window_close_request(&"".to_owned()),
        CloseDisposition::CloseWindow
    );
}

#[test]
fn quit_menu_kills_the_owned_tree_and_exits() {
    let mut state = ServerState::new();
    state.store(ChildHandle { pid: 4321 });
    let outcome = handle_menu_event(&"quit".to_owned(), &mut state);
    assert_eq!(
        outcome,
        MenuOutcome::QuitApp { kill: ShutdownAction::KillTree { pid: 4321 } }
    );
    // the handle is claimed: a later exit event finds nothing to kill
    assert_eq!(state.take(), None);
}

#[test]
fn quit_then_exit_kills_at_most_once() {
    let mut state = ServerState::new();
    state.store(ChildHandle { pid: 9 });
    let first = handle_menu_event(&"quit".to_owned(), &mut state);
    assert_eq!(
        first,
        MenuOutcome::QuitApp { kill: ShutdownAction::KillTree { pid: 9 } }
    );
    // the exit event runs the same termination path and must no-op
    assert_eq!(state.terminate(), ShutdownAction::AlreadyClean);
}

#[test]
fn show_menu_restores_the_window_and_keeps_the_child() {
    let mut state = ServerState::new();
    state.store(ChildHandle { pid: 3 });
    let outcome = handle_menu_event(&"show".to_owned(), &mut state);
    assert_eq!(outcome, MenuOutcome::ShowMainWindow);
    assert_eq!(state.take(), Some(ChildHandle { pid: 3 }));
}

#[test]
fn unknown_menu_entries_are_ignored() {
    let mut state = ServerState::new();
    state.store(ChildHandle { pid: 3 });
    let outcome = handle_menu_event(&"help".to_owned(), &mut state);
    assert_eq!(outcome, MenuOutcome::Ignore);
    assert_eq!(state.take(), Some(ChildHandle { pid: 3 }));
}
