//! Decisions behind the shell's event callbacks: closing the primary window
//! hides it instead of exiting, and the tray menu's quit entry runs the
//! termination path before the application exits.

use vstd::prelude::*;
use crate::identity::main_window_label;
use crate::state::{ServerState, ShutdownAction, spec_terminate};

verus! {

/// How the shell must answer a window close request.
#[derive(Clone, Copy, Debug, PartialEq, Eq, Structural)]
pub enum CloseDisposition {
    /// Suppress the close and hide the window: minimise to tray, the child
    /// process untouched.
    HideWindow,
    /// Let the window close as usual.
    CloseWindow,
}

/// The close-intercept rule: only the primary window is kept alive in the
/// tray; any other window closes normally.
pub open spec fn spec_close_disposition(label: Seq<char>) -> CloseDisposition {
    if label == main_window_label() {
        CloseDisposition::HideWindow
    } else {
        CloseDisposition::CloseWindow
    }
}

/// Answer a window close request. Takes no server state: this path never
/// touches the child process.
pub fn on_window_close_request(label: &String) -> (d: CloseDisposition)
    ensures
        d == spec_close_disposition(label@),
{
    let main: String = "main".to_owned();
    if *label == main {
        CloseDisposition::HideWindow
    } else {
        CloseDisposition::CloseWindow
    }
}

/// The tray menu entries the supervisor reacts to.
pub enum MenuCommand {
    /// Terminate the owned child, then exit the application.
    Quit,
    /// Bring the primary window back from the tray.
    ShowWindow,
    /// An entry the supervisor does not know.
    Other,
}

/// Which command a menu entry's identifier names.
pub open spec fn spec_menu_command(id: Seq<char>) -> MenuCommand {
    if id == "quit"@ {
        MenuCommand::Quit
    } else if id == "show"@ {
        MenuCommand::ShowWindow
    } else {
        MenuCommand::Other
    }
}

/// What the shell must do after a menu event.
#[derive(Clone, Copy, Debug, PartialEq, Eq, Structural)]
pub enum MenuOutcome {
    /// Perform the kill the termination path demanded, then exit.
    QuitApp { kill: ShutdownAction },
    /// Show the primary window and give it focus.
    ShowMainWindow,
    /// Nothing to do.
    Ignore,
}

/// Handle a tray menu event. Quit runs the termination path — taking the
/// handle and demanding the tree kill at most once — and exits; show
/// restores the window; anything else is ignored and the state untouched.
pub fn handle_menu_event(id: &String, state: &mut ServerState) -> (o: MenuOutcome)
    ensures
        match spec_menu_command(id@) {
            MenuCommand::Quit => o == (MenuOutcome::QuitApp {
                kill: spec_terminate(*old(state)).1,
            }) && *final(state) == spec_terminate(*old(state)).0,
            MenuCommand::ShowWindow => o == MenuOutcome::ShowMainWindow && *final(state) == *old(
                state,
            ),
            MenuCommand::Other => o == MenuOutcome::Ignore && *final(state) == *old(state),
        },
{
    let quit: String = "quit".to_owned();
    let show: String = "show".to_owned();
    if *id == quit {
        let kill = state.terminate();
        MenuOutcome::QuitApp { kill }
    } else if *id == show {
        MenuOutcome::ShowMainWindow
    } else {
        MenuOutcome::Ignore
    }
}

} // verus!
