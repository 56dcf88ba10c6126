//! The identity tags that distinguish this supervisor's own sidecar from any
//! other process answering on the port, and the environment variables through
//! which a spawned child learns them.

use vstd::prelude::*;

verus! {

/// Application name a compatible sidecar reports from its health endpoint.
pub open spec fn expected_app_name() -> Seq<char> {
    "slate-server"@
}

/// Owner tag of this supervisor instance.
pub open spec fn owner_tag() -> Seq<char> {
    "tauri"@
}

/// Environment tag of this supervisor instance.
pub open spec fn env_tag() -> Seq<char> {
    "prod"@
}

/// Name of the environment variable carrying the owner tag to the child.
pub open spec fn owner_var_name() -> Seq<char> {
    "SLATE_OWNER"@
}

/// Name of the environment variable carrying the environment tag to the child.
pub open spec fn env_var_name() -> Seq<char> {
    "SLATE_ENV"@
}

/// Label of the primary window, whose close requests are intercepted.
pub open spec fn main_window_label() -> Seq<char> {
    "main"@
}

pub fn expected_app_name_str() -> (s: String)
    ensures
        s@ == expected_app_name(),
{
    "slate-server".to_owned()
}

pub fn owner_tag_str() -> (s: String)
    ensures
        s@ == owner_tag(),
{
    "tauri".to_owned()
}

pub fn env_tag_str() -> (s: String)
    ensures
        s@ == env_tag(),
{
    "prod".to_owned()
}

/// The `(variable name, value)` pairs a spawned child must receive in its
/// environment so that a later probe can recognise it as self-owned.
pub fn spawn_environment() -> (v: Vec<(String, String)>)
    ensures
        v@.len() == 2,
        v@[0].0@ == owner_var_name(),
        v@[0].1@ == owner_tag(),
        v@[1].0@ == env_var_name(),
        v@[1].1@ == env_tag(),
{
    let mut v: Vec<(String, String)> = Vec::new();
    v.push(("SLATE_OWNER".to_owned(), "tauri".to_owned()));
    v.push(("SLATE_ENV".to_owned(), "prod".to_owned()));
    v
}

} // verus!
