//! The identity a probed process reports from the health endpoint.

use vstd::prelude::*;

verus! {

/// Mathematical view of a health response: the reported fields as sequences
/// of characters, plus the reported process id.
pub struct HealthFields {
    pub status: Seq<char>,
    pub app_name: Seq<char>,
    pub owner: Seq<char>,
    pub env: Seq<char>,
    pub pid: u32,
}

/// Self-reported identity of whatever process answered the health endpoint.
/// Built per probe from the decoded response body; never stored.
#[derive(Debug)]
pub struct HealthResponse {
    pub status: String,
    pub app_name: String,
    pub owner: String,
    pub env: String,
    pub pid: u32,
}

impl View for HealthResponse {
    type V = HealthFields;

    open spec fn view(&self) -> HealthFields {
        HealthFields {
            status: self.status@,
            app_name: self.app_name@,
            owner: self.owner@,
            env: self.env@,
            pid: self.pid,
        }
    }
}

impl HealthResponse {
    pub fn new(status: String, app_name: String, owner: String, env: String, pid: u32) -> (r: Self)
        ensures
            r@ == (HealthFields { status: status@, app_name: app_name@, owner: owner@, env: env@, pid }),
    {
        HealthResponse { status, app_name, owner, env, pid }
    }
}

} // verus!
