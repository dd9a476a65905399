//! Timing helpers (`tool.wait_for_navigation`, `tool.wait_ms`).

use vstd::prelude::*;

use crate::protocol::dialog::JavaScriptDialogInfo;
use crate::protocol::navigation::WaitUntil;

verus! {

#[derive(Debug, Clone, PartialEq)]
pub struct WaitForNavigationParams {
    pub session_id: String,
    /// Target tab. Defaults to the Agent Window's currently active tab.
    pub tab_id: Option<i64>,
    /// Lifecycle phase to wait on. Defaults to `Load`.
    pub wait_until: Option<WaitUntil>,
    /// Hard upper bound on the wait (at least 1 when present).
    pub timeout_ms: Option<u32>,
}

/// Outcome of a wait_for_navigation: the lifecycle phase actually
/// observed, or `Timeout`.
#[derive(Debug, Clone, PartialEq)]
pub struct WaitForNavigationResult {
    pub tab_id: i64,
    pub reached: WaitForNavigationReached,
    pub error_text: Option<String>,
    pub dialogs: Vec<JavaScriptDialogInfo>,
}

#[derive(Debug, Clone, Copy, PartialEq, Eq)]
pub enum WaitForNavigationReached {
    Load,
    DomContentLoaded,
    NetworkIdle,
    Commit,
    Timeout,
}

/// Wire name of a reached lifecycle phase.
pub open spec fn reached_name(r: WaitForNavigationReached) -> Seq<char> {
    match r {
        WaitForNavigationReached::Load => "load"@,
        WaitForNavigationReached::DomContentLoaded => "domcontentloaded"@,
        WaitForNavigationReached::NetworkIdle => "networkidle"@,
        WaitForNavigationReached::Commit => "commit"@,
        WaitForNavigationReached::Timeout => "timeout"@,
    }
}

impl WaitForNavigationReached {
    pub fn as_str(self) -> (r: &'static str)
        ensures
            r@ == reached_name(self),
    {
        match self {
            WaitForNavigationReached::Load => "load",
            WaitForNavigationReached::DomContentLoaded => "domcontentloaded",
            WaitForNavigationReached::NetworkIdle => "networkidle",
            WaitForNavigationReached::Commit => "commit",
            WaitForNavigationReached::Timeout => "timeout",
        }
    }
}

#[derive(Debug, Clone, PartialEq)]
pub struct WaitMsParams {
    pub duration_ms: u64,
}

#[derive(Debug, Clone, PartialEq)]
pub struct WaitMsResult {
    pub waited_ms: u64,
}

} // verus!
