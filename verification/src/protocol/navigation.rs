//! Navigation tools (`tool.navigate*`, `tool.reload`).
//!
//! Each result reports which lifecycle phase was actually reached, so a
//! navigation that times out still says how far the page got. All
//! `tab_id` fields are optional and resolve to the requesting session's
//! Agent Window active tab when omitted.

use vstd::prelude::*;

use crate::protocol::dialog::JavaScriptDialogInfo;

verus! {

/// Page-lifecycle checkpoint a navigation should wait on.
#[derive(Debug, Clone, Copy, PartialEq, Eq)]
pub enum WaitUntil {
    Load,
    DomContentLoaded,
    NetworkIdle,
    Commit,
}

impl Default for WaitUntil {
    /// Navigations wait for `load` unless told otherwise.
    fn default() -> (r: WaitUntil)
        ensures
            r == WaitUntil::Load,
    {
        WaitUntil::Load
    }
}

#[derive(Debug, Clone, PartialEq)]
pub struct NavigateParams {
    pub session_id: String,
    pub url: String,
    /// Target tab. Defaults to the Agent Window's currently active tab.
    pub tab_id: Option<i64>,
    /// Lifecycle phase to wait on. Defaults to `Load`.
    pub wait_until: Option<WaitUntil>,
    /// Hard upper bound on the wait (at least 1 when present).
    pub timeout_ms: Option<u32>,
}

/// Outcome of a navigation. `reached` is the lifecycle name the
/// extension actually observed before returning, or `"timeout"`.
#[derive(Debug, Clone, PartialEq)]
pub struct NavigateResult {
    pub tab_id: i64,
    pub url: String,
    /// Tab URL after the navigation settles.
    pub final_url: Option<String>,
    pub reached: String,
    pub error_text: Option<String>,
    pub dialogs: Vec<JavaScriptDialogInfo>,
}

#[derive(Debug, Clone, PartialEq)]
pub struct NavigateBackParams {
    pub session_id: String,
    pub tab_id: Option<i64>,
    pub wait_until: Option<WaitUntil>,
    pub timeout_ms: Option<u32>,
}

#[derive(Debug, Clone, PartialEq)]
pub struct NavigateBackResult {
    pub tab_id: i64,
    pub previous_url: Option<String>,
    pub final_url: Option<String>,
    pub reached: String,
    pub error_text: Option<String>,
    pub dialogs: Vec<JavaScriptDialogInfo>,
}

#[derive(Debug, Clone, PartialEq)]
pub struct NavigateForwardParams {
    pub session_id: String,
    pub tab_id: Option<i64>,
    pub wait_until: Option<WaitUntil>,
    pub timeout_ms: Option<u32>,
}

#[derive(Debug, Clone, PartialEq)]
pub struct NavigateForwardResult {
    pub tab_id: i64,
    pub previous_url: Option<String>,
    pub final_url: Option<String>,
    pub reached: String,
    pub error_text: Option<String>,
    pub dialogs: Vec<JavaScriptDialogInfo>,
}

#[derive(Debug, Clone, PartialEq)]
pub struct ReloadParams {
    pub session_id: String,
    pub tab_id: Option<i64>,
    pub wait_until: Option<WaitUntil>,
    pub timeout_ms: Option<u32>,
    /// When `true`, bypass the HTTP cache.
    pub hard: Option<bool>,
}

#[derive(Debug, Clone, PartialEq)]
pub struct ReloadResult {
    pub tab_id: i64,
    pub previous_url: Option<String>,
    pub final_url: Option<String>,
    pub reached: String,
    pub error_text: Option<String>,
    pub dialogs: Vec<JavaScriptDialogInfo>,
}

} // verus!
