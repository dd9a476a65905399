//! Shared JavaScript dialog observability types.
//!
//! Mirrors CDP `Page.javascriptDialogOpening` / `Page.handleJavaScriptDialog`.
//! Dialogs are surfaced as in-band data on tool results — not RPC errors.

use vstd::prelude::*;

verus! {

/// Native JS dialog kind reported by CDP.
#[derive(Debug, Clone, Copy, PartialEq, Eq)]
pub enum JavaScriptDialogType {
    Alert,
    Confirm,
    Prompt,
    BeforeUnload,
}

/// How the extension resolved the dialog so CDP could continue.
#[derive(Debug, Clone, Copy, PartialEq, Eq)]
pub enum JavaScriptDialogHandledAction {
    Accepted,
    Dismissed,
}

/// Wire name of a dialog kind.
pub open spec fn dialog_type_name(t: JavaScriptDialogType) -> Seq<char> {
    match t {
        JavaScriptDialogType::Alert => "alert"@,
        JavaScriptDialogType::Confirm => "confirm"@,
        JavaScriptDialogType::Prompt => "prompt"@,
        JavaScriptDialogType::BeforeUnload => "beforeunload"@,
    }
}

/// Wire name of a dialog resolution.
pub open spec fn handled_action_name(a: JavaScriptDialogHandledAction) -> Seq<char> {
    match a {
        JavaScriptDialogHandledAction::Accepted => "accepted"@,
        JavaScriptDialogHandledAction::Dismissed => "dismissed"@,
    }
}

impl JavaScriptDialogType {
    pub fn as_str(self) -> (r: &'static str)
        ensures
            r@ == dialog_type_name(self),
    {
        match self {
            JavaScriptDialogType::Alert => "alert",
            JavaScriptDialogType::Confirm => "confirm",
            JavaScriptDialogType::Prompt => "prompt",
            JavaScriptDialogType::BeforeUnload => "beforeunload",
        }
    }
}

impl JavaScriptDialogHandledAction {
    pub fn as_str(self) -> (r: &'static str)
        ensures
            r@ == handled_action_name(self),
    {
        match self {
            JavaScriptDialogHandledAction::Accepted => "accepted",
            JavaScriptDialogHandledAction::Dismissed => "dismissed",
        }
    }
}

/// One observed + handled JavaScript dialog during a tool call.
#[derive(Debug, Clone, PartialEq)]
pub struct JavaScriptDialogInfo {
    pub tab_id: i64,
    pub dialog_type: JavaScriptDialogType,
    pub message: String,
    pub url: Option<String>,
    pub default_prompt: Option<String>,
    pub has_browser_handler: Option<bool>,
    pub handled: JavaScriptDialogHandledAction,
    /// Monotonic per-tab sequence for ordering within a session.
    pub sequence: u64,
}

} // verus!
