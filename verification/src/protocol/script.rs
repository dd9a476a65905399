//! `tool.evaluate`: run a JavaScript expression in a tab.
//!
//! Exceptions thrown by the expression come back as `ok: false`
//! payloads, not RPC errors, so an agent can read the throw text in-band.
//!
//! The evaluated value is arbitrary JSON on the wire. The human renderer
//! prints its JSON text, so that is what `EvaluatedValue` holds.

use vstd::prelude::*;

use crate::protocol::dialog::JavaScriptDialogInfo;

verus! {

#[derive(Debug, Clone, PartialEq)]
pub struct EvaluateParams {
    pub session_id: String,
    pub expression: String,
    /// Target tab. Defaults to the Agent Window's currently active tab.
    pub tab_id: Option<i64>,
    /// Await the expression when it resolves to a Promise.
    pub await_promise: Option<bool>,
    /// Ask CDP to serialise the result by value.
    pub return_by_value: Option<bool>,
    /// Hard upper bound on the evaluation (at least 1 when present).
    pub timeout_ms: Option<u32>,
}

/// The JSON value an evaluation returned.
#[derive(Debug, Clone, PartialEq)]
pub struct EvaluatedValue {
    /// Compact JSON text of the value.
    pub json: String,
}

/// Outcome of an `evaluate` call.
#[derive(Debug, Clone, PartialEq)]
pub struct EvaluateResult {
    pub ok: bool,
    pub tab_id: i64,
    pub value: Option<EvaluatedValue>,
    pub error: Option<EvaluateError>,
    /// Native JS dialogs observed and auto-handled during this call.
    pub dialogs: Vec<JavaScriptDialogInfo>,
}

#[derive(Debug, Clone, PartialEq)]
pub struct EvaluateError {
    pub text: String,
    pub line: Option<i64>,
    pub column: Option<i64>,
}

} // verus!
