//! `tool.get_html`: raw DOM HTML of a tab, optionally narrowed to one
//! subtree by snapshot ref.

use vstd::prelude::*;

use crate::protocol::dialog::JavaScriptDialogInfo;

verus! {

/// The HTML byte budget of the protocol when the caller names none.
pub const DEFAULT_MAX_BYTES: u32 = 524288;

#[derive(Debug, Clone, PartialEq)]
pub struct GetHtmlParams {
    pub session_id: String,
    /// Target tab. Defaults to the Agent Window's active tab.
    pub tab_id: Option<i64>,
    /// Optional `@eN` ref scoping the dump to one subtree.
    pub ref_: Option<String>,
    /// Maximum HTML bytes to return before truncation.
    pub max_bytes: Option<u32>,
}

#[derive(Debug, Clone, PartialEq)]
pub struct GetHtmlResult {
    pub tab_id: i64,
    pub html: String,
    /// Size of the full HTML in bytes, before any truncation.
    pub byte_size: u64,
    pub truncated: bool,
    pub dialogs: Vec<JavaScriptDialogInfo>,
}

} // verus!
