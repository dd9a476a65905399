//! `tool.network` — read buffered network responses / failures.
//!
//! Entry timestamps are floating-point numbers on the wire; this crate
//! carries them as the IEEE-754 bit pattern (`f64::to_bits`) in a `u64`.

use vstd::prelude::*;

verus! {

#[derive(Debug, Clone, PartialEq)]
pub struct NetworkParams {
    pub session_id: String,
    /// Optional target tab.
    pub tab_id: Option<i64>,
    /// Return entries with sequence strictly greater than this cursor.
    pub since: Option<u64>,
    /// Maximum number of entries to return (at least 1 when present).
    pub limit: Option<u32>,
    /// Maximum characters per URL / error text (at least 1 when present).
    pub max_text_chars: Option<u32>,
}

#[derive(Debug, Clone, Copy, PartialEq, Eq)]
pub enum NetworkEntryKind {
    /// A response was received (`Network.responseReceived`).
    Response,
    /// The request failed before completing (`Network.loadingFailed`).
    Failure,
}

#[derive(Debug, Clone, PartialEq)]
pub struct NetworkEntry {
    pub sequence: u64,
    pub kind: NetworkEntryKind,
    pub method: Option<String>,
    pub url: Option<String>,
    /// HTTP status code (`response` entries only).
    pub status: Option<u32>,
    pub status_text: Option<String>,
    pub mime_type: Option<String>,
    pub resource_type: Option<String>,
    /// CDP failure reason (`failure` entries only).
    pub error_text: Option<String>,
    /// Timestamp, as the bit pattern of an `f64`.
    pub timestamp: Option<u64>,
    pub truncated: bool,
}

#[derive(Debug, Clone, PartialEq)]
pub struct NetworkResult {
    pub tab_id: i64,
    pub entries: Vec<NetworkEntry>,
    pub next_since: u64,
    pub truncated: bool,
}

} // verus!
