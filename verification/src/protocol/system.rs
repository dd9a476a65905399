//! `browser.list`: the extension clients connected to the daemon.

use vstd::prelude::*;

verus! {

#[derive(Debug, Clone, PartialEq)]
pub struct BrowserListParams {
    /// How long the daemon may wait for a first browser to connect.
    pub wait_for_browser_ms: u64,
}

/// One connected extension client.
#[derive(Debug, Clone, PartialEq)]
pub struct BrowserStatusEntry {
    pub instance_id: String,
    pub browser_name: String,
    pub browser_version: String,
    pub extension_version: String,
    pub label: String,
    pub session_count: u64,
}

} // verus!
