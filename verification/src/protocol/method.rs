//! The RPC methods the command line calls.

use vstd::prelude::*;

verus! {

/// An RPC method of the daemon's IPC protocol.
#[derive(Debug, Clone, Copy, PartialEq, Eq)]
pub enum Method {
    BrowserList,
    Cancel,
    ToolEmulate,
    ToolEvaluate,
    ToolGetHtml,
    ToolNavigate,
    ToolNavigateBack,
    ToolNavigateForward,
    ToolNetwork,
    ToolReload,
    ToolWaitForNavigation,
    ToolWaitMs,
    ToolWindowResize,
}

} // verus!
