//! Generic JSON-RPC cancellation envelope.

use vstd::prelude::*;

verus! {

/// Identifier of one RPC on the wire.
pub type RpcId = String;

#[derive(Debug, Clone, PartialEq, Eq)]
pub struct CancelParams {
    pub rpc_id: RpcId,
}

#[derive(Debug, Clone, PartialEq, Eq)]
pub struct CancelResult {
    pub cancelled: bool,
}

} // verus!
