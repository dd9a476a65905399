//! The `cancel { rpc_id }` request frame the daemon pushes to the
//! browser that owns an RPC, when the IPC `cancel` handler or the user's
//! interrupt decides to stop it. Finding the browser and sending the
//! frame is left to the caller.

use vstd::prelude::*;

use crate::protocol::cancel::{CancelParams, RpcId};
use crate::protocol::method::Method;
use crate::text::concat;

verus! {

/// A request frame for the browser.
#[derive(Debug, Clone, PartialEq)]
pub struct CancelRequest {
    pub id: RpcId,
    pub method: Method,
    pub params: CancelParams,
}

/// The frame that asks the browser to cancel its RPC `ws_rpc_id`: id
/// `cancel-<ws_rpc_id>`, method `cancel`, params `{ rpc_id }`.
pub fn cancel_request(ws_rpc_id: &RpcId) -> (r: CancelRequest)
    ensures
        r.id@ == "cancel-"@ + ws_rpc_id@,
        r.method == Method::Cancel,
        r.params.rpc_id@ == ws_rpc_id@,
{
    CancelRequest {
        id: concat("cancel-", ws_rpc_id.as_str()),
        method: Method::Cancel,
        params: CancelParams { rpc_id: ws_rpc_id.clone() },
    }
}

} // verus!
