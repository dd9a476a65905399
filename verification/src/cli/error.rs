//! Errors a command reports: local failures, and RPC-style errors whose
//! code maps to an exit status.

use vstd::prelude::*;

verus! {

/// Machine-readable class of an RPC-style error.
#[derive(Debug, Clone, Copy, PartialEq, Eq)]
pub enum ErrorCode {
    InvalidParams,
}

/// An error in the shape the daemon answers with.
#[derive(Debug, Clone, PartialEq)]
pub struct RpcError {
    pub code: ErrorCode,
    pub message: String,
}

/// Why a command failed.
#[derive(Debug, Clone, PartialEq)]
pub enum CliError {
    /// Something went wrong on this side of the IPC boundary.
    Local(String),
    /// The request was refused, with an RPC error code.
    Rpc(RpcError),
}

/// A `CliError` as data: the error code (none for local failures) and
/// the message.
pub struct CliErrorView {
    pub code: Option<ErrorCode>,
    pub message: Seq<char>,
}

impl View for CliError {
    type V = CliErrorView;

    open spec fn view(&self) -> CliErrorView {
        match self {
            CliError::Local(m) => CliErrorView { code: None, message: m@ },
            CliError::Rpc(e) => CliErrorView { code: Some(e.code), message: e.message@ },
        }
    }
}

/// An invalid-params error carrying `message`.
pub open spec fn invalid_params_error(message: Seq<char>) -> CliErrorView {
    CliErrorView { code: Some(ErrorCode::InvalidParams), message }
}

impl CliError {
    pub fn from_rpc(e: RpcError) -> (r: CliError)
        ensures
            r == CliError::Rpc(e),
    {
        CliError::Rpc(e)
    }

    /// A local failure described by `message`.
    pub fn local(message: &str) -> (r: CliError)
        ensures
            r@ == (CliErrorView { code: None, message: message@ }),
    {
        CliError::Local(message.to_owned())
    }

    /// The human-readable message of the error.
    pub fn to_string(&self) -> (r: String)
        ensures
            r@ == self@.message,
    {
        match self {
            CliError::Local(m) => m.clone(),
            CliError::Rpc(e) => e.message.clone(),
        }
    }
}

} // verus!
