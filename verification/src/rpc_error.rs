//! JSON-RPC errors, as plain values, and the JSON-RPC error constructors that
//! the mining methods use.

use vstd::prelude::*;

verus! {

/// The JSON-RPC `InvalidParams` error code.
pub const INVALID_PARAMS_CODE: i64 = -32602;

/// The generic server error code that the mining methods use for failures of
/// the services they call and for an empty state.
pub const SERVER_ERROR_CODE: i64 = 0;

/// The server error code for a block that is missing from the best chain:
/// `lightwalletd` expects `-8` when a block is not found.
pub const MISSING_BLOCK_ERROR_CODE: i64 = -8;

/// A JSON-RPC error: its numeric code and its message.
///
/// Every error that the mining methods return carries no extra data.
#[derive(Debug, Clone, PartialEq, Eq)]
pub struct RpcError {
    /// The numeric JSON-RPC error code.
    pub code: i64,
    /// The human-readable message.
    pub message: String,
}

/// Builds the `InvalidParams` error with the given message.
///
/// Calls `jsonrpc_core::Error::invalid_params`, which (jsonrpc-core 18.0.0,
/// `types/error.rs`) returns `Error { code: ErrorCode::InvalidParams, message:
/// message.into(), data: None }`; `ErrorCode::code` maps `InvalidParams` to
/// -32602. The contract claims exactly that code and the message unchanged.
#[verifier::external_body]
pub(crate) fn invalid_params(message: &str) -> (error: RpcError)
    ensures
        error.code == INVALID_PARAMS_CODE,
        error.message@ == message@,
{
    let error = jsonrpc_core::Error::invalid_params(message);
    RpcError { code: error.code.code(), message: error.message }
}

/// Builds a server error with the given code and message.
pub fn server_error(code: i64, message: String) -> (error: RpcError)
    ensures
        error.code == code,
        error.message == message,
{
    RpcError { code, message }
}

} // verus!
