//! What the RPC layer decides: the error it answers with, which events a
//! subscription forwards, and the block event it publishes for a change of
//! the canonical chain. Serving requests and moving messages is left to the
//! program.

pub mod block_events;
pub mod notifier;
pub mod subscription;

use vstd::prelude::*;

verus! {

/// The JSON-RPC error code for an internal error of the server.
pub const INTERNAL_ERROR_CODE: i32 = -32000;

/// A JSON-RPC error object without data.
#[derive(Debug, Clone, PartialEq, Eq)]
pub struct RpcError {
    pub code: i32,
    pub message: String,
}

/// The internal error (code `-32000`) with message `msg`.
pub fn internal_error(msg: String) -> (error: RpcError)
    ensures
        error.code == INTERNAL_ERROR_CODE,
        error.message@ == msg@,
{
    RpcError { code: INTERNAL_ERROR_CODE, message: msg }
}

} // verus!
