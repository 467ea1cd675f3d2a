use vstd::prelude::*;

verus! {

/// How a single transport call can fail, as the transport reports it.
///
/// The distinction matters for the retry policy: transient failures and
/// timeouts may succeed on a later attempt, an RPC-level failure is
/// deterministic and is not retried.
#[derive(Debug, Clone, PartialEq, Eq)]
pub enum TransportError {
    /// Transient network failure (connection reset and the like).
    Transient(String),
    /// The call exceeded its time bound.
    Timeout,
    /// Non-transient RPC-level failure (malformed request, error object).
    Rpc(String),
}

/// The closed failure taxonomy surfaced to callers of the library.
#[derive(Debug, Clone, PartialEq, Eq)]
pub enum ParserError {
    /// Transport or RPC-level failure, with its diagnostic.
    RpcError(String),
    /// The requested block number has no corresponding block; carries the
    /// decimal rendering of that number.
    BlockNotFound(String),
    /// The endpoint URL was invalid or the transport could not be set up.
    ConnectionError(String),
    /// The operation exceeded the configured time bound.
    TimeoutError,
}

/// Whether a transport failure is transient, so that a retry may succeed.
pub open spec fn spec_is_transient(e: TransportError) -> bool {
    e is Transient || e is Timeout
}

/// What `rpc_error_of` returns for each transport failure.
pub open spec fn spec_rpc_error_of(e: TransportError) -> ParserError {
    match e {
        TransportError::Timeout => ParserError::TimeoutError,
        TransportError::Transient(m) => ParserError::RpcError(m),
        TransportError::Rpc(m) => ParserError::RpcError(m),
    }
}

/// Map a transport failure to the caller-facing taxonomy: a timeout
/// surfaces as `TimeoutError`, any other failure as `RpcError` carrying
/// the transport's diagnostic.
pub fn rpc_error_of(e: TransportError) -> (r: ParserError)
    ensures
        r == spec_rpc_error_of(e),
{
    match e {
        TransportError::Timeout => ParserError::TimeoutError,
        TransportError::Transient(m) => ParserError::RpcError(m),
        TransportError::Rpc(m) => ParserError::RpcError(m),
    }
}

} // verus!
