use vstd::prelude::*;
use vstd::string::StringExecFns;
use crate::decimal::{spec_dec, u64_to_dec};
use crate::errors::{rpc_error_of, spec_is_transient, ParserError, TransportError};
use crate::model::{analyze_block, block_analysis_wf, spec_batch, BlockAnalysis, RawReceipt};
use crate::transport::Transport;

verus! {

/// Whether a string parses as an absolute URL; decided by the string
/// alone.
pub uninterp spec fn url_ok(s: Seq<char>) -> bool;

/// Relies on `url::Url::parse`: it accepts exactly the absolute URLs,
/// its result depends on the input string alone, and an input without a
/// scheme — the empty string in particular — is rejected.
#[verifier::external_body]
fn parse_url(s: &str) -> (r: Result<(), String>)
    ensures
        r is Ok <==> url_ok(s@),
        s@.len() == 0 ==> r is Err,
{
    match url::Url::parse(s) {
        Ok(_) => Ok(()),
        Err(e) => Err(e.to_string()),
    }
}

/// The tunables of the retrieval policy. All three are positive.
#[derive(Debug, Clone, Copy, PartialEq, Eq, Structural)]
pub struct ParserConfig {
    /// Bound, in seconds, on each RPC call; enforced by the transport.
    pub timeout_seconds: u64,
    /// Upper bound on the transactions analysed per block request.
    pub max_batch_size: usize,
    /// How many retries a transient failure is given before the call
    /// surfaces `TimeoutError`.
    pub retry_attempts: usize,
}

impl ParserConfig {
    /// The invariant of a configuration: every tunable is positive.
    pub open spec fn wf(&self) -> bool {
        self.timeout_seconds > 0 && self.max_batch_size > 0 && self.retry_attempts > 0
    }

    pub fn new(timeout_seconds: u64, max_batch_size: usize, retry_attempts: usize) -> (r:
        ParserConfig)
        requires
            timeout_seconds > 0,
            max_batch_size > 0,
            retry_attempts > 0,
        ensures
            r.wf(),
            r.timeout_seconds == timeout_seconds,
            r.max_batch_size == max_batch_size,
            r.retry_attempts == retry_attempts,
    {
        ParserConfig { timeout_seconds, max_batch_size, retry_attempts }
    }
}

/// Decide what follows a failed transport attempt: a non-transient
/// failure surfaces at once as `RpcError`; a transient one is retried
/// until `retry_attempts` retries have been used, then surfaces as
/// `TimeoutError`. `None` means: retry.
pub fn retry_decide(e: TransportError, retries_done: usize, retry_attempts: usize) -> (r: Option<
    ParserError>)
    ensures
        e matches TransportError::Rpc(m) ==> r == Some(ParserError::RpcError(m)),
        spec_is_transient(e) && retries_done < retry_attempts ==> r is None,
        spec_is_transient(e) && retries_done >= retry_attempts ==> r == Some(
            ParserError::TimeoutError,
        ),
{
    match e {
        TransportError::Rpc(m) => Some(ParserError::RpcError(m)),
        TransportError::Transient(_) | TransportError::Timeout => {
            if retries_done < retry_attempts {
                None
            } else {
                Some(ParserError::TimeoutError)
            }
        },
    }
}

/// The connection-and-retrieval core: one provider capability, bound at
/// construction, and the retrieval policy. Holds no mutable state after
/// construction.
pub struct BlockParser<T: Transport> {
    provider: T,
    config: ParserConfig,
}

impl<T: Transport> BlockParser<T> {
    /// The configuration the parser was constructed with.
    pub closed spec fn spec_config(&self) -> ParserConfig {
        self.config
    }

    /// Construct a parser over the given provider capability: validate
    /// the endpoint URL, then probe liveness by fetching the current
    /// block number. An invalid URL fails with `ConnectionError`
    /// carrying the parse diagnostic; a failed probe propagates the
    /// probe's own error, so a parser is never handed out in a broken
    /// state.
    pub fn new(rpc_url: &str, provider: T, config: ParserConfig) -> (r: Result<
        BlockParser<T>,
        ParserError,
    >)
        requires
            config.wf(),
        ensures
            (r matches Err(e) && e is ConnectionError) <==> !url_ok(rpc_url@),
            r matches Err(e) ==> e is ConnectionError || e is RpcError || e is TimeoutError,
            r matches Ok(p) ==> p.spec_config() == config && url_ok(rpc_url@),
    {
        match parse_url(rpc_url) {
            Err(diagnostic) => Err(ParserError::ConnectionError(diagnostic)),
            Ok(()) => {
                let parser = BlockParser { provider, config };
                match parser.get_block_number() {
                    Ok(_) => Ok(parser),
                    Err(e) => Err(e),
                }
            },
        }
    }

    /// The current chain head's block number. A transient failure is
    /// retried up to `retry_attempts` times; when every attempt fails
    /// transiently the call surfaces `TimeoutError`, and a non-transient
    /// RPC failure surfaces at once as `RpcError`.
    pub fn get_block_number(&self) -> (r: Result<u64, ParserError>)
        ensures
            r matches Err(e) ==> e is RpcError || e is TimeoutError,
    {
        let mut retries_done: usize = 0;
        loop
            invariant
                retries_done <= self.config.retry_attempts,
            decreases self.config.retry_attempts - retries_done,
        {
            match self.provider.fetch_block_number() {
                Ok(n) => {
                    return Ok(n);
                },
                Err(e) => {
                    match retry_decide(e, retries_done, self.config.retry_attempts) {
                        Some(err) => {
                            return Err(err);
                        },
                        None => {
                            retries_done = retries_done + 1;
                        },
                    }
                },
            }
        }
    }

    /// Retrieve and analyse the block with the given number: fetch it,
    /// fetch the receipts of its first `max_batch_size` transactions,
    /// classify each transaction and sum their values exactly. A missing
    /// block fails with `BlockNotFound` carrying the requested number in
    /// decimal; a transport failure surfaces as `RpcError`, a timeout as
    /// `TimeoutError`.
    pub fn get_block_analysis(&self, block_number: u64) -> (r: Result<BlockAnalysis, ParserError>)
        ensures
            r matches Ok(a) ==> block_analysis_wf(a) && a.transactions@.len()
                <= self.spec_config().max_batch_size,
            r matches Err(e) ==> !(e is ConnectionError),
            r matches Err(e) ==> (e matches ParserError::BlockNotFound(s) ==> s@ == spec_dec(
                block_number as nat,
            )),
    {
        let block = match self.provider.fetch_block(block_number) {
            Err(e) => {
                return Err(rpc_error_of(e));
            },
            Ok(None) => {
                return Err(ParserError::BlockNotFound(u64_to_dec(block_number)));
            },
            Ok(Some(b)) => b,
        };
        let k: usize = if block.transactions.len() < self.config.max_batch_size {
            block.transactions.len()
        } else {
            self.config.max_batch_size
        };
        let mut receipts: Vec<RawReceipt> = Vec::new();
        let mut i: usize = 0;
        while i < k
            invariant
                i <= k,
                k == spec_batch(
                    block.transactions@.len() as int,
                    self.config.max_batch_size as int,
                ),
                k <= block.transactions@.len(),
                receipts@.len() == i,
            decreases k - i,
        {
            match self.provider.fetch_receipt(&block.transactions[i].hash) {
                Err(e) => {
                    return Err(rpc_error_of(e));
                },
                Ok(None) => {
                    return Err(ParserError::RpcError(String::from_str("receipt not found")));
                },
                Ok(Some(rc)) => {
                    receipts.push(rc);
                },
            }
            i = i + 1;
        }
        Ok(analyze_block(&block, &receipts, self.config.max_batch_size))
    }
}

} // verus!
