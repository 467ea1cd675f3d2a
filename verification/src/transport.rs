use vstd::prelude::*;
use crate::errors::TransportError;
use crate::model::{RawBlock, RawReceipt};

verus! {

/// The capability a `BlockParser` needs from an Ethereum JSON-RPC
/// endpoint. An implementation issues the corresponding RPC calls
/// (`eth_blockNumber`, `eth_getBlockByNumber` with full transactions,
/// `eth_getTransactionReceipt`), hands back plain values, and is expected
/// to bound each call by the configured timeout, reporting
/// `TransportError::Timeout` when the bound is exceeded.
pub trait Transport {
    /// The current chain head's block number.
    fn fetch_block_number(&self) -> Result<u64, TransportError>;

    /// The block with the given number, with its transactions; `None`
    /// when no such block exists.
    fn fetch_block(&self, number: u64) -> Result<Option<RawBlock>, TransportError>;

    /// The receipt of the transaction with the given hash; `None` when
    /// the endpoint knows none.
    fn fetch_receipt(&self, hash: &[u8; 32]) -> Result<Option<RawReceipt>, TransportError>;
}

} // verus!
