use vstd::prelude::*;
use crate::biguint::BigUint;

verus! {

/// The classification a transaction receives, decided by its recipient
/// field and the presence of an input payload. `Unknown` is the
/// defensive fallback for a transaction whose fields could not be read;
/// it never arises from `classify_transaction`, whose inputs are already
/// plain values.
#[derive(Debug, Clone, Copy, PartialEq, Eq, Structural)]
pub enum TransactionType {
    Transfer,
    ContractCreation,
    ContractCall,
    Unknown,
}

/// A transaction as the transport reports it, reduced to plain values:
/// hash, sender, optional recipient, value and gas price in wei, and the
/// raw input payload.
#[derive(Debug, Clone)]
pub struct RawTransaction {
    pub hash: [u8; 32],
    pub from: [u8; 20],
    pub to: Option<[u8; 20]>,
    pub value: BigUint,
    pub gas_price: BigUint,
    pub input: Vec<u8>,
}

/// A block as the transport reports it: header fields reduced to plain
/// values, plus its transactions in canonical order.
#[derive(Debug, Clone)]
pub struct RawBlock {
    pub number: u64,
    pub hash: [u8; 32],
    pub timestamp: u64,
    pub miner: [u8; 20],
    pub gas_used: u64,
    pub gas_limit: u64,
    pub transactions: Vec<RawTransaction>,
}

/// A transaction receipt reduced to what the analysis reads: gas used
/// and the execution-success status.
#[derive(Debug, Clone, Copy, PartialEq, Eq, Structural)]
pub struct RawReceipt {
    pub gas_used: u64,
    pub status: bool,
}

/// The analysed snapshot of one transaction.
#[derive(Debug, Clone, PartialEq, Eq)]
pub struct TransactionAnalysis {
    pub hash: [u8; 32],
    pub from: [u8; 20],
    pub to: Option<[u8; 20]>,
    pub value: BigUint,
    pub transaction_type: TransactionType,
    pub gas_used: u64,
    pub gas_price: BigUint,
    pub status: bool,
}

/// The analysed snapshot of one block: header fields, the analysed
/// transactions in the block's canonical order, their count, and the
/// exact sum of their values.
#[derive(Debug, Clone, PartialEq, Eq)]
pub struct BlockAnalysis {
    pub block_number: u64,
    pub block_hash: [u8; 32],
    pub timestamp: u64,
    pub miner: [u8; 20],
    pub transaction_count: usize,
    pub gas_used: u64,
    pub gas_limit: u64,
    pub total_value: BigUint,
    pub transactions: Vec<TransactionAnalysis>,
}

/// What `classify_transaction` returns: no recipient means a contract
/// creation, an empty payload a plain transfer, anything else a contract
/// call.
pub open spec fn spec_classify(to: Option<[u8; 20]>, input: Seq<u8>) -> TransactionType {
    if to is None {
        TransactionType::ContractCreation
    } else if input.len() == 0 {
        TransactionType::Transfer
    } else {
        TransactionType::ContractCall
    }
}

/// Classify one transaction from its recipient field and input payload.
pub fn classify_transaction(to: &Option<[u8; 20]>, input: &Vec<u8>) -> (r: TransactionType)
    ensures
        r == spec_classify(*to, input@),
{
    match to {
        None => TransactionType::ContractCreation,
        Some(_) => {
            if input.len() == 0 {
                TransactionType::Transfer
            } else {
                TransactionType::ContractCall
            }
        },
    }
}

/// Whether one analysed transaction is exactly the analysis of the given
/// raw transaction and receipt.
pub open spec fn tx_matches(t: TransactionAnalysis, tx: RawTransaction, rc: RawReceipt) -> bool {
    &&& t.hash == tx.hash
    &&& t.from == tx.from
    &&& t.to == tx.to
    &&& t.value@ == tx.value@
    &&& t.value.wf() == tx.value.wf()
    &&& t.transaction_type == spec_classify(tx.to, tx.input@)
    &&& t.gas_used == rc.gas_used
    &&& t.gas_price@ == tx.gas_price@
    &&& t.status == rc.status
}

/// The sum of the values of a sequence of analysed transactions.
pub open spec fn txs_total(s: Seq<TransactionAnalysis>) -> nat
    decreases s.len(),
{
    if s.len() == 0 {
        0
    } else {
        txs_total(s.drop_last()) + s.last().value@
    }
}

/// The sum of the values of the first `k` raw transactions.
pub open spec fn raw_total(s: Seq<RawTransaction>, k: int) -> nat
    decreases k,
{
    if k <= 0 || k > s.len() {
        0
    } else {
        raw_total(s, k - 1) + s[k - 1].value@
    }
}

/// How many transactions of a block one request analyses: all of them,
/// unless the batch bound truncates the block's transaction list.
pub open spec fn spec_batch(tx_count: int, max_batch_size: int) -> int {
    if tx_count < max_batch_size {
        tx_count
    } else {
        max_batch_size
    }
}

/// The invariant of a `BlockAnalysis`: the count equals the number of
/// analysed transactions and the total is the exact sum of their values.
pub open spec fn block_analysis_wf(a: BlockAnalysis) -> bool {
    &&& a.transaction_count == a.transactions@.len()
    &&& a.total_value@ == txs_total(a.transactions@)
    &&& a.total_value.wf()
}

/// Whether `a` is exactly the analysis of the raw block `block` with
/// the receipts `receipts`, truncated to `max_batch_size` transactions.
pub open spec fn analysis_matches(
    a: BlockAnalysis,
    block: RawBlock,
    receipts: Seq<RawReceipt>,
    max_batch_size: int,
) -> bool {
    &&& a.block_number == block.number
    &&& a.block_hash == block.hash
    &&& a.timestamp == block.timestamp
    &&& a.miner == block.miner
    &&& a.gas_used == block.gas_used
    &&& a.gas_limit == block.gas_limit
    &&& a.transaction_count == a.transactions@.len()
    &&& a.transactions@.len() == spec_batch(block.transactions@.len() as int, max_batch_size)
    &&& forall|j: int|
        0 <= j < a.transactions@.len() ==> tx_matches(
            #[trigger] a.transactions@[j],
            block.transactions@[j],
            receipts[j],
        )
    &&& a.total_value@ == raw_total(block.transactions@, a.transactions@.len() as int)
}

/// Law: analysing a block is deterministic. Two well-formed analyses of
/// the same raw block and receipts, under the same batch bound, agree
/// on every field; the totals agree limb for limb, and the analysed
/// transactions agree field by field, values in value.
pub proof fn lemma_analysis_deterministic(
    a1: BlockAnalysis,
    a2: BlockAnalysis,
    block: RawBlock,
    receipts: Seq<RawReceipt>,
    max_batch_size: int,
)
    requires
        analysis_matches(a1, block, receipts, max_batch_size),
        analysis_matches(a2, block, receipts, max_batch_size),
        a1.total_value.wf(),
        a2.total_value.wf(),
    ensures
        a1.total_value.spec_limbs() == a2.total_value.spec_limbs(),
        a1.block_number == a2.block_number,
        a1.block_hash == a2.block_hash,
        a1.timestamp == a2.timestamp,
        a1.miner == a2.miner,
        a1.transaction_count == a2.transaction_count,
        a1.gas_used == a2.gas_used,
        a1.gas_limit == a2.gas_limit,
        a1.total_value@ == a2.total_value@,
        a1.transactions@.len() == a2.transactions@.len(),
        forall|j: int|
            0 <= j < a1.transactions@.len() ==> {
                let t1 = #[trigger] a1.transactions@[j];
                let t2 = a2.transactions@[j];
                t1.hash == t2.hash && t1.from == t2.from && t1.to == t2.to && t1.value@ == t2.value@
                    && t1.transaction_type == t2.transaction_type && t1.gas_used == t2.gas_used
                    && t1.gas_price@ == t2.gas_price@ && t1.status == t2.status
            },
{
    BigUint::lemma_unique_repr(&a1.total_value, &a2.total_value);
    assert forall|j: int| 0 <= j < a1.transactions@.len() implies {
        let t1 = #[trigger] a1.transactions@[j];
        let t2 = a2.transactions@[j];
        t1.hash == t2.hash && t1.from == t2.from && t1.to == t2.to && t1.value@ == t2.value@
            && t1.transaction_type == t2.transaction_type && t1.gas_used == t2.gas_used
            && t1.gas_price@ == t2.gas_price@ && t1.status == t2.status
    } by {
        assert(tx_matches(a1.transactions@[j], block.transactions@[j], receipts[j]));
        assert(tx_matches(a2.transactions@[j], block.transactions@[j], receipts[j]));
    }
}

/// Analyse one transaction against its receipt: copy the fields the
/// snapshot keeps, classify, and take gas used and status from the
/// receipt.
pub fn analyze_transaction(tx: &RawTransaction, rc: &RawReceipt) -> (r: TransactionAnalysis)
    ensures
        tx_matches(r, *tx, *rc),
{
    TransactionAnalysis {
        hash: tx.hash,
        from: tx.from,
        to: tx.to,
        value: tx.value.clone_value(),
        transaction_type: classify_transaction(&tx.to, &tx.input),
        gas_used: rc.gas_used,
        gas_price: tx.gas_price.clone_value(),
        status: rc.status,
    }
}

/// Analyse a block from its raw form and the receipts of its first
/// `min(transaction count, max_batch_size)` transactions, in block
/// order. Transactions beyond the batch bound are not analysed: the
/// snapshot is an explicit truncation, and its count and total speak of
/// the analysed prefix.
pub fn analyze_block(block: &RawBlock, receipts: &Vec<RawReceipt>, max_batch_size: usize) -> (r:
    BlockAnalysis)
    requires
        receipts@.len() == spec_batch(block.transactions@.len() as int, max_batch_size as int),
    ensures
        block_analysis_wf(r),
        analysis_matches(r, *block, receipts@, max_batch_size as int),
{
    let k: usize = if block.transactions.len() < max_batch_size {
        block.transactions.len()
    } else {
        max_batch_size
    };
    let mut txs: Vec<TransactionAnalysis> = Vec::new();
    let mut total = BigUint::zero();
    let mut i: usize = 0;
    while i < k
        invariant
            i <= k,
            k == spec_batch(block.transactions@.len() as int, max_batch_size as int),
            k <= block.transactions@.len(),
            k <= receipts@.len(),
            txs@.len() == i,
            forall|j: int|
                0 <= j < i ==> tx_matches(
                    #[trigger] txs@[j],
                    block.transactions@[j],
                    receipts@[j],
                ),
            total.wf(),
            total@ == txs_total(txs@),
            total@ == raw_total(block.transactions@, i as int),
        decreases k - i,
    {
        let t = analyze_transaction(&block.transactions[i], &receipts[i]);
        total = total.add(&t.value);
        proof {
            assert(txs@.push(t).drop_last() =~= txs@);
        }
        txs.push(t);
        i = i + 1;
    }
    let transaction_count = txs.len();
    BlockAnalysis {
        block_number: block.number,
        block_hash: block.hash,
        timestamp: block.timestamp,
        miner: block.miner,
        transaction_count,
        gas_used: block.gas_used,
        gas_limit: block.gas_limit,
        total_value: total,
        transactions: txs,
    }
}

} // verus!
