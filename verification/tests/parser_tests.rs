use std::cell::Cell;
use std::rc::Rc;

use block_analysis::biguint::BigUint;
use block_analysis::errors::{ParserError, TransportError};
use block_analysis::model::{RawBlock, RawReceipt, RawTransaction};
use block_analysis::parser::{BlockParser, ParserConfig};
use block_analysis::transport::Transport;

struct ScriptedTransport {
    calls: Rc<Cell<usize>>,
    heads: Vec<Result<u64, TransportError>>,
    block: Result<Option<RawBlock>, TransportError>,
    receipt: Result<Option<RawReceipt>, TransportError>,
}

impl ScriptedTransport {
    fn new(heads: Vec<Result<u64, TransportError>>) -> (Self, Rc<Cell<usize>>) {
        let calls = Rc::new(Cell::new(0));
        let t = ScriptedTransport {
            calls: calls.clone(),
            heads,
            block: Ok(None),
            receipt: Ok(None),
        };
        (t, calls)
    }
}

impl Transport for ScriptedTransport {
    fn fetch_block_number(&self) -> Result<u64, TransportError> {
        let i = self.calls.get();
        self.calls.set(i + 1);
        let idx = if i < self.heads.len() { i } else { self.heads.len() - 1 };
        self.heads[idx].clone()
    }

    fn fetch_block(&self, _number: u64) -> Result<Option<RawBlock>, TransportError> {
        self.block.clone()
    }

    fn fetch_receipt(&self, _hash: &[u8; 32]) -> Result<Option<RawReceipt>, TransportError> {
        self.receipt.clone()
    }
}

fn config() -> ParserConfig {
    ParserConfig::new(5, 16, 3)
}

fn tx(seed: u8, to: Option<[u8; 20]>, value: u64) -> RawTransaction {
    RawTransaction {
        hash: [seed; 32],
        from: [seed; 20],
        to,
        value: BigUint::from_u64(value),
        gas_price: BigUint::from_u64(10),
        input: Vec::new(),
    }
}

fn block_with_three_transactions() -> RawBlock {
    RawBlock {
        number: 77,
        hash: [0xee; 32],
        timestamp: 1_700_000_000,
        miner: [0xcd; 20],
        gas_used: 63_000,
        gas_limit: 30_000_000,
        transactions: vec![
            tx(1, Some([7; 20]), 1),
            tx(2, Some([7; 20]), 2),
            tx(3, Some([7; 20]), 3),
        ],
    }
}

#[test]
fn construct_succeeds_and_reports_the_probed_value() {
    let (t, _calls) = ScriptedTransport::new(vec![Ok(42)]);
    let parser = BlockParser::new("https://eth.example.com", t, config()).unwrap();
    assert_eq!(parser.get_block_number().unwrap(), 42);
}

#[test]
fn construct_rejects_the_empty_url() {
    let (t, calls) = ScriptedTransport::new(vec![Ok(42)]);
    let r = BlockParser::new("", t, config());
    assert!(matches!(r, Err(ParserError::ConnectionError(_))));
    assert_eq!(calls.get(), 0);
}

#[test]
fn construct_rejects_a_url_without_scheme() {
    let (t, _calls) = ScriptedTransport::new(vec![Ok(42)]);
    let r = BlockParser::new("eth.example.com", t, config());
    assert!(matches!(r, Err(ParserError::ConnectionError(_))));
}

#[test]
fn construct_propagates_a_failed_probe() {
    let (t, _calls) = ScriptedTransport::new(vec![Err(TransportError::Rpc("boom".to_string()))]);
    let r = BlockParser::new("https://eth.example.com", t, config());
    match r {
        Err(ParserError::RpcError(m)) => assert_eq!(m, "boom"),
        other => panic!("expected RpcError, got {:?}", other.is_ok()),
    }
}

#[test]
fn transient_failures_exhaust_the_retries_into_timeout() {
    let (t, calls) = ScriptedTransport::new(vec![
        Ok(1),
        Err(TransportError::Transient("connection reset".to_string())),
    ]);
    let parser = BlockParser::new("https://eth.example.com", t, config()).unwrap();
    assert_eq!(calls.get(), 1);
    let r = parser.get_block_number();
    assert!(matches!(r, Err(ParserError::TimeoutError)));
    // One initial attempt plus exactly `retry_attempts` retries.
    assert_eq!(calls.get(), 1 + 4);
}

#[test]
fn a_non_transient_failure_is_not_retried() {
    let (t, calls) = ScriptedTransport::new(vec![
        Ok(1),
        Err(TransportError::Rpc("malformed request".to_string())),
    ]);
    let parser = BlockParser::new("https://eth.example.com", t, config()).unwrap();
    let r = parser.get_block_number();
    match r {
        Err(ParserError::RpcError(m)) => assert_eq!(m, "malformed request"),
        _ => panic!("expected RpcError"),
    }
    assert_eq!(calls.get(), 2);
}

#[test]
fn a_transient_failure_recovers_on_retry() {
    let (t, calls) = ScriptedTransport::new(vec![
        Ok(1),
        Err(TransportError::Transient("connection reset".to_string())),
        Ok(9),
    ]);
    let parser = BlockParser::new("https://eth.example.com", t, config()).unwrap();
    assert_eq!(parser.get_block_number().unwrap(), 9);
    assert_eq!(calls.get(), 3);
}

#[test]
fn a_missing_block_is_reported_with_its_number() {
    let (t, _calls) = ScriptedTransport::new(vec![Ok(1)]);
    let parser = BlockParser::new("https://eth.example.com", t, config()).unwrap();
    match parser.get_block_analysis(5) {
        Err(ParserError::BlockNotFound(s)) => assert_eq!(s, "5"),
        _ => panic!("expected BlockNotFound"),
    }
}

#[test]
fn analysis_aggregates_count_and_total() {
    let (mut t, _calls) = ScriptedTransport::new(vec![Ok(1)]);
    t.block = Ok(Some(block_with_three_transactions()));
    t.receipt = Ok(Some(RawReceipt { gas_used: 21_000, status: true }));
    let parser = BlockParser::new("https://eth.example.com", t, config()).unwrap();
    let a = parser.get_block_analysis(77).unwrap();
    assert_eq!(a.block_number, 77);
    assert_eq!(a.transaction_count, 3);
    assert_eq!(a.total_value, BigUint::from_u64(6));
}

#[test]
fn analysis_of_the_same_block_twice_is_identical() {
    let (mut t, _calls) = ScriptedTransport::new(vec![Ok(1)]);
    t.block = Ok(Some(block_with_three_transactions()));
    t.receipt = Ok(Some(RawReceipt { gas_used: 21_000, status: true }));
    let parser = BlockParser::new("https://eth.example.com", t, config()).unwrap();
    let a1 = parser.get_block_analysis(77).unwrap();
    let a2 = parser.get_block_analysis(77).unwrap();
    assert_eq!(a1, a2);
}

#[test]
fn a_missing_receipt_surfaces_as_rpc_error() {
    let (mut t, _calls) = ScriptedTransport::new(vec![Ok(1)]);
    t.block = Ok(Some(block_with_three_transactions()));
    t.receipt = Ok(None);
    let parser = BlockParser::new("https://eth.example.com", t, config()).unwrap();
    assert!(matches!(parser.get_block_analysis(77), Err(ParserError::RpcError(_))));
}

#[test]
fn a_timeout_during_block_fetch_surfaces_as_timeout_error() {
    let (mut t, _calls) = ScriptedTransport::new(vec![Ok(1)]);
    t.block = Err(TransportError::Timeout);
    let parser = BlockParser::new("https://eth.example.com", t, config()).unwrap();
    assert!(matches!(parser.get_block_analysis(77), Err(ParserError::TimeoutError)));
}
