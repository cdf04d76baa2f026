use indexer::batch::BatchBuffer;
use indexer::json::Json;
use indexer::pipeline::{process_height, Arrival, HeightTask, Phase, Run};
use indexer::records::{RawBlock, RawReceipt, RawTransaction};
use indexer::rpc::{block_request, receipts_request, FetchError};

fn raw_block(number: &str) -> RawBlock {
    let s = |x: &str| x.to_string();
    RawBlock {
        base_fee_per_gas: None,
        difficulty: s("0x0"),
        extra_data: s("0x"),
        gas_limit: s("0x10"),
        gas_used: s("0x0"),
        hash: format!("0xhash{}", number),
        logs_bloom: s("0x00"),
        miner: s("0xminer"),
        mix_hash: s("0xmix"),
        nonce: s("0x0"),
        number: number.to_string(),
        parent_hash: s("0xparent"),
        receipts_root: s("0xrr"),
        sha3_uncles: s("0xsu"),
        size: s("0x1"),
        state_root: s("0xsr"),
        timestamp: s("0x60000000"),
        total_difficulty: s("0x0"),
        transaction_hashes: vec![],
        transactions_root: s("0xtr"),
        uncles: vec![],
    }
}

fn raw_receipt(hash: &str) -> RawReceipt {
    let s = |x: &str| x.to_string();
    RawReceipt {
        block_hash: s("0xbh"),
        block_number: s("0x1"),
        contract_address: None,
        cumulative_gas_used: s("0x1"),
        effective_gas_price: s("0x1"),
        from: s("0xfrom"),
        gas_used: s("0x1"),
        logs: vec![],
        logs_bloom: s("0x00"),
        status: s("0x1"),
        to: None,
        transaction_hash: hash.to_string(),
        transaction_index: s("0x0"),
        tx_type: s("0x0"),
    }
}

type BlockResult = Result<(RawBlock, Vec<RawTransaction>), FetchError>;

#[test]
fn failed_block_fetch_skips_only_that_height() {
    let mut run = Run::new(1, 3);
    let mut attempted = vec![];
    let mut written = vec![];
    while let Some(h) = run.next_height() {
        attempted.push(h);
        let block: BlockResult = if h == 2 {
            Err(FetchError::Transport)
        } else {
            Ok((raw_block(&format!("0x{:x}", h)), vec![]))
        };
        let (mut task, out) = process_height(h, block, Ok(vec![raw_receipt("0xa")]));
        let (txs, rs) = match &out {
            Some(n) => {
                written.push(n.block.number);
                (n.transactions.len(), n.receipts.len())
            }
            None => (0, 0),
        };
        task.written();
        run.finish_height(&task, txs, rs);
    }
    assert_eq!(attempted, vec![1, 2, 3]);
    assert_eq!(written, vec![1, 3]);
    assert_eq!(run.stats.blocks, 2);
    assert_eq!(run.stats.skipped, 1);
    assert_eq!(run.stats.receipts, 2);
    assert_eq!(run.stats.transactions, 0);
    assert_eq!(run.next_height(), None);
}

#[test]
fn failed_receipts_fetch_still_writes_block() {
    let (task, out) = process_height(7, Ok((raw_block("0x7"), vec![])), Err(FetchError::Protocol));
    assert_eq!(task.phase, Phase::Writing);
    assert_eq!(task.receipts, Arrival::Failed);
    let n = out.unwrap();
    assert_eq!(n.block.number, 7);
    assert!(n.receipts.is_empty());
}

#[test]
fn failed_block_fetch_is_errored() {
    let (task, out) = process_height(9, Err(FetchError::Transport), Ok(vec![raw_receipt("0xa")]));
    assert_eq!(task.phase, Phase::Errored);
    assert_eq!(task.height, 9);
    assert!(out.is_none());
}

#[test]
fn both_fetches_complete_before_writing_in_either_order() {
    let mut a = HeightTask::new(5);
    a.block_fetched(true);
    assert_eq!(a.phase, Phase::Fetching);
    a.normalized();
    assert_eq!(a.phase, Phase::Fetching);
    a.receipts_fetched(true);
    assert_eq!(a.phase, Phase::Normalizing);
    a.normalized();
    assert_eq!(a.phase, Phase::Writing);

    let mut b = HeightTask::new(5);
    b.receipts_fetched(true);
    assert_eq!(b.phase, Phase::Fetching);
    b.written();
    assert_eq!(b.phase, Phase::Fetching);
    b.block_fetched(true);
    assert_eq!(b.phase, Phase::Normalizing);
    b.normalized();
    assert_eq!(a, b);
    b.written();
    assert_eq!(b.phase, Phase::Done);
}

#[test]
fn block_failure_after_receipts_is_errored() {
    let mut t = HeightTask::new(3);
    t.receipts_fetched(true);
    t.block_fetched(false);
    assert_eq!(t.phase, Phase::Errored);
    t.normalized();
    t.written();
    assert_eq!(t.phase, Phase::Errored);
}

#[test]
fn empty_range_has_no_height() {
    let run = Run::new(10, 0);
    assert_eq!(run.next_height(), None);
    assert_eq!(run.stats.blocks, 0);
}

#[test]
fn range_reaches_the_largest_height() {
    let mut run = Run::new(u64::MAX - 1, 1);
    assert_eq!(run.next_height(), Some(u64::MAX - 1));
    let mut t = HeightTask::new(u64::MAX - 1);
    t.block_fetched(false);
    t.receipts_fetched(false);
    run.finish_height(&t, 0, 0);
    assert_eq!(run.stats.skipped, 1);
    assert_eq!(run.next_height(), None);
}

#[test]
fn transaction_totals_saturate() {
    let mut run = Run::new(0, 2);
    let mut t = HeightTask::new(0);
    t.block_fetched(true);
    t.receipts_fetched(true);
    t.normalized();
    t.written();
    run.finish_height(&t, usize::MAX, 3);
    let mut t = HeightTask::new(1);
    t.block_fetched(true);
    t.receipts_fetched(true);
    t.normalized();
    t.written();
    run.finish_height(&t, 5, 4);
    assert_eq!(run.stats.transactions, u64::MAX);
    assert_eq!(run.stats.receipts, 7);
    assert_eq!(run.stats.blocks, 2);
}

#[test]
fn batch_flush_due_by_rows() {
    let mut b: BatchBuffer<u32> = BatchBuffer::new(3, 10_000, 0);
    assert!(!b.write(1, 1));
    assert!(!b.write(2, 2));
    assert!(b.write(3, 3));
    assert_eq!(b.len(), 3);
    assert_eq!(b.flush(4), vec![1, 2, 3]);
    assert_eq!(b.len(), 0);
    assert!(!b.is_due(5));
}

#[test]
fn batch_flush_due_by_age() {
    let mut b: BatchBuffer<&str> = BatchBuffer::new(1000, 30_000, 100);
    assert!(!b.write("a", 30_099));
    assert!(b.write("b", 30_100));
    assert_eq!(b.flush(30_100), vec!["a", "b"]);
    assert!(!b.is_due(60_099));
    assert!(b.is_due(60_100));
    assert!(!b.is_due(50));
}

#[test]
fn requests_name_method_and_hex_height() {
    let r = block_request(26);
    let members = match r {
        Json::Object(m) => m,
        _ => panic!("request is not an object"),
    };
    assert_eq!(members.len(), 4);
    let get = |k: &str| members.iter().find(|m| m.0 == k).map(|m| &m.1);
    assert!(matches!(get("jsonrpc"), Some(Json::Text(v)) if v == "2.0"));
    assert!(matches!(get("id"), Some(Json::Number(v)) if v == "1"));
    assert!(matches!(get("method"), Some(Json::Text(v)) if v == "eth_getBlockByNumber"));
    match get("params") {
        Some(Json::Array(p)) => {
            assert_eq!(p.len(), 2);
            assert!(matches!(&p[0], Json::Text(h) if h == "0x1a"));
            assert!(matches!(&p[1], Json::Bool(true)));
        }
        _ => panic!("no params"),
    }
    let r = receipts_request(0);
    match r {
        Json::Object(m) => {
            assert!(m.iter().any(|x| x.0 == "method" && matches!(&x.1, Json::Text(v) if v == "eth_getBlockReceipts")));
            assert!(m.iter().any(|x| x.0 == "params" && matches!(&x.1, Json::Array(p) if p.len() == 1 && matches!(&p[0], Json::Text(h) if h == "0x0"))));
        }
        _ => panic!("request is not an object"),
    }
}
