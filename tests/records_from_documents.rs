use indexer::json::Json;
use indexer::records::{normalize_height, normalize_receipt, normalize_transaction};
use indexer::rpc::{block_from_response, receipts_from_response, FetchError};
use indexer::clock::UtcTime;
use indexer::wire::{decode_block, decode_receipt, decode_receipts, decode_transaction};

fn text(s: &str) -> Json {
    Json::Text(s.to_string())
}

fn object(members: Vec<(&str, Json)>) -> Json {
    Json::Object(members.into_iter().map(|(k, v)| (k.to_string(), v)).collect())
}

fn transaction_doc(hash: &str, to: Json) -> Json {
    object(vec![
        ("blockHash", text("0xbh")),
        ("blockNumber", text("0x1")),
        ("chainId", text("0xe705")),
        ("from", text("0xfrom")),
        ("gas", text("0x5208")),
        ("gasPrice", text("0x3b9aca00")),
        ("hash", text(hash)),
        ("input", text("0x")),
        ("nonce", text("0x7")),
        ("r", text("0xr")),
        ("s", text("0xs")),
        ("to", to),
        ("transactionIndex", text("0x0")),
        ("type", text("0x2")),
        ("v", text("0x1")),
        ("value", text("0xde0b6b3a7640000")),
        ("yParity", text("0x1")),
    ])
}

fn block_doc(transactions: Vec<Json>) -> Json {
    object(vec![
        ("baseFeePerGas", text("0x7")),
        ("difficulty", text("0x5")),
        ("extraData", text("0xextra")),
        ("gasLimit", text("0x1c9c380")),
        ("gasUsed", text("0x5208")),
        ("hash", text("0xbh")),
        ("logsBloom", text("0x00")),
        ("miner", text("0xminer")),
        ("mixHash", text("0xmix")),
        ("nonce", text("0x0000000000000000")),
        ("number", text("0x1")),
        ("parentHash", text("0xparent")),
        ("receiptsRoot", text("0xrr")),
        ("sha3Uncles", text("0xuncles")),
        ("size", text("0x25a")),
        ("stateRoot", text("0xsr")),
        ("timestamp", text("0x60000000")),
        ("totalDifficulty", text("0xa")),
        ("transactions", Json::Array(transactions)),
        ("transactionsRoot", text("0xtr")),
        ("uncles", Json::Array(vec![])),
    ])
}

fn receipt_doc(hash: &str, status: &str, contract: Json) -> Json {
    object(vec![
        ("blockHash", text("0xbh")),
        ("blockNumber", text("0x1")),
        ("contractAddress", contract),
        ("cumulativeGasUsed", text("0x5208")),
        ("effectiveGasPrice", text("0x3b9aca00")),
        ("from", text("0xfrom")),
        ("gasUsed", text("0x5208")),
        (
            "logs",
            Json::Array(vec![object(vec![("address", text("0xa")), ("removed", Json::Bool(false))])]),
        ),
        ("logsBloom", text("0x00")),
        ("status", text(status)),
        ("to", text("0xto")),
        ("transactionHash", text(hash)),
        ("transactionIndex", text("0x0")),
        ("type", text("0x2")),
    ])
}

fn response(result: Json) -> Json {
    object(vec![("jsonrpc", text("2.0")), ("id", Json::Number("1".to_string())), ("result", result)])
}

#[test]
fn end_to_end_block_without_transactions() {
    let (raw, txs) = block_from_response(response(block_doc(vec![]))).unwrap();
    let h = normalize_height(raw, txs, vec![]);
    assert_eq!(h.block.number, 1);
    assert_eq!(h.block.difficulty, 5);
    assert_eq!(h.block.datetime, UtcTime { secs: 0x60000000 });
    assert_eq!(h.block.datetime.secs, 1_610_612_736);
    assert_eq!(h.transactions.len(), 0);
    assert_eq!(h.receipts.len(), 0);
    assert!(h.block.transaction_hashes.is_empty());
}

#[test]
fn block_fields_are_decoded() {
    let (raw, txs) = decode_block(&block_doc(vec![])).unwrap();
    let h = normalize_height(raw, txs, vec![]);
    assert_eq!(h.block.base_fee_per_gas, Some(7));
    assert_eq!(h.block.gas_limit, 30_000_000);
    assert_eq!(h.block.gas_used, 21_000);
    assert_eq!(h.block.size, 602);
    assert_eq!(h.block.total_difficulty, 10);
    assert_eq!(h.block.hash, "0xbh");
    assert_eq!(h.block.nonce, "0x0000000000000000");
    assert_eq!(h.block.extra_data, "0xextra");
}

#[test]
fn block_keeps_transaction_hashes_in_order() {
    let doc = block_doc(vec![transaction_doc("0xt1", text("0xto")), transaction_doc("0xt2", Json::Null)]);
    let (raw, txs) = decode_block(&doc).unwrap();
    assert_eq!(raw.transaction_hashes, vec!["0xt1".to_string(), "0xt2".to_string()]);
    assert_eq!(txs.len(), 2);
    assert_eq!(txs[0].to, Some("0xto".to_string()));
    assert_eq!(txs[1].to, None);
}

#[test]
fn records_share_block_time() {
    let doc = block_doc(vec![transaction_doc("0xt1", text("0xto")), transaction_doc("0xt2", Json::Null)]);
    let (raw, txs) = decode_block(&doc).unwrap();
    let receipts = decode_receipts(Json::Array(vec![
        receipt_doc("0xt1", "0x1", Json::Null),
        receipt_doc("0xt2", "0x0", text("0xc")),
    ]))
    .unwrap();
    let h = normalize_height(raw, txs, receipts);
    assert_eq!(h.transactions.len(), 2);
    assert_eq!(h.receipts.len(), 2);
    for t in &h.transactions {
        assert_eq!(t.datetime, h.block.datetime);
    }
    for r in &h.receipts {
        assert_eq!(r.datetime, h.block.datetime);
    }
    assert_eq!(h.transactions[0].hash, "0xt1");
    assert_eq!(h.transactions[0].gas, 21_000);
    assert_eq!(h.transactions[0].gas_price, 1_000_000_000);
    assert_eq!(h.transactions[0].value, 1_000_000_000_000_000_000);
    assert_eq!(h.transactions[0].chain_id, 59141);
    assert_eq!(h.transactions[0].nonce, 7);
    assert_eq!(h.transactions[0].tx_type, 2);
    assert!(h.receipts[0].status);
    assert!(!h.receipts[1].status);
    assert_eq!(h.receipts[0].contract_address, None);
    assert_eq!(h.receipts[1].contract_address, Some("0xc".to_string()));
    assert_eq!(h.receipts[0].logs.len(), 1);
}

#[test]
fn transaction_with_absent_recipient() {
    let doc = object(vec![("hash", text("0xh"))]);
    assert!(decode_transaction(&doc).is_none());
    let full = transaction_doc("0xt", Json::Null);
    let raw = decode_transaction(&full).unwrap();
    let t = normalize_transaction(raw, UtcTime { secs: 42 });
    assert_eq!(t.to, None);
    assert_eq!(t.datetime.secs, 42);
    assert_eq!(t.transaction_index, 0);
}

#[test]
fn receipt_status_flag() {
    let raw = decode_receipt(receipt_doc("0xt", "0x2", Json::Null)).unwrap();
    let r = normalize_receipt(raw, UtcTime { secs: 1 });
    assert!(!r.status);
    let raw = decode_receipt(receipt_doc("0xt", "invalid", Json::Null)).unwrap();
    assert!(!normalize_receipt(raw, UtcTime { secs: 1 }).status);
    let raw = decode_receipt(receipt_doc("0xt", "0x1", Json::Null)).unwrap();
    let r = normalize_receipt(raw, UtcTime { secs: 1 });
    assert!(r.status);
    assert_eq!(r.cumulative_gas_used, 21_000);
    assert_eq!(r.effective_gas_price, 1_000_000_000);
}

#[test]
fn block_with_a_missing_field_is_refused() {
    let doc = object(vec![("number", text("0x1")), ("transactions", Json::Array(vec![]))]);
    assert!(decode_block(&doc).is_none());
    assert!(decode_block(&Json::Null).is_none());
}

#[test]
fn block_with_hash_only_transactions_is_refused() {
    let doc = block_doc(vec![text("0xt1")]);
    assert!(decode_block(&doc).is_none());
}

#[test]
fn field_of_the_wrong_kind_is_refused() {
    let mut doc = block_doc(vec![]);
    if let Json::Object(members) = &mut doc {
        for m in members.iter_mut() {
            if m.0 == "difficulty" {
                m.1 = Json::Number("5".to_string());
            }
        }
    }
    assert!(decode_block(&doc).is_none());
}

#[test]
fn receipt_without_logs_is_refused() {
    let doc = object(vec![("status", text("0x1"))]);
    assert!(decode_receipt(doc).is_none());
    assert!(decode_receipts(text("x")).is_none());
    assert!(decode_receipts(Json::Array(vec![receipt_doc("0xt", "0x1", Json::Null), Json::Null])).is_none());
}

#[test]
fn response_without_result_is_protocol_error() {
    let no_result = object(vec![("jsonrpc", text("2.0")), ("error", text("boom"))]);
    assert_eq!(block_from_response(no_result).unwrap_err(), FetchError::Protocol);
    let no_result = object(vec![("jsonrpc", text("2.0"))]);
    assert_eq!(receipts_from_response(no_result).unwrap_err(), FetchError::Protocol);
    assert_eq!(receipts_from_response(Json::Null).unwrap_err(), FetchError::Protocol);
    assert_eq!(block_from_response(response(Json::Null)).unwrap_err(), FetchError::Protocol);
}

#[test]
fn receipts_response_in_order() {
    let rs = receipts_from_response(response(Json::Array(vec![
        receipt_doc("0xa", "0x1", Json::Null),
        receipt_doc("0xb", "0x1", Json::Null),
    ])))
    .unwrap();
    assert_eq!(rs.len(), 2);
    assert_eq!(rs[0].transaction_hash, "0xa");
    assert_eq!(rs[1].transaction_hash, "0xb");
    let empty = receipts_from_response(response(Json::Array(vec![]))).unwrap();
    assert!(empty.is_empty());
}
