//! Strict records read field by field from loosely typed documents.
use crate::json::{
    find_member, has_text_list, member, optional_text_field, optional_text_member, text_field,
    text_list_field, text_list_member, text_member, Json,
};
use crate::records::{RawBlock, RawReceipt, RawTransaction};
use vstd::prelude::*;

verus! {

/// Whether the members of a transaction document have every field it needs.
pub open spec fn transaction_decodes(m: Seq<(String, Json)>) -> bool {
    &&& text_member(m, "blockHash"@) is Some
    &&& text_member(m, "blockNumber"@) is Some
    &&& text_member(m, "chainId"@) is Some
    &&& text_member(m, "from"@) is Some
    &&& text_member(m, "gas"@) is Some
    &&& text_member(m, "gasPrice"@) is Some
    &&& text_member(m, "hash"@) is Some
    &&& text_member(m, "input"@) is Some
    &&& text_member(m, "nonce"@) is Some
    &&& text_member(m, "r"@) is Some
    &&& text_member(m, "s"@) is Some
    &&& optional_text_member(m, "to"@) is Some
    &&& text_member(m, "transactionIndex"@) is Some
    &&& text_member(m, "type"@) is Some
    &&& text_member(m, "v"@) is Some
    &&& text_member(m, "value"@) is Some
}

/// Whether `t` holds the fields read from the members of a transaction document.
pub open spec fn transaction_read(m: Seq<(String, Json)>, t: RawTransaction) -> bool {
    &&& text_member(m, "blockHash"@) == Some(t.block_hash)
    &&& text_member(m, "blockNumber"@) == Some(t.block_number)
    &&& text_member(m, "chainId"@) == Some(t.chain_id)
    &&& text_member(m, "from"@) == Some(t.from)
    &&& text_member(m, "gas"@) == Some(t.gas)
    &&& text_member(m, "gasPrice"@) == Some(t.gas_price)
    &&& text_member(m, "hash"@) == Some(t.hash)
    &&& text_member(m, "input"@) == Some(t.input)
    &&& text_member(m, "nonce"@) == Some(t.nonce)
    &&& text_member(m, "r"@) == Some(t.r)
    &&& text_member(m, "s"@) == Some(t.s)
    &&& optional_text_member(m, "to"@) == Some(t.to)
    &&& text_member(m, "transactionIndex"@) == Some(t.transaction_index)
    &&& text_member(m, "type"@) == Some(t.tx_type)
    &&& text_member(m, "v"@) == Some(t.v)
    &&& text_member(m, "value"@) == Some(t.value)
}

/// Whether a document is a transaction object with every field it needs.
pub open spec fn transaction_doc_ok(doc: Json) -> bool {
    doc matches Json::Object(m) && transaction_decodes(m@)
}

/// Whether `t` is read from a transaction document.
pub open spec fn transaction_doc_read(doc: Json, t: RawTransaction) -> bool {
    doc matches Json::Object(m) && transaction_read(m@, t)
}

/// Reads a transaction from its document; `None` where the shape does not fit.
pub fn decode_transaction(doc: &Json) -> (r: Option<RawTransaction>)
    ensures
        r is Some <==> transaction_doc_ok(*doc),
        r matches Some(t) ==> transaction_doc_read(*doc, t),
{
    match doc {
        Json::Object(m) => {
            let block_hash = text_field(m, "blockHash")?;
            let block_number = text_field(m, "blockNumber")?;
            let chain_id = text_field(m, "chainId")?;
            let from = text_field(m, "from")?;
            let gas = text_field(m, "gas")?;
            let gas_price = text_field(m, "gasPrice")?;
            let hash = text_field(m, "hash")?;
            let input = text_field(m, "input")?;
            let nonce = text_field(m, "nonce")?;
            let r = text_field(m, "r")?;
            let s = text_field(m, "s")?;
            let to = optional_text_field(m, "to")?;
            let transaction_index = text_field(m, "transactionIndex")?;
            let tx_type = text_field(m, "type")?;
            let v = text_field(m, "v")?;
            let value = text_field(m, "value")?;
            Some(
                RawTransaction {
                    block_hash,
                    block_number,
                    chain_id,
                    from,
                    gas,
                    gas_price,
                    hash,
                    input,
                    nonce,
                    r,
                    s,
                    to,
                    transaction_index,
                    tx_type,
                    v,
                    value,
                },
            )
        },
        _ => None,
    }
}

/// Whether the members of a block document have every field it needs, besides
/// its transactions.
pub open spec fn block_decodes(m: Seq<(String, Json)>) -> bool {
    &&& optional_text_member(m, "baseFeePerGas"@) is Some
    &&& text_member(m, "difficulty"@) is Some
    &&& text_member(m, "extraData"@) is Some
    &&& text_member(m, "gasLimit"@) is Some
    &&& text_member(m, "gasUsed"@) is Some
    &&& text_member(m, "hash"@) is Some
    &&& text_member(m, "logsBloom"@) is Some
    &&& text_member(m, "miner"@) is Some
    &&& text_member(m, "mixHash"@) is Some
    &&& text_member(m, "nonce"@) is Some
    &&& text_member(m, "number"@) is Some
    &&& text_member(m, "parentHash"@) is Some
    &&& text_member(m, "receiptsRoot"@) is Some
    &&& text_member(m, "sha3Uncles"@) is Some
    &&& text_member(m, "size"@) is Some
    &&& text_member(m, "stateRoot"@) is Some
    &&& text_member(m, "timestamp"@) is Some
    &&& text_member(m, "totalDifficulty"@) is Some
    &&& text_member(m, "transactionsRoot"@) is Some
    &&& has_text_list(m, "uncles"@)
}

/// Whether `b` holds the fields read from the members of a block document,
/// besides its transaction hashes.
pub open spec fn block_read(m: Seq<(String, Json)>, b: RawBlock) -> bool {
    &&& optional_text_member(m, "baseFeePerGas"@) == Some(b.base_fee_per_gas)
    &&& text_member(m, "difficulty"@) == Some(b.difficulty)
    &&& text_member(m, "extraData"@) == Some(b.extra_data)
    &&& text_member(m, "gasLimit"@) == Some(b.gas_limit)
    &&& text_member(m, "gasUsed"@) == Some(b.gas_used)
    &&& text_member(m, "hash"@) == Some(b.hash)
    &&& text_member(m, "logsBloom"@) == Some(b.logs_bloom)
    &&& text_member(m, "miner"@) == Some(b.miner)
    &&& text_member(m, "mixHash"@) == Some(b.mix_hash)
    &&& text_member(m, "nonce"@) == Some(b.nonce)
    &&& text_member(m, "number"@) == Some(b.number)
    &&& text_member(m, "parentHash"@) == Some(b.parent_hash)
    &&& text_member(m, "receiptsRoot"@) == Some(b.receipts_root)
    &&& text_member(m, "sha3Uncles"@) == Some(b.sha3_uncles)
    &&& text_member(m, "size"@) == Some(b.size)
    &&& text_member(m, "stateRoot"@) == Some(b.state_root)
    &&& text_member(m, "timestamp"@) == Some(b.timestamp)
    &&& text_member(m, "totalDifficulty"@) == Some(b.total_difficulty)
    &&& text_member(m, "transactionsRoot"@) == Some(b.transactions_root)
    &&& text_list_member(m, "uncles"@, b.uncles@)
}

/// Whether the members of a receipt document have every field it needs.
pub open spec fn receipt_decodes(m: Seq<(String, Json)>) -> bool {
    &&& text_member(m, "blockHash"@) is Some
    &&& text_member(m, "blockNumber"@) is Some
    &&& optional_text_member(m, "contractAddress"@) is Some
    &&& text_member(m, "cumulativeGasUsed"@) is Some
    &&& text_member(m, "effectiveGasPrice"@) is Some
    &&& text_member(m, "from"@) is Some
    &&& text_member(m, "gasUsed"@) is Some
    &&& text_member(m, "logsBloom"@) is Some
    &&& text_member(m, "status"@) is Some
    &&& optional_text_member(m, "to"@) is Some
    &&& text_member(m, "transactionHash"@) is Some
    &&& text_member(m, "transactionIndex"@) is Some
    &&& text_member(m, "type"@) is Some
    &&& member(m, "logs"@) matches Some(Json::Array(_))
}

/// Whether `r` holds the fields read from the members of a receipt document.
pub open spec fn receipt_read(m: Seq<(String, Json)>, r: RawReceipt) -> bool {
    &&& text_member(m, "blockHash"@) == Some(r.block_hash)
    &&& text_member(m, "blockNumber"@) == Some(r.block_number)
    &&& optional_text_member(m, "contractAddress"@) == Some(r.contract_address)
    &&& text_member(m, "cumulativeGasUsed"@) == Some(r.cumulative_gas_used)
    &&& text_member(m, "effectiveGasPrice"@) == Some(r.effective_gas_price)
    &&& text_member(m, "from"@) == Some(r.from)
    &&& text_member(m, "gasUsed"@) == Some(r.gas_used)
    &&& text_member(m, "logsBloom"@) == Some(r.logs_bloom)
    &&& text_member(m, "status"@) == Some(r.status)
    &&& optional_text_member(m, "to"@) == Some(r.to)
    &&& text_member(m, "transactionHash"@) == Some(r.transaction_hash)
    &&& text_member(m, "transactionIndex"@) == Some(r.transaction_index)
    &&& text_member(m, "type"@) == Some(r.tx_type)
    &&& member(m, "logs"@) == Some(Json::Array(r.logs))
}

/// Whether a document is a receipt object with every field it needs.
pub open spec fn receipt_doc_ok(doc: Json) -> bool {
    doc matches Json::Object(m) && receipt_decodes(m@)
}

/// Whether `r` is read from a receipt document.
pub open spec fn receipt_doc_read(doc: Json, r: RawReceipt) -> bool {
    doc matches Json::Object(m) && receipt_read(m@, r)
}

/// Whether every document is a transaction object with every field it needs.
pub open spec fn transactions_ok(items: Seq<Json>) -> bool {
    forall|i: int| 0 <= i < items.len() ==> transaction_doc_ok(#[trigger] items[i])
}

/// Whether `txs` are read from the documents, one for one.
pub open spec fn transactions_read(items: Seq<Json>, txs: Seq<RawTransaction>) -> bool {
    &&& txs.len() == items.len()
    &&& forall|i: int| 0 <= i < items.len() ==> transaction_doc_read(#[trigger] items[i], txs[i])
}

/// Reads every transaction of a list; `None` where one does not fit.
pub fn decode_transactions(items: &Vec<Json>) -> (r: Option<Vec<RawTransaction>>)
    ensures
        r is Some <==> transactions_ok(items@),
        r matches Some(txs) ==> transactions_read(items@, txs@),
{
    let mut txs: Vec<RawTransaction> = Vec::new();
    let mut i: usize = 0;
    while i < items.len()
        invariant
            i <= items@.len(),
            transactions_ok(items@.take(i as int)),
            transactions_read(items@.take(i as int), txs@),
        decreases items.len() - i,
    {
        let t = decode_transaction(&items[i]);
        match t {
            Some(t) => {
                txs.push(t);
            },
            None => {
                return None;
            },
        }
        i = i + 1;
        assert forall|j: int| 0 <= j < i implies transaction_doc_ok(#[trigger] items@.take(i as int)[j])
            && transaction_doc_read(items@.take(i as int)[j], txs@[j]) by {
            if j < i - 1 {
                assert(items@.take(i as int)[j] == items@.take(i - 1)[j]);
            }
        }
    }
    assert(items@.take(i as int) =~= items@);
    Some(txs)
}

/// The hashes of transactions, in order.
pub open spec fn hashes_of(txs: Seq<RawTransaction>) -> Seq<String> {
    txs.map_values(|t: RawTransaction| t.hash)
}

fn transaction_hashes(txs: &Vec<RawTransaction>) -> (r: Vec<String>)
    ensures
        r@ == hashes_of(txs@),
{
    let mut r: Vec<String> = Vec::new();
    let mut i: usize = 0;
    while i < txs.len()
        invariant
            i <= txs@.len(),
            r@ == hashes_of(txs@.take(i as int)),
        decreases txs.len() - i,
    {
        r.push(txs[i].hash.clone());
        i = i + 1;
        assert(hashes_of(txs@.take(i as int)) =~= hashes_of(txs@.take(i - 1)).push(
            txs@[i - 1].hash,
        ));
    }
    assert(txs@.take(i as int) =~= txs@);
    r
}

/// Whether a document is a block object with every field it needs, its
/// transactions a list of transaction objects that fit.
pub open spec fn block_doc_ok(doc: Json) -> bool {
    &&& doc matches Json::Object(m)
    &&& block_decodes(m@)
    &&& member(m@, "transactions"@) matches Some(Json::Array(items))
    &&& transactions_ok(items@)
}

/// Whether `b` and `txs` are read from a block document, the block keeping the
/// hashes of its transactions.
pub open spec fn block_doc_read(doc: Json, b: RawBlock, txs: Seq<RawTransaction>) -> bool {
    &&& doc matches Json::Object(m)
    &&& block_read(m@, b)
    &&& member(m@, "transactions"@) matches Some(Json::Array(items))
    &&& transactions_read(items@, txs)
    &&& b.transaction_hashes@ == hashes_of(txs)
}

/// Reads a block with its full transactions; `None` where the shape does not fit.
pub fn decode_block(doc: &Json) -> (r: Option<(RawBlock, Vec<RawTransaction>)>)
    ensures
        r is Some <==> block_doc_ok(*doc),
        r matches Some(p) ==> block_doc_read(*doc, p.0, p.1@),
{
    match doc {
        Json::Object(m) => {
            let k = String::from_str("transactions");
            let txs = match find_member(m, &k) {
                Some(i) => match &m[i].1 {
                    Json::Array(items) => decode_transactions(items)?,
                    _ => {
                        return None;
                    },
                },
                None => {
                    return None;
                },
            };
            let base_fee_per_gas = optional_text_field(m, "baseFeePerGas")?;
            let difficulty = text_field(m, "difficulty")?;
            let extra_data = text_field(m, "extraData")?;
            let gas_limit = text_field(m, "gasLimit")?;
            let gas_used = text_field(m, "gasUsed")?;
            let hash = text_field(m, "hash")?;
            let logs_bloom = text_field(m, "logsBloom")?;
            let miner = text_field(m, "miner")?;
            let mix_hash = text_field(m, "mixHash")?;
            let nonce = text_field(m, "nonce")?;
            let number = text_field(m, "number")?;
            let parent_hash = text_field(m, "parentHash")?;
            let receipts_root = text_field(m, "receiptsRoot")?;
            let sha3_uncles = text_field(m, "sha3Uncles")?;
            let size = text_field(m, "size")?;
            let state_root = text_field(m, "stateRoot")?;
            let timestamp = text_field(m, "timestamp")?;
            let total_difficulty = text_field(m, "totalDifficulty")?;
            let transactions_root = text_field(m, "transactionsRoot")?;
            let uncles = text_list_field(m, "uncles")?;
            let transaction_hashes = transaction_hashes(&txs);
            let block = RawBlock {
                base_fee_per_gas,
                difficulty,
                extra_data,
                gas_limit,
                gas_used,
                hash,
                logs_bloom,
                miner,
                mix_hash,
                nonce,
                number,
                parent_hash,
                receipts_root,
                sha3_uncles,
                size,
                state_root,
                timestamp,
                total_difficulty,
                transaction_hashes,
                transactions_root,
                uncles,
            };
            Some((block, txs))
        },
        _ => None,
    }
}

/// Reads a receipt from its document, whose logs it takes over; `None` where
/// the shape does not fit.
pub fn decode_receipt(doc: Json) -> (r: Option<RawReceipt>)
    ensures
        r is Some <==> receipt_doc_ok(doc),
        r matches Some(x) ==> receipt_doc_read(doc, x),
{
    match doc {
        Json::Object(mut members) => {
            let m = &members;
            let block_hash = text_field(m, "blockHash")?;
            let block_number = text_field(m, "blockNumber")?;
            let contract_address = optional_text_field(m, "contractAddress")?;
            let cumulative_gas_used = text_field(m, "cumulativeGasUsed")?;
            let effective_gas_price = text_field(m, "effectiveGasPrice")?;
            let from = text_field(m, "from")?;
            let gas_used = text_field(m, "gasUsed")?;
            let logs_bloom = text_field(m, "logsBloom")?;
            let status = text_field(m, "status")?;
            let to = optional_text_field(m, "to")?;
            let transaction_hash = text_field(m, "transactionHash")?;
            let transaction_index = text_field(m, "transactionIndex")?;
            let tx_type = text_field(m, "type")?;
            let k = String::from_str("logs");
            let i = find_member(&members, &k)?;
            let (_, logs) = members.swap_remove(i);
            match logs {
                Json::Array(logs) => Some(
                    RawReceipt {
                        block_hash,
                        block_number,
                        contract_address,
                        cumulative_gas_used,
                        effective_gas_price,
                        from,
                        gas_used,
                        logs,
                        logs_bloom,
                        status,
                        to,
                        transaction_hash,
                        transaction_index,
                        tx_type,
                    },
                ),
                _ => None,
            }
        },
        _ => None,
    }
}

/// Whether every document is a receipt object with every field it needs.
pub open spec fn receipts_ok(items: Seq<Json>) -> bool {
    forall|i: int| 0 <= i < items.len() ==> receipt_doc_ok(#[trigger] items[i])
}

/// Whether `rs` are read from the documents, one for one.
pub open spec fn receipts_read(items: Seq<Json>, rs: Seq<RawReceipt>) -> bool {
    &&& rs.len() == items.len()
    &&& forall|i: int| 0 <= i < items.len() ==> receipt_doc_read(#[trigger] items[i], rs[i])
}

/// Whether a document is a list of receipt objects that fit.
pub open spec fn receipt_list_ok(doc: Json) -> bool {
    doc matches Json::Array(items) && receipts_ok(items@)
}

/// Reads a block's list of receipts; `None` where the shape does not fit.
pub fn decode_receipts(doc: Json) -> (r: Option<Vec<RawReceipt>>)
    ensures
        r is Some <==> receipt_list_ok(doc),
        r matches Some(rs) ==> (doc matches Json::Array(items) && receipts_read(items@, rs@)),
{
    match doc {
        Json::Array(items) => {
            let ghost docs = items@;
            let mut rs: Vec<RawReceipt> = Vec::new();
            for item in it: items
                invariant
                    it.seq() == docs,
                    doc matches Json::Array(x) && x@ == docs,
                    receipts_ok(docs.take(it.index() as int)),
                    receipts_read(docs.take(it.index() as int), rs@),
            {
                let ghost k = it.index();
                let ghost doc_k = item;
                assert(doc_k == docs[k as int]);
                match decode_receipt(item) {
                    Some(x) => {
                        rs.push(x);
                    },
                    None => {
                        assert(!receipt_doc_ok(docs[k as int]));
                        assert(!receipts_ok(docs));
                        return None;
                    },
                }
                assert forall|j: int| 0 <= j < k + 1 implies receipt_doc_ok(#[trigger] docs.take(k + 1)[j])
                    && receipt_doc_read(docs.take(k + 1)[j], rs@[j]) by {
                    if j < k {
                        assert(docs.take(k + 1)[j] == docs.take(k as int)[j]);
                    }
                }
            }
            assert(docs.take(docs.len() as int) =~= docs);
            Some(rs)
        },
        _ => None,
    }
}

} // verus!
