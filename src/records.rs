//! Block, transaction and receipt records: as the node sends them (hex text),
//! and normalized (decoded integers, flags and block time).
use crate::clock::{block_time, is_block_time, UtcTime, CALENDAR_SPAN_SECS};
use crate::hex::{decode, decode_flag, hex_to_bool, hex_to_u64};
use crate::json::Json;
use vstd::prelude::*;

verus! {

/// A transaction as the node sends it: every numeric field is hex text.
#[derive(Debug)]
pub struct RawTransaction {
    pub block_hash: String,
    pub block_number: String,
    pub chain_id: String,
    pub from: String,
    pub gas: String,
    pub gas_price: String,
    pub hash: String,
    pub input: String,
    pub nonce: String,
    pub r: String,
    pub s: String,
    pub to: Option<String>,
    pub transaction_index: String,
    pub tx_type: String,
    pub v: String,
    pub value: String,
}

/// A block as the node sends it, with its transactions reduced to their hashes.
#[derive(Debug)]
pub struct RawBlock {
    pub base_fee_per_gas: Option<String>,
    pub difficulty: String,
    pub extra_data: String,
    pub gas_limit: String,
    pub gas_used: String,
    pub hash: String,
    pub logs_bloom: String,
    pub miner: String,
    pub mix_hash: String,
    pub nonce: String,
    pub number: String,
    pub parent_hash: String,
    pub receipts_root: String,
    pub sha3_uncles: String,
    pub size: String,
    pub state_root: String,
    pub timestamp: String,
    pub total_difficulty: String,
    pub transaction_hashes: Vec<String>,
    pub transactions_root: String,
    pub uncles: Vec<String>,
}

/// A receipt as the node sends it; its logs stay as loosely typed documents.
#[derive(Debug)]
pub struct RawReceipt {
    pub block_hash: String,
    pub block_number: String,
    pub contract_address: Option<String>,
    pub cumulative_gas_used: String,
    pub effective_gas_price: String,
    pub from: String,
    pub gas_used: String,
    pub logs: Vec<Json>,
    pub logs_bloom: String,
    pub status: String,
    pub to: Option<String>,
    pub transaction_hash: String,
    pub transaction_index: String,
    pub tx_type: String,
}

/// A normalized block.
#[derive(Debug)]
pub struct Block {
    pub base_fee_per_gas: Option<u64>,
    pub difficulty: u64,
    pub extra_data: String,
    pub gas_limit: u64,
    pub gas_used: u64,
    pub hash: String,
    pub logs_bloom: String,
    pub miner: String,
    pub mix_hash: String,
    pub nonce: String,
    pub number: u64,
    pub parent_hash: String,
    pub receipts_root: String,
    pub sha3_uncles: String,
    pub size: u64,
    pub state_root: String,
    pub datetime: UtcTime,
    pub total_difficulty: u64,
    pub transaction_hashes: Vec<String>,
    pub transactions_root: String,
    pub uncles: Vec<String>,
}

/// A normalized transaction, stamped with its block's time.
#[derive(Debug)]
pub struct Transaction {
    pub block_hash: String,
    pub block_number: u64,
    pub chain_id: u64,
    pub from: String,
    pub gas: u64,
    pub gas_price: u64,
    pub hash: String,
    pub input: String,
    pub nonce: u64,
    pub r: String,
    pub s: String,
    pub to: Option<String>,
    pub transaction_index: u64,
    pub tx_type: u64,
    pub v: String,
    pub value: u64,
    pub datetime: UtcTime,
}

/// A normalized receipt, stamped with its block's time.
#[derive(Debug)]
pub struct Receipt {
    pub block_hash: String,
    pub block_number: u64,
    pub contract_address: Option<String>,
    pub cumulative_gas_used: u64,
    pub effective_gas_price: u64,
    pub from: String,
    pub gas_used: u64,
    pub logs: Vec<Json>,
    pub logs_bloom: String,
    pub status: bool,
    pub to: Option<String>,
    pub transaction_hash: String,
    pub transaction_index: u64,
    pub tx_type: u64,
    pub datetime: UtcTime,
}

/// The decoded value of an optional hex field.
pub open spec fn decode_optional(s: Option<String>) -> Option<u64> {
    match s {
        Some(x) => Some(decode(x@)),
        None => None,
    }
}

/// Whether `b` is the normalization of `raw`.
pub open spec fn block_normalized(raw: RawBlock, b: Block) -> bool {
    &&& b.base_fee_per_gas == decode_optional(raw.base_fee_per_gas)
    &&& b.difficulty == decode(raw.difficulty@)
    &&& b.extra_data == raw.extra_data
    &&& b.gas_limit == decode(raw.gas_limit@)
    &&& b.gas_used == decode(raw.gas_used@)
    &&& b.hash == raw.hash
    &&& b.logs_bloom == raw.logs_bloom
    &&& b.miner == raw.miner
    &&& b.mix_hash == raw.mix_hash
    &&& b.nonce == raw.nonce
    &&& b.number == decode(raw.number@)
    &&& b.parent_hash == raw.parent_hash
    &&& b.receipts_root == raw.receipts_root
    &&& b.sha3_uncles == raw.sha3_uncles
    &&& b.size == decode(raw.size@)
    &&& b.state_root == raw.state_root
    &&& is_block_time(decode(raw.timestamp@), b.datetime)
    &&& b.total_difficulty == decode(raw.total_difficulty@)
    &&& b.transaction_hashes@ == raw.transaction_hashes@
    &&& b.transactions_root == raw.transactions_root
    &&& b.uncles@ == raw.uncles@
}

/// Whether `t` is the normalization of `raw`, stamped with `time`.
pub open spec fn transaction_normalized(
    raw: RawTransaction,
    time: UtcTime,
    t: Transaction,
) -> bool {
    &&& t.block_hash == raw.block_hash
    &&& t.block_number == decode(raw.block_number@)
    &&& t.chain_id == decode(raw.chain_id@)
    &&& t.from == raw.from
    &&& t.gas == decode(raw.gas@)
    &&& t.gas_price == decode(raw.gas_price@)
    &&& t.hash == raw.hash
    &&& t.input == raw.input
    &&& t.nonce == decode(raw.nonce@)
    &&& t.r == raw.r
    &&& t.s == raw.s
    &&& t.to == raw.to
    &&& t.transaction_index == decode(raw.transaction_index@)
    &&& t.tx_type == decode(raw.tx_type@)
    &&& t.v == raw.v
    &&& t.value == decode(raw.value@)
    &&& t.datetime == time
}

/// Whether `r` is the normalization of `raw`, stamped with `time`.
pub open spec fn receipt_normalized(raw: RawReceipt, time: UtcTime, r: Receipt) -> bool {
    &&& r.block_hash == raw.block_hash
    &&& r.block_number == decode(raw.block_number@)
    &&& r.contract_address == raw.contract_address
    &&& r.cumulative_gas_used == decode(raw.cumulative_gas_used@)
    &&& r.effective_gas_price == decode(raw.effective_gas_price@)
    &&& r.from == raw.from
    &&& r.gas_used == decode(raw.gas_used@)
    &&& r.logs@ == raw.logs@
    &&& r.logs_bloom == raw.logs_bloom
    &&& r.status == decode_flag(raw.status@)
    &&& r.to == raw.to
    &&& r.transaction_hash == raw.transaction_hash
    &&& r.transaction_index == decode(raw.transaction_index@)
    &&& r.tx_type == decode(raw.tx_type@)
    &&& r.datetime == time
}

fn decode_optional_field(s: &Option<String>) -> (r: Option<u64>)
    ensures
        r == decode_optional(*s),
{
    match s {
        Some(x) => Some(hex_to_u64(x.as_str())),
        None => None,
    }
}

/// Normalizes a block: decodes its numeric fields and reads its time once.
pub fn normalize_block(raw: RawBlock) -> (b: Block)
    ensures
        block_normalized(raw, b),
{
    let ts = hex_to_u64(raw.timestamp.as_str());
    let datetime = block_time(ts);
    let base_fee_per_gas = decode_optional_field(&raw.base_fee_per_gas);
    let difficulty = hex_to_u64(raw.difficulty.as_str());
    let gas_limit = hex_to_u64(raw.gas_limit.as_str());
    let gas_used = hex_to_u64(raw.gas_used.as_str());
    let number = hex_to_u64(raw.number.as_str());
    let size = hex_to_u64(raw.size.as_str());
    let total_difficulty = hex_to_u64(raw.total_difficulty.as_str());
    Block {
        base_fee_per_gas,
        difficulty,
        extra_data: raw.extra_data,
        gas_limit,
        gas_used,
        hash: raw.hash,
        logs_bloom: raw.logs_bloom,
        miner: raw.miner,
        mix_hash: raw.mix_hash,
        nonce: raw.nonce,
        number,
        parent_hash: raw.parent_hash,
        receipts_root: raw.receipts_root,
        sha3_uncles: raw.sha3_uncles,
        size,
        state_root: raw.state_root,
        datetime,
        total_difficulty,
        transaction_hashes: raw.transaction_hashes,
        transactions_root: raw.transactions_root,
        uncles: raw.uncles,
    }
}

/// Normalizes a transaction and stamps it with its block's time.
pub fn normalize_transaction(raw: RawTransaction, time: UtcTime) -> (t: Transaction)
    ensures
        transaction_normalized(raw, time, t),
{
    let block_number = hex_to_u64(raw.block_number.as_str());
    let chain_id = hex_to_u64(raw.chain_id.as_str());
    let gas = hex_to_u64(raw.gas.as_str());
    let gas_price = hex_to_u64(raw.gas_price.as_str());
    let nonce = hex_to_u64(raw.nonce.as_str());
    let transaction_index = hex_to_u64(raw.transaction_index.as_str());
    let tx_type = hex_to_u64(raw.tx_type.as_str());
    let value = hex_to_u64(raw.value.as_str());
    Transaction {
        block_hash: raw.block_hash,
        block_number,
        chain_id,
        from: raw.from,
        gas,
        gas_price,
        hash: raw.hash,
        input: raw.input,
        nonce,
        r: raw.r,
        s: raw.s,
        to: raw.to,
        transaction_index,
        tx_type,
        v: raw.v,
        value,
        datetime: time,
    }
}

/// Normalizes a receipt and stamps it with its block's time.
pub fn normalize_receipt(raw: RawReceipt, time: UtcTime) -> (r: Receipt)
    ensures
        receipt_normalized(raw, time, r),
{
    let block_number = hex_to_u64(raw.block_number.as_str());
    let cumulative_gas_used = hex_to_u64(raw.cumulative_gas_used.as_str());
    let effective_gas_price = hex_to_u64(raw.effective_gas_price.as_str());
    let gas_used = hex_to_u64(raw.gas_used.as_str());
    let status = hex_to_bool(raw.status.as_str());
    let transaction_index = hex_to_u64(raw.transaction_index.as_str());
    let tx_type = hex_to_u64(raw.tx_type.as_str());
    Receipt {
        block_hash: raw.block_hash,
        block_number,
        contract_address: raw.contract_address,
        cumulative_gas_used,
        effective_gas_price,
        from: raw.from,
        gas_used,
        logs: raw.logs,
        logs_bloom: raw.logs_bloom,
        status,
        to: raw.to,
        transaction_hash: raw.transaction_hash,
        transaction_index,
        tx_type,
        datetime: time,
    }
}

/// Everything normalized from one block height.
#[derive(Debug)]
pub struct NormalizedHeight {
    pub block: Block,
    pub transactions: Vec<Transaction>,
    pub receipts: Vec<Receipt>,
}

/// Whether `h` is the normalization of a block, its transactions and its
/// receipts, every record stamped with the block's time.
pub open spec fn height_normalized(
    block: RawBlock,
    txs: Seq<RawTransaction>,
    receipts: Seq<RawReceipt>,
    h: NormalizedHeight,
) -> bool {
    &&& block_normalized(block, h.block)
    &&& h.transactions@.len() == txs.len()
    &&& forall|i: int|
        0 <= i < txs.len() ==> transaction_normalized(
            #[trigger] txs[i],
            h.block.datetime,
            h.transactions@[i],
        )
    &&& h.receipts@.len() == receipts.len()
    &&& forall|i: int|
        0 <= i < receipts.len() ==> receipt_normalized(
            #[trigger] receipts[i],
            h.block.datetime,
            h.receipts@[i],
        )
}

/// Normalizes the records of one height. The block's time is read once and
/// copied onto every transaction and receipt.
pub fn normalize_height(block: RawBlock, txs: Vec<RawTransaction>, receipts: Vec<RawReceipt>) -> (h:
    NormalizedHeight)
    ensures
        height_normalized(block, txs@, receipts@, h),
{
    let ghost raw_txs = txs@;
    let ghost raw_receipts = receipts@;
    let block = normalize_block(block);
    let time = block.datetime;
    let mut transactions: Vec<Transaction> = Vec::new();
    for raw in it: txs
        invariant
            it.seq() == raw_txs,
            transactions@.len() == it.index(),
            forall|i: int|
                0 <= i < it.index() ==> transaction_normalized(
                    #[trigger] raw_txs[i],
                    time,
                    transactions@[i],
                ),
    {
        transactions.push(normalize_transaction(raw, time));
    }
    let mut normalized: Vec<Receipt> = Vec::new();
    for raw in it: receipts
        invariant
            it.seq() == raw_receipts,
            normalized@.len() == it.index(),
            forall|i: int|
                0 <= i < it.index() ==> receipt_normalized(
                    #[trigger] raw_receipts[i],
                    time,
                    normalized@[i],
                ),
    {
        normalized.push(normalize_receipt(raw, time));
    }
    NormalizedHeight { block, transactions, receipts: normalized }
}

/// Every transaction and receipt normalized from a block carries exactly the
/// block's time.
pub proof fn law_shared_block_time(
    block: RawBlock,
    txs: Seq<RawTransaction>,
    receipts: Seq<RawReceipt>,
    h: NormalizedHeight,
)
    requires
        height_normalized(block, txs, receipts, h),
    ensures
        forall|i: int|
            0 <= i < h.transactions@.len() ==> #[trigger] h.transactions@[i].datetime
                == h.block.datetime,
        forall|i: int|
            0 <= i < h.receipts@.len() ==> #[trigger] h.receipts@[i].datetime == h.block.datetime,
{
    assert forall|i: int| 0 <= i < h.transactions@.len() implies #[trigger] h.transactions@[i].datetime
        == h.block.datetime by {
        assert(transaction_normalized(txs[i], h.block.datetime, h.transactions@[i]));
    }
    assert forall|i: int| 0 <= i < h.receipts@.len() implies #[trigger] h.receipts@[i].datetime
        == h.block.datetime by {
        assert(receipt_normalized(receipts[i], h.block.datetime, h.receipts@[i]));
    }
}

/// Whether two blocks hold the same row.
pub open spec fn same_block_row(a: Block, b: Block) -> bool {
    &&& a.base_fee_per_gas == b.base_fee_per_gas
    &&& a.difficulty == b.difficulty
    &&& a.extra_data == b.extra_data
    &&& a.gas_limit == b.gas_limit
    &&& a.gas_used == b.gas_used
    &&& a.hash == b.hash
    &&& a.logs_bloom == b.logs_bloom
    &&& a.miner == b.miner
    &&& a.mix_hash == b.mix_hash
    &&& a.nonce == b.nonce
    &&& a.number == b.number
    &&& a.parent_hash == b.parent_hash
    &&& a.receipts_root == b.receipts_root
    &&& a.sha3_uncles == b.sha3_uncles
    &&& a.size == b.size
    &&& a.state_root == b.state_root
    &&& a.datetime == b.datetime
    &&& a.total_difficulty == b.total_difficulty
    &&& a.transaction_hashes@ == b.transaction_hashes@
    &&& a.transactions_root == b.transactions_root
    &&& a.uncles@ == b.uncles@
}

/// Whether two transactions hold the same row.
pub open spec fn same_transaction_row(a: Transaction, b: Transaction) -> bool {
    &&& a.block_hash == b.block_hash
    &&& a.block_number == b.block_number
    &&& a.chain_id == b.chain_id
    &&& a.from == b.from
    &&& a.gas == b.gas
    &&& a.gas_price == b.gas_price
    &&& a.hash == b.hash
    &&& a.input == b.input
    &&& a.nonce == b.nonce
    &&& a.r == b.r
    &&& a.s == b.s
    &&& a.to == b.to
    &&& a.transaction_index == b.transaction_index
    &&& a.tx_type == b.tx_type
    &&& a.v == b.v
    &&& a.value == b.value
    &&& a.datetime == b.datetime
}

/// Whether two receipts hold the same row.
pub open spec fn same_receipt_row(a: Receipt, b: Receipt) -> bool {
    &&& a.block_hash == b.block_hash
    &&& a.block_number == b.block_number
    &&& a.contract_address == b.contract_address
    &&& a.cumulative_gas_used == b.cumulative_gas_used
    &&& a.effective_gas_price == b.effective_gas_price
    &&& a.from == b.from
    &&& a.gas_used == b.gas_used
    &&& a.logs@ == b.logs@
    &&& a.logs_bloom == b.logs_bloom
    &&& a.status == b.status
    &&& a.to == b.to
    &&& a.transaction_hash == b.transaction_hash
    &&& a.transaction_index == b.transaction_index
    &&& a.tx_type == b.tx_type
    &&& a.datetime == b.datetime
}

/// Normalizing the same records again gives the same rows, wherever the
/// block's time lies within the calendar span or beyond `i64`.
pub proof fn law_rows_repeatable(
    block: RawBlock,
    txs: Seq<RawTransaction>,
    receipts: Seq<RawReceipt>,
    h1: NormalizedHeight,
    h2: NormalizedHeight,
)
    requires
        height_normalized(block, txs, receipts, h1),
        height_normalized(block, txs, receipts, h2),
        decode(block.timestamp@) <= CALENDAR_SPAN_SECS || decode(block.timestamp@) > i64::MAX,
    ensures
        same_block_row(h1.block, h2.block),
        h1.transactions@.len() == h2.transactions@.len(),
        forall|i: int|
            0 <= i < h1.transactions@.len() ==> same_transaction_row(
                #[trigger] h1.transactions@[i],
                h2.transactions@[i],
            ),
        h1.receipts@.len() == h2.receipts@.len(),
        forall|i: int|
            0 <= i < h1.receipts@.len() ==> same_receipt_row(
                #[trigger] h1.receipts@[i],
                h2.receipts@[i],
            ),
{
    assert forall|i: int| 0 <= i < h1.transactions@.len() implies same_transaction_row(
        #[trigger] h1.transactions@[i],
        h2.transactions@[i],
    ) by {
        assert(transaction_normalized(txs[i], h1.block.datetime, h1.transactions@[i]));
        assert(transaction_normalized(txs[i], h2.block.datetime, h2.transactions@[i]));
    }
    assert forall|i: int| 0 <= i < h1.receipts@.len() implies same_receipt_row(
        #[trigger] h1.receipts@[i],
        h2.receipts@[i],
    ) by {
        assert(receipt_normalized(receipts[i], h1.block.datetime, h1.receipts@[i]));
        assert(receipt_normalized(receipts[i], h2.block.datetime, h2.receipts@[i]));
    }
}

} // verus!
