//! Extraction and normalization of chain blocks and receipts fetched over
//! JSON-RPC: hex decoding, strict records read from loosely typed documents,
//! the per-height state machine of a range backfill, and batched writes.
pub mod batch;
pub mod clock;
pub mod hex;
pub mod json;
pub mod pipeline;
pub mod records;
pub mod rpc;
pub mod wire;
