//! JSON-RPC requests for a block height, and reading the node's responses.
use crate::hex::{encode, hex_quantity};
use crate::json::{find_member, lemma_member_at, member, Json};
use crate::records::{RawBlock, RawReceipt, RawTransaction};
use crate::wire::{
    block_doc_ok, block_doc_read, decode_block, decode_receipts, receipt_list_ok, receipts_read,
};
use vstd::prelude::*;

verus! {

/// Why fetching a height's data failed.
#[derive(Clone, Copy, Debug, PartialEq, Eq, Structural)]
pub enum FetchError {
    /// The node could not be reached, or the call did not complete.
    Transport,
    /// The response lacks a result, or the result does not have the expected shape.
    Protocol,
}

/// Whether `j` is the string `text`.
pub open spec fn is_text(j: Option<Json>, text: Seq<char>) -> bool {
    j matches Some(Json::Text(v)) && v@ == text
}

/// Whether `r` is a JSON-RPC 2.0 call object of `method`, with request id 1,
/// whose `params` member is `params`.
pub open spec fn is_call(r: Json, method: Seq<char>, params: Option<Json>) -> bool {
    &&& r matches Json::Object(m)
    &&& m@.len() == 4
    &&& is_text(member(m@, "jsonrpc"@), "2.0"@)
    &&& member(m@, "id"@) matches Some(Json::Number(n))
    &&& n@ == "1"@
    &&& is_text(member(m@, "method"@), method)
    &&& member(m@, "params"@) == params
}

/// Whether `r` is a call of `method` whose first parameter is the hex quantity
/// of `height`, followed by `extra` where it is given.
pub open spec fn is_request(r: Json, method: Seq<char>, height: u64, extra: Option<Json>) -> bool {
    &&& r matches Json::Object(m)
    &&& is_call(r, method, member(m@, "params"@))
    &&& member(m@, "params"@) matches Some(Json::Array(p))
    &&& p@.len() >= 1
    &&& is_text(Some(p@[0]), encode(height))
    &&& match extra {
        Some(e) => p@.len() == 2 && p@[1] == e,
        None => p@.len() == 1,
    }
}

fn request(method: &str, params: Vec<Json>) -> (r: Json)
    ensures
        is_call(r, method@, Some(Json::Array(params))),
{
    let members = vec![
        (String::from_str("jsonrpc"), Json::Text(String::from_str("2.0"))),
        (String::from_str("id"), Json::Number(String::from_str("1"))),
        (String::from_str("method"), Json::Text(String::from_str(method))),
        (String::from_str("params"), Json::Array(params)),
    ];
    proof {
        reveal_strlit("jsonrpc");
        reveal_strlit("id");
        reveal_strlit("method");
        reveal_strlit("params");
    }
    let ghost m = members@;
    proof {
        assert("jsonrpc"@.len() == 7 && "id"@.len() == 2 && "method"@.len() == 6);
        assert("method"@[0] != "params"@[0]);
        lemma_member_at(m, "jsonrpc"@, 0);
        lemma_member_at(m, "id"@, 1);
        lemma_member_at(m, "method"@, 2);
        lemma_member_at(m, "params"@, 3);
    }
    Json::Object(members)
}

/// The call that fetches the block at `height` with its full transactions.
pub fn block_request(height: u64) -> (r: Json)
    ensures
        is_request(r, "eth_getBlockByNumber"@, height, Some(Json::Bool(true))),
{
    let params = vec![Json::Text(hex_quantity(height)), Json::Bool(true)];
    request("eth_getBlockByNumber", params)
}

/// The call that fetches the receipts of the block at `height`.
pub fn receipts_request(height: u64) -> (r: Json)
    ensures
        is_request(r, "eth_getBlockReceipts"@, height, None),
{
    let params = vec![Json::Text(hex_quantity(height))];
    request("eth_getBlockReceipts", params)
}

/// The `result` member of a response, where the response is an object that has one.
pub open spec fn result_member(response: Json) -> Option<Json> {
    match response {
        Json::Object(m) => member(m@, "result"@),
        _ => None,
    }
}

/// Takes the `result` member out of a response.
pub fn take_result(response: Json) -> (r: Result<Json, FetchError>)
    ensures
        match result_member(response) {
            Some(v) => r == Ok::<Json, FetchError>(v),
            None => r == Err::<Json, FetchError>(FetchError::Protocol),
        },
{
    match response {
        Json::Object(mut members) => {
            let k = String::from_str("result");
            match find_member(&members, &k) {
                Some(i) => {
                    let (_, v) = members.swap_remove(i);
                    Ok(v)
                },
                None => Err(FetchError::Protocol),
            }
        },
        _ => Err(FetchError::Protocol),
    }
}

/// Reads the block and its transactions from a block response.
pub fn block_from_response(response: Json) -> (r: Result<
    (RawBlock, Vec<RawTransaction>),
    FetchError,
>)
    ensures
        r is Ok <==> (result_member(response) matches Some(doc) && block_doc_ok(doc)),
        r matches Ok(p) ==> (result_member(response) matches Some(doc) && block_doc_read(
            doc,
            p.0,
            p.1@,
        )),
        r matches Err(e) ==> e == FetchError::Protocol,
{
    let doc = take_result(response)?;
    match decode_block(&doc) {
        Some(p) => Ok(p),
        None => Err(FetchError::Protocol),
    }
}

/// Reads the receipts from a block-receipts response.
pub fn receipts_from_response(response: Json) -> (r: Result<Vec<RawReceipt>, FetchError>)
    ensures
        r is Ok <==> (result_member(response) matches Some(doc) && receipt_list_ok(doc)),
        r matches Ok(rs) ==> (result_member(response) matches Some(Json::Array(items))
            && receipts_read(items@, rs@)),
        r matches Err(e) ==> e == FetchError::Protocol,
{
    let doc = take_result(response)?;
    match decode_receipts(doc) {
        Some(rs) => Ok(rs),
        None => Err(FetchError::Protocol),
    }
}

} // verus!
