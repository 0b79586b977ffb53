//! Signing requests and the records made from them.

pub mod sqs;

use crate::json::{json_model, value_as_i64, value_as_str, value_get, value_is_null, Json};
use crate::text::{clone_text, text_of};
use crate::transactions::{InsertTransactionInput, InsertTransactionInputView, TxStatus, TxType};
use vstd::prelude::*;

verus! {

/// One admitted unit of work: call data to be signed for a sender.
#[derive(Debug, PartialEq, Eq)]
pub struct SignTxRequest {
    pub calldata: String,
    pub chain_id: i32,
    pub tx_id: String,
    pub sender_id: String,
    pub tx_type: TxType,
    pub blob_file_path: Option<String>,
}

/// The mathematical content of a [`SignTxRequest`].
pub struct SignTxRequestView {
    pub calldata: Seq<char>,
    pub chain_id: i32,
    pub tx_id: Seq<char>,
    pub sender_id: Seq<char>,
    pub tx_type: TxType,
    pub blob_file_path: Option<Seq<char>>,
}

impl View for SignTxRequest {
    type V = SignTxRequestView;

    open spec fn view(&self) -> SignTxRequestView {
        SignTxRequestView {
            calldata: self.calldata@,
            chain_id: self.chain_id,
            tx_id: self.tx_id@,
            sender_id: self.sender_id@,
            tx_type: self.tx_type,
            blob_file_path: text_of(self.blob_file_path),
        }
    }
}

impl Clone for SignTxRequest {
    fn clone(&self) -> (copy: Self)
        ensures
            copy@ == self@,
    {
        SignTxRequest {
            calldata: self.calldata.clone(),
            chain_id: self.chain_id,
            tx_id: self.tx_id.clone(),
            sender_id: self.sender_id.clone(),
            tx_type: self.tx_type,
            blob_file_path: clone_text(&self.blob_file_path),
        }
    }
}

impl SignTxRequestView {
    /// A blob transaction names the file that holds its blob.
    pub open spec fn admissible(self) -> bool {
        self.tx_type == TxType::BLOB ==> self.blob_file_path is Some
    }

    /// The record to store once the request's call data has been signed.
    pub open spec fn signed(self, signature: Seq<char>) -> InsertTransactionInputView {
        InsertTransactionInputView {
            tx_id: self.tx_id,
            sender_id: self.sender_id,
            tx_type: self.tx_type,
            tx_status: TxStatus::SIGNED,
            calldata: self.calldata,
            chain_id: self.chain_id,
            signature,
            blob_file_path: self.blob_file_path,
        }
    }
}

/// The views of a sequence of requests.
pub open spec fn views(requests: Seq<SignTxRequest>) -> Seq<SignTxRequestView> {
    Seq::new(requests.len(), |i: int| requests[i]@)
}

/// The string that the object `json` holds under `key`.
pub open spec fn string_member(json: Json, key: Seq<char>) -> Option<Seq<char>> {
    match json.member(key) {
        Some(member) => member.as_string(),
        None => None,
    }
}

/// The chain that the object `json` names: an integer of 32 bits under `chain_id`.
pub open spec fn chain_id_member(json: Json) -> Option<i32> {
    match json.member("chain_id"@) {
        Some(member) => match member.as_i64() {
            Some(number) => if i32::MIN <= number <= i32::MAX {
                Some(number as i32)
            } else {
                None
            },
            None => None,
        },
        None => None,
    }
}

/// The kind of transaction that the object `json` names under `tx_type`.
pub open spec fn tx_type_member(json: Json) -> Option<TxType> {
    match string_member(json, "tx_type"@) {
        Some(name) => TxType::named(name),
        None => None,
    }
}

/// The blob file that the object `json` names under `blob_file_path`: a missing member or a
/// null is no file, a string is the file, anything else is an error (the outer `None`).
pub open spec fn blob_file_path_member(json: Json) -> Option<Option<Seq<char>>> {
    match json.member("blob_file_path"@) {
        None => Some(None),
        Some(member) => if member is Null {
            Some(None)
        } else {
            match member.as_string() {
                Some(path) => Some(Some(path)),
                None => None,
            }
        },
    }
}

/// The request that a JSON document describes: an object with the strings `calldata`, `tx_id`
/// and `sender_id`, the integer `chain_id`, the `tx_type` `STANDARD` or `BLOB`, and optionally
/// the string `blob_file_path`. Other members are ignored.
pub open spec fn request_of_json(json: Json) -> Option<SignTxRequestView> {
    if string_member(json, "calldata"@) is Some && chain_id_member(json) is Some && string_member(
        json,
        "tx_id"@,
    ) is Some && string_member(json, "sender_id"@) is Some && tx_type_member(json) is Some
        && blob_file_path_member(json) is Some {
        Some(
            SignTxRequestView {
                calldata: string_member(json, "calldata"@).unwrap(),
                chain_id: chain_id_member(json).unwrap(),
                tx_id: string_member(json, "tx_id"@).unwrap(),
                sender_id: string_member(json, "sender_id"@).unwrap(),
                tx_type: tx_type_member(json).unwrap(),
                blob_file_path: blob_file_path_member(json).unwrap(),
            },
        )
    } else {
        None
    }
}

/// Reads the string that `value` holds under `key`.
fn read_string(value: &serde_json::Value, key: &str) -> (text: Option<String>)
    ensures
        text_of(text) == string_member(json_model(*value), key@),
{
    match value_get(value, key) {
        Some(member) => match value_as_str(member) {
            Some(s) => Some(s.to_owned()),
            None => None,
        },
        None => None,
    }
}

/// Reads the chain that `value` names.
fn read_chain_id(value: &serde_json::Value) -> (chain_id: Option<i32>)
    ensures
        chain_id == chain_id_member(json_model(*value)),
{
    match value_get(value, "chain_id") {
        Some(member) => match value_as_i64(member) {
            Some(number) => if -0x8000_0000 <= number && number <= 0x7fff_ffff {
                Some(number as i32)
            } else {
                None
            },
            None => None,
        },
        None => None,
    }
}

/// Reads the kind of transaction that `value` names.
fn read_tx_type(value: &serde_json::Value) -> (tx_type: Option<TxType>)
    ensures
        tx_type == tx_type_member(json_model(*value)),
{
    match value_get(value, "tx_type") {
        Some(member) => match value_as_str(member) {
            Some(name) => TxType::from_name(name),
            None => None,
        },
        None => None,
    }
}

/// Reads the blob file that `value` names, if any.
fn read_blob_file_path(value: &serde_json::Value) -> (path: Option<Option<String>>)
    ensures
        match path {
            Some(found) => blob_file_path_member(json_model(*value)) == Some(text_of(found)),
            None => blob_file_path_member(json_model(*value)) is None,
        },
{
    match value_get(value, "blob_file_path") {
        None => Some(None),
        Some(member) => if value_is_null(member) {
            Some(None)
        } else {
            match value_as_str(member) {
                Some(s) => Some(Some(s.to_owned())),
                None => None,
            }
        },
    }
}

impl SignTxRequest {
    /// Builds the record to store for this request once its call data has been signed.
    pub fn into_db_transaction(&self, signature: String) -> (record: InsertTransactionInput)
        ensures
            record@ == self@.signed(signature@),
    {
        InsertTransactionInput {
            calldata: self.calldata.clone(),
            chain_id: self.chain_id,
            tx_id: self.tx_id.clone(),
            sender_id: self.sender_id.clone(),
            tx_type: self.tx_type,
            blob_file_path: clone_text(&self.blob_file_path),
            signature,
            tx_status: TxStatus::SIGNED,
        }
    }

    /// Reads a request from a parsed JSON document.
    pub fn from_json(value: &serde_json::Value) -> (request: Option<SignTxRequest>)
        ensures
            match request {
                Some(found) => request_of_json(json_model(*value)) == Some(found@),
                None => request_of_json(json_model(*value)) is None,
            },
    {
        let calldata = match read_string(value, "calldata") {
            Some(text) => text,
            None => {
                return None;
            },
        };
        let chain_id = match read_chain_id(value) {
            Some(number) => number,
            None => {
                return None;
            },
        };
        let tx_id = match read_string(value, "tx_id") {
            Some(text) => text,
            None => {
                return None;
            },
        };
        let sender_id = match read_string(value, "sender_id") {
            Some(text) => text,
            None => {
                return None;
            },
        };
        let tx_type = match read_tx_type(value) {
            Some(kind) => kind,
            None => {
                return None;
            },
        };
        let blob_file_path = match read_blob_file_path(value) {
            Some(path) => path,
            None => {
                return None;
            },
        };
        Some(SignTxRequest { calldata, chain_id, tx_id, sender_id, tx_type, blob_file_path })
    }
}

} // verus!
