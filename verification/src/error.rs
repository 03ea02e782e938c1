//! The errors of the client, each with the message text that callers see.
use vstd::prelude::*;
use crate::text::{decimal, decimal_chars, has_substring, push_str, str_contains, string_of};

verus! {

/// Largest blob payload accepted by the PoDA endpoint (2 MiB).
pub const MAX_BLOB_SIZE: usize = 2097152;

/// Largest number of blob ids that one existence check may ask about.
pub const MAX_BLOB_EXISTENCE_BATCH: usize = 32;

/// Why a client operation failed.
#[derive(Debug)]
pub enum ClientError {
    /// A failure reported with its own text (transport errors, mock replies).
    Message(String),
    /// The node answered a JSON-RPC request with a non-success HTTP status.
    HttpStatus { status: String, body: String },
    /// A PoDA GET request got a non-success HTTP status.
    HttpGetStatus(String),
    /// A PoDA POST request got a non-success HTTP status.
    HttpPostStatus(String),
    /// A body was not valid JSON of the expected shape; the parser's text.
    InvalidJson(String),
    /// The JSON-RPC envelope carried an error member; its compact JSON text.
    Rpc(String),
    /// The JSON-RPC envelope carried neither an error nor a result.
    MissingResult,
    /// A batch response member had no integer id.
    MissingBatchId,
    /// A batch response id does not fit a `usize`.
    BatchIdOutOfRange,
    /// A batch response id names no request of the batch.
    UnexpectedBatchId(u64),
    /// No batch response member answered the request at this position.
    MissingBatchResponse(usize),
    /// The balance reply was not a number.
    InvalidBalance,
    /// A fee amount was neither a number nor numeric text.
    InvalidAmount,
    /// No positive fee rate could be found.
    NoBaseFee,
    /// The blob payload exceeds `MAX_BLOB_SIZE`; its length.
    BlobTooLarge(usize),
    /// The blob creation reply had no `versionhash` text.
    MissingVersionHash,
    /// The new-address reply was not text.
    NonStringAddress,
    /// The blob data reply had no `data` text.
    MissingBlobData,
    /// The blob data was not valid hex; the decoder's text.
    InvalidHex(String),
    /// More than `MAX_BLOB_EXISTENCE_BATCH` ids were asked about; their number.
    TooManyBlobs(usize),
    /// The existence check gave no answer for the single id asked about.
    MissingExistenceResult,
    /// A `check_vh` reply list has the wrong length.
    CheckVhLengthMismatch { expected: usize, got: usize },
    /// A `check_vh` reply object has no member for this version hash.
    MissingCheckVhResult(String),
    /// The block count reply was not a non-negative integer.
    NonU64BlockCount,
}

/// The message text of an error.
pub open spec fn error_message(e: ClientError) -> Seq<char> {
    match e {
        ClientError::Message(m) => m@,
        ClientError::HttpStatus { status, body } => "HTTP error: "@ + status@ + " returned body: "@
            + body@,
        ClientError::HttpGetStatus(status) => "HTTP GET error: "@ + status@,
        ClientError::HttpPostStatus(status) => "HTTP POST error: "@ + status@,
        ClientError::InvalidJson(m) => m@,
        ClientError::Rpc(text) => "RPC error: "@ + text@,
        ClientError::MissingResult => "missing result in JSON-RPC response"@,
        ClientError::MissingBatchId => "missing id in JSON-RPC batch response"@,
        ClientError::BatchIdOutOfRange => "out of range integral type conversion attempted"@,
        ClientError::UnexpectedBatchId(id) => "unexpected id "@ + decimal(id as nat)
            + " in JSON-RPC batch response"@,
        ClientError::MissingBatchResponse(id) => "missing response for batch id "@ + decimal(
            id as nat,
        ),
        ClientError::InvalidBalance => "Invalid balance format"@,
        ClientError::InvalidAmount => "Invalid amount format"@,
        ClientError::NoBaseFee => "Failed to determine Syscoin blob base fee"@,
        ClientError::BlobTooLarge(n) => "blob size ("@ + decimal(n as nat)
            + ") exceeds maximum allowed (2097152)"@,
        ClientError::MissingVersionHash => "Missing versionhash"@,
        ClientError::NonStringAddress => "getnewaddress returned non-string"@,
        ClientError::MissingBlobData => "Missing data in getnevmblobdata response"@,
        ClientError::InvalidHex(m) => m@,
        ClientError::TooManyBlobs(n) => "blob existence batch exceeds maximum of 32: got "@
            + decimal(n as nat),
        ClientError::MissingExistenceResult => "missing blob existence result"@,
        ClientError::CheckVhLengthMismatch { expected, got } =>
            "check_vh batch response length mismatch: expected "@ + decimal(expected as nat)
            + ", got "@ + decimal(got as nat),
        ClientError::MissingCheckVhResult(hash) => "missing check_vh result for version hash "@
            + hash@,
        ClientError::NonU64BlockCount => "getblockcount returned non-u64 result"@,
    }
}

/// The node's way of saying that it does not know a blob: its message names
/// the missing version hash or carries JSON-RPC error code -32602.
pub open spec fn is_blob_not_found(e: ClientError) -> bool {
    has_substring(error_message(e), "Could not find blob information for versionhash"@)
        || has_substring(error_message(e), "\"code\":-32602"@)
}

/// The node's way of saying that no address carries a label (code -11).
pub open spec fn is_no_address_for_label(e: ClientError) -> bool {
    has_substring(error_message(e), "\"code\":-11"@)
}

/// The node could not load a wallet (it does not exist yet).
pub open spec fn is_wallet_load_failure(e: ClientError) -> bool {
    has_substring(error_message(e), "failed"@)
}

/// The node already has the wallet loaded.
pub open spec fn is_wallet_already_loaded(e: ClientError) -> bool {
    has_substring(error_message(e), "already loaded"@)
}

fn cat2(a: &str, b: &str) -> (res: String)
    ensures
        res@ == a@ + b@,
{
    let mut v: Vec<char> = Vec::new();
    push_str(&mut v, a);
    push_str(&mut v, b);
    assert(v@ =~= a@ + b@);
    string_of(v.as_slice())
}

fn cat_num(a: &str, n: u64, b: &str) -> (res: String)
    ensures
        res@ == a@ + decimal(n as nat) + b@,
{
    let mut v: Vec<char> = Vec::new();
    push_str(&mut v, a);
    let mut d = decimal_chars(n);
    v.append(&mut d);
    push_str(&mut v, b);
    string_of(v.as_slice())
}

fn text_then_num(a: &str, n: u64) -> (res: String)
    ensures
        res@ == a@ + decimal(n as nat),
{
    let mut v: Vec<char> = Vec::new();
    push_str(&mut v, a);
    let mut d = decimal_chars(n);
    v.append(&mut d);
    string_of(v.as_slice())
}

impl ClientError {
    /// The message text of the error.
    pub fn message(&self) -> (res: String)
        ensures
            res@ == error_message(*self),
    {
        match self {
            ClientError::Message(m) => m.clone(),
            ClientError::HttpStatus { status, body } => {
                let mut v: Vec<char> = Vec::new();
                push_str(&mut v, "HTTP error: ");
                push_str(&mut v, status.as_str());
                push_str(&mut v, " returned body: ");
                push_str(&mut v, body.as_str());
                string_of(v.as_slice())
            },
            ClientError::HttpGetStatus(status) => cat2("HTTP GET error: ", status.as_str()),
            ClientError::HttpPostStatus(status) => cat2("HTTP POST error: ", status.as_str()),
            ClientError::InvalidJson(m) => m.clone(),
            ClientError::Rpc(text) => cat2("RPC error: ", text.as_str()),
            ClientError::MissingResult => String::from_str("missing result in JSON-RPC response"),
            ClientError::MissingBatchId => String::from_str(
                "missing id in JSON-RPC batch response",
            ),
            ClientError::BatchIdOutOfRange => String::from_str(
                "out of range integral type conversion attempted",
            ),
            ClientError::UnexpectedBatchId(id) => cat_num(
                "unexpected id ",
                *id,
                " in JSON-RPC batch response",
            ),
            ClientError::MissingBatchResponse(id) => text_then_num(
                "missing response for batch id ",
                *id as u64,
            ),
            ClientError::InvalidBalance => String::from_str("Invalid balance format"),
            ClientError::InvalidAmount => String::from_str("Invalid amount format"),
            ClientError::NoBaseFee => String::from_str("Failed to determine Syscoin blob base fee"),
            ClientError::BlobTooLarge(n) => cat_num(
                "blob size (",
                *n as u64,
                ") exceeds maximum allowed (2097152)",
            ),
            ClientError::MissingVersionHash => String::from_str("Missing versionhash"),
            ClientError::NonStringAddress => String::from_str("getnewaddress returned non-string"),
            ClientError::MissingBlobData => String::from_str(
                "Missing data in getnevmblobdata response",
            ),
            ClientError::InvalidHex(m) => m.clone(),
            ClientError::TooManyBlobs(n) => text_then_num(
                "blob existence batch exceeds maximum of 32: got ",
                *n as u64,
            ),
            ClientError::MissingExistenceResult => String::from_str(
                "missing blob existence result",
            ),
            ClientError::CheckVhLengthMismatch { expected, got } => {
                let mut v: Vec<char> = Vec::new();
                push_str(&mut v, "check_vh batch response length mismatch: expected ");
                let mut d1 = decimal_chars(*expected as u64);
                v.append(&mut d1);
                push_str(&mut v, ", got ");
                let mut d2 = decimal_chars(*got as u64);
                v.append(&mut d2);
                string_of(v.as_slice())
            },
            ClientError::MissingCheckVhResult(hash) => cat2(
                "missing check_vh result for version hash ",
                hash.as_str(),
            ),
            ClientError::NonU64BlockCount => String::from_str(
                "getblockcount returned non-u64 result",
            ),
        }
    }

    /// Whether the node reported that it does not know the blob.
    pub fn is_blob_not_found(&self) -> (res: bool)
        ensures
            res == is_blob_not_found(*self),
    {
        let msg = self.message();
        str_contains(msg.as_str(), "Could not find blob information for versionhash")
            || str_contains(msg.as_str(), "\"code\":-32602")
    }
}

} // verus!
