//! A stand-in for the node, answering a fixed set of methods, for testing
//! code that talks to the node.
use vstd::prelude::*;
use crate::error::ClientError;
use crate::hexcodec::{hex_encode, hex_encoding};
use crate::json::{JsonNumber, JsonValue};
use crate::text::chars_of;

verus! {

/// The bytes of the text `mock_data`.
pub open spec fn mock_data() -> Seq<u8> {
    seq![109u8, 111u8, 99u8, 107u8, 95u8, 100u8, 97u8, 116u8, 97u8]
}

/// The IEEE-754 bit pattern of the balance 10.5.
pub const MOCK_BALANCE_BITS: u64 = 0x4025000000000000;

/// What the stand-in answers to `method`: a balance of 10.5 to `getbalance`;
/// `{"versionhash": "mock_blob_hash"}` to `syscoincreatenevmblob`;
/// `{"data": <hex of "mock_data">}` to `getnevmblobdata`; `null` to
/// `loadwallet` and `createwallet`; an error to anything else.
pub open spec fn mock_answer_ok(method: Seq<char>, res: Result<JsonValue, ClientError>) -> bool {
    if method == "getbalance"@ {
        res == Ok::<_, ClientError>(JsonValue::Number(JsonNumber::Float(MOCK_BALANCE_BITS)))
    } else if method == "syscoincreatenevmblob"@ {
        res matches Ok(JsonValue::Object(entries)) && entries@.len() == 1 && entries@[0].0@
            == "versionhash"@ && (entries@[0].1 matches JsonValue::String(s) && s@
            == "mock_blob_hash"@)
    } else if method == "getnevmblobdata"@ {
        res matches Ok(JsonValue::Object(entries)) && entries@.len() == 1 && entries@[0].0@
            == "data"@ && (entries@[0].1 matches JsonValue::String(s) && s@ == hex_encoding(
            mock_data(),
        ))
    } else if method == "loadwallet"@ || method == "createwallet"@ {
        res == Ok::<_, ClientError>(JsonValue::Null)
    } else {
        res matches Err(ClientError::Message(m)) && m@ == "Unimplemented mock method"@
    }
}

/// A stand-in for the node.
#[derive(Debug)]
pub struct MockRpcClient {}

/// Whether `s` is the text `t`.
fn is_method(s: &str, t: &str) -> (res: bool)
    ensures
        res == (s@ == t@),
{
    let a = chars_of(s);
    let b = chars_of(t);
    if a.len() != b.len() {
        return false;
    }
    let mut i: usize = 0;
    while i < a.len()
        invariant
            a@ == s@,
            b@ == t@,
            a@.len() == b@.len(),
            i <= a@.len(),
            forall|j: int| 0 <= j < i ==> a@[j] == b@[j],
        decreases a@.len() - i,
    {
        if a[i] != b[i] {
            return false;
        }
        i = i + 1;
    }
    assert(a@ =~= b@);
    true
}

/// The bytes of the text `mock_data`.
fn mock_data_bytes() -> (res: Vec<u8>)
    ensures
        res@ == mock_data(),
{
    let v: Vec<u8> = vec![109u8, 111u8, 99u8, 107u8, 95u8, 100u8, 97u8, 116u8, 97u8];
    assert(v@ =~= mock_data());
    v
}

impl MockRpcClient {
    /// Answers a node call.
    pub fn call(&self, method: &str, params: &[JsonValue]) -> (res: Result<JsonValue, ClientError>)
        ensures
            mock_answer_ok(method@, res),
    {
        if is_method(method, "getbalance") {
            Ok(JsonValue::Number(JsonNumber::Float(MOCK_BALANCE_BITS)))
        } else if is_method(method, "syscoincreatenevmblob") {
            let mut entries: Vec<(String, JsonValue)> = Vec::new();
            entries.push((String::from_str("versionhash"), JsonValue::String(String::from_str("mock_blob_hash"))));
            Ok(JsonValue::Object(entries))
        } else if is_method(method, "getnevmblobdata") {
            let data = mock_data_bytes();
            let mut entries: Vec<(String, JsonValue)> = Vec::new();
            entries.push((String::from_str("data"), JsonValue::String(hex_encode(data.as_slice()))));
            Ok(JsonValue::Object(entries))
        } else if is_method(method, "loadwallet") || is_method(method, "createwallet") {
            Ok(JsonValue::Null)
        } else {
            Err(ClientError::Message(String::from_str("Unimplemented mock method")))
        }
    }

    /// Answers a wallet call, as a node call.
    pub fn call_wallet(&self, method: &str, params: &[JsonValue]) -> (res: Result<JsonValue, ClientError>)
        ensures
            mock_answer_ok(method@, res),
    {
        self.call(method, params)
    }

    /// The balance: always 10.5.
    pub fn get_balance(&self, account: Option<&str>, include_watchonly: Option<bool>) -> (res: Result<
        JsonNumber,
        ClientError,
    >)
        ensures
            res == Ok::<_, ClientError>(JsonNumber::Float(MOCK_BALANCE_BITS)),
    {
        Ok(JsonNumber::Float(MOCK_BALANCE_BITS))
    }

    /// A GET: always the bytes of `mock_data`.
    pub fn http_get(&self, url: &str) -> (res: Result<Vec<u8>, ClientError>)
        ensures
            res matches Ok(v) && v@ == mock_data(),
    {
        Ok(mock_data_bytes())
    }
}

} // verus!
