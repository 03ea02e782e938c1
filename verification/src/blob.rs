//! Storing blobs and fetching them back, from the node or the PoDA cloud.
use vstd::prelude::*;
use crate::error::{ClientError, MAX_BLOB_SIZE};
use crate::flow::{Action, Reply, ReplyKind, Step, action_reply_kind, is_text, reply_kind};
use crate::hexcodec::{hex_decode, hex_decoding, hex_encode, hex_encoding, hex_error_text, is_hex_text};
use crate::json::{JsonValue, opt_as_text, value_get};
use crate::rpc::{RpcCall, rpc_outcome, rpc_reply_result};
use crate::text::strip_hex_prefix;
use vstd::utf8::encode_utf8;

verus! {

/// The call that stores `data` as a blob: its hex text, no overwriting of an
/// existing blob, and the blake2s hash type.
pub open spec fn is_create_blob_call(c: RpcCall, data: Seq<u8>) -> bool {
    &&& c.method@ == "syscoincreatenevmblob"@
    &&& c.params@.len() == 3
    &&& is_text(c.params@[0], hex_encoding(data))
    &&& c.params@[1] == JsonValue::Bool(false)
    &&& is_text(c.params@[2], "blake2s"@)
}

/// What the blob creation answer means: the `versionhash` text, else an error.
pub open spec fn version_hash_outcome(r: Result<JsonValue, ClientError>) -> Result<String, ClientError> {
    match r {
        Err(e) => Err(e),
        Ok(v) => match value_get(v, "versionhash"@) {
            Some(JsonValue::String(s)) => Ok(s),
            _ => Err(ClientError::MissingVersionHash),
        },
    }
}

/// Storing a blob.
#[derive(Debug)]
pub struct CreateBlob {
    pub size: usize,
}

impl CreateBlob {

    /// The reply kind the next step expects.
    pub fn awaits(&self) -> (res: ReplyKind)
        ensures
            res == ReplyKind::Rpc,
    {
        ReplyKind::Rpc
    }
    /// The first step: refuse a payload over `MAX_BLOB_SIZE`, else ask the
    /// wallet to store it.
    pub fn start(data: &[u8]) -> (res: Step<CreateBlob, String>)
        ensures
            data@.len() > MAX_BLOB_SIZE ==> res == Step::<CreateBlob, String>::Finish(
                Err(ClientError::BlobTooLarge(data@.len() as usize)),
            ),
            data@.len() <= MAX_BLOB_SIZE ==> (res matches Step::Perform(f, Action::CallWallet(c))
                && f.size == data@.len() && is_create_blob_call(c, data@)),
    {
        if data.len() > MAX_BLOB_SIZE {
            return Step::Finish(Err(ClientError::BlobTooLarge(data.len())));
        }
        let mut params: Vec<JsonValue> = Vec::new();
        params.push(JsonValue::String(hex_encode(data)));
        params.push(JsonValue::Bool(false));
        params.push(JsonValue::String(String::from_str("blake2s")));
        Step::Perform(CreateBlob { size: data.len() }, Action::CallWallet(RpcCall::new("syscoincreatenevmblob", params)))
    }

    /// What one step does: the node's answer gives the version hash.
    pub open spec fn step_spec(self, reply: Reply, res: Step<CreateBlob, String>) -> bool {
        reply matches Reply::Rpc(raw) && res == Step::<CreateBlob, String>::Finish(
            version_hash_outcome(rpc_outcome(raw)),
        )
    }

    /// Continues with the node's answer: the version hash of the stored blob.
    pub fn resume(self, reply: Reply) -> (res: Step<CreateBlob, String>)
        requires
            reply_kind(reply) == ReplyKind::Rpc,
        ensures
            reply matches Reply::Rpc(raw) && res == Step::<CreateBlob, String>::Finish(
                version_hash_outcome(rpc_outcome(raw)),
            ),
            self.step_spec(reply, res),
    {
        let raw = match reply {
            Reply::Rpc(raw) => raw,
            _ => { proof { assert(false); } return Step::Finish(Err(ClientError::MissingVersionHash)); },
        };
        match rpc_reply_result(raw) {
            Err(e) => Step::Finish(Err(e)),
            Ok(v) => match v.get("versionhash") {
                Some(JsonValue::String(s)) => Step::Finish(Ok(s.clone())),
                _ => Step::Finish(Err(ClientError::MissingVersionHash)),
            },
        }
    }
}

/// The hex text of a blob's `data` member, without a leading `0x`, as bytes.
pub open spec fn blob_hex_bytes(v: JsonValue) -> Option<Seq<u8>> {
    match opt_as_text(value_get(v, "data"@)) {
        Some(t) => Some(encode_utf8(strip_hex_prefix(t))),
        None => None,
    }
}

/// The blob bytes that the node's `getnevmblobdata` answer carries: the
/// decoding of its `data` hex text (a leading `0x` stripped), if that is
/// present and valid hex.
pub open spec fn node_blob_data(r: Result<JsonValue, ClientError>) -> Option<Seq<u8>> {
    match r {
        Ok(v) => match blob_hex_bytes(v) {
            Some(h) => if is_hex_text(h) {
                Some(hex_decoding(h))
            } else {
                None
            },
            None => None,
        },
        Err(_) => None,
    }
}

/// Reads the blob bytes from the node's `getnevmblobdata` answer.
pub fn blob_from_node_answer(r: Result<JsonValue, ClientError>) -> (res: Result<Vec<u8>, ClientError>)
    ensures
        match res {
            Ok(bytes) => node_blob_data(r) == Some(bytes@),
            Err(e) => node_blob_data(r) is None && match r {
                Err(e0) => e == e0,
                Ok(v) => match blob_hex_bytes(v) {
                    None => e == ClientError::MissingBlobData,
                    Some(h) => e matches ClientError::InvalidHex(m) && hex_error_text(h, m@),
                },
            },
        },
{
    let v = match r {
        Err(e) => { return Err(e); },
        Ok(v) => v,
    };
    let hex_data = match v.get("data") {
        Some(d) => match d.as_str() {
            Some(t) => t,
            None => { return Err(ClientError::MissingBlobData); },
        },
        None => { return Err(ClientError::MissingBlobData); },
    };
    let stripped = crate::text::strip_hex_prefix_str(hex_data);
    match hex_decode(stripped.as_bytes()) {
        Ok(bytes) => Ok(bytes),
        Err(m) => Err(ClientError::InvalidHex(m)),
    }
}

/// Fetching a blob: from the node first, from the PoDA cloud when that fails.
#[derive(Debug)]
pub struct GetBlob {
    pub cloud_url: String,
    pub from_cloud: bool,
}

/// The call that fetches a blob's data from the node.
pub open spec fn is_blob_data_call(c: RpcCall, blob_id: Seq<char>) -> bool {
    &&& c.method@ == "getnevmblobdata"@
    &&& c.params@.len() == 2
    &&& is_text(c.params@[0], blob_id)
    &&& c.params@[1] == JsonValue::Bool(true)
}

impl GetBlob {

    /// The reply kind the next step expects.
    pub fn awaits(&self) -> (res: ReplyKind)
        ensures
            res == self.awaited(),
    {
        if self.from_cloud { ReplyKind::Bytes } else { ReplyKind::Rpc }
    }
    /// The first step: ask the node for the blob's data (the id without a
    /// leading `0x`), remembering the cloud URL to fall back to.
    pub fn start(blob_id: &str, cloud_url: String) -> (res: Step<GetBlob, Vec<u8>>)
        ensures
            res matches Step::Perform(f, Action::Call(c)) && f.cloud_url == cloud_url
                && !f.from_cloud && is_blob_data_call(c, strip_hex_prefix(blob_id@)),
    {
        let id = crate::text::strip_hex_prefix_str(blob_id);
        let mut params: Vec<JsonValue> = Vec::new();
        params.push(JsonValue::String(String::from_str(id)));
        params.push(JsonValue::Bool(true));
        Step::Perform(GetBlob { cloud_url, from_cloud: false }, Action::Call(RpcCall::new("getnevmblobdata", params)))
    }

    /// The reply kind the next step expects.
    pub open spec fn awaited(self) -> ReplyKind {
        if self.from_cloud {
            ReplyKind::Bytes
        } else {
            ReplyKind::Rpc
        }
    }

    /// What one step does: blob bytes from the node are the result; when the
    /// node gives none (any error, no data, bad hex), the cloud URL is fetched
    /// and its answer is the result.
    pub open spec fn step_spec(self, reply: Reply, res: Step<GetBlob, Vec<u8>>) -> bool {
        &&& if self.from_cloud {
            reply matches Reply::Bytes(r) && res == Step::<GetBlob, Vec<u8>>::Finish(r)
        } else {
            reply matches Reply::Rpc(raw) && match node_blob_data(rpc_outcome(raw)) {
                Some(bytes) => res matches Step::Finish(Ok(b)) && b@ == bytes,
                None => res matches Step::Perform(f, Action::HttpGet(url)) && f.from_cloud
                    && url@ == self.cloud_url@ && f.cloud_url == self.cloud_url,
            }
        }
        &&& res matches Step::Perform(f, a) ==> action_reply_kind(a) == f.awaited()
    }

    /// Continues with the reply.
    pub fn resume(self, reply: Reply) -> (res: Step<GetBlob, Vec<u8>>)
        requires
            reply_kind(reply) == self.awaited(),
        ensures
            self.step_spec(reply, res),
    {
        if self.from_cloud {
            return match reply {
                Reply::Bytes(r) => Step::Finish(r),
                _ => { proof { assert(false); } Step::Finish(Err(ClientError::MissingBlobData)) },
            };
        }
        let raw = match reply {
            Reply::Rpc(raw) => raw,
            _ => { proof { assert(false); } return Step::Finish(Err(ClientError::MissingBlobData)); },
        };
        match blob_from_node_answer(rpc_reply_result(raw)) {
            Ok(bytes) => Step::Finish(Ok(bytes)),
            Err(_) => {
                let url = self.cloud_url.clone();
                Step::Perform(GetBlob { cloud_url: self.cloud_url, from_cloud: true }, Action::HttpGet(url))
            },
        }
    }
}

/// Fetching a blob from the PoDA cloud.
#[derive(Debug)]
pub struct CloudBlob {
    pub url: String,
}

impl CloudBlob {

    /// The reply kind the next step expects.
    pub fn awaits(&self) -> (res: ReplyKind)
        ensures
            res == ReplyKind::Bytes,
    {
        ReplyKind::Bytes
    }
    /// The first step: GET the blob URL.
    pub fn start(url: String) -> (res: Step<CloudBlob, Vec<u8>>)
        ensures
            res matches Step::Perform(f, Action::HttpGet(u)) && u == url && f.url == url,
    {
        let u = url.clone();
        Step::Perform(CloudBlob { url }, Action::HttpGet(u))
    }

    /// Continues with the GET's answer, which is the result.
    pub fn resume(self, reply: Reply) -> (res: Step<CloudBlob, Vec<u8>>)
        requires
            reply_kind(reply) == ReplyKind::Bytes,
        ensures
            reply matches Reply::Bytes(r) && res == Step::<CloudBlob, Vec<u8>>::Finish(r),
    {
        match reply {
            Reply::Bytes(r) => Step::Finish(r),
            _ => { proof { assert(false); } Step::Finish(Err(ClientError::MissingBlobData)) },
        }
    }
}

} // verus!
