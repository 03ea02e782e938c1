//! The client's operations as steps: each operation says what to send next
//! (an `Action`), is handed back what came of it (a `Reply`), and either asks
//! for a further action or finishes with its result.
use vstd::prelude::*;
use crate::error::ClientError;
use crate::json::{JsonValue, value_as_text};
use crate::rpc::{HttpReply, JsonRpcResponse, RpcCall};

verus! {

/// What the client asks the outside world to do next.
#[derive(Debug)]
pub enum Action {
    /// Send the JSON-RPC call to the node URL.
    Call(RpcCall),
    /// Send the JSON-RPC call to the wallet endpoint of the node.
    CallWallet(RpcCall),
    /// Send the calls as one JSON-RPC batch to the node URL.
    CallBatch(Vec<RpcCall>),
    /// GET the URL and hand back the body bytes.
    HttpGet(String),
    /// POST the JSON body to the URL and hand back the reply read as JSON.
    PostJson { url: String, body: JsonValue },
}

/// What came of an action.
#[derive(Debug)]
pub enum Reply {
    /// The HTTP exchange of a single JSON-RPC call.
    Rpc(Result<HttpReply<JsonRpcResponse>, ClientError>),
    /// The HTTP exchange of a JSON-RPC batch.
    Batch(Result<HttpReply<Vec<JsonRpcResponse>>, ClientError>),
    /// The body of a POST, read as JSON.
    Json(Result<JsonValue, ClientError>),
    /// The body of a GET.
    Bytes(Result<Vec<u8>, ClientError>),
}

/// The kinds of reply.
#[derive(Clone, Copy, Debug, PartialEq, Eq, Structural)]
pub enum ReplyKind {
    Rpc,
    Batch,
    Json,
    Bytes,
}

/// The kind of a reply.
pub open spec fn reply_kind(r: Reply) -> ReplyKind {
    match r {
        Reply::Rpc(_) => ReplyKind::Rpc,
        Reply::Batch(_) => ReplyKind::Batch,
        Reply::Json(_) => ReplyKind::Json,
        Reply::Bytes(_) => ReplyKind::Bytes,
    }
}

/// The kind of reply that answers an action.
pub open spec fn action_reply_kind(a: Action) -> ReplyKind {
    match a {
        Action::Call(_) => ReplyKind::Rpc,
        Action::CallWallet(_) => ReplyKind::Rpc,
        Action::CallBatch(_) => ReplyKind::Batch,
        Action::HttpGet(_) => ReplyKind::Bytes,
        Action::PostJson { .. } => ReplyKind::Json,
    }
}

impl Reply {
    /// The kind of this reply.
    pub fn kind(&self) -> (res: ReplyKind)
        ensures
            res == reply_kind(*self),
    {
        match self {
            Reply::Rpc(_) => ReplyKind::Rpc,
            Reply::Batch(_) => ReplyKind::Batch,
            Reply::Json(_) => ReplyKind::Json,
            Reply::Bytes(_) => ReplyKind::Bytes,
        }
    }
}

impl Action {
    /// The kind of reply that answers this action.
    pub fn reply_kind(&self) -> (res: ReplyKind)
        ensures
            res == action_reply_kind(*self),
    {
        match self {
            Action::Call(_) => ReplyKind::Rpc,
            Action::CallWallet(_) => ReplyKind::Rpc,
            Action::CallBatch(_) => ReplyKind::Batch,
            Action::HttpGet(_) => ReplyKind::Bytes,
            Action::PostJson { .. } => ReplyKind::Json,
        }
    }
}

/// An operation's next move: perform an action and resume with its reply,
/// or finish with a result.
#[derive(Debug)]
pub enum Step<F, T> {
    Perform(F, Action),
    Finish(Result<T, ClientError>),
}

/// `reply` is a successful single JSON-RPC exchange whose answer is `v`: a
/// success status, a readable envelope without an error, and `v` as result.
pub open spec fn is_rpc_answer(reply: Reply, v: JsonValue) -> bool {
    &&& reply matches Reply::Rpc(Ok(h))
    &&& h.success
    &&& h.parsed matches Ok(env) && env.error is None && env.result == Some(v)
}

/// `reply` is a single JSON-RPC exchange with a success status whose
/// envelope carries the error `text` (compact JSON).
pub open spec fn is_rpc_error(reply: Reply, text: String) -> bool {
    &&& reply matches Reply::Rpc(Ok(h))
    &&& h.success
    &&& h.parsed matches Ok(env) && env.error == Some(text)
}

/// `v` is the JSON string `t`.
pub open spec fn is_text(v: JsonValue, t: Seq<char>) -> bool {
    v matches JsonValue::String(s) && s@ == t
}

/// `c` calls `method` with the single text parameter `arg`.
pub open spec fn is_call_with_text(c: RpcCall, method: Seq<char>, arg: Seq<char>) -> bool {
    &&& c.method@ == method
    &&& c.params@.len() == 1
    &&& is_text(c.params@[0], arg)
}

/// `v` is a JSON list of the texts of `items`, in order.
pub open spec fn is_text_list(v: JsonValue, items: Seq<String>) -> bool {
    &&& v matches JsonValue::Array(vs)
    &&& vs@.len() == items.len()
    &&& forall|i: int| 0 <= i < items.len() ==> is_text(#[trigger] vs@[i], items[i]@)
}

/// Two lists of JSON values that hold the same texts, and equal other values.
pub open spec fn same_values(p1: Seq<JsonValue>, p2: Seq<JsonValue>) -> bool {
    &&& p1.len() == p2.len()
    &&& forall|i: int|
        0 <= i < p1.len() ==> value_as_text(#[trigger] p1[i]) == value_as_text(p2[i]) && (
        value_as_text(p1[i]) is None ==> p1[i] == p2[i])
}

/// Two calls of the same method with the same parameters.
pub open spec fn same_call(c1: RpcCall, c2: RpcCall) -> bool {
    c1.method@ == c2.method@ && same_values(c1.params@, c2.params@)
}

/// Two actions that ask the same: the same calls, or the same URL (and, for
/// a JSON POST, the same list body).
pub open spec fn same_request(a1: Action, a2: Action) -> bool {
    match (a1, a2) {
        (Action::Call(c1), Action::Call(c2)) => same_call(c1, c2),
        (Action::CallWallet(c1), Action::CallWallet(c2)) => same_call(c1, c2),
        (Action::CallBatch(cs1), Action::CallBatch(cs2)) => cs1@.len() == cs2@.len() && forall|i: int|
            0 <= i < cs1@.len() ==> same_call(#[trigger] cs1@[i], cs2@[i]),
        (Action::HttpGet(u1), Action::HttpGet(u2)) => u1@ == u2@,
        (Action::PostJson { url: u1, body: b1 }, Action::PostJson { url: u2, body: b2 }) => u1@ == u2@
            && (b1 matches JsonValue::Array(x1) && b2 matches JsonValue::Array(x2) && same_values(
            x1@,
            x2@,
        )),
        _ => false,
    }
}

/// A JSON string holding a copy of `s`.
pub fn text_value(s: &String) -> (res: JsonValue)
    ensures
        is_text(res, s@),
{
    JsonValue::String(s.clone())
}

/// A call of `method` with the single text parameter `arg`.
pub fn call_with_text(method: &str, arg: &str) -> (res: RpcCall)
    ensures
        is_call_with_text(res, method@, arg@),
{
    let mut params: Vec<JsonValue> = Vec::new();
    params.push(JsonValue::String(String::from_str(arg)));
    RpcCall::new(method, params)
}

/// A JSON list of copies of the texts of `items`.
pub fn text_list(items: &Vec<String>) -> (res: JsonValue)
    ensures
        is_text_list(res, items@),
{
    let mut vs: Vec<JsonValue> = Vec::new();
    let mut i: usize = 0;
    while i < items.len()
        invariant
            i <= items@.len(),
            vs@.len() == i,
            forall|j: int| 0 <= j < i ==> is_text(#[trigger] vs@[j], items@[j]@),
        decreases items@.len() - i,
    {
        vs.push(text_value(&items[i]));
        i = i + 1;
    }
    JsonValue::Array(vs)
}

} // verus!
