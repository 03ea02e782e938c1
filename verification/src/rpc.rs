//! JSON-RPC 2.0 over HTTP: the request bodies the client sends to the node,
//! and how it reads the node's replies, single and batched.
use vstd::prelude::*;
use crate::error::ClientError;
use crate::json::{JsonNumber, JsonValue, opt_as_u64};

verus! {

/// One JSON-RPC call: a method name and its positional parameters.
#[derive(Debug)]
pub struct RpcCall {
    pub method: String,
    pub params: Vec<JsonValue>,
}

/// A JSON-RPC response envelope. `error` holds the compact JSON text of a
/// present, non-null `error` member; a `null` member counts as absent, as do
/// `id` and `result` when `null`.
#[derive(Debug)]
pub struct JsonRpcResponse {
    pub id: Option<JsonValue>,
    pub result: Option<JsonValue>,
    pub error: Option<String>,
}

/// What came back from an HTTP exchange: whether the status was a success,
/// the status line text, the body text, and the body read as JSON of the
/// expected shape (or the reader's error text).
#[derive(Debug)]
pub struct HttpReply<T> {
    pub success: bool,
    pub status: String,
    pub body: String,
    pub parsed: Result<T, String>,
}

/// `v` is the envelope `{"jsonrpc":"2.0","id":id,"method":method,"params":params}`.
pub open spec fn is_request_body(v: JsonValue, method: Seq<char>, params: Seq<JsonValue>, id: u64) -> bool {
    &&& v matches JsonValue::Object(entries)
    &&& entries@.len() == 4
    &&& entries@[0].0@ == "jsonrpc"@
    &&& entries@[0].1 matches JsonValue::String(s) && s@ == "2.0"@
    &&& entries@[1].0@ == "id"@
    &&& entries@[1].1 == JsonValue::Number(JsonNumber::PosInt(id))
    &&& entries@[2].0@ == "method"@
    &&& entries@[2].1 matches JsonValue::String(m) && m@ == method
    &&& entries@[3].0@ == "params"@
    &&& entries@[3].1 matches JsonValue::Array(p) && p@ == params
}

/// `v` is the batch `[body_0, body_1, ...]` of `calls`, each with its position as id.
pub open spec fn is_batch_body(v: JsonValue, calls: Seq<RpcCall>) -> bool {
    &&& v matches JsonValue::Array(items)
    &&& items@.len() == calls.len()
    &&& forall|i: int|
        0 <= i < calls.len() ==> is_request_body(
            #[trigger] items@[i],
            calls[i].method@,
            calls[i].params@,
            i as u64,
        )
}

impl RpcCall {
    /// The call `method(params)`.
    pub fn new(method: &str, params: Vec<JsonValue>) -> (res: RpcCall)
        ensures
            res.method@ == method@,
            res.params@ == params@,
    {
        RpcCall { method: String::from_str(method), params }
    }

    /// The JSON-RPC 2.0 envelope of this call with the given id.
    pub fn into_body(self, id: u64) -> (res: JsonValue)
        ensures
            is_request_body(res, self.method@, self.params@, id),
    {
        let mut entries: Vec<(String, JsonValue)> = Vec::new();
        entries.push((String::from_str("jsonrpc"), JsonValue::String(String::from_str("2.0"))));
        entries.push((String::from_str("id"), JsonValue::Number(JsonNumber::PosInt(id))));
        entries.push((String::from_str("method"), JsonValue::String(self.method)));
        entries.push((String::from_str("params"), JsonValue::Array(self.params)));
        JsonValue::Object(entries)
    }
}

/// The JSON-RPC batch of `calls`, the call at position `i` carrying id `i`.
pub fn batch_body(calls: Vec<RpcCall>) -> (res: JsonValue)
    ensures
        is_batch_body(res, calls@),
{
    let ghost orig = calls@;
    let count: usize = calls.len();
    let mut items: Vec<JsonValue> = Vec::new();
    let mut idx: u64 = 0;
    for call in it: calls.into_iter()
        invariant
            it.seq() == orig,
            items@.len() == it.index(),
            idx == it.index(),
            it.index() <= orig.len(),
            orig.len() == count,
            forall|i: int|
                0 <= i < items@.len() ==> is_request_body(
                    #[trigger] items@[i],
                    orig[i].method@,
                    orig[i].params@,
                    i as u64,
                ),
    {
        items.push(call.into_body(idx));
        idx = idx + 1;
    }
    JsonValue::Array(items)
}

/// What one envelope answers: its error, else its result, else a missing-result error.
pub open spec fn envelope_result(r: JsonRpcResponse) -> Result<JsonValue, ClientError> {
    match r.error {
        Some(text) => Err(ClientError::Rpc(text)),
        None => match r.result {
            Some(v) => Ok(v),
            None => Err(ClientError::MissingResult),
        },
    }
}

/// What a single JSON-RPC exchange yields: a transport error as it is, a
/// non-success status with its body, an unreadable body, or the envelope's answer.
pub open spec fn rpc_outcome(reply: Result<HttpReply<JsonRpcResponse>, ClientError>) -> Result<
    JsonValue,
    ClientError,
> {
    match reply {
        Err(e) => Err(e),
        Ok(r) => if !r.success {
            Err(ClientError::HttpStatus { status: r.status, body: r.body })
        } else {
            match r.parsed {
                Err(m) => Err(ClientError::InvalidJson(m)),
                Ok(env) => envelope_result(env),
            }
        },
    }
}

/// The envelope's answer.
pub fn envelope_into_result(r: JsonRpcResponse) -> (res: Result<JsonValue, ClientError>)
    ensures
        res == envelope_result(r),
{
    match r.error {
        Some(text) => Err(ClientError::Rpc(text)),
        None => match r.result {
            Some(v) => Ok(v),
            None => Err(ClientError::MissingResult),
        },
    }
}

/// Reads the outcome of a single JSON-RPC exchange.
pub fn rpc_reply_result(reply: Result<HttpReply<JsonRpcResponse>, ClientError>) -> (res: Result<
    JsonValue,
    ClientError,
>)
    ensures
        res == rpc_outcome(reply),
{
    match reply {
        Err(e) => Err(e),
        Ok(r) => {
            if !r.success {
                Err(ClientError::HttpStatus { status: r.status, body: r.body })
            } else {
                match r.parsed {
                    Err(m) => Err(ClientError::InvalidJson(m)),
                    Ok(env) => envelope_into_result(env),
                }
            }
        },
    }
}

/// The request position that a batch response member answers, or why it answers none.
pub open spec fn response_position(r: JsonRpcResponse, n: nat) -> Result<int, ClientError> {
    match opt_as_u64(r.id) {
        None => Err(ClientError::MissingBatchId),
        Some(id) => if id > usize::MAX {
            Err(ClientError::BatchIdOutOfRange)
        } else if id >= n {
            Err(ClientError::UnexpectedBatchId(id))
        } else {
            Ok(id as int)
        },
    }
}

/// The answers gathered from `rs` for `n` requests, a later member for the
/// same position replacing an earlier one; the first member that answers no
/// position makes it an error.
pub open spec fn batch_slots(rs: Seq<JsonRpcResponse>, n: nat) -> Result<
    Seq<Option<Result<JsonValue, ClientError>>>,
    ClientError,
>
    decreases rs.len(),
{
    if rs.len() == 0 {
        Ok(Seq::new(n, |i: int| None))
    } else {
        match batch_slots(rs.drop_last(), n) {
            Err(e) => Err(e),
            Ok(slots) => match response_position(rs.last(), n) {
                Err(e) => Err(e),
                Ok(pos) => Ok(slots.update(pos, Some(envelope_result(rs.last())))),
            },
        }
    }
}

/// The answer at each of `n` positions, a position that no member answered
/// becoming a missing-response error.
pub open spec fn batch_answers(rs: Seq<JsonRpcResponse>, n: nat) -> Result<
    Seq<Result<JsonValue, ClientError>>,
    ClientError,
> {
    match batch_slots(rs, n) {
        Err(e) => Err(e),
        Ok(slots) => Ok(
            Seq::new(
                n,
                |i: int|
                    match slots[i] {
                        Some(r) => r,
                        None => Err(ClientError::MissingBatchResponse(i as usize)),
                    },
            ),
        ),
    }
}

/// What a batch exchange of `n` requests yields.
pub open spec fn batch_outcome(n: nat, reply: Result<HttpReply<Vec<JsonRpcResponse>>, ClientError>) -> Result<
    Seq<Result<JsonValue, ClientError>>,
    ClientError,
> {
    match reply {
        Err(e) => Err(e),
        Ok(r) => if !r.success {
            Err(ClientError::HttpStatus { status: r.status, body: r.body })
        } else {
            match r.parsed {
                Err(m) => Err(ClientError::InvalidJson(m)),
                Ok(rs) => batch_answers(rs@, n),
            }
        },
    }
}

/// Places each member of a batch reply at the position its id names.
pub fn order_batch_answers(responses: Vec<JsonRpcResponse>, n: usize) -> (res: Result<
    Vec<Result<JsonValue, ClientError>>,
    ClientError,
>)
    ensures
        match res {
            Ok(v) => batch_answers(responses@, n as nat) == Ok::<_, ClientError>(v@),
            Err(e) => batch_answers(responses@, n as nat) == Err::<Seq<Result<JsonValue, ClientError>>, _>(e),
        },
{
    let ghost rs = responses@;
    let mut slots: Vec<Option<Result<JsonValue, ClientError>>> = Vec::new();
    let mut k: usize = 0;
    while k < n
        invariant
            k <= n,
            slots@ == Seq::new(k as nat, |i: int| None::<Result<JsonValue, ClientError>>),
        decreases n - k,
    {
        slots.push(None);
        k = k + 1;
        assert(slots@ =~= Seq::new(k as nat, |i: int| None::<Result<JsonValue, ClientError>>));
    }
    assert(rs.take(0) =~= Seq::<JsonRpcResponse>::empty());
    for r in it: responses.into_iter()
        invariant
            it.seq() == rs,
            it.index() <= rs.len(),
            batch_slots(rs.take(it.index() as int), n as nat) == Ok::<_, ClientError>(slots@),
            slots@.len() == n,
    {
        let ghost before = slots@;
        assert(rs.take(it.index() + 1).drop_last() =~= rs.take(it.index() as int));
        assert(rs.take(it.index() + 1).last() == r);
        let id = match &r.id {
            Some(v) => v.as_u64(),
            None => None,
        };
        match id {
            None => {
                proof { lemma_prefix_error(rs, it.index() + 1, n as nat); }
                return Err(ClientError::MissingBatchId);
            },
            Some(id) => {
                if id > usize::MAX as u64 {
                    proof { lemma_prefix_error(rs, it.index() + 1, n as nat); }
                    return Err(ClientError::BatchIdOutOfRange);
                }
                if id >= n as u64 {
                    proof { lemma_prefix_error(rs, it.index() + 1, n as nat); }
                    return Err(ClientError::UnexpectedBatchId(id));
                }
                let pos = id as usize;
                let answer = envelope_into_result(r);
                slots.set(pos, Some(answer));
            },
        }
    }
    assert(rs.take(rs.len() as int) =~= rs);
    let ghost final_slots = slots@;
    let mut out: Vec<Result<JsonValue, ClientError>> = Vec::new();
    let mut i: usize = 0;
    while i < n
        invariant
            i <= n,
            slots@.len() == n,
            final_slots.len() == n,
            forall|j: int| i <= j < n ==> slots@[j] == final_slots[j],
            out@.len() == i,
            forall|j: int|
                0 <= j < i ==> out@[j] == match final_slots[j] {
                    Some(r) => r,
                    None => Err(ClientError::MissingBatchResponse(j as usize)),
                },
        decreases n - i,
    {
        let mut taken: Option<Result<JsonValue, ClientError>> = None;
        slots.set_and_swap(i, &mut taken);
        let entry = match taken {
            Some(r) => r,
            None => Err(ClientError::MissingBatchResponse(i)),
        };
        out.push(entry);
        i = i + 1;
    }
    assert(out@ =~= Seq::new(
        n as nat,
        |j: int|
            match final_slots[j] {
                Some(r) => r,
                None => Err(ClientError::MissingBatchResponse(j as usize)),
            },
    ));
    Ok(out)
}

/// An error in a prefix of the members is the error of the whole batch.
proof fn lemma_prefix_error(rs: Seq<JsonRpcResponse>, k: int, n: nat)
    requires
        0 < k <= rs.len(),
        batch_slots(rs.take(k), n) is Err,
    ensures
        batch_slots(rs, n) == batch_slots(rs.take(k), n),
    decreases rs.len() - k,
{
    if k < rs.len() {
        assert(rs.take(k + 1).drop_last() =~= rs.take(k));
        lemma_prefix_error(rs, k + 1, n);
    } else {
        assert(rs.take(k) =~= rs);
    }
}

/// Reads the outcome of a batch exchange of `n` requests: one answer per request, in order.
pub fn batch_reply_results(n: usize, reply: Result<HttpReply<Vec<JsonRpcResponse>>, ClientError>) -> (res: Result<
    Vec<Result<JsonValue, ClientError>>,
    ClientError,
>)
    ensures
        match res {
            Ok(v) => batch_outcome(n as nat, reply) == Ok::<_, ClientError>(v@),
            Err(e) => batch_outcome(n as nat, reply) == Err::<Seq<Result<JsonValue, ClientError>>, _>(e),
        },
        res matches Ok(v) ==> v@.len() == n,
{
    match reply {
        Err(e) => Err(e),
        Ok(r) => {
            if !r.success {
                Err(ClientError::HttpStatus { status: r.status, body: r.body })
            } else {
                match r.parsed {
                    Err(m) => Err(ClientError::InvalidJson(m)),
                    Ok(rs) => order_batch_answers(rs, n),
                }
            }
        },
    }
}

} // verus!
