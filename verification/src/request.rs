//! The HTTP request that performs each action: where it goes, with which
//! method, credentials and body.
use vstd::prelude::*;
use crate::client::{RealRpcClient, wallet_endpoint};
use crate::flow::{Action, ReplyKind, action_reply_kind};
use crate::json::JsonValue;
use crate::rpc::{batch_body, is_batch_body, is_request_body};

verus! {

/// The id that a single JSON-RPC call carries.
pub const SINGLE_CALL_ID: u64 = 1;

/// The HTTP method of a request.
#[derive(Clone, Copy, Debug, PartialEq, Eq, Structural)]
pub enum HttpMethod {
    Get,
    Post,
}

/// One HTTP request: its method and URL, whether it carries the node's
/// basic-auth credentials, its JSON body if any, and the kind of reply that
/// is read from its answer.
#[derive(Debug)]
pub struct HttpRequest {
    pub method: HttpMethod,
    pub url: String,
    pub node_auth: bool,
    pub body: Option<JsonValue>,
    pub reply: ReplyKind,
}

/// `req` performs `action` for the node at `rpc_url` with wallet
/// `wallet_name`:
/// - a node call is a POST to the node URL, a wallet call a POST to the
///   wallet endpoint, each with the node's credentials and the call's
///   envelope carrying id `SINGLE_CALL_ID`;
/// - a batch is a POST to the node URL with the credentials and the batch body;
/// - a GET goes to its URL, without credentials or body;
/// - a JSON POST goes to its URL with its body, without credentials.
pub open spec fn is_http_request(rpc_url: Seq<char>, wallet_name: Seq<char>, action: Action, req: HttpRequest) -> bool {
    &&& req.reply == action_reply_kind(action)
    &&& match action {
        Action::Call(c) => req.method == HttpMethod::Post && req.url@ == rpc_url && req.node_auth && (
        req.body matches Some(b) && is_request_body(b, c.method@, c.params@, SINGLE_CALL_ID)),
        Action::CallWallet(c) => req.method == HttpMethod::Post && req.url@ == wallet_endpoint(
            rpc_url,
            wallet_name,
        ) && req.node_auth && (req.body matches Some(b) && is_request_body(
            b,
            c.method@,
            c.params@,
            SINGLE_CALL_ID,
        )),
        Action::CallBatch(calls) => req.method == HttpMethod::Post && req.url@ == rpc_url && req.node_auth
            && (req.body matches Some(b) && is_batch_body(b, calls@)),
        Action::HttpGet(url) => req.method == HttpMethod::Get && req.url == url && !req.node_auth
            && req.body is None,
        Action::PostJson { url, body } => req.method == HttpMethod::Post && req.url == url
            && !req.node_auth && req.body == Some(body),
    }
}

impl RealRpcClient {
    /// The HTTP request that performs `action`.
    pub fn http_request(&self, action: Action) -> (res: HttpRequest)
        ensures
            is_http_request(self.spec_rpc_url(), self.spec_wallet_name(), action, res),
    {
        let reply = action.reply_kind();
        match action {
            Action::Call(c) => HttpRequest {
                method: HttpMethod::Post,
                url: String::from_str(self.rpc_url()),
                node_auth: true,
                body: Some(c.into_body(SINGLE_CALL_ID)),
                reply,
            },
            Action::CallWallet(c) => HttpRequest {
                method: HttpMethod::Post,
                url: self.wallet_url(),
                node_auth: true,
                body: Some(c.into_body(SINGLE_CALL_ID)),
                reply,
            },
            Action::CallBatch(calls) => HttpRequest {
                method: HttpMethod::Post,
                url: String::from_str(self.rpc_url()),
                node_auth: true,
                body: Some(batch_body(calls)),
                reply,
            },
            Action::HttpGet(url) => HttpRequest {
                method: HttpMethod::Get,
                url,
                node_auth: false,
                body: None,
                reply,
            },
            Action::PostJson { url, body } => HttpRequest {
                method: HttpMethod::Post,
                url,
                node_auth: false,
                body: Some(body),
                reply,
            },
        }
    }
}

} // verus!
