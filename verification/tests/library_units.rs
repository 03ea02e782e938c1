use bitcoin_da_client::request::{HttpMethod, SINGLE_CALL_ID};
use bitcoin_da_client::availability::Existence;
use bitcoin_da_client::client::{RealRpcClient, RequestTimeout, SyscoinClient, DEFAULT_TIMEOUT_SECS};
use bitcoin_da_client::error::{ClientError, MAX_BLOB_EXISTENCE_BATCH, MAX_BLOB_SIZE};
use bitcoin_da_client::fee::{read_amount_member, AmountSource};
use bitcoin_da_client::finality::{BitcoinDaFinalityMode, Finality};
use bitcoin_da_client::flow::{text_list, Action, Reply, ReplyKind, Step};
use bitcoin_da_client::json::{find_key, json_text, JsonNumber, JsonValue};
use bitcoin_da_client::mock::{MockRpcClient, MOCK_BALANCE_BITS};
use bitcoin_da_client::poda::{
    check_vh_batch_response_exists, check_vh_value_exists, poda_blob_url,
    poda_check_vh_batch_url, truthy_check_vh_response,
};
use bitcoin_da_client::rpc::{
    batch_reply_results, order_batch_answers, rpc_reply_result, HttpReply, JsonRpcResponse,
    RpcCall,
};
use bitcoin_da_client::text::{
    ascii_lowercase_chars, decimal_chars, str_contains, strip_hex_prefix_str, trim_chars,
};
use bitcoin_da_client::wallet::{lookup_result, new_address_result};

fn text(s: &str) -> JsonValue {
    JsonValue::String(s.to_string())
}

fn num(n: u64) -> JsonValue {
    JsonValue::Number(JsonNumber::PosInt(n))
}

fn obj(entries: Vec<(&str, JsonValue)>) -> JsonValue {
    JsonValue::Object(entries.into_iter().map(|(k, v)| (k.to_string(), v)).collect())
}

fn error_text(code: i64, message: &str) -> String {
    format!("{{\"code\":{},\"message\":\"{}\"}}", code, message)
}

fn envelope(id: Option<u64>, result: Option<JsonValue>, error: Option<String>) -> JsonRpcResponse {
    JsonRpcResponse { id: id.map(num), result, error }
}

fn http_ok<T>(parsed: T) -> HttpReply<T> {
    HttpReply { success: true, status: "200 OK".to_string(), body: String::new(), parsed: Ok(parsed) }
}

fn rpc_result(result: JsonValue) -> Reply {
    Reply::Rpc(Ok(http_ok(envelope(Some(1), Some(result), None))))
}

fn rpc_error(code: i64, message: &str) -> Reply {
    Reply::Rpc(Ok(http_ok(envelope(Some(1), None, Some(error_text(code, message))))))
}

fn client(rpc_url: &str, poda_url: &str) -> SyscoinClient {
    SyscoinClient::new(rpc_url, "user", "password", poda_url, None, "w")
}

fn hashes(ids: &[&str]) -> Vec<String> {
    ids.iter().map(|s| s.to_string()).collect()
}

fn ok_flags(r: Result<Vec<bool>, ClientError>) -> Vec<bool> {
    match r {
        Ok(v) => v,
        Err(e) => panic!("unexpected error {}", e.message()),
    }
}

fn err_message<T: std::fmt::Debug>(r: Result<T, ClientError>) -> String {
    match r {
        Err(e) => e.message(),
        Ok(v) => panic!("expected an error, got {:?}", v),
    }
}

fn finish<F: std::fmt::Debug, T: std::fmt::Debug>(step: Step<F, T>) -> Result<T, ClientError> {
    match step {
        Step::Finish(r) => r,
        other => panic!("expected a finished step, got {:?}", other),
    }
}

// ---- configuration ----

#[test]
fn default_timeout_is_thirty_seconds() {
    let c = RealRpcClient::new("http://n", "u", "p", None, "w");
    assert_eq!(c.timeout(), RequestTimeout { secs: DEFAULT_TIMEOUT_SECS, nanos: 0 });
    assert_eq!(DEFAULT_TIMEOUT_SECS, 30);
    let c = RealRpcClient::new_with_timeout("http://n", "u", "p", Some(RequestTimeout { secs: 2, nanos: 5 }), "w");
    assert_eq!(c.timeout(), RequestTimeout { secs: 2, nanos: 5 });
}

#[test]
fn wallet_url_drops_trailing_slashes() {
    let c = RealRpcClient::new("http://node:8370//", "u", "p", None, "main");
    assert_eq!(c.wallet_url(), "http://node:8370/wallet/main");
}

// ---- URLs ----

#[test]
fn blob_url_adds_vh_segment_once() {
    assert_eq!(poda_blob_url("https://poda.syscoin.org/vh/", "0xabc"), "https://poda.syscoin.org/vh/abc");
    assert_eq!(poda_blob_url("https://poda.syscoin.org", "abc"), "https://poda.syscoin.org/vh/abc");
    assert_eq!(poda_blob_url("https://poda.syscoin.org//", "abc"), "https://poda.syscoin.org/vh/abc");
    let c = client("http://n", "http://p/vh");
    assert_eq!(c.poda_blob_url("0x12"), "http://p/vh/12");
}

#[test]
fn check_vh_url_replaces_one_known_suffix() {
    assert_eq!(poda_check_vh_batch_url("http://p/vh"), "http://p/check_vh");
    assert_eq!(poda_check_vh_batch_url("http://p/check_vh/"), "http://p/check_vh");
    assert_eq!(poda_check_vh_batch_url("http://p"), "http://p/check_vh");
    assert_eq!(poda_check_vh_batch_url("http://p/vh/check_vh"), "http://p/vh/check_vh");
    let c = client("http://n", "http://p/vh/");
    assert_eq!(c.poda_check_vh_batch_url(), "http://p/check_vh");
    assert_eq!(poda_check_vh_batch_url(&c.poda_check_vh_batch_url()), "http://p/check_vh");
}

#[test]
fn normalized_blob_id_strips_one_prefix() {
    let c = client("http://n", "http://p");
    assert_eq!(c.normalized_blob_id("0xabc"), "abc");
    assert_eq!(c.normalized_blob_id("0x0xabc"), "0xabc");
    assert_eq!(c.normalized_blob_id("abc"), "abc");
    assert_eq!(strip_hex_prefix_str("0X12"), "0X12");
}

// ---- check_vh answers ----

#[test]
fn truthy_words() {
    for t in ["0", "false", "missing", "not_found", "not found", "notfound", " FALSE ", "Not Found\n"] {
        assert!(!truthy_check_vh_response(t), "{t:?}");
    }
    for t in ["1", "true", "yes", "", "found"] {
        assert!(truthy_check_vh_response(t), "{t:?}");
    }
}

#[test]
fn check_vh_values() {
    assert!(check_vh_value_exists(&JsonValue::Bool(true)));
    assert!(!check_vh_value_exists(&JsonValue::Bool(false)));
    assert!(!check_vh_value_exists(&num(0)));
    assert!(check_vh_value_exists(&num(2)));
    assert!(!check_vh_value_exists(&JsonValue::Number(JsonNumber::NegInt(-1))));
    assert!(!check_vh_value_exists(&JsonValue::Number(JsonNumber::Float(1.0f64.to_bits()))));
    assert!(check_vh_value_exists(&JsonValue::Null));
    assert!(check_vh_value_exists(&JsonValue::Array(vec![])));
    assert!(!check_vh_value_exists(&text("missing")));
    assert!(!check_vh_value_exists(&obj(vec![("error", text("x")), ("exists", JsonValue::Bool(true))])));
    assert!(!check_vh_value_exists(&obj(vec![("error", JsonValue::Null), ("exists", JsonValue::Bool(false))])));
    assert!(check_vh_value_exists(&obj(vec![])));
    assert!(!check_vh_value_exists(&obj(vec![("found", text("not_found"))])));
    assert!(check_vh_value_exists(&obj(vec![("result", obj(vec![("available", num(1))]))])));
}

#[test]
fn check_vh_batch_shapes() {
    let two = hashes(&["aaa", "bbb"]);
    let list = JsonValue::Array(vec![JsonValue::Bool(true), num(0)]);
    assert_eq!(ok_flags(check_vh_batch_response_exists(&list, &two)), vec![true, false]);
    let short = JsonValue::Array(vec![JsonValue::Bool(true)]);
    assert_eq!(
        err_message(check_vh_batch_response_exists(&short, &two)),
        "check_vh batch response length mismatch: expected 2, got 1"
    );
    let results = obj(vec![("results", JsonValue::Array(vec![JsonValue::Bool(false), text("yes")]))]);
    assert_eq!(ok_flags(check_vh_batch_response_exists(&results, &two)), vec![false, true]);
    let bad_len = obj(vec![("result", JsonValue::Array(vec![]))]);
    assert_eq!(
        err_message(check_vh_batch_response_exists(&bad_len, &two)),
        "check_vh batch response length mismatch: expected 2, got 0"
    );
    let aggregate = obj(vec![("result", JsonValue::Bool(false))]);
    assert_eq!(ok_flags(check_vh_batch_response_exists(&aggregate, &two)), vec![false, false]);
    let found = obj(vec![("found", JsonValue::Bool(true))]);
    assert_eq!(ok_flags(check_vh_batch_response_exists(&found, &two)), vec![true, true]);
    let keyed = obj(vec![("bbb", JsonValue::Bool(false)), ("aaa", JsonValue::Bool(true))]);
    assert_eq!(ok_flags(check_vh_batch_response_exists(&keyed, &two)), vec![true, false]);
    let partial = obj(vec![("aaa", JsonValue::Bool(true))]);
    match check_vh_batch_response_exists(&partial, &two) {
        Err(ClientError::MissingCheckVhResult(h)) => assert_eq!(h, "bbb"),
        other => panic!("unexpected {:?}", other),
    }
    assert_eq!(
        err_message(check_vh_batch_response_exists(&partial, &two)),
        "missing check_vh result for version hash bbb"
    );
    assert_eq!(ok_flags(check_vh_batch_response_exists(&text("0"), &two)), vec![false, false]);
    assert_eq!(ok_flags(check_vh_batch_response_exists(&JsonValue::Null, &two)), vec![true, true]);
}

// ---- JSON-RPC replies ----

#[test]
fn single_reply_outcomes() {
    let ok = Ok(http_ok(envelope(Some(1), Some(num(3)), None)));
    assert!(matches!(rpc_reply_result(ok), Ok(JsonValue::Number(JsonNumber::PosInt(3)))));
    let missing = Ok(http_ok(envelope(Some(1), None, None)));
    assert_eq!(err_message(rpc_reply_result(missing)), "missing result in JSON-RPC response");
    let both = Ok(http_ok(envelope(Some(1), Some(num(3)), Some(error_text(-1, "boom")))));
    assert_eq!(err_message(rpc_reply_result(both)), r#"RPC error: {"code":-1,"message":"boom"}"#);
    let status = Ok(HttpReply {
        success: false,
        status: "503 Service Unavailable".to_string(),
        body: "down".to_string(),
        parsed: Ok(envelope(Some(1), Some(num(3)), None)),
    });
    assert_eq!(err_message(rpc_reply_result(status)), "HTTP error: 503 Service Unavailable returned body: down");
    let transport: Result<HttpReply<JsonRpcResponse>, ClientError> =
        Err(ClientError::Message("connection refused".to_string()));
    assert_eq!(err_message(rpc_reply_result(transport)), "connection refused");
}

#[test]
fn batch_answers_follow_ids_not_order() {
    let members = vec![
        envelope(Some(1), Some(text("b")), None),
        envelope(Some(0), Some(text("a")), None),
        envelope(Some(1), Some(text("b2")), None),
    ];
    let answers = order_batch_answers(members, 3).unwrap();
    assert_eq!(answers.len(), 3);
    assert!(matches!(&answers[0], Ok(JsonValue::String(s)) if s == "a"));
    assert!(matches!(&answers[1], Ok(JsonValue::String(s)) if s == "b2"));
    match &answers[2] {
        Err(e) => {
            assert!(matches!(e, ClientError::MissingBatchResponse(2)));
            assert_eq!(e.message(), "missing response for batch id 2");
        }
        other => panic!("unexpected {:?}", other),
    }
}

#[test]
fn batch_member_errors() {
    let no_id = vec![envelope(None, Some(num(1)), None)];
    assert_eq!(err_message(order_batch_answers(no_id, 1)), "missing id in JSON-RPC batch response");
    let text_id = vec![JsonRpcResponse { id: Some(text("0")), result: Some(num(1)), error: None }];
    assert!(matches!(order_batch_answers(text_id, 1), Err(ClientError::MissingBatchId)));
    let far = vec![envelope(Some(0), Some(num(1)), None), envelope(Some(5), Some(num(1)), None)];
    assert_eq!(err_message(order_batch_answers(far, 2)), "unexpected id 5 in JSON-RPC batch response");
    assert_eq!(ClientError::BatchIdOutOfRange.message(), "out of range integral type conversion attempted");
    let empty = order_batch_answers(Vec::new(), 0).unwrap();
    assert!(empty.is_empty());
}

#[test]
fn batch_reply_transport_errors() {
    let status: Result<HttpReply<Vec<JsonRpcResponse>>, ClientError> = Ok(HttpReply {
        success: false,
        status: "500 Internal Server Error".to_string(),
        body: "oops".to_string(),
        parsed: Err("x".to_string()),
    });
    assert_eq!(err_message(batch_reply_results(1, status)), "HTTP error: 500 Internal Server Error returned body: oops");
    let bad: Result<HttpReply<Vec<JsonRpcResponse>>, ClientError> = Ok(HttpReply {
        success: true,
        status: "200 OK".to_string(),
        body: "{}".to_string(),
        parsed: Err("invalid type: map, expected a sequence".to_string()),
    });
    assert_eq!(err_message(batch_reply_results(1, bad)), "invalid type: map, expected a sequence");
    let good = Ok(http_ok(vec![envelope(Some(0), Some(JsonValue::Null), None)]));
    let answers = batch_reply_results(1, good).unwrap();
    assert!(matches!(answers[0], Ok(JsonValue::Null)));
}

#[test]
fn request_envelope_shape() {
    let call = RpcCall::new("getblockcount", Vec::new());
    match call.into_body(7) {
        JsonValue::Object(entries) => {
            let keys: Vec<&str> = entries.iter().map(|(k, _)| k.as_str()).collect();
            assert_eq!(keys, vec!["jsonrpc", "id", "method", "params"]);
            assert!(matches!(&entries[0].1, JsonValue::String(s) if s == "2.0"));
            assert!(matches!(entries[1].1, JsonValue::Number(JsonNumber::PosInt(7))));
            assert!(matches!(&entries[2].1, JsonValue::String(s) if s == "getblockcount"));
            assert!(matches!(&entries[3].1, JsonValue::Array(p) if p.is_empty()));
        }
        other => panic!("unexpected {:?}", other),
    }
}

// ---- blobs ----

#[test]
fn created_hex_reads_back_as_the_same_bytes() {
    let data: Vec<u8> = vec![0, 255, 16, 171, 9];
    let c = client("http://n", "http://p");
    let hex = match c.create_blob(&data) {
        Step::Perform(_, Action::CallWallet(call)) => match &call.params[0] {
            JsonValue::String(s) => s.clone(),
            other => panic!("unexpected {:?}", other),
        },
        other => panic!("unexpected {:?}", other),
    };
    assert_eq!(hex, "00ff10ab09");
    let f = match c.get_blob("0xid") {
        Step::Perform(f, _) => f,
        other => panic!("unexpected {:?}", other),
    };
    assert_eq!(finish(f.resume(rpc_result(obj(vec![("data", text(&hex))])))).unwrap(), data);
}

#[test]
fn node_hex_may_carry_prefix_and_upper_case() {
    let c = client("http://n", "http://p");
    let f = match c.get_blob("id") {
        Step::Perform(f, _) => f,
        other => panic!("unexpected {:?}", other),
    };
    assert_eq!(finish(f.resume(rpc_result(obj(vec![("data", text("0xABcd"))])))).unwrap(), vec![0xab, 0xcd]);
}

#[test]
fn unusable_node_answers_fall_back_to_cloud() {
    let c = client("http://n", "http://p");
    let answers = vec![
        rpc_result(obj(vec![("data", text("abc"))])),
        rpc_result(obj(vec![("data", text("zz"))])),
        rpc_result(obj(vec![("txid", text("t"))])),
        rpc_result(obj(vec![("data", num(1))])),
        rpc_error(-5, "nope"),
    ];
    for answer in answers {
        let f = match c.get_blob("0xbeef") {
            Step::Perform(f, _) => f,
            other => panic!("unexpected {:?}", other),
        };
        let g = match f.resume(answer) {
            Step::Perform(g, Action::HttpGet(url)) => {
                assert_eq!(url, "http://p/vh/beef");
                g
            }
            other => panic!("unexpected {:?}", other),
        };
        assert_eq!(g.awaits(), ReplyKind::Bytes);
        let r = finish(g.resume(Reply::Bytes(Err(ClientError::HttpGetStatus("404 Not Found".to_string())))));
        assert_eq!(err_message(r), "HTTP GET error: 404 Not Found");
    }
}

#[test]
fn blob_size_limit() {
    let c = client("http://n", "http://p");
    let big = vec![0u8; MAX_BLOB_SIZE + 1];
    match c.create_blob(&big) {
        Step::Finish(Err(e)) => {
            assert!(matches!(e, ClientError::BlobTooLarge(2097153)));
            assert_eq!(e.message(), "blob size (2097153) exceeds maximum allowed (2097152)");
        }
        other => panic!("unexpected {:?}", other),
    }
    let exact = vec![7u8; MAX_BLOB_SIZE];
    assert!(matches!(c.create_blob(&exact), Step::Perform(_, Action::CallWallet(_))));
}

#[test]
fn create_blob_needs_version_hash_text() {
    let c = client("http://n", "http://p");
    for answer in [obj(vec![]), obj(vec![("versionhash", num(1))]), JsonValue::Null] {
        let f = match c.create_blob(b"x") {
            Step::Perform(f, _) => f,
            other => panic!("unexpected {:?}", other),
        };
        assert_eq!(err_message(finish(f.resume(rpc_result(answer)))), "Missing versionhash");
    }
}

// ---- existence ----

#[test]
fn no_ids_no_requests() {
    let c = client("http://n", "http://p");
    assert!(finish(c.blobs_exist(&[])).unwrap().is_empty());
    let ids: Vec<String> = (0..MAX_BLOB_EXISTENCE_BATCH).map(|i| format!("{i:x}")).collect();
    match c.blobs_exist(&ids) {
        Step::Perform(f, Action::CallBatch(calls)) => {
            assert_eq!(calls.len(), 32);
            assert_eq!(f.ids.len(), 32);
            assert_eq!(f.awaits(), ReplyKind::Batch);
        }
        other => panic!("unexpected {:?}", other),
    }
}

#[test]
fn existence_other_node_error_is_the_result() {
    let c = client("http://n", "http://p");
    let f = match c.blobs_exist(&hashes(&["a", "b"])) {
        Step::Perform(f, _) => f,
        other => panic!("unexpected {:?}", other),
    };
    let reply = Reply::Batch(Ok(http_ok(vec![
        envelope(Some(0), None, Some(error_text(-1, "internal"))),
        envelope(Some(1), Some(JsonValue::Null), None),
    ])));
    assert_eq!(err_message(finish(f.resume(reply))), r#"RPC error: {"code":-1,"message":"internal"}"#);
}

#[test]
fn existence_unanswered_id_is_an_error() {
    let c = client("http://n", "http://p");
    let f = match c.blobs_exist(&hashes(&["a", "b"])) {
        Step::Perform(f, _) => f,
        other => panic!("unexpected {:?}", other),
    };
    let reply = Reply::Batch(Ok(http_ok(vec![envelope(Some(0), Some(JsonValue::Null), None)])));
    assert_eq!(err_message(finish(f.resume(reply))), "missing response for batch id 1");
}

#[test]
fn existence_fills_cloud_answers_in_place() {
    let c = client("http://n", "http://p/vh");
    let f = match c.blobs_exist(&hashes(&["a", "0xb", "c", "d"])) {
        Step::Perform(f, _) => f,
        other => panic!("unexpected {:?}", other),
    };
    let nf = |h: &str| error_text(-32602, &format!("Could not find blob information for versionhash {h}"));
    let reply = Reply::Batch(Ok(http_ok(vec![
        envelope(Some(3), None, Some(nf("d"))),
        envelope(Some(0), Some(JsonValue::Null), None),
        envelope(Some(1), None, Some(nf("b"))),
        envelope(Some(2), Some(JsonValue::Null), None),
    ])));
    let g: Existence = match f.resume(reply) {
        Step::Perform(g, Action::PostJson { url, body }) => {
            assert_eq!(url, "http://p/check_vh");
            match body {
                JsonValue::Array(items) => {
                    let names: Vec<String> = items
                        .iter()
                        .map(|v| match v {
                            JsonValue::String(s) => s.clone(),
                            other => panic!("unexpected {:?}", other),
                        })
                        .collect();
                    assert_eq!(names, vec!["b".to_string(), "d".to_string()]);
                }
                other => panic!("unexpected {:?}", other),
            }
            g
        }
        other => panic!("unexpected {:?}", other),
    };
    assert!(g.is_well_formed());
    assert_eq!(g.awaits(), ReplyKind::Json);
    let answer = JsonValue::Array(vec![JsonValue::Bool(false), JsonValue::Bool(true)]);
    assert_eq!(finish(g.resume(Reply::Json(Ok(answer)))).unwrap(), vec![true, false, true, true]);
}

#[test]
fn existence_cloud_errors_are_the_result() {
    let c = client("http://n", "http://p");
    let f = match c.blob_exists("a") {
        Step::Perform(f, _) => f,
        other => panic!("unexpected {:?}", other),
    };
    let reply = Reply::Batch(Ok(http_ok(vec![envelope(Some(0), None, Some(error_text(-32602, "x")))])));
    let g = match f.resume(reply) {
        Step::Perform(g, Action::PostJson { .. }) => g,
        other => panic!("unexpected {:?}", other),
    };
    let r = finish(g.resume(Reply::Json(Err(ClientError::HttpPostStatus("502 Bad Gateway".to_string())))));
    assert_eq!(err_message(r), "HTTP POST error: 502 Bad Gateway");
    assert_eq!(ClientError::MissingExistenceResult.message(), "missing blob existence result");
}

// ---- finality ----

fn record_step(c: &SyscoinClient, confirmations: u64, record: JsonValue) -> Step<Finality, bool> {
    match c.check_blob_finality_by_confirmations("0xab", confirmations) {
        Step::Perform(f, Action::Call(_)) => f.resume(rpc_result(record)),
        other => panic!("unexpected {:?}", other),
    }
}

fn final_after_count(c: &SyscoinClient, confirmations: u64, height: u64, count: JsonValue) -> Result<bool, ClientError> {
    match record_step(c, confirmations, obj(vec![("height", num(height))])) {
        Step::Perform(g, Action::Call(call)) => {
            assert_eq!(call.method, "getblockcount");
            finish(g.resume(rpc_result(count)))
        }
        other => panic!("unexpected {:?}", other),
    }
}

#[test]
fn confirmations_count_the_blobs_own_block() {
    let c = client("http://n", "http://p");
    assert!(final_after_count(&c, 1, 100, num(100)).unwrap());
    assert!(!final_after_count(&c, 2, 100, num(100)).unwrap());
    assert!(final_after_count(&c, 1, 105, num(100)).unwrap());
    assert!(final_after_count(&c, 0, 105, num(100)).unwrap());
    assert!(!final_after_count(&c, u64::MAX, 0, num(10)).unwrap());
}

#[test]
fn confirmations_grow_with_height() {
    let c = client("http://n", "http://p");
    let mut seen_final = false;
    for tip in 100..110u64 {
        let now = final_after_count(&c, 6, 100, num(tip)).unwrap();
        assert!(!seen_final || now);
        seen_final = now;
    }
    assert!(seen_final);
}

#[test]
fn block_count_must_be_an_unsigned_integer() {
    let c = client("http://n", "http://p");
    let r = final_after_count(&c, 1, 100, text("104"));
    assert_eq!(err_message(r), "getblockcount returned non-u64 result");
    let r = final_after_count(&c, 1, 100, JsonValue::Number(JsonNumber::NegInt(-4)));
    assert!(matches!(r, Err(ClientError::NonU64BlockCount)));
}

#[test]
fn height_must_be_an_unsigned_integer() {
    let c = client("http://n", "http://p");
    assert!(!finish(record_step(&c, 1, obj(vec![("height", text("100"))]))).unwrap());
}

#[test]
fn chainlock_flag_must_be_true() {
    let c = client("http://n", "http://p");
    for record in [obj(vec![]), obj(vec![("chainlock", text("true"))]), JsonValue::Null] {
        match c.check_blob_finality("x") {
            Step::Perform(f, _) => assert!(!finish(f.resume(rpc_result(record))).unwrap()),
            other => panic!("unexpected {:?}", other),
        }
    }
    match c.check_blob_finality_with_mode("x", BitcoinDaFinalityMode::Chainlock, 9) {
        Step::Perform(f, _) => {
            assert_eq!(f.mode, BitcoinDaFinalityMode::Chainlock);
            assert!(finish(f.resume(rpc_result(obj(vec![("chainlock", JsonValue::Bool(true))])))).unwrap());
        }
        other => panic!("unexpected {:?}", other),
    }
}

#[test]
fn cloud_failures_mean_not_final() {
    let c = client("http://n", "http://p");
    let answers = vec![
        Reply::Json(Err(ClientError::HttpPostStatus("500".to_string()))),
        Reply::Json(Ok(JsonValue::Array(vec![JsonValue::Bool(false)]))),
        Reply::Json(Ok(JsonValue::Array(vec![]))),
        Reply::Json(Ok(obj(vec![("other", JsonValue::Bool(true))]))),
    ];
    for answer in answers {
        let f = match c.check_blob_finality("ab") {
            Step::Perform(f, _) => f,
            other => panic!("unexpected {:?}", other),
        };
        let g = match f.resume(rpc_error(-32602, "Could not find blob information for versionhash ab")) {
            Step::Perform(g, Action::PostJson { .. }) => g,
            other => panic!("unexpected {:?}", other),
        };
        assert_eq!(g.awaits(), ReplyKind::Json);
        assert!(!finish(g.resume(answer)).unwrap());
    }
}

// ---- wallet ----

#[test]
fn wallet_load_failure_creates_it() {
    let c = client("http://n", "http://p");
    let f = match c.create_or_load_wallet("w1") {
        Step::Perform(f, _) => f,
        other => panic!("unexpected {:?}", other),
    };
    let g = match f.resume(rpc_error(-18, "Wallet file verification failed. Failed to load database")) {
        Step::Perform(g, Action::Call(call)) => {
            assert_eq!(call.method, "createwallet");
            assert!(matches!(&call.params[0], JsonValue::String(s) if s == "w1"));
            g
        }
        other => panic!("unexpected {:?}", other),
    };
    assert!(g.creating);
    assert!(finish(g.resume(rpc_result(obj(vec![("name", text("w1"))])))).is_ok());
}

#[test]
fn wallet_creation_error_is_the_result() {
    let c = client("http://n", "http://p");
    let f = match c.create_or_load_wallet("w1") {
        Step::Perform(f, _) => f,
        other => panic!("unexpected {:?}", other),
    };
    let g = match f.resume(rpc_error(-18, "load failed")) {
        Step::Perform(g, _) => g,
        other => panic!("unexpected {:?}", other),
    };
    assert_eq!(
        err_message(finish(g.resume(rpc_error(-4, "Wallet already exists")))),
        r#"RPC error: {"code":-4,"message":"Wallet already exists"}"#
    );
}

#[test]
fn wallet_already_loaded_is_fine() {
    let c = client("http://n", "http://p");
    let f = match c.create_or_load_wallet("w1") {
        Step::Perform(f, _) => f,
        other => panic!("unexpected {:?}", other),
    };
    assert!(finish(f.resume(rpc_error(-35, "Wallet \\\"w1\\\" is already loaded."))).is_ok());
    let f = match c.create_or_load_wallet("w1") {
        Step::Perform(f, _) => f,
        other => panic!("unexpected {:?}", other),
    };
    assert!(finish(f.resume(rpc_error(-1, "unknown"))).is_err());
}

#[test]
fn label_lookup_answers() {
    let found = obj(vec![("sys1qfirst", obj(vec![])), ("sys1qsecond", obj(vec![]))]);
    assert_eq!(lookup_result(Ok(found)).unwrap(), Some("sys1qfirst".to_string()));
    assert_eq!(lookup_result(Ok(obj(vec![]))).unwrap(), None);
    assert_eq!(lookup_result(Ok(JsonValue::Array(vec![text("a")]))).unwrap(), None);
    let none = ClientError::Rpc(error_text(-11, "No addresses with label x"));
    assert_eq!(lookup_result(Err(none)).unwrap(), None);
    assert!(lookup_result(Err(ClientError::Rpc(error_text(-1, "x")))).is_err());
    assert_eq!(new_address_result(Ok(text("sys1q"))).unwrap(), "sys1q");
    assert_eq!(err_message(new_address_result(Ok(num(1)))), "getnewaddress returned non-string");
}

#[test]
fn ensure_address_creates_when_missing() {
    let c = client("http://n", "http://p");
    let f = match c.ensure_address_by_label("da") {
        Step::Perform(f, Action::CallWallet(call)) => {
            assert_eq!(call.method, "getaddressesbylabel");
            f
        }
        other => panic!("unexpected {:?}", other),
    };
    let g = match f.resume(rpc_error(-11, "No addresses with label da")) {
        Step::Perform(g, Action::CallWallet(call)) => {
            assert_eq!(call.method, "getnewaddress");
            assert!(matches!(&call.params[0], JsonValue::String(s) if s == "da"));
            g
        }
        other => panic!("unexpected {:?}", other),
    };
    assert_eq!(finish(g.resume(rpc_result(text("sys1qnew")))).unwrap(), "sys1qnew");
}

#[test]
fn wallet_then_address() {
    let c = SyscoinClient::new("http://n", "u", "p", "http://p", None, "own");
    let f = match c.ensure_own_wallet_and_address("lbl") {
        Step::Perform(f, Action::Call(call)) => {
            assert_eq!(call.method, "loadwallet");
            assert!(matches!(&call.params[0], JsonValue::String(s) if s == "own"));
            f
        }
        other => panic!("unexpected {:?}", other),
    };
    let g = match f.resume(rpc_result(JsonValue::Null)) {
        Step::Perform(g, Action::CallWallet(call)) => {
            assert_eq!(call.method, "getaddressesbylabel");
            g
        }
        other => panic!("unexpected {:?}", other),
    };
    let found = obj(vec![("sys1qx", obj(vec![]))]);
    assert_eq!(finish(g.resume(rpc_result(found))).unwrap(), "sys1qx");
    let f = match c.ensure_wallet_and_address("other", "lbl") {
        Step::Perform(f, _) => f,
        other => panic!("unexpected {:?}", other),
    };
    assert!(finish(f.resume(rpc_error(-1, "no"))).is_err());
}

#[test]
fn balance_parameters_and_answers() {
    let rc = RealRpcClient::new("http://n", "u", "p", None, "w");
    let params = |a: Option<&str>, w: Option<bool>| match rc.get_balance(a, w) {
        Step::Perform(_, Action::CallWallet(call)) => call.params.len(),
        other => panic!("unexpected {:?}", other),
    };
    assert_eq!(params(None, None), 0);
    assert_eq!(params(None, Some(true)), 0);
    assert_eq!(params(Some("*"), None), 1);
    assert_eq!(params(Some("*"), Some(false)), 2);
    let q = match rc.get_balance(None, None) {
        Step::Perform(q, _) => q,
        other => panic!("unexpected {:?}", other),
    };
    assert_eq!(err_message(finish(q.resume(rpc_result(text("1.5"))))), "Invalid balance format");
}

// ---- fees ----

#[test]
fn amount_members() {
    let v = obj(vec![("a", JsonValue::Number(JsonNumber::Float(0.5f64.to_bits()))), ("b", text("0.25")), ("c", JsonValue::Bool(true))]);
    assert!(matches!(read_amount_member(&v, "a"), Ok(Some(AmountSource::Number(_)))));
    assert!(matches!(read_amount_member(&v, "b"), Ok(Some(AmountSource::Text(ref s))) if s == "0.25"));
    assert_eq!(err_message(read_amount_member(&v, "c")), "Invalid amount format");
    assert!(matches!(read_amount_member(&v, "d"), Ok(None)));
    assert_eq!(ClientError::NoBaseFee.message(), "Failed to determine Syscoin blob base fee");
}

#[test]
fn fee_errors_stop_early() {
    let c = client("http://n", "http://p");
    let f = match c.get_blob_base_fee(2) {
        Step::Perform(f, _) => f,
        other => panic!("unexpected {:?}", other),
    };
    let r = finish(f.resume(rpc_result(obj(vec![("feerate", JsonValue::Null)]))));
    assert_eq!(err_message(r), "Invalid amount format");
    let f = match c.get_blob_base_fee(2) {
        Step::Perform(f, _) => f,
        other => panic!("unexpected {:?}", other),
    };
    let g = match f.resume(rpc_result(obj(vec![("errors", JsonValue::Array(vec![]))]))) {
        Step::Perform(g, _) => g,
        other => panic!("unexpected {:?}", other),
    };
    let rates = finish(g.resume(rpc_result(obj(vec![("minrelaytxfee", text("0.00001"))])))).unwrap();
    assert!(rates.estimate.is_none());
    assert!(rates.mempool_min.is_none());
    assert!(matches!(rates.min_relay, Some(AmountSource::Text(ref s)) if s == "0.00001"));
}

// ---- mock ----

#[test]
fn mock_answers() {
    let m = MockRpcClient {};
    assert!(matches!(m.call("getbalance", &[]), Ok(JsonValue::Number(JsonNumber::Float(MOCK_BALANCE_BITS)))));
    assert_eq!(f64::from_bits(MOCK_BALANCE_BITS), 10.5);
    match m.call_wallet("syscoincreatenevmblob", &[]) {
        Ok(v) => assert_eq!(v.get("versionhash").and_then(|h| h.as_str()), Some("mock_blob_hash")),
        other => panic!("unexpected {:?}", other),
    }
    match m.call("getnevmblobdata", &[text("x")]) {
        Ok(v) => assert_eq!(v.get("data").and_then(|h| h.as_str()), Some("6d6f636b5f64617461")),
        other => panic!("unexpected {:?}", other),
    }
    assert!(m.call("loadwallet", &[]).unwrap().is_null());
    assert!(m.call("createwallet", &[]).unwrap().is_null());
    assert_eq!(err_message(m.call("getblockcount", &[])), "Unimplemented mock method");
    assert!(matches!(m.get_balance(Some("a"), Some(true)), Ok(JsonNumber::Float(MOCK_BALANCE_BITS))));
    assert_eq!(m.http_get("http://anything").unwrap(), b"mock_data".to_vec());
}

// ---- messages and small pieces ----

#[test]
fn error_messages() {
    let cases: Vec<(ClientError, &str)> = vec![
        (ClientError::Message("m".to_string()), "m"),
        (ClientError::HttpStatus { status: "404 Not Found".to_string(), body: "b".to_string() }, "HTTP error: 404 Not Found returned body: b"),
        (ClientError::HttpGetStatus("404 Not Found".to_string()), "HTTP GET error: 404 Not Found"),
        (ClientError::HttpPostStatus("400 Bad Request".to_string()), "HTTP POST error: 400 Bad Request"),
        (ClientError::InvalidJson("expected value".to_string()), "expected value"),
        (ClientError::Rpc("{}".to_string()), "RPC error: {}"),
        (ClientError::MissingResult, "missing result in JSON-RPC response"),
        (ClientError::MissingBatchId, "missing id in JSON-RPC batch response"),
        (ClientError::UnexpectedBatchId(0), "unexpected id 0 in JSON-RPC batch response"),
        (ClientError::MissingBatchResponse(10), "missing response for batch id 10"),
        (ClientError::InvalidBalance, "Invalid balance format"),
        (ClientError::InvalidAmount, "Invalid amount format"),
        (ClientError::BlobTooLarge(0), "blob size (0) exceeds maximum allowed (2097152)"),
        (ClientError::MissingVersionHash, "Missing versionhash"),
        (ClientError::NonStringAddress, "getnewaddress returned non-string"),
        (ClientError::MissingBlobData, "Missing data in getnevmblobdata response"),
        (ClientError::InvalidHex("Odd number of digits".to_string()), "Odd number of digits"),
        (ClientError::TooManyBlobs(100), "blob existence batch exceeds maximum of 32: got 100"),
        (ClientError::CheckVhLengthMismatch { expected: 3, got: 12 }, "check_vh batch response length mismatch: expected 3, got 12"),
        (ClientError::MissingCheckVhResult("h".to_string()), "missing check_vh result for version hash h"),
        (ClientError::NonU64BlockCount, "getblockcount returned non-u64 result"),
    ];
    for (e, m) in cases {
        assert_eq!(e.message(), m);
    }
}

#[test]
fn not_found_detection() {
    assert!(ClientError::Rpc(error_text(-32602, "x")).is_blob_not_found());
    assert!(ClientError::Message("Could not find blob information for versionhash 1".to_string()).is_blob_not_found());
    assert!(!ClientError::Rpc(error_text(-5, "Blob not found")).is_blob_not_found());
    assert!(!ClientError::MissingResult.is_blob_not_found());
}

#[test]
fn action_and_reply_kinds() {
    assert_eq!(Action::Call(RpcCall::new("a", vec![])).reply_kind(), ReplyKind::Rpc);
    assert_eq!(Action::CallWallet(RpcCall::new("a", vec![])).reply_kind(), ReplyKind::Rpc);
    assert_eq!(Action::CallBatch(vec![]).reply_kind(), ReplyKind::Batch);
    assert_eq!(Action::HttpGet("u".to_string()).reply_kind(), ReplyKind::Bytes);
    assert_eq!(Action::PostJson { url: "u".to_string(), body: JsonValue::Null }.reply_kind(), ReplyKind::Json);
    assert_eq!(Reply::Bytes(Ok(vec![])).kind(), ReplyKind::Bytes);
    assert_eq!(Reply::Json(Ok(JsonValue::Null)).kind(), ReplyKind::Json);
    assert_eq!(Reply::Batch(Ok(http_ok(vec![]))).kind(), ReplyKind::Batch);
    assert_eq!(rpc_result(JsonValue::Null).kind(), ReplyKind::Rpc);
}

#[test]
fn json_accessors() {
    let v = obj(vec![("k", num(5)), ("k", num(6)), ("b", JsonValue::Bool(true)), ("s", text("t"))]);
    assert_eq!(v.get("k").and_then(|x| x.as_u64()), Some(5));
    assert_eq!(v.get("b").and_then(|x| x.as_bool()), Some(true));
    assert_eq!(v.get("s").and_then(|x| x.as_str()), Some("t"));
    assert!(v.get("zz").is_none());
    assert!(num(1).get("k").is_none());
    assert_eq!(text("t").as_u64(), None);
    match &v {
        JsonValue::Object(entries) => {
            assert_eq!(find_key(entries, "b"), Some(2));
            assert_eq!(find_key(entries, "k"), Some(0));
            assert_eq!(find_key(entries, "q"), None);
        }
        _ => unreachable!(),
    }
    assert!(matches!(json_text("hi"), JsonValue::String(ref s) if s == "hi"));
    let list = text_list(&vec!["x".to_string(), "y".to_string()]);
    assert!(matches!(list, JsonValue::Array(ref items) if items.len() == 2));
}

#[test]
fn text_helpers() {
    assert_eq!(decimal_chars(0).into_iter().collect::<String>(), "0");
    assert_eq!(decimal_chars(1234567890).into_iter().collect::<String>(), "1234567890");
    assert_eq!(decimal_chars(u64::MAX).into_iter().collect::<String>(), u64::MAX.to_string());
    let t: Vec<char> = " \t a b \n".chars().collect();
    assert_eq!(trim_chars(&t).into_iter().collect::<String>(), "a b");
    let m: Vec<char> = "MiXeD-Ünï".chars().collect();
    assert_eq!(ascii_lowercase_chars(&m).into_iter().collect::<String>(), "mixed-Ünï");
    assert!(str_contains("abcabd", "abd"));
    assert!(str_contains("abc", ""));
    assert!(!str_contains("ab", "abc"));
}

#[test]
fn different_data_make_different_create_requests() {
    let c = client("http://n", "http://p");
    let hex_of = |data: &[u8]| match c.create_blob(data) {
        Step::Perform(_, Action::CallWallet(call)) => match &call.params[0] {
            JsonValue::String(s) => s.clone(),
            other => panic!("unexpected {:?}", other),
        },
        other => panic!("unexpected {:?}", other),
    };
    assert_eq!(hex_of(b"ab"), hex_of(b"ab"));
    assert_ne!(hex_of(b"ab"), hex_of(b"ac"));
    assert_ne!(hex_of(&[1, 2]), hex_of(&[0x12]));
    assert_eq!(hex_of(&[]), "");
}

#[test]
fn prefixed_ids_name_the_same_blob() {
    let c = client("http://n", "http://p");
    let id_of = |blob_id: &str| match c.get_blob(blob_id) {
        Step::Perform(f, Action::Call(call)) => {
            let id = match &call.params[0] {
                JsonValue::String(s) => s.clone(),
                other => panic!("unexpected {:?}", other),
            };
            (id, f.cloud_url.clone())
        }
        other => panic!("unexpected {:?}", other),
    };
    assert_eq!(id_of("0xfeed"), id_of("feed"));
    assert_eq!(id_of("0x0xfeed").0, "0xfeed");
    let exists_id = |blob_id: &str| match c.blob_exists(blob_id) {
        Step::Perform(f, _) => f.inner.ids[0].clone(),
        other => panic!("unexpected {:?}", other),
    };
    assert_eq!(exists_id("0xfeed"), "feed");
    assert_eq!(exists_id("feed"), "feed");
}

fn call_text(a: &Action) -> String {
    match a {
        Action::Call(c) | Action::CallWallet(c) => {
            let params: Vec<String> = c
                .params
                .iter()
                .map(|p| match p {
                    JsonValue::String(s) => s.clone(),
                    other => format!("{:?}", other),
                })
                .collect();
            format!("{}({})", c.method, params.join(","))
        }
        other => format!("{:?}", other),
    }
}

#[test]
fn wallet_and_address_again_creates_nothing() {
    let c = client("http://n", "http://p");
    let f = match c.ensure_wallet_and_address("w1", "lbl") {
        Step::Perform(f, a) => {
            assert_eq!(call_text(&a), "loadwallet(w1)");
            f
        }
        other => panic!("unexpected {:?}", other),
    };
    let g = match f.resume(rpc_error(-35, "Wallet file w1 is already loaded.")) {
        Step::Perform(g, a) => {
            assert_eq!(call_text(&a), "getaddressesbylabel(lbl)");
            g
        }
        other => panic!("unexpected {:?}", other),
    };
    let found = obj(vec![("sys1qsame", obj(vec![("purpose", text("receive"))]))]);
    assert_eq!(finish(g.resume(rpc_result(found))).unwrap(), "sys1qsame");
}

#[test]
fn own_wallet_runs_as_named_wallet() {
    let c = SyscoinClient::new("http://n", "u", "p", "http://p", None, "own");
    let replies = |_: usize| -> Vec<Reply> {
        vec![
            rpc_error(-18, "Wallet file verification failed"),
            rpc_result(JsonValue::Null),
            rpc_error(-11, "No addresses with label lbl"),
            rpc_result(text("sys1qnew")),
        ]
    };
    let mut traces: Vec<(Vec<String>, String)> = Vec::new();
    for (k, first) in [c.ensure_own_wallet_and_address("lbl"), c.ensure_wallet_and_address("own", "lbl")]
        .into_iter()
        .enumerate()
    {
        let mut calls = Vec::new();
        let mut step = first;
        let mut rs = replies(k).into_iter();
        let result = loop {
            match step {
                Step::Perform(s, a) => {
                    calls.push(call_text(&a));
                    step = s.resume(rs.next().expect("a reply"));
                }
                Step::Finish(r) => break r.unwrap(),
            }
        };
        traces.push((calls, result));
    }
    assert_eq!(
        traces[0].0,
        vec!["loadwallet(own)", "createwallet(own)", "getaddressesbylabel(lbl)", "getnewaddress(lbl)"]
    );
    assert_eq!(traces[0], traces[1]);
}

#[test]
fn blob_exists_is_blobs_exist_of_one() {
    let c = client("http://n", "http://p");
    let nf = error_text(-32602, "Could not find blob information for versionhash ab");
    let one = match c.blob_exists("0xab") {
        Step::Perform(f, Action::CallBatch(calls)) => {
            assert_eq!(calls.len(), 1);
            assert_eq!(calls[0].method, "getnevmblobdata");
            assert!(matches!(&calls[0].params[0], JsonValue::String(s) if s == "ab"));
            let g = match f.resume(Reply::Batch(Ok(http_ok(vec![envelope(Some(0), None, Some(nf.clone()))])))) {
                Step::Perform(g, Action::PostJson { .. }) => g,
                other => panic!("unexpected {:?}", other),
            };
            finish(g.resume(Reply::Json(Ok(JsonValue::Array(vec![JsonValue::Bool(true)]))))).unwrap()
        }
        other => panic!("unexpected {:?}", other),
    };
    let many = match c.blobs_exist(&hashes(&["0xab"])) {
        Step::Perform(f, Action::CallBatch(calls)) => {
            assert_eq!(calls.len(), 1);
            assert!(matches!(&calls[0].params[0], JsonValue::String(s) if s == "ab"));
            let g = match f.resume(Reply::Batch(Ok(http_ok(vec![envelope(Some(0), None, Some(nf.clone()))])))) {
                Step::Perform(g, Action::PostJson { .. }) => g,
                other => panic!("unexpected {:?}", other),
            };
            finish(g.resume(Reply::Json(Ok(JsonValue::Array(vec![JsonValue::Bool(true)]))))).unwrap()
        }
        other => panic!("unexpected {:?}", other),
    };
    assert_eq!(many, vec![one]);
}

#[test]
fn requests_for_each_action() {
    let rc = RealRpcClient::new("http://node:8370/", "u", "p", None, "w1");
    let r = rc.http_request(Action::Call(RpcCall::new("getblockcount", vec![])));
    assert_eq!(r.method, HttpMethod::Post);
    assert_eq!(r.url, "http://node:8370/");
    assert!(r.node_auth);
    assert_eq!(r.reply, ReplyKind::Rpc);
    assert_eq!(SINGLE_CALL_ID, 1);
    match r.body {
        Some(JsonValue::Object(entries)) => assert!(matches!(entries[1].1, JsonValue::Number(JsonNumber::PosInt(1)))),
        other => panic!("unexpected {:?}", other),
    }
    let w = rc.http_request(Action::CallWallet(RpcCall::new("getbalance", vec![])));
    assert_eq!(w.url, "http://node:8370/wallet/w1");
    assert!(w.node_auth);
    let b = rc.http_request(Action::CallBatch(vec![RpcCall::new("a", vec![]), RpcCall::new("b", vec![])]));
    assert_eq!(b.url, "http://node:8370/");
    assert_eq!(b.reply, ReplyKind::Batch);
    assert!(matches!(b.body, Some(JsonValue::Array(ref items)) if items.len() == 2));
    let g = rc.http_request(Action::HttpGet("http://p/vh/ab".to_string()));
    assert_eq!((g.method, g.url.as_str(), g.node_auth, g.body.is_none(), g.reply), (HttpMethod::Get, "http://p/vh/ab", false, true, ReplyKind::Bytes));
    let j = rc.http_request(Action::PostJson { url: "http://p/check_vh".to_string(), body: JsonValue::Null });
    assert_eq!((j.method, j.url.as_str(), j.node_auth, j.reply), (HttpMethod::Post, "http://p/check_vh", false, ReplyKind::Json));
    assert!(matches!(j.body, Some(JsonValue::Null)));
}

fn finality_result(step: Step<Finality, bool>, replies: Vec<Reply>) -> (Vec<String>, Result<bool, ClientError>) {
    let mut calls = Vec::new();
    let mut step = step;
    let mut rs = replies.into_iter();
    loop {
        match step {
            Step::Perform(f, a) => {
                calls.push(call_text(&a));
                step = f.resume(rs.next().expect("a reply"));
            }
            Step::Finish(r) => return (calls, r),
        }
    }
}

#[test]
fn lower_threshold_stays_final() {
    let c = client("http://n", "http://p");
    let replies = || vec![rpc_result(obj(vec![("height", num(100))])), rpc_result(num(104))];
    for required in 0..8u64 {
        let (calls, r) = finality_result(c.check_blob_finality_by_confirmations("ab", required), replies());
        assert_eq!(calls, vec!["getnevmblobdata(ab)".to_string(), "getblockcount()".to_string()]);
        assert_eq!(r.unwrap(), required <= 5, "required {required}");
    }
}

#[test]
fn finality_mode_dispatch_runs_the_same() {
    let c = client("http://n", "http://p");
    let chain = || vec![rpc_result(obj(vec![("chainlock", JsonValue::Bool(true)), ("height", num(1))]))];
    let a = finality_result(c.check_blob_finality("0xab"), chain());
    let b = finality_result(c.check_blob_finality_with_mode("0xab", BitcoinDaFinalityMode::Chainlock, 9), chain());
    assert_eq!(a.0, b.0);
    assert_eq!(a.1.unwrap(), b.1.unwrap());
    let conf = || vec![rpc_result(obj(vec![("height", num(10))])), rpc_result(num(11))];
    let a = finality_result(c.check_blob_finality_by_confirmations("ab", 3), conf());
    let b = finality_result(c.check_blob_finality_with_mode("ab", BitcoinDaFinalityMode::Confirmations, 3), conf());
    assert_eq!(a.0, b.0);
    assert_eq!(a.1.unwrap(), b.1.unwrap());
}

#[test]
fn prestripped_ids_run_the_same() {
    let c = client("http://n", "http://p");
    let nf = error_text(-32602, "Could not find blob information for versionhash cd");
    let run = |ids: &[&str]| -> (Vec<String>, Vec<bool>) {
        let mut sent = Vec::new();
        let f = match c.blobs_exist(&hashes(ids)) {
            Step::Perform(f, Action::CallBatch(calls)) => {
                for call in &calls {
                    sent.push(format!("{}({:?})", call.method, call.params));
                }
                f
            }
            other => panic!("unexpected {:?}", other),
        };
        let reply = Reply::Batch(Ok(http_ok(vec![
            envelope(Some(0), Some(JsonValue::Null), None),
            envelope(Some(1), None, Some(nf.clone())),
        ])));
        let g = match f.resume(reply) {
            Step::Perform(g, Action::PostJson { body, .. }) => {
                sent.push(format!("{:?}", body));
                g
            }
            other => panic!("unexpected {:?}", other),
        };
        (sent, finish(g.resume(Reply::Json(Ok(JsonValue::Bool(false))))).unwrap())
    };
    assert_eq!(run(&["0xab", "0xcd"]), run(&["ab", "cd"]));
    assert_ne!(run(&["0x0xab", "cd"]).0, run(&["0xab", "cd"]).0);
}
