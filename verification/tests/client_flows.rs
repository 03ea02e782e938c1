use bitcoin_da_client::client::{RequestTimeout, SyscoinClient};
use bitcoin_da_client::error::ClientError;
use bitcoin_da_client::fee::AmountSource;
use bitcoin_da_client::finality::BitcoinDaFinalityMode;
use bitcoin_da_client::flow::{Action, Reply, Step};
use bitcoin_da_client::json::{JsonNumber, JsonValue};
use bitcoin_da_client::rpc::{HttpReply, JsonRpcResponse};

fn quote(s: &str) -> String {
    let mut out = String::from("\"");
    for c in s.chars() {
        match c {
            '"' => out.push_str("\\\""),
            '\\' => out.push_str("\\\\"),
            _ => out.push(c),
        }
    }
    out.push('"');
    out
}

/// Compact JSON text of a value, members in their stored order.
fn render(v: &JsonValue) -> String {
    match v {
        JsonValue::Null => "null".to_string(),
        JsonValue::Bool(b) => b.to_string(),
        JsonValue::Number(JsonNumber::PosInt(n)) => n.to_string(),
        JsonValue::Number(JsonNumber::NegInt(n)) => n.to_string(),
        JsonValue::Number(JsonNumber::Float(bits)) => f64::from_bits(*bits).to_string(),
        JsonValue::String(s) => quote(s),
        JsonValue::Array(items) => {
            let parts: Vec<String> = items.iter().map(render).collect();
            format!("[{}]", parts.join(","))
        }
        JsonValue::Object(entries) => {
            let parts: Vec<String> =
                entries.iter().map(|(k, v)| format!("{}:{}", quote(k), render(v))).collect();
            format!("{{{}}}", parts.join(","))
        }
    }
}

fn text(s: &str) -> JsonValue {
    JsonValue::String(s.to_string())
}

fn num(n: u64) -> JsonValue {
    JsonValue::Number(JsonNumber::PosInt(n))
}

fn float(x: f64) -> JsonValue {
    JsonValue::Number(JsonNumber::Float(x.to_bits()))
}

fn obj(entries: Vec<(&str, JsonValue)>) -> JsonValue {
    JsonValue::Object(entries.into_iter().map(|(k, v)| (k.to_string(), v)).collect())
}

fn error_text(code: i64, message: &str) -> String {
    format!("{{\"code\":{},\"message\":{}}}", code, quote(message))
}

fn envelope(id: Option<u64>, result: Option<JsonValue>, error: Option<String>) -> JsonRpcResponse {
    JsonRpcResponse { id: id.map(num), result, error }
}

fn http_ok<T>(parsed: T) -> HttpReply<T> {
    HttpReply { success: true, status: "200 OK".to_string(), body: String::new(), parsed: Ok(parsed) }
}

fn rpc_result(result: JsonValue) -> Reply {
    Reply::Rpc(Ok(http_ok(envelope(Some(1), Some(result), None))))
}

fn rpc_error(code: i64, message: &str) -> Reply {
    Reply::Rpc(Ok(http_ok(envelope(Some(1), None, Some(error_text(code, message))))))
}

fn not_found(hash: &str) -> String {
    error_text(-32602, &format!("Could not find blob information for versionhash {}", hash))
}

fn client(rpc_url: &str, poda_url: &str) -> SyscoinClient {
    SyscoinClient::new(rpc_url, "user", "password", poda_url, None, "test_wallet")
}

/// The body of the HTTP request that the client sends for `action`.
fn request_text(action: Action) -> String {
    let config = SyscoinClient::new("http://node", "user", "password", "http://poda", None, "test_wallet");
    match config.rpc_client().http_request(action).body {
        Some(body) => render(&body),
        None => panic!("a node request carries a body"),
    }
}

#[test]
fn test_syscoin_client_creation() {
    let timeout = Some(RequestTimeout { secs: 30, nanos: 0 });
    let c = SyscoinClient::new(
        "http://localhost:8888",
        "user",
        "password",
        "http://poda.example.com",
        timeout,
        "test_wallet",
    );
    assert_eq!(c.rpc_client().rpc_url(), "http://localhost:8888");
    assert_eq!(c.rpc_client().rpc_user(), "user");
    assert_eq!(c.rpc_client().rpc_password(), "password");
    assert_eq!(c.rpc_client().timeout(), RequestTimeout { secs: 30, nanos: 0 });
    assert_eq!(c.rpc_client().wallet_name(), "test_wallet");
    assert_eq!(c.poda_url(), "http://poda.example.com");
}

#[test]
fn test_get_balance() {
    let c = client("http://127.0.0.1:40001", "http://poda.example.com");
    assert_eq!(c.rpc_client().wallet_url(), "http://127.0.0.1:40001/wallet/test_wallet");
    let (q, call) = match c.get_balance() {
        Step::Perform(q, a @ Action::CallWallet(_)) => (q, a),
        other => panic!("unexpected step {:?}", other),
    };
    assert_eq!(request_text(call), r#"{"jsonrpc":"2.0","id":1,"method":"getbalance","params":[]}"#);
    let reply = Reply::Rpc(Ok(http_ok(envelope(None, Some(float(100.5)), None))));
    match q.resume(reply) {
        Step::Finish(Ok(JsonNumber::Float(bits))) => assert_eq!(f64::from_bits(bits), 100.5),
        other => panic!("unexpected step {:?}", other),
    }
}

#[test]
fn test_create_blob() {
    let c = client("http://127.0.0.1:40002", "http://poda.example.com");
    let (f, call) = match c.create_blob(&[1, 2, 3, 4]) {
        Step::Perform(f, a @ Action::CallWallet(_)) => (f, a),
        other => panic!("unexpected step {:?}", other),
    };
    assert_eq!(
        request_text(call),
        r#"{"jsonrpc":"2.0","id":1,"method":"syscoincreatenevmblob","params":["01020304",false,"blake2s"]}"#
    );
    match f.resume(rpc_result(obj(vec![("versionhash", text("deadbeef"))]))) {
        Step::Finish(Ok(hash)) => assert_eq!(hash, "deadbeef"),
        other => panic!("unexpected step {:?}", other),
    }
}

#[test]
fn test_get_blob_from_cloud() {
    let server = "http://127.0.0.1:40003";
    let c = client("http://localhost:8888", server);
    let f = match c.get_blob("deadbeef") {
        Step::Perform(f, Action::Call(_)) => f,
        other => panic!("unexpected step {:?}", other),
    };
    let failed = Reply::Rpc(Ok(HttpReply {
        success: false,
        status: "500 Internal Server Error".to_string(),
        body: "RPC error".to_string(),
        parsed: Err("expected value at line 1 column 1".to_string()),
    }));
    let (g, url) = match f.resume(failed) {
        Step::Perform(g, Action::HttpGet(url)) => (g, url),
        other => panic!("unexpected step {:?}", other),
    };
    assert_eq!(url, format!("{}/vh/deadbeef", server));
    match g.resume(Reply::Bytes(Ok(b"retrieved data".to_vec()))) {
        Step::Finish(Ok(data)) => assert_eq!(data, b"retrieved data".to_vec()),
        other => panic!("unexpected step {:?}", other),
    }
}

#[test]
fn test_get_blob_from_cloud_uses_vh() {
    let server = "http://127.0.0.1:40004";
    let c = client("http://localhost:8888", server);
    let (f, url) = match c.get_blob_from_cloud("deadbeef") {
        Step::Perform(f, Action::HttpGet(url)) => (f, url),
        other => panic!("unexpected step {:?}", other),
    };
    assert_eq!(url, format!("{}/vh/deadbeef", server));
    match f.resume(Reply::Bytes(Ok(Vec::new()))) {
        Step::Finish(Ok(data)) => assert!(data.is_empty()),
        other => panic!("unexpected step {:?}", other),
    }
}

#[test]
fn test_blob_exists_uses_metadata_only_rpc() {
    let server = "http://127.0.0.1:40005";
    let c = client(server, server);
    let (f, calls) = match c.blob_exists("0xdeadbeef") {
        Step::Perform(f, a @ Action::CallBatch(_)) => (f, a),
        other => panic!("unexpected step {:?}", other),
    };
    assert_eq!(
        request_text(calls),
        r#"[{"jsonrpc":"2.0","id":0,"method":"getnevmblobdata","params":["deadbeef",false]}]"#
    );
    let reply = Reply::Batch(Ok(http_ok(vec![envelope(
        Some(0),
        Some(obj(vec![("versionhash", text("deadbeef"))])),
        None,
    )])));
    assert!(f.inner.is_well_formed());
    match f.resume(reply) {
        Step::Finish(Ok(exists)) => assert!(exists),
        other => panic!("unexpected step {:?}", other),
    }
}

#[test]
fn test_blob_exists_cloud_fallback_uses_check_vh() {
    let server = "http://127.0.0.1:40006";
    let poda_url = format!("{}/vh", server);
    let c = client(server, &poda_url);
    let f = match c.blob_exists("deadbeef") {
        Step::Perform(f, Action::CallBatch(_)) => f,
        other => panic!("unexpected step {:?}", other),
    };
    let reply = Reply::Batch(Ok(http_ok(vec![envelope(Some(0), None, Some(not_found("deadbeef")))])));
    let (g, url, body) = match f.resume(reply) {
        Step::Perform(g, Action::PostJson { url, body }) => (g, url, body),
        other => panic!("unexpected step {:?}", other),
    };
    assert_eq!(url, format!("{}/check_vh", server));
    assert_eq!(render(&body), r#"["deadbeef"]"#);
    assert!(g.inner.is_well_formed());
    match g.resume(Reply::Json(Ok(JsonValue::Array(vec![JsonValue::Bool(true)])))) {
        Step::Finish(Ok(exists)) => assert!(exists),
        other => panic!("unexpected step {:?}", other),
    }
}

#[test]
fn test_blobs_exist_batches_rpc_and_check_vh_fallback() {
    let server = "http://127.0.0.1:40007";
    let c = client(server, server);
    let ids = vec!["0xaaa".to_string(), "bbb".to_string()];
    let (f, calls) = match c.blobs_exist(&ids) {
        Step::Perform(f, a @ Action::CallBatch(_)) => (f, a),
        other => panic!("unexpected step {:?}", other),
    };
    assert_eq!(
        request_text(calls),
        r#"[{"jsonrpc":"2.0","id":0,"method":"getnevmblobdata","params":["aaa",false]},{"jsonrpc":"2.0","id":1,"method":"getnevmblobdata","params":["bbb",false]}]"#
    );
    let reply = Reply::Batch(Ok(http_ok(vec![
        envelope(Some(0), Some(obj(vec![("versionhash", text("aaa"))])), None),
        envelope(Some(1), None, Some(not_found("bbb"))),
    ])));
    let (g, url, body) = match f.resume(reply) {
        Step::Perform(g, Action::PostJson { url, body }) => (g, url, body),
        other => panic!("unexpected step {:?}", other),
    };
    assert_eq!(url, format!("{}/check_vh", server));
    assert_eq!(render(&body), r#"["bbb"]"#);
    assert!(g.is_well_formed());
    match g.resume(Reply::Json(Ok(JsonValue::Array(vec![JsonValue::Bool(true)])))) {
        Step::Finish(Ok(flags)) => assert_eq!(flags, vec![true, true]),
        other => panic!("unexpected step {:?}", other),
    }
}

#[test]
fn test_blobs_exist_accepts_aggregate_check_vh_response() {
    let server = "http://127.0.0.1:40008";
    let c = client(server, server);
    let ids = vec!["aaa".to_string(), "bbb".to_string()];
    let f = match c.blobs_exist(&ids) {
        Step::Perform(f, Action::CallBatch(_)) => f,
        other => panic!("unexpected step {:?}", other),
    };
    let reply = Reply::Batch(Ok(http_ok(vec![
        envelope(Some(0), None, Some(not_found("aaa"))),
        envelope(Some(1), None, Some(not_found("bbb"))),
    ])));
    let (g, body) = match f.resume(reply) {
        Step::Perform(g, Action::PostJson { body, .. }) => (g, body),
        other => panic!("unexpected step {:?}", other),
    };
    assert_eq!(render(&body), r#"["aaa","bbb"]"#);
    match g.resume(Reply::Json(Ok(JsonValue::Bool(false)))) {
        Step::Finish(Ok(flags)) => assert_eq!(flags, vec![false, false]),
        other => panic!("unexpected step {:?}", other),
    }
}

#[test]
fn test_blobs_exist_rejects_more_than_32_hashes() {
    let c = client("http://localhost:8888", "http://poda.example.com");
    let hashes: Vec<String> = (0..33).map(|idx| format!("{idx:064x}")).collect();
    match c.blobs_exist(&hashes) {
        Step::Finish(Err(e)) => {
            assert!(matches!(e, ClientError::TooManyBlobs(33)));
            assert_eq!(e.message(), "blob existence batch exceeds maximum of 32: got 33");
        }
        other => panic!("unexpected step {:?}", other),
    }
}

#[test]
fn test_create_or_load_wallet() {
    let c = client("http://127.0.0.1:40009", "http://poda.example.com");
    let (f, call) = match c.create_or_load_wallet("test_wallet") {
        Step::Perform(f, a @ Action::Call(_)) => (f, a),
        other => panic!("unexpected step {:?}", other),
    };
    assert_eq!(
        request_text(call),
        r#"{"jsonrpc":"2.0","id":1,"method":"loadwallet","params":["test_wallet"]}"#
    );
    match f.resume(rpc_result(obj(vec![]))) {
        Step::Finish(Ok(())) => {}
        other => panic!("unexpected step {:?}", other),
    }
}

#[test]
fn test_error_handling() {
    let c = client("http://127.0.0.1:40010", "http://poda.example.com");
    let q = match c.get_balance() {
        Step::Perform(q, _) => q,
        other => panic!("unexpected step {:?}", other),
    };
    let body = r#"{"error":{"code":-32601,"message":"Method not found"},"result":{}}"#;
    let reply = Reply::Rpc(Ok(HttpReply {
        success: false,
        status: "400 Bad Request".to_string(),
        body: body.to_string(),
        parsed: Ok(envelope(None, Some(obj(vec![])), Some(error_text(-32601, "Method not found")))),
    }));
    match q.resume(reply) {
        Step::Finish(Err(e)) => assert_eq!(
            e.message(),
            format!("HTTP error: 400 Bad Request returned body: {}", body)
        ),
        other => panic!("unexpected step {:?}", other),
    }
}

#[test]
fn test_rpc_request_invalid_json() {
    let c = client("http://127.0.0.1:40011", "http://poda.example.com");
    let f = match c.create_blob(&[1, 2, 3, 4]) {
        Step::Perform(f, _) => f,
        other => panic!("unexpected step {:?}", other),
    };
    let reply = Reply::Rpc(Ok(HttpReply {
        success: true,
        status: "200 OK".to_string(),
        body: "Not a JSON".to_string(),
        parsed: Err("expected ident at line 1 column 2".to_string()),
    }));
    match f.resume(reply) {
        Step::Finish(Err(ClientError::InvalidJson(m))) => {
            assert_eq!(m, "expected ident at line 1 column 2")
        }
        other => panic!("unexpected step {:?}", other),
    }
}

#[test]
fn test_get_blob() {
    let server = "http://127.0.0.1:40012";
    let c = client(server, server);
    let expected = b"hello world blob data".to_vec();
    let hex_data: String = expected.iter().map(|b| format!("{:02x}", b)).collect();
    let (f, call) = match c.get_blob("deadbeef123") {
        Step::Perform(f, a @ Action::Call(_)) => (f, a),
        other => panic!("unexpected step {:?}", other),
    };
    assert_eq!(
        request_text(call),
        r#"{"jsonrpc":"2.0","id":1,"method":"getnevmblobdata","params":["deadbeef123",true]}"#
    );
    match f.resume(rpc_result(obj(vec![("data", text(&hex_data))]))) {
        Step::Finish(Ok(data)) => assert_eq!(data, expected),
        other => panic!("unexpected step {:?}", other),
    }
}

fn finality_of(step: Step<bitcoin_da_client::finality::Finality, bool>, reply: Reply) -> Result<bool, ClientError> {
    match step {
        Step::Perform(f, Action::Call(_)) => match f.resume(reply) {
            Step::Finish(r) => r,
            other => panic!("unexpected step {:?}", other),
        },
        other => panic!("unexpected step {:?}", other),
    }
}

#[test]
fn test_check_blob_finality_true() {
    let c = client("http://127.0.0.1:40013", "http://poda.example.com");
    let r = finality_of(c.check_blob_finality("deadbeef"), rpc_result(obj(vec![("chainlock", JsonValue::Bool(true))])));
    assert!(r.unwrap(), "Expected blob to be final");
}

#[test]
fn test_check_blob_finality_false() {
    let c = client("http://127.0.0.1:40014", "http://poda.example.com");
    let r = finality_of(c.check_blob_finality("deadbeef"), rpc_result(obj(vec![("chainlock", JsonValue::Bool(false))])));
    assert!(!r.unwrap(), "Expected blob to not be final");
}

#[test]
fn test_check_blob_finality_with_0x_prefix() {
    let c = client("http://127.0.0.1:40015", "http://poda.example.com");
    let (f, call) = match c.check_blob_finality("0xdeadbeef") {
        Step::Perform(f, a @ Action::Call(_)) => (f, a),
        other => panic!("unexpected step {:?}", other),
    };
    assert_eq!(
        request_text(call),
        r#"{"jsonrpc":"2.0","id":1,"method":"getnevmblobdata","params":["deadbeef"]}"#
    );
    match f.resume(rpc_result(obj(vec![("chainlock", JsonValue::Bool(true))]))) {
        Step::Finish(Ok(b)) => assert!(b),
        other => panic!("unexpected step {:?}", other),
    }
}

#[test]
fn test_check_blob_finality_error() {
    let c = client("http://127.0.0.1:40016", "http://poda.example.com");
    let r = finality_of(c.check_blob_finality("invalid"), rpc_error(-5, "Blob not found"));
    match r {
        Err(e) => assert_eq!(e.message(), r#"RPC error: {"code":-5,"message":"Blob not found"}"#),
        Ok(b) => panic!("expected an error, got {}", b),
    }
}

fn cloud_fallback(step: Step<bitcoin_da_client::finality::Finality, bool>, check_vh: &str, hash: &str, answer: JsonValue) -> Result<bool, ClientError> {
    let f = match step {
        Step::Perform(f, Action::Call(_)) => f,
        other => panic!("unexpected step {:?}", other),
    };
    let reply = Reply::Rpc(Ok(http_ok(envelope(Some(1), None, Some(not_found(hash))))));
    let (g, url, body) = match f.resume(reply) {
        Step::Perform(g, Action::PostJson { url, body }) => (g, url, body),
        other => panic!("unexpected step {:?}", other),
    };
    assert_eq!(url, check_vh);
    assert_eq!(render(&body), format!("[{}]", quote(hash)));
    match g.resume(Reply::Json(Ok(answer))) {
        Step::Finish(r) => r,
        other => panic!("unexpected step {:?}", other),
    }
}

#[test]
fn test_check_blob_finality_falls_back_to_cloud() {
    let server = "http://127.0.0.1:40017";
    let c = client(server, server);
    let r = cloud_fallback(
        c.check_blob_finality("feedbeef"),
        &format!("{}/check_vh", server),
        "feedbeef",
        JsonValue::Array(vec![JsonValue::Bool(true)]),
    );
    assert!(r.unwrap(), "Expected PODA fallback to mark blob as final");
}

fn by_confirmations(step: Step<bitcoin_da_client::finality::Finality, bool>, record: JsonValue, count: Option<u64>) -> Result<bool, ClientError> {
    let f = match step {
        Step::Perform(f, Action::Call(_)) => f,
        other => panic!("unexpected step {:?}", other),
    };
    match f.resume(rpc_result(record)) {
        Step::Finish(r) => {
            assert!(count.is_none());
            r
        }
        Step::Perform(g, call @ Action::Call(_)) => {
            assert_eq!(
                request_text(call),
                r#"{"jsonrpc":"2.0","id":1,"method":"getblockcount","params":[]}"#
            );
            match g.resume(rpc_result(num(count.expect("a block count is asked for")))) {
                Step::Finish(r) => r,
                other => panic!("unexpected step {:?}", other),
            }
        }
        other => panic!("unexpected step {:?}", other),
    }
}

#[test]
fn test_check_blob_finality_by_confirmations_true() {
    let c = client("http://127.0.0.1:40018", "http://poda.example.com");
    let record = obj(vec![("versionhash", text("feedbeef")), ("height", num(100))]);
    let r = by_confirmations(c.check_blob_finality_by_confirmations("feedbeef", 5), record, Some(104));
    assert!(r.unwrap(), "Expected blob to satisfy confirmation threshold");
}

#[test]
fn test_check_blob_finality_by_confirmations_false() {
    let c = client("http://127.0.0.1:40019", "http://poda.example.com");
    let record = obj(vec![("versionhash", text("feedbeef")), ("height", num(100))]);
    let r = by_confirmations(c.check_blob_finality_by_confirmations("feedbeef", 5), record, Some(103));
    assert!(!r.unwrap(), "Expected blob to be below confirmation threshold");
}

#[test]
fn test_check_blob_finality_by_confirmations_missing_height_is_not_final() {
    let c = client("http://127.0.0.1:40020", "http://poda.example.com");
    let record = obj(vec![("versionhash", text("feedbeef")), ("txid", text("abc123"))]);
    let r = by_confirmations(c.check_blob_finality_by_confirmations("feedbeef", 5), record, None);
    assert!(!r.unwrap(), "Expected missing height to be treated as not final");
}

#[test]
fn test_check_blob_finality_by_confirmations_falls_back_to_cloud() {
    let server = "http://127.0.0.1:40021";
    let c = client(server, server);
    let r = cloud_fallback(
        c.check_blob_finality_by_confirmations("feedbeef", 5),
        &format!("{}/check_vh", server),
        "feedbeef",
        JsonValue::Array(vec![JsonValue::Bool(true)]),
    );
    assert!(r.unwrap(), "Expected PODA fallback to mark blob as final");
}

#[test]
fn test_check_blob_finality_with_mode_confirmations_dispatches() {
    let c = client("http://127.0.0.1:40022", "http://poda.example.com");
    let record = obj(vec![("versionhash", text("feedbeef")), ("height", num(100))]);
    let step = c.check_blob_finality_with_mode("feedbeef", BitcoinDaFinalityMode::Confirmations, 5);
    let r = by_confirmations(step, record, Some(104));
    assert!(r.unwrap(), "Expected confirmation mode finality check to pass");
}

#[test]
fn test_get_blob_base_fee_uses_network_minimum() {
    let c = client("http://127.0.0.1:40023", "http://poda.example.com");
    let (f, call) = match c.get_blob_base_fee(6) {
        Step::Perform(f, a @ Action::Call(_)) => (f, a),
        other => panic!("unexpected step {:?}", other),
    };
    assert_eq!(
        request_text(call),
        r#"{"jsonrpc":"2.0","id":1,"method":"estimatesmartfee","params":[6,"economical"]}"#
    );
    let estimate = obj(vec![("feerate", float(0.000001)), ("blocks", num(6))]);
    let (g, call) = match f.resume(rpc_result(estimate)) {
        Step::Perform(g, a @ Action::Call(_)) => (g, a),
        other => panic!("unexpected step {:?}", other),
    };
    assert_eq!(
        request_text(call),
        r#"{"jsonrpc":"2.0","id":1,"method":"getmempoolinfo","params":[]}"#
    );
    let mempool = obj(vec![("mempoolminfee", float(0.002)), ("minrelaytxfee", float(0.000015))]);
    let rates = match g.resume(rpc_result(mempool)) {
        Step::Finish(Ok(rates)) => rates,
        other => panic!("unexpected step {:?}", other),
    };
    let amount = |a: &Option<AmountSource>| match a {
        Some(AmountSource::Number(JsonNumber::Float(bits))) => f64::from_bits(*bits),
        other => panic!("unexpected amount {:?}", other),
    };
    assert_eq!(amount(&rates.estimate), 0.000001);
    assert_eq!(amount(&rates.mempool_min), 0.002);
    assert_eq!(amount(&rates.min_relay), 0.000015);
}

#[test]
fn blob_exists_does_not_imply_finality() {
    let server = "http://127.0.0.1:40024";
    let c = client(server, server);
    let (f, calls) = match c.blob_exists("abc") {
        Step::Perform(f, a @ Action::CallBatch(_)) => (f, a),
        other => panic!("unexpected step {:?}", other),
    };
    assert_eq!(
        request_text(calls),
        r#"[{"jsonrpc":"2.0","id":0,"method":"getnevmblobdata","params":["abc",false]}]"#
    );
    let reply = Reply::Batch(Ok(http_ok(vec![envelope(Some(0), Some(obj(vec![("data", text("00"))])), None)])));
    match f.resume(reply) {
        Step::Finish(Ok(exists)) => assert!(exists),
        other => panic!("unexpected step {:?}", other),
    }
    let (g, call) = match c.check_blob_finality("abc") {
        Step::Perform(g, a @ Action::Call(_)) => (g, a),
        other => panic!("unexpected step {:?}", other),
    };
    assert_eq!(
        request_text(call),
        r#"{"jsonrpc":"2.0","id":1,"method":"getnevmblobdata","params":["abc"]}"#
    );
    let record = obj(vec![("data", text("00")), ("chainlock", JsonValue::Bool(false))]);
    match g.resume(rpc_result(record)) {
        Step::Finish(Ok(is_final)) => assert!(!is_final),
        other => panic!("unexpected step {:?}", other),
    }
}
