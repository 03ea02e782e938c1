//! What each operation makes of the node's and the cloud's answers, stated
//! over the answers themselves: which member of a reply decides, what the
//! result is, and which request follows.
use vstd::prelude::*;
use crate::blob::{CreateBlob, GetBlob};
use crate::error::ClientError;
use crate::fee::{AmountSource, BaseFee, FeeRates, FeeStage};
use crate::finality::{BitcoinDaFinalityMode, Finality, FinalityStage};
use crate::flow::{Action, Reply, Step, is_rpc_answer, is_rpc_error};
use crate::hexcodec::hex_encoding;
use crate::json::{
    JsonNumber, JsonValue, first_member_at, has_no_member, lemma_first_member_found,
    lemma_no_member_found,
};
use crate::laws::lemma_blob_round_trip;
use crate::wallet::{AddressLookup, BalanceQuery, EnsureAddress, NewAddress, WalletFlow};
use crate::text::{has_substring, occurs_at};

verus! {

/// In confirmations mode, a node record with a height always leads to asking
/// for the block count, to be compared with that height; no other member of
/// the record (such as `chainlock`) changes this.
pub proof fn lemma_record_with_height_asks_block_count(
    s: Finality,
    reply: Reply,
    res: Step<Finality, bool>,
    record: JsonValue,
    i: int,
    height: u64,
)
    requires
        s.mode == BitcoinDaFinalityMode::Confirmations,
        s.stage is Lookup,
        is_rpc_answer(reply, record),
        first_member_at(record, "height"@, i, JsonValue::Number(JsonNumber::PosInt(height))),
        s.step_spec(reply, res),
    ensures
        res matches Step::Perform(f, Action::Call(c)) && c.method@ == "getblockcount"@ && c.params@.len() == 0
            && f.stage == (FinalityStage::BlockCount { height }) && f.mode == s.mode && f.confirmations
            == s.confirmations && f.blob_id == s.blob_id,
{
    lemma_first_member_found(record, "height"@, i, JsonValue::Number(JsonNumber::PosInt(height)));
}

/// A block count `count` for a blob at `height` makes the blob final exactly
/// when the blocks from the blob's own to the tip (none when the tip is below
/// it, then the blob's own) reach the required confirmations.
pub proof fn lemma_block_count_decides(
    s: Finality,
    reply: Reply,
    res: Step<Finality, bool>,
    height: u64,
    count: u64,
)
    requires
        s.stage == (FinalityStage::BlockCount { height }),
        is_rpc_answer(reply, JsonValue::Number(JsonNumber::PosInt(count))),
        s.step_spec(reply, res),
    ensures
        res == Step::<Finality, bool>::Finish(
            Ok((if count >= height { count - height } else { 0 }) + 1 >= s.confirmations),
        ),
{
}

/// Every numeric balance answer is the balance, zero included.
pub proof fn lemma_numeric_balance_is_the_balance(
    q: BalanceQuery,
    reply: Reply,
    res: Step<BalanceQuery, JsonNumber>,
    n: JsonNumber,
)
    requires
        is_rpc_answer(reply, JsonValue::Number(n)),
        q.step_spec(reply, res),
    ensures
        res == Step::<BalanceQuery, JsonNumber>::Finish(Ok(n)),
{
}

/// Only a balance answer that is not a number is an invalid balance.
pub proof fn lemma_non_numeric_balance_is_invalid(
    q: BalanceQuery,
    reply: Reply,
    res: Step<BalanceQuery, JsonNumber>,
    v: JsonValue,
)
    requires
        is_rpc_answer(reply, v),
        !(v is Number),
        q.step_spec(reply, res),
    ensures
        res == Step::<BalanceQuery, JsonNumber>::Finish(Err(ClientError::InvalidBalance)),
{
}

/// Storing a blob gives the text of the answer's `versionhash` member,
/// whatever other members the answer has.
pub proof fn lemma_create_blob_gives_version_hash(
    f: CreateBlob,
    reply: Reply,
    res: Step<CreateBlob, String>,
    answer: JsonValue,
    i: int,
    hash: String,
)
    requires
        is_rpc_answer(reply, answer),
        first_member_at(answer, "versionhash"@, i, JsonValue::String(hash)),
        f.step_spec(reply, res),
    ensures
        res == Step::<CreateBlob, String>::Finish(Ok(hash)),
{
    lemma_first_member_found(answer, "versionhash"@, i, JsonValue::String(hash));
}

/// An answer object without a `versionhash` member is a missing version hash.
pub proof fn lemma_create_blob_without_version_hash(
    f: CreateBlob,
    reply: Reply,
    res: Step<CreateBlob, String>,
    answer: JsonValue,
)
    requires
        is_rpc_answer(reply, answer),
        has_no_member(answer, "versionhash"@),
        f.step_spec(reply, res),
    ensures
        res == Step::<CreateBlob, String>::Finish(Err(ClientError::MissingVersionHash)),
{
    lemma_no_member_found(answer, "versionhash"@);
}

/// A numeric `feerate` in the estimate is kept as read, and the mempool
/// information is asked for next.
pub proof fn lemma_numeric_estimate_kept(
    s: BaseFee,
    reply: Reply,
    res: Step<BaseFee, FeeRates>,
    answer: JsonValue,
    i: int,
    n: JsonNumber,
)
    requires
        s.stage is Estimate,
        is_rpc_answer(reply, answer),
        first_member_at(answer, "feerate"@, i, JsonValue::Number(n)),
        s.step_spec(reply, res),
    ensures
        res matches Step::Perform(g, Action::Call(c)) && c.method@ == "getmempoolinfo"@ && c.params@.len()
            == 0 && g.stage == (FeeStage::Mempool { estimate: Some(AmountSource::Number(n)) }),
{
    lemma_first_member_found(answer, "feerate"@, i, JsonValue::Number(n));
}

/// A textual `feerate` in the estimate is kept as read, and the mempool
/// information is asked for next.
pub proof fn lemma_textual_estimate_kept(
    s: BaseFee,
    reply: Reply,
    res: Step<BaseFee, FeeRates>,
    answer: JsonValue,
    i: int,
    t: String,
)
    requires
        s.stage is Estimate,
        is_rpc_answer(reply, answer),
        first_member_at(answer, "feerate"@, i, JsonValue::String(t)),
        s.step_spec(reply, res),
    ensures
        res matches Step::Perform(g, Action::Call(c)) && c.method@ == "getmempoolinfo"@ && c.params@.len()
            == 0 && g.stage == (FeeStage::Mempool { estimate: Some(AmountSource::Text(t)) }),
{
    lemma_first_member_found(answer, "feerate"@, i, JsonValue::String(t));
}

/// An estimate without `feerate` leaves no estimate, and the mempool
/// information is asked for next.
pub proof fn lemma_missing_estimate(s: BaseFee, reply: Reply, res: Step<BaseFee, FeeRates>, answer: JsonValue)
    requires
        s.stage is Estimate,
        is_rpc_answer(reply, answer),
        has_no_member(answer, "feerate"@),
        s.step_spec(reply, res),
    ensures
        res matches Step::Perform(g, Action::Call(c)) && c.method@ == "getmempoolinfo"@ && c.params@.len()
            == 0 && g.stage == (FeeStage::Mempool { estimate: None }),
{
    lemma_no_member_found(answer, "feerate"@);
}

/// The finished rates carry the estimate exactly as it was read, whatever
/// the mempool answer holds.
pub proof fn lemma_estimate_survives_mempool(
    estimate: Option<AmountSource>,
    s: BaseFee,
    reply: Reply,
    res: Step<BaseFee, FeeRates>,
)
    requires
        s.stage == (FeeStage::Mempool { estimate }),
        s.step_spec(reply, res),
    ensures
        res matches Step::Finish(Ok(rates)) ==> rates.estimate == estimate,
        !(res is Perform),
{
}

/// Numeric mempool minimum and relay fees complete the rates as read.
pub proof fn lemma_mempool_rates_as_read(
    estimate: Option<AmountSource>,
    s: BaseFee,
    reply: Reply,
    res: Step<BaseFee, FeeRates>,
    answer: JsonValue,
    i: int,
    j: int,
    m: JsonNumber,
    r: JsonNumber,
)
    requires
        s.stage == (FeeStage::Mempool { estimate }),
        is_rpc_answer(reply, answer),
        first_member_at(answer, "mempoolminfee"@, i, JsonValue::Number(m)),
        first_member_at(answer, "minrelaytxfee"@, j, JsonValue::Number(r)),
        s.step_spec(reply, res),
    ensures
        res == Step::<BaseFee, FeeRates>::Finish(
            Ok(
                FeeRates {
                    estimate,
                    mempool_min: Some(AmountSource::Number(m)),
                    min_relay: Some(AmountSource::Number(r)),
                },
            ),
        ),
{
    lemma_first_member_found(answer, "mempoolminfee"@, i, JsonValue::Number(m));
    lemma_first_member_found(answer, "minrelaytxfee"@, j, JsonValue::Number(r));
}

/// Any failed node exchange — a transport failure, a failure status, an
/// unreadable body or an error envelope — makes the blob fetch fall back to
/// the cloud URL.
pub proof fn lemma_failed_node_fetch_falls_back(
    s: GetBlob,
    reply: Reply,
    res: Step<GetBlob, Vec<u8>>,
)
    requires
        !s.from_cloud,
        reply matches Reply::Rpc(raw) && (raw is Err || (raw matches Ok(h) && (!h.success || h.parsed is Err
            || (h.parsed matches Ok(env) && env.error is Some)))),
        s.step_spec(reply, res),
    ensures
        res matches Step::Perform(f, Action::HttpGet(url)) && f.from_cloud && url@ == s.cloud_url@
            && f.cloud_url == s.cloud_url,
{
}

/// A node answer without a `data` member also makes the fetch fall back to the cloud.
pub proof fn lemma_dataless_node_answer_falls_back(
    s: GetBlob,
    reply: Reply,
    res: Step<GetBlob, Vec<u8>>,
    answer: JsonValue,
)
    requires
        !s.from_cloud,
        is_rpc_answer(reply, answer),
        has_no_member(answer, "data"@),
        s.step_spec(reply, res),
    ensures
        res matches Step::Perform(f, Action::HttpGet(url)) && f.from_cloud && url@ == s.cloud_url@,
{
    lemma_no_member_found(answer, "data"@);
}

/// A node answer whose `data` is the hex text of `data` gives exactly `data`.
pub proof fn lemma_node_hex_data_is_the_blob(
    s: GetBlob,
    reply: Reply,
    res: Step<GetBlob, Vec<u8>>,
    answer: JsonValue,
    i: int,
    text: String,
    data: Seq<u8>,
)
    requires
        !s.from_cloud,
        is_rpc_answer(reply, answer),
        first_member_at(answer, "data"@, i, JsonValue::String(text)),
        text@ == hex_encoding(data),
        s.step_spec(reply, res),
    ensures
        res matches Step::Finish(Ok(b)) && b@ == data,
{
    lemma_first_member_found(answer, "data"@, i, JsonValue::String(text));
    lemma_blob_round_trip(data, answer);
}

/// Once the fetch falls back, the cloud's answer is the result as it came.
pub proof fn lemma_cloud_answer_is_the_blob(
    s: GetBlob,
    reply: Reply,
    res: Step<GetBlob, Vec<u8>>,
    r: Result<Vec<u8>, ClientError>,
)
    requires
        s.from_cloud,
        reply == Reply::Bytes(r),
        s.step_spec(reply, res),
    ensures
        res == Step::<GetBlob, Vec<u8>>::Finish(r),
{
}

/// A node error text that contains `needle` makes an error message that contains it.
pub(crate) proof fn lemma_rpc_message_keeps(text: Seq<char>, needle: Seq<char>)
    requires
        has_substring(text, needle),
    ensures
        has_substring("RPC error: "@ + text, needle),
{
    reveal_strlit("RPC error: ");
    let i = choose|i: int| occurs_at(text, needle, i);
    let m = "RPC error: "@ + text;
    assert(m.subrange(i + 11, i + 11 + needle.len()) =~= text.subrange(i, i + needle.len()));
    assert(occurs_at(m, needle, i + 11));
}

/// In chainlock mode the record's `chainlock` flag is the result.
pub proof fn lemma_chainlock_flag_decides(
    s: Finality,
    reply: Reply,
    res: Step<Finality, bool>,
    record: JsonValue,
    i: int,
    flag: bool,
)
    requires
        s.mode == BitcoinDaFinalityMode::Chainlock,
        s.stage is Lookup,
        is_rpc_answer(reply, record),
        first_member_at(record, "chainlock"@, i, JsonValue::Bool(flag)),
        s.step_spec(reply, res),
    ensures
        res == Step::<Finality, bool>::Finish(Ok(flag)),
{
    lemma_first_member_found(record, "chainlock"@, i, JsonValue::Bool(flag));
}

/// In chainlock mode a record without a `chainlock` flag is not final.
pub proof fn lemma_no_chainlock_flag_not_final(
    s: Finality,
    reply: Reply,
    res: Step<Finality, bool>,
    record: JsonValue,
)
    requires
        s.mode == BitcoinDaFinalityMode::Chainlock,
        s.stage is Lookup,
        is_rpc_answer(reply, record),
        has_no_member(record, "chainlock"@),
        s.step_spec(reply, res),
    ensures
        res == Step::<Finality, bool>::Finish(Ok(false)),
{
    lemma_no_member_found(record, "chainlock"@);
}

/// In confirmations mode a record without a height (not mined yet) is not final.
pub proof fn lemma_record_without_height_not_final(
    s: Finality,
    reply: Reply,
    res: Step<Finality, bool>,
    record: JsonValue,
)
    requires
        s.mode == BitcoinDaFinalityMode::Confirmations,
        s.stage is Lookup,
        is_rpc_answer(reply, record),
        has_no_member(record, "height"@),
        s.step_spec(reply, res),
    ensures
        res == Step::<Finality, bool>::Finish(Ok(false)),
{
    lemma_no_member_found(record, "height"@);
}

/// When the node does not know the blob (error code -32602), either finality
/// check asks the cloud about exactly that blob.
pub proof fn lemma_unknown_blob_asks_cloud(s: Finality, reply: Reply, res: Step<Finality, bool>, text: String)
    requires
        s.stage is Lookup,
        is_rpc_error(reply, text),
        has_substring(text@, "\"code\":-32602"@),
        s.step_spec(reply, res),
    ensures
        res matches Step::Perform(f, Action::PostJson { url, body }) && url == s.check_vh_url && f.stage is Cloud
            && f.blob_id == s.blob_id && f.mode == s.mode && (body matches JsonValue::Array(items)
            && items@.len() == 1 && (items@[0] matches JsonValue::String(t) && t@ == s.blob_id@)),
{
    lemma_rpc_message_keeps(text@, "\"code\":-32602"@);
}

/// The cloud's one-element answer `[flag]` about a blob the node does not
/// know is the result; a failed cloud exchange counts as "not final".
pub proof fn lemma_cloud_answer_decides_finality(
    s: Finality,
    reply: Reply,
    res: Step<Finality, bool>,
    items: Vec<JsonValue>,
    flag: bool,
)
    requires
        s.stage is Cloud,
        reply == Reply::Json(Ok(JsonValue::Array(items))),
        items@ == seq![JsonValue::Bool(flag)],
        s.step_spec(reply, res),
    ensures
        res == Step::<Finality, bool>::Finish(Ok(flag)),
{
}

/// A failed cloud exchange leaves the blob not final.
pub proof fn lemma_failed_cloud_not_final(s: Finality, reply: Reply, res: Step<Finality, bool>, e: ClientError)
    requires
        s.stage is Cloud,
        reply == Reply::Json(Err(e)),
        s.step_spec(reply, res),
    ensures
        res == Step::<Finality, bool>::Finish(Ok(false)),
{
}

/// A wallet that loads is ready.
pub proof fn lemma_loaded_wallet_ready(s: WalletFlow, reply: Reply, res: Step<WalletFlow, ()>, v: JsonValue)
    requires
        is_rpc_answer(reply, v),
        s.step_spec(reply, res),
    ensures
        res == Step::<WalletFlow, ()>::Finish(Ok(())),
{
}

/// A wallet that fails to load (the error says "failed") is created, under its name.
pub proof fn lemma_failed_load_creates_wallet(s: WalletFlow, reply: Reply, res: Step<WalletFlow, ()>, text: String)
    requires
        !s.creating,
        is_rpc_error(reply, text),
        has_substring(text@, "failed"@),
        s.step_spec(reply, res),
    ensures
        res matches Step::Perform(f, Action::Call(c)) && f.creating && c.method@ == "createwallet"@
            && c.params@.len() == 1 && (c.params@[0] matches JsonValue::String(n) && n@ == s.wallet_name@),
{
    lemma_rpc_message_keeps(text@, "failed"@);
}

/// A label lookup answer object names its first address.
pub proof fn lemma_lookup_names_first_address(
    s: AddressLookup,
    reply: Reply,
    res: Step<AddressLookup, Option<String>>,
    entries: Vec<(String, JsonValue)>,
)
    requires
        is_rpc_answer(reply, JsonValue::Object(entries)),
        entries@.len() > 0,
        s.step_spec(reply, res),
    ensures
        res == Step::<AddressLookup, Option<String>>::Finish(Ok(Some(entries@[0].0))),
{
}

/// A label with no address (error code -11) is found to have none.
pub proof fn lemma_lookup_without_address(
    s: AddressLookup,
    reply: Reply,
    res: Step<AddressLookup, Option<String>>,
    text: String,
)
    requires
        is_rpc_error(reply, text),
        has_substring(text@, "\"code\":-11"@),
        s.step_spec(reply, res),
    ensures
        res == Step::<AddressLookup, Option<String>>::Finish(Ok(None)),
{
    lemma_rpc_message_keeps(text@, "\"code\":-11"@);
}

/// A new address answer that is a text is the address.
pub proof fn lemma_new_address_is_the_text(s: NewAddress, reply: Reply, res: Step<NewAddress, String>, a: String)
    requires
        is_rpc_answer(reply, JsonValue::String(a)),
        s.step_spec(reply, res),
    ensures
        res == Step::<NewAddress, String>::Finish(Ok(a)),
{
}

/// Ensuring an address gives the first address found under the label;
/// when there is none (error code -11), it asks for a new one with the label,
/// and that answer's text is the address.
pub proof fn lemma_ensure_address_steps(
    s: EnsureAddress,
    reply: Reply,
    res: Step<EnsureAddress, String>,
    entries: Vec<(String, JsonValue)>,
    text: String,
    a: String,
)
    requires
        s.step_spec(reply, res),
    ensures
        !s.creating && is_rpc_answer(reply, JsonValue::Object(entries)) && entries@.len() > 0 ==> res
            == Step::<EnsureAddress, String>::Finish(Ok(entries@[0].0)),
        !s.creating && is_rpc_error(reply, text) && has_substring(text@, "\"code\":-11"@) ==> (res matches Step::Perform(
            f,
            Action::CallWallet(c),
        ) && f.creating && c.method@ == "getnewaddress"@ && c.params@.len() == 1 && (c.params@[0] matches JsonValue::String(
            l,
        ) && l@ == s.label@)),
        s.creating && is_rpc_answer(reply, JsonValue::String(a)) ==> res == Step::<EnsureAddress, String>::Finish(
            Ok(a),
        ),
{
    if has_substring(text@, "\"code\":-11"@) {
        lemma_rpc_message_keeps(text@, "\"code\":-11"@);
    }
}

} // verus!
