//! Properties of the client that hold across its operations.
use vstd::prelude::*;
use crate::availability::{
    BlobExists, Existence, ExistenceStage, fill_answers, found_flags, is_existence_call, is_lookup_start,
    missing_positions, single_answer,
};
use crate::flow::{Action, Reply, ReplyKind, Step, is_call_with_text, is_text, same_call, same_request, same_values};
use crate::finality::{BitcoinDaFinalityMode, Finality, FinalityStage, cloud_has_blob, is_finality_start};
use crate::request::{HttpMethod, HttpRequest, SINGLE_CALL_ID, is_http_request};
use crate::client::wallet_endpoint;
use crate::wallet::{
    WalletAndAddress, is_wallet_and_address_start, lookup_outcome, same_wallet_and_address,
    same_wallet_and_address_step,
};
use crate::error::{is_blob_not_found, is_wallet_already_loaded, is_wallet_load_failure};
use crate::poda::{answers_exist, check_vh_answers, lemma_check_vh_answers_by_text};
use crate::blob::{is_create_blob_call, node_blob_data};
use crate::error::{ClientError, error_message};
use crate::rpc::{HttpReply, JsonRpcResponse, RpcCall, is_request_body, rpc_outcome, batch_answers, batch_slots, envelope_result, response_position};
use crate::hexcodec::{hex_decoding, hex_digit, hex_encoding, hex_value, is_hex_text};
use crate::json::{JsonNumber, JsonValue, opt_as_text, value_as_text, value_get};
use crate::finality::has_confirmations;
use crate::poda::{blob_url, check_vh_url, service_root};
use crate::text::{has_substring, has_suffix, strip_hex_prefix, trim_trailing_slashes};
use crate::answers::lemma_rpc_message_keeps;
use vstd::utf8::{encode_utf8, is_ascii_chars, is_ascii_chars_encode_utf8};

verus! {

/// Two hex digits per byte, high nibble first.
pub proof fn lemma_hex_encoding_layout(data: Seq<u8>)
    ensures
        hex_encoding(data).len() == 2 * data.len(),
        forall|i: int|
            0 <= i < data.len() ==> hex_encoding(data)[2 * i] == hex_digit((data[i] / 16) as nat)
                && hex_encoding(data)[2 * i + 1] == hex_digit((data[i] % 16) as nat),
    decreases data.len(),
{
    if data.len() > 0 {
        let prefix = data.drop_last();
        lemma_hex_encoding_layout(prefix);
        assert forall|i: int| 0 <= i < data.len() implies hex_encoding(data)[2 * i] == hex_digit(
            (data[i] / 16) as nat,
        ) && hex_encoding(data)[2 * i + 1] == hex_digit((data[i] % 16) as nat) by {
            if i < data.len() - 1 {
                assert(prefix[i] == data[i]);
            }
        }
    }
}

/// A hex digit is an ASCII character whose byte reads back as its value.
proof fn lemma_hex_digit_value(d: nat)
    requires
        d < 16,
    ensures
        '\0' <= hex_digit(d) <= '\u{7f}',
        hex_value(hex_digit(d) as u8) == Some(d as u8),
        hex_digit(d) != 'x',
{
}

/// The lowercase hex text of any bytes is ASCII.
proof fn lemma_hex_encoding_ascii(data: Seq<u8>)
    ensures
        is_ascii_chars(hex_encoding(data)),
{
    lemma_hex_encoding_layout(data);
    let h = hex_encoding(data);
    assert forall|j: int| 0 <= j < h.len() implies '\0' <= #[trigger] h[j] <= '\u{7f}' by {
        let i = j / 2;
        if j % 2 == 0 {
            assert(j == 2 * i);
            lemma_hex_digit_value((data[i] / 16) as nat);
        } else {
            assert(j == 2 * i + 1);
            lemma_hex_digit_value((data[i] % 16) as nat);
        }
    }
}

/// Reading hex text back: the bytes of the lowercase hex text of `data` are
/// valid hex, and decode to `data`.
pub proof fn lemma_hex_round_trip(data: Seq<u8>)
    ensures
        is_hex_text(encode_utf8(hex_encoding(data))),
        hex_decoding(encode_utf8(hex_encoding(data))) == data,
{
    let h = hex_encoding(data);
    lemma_hex_encoding_layout(data);
    lemma_hex_encoding_ascii(data);
    is_ascii_chars_encode_utf8(h);
    let b = encode_utf8(h);
    assert forall|j: int| 0 <= j < b.len() implies (#[trigger] hex_value(b[j])) is Some by {
        let i = j / 2;
        assert(b[j] == h[j] as u8);
        if j % 2 == 0 {
            assert(j == 2 * i);
            lemma_hex_digit_value((data[i] / 16) as nat);
        } else {
            assert(j == 2 * i + 1);
            lemma_hex_digit_value((data[i] % 16) as nat);
        }
    }
    assert(b.len() % 2 == 0);
    assert forall|i: int| 0 <= i < data.len() implies #[trigger] hex_decoding(b)[i] == data[i] by {
        assert(b[2 * i] == h[2 * i] as u8);
        assert(b[2 * i + 1] == h[2 * i + 1] as u8);
        lemma_hex_digit_value((data[i] / 16) as nat);
        lemma_hex_digit_value((data[i] % 16) as nat);
    }
    assert(hex_decoding(b) =~= data);
}

/// What is stored is what is read back: when the node answers a data lookup
/// with the hex text that blob creation sent for `data` (the call carries
/// `hex_encoding(data)`), fetching the blob from the node yields exactly `data`.
pub proof fn lemma_blob_round_trip(data: Seq<u8>, record: JsonValue)
    requires
        opt_as_text(value_get(record, "data"@)) == Some(hex_encoding(data)),
    ensures
        node_blob_data(Ok(record)) == Some(data),
{
    let h = hex_encoding(data);
    lemma_hex_encoding_layout(data);
    if h.len() >= 2 {
        lemma_hex_digit_value((data[0] % 16) as nat);
        assert(h[1] != 'x');
    }
    assert(strip_hex_prefix(h) == h);
    lemma_hex_round_trip(data);
}

/// The request that stores a blob names its data: two data that yield the
/// same creation request are the same data.
pub proof fn lemma_create_request_names_its_data(c: RpcCall, data1: Seq<u8>, data2: Seq<u8>)
    requires
        is_create_blob_call(c, data1),
        is_create_blob_call(c, data2),
    ensures
        data1 == data2,
{
    lemma_hex_round_trip(data1);
    lemma_hex_round_trip(data2);
}

/// A leading `0x` never changes which blob an id names.
pub proof fn lemma_prefixed_id_names_same_blob(id: Seq<char>)
    ensures
        strip_hex_prefix("0x"@ + id) == id,
{
    reveal_strlit("0x");
    let p = "0x"@ + id;
    assert(p[0] == '0' && p[1] == 'x');
    assert(p.skip(2) =~= id);
}

} // verus!

verus! {

/// The blob URL always ends in `/vh/` and the version hash without a leading `0x`.
pub proof fn lemma_blob_url_names_hash(poda_url: Seq<char>, version_hash: Seq<char>)
    ensures
        has_suffix(blob_url(poda_url, version_hash), "/vh/"@ + strip_hex_prefix(version_hash)),
{
    reveal_strlit("/vh");
    reveal_strlit("/vh/");
    reveal_strlit("/");
    let base = trim_trailing_slashes(poda_url);
    let hash = strip_hex_prefix(version_hash);
    let url = blob_url(poda_url, version_hash);
    let tail = "/vh/"@ + hash;
    if has_suffix(base, "/vh"@) {
        assert(url == base + "/"@ + hash);
        assert(url.skip(url.len() - tail.len()) =~= tail) by {
            assert forall|k: int| 0 <= k < tail.len() implies url.skip(url.len() - tail.len())[k] == tail[k] by {
                if k < 3 {
                    assert(base.skip(base.len() - 3)[k] == "/vh"@[k]);
                }
            }
        }
    } else {
        assert(url == base + "/vh/"@ + hash);
        assert(url.skip(url.len() - tail.len()) =~= tail);
    }
}

/// Trailing slashes of the service URL do not change the blob URL.
pub proof fn lemma_blob_url_trailing_slash(poda_url: Seq<char>, version_hash: Seq<char>)
    ensures
        blob_url(poda_url + "/"@, version_hash) == blob_url(poda_url, version_hash),
        check_vh_url(poda_url + "/"@) == check_vh_url(poda_url),
{
    reveal_strlit("/");
    let p = poda_url + "/"@;
    assert(p.drop_last() =~= poda_url);
    assert(trim_trailing_slashes(p) == trim_trailing_slashes(poda_url));
}

/// A service URL given with or without a final `/vh` segment names the same
/// blob URLs and the same existence check URL.
pub proof fn lemma_service_url_vh_segment(poda_url: Seq<char>, version_hash: Seq<char>)
    requires
        poda_url.len() == 0 || poda_url.last() != '/',
        !has_suffix(poda_url, "/vh"@),
        !has_suffix(poda_url, "/check_vh"@),
    ensures
        blob_url(poda_url + "/vh"@, version_hash) == blob_url(poda_url, version_hash),
        check_vh_url(poda_url + "/vh"@) == check_vh_url(poda_url),
        check_vh_url(poda_url + "/check_vh"@) == check_vh_url(poda_url),
{
    reveal_strlit("/vh");
    reveal_strlit("/vh/");
    reveal_strlit("/");
    reveal_strlit("/check_vh");
    let hash = strip_hex_prefix(version_hash);
    let p = poda_url;
    assert(trim_trailing_slashes(p) == p);
    let pv = p + "/vh"@;
    assert(trim_trailing_slashes(pv) == pv);
    assert(pv.skip(pv.len() - 3) =~= "/vh"@);
    assert(has_suffix(pv, "/vh"@));
    assert(pv + "/"@ + hash =~= p + "/vh/"@ + hash);
    assert(pv.take(pv.len() - 3) =~= p);
    let pc = p + "/check_vh"@;
    assert(trim_trailing_slashes(pc) == pc);
    assert(pc.skip(pc.len() - 3)[0] == '_');
    assert(!has_suffix(pc, "/vh"@));
    assert(pc.skip(pc.len() - 9) =~= "/check_vh"@);
    assert(pc.take(pc.len() - 9) =~= p);
}

/// The existence check URL is its own service URL's existence check URL.
pub proof fn lemma_check_vh_url_fixpoint(poda_url: Seq<char>)
    ensures
        check_vh_url(check_vh_url(poda_url)) == check_vh_url(poda_url),
{
    reveal_strlit("/vh");
    reveal_strlit("/check_vh");
    let root = service_root(poda_url);
    let u = check_vh_url(poda_url);
    assert(u == root + "/check_vh"@);
    assert(u.last() == 'h');
    assert(trim_trailing_slashes(u) == u);
    assert(u.skip(u.len() - 3)[0] == '_');
    assert(!has_suffix(u, "/vh"@));
    assert(u.skip(u.len() - 9) =~= "/check_vh"@);
    assert(u.take(u.len() - 9) =~= root);
}

/// A block count that grows never takes a blob out of finality.
pub proof fn lemma_confirmations_monotone_in_height(current: u64, later: u64, blob_height: u64, confirmations: u64)
    requires
        current <= later,
        has_confirmations(current, blob_height, confirmations),
    ensures
        has_confirmations(later, blob_height, confirmations),
{
}

/// Asking for fewer confirmations never takes a blob out of finality.
pub proof fn lemma_confirmations_monotone_in_requirement(current: u64, blob_height: u64, required: u64, fewer: u64)
    requires
        fewer <= required,
        has_confirmations(current, blob_height, required),
    ensures
        has_confirmations(current, blob_height, fewer),
{
}

/// A mined blob always has one confirmation: its own block.
pub proof fn lemma_mined_blob_has_one_confirmation(current: u64, blob_height: u64, confirmations: u64)
    requires
        confirmations <= 1,
    ensures
        has_confirmations(current, blob_height, confirmations),
{
}

} // verus!

verus! {

/// Each "not found" position lies in range, holds an error, and the
/// positions increase.
proof fn lemma_missing_positions_shape(rs: Seq<Result<JsonValue, ClientError>>)
    requires
        rs.len() <= usize::MAX,
    ensures
        missing_positions(rs) matches Ok(m) ==> (forall|k: int|
            0 <= k < m.len() ==> (#[trigger] m[k]) < rs.len() && rs[m[k] as int] is Err) && (forall|
            k1: int,
            k2: int,
        | 0 <= k1 < k2 < m.len() ==> #[trigger] m[k1] < #[trigger] m[k2]),
    decreases rs.len(),
{
    if rs.len() > 0 {
        let prefix = rs.drop_last();
        lemma_missing_positions_shape(prefix);
        if let Ok(m) = missing_positions(rs) {
            let mp = missing_positions(prefix)->Ok_0;
            let last = (rs.len() - 1) as usize;
            if rs.last() is Ok {
                assert(m == mp);
            } else {
                assert(m == mp.push(last));
            }
            assert forall|k: int| 0 <= k < m.len() implies (#[trigger] m[k]) < rs.len() && rs[m[k] as int] is Err by {
                if k < mp.len() {
                    assert(m[k] == mp[k]);
                    assert(mp[k] < prefix.len());
                    assert(rs[mp[k] as int] == prefix[mp[k] as int]);
                } else {
                    assert(m[k] == last);
                }
            }
            assert forall|k1: int, k2: int| 0 <= k1 < k2 < m.len() implies #[trigger] m[k1] < #[trigger] m[k2] by {
                assert(m[k1] == mp[k1]);
                assert(mp[k1] < prefix.len());
                if k2 < mp.len() {
                    assert(m[k2] == mp[k2]);
                } else {
                    assert(m[k2] == last);
                }
            }
        }
    }
}

/// Writing the cloud's answers leaves the length, and every position not
/// among the missing ones, unchanged.
proof fn lemma_fill_keeps(flags: Seq<bool>, missing: Seq<usize>, cloud: Seq<bool>, i: int)
    requires
        forall|k: int| 0 <= k < missing.len() ==> missing[k] != i,
    ensures
        fill_answers(flags, missing, cloud).len() == flags.len(),
        0 <= i < flags.len() ==> fill_answers(flags, missing, cloud)[i] == flags[i],
    decreases missing.len(),
{
    if missing.len() > 0 && cloud.len() > 0 {
        let next = if missing[0] < flags.len() { flags.update(missing[0] as int, cloud[0]) } else { flags };
        assert forall|k: int| 0 <= k < missing.drop_first().len() implies missing.drop_first()[k] != i by {
            assert(missing.drop_first()[k] == missing[k + 1]);
        }
        lemma_fill_keeps(next, missing.drop_first(), cloud.drop_first(), i);
    }
}

/// Each missing position receives the cloud's answer paired with it.
proof fn lemma_fill_sets(flags: Seq<bool>, missing: Seq<usize>, cloud: Seq<bool>, k: int)
    requires
        0 <= k < missing.len(),
        cloud.len() == missing.len(),
        forall|j: int| 0 <= j < missing.len() ==> #[trigger] missing[j] < flags.len(),
        forall|j1: int, j2: int| 0 <= j1 < j2 < missing.len() ==> #[trigger] missing[j1] < #[trigger] missing[j2],
    ensures
        fill_answers(flags, missing, cloud)[missing[k] as int] == cloud[k],
    decreases missing.len(),
{
    let next = flags.update(missing[0] as int, cloud[0]);
    let rest = missing.drop_first();
    if k == 0 {
        assert forall|j: int| 0 <= j < rest.len() implies rest[j] != missing[0] by {
            assert(rest[j] == missing[j + 1]);
            assert(missing[0] < missing[j + 1]);
        }
        lemma_fill_keeps(next, rest, cloud.drop_first(), missing[0] as int);
    } else {
        assert forall|j: int| 0 <= j < rest.len() implies #[trigger] rest[j] < next.len() by {
            assert(rest[j] == missing[j + 1]);
        }
        assert forall|j1: int, j2: int| 0 <= j1 < j2 < rest.len() implies #[trigger] rest[j1] < #[trigger] rest[j2] by {
            assert(rest[j1] == missing[j1 + 1]);
            assert(rest[j2] == missing[j2 + 1]);
        }
        lemma_fill_sets(next, rest, cloud.drop_first(), k - 1);
        assert(rest[k - 1] == missing[k]);
    }
}

/// An id that the node knows is reported retrievable, whatever the cloud says.
pub proof fn lemma_node_found_blob_is_present(rs: Seq<Result<JsonValue, ClientError>>, cloud: Seq<bool>, i: int)
    requires
        rs.len() <= usize::MAX,
        0 <= i < rs.len(),
        rs[i] is Ok,
        missing_positions(rs) is Ok,
    ensures
        fill_answers(found_flags(rs), missing_positions(rs)->Ok_0, cloud)[i],
        fill_answers(found_flags(rs), missing_positions(rs)->Ok_0, cloud).len() == rs.len(),
{
    lemma_missing_positions_shape(rs);
    let m = missing_positions(rs)->Ok_0;
    assert forall|k: int| 0 <= k < m.len() implies m[k] != i by {
        assert(rs[m[k] as int] is Err);
    }
    lemma_fill_keeps(found_flags(rs), m, cloud, i);
}

/// An id that the node does not know is reported as the cloud answers for it.
pub proof fn lemma_cloud_decides_missing_blob(rs: Seq<Result<JsonValue, ClientError>>, cloud: Seq<bool>, k: int)
    requires
        rs.len() <= usize::MAX,
        missing_positions(rs) is Ok,
        cloud.len() == missing_positions(rs)->Ok_0.len(),
        0 <= k < cloud.len(),
    ensures
        fill_answers(found_flags(rs), missing_positions(rs)->Ok_0, cloud)[missing_positions(rs)->Ok_0[k] as int]
            == cloud[k],
{
    lemma_missing_positions_shape(rs);
    let m = missing_positions(rs)->Ok_0;
    assert forall|j: int| 0 <= j < m.len() implies #[trigger] m[j] < found_flags(rs).len() by {}
    lemma_fill_sets(found_flags(rs), m, cloud, k);
}

proof fn lemma_batch_slots_shape(rs: Seq<JsonRpcResponse>, n: nat)
    ensures
        batch_slots(rs, n) matches Ok(s) ==> s.len() == n,
        rs.len() > 0 && batch_slots(rs, n) is Ok ==> batch_slots(rs.drop_last(), n) is Ok,
    decreases rs.len(),
{
    if rs.len() > 0 {
        lemma_batch_slots_shape(rs.drop_last(), n);
    }
}

/// Every answer of a read batch has one entry per request.
pub proof fn lemma_batch_answers_len(rs: Seq<JsonRpcResponse>, n: nat)
    ensures
        batch_answers(rs, n) matches Ok(a) ==> a.len() == n,
{
    lemma_batch_slots_shape(rs, n);
}

proof fn lemma_batch_slot_unanswered(rs: Seq<JsonRpcResponse>, n: nat, i: int)
    requires
        0 <= i < n,
        batch_slots(rs, n) is Ok,
        forall|j: int| 0 <= j < rs.len() ==> response_position(#[trigger] rs[j], n) != Ok::<int, ClientError>(i),
    ensures
        batch_slots(rs, n)->Ok_0[i] is None,
    decreases rs.len(),
{
    lemma_batch_slots_shape(rs, n);
    if rs.len() > 0 {
        let prefix = rs.drop_last();
        assert forall|j: int| 0 <= j < prefix.len() implies response_position(#[trigger] prefix[j], n) != Ok::<int, ClientError>(i) by {
            assert(prefix[j] == rs[j]);
        }
        lemma_batch_slot_unanswered(prefix, n, i);
        lemma_batch_slots_shape(prefix, n);
        assert(response_position(rs[rs.len() - 1], n) != Ok::<int, ClientError>(i));
    }
}

proof fn lemma_batch_slot_last(rs: Seq<JsonRpcResponse>, n: nat, i: int, j: int)
    requires
        0 <= j < rs.len(),
        batch_slots(rs, n) is Ok,
        response_position(rs[j], n) == Ok::<int, ClientError>(i),
        forall|k: int| j < k < rs.len() ==> response_position(#[trigger] rs[k], n) != Ok::<int, ClientError>(i),
    ensures
        batch_slots(rs, n)->Ok_0[i] == Some(envelope_result(rs[j])),
    decreases rs.len(),
{
    lemma_batch_slots_shape(rs, n);
    let prefix = rs.drop_last();
    lemma_batch_slots_shape(prefix, n);
    if j < rs.len() - 1 {
        assert(prefix[j] == rs[j]);
        assert forall|k: int| j < k < prefix.len() implies response_position(#[trigger] prefix[k], n) != Ok::<int, ClientError>(i) by {
            assert(prefix[k] == rs[k]);
        }
        lemma_batch_slot_last(prefix, n, i, j);
        assert(response_position(rs[rs.len() - 1], n) != Ok::<int, ClientError>(i));
    }
}

/// A read batch answers each request with the last member that carries its
/// id, whatever order the members came in.
pub proof fn lemma_batch_answer_from_its_member(rs: Seq<JsonRpcResponse>, n: nat, i: int, j: int)
    requires
        0 <= j < rs.len(),
        batch_answers(rs, n) is Ok,
        response_position(rs[j], n) == Ok::<int, ClientError>(i),
        forall|k: int| j < k < rs.len() ==> response_position(#[trigger] rs[k], n) != Ok::<int, ClientError>(i),
    ensures
        batch_answers(rs, n)->Ok_0[i] == envelope_result(rs[j]),
{
    lemma_batch_slot_last(rs, n, i, j);
}

/// A request that no member of a read batch answers gets a missing-response error.
pub proof fn lemma_batch_unanswered_request(rs: Seq<JsonRpcResponse>, n: nat, i: int)
    requires
        0 <= i < n,
        batch_answers(rs, n) is Ok,
        forall|j: int| 0 <= j < rs.len() ==> response_position(#[trigger] rs[j], n) != Ok::<int, ClientError>(i),
    ensures
        batch_answers(rs, n)->Ok_0[i] == Err::<JsonValue, ClientError>(ClientError::MissingBatchResponse(i as usize)),
{
    lemma_batch_slot_unanswered(rs, n, i);
}

} // verus!

verus! {

/// An existence check that finishes with answers gives one per id.
pub proof fn lemma_existence_one_answer_per_id(check: Existence, reply: Reply)
    requires
        check.wf(),
    ensures
        check.finish_outcome(reply) matches Some(Ok(flags)) ==> flags.len() == check.ids@.len(),
{
    match check.stage {
        ExistenceStage::Lookup => {
            if let Reply::Batch(Ok(h)) = reply {
                if let Ok(members) = h.parsed {
                    lemma_batch_answers_len(members@, check.ids@.len());
                }
            }
        },
        ExistenceStage::Cloud { found, missing, missing_ids } => {
            if let Reply::Json(Ok(v)) = reply {
                if let Ok(cloud) = check_vh_answers(v, missing_ids@) {
                    lemma_fill_keeps(found@, missing@, cloud, -1);
                }
            }
        },
    }
}

/// Checking one blob gives exactly the one answer of the existence check
/// for that id: it never lacks an answer.
pub proof fn lemma_blob_exists_single_answer(check: BlobExists, reply: Reply)
    requires
        check.inner.wf(),
        check.inner.ids@.len() == 1,
    ensures
        check.inner.finish_outcome(reply) matches Some(Ok(flags)) ==> flags.len() == 1 && single_answer(
            check.inner.finish_outcome(reply),
        ) == Some(Ok::<bool, ClientError>(flags[0])),
{
    lemma_existence_one_answer_per_id(check.inner, reply);
}

} // verus!

verus! {

/// Running wallet-and-address again is harmless: when the node reports the
/// wallet as loaded (or loads it) and the label lookup names address `a`,
/// the run asks for the label's addresses, gives `a`, and creates neither a
/// wallet nor an address.
pub proof fn lemma_wallet_and_address_rerun(
    s: WalletAndAddress,
    reply1: Reply,
    res1: Step<WalletAndAddress, String>,
    reply2: Reply,
    res2: Step<WalletAndAddress, String>,
    a: String,
)
    requires
        s matches WalletAndAddress::Wallet { wallet, .. } && !wallet.creating,
        reply1 matches Reply::Rpc(raw1) && (rpc_outcome(raw1) is Ok || (rpc_outcome(raw1) matches Err(e)
            && is_wallet_already_loaded(e) && !is_wallet_load_failure(e))),
        s.step_spec(reply1, res1),
        reply2 matches Reply::Rpc(raw2) && lookup_outcome(rpc_outcome(raw2)) == Ok::<_, ClientError>(Some(a)),
        res1 matches Step::Perform(s2, _) ==> s2.step_spec(reply2, res2),
    ensures
        res1 matches Step::Perform(WalletAndAddress::Address(e), Action::CallWallet(c)) && !e.creating
            && (s matches WalletAndAddress::Wallet { label, .. } && e.label == label && is_call_with_text(
            c,
            "getaddressesbylabel"@,
            label@,
        )),
        res2 == Step::<WalletAndAddress, String>::Finish(Ok(a)),
{
}

} // verus!

verus! {

/// A run of wallet-and-address from `s` on `replies`: each step follows from
/// the state before it and its reply, and the run ends with the replies.
pub open spec fn is_wallet_and_address_run(
    s: WalletAndAddress,
    replies: Seq<Reply>,
    steps: Seq<Step<WalletAndAddress, String>>,
) -> bool
    decreases replies.len(),
{
    &&& steps.len() == replies.len()
    &&& replies.len() > 0 ==> {
        &&& s.step_spec(replies[0], steps[0])
        &&& match steps[0] {
            Step::Perform(t, _) => is_wallet_and_address_run(t, replies.drop_first(), steps.drop_first()),
            Step::Finish(_) => replies.len() == 1,
        }
    }
}

/// One step of wallet-and-address depends only on the stage, the wallet
/// name, the label and the reply.
pub proof fn lemma_wallet_and_address_step_agrees(
    s1: WalletAndAddress,
    s2: WalletAndAddress,
    reply: Reply,
    r1: Step<WalletAndAddress, String>,
    r2: Step<WalletAndAddress, String>,
)
    requires
        same_wallet_and_address(s1, s2),
        s1.step_spec(reply, r1),
        s2.step_spec(reply, r2),
    ensures
        same_wallet_and_address_step(r1, r2),
{
}

/// Runs of wallet-and-address from agreeing states on the same replies agree
/// at every step.
pub proof fn lemma_wallet_and_address_runs_agree(
    s1: WalletAndAddress,
    s2: WalletAndAddress,
    replies: Seq<Reply>,
    steps1: Seq<Step<WalletAndAddress, String>>,
    steps2: Seq<Step<WalletAndAddress, String>>,
)
    requires
        same_wallet_and_address(s1, s2),
        is_wallet_and_address_run(s1, replies, steps1),
        is_wallet_and_address_run(s2, replies, steps2),
    ensures
        steps1.len() == steps2.len(),
        forall|k: int| 0 <= k < steps1.len() ==> same_wallet_and_address_step(#[trigger] steps1[k], steps2[k]),
    decreases replies.len(),
{
    if replies.len() > 0 {
        lemma_wallet_and_address_step_agrees(s1, s2, replies[0], steps1[0], steps2[0]);
        if let (Step::Perform(t1, _), Step::Perform(t2, _)) = (steps1[0], steps2[0]) {
            lemma_wallet_and_address_runs_agree(t1, t2, replies.drop_first(), steps1.drop_first(), steps2.drop_first());
            assert forall|k: int| 0 <= k < steps1.len() implies same_wallet_and_address_step(#[trigger] steps1[k], steps2[k]) by {
                if k > 0 {
                    assert(steps1[k] == steps1.drop_first()[k - 1]);
                    assert(steps2[k] == steps2.drop_first()[k - 1]);
                }
            }
        }
    }
}

/// Wallet-and-address for the same wallet name and label behaves the same
/// however it was begun (`ensure_wallet_and_address` with the configured
/// wallet, or `ensure_own_wallet_and_address`): the first steps agree, and so
/// do the runs that follow on the same replies.
pub proof fn lemma_wallet_and_address_same_names_same_run(
    wallet_name: Seq<char>,
    label: Seq<char>,
    first1: Step<WalletAndAddress, String>,
    first2: Step<WalletAndAddress, String>,
    replies: Seq<Reply>,
    steps1: Seq<Step<WalletAndAddress, String>>,
    steps2: Seq<Step<WalletAndAddress, String>>,
)
    requires
        is_wallet_and_address_start(first1, wallet_name, label),
        is_wallet_and_address_start(first2, wallet_name, label),
        first1 matches Step::Perform(t1, _) && is_wallet_and_address_run(t1, replies, steps1),
        first2 matches Step::Perform(t2, _) && is_wallet_and_address_run(t2, replies, steps2),
    ensures
        same_wallet_and_address_step(first1, first2),
        steps1.len() == steps2.len(),
        forall|k: int| 0 <= k < steps1.len() ==> same_wallet_and_address_step(#[trigger] steps1[k], steps2[k]),
{
    if let (Step::Perform(t1, _), Step::Perform(t2, _)) = (first1, first2) {
        lemma_wallet_and_address_runs_agree(t1, t2, replies, steps1, steps2);
    }
}

} // verus!

verus! {

/// Checking one blob is the existence check of the one-id list: both begin
/// with the same lookup of that id, and each later step of the one-blob
/// check is the existence check's step, finishing with its single answer.
pub proof fn lemma_blob_exists_is_existence_of_one(
    blob_id: Seq<char>,
    ids: Seq<String>,
    check: BlobExists,
    reply: Reply,
    res: Step<BlobExists, bool>,
)
    requires
        ids.len() == 1,
        ids[0]@ == blob_id,
        check.inner.wf(),
        check.inner.ids@.len() == 1,
        check.step_spec(reply, res),
    ensures
        ids.map_values(|s: String| s@) == seq![blob_id],
        match res {
            Step::Perform(b, a) => check.inner.step_spec(reply, Step::Perform(b.inner, a))
                && b.inner.ids == check.inner.ids,
            Step::Finish(Ok(x)) => check.inner.finish_outcome(reply) matches Some(Ok(flags))
                && flags.len() == 1 && x == flags[0],
            Step::Finish(Err(e)) => check.inner.finish_outcome(reply) == Some(
                Err::<Seq<bool>, ClientError>(e),
            ),
        },
{
    assert(ids.map_values(|s: String| s@) =~= seq![blob_id]);
    lemma_existence_one_answer_per_id(check.inner, reply);
}

} // verus!

verus! {

/// A wallet call is sent as the same call to the node would be, only to the
/// wallet endpoint: both are POSTs with the node's credentials and the
/// call's envelope with the single-call id, read as single replies.
pub proof fn lemma_wallet_call_differs_only_in_url(
    rpc_url: Seq<char>,
    wallet_name: Seq<char>,
    c: RpcCall,
    node: HttpRequest,
    wallet: HttpRequest,
)
    requires
        is_http_request(rpc_url, wallet_name, Action::Call(c), node),
        is_http_request(rpc_url, wallet_name, Action::CallWallet(c), wallet),
    ensures
        node.method == wallet.method,
        node.method == HttpMethod::Post,
        node.node_auth && wallet.node_auth,
        node.reply == wallet.reply,
        node.reply == ReplyKind::Rpc,
        node.body matches Some(b) && is_request_body(b, c.method@, c.params@, SINGLE_CALL_ID),
        wallet.body matches Some(b) && is_request_body(b, c.method@, c.params@, SINGLE_CALL_ID),
        node.url@ == rpc_url,
        wallet.url@ == wallet_endpoint(rpc_url, wallet_name),
{
}

} // verus!

verus! {

/// Two finality checks of the same blob (by text), in the same mode and
/// stage, a chainlock check never waiting for a block count.
pub open spec fn finality_alike(s1: Finality, s2: Finality) -> bool {
    &&& s1.mode == s2.mode
    &&& s1.mode == BitcoinDaFinalityMode::Chainlock ==> !(s1.stage is BlockCount)
    &&& s1.blob_id@ == s2.blob_id@
    &&& s1.check_vh_url@ == s2.check_vh_url@
    &&& s1.stage == s2.stage
}

/// Steps of two alike finality checks, the second (`s2`) asking for at least
/// as many confirmations as the first: the same request with alike states
/// that keep their requirements, or results where the second's "final"
/// means the first's "final", errors are equal, and equal requirements (or
/// chainlock mode) give equal results.
pub open spec fn finality_steps_alike(
    s1: Finality,
    s2: Finality,
    r1: Step<Finality, bool>,
    r2: Step<Finality, bool>,
) -> bool {
    match (r1, r2) {
        (Step::Perform(t1, a1), Step::Perform(t2, a2)) => finality_alike(t1, t2) && t1.confirmations
            == s1.confirmations && t2.confirmations == s2.confirmations && same_request(a1, a2),
        (Step::Finish(x1), Step::Finish(x2)) => (x2 == Ok::<bool, ClientError>(true) ==> x1 == Ok::<
            bool,
            ClientError,
        >(true)) && (x1 is Err || x2 is Err ==> x1 == x2) && (s1.mode == BitcoinDaFinalityMode::Chainlock
            || s1.confirmations == s2.confirmations ==> x1 == x2),
        _ => false,
    }
}

/// A run of a finality check from `s` on `replies`.
pub open spec fn is_finality_run(s: Finality, replies: Seq<Reply>, steps: Seq<Step<Finality, bool>>) -> bool
    decreases replies.len(),
{
    &&& steps.len() == replies.len()
    &&& replies.len() > 0 ==> {
        &&& s.step_spec(replies[0], steps[0])
        &&& match steps[0] {
            Step::Perform(t, _) => is_finality_run(t, replies.drop_first(), steps.drop_first()),
            Step::Finish(_) => replies.len() == 1,
        }
    }
}

/// What a finality check in its cloud stage makes of `reply` for `blob_id`.
spec fn cloud_has_blob_of(reply: Reply, blob_id: String) -> bool {
    match reply {
        Reply::Json(r) => cloud_has_blob(r, blob_id),
        _ => false,
    }
}

/// One step of alike finality checks on the same reply: the steps are alike.
pub proof fn lemma_finality_step_alike(
    s1: Finality,
    s2: Finality,
    reply: Reply,
    r1: Step<Finality, bool>,
    r2: Step<Finality, bool>,
)
    requires
        finality_alike(s1, s2),
        s1.mode == BitcoinDaFinalityMode::Confirmations ==> s1.confirmations <= s2.confirmations,
        s1.step_spec(reply, r1),
        s2.step_spec(reply, r2),
    ensures
        finality_steps_alike(s1, s2, r1, r2),
{
    match s1.stage {
        FinalityStage::Cloud => {
            if let Reply::Json(Ok(v)) = reply {
                lemma_check_vh_answers_by_text(v, seq![s1.blob_id], seq![s2.blob_id]);
            }
            assert(cloud_has_blob_of(reply, s1.blob_id) == cloud_has_blob_of(reply, s2.blob_id));
        },
        FinalityStage::Lookup => {
            if let Reply::Rpc(raw) = reply {
                match rpc_outcome(raw) {
                    Err(e) => {
                        if is_blob_not_found(e) {
                            if let (Step::Perform(t1, Action::PostJson { url: u1, body: b1 }), Step::Perform(t2, Action::PostJson { url: u2, body: b2 })) = (r1, r2) {
                                if let (JsonValue::Array(x1), JsonValue::Array(x2)) = (b1, b2) {
                                    assert(value_as_text(x1@[0]) == Some(s1.blob_id@));
                                    assert(value_as_text(x2@[0]) == Some(s2.blob_id@));
                                    assert(same_values(x1@, x2@));
                                }
                            }
                        }
                    },
                    Ok(_) => {},
                }
            }
        },
        FinalityStage::BlockCount { .. } => {},
    }
}

/// Runs of alike finality checks on the same replies are alike at every
/// step: when the check asking for more confirmations finds the blob final,
/// so does the one asking for fewer; with equal requirements (or in
/// chainlock mode) they make the same requests and give the same result.
pub proof fn lemma_finality_runs_alike(
    s1: Finality,
    s2: Finality,
    replies: Seq<Reply>,
    steps1: Seq<Step<Finality, bool>>,
    steps2: Seq<Step<Finality, bool>>,
)
    requires
        finality_alike(s1, s2),
        s1.mode == BitcoinDaFinalityMode::Confirmations ==> s1.confirmations <= s2.confirmations,
        is_finality_run(s1, replies, steps1),
        is_finality_run(s2, replies, steps2),
    ensures
        steps1.len() == steps2.len(),
        forall|k: int| 0 <= k < steps1.len() ==> finality_steps_alike(s1, s2, #[trigger] steps1[k], steps2[k]),
        forall|k: int|
            0 <= k < steps1.len() && #[trigger] steps2[k] == Step::<Finality, bool>::Finish(Ok(true))
                ==> steps1[k] == Step::<Finality, bool>::Finish(Ok(true)),
    decreases replies.len(),
{
    if replies.len() > 0 {
        lemma_finality_step_alike(s1, s2, replies[0], steps1[0], steps2[0]);
        if let (Step::Perform(t1, _), Step::Perform(t2, _)) = (steps1[0], steps2[0]) {
            lemma_finality_runs_alike(t1, t2, replies.drop_first(), steps1.drop_first(), steps2.drop_first());
            assert forall|k: int| 0 <= k < steps1.len() implies finality_steps_alike(s1, s2, #[trigger] steps1[k], steps2[k]) by {
                if k > 0 {
                    assert(steps1[k] == steps1.drop_first()[k - 1]);
                    assert(steps2[k] == steps2.drop_first()[k - 1]);
                }
            }
        }
        assert forall|k: int|
            0 <= k < steps1.len() && #[trigger] steps2[k] == Step::<Finality, bool>::Finish(Ok(true))
            implies steps1[k] == Step::<Finality, bool>::Finish(Ok(true)) by {
            assert(finality_steps_alike(s1, s2, steps1[k], steps2[k]));
        }
    }
}

/// Finality checks begun for the same blob, mode and service (by
/// `check_blob_finality`, `check_blob_finality_by_confirmations` or
/// `check_blob_finality_with_mode`) run alike on the same replies: the first
/// requests are the same, and when the second asks for at least as many
/// confirmations, its "final" means the first's. In chainlock mode, or with
/// equal requirements, the two make the same requests and give the same
/// result; so `check_blob_finality_with_mode` behaves as the check of its mode.
pub proof fn lemma_finality_starts_run_alike(
    blob_id: Seq<char>,
    mode: BitcoinDaFinalityMode,
    c1: u64,
    c2: u64,
    url: Seq<char>,
    first1: Step<Finality, bool>,
    first2: Step<Finality, bool>,
    replies: Seq<Reply>,
    steps1: Seq<Step<Finality, bool>>,
    steps2: Seq<Step<Finality, bool>>,
)
    requires
        mode == BitcoinDaFinalityMode::Confirmations ==> c1 <= c2,
        is_finality_start(first1, blob_id, mode, c1, url),
        is_finality_start(first2, blob_id, mode, c2, url),
        first1 matches Step::Perform(t1, _) && is_finality_run(t1, replies, steps1),
        first2 matches Step::Perform(t2, _) && is_finality_run(t2, replies, steps2),
    ensures
        first1 matches Step::Perform(t1, a1) && (first2 matches Step::Perform(t2, a2) && same_request(
            a1,
            a2,
        ) && finality_alike(t1, t2) && finality_steps_alike(t1, t2, first1, first2)),
        steps1.len() == steps2.len(),
        forall|k: int|
            0 <= k < steps1.len() && #[trigger] steps2[k] == Step::<Finality, bool>::Finish(Ok(true))
                ==> steps1[k] == Step::<Finality, bool>::Finish(Ok(true)),
        forall|k: int|
            0 <= k < steps1.len() && (mode == BitcoinDaFinalityMode::Chainlock || c1 == c2) ==> (
            #[trigger] steps1[k] matches Step::Perform(_, a1) ==> steps2[k] matches Step::Perform(_, a2)
                && same_request(a1, a2)),
        forall|k: int|
            0 <= k < steps1.len() && (mode == BitcoinDaFinalityMode::Chainlock || c1 == c2) ==> (
            #[trigger] steps1[k] matches Step::Finish(x1) ==> steps2[k] == Step::<Finality, bool>::Finish(x1)),
{
    if let (Step::Perform(t1, _), Step::Perform(t2, _)) = (first1, first2) {
        lemma_finality_runs_alike(t1, t2, replies, steps1, steps2);
        assert forall|k: int|
            0 <= k < steps1.len() && (mode == BitcoinDaFinalityMode::Chainlock || c1 == c2) implies (
            #[trigger] steps1[k] matches Step::Finish(x1) ==> steps2[k] == Step::<Finality, bool>::Finish(x1)) by {
            assert(finality_steps_alike(t1, t2, steps1[k], steps2[k]));
        }
        assert forall|k: int|
            0 <= k < steps1.len() && (mode == BitcoinDaFinalityMode::Chainlock || c1 == c2) implies (
            #[trigger] steps1[k] matches Step::Perform(_, a1) ==> steps2[k] matches Step::Perform(_, a2)
                && same_request(a1, a2)) by {
            assert(finality_steps_alike(t1, t2, steps1[k], steps2[k]));
        }
    }
}

} // verus!

verus! {

/// Two lists of texts that hold the same texts.
pub open spec fn same_texts(t1: Seq<String>, t2: Seq<String>) -> bool {
    &&& t1.len() == t2.len()
    &&& forall|i: int| 0 <= i < t1.len() ==> (#[trigger] t1[i])@ == t2[i]@
}

/// Two existence checks of the same ids (by text) against the same service,
/// in the same stage with the same findings.
pub open spec fn existence_alike(s1: Existence, s2: Existence) -> bool {
    &&& same_texts(s1.ids@, s2.ids@)
    &&& s1.check_vh_url@ == s2.check_vh_url@
    &&& match (s1.stage, s2.stage) {
        (ExistenceStage::Lookup, ExistenceStage::Lookup) => true,
        (
            ExistenceStage::Cloud { found: f1, missing: m1, missing_ids: i1 },
            ExistenceStage::Cloud { found: f2, missing: m2, missing_ids: i2 },
        ) => f1@ == f2@ && m1@ == m2@ && same_texts(i1@, i2@),
        _ => false,
    }
}

/// Two finishing outcomes that agree: the same answers, or errors with the
/// same message.
pub open spec fn same_outcome<T>(o1: Result<T, ClientError>, o2: Result<T, ClientError>) -> bool {
    match (o1, o2) {
        (Ok(v1), Ok(v2)) => v1 == v2,
        (Err(e1), Err(e2)) => error_message(e1) == error_message(e2),
        _ => false,
    }
}

/// Steps of two alike existence checks that agree: the same request with
/// alike states, or agreeing results.
pub open spec fn existence_steps_alike(r1: Step<Existence, Vec<bool>>, r2: Step<Existence, Vec<bool>>) -> bool {
    match (r1, r2) {
        (Step::Perform(t1, a1), Step::Perform(t2, a2)) => existence_alike(t1, t2) && same_request(a1, a2),
        (Step::Finish(Ok(v1)), Step::Finish(Ok(v2))) => v1@ == v2@,
        (Step::Finish(Err(e1)), Step::Finish(Err(e2))) => error_message(e1) == error_message(e2),
        _ => false,
    }
}

/// Alike existence checks finish alike on the same reply.
pub proof fn lemma_existence_outcome_alike(s1: Existence, s2: Existence, reply: Reply)
    requires
        existence_alike(s1, s2),
    ensures
        s1.finish_outcome(reply) is None <==> s2.finish_outcome(reply) is None,
        s1.finish_outcome(reply) matches Some(o1) ==> (s2.finish_outcome(reply) matches Some(o2)
            && same_outcome(o1, o2)),
{
    if let (
        ExistenceStage::Cloud { found, missing, missing_ids: i1 },
        ExistenceStage::Cloud { missing_ids: i2, .. },
    ) = (s1.stage, s2.stage) {
        if let Reply::Json(Ok(v)) = reply {
            lemma_check_vh_answers_by_text(v, i1@, i2@);
        }
    }
}

/// One step of alike existence checks on the same reply: the steps are alike.
pub proof fn lemma_existence_step_alike(
    s1: Existence,
    s2: Existence,
    reply: Reply,
    r1: Step<Existence, Vec<bool>>,
    r2: Step<Existence, Vec<bool>>,
)
    requires
        existence_alike(s1, s2),
        s1.wf(),
        s2.wf(),
        s1.step_spec(reply, r1),
        s2.step_spec(reply, r2),
    ensures
        existence_steps_alike(r1, r2),
{
    lemma_existence_outcome_alike(s1, s2, reply);
    if let (Step::Perform(t1, Action::PostJson { url: u1, body: b1 }), Step::Perform(t2, Action::PostJson { url: u2, body: b2 })) = (r1, r2) {
        if let (
            ExistenceStage::Cloud { missing: m1, missing_ids: i1, .. },
            ExistenceStage::Cloud { missing: m2, missing_ids: i2, .. },
        ) = (t1.stage, t2.stage) {
            assert forall|k: int| 0 <= k < i1@.len() implies (#[trigger] i1@[k])@ == i2@[k]@ by {
                assert(i1@[k]@ == t1.ids@[m1@[k] as int]@);
                assert(i2@[k]@ == t2.ids@[m2@[k] as int]@);
            }
            if let (JsonValue::Array(x1), JsonValue::Array(x2)) = (b1, b2) {
                assert forall|k: int| 0 <= k < x1@.len() implies value_as_text(#[trigger] x1@[k]) == value_as_text(x2@[k]) by {
                    assert(is_text(x1@[k], i1@[k]@));
                    assert(is_text(x2@[k], i2@[k]@));
                }
            }
        }
    }
}

} // verus!

verus! {

/// A run of an existence check from `s` on `replies`.
pub open spec fn is_existence_run(s: Existence, replies: Seq<Reply>, steps: Seq<Step<Existence, Vec<bool>>>) -> bool
    decreases replies.len(),
{
    &&& steps.len() == replies.len()
    &&& replies.len() > 0 ==> {
        &&& s.step_spec(replies[0], steps[0])
        &&& match steps[0] {
            Step::Perform(t, _) => is_existence_run(t, replies.drop_first(), steps.drop_first()),
            Step::Finish(_) => replies.len() == 1,
        }
    }
}

/// Runs of alike existence checks on the same replies are alike at every step.
pub proof fn lemma_existence_runs_alike(
    s1: Existence,
    s2: Existence,
    replies: Seq<Reply>,
    steps1: Seq<Step<Existence, Vec<bool>>>,
    steps2: Seq<Step<Existence, Vec<bool>>>,
)
    requires
        existence_alike(s1, s2),
        s1.wf(),
        s2.wf(),
        is_existence_run(s1, replies, steps1),
        is_existence_run(s2, replies, steps2),
    ensures
        steps1.len() == steps2.len(),
        forall|k: int| 0 <= k < steps1.len() ==> existence_steps_alike(#[trigger] steps1[k], steps2[k]),
    decreases replies.len(),
{
    if replies.len() > 0 {
        lemma_existence_step_alike(s1, s2, replies[0], steps1[0], steps2[0]);
        if let (Step::Perform(t1, _), Step::Perform(t2, _)) = (steps1[0], steps2[0]) {
            lemma_existence_runs_alike(t1, t2, replies.drop_first(), steps1.drop_first(), steps2.drop_first());
            assert forall|k: int| 0 <= k < steps1.len() implies existence_steps_alike(#[trigger] steps1[k], steps2[k]) by {
                if k > 0 {
                    assert(steps1[k] == steps1.drop_first()[k - 1]);
                    assert(steps2[k] == steps2.drop_first()[k - 1]);
                }
            }
        }
    }
}

/// Existence checks begun for ids with the same texts once a leading `0x`
/// is stripped make the same requests and give the same answers (or errors
/// with the same message) on the same replies. Ids already stripped of their
/// prefix qualify unless an id starts with `0x0x` (see
/// `lemma_stripping_twice`).
pub proof fn lemma_existence_by_stripped_ids(
    ids1: Seq<Seq<char>>,
    ids2: Seq<Seq<char>>,
    url: Seq<char>,
    f1: Existence,
    a1: Action,
    f2: Existence,
    a2: Action,
    replies: Seq<Reply>,
    steps1: Seq<Step<Existence, Vec<bool>>>,
    steps2: Seq<Step<Existence, Vec<bool>>>,
)
    requires
        ids1.len() == ids2.len(),
        forall|i: int| 0 <= i < ids1.len() ==> strip_hex_prefix(#[trigger] ids1[i]) == strip_hex_prefix(ids2[i]),
        is_lookup_start(f1, a1, ids1, url),
        is_lookup_start(f2, a2, ids2, url),
        is_existence_run(f1, replies, steps1),
        is_existence_run(f2, replies, steps2),
    ensures
        same_request(a1, a2),
        existence_alike(f1, f2),
        steps1.len() == steps2.len(),
        forall|k: int| 0 <= k < steps1.len() ==> existence_steps_alike(#[trigger] steps1[k], steps2[k]),
{
    assert forall|i: int| 0 <= i < f1.ids@.len() implies (#[trigger] f1.ids@[i])@ == f2.ids@[i]@ by {
        assert(strip_hex_prefix(ids1[i]) == strip_hex_prefix(ids2[i]));
    }
    if let (Action::CallBatch(c1), Action::CallBatch(c2)) = (a1, a2) {
        assert forall|i: int| 0 <= i < c1@.len() implies same_call(#[trigger] c1@[i], c2@[i]) by {
            assert(is_existence_call(c1@[i], strip_hex_prefix(ids1[i])));
            assert(is_existence_call(c2@[i], strip_hex_prefix(ids2[i])));
            assert(strip_hex_prefix(ids1[i]) == strip_hex_prefix(ids2[i]));
        }
    }
    lemma_existence_runs_alike(f1, f2, replies, steps1, steps2);
}

/// Stripping a leading `0x` a second time changes nothing exactly when the
/// stripped id does not itself start with `0x` (as `0x0xab` does).
pub proof fn lemma_stripping_twice(id: Seq<char>)
    ensures
        strip_hex_prefix(strip_hex_prefix(id)) == strip_hex_prefix(id) <==> !(strip_hex_prefix(id).len()
            >= 2 && strip_hex_prefix(id)[0] == '0' && strip_hex_prefix(id)[1] == 'x'),
{
    let s = strip_hex_prefix(id);
    if s.len() >= 2 && s[0] == '0' && s[1] == 'x' {
        assert(s.skip(2).len() < s.len());
    }
}

} // verus!

verus! {

/// A run of a one-blob existence check from `s` on `replies`.
pub open spec fn is_blob_exists_run(s: BlobExists, replies: Seq<Reply>, steps: Seq<Step<BlobExists, bool>>) -> bool
    decreases replies.len(),
{
    &&& steps.len() == replies.len()
    &&& replies.len() > 0 ==> {
        &&& s.step_spec(replies[0], steps[0])
        &&& match steps[0] {
            Step::Perform(t, _) => is_blob_exists_run(t, replies.drop_first(), steps.drop_first()),
            Step::Finish(_) => replies.len() == 1,
        }
    }
}

/// A step of a one-blob check against the step of the existence check it
/// stands for: the same request with alike states, or the single answer of
/// that check's answers, or errors with the same message.
pub open spec fn blob_step_as_existence_step(rb: Step<BlobExists, bool>, re: Step<Existence, Vec<bool>>) -> bool {
    match (rb, re) {
        (Step::Perform(b, a1), Step::Perform(e, a2)) => existence_alike(b.inner, e) && same_request(a1, a2)
            && b.inner.ids@.len() == 1,
        (Step::Finish(Ok(x)), Step::Finish(Ok(v))) => v@ == seq![x],
        (Step::Finish(Err(e1)), Step::Finish(Err(e2))) => error_message(e1) == error_message(e2),
        _ => false,
    }
}

/// One step of a one-blob check and of an alike existence check, on the same reply.
pub proof fn lemma_blob_exists_step_as_existence(
    b: BlobExists,
    e: Existence,
    reply: Reply,
    rb: Step<BlobExists, bool>,
    re: Step<Existence, Vec<bool>>,
)
    requires
        existence_alike(b.inner, e),
        b.inner.wf(),
        e.wf(),
        b.inner.ids@.len() == 1,
        b.step_spec(reply, rb),
        e.step_spec(reply, re),
    ensures
        blob_step_as_existence_step(rb, re),
{
    lemma_blob_exists_is_existence_of_one(b.inner.ids@[0]@, b.inner.ids@, b, reply, rb);
    lemma_existence_outcome_alike(b.inner, e, reply);
    if let Step::Perform(b2, a) = rb {
        lemma_existence_step_alike(b.inner, e, reply, Step::Perform(b2.inner, a), re);
    }
    if let (Step::Finish(Ok(x)), Step::Finish(Ok(v))) = (rb, re) {
        if let Some(Ok(flags)) = b.inner.finish_outcome(reply) {
            assert(v@ == flags);
            assert(flags =~= seq![x]);
        }
    }
}

/// Checking one blob runs as the existence check of the one-id list: begun
/// alike, on the same replies every step makes the same request, and the
/// one-blob check finishes with the single answer of the list check's
/// answers, or with an error of the same message. It never asks for a
/// blob's record, chainlock or the block count.
pub proof fn lemma_blob_exists_runs_as_existence(
    b: BlobExists,
    e: Existence,
    replies: Seq<Reply>,
    bsteps: Seq<Step<BlobExists, bool>>,
    esteps: Seq<Step<Existence, Vec<bool>>>,
)
    requires
        existence_alike(b.inner, e),
        b.inner.wf(),
        e.wf(),
        b.inner.ids@.len() == 1,
        is_blob_exists_run(b, replies, bsteps),
        is_existence_run(e, replies, esteps),
    ensures
        bsteps.len() == esteps.len(),
        forall|k: int| 0 <= k < bsteps.len() ==> blob_step_as_existence_step(#[trigger] bsteps[k], esteps[k]),
    decreases replies.len(),
{
    if replies.len() > 0 {
        lemma_blob_exists_step_as_existence(b, e, replies[0], bsteps[0], esteps[0]);
        if let (Step::Perform(b2, _), Step::Perform(e2, _)) = (bsteps[0], esteps[0]) {
            lemma_blob_exists_runs_as_existence(b2, e2, replies.drop_first(), bsteps.drop_first(), esteps.drop_first());
            assert forall|k: int| 0 <= k < bsteps.len() implies blob_step_as_existence_step(#[trigger] bsteps[k], esteps[k]) by {
                if k > 0 {
                    assert(bsteps[k] == bsteps.drop_first()[k - 1]);
                    assert(esteps[k] == esteps.drop_first()[k - 1]);
                }
            }
        }
    }
}

/// `blob_exists(id)` and `blobs_exist` of a one-id list with the same id
/// begin with the same request, and then run as `lemma_blob_exists_runs_as_existence` says.
pub proof fn lemma_blob_exists_begins_as_existence_of_one(
    blob_id: Seq<char>,
    ids: Seq<String>,
    url: Seq<char>,
    b: BlobExists,
    ab: Action,
    e: Existence,
    ae: Action,
)
    requires
        ids.len() == 1,
        ids[0]@ == blob_id,
        is_lookup_start(b.inner, ab, seq![blob_id], url),
        is_lookup_start(e, ae, ids.map_values(|s: String| s@), url),
    ensures
        same_request(ab, ae),
        existence_alike(b.inner, e),
        b.inner.wf() && e.wf() && b.inner.ids@.len() == 1,
{
    assert(ids.map_values(|s: String| s@) =~= seq![blob_id]);
    assert(b.inner.ids@[0]@ == e.ids@[0]@);
    if let (Action::CallBatch(c1), Action::CallBatch(c2)) = (ab, ae) {
        assert(same_call(c1@[0], c2@[0]));
    }
}

} // verus!

verus! {

/// A batch answer whose `k`-th member carries id `k` and a result.
pub open spec fn answers_in_order(members: Seq<JsonRpcResponse>) -> bool {
    forall|k: int|
        0 <= k < members.len() ==> (#[trigger] members[k]).id == Some(
            JsonValue::Number(JsonNumber::PosInt(k as u64)),
        ) && members[k].error is None && members[k].result is Some
}

proof fn lemma_in_order_slots(rs: Seq<JsonRpcResponse>, n: nat, k: int)
    requires
        answers_in_order(rs),
        rs.len() == n,
        n <= usize::MAX,
        0 <= k <= rs.len(),
    ensures
        batch_slots(rs.take(k), n) matches Ok(slots) && slots.len() == n && (forall|j: int|
            0 <= j < n ==> #[trigger] slots[j] == if j < k {
                Some(Ok::<JsonValue, ClientError>(rs[j].result->0))
            } else {
                None
            }),
    decreases k,
{
    if k == 0 {
        assert(rs.take(0) =~= Seq::<JsonRpcResponse>::empty());
    } else {
        lemma_in_order_slots(rs, n, k - 1);
        assert(rs.take(k).drop_last() =~= rs.take(k - 1));
        assert(rs.take(k).last() == rs[k - 1]);
        assert(response_position(rs[k - 1], n) == Ok::<int, ClientError>(k - 1));
    }
}

proof fn lemma_all_ok_nothing_missing(rs: Seq<Result<JsonValue, ClientError>>)
    requires
        forall|k: int| 0 <= k < rs.len() ==> (#[trigger] rs[k]) is Ok,
    ensures
        missing_positions(rs) == Ok::<Seq<usize>, ClientError>(Seq::empty()),
    decreases rs.len(),
{
    if rs.len() > 0 {
        assert forall|k: int| 0 <= k < rs.drop_last().len() implies (#[trigger] rs.drop_last()[k]) is Ok by {
            assert(rs.drop_last()[k] == rs[k]);
        }
        lemma_all_ok_nothing_missing(rs.drop_last());
        assert(rs.last() is Ok);
    }
}

/// When the node answers every id of the batch with a record, every blob is
/// reported retrievable and the cloud is not asked.
pub proof fn lemma_all_known_all_present(
    s: Existence,
    reply: Reply,
    res: Step<Existence, Vec<bool>>,
    h: HttpReply<Vec<JsonRpcResponse>>,
    members: Vec<JsonRpcResponse>,
)
    requires
        s.stage is Lookup,
        s.ids@.len() <= usize::MAX,
        reply == Reply::Batch(Ok(h)),
        h.success,
        h.parsed == Ok::<Vec<JsonRpcResponse>, String>(members),
        members@.len() == s.ids@.len(),
        answers_in_order(members@),
        s.step_spec(reply, res),
    ensures
        res matches Step::Finish(Ok(flags)) && flags@.len() == s.ids@.len() && forall|k: int|
            0 <= k < flags@.len() ==> #[trigger] flags@[k],
{
    let n = s.ids@.len();
    let rs = members@;
    lemma_in_order_slots(rs, n, n as int);
    assert(rs.take(n as int) =~= rs);
    let answers = batch_answers(rs, n);
    assert(answers matches Ok(a) && forall|k: int| 0 <= k < a.len() ==> (#[trigger] a[k]) is Ok);
    if let Ok(a) = answers {
        lemma_all_ok_nothing_missing(a);
        assert(found_flags(a).len() == n);
        assert(forall|k: int| 0 <= k < n ==> #[trigger] found_flags(a)[k]);
    }
}

/// The cloud's answers `[b_0, ..., b_m]`, one per id the node did not know,
/// become the answers at those ids' positions; every other position keeps
/// what the node said.
pub proof fn lemma_cloud_answers_fill_missing(
    s: Existence,
    reply: Reply,
    res: Step<Existence, Vec<bool>>,
    items: Vec<JsonValue>,
    cloud: Seq<bool>,
)
    requires
        s.wf(),
        s.stage matches ExistenceStage::Cloud { missing, .. } && (forall|j1: int, j2: int|
            0 <= j1 < j2 < missing@.len() ==> #[trigger] missing@[j1] < #[trigger] missing@[j2]),
        reply == Reply::Json(Ok(JsonValue::Array(items))),
        items@.len() == cloud.len(),
        forall|k: int| 0 <= k < cloud.len() ==> #[trigger] items@[k] == JsonValue::Bool(cloud[k]),
        s.stage matches ExistenceStage::Cloud { missing, .. } && missing@.len() == cloud.len(),
        s.step_spec(reply, res),
    ensures
        res matches Step::Finish(Ok(flags)) && (s.stage matches ExistenceStage::Cloud { found, missing, .. }
            && flags@.len() == found@.len() && (forall|k: int| 0 <= k < missing@.len() ==> flags@[#[trigger] missing@[k] as int] == cloud[k])
            && (forall|j: int| 0 <= j < found@.len() && (forall|k: int| 0 <= k < missing@.len() ==> #[trigger] missing@[k] != j) ==> #[trigger] flags@[j] == found@[j])),
{
    if let ExistenceStage::Cloud { found, missing, missing_ids } = s.stage {
        let v = JsonValue::Array(items);
        assert(check_vh_answers(v, missing_ids@) == Ok::<Seq<bool>, ClientError>(cloud)) by {
            assert(answers_exist(items@) =~= cloud);
        }
        let filled = fill_answers(found@, missing@, cloud);
        lemma_fill_keeps(found@, missing@, cloud, -1);
        assert forall|k: int| 0 <= k < missing@.len() implies filled[#[trigger] missing@[k] as int] == cloud[k] by {
            lemma_fill_sets(found@, missing@, cloud, k);
        }
        assert forall|j: int| 0 <= j < found@.len() && (forall|k: int| 0 <= k < missing@.len() ==> #[trigger] missing@[k] != j) implies #[trigger] filled[j] == found@[j] by {
            lemma_fill_keeps(found@, missing@, cloud, j);
        }
    }
}

} // verus!

verus! {

/// When the node does not know the one blob asked about (error code
/// -32602), the check asks the cloud about exactly that blob, keeping it as
/// the one missing position.
pub proof fn lemma_unknown_single_blob_asks_cloud(
    s: Existence,
    reply: Reply,
    res: Step<Existence, Vec<bool>>,
    h: HttpReply<Vec<JsonRpcResponse>>,
    members: Vec<JsonRpcResponse>,
    text: String,
)
    requires
        s.stage is Lookup,
        s.ids@.len() == 1,
        reply == Reply::Batch(Ok(h)),
        h.success,
        h.parsed == Ok::<Vec<JsonRpcResponse>, String>(members),
        members@.len() == 1,
        members@[0].id == Some(JsonValue::Number(JsonNumber::PosInt(0))),
        members@[0].error == Some(text),
        has_substring(text@, "\"code\":-32602"@),
        s.step_spec(reply, res),
    ensures
        res matches Step::Perform(f, Action::PostJson { url, body }) && url == s.check_vh_url && (f.stage matches ExistenceStage::Cloud {
            found,
            missing,
            ..
        } && found@ == seq![false] && missing@ == seq![0usize]) && (body matches JsonValue::Array(items) && items@.len()
            == 1 && (items@[0] matches JsonValue::String(t) && t@ == s.ids@[0]@)),
{
    lemma_rpc_message_keeps(text@, "\"code\":-32602"@);
    let rs = members@;
    assert(rs.take(1) =~= rs);
    assert(rs.take(1).drop_last() =~= Seq::<JsonRpcResponse>::empty());
    assert(response_position(rs[0], 1) == Ok::<int, ClientError>(0));
    assert(rs.drop_last() =~= Seq::<JsonRpcResponse>::empty());
    let empty_slots = Seq::new(1, |i: int| None::<Result<JsonValue, ClientError>>);
    assert(batch_slots(rs.drop_last(), 1) == Ok::<_, ClientError>(empty_slots));
    let e = ClientError::Rpc(text);
    assert(envelope_result(rs[0]) == Err::<JsonValue, ClientError>(e));
    let slots = empty_slots.update(0, Some(Err::<JsonValue, ClientError>(e)));
    assert(batch_slots(rs, 1) == Ok::<_, ClientError>(slots));
    let a = seq![Err::<JsonValue, ClientError>(e)];
    assert(batch_answers(rs, 1) == Ok::<Seq<Result<JsonValue, ClientError>>, ClientError>(a)) by {
        assert(Seq::new(
            1,
            |i: int|
                match slots[i] {
                    Some(r) => r,
                    None => Err(ClientError::MissingBatchResponse(i as usize)),
                },
        ) =~= a);
    }
    assert(is_blob_not_found(e));
    assert(a.drop_last() =~= Seq::<Result<JsonValue, ClientError>>::empty());
    assert(missing_positions(a.drop_last()) == Ok::<Seq<usize>, ClientError>(Seq::empty()));
    assert(Seq::<usize>::empty().push(0usize) =~= seq![0usize]);
    assert(missing_positions(a) == Ok::<Seq<usize>, ClientError>(seq![0usize]));
    assert(found_flags(a) =~= seq![false]);
}

} // verus!
