//! The PoDA (proof-of-data-availability) cloud service: where blobs are
//! fetched from, where existence is asked, and how its answers are read.
use vstd::prelude::*;
use crate::error::{ClientError, error_message};
use crate::json::{
    JsonNumber, JsonValue, entries_get, find_key, key_index, value_get,
};
use crate::text::{
    ascii_lowercase, ascii_lowercase_chars, chars_of, has_suffix, push_str, strip_hex_prefix,
    strip_hex_prefix_str, trim, trim_chars, trim_trailing_slashes, trim_trailing_slashes_chars,
    ends_with_chars, string_of, take_chars,
};

verus! {

/// The URL from which the blob with `version_hash` is fetched: the service
/// URL without trailing slashes, then `/vh/` (only `/` where the service URL
/// already ends in `/vh`), then the hash without a leading `0x`.
pub open spec fn blob_url(poda_url: Seq<char>, version_hash: Seq<char>) -> Seq<char> {
    let base = trim_trailing_slashes(poda_url);
    let hash = strip_hex_prefix(version_hash);
    if has_suffix(base, "/vh"@) {
        base + "/"@ + hash
    } else {
        base + "/vh/"@ + hash
    }
}

/// The service URL without trailing slashes and without one final `/vh`
/// or `/check_vh` segment.
pub open spec fn service_root(poda_url: Seq<char>) -> Seq<char> {
    let base = trim_trailing_slashes(poda_url);
    if has_suffix(base, "/vh"@) {
        base.take(base.len() - "/vh"@.len())
    } else if has_suffix(base, "/check_vh"@) {
        base.take(base.len() - "/check_vh"@.len())
    } else {
        base
    }
}

/// The URL of the batch existence check.
pub open spec fn check_vh_url(poda_url: Seq<char>) -> Seq<char> {
    service_root(poda_url) + "/check_vh"@
}

/// The texts that the existence service uses for "absent".
pub open spec fn is_absent_token(s: Seq<char>) -> bool {
    ||| s == "0"@
    ||| s == "false"@
    ||| s == "missing"@
    ||| s == "not_found"@
    ||| s == "not found"@
    ||| s == "notfound"@
}

/// A textual existence answer says "present" unless, trimmed and lowercased,
/// it is one of the "absent" texts.
pub open spec fn truthy_text(s: Seq<char>) -> bool {
    !is_absent_token(ascii_lowercase(trim(s)))
}

/// The position of the first member that an existence object answers with:
/// `exists`, else `found`, else `available`, else `result`.
pub open spec fn answer_index(entries: Seq<(String, JsonValue)>) -> Option<int> {
    match key_index(entries, "exists"@) {
        Some(i) => Some(i),
        None => match key_index(entries, "found"@) {
            Some(i) => Some(i),
            None => match key_index(entries, "available"@) {
                Some(i) => Some(i),
                None => key_index(entries, "result"@),
            },
        },
    }
}

/// An existence object carries a non-null `error` member.
pub open spec fn has_error_member(entries: Seq<(String, JsonValue)>) -> bool {
    match entries_get(entries, "error"@) {
        Some(e) => !(e is Null),
        None => false,
    }
}

/// Whether one existence answer says "present": a boolean as it is; a
/// number when it is a non-zero non-negative integer; a text unless it reads
/// as "absent"; an object without an error by its first answer member, or
/// "present" when it has none; anything else "present".
pub open spec fn answer_exists(v: JsonValue) -> bool
    decreases v,
{
    match v {
        JsonValue::Bool(b) => b,
        JsonValue::Number(n) => match n {
            JsonNumber::PosInt(k) => k != 0,
            _ => false,
        },
        JsonValue::String(s) => truthy_text(s@),
        JsonValue::Object(entries) => if has_error_member(entries@) {
            false
        } else {
            match answer_index(entries@) {
                Some(i) => if 0 <= i < entries@.len() {
                    answer_exists(entries@[i].1)
                } else {
                    true
                },
                None => true,
            }
        },
        _ => true,
    }
}

/// The answers of a list, each read on its own.
pub open spec fn answers_exist(values: Seq<JsonValue>) -> Seq<bool> {
    Seq::new(values.len(), |i: int| answer_exists(values[i]))
}

/// A list answer for `n` hashes: one answer per hash, or a length mismatch.
pub open spec fn list_answer(values: Seq<JsonValue>, n: nat) -> Result<Seq<bool>, ClientError> {
    if values.len() != n {
        Err(ClientError::CheckVhLengthMismatch { expected: n as usize, got: values.len() as usize })
    } else {
        Ok(answers_exist(values))
    }
}

/// One answer for all `n` hashes.
pub open spec fn aggregate_answer(v: JsonValue, n: nat) -> Result<Seq<bool>, ClientError> {
    Ok(Seq::new(n, |i: int| answer_exists(v)))
}

/// The answer under a `results` or `result` member: a list per hash, or one for all.
pub open spec fn member_answer(v: JsonValue, n: nat) -> Result<Seq<bool>, ClientError> {
    match v {
        JsonValue::Array(values) => list_answer(values@, n),
        _ => aggregate_answer(v, n),
    }
}

/// An object keyed by version hash: each hash's member, in order; the first
/// hash without a member makes it an error.
pub open spec fn keyed_answers(entries: Seq<(String, JsonValue)>, hashes: Seq<String>) -> Result<
    Seq<bool>,
    ClientError,
>
    decreases hashes.len(),
{
    if hashes.len() == 0 {
        Ok(Seq::empty())
    } else {
        match keyed_answers(entries, hashes.drop_last()) {
            Err(e) => Err(e),
            Ok(prefix) => match entries_get(entries, hashes.last()@) {
                Some(v) => Ok(prefix.push(answer_exists(v))),
                None => Err(ClientError::MissingCheckVhResult(hashes.last())),
            },
        }
    }
}

/// How an existence reply for `hashes` is read: a list gives one answer per
/// hash; an object is read by its `results`, `result`, `exists`, `found` or
/// `available` member (in that order of preference), else by one member per
/// hash; any other value is one answer for all.
pub open spec fn check_vh_answers(value: JsonValue, hashes: Seq<String>) -> Result<
    Seq<bool>,
    ClientError,
> {
    let n = hashes.len();
    match value {
        JsonValue::Array(values) => list_answer(values@, n),
        JsonValue::Object(entries) => match entries_get(entries@, "results"@) {
            Some(v) => member_answer(v, n),
            None => match entries_get(entries@, "result"@) {
                Some(v) => member_answer(v, n),
                None => match entries_get(entries@, "exists"@) {
                    Some(v) => aggregate_answer(v, n),
                    None => match entries_get(entries@, "found"@) {
                        Some(v) => aggregate_answer(v, n),
                        None => match entries_get(entries@, "available"@) {
                            Some(v) => aggregate_answer(v, n),
                            None => keyed_answers(entries@, hashes),
                        },
                    },
                },
            },
        },
        _ => aggregate_answer(value, n),
    }
}

/// The URL from which the blob with `version_hash` is fetched.
pub fn poda_blob_url(poda_url: &str, version_hash: &str) -> (res: String)
    ensures
        res@ == blob_url(poda_url@, version_hash@),
{
    let hash = strip_hex_prefix_str(version_hash);
    let url = chars_of(poda_url);
    let mut base = trim_trailing_slashes_chars(&url);
    let vh = chars_of("/vh");
    if ends_with_chars(&base, &vh) {
        push_str(&mut base, "/");
    } else {
        push_str(&mut base, "/vh/");
    }
    push_str(&mut base, hash);
    string_of(base.as_slice())
}

/// The URL of the batch existence check.
pub fn poda_check_vh_batch_url(poda_url: &str) -> (res: String)
    ensures
        res@ == check_vh_url(poda_url@),
{
    let url = chars_of(poda_url);
    let base = trim_trailing_slashes_chars(&url);
    let vh = chars_of("/vh");
    let check_vh = chars_of("/check_vh");
    let mut root = if ends_with_chars(&base, &vh) {
        take_chars(&base, base.len() - vh.len())
    } else if ends_with_chars(&base, &check_vh) {
        take_chars(&base, base.len() - check_vh.len())
    } else {
        base
    };
    push_str(&mut root, "/check_vh");
    string_of(root.as_slice())
}

/// Whether `a` and `b` hold the same characters.
fn same_chars(a: &Vec<char>, b: &Vec<char>) -> (res: bool)
    ensures
        res == (a@ == b@),
{
    if a.len() != b.len() {
        return false;
    }
    let mut i: usize = 0;
    while i < a.len()
        invariant
            a@.len() == b@.len(),
            i <= a@.len(),
            forall|j: int| 0 <= j < i ==> a@[j] == b@[j],
        decreases a@.len() - i,
    {
        if a[i] != b[i] {
            return false;
        }
        i = i + 1;
    }
    assert(a@ =~= b@);
    true
}

/// Whether `s` equals the text `t`.
fn chars_are(s: &Vec<char>, t: &str) -> (res: bool)
    ensures
        res == (s@ == t@),
{
    let tc = chars_of(t);
    same_chars(s, &tc)
}

/// Whether a textual existence answer says "present".
pub fn truthy_check_vh_response(response: &str) -> (res: bool)
    ensures
        res == truthy_text(response@),
{
    let chars = chars_of(response);
    let trimmed = trim_chars(&chars);
    let lower = ascii_lowercase_chars(&trimmed);
    !(chars_are(&lower, "0") || chars_are(&lower, "false") || chars_are(&lower, "missing")
        || chars_are(&lower, "not_found") || chars_are(&lower, "not found") || chars_are(
        &lower,
        "notfound",
    ))
}

/// The position of the first answer member of an existence object.
fn find_answer_member(entries: &Vec<(String, JsonValue)>) -> (res: Option<usize>)
    ensures
        match res {
            Some(i) => answer_index(entries@) == Some(i as int) && i < entries@.len(),
            None => answer_index(entries@) is None,
        },
{
    match find_key(entries, "exists") {
        Some(i) => Some(i),
        None => match find_key(entries, "found") {
            Some(i) => Some(i),
            None => match find_key(entries, "available") {
                Some(i) => Some(i),
                None => find_key(entries, "result"),
            },
        },
    }
}

/// Whether one existence answer says "present".
pub fn check_vh_value_exists(value: &JsonValue) -> (res: bool)
    ensures
        res == answer_exists(*value),
    decreases value,
{
    match value {
        JsonValue::Bool(b) => *b,
        JsonValue::Number(n) => match n {
            JsonNumber::PosInt(k) => *k != 0,
            _ => false,
        },
        JsonValue::String(s) => truthy_check_vh_response(s.as_str()),
        JsonValue::Object(entries) => {
            let err = match find_key(entries, "error") {
                Some(i) => !entries[i].1.is_null(),
                None => false,
            };
            if err {
                return false;
            }
            match find_answer_member(entries) {
                Some(i) => {
                    assert(decreases_to!(value => entries@[i as int].1));
                    check_vh_value_exists(&entries[i].1)
                },
                None => true,
            }
        },
        _ => true,
    }
}

/// One answer per value of a list.
fn list_exists(values: &Vec<JsonValue>) -> (res: Vec<bool>)
    ensures
        res@ == answers_exist(values@),
{
    let mut res: Vec<bool> = Vec::new();
    let mut i: usize = 0;
    while i < values.len()
        invariant
            i <= values@.len(),
            res@ == answers_exist(values@.take(i as int)),
        decreases values@.len() - i,
    {
        res.push(check_vh_value_exists(&values[i]));
        i = i + 1;
        assert(res@ =~= answers_exist(values@.take(i as int)));
    }
    assert(values@.take(values@.len() as int) =~= values@);
    res
}

/// A list answer for `n` hashes.
fn read_list_answer(values: &Vec<JsonValue>, n: usize) -> (res: Result<Vec<bool>, ClientError>)
    ensures
        match res {
            Ok(v) => list_answer(values@, n as nat) == Ok::<_, ClientError>(v@),
            Err(e) => list_answer(values@, n as nat) == Err::<Seq<bool>, _>(e),
        },
{
    if values.len() != n {
        return Err(ClientError::CheckVhLengthMismatch { expected: n, got: values.len() });
    }
    Ok(list_exists(values))
}

/// One answer for all `n` hashes.
fn read_aggregate_answer(value: &JsonValue, n: usize) -> (res: Vec<bool>)
    ensures
        aggregate_answer(*value, n as nat) == Ok::<_, ClientError>(res@),
{
    let b = check_vh_value_exists(value);
    let mut res: Vec<bool> = Vec::new();
    let mut i: usize = 0;
    while i < n
        invariant
            i <= n,
            b == answer_exists(*value),
            res@ == Seq::new(i as nat, |j: int| b),
        decreases n - i,
    {
        res.push(b);
        i = i + 1;
        assert(res@ =~= Seq::new(i as nat, |j: int| b));
    }
    assert(res@ =~= Seq::new(n as nat, |j: int| answer_exists(*value)));
    res
}

/// The answer under a `results` or `result` member.
fn read_member_answer(value: &JsonValue, n: usize) -> (res: Result<Vec<bool>, ClientError>)
    ensures
        match res {
            Ok(v) => member_answer(*value, n as nat) == Ok::<_, ClientError>(v@),
            Err(e) => member_answer(*value, n as nat) == Err::<Seq<bool>, _>(e),
        },
{
    match value {
        JsonValue::Array(values) => read_list_answer(values, n),
        _ => Ok(read_aggregate_answer(value, n)),
    }
}

/// One answer per hash from an object keyed by version hash.
fn read_keyed_answers(entries: &Vec<(String, JsonValue)>, hashes: &[String]) -> (res: Result<
    Vec<bool>,
    ClientError,
>)
    ensures
        match res {
            Ok(v) => keyed_answers(entries@, hashes@) == Ok::<_, ClientError>(v@),
            Err(e) => keyed_answers(entries@, hashes@) == Err::<Seq<bool>, _>(e),
        },
{
    let mut res: Vec<bool> = Vec::new();
    let mut i: usize = 0;
    assert(hashes@.take(0) =~= Seq::<String>::empty());
    while i < hashes.len()
        invariant
            i <= hashes@.len(),
            keyed_answers(entries@, hashes@.take(i as int)) == Ok::<_, ClientError>(res@),
        decreases hashes@.len() - i,
    {
        assert(hashes@.take(i + 1).drop_last() =~= hashes@.take(i as int));
        assert(hashes@.take(i + 1).last() == hashes@[i as int]);
        match find_key(entries, hashes[i].as_str()) {
            Some(k) => {
                res.push(check_vh_value_exists(&entries[k].1));
            },
            None => {
                let missing = hashes[i].clone();
                proof { lemma_keyed_prefix_error(entries@, hashes@, i + 1); }
                return Err(ClientError::MissingCheckVhResult(missing));
            },
        }
        i = i + 1;
    }
    assert(hashes@.take(hashes@.len() as int) =~= hashes@);
    Ok(res)
}

/// An error on a prefix of the hashes is the error for all of them.
proof fn lemma_keyed_prefix_error(entries: Seq<(String, JsonValue)>, hashes: Seq<String>, k: int)
    requires
        0 < k <= hashes.len(),
        keyed_answers(entries, hashes.take(k)) is Err,
    ensures
        keyed_answers(entries, hashes) == keyed_answers(entries, hashes.take(k)),
    decreases hashes.len() - k,
{
    if k < hashes.len() {
        assert(hashes.take(k + 1).drop_last() =~= hashes.take(k));
        lemma_keyed_prefix_error(entries, hashes, k + 1);
    } else {
        assert(hashes.take(k) =~= hashes);
    }
}

/// Reads an existence reply for `version_hashes`.
pub fn check_vh_batch_response_exists(value: &JsonValue, version_hashes: &[String]) -> (res: Result<
    Vec<bool>,
    ClientError,
>)
    ensures
        match res {
            Ok(v) => check_vh_answers(*value, version_hashes@) == Ok::<_, ClientError>(v@),
            Err(e) => check_vh_answers(*value, version_hashes@) == Err::<Seq<bool>, _>(e),
        },
{
    let n = version_hashes.len();
    match value {
        JsonValue::Array(values) => read_list_answer(values, n),
        JsonValue::Object(_) => {
            match value.get("results") {
                Some(v) => { return read_member_answer(v, n); },
                None => {},
            }
            match value.get("result") {
                Some(v) => { return read_member_answer(v, n); },
                None => {},
            }
            match value.get("exists") {
                Some(v) => { return Ok(read_aggregate_answer(v, n)); },
                None => {},
            }
            match value.get("found") {
                Some(v) => { return Ok(read_aggregate_answer(v, n)); },
                None => {},
            }
            match value.get("available") {
                Some(v) => { return Ok(read_aggregate_answer(v, n)); },
                None => {},
            }
            match value {
                JsonValue::Object(entries) => read_keyed_answers(entries, version_hashes),
                _ => Ok(Vec::new()),
            }
        },
        _ => Ok(read_aggregate_answer(value, n)),
    }
}

/// Every `Ok` reading of an existence reply has one answer per hash.
pub proof fn lemma_check_vh_answers_len(value: JsonValue, hashes: Seq<String>)
    ensures
        check_vh_answers(value, hashes) matches Ok(v) ==> v.len() == hashes.len(),
{
    lemma_keyed_answers_len(value, hashes);
}

proof fn lemma_keyed_answers_len(value: JsonValue, hashes: Seq<String>)
    ensures
        value matches JsonValue::Object(entries) ==> (keyed_answers(entries@, hashes) matches Ok(
            v,
        ) ==> v.len() == hashes.len()),
    decreases hashes.len(),
{
    if hashes.len() > 0 {
        lemma_keyed_answers_len(value, hashes.drop_last());
    }
}

} // verus!

verus! {

/// Reading an existence reply depends on the hashes only through their
/// texts: hashes with the same texts give the same answers, or errors with
/// the same message.
pub proof fn lemma_check_vh_answers_by_text(value: JsonValue, h1: Seq<String>, h2: Seq<String>)
    requires
        h1.len() == h2.len(),
        forall|i: int| 0 <= i < h1.len() ==> (#[trigger] h1[i])@ == h2[i]@,
    ensures
        check_vh_answers(value, h1) is Ok <==> check_vh_answers(value, h2) is Ok,
        check_vh_answers(value, h1) matches Ok(a) ==> check_vh_answers(value, h2) == Ok::<_, ClientError>(a),
        check_vh_answers(value, h1) matches Err(e1) ==> (check_vh_answers(value, h2) matches Err(e2)
            && error_message(e1) == error_message(e2)),
{
    if let JsonValue::Object(entries) = value {
        lemma_keyed_answers_by_text(entries@, h1, h2);
    }
}

proof fn lemma_keyed_answers_by_text(entries: Seq<(String, JsonValue)>, h1: Seq<String>, h2: Seq<String>)
    requires
        h1.len() == h2.len(),
        forall|i: int| 0 <= i < h1.len() ==> (#[trigger] h1[i])@ == h2[i]@,
    ensures
        keyed_answers(entries, h1) is Ok <==> keyed_answers(entries, h2) is Ok,
        keyed_answers(entries, h1) matches Ok(a) ==> keyed_answers(entries, h2) == Ok::<_, ClientError>(a),
        keyed_answers(entries, h1) matches Err(e1) ==> (keyed_answers(entries, h2) matches Err(e2)
            && error_message(e1) == error_message(e2)),
    decreases h1.len(),
{
    if h1.len() > 0 {
        assert forall|i: int| 0 <= i < h1.drop_last().len() implies (#[trigger] h1.drop_last()[i])@ == h2.drop_last()[i]@ by {
            assert(h1.drop_last()[i] == h1[i]);
            assert(h2.drop_last()[i] == h2[i]);
        }
        lemma_keyed_answers_by_text(entries, h1.drop_last(), h2.drop_last());
        assert(h1.last()@ == h2.last()@);
    }
}

} // verus!
