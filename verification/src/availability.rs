//! Checking whether blobs are retrievable: one JSON-RPC batch asks the node
//! about every id, and one PoDA `check_vh` request asks the cloud about the
//! ids that the node does not know.
use vstd::prelude::*;
use crate::error::{ClientError, MAX_BLOB_EXISTENCE_BATCH, is_blob_not_found};
use crate::flow::{Action, Reply, ReplyKind, Step, action_reply_kind, is_text, is_text_list, reply_kind, text_list};
use crate::json::JsonValue;
use crate::poda::{check_vh_answers, check_vh_batch_response_exists, lemma_check_vh_answers_len};
use crate::rpc::{RpcCall, batch_outcome, batch_reply_results};
use crate::text::{strip_hex_prefix, strip_hex_prefix_str};

verus! {

/// The metadata-only lookup of one blob on the node.
pub open spec fn is_existence_call(c: RpcCall, id: Seq<char>) -> bool {
    &&& c.method@ == "getnevmblobdata"@
    &&& c.params@.len() == 2
    &&& is_text(c.params@[0], id)
    &&& c.params@[1] == JsonValue::Bool(false)
}

/// The positions whose node answer is a "not found" error, in order; the
/// first other error makes it an error.
pub open spec fn missing_positions(rs: Seq<Result<JsonValue, ClientError>>) -> Result<Seq<usize>, ClientError>
    decreases rs.len(),
{
    if rs.len() == 0 {
        Ok(Seq::empty())
    } else {
        match missing_positions(rs.drop_last()) {
            Err(e) => Err(e),
            Ok(m) => match rs.last() {
                Ok(_) => Ok(m),
                Err(e) => if is_blob_not_found(e) {
                    Ok(m.push((rs.len() - 1) as usize))
                } else {
                    Err(e)
                },
            },
        }
    }
}

/// Which positions the node found.
pub open spec fn found_flags(rs: Seq<Result<JsonValue, ClientError>>) -> Seq<bool> {
    Seq::new(rs.len(), |i: int| rs[i] is Ok)
}

/// `flags` with the cloud's answers written at the missing positions, pairing
/// the two lists in order.
pub open spec fn fill_answers(flags: Seq<bool>, missing: Seq<usize>, cloud: Seq<bool>) -> Seq<bool>
    decreases missing.len(),
{
    if missing.len() == 0 || cloud.len() == 0 {
        flags
    } else {
        fill_answers(
            if missing[0] < flags.len() { flags.update(missing[0] as int, cloud[0]) } else { flags },
            missing.drop_first(),
            cloud.drop_first(),
        )
    }
}

/// The ids at the missing positions.
pub open spec fn ids_at(ids: Seq<String>, positions: Seq<usize>) -> Seq<String> {
    Seq::new(positions.len(), |k: int| ids[positions[k] as int])
}

/// The first step of an existence check of `ids` with the existence check
/// URL `url`: one batch asks the node about each id (without a leading
/// `0x`), data not included, and the check awaits its answer.
pub open spec fn is_lookup_start(f: Existence, a: Action, ids: Seq<Seq<char>>, url: Seq<char>) -> bool {
    &&& f.stage is Lookup
    &&& f.wf()
    &&& f.check_vh_url@ == url
    &&& f.ids@.len() == ids.len()
    &&& forall|i: int| 0 <= i < ids.len() ==> (#[trigger] f.ids@[i])@ == strip_hex_prefix(ids[i])
    &&& a matches Action::CallBatch(calls) && calls@.len() == ids.len() && forall|i: int|
        0 <= i < ids.len() ==> is_existence_call(#[trigger] calls@[i], strip_hex_prefix(ids[i]))
}

/// Where an existence check stands.
#[derive(Debug)]
pub enum ExistenceStage {
    /// Waiting for the node's batch answer.
    Lookup,
    /// Waiting for the cloud's answer about the ids the node did not know.
    Cloud { found: Vec<bool>, missing: Vec<usize>, missing_ids: Vec<String> },
}

/// Checking whether blobs are retrievable.
#[derive(Debug)]
pub struct Existence {
    pub ids: Vec<String>,
    pub check_vh_url: String,
    pub stage: ExistenceStage,
}

impl Existence {

    /// The reply kind the next step expects.
    pub fn awaits(&self) -> (res: ReplyKind)
        ensures
            res == self.awaited(),
    {
        match self.stage { ExistenceStage::Lookup => ReplyKind::Batch, ExistenceStage::Cloud { .. } => ReplyKind::Json }
    }
    /// The stage's data agree with each other and with the ids.
    pub open spec fn wf(self) -> bool {
        match self.stage {
            ExistenceStage::Lookup => true,
            ExistenceStage::Cloud { found, missing, missing_ids } => {
                &&& found@.len() == self.ids@.len()
                &&& missing_ids@.len() == missing@.len()
                &&& forall|k: int| 0 <= k < missing@.len() ==> #[trigger] missing@[k] < found@.len()
                &&& forall|k: int| 0 <= k < missing@.len() ==> #[trigger] missing_ids@[k]@ == self.ids@[missing@[k] as int]@
            },
        }
    }

    /// The reply kind the next step expects.
    pub open spec fn awaited(self) -> ReplyKind {
        match self.stage {
            ExistenceStage::Lookup => ReplyKind::Batch,
            ExistenceStage::Cloud { .. } => ReplyKind::Json,
        }
    }

    /// The first step for `blob_ids`: more than `MAX_BLOB_EXISTENCE_BATCH` is
    /// an error, none gives an empty answer, else one batch asks the node
    /// about each id (without a leading `0x`), data not included.
    pub fn start(blob_ids: &[String], check_vh_url: String) -> (res: Step<Existence, Vec<bool>>)
        ensures
            blob_ids@.len() > MAX_BLOB_EXISTENCE_BATCH ==> res == Step::<Existence, Vec<bool>>::Finish(
                Err(ClientError::TooManyBlobs(blob_ids@.len() as usize)),
            ),
            blob_ids@.len() == 0 ==> (res matches Step::Finish(Ok(v)) && v@.len() == 0),
            0 < blob_ids@.len() <= MAX_BLOB_EXISTENCE_BATCH ==> (res matches Step::Perform(f, Action::CallBatch(calls))
                && f.stage is Lookup && f.check_vh_url == check_vh_url && f.ids@.len() == blob_ids@.len()
                && calls@.len() == blob_ids@.len()
                && (forall|i: int| 0 <= i < blob_ids@.len() ==> (#[trigger] f.ids@[i])@ == strip_hex_prefix(blob_ids@[i]@))
                && (forall|i: int| 0 <= i < blob_ids@.len() ==> is_existence_call(#[trigger] calls@[i], strip_hex_prefix(blob_ids@[i]@)))),
            res matches Step::Perform(f, a) ==> f.wf() && action_reply_kind(a) == f.awaited(),
    {
        let n = blob_ids.len();
        let mut ids: Vec<String> = Vec::new();
        let mut calls: Vec<RpcCall> = Vec::new();
        let mut i: usize = 0;
        while i < n
            invariant
                n == blob_ids@.len(),
                i <= n,
                ids@.len() == i,
                calls@.len() == i,
                forall|j: int| 0 <= j < i ==> (#[trigger] ids@[j])@ == strip_hex_prefix(blob_ids@[j]@),
                forall|j: int|
                    0 <= j < i ==> is_existence_call(
                        #[trigger] calls@[j],
                        strip_hex_prefix(blob_ids@[j]@),
                    ),
            decreases n - i,
        {
            let id = strip_hex_prefix_str(blob_ids[i].as_str());
            ids.push(String::from_str(id));
            let mut params: Vec<JsonValue> = Vec::new();
            params.push(JsonValue::String(String::from_str(id)));
            params.push(JsonValue::Bool(false));
            calls.push(RpcCall::new("getnevmblobdata", params));
            i = i + 1;
        }
        if n > MAX_BLOB_EXISTENCE_BATCH {
            return Step::Finish(Err(ClientError::TooManyBlobs(n)));
        }
        if n == 0 {
            return Step::Finish(Ok(Vec::new()));
        }
        Step::Perform(Existence { ids, check_vh_url, stage: ExistenceStage::Lookup }, Action::CallBatch(calls))
    }

    /// The result a step finishes with, if it finishes. On the node's batch
    /// answer: a batch error, or a per-id error other than "not found", is the
    /// result; with no id missing, the found flags are. On the cloud's answer:
    /// its error is the result, else the found flags with the cloud's answers
    /// at the missing positions.
    pub open spec fn finish_outcome(self, reply: Reply) -> Option<Result<Seq<bool>, ClientError>> {
        match self.stage {
            ExistenceStage::Lookup => match reply {
                Reply::Batch(raw) => match batch_outcome(self.ids@.len(), raw) {
                    Err(e) => Some(Err(e)),
                    Ok(rs) => match missing_positions(rs) {
                        Err(e) => Some(Err(e)),
                        Ok(m) => if m.len() == 0 {
                            Some(Ok(found_flags(rs)))
                        } else {
                            None
                        },
                    },
                },
                _ => None,
            },
            ExistenceStage::Cloud { found, missing, missing_ids } => match reply {
                Reply::Json(r) => match r {
                    Err(e) => Some(Err(e)),
                    Ok(v) => match check_vh_answers(v, missing_ids@) {
                        Err(e) => Some(Err(e)),
                        Ok(cloud) => Some(Ok(fill_answers(found@, missing@, cloud))),
                    },
                },
                _ => None,
            },
        }
    }

    /// When the node does not know some ids, the step asks the cloud about
    /// them: it POSTs their list to the `check_vh` URL and keeps the found
    /// flags and the missing positions.
    pub open spec fn cloud_request(self, reply: Reply, res: Step<Existence, Vec<bool>>) -> bool {
        &&& self.stage is Lookup
        &&& reply matches Reply::Batch(raw)
        &&& batch_outcome(self.ids@.len(), raw) matches Ok(rs)
        &&& missing_positions(rs) matches Ok(m)
        &&& res matches Step::Perform(f, Action::PostJson { url, body })
        &&& url == self.check_vh_url
        &&& f.ids == self.ids
        &&& f.check_vh_url == self.check_vh_url
        &&& f.stage matches ExistenceStage::Cloud { found, missing, missing_ids }
        &&& found@ == found_flags(rs)
        &&& missing@ == m
        &&& is_text_list(body, missing_ids@)
    }

    /// What one step does with the reply.
    pub open spec fn step_spec(self, reply: Reply, res: Step<Existence, Vec<bool>>) -> bool {
        &&& match self.finish_outcome(reply) {
            Some(Ok(flags)) => res matches Step::Finish(Ok(v)) && v@ == flags,
            Some(Err(e)) => res == Step::<Existence, Vec<bool>>::Finish(Err(e)),
            None => self.cloud_request(reply, res),
        }
        &&& res matches Step::Perform(f, a) ==> f.wf() && action_reply_kind(a) == f.awaited()
        &&& res matches Step::Finish(Ok(flags)) ==> flags@.len() == self.ids@.len()
    }

    /// Continues with the reply.
    pub fn resume(self, reply: Reply) -> (res: Step<Existence, Vec<bool>>)
        requires
            self.wf(),
            reply_kind(reply) == self.awaited(),
        ensures
            self.step_spec(reply, res),
    {
        let ghost old_self = self;
        let ghost old_reply = reply;
        let Existence { ids, check_vh_url, stage } = self;
        match stage {
            ExistenceStage::Lookup => {
                let raw = match reply {
                    Reply::Batch(raw) => raw,
                    _ => { proof { assert(false); } return Step::Finish(Err(ClientError::MissingExistenceResult)); },
                };
                let n = ids.len();
                let rs = match batch_reply_results(n, raw) {
                    Err(e) => { return Step::Finish(Err(e)); },
                    Ok(rs) => rs,
                };
                let ghost rseq = rs@;
                assert(old_reply matches Reply::Batch(raw0) && batch_outcome(n as nat, raw0) == Ok::<_, ClientError>(rseq));
                let mut found: Vec<bool> = Vec::new();
                let mut missing: Vec<usize> = Vec::new();
                let mut missing_ids: Vec<String> = Vec::new();
                assert(rseq.take(0) =~= Seq::<Result<JsonValue, ClientError>>::empty());
                for r in it: rs.into_iter()
                    invariant
                        it.seq() == rseq,
                        old_self == self,
                        old_reply == reply,
                        old_self.ids == ids,
                        old_self.stage is Lookup,
                        old_reply matches Reply::Batch(raw0) && batch_outcome(n as nat, raw0) == Ok::<_, ClientError>(rseq),
                        rseq.len() == n,
                        n == ids@.len(),
                        it.index() <= n,
                        missing_positions(rseq.take(it.index() as int)) == Ok::<_, ClientError>(missing@),
                        found@ == found_flags(rseq.take(it.index() as int)),
                        missing_ids@ == ids_at(ids@, missing@),
                        forall|k: int| 0 <= k < missing@.len() ==> #[trigger] missing@[k] < it.index(),
                {
                    let ghost k = it.index();
                    assert(rseq.take(k + 1).drop_last() =~= rseq.take(k));
                    assert(rseq.take(k + 1).last() == r);
                    let i: usize = found.len();
                    match r {
                        Ok(_) => {
                            found.push(true);
                        },
                        Err(e) => {
                            if e.is_blob_not_found() {
                                found.push(false);
                                missing.push(i);
                                missing_ids.push(ids[i].clone());
                                assert(missing_ids@ =~= ids_at(ids@, missing@));
                            } else {
                                assert(missing_positions(rseq.take(k + 1)) == Err::<Seq<usize>, _>(e));
                                proof { lemma_missing_prefix_error(rseq, k + 1); }
                                assert(missing_positions(rseq) == Err::<Seq<usize>, _>(e));
                                return Step::Finish(Err(e));
                            }
                        },
                    }
                    assert(found@ =~= found_flags(rseq.take(k + 1)));
                }
                assert(rseq.take(n as int) =~= rseq);
                if missing.len() == 0 {
                    return Step::Finish(Ok(found));
                }
                let body = text_list(&missing_ids);
                let url = check_vh_url.clone();
                Step::Perform(
                    Existence { ids, check_vh_url, stage: ExistenceStage::Cloud { found, missing, missing_ids } },
                    Action::PostJson { url, body },
                )
            },
            ExistenceStage::Cloud { found, missing, missing_ids } => {
                let r = match reply {
                    Reply::Json(r) => r,
                    _ => { proof { assert(false); } return Step::Finish(Err(ClientError::MissingExistenceResult)); },
                };
                let v = match r {
                    Err(e) => { return Step::Finish(Err(e)); },
                    Ok(v) => v,
                };
                let cloud = match check_vh_batch_response_exists(&v, missing_ids.as_slice()) {
                    Err(e) => { return Step::Finish(Err(e)); },
                    Ok(c) => c,
                };
                let mut flags = found;
                let ghost target = fill_answers(flags@, missing@, cloud@);
                assert(missing@.skip(0) =~= missing@);
                assert(cloud@.skip(0) =~= cloud@);
                let mut k: usize = 0;
                while k < missing.len() && k < cloud.len()
                    invariant
                        k <= missing@.len(),
                        k <= cloud@.len(),
                        flags@.len() == ids@.len(),
                        forall|j: int| 0 <= j < missing@.len() ==> #[trigger] missing@[j] < flags@.len(),
                        target == fill_answers(flags@, missing@.skip(k as int), cloud@.skip(k as int)),
                    decreases missing@.len() - k,
                {
                    assert(missing@.skip(k as int).drop_first() =~= missing@.skip(k + 1));
                    assert(cloud@.skip(k as int).drop_first() =~= cloud@.skip(k + 1));
                    let pos = missing[k];
                    flags.set(pos, cloud[k]);
                    k = k + 1;
                }
                proof {
                    assert(missing@.skip(k as int).len() == 0 || cloud@.skip(k as int).len() == 0);
                }
                Step::Finish(Ok(flags))
            },
        }
    }
}

/// An error found on a prefix of the node's answers is the error for all.
proof fn lemma_missing_prefix_error(rs: Seq<Result<JsonValue, ClientError>>, k: int)
    requires
        0 < k <= rs.len(),
        missing_positions(rs.take(k)) is Err,
    ensures
        missing_positions(rs) == missing_positions(rs.take(k)),
    decreases rs.len() - k,
{
    if k < rs.len() {
        assert(rs.take(k + 1).drop_last() =~= rs.take(k));
        lemma_missing_prefix_error(rs, k + 1);
    } else {
        assert(rs.take(k) =~= rs);
    }
}

} // verus!

verus! {

/// The single answer of a one-id existence check.
pub open spec fn single_answer(r: Option<Result<Seq<bool>, ClientError>>) -> Option<Result<bool, ClientError>> {
    match r {
        Some(Ok(flags)) => Some(if flags.len() > 0 { Ok(flags.last()) } else { Err(ClientError::MissingExistenceResult) }),
        Some(Err(e)) => Some(Err(e)),
        None => None,
    }
}

/// Checking whether one blob is retrievable: the existence check of the
/// single id, and its single answer.
#[derive(Debug)]
pub struct BlobExists {
    pub inner: Existence,
}

impl BlobExists {

    /// The reply kind the next step expects.
    pub fn awaits(&self) -> (res: ReplyKind)
        ensures
            res == self.awaited(),
    {
        self.inner.awaits()
    }
    /// The first step: ask the node about the id (without a leading `0x`).
    pub fn start(blob_id: &str, check_vh_url: String) -> (res: Step<BlobExists, bool>)
        ensures
            res matches Step::Perform(b, Action::CallBatch(calls)) && b.inner.wf() && b.inner.stage is Lookup
                && b.inner.check_vh_url == check_vh_url && b.inner.ids@.len() == 1
                && b.inner.ids@[0]@ == strip_hex_prefix(blob_id@) && calls@.len() == 1
                && is_existence_call(calls@[0], strip_hex_prefix(blob_id@)),
    {
        let mut ids: Vec<String> = Vec::new();
        ids.push(String::from_str(blob_id));
        let ghost given = ids@;
        assert(given.len() == 1 && given[0]@ == blob_id@);
        match Existence::start(ids.as_slice(), check_vh_url) {
            Step::Perform(f, a) => {
                assert(a matches Action::CallBatch(calls) && is_existence_call(calls@[0], strip_hex_prefix(given[0]@)));
                Step::Perform(BlobExists { inner: f }, a)
            },
            Step::Finish(_) => { proof { assert(false); } Step::Finish(Err(ClientError::MissingExistenceResult)) },
        }
    }

    /// The reply kind the next step expects.
    pub open spec fn awaited(self) -> ReplyKind {
        self.inner.awaited()
    }

    /// What one step does: the existence check's step, finishing with its
    /// single answer.
    pub open spec fn step_spec(self, reply: Reply, res: Step<BlobExists, bool>) -> bool {
        &&& match single_answer(self.inner.finish_outcome(reply)) {
            Some(r) => res == Step::<BlobExists, bool>::Finish(r),
            None => res matches Step::Perform(b, a) && self.inner.step_spec(reply, Step::Perform(b.inner, a)),
        }
        &&& res matches Step::Perform(b, a) ==> b.inner.wf() && action_reply_kind(a) == b.awaited()
    }

    /// Continues with the reply.
    pub fn resume(self, reply: Reply) -> (res: Step<BlobExists, bool>)
        requires
            self.inner.wf(),
            reply_kind(reply) == self.awaited(),
        ensures
            self.step_spec(reply, res),
    {
        match self.inner.resume(reply) {
            Step::Perform(f, a) => Step::Perform(BlobExists { inner: f }, a),
            Step::Finish(Err(e)) => Step::Finish(Err(e)),
            Step::Finish(Ok(mut flags)) => match flags.pop() {
                Some(b) => Step::Finish(Ok(b)),
                None => Step::Finish(Err(ClientError::MissingExistenceResult)),
            },
        }
    }
}

} // verus!

verus! {

impl Existence {
    /// Whether the stage's data agree with each other and with the ids.
    #[verifier::loop_isolation(false)]
    pub fn is_well_formed(&self) -> (res: bool)
        ensures
            res == self.wf(),
    {
        match &self.stage {
            ExistenceStage::Lookup => true,
            ExistenceStage::Cloud { found, missing, missing_ids } => {
                if found.len() != self.ids.len() || missing_ids.len() != missing.len() {
                    return false;
                }
                let mut k: usize = 0;
                while k < missing.len()
                    invariant
                        k <= missing@.len(),
                        missing_ids@.len() == missing@.len(),
                        found@.len() == self.ids@.len(),
                        forall|j: int| 0 <= j < k ==> #[trigger] missing@[j] < found@.len(),
                        forall|j: int| 0 <= j < k ==> #[trigger] missing_ids@[j]@ == self.ids@[missing@[j] as int]@,
                    decreases missing@.len() - k,
                {
                    let pos = missing[k];
                    if pos >= found.len() {
                        assert(!(missing@[k as int] < found@.len()));
                        return false;
                    }
                    if missing_ids[k] != self.ids[pos] {
                        return false;
                    }
                    k = k + 1;
                }
                true
            },
        }
    }
}

} // verus!
