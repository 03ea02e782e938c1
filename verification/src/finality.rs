//! Whether a blob is final: chainlocked, or buried under enough blocks; a blob
//! that the node does not know counts as final when the PoDA cloud has it.
use vstd::prelude::*;
use crate::error::{ClientError, is_blob_not_found};
use crate::flow::{Action, Reply, ReplyKind, Step, action_reply_kind, is_text, is_text_list, reply_kind, text_list};
use crate::json::{JsonValue, opt_as_bool, opt_as_u64, value_as_u64, value_get};
use crate::poda::{check_vh_answers, check_vh_batch_response_exists};
use crate::rpc::{RpcCall, rpc_outcome, rpc_reply_result};
use crate::text::{strip_hex_prefix, strip_hex_prefix_str};

verus! {

/// How finality is judged.
#[derive(Clone, Copy, Debug, PartialEq, Eq, Structural)]
pub enum BitcoinDaFinalityMode {
    /// Final once the blob's block is chainlocked.
    Chainlock,
    /// Final once the blob has the required number of confirmations.
    Confirmations,
}

/// `a - b`, or 0 when `b` exceeds `a`.
pub open spec fn saturating_sub(a: u64, b: u64) -> int {
    if a >= b {
        a - b
    } else {
        0
    }
}

/// A blob at `blob_height` has at least `confirmations` confirmations when
/// the chain is at `current_height`: the blocks from its own to the tip count.
pub open spec fn has_confirmations(current_height: u64, blob_height: u64, confirmations: u64) -> bool {
    saturating_sub(current_height, blob_height) + 1 >= confirmations
}

/// Whether the cloud's answer about one hash says the blob is there: any
/// error, or an unreadable answer, counts as "not there".
pub open spec fn cloud_has_blob(r: Result<JsonValue, ClientError>, hash: String) -> bool {
    match r {
        Ok(v) => match check_vh_answers(v, seq![hash]) {
            Ok(flags) => flags.len() > 0 && flags.last(),
            Err(_) => false,
        },
        Err(_) => false,
    }
}

/// Whether the node's blob record says it is chainlocked (absent counts as not).
pub open spec fn chainlocked(v: JsonValue) -> bool {
    opt_as_bool(value_get(v, "chainlock"@)) == Some(true)
}

/// Where a finality check stands.
#[derive(Debug)]
pub enum FinalityStage {
    /// Waiting for the node's blob record.
    Lookup,
    /// Waiting for the cloud's answer about the blob.
    Cloud,
    /// Waiting for the node's block count, the blob being at `height`.
    BlockCount { height: u64 },
}

/// Checking whether a blob is final.
#[derive(Debug)]
pub struct Finality {
    pub mode: BitcoinDaFinalityMode,
    pub confirmations: u64,
    pub blob_id: String,
    pub check_vh_url: String,
    pub stage: FinalityStage,
}

/// The node lookup of a blob's record, without its data.
pub open spec fn is_record_call(c: RpcCall, id: Seq<char>) -> bool {
    &&& c.method@ == "getnevmblobdata"@
    &&& c.params@.len() == 1
    &&& is_text(c.params@[0], id)
}

/// The first step of a finality check of `blob_id` in `mode` (with the
/// required `confirmations` in confirmations mode) against the existence
/// check URL `url`: look up the blob's record on the node.
pub open spec fn is_finality_start(
    res: Step<Finality, bool>,
    blob_id: Seq<char>,
    mode: BitcoinDaFinalityMode,
    confirmations: u64,
    url: Seq<char>,
) -> bool {
    res matches Step::Perform(f, Action::Call(c)) && f.mode == mode && (mode
        == BitcoinDaFinalityMode::Confirmations ==> f.confirmations == confirmations)
        && f.blob_id@ == strip_hex_prefix(blob_id) && f.check_vh_url@ == url && f.stage is Lookup
        && is_record_call(c, f.blob_id@)
}

impl Finality {

    /// The reply kind the next step expects.
    pub fn awaits(&self) -> (res: ReplyKind)
        ensures
            res == self.awaited(),
    {
        match self.stage { FinalityStage::Cloud => ReplyKind::Json, _ => ReplyKind::Rpc }
    }
    /// The first step: ask the node for the blob's record (the id without a
    /// leading `0x`).
    pub fn start(
        blob_id: &str,
        mode: BitcoinDaFinalityMode,
        confirmations: u64,
        check_vh_url: String,
    ) -> (res: Step<Finality, bool>)
        ensures
            res matches Step::Perform(f, Action::Call(c)) && f.mode == mode && f.confirmations
                == confirmations && f.blob_id@ == strip_hex_prefix(blob_id@) && f.check_vh_url
                == check_vh_url && f.stage is Lookup && is_record_call(c, f.blob_id@),
    {
        let id = strip_hex_prefix_str(blob_id);
        let mut params: Vec<JsonValue> = Vec::new();
        params.push(JsonValue::String(String::from_str(id)));
        let call = RpcCall::new("getnevmblobdata", params);
        Step::Perform(
            Finality {
                mode,
                confirmations,
                blob_id: String::from_str(id),
                check_vh_url,
                stage: FinalityStage::Lookup,
            },
            Action::Call(call),
        )
    }

    /// The reply kind the next step expects.
    pub open spec fn awaited(self) -> ReplyKind {
        match self.stage {
            FinalityStage::Cloud => ReplyKind::Json,
            _ => ReplyKind::Rpc,
        }
    }

    /// What one step does with the reply.
    ///
    /// On the blob record: a "not found" error leads to asking the cloud, any
    /// other error is the result. A record decides by its `chainlock` flag in
    /// chainlock mode; in confirmations mode a record without a height is not
    /// final, and one with a height leads to asking for the block count.
    /// On the cloud's answer: whether the cloud has the blob is the result.
    /// On the block count: an error, or a count that is not a non-negative
    /// integer, is an error; else the blob is final when it has the required
    /// confirmations.
    pub open spec fn step_spec(self, reply: Reply, res: Step<Finality, bool>) -> bool {
        &&& match self.stage {
            FinalityStage::Lookup => reply matches Reply::Rpc(raw) && match rpc_outcome(raw) {
                Err(e) => if is_blob_not_found(e) {
                    res matches Step::Perform(f, Action::PostJson { url, body }) && url
                        == self.check_vh_url && is_text_list(body, seq![self.blob_id])
                        && f.stage is Cloud && f.blob_id == self.blob_id && f.check_vh_url
                        == self.check_vh_url && f.mode == self.mode && f.confirmations
                        == self.confirmations
                } else {
                    res == Step::<Finality, bool>::Finish(Err(e))
                },
                Ok(v) => match self.mode {
                    BitcoinDaFinalityMode::Chainlock => res == Step::<Finality, bool>::Finish(
                        Ok(chainlocked(v)),
                    ),
                    BitcoinDaFinalityMode::Confirmations => match opt_as_u64(
                        value_get(v, "height"@),
                    ) {
                        None => res == Step::<Finality, bool>::Finish(Ok(false)),
                        Some(h) => res matches Step::Perform(f, Action::Call(c)) && c.method@
                            == "getblockcount"@ && c.params@.len() == 0 && f.stage
                            == (FinalityStage::BlockCount { height: h }) && f.mode == self.mode
                            && f.confirmations == self.confirmations && f.blob_id
                            == self.blob_id && f.check_vh_url == self.check_vh_url,
                    },
                },
            },
            FinalityStage::Cloud => reply matches Reply::Json(r) && res == Step::<
                Finality,
                bool,
            >::Finish(Ok(cloud_has_blob(r, self.blob_id))),
            FinalityStage::BlockCount { height } => reply matches Reply::Rpc(raw) && match rpc_outcome(
                raw,
            ) {
                Err(e) => res == Step::<Finality, bool>::Finish(Err(e)),
                Ok(v) => match value_as_u64(v) {
                    None => res == Step::<Finality, bool>::Finish(
                        Err(ClientError::NonU64BlockCount),
                    ),
                    Some(current) => res == Step::<Finality, bool>::Finish(
                        Ok(has_confirmations(current, height, self.confirmations)),
                    ),
                },
            },
        }
        &&& res matches Step::Perform(f, a) ==> action_reply_kind(a) == f.awaited()
    }

    /// Continues with the reply.
    pub fn resume(self, reply: Reply) -> (res: Step<Finality, bool>)
        requires
            reply_kind(reply) == self.awaited(),
        ensures
            self.step_spec(reply, res),
    {
        let Finality { mode, confirmations, blob_id, check_vh_url, stage } = self;
        match stage {
            FinalityStage::Lookup => {
                let raw = match reply {
                    Reply::Rpc(raw) => raw,
                    _ => { proof { assert(false); } return Step::Finish(Ok(false)); },
                };
                match rpc_reply_result(raw) {
                    Err(e) => {
                        if e.is_blob_not_found() {
                            let mut hashes: Vec<String> = Vec::new();
                            hashes.push(blob_id.clone());
                            let body = text_list(&hashes);
                            assert(hashes@ =~= seq![blob_id]);
                            let url = check_vh_url.clone();
                            Step::Perform(
                                Finality { mode, confirmations, blob_id, check_vh_url, stage: FinalityStage::Cloud },
                                Action::PostJson { url, body },
                            )
                        } else {
                            Step::Finish(Err(e))
                        }
                    },
                    Ok(v) => match mode {
                        BitcoinDaFinalityMode::Chainlock => {
                            let locked = match v.get("chainlock") {
                                Some(c) => match c.as_bool() {
                                    Some(b) => b,
                                    None => false,
                                },
                                None => false,
                            };
                            Step::Finish(Ok(locked))
                        },
                        BitcoinDaFinalityMode::Confirmations => {
                            let height = match v.get("height") {
                                Some(h) => h.as_u64(),
                                None => None,
                            };
                            match height {
                                None => Step::Finish(Ok(false)),
                                Some(h) => {
                                    let call = RpcCall::new("getblockcount", Vec::new());
                                    Step::Perform(
                                        Finality {
                                            mode,
                                            confirmations,
                                            blob_id,
                                            check_vh_url,
                                            stage: FinalityStage::BlockCount { height: h },
                                        },
                                        Action::Call(call),
                                    )
                                },
                            }
                        },
                    },
                }
            },
            FinalityStage::Cloud => {
                let r = match reply {
                    Reply::Json(r) => r,
                    _ => { proof { assert(false); } return Step::Finish(Ok(false)); },
                };
                let present = match r {
                    Ok(v) => {
                        let mut hashes: Vec<String> = Vec::new();
                        hashes.push(blob_id);
                        assert(hashes@ =~= seq![self.blob_id]);
                        match check_vh_batch_response_exists(&v, hashes.as_slice()) {
                            Ok(mut flags) => match flags.pop() {
                                Some(b) => b,
                                None => false,
                            },
                            Err(_) => false,
                        }
                    },
                    Err(_) => false,
                };
                Step::Finish(Ok(present))
            },
            FinalityStage::BlockCount { height } => {
                let raw = match reply {
                    Reply::Rpc(raw) => raw,
                    _ => { proof { assert(false); } return Step::Finish(Ok(false)); },
                };
                match rpc_reply_result(raw) {
                    Err(e) => Step::Finish(Err(e)),
                    Ok(v) => match v.as_u64() {
                        None => Step::Finish(Err(ClientError::NonU64BlockCount)),
                        Some(current) => {
                            let behind: u64 = if current >= height { current - height } else { 0 };
                            Step::Finish(Ok(behind >= confirmations || confirmations - behind <= 1))
                        },
                    },
                }
            },
        }
    }
}

} // verus!
