//! Gathering the fee rates from which the blob base fee is computed: the
//! node's smart fee estimate and its mempool minimum and minimum relay fees.
use vstd::prelude::*;
use crate::error::ClientError;
use crate::flow::{Action, Reply, ReplyKind, Step, action_reply_kind, is_text, reply_kind};
use crate::json::{JsonNumber, JsonValue, value_get};
use crate::rpc::{RpcCall, rpc_outcome, rpc_reply_result};

verus! {

/// A fee amount as the node gives it: a JSON number, or text holding one.
#[derive(Debug)]
pub enum AmountSource {
    Number(JsonNumber),
    Text(String),
}

/// How an amount member is read: a number or a text, else an error.
pub open spec fn amount_source(v: JsonValue) -> Result<AmountSource, ClientError> {
    match v {
        JsonValue::Number(n) => Ok(AmountSource::Number(n)),
        JsonValue::String(s) => Ok(AmountSource::Text(s)),
        _ => Err(ClientError::InvalidAmount),
    }
}

/// An optional amount member of `v`: absent is none.
pub open spec fn amount_member(v: JsonValue, key: Seq<char>) -> Result<Option<AmountSource>, ClientError> {
    match value_get(v, key) {
        None => Ok(None),
        Some(x) => match amount_source(x) {
            Ok(a) => Ok(Some(a)),
            Err(e) => Err(e),
        },
    }
}

/// Reads the optional amount member `key` of `v`.
pub fn read_amount_member(v: &JsonValue, key: &str) -> (res: Result<Option<AmountSource>, ClientError>)
    ensures
        res == amount_member(*v, key@),
{
    match v.get(key) {
        None => Ok(None),
        Some(x) => match x {
            JsonValue::Number(n) => Ok(Some(AmountSource::Number(*n))),
            JsonValue::String(s) => Ok(Some(AmountSource::Text(s.clone()))),
            _ => Err(ClientError::InvalidAmount),
        },
    }
}

/// The three fee rates, per kvB, that the base fee is the largest of.
#[derive(Debug)]
pub struct FeeRates {
    pub estimate: Option<AmountSource>,
    pub mempool_min: Option<AmountSource>,
    pub min_relay: Option<AmountSource>,
}

/// Where the fee gathering stands.
#[derive(Debug)]
pub enum FeeStage {
    /// Waiting for the smart fee estimate.
    Estimate,
    /// Waiting for the mempool information, the estimate read.
    Mempool { estimate: Option<AmountSource> },
}

/// Gathering the fee rates.
#[derive(Debug)]
pub struct BaseFee {
    pub stage: FeeStage,
}

impl BaseFee {

    /// The reply kind the next step expects.
    pub fn awaits(&self) -> (res: ReplyKind)
        ensures
            res == ReplyKind::Rpc,
    {
        ReplyKind::Rpc
    }
    /// The first step: ask for an economical smart fee estimate for
    /// confirmation within `conf_target` blocks.
    pub fn start(conf_target: u16) -> (res: Step<BaseFee, FeeRates>)
        ensures
            res matches Step::Perform(f, Action::Call(c)) && f.stage is Estimate && c.method@
                == "estimatesmartfee"@ && c.params@.len() == 2 && c.params@[0]
                == JsonValue::Number(JsonNumber::PosInt(conf_target as u64)) && is_text(
                c.params@[1],
                "economical"@,
            ),
    {
        let mut params: Vec<JsonValue> = Vec::new();
        params.push(JsonValue::Number(JsonNumber::PosInt(conf_target as u64)));
        params.push(JsonValue::String(String::from_str("economical")));
        Step::Perform(BaseFee { stage: FeeStage::Estimate }, Action::Call(RpcCall::new("estimatesmartfee", params)))
    }

    /// What one step does: the estimate's `feerate` is read (an error stops),
    /// then the mempool information is asked for, whose `mempoolminfee` and
    /// `minrelaytxfee` are read (an error stops) and complete the rates.
    pub open spec fn step_spec(self, reply: Reply, res: Step<BaseFee, FeeRates>) -> bool {
        &&& reply matches Reply::Rpc(raw)
        &&& match self.stage {
            FeeStage::Estimate => match rpc_outcome(raw) {
                Err(e) => res == Step::<BaseFee, FeeRates>::Finish(Err(e)),
                Ok(v) => match amount_member(v, "feerate"@) {
                    Err(e) => res == Step::<BaseFee, FeeRates>::Finish(Err(e)),
                    Ok(est) => res matches Step::Perform(f, Action::Call(c)) && c.method@
                        == "getmempoolinfo"@ && c.params@.len() == 0 && f.stage
                        == (FeeStage::Mempool { estimate: est }),
                },
            },
            FeeStage::Mempool { estimate } => match rpc_outcome(raw) {
                Err(e) => res == Step::<BaseFee, FeeRates>::Finish(Err(e)),
                Ok(v) => match amount_member(v, "mempoolminfee"@) {
                    Err(e) => res == Step::<BaseFee, FeeRates>::Finish(Err(e)),
                    Ok(m) => match amount_member(v, "minrelaytxfee"@) {
                        Err(e) => res == Step::<BaseFee, FeeRates>::Finish(Err(e)),
                        Ok(r) => res == Step::<BaseFee, FeeRates>::Finish(
                            Ok(FeeRates { estimate, mempool_min: m, min_relay: r }),
                        ),
                    },
                },
            },
        }
        &&& res matches Step::Perform(f, a) ==> action_reply_kind(a) == ReplyKind::Rpc
    }

    /// Continues with the node's answer.
    pub fn resume(self, reply: Reply) -> (res: Step<BaseFee, FeeRates>)
        requires
            reply_kind(reply) == ReplyKind::Rpc,
        ensures
            self.step_spec(reply, res),
    {
        let raw = match reply {
            Reply::Rpc(raw) => raw,
            _ => { proof { assert(false); } return Step::Finish(Err(ClientError::NoBaseFee)); },
        };
        let v = match rpc_reply_result(raw) {
            Err(e) => { return Step::Finish(Err(e)); },
            Ok(v) => v,
        };
        match self.stage {
            FeeStage::Estimate => match read_amount_member(&v, "feerate") {
                Err(e) => Step::Finish(Err(e)),
                Ok(est) => Step::Perform(
                    BaseFee { stage: FeeStage::Mempool { estimate: est } },
                    Action::Call(RpcCall::new("getmempoolinfo", Vec::new())),
                ),
            },
            FeeStage::Mempool { estimate } => {
                let m = match read_amount_member(&v, "mempoolminfee") {
                    Err(e) => { return Step::Finish(Err(e)); },
                    Ok(m) => m,
                };
                let r = match read_amount_member(&v, "minrelaytxfee") {
                    Err(e) => { return Step::Finish(Err(e)); },
                    Ok(r) => r,
                };
                Step::Finish(Ok(FeeRates { estimate, mempool_min: m, min_relay: r }))
            },
        }
    }
}

} // verus!
