//! Wallet operations: loading or creating the wallet, finding or making a
//! labeled receive address, and reading the balance.
use vstd::prelude::*;
use crate::client::{RealRpcClient, SyscoinClient};
use crate::error::{ClientError, is_no_address_for_label, is_wallet_already_loaded, is_wallet_load_failure};
use crate::flow::{Action, Reply, ReplyKind, Step, action_reply_kind, call_with_text, is_call_with_text, is_text, reply_kind, same_request};
use crate::json::{JsonNumber, JsonValue};
use crate::rpc::{RpcCall, rpc_outcome, rpc_reply_result};
use crate::text::str_contains;

verus! {

/// Loading (then, if need be, creating) a wallet.
#[derive(Debug)]
pub struct WalletFlow {
    pub wallet_name: String,
    pub creating: bool,
}

/// What a wallet creation answer means: success, or its error.
pub open spec fn creation_outcome(r: Result<JsonValue, ClientError>) -> Result<(), ClientError> {
    match r {
        Ok(_) => Ok(()),
        Err(e) => Err(e),
    }
}

impl WalletFlow {

    /// The reply kind the next step expects.
    pub fn awaits(&self) -> (res: ReplyKind)
        ensures
            res == ReplyKind::Rpc,
    {
        ReplyKind::Rpc
    }
    /// The first step: load the wallet.
    pub fn start(wallet_name: &str) -> (res: Step<WalletFlow, ()>)
        ensures
            res matches Step::Perform(f, Action::Call(c)) && f.wallet_name@ == wallet_name@
                && !f.creating && is_call_with_text(c, "loadwallet"@, wallet_name@),
    {
        let call = call_with_text("loadwallet", wallet_name);
        Step::Perform(WalletFlow { wallet_name: String::from_str(wallet_name), creating: false }, Action::Call(call))
    }

    /// What one step does with the node's answer. A failed load whose
    /// message says "failed" leads to creating the wallet; one that says
    /// "already loaded" counts as success; any other failure is the result.
    pub open spec fn step_spec(self, reply: Reply, res: Step<WalletFlow, ()>) -> bool {
        &&& reply matches Reply::Rpc(raw) && ({
            let r = rpc_outcome(raw);
            if self.creating {
                res == Step::<WalletFlow, ()>::Finish(creation_outcome(r))
            } else {
                match r {
                    Ok(_) => res == Step::<WalletFlow, ()>::Finish(Ok(())),
                    Err(e) => if is_wallet_load_failure(e) {
                        res matches Step::Perform(f, Action::Call(c)) && f.creating
                            && f.wallet_name == self.wallet_name && is_call_with_text(
                            c,
                            "createwallet"@,
                            self.wallet_name@,
                        )
                    } else if is_wallet_already_loaded(e) {
                        res == Step::<WalletFlow, ()>::Finish(Ok(()))
                    } else {
                        res == Step::<WalletFlow, ()>::Finish(Err(e))
                    },
                }
            }
        })
        &&& res matches Step::Perform(f, a) ==> action_reply_kind(a) == ReplyKind::Rpc
    }

    /// Continues with the node's answer.
    pub fn resume(self, reply: Reply) -> (res: Step<WalletFlow, ()>)
        requires
            reply_kind(reply) == ReplyKind::Rpc,
        ensures
            self.step_spec(reply, res),
    {
        let raw = match reply {
            Reply::Rpc(raw) => raw,
            _ => { proof { assert(false); } return Step::Finish(Ok(())); },
        };
        let r = rpc_reply_result(raw);
        if self.creating {
            return match r {
                Ok(_) => Step::Finish(Ok(())),
                Err(e) => Step::Finish(Err(e)),
            };
        }
        match r {
            Ok(_) => Step::Finish(Ok(())),
            Err(e) => {
                let msg = e.message();
                if str_contains(msg.as_str(), "failed") {
                    let call = call_with_text("createwallet", self.wallet_name.as_str());
                    Step::Perform(WalletFlow { wallet_name: self.wallet_name, creating: true }, Action::Call(call))
                } else if str_contains(msg.as_str(), "already loaded") {
                    Step::Finish(Ok(()))
                } else {
                    Step::Finish(Err(e))
                }
            },
        }
    }
}

/// What a label lookup answer means: the first address of the returned
/// object, none for an empty or non-object answer, none when the node reports
/// error code -11 (no address has the label), else the error.
pub open spec fn lookup_outcome(r: Result<JsonValue, ClientError>) -> Result<Option<String>, ClientError> {
    match r {
        Err(e) => if is_no_address_for_label(e) {
            Ok(None)
        } else {
            Err(e)
        },
        Ok(v) => match v {
            JsonValue::Object(entries) => if entries@.len() > 0 {
                Ok(Some(entries@[0].0))
            } else {
                Ok(None)
            },
            _ => Ok(None),
        },
    }
}

/// What a new-address answer means: the address text, else an error.
pub open spec fn new_address_outcome(r: Result<JsonValue, ClientError>) -> Result<String, ClientError> {
    match r {
        Err(e) => Err(e),
        Ok(v) => match v {
            JsonValue::String(s) => Ok(s),
            _ => Err(ClientError::NonStringAddress),
        },
    }
}

/// Reads a label lookup answer.
pub fn lookup_result(r: Result<JsonValue, ClientError>) -> (res: Result<Option<String>, ClientError>)
    ensures
        res == lookup_outcome(r),
{
    match r {
        Err(e) => {
            let msg = e.message();
            if str_contains(msg.as_str(), "\"code\":-11") {
                Ok(None)
            } else {
                Err(e)
            }
        },
        Ok(v) => match v {
            JsonValue::Object(entries) => {
                if entries.len() > 0 {
                    Ok(Some(entries[0].0.clone()))
                } else {
                    Ok(None)
                }
            },
            _ => Ok(None),
        },
    }
}

/// Reads a new-address answer.
pub fn new_address_result(r: Result<JsonValue, ClientError>) -> (res: Result<String, ClientError>)
    ensures
        res == new_address_outcome(r),
{
    match r {
        Err(e) => Err(e),
        Ok(v) => match v {
            JsonValue::String(s) => Ok(s),
            _ => Err(ClientError::NonStringAddress),
        },
    }
}

/// Looking up the first address that carries a label.
#[derive(Debug)]
pub struct AddressLookup {
    pub label: String,
}

impl AddressLookup {

    /// The reply kind the next step expects.
    pub fn awaits(&self) -> (res: ReplyKind)
        ensures
            res == ReplyKind::Rpc,
    {
        ReplyKind::Rpc
    }
    /// What one step does with the node's answer.
    pub open spec fn step_spec(self, reply: Reply, res: Step<AddressLookup, Option<String>>) -> bool {
        reply matches Reply::Rpc(raw) && res == Step::<AddressLookup, Option<String>>::Finish(
            lookup_outcome(rpc_outcome(raw)),
        )
    }

    /// Continues with the node's answer to `getaddressesbylabel`.
    pub fn resume(self, reply: Reply) -> (res: Step<AddressLookup, Option<String>>)
        requires
            reply_kind(reply) == ReplyKind::Rpc,
        ensures
            reply matches Reply::Rpc(raw) && res == Step::<AddressLookup, Option<String>>::Finish(
                lookup_outcome(rpc_outcome(raw)),
            ),
            self.step_spec(reply, res),
    {
        match reply {
            Reply::Rpc(raw) => Step::Finish(lookup_result(rpc_reply_result(raw))),
            _ => { proof { assert(false); } Step::Finish(Ok(None)) },
        }
    }
}

/// Asking the node for a fresh address with a label.
#[derive(Debug)]
pub struct NewAddress {
    pub label: String,
}

impl NewAddress {

    /// The reply kind the next step expects.
    pub fn awaits(&self) -> (res: ReplyKind)
        ensures
            res == ReplyKind::Rpc,
    {
        ReplyKind::Rpc
    }
    /// What one step does with the node's answer.
    pub open spec fn step_spec(self, reply: Reply, res: Step<NewAddress, String>) -> bool {
        reply matches Reply::Rpc(raw) && res == Step::<NewAddress, String>::Finish(
            new_address_outcome(rpc_outcome(raw)),
        )
    }

    /// Continues with the node's answer to `getnewaddress`.
    pub fn resume(self, reply: Reply) -> (res: Step<NewAddress, String>)
        requires
            reply_kind(reply) == ReplyKind::Rpc,
        ensures
            reply matches Reply::Rpc(raw) && res == Step::<NewAddress, String>::Finish(
                new_address_outcome(rpc_outcome(raw)),
            ),
            self.step_spec(reply, res),
    {
        match reply {
            Reply::Rpc(raw) => Step::Finish(new_address_result(rpc_reply_result(raw))),
            _ => { proof { assert(false); } Step::Finish(Err(ClientError::NonStringAddress)) },
        }
    }
}

/// Finding the address with a label, or making one.
#[derive(Debug)]
pub struct EnsureAddress {
    pub label: String,
    pub creating: bool,
}

impl EnsureAddress {

    /// The reply kind the next step expects.
    pub fn awaits(&self) -> (res: ReplyKind)
        ensures
            res == ReplyKind::Rpc,
    {
        ReplyKind::Rpc
    }
    /// The first step: look the label up.
    pub fn start(label: &str) -> (res: Step<EnsureAddress, String>)
        ensures
            res matches Step::Perform(f, Action::CallWallet(c)) && f.label@ == label@ && !f.creating
                && is_call_with_text(c, "getaddressesbylabel"@, label@),
    {
        let call = call_with_text("getaddressesbylabel", label);
        Step::Perform(EnsureAddress { label: String::from_str(label), creating: false }, Action::CallWallet(call))
    }

    /// What one step does with the node's answer: an existing address is the
    /// result; none found leads to asking for a new one, whose answer is the result.
    pub open spec fn step_spec(self, reply: Reply, res: Step<EnsureAddress, String>) -> bool {
        &&& reply matches Reply::Rpc(raw) && ({
            let r = rpc_outcome(raw);
            if self.creating {
                res == Step::<EnsureAddress, String>::Finish(new_address_outcome(r))
            } else {
                match lookup_outcome(r) {
                    Err(e) => res == Step::<EnsureAddress, String>::Finish(Err(e)),
                    Ok(Some(a)) => res == Step::<EnsureAddress, String>::Finish(Ok(a)),
                    Ok(None) => res matches Step::Perform(f, Action::CallWallet(c)) && f.creating
                        && f.label == self.label && is_call_with_text(c, "getnewaddress"@, self.label@),
                }
            }
        })
        &&& res matches Step::Perform(f, a) ==> action_reply_kind(a) == ReplyKind::Rpc
    }

    /// Continues with the node's answer.
    pub fn resume(self, reply: Reply) -> (res: Step<EnsureAddress, String>)
        requires
            reply_kind(reply) == ReplyKind::Rpc,
        ensures
            self.step_spec(reply, res),
    {
        let raw = match reply {
            Reply::Rpc(raw) => raw,
            _ => { proof { assert(false); } return Step::Finish(Err(ClientError::NonStringAddress)); },
        };
        let r = rpc_reply_result(raw);
        if self.creating {
            return Step::Finish(new_address_result(r));
        }
        match lookup_result(r) {
            Err(e) => Step::Finish(Err(e)),
            Ok(Some(a)) => Step::Finish(Ok(a)),
            Ok(None) => {
                let call = call_with_text("getnewaddress", self.label.as_str());
                Step::Perform(EnsureAddress { label: self.label, creating: true }, Action::CallWallet(call))
            },
        }
    }
}

/// The first step of wallet-and-address for `wallet_name` and `label`: load
/// the wallet, remembering the label.
pub open spec fn is_wallet_and_address_start(
    res: Step<WalletAndAddress, String>,
    wallet_name: Seq<char>,
    label: Seq<char>,
) -> bool {
    res matches Step::Perform(WalletAndAddress::Wallet { wallet, label: l }, Action::Call(c))
        && l@ == label && wallet.wallet_name@ == wallet_name && !wallet.creating
        && is_call_with_text(c, "loadwallet"@, wallet_name)
}

/// Two wallet-and-address states in the same stage, for the same wallet
/// name and label.
pub open spec fn same_wallet_and_address(s1: WalletAndAddress, s2: WalletAndAddress) -> bool {
    match (s1, s2) {
        (
            WalletAndAddress::Wallet { wallet: w1, label: l1 },
            WalletAndAddress::Wallet { wallet: w2, label: l2 },
        ) => w1.wallet_name@ == w2.wallet_name@ && w1.creating == w2.creating && l1@ == l2@,
        (WalletAndAddress::Address(e1), WalletAndAddress::Address(e2)) => e1.label@ == e2.label@
            && e1.creating == e2.creating,
        _ => false,
    }
}

/// Two wallet-and-address steps that agree: the same result, or the same
/// node call with states in the same stage for the same names.
pub open spec fn same_wallet_and_address_step(
    r1: Step<WalletAndAddress, String>,
    r2: Step<WalletAndAddress, String>,
) -> bool {
    match (r1, r2) {
        (Step::Finish(x), Step::Finish(y)) => x == y,
        (Step::Perform(t1, a1), Step::Perform(t2, a2)) => same_wallet_and_address(t1, t2)
            && same_request(a1, a2),
        _ => false,
    }
}

/// Loading or creating a wallet, then finding or making a labeled address.
#[derive(Debug)]
pub enum WalletAndAddress {
    Wallet { wallet: WalletFlow, label: String },
    Address(EnsureAddress),
}

impl WalletAndAddress {

    /// The reply kind the next step expects.
    pub fn awaits(&self) -> (res: ReplyKind)
        ensures
            res == ReplyKind::Rpc,
    {
        ReplyKind::Rpc
    }
    /// The first step: load the wallet.
    pub fn start(wallet_name: &str, label: &str) -> (res: Step<WalletAndAddress, String>)
        ensures
            is_wallet_and_address_start(res, wallet_name@, label@),
    {
        let call = call_with_text("loadwallet", wallet_name);
        Step::Perform(
            WalletAndAddress::Wallet {
                wallet: WalletFlow { wallet_name: String::from_str(wallet_name), creating: false },
                label: String::from_str(label),
            },
            Action::Call(call),
        )
    }

    /// What one step does: the wallet steps run first and a wallet error is
    /// the result; once the wallet is ready, the address steps run and give the result.
    pub open spec fn step_spec(self, reply: Reply, res: Step<WalletAndAddress, String>) -> bool {
        match self {
            WalletAndAddress::Wallet { wallet, label } => match res {
                Step::Perform(WalletAndAddress::Wallet { wallet: w2, label: l2 }, a) => l2 == label
                    && wallet.step_spec(reply, Step::Perform(w2, a)),
                Step::Perform(WalletAndAddress::Address(e), a) => wallet.step_spec(
                    reply,
                    Step::Finish(Ok(())),
                ) && e.label == label && !e.creating && (a matches Action::CallWallet(c)
                    && is_call_with_text(c, "getaddressesbylabel"@, label@)),
                Step::Finish(Err(err)) => wallet.step_spec(reply, Step::Finish(Err(err))),
                Step::Finish(Ok(_)) => false,
            },
            WalletAndAddress::Address(e) => match res {
                Step::Perform(WalletAndAddress::Address(e2), a) => e.step_spec(
                    reply,
                    Step::Perform(e2, a),
                ),
                Step::Perform(WalletAndAddress::Wallet { .. }, _) => false,
                Step::Finish(r) => e.step_spec(reply, Step::Finish(r)),
            },
        }
    }

    /// Continues with the node's answer.
    pub fn resume(self, reply: Reply) -> (res: Step<WalletAndAddress, String>)
        requires
            reply_kind(reply) == ReplyKind::Rpc,
        ensures
            self.step_spec(reply, res),
            res matches Step::Perform(f, a) ==> action_reply_kind(a) == ReplyKind::Rpc,
    {
        match self {
            WalletAndAddress::Wallet { wallet, label } => {
                match wallet.resume(reply) {
                    Step::Perform(w, a) => Step::Perform(WalletAndAddress::Wallet { wallet: w, label }, a),
                    Step::Finish(Err(e)) => Step::Finish(Err(e)),
                    Step::Finish(Ok(())) => {
                        let call = call_with_text("getaddressesbylabel", label.as_str());
                        Step::Perform(
                            WalletAndAddress::Address(EnsureAddress { label, creating: false }),
                            Action::CallWallet(call),
                        )
                    },
                }
            },
            WalletAndAddress::Address(e) => match e.resume(reply) {
                Step::Perform(e2, a) => Step::Perform(WalletAndAddress::Address(e2), a),
                Step::Finish(r) => Step::Finish(r),
            },
        }
    }
}

} // verus!

verus! {

/// The parameters of a balance query: none without an account; the account,
/// then the watch-only flag when one is given.
pub open spec fn is_balance_params(params: Seq<JsonValue>, account: Option<Seq<char>>, include_watchonly: Option<bool>) -> bool {
    match account {
        None => params.len() == 0,
        Some(a) => match include_watchonly {
            None => params.len() == 1 && is_text(params[0], a),
            Some(w) => params.len() == 2 && is_text(params[0], a) && params[1] == JsonValue::Bool(w),
        },
    }
}

/// The account name's text, if there is one.
pub open spec fn account_text(account: Option<&str>) -> Option<Seq<char>> {
    match account {
        Some(a) => Some(a@),
        None => None,
    }
}

/// What a balance answer means: the amount when it is a number, else an error.
pub open spec fn balance_outcome(r: Result<JsonValue, ClientError>) -> Result<JsonNumber, ClientError> {
    match r {
        Err(e) => Err(e),
        Ok(JsonValue::Number(n)) => Ok(n),
        Ok(_) => Err(ClientError::InvalidBalance),
    }
}

/// Reading the wallet balance.
#[derive(Debug)]
pub struct BalanceQuery {
    pub param_count: usize,
}

impl BalanceQuery {

    /// The reply kind the next step expects.
    pub fn awaits(&self) -> (res: ReplyKind)
        ensures
            res == ReplyKind::Rpc,
    {
        ReplyKind::Rpc
    }
    /// The first step: ask the wallet for its balance.
    pub fn start(account: Option<&str>, include_watchonly: Option<bool>) -> (res: Step<BalanceQuery, JsonNumber>)
        ensures
            res matches Step::Perform(f, Action::CallWallet(c)) && c.method@ == "getbalance"@
                && is_balance_params(c.params@, account_text(account), include_watchonly),
    {
        let mut params: Vec<JsonValue> = Vec::new();
        match account {
            Some(acct) => {
                params.push(JsonValue::String(String::from_str(acct)));
                match include_watchonly {
                    Some(w) => params.push(JsonValue::Bool(w)),
                    None => {},
                }
            },
            None => {},
        }
        let n = params.len();
        Step::Perform(BalanceQuery { param_count: n }, Action::CallWallet(RpcCall::new("getbalance", params)))
    }

    /// What one step does: the wallet's answer gives the balance.
    pub open spec fn step_spec(self, reply: Reply, res: Step<BalanceQuery, JsonNumber>) -> bool {
        reply matches Reply::Rpc(raw) && res == Step::<BalanceQuery, JsonNumber>::Finish(
            balance_outcome(rpc_outcome(raw)),
        )
    }

    /// Continues with the wallet's answer.
    pub fn resume(self, reply: Reply) -> (res: Step<BalanceQuery, JsonNumber>)
        requires
            reply_kind(reply) == ReplyKind::Rpc,
        ensures
            reply matches Reply::Rpc(raw) && res == Step::<BalanceQuery, JsonNumber>::Finish(
                balance_outcome(rpc_outcome(raw)),
            ),
            self.step_spec(reply, res),
    {
        let raw = match reply {
            Reply::Rpc(raw) => raw,
            _ => { proof { assert(false); } return Step::Finish(Err(ClientError::InvalidBalance)); },
        };
        match rpc_reply_result(raw) {
            Err(e) => Step::Finish(Err(e)),
            Ok(JsonValue::Number(n)) => Step::Finish(Ok(n)),
            Ok(_) => Step::Finish(Err(ClientError::InvalidBalance)),
        }
    }
}

impl AddressLookup {
    /// The first step: ask the wallet for the addresses with `label`.
    pub fn start(label: &str) -> (res: Step<AddressLookup, Option<String>>)
        ensures
            res matches Step::Perform(f, Action::CallWallet(c)) && f.label@ == label@
                && is_call_with_text(c, "getaddressesbylabel"@, label@),
    {
        Step::Perform(
            AddressLookup { label: String::from_str(label) },
            Action::CallWallet(call_with_text("getaddressesbylabel", label)),
        )
    }
}

impl NewAddress {
    /// The first step: ask the wallet for a new address with `label`.
    pub fn start(label: &str) -> (res: Step<NewAddress, String>)
        ensures
            res matches Step::Perform(f, Action::CallWallet(c)) && f.label@ == label@
                && is_call_with_text(c, "getnewaddress"@, label@),
    {
        Step::Perform(
            NewAddress { label: String::from_str(label) },
            Action::CallWallet(call_with_text("getnewaddress", label)),
        )
    }
}

} // verus!
