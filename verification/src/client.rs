//! The client's configuration: where the node and the PoDA service are, with
//! which credentials, timeout and wallet the client talks to them.
use vstd::prelude::*;
use crate::text::{chars_of, push_str, string_of, trim_trailing_slashes, trim_trailing_slashes_chars};

verus! {

/// Timeout used when none is given, in seconds.
pub const DEFAULT_TIMEOUT_SECS: u64 = 30;

/// A request timeout: whole seconds and the nanoseconds beyond them.
#[derive(Clone, Copy, Debug, PartialEq, Eq, Structural)]
pub struct RequestTimeout {
    pub secs: u64,
    pub nanos: u32,
}

/// How the client reaches the Syscoin node.
#[derive(Debug)]
pub struct RealRpcClient {
    rpc_url: String,
    rpc_user: String,
    rpc_password: String,
    timeout: RequestTimeout,
    wallet_name: String,
}

/// The wallet endpoint of the node: the node URL without trailing slashes,
/// then `/wallet/` and the wallet name.
pub open spec fn wallet_endpoint(rpc_url: Seq<char>, wallet_name: Seq<char>) -> Seq<char> {
    trim_trailing_slashes(rpc_url) + "/wallet/"@ + wallet_name
}

/// The timeout in force: the given one, else `DEFAULT_TIMEOUT_SECS` seconds.
pub open spec fn effective_timeout(timeout: Option<RequestTimeout>) -> RequestTimeout {
    match timeout {
        Some(t) => t,
        None => RequestTimeout { secs: DEFAULT_TIMEOUT_SECS, nanos: 0 },
    }
}

impl RealRpcClient {
    pub closed spec fn spec_rpc_url(&self) -> Seq<char> {
        self.rpc_url@
    }

    pub closed spec fn spec_rpc_user(&self) -> Seq<char> {
        self.rpc_user@
    }

    pub closed spec fn spec_rpc_password(&self) -> Seq<char> {
        self.rpc_password@
    }

    pub closed spec fn spec_timeout(&self) -> RequestTimeout {
        self.timeout
    }

    pub closed spec fn spec_wallet_name(&self) -> Seq<char> {
        self.wallet_name@
    }

    /// A client for the node at `rpc_url` (same as `new_with_timeout`).
    pub fn new(
        rpc_url: &str,
        rpc_user: &str,
        rpc_password: &str,
        timeout: Option<RequestTimeout>,
        wallet_name: &str,
    ) -> (res: RealRpcClient)
        ensures
            res.spec_rpc_url() == rpc_url@,
            res.spec_rpc_user() == rpc_user@,
            res.spec_rpc_password() == rpc_password@,
            res.spec_timeout() == effective_timeout(timeout),
            res.spec_wallet_name() == wallet_name@,
    {
        Self::new_with_timeout(rpc_url, rpc_user, rpc_password, timeout, wallet_name)
    }

    /// A client for the node at `rpc_url`, with the given timeout or the default one.
    pub fn new_with_timeout(
        rpc_url: &str,
        rpc_user: &str,
        rpc_password: &str,
        timeout: Option<RequestTimeout>,
        wallet_name: &str,
    ) -> (res: RealRpcClient)
        ensures
            res.spec_rpc_url() == rpc_url@,
            res.spec_rpc_user() == rpc_user@,
            res.spec_rpc_password() == rpc_password@,
            res.spec_timeout() == effective_timeout(timeout),
            res.spec_wallet_name() == wallet_name@,
    {
        let timeout = match timeout {
            Some(t) => t,
            None => RequestTimeout { secs: DEFAULT_TIMEOUT_SECS, nanos: 0 },
        };
        RealRpcClient {
            rpc_url: String::from_str(rpc_url),
            rpc_user: String::from_str(rpc_user),
            rpc_password: String::from_str(rpc_password),
            timeout,
            wallet_name: String::from_str(wallet_name),
        }
    }

    /// The node URL.
    pub fn rpc_url(&self) -> (res: &str)
        ensures
            res@ == self.spec_rpc_url(),
    {
        self.rpc_url.as_str()
    }

    /// The user name for the node.
    pub fn rpc_user(&self) -> (res: &str)
        ensures
            res@ == self.spec_rpc_user(),
    {
        self.rpc_user.as_str()
    }

    /// The password for the node.
    pub fn rpc_password(&self) -> (res: &str)
        ensures
            res@ == self.spec_rpc_password(),
    {
        self.rpc_password.as_str()
    }

    /// The request timeout.
    pub fn timeout(&self) -> (res: RequestTimeout)
        ensures
            res == self.spec_timeout(),
    {
        self.timeout
    }

    /// The configured wallet name.
    pub fn wallet_name(&self) -> (res: &str)
        ensures
            res@ == self.spec_wallet_name(),
    {
        self.wallet_name.as_str()
    }

    /// The URL of the configured wallet's endpoint on the node.
    pub fn wallet_url(&self) -> (res: String)
        ensures
            res@ == wallet_endpoint(self.spec_rpc_url(), self.spec_wallet_name()),
    {
        let url = chars_of(self.rpc_url.as_str());
        let mut base = trim_trailing_slashes_chars(&url);
        push_str(&mut base, "/wallet/");
        push_str(&mut base, self.wallet_name.as_str());
        string_of(base.as_slice())
    }
}

/// The client of the BitcoinDA layer: the node connection and the PoDA service URL.
#[derive(Debug)]
pub struct SyscoinClient {
    rpc_client: RealRpcClient,
    poda_url: String,
}

impl SyscoinClient {
    pub closed spec fn spec_rpc_client(&self) -> RealRpcClient {
        self.rpc_client
    }

    pub closed spec fn spec_poda_url(&self) -> Seq<char> {
        self.poda_url@
    }

    /// A client for the node at `rpc_url` and the PoDA service at `poda_url`.
    pub fn new(
        rpc_url: &str,
        rpc_user: &str,
        rpc_password: &str,
        poda_url: &str,
        timeout: Option<RequestTimeout>,
        wallet_name: &str,
    ) -> (res: SyscoinClient)
        ensures
            res.spec_rpc_client().spec_rpc_url() == rpc_url@,
            res.spec_rpc_client().spec_rpc_user() == rpc_user@,
            res.spec_rpc_client().spec_rpc_password() == rpc_password@,
            res.spec_rpc_client().spec_timeout() == effective_timeout(timeout),
            res.spec_rpc_client().spec_wallet_name() == wallet_name@,
            res.spec_poda_url() == poda_url@,
    {
        let rpc_client = RealRpcClient::new_with_timeout(
            rpc_url,
            rpc_user,
            rpc_password,
            timeout,
            wallet_name,
        );
        SyscoinClient { rpc_client, poda_url: String::from_str(poda_url) }
    }

    /// The node connection.
    pub fn rpc_client(&self) -> (res: &RealRpcClient)
        ensures
            *res == self.spec_rpc_client(),
    {
        &self.rpc_client
    }

    /// The PoDA service URL.
    pub fn poda_url(&self) -> (res: &str)
        ensures
            res@ == self.spec_poda_url(),
    {
        self.poda_url.as_str()
    }
}

} // verus!
