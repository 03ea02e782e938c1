//! The client's operations, each begun from the client configuration.
use vstd::prelude::*;
use crate::availability::{BlobExists, Existence, is_lookup_start};
use crate::blob::{CloudBlob, CreateBlob, GetBlob, is_blob_data_call, is_create_blob_call};
use crate::client::{RealRpcClient, SyscoinClient};
use crate::error::{ClientError, MAX_BLOB_EXISTENCE_BATCH, MAX_BLOB_SIZE};
use crate::fee::{BaseFee, FeeRates};
use crate::finality::{BitcoinDaFinalityMode, Finality, is_finality_start};
use crate::flow::{Action, Step, is_call_with_text, is_text};
use crate::json::{JsonNumber, JsonValue};
use crate::poda::{blob_url, check_vh_url, poda_blob_url, poda_check_vh_batch_url};
use crate::text::strip_hex_prefix;
use crate::wallet::{
    AddressLookup, BalanceQuery, EnsureAddress, NewAddress, WalletAndAddress, WalletFlow,
    account_text, is_balance_params, is_wallet_and_address_start,
};

verus! {

impl RealRpcClient {
    /// Loads the wallet `wallet_name`, creating it if the node cannot load it.
    pub fn create_or_load_wallet(&self, wallet_name: &str) -> (res: Step<WalletFlow, ()>)
        ensures
            res matches Step::Perform(f, Action::Call(c)) && f.wallet_name@ == wallet_name@
                && !f.creating && is_call_with_text(c, "loadwallet"@, wallet_name@),
    {
        WalletFlow::start(wallet_name)
    }

    /// Reads the wallet balance, optionally for an account and with watch-only funds.
    pub fn get_balance(&self, account: Option<&str>, include_watchonly: Option<bool>) -> (res: Step<
        BalanceQuery,
        JsonNumber,
    >)
        ensures
            res matches Step::Perform(f, Action::CallWallet(c)) && c.method@ == "getbalance"@
                && is_balance_params(c.params@, account_text(account), include_watchonly),
    {
        BalanceQuery::start(account, include_watchonly)
    }
}

impl SyscoinClient {
    /// The id without a leading `0x`.
    pub fn normalized_blob_id<'a>(&self, blob_id: &'a str) -> (res: &'a str)
        ensures
            res@ == strip_hex_prefix(blob_id@),
    {
        crate::text::strip_hex_prefix_str(blob_id)
    }

    /// The PoDA URL of the blob with `version_hash`.
    pub fn poda_blob_url(&self, version_hash: &str) -> (res: String)
        ensures
            res@ == blob_url(self.spec_poda_url(), version_hash@),
    {
        poda_blob_url(self.poda_url(), version_hash)
    }

    /// The PoDA URL of the batch existence check.
    pub fn poda_check_vh_batch_url(&self) -> (res: String)
        ensures
            res@ == check_vh_url(self.spec_poda_url()),
    {
        poda_check_vh_batch_url(self.poda_url())
    }

    /// Stores `data` as a blob and gives its version hash.
    pub fn create_blob(&self, data: &[u8]) -> (res: Step<CreateBlob, String>)
        ensures
            data@.len() > MAX_BLOB_SIZE ==> res == Step::<CreateBlob, String>::Finish(
                Err(ClientError::BlobTooLarge(data@.len() as usize)),
            ),
            data@.len() <= MAX_BLOB_SIZE ==> (res matches Step::Perform(f, Action::CallWallet(c))
                && f.size == data@.len() && is_create_blob_call(c, data@)),
    {
        CreateBlob::start(data)
    }

    /// Gives an address with `address_label`, making one if none exists.
    pub fn ensure_address_by_label(&self, address_label: &str) -> (res: Step<EnsureAddress, String>)
        ensures
            res matches Step::Perform(f, Action::CallWallet(c)) && f.label@ == address_label@
                && !f.creating && is_call_with_text(c, "getaddressesbylabel"@, address_label@),
    {
        EnsureAddress::start(address_label)
    }

    /// Loads or creates `wallet_name`, then gives an address with `address_label`.
    pub fn ensure_wallet_and_address(&self, wallet_name: &str, address_label: &str) -> (res: Step<
        WalletAndAddress,
        String,
    >)
        ensures
            is_wallet_and_address_start(res, wallet_name@, address_label@),
    {
        WalletAndAddress::start(wallet_name, address_label)
    }

    /// Loads or creates the configured wallet, then gives an address with `address_label`.
    pub fn ensure_own_wallet_and_address(&self, address_label: &str) -> (res: Step<
        WalletAndAddress,
        String,
    >)
        ensures
            is_wallet_and_address_start(res, self.spec_rpc_client().spec_wallet_name(), address_label@),
    {
        let wallet_name = self.rpc_client().wallet_name();
        self.ensure_wallet_and_address(wallet_name, address_label)
    }

    /// Reads the wallet balance.
    pub fn get_balance(&self) -> (res: Step<BalanceQuery, JsonNumber>)
        ensures
            res matches Step::Perform(f, Action::CallWallet(c)) && c.method@ == "getbalance"@
                && c.params@.len() == 0,
    {
        self.rpc_client().get_balance(None, None)
    }

    /// Gathers the fee rates for the blob base fee, for confirmation within `conf_target` blocks.
    pub fn get_blob_base_fee(&self, conf_target: u16) -> (res: Step<BaseFee, FeeRates>)
        ensures
            res matches Step::Perform(f, Action::Call(c)) && f.stage is Estimate && c.method@
                == "estimatesmartfee"@ && c.params@.len() == 2 && c.params@[0]
                == JsonValue::Number(JsonNumber::PosInt(conf_target as u64)) && is_text(
                c.params@[1],
                "economical"@,
            ),
    {
        BaseFee::start(conf_target)
    }

    /// Fetches a blob: from the node, falling back to the PoDA cloud.
    pub fn get_blob(&self, blob_id: &str) -> (res: Step<GetBlob, Vec<u8>>)
        ensures
            res matches Step::Perform(f, Action::Call(c)) && f.cloud_url@ == blob_url(
                self.spec_poda_url(),
                blob_id@,
            ) && !f.from_cloud && is_blob_data_call(c, strip_hex_prefix(blob_id@)),
    {
        let url = self.poda_blob_url(blob_id);
        GetBlob::start(blob_id, url)
    }

    /// Asks the wallet for a fresh address with `address_label`.
    pub fn get_new_address(&self, address_label: &str) -> (res: Step<NewAddress, String>)
        ensures
            res matches Step::Perform(f, Action::CallWallet(c)) && f.label@ == address_label@
                && is_call_with_text(c, "getnewaddress"@, address_label@),
    {
        NewAddress::start(address_label)
    }

    /// Finds the first address with `address_label`, if any.
    pub fn fetch_address_by_label(&self, address_label: &str) -> (res: Step<
        AddressLookup,
        Option<String>,
    >)
        ensures
            res matches Step::Perform(f, Action::CallWallet(c)) && f.label@ == address_label@
                && is_call_with_text(c, "getaddressesbylabel"@, address_label@),
    {
        AddressLookup::start(address_label)
    }

    /// Fetches a blob from the PoDA cloud.
    pub fn get_blob_from_cloud(&self, version_hash: &str) -> (res: Step<CloudBlob, Vec<u8>>)
        ensures
            res matches Step::Perform(f, Action::HttpGet(u)) && u@ == blob_url(
                self.spec_poda_url(),
                version_hash@,
            ) && f.url == u,
    {
        let url = self.poda_blob_url(version_hash);
        CloudBlob::start(url)
    }

    /// Whether a blob is retrievable from the node or the PoDA cloud (not
    /// whether it is final).
    pub fn blob_exists(&self, blob_id: &str) -> (res: Step<BlobExists, bool>)
        ensures
            res matches Step::Perform(b, a) && is_lookup_start(
                b.inner,
                a,
                seq![blob_id@],
                check_vh_url(self.spec_poda_url()),
            ),
    {
        let url = self.poda_check_vh_batch_url();
        BlobExists::start(blob_id, url)
    }

    /// Whether each of up to `MAX_BLOB_EXISTENCE_BATCH` blobs is retrievable.
    pub fn blobs_exist(&self, blob_ids: &[String]) -> (res: Step<Existence, Vec<bool>>)
        ensures
            blob_ids@.len() > MAX_BLOB_EXISTENCE_BATCH ==> res == Step::<Existence, Vec<bool>>::Finish(
                Err(ClientError::TooManyBlobs(blob_ids@.len() as usize)),
            ),
            blob_ids@.len() == 0 ==> (res matches Step::Finish(Ok(v)) && v@.len() == 0),
            0 < blob_ids@.len() <= MAX_BLOB_EXISTENCE_BATCH ==> (res matches Step::Perform(f, a)
                && is_lookup_start(
                f,
                a,
                blob_ids@.map_values(|s: String| s@),
                check_vh_url(self.spec_poda_url()),
            )),
    {
        let url = self.poda_check_vh_batch_url();
        Existence::start(blob_ids, url)
    }

    /// Whether a blob is chainlocked.
    pub fn check_blob_finality(&self, blob_id: &str) -> (res: Step<Finality, bool>)
        ensures
            is_finality_start(
                res,
                blob_id@,
                BitcoinDaFinalityMode::Chainlock,
                0,
                check_vh_url(self.spec_poda_url()),
            ),
    {
        let url = self.poda_check_vh_batch_url();
        Finality::start(blob_id, BitcoinDaFinalityMode::Chainlock, 0, url)
    }

    /// Whether a blob is final in the given mode.
    pub fn check_blob_finality_with_mode(
        &self,
        blob_id: &str,
        mode: BitcoinDaFinalityMode,
        confirmations: u64,
    ) -> (res: Step<Finality, bool>)
        ensures
            is_finality_start(res, blob_id@, mode, confirmations, check_vh_url(self.spec_poda_url())),
    {
        match mode {
            BitcoinDaFinalityMode::Chainlock => self.check_blob_finality(blob_id),
            BitcoinDaFinalityMode::Confirmations => self.check_blob_finality_by_confirmations(
                blob_id,
                confirmations,
            ),
        }
    }

    /// Whether a blob has at least `confirmations` confirmations.
    pub fn check_blob_finality_by_confirmations(&self, blob_id: &str, confirmations: u64) -> (res:
        Step<Finality, bool>)
        ensures
            is_finality_start(
                res,
                blob_id@,
                BitcoinDaFinalityMode::Confirmations,
                confirmations,
                check_vh_url(self.spec_poda_url()),
            ),
    {
        let url = self.poda_check_vh_batch_url();
        Finality::start(blob_id, BitcoinDaFinalityMode::Confirmations, confirmations, url)
    }

    /// Loads the wallet `wallet_name`, creating it if the node cannot load it.
    pub fn create_or_load_wallet(&self, wallet_name: &str) -> (res: Step<WalletFlow, ()>)
        ensures
            res matches Step::Perform(f, Action::Call(c)) && f.wallet_name@ == wallet_name@
                && !f.creating && is_call_with_text(c, "loadwallet"@, wallet_name@),
    {
        self.rpc_client().create_or_load_wallet(wallet_name)
    }
}

} // verus!
