//! The wallet.

use std::collections::HashMap;
use vstd::prelude::*;

use crate::accept::{accept_start, acts, AcceptAction, Acceptance};
use crate::chain::{Psbt, Txid};
use crate::codec::base64_text;
use crate::coloring::ColoringInfo;
use crate::error::{failure, Failure, RgbLibError};
use crate::json::json_compact;
use crate::keys::supported_schemas;
use crate::lookup::{lookup_start, looks_up, KeyLookup, LookupAction};
use crate::network::{network_name, BitcoinNetwork};
use crate::path::{is_part, law_file_below, law_trimmed, FilePath, PathView};
use crate::proxy::{acceptor_key_request, carries_key, key_payload, key_posting, ProxyRequest};
use crate::state_file::state_path;
use crate::transport::{transport_text, RgbTransport};
use crate::types::{
    AssetCFA, AssetNIA, AssetSchema, AssetUDA, Assets, Assignment, Balance, BtcBalance, DatabaseType,
    Metadata, Online, OperationResult, ReceiveData, Recipient, RefreshResult, RgbLibTransaction,
    RgbTransfer, SignOptions, Transfer, Unspent, UpdateRes, WalletData, WitnessOrd,
};

verus! {

/// The name of the directory of channel files within the node's directory.
pub const RGB_INFO_DIR: &'static str = "rgb_info";

/// The name of the file that holds the bitcoin network.
pub const BITCOIN_NETWORK_FNAME: &'static str = "bitcoin_network";

/// The name of the file that holds the URL of the indexer.
pub const INDEXER_URL_FNAME: &'static str = "indexer_url";

/// The name of the file that holds the fingerprint of the wallet.
pub const WALLET_FINGERPRINT_FNAME: &'static str = "wallet_fingerprint";

/// The name of the file that holds the account key for bitcoin.
pub const WALLET_ACCOUNT_XPUB_VANILLA_FNAME: &'static str = "wallet_account_xpub_vanilla";

/// The name of the file that holds the account key for assets.
pub const WALLET_ACCOUNT_XPUB_COLORED_FNAME: &'static str = "wallet_account_xpub_colored";

/// The name of the file that holds the fingerprint of the master key.
pub const WALLET_MASTER_FINGERPRINT_FNAME: &'static str = "wallet_master_fingerprint";

/// A wallet, by the directory of the node that it belongs to.
pub struct Wallet {
    pub ldk_data_dir: FilePath,
}

/// Whether an answer says that the operation is not offered.
pub open spec fn not_offered<T>(r: Result<T, RgbLibError>) -> bool {
    r matches Err(e) && failure(e) == Failure::Other("Not implemented"@)
}

/// The answer of an operation that is not offered.
fn refuse<T>() -> (r: Result<T, RgbLibError>)
    ensures
        not_offered(r),
{
    Err(RgbLibError::Other("Not implemented".to_owned()))
}

impl Wallet {
    /// A wallet, with the directory of its node below its own.
    pub fn new(wallet_data: WalletData) -> (r: Result<Self, RgbLibError>)
        ensures
            r matches Ok(wallet) && wallet.ldk_data_dir@ == wallet_data.data_dir@.join(".ldk"@),
    {
        Ok(Wallet { ldk_data_dir: wallet_data.data_dir.join(".ldk") })
    }

    /// Brings the wallet online.
    pub fn go_online(&self, _online: bool, _indexer_url: String) -> (r: Result<Online, RgbLibError>)
        ensures
            r is Ok,
    {
        Ok(Online)
    }

    /// Begins to accept the transfer that funds a channel.
    pub fn accept_transfer(
        &self,
        funding_txid: String,
        _funding_vout: u32,
        consignment_endpoint: Option<RgbTransport>,
        _static_blinding: u64,
    ) -> (r: (Acceptance, AcceptAction))
        ensures
            ({
                let url = match consignment_endpoint {
                    Some(transport) => Some(transport_text(transport@)),
                    None => None,
                };
                let (stage, action) = accept_start(funding_txid@, url);
                &&& r.0.ldk_data_dir@ == self.ldk_data_dir@
                &&& url matches Some(text) ==> r.0.endpoint@ == text
                &&& r.0.stage == stage
                &&& acts(r.1, action)
            }),
    {
        Acceptance::begin(&self.ldk_data_dir, funding_txid.as_str(), &consignment_endpoint)
    }

    /// The posting of an acceptor's key to the proxy. Whoever is answered with what is posted
    /// reads the key.
    pub fn post_acceptor_pubkey_to_proxy(
        &self,
        contract_id: &str,
        wallet_pubkey: &str,
        proxy_url: &str,
    ) -> (r: ProxyRequest)
        ensures
            r@ == key_posting(contract_id@, wallet_pubkey@, proxy_url@),
            carries_key(
                base64_text(
                    vstd::utf8::encode_utf8(
                        json_compact(key_payload(contract_id@, wallet_pubkey@)),
                    ),
                ),
                contract_id@,
                wallet_pubkey@,
            ),
    {
        acceptor_key_request(contract_id, wallet_pubkey, proxy_url)
    }

    /// Begins to look up the key of the counterparty in a contract's channel.
    pub fn get_counterparty_pubkey(&self, contract_id: &str, proxy_url: &str) -> (r: (
        KeyLookup,
        LookupAction,
    ))
        ensures
            ({
                let (stage, action) = lookup_start(self.ldk_data_dir@);
                &&& r.0.ldk_data_dir@ == self.ldk_data_dir@
                &&& r.0.contract_id@ == contract_id@
                &&& r.0.proxy_url@ == proxy_url@
                &&& r.0.stage == stage
                &&& looks_up(r.1, action)
            }),
    {
        KeyLookup::begin(&self.ldk_data_dir, contract_id, proxy_url)
    }

    /// The directory of media files.
    pub fn get_media_dir(&self) -> (r: FilePath)
        ensures
            r@ == PathView::empty(),
    {
        FilePath::new()
    }

    /// Where the consignment of a transfer stands.
    pub fn get_send_consignment_path(&self, _asset_id: &str, _txid: &str) -> (r: FilePath)
        ensures
            r@ == PathView::empty(),
    {
        FilePath::new()
    }

    /// The height of a transaction, which is not known.
    pub fn get_tx_height(&self, _txid: String) -> (r: Result<Option<u32>, RgbLibError>)
        ensures
            r matches Ok(height) && height is None,
    {
        Ok(None)
    }

    /// Prepares to receive an asset on a blinded output. Not offered yet.
    pub fn blind_receive(
        &self,
        _asset_id: Option<String>,
        _assignment: Assignment,
        _duration_seconds: Option<u32>,
        _transport_endpoints: Vec<String>,
        _min_confirmations: u8,
    ) -> (r: Result<ReceiveData, RgbLibError>)
        ensures
            not_offered(r),
    {
        refuse()
    }

    /// Colors a transaction and takes note of it. Not offered yet.
    pub fn color_psbt_and_consume(
        &self,
        psbt: &mut Psbt,
        _coloring_info: ColoringInfo,
    ) -> (r: Result<Vec<RgbTransfer>, RgbLibError>)
        ensures
            not_offered(r),
            *final(psbt) == *old(psbt),
    {
        refuse()
    }

    /// Makes outputs for assets. Not offered yet.
    pub fn create_utxos(
        &self,
        _online: Online,
        _up_to: bool,
        _num: Option<u8>,
        _size: Option<u32>,
        _fee_rate: u64,
        _skip_sync: bool,
    ) -> (r: Result<u8, RgbLibError>)
        ensures
            not_offered(r),
    {
        refuse()
    }

    /// Gives transfers up. Not offered yet.
    pub fn fail_transfers(
        &self,
        _online: Online,
        _batch_transfer_idx: Option<i32>,
        _no_asset_only: bool,
        _skip_sync: bool,
    ) -> (r: Result<bool, RgbLibError>)
        ensures
            not_offered(r),
    {
        refuse()
    }

    /// An address of the wallet. Not offered yet.
    pub fn get_address(&self) -> (r: Result<String, RgbLibError>)
        ensures
            not_offered(r),
    {
        refuse()
    }

    /// The balance of an asset. Not offered yet.
    pub fn get_asset_balance(&self, _asset_id: String) -> (r: Result<Balance, RgbLibError>)
        ensures
            not_offered(r),
    {
        refuse()
    }

    /// What is known of an asset. Not offered yet.
    pub fn get_asset_metadata(&self, _asset_id: String) -> (r: Result<Metadata, RgbLibError>)
        ensures
            not_offered(r),
    {
        refuse()
    }

    /// The bitcoin of the wallet. Not offered yet.
    pub fn get_btc_balance(
        &self,
        _online: Option<Online>,
        _skip_sync: bool,
    ) -> (r: Result<BtcBalance, RgbLibError>)
        ensures
            not_offered(r),
    {
        refuse()
    }

    /// Issues a collectible asset. Not offered yet.
    pub fn issue_asset_cfa(
        &self,
        _name: String,
        _description: Option<String>,
        _precision: u8,
        _amounts: Vec<u64>,
        _file_path: Option<String>,
    ) -> (r: Result<AssetCFA, RgbLibError>)
        ensures
            not_offered(r),
    {
        refuse()
    }

    /// Issues a non-inflatable asset. Not offered yet.
    pub fn issue_asset_nia(
        &self,
        _ticker: String,
        _name: String,
        _precision: u8,
        _amounts: Vec<u64>,
    ) -> (r: Result<AssetNIA, RgbLibError>)
        ensures
            not_offered(r),
    {
        refuse()
    }

    /// Issues a unique asset. Not offered yet.
    pub fn issue_asset_uda(
        &self,
        _ticker: String,
        _name: String,
        _details: Option<String>,
        _precision: u8,
        _media_file_path: Option<String>,
        _attachments_file_paths: Vec<String>,
    ) -> (r: Result<AssetUDA, RgbLibError>)
        ensures
            not_offered(r),
    {
        refuse()
    }

    /// The assets of the wallet. Not offered yet.
    pub fn list_assets(
        &self,
        _filter_asset_schemas: Vec<AssetSchema>,
    ) -> (r: Result<Assets, RgbLibError>)
        ensures
            not_offered(r),
    {
        refuse()
    }

    /// The transactions of the wallet. Not offered yet.
    pub fn list_transactions(
        &self,
        _online: Option<Online>,
        _skip_sync: bool,
    ) -> (r: Result<Vec<RgbLibTransaction>, RgbLibError>)
        ensures
            not_offered(r),
    {
        refuse()
    }

    /// The transfers of the wallet. Not offered yet.
    pub fn list_transfers(
        &self,
        _asset_id: Option<String>,
    ) -> (r: Result<Vec<Transfer>, RgbLibError>)
        ensures
            not_offered(r),
    {
        refuse()
    }

    /// The outputs of the wallet. Not offered yet.
    pub fn list_unspents(
        &self,
        _online: Option<Online>,
        _settled_only: bool,
        _skip_sync: bool,
    ) -> (r: Result<Vec<Unspent>, RgbLibError>)
        ensures
            not_offered(r),
    {
        refuse()
    }

    /// The outputs of the wallet that hold no asset. Not offered yet.
    pub fn list_unspents_vanilla(
        &self,
        _online: Online,
        _min_confirmations: u8,
        _skip_sync: bool,
    ) -> (r: Result<Vec<Unspent>, RgbLibError>)
        ensures
            not_offered(r),
    {
        refuse()
    }

    /// Posts a consignment to a proxy. Not offered yet.
    pub fn post_consignment(
        &self,
        _proxy_url: String,
        _recipient_id: String,
        _consignment_path: FilePath,
        _txid: String,
        _vout: Option<u32>,
    ) -> (r: Result<(), RgbLibError>)
        ensures
            not_offered(r),
    {
        refuse()
    }

    /// Brings transfers up to date. Not offered yet.
    pub fn refresh(
        &self,
        _online: Online,
        _asset_id: Option<String>,
        _filter: Vec<String>,
        _skip_sync: bool,
    ) -> (r: Result<RefreshResult, RgbLibError>)
        ensures
            not_offered(r),
    {
        refuse()
    }

    /// Takes note of an asset that was received. Not offered yet.
    pub fn save_new_asset(
        &self,
        _consignment: RgbTransfer,
        _txid: String,
    ) -> (r: Result<(), RgbLibError>)
        ensures
            not_offered(r),
    {
        refuse()
    }

    /// Sends assets. Not offered yet.
    pub fn send(
        &self,
        _online: Online,
        _recipient_map: HashMap<String, Vec<Recipient>>,
        _donation: bool,
        _fee_rate: u64,
        _min_confirmations: u8,
        _skip_sync: bool,
    ) -> (r: Result<OperationResult, RgbLibError>)
        ensures
            not_offered(r),
    {
        refuse()
    }

    /// Begins to send assets. Not offered yet.
    pub fn send_begin(
        &self,
        _online: Online,
        _recipient_map: HashMap<String, Vec<Recipient>>,
        _donation: bool,
        _fee_rate: u64,
        _min_confirmations: u8,
    ) -> (r: Result<String, RgbLibError>)
        ensures
            not_offered(r),
    {
        refuse()
    }

    /// Sends bitcoin. Not offered yet.
    pub fn send_btc(
        &self,
        _online: Online,
        _address: String,
        _amount: u64,
        _fee_rate: u64,
        _skip_sync: bool,
    ) -> (r: Result<String, RgbLibError>)
        ensures
            not_offered(r),
    {
        refuse()
    }

    /// Begins to send bitcoin. Not offered yet.
    pub fn send_btc_begin(
        &self,
        _online: Online,
        _address: String,
        _amount: u64,
        _fee_rate: u64,
        _skip_sync: bool,
    ) -> (r: Result<String, RgbLibError>)
        ensures
            not_offered(r),
    {
        refuse()
    }

    /// Sends the bitcoin that was begun to be sent. Not offered yet.
    pub fn send_btc_end(
        &self,
        _online: Online,
        _signed_psbt: String,
        _skip_sync: bool,
    ) -> (r: Result<String, RgbLibError>)
        ensures
            not_offered(r),
    {
        refuse()
    }

    /// Sends the assets that were begun to be sent. Not offered yet.
    pub fn send_end(
        &self,
        _online: Online,
        _signed_psbt: String,
        _skip_sync: bool,
    ) -> (r: Result<OperationResult, RgbLibError>)
        ensures
            not_offered(r),
    {
        refuse()
    }

    /// Signs a transaction. Not offered yet.
    pub fn sign_psbt(
        &self,
        _unsigned_psbt: String,
        _sign_options: Option<SignOptions>,
    ) -> (r: Result<String, RgbLibError>)
        ensures
            not_offered(r),
    {
        refuse()
    }

    /// Brings the wallet up to date. Not offered yet.
    pub fn sync(&self, _online: Online) -> (r: Result<(), RgbLibError>)
        ensures
            not_offered(r),
    {
        refuse()
    }

    /// Brings witnesses up to date. Not offered yet.
    pub fn update_witnesses(
        &self,
        _after_height: u32,
        _force_witnesses: Vec<Txid>,
    ) -> (r: Result<UpdateRes, RgbLibError>)
        ensures
            not_offered(r),
    {
        refuse()
    }

    /// Takes note of a witness. Not offered yet.
    pub fn upsert_witness(
        &self,
        _witness_id: Txid,
        _witness_ord: WitnessOrd,
    ) -> (r: Result<(), RgbLibError>)
        ensures
            not_offered(r),
    {
        refuse()
    }

    /// Prepares to receive an asset on an output of the sender. Not offered yet.
    pub fn witness_receive(
        &self,
        _asset_id: Option<String>,
        _assignment: Assignment,
        _duration_seconds: Option<u32>,
        _transport_endpoints: Vec<String>,
        _min_confirmations: u8,
    ) -> (r: Result<ReceiveData, RgbLibError>)
        ensures
            not_offered(r),
    {
        refuse()
    }
}

/// A file beside the directory of the node.
pub fn _get_file_in_parent(ldk_data_dir: &FilePath, fname: &str) -> (r: Option<FilePath>)
    ensures
        match r {
            Some(path) => ldk_data_dir@.parent() matches Some(parent) && path@ == parent.join(
                fname@,
            ),
            None => ldk_data_dir@.parent() is None,
        },
{
    match ldk_data_dir.parent() {
        Some(parent) => Some(parent.join(fname)),
        None => None,
    }
}

/// What a wallet is opened with: where it stands, the network, and its keys.
pub struct WalletSettings {
    pub data_dir: String,
    pub bitcoin_network: BitcoinNetwork,
    pub account_xpub_vanilla: String,
    pub account_xpub_colored: String,
    pub master_fingerprint: String,
}

/// What the wallet beside the directory of a node is opened with, given what its files hold.
/// None, where the directory has no parent or the network has no such name.
pub fn _get_wallet_data(
    ldk_data_dir: &FilePath,
    bitcoin_network: &str,
    account_xpub_vanilla: String,
    account_xpub_colored: String,
    master_fingerprint: String,
) -> (r: Option<WalletSettings>)
    ensures
        match r {
            Some(settings) => {
                &&& ldk_data_dir@.parent() matches Some(parent)
                &&& settings.data_dir@ == parent.text
                &&& bitcoin_network@ == network_name(settings.bitcoin_network)
                &&& settings.account_xpub_vanilla == account_xpub_vanilla
                &&& settings.account_xpub_colored == account_xpub_colored
                &&& settings.master_fingerprint == master_fingerprint
            },
            None => ldk_data_dir@.parent() is None || forall|network: BitcoinNetwork|
                bitcoin_network@ != #[trigger] network_name(network),
        },
{
    let parent: FilePath = match ldk_data_dir.parent() {
        Some(parent) => parent,
        None => {
            return None;
        },
    };
    match BitcoinNetwork::from_str(bitcoin_network) {
        Ok(network) => Some(
            WalletSettings {
                data_dir: parent.text(),
                bitcoin_network: network,
                account_xpub_vanilla,
                account_xpub_colored,
                master_fingerprint,
            },
        ),
        Err(_) => None,
    }
}

/// The directory of the node that a wallet at `data_dir` belongs to.
pub open spec fn node_dir(data_dir: Seq<char>) -> PathView {
    PathView { text: data_dir }.join(".ldk"@)
}

/// Opens a wallet.
pub fn _new_rgb_wallet(
    data_dir: String,
    bitcoin_network: BitcoinNetwork,
    account_xpub_vanilla: String,
    account_xpub_colored: String,
    master_fingerprint: String,
) -> (r: Wallet)
    ensures
        r.ldk_data_dir@ == node_dir(data_dir@),
{
    let wallet_data: WalletData = WalletData {
        data_dir: FilePath::from_text(data_dir.as_str()),
        bitcoin_network,
        database_type: DatabaseType::Sqlite,
        max_allocations_per_utxo: 1,
        account_xpub_vanilla,
        account_xpub_colored,
        master_fingerprint,
        mnemonic: String::new(),
        vanilla_keychain: None,
        supported_schemas: supported_schemas(),
    };
    Wallet::new(wallet_data).unwrap()
}

/// The wallet beside a node's directory belongs to the directory `.ldk` there: that one stands in
/// the same directory as the node's, and has the same state file.
pub proof fn law_wallet_of_node(ldk_data_dir: PathView)
    requires
        ldk_data_dir.parent() is Some,
    ensures
        ({
            let node = node_dir(ldk_data_dir.parent()->0.text);
            &&& node == ldk_data_dir.parent()->0.join(".ldk"@)
            &&& node.file_name() == Some(".ldk"@)
            &&& node.parent() == ldk_data_dir.parent()
            &&& state_path(node) == state_path(ldk_data_dir)
        }),
{
    let parent = ldk_data_dir.parent()->0;
    reveal_strlit(".ldk");
    reveal_strlit(".");
    reveal_strlit("..");
    assert(".ldk"@.len() != "."@.len() && ".ldk"@.len() != ".."@.len());
    assert(is_part(".ldk"@));
    law_trimmed(ldk_data_dir);
    law_file_below(parent, ".ldk"@);
}

/// An operation that is not offered says so, whatever it would give.
pub proof fn law_not_offered<T>(r: Result<T, RgbLibError>)
    requires
        not_offered(r),
    ensures
        r is Err,
        failure(r->Err_0) == Failure::Other("Not implemented"@),
{
}

/// How the files of a wallet are named.
pub proof fn law_file_names()
    ensures
        RGB_INFO_DIR@ == "rgb_info"@,
        BITCOIN_NETWORK_FNAME@ == "bitcoin_network"@,
        INDEXER_URL_FNAME@ == "indexer_url"@,
        WALLET_FINGERPRINT_FNAME@ == "wallet_fingerprint"@,
        WALLET_ACCOUNT_XPUB_VANILLA_FNAME@ == "wallet_account_xpub_vanilla"@,
        WALLET_ACCOUNT_XPUB_COLORED_FNAME@ == "wallet_account_xpub_colored"@,
        WALLET_MASTER_FINGERPRINT_FNAME@ == "wallet_master_fingerprint"@,
{
}

} // verus!
