//! The wallet and its keys.

use std::collections::HashMap;

use rgb_channels::chain::{Psbt, Transaction, Txid};
use rgb_channels::coloring::{ColoringInfo, LnTransactionType};
use rgb_channels::contract::ContractId;
use rgb_channels::error::RgbLibError;
use rgb_channels::keys::{generate_keys, get_account_data, keys_at, wallet_with_keys};
use rgb_channels::network::BitcoinNetwork;
use rgb_channels::path::FilePath;
use rgb_channels::types::{AssetSchema, Assignment, Online, RgbTransfer, WitnessOrd};
use rgb_channels::wallet::{
    Wallet, BITCOIN_NETWORK_FNAME, INDEXER_URL_FNAME, RGB_INFO_DIR, WALLET_ACCOUNT_XPUB_COLORED_FNAME,
    WALLET_ACCOUNT_XPUB_VANILLA_FNAME, WALLET_FINGERPRINT_FNAME, WALLET_MASTER_FINGERPRINT_FNAME,
    _get_file_in_parent, _get_wallet_data, _new_rgb_wallet,
};

#[test]
fn keys_come_from_the_time() {
    let keys = keys_at(0, BitcoinNetwork::Regtest).unwrap();
    assert_eq!(
        keys.mnemonic,
        "dance debate divide upon border turn fury suit into problem cruel faint"
    );
    assert_eq!(keys.master_fingerprint, "313023ca");
    assert_eq!(keys.account_xpub_vanilla, "tpubDCCxKvHcYVD3DnHTnBWSe2T5cVyNp8KKa8kFAskk4LgsohEjJbGfPQKM1duzLHQnGJ8WS4eM8t63g2vNTRWv9dAZW3pziUvp4QWsy5kcosN");
    assert_eq!(keys.account_xpub_colored, "tpubDCCxKvHcYVD3FdDKa3jJd3FQta4o9r2tUWH7wLJqBiXigb3DXovG4Sk4JtZp2xBUuKpMdpG1wDNcacX3B397swZXFAhgvvM83cfvaYDByDy");
    assert_eq!(keys.bitcoin_network, BitcoinNetwork::Regtest);
    assert_eq!(keys.max_allocations_per_utxo, 1);
    assert_eq!(keys.data_dir.text(), "");
    assert!(keys.vanilla_keychain.is_none());
    assert_eq!(
        keys.supported_schemas,
        vec![AssetSchema::Nia, AssetSchema::Cfa, AssetSchema::Uda]
    );
}

#[test]
fn keys_of_the_main_network() {
    let keys = keys_at(1_700_000_000_000_000_000, BitcoinNetwork::Mainnet).unwrap();
    assert_eq!(
        keys.mnemonic,
        "pool strong search album ignore turtle song fix spin young impulse mercy"
    );
    assert_eq!(keys.master_fingerprint, "dee7e93d");
    assert_eq!(keys.account_xpub_vanilla, "xpub6CPTD2mLjZ5UqiotLquZcajnswANRwJg8prLZSZ23JyEtzwW9aDTPc1HdSW6JXUKes7rSEKw1Ee8BCqMzAi3sAHiYF3BFswfdPM7Quru8y7");
    assert_eq!(keys.account_xpub_colored, "xpub6CPTD2mLjZ5UtmR272ZiBghyA7oWr9KcGDbaa5J5CXFSnkYAf7NNjndVZGrqSx87xoPQwSw5z7wvBTxFCgzn7wanu24cteiCjUPyK8tHX6z");
}

#[test]
fn test_networks_share_their_keys() {
    let one = keys_at(0, BitcoinNetwork::Testnet).unwrap();
    for network in [BitcoinNetwork::Testnet4, BitcoinNetwork::Signet, BitcoinNetwork::Regtest] {
        let two = keys_at(0, network).unwrap();
        assert_eq!(one.account_xpub_vanilla, two.account_xpub_vanilla);
        assert_eq!(two.bitcoin_network, network);
    }
}

#[test]
fn new_keys_are_generated() {
    let keys = generate_keys(BitcoinNetwork::Signet).unwrap();
    assert_eq!(keys.mnemonic.split(' ').count(), 12);
    assert!(keys.mnemonic.split(' ').all(|word| !word.is_empty()));
    assert_eq!(keys.master_fingerprint.len(), 8);
    assert!(keys.account_xpub_vanilla.starts_with("tpub"));
    assert!(keys.account_xpub_colored.starts_with("tpub"));
    assert!(keys.account_xpub_colored != keys.account_xpub_vanilla);
}

#[test]
fn wallets_with_given_keys() {
    let text = |s: &str| s.to_string();
    let keys =
        wallet_with_keys(BitcoinNetwork::Testnet4, text("w"), text("f"), text("v"), text("c"));
    assert_eq!(keys.mnemonic, "w");
    assert_eq!(keys.master_fingerprint, "f");
    assert_eq!(keys.account_xpub_vanilla, "v");
    assert_eq!(keys.account_xpub_colored, "c");
    assert_eq!(
        get_account_data(BitcoinNetwork::Mainnet, "words", true).unwrap(),
        (text("derivation_path"), text("xpub"), text("fingerprint"))
    );
}

#[test]
fn wallets_belong_to_nodes() {
    let mut data = keys_at(0, BitcoinNetwork::Regtest).unwrap();
    data.data_dir = FilePath::from_text("/data");
    let wallet = Wallet::new(data).unwrap();
    assert_eq!(wallet.ldk_data_dir.text(), "/data/.ldk");
    let text = |s: &str| s.to_string();
    let node = FilePath::from_text("/a/b/.ldk");
    let settings = _get_wallet_data(&node, "regtest", text("v"), text("c"), text("f")).unwrap();
    assert_eq!(settings.data_dir, "/a/b");
    assert_eq!(settings.bitcoin_network, BitcoinNetwork::Regtest);
    assert_eq!(settings.account_xpub_vanilla, "v");
    assert_eq!(settings.account_xpub_colored, "c");
    assert_eq!(settings.master_fingerprint, "f");
    let wallet = _new_rgb_wallet(
        settings.data_dir,
        settings.bitcoin_network,
        settings.account_xpub_vanilla,
        settings.account_xpub_colored,
        settings.master_fingerprint,
    );
    assert!(wallet.ldk_data_dir.same(&node));
    assert!(_get_wallet_data(&node, "liquid", text(""), text(""), text("")).is_none());
    let root = FilePath::from_text("/");
    assert!(_get_wallet_data(&root, "regtest", text(""), text(""), text("")).is_none());
}

#[test]
fn files_beside_the_node() {
    let node = FilePath::from_text("/a/.ldk");
    assert_eq!(_get_file_in_parent(&node, INDEXER_URL_FNAME).unwrap().text(), "/a/indexer_url");
    assert!(_get_file_in_parent(&FilePath::new(), "x").is_none());
    assert_eq!(RGB_INFO_DIR, "rgb_info");
    assert_eq!(BITCOIN_NETWORK_FNAME, "bitcoin_network");
    assert_eq!(WALLET_FINGERPRINT_FNAME, "wallet_fingerprint");
    assert_eq!(WALLET_ACCOUNT_XPUB_VANILLA_FNAME, "wallet_account_xpub_vanilla");
    assert_eq!(WALLET_ACCOUNT_XPUB_COLORED_FNAME, "wallet_account_xpub_colored");
    assert_eq!(WALLET_MASTER_FINGERPRINT_FNAME, "wallet_master_fingerprint");
}

fn refused<T>(r: Result<T, RgbLibError>) {
    match r {
        Err(RgbLibError::Other(text)) => assert_eq!(text, "Not implemented"),
        _ => panic!("the operation is offered"),
    }
}

#[test]
fn operations_that_are_not_offered() {
    let wallet = Wallet { ldk_data_dir: FilePath::from_text("/data/.ldk") };
    let text = || String::new();
    refused(wallet.blind_receive(None, Assignment::Any, None, vec![], 1));
    refused(wallet.create_utxos(Online, true, None, None, 1, false));
    refused(wallet.fail_transfers(Online, None, false, false));
    refused(wallet.get_address());
    refused(wallet.get_asset_balance(text()));
    refused(wallet.get_asset_metadata(text()));
    refused(wallet.get_btc_balance(None, false));
    refused(wallet.issue_asset_cfa(text(), None, 0, vec![], None));
    refused(wallet.issue_asset_nia(text(), text(), 0, vec![]));
    refused(wallet.issue_asset_uda(text(), text(), None, 0, None, vec![]));
    refused(wallet.list_assets(vec![AssetSchema::Nia]));
    refused(wallet.list_transactions(None, false));
    refused(wallet.list_transfers(None));
    refused(wallet.list_unspents(None, false, false));
    refused(wallet.list_unspents_vanilla(Online, 1, false));
    refused(wallet.post_consignment(text(), text(), FilePath::new(), text(), None));
    refused(wallet.refresh(Online, None, vec![], false));
    let transfer = RgbTransfer::new(ContractId { bytes: [0; 32] }, AssetSchema::Nia);
    refused(wallet.save_new_asset(transfer, text()));
    refused(wallet.send(Online, HashMap::new(), false, 1, 1, false));
    refused(wallet.send_begin(Online, HashMap::new(), false, 1, 1));
    refused(wallet.send_btc(Online, text(), 1, 1, false));
    refused(wallet.send_btc_begin(Online, text(), 1, 1, false));
    refused(wallet.send_btc_end(Online, text(), false));
    refused(wallet.send_end(Online, text(), false));
    refused(wallet.sign_psbt(text(), None));
    refused(wallet.sync(Online));
    refused(wallet.update_witnesses(0, vec![]));
    refused(wallet.upsert_witness(Txid { bytes: [0; 32] }, WitnessOrd::Tentative));
    refused(wallet.witness_receive(None, Assignment::Any, None, vec![], 1));
    let tx = Transaction { version: 2, lock_time: 0, input: vec![], output: vec![] };
    let mut psbt = Psbt { unsigned_tx: tx, output_records: 0 };
    let coloring = ColoringInfo {
        asset_info_map: vec![],
        static_blinding: None,
        nonce: None,
        ln_tx_type: LnTransactionType::Htlc,
    };
    refused(wallet.color_psbt_and_consume(&mut psbt, coloring));
}

#[test]
fn operations_with_fixed_answers() {
    let wallet = Wallet { ldk_data_dir: FilePath::from_text("/data/.ldk") };
    assert!(wallet.go_online(true, "url".to_string()).is_ok());
    assert_eq!(wallet.get_tx_height("txid".to_string()).unwrap(), None);
    assert_eq!(wallet.get_media_dir().text(), "");
    assert_eq!(wallet.get_send_consignment_path("asset", "txid").text(), "");
}
