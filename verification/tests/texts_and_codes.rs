//! Texts, identifiers, networks, addresses and transports.

use std::str::FromStr;

use rgb_channels::chain::{OutPoint, Transaction, TxIn, TxOut, Txid};
use rgb_channels::contract::ContractId;
use rgb_channels::error::RgbLibError;
use rgb_channels::network::{
    is_segwit_recipient, recipient_id, recipient_id_from_script_buf, recipient_script, script_buf_from_recipient_id,
    BitcoinNetwork, ChainNetwork,
};
use rgb_channels::text::{begins_with, contains_text, decimal, join_three, join_two, same_text, text_after};
use rgb_channels::transport::{
    check_indexer_url, check_proxy_url, url_to_post, RgbTransport, TransportEndpoint, TransportType,
};
use rgb_channels::types::{
    AssetSchema, Assignment, IndexerProtocol, Invoice, Outpoint, OutpointInner, Recipient,
    RecipientInfo, RecipientType, RgbTransfer,
};
use rgb_channels::path::FilePath;

#[test]
fn texts_are_joined_and_searched() {
    assert_eq!(join_two("a", "bc"), "abc");
    assert_eq!(join_three("ü", "-", "ß"), "ü-ß");
    assert!(same_text("é", "é"));
    assert!(!same_text("e", "é"));
    assert!(begins_with("rpc://x", "rpc://"));
    assert!(!begins_with("rpc:/", "rpc://"));
    assert_eq!(text_after("héllo", 2), "llo");
    assert!(contains_text("a://b", "://"));
    assert!(contains_text("x", ""));
    assert!(!contains_text("a:/b", "://"));
    assert!(!contains_text("", "a"));
}

#[test]
fn numbers_are_written_in_decimal() {
    for n in [0u64, 7, 10, 99, 100, 1234567890, u64::MAX] {
        assert_eq!(decimal(n), n.to_string());
    }
}

#[test]
fn networks_are_named() {
    let all = [
        (BitcoinNetwork::Mainnet, "mainnet"),
        (BitcoinNetwork::Testnet, "testnet"),
        (BitcoinNetwork::Testnet4, "testnet4"),
        (BitcoinNetwork::Signet, "signet"),
        (BitcoinNetwork::Regtest, "regtest"),
    ];
    for (network, name) in all {
        assert_eq!(network.text(), name);
        assert_eq!(BitcoinNetwork::from_str(name), Ok(network));
        assert_eq!(name.parse::<BitcoinNetwork>(), Ok(network));
    }
    assert_eq!(
        BitcoinNetwork::from_str("liquid"),
        Err("Invalid bitcoin network: liquid".to_string())
    );
    assert_eq!(<BitcoinNetwork as FromStr>::from_str("").unwrap_err(), "Invalid bitcoin network: ");
}

#[test]
fn networks_of_the_chain() {
    assert_eq!(ChainNetwork::from(BitcoinNetwork::Mainnet), ChainNetwork::Bitcoin);
    assert_eq!(ChainNetwork::from(BitcoinNetwork::Testnet), ChainNetwork::Testnet);
    assert_eq!(ChainNetwork::from(BitcoinNetwork::Testnet4), ChainNetwork::Testnet4);
    assert_eq!(ChainNetwork::from(BitcoinNetwork::Signet), ChainNetwork::Signet);
    assert_eq!(ChainNetwork::from(BitcoinNetwork::Regtest), ChainNetwork::Regtest);
}

fn p2wpkh() -> Vec<u8> {
    hex::decode("0014751e76e8199196d454941c45d1b3a323f1433bd6").unwrap()
}

#[test]
fn recipients_are_addresses() {
    let script = p2wpkh();
    let of = |network| recipient_id_from_script_buf(&script, network);
    assert_eq!(of(BitcoinNetwork::Mainnet), "bc1qw508d6qejxtdg4y5r3zarvary0c5xw7kv8f3t4");
    assert_eq!(of(BitcoinNetwork::Testnet), "tb1qw508d6qejxtdg4y5r3zarvary0c5xw7kxpjzsx");
    assert_eq!(of(BitcoinNetwork::Testnet4), "tb1qw508d6qejxtdg4y5r3zarvary0c5xw7kxpjzsx");
    assert_eq!(of(BitcoinNetwork::Signet), "tb1qw508d6qejxtdg4y5r3zarvary0c5xw7kxpjzsx");
    assert_eq!(of(BitcoinNetwork::Regtest), "bcrt1qw508d6qejxtdg4y5r3zarvary0c5xw7kygt080");
}

#[test]
fn scripts_without_an_address_are_marked() {
    assert_eq!(
        recipient_id_from_script_buf(&vec![0x6a, 0x01, 0xab], BitcoinNetwork::Regtest),
        "rgb:script:6a01ab"
    );
    assert_eq!(recipient_id_from_script_buf(&vec![], BitcoinNetwork::Mainnet), "rgb:script:");
    assert_eq!(recipient_id(&vec![0xff], Some("addr".to_string())), "addr");
    assert_eq!(recipient_id(&vec![0xff], None), "rgb:script:ff");
}

#[test]
fn witness_programs_survive_their_recipients() {
    let mut scripts = vec![p2wpkh()];
    let mut p2wsh = vec![0x00, 0x20];
    p2wsh.extend([5u8; 32]);
    scripts.push(p2wsh);
    let mut taproot = vec![0x51, 0x20];
    taproot.extend(hex::decode("79be667ef9dcbbac55a06295ce870b07029bfcdb2dce28d959f2815b16f81798").unwrap());
    scripts.push(taproot);
    scripts.push(vec![0x60, 0x02, 0x11, 0x22]);
    for script in scripts {
        for network in [BitcoinNetwork::Mainnet, BitcoinNetwork::Testnet4, BitcoinNetwork::Regtest] {
            let recipient = recipient_id_from_script_buf(&script, network);
            assert_eq!(script_buf_from_recipient_id(recipient).unwrap(), script);
        }
    }
}

#[test]
fn hashes_survive_their_recipients() {
    let hash = hex::decode("751e76e8199196d454941c45d1b3a323f1433bd6").unwrap();
    let mut key_hash = vec![0x76, 0xa9, 20];
    key_hash.extend(&hash);
    key_hash.extend([0x88, 0xac]);
    let mut script_hash = vec![0xa9, 20];
    script_hash.extend(&hash);
    script_hash.push(0x87);
    let of = |script: &Vec<u8>, network| recipient_id_from_script_buf(script, network);
    assert_eq!(of(&key_hash, BitcoinNetwork::Mainnet), "1BgGZ9tcN4rm9KBzDn7KprQz87SZ26SAMH");
    for script in [key_hash.clone(), script_hash] {
        for network in [BitcoinNetwork::Mainnet, BitcoinNetwork::Signet, BitcoinNetwork::Regtest] {
            assert_eq!(script_buf_from_recipient_id(of(&script, network)).unwrap(), script);
        }
        assert_eq!(of(&script, BitcoinNetwork::Testnet), of(&script, BitcoinNetwork::Testnet4));
    }
    assert!(!is_segwit_recipient(&of(&key_hash, BitcoinNetwork::Mainnet)));
    assert!(is_segwit_recipient(&of(&p2wpkh(), BitcoinNetwork::Mainnet)));
    let hrp = bitcoin::bech32::Hrp::parse("zz").unwrap();
    let elsewhere = bitcoin::bech32::segwit::encode_v0(hrp, &[7; 20]).unwrap();
    assert!(is_segwit_recipient(&elsewhere));
    assert!(script_buf_from_recipient_id(elsewhere).is_err());
    key_hash[0] = 0x77;
    assert!(of(&key_hash, BitcoinNetwork::Mainnet).starts_with("rgb:script:77a914"));
}

#[test]
fn bad_addresses_are_refused() {
    let long = format!("rgb:script:{}", "00".repeat(60));
    for marked in ["rgb:script:6a", "rgb:script:", "rgb:script:1qqqqqq", "rgb:script:11", long.as_str()] {
        match script_buf_from_recipient_id(marked.to_string()) {
            Err(RgbLibError::Other(text)) => {
                assert!(text.starts_with("Invalid address in recipient_id: "), "{}", text)
            },
            other => panic!("{:?}", other),
        }
    }
    match recipient_script(Err("why".to_string())) {
        Err(RgbLibError::Other(text)) => assert_eq!(text, "Invalid address in recipient_id: why"),
        other => panic!("{:?}", other),
    }
    assert_eq!(recipient_script(Ok(vec![1, 2])).unwrap(), vec![1, 2]);
}

#[test]
fn transports_are_read_and_written() {
    let rpc = RgbTransport::from_str("rpc://127.0.0.1:3000/json-rpc").unwrap();
    assert_eq!(rpc, RgbTransport::JsonRpc { endpoint: "127.0.0.1:3000/json-rpc".to_string() });
    assert_eq!(rpc.text(), "rpc://127.0.0.1:3000/json-rpc");
    let http = RgbTransport::from_str("http://host").unwrap();
    assert_eq!(http, RgbTransport::RestHttp { endpoint: "host".to_string() });
    assert_eq!(http.text(), "http://host");
    for text in ["rpcs://host", "https://host", "", "rpc:/", "host"] {
        assert_eq!(
            RgbTransport::from_str(text),
            Err("Invalid RGB transport string".to_string())
        );
    }
}

#[test]
fn endpoints_are_unused_at_first() {
    let endpoint = TransportEndpoint::new("x".to_string()).unwrap();
    assert_eq!(endpoint.endpoint, "x");
    assert_eq!(endpoint.transport_type, TransportType::JsonRpc);
    assert!(!endpoint.used);
    let transport = RgbTransport::RestHttp { endpoint: "h".to_string() };
    let endpoint = TransportEndpoint::try_from(transport).unwrap();
    assert_eq!(endpoint.endpoint, "http://h");
    assert_eq!(endpoint.transport_type, TransportType::JsonRpc);
    assert!(!endpoint.used);
}

#[test]
fn urls_are_posted_to_over_http() {
    assert_eq!(url_to_post("rpc://host/rpc://x"), "http://host/rpc://x");
    assert_eq!(url_to_post("rpcs://host"), "https://host");
    assert_eq!(url_to_post("http://host"), "http://host");
    assert_eq!(url_to_post("rpc:host"), "rpc:host");
    assert_eq!(url_to_post(&url_to_post("rpc://host")), "http://host");
}

#[test]
fn indexers_and_proxies_are_checked() {
    let protocol = check_indexer_url("anything", BitcoinNetwork::Regtest).unwrap();
    assert_eq!(protocol, IndexerProtocol::Electrum);
    assert_eq!(protocol.text(), "electrum");
    assert_eq!(IndexerProtocol::Esplora.text(), "esplora");
    assert!(check_proxy_url("rpc://127.0.0.1:3000/json-rpc").is_ok());
    match check_proxy_url("") {
        Err(RgbLibError::Other(text)) => assert_eq!(text, "Proxy URL cannot be empty"),
        other => panic!("{:?}", other),
    }
    match check_proxy_url("127.0.0.1:3000") {
        Err(RgbLibError::Other(text)) => assert_eq!(text, "Invalid proxy URL format"),
        other => panic!("{:?}", other),
    }
}

#[test]
fn contracts_are_named_as_hypersonic_names_them() {
    for seed in [0u8, 1, 77, 255] {
        let bytes = [seed; 32];
        let id = ContractId { bytes };
        let text = id.text();
        assert_eq!(text, hypersonic::ContractId::from(bytes).to_string());
        assert!(ContractId::from_text(&text).unwrap() == id);
    }
    assert!(ContractId::from_text("nonsense").is_err());
    assert!(ContractId { bytes: [1; 32] } != ContractId { bytes: [2; 32] });
}

fn bytes_up() -> [u8; 32] {
    let mut bytes = [0u8; 32];
    for i in 0..32 {
        bytes[i] = i as u8;
    }
    bytes
}

#[test]
fn outputs_are_named_by_their_transactions() {
    let point = OutPoint { txid: Txid { bytes: bytes_up() }, vout: 1 };
    assert_eq!(
        point.text(),
        "1f1e1d1c1b1a191817161514131211100f0e0d0c0b0a09080706050403020100:1"
    );
    assert_eq!(point.txid.text(), &point.text()[..64]);
}

#[test]
fn transactions_are_identified_by_their_hash() {
    let mut pays_seven = vec![0, 20];
    pays_seven.extend([7u8; 20]);
    let mut pays_eight = vec![0, 20];
    pays_eight.extend([8u8; 20]);
    let tx = Transaction {
        version: 2,
        lock_time: 0,
        input: vec![TxIn {
            previous_output: OutPoint { txid: Txid { bytes: bytes_up() }, vout: 1 },
            script_sig: vec![],
            sequence: 0xffff_ffff,
        }],
        output: vec![
            TxOut { value: 1000, script_pubkey: pays_seven },
            TxOut { value: 2000, script_pubkey: pays_eight },
        ],
    };
    let expected = "526e477da50861dcdc87c6e0f2ebe15fe94ff2060d0ee3d6ba5d1df53019e85c";
    assert_eq!(tx.compute_txid().text(), expected);
    assert_eq!(tx.copy().compute_txid().text(), expected);
}

#[test]
fn schemas_and_transfers() {
    assert_eq!(AssetSchema::from_schema_id("cfa".to_string()).unwrap(), AssetSchema::Nia);
    let all = [
        (AssetSchema::Nia, "NIA", "nia"),
        (AssetSchema::Uda, "UDA", "uda"),
        (AssetSchema::Cfa, "CFA", "cfa"),
        (AssetSchema::Ifa, "IFA", "ifa"),
    ];
    for (schema, name, id) in all {
        assert_eq!(schema.text(), name);
        let transfer = RgbTransfer::new(ContractId { bytes: [3; 32] }, schema);
        assert_eq!(transfer.schema_id(), id);
        assert_eq!(transfer.asset_schema(), schema);
        assert!(transfer.contract_id() == ContractId { bytes: [3; 32] });
        assert!(transfer.save_file(&FilePath::from_text("x")).is_ok());
    }
    match RgbTransfer::load_file(FilePath::from_text("x")) {
        Err(RgbLibError::Other(text)) => assert_eq!(text, "Not implemented"),
        _ => panic!("a transfer was loaded"),
    }
}

#[test]
fn recipients_and_invoices() {
    let recipient = Recipient::new("r".to_string(), None, Assignment::Fungible(3), vec!["e".to_string()]);
    assert_eq!(recipient.recipient_id, "r");
    assert!(recipient.witness_data.is_none());
    assert_eq!(recipient.assignment, Assignment::Fungible(3));
    assert_eq!(recipient.transport_endpoints, vec!["e".to_string()]);
    let info = RecipientInfo::new("id".to_string()).unwrap();
    assert_eq!(info.recipient_id, "id");
    assert_eq!(info.recipient_type, RecipientType::Blind);
    assert_eq!(info.assignment, Assignment::Any);
    assert_eq!(info.network, BitcoinNetwork::Regtest);
    assert!(info.asset_schema.is_none() && info.asset_id.is_none());
    assert!(info.expiration_timestamp.is_none() && info.transport_endpoints.is_empty());
    let invoice = Invoice::new("inv".to_string()).unwrap();
    assert_eq!(invoice.invoice_data, "inv");
    let info = invoice.invoice_data();
    assert_eq!(info.recipient_id, "");
    assert_eq!(info.network, BitcoinNetwork::Regtest);
}

#[test]
fn outpoints_of_the_wallet_are_named() {
    let inner = OutpointInner { txid: "ab".to_string(), vout: 12 };
    assert_eq!(inner.text(), "ab:12");
    let point = Outpoint { outpoint: inner, txid: "cd".to_string(), vout: 3, btc_amount: 1, colorable: true };
    assert_eq!(point.text(), "ab:12");
}

#[test]
fn errors_have_the_text_of_their_debug_form() {
    let errors = vec![
        RgbLibError::InvalidConsignment,
        RgbLibError::NoConsignment,
        RgbLibError::UnknownRgbSchema { schema_id: "a\"b\n".to_string() },
        RgbLibError::UnsupportedSchema { asset_schema: AssetSchema::Cfa },
        RgbLibError::InsufficientBitcoins { needed: 10, available: 0 },
        RgbLibError::FailedBdkSync { details: "d".to_string() },
        RgbLibError::InvalidAssetID { asset_id: "é\u{7f}".to_string() },
        RgbLibError::InvalidProxyProtocol { version: "1".to_string() },
        RgbLibError::MaxFeeExceeded { txid: "t".to_string() },
        RgbLibError::UnsupportedLayer1 { layer_1: "l".to_string() },
        RgbLibError::UnsupportedTransportType,
        RgbLibError::IO { details: "io".to_string() },
        RgbLibError::Network { details: "n".to_string() },
        RgbLibError::Other("it's \\ \"quoted\"".to_string()),
    ];
    for error in errors {
        assert_eq!(error.text(), format!("{:?}", error));
    }
}
