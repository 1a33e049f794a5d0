//! The state file.

use rgb_channels::chain::Txid;
use rgb_channels::coloring::Disk;
use rgb_channels::contract::ContractId;
use rgb_channels::error::RgbLibError;
use rgb_channels::path::FilePath;
use rgb_channels::state_file::{
    cache_counterparty, read_counterparty, read_funding_utxo, read_state_hash, state_file_path,
    wallet_directory, write_acceptor_state_file, ChannelInfo, FileRead, StateWrite,
};
use rgb_channels::wallet::Wallet;

fn dir() -> FilePath {
    FilePath::from_text("/data/.ldk")
}

fn text(s: &str) -> FileRead {
    FileRead::Text(s.to_string())
}

fn missing() -> FileRead {
    FileRead::Missing("No such file".to_string())
}

fn message<T>(r: Result<T, RgbLibError>) -> String {
    match r {
        Err(RgbLibError::Other(text)) => text,
        Err(e) => panic!("{:?}", e),
        Ok(_) => panic!("no error"),
    }
}

fn numbers(from: u64, n: usize) -> String {
    (0..n).map(|i| (from + i as u64).to_string()).collect::<Vec<_>>().join(",")
}

fn info() -> ChannelInfo {
    ChannelInfo {
        contract_id: "cid".to_string(),
        genesis_state_hash: "0a".repeat(32),
        asset_amount: 500,
        schema: "Nia".to_string(),
        ticker: "TICK".to_string(),
        name: "Ticker \"quoted\"".to_string(),
        precision: 2,
        supply: u64::MAX,
        registry_uri: "rho:id:x".to_string(),
        rholang_source: "new x in { }".to_string(),
        methods: vec!["issue".to_string(), "balance".to_string()],
        wallet_pubkey: "04ab".to_string(),
    }
}

fn written(write: StateWrite) -> String {
    match write {
        StateWrite::Write(text) => text,
        _ => panic!("nothing is written"),
    }
}

#[test]
fn the_state_file_stands_beside_the_node() {
    assert_eq!(state_file_path(&dir()).unwrap().text(), "/data/rgb-lightning-wallet/f1r3fly_state.json");
    assert_eq!(wallet_directory(&dir()).unwrap().text(), "/data/rgb-lightning-wallet");
    let root = FilePath::from_text("/");
    assert_eq!(message(state_file_path(&root)), "Cannot get parent directory");
    assert_eq!(message(wallet_directory(&root)), "Cannot get parent directory");
    assert_eq!(message(read_state_hash(&root, &missing(), "c")), "Cannot get parent directory");
    assert_eq!(message(read_funding_utxo(&root, &missing(), "c")), "Cannot get parent directory");
}

#[test]
fn the_state_hash_is_read_from_either_place() {
    let beside = format!("{{\"genesis_utxos\":{{\"c\":{{\"state_hash\":[{}]}}}}}}", numbers(0, 32));
    let hash = read_state_hash(&dir(), &text(&beside), "c").unwrap();
    assert_eq!(hash[0], 0);
    assert_eq!(hash[31], 31);
    let nested = format!(
        "{{\"genesis_utxos\":{{\"c\":{{\"state_hash\":null,\"genesis_execution_result\":{{\"state_hash\":[{}]}}}}}}}}",
        numbers(100, 32)
    );
    let hash = read_state_hash(&dir(), &text(&nested), "c").unwrap();
    assert_eq!(hash[0], 100);
    assert_eq!(hash[31], 131);
}

#[test]
fn numbers_of_a_state_hash_are_cut_to_bytes() {
    let large = format!("{{\"genesis_utxos\":{{\"c\":{{\"state_hash\":[{}]}}}}}}", numbers(250, 32));
    let hash = read_state_hash(&dir(), &text(&large), "c").unwrap();
    assert_eq!(hash[5], 255);
    assert_eq!(hash[6], 0);
    assert_eq!(hash[31], 25);
}

#[test]
fn why_there_is_no_state_hash() {
    let read = |file: &FileRead| message(read_state_hash(&dir(), file, "c"));
    assert_eq!(
        read(&missing()),
        "F1r3fly state file not found: /data/rgb-lightning-wallet/f1r3fly_state.json"
    );
    assert_eq!(read(&FileRead::Unreadable("denied".to_string())), "Failed to read state file: denied");
    assert!(read(&text("{")).starts_with("Failed to parse state JSON: EOF"));
    assert_eq!(read(&text("{}")), "Contract c not found in state (genesis_utxos)");
    assert_eq!(read(&text("[]")), "Contract c not found in state (genesis_utxos)");
    assert_eq!(
        read(&text("{\"genesis_utxos\":{\"c\":{}}}")),
        "Genesis state hash not found for contract c"
    );
    assert_eq!(
        read(&text("{\"genesis_utxos\":{\"c\":{\"state_hash\":\"0a\"}}}")),
        "Genesis state hash not found for contract c"
    );
    assert_eq!(
        read(&text("{\"genesis_utxos\":{\"c\":{\"state_hash\":[1,2]}}}")),
        "Invalid state hash length: expected 32 bytes, got 2"
    );
    let bad = format!(
        "{{\"genesis_utxos\":{{\"c\":{{\"state_hash\":[{},-1,\"x\"]}}}}}}",
        numbers(0, 30)
    );
    assert_eq!(read(&text(&bad)), "Invalid byte at index 30");
}

#[test]
fn the_funding_output_is_read() {
    let read = |s: &str| read_funding_utxo(&dir(), &text(s), "c");
    assert_eq!(read("{\"genesis_utxos\":{\"c\":{\"txid\":\"ab\",\"vout\":7}}}").unwrap(), "ab:7");
    assert_eq!(
        message(read("{\"genesis_utxos\":{\"d\":{}}}")),
        "Contract c not found in state (genesis_utxos)"
    );
    assert_eq!(
        message(read("{\"genesis_utxos\":{\"c\":{\"txid\":1,\"vout\":7}}}")),
        "TXID not found for contract c"
    );
    assert_eq!(
        message(read("{\"genesis_utxos\":{\"c\":{\"txid\":\"ab\",\"vout\":-7}}}")),
        "Vout not found for contract c"
    );
    assert_eq!(
        message(read_funding_utxo(&dir(), &missing(), "c")),
        "Failed to read state file: No such file"
    );
    let wallet = Wallet { ldk_data_dir: dir() };
    assert_eq!(
        wallet
            .read_funding_utxo_from_state("c", &text("{\"genesis_utxos\":{\"c\":{\"txid\":\"t\",\"vout\":0}}}"))
            .unwrap(),
        "t:0"
    );
}

#[test]
fn counterparties_are_read() {
    assert_eq!(read_counterparty(&missing(), "c").unwrap(), None);
    assert_eq!(read_counterparty(&text("{}"), "c").unwrap(), None);
    assert_eq!(
        read_counterparty(&text("{\"channel_counterparties\":{\"c\":\"key\"}}"), "c").unwrap(),
        Some("key".to_string())
    );
    assert_eq!(read_counterparty(&text("{\"channel_counterparties\":{\"c\":1}}"), "c").unwrap(), None);
    assert!(message(read_counterparty(&text("nope"), "c")).starts_with("Failed to parse state JSON: "));
    assert_eq!(
        message(read_counterparty(&FileRead::Unreadable("e".to_string()), "c")),
        "Failed to read state file: e"
    );
}

#[test]
fn counterparties_are_noted() {
    let made = written(cache_counterparty(&missing(), "c", "k"));
    assert_eq!(made, "{\n  \"channel_counterparties\": {\n    \"c\": \"k\"\n  }\n}");
    assert_eq!(read_counterparty(&text(&made), "c").unwrap(), Some("k".to_string()));
    assert_eq!(read_counterparty(&text(&made), "d").unwrap(), None);
    let state = written(cache_counterparty(&text("{\"other\":1}"), "c", "k"));
    let value: serde_json::Value = serde_json::from_str(&state).unwrap();
    assert_eq!(value["other"], 1);
    assert_eq!(value["channel_counterparties"]["c"], "k");
    assert_eq!(state, "{\n  \"channel_counterparties\": {\n    \"c\": \"k\"\n  },\n  \"other\": 1\n}");
    let again = written(cache_counterparty(&text(&state), "d", "l"));
    assert_eq!(read_counterparty(&text(&again), "c").unwrap(), Some("k".to_string()));
    assert_eq!(read_counterparty(&text(&again), "d").unwrap(), Some("l".to_string()));
    let fresh = written(cache_counterparty(&text("not json"), "c", "k"));
    assert_eq!(fresh, "{\n  \"channel_counterparties\": {\n    \"c\": \"k\"\n  }\n}");
    let null = written(cache_counterparty(&text("null"), "c", "k"));
    assert_eq!(null, fresh);
    let inner_null = written(cache_counterparty(&text("{\"channel_counterparties\":null}"), "c", "k"));
    assert_eq!(inner_null, fresh);
}

#[test]
fn states_without_a_place_are_left_alone() {
    for state in ["[]", "1", "{\"channel_counterparties\":[]}", "{\"channel_counterparties\":\"x\"}"] {
        assert!(matches!(cache_counterparty(&text(state), "c", "k"), StateWrite::NoPlace), "{}", state);
        assert!(matches!(write_acceptor_state_file(&text(state), &info()), StateWrite::NoPlace));
    }
    for state in ["{\"genesis_utxos\":3}", "{\"contracts_metadata\":[1]}"] {
        assert!(matches!(write_acceptor_state_file(&text(state), &info()), StateWrite::NoPlace));
    }
    match cache_counterparty(&FileRead::Unreadable("e".to_string()), "c", "k") {
        StateWrite::Fail(RgbLibError::Other(text)) => assert_eq!(text, "Failed to read state: e"),
        _ => panic!("no failure"),
    }
}

#[test]
fn contracts_are_registered_in_a_new_state() {
    let state = written(write_acceptor_state_file(&missing(), &info()));
    let value: serde_json::Value = serde_json::from_str(&state).unwrap();
    let entry = &value["genesis_utxos"]["cid"];
    assert_eq!(entry["contract_id"], "cid");
    assert_eq!(entry["txid"], "unknown");
    assert_eq!(entry["vout"], 0);
    assert_eq!(entry["ticker"], "TICK");
    assert_eq!(entry["name"], "Ticker \"quoted\"");
    assert_eq!(entry["supply"], u64::MAX);
    assert_eq!(entry["precision"], 2);
    assert!(entry["genesis_execution_result"].is_null());
    assert_eq!(entry["state_hash"].as_array().unwrap().len(), 32);
    assert_eq!(entry["state_hash"][31], 10);
    assert_eq!(entry.as_object().unwrap().len(), 9);
    let metadata = &value["contracts_metadata"]["cid"];
    assert_eq!(metadata["registry_uri"], "rho:id:x");
    assert_eq!(metadata["rholang_source"], "new x in { }");
    assert_eq!(metadata["methods"][1], "balance");
    assert_eq!(metadata.as_object().unwrap().len(), 3);
    assert_eq!(value["channel_counterparties"]["cid"], "04ab");
    assert_eq!(value["derivation_index"], 0);
    assert!(value["contract_derivation_indices"].as_object().unwrap().is_empty());
    assert_eq!(value.as_object().unwrap().len(), 5);
}

#[test]
fn registered_contracts_are_read_back() {
    let before = format!(
        "{{\"genesis_utxos\":{{\"d\":{{\"state_hash\":[{}],\"txid\":\"t\",\"vout\":4}}}},\"kept\":[1,{{}}]}}",
        numbers(1, 32)
    );
    let state = text(&written(write_acceptor_state_file(&text(&before), &info())));
    assert_eq!(read_state_hash(&dir(), &state, "cid").unwrap(), [10u8; 32]);
    assert_eq!(read_counterparty(&state, "cid").unwrap(), Some("04ab".to_string()));
    assert_eq!(read_funding_utxo(&dir(), &state, "cid").unwrap(), "unknown:0");
    assert_eq!(
        read_state_hash(&dir(), &state, "d").unwrap(),
        read_state_hash(&dir(), &text(&before), "d").unwrap()
    );
    assert_eq!(read_funding_utxo(&dir(), &state, "d").unwrap(), "t:4");
    if let FileRead::Text(text) = &state {
        let value: serde_json::Value = serde_json::from_str(text).unwrap();
        assert_eq!(value["kept"][0], 1);
    }
}

#[test]
fn registering_twice_is_registering_once() {
    let once = written(write_acceptor_state_file(&missing(), &info()));
    let twice = written(write_acceptor_state_file(&text(&once), &info()));
    assert_eq!(once, twice);
}

#[test]
fn bad_state_hashes_are_refused() {
    let register = |hash: &str| {
        let mut bad = info();
        bad.genesis_state_hash = hash.to_string();
        match write_acceptor_state_file(&text("{\"genesis_utxos\":7}"), &bad) {
            StateWrite::Fail(RgbLibError::Other(text)) => text,
            _ => panic!("no failure"),
        }
    };
    assert_eq!(register("zz"), "Invalid hex state hash: Invalid character 'z' at position 0");
    assert_eq!(register("abc"), "Invalid hex state hash: Odd number of digits");
    assert_eq!(register("0A0b"), "State hash must be 32 bytes, got 2");
    assert_eq!(register(""), "State hash must be 32 bytes, got 0");
    match write_acceptor_state_file(&FileRead::Unreadable("e".to_string()), &info()) {
        StateWrite::Fail(RgbLibError::Other(text)) => assert_eq!(text, "Failed to read state: e"),
        _ => panic!("no failure"),
    }
}

#[test]
fn the_wallet_reads_the_hash_of_a_contract() {
    let id = ContractId { bytes: [7; 32] };
    let mut registered = info();
    registered.contract_id = id.text();
    let disk = Disk {
        state_file: text(&written(write_acceptor_state_file(&missing(), &registered))),
        listing: rgb_channels::channel::DirListing::Entries(vec![]),
    };
    let wallet = Wallet { ldk_data_dir: dir() };
    assert_eq!(wallet.get_f1r3fly_state_hash(&id, &disk.state_file).unwrap(), [10u8; 32]);
    let other = ContractId { bytes: [8; 32] };
    assert_eq!(
        message(wallet.get_f1r3fly_state_hash(&other, &disk.state_file)),
        format!("Contract {} not found in state (genesis_utxos)", other.text())
    );
    assert!(wallet
        .consume_fascia(rgb_channels::types::Fascia, Txid { bytes: [0; 32] }, None)
        .is_ok());
}

#[test]
fn state_hashes_survive_their_hexadecimal_text() {
    let mut hash = [0u8; 32];
    for i in 0..32 {
        hash[i] = (i * 37 + 11) as u8;
    }
    let mut given = info();
    given.genesis_state_hash = hex::encode(hash);
    let state = written(write_acceptor_state_file(&missing(), &given));
    assert_eq!(read_state_hash(&dir(), &text(&state), "cid").unwrap(), hash);
    given.genesis_state_hash = given.genesis_state_hash.to_uppercase();
    let state = written(write_acceptor_state_file(&missing(), &given));
    assert_eq!(read_state_hash(&dir(), &text(&state), "cid").unwrap(), hash);
}

#[test]
fn deep_states_are_read_back() {
    let deep = format!("{{\"deep\":{}{}}}", "[".repeat(126), "]".repeat(126));
    let state = written(write_acceptor_state_file(&text(&deep), &info()));
    assert_eq!(read_state_hash(&dir(), &text(&state), "cid").unwrap(), [10u8; 32]);
    let value: serde_json::Value = serde_json::from_str(&state).unwrap();
    assert!(value["deep"].is_array());
    let deeper = format!("{{\"deep\":{}{}}}", "[".repeat(127), "]".repeat(127));
    let state = written(write_acceptor_state_file(&text(&deeper), &info()));
    let value: serde_json::Value = serde_json::from_str(&state).unwrap();
    assert!(value.get("deep").is_none());
}

#[test]
fn states_with_other_numbers_are_read_back() {
    for number in
        ["1.5", "1.0", "-0", "1e15", "1e16", "1e22", "0.1", "5e-324", "18446744073709551616", "1.7976931348623157e308"]
    {
        let before = format!(
            "{{\"genesis_utxos\":{{\"d\":{{\"state_hash\":[{}],\"txid\":\"t\",\"vout\":4,\"x\":{}}}}},\"kept\":[{},\"a\"]}}",
            numbers(1, 32),
            number,
            number
        );
        for state in [
            written(write_acceptor_state_file(&text(&before), &info())),
            written(cache_counterparty(&text(&before), "cid", "04ab")),
        ] {
            assert_eq!(read_counterparty(&text(&state), "cid").unwrap(), Some("04ab".to_string()));
            assert_eq!(
                read_state_hash(&dir(), &text(&state), "d").unwrap(),
                read_state_hash(&dir(), &text(&before), "d").unwrap()
            );
            assert_eq!(read_funding_utxo(&dir(), &text(&state), "d").unwrap(), "t:4");
            let value: serde_json::Value = serde_json::from_str(&state).unwrap();
            assert!(value["kept"][0].is_f64(), "{}", number);
            assert_eq!(value["kept"][1], "a");
        }
        let state = text(&written(write_acceptor_state_file(&text(&before), &info())));
        assert_eq!(read_state_hash(&dir(), &state, "cid").unwrap(), [10u8; 32]);
        assert_eq!(read_funding_utxo(&dir(), &state, "cid").unwrap(), "unknown:0");
    }
}

#[test]
fn the_largest_numbers_are_read_back() {
    let largest = f64::MAX.to_bits();
    for bits in (largest - 500)..=largest {
        let number = f64::from_bits(bits);
        let value = serde_json::Value::from(number);
        let before = format!("{{\"x\":{}}}", value);
        if let Ok(read) = serde_json::from_str::<serde_json::Value>(&before) {
            assert!(read["x"].is_f64());
        } else {
            panic!("{} is not read back", value);
        }
    }
}
