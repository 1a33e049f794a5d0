//! The proxy, the acceptance of transfers and the lookup of keys.

use base64::Engine;

use rgb_channels::accept::{accept, read_schema, AcceptAction, AcceptEvent, AcceptStage, Acceptance};
use rgb_channels::channel::{rename_rgb_files, ChannelId};
use rgb_channels::contract::ContractId;
use rgb_channels::error::RgbLibError;
use rgb_channels::funding::{handle_funding, refusal_text};
use rgb_channels::lookup::{KeyLookup, LookupAction, LookupEvent, LookupStage};
use rgb_channels::path::FilePath;
use rgb_channels::proxy::{
    consignment_query, decode_consignment, post_acceptor_pubkey_after_accept, read_channel_reply,
    read_key_reply, read_post_reply, read_upload_reply, wallet_key_text, wallet_public_key, PostReply,
    ProxyReply, UploadReply,
};
use rgb_channels::state_file::{ChannelInfo, FileRead};
use rgb_channels::transport::RgbTransport;
use rgb_channels::types::{AssetSchema, Assignment, RgbTransfer};
use rgb_channels::wallet::Wallet;

const PUBLIC_KEY: &str = "0479be667ef9dcbbac55a06295ce870b07029bfcdb2dce28d959f2815b16f81798483ada7726a3c4655da4fbfc0e1108a8fd17b448a68554199c47d08ffb10d4b8";

fn wallet() -> Wallet {
    Wallet { ldk_data_dir: FilePath::from_text("/data/.ldk") }
}

fn master_key() -> Option<String> {
    Some(format!("{}01", "00".repeat(31)))
}

fn message<T>(r: Result<T, RgbLibError>) -> String {
    match r {
        Err(RgbLibError::Other(text)) => text,
        Err(e) => panic!("{:?}", e),
        Ok(_) => panic!("no error"),
    }
}

fn encode(text: &str) -> String {
    base64::engine::general_purpose::STANDARD.encode(text)
}

fn answer(consignment: &str) -> ProxyReply {
    ProxyReply::Answer { error: None, consignment: Some(consignment.to_string()) }
}

fn info() -> ChannelInfo {
    ChannelInfo {
        contract_id: ContractId { bytes: [9; 32] }.text(),
        genesis_state_hash: "0b".repeat(32),
        asset_amount: 500,
        schema: "Nia".to_string(),
        ticker: "T".to_string(),
        name: "N".to_string(),
        precision: 0,
        supply: 1000,
        registry_uri: "u".to_string(),
        rholang_source: "s".to_string(),
        methods: vec![],
        wallet_pubkey: "peer".to_string(),
    }
}

#[test]
fn questions_to_the_proxy() {
    let request = consignment_query("me", "rpc://host/json-rpc");
    assert_eq!(request.url, "http://host/json-rpc");
    assert_eq!(
        request.body.to_string(),
        "{\"id\":\"1\",\"jsonrpc\":\"2.0\",\"method\":\"consignment.get\",\"params\":{\"recipient_id\":\"me\"}}"
    );
}

#[test]
fn consignments_are_texts_in_base64() {
    assert_eq!(decode_consignment("aMOpbGxv", "b: ", "u: ").unwrap(), "héllo");
    assert_eq!(decode_consignment("", "b: ", "u: ").unwrap(), "");
    assert!(message(decode_consignment("*", "b: ", "u: ")).starts_with("b: Invalid symbol 42"));
    assert!(message(decode_consignment("/w==", "b: ", "u: ")).starts_with("u: invalid utf-8 sequence"));
}

#[test]
fn replies_about_channels() {
    assert_eq!(
        message(read_channel_reply(&ProxyReply::SendFailed("e".to_string()))),
        "Failed to get channel info: e"
    );
    assert!(matches!(
        read_channel_reply(&ProxyReply::Refused("500".to_string())),
        Err(RgbLibError::NoConsignment)
    ));
    assert_eq!(
        message(read_channel_reply(&ProxyReply::Unparsed("e".to_string()))),
        "Failed to parse JSON-RPC response: e"
    );
    let mut error = serde_json::Map::new();
    error.insert("code".to_string(), serde_json::Value::from(-400));
    let failed = ProxyReply::Answer {
        error: Some(serde_json::Value::Object(error)),
        consignment: Some("x".to_string()),
    };
    assert_eq!(message(read_channel_reply(&failed)), "JSON-RPC error: {\"code\":-400}");
    assert_eq!(message(read_key_reply(&failed)), "Proxy error: {\"code\":-400}");
    let empty = ProxyReply::Answer { error: None, consignment: None };
    assert!(matches!(read_channel_reply(&empty), Err(RgbLibError::NoConsignment)));
    assert_eq!(message(read_key_reply(&empty)), "No result in response");
    assert!(message(read_channel_reply(&answer("*"))).starts_with("Failed to decode base64 consignment: "));
    assert!(message(read_channel_reply(&answer("/w=="))).starts_with("Failed to convert consignment to UTF-8: "));
    assert_eq!(read_channel_reply(&answer(&encode("{}"))).unwrap(), "{}");
}

#[test]
fn replies_about_keys() {
    assert_eq!(
        message(read_key_reply(&ProxyReply::SendFailed("e".to_string()))),
        "Failed to get counterparty pubkey: e"
    );
    assert_eq!(
        message(read_key_reply(&ProxyReply::Refused("404 Not Found".to_string()))),
        "Proxy GET failed for acceptor pubkey: 404 Not Found"
    );
    assert_eq!(
        message(read_key_reply(&ProxyReply::Unparsed("e".to_string()))),
        "Failed to parse response: e"
    );
    assert!(message(read_key_reply(&answer("*"))).starts_with("Failed to decode base64: "));
    assert!(message(read_key_reply(&answer("/w=="))).starts_with("Failed to convert to UTF-8: "));
}

#[test]
fn keys_are_posted_as_consignments() {
    let request = wallet().post_acceptor_pubkey_to_proxy("c", "k", "rpcs://host");
    assert_eq!(request.url, "https://host");
    assert_eq!(
        request.body.to_string(),
        "{\"id\":\"1\",\"jsonrpc\":\"2.0\",\"method\":\"consignment.post\",\"params\":{\"consignment\":\"eyJjb250cmFjdF9pZCI6ImMiLCJ3YWxsZXRfcHVia2V5IjoiayJ9\",\"recipient_id\":\"c_acceptor_pubkey\"}}"
    );
}

#[test]
fn posted_keys_are_read() {
    let request = wallet().post_acceptor_pubkey_to_proxy("contract \"é\"", "key", "rpc://host");
    let consignment = request.body["params"]["consignment"].as_str().unwrap().to_string();
    let text = read_key_reply(&answer(&consignment)).unwrap();
    let payload: serde_json::Value = serde_json::from_str(&text).unwrap();
    assert_eq!(payload["wallet_pubkey"], "key");
    assert_eq!(payload["contract_id"], "contract \"é\"");
    let (_, action) = wallet().get_counterparty_pubkey("contract \"é\"", "rpc://host");
    assert!(matches!(action, LookupAction::ReadState(_)));
    let asked = consignment_query("contract \"é\"_acceptor_pubkey", "rpc://host");
    assert_eq!(asked.url, request.url);
    assert_eq!(asked.body["params"]["recipient_id"], request.body["params"]["recipient_id"]);
}

#[test]
fn replies_to_a_posting() {
    assert!(read_post_reply(&PostReply::Accepted).is_ok());
    assert_eq!(
        message(read_post_reply(&PostReply::SendFailed("e".to_string()))),
        "Failed to post acceptor pubkey: e"
    );
    assert_eq!(
        message(read_post_reply(&PostReply::Refused("500".to_string()))),
        "Proxy rejected acceptor pubkey post: 500"
    );
}

#[test]
fn the_wallet_key_is_derived_from_the_master_key() {
    assert_eq!(wallet_public_key(&master_key()).unwrap(), PUBLIC_KEY);
    assert_eq!(message(wallet_public_key(&None)), "FIREFLY_PRIVATE_KEY not set");
    assert_eq!(
        message(wallet_public_key(&Some("0".to_string()))),
        "Invalid master key hex: Odd number of digits"
    );
    let bad = message(wallet_public_key(&Some("00".repeat(32))));
    assert_eq!(bad, "Invalid secp256k1 master key: malformed or out-of-range secret key");
    assert!(message(wallet_public_key(&Some("01".to_string()))).starts_with("Invalid secp256k1 master key: "));
    assert_eq!(wallet_key_text(Ok(vec![4, 0xab])).unwrap(), "04ab");
    assert_eq!(message(wallet_key_text(Err("e".to_string()))), "Invalid secp256k1 master key: e");
}

#[test]
fn keys_are_uploaded_as_files() {
    let dir = FilePath::from_text("/data/.ldk");
    let upload = post_acceptor_pubkey_after_accept(&dir, "c", "rpc://host", &master_key()).unwrap();
    assert_eq!(upload.url, "http://host");
    assert_eq!(upload.params, "{\"recipient_id\":\"c_acceptor_pubkey\",\"txid\":\"c_acceptor_pubkey\"}");
    assert_eq!(upload.path.text(), "/data/.ldk/temp_acceptor_pubkey_c.json");
    assert_eq!(upload.text, format!("{{\"contract_id\":\"c\",\"wallet_pubkey\":\"{}\"}}", PUBLIC_KEY));
    assert_eq!(
        message(post_acceptor_pubkey_after_accept(&dir, "c", "rpc://host", &None)),
        "FIREFLY_PRIVATE_KEY not set"
    );
}

#[test]
fn what_becomes_of_uploads() {
    assert!(read_upload_reply(&UploadReply::Refused).is_ok());
    assert!(read_upload_reply(&UploadReply::Answered { failed: true }).is_ok());
    assert!(read_upload_reply(&UploadReply::Answered { failed: false }).is_ok());
    assert_eq!(
        message(read_upload_reply(&UploadReply::WriteFailed("e".to_string()))),
        "Failed to write temp file: e"
    );
    assert_eq!(
        message(read_upload_reply(&UploadReply::AttachFailed("e".to_string()))),
        "Failed to attach file: e"
    );
    assert_eq!(
        message(read_upload_reply(&UploadReply::SendFailed("e".to_string()))),
        "Failed to post acceptor pubkey: e"
    );
    assert_eq!(
        message(read_upload_reply(&UploadReply::Unparsed("e".to_string()))),
        "Failed to parse response: e"
    );
}

fn begin() -> (Acceptance, AcceptAction) {
    let endpoint = RgbTransport::from_str("rpc://host").unwrap();
    wallet().accept_transfer("txid".to_string(), 1, Some(endpoint), 777)
}

/// Runs an acceptance in which every action goes well.
fn run(info: ChannelInfo) -> (Vec<&'static str>, AcceptAction) {
    let (mut acceptance, mut action) = begin();
    let mut actions = Vec::new();
    loop {
        let event = match action {
            AcceptAction::Ask(request) => {
                assert_eq!(request.url, "http://host");
                assert_eq!(request.body["params"]["recipient_id"], "txid");
                actions.push("ask");
                AcceptEvent::Reply(answer(&encode("info")))
            },
            AcceptAction::ReadInfo(text) => {
                assert_eq!(text, "info");
                actions.push("read info");
                AcceptEvent::Info(Some(info.clone()))
            },
            AcceptAction::MakeDir(dir) => {
                assert_eq!(dir.text(), "/data/rgb-lightning-wallet");
                actions.push("make dir");
                AcceptEvent::DirMade(None)
            },
            AcceptAction::ReadState(path) => {
                assert_eq!(path.text(), "/data/rgb-lightning-wallet/f1r3fly_state.json");
                actions.push("read state");
                AcceptEvent::State(FileRead::Missing("none".to_string()))
            },
            AcceptAction::WriteState(path, text) => {
                assert_eq!(path.text(), "/data/rgb-lightning-wallet/f1r3fly_state.json");
                let state: serde_json::Value = serde_json::from_str(&text).unwrap();
                assert_eq!(state["channel_counterparties"][&info.contract_id], "peer");
                actions.push("write state");
                AcceptEvent::Written(None)
            },
            AcceptAction::Reload => {
                actions.push("reload");
                AcceptEvent::Reloaded(Ok(()))
            },
            AcceptAction::ReadKey => {
                actions.push("read key");
                AcceptEvent::Key(master_key())
            },
            AcceptAction::Upload(upload) => {
                assert_eq!(upload.url, "http://host");
                assert!(upload.text.contains(PUBLIC_KEY));
                actions.push("upload");
                AcceptEvent::Uploaded(UploadReply::Answered { failed: false })
            },
            AcceptAction::Remove(path) => {
                assert!(path.text().starts_with("/data/.ldk/temp_acceptor_pubkey_"));
                actions.push("remove");
                AcceptEvent::Removed
            },
            last => return (actions, last),
        };
        let (next, then) = acceptance.step(event);
        acceptance = next;
        action = then;
    }
}

#[test]
fn transfers_are_accepted_step_by_step() {
    let (actions, last) = run(info());
    assert_eq!(
        actions,
        vec![
            "ask", "read info", "make dir", "read state", "write state", "reload", "read key",
            "upload", "remove"
        ]
    );
    match last {
        AcceptAction::Finish(Ok((transfer, assignments))) => {
            assert!(transfer.contract_id() == ContractId { bytes: [9; 32] });
            assert_eq!(transfer.asset_schema(), AssetSchema::Nia);
            assert_eq!(assignments, vec![Assignment::Fungible(500)]);
        },
        _ => panic!("not accepted"),
    }
}

#[test]
fn schemas_decide_what_is_assigned() {
    let mut unique = info();
    unique.schema = "Uda".to_string();
    match run(unique).1 {
        AcceptAction::Finish(Ok((transfer, assignments))) => {
            assert_eq!(transfer.asset_schema(), AssetSchema::Uda);
            assert_eq!(assignments, vec![Assignment::NonFungible]);
        },
        _ => panic!("not accepted"),
    }
    let mut inflatable = info();
    inflatable.schema = "Ifa".to_string();
    let (actions, last) = run(inflatable);
    assert_eq!(actions.len(), 9);
    assert!(matches!(last, AcceptAction::Stop));
    let mut unknown = info();
    unknown.schema = "NIA".to_string();
    let (actions, last) = run(unknown);
    assert_eq!(actions, vec!["ask", "read info"]);
    match last {
        AcceptAction::Finish(r) => assert_eq!(message(r), "Unknown schema: NIA"),
        _ => panic!("not finished"),
    }
    assert_eq!(read_schema("Cfa").unwrap(), AssetSchema::Cfa);
}

#[test]
fn contracts_that_cannot_be_read_are_refused_at_the_end() {
    let mut bad = info();
    bad.contract_id = "nonsense".to_string();
    let (actions, last) = run(bad);
    assert_eq!(actions.len(), 9);
    match last {
        AcceptAction::Finish(r) => assert!(message(r).starts_with("Invalid contract_id: ")),
        _ => panic!("not finished"),
    }
    match accept(AssetSchema::Cfa, 3, Err("e".to_string())) {
        AcceptAction::Finish(r) => assert_eq!(message(r), "Invalid contract_id: e"),
        _ => panic!("not finished"),
    }
    match accept(AssetSchema::Cfa, 3, Ok(ContractId { bytes: [1; 32] })) {
        AcceptAction::Finish(Ok((_, assignments))) => {
            assert_eq!(assignments, vec![Assignment::Fungible(3)])
        },
        _ => panic!("not finished"),
    }
}

fn at(stage: AcceptStage, event: AcceptEvent) -> AcceptAction {
    let acceptance = Acceptance {
        ldk_data_dir: FilePath::from_text("/data/.ldk"),
        endpoint: "rpc://host".to_string(),
        stage,
    };
    acceptance.step(event).1
}

fn ended(action: AcceptAction) -> String {
    match action {
        AcceptAction::Finish(r) => message(r),
        _ => panic!("not finished"),
    }
}

#[test]
fn why_transfers_are_not_accepted() {
    let (_, action) = wallet().accept_transfer("txid".to_string(), 1, None, 777);
    assert!(matches!(action, AcceptAction::Finish(Err(RgbLibError::NoConsignment))));
    assert!(matches!(
        at(AcceptStage::ReadingInfo, AcceptEvent::Info(None)),
        AcceptAction::Finish(Err(RgbLibError::InvalidConsignment))
    ));
    assert!(matches!(
        at(AcceptStage::Asked, AcceptEvent::Reply(ProxyReply::Refused("500".to_string()))),
        AcceptAction::Finish(Err(RgbLibError::NoConsignment))
    ));
    assert_eq!(
        ended(at(AcceptStage::MakingDir(info()), AcceptEvent::DirMade(Some("e".to_string())))),
        "Cannot create directory: e"
    );
    assert_eq!(
        ended(at(
            AcceptStage::ReadingState(info()),
            AcceptEvent::State(FileRead::Unreadable("e".to_string()))
        )),
        "Failed to read state: e"
    );
    assert!(matches!(
        at(AcceptStage::ReadingState(info()), AcceptEvent::State(FileRead::Text("[]".to_string()))),
        AcceptAction::Stop
    ));
    assert_eq!(
        ended(at(AcceptStage::WritingState(info()), AcceptEvent::Written(Some("e".to_string())))),
        "Failed to write state: e"
    );
    assert_eq!(
        ended(at(
            AcceptStage::Reloading(info()),
            AcceptEvent::Reloaded(Err(RgbLibError::Other("reload".to_string())))
        )),
        "reload"
    );
    assert_eq!(
        ended(at(AcceptStage::ReadingKey(info()), AcceptEvent::Key(None))),
        "FIREFLY_PRIVATE_KEY not set"
    );
    assert_eq!(
        ended(at(
            AcceptStage::Uploading(info()),
            AcceptEvent::Uploaded(UploadReply::SendFailed("e".to_string()))
        )),
        "Failed to post acceptor pubkey: e"
    );
    assert!(matches!(
        at(
            AcceptStage::Uploading(info()),
            AcceptEvent::Uploaded(UploadReply::Unparsed("e".to_string()))
        ),
        AcceptAction::Remove(_)
    ));
    assert_eq!(
        ended(at(
            AcceptStage::Removing(info(), UploadReply::Unparsed("e".to_string())),
            AcceptEvent::Removed
        )),
        "Failed to parse response: e"
    );
}

#[test]
fn a_refused_upload_does_not_stop_a_channel() {
    assert!(matches!(
        at(AcceptStage::Removing(info(), UploadReply::Refused), AcceptEvent::Removed),
        AcceptAction::Finish(Ok(_))
    ));
}

#[test]
fn nodes_without_a_parent_directory_accept_nothing() {
    let acceptance = Acceptance {
        ldk_data_dir: FilePath::from_text("/"),
        endpoint: "rpc://host".to_string(),
        stage: AcceptStage::ReadingInfo,
    };
    let (acceptance, action) = acceptance.step(AcceptEvent::Info(Some(info())));
    assert_eq!(ended(action), "Cannot get parent directory");
    let (acceptance, action) = acceptance.step(AcceptEvent::Removed);
    assert!(matches!(action, AcceptAction::Unexpected));
    assert!(matches!(acceptance.stage, AcceptStage::Done));
}

fn lookup() -> KeyLookup {
    let (lookup, action) = wallet().get_counterparty_pubkey("c", "rpc://host");
    match action {
        LookupAction::ReadState(path) => {
            assert_eq!(path.text(), "/data/rgb-lightning-wallet/f1r3fly_state.json")
        },
        _ => panic!("the state file is not read"),
    }
    lookup
}

fn state(text: &str) -> LookupEvent {
    LookupEvent::State(FileRead::Text(text.to_string()))
}

fn found(action: LookupAction) -> Result<String, RgbLibError> {
    match action {
        LookupAction::Finish(r) => r,
        _ => panic!("not finished"),
    }
}

#[test]
fn known_keys_are_found_without_asking() {
    let (lookup, action) = lookup().step(state("{\"channel_counterparties\":{\"c\":\"key\"}}"));
    assert_eq!(found(action).unwrap(), "key");
    assert!(matches!(lookup.stage, LookupStage::Done));
}

#[test]
fn unknown_keys_are_asked_for_and_noted() {
    let (lookup, action) = lookup().step(state("{\"a\":1}"));
    match action {
        LookupAction::Ask(request) => {
            assert_eq!(request.url, "http://host");
            assert_eq!(request.body["params"]["recipient_id"], "c_acceptor_pubkey");
            assert_eq!(request.body["method"], "consignment.get");
        },
        _ => panic!("the proxy is not asked"),
    }
    let (lookup, action) = lookup.step(LookupEvent::Reply(answer(&encode("payload"))));
    match action {
        LookupAction::ReadPayload(text) => assert_eq!(text, "payload"),
        _ => panic!("the payload is not read"),
    }
    let (lookup, action) = lookup.step(LookupEvent::Payload(Ok("key".to_string())));
    match action {
        LookupAction::MakeDir(dir) => assert_eq!(dir.text(), "/data/rgb-lightning-wallet"),
        _ => panic!("the directory is not made"),
    }
    let (lookup, action) = lookup.step(LookupEvent::DirMade(None));
    assert!(matches!(action, LookupAction::ReadState(_)));
    let (lookup, action) = lookup.step(state("{\"a\":1}"));
    let text = match action {
        LookupAction::WriteState(path, text) => {
            assert_eq!(path.text(), "/data/rgb-lightning-wallet/f1r3fly_state.json");
            text
        },
        _ => panic!("the state is not written"),
    };
    let (_, action) = lookup.step(LookupEvent::Written(None));
    assert_eq!(found(action).unwrap(), "key");
    let (_, action) = self::lookup().step(state(&text));
    assert_eq!(found(action).unwrap(), "key");
}

#[test]
fn without_a_state_file_one_is_made() {
    let missing = || LookupEvent::State(FileRead::Missing("none".to_string()));
    let (lookup, action) = lookup().step(missing());
    assert!(matches!(action, LookupAction::Ask(_)));
    let (lookup, _) = lookup.step(LookupEvent::Reply(answer(&encode("p"))));
    let (lookup, action) = lookup.step(LookupEvent::Payload(Ok("key".to_string())));
    assert!(matches!(action, LookupAction::MakeDir(_)));
    let (lookup, action) = lookup.step(LookupEvent::DirMade(None));
    assert!(matches!(action, LookupAction::ReadState(_)));
    let (lookup, action) = lookup.step(missing());
    let text = match action {
        LookupAction::WriteState(path, text) => {
            assert_eq!(path.text(), "/data/rgb-lightning-wallet/f1r3fly_state.json");
            text
        },
        _ => panic!("the state is not written"),
    };
    assert_eq!(text, "{\n  \"channel_counterparties\": {\n    \"c\": \"key\"\n  }\n}");
    let (_, action) = lookup.step(LookupEvent::Written(None));
    assert_eq!(found(action).unwrap(), "key");
    let (again, action) = self::lookup().step(state(&text));
    assert_eq!(found(action).unwrap(), "key");
    assert!(matches!(again.stage, LookupStage::Done));
}

#[test]
fn why_keys_are_not_found() {
    let (_, action) = lookup().step(state("{"));
    assert!(message(found(action)).starts_with("Failed to parse state JSON: "));
    let (asked, _) = lookup().step(state("{}"));
    let (done, action) = asked.step(LookupEvent::Reply(ProxyReply::SendFailed("e".to_string())));
    assert_eq!(message(found(action)), "Failed to get counterparty pubkey: e");
    let (_, action) = done.step(LookupEvent::Written(None));
    assert!(matches!(action, LookupAction::Unexpected));
    let at = |stage, event| {
        let lookup = KeyLookup {
            ldk_data_dir: FilePath::from_text("/data/.ldk"),
            contract_id: "c".to_string(),
            proxy_url: "rpc://host".to_string(),
            stage,
        };
        lookup.step(event).1
    };
    assert_eq!(
        message(found(at(LookupStage::ReadingPayload, LookupEvent::Payload(Err("e".to_string()))))),
        "Failed to parse pubkey payload: e"
    );
    assert_eq!(
        message(found(at(
            LookupStage::MakingDir("k".to_string()),
            LookupEvent::DirMade(Some("e".to_string()))
        ))),
        "Cannot create directory: e"
    );
    assert_eq!(
        message(found(at(
            LookupStage::ReadingState("k".to_string()),
            LookupEvent::State(FileRead::Unreadable("e".to_string()))
        ))),
        "Failed to read state: e"
    );
    assert!(matches!(at(LookupStage::ReadingState("k".to_string()), state("[]")), LookupAction::Stop));
    assert_eq!(
        message(found(at(
            LookupStage::Writing("k".to_string()),
            LookupEvent::Written(Some("e".to_string()))
        ))),
        "Failed to write state: e"
    );
    let rootless = Wallet { ldk_data_dir: FilePath::new() };
    let (_, action) = rootless.get_counterparty_pubkey("c", "rpc://host");
    assert_eq!(message(found(action)), "Cannot get parent directory");
}

fn fund(
    accepted: Result<(RgbTransfer, Vec<Assignment>), RgbLibError>,
) -> Option<Result<rgb_channels::funding::FundedChannel, rgb_channels::funding::FundingError>> {
    handle_funding(&ChannelId([0xab; 32]), "txid", &FilePath::from_text("/data/.ldk"), accepted)
}

fn transfer(schema: AssetSchema) -> RgbTransfer {
    RgbTransfer::new(ContractId { bytes: [9; 32] }, schema)
}

#[test]
fn accepted_transfers_fund_channels() {
    let channel = match fund(Ok((transfer(AssetSchema::Cfa), vec![Assignment::Fungible(500)]))) {
        Some(Ok(channel)) => channel,
        _ => panic!("not funded"),
    };
    let name = "ab".repeat(32);
    assert!(channel.info.contract_id == ContractId { bytes: [9; 32] });
    assert_eq!(channel.info.schema, AssetSchema::Cfa);
    assert_eq!(channel.info.local_rgb_amount, 0);
    assert_eq!(channel.info.remote_rgb_amount, 500);
    assert_eq!(channel.path.text(), format!("/data/.ldk/{}", name));
    assert_eq!(channel.pending_path.text(), format!("/data/.ldk/{}.pending", name));
    assert_eq!(channel.consignment_paths.0.text(), "/data/.ldk/consignment_txid");
    assert_eq!(channel.consignment_paths.1.text(), format!("/data/.ldk/consignment_{}", name));
    match fund(Ok((transfer(AssetSchema::Uda), vec![Assignment::NonFungible]))) {
        Some(Ok(channel)) => assert_eq!(channel.info.remote_rgb_amount, 1),
        _ => panic!("not funded"),
    }
}

#[test]
fn funded_channels_get_their_final_names() {
    let channel = match fund(Ok((transfer(AssetSchema::Cfa), vec![Assignment::Fungible(5)]))) {
        Some(Ok(channel)) => channel,
        _ => panic!("not funded"),
    };
    let dir = FilePath::from_text("/data/.ldk");
    let existing = vec![channel.consignment_paths.1.copy()];
    let renames = rename_rgb_files(&ChannelId([1; 32]), &ChannelId([0xab; 32]), &dir, &existing);
    assert_eq!(renames.len(), 3);
    assert!(renames[0].0.same(&channel.path));
    assert!(renames[1].0.same(&channel.pending_path));
    assert!(renames[2].0.same(&channel.consignment_paths.1));
}

#[test]
fn why_channels_are_not_funded() {
    let refused = |accepted| match fund(accepted) {
        Some(Err(e)) => {
            assert_eq!(e.channel_id.0, [0xab; 32]);
            e.message
        },
        _ => panic!("not refused"),
    };
    assert_eq!(refused(Err(RgbLibError::InvalidConsignment)), "Invalid RGB consignment for funding");
    assert_eq!(refused(Err(RgbLibError::NoConsignment)), "Failed to find RGB consignment");
    assert_eq!(
        refused(Err(RgbLibError::UnknownRgbSchema { schema_id: "x".to_string() })),
        "Unknown RGB schema: x"
    );
    assert_eq!(
        refused(Err(RgbLibError::UnsupportedSchema { asset_schema: AssetSchema::Ifa })),
        "Unsupported RGB schema: IFA"
    );
    assert_eq!(
        refused(Err(RgbLibError::Other("a \"b\"".to_string()))),
        "Unexpected error: Other(\"a \\\"b\\\"\")"
    );
    assert_eq!(refusal_text(&RgbLibError::EmptyFile), "Unexpected error: EmptyFile");
    assert_eq!(
        refused(Ok((transfer(AssetSchema::Nia), vec![]))),
        "Unexpected number of RGB assignments: 0"
    );
    assert_eq!(
        refused(Ok((transfer(AssetSchema::Nia), vec![Assignment::Any, Assignment::Any]))),
        "Unexpected number of RGB assignments: 2"
    );
    assert!(fund(Ok((transfer(AssetSchema::Nia), vec![Assignment::Any]))).is_none());
}
