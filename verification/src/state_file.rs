//! The wallet's state file: a JSON document that knows, for each contract, the genesis output,
//! the metadata and the counterparty of the channel.

use vstd::prelude::*;

use crate::codec::{hex_bytes, hex_decode, hex_error, law_hex_round_trip, lower_hex};
use crate::error::{failure, other, other_with, Failure, RgbLibError};
use crate::json::{
    byte_list, can_set, can_set_below, content, contents, depth_limit, json_bytes, json_null,
    json_number, json_object, json_of_text, json_pretty, json_text, json_texts, list_in, member,
    number_in, parse_json, pretty_text, put, put_below, reads_like, text_in, text_list, Json,
};
use crate::path::{is_part, law_file_below, law_trimmed, texts, FilePath, PathView};
use crate::text::{decimal, digits, join_three};

verus! {

/// What reading a file gave.
#[derive(Debug, Clone)]
pub enum FileRead {
    /// There is no such file. Holds the text of the error that reading it gives.
    Missing(String),
    /// The file is there and could not be read. Holds the text of the error.
    Unreadable(String),
    /// What the file holds.
    Text(String),
}

/// What reading a file gave.
pub enum FileView {
    Missing(Seq<char>),
    Unreadable(Seq<char>),
    Text(Seq<char>),
}

impl View for FileRead {
    type V = FileView;

    open spec fn view(&self) -> FileView {
        match self {
            FileRead::Missing(e) => FileView::Missing(e@),
            FileRead::Unreadable(e) => FileView::Unreadable(e@),
            FileRead::Text(text) => FileView::Text(text@),
        }
    }
}

/// The directory of the wallet, beside the one of the node.
pub open spec fn wallet_dir(ldk_data_dir: PathView) -> Option<PathView> {
    match ldk_data_dir.parent() {
        Some(parent) => Some(parent.join("rgb-lightning-wallet"@)),
        None => None,
    }
}

/// The state file, beside the directory of the node.
pub open spec fn state_path(ldk_data_dir: PathView) -> Option<PathView> {
    match wallet_dir(ldk_data_dir) {
        Some(dir) => Some(dir.join("f1r3fly_state.json"@)),
        None => None,
    }
}

/// The failure of finding the directory of the wallet.
pub open spec fn no_parent() -> Failure {
    Failure::Other("Cannot get parent directory"@)
}

/// The directory of the wallet.
pub fn wallet_directory(ldk_data_dir: &FilePath) -> (r: Result<FilePath, RgbLibError>)
    ensures
        match r {
            Ok(dir) => wallet_dir(ldk_data_dir@) == Some(dir@),
            Err(e) => wallet_dir(ldk_data_dir@) is None && failure(e) == no_parent(),
        },
{
    match ldk_data_dir.parent() {
        Some(parent) => Ok(parent.join("rgb-lightning-wallet")),
        None => Err(RgbLibError::Other("Cannot get parent directory".to_owned())),
    }
}

/// The state file.
pub fn state_file_path(ldk_data_dir: &FilePath) -> (r: Result<FilePath, RgbLibError>)
    ensures
        match r {
            Ok(path) => state_path(ldk_data_dir@) == Some(path@),
            Err(e) => state_path(ldk_data_dir@) is None && failure(e) == no_parent(),
        },
{
    match wallet_directory(ldk_data_dir) {
        Ok(dir) => Ok(dir.join("f1r3fly_state.json")),
        Err(e) => Err(e),
    }
}

/// The document that a file holds, for a reader that needs one.
pub open spec fn document(file: FileView) -> Result<Json, Failure> {
    match file {
        FileView::Missing(e) => Err(Failure::Other("Failed to read state file: "@ + e)),
        FileView::Unreadable(e) => Err(Failure::Other("Failed to read state file: "@ + e)),
        FileView::Text(text) => match json_of_text(text) {
            Ok(state) => Ok(state),
            Err(e) => Err(Failure::Other("Failed to parse state JSON: "@ + e)),
        },
    }
}

/// The document that a file holds.
fn read_document(file: &FileRead) -> (r: Result<serde_json::Value, RgbLibError>)
    ensures
        match r {
            Ok(state) => document(file@) == Ok::<Json, Failure>(content(state)),
            Err(e) => document(file@) == Err::<Json, Failure>(failure(e)),
        },
{
    match file {
        FileRead::Missing(e) => Err(other_with("Failed to read state file: ", e.as_str())),
        FileRead::Unreadable(e) => Err(other_with("Failed to read state file: ", e.as_str())),
        FileRead::Text(text) => match parse_json(text.as_str()) {
            Ok(state) => Ok(state),
            Err(e) => Err(other_with("Failed to parse state JSON: ", e.as_str())),
        },
    }
}

/// What the state knows of the genesis of a contract.
pub open spec fn genesis_of(state: Json, contract_id: Seq<char>) -> Result<Json, Failure> {
    match state.get_two("genesis_utxos"@, contract_id) {
        Some(data) => Ok(data),
        None => Err(
            Failure::Other("Contract "@ + contract_id + " not found in state (genesis_utxos)"@),
        ),
    }
}

/// What the state knows of the genesis of a contract.
fn find_genesis<'a>(state: &'a serde_json::Value, contract_id: &str) -> (r: Result<
    &'a serde_json::Value,
    RgbLibError,
>)
    ensures
        match r {
            Ok(data) => genesis_of(content(*state), contract_id@) == Ok::<Json, Failure>(
                content(*data),
            ),
            Err(e) => genesis_of(content(*state), contract_id@) == Err::<Json, Failure>(failure(e)),
        },
{
    let found: Option<&'a serde_json::Value> = match member(state, "genesis_utxos") {
        Some(all) => member(all, contract_id),
        None => None,
    };
    match found {
        Some(data) => Ok(data),
        None => Err(
            other(join_three("Contract ", contract_id, " not found in state (genesis_utxos)")),
        ),
    }
}

/// The items of the state hash: those beside the genesis output, else those of the result of
/// its execution.
pub open spec fn hash_items(data: Json) -> Option<Seq<Json>> {
    let beside = match data.get("state_hash"@) {
        Some(hash) => hash.as_list(),
        None => None,
    };
    if beside is Some {
        beside
    } else {
        match data.get_two("genesis_execution_result"@, "state_hash"@) {
            Some(hash) => hash.as_list(),
            None => None,
        }
    }
}

/// The position of the first item from `at` on that is no number.
pub open spec fn bad_item_from(items: Seq<Json>, at: int) -> Option<int>
    decreases items.len() - at,
{
    if at < 0 || at >= items.len() {
        None
    } else if items[at].as_number() is None {
        Some(at)
    } else {
        bad_item_from(items, at + 1)
    }
}

/// The bytes of a state hash: 32 numbers, each taken by its low eight bits.
pub open spec fn hash_bytes(items: Seq<Json>) -> Result<Seq<u8>, Failure> {
    if items.len() != 32 {
        Err(
            Failure::Other(
                "Invalid state hash length: expected 32 bytes, got "@ + digits(items.len()),
            ),
        )
    } else {
        match bad_item_from(items, 0) {
            Some(i) => Err(Failure::Other("Invalid byte at index "@ + digits(i as nat))),
            None => Ok(Seq::new(32, |i: int| (items[i].as_number()->0 % 256) as u8)),
        }
    }
}

/// The state hash of a contract.
pub open spec fn state_hash_in(state: Json, contract_id: Seq<char>) -> Result<Seq<u8>, Failure> {
    match genesis_of(state, contract_id) {
        Err(e) => Err(e),
        Ok(data) => match hash_items(data) {
            None => Err(
                Failure::Other("Genesis state hash not found for contract "@ + contract_id),
            ),
            Some(items) => hash_bytes(items),
        },
    }
}

/// The items of the state hash.
fn find_hash_items<'a>(data: &'a serde_json::Value) -> (r: Option<&'a Vec<serde_json::Value>>)
    ensures
        match r {
            Some(items) => hash_items(content(*data)) == Some(contents(items@)),
            None => hash_items(content(*data)) is None,
        },
{
    if let Some(hash) = member(data, "state_hash") {
        if let Some(items) = list_in(hash) {
            return Some(items);
        }
    }
    match member(data, "genesis_execution_result") {
        Some(result) => match member(result, "state_hash") {
            Some(hash) => list_in(hash),
            None => None,
        },
        None => None,
    }
}

/// The bytes of a state hash.
fn read_hash_bytes(items: &Vec<serde_json::Value>) -> (r: Result<[u8; 32], RgbLibError>)
    ensures
        match r {
            Ok(hash) => hash_bytes(contents(items@)) == Ok::<Seq<u8>, Failure>(hash@),
            Err(e) => hash_bytes(contents(items@)) == Err::<Seq<u8>, Failure>(failure(e)),
        },
{
    if items.len() != 32 {
        return Err(
            other_with(
                "Invalid state hash length: expected 32 bytes, got ",
                decimal(items.len() as u64).as_str(),
            ),
        );
    }
    let ghost all = contents(items@);
    let mut hash: [u8; 32] = [0u8; 32];
    let mut i: usize = 0;
    while i < 32
        invariant
            i <= 32,
            items.len() == 32,
            all == contents(items@),
            bad_item_from(all, 0) == bad_item_from(all, i as int),
            forall|j: int|
                0 <= j < i ==> #[trigger] hash@[j] == (all[j].as_number()->0 % 256) as u8,
        decreases 32 - i,
    {
        match number_in(&items[i]) {
            Some(n) => {
                hash[i] = (n % 256) as u8;
            },
            None => {
                return Err(other_with("Invalid byte at index ", decimal(i as u64).as_str()));
            },
        }
        i += 1;
    }
    assert(hash@ =~= hash_bytes(all)->Ok_0);
    Ok(hash)
}

/// The state hash of a contract, as the state file holds it.
pub open spec fn state_hash_of(
    ldk_data_dir: PathView,
    file: FileView,
    contract_id: Seq<char>,
) -> Result<Seq<u8>, Failure> {
    match state_path(ldk_data_dir) {
        None => Err(no_parent()),
        Some(path) => if file is Missing {
            Err(Failure::Other("F1r3fly state file not found: "@ + path.text))
        } else {
            match document(file) {
                Err(e) => Err(e),
                Ok(state) => state_hash_in(state, contract_id),
            }
        },
    }
}

/// The state hash of a contract, for the commitment to a transaction; `file` is what reading
/// the state file gave.
pub fn read_state_hash(ldk_data_dir: &FilePath, file: &FileRead, contract_id: &str) -> (r: Result<
    [u8; 32],
    RgbLibError,
>)
    ensures
        match r {
            Ok(hash) => state_hash_of(ldk_data_dir@, file@, contract_id@) == Ok::<
                Seq<u8>,
                Failure,
            >(hash@),
            Err(e) => state_hash_of(ldk_data_dir@, file@, contract_id@) == Err::<
                Seq<u8>,
                Failure,
            >(failure(e)),
        },
{
    let path: FilePath = match state_file_path(ldk_data_dir) {
        Ok(path) => path,
        Err(e) => {
            return Err(e);
        },
    };
    if let FileRead::Missing(_) = file {
        return Err(other_with("F1r3fly state file not found: ", path.text().as_str()));
    }
    let state: serde_json::Value = match read_document(file) {
        Ok(state) => state,
        Err(e) => {
            return Err(e);
        },
    };
    match find_genesis(&state, contract_id) {
        Err(e) => Err(e),
        Ok(data) => match find_hash_items(data) {
            None => Err(other_with("Genesis state hash not found for contract ", contract_id)),
            Some(items) => read_hash_bytes(items),
        },
    }
}

/// The funding output of a contract, as the state holds it.
pub open spec fn funding_in(state: Json, contract_id: Seq<char>) -> Result<Seq<char>, Failure> {
    match genesis_of(state, contract_id) {
        Err(e) => Err(e),
        Ok(data) => {
            let txid = match data.get("txid"@) {
                Some(txid) => txid.as_text(),
                None => None,
            };
            let vout = match data.get("vout"@) {
                Some(vout) => vout.as_number(),
                None => None,
            };
            match txid {
                None => Err(Failure::Other("TXID not found for contract "@ + contract_id)),
                Some(txid) => match vout {
                    None => Err(Failure::Other("Vout not found for contract "@ + contract_id)),
                    Some(vout) => Ok(txid + ":"@ + digits(vout as nat)),
                },
            }
        },
    }
}

/// The funding output of a contract, as the state file holds it.
pub open spec fn funding_of(
    ldk_data_dir: PathView,
    file: FileView,
    contract_id: Seq<char>,
) -> Result<Seq<char>, Failure> {
    if state_path(ldk_data_dir) is None {
        Err(no_parent())
    } else {
        match document(file) {
            Err(e) => Err(e),
            Ok(state) => funding_in(state, contract_id),
        }
    }
}

/// The funding output of a contract; `file` is what reading the state file gave.
pub fn read_funding_utxo(ldk_data_dir: &FilePath, file: &FileRead, contract_id: &str) -> (r: Result<
    String,
    RgbLibError,
>)
    ensures
        match r {
            Ok(utxo) => funding_of(ldk_data_dir@, file@, contract_id@) == Ok::<
                Seq<char>,
                Failure,
            >(utxo@),
            Err(e) => funding_of(ldk_data_dir@, file@, contract_id@) == Err::<
                Seq<char>,
                Failure,
            >(failure(e)),
        },
{
    if let Err(e) = state_file_path(ldk_data_dir) {
        return Err(e);
    }
    let state: serde_json::Value = match read_document(file) {
        Ok(state) => state,
        Err(e) => {
            return Err(e);
        },
    };
    let data: &serde_json::Value = match find_genesis(&state, contract_id) {
        Ok(data) => data,
        Err(e) => {
            return Err(e);
        },
    };
    let txid: Option<String> = match member(data, "txid") {
        Some(txid) => text_in(txid),
        None => None,
    };
    let vout: Option<u64> = match member(data, "vout") {
        Some(vout) => number_in(vout),
        None => None,
    };
    match txid {
        None => Err(other_with("TXID not found for contract ", contract_id)),
        Some(txid) => match vout {
            None => Err(other_with("Vout not found for contract ", contract_id)),
            Some(vout) => Ok(join_three(txid.as_str(), ":", decimal(vout).as_str())),
        },
    }
}

/// The counterparty of a contract's channel, as the state holds it.
pub open spec fn counterparty_in(state: Json, contract_id: Seq<char>) -> Option<Seq<char>> {
    match state.get_two("channel_counterparties"@, contract_id) {
        Some(key) => key.as_text(),
        None => None,
    }
}

/// The counterparty of a contract's channel, as the state file holds it; none, where there is
/// no file.
pub open spec fn counterparty_of(file: FileView, contract_id: Seq<char>) -> Result<
    Option<Seq<char>>,
    Failure,
> {
    if file is Missing {
        Ok(None)
    } else {
        match document(file) {
            Err(e) => Err(e),
            Ok(state) => Ok(counterparty_in(state, contract_id)),
        }
    }
}

/// The counterparty of a contract's channel, as the state file holds it.
pub fn read_counterparty(file: &FileRead, contract_id: &str) -> (r: Result<
    Option<String>,
    RgbLibError,
>)
    ensures
        match r {
            Ok(Some(key)) => counterparty_of(file@, contract_id@) == Ok::<
                Option<Seq<char>>,
                Failure,
            >(Some(key@)),
            Ok(None) => counterparty_of(file@, contract_id@) == Ok::<
                Option<Seq<char>>,
                Failure,
            >(None),
            Err(e) => counterparty_of(file@, contract_id@) == Err::<
                Option<Seq<char>>,
                Failure,
            >(failure(e)),
        },
{
    if let FileRead::Missing(_) = file {
        return Ok(None);
    }
    let state: serde_json::Value = match read_document(file) {
        Ok(state) => state,
        Err(e) => {
            return Err(e);
        },
    };
    match member(&state, "channel_counterparties") {
        Some(all) => match member(all, contract_id) {
            Some(key) => Ok(text_in(key)),
            None => Ok(None),
        },
        None => Ok(None),
    }
}

/// The document with an empty object under `key`, where it had nothing there.
pub open spec fn with_object(state: Json, key: Seq<char>) -> Json {
    if state.get(key) is None {
        state.with(key, Json::Object(Map::empty()))
    } else {
        state
    }
}

/// The document with `item` for the contract in the object under `key`.
pub open spec fn with_entry(state: Json, key: Seq<char>, contract_id: Seq<char>, item: Json) -> Json {
    state.with(key, state.get_or_null(key).with(contract_id, item))
}

/// Puts an empty object under `key`, where there is nothing.
fn ensure_object(state: &mut serde_json::Value, key: &str)
    requires
        content(*old(state)).get(key@) is None ==> content(*old(state)).settable(),
    ensures
        content(*final(state)) == with_object(content(*old(state)), key@),
{
    if member(state, key).is_none() {
        put(state, key, json_object());
    }
}

/// Whether members of the object under `key` can be set.
pub open spec fn open_under(state: Json, key: Seq<char>) -> bool {
    state.settable() && state.get_or_null(key).settable()
}

/// Whether a counterparty can be noted in the state.
pub open spec fn can_note(state: Json) -> bool {
    open_under(state, "channel_counterparties"@)
}

/// The state with the counterparty of a contract's channel.
pub open spec fn with_counterparty(state: Json, contract_id: Seq<char>, key: Seq<char>) -> Json {
    with_entry(
        with_object(state, "channel_counterparties"@),
        "channel_counterparties"@,
        contract_id,
        Json::Text(key),
    )
}

/// Notes the counterparty of a contract's channel; `false` where the state has no place for it.
fn note_counterparty(state: &mut serde_json::Value, contract_id: &str, key: &str) -> (r: bool)
    ensures
        r == can_note(content(*old(state))),
        r ==> content(*final(state)) == with_counterparty(
            content(*old(state)),
            contract_id@,
            key@,
        ),
{
    if !can_set(state) {
        return false;
    }
    ensure_object(state, "channel_counterparties");
    if !can_set_below(state, "channel_counterparties") {
        return false;
    }
    put_below(state, "channel_counterparties", contract_id, json_text(key));
    true
}

/// The state that a file holds, for a writer: `fresh` where the file holds no document.
pub open spec fn state_or(file: FileView, fresh: Json) -> Result<Json, Failure> {
    match file {
        FileView::Missing(_) => Ok(fresh),
        FileView::Unreadable(e) => Err(Failure::Other("Failed to read state: "@ + e)),
        FileView::Text(text) => match json_of_text(text) {
            Ok(state) => Ok(state),
            Err(_) => Ok(fresh),
        },
    }
}

/// The state that a file holds, for a writer.
fn read_state_or(file: &FileRead, fresh: serde_json::Value) -> (r: Result<
    serde_json::Value,
    RgbLibError,
>)
    requires
        content(fresh).fits(depth_limit(), false),
    ensures
        match r {
            Ok(state) => state_or(file@, content(fresh)) == Ok::<Json, Failure>(content(state))
                && content(state).fits(depth_limit(), false),
            Err(e) => state_or(file@, content(fresh)) == Err::<Json, Failure>(failure(e)),
        },
{
    match file {
        FileRead::Missing(_) => Ok(fresh),
        FileRead::Unreadable(e) => Err(other_with("Failed to read state: ", e.as_str())),
        FileRead::Text(text) => match parse_json(text.as_str()) {
            Ok(state) => Ok(state),
            Err(_) => Ok(fresh),
        },
    }
}

/// What becomes of a state file.
pub enum StateWrite {
    /// The file is to hold this text.
    Write(String),
    /// The state has no place for what was to be noted.
    NoPlace,
    /// The file could not be read or the entry is not valid.
    Fail(RgbLibError),
}

/// What becomes of a state file.
pub enum StateWriteView {
    /// The file is to hold this document.
    Write(Json),
    NoPlace,
    Fail(Failure),
}

/// Whether a text is that of a document: it is read as the document, but for the values of
/// numbers that are not whole.
pub open spec fn holds(text: Seq<char>, state: Json) -> bool {
    text == json_pretty(state) && reads_like(text, state)
}

/// Whether `write` is what `expected` says.
pub open spec fn writes(write: StateWrite, expected: StateWriteView) -> bool {
    match (write, expected) {
        (StateWrite::Write(text), StateWriteView::Write(state)) => holds(text@, state),
        (StateWrite::NoPlace, StateWriteView::NoPlace) => true,
        (StateWrite::Fail(e), StateWriteView::Fail(expected)) => failure(e) == expected,
        _ => false,
    }
}

/// What becomes of the state file when a counterparty is noted. Where there is no file, one is
/// made that knows the counterparty alone.
pub open spec fn noting(file: FileView, contract_id: Seq<char>, key: Seq<char>) -> StateWriteView {
    match state_or(file, Json::Object(Map::empty())) {
        Err(e) => StateWriteView::Fail(e),
        Ok(state) => if can_note(state) {
            StateWriteView::Write(with_counterparty(state, contract_id, key))
        } else {
            StateWriteView::NoPlace
        },
    }
}

/// Notes the counterparty of a contract's channel in the state file.
pub fn cache_counterparty(file: &FileRead, contract_id: &str, key: &str) -> (r: StateWrite)
    ensures
        writes(r, noting(file@, contract_id@, key@)),
{
    let mut state: serde_json::Value = match read_state_or(file, json_object()) {
        Ok(state) => state,
        Err(e) => {
            return StateWrite::Fail(e);
        },
    };
    let ghost before = content(state);
    if note_counterparty(&mut state, contract_id, key) {
        proof {
            lemma_noted_fits(before, contract_id@, key@, false);
        }
        StateWrite::Write(pretty_text(&state))
    } else {
        StateWrite::NoPlace
    }
}

/// What a channel's initiator says of the asset.
#[derive(Debug, Clone)]
pub struct ChannelInfo {
    pub contract_id: String,
    pub genesis_state_hash: String,
    pub asset_amount: u64,
    pub schema: String,
    pub ticker: String,
    pub name: String,
    pub precision: u8,
    pub supply: u64,
    pub registry_uri: String,
    pub rholang_source: String,
    pub methods: Vec<String>,
    pub wallet_pubkey: String,
}

/// The state of a wallet that knows no contract.
pub open spec fn fresh_state() -> Json {
    let empty = Json::Object(Map::empty());
    Json::Object(
        map![
            "genesis_utxos"@ => empty,
            "contracts_metadata"@ => empty,
            "contract_derivation_indices"@ => empty,
            "derivation_index"@ => Json::Int(0),
        ],
    )
}

/// The state of a wallet that knows no contract.
fn new_state() -> (r: serde_json::Value)
    ensures
        content(r) == fresh_state(),
        content(r).fits(depth_limit(), false),
{
    let mut state: serde_json::Value = json_object();
    put(&mut state, "genesis_utxos", json_object());
    put(&mut state, "contracts_metadata", json_object());
    put(&mut state, "contract_derivation_indices", json_object());
    put(&mut state, "derivation_index", json_number(0));
    assert(content(state).fields() =~= fresh_state().fields());
    proof {
        lemma_fresh_fits(false);
    }
    state
}

/// What is noted of the genesis of a contract that was received.
pub open spec fn genesis_entry(info: ChannelInfo, hash: Seq<u8>) -> Json {
    Json::Object(
        map![
            "contract_id"@ => Json::Text(info.contract_id@),
            "txid"@ => Json::Text("unknown"@),
            "vout"@ => Json::Int(0),
            "ticker"@ => Json::Text(info.ticker@),
            "name"@ => Json::Text(info.name@),
            "supply"@ => Json::Int(info.supply as int),
            "precision"@ => Json::Int(info.precision as int),
            "genesis_execution_result"@ => Json::Null,
            "state_hash"@ => byte_list(hash),
        ],
    )
}

/// What is noted of the genesis of a contract that was received.
fn new_genesis_entry(info: &ChannelInfo, hash: &[u8]) -> (r: serde_json::Value)
    ensures
        content(r) == genesis_entry(*info, hash@),
{
    let mut entry: serde_json::Value = json_object();
    put(&mut entry, "contract_id", json_text(info.contract_id.as_str()));
    put(&mut entry, "txid", json_text("unknown"));
    put(&mut entry, "vout", json_number(0));
    put(&mut entry, "ticker", json_text(info.ticker.as_str()));
    put(&mut entry, "name", json_text(info.name.as_str()));
    put(&mut entry, "supply", json_number(info.supply));
    put(&mut entry, "precision", json_number(info.precision as u64));
    put(&mut entry, "genesis_execution_result", json_null());
    put(&mut entry, "state_hash", json_bytes(hash));
    assert(content(entry).fields() =~= genesis_entry(*info, hash@).fields());
    entry
}

/// What is noted of the code of a contract that was received.
pub open spec fn metadata_entry(info: ChannelInfo) -> Json {
    Json::Object(
        map![
            "registry_uri"@ => Json::Text(info.registry_uri@),
            "methods"@ => text_list(texts(info.methods@)),
            "rholang_source"@ => Json::Text(info.rholang_source@),
        ],
    )
}

/// What is noted of the code of a contract that was received.
fn new_metadata_entry(info: &ChannelInfo) -> (r: serde_json::Value)
    ensures
        content(r) == metadata_entry(*info),
{
    let mut entry: serde_json::Value = json_object();
    put(&mut entry, "registry_uri", json_text(info.registry_uri.as_str()));
    put(&mut entry, "methods", json_texts(&info.methods));
    put(&mut entry, "rholang_source", json_text(info.rholang_source.as_str()));
    assert(content(entry).fields() =~= metadata_entry(*info).fields());
    entry
}

/// The state with places for contracts.
pub open spec fn prepared(state: Json) -> Json {
    with_object(with_object(state, "genesis_utxos"@), "contracts_metadata"@)
}

/// The state with a contract that was received.
pub open spec fn registered(state: Json, info: ChannelInfo, hash: Seq<u8>) -> Json {
    let id = info.contract_id@;
    let with_genesis = with_entry(
        prepared(state),
        "genesis_utxos"@,
        id,
        genesis_entry(info, hash),
    );
    let with_metadata = with_entry(
        with_genesis,
        "contracts_metadata"@,
        id,
        metadata_entry(info),
    );
    with_counterparty(with_metadata, id, info.wallet_pubkey@)
}

/// Whether the state has a place for a contract: what stands in each of the three places is an
/// object, null or nothing.
pub open spec fn can_register(state: Json) -> bool {
    &&& state.settable()
    &&& state.get_or_null("genesis_utxos"@).settable()
    &&& state.get_or_null("contracts_metadata"@).settable()
    &&& state.get_or_null("channel_counterparties"@).settable()
}

/// The state hash that an initiator gives.
pub open spec fn given_hash(text: Seq<char>) -> Result<Seq<u8>, Failure> {
    match hex_bytes(text) {
        None => Err(Failure::Other("Invalid hex state hash: "@ + hex_error(text))),
        Some(bytes) => if bytes.len() != 32 {
            Err(Failure::Other("State hash must be 32 bytes, got "@ + digits(bytes.len())))
        } else {
            Ok(bytes)
        },
    }
}

/// The state hash that an initiator gives.
fn read_given_hash(text: &str) -> (r: Result<Vec<u8>, RgbLibError>)
    ensures
        match r {
            Ok(bytes) => given_hash(text@) == Ok::<Seq<u8>, Failure>(bytes@),
            Err(e) => given_hash(text@) == Err::<Seq<u8>, Failure>(failure(e)),
        },
{
    match hex_decode(text) {
        Err(e) => Err(other_with("Invalid hex state hash: ", e.as_str())),
        Ok(bytes) => if bytes.len() != 32 {
            Err(
                other_with(
                    "State hash must be 32 bytes, got ",
                    decimal(bytes.len() as u64).as_str(),
                ),
            )
        } else {
            Ok(bytes)
        },
    }
}

/// What becomes of the state file when a contract is registered.
pub open spec fn registering(file: FileView, info: ChannelInfo) -> StateWriteView {
    match state_or(file, fresh_state()) {
        Err(e) => StateWriteView::Fail(e),
        Ok(state) => if !state.settable() {
            StateWriteView::NoPlace
        } else {
            match given_hash(info.genesis_state_hash@) {
                Err(e) => StateWriteView::Fail(e),
                Ok(hash) => if can_register(state) {
                    StateWriteView::Write(registered(state, info, hash))
                } else {
                    StateWriteView::NoPlace
                },
            }
        },
    }
}

/// Registers a contract that was received in the state file.
pub fn write_acceptor_state_file(file: &FileRead, info: &ChannelInfo) -> (r: StateWrite)
    ensures
        writes(r, registering(file@, *info)),
{
    let mut state: serde_json::Value = match read_state_or(file, new_state()) {
        Ok(state) => state,
        Err(e) => {
            return StateWrite::Fail(e);
        },
    };
    if !can_set(&state) {
        return StateWrite::NoPlace;
    }
    let ghost before = content(state);
    proof {
        lemma_keys_differ();
    }
    ensure_object(&mut state, "genesis_utxos");
    ensure_object(&mut state, "contracts_metadata");
    let hash: Vec<u8> = match read_given_hash(info.genesis_state_hash.as_str()) {
        Ok(hash) => hash,
        Err(e) => {
            return StateWrite::Fail(e);
        },
    };
    let id: &str = info.contract_id.as_str();
    if !can_set_below(&state, "genesis_utxos") {
        return StateWrite::NoPlace;
    }
    put_below(&mut state, "genesis_utxos", id, new_genesis_entry(info, hash.as_slice()));
    if !can_set_below(&state, "contracts_metadata") {
        return StateWrite::NoPlace;
    }
    put_below(&mut state, "contracts_metadata", id, new_metadata_entry(info));
    if !note_counterparty(&mut state, id, info.wallet_pubkey.as_str()) {
        return StateWrite::NoPlace;
    }
    proof {
        law_stays_shallow(before, *info, hash@, Seq::empty(), false);
    }
    StateWrite::Write(pretty_text(&state))
}

/// The places of the state differ.
proof fn lemma_keys_differ()
    ensures
        "genesis_utxos"@ != "contracts_metadata"@,
        "genesis_utxos"@ != "channel_counterparties"@,
        "contracts_metadata"@ != "channel_counterparties"@,
{
    reveal_strlit("genesis_utxos");
    reveal_strlit("contracts_metadata");
    reveal_strlit("channel_counterparties");
    assert("genesis_utxos"@[0] != "contracts_metadata"@[0]);
    assert("genesis_utxos"@[0] != "channel_counterparties"@[0]);
    assert("contracts_metadata"@[1] != "channel_counterparties"@[1]);
}

/// What is noted of a genesis is read back from the entry.
proof fn lemma_genesis_entry(info: ChannelInfo, hash: Seq<u8>)
    requires
        hash.len() == 32,
    ensures
        hash_items(genesis_entry(info, hash)) == Some(byte_list(hash)->List_0),
        hash_bytes(byte_list(hash)->List_0) == Ok::<Seq<u8>, Failure>(hash),
        genesis_entry(info, hash).get("txid"@) == Some(Json::Text("unknown"@)),
        genesis_entry(info, hash).get("vout"@) == Some(Json::Int(0)),
{
    reveal_strlit("contract_id");
    reveal_strlit("txid");
    reveal_strlit("vout");
    reveal_strlit("ticker");
    reveal_strlit("name");
    reveal_strlit("supply");
    reveal_strlit("precision");
    reveal_strlit("genesis_execution_result");
    reveal_strlit("state_hash");
    assert("txid"@[0] == 't' && "vout"@[0] == 'v' && "name"@[0] == 'n');
    assert("txid"@[1] == 'x' && "ticker"@[1] == 'i');
    let items = byte_list(hash)->List_0;
    lemma_no_bad_item(items, 0);
    assert(hash_bytes(items)->Ok_0 =~= hash);
}

/// Where every item from `at` on is a number, none is found that is not.
proof fn lemma_no_bad_item(items: Seq<Json>, at: int)
    requires
        0 <= at,
        forall|i: int| at <= i < items.len() ==> (#[trigger] items[i]).as_number() is Some,
    ensures
        bad_item_from(items, at) is None,
    decreases items.len() - at,
{
    if at < items.len() {
        lemma_no_bad_item(items, at + 1);
    }
}

/// A contract that was registered is read back: its state hash, its counterparty, its code, and
/// as funding output the one that stands for an unknown one. What is noted of any other
/// contract, and under any other key, stays.
pub proof fn law_registered(
    state: Json,
    info: ChannelInfo,
    hash: Seq<u8>,
    other: Seq<char>,
    key: Seq<char>,
)
    requires
        can_register(state),
        hash.len() == 32,
        other != info.contract_id@,
        key != "genesis_utxos"@,
        key != "contracts_metadata"@,
        key != "channel_counterparties"@,
    ensures
        ({
            let id = info.contract_id@;
            let after = registered(state, info, hash);
            &&& state_hash_in(after, id) == Ok::<Seq<u8>, Failure>(hash)
            &&& funding_in(after, id) == Ok::<Seq<char>, Failure>("unknown:0"@)
            &&& counterparty_in(after, id) == Some(info.wallet_pubkey@)
            &&& after.get_two("contracts_metadata"@, id) == Some(metadata_entry(info))
            &&& state_hash_in(after, other) == state_hash_in(state, other)
            &&& funding_in(after, other) == funding_in(state, other)
            &&& counterparty_in(after, other) == counterparty_in(state, other)
            &&& after.get_two("contracts_metadata"@, other) == state.get_two(
                "contracts_metadata"@,
                other,
            )
            &&& after.get(key) == state.get(key)
            &&& can_register(after)
        }),
{
    lemma_keys_differ();
    lemma_genesis_entry(info, hash);
    let id = info.contract_id@;
    let after = registered(state, info, hash);
    assert(after.get_two("genesis_utxos"@, id) == Some(genesis_entry(info, hash)));
    assert(after.get_two("genesis_utxos"@, other) == state.get_two("genesis_utxos"@, other));
    reveal_strlit("unknown");
    reveal_strlit("unknown:0");
    reveal_strlit(":");
    assert(digits(0) == seq!['0']);
    assert("unknown"@ + ":"@ + digits(0) =~= "unknown:0"@);
}

/// A counterparty that was noted is read back. That of any other contract stays, and so does what
/// stands under any other key.
pub proof fn law_counterparty_noted(
    state: Json,
    contract_id: Seq<char>,
    key: Seq<char>,
    other: Seq<char>,
    place: Seq<char>,
)
    requires
        can_note(state),
        other != contract_id,
        place != "channel_counterparties"@,
    ensures
        with_counterparty(state, contract_id, key).get(place) == state.get(place),
        counterparty_in(with_counterparty(state, contract_id, key), contract_id) == Some(key),
        counterparty_in(with_counterparty(state, contract_id, key), other) == counterparty_in(
            state,
            other,
        ),
        state_hash_in(with_counterparty(state, contract_id, key), other) == state_hash_in(
            state,
            other,
        ),
        state_hash_in(with_counterparty(state, contract_id, key), contract_id) == state_hash_in(
            state,
            contract_id,
        ),
{
    lemma_keys_differ();
}

/// Registering a contract twice is registering it once.
pub proof fn law_registered_twice(state: Json, info: ChannelInfo, hash: Seq<u8>)
    requires
        can_register(state),
    ensures
        registered(registered(state, info, hash), info, hash) == registered(state, info, hash),
{
    lemma_keys_differ();
    let id = info.contract_id@;
    let once = registered(state, info, hash);
    let twice = registered(once, info, hash);
    assert(once.get("genesis_utxos"@)->0.fields().insert(id, genesis_entry(info, hash))
        =~= once.get("genesis_utxos"@)->0.fields());
    assert(once.get("contracts_metadata"@)->0.fields().insert(id, metadata_entry(info))
        =~= once.get("contracts_metadata"@)->0.fields());
    assert(once.get("channel_counterparties"@)->0.fields().insert(
        id,
        Json::Text(info.wallet_pubkey@),
    ) =~= once.get("channel_counterparties"@)->0.fields());
    assert(twice.fields() =~= once.fields());
}

/// A value that fits also fits where deeper nesting is admitted.
proof fn lemma_fits_deeper(value: Json, depth: nat, deeper: nat, whole: bool)
    requires
        value.fits(depth, whole),
        depth <= deeper,
    ensures
        value.fits(deeper, whole),
    decreases depth,
{
    match value {
        Json::List(items) => {
            assert forall|i: int| 0 <= i < items.len() implies (#[trigger] items[i]).fits(
                (deeper - 1) as nat,
                whole,
            ) by {
                lemma_fits_deeper(items[i], (depth - 1) as nat, (deeper - 1) as nat, whole);
            }
        },
        Json::Object(fields) => {
            assert forall|key: Seq<char>| #[trigger] fields.contains_key(key) implies fields[key].fits(
                (deeper - 1) as nat,
                whole,
            ) by {
                lemma_fits_deeper(fields[key], (depth - 1) as nat, (deeper - 1) as nat, whole);
            }
        },
        _ => {},
    }
}

/// A state still fits when an entry is set.
proof fn lemma_entry_fits(
    state: Json,
    key: Seq<char>,
    contract_id: Seq<char>,
    item: Json,
    depth: nat,
    whole: bool,
)
    requires
        state.fits(depth, whole),
        depth >= 2,
        item.fits((depth - 2) as nat, whole),
    ensures
        with_entry(with_object(state, key), key, contract_id, item).fits(depth, whole),
        with_entry(state, key, contract_id, item).fits(depth, whole),
        with_object(state, key).fits(depth, whole),
{
    let empty = Json::Object(Map::empty());
    assert(empty.fits((depth - 1) as nat, whole));
    assert(Json::Null.fits((depth - 1) as nat, whole));
    let prepared = with_object(state, key);
    assert(prepared.fits(depth, whole));
    let below = prepared.get_or_null(key);
    assert(below.fits((depth - 1) as nat, whole));
    assert(below.with(contract_id, item).fits((depth - 1) as nat, whole));
    let direct = state.get_or_null(key);
    assert(direct.fits((depth - 1) as nat, whole));
    assert(direct.with(contract_id, item).fits((depth - 1) as nat, whole));
}

/// The entries of a contract are shallow, and their numbers are whole.
proof fn lemma_entries_fit(info: ChannelInfo, hash: Seq<u8>, whole: bool)
    ensures
        genesis_entry(info, hash).fits(2, whole),
        metadata_entry(info).fits(2, whole),
{
    let bytes = byte_list(hash);
    assert forall|i: int| 0 <= i < bytes->List_0.len() implies (#[trigger] bytes->List_0[i]).fits(
        0,
        whole,
    ) by {}
    assert(bytes.fits(1, whole));
    let methods = text_list(texts(info.methods@));
    assert forall|i: int| 0 <= i < methods->List_0.len() implies (
    #[trigger] methods->List_0[i]).fits(0, whole) by {}
    assert(methods.fits(1, whole));
    assert forall|key: Seq<char>| #[trigger]
        genesis_entry(info, hash).fields().contains_key(key) implies genesis_entry(
        info,
        hash,
    ).fields()[key].fits(1, whole) by {}
    assert forall|key: Seq<char>| #[trigger] metadata_entry(info).fields().contains_key(
        key,
    ) implies metadata_entry(info).fields()[key].fits(1, whole) by {}
}

/// The state of a wallet that knows no contract is shallow, and its numbers are whole.
proof fn lemma_fresh_fits(whole: bool)
    ensures
        fresh_state().fits(depth_limit(), whole),
{
    assert(Json::Object(Map::empty()).fits(126, whole));
    assert forall|k: Seq<char>| #[trigger] fresh_state().fields().contains_key(
        k,
    ) implies fresh_state().fields()[k].fits(126, whole) by {}
}

/// A state still fits when a counterparty is noted.
proof fn lemma_noted_fits(state: Json, contract_id: Seq<char>, key: Seq<char>, whole: bool)
    requires
        state.fits(depth_limit(), whole),
    ensures
        with_counterparty(state, contract_id, key).fits(depth_limit(), whole),
{
    assert(Json::Text(key).fits(125, whole));
    lemma_entry_fits(state, "channel_counterparties"@, contract_id, Json::Text(key), 127, whole);
}

/// Registering a contract and noting a counterparty bring no deeper nesting than a reader admits,
/// and no number that is not whole.
pub proof fn law_stays_shallow(
    state: Json,
    info: ChannelInfo,
    hash: Seq<u8>,
    key: Seq<char>,
    whole: bool,
)
    requires
        state.fits(depth_limit(), whole),
    ensures
        registered(state, info, hash).fits(depth_limit(), whole),
        with_counterparty(state, info.contract_id@, key).fits(depth_limit(), whole),
        fresh_state().fits(depth_limit(), whole),
{
    let id = info.contract_id@;
    lemma_entries_fit(info, hash, whole);
    lemma_fits_deeper(genesis_entry(info, hash), 2, 125, whole);
    lemma_fits_deeper(metadata_entry(info), 2, 125, whole);
    lemma_entry_fits(state, "genesis_utxos"@, id, genesis_entry(info, hash), 127, whole);
    let one = with_object(state, "genesis_utxos"@);
    lemma_entry_fits(one, "contracts_metadata"@, id, metadata_entry(info), 127, whole);
    lemma_entry_fits(prepared(state), "genesis_utxos"@, id, genesis_entry(info, hash), 127, whole);
    let two = with_entry(prepared(state), "genesis_utxos"@, id, genesis_entry(info, hash));
    lemma_entry_fits(two, "contracts_metadata"@, id, metadata_entry(info), 127, whole);
    let three = with_entry(two, "contracts_metadata"@, id, metadata_entry(info));
    lemma_noted_fits(three, id, info.wallet_pubkey@, whole);
    lemma_noted_fits(state, id, key, whole);
    lemma_fresh_fits(whole);
}

/// Where items agree, the first that is no number stands at the same position.
proof fn lemma_same_bad_item(items: Seq<Json>, others: Seq<Json>, depth: nat, at: int)
    requires
        0 <= at,
        items.len() == others.len(),
        forall|i: int| 0 <= i < items.len() ==> (#[trigger] items[i]).agrees(others[i], depth),
    ensures
        bad_item_from(items, at) == bad_item_from(others, at),
    decreases items.len() - at,
{
    if at < items.len() {
        assert(items[at].agrees(others[at], depth));
        lemma_same_bad_item(items, others, depth, at + 1);
    }
}

/// The bytes of a state hash are the same, where its items agree.
proof fn lemma_same_hash_bytes(items: Seq<Json>, others: Seq<Json>, depth: nat)
    requires
        items.len() == others.len(),
        forall|i: int| 0 <= i < items.len() ==> (#[trigger] items[i]).agrees(others[i], depth),
    ensures
        hash_bytes(items) == hash_bytes(others),
{
    lemma_same_bad_item(items, others, depth, 0);
    if items.len() == 32 && bad_item_from(items, 0) is None {
        assert forall|i: int| 0 <= i < 32 implies items[i].as_number() == others[i].as_number() by {
            assert(items[i].agrees(others[i], depth));
        }
        assert(hash_bytes(items)->Ok_0 =~= hash_bytes(others)->Ok_0);
    }
}

/// What is read of a contract is the same in two documents that differ at most in the values of
/// numbers that are not whole, and so is what stands under any key, but for such numbers.
pub proof fn law_same_readings(
    found: Json,
    state: Json,
    depth: nat,
    contract_id: Seq<char>,
    key: Seq<char>,
)
    requires
        found.agrees(state, depth),
    ensures
        state_hash_in(found, contract_id) == state_hash_in(state, contract_id),
        funding_in(found, contract_id) == funding_in(state, contract_id),
        counterparty_in(found, contract_id) == counterparty_in(state, contract_id),
        match (found.get(key), state.get(key)) {
            (Some(item), Some(other)) => depth > 0 && item.agrees(other, (depth - 1) as nat),
            (None, None) => true,
            _ => false,
        },
{
    lemma_member_agrees(found, state, depth, key);
    lemma_two_agree(found, state, depth, "channel_counterparties"@, contract_id);
    lemma_two_agree(found, state, depth, "genesis_utxos"@, contract_id);
    if let (Some(data), Some(other)) = (
        found.get_two("genesis_utxos"@, contract_id),
        state.get_two("genesis_utxos"@, contract_id),
    ) {
        let below = (depth - 2) as nat;
        lemma_member_agrees(data, other, below, "txid"@);
        lemma_member_agrees(data, other, below, "vout"@);
        lemma_member_agrees(data, other, below, "state_hash"@);
        lemma_two_agree(data, other, below, "genesis_execution_result"@, "state_hash"@);
        let one = hash_items(data);
        let two = hash_items(other);
        if one is Some && two is Some {
            let beside = data.get("state_hash"@) matches Some(hash) && hash is List;
            let lists = if beside {
                (below - 2) as nat
            } else {
                (below - 3) as nat
            };
            lemma_same_hash_bytes(one->0, two->0, lists);
        }
    }
}

/// The members of documents that agree, agree.
proof fn lemma_member_agrees(found: Json, state: Json, depth: nat, key: Seq<char>)
    requires
        found.agrees(state, depth),
    ensures
        match (found.get(key), state.get(key)) {
            (Some(item), Some(other)) => depth > 0 && item.agrees(other, (depth - 1) as nat),
            (None, None) => true,
            _ => false,
        },
{
    if let (Json::Object(fields), Json::Object(others)) = (found, state) {
        assert(fields.contains_key(key) == fields.dom().contains(key));
        assert(others.contains_key(key) == others.dom().contains(key));
    }
}

/// The members of members of documents that agree, agree.
proof fn lemma_two_agree(found: Json, state: Json, depth: nat, key: Seq<char>, second: Seq<char>)
    requires
        found.agrees(state, depth),
    ensures
        match (found.get_two(key, second), state.get_two(key, second)) {
            (Some(item), Some(other)) => depth > 1 && item.agrees(other, (depth - 2) as nat),
            (None, None) => true,
            _ => false,
        },
{
    lemma_member_agrees(found, state, depth, key);
    if let (Some(inner), Some(other)) = (found.get(key), state.get(key)) {
        lemma_member_agrees(inner, other, (depth - 1) as nat, second);
    }
}

/// The state file that is written when a contract is registered gives back, when it is read,
/// the state hash, the counterparty and the unknown funding output of the contract. Of any other
/// contract that the file had it gives what the file gave. What stands under another key stays,
/// but for the values of numbers that are not whole.
pub proof fn law_registered_file(
    ldk_data_dir: PathView,
    file: FileView,
    info: ChannelInfo,
    other: Seq<char>,
    key: Seq<char>,
    written: StateWrite,
)
    requires
        state_path(ldk_data_dir) is Some,
        writes(written, registering(file, info)),
        registering(file, info) is Write,
        other != info.contract_id@,
        key != "genesis_utxos"@,
        key != "contracts_metadata"@,
        key != "channel_counterparties"@,
    ensures
        written matches StateWrite::Write(text) && {
            let id = info.contract_id@;
            let now = FileView::Text(text@);
            &&& given_hash(info.genesis_state_hash@) matches Ok(hash)
            &&& state_hash_of(ldk_data_dir, now, id) == Ok::<Seq<u8>, Failure>(hash)
            &&& counterparty_of(now, id) == Ok::<Option<Seq<char>>, Failure>(
                Some(info.wallet_pubkey@),
            )
            &&& funding_of(ldk_data_dir, now, id) == Ok::<Seq<char>, Failure>("unknown:0"@)
            &&& file is Text && json_of_text(file->Text_0) is Ok ==> {
                &&& state_hash_of(ldk_data_dir, now, other) == state_hash_of(
                    ldk_data_dir,
                    file,
                    other,
                )
                &&& funding_of(ldk_data_dir, now, other) == funding_of(ldk_data_dir, file, other)
                &&& counterparty_of(now, other) == counterparty_of(file, other)
                &&& stays_under(text@, json_of_text(file->Text_0)->Ok_0, key)
            }
        },
{
    let state = state_or(file, fresh_state())->Ok_0;
    let hash = given_hash(info.genesis_state_hash@)->Ok_0;
    law_registered(state, info, hash, other, key);
    if let StateWrite::Write(text) = written {
        let found = json_of_text(text@)->Ok_0;
        let after = registered(state, info, hash);
        law_same_readings(found, after, depth_limit(), info.contract_id@, key);
        law_same_readings(found, after, depth_limit(), other, key);
    }
}

/// Whether a text is read as a document that has under `key` what `state` has there, but for the
/// values of numbers that are not whole.
pub open spec fn stays_under(text: Seq<char>, state: Json, key: Seq<char>) -> bool {
    json_of_text(text) matches Ok(found) && match (found.get(key), state.get(key)) {
        (Some(item), Some(before)) => item.agrees(before, (depth_limit() - 1) as nat),
        (None, None) => true,
        _ => false,
    }
}

/// The state file that is written when a counterparty is noted gives the counterparty back when
/// it is read, also where there was no file. The counterparty of any other contract that the file
/// had stays, and so does what stands under another key, but for the values of numbers that are
/// not whole.
pub proof fn law_noted_file(
    file: FileView,
    contract_id: Seq<char>,
    key: Seq<char>,
    other: Seq<char>,
    place: Seq<char>,
    written: StateWrite,
)
    requires
        writes(written, noting(file, contract_id, key)),
        noting(file, contract_id, key) is Write,
        other != contract_id,
        place != "channel_counterparties"@,
    ensures
        written matches StateWrite::Write(text) && {
            let now = FileView::Text(text@);
            &&& counterparty_of(now, contract_id) == Ok::<Option<Seq<char>>, Failure>(Some(key))
            &&& file is Missing ==> counterparty_of(now, other) == Ok::<
                Option<Seq<char>>,
                Failure,
            >(None)
            &&& file is Text && json_of_text(file->Text_0) is Ok ==> {
                &&& counterparty_of(now, other) == counterparty_of(file, other)
                &&& stays_under(text@, json_of_text(file->Text_0)->Ok_0, place)
            }
        },
{
    let state = state_or(file, Json::Object(Map::empty()))->Ok_0;
    law_counterparty_noted(state, contract_id, key, other, place);
    if let StateWrite::Write(text) = written {
        let found = json_of_text(text@)->Ok_0;
        let after = with_counterparty(state, contract_id, key);
        law_same_readings(found, after, depth_limit(), contract_id, place);
        law_same_readings(found, after, depth_limit(), other, place);
    }
}

/// The wallet keeps its state in a file of its own directory, which stands beside that of the node.
/// A directory that has none above it has no such file.
pub proof fn law_state_file(ldk_data_dir: PathView)
    ensures
        wallet_dir(ldk_data_dir) is Some <==> ldk_data_dir.parent() is Some,
        state_path(ldk_data_dir) is Some <==> ldk_data_dir.parent() is Some,
        ldk_data_dir.parent() matches Some(above) ==> {
            &&& wallet_dir(ldk_data_dir) matches Some(dir)
            &&& state_path(ldk_data_dir) matches Some(path)
            &&& dir.file_name() == Some("rgb-lightning-wallet"@)
            &&& dir.parent() == Some(above)
            &&& path.file_name() == Some("f1r3fly_state.json"@)
            &&& path.parent() == Some(dir.trimmed())
        },
{
    reveal_strlit("rgb-lightning-wallet");
    reveal_strlit("f1r3fly_state.json");
    reveal_strlit(".");
    reveal_strlit("..");
    assert("rgb-lightning-wallet"@.len() == 20 && "f1r3fly_state.json"@.len() == 18);
    assert("."@.len() == 1 && ".."@.len() == 2);
    assert(is_part("rgb-lightning-wallet"@));
    assert(is_part("f1r3fly_state.json"@));
    if let Some(above) = ldk_data_dir.parent() {
        law_trimmed(ldk_data_dir);
        law_file_below(above, "rgb-lightning-wallet"@);
        law_file_below(above.join("rgb-lightning-wallet"@), "f1r3fly_state.json"@);
    }
}

/// The state hash of a contract is read from 32 whole numbers that stand beside its genesis output;
/// where no list stands there, from those in the result of the genesis. Each number gives the byte
/// of its low eight bits, in their order.
pub proof fn law_state_hash_read(
    state: Json,
    contract_id: Seq<char>,
    data: Json,
    items: Seq<Json>,
)
    requires
        state.get_two("genesis_utxos"@, contract_id) == Some(data),
        items.len() == 32,
        forall|i: int|
            0 <= i < 32 ==> (#[trigger] items[i] matches Json::Int(n) && 0 <= n
                <= 0xffff_ffff_ffff_ffff),
        data.get("state_hash"@) == Some(Json::List(items)) || ((data.get("state_hash"@) is None
            || data.get("state_hash"@)->0 !is List) && data.get_two(
            "genesis_execution_result"@,
            "state_hash"@,
        ) == Some(Json::List(items))),
    ensures
        state_hash_in(state, contract_id) matches Ok(hash) && hash.len() == 32 && forall|i: int|
            0 <= i < 32 ==> #[trigger] hash[i] as int == items[i]->Int_0 % 256,
{
    assert forall|i: int| 0 <= i < items.len() implies (#[trigger] items[i]).as_number()
        is Some by {}
    lemma_no_bad_item(items, 0);
    assert forall|i: int| 0 <= i < 32 implies #[trigger] hash_bytes(items)->Ok_0[i] as int
        == items[i]->Int_0 % 256 by {
        assert(items[i].as_number()->0 == items[i]->Int_0);
    }
}

/// The first item that is no number is the one that is found.
proof fn lemma_first_bad_item(items: Seq<Json>, at: int, bad: int)
    requires
        0 <= at <= bad < items.len(),
        forall|i: int| at <= i < bad ==> (#[trigger] items[i]).as_number() is Some,
        items[bad].as_number() is None,
    ensures
        bad_item_from(items, at) == Some(bad),
    decreases bad - at,
{
    if at < bad {
        lemma_first_bad_item(items, at + 1, bad);
    }
}

/// Why there is no state hash: the contract is not known, no list stands in either place, the list
/// does not hold 32 items, or one of them is no whole number that fits, of which the first is named.
pub proof fn law_state_hash_refused(
    state: Json,
    contract_id: Seq<char>,
    items: Seq<Json>,
    bad: int,
)
    ensures
        state.get_two("genesis_utxos"@, contract_id) is None ==> state_hash_in(state, contract_id)
            == Err::<Seq<u8>, Failure>(
            Failure::Other("Contract "@ + contract_id + " not found in state (genesis_utxos)"@),
        ),
        state.get_two("genesis_utxos"@, contract_id) matches Some(data) ==> {
            &&& !(data.get("state_hash"@) matches Some(hash) && hash is List) && !(data.get_two(
                "genesis_execution_result"@,
                "state_hash"@,
            ) matches Some(hash) && hash is List) ==> state_hash_in(state, contract_id) == Err::<
                Seq<u8>,
                Failure,
            >(Failure::Other("Genesis state hash not found for contract "@ + contract_id))
            &&& data.get("state_hash"@) == Some(Json::List(items)) ==> {
                &&& items.len() != 32 ==> state_hash_in(state, contract_id) == Err::<
                    Seq<u8>,
                    Failure,
                >(
                    Failure::Other(
                        "Invalid state hash length: expected 32 bytes, got "@ + digits(items.len()),
                    ),
                )
                &&& items.len() == 32 && 0 <= bad < 32 && (forall|i: int|
                    0 <= i < bad ==> (#[trigger] items[i] matches Json::Int(n) && 0 <= n
                        <= u64::MAX)) && !(items[bad] matches Json::Int(n) && 0 <= n <= u64::MAX)
                    ==> state_hash_in(state, contract_id) == Err::<Seq<u8>, Failure>(
                    Failure::Other("Invalid byte at index "@ + digits(bad as nat)),
                )
            }
        },
{
    if items.len() == 32 && 0 <= bad < 32 && (forall|i: int|
        0 <= i < bad ==> (#[trigger] items[i] matches Json::Int(n) && 0 <= n <= u64::MAX)) && !(
    items[bad] matches Json::Int(n) && 0 <= n <= u64::MAX) {
        assert forall|i: int| 0 <= i < bad implies (#[trigger] items[i]).as_number() is Some by {}
        lemma_first_bad_item(items, 0, bad);
    }
}

/// A document is read from every file that holds one. Else it is said why there is none.
pub proof fn law_document(file: FileView)
    ensures
        match file {
            FileView::Missing(e) => document(file) == Err::<Json, Failure>(
                Failure::Other("Failed to read state file: "@ + e),
            ),
            FileView::Unreadable(e) => document(file) == Err::<Json, Failure>(
                Failure::Other("Failed to read state file: "@ + e),
            ),
            FileView::Text(text) => match json_of_text(text) {
                Ok(state) => document(file) == Ok::<Json, Failure>(state),
                Err(e) => document(file) == Err::<Json, Failure>(
                    Failure::Other("Failed to parse state JSON: "@ + e),
                ),
            },
        },
{
}

/// The state hash and the funding output of a contract are those of the document that the state file
/// holds, for every file that holds one and every node with a directory above its own. A state file
/// that is not there is named where the hash is asked for.
pub proof fn law_state_read(
    ldk_data_dir: PathView,
    file: FileView,
    contract_id: Seq<char>,
    above: PathView,
)
    ensures
        ldk_data_dir.parent() is None ==> {
            &&& state_hash_of(ldk_data_dir, file, contract_id) == Err::<Seq<u8>, Failure>(
                Failure::Other("Cannot get parent directory"@),
            )
            &&& funding_of(ldk_data_dir, file, contract_id) == Err::<Seq<char>, Failure>(
                Failure::Other("Cannot get parent directory"@),
            )
        },
        ldk_data_dir.parent() == Some(above) ==> match file {
            FileView::Missing(e) => state_hash_of(ldk_data_dir, file, contract_id) == Err::<
                Seq<u8>,
                Failure,
            >(
                Failure::Other(
                    "F1r3fly state file not found: "@ + above.join("rgb-lightning-wallet"@).join(
                        "f1r3fly_state.json"@,
                    ).text,
                ),
            ) && funding_of(ldk_data_dir, file, contract_id) == Err::<Seq<char>, Failure>(
                Failure::Other("Failed to read state file: "@ + e),
            ),
            FileView::Unreadable(e) => state_hash_of(ldk_data_dir, file, contract_id) == Err::<
                Seq<u8>,
                Failure,
            >(Failure::Other("Failed to read state file: "@ + e)) && funding_of(
                ldk_data_dir,
                file,
                contract_id,
            ) == Err::<Seq<char>, Failure>(Failure::Other("Failed to read state file: "@ + e)),
            FileView::Text(text) => match json_of_text(text) {
                Ok(state) => state_hash_of(ldk_data_dir, file, contract_id) == state_hash_in(
                    state,
                    contract_id,
                ) && funding_of(ldk_data_dir, file, contract_id) == funding_in(state, contract_id),
                Err(e) => state_hash_of(ldk_data_dir, file, contract_id) == Err::<
                    Seq<u8>,
                    Failure,
                >(Failure::Other("Failed to parse state JSON: "@ + e)) && funding_of(
                    ldk_data_dir,
                    file,
                    contract_id,
                ) == Err::<Seq<char>, Failure>(Failure::Other("Failed to parse state JSON: "@ + e)),
            },
        },
{
}

/// The funding output of a contract is read where a text stands for its transaction and a whole
/// number for its place there: both with a colon between them. Where one is missing or something
/// else, that is said, of the transaction first.
pub proof fn law_funding_read(
    state: Json,
    contract_id: Seq<char>,
    data: Json,
    txid: Seq<char>,
    vout: int,
)
    requires
        0 <= vout <= u64::MAX,
    ensures
        state.get_two("genesis_utxos"@, contract_id) is None ==> funding_in(state, contract_id)
            == Err::<Seq<char>, Failure>(
            Failure::Other("Contract "@ + contract_id + " not found in state (genesis_utxos)"@),
        ),
        state.get_two("genesis_utxos"@, contract_id) == Some(data) ==> {
            &&& data.get("txid"@) == Some(Json::Text(txid)) && data.get("vout"@) == Some(
                Json::Int(vout),
            ) ==> funding_in(state, contract_id) == Ok::<Seq<char>, Failure>(
                txid + seq![':'] + digits(vout as nat),
            )
            &&& data.get("txid"@) is None || data.get("txid"@)->0 !is Text ==> funding_in(
                state,
                contract_id,
            ) == Err::<Seq<char>, Failure>(
                Failure::Other("TXID not found for contract "@ + contract_id),
            )
            &&& data.get("txid"@) == Some(Json::Text(txid)) && (data.get("vout"@) is None
                || data.get("vout"@)->0 !is Int) ==> funding_in(state, contract_id) == Err::<
                Seq<char>,
                Failure,
            >(Failure::Other("Vout not found for contract "@ + contract_id))
        },
{
    reveal_strlit(":");
    assert(":"@ =~= seq![':']);
}

/// The counterparty of a contract's channel is the text that stands for it in its place. There is
/// none where nothing or something else stands there, and where there is no file. A file that cannot
/// be read, or holds no document, is a failure.
pub proof fn law_counterparty_read(file: FileView, contract_id: Seq<char>, key: Seq<char>)
    ensures
        match file {
            FileView::Missing(_) => counterparty_of(file, contract_id) == Ok::<
                Option<Seq<char>>,
                Failure,
            >(None),
            FileView::Unreadable(e) => counterparty_of(file, contract_id) == Err::<
                Option<Seq<char>>,
                Failure,
            >(Failure::Other("Failed to read state file: "@ + e)),
            FileView::Text(text) => match json_of_text(text) {
                Err(e) => counterparty_of(file, contract_id) == Err::<Option<Seq<char>>, Failure>(
                    Failure::Other("Failed to parse state JSON: "@ + e),
                ),
                Ok(state) => {
                    let found = state.get_two("channel_counterparties"@, contract_id);
                    &&& counterparty_of(file, contract_id) is Ok
                    &&& counterparty_of(file, contract_id) == Ok::<Option<Seq<char>>, Failure>(
                        Some(key),
                    ) <==> found == Some(Json::Text(key))
                },
            },
        },
{
}

/// Whether something can be set below a key of a document: an object or null stands there, or
/// nothing, and the document is an object or null itself.
pub open spec fn has_place(state: Json, key: Seq<char>) -> bool {
    &&& state is Object || state is Null
    &&& match state.get(key) {
        None => true,
        Some(item) => item is Object || item is Null,
    }
}

/// What a contract is registered with, key by key: beside its genesis output its identifier, ticker,
/// name, supply, precision and state hash, and an output that stands for an unknown one; beside its
/// code where it is registered, its methods and its source; and the key of the initiator as its
/// counterparty. All other entries of these three places stay as they are, and so does all that
/// stands under other keys.
pub proof fn law_registered_entries(
    state: Json,
    info: ChannelInfo,
    hash: Seq<u8>,
    place: Seq<char>,
    other: Seq<char>,
    key: Seq<char>,
)
    requires
        has_place(state, "genesis_utxos"@),
        has_place(state, "contracts_metadata"@),
        has_place(state, "channel_counterparties"@),
        place == "genesis_utxos"@ || place == "contracts_metadata"@ || place
            == "channel_counterparties"@,
        other != info.contract_id@,
        key != "genesis_utxos"@,
        key != "contracts_metadata"@,
        key != "channel_counterparties"@,
    ensures
        ({
            let id = info.contract_id@;
            let after = registered(state, info, hash);
            &&& after.get_two("genesis_utxos"@, id) matches Some(genesis)
            &&& genesis.get("contract_id"@) == Some(Json::Text(id))
            &&& genesis.get("txid"@) == Some(Json::Text("unknown"@))
            &&& genesis.get("vout"@) == Some(Json::Int(0))
            &&& genesis.get("ticker"@) == Some(Json::Text(info.ticker@))
            &&& genesis.get("name"@) == Some(Json::Text(info.name@))
            &&& genesis.get("supply"@) == Some(Json::Int(info.supply as int))
            &&& genesis.get("precision"@) == Some(Json::Int(info.precision as int))
            &&& genesis.get("genesis_execution_result"@) == Some(Json::Null)
            &&& genesis.get("state_hash"@) matches Some(list)
            &&& list == Json::List(Seq::new(hash.len(), |i: int| Json::Int(hash[i] as int)))
            &&& after.get_two("contracts_metadata"@, id) matches Some(metadata)
            &&& metadata.get("registry_uri"@) == Some(Json::Text(info.registry_uri@))
            &&& metadata.get("rholang_source"@) == Some(Json::Text(info.rholang_source@))
            &&& metadata.get("methods"@) matches Some(methods)
            &&& methods == Json::List(
                Seq::new(info.methods@.len(), |i: int| Json::Text(info.methods@[i]@)),
            )
            &&& after.get_two("channel_counterparties"@, id) == Some(Json::Text(info.wallet_pubkey@))
            &&& after.get_two(place, other) == state.get_two(place, other)
            &&& after.get(key) == state.get(key)
        }),
{
    lemma_keys_differ();
    reveal_strlit("contract_id");
    reveal_strlit("txid");
    reveal_strlit("vout");
    reveal_strlit("ticker");
    reveal_strlit("name");
    reveal_strlit("supply");
    reveal_strlit("precision");
    reveal_strlit("genesis_execution_result");
    reveal_strlit("state_hash");
    reveal_strlit("registry_uri");
    reveal_strlit("methods");
    reveal_strlit("rholang_source");
    assert("txid"@[0] == 't' && "vout"@[0] == 'v' && "name"@[0] == 'n');
    assert("supply"@[0] == 's' && "ticker"@[0] == 't');
    assert("registry_uri"@.len() == 12 && "methods"@.len() == 7);
    assert("rholang_source"@.len() == 14);
    let id = info.contract_id@;
    let after = registered(state, info, hash);
    assert(after.get_two("genesis_utxos"@, id) == Some(genesis_entry(info, hash)));
    assert(after.get_two("contracts_metadata"@, id) == Some(metadata_entry(info)));
    assert(after.get_two(place, other) == state.get_two(place, other));
    let genesis = genesis_entry(info, hash);
    let metadata = metadata_entry(info);
    assert("contract_id"@.len() == 11 && "precision"@.len() == 9 && "state_hash"@.len() == 10);
    assert("genesis_execution_result"@.len() == 24);
    assert("txid"@.len() == 4 && "vout"@.len() == 4 && "name"@.len() == 4);
    assert("ticker"@.len() == 6 && "supply"@.len() == 6);
    assert(genesis.get("contract_id"@) == Some(Json::Text(id)));
    assert(genesis.get("ticker"@) == Some(Json::Text(info.ticker@)));
    assert(genesis.get("name"@) == Some(Json::Text(info.name@)));
    assert(genesis.get("supply"@) == Some(Json::Int(info.supply as int)));
    assert(genesis.get("precision"@) == Some(Json::Int(info.precision as int)));
    assert(genesis.get("genesis_execution_result"@) == Some(Json::Null));
    let bytes = Seq::new(hash.len(), |i: int| Json::Int(hash[i] as int));
    let methods = Seq::new(info.methods@.len(), |i: int| Json::Text(info.methods@[i]@));
    assert(genesis.get("state_hash"@)->0->List_0 =~= bytes);
    assert(metadata.get("methods"@)->0->List_0 =~= methods);
    assert(genesis.get("state_hash"@) == Some(Json::List(bytes)));
    assert(metadata.get("methods"@) == Some(Json::List(methods)));
    assert(after.get(key) == state.get(key));
}

/// A wallet that knows no contract has three empty places and counts derivations from none. It has
/// no counterparty yet.
pub proof fn law_fresh_state(key: Seq<char>)
    ensures
        fresh_state() is Object,
        fresh_state().get("genesis_utxos"@) == Some(Json::Object(Map::empty())),
        fresh_state().get("contracts_metadata"@) == Some(Json::Object(Map::empty())),
        fresh_state().get("contract_derivation_indices"@) == Some(Json::Object(Map::empty())),
        fresh_state().get("derivation_index"@) == Some(Json::Int(0)),
        fresh_state().get("channel_counterparties"@) is None,
        key != "genesis_utxos"@ && key != "contracts_metadata"@ && key
            != "contract_derivation_indices"@ && key != "derivation_index"@ ==> fresh_state().get(
            key,
        ) is None,
{
    lemma_keys_differ();
    reveal_strlit("genesis_utxos");
    reveal_strlit("contracts_metadata");
    reveal_strlit("channel_counterparties");
    reveal_strlit("contract_derivation_indices");
    reveal_strlit("derivation_index");
    assert("genesis_utxos"@.len() == 13);
    assert("contracts_metadata"@.len() == 18);
    assert("channel_counterparties"@.len() == 22);
    assert("contract_derivation_indices"@.len() == 27);
    assert("derivation_index"@.len() == 16);
}

/// The hash that an initiator gives is accepted if and only if it is 32 bytes in hexadecimal, and is
/// then those bytes. Else it is said what is wrong with it.
pub proof fn law_given_hash(text: Seq<char>, hash: Seq<u8>)
    ensures
        hash.len() == 32 ==> given_hash(lower_hex(hash)) == Ok::<Seq<u8>, Failure>(hash),
        given_hash(text) == Ok::<Seq<u8>, Failure>(hash) <==> hex_bytes(text) == Some(hash)
            && hash.len() == 32,
        hex_bytes(text) is None ==> given_hash(text) == Err::<Seq<u8>, Failure>(
            Failure::Other("Invalid hex state hash: "@ + hex_error(text)),
        ),
        hex_bytes(text) == Some(hash) && hash.len() != 32 ==> given_hash(text) == Err::<
            Seq<u8>,
            Failure,
        >(Failure::Other("State hash must be 32 bytes, got "@ + digits(hash.len()))),
{
    law_hex_round_trip(hash);
}

/// A contract with a hash of 32 bytes is registered in every state file that can be read and has a
/// place for it: one that is not there or holds no document is taken for the state of a wallet that
/// knows no contract. It is registered in no other file: one that cannot be read, or a hash that is
/// not valid, is a failure; and a document without a place is left alone.
pub proof fn law_registering(file: FileView, info: ChannelInfo, state: Json, hash: Seq<u8>)
    ensures
        ({
            let found = match file {
                FileView::Missing(_) => state == fresh_state(),
                FileView::Unreadable(_) => false,
                FileView::Text(text) => match json_of_text(text) {
                    Ok(document) => state == document,
                    Err(_) => state == fresh_state(),
                },
            };
            let room = has_place(state, "genesis_utxos"@) && has_place(
                state,
                "contracts_metadata"@,
            ) && has_place(state, "channel_counterparties"@);
            &&& found && room && hex_bytes(info.genesis_state_hash@) == Some(hash) && hash.len()
                == 32 ==> registering(file, info) == StateWriteView::Write(
                registered(state, info, hash),
            )
            &&& file matches FileView::Unreadable(e) ==> registering(file, info)
                == StateWriteView::Fail(Failure::Other("Failed to read state: "@ + e))
            &&& found && (state is Object || state is Null) ==> (given_hash(
                info.genesis_state_hash@,
            ) matches Err(e) ==> registering(file, info) == StateWriteView::Fail(e))
            &&& found && !(state is Object || state is Null) ==> registering(file, info) is NoPlace
            &&& found && !room && given_hash(info.genesis_state_hash@) is Ok ==> registering(
                file,
                info,
            ) is NoPlace
        }),
{
}

/// A counterparty is noted in every state file that can be read and has a place for it: one that is
/// not there or holds no document becomes one that knows the counterparty alone. It is noted in no
/// other file.
pub proof fn law_noting(file: FileView, contract_id: Seq<char>, key: Seq<char>, state: Json)
    ensures
        ({
            let found = match file {
                FileView::Missing(_) => state == Json::Object(Map::empty()),
                FileView::Unreadable(_) => false,
                FileView::Text(text) => match json_of_text(text) {
                    Ok(document) => state == document,
                    Err(_) => state == Json::Object(Map::empty()),
                },
            };
            &&& found && has_place(state, "channel_counterparties"@) ==> noting(
                file,
                contract_id,
                key,
            ) == StateWriteView::Write(with_counterparty(state, contract_id, key))
            &&& found && !has_place(state, "channel_counterparties"@) ==> noting(
                file,
                contract_id,
                key,
            ) is NoPlace
            &&& file matches FileView::Unreadable(e) ==> noting(file, contract_id, key)
                == StateWriteView::Fail(Failure::Other("Failed to read state: "@ + e))
        }),
{
}

/// A counterparty that is noted stands as a text in its place; every other entry there stays, and so
/// does all that stands under other keys.
pub proof fn law_noted_entry(
    state: Json,
    contract_id: Seq<char>,
    wallet_key: Seq<char>,
    other: Seq<char>,
    key: Seq<char>,
)
    requires
        has_place(state, "channel_counterparties"@),
        other != contract_id,
        key != "channel_counterparties"@,
    ensures
        ({
            let after = with_counterparty(state, contract_id, wallet_key);
            &&& after.get_two("channel_counterparties"@, contract_id) == Some(
                Json::Text(wallet_key),
            )
            &&& after.get_two("channel_counterparties"@, other) == state.get_two(
                "channel_counterparties"@,
                other,
            )
            &&& after.get(key) == state.get(key)
        }),
{
}

/// What becomes of a state file is what was expected: the text that is written is read as the document
/// that was expected, but for the values of numbers that are not whole; nothing is written where there
/// was no place; and an error says what was expected.
pub proof fn law_state_write(write: StateWrite, expected: StateWriteView)
    requires
        writes(write, expected),
    ensures
        match expected {
            StateWriteView::Write(state) => write matches StateWrite::Write(text) && text@
                == json_pretty(state) && (json_of_text(text@) matches Ok(found) && found.agrees(
                state,
                depth_limit(),
            )),
            StateWriteView::NoPlace => write is NoPlace,
            StateWriteView::Fail(e) => write matches StateWrite::Fail(error) && failure(error) == e,
        },
{
}

/// What reading a file gave is told apart: a file that is not there, one that cannot be read, and what a
/// file holds, each with its text.
pub proof fn law_file_read(text: String)
    ensures
        FileRead::Missing(text)@ == FileView::Missing(text@),
        FileRead::Unreadable(text)@ == FileView::Unreadable(text@),
        FileRead::Text(text)@ == FileView::Text(text@),
{
}

} // verus!
