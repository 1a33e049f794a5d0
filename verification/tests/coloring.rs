//! The coloring of transactions.

use std::collections::HashMap;
use std::sync::Mutex;

use rgb_channels::chain::{
    is_tx_colored, op_return_position, OutPoint, Psbt, Transaction, TxIn, TxOut, Txid,
};
use rgb_channels::channel::{ChannelId, DirEntry, DirListing, PaymentHash, RgbInfo, TransferInfo};
use rgb_channels::closing::{
    holder_output, output_with, settle_with, share_destination, witness_of_holder, CloseAction, CloseEvent,
    CloseStage, Closing,
};
use rgb_channels::coloring::{
    color_with, AssetColoringInfo, ColoringInfo, Disk, LnTransactionType,
};
use rgb_channels::contract::ContractId;
use rgb_channels::error::RgbLibError;
use rgb_channels::executor::{
    reload_with, set_contract_reloader, set_settlement_executor, ContractReloader, OnceSlot,
    SettlementExecutor, Settlements,
};
use rgb_channels::path::FilePath;
use rgb_channels::payments::{sum_htlcs, Htlc, PaymentStore};
use rgb_channels::state_file::FileRead;
use rgb_channels::transactions::{
    closing_coloring, color_closing, color_commitment, color_htlc, commitment_coloring, holder_position,
    paid_script, spent_transfer_info_path, split_sides, transfer_info_path, ChannelError, ClosingTransaction, CommitmentTransaction, HtlcColoring,
    TransferRecord, _counterparty_output_index, STATIC_BLINDING,
};
use rgb_channels::types::AssetSchema;
use rgb_channels::wallet::Wallet;

struct Recorder {
    calls: Mutex<Vec<String>>,
    settles: bool,
    claimed: Option<bool>,
    claims: bool,
}

impl Recorder {
    fn new() -> Recorder {
        Recorder { calls: Mutex::new(Vec::new()), settles: true, claimed: Some(false), claims: true }
    }

    fn calls(&self) -> Vec<String> {
        self.calls.lock().unwrap().clone()
    }
}

impl SettlementExecutor for Recorder {
    fn settle_channel_close(
        &self,
        funding_utxo: &str,
        holder_amount: u64,
        counterparty_amount: u64,
        contract_id: &str,
    ) -> Result<[u8; 32], RgbLibError> {
        let call = format!("settle {} {} {} {}", funding_utxo, holder_amount, counterparty_amount, contract_id);
        self.calls.lock().unwrap().push(call);
        if self.settles {
            Ok([9; 32])
        } else {
            Err(RgbLibError::Other("no settlement".to_string()))
        }
    }

    fn claim_from_witness(
        &self,
        witness_id: &str,
        destination_utxo: &str,
        contract_id: &str,
    ) -> Result<(), RgbLibError> {
        let call = format!("claim {} {} {}", witness_id, destination_utxo, contract_id);
        self.calls.lock().unwrap().push(call);
        if self.claims {
            Ok(())
        } else {
            Err(RgbLibError::Other("no claim".to_string()))
        }
    }

    fn is_witness_claimed(&self, witness_id: &str, contract_id: &str) -> Result<bool, RgbLibError> {
        self.calls.lock().unwrap().push(format!("claimed? {} {}", witness_id, contract_id));
        match self.claimed {
            Some(claimed) => Ok(claimed),
            None => Err(RgbLibError::Other("no answer".to_string())),
        }
    }
}

struct Reloader(bool);

impl ContractReloader for Reloader {
    fn reload_contracts(&self) -> Result<(), RgbLibError> {
        if self.0 {
            Ok(())
        } else {
            Err(RgbLibError::EmptyFile)
        }
    }
}

fn bytes_up() -> [u8; 32] {
    let mut bytes = [0u8; 32];
    for i in 0..32 {
        bytes[i] = i as u8;
    }
    bytes
}

fn key_script(n: u8) -> Vec<u8> {
    let mut script = vec![0, 20];
    script.extend([n; 20]);
    script
}

fn op_return(n: u8) -> Vec<u8> {
    let mut script = vec![0x6a, 0x20];
    script.extend([n; 32]);
    script
}

fn tx() -> Transaction {
    Transaction {
        version: 2,
        lock_time: 0,
        input: vec![TxIn {
            previous_output: OutPoint { txid: Txid { bytes: bytes_up() }, vout: 1 },
            script_sig: vec![],
            sequence: 0xffff_ffff,
        }],
        output: vec![
            TxOut { value: 1000, script_pubkey: key_script(7) },
            TxOut { value: 2000, script_pubkey: key_script(8) },
        ],
    }
}

const UTXO: &str = "1f1e1d1c1b1a191817161514131211100f0e0d0c0b0a09080706050403020100:1";
const WITNESS: &str = "witness:0bef83e2f216b3a151b67c497820217e:0";
const TXID: &str = "526e477da50861dcdc87c6e0f2ebe15fe94ff2060d0ee3d6ba5d1df53019e85c";
const COLORED_TXID: &str = "3672a0757cd39865059f976285fa15178d6ca802d17c37f7ada6ff526afe1f08";

fn contract() -> ContractId {
    ContractId { bytes: [1; 32] }
}

fn info(local: u64, remote: u64) -> RgbInfo {
    RgbInfo {
        contract_id: contract(),
        schema: AssetSchema::Nia,
        local_rgb_amount: local,
        remote_rgb_amount: remote,
    }
}

fn wallet() -> Wallet {
    Wallet { ldk_data_dir: FilePath::from_text("/data/.ldk") }
}

fn dir() -> FilePath {
    FilePath::from_text("/data/.ldk")
}

fn state(n: u8) -> FileRead {
    let items = vec![n.to_string(); 32].join(",");
    FileRead::Text(format!(
        "{{\"genesis_utxos\":{{\"{}\":{{\"state_hash\":[{}]}}}}}}",
        contract().text(),
        items
    ))
}

fn disk(local: u64, remote: u64) -> Disk {
    Disk {
        state_file: state(9),
        listing: DirListing::Entries(vec![Ok(DirEntry {
            path: dir().join("ab.pending"),
            info: Some(info(local, remote)),
        })]),
    }
}

fn coloring(kind: LnTransactionType, outputs: &[(u32, u64)]) -> ColoringInfo {
    ColoringInfo {
        asset_info_map: vec![(
            contract(),
            AssetColoringInfo {
                output_map: outputs.iter().cloned().collect::<HashMap<u32, u64>>(),
                static_blinding: None,
            },
        )],
        static_blinding: None,
        nonce: None,
        ln_tx_type: kind,
    }
}

fn psbt() -> Psbt {
    Psbt::from_unsigned_tx(tx()).unwrap()
}

fn message<T>(r: Result<T, RgbLibError>) -> String {
    match r {
        Err(RgbLibError::Other(text)) => text,
        Err(e) => panic!("{:?}", e),
        Ok(_) => panic!("no error"),
    }
}

#[test]
fn colored_transactions_have_an_op_return_output() {
    let mut tx = tx();
    assert!(!is_tx_colored(&tx));
    assert_eq!(op_return_position(&tx), None);
    tx.output.push(TxOut { value: 0, script_pubkey: vec![0x6a] });
    tx.output.push(TxOut { value: 0, script_pubkey: op_return(1) });
    assert!(is_tx_colored(&tx));
    assert_eq!(op_return_position(&tx), Some(2));
}

#[test]
fn hashes_are_put_into_transactions() {
    let mut colored = psbt();
    assert_eq!(colored.output_records, 2);
    colored.embed(&[9; 32]);
    assert_eq!(colored.unsigned_tx.output.len(), 3);
    assert_eq!(colored.unsigned_tx.output[2].value, 0);
    assert_eq!(colored.unsigned_tx.output[2].script_pubkey, op_return(9));
    assert_eq!(colored.unsigned_tx.output[0].script_pubkey, key_script(7));
    assert_eq!(colored.output_records, 3);
    assert_eq!(colored.unsigned_tx.compute_txid().text(), COLORED_TXID);
    colored.embed(&[5; 32]);
    assert_eq!(colored.unsigned_tx.output.len(), 3);
    assert_eq!(colored.unsigned_tx.output[2].script_pubkey, op_return(5));
}

#[test]
fn the_first_op_return_output_carries_the_hash() {
    let mut one = tx();
    one.output.insert(0, TxOut { value: 3, script_pubkey: vec![0x6a, 0x00] });
    one.output.push(TxOut { value: 4, script_pubkey: op_return(1) });
    let mut psbt = Psbt::from_unsigned_tx(one).unwrap();
    psbt.output_records = 0;
    psbt.embed(&[2; 32]);
    assert_eq!(psbt.unsigned_tx.output.len(), 4);
    assert_eq!(psbt.unsigned_tx.output[0].value, 3);
    assert_eq!(psbt.unsigned_tx.output[0].script_pubkey, op_return(2));
    assert_eq!(psbt.unsigned_tx.output[3].script_pubkey, op_return(1));
    assert_eq!(psbt.output_records, 0);
}

#[test]
fn op_return_scripts_are_those_of_bitcoin() {
    let mut colored = psbt();
    colored.embed(&bytes_up());
    let script = bitcoin::ScriptBuf::new_op_return(&bytes_up());
    assert_eq!(colored.unsigned_tx.output[2].script_pubkey, script.into_bytes());
}

#[test]
fn transactions_are_put_together_and_taken_out() {
    let mut signed = tx();
    signed.input[0].script_sig = vec![1];
    assert!(Psbt::from_unsigned_tx(signed).is_none());
    assert!(psbt().extract_tx().is_some());
    let mut empty = tx();
    empty.input = vec![];
    assert!(Psbt::from_unsigned_tx(empty.clone()).unwrap().extract_tx().is_none());
    empty.output = vec![TxOut { value: 0, script_pubkey: vec![] }];
    assert!(Psbt::from_unsigned_tx(empty).unwrap().extract_tx().is_some());
}

#[test]
fn extraction_agrees_with_bitcoin() {
    let outside = |inputs: usize, value: u64| {
        let tx = bitcoin::Transaction {
            version: bitcoin::transaction::Version(2),
            lock_time: bitcoin::absolute::LockTime::from_consensus(0),
            input: vec![bitcoin::TxIn::default(); inputs],
            output: vec![bitcoin::TxOut {
                value: bitcoin::Amount::from_sat(value),
                script_pubkey: bitcoin::ScriptBuf::new(),
            }],
        };
        let bytes = bitcoin::Psbt::from_unsigned_tx(tx.clone()).unwrap().serialize();
        let psbt = bitcoin::Psbt::deserialize(&bytes).unwrap();
        match psbt.extract_tx() {
            Ok(out) => {
                assert_eq!(out, tx);
                true
            },
            Err(bitcoin::psbt::ExtractTxError::MissingInputValue { tx: out }) => {
                assert_eq!(out, tx);
                true
            },
            Err(_) => false,
        }
    };
    let ours = |inputs: usize, value: u64| {
        let mut mine = tx();
        let input = mine.input[0].clone();
        mine.input = vec![input; inputs];
        mine.output = vec![TxOut { value, script_pubkey: vec![] }];
        Psbt::from_unsigned_tx(mine).unwrap().extract_tx().is_some()
    };
    for inputs in [0, 1, 2] {
        for value in [0, 1, 1000] {
            assert_eq!(ours(inputs, value), outside(inputs, value));
        }
    }
}

#[test]
fn the_witness_of_the_holder() {
    assert_eq!(witness_of_holder(UTXO), WITNESS);
    assert_eq!(tx().input[0].previous_output.text(), UTXO);
}

#[test]
fn outputs_are_found_by_their_amount() {
    let outputs: HashMap<u32, u64> = [(0, 5), (3, 7), (4, 7)].iter().cloned().collect();
    assert_eq!(output_with(&outputs, 5), Some(0));
    assert!(matches!(output_with(&outputs, 7), Some(3) | Some(4)));
    assert_eq!(output_with(&outputs, 6), None);
    assert_eq!(output_with(&HashMap::new(), 0), None);
}

#[test]
fn shares_go_to_the_known_output() {
    let outputs: HashMap<u32, u64> = [(0, 5), (3, 7), (4, 7)].iter().cloned().collect();
    assert_eq!(holder_output(&outputs, Some(3), 7), Some(3));
    assert_eq!(holder_output(&outputs, Some(4), 7), Some(4));
    assert_eq!(holder_output(&outputs, Some(4), 5), Some(0));
    assert_eq!(holder_output(&outputs, Some(9), 6), None);
    assert_eq!(holder_output(&outputs, None, 5), Some(0));
    let txid = tx().compute_txid();
    assert_eq!(share_destination(&outputs, Some(4), 7, txid).unwrap(), format!("{}:4", TXID));
    assert!(share_destination(&outputs, None, 8, txid).is_none());
}

fn settlement(amount: u64, destination: Option<&str>) -> (Closing, CloseAction) {
    Closing::begin("u".to_string(), "c".to_string(), amount, 40, destination.map(|d| d.to_string()))
}

fn settled_at(stage: CloseStage, destination: Option<&str>, event: CloseEvent) -> (CloseStage, CloseAction) {
    let (mut closing, _) = settlement(60, destination);
    closing.stage = stage;
    let (closing, action) = closing.step(event);
    (closing.stage, action)
}

#[test]
fn settlements_go_step_by_step() {
    let (closing, action) = settlement(60, Some("o"));
    match action {
        CloseAction::Settle { funding_utxo, holder_amount, counterparty_amount, contract_id } => {
            assert_eq!((funding_utxo.as_str(), contract_id.as_str()), ("u", "c"));
            assert_eq!((holder_amount, counterparty_amount), (60, 40));
        },
        _ => panic!("not settled"),
    }
    let (closing, action) = closing.step(CloseEvent::Settled(Ok([9; 32])));
    match action {
        CloseAction::Check { witness_id, contract_id } => {
            assert_eq!((witness_id, contract_id.as_str()), (witness_of_holder("u"), "c"));
        },
        _ => panic!("not checked"),
    }
    let (closing, action) = closing.step(CloseEvent::Checked(Ok(false)));
    match action {
        CloseAction::Claim { witness_id, destination_utxo, contract_id } => {
            assert_eq!(witness_id, witness_of_holder("u"));
            assert_eq!((destination_utxo.as_str(), contract_id.as_str()), ("o", "c"));
        },
        _ => panic!("not claimed"),
    }
    let (closing, action) = closing.step(CloseEvent::Claimed(Ok(())));
    assert!(matches!(action, CloseAction::Finish(Ok(hash)) if hash == [9; 32]));
    let (_, action) = closing.step(CloseEvent::Claimed(Ok(())));
    assert!(matches!(action, CloseAction::Unexpected));
}

#[test]
fn how_settlements_end() {
    let fail = || RgbLibError::Other("e".to_string());
    let hash = [9; 32];
    let (stage, action) =
        settled_at(CloseStage::Checking(hash), Some("o"), CloseEvent::Checked(Ok(true)));
    assert!(matches!(stage, CloseStage::Done));
    assert!(matches!(action, CloseAction::Finish(Ok(h)) if h == hash));
    let (_, action) = settled_at(CloseStage::Settling, None, CloseEvent::Settled(Ok(hash)));
    match action {
        CloseAction::Finish(r) => assert_eq!(
            message(r),
            "Could not find holder output in output_map (holder_amount=60)"
        ),
        _ => panic!("not ended"),
    }
    for (stage, event) in [
        (CloseStage::Settling, CloseEvent::Settled(Err(fail()))),
        (CloseStage::Checking(hash), CloseEvent::Checked(Err(fail()))),
        (CloseStage::Claiming(hash), CloseEvent::Claimed(Err(fail()))),
    ] {
        match settled_at(stage, Some("o"), event).1 {
            CloseAction::Finish(r) => assert_eq!(message(r), "e"),
            _ => panic!("not ended"),
        }
    }
    let (stage, action) = settled_at(CloseStage::Settling, Some("o"), CloseEvent::Checked(Ok(false)));
    assert!(matches!(stage, CloseStage::Settling));
    assert!(matches!(action, CloseAction::Unexpected));
    let (closing, _) = settlement(0, None);
    let (_, action) = closing.step(CloseEvent::Settled(Ok(hash)));
    assert!(matches!(action, CloseAction::Finish(Ok(h)) if h == hash));
    let executor = Recorder::new();
    let mut settlements = Settlements::new(Some(&executor));
    let settled =
        settle_with("u".to_string(), "c".to_string(), 60, 40, Some("o".to_string()), &mut settlements);
    assert_eq!(settled.unwrap(), hash);
    let witness = witness_of_holder("u");
    assert_eq!(
        executor.calls(),
        vec!["settle u 60 40 c".to_string(), format!("claimed? {} c", witness), format!("claim {} o c", witness)]
    );
}

#[test]
fn commitments_carry_the_hash_of_the_genesis() {
    for kind in [LnTransactionType::Commitment, LnTransactionType::Htlc] {
        let mut psbt = psbt();
        let executor = Recorder::new();
        let mut settlements = Settlements::new(Some(&executor));
        let r = wallet().color_psbt(&mut psbt, &coloring(kind, &[]), &disk(1, 1), &mut settlements);
        assert!(r.is_ok());
        assert_eq!(psbt.unsigned_tx.compute_txid().text(), COLORED_TXID);
        assert!(executor.calls().is_empty());
    }
}

#[test]
fn transactions_without_a_hash_stay_as_they_are() {
    let mut psbt = psbt();
    let mut nobody = Settlements::new(None::<&Recorder>);
    let mut none = coloring(LnTransactionType::Commitment, &[]);
    none.asset_info_map.clear();
    let r = wallet().color_psbt(&mut psbt, &none, &disk(1, 1), &mut nobody);
    assert_eq!(message(r), "No RGB asset info in coloring_info");
    let mut missing = disk(1, 1);
    missing.state_file = FileRead::Missing("none".to_string());
    let info = coloring(LnTransactionType::Commitment, &[]);
    let r = wallet().color_psbt(&mut psbt, &info, &missing, &mut nobody);
    assert_eq!(
        message(r),
        "F1r3fly state file not found: /data/rgb-lightning-wallet/f1r3fly_state.json"
    );
    assert_eq!(psbt.unsigned_tx.compute_txid().text(), TXID);
    assert_eq!(message(color_with(&mut psbt, Err(RgbLibError::Other("e".to_string())))), "e");
    assert!(color_with(&mut psbt, Ok([9; 32])).is_ok());
    assert_eq!(psbt.unsigned_tx.compute_txid().text(), COLORED_TXID);
}

fn close(
    psbt: &mut Psbt,
    outputs: &[(u32, u64)],
    disk: &Disk,
    executor: Option<&Recorder>,
) -> Result<(), RgbLibError> {
    let mut settlements = Settlements::new(executor);
    wallet()
        .color_psbt(psbt, &coloring(LnTransactionType::Closing, outputs), disk, &mut settlements)
        .map(|_| ())
}

#[test]
fn closing_settles_and_claims() {
    let executor = Recorder::new();
    let mut psbt = psbt();
    close(&mut psbt, &[(0, 60), (1, 40)], &disk(60, 40), Some(&executor)).unwrap();
    let id = contract().text();
    assert_eq!(
        executor.calls(),
        vec![
            format!("settle {} 60 40 {}", UTXO, id),
            format!("claimed? {} {}", WITNESS, id),
            format!("claim {} {}:0 {}", WITNESS, TXID, id),
        ]
    );
    assert_eq!(psbt.unsigned_tx.compute_txid().text(), COLORED_TXID);
}

#[test]
fn what_was_claimed_is_not_claimed_again() {
    let mut executor = Recorder::new();
    executor.claimed = Some(true);
    executor.claims = false;
    let mut psbt = psbt();
    close(&mut psbt, &[(0, 60)], &disk(60, 40), Some(&executor)).unwrap();
    assert_eq!(executor.calls().len(), 2);
    assert_eq!(psbt.unsigned_tx.compute_txid().text(), COLORED_TXID);
}

#[test]
fn holders_without_a_share_claim_nothing() {
    let executor = Recorder::new();
    let mut psbt = psbt();
    close(&mut psbt, &[(1, 40)], &disk(0, 40), Some(&executor)).unwrap();
    assert_eq!(executor.calls().len(), 1);
}

#[test]
fn why_closing_fails() {
    let mut psbt = psbt();
    let executor = Recorder::new();
    assert_eq!(
        message(close(&mut psbt, &[(0, 1)], &disk(60, 40), Some(&executor))),
        "Could not find holder output in output_map (holder_amount=60)"
    );
    assert_eq!(
        message(close(&mut psbt, &[(0, 60)], &disk(60, 40), None)),
        "Settlement executor not initialized"
    );
    let mut unsettled = Recorder::new();
    unsettled.settles = false;
    assert_eq!(message(close(&mut psbt, &[(0, 60)], &disk(60, 40), Some(&unsettled))), "no settlement");
    assert_eq!(unsettled.calls().len(), 1);
    let mut silent = Recorder::new();
    silent.claimed = None;
    assert_eq!(message(close(&mut psbt, &[(0, 60)], &disk(60, 40), Some(&silent))), "no answer");
    let mut unclaimed = Recorder::new();
    unclaimed.claims = false;
    assert_eq!(message(close(&mut psbt, &[(0, 60)], &disk(60, 40), Some(&unclaimed))), "no claim");
    let nothing = Disk { state_file: state(9), listing: DirListing::Entries(vec![]) };
    assert_eq!(
        message(close(&mut psbt, &[(0, 60)], &nothing, Some(&executor))),
        format!("No RgbInfo file found for contract {}", contract().text())
    );
    assert_eq!(psbt.unsigned_tx.compute_txid().text(), TXID);
    psbt.unsigned_tx.input.clear();
    assert_eq!(
        message(close(&mut psbt, &[(0, 60)], &disk(60, 40), Some(&executor))),
        "Closing TX has no inputs"
    );
}

#[test]
fn executors_are_set_once() {
    let mut slot = OnceSlot::new();
    assert!(slot.value.is_none());
    set_settlement_executor(&mut slot, Recorder::new());
    let mut second = Recorder::new();
    second.settles = false;
    set_settlement_executor(&mut slot, second);
    let executor = slot.value.unwrap();
    let mut settlements = Settlements::new(Some(&executor));
    assert_eq!(settlements.execute_settlement("u", 1, 2, "c").unwrap(), [9; 32]);
    assert_eq!(settlements.is_witness_claimed("w", "c").unwrap(), false);
    assert!(settlements.claim_from_witness("w", "o", "c").is_ok());
    assert_eq!(executor.calls(), vec!["settle u 1 2 c", "claimed? w c", "claim w o c"]);
    let mut nobody = Settlements::new(None::<&Recorder>);
    let not_set = "Settlement executor not initialized";
    assert_eq!(message(nobody.execute_settlement("u", 1, 2, "c")), not_set);
    assert_eq!(message(nobody.is_witness_claimed("w", "c")), not_set);
    assert_eq!(message(nobody.claim_from_witness("w", "o", "c")), not_set);
    let mut slot = OnceSlot::new();
    set_contract_reloader(&mut slot, Reloader(false));
    set_contract_reloader(&mut slot, Reloader(true));
    assert!(matches!(reload_with(slot.value.as_ref()), Err(RgbLibError::EmptyFile)));
    assert!(reload_with(Some(&Reloader(true))).is_ok());
    assert!(reload_with(None::<&Reloader>).is_ok());
}

fn htlc(offered: bool, amount: u64) -> Htlc {
    Htlc {
        offered,
        payment_hash: PaymentHash([4; 32]),
        transaction_output_index: Some(5),
        rgb_payment: Some((contract(), amount)),
    }
}

fn commitment(htlcs: Vec<Htlc>) -> CommitmentTransaction {
    CommitmentTransaction {
        built: tx(),
        txid: Txid { bytes: [0; 32] },
        htlcs,
        revokeable_output_index: Some(1),
    }
}

fn color(
    commitment: &mut CommitmentTransaction,
    counterparty: bool,
    store: &mut PaymentStore,
    state_file: FileRead,
) -> Option<Result<(String, u64), String>> {
    let disk = Disk { state_file, listing: DirListing::Entries(vec![]) };
    let r = color_commitment(
        &wallet(),
        &ChannelId([3; 32]),
        &dir(),
        &info(100, 50),
        key_script(7),
        key_script(8),
        commitment,
        counterparty,
        store,
        &disk,
        &mut Settlements::new(None::<&Recorder>),
    )?;
    Some(match r {
        Ok(record) => {
            assert!(record.info.contract_id == contract());
            Ok((record.path.text(), record.info.rgb_amount))
        },
        Err(ChannelError::Warn(text)) => Err(text),
    })
}

#[test]
fn commitments_are_colored_and_noted() {
    let path = format!("/data/.ldk/{}_transfer_info", COLORED_TXID);
    let mut own = commitment(vec![]);
    let mut store = PaymentStore::new();
    assert_eq!(color(&mut own, false, &mut store, state(9)), Some(Ok((path.clone(), 100))));
    assert_eq!(own.txid.text(), COLORED_TXID);
    assert_eq!(own.built.compute_txid().text(), COLORED_TXID);
    assert!(store.changes.is_empty());
    let mut theirs = commitment(vec![]);
    assert_eq!(color(&mut theirs, true, &mut store, state(9)), Some(Ok((path, 100))));
}

#[test]
fn payments_in_flight_leave_their_side() {
    let amount = |offered: bool, counterparty: bool| {
        let mut store = PaymentStore::new();
        let mut tx = commitment(vec![htlc(offered, 30)]);
        match color(&mut tx, counterparty, &mut store, state(9)) {
            Some(Ok((_, amount))) => (amount, store.changes.len()),
            _ => panic!("not colored"),
        }
    };
    assert_eq!(amount(true, false), (70, 2));
    assert_eq!(amount(false, false), (130, 2));
    assert_eq!(amount(true, true), (100, 2));
    assert_eq!(amount(false, true), (100, 2));
}

#[test]
fn commitments_share_out_what_the_channel_has() {
    let mut store = PaymentStore::new();
    let mut second = htlc(false, 20);
    second.payment_hash = PaymentHash([5; 32]);
    let htlcs = vec![htlc(true, 30), second];
    let sums =
        sum_htlcs(&mut store, &dir(), &ChannelId([3; 32]), &info(100, 50), false, &htlcs).unwrap();
    let (local, remote) = split_sides(&sums, &info(100, 50)).unwrap();
    assert_eq!((local, remote), (70, 30));
    assert_eq!(local + sums.offered, 100);
    assert_eq!(remote + sums.received, 50);
    let none = sum_htlcs(&mut store, &dir(), &ChannelId([3; 32]), &info(7, 8), false, &vec![]).unwrap();
    assert_eq!(split_sides(&none, &info(7, 8)), Some((7, 8)));
}

#[test]
fn peers_are_warned_of_commitments_without_a_hash() {
    let mut tx = commitment(vec![htlc(true, 30)]);
    let mut store = PaymentStore::new();
    assert_eq!(
        color(&mut tx, false, &mut store, FileRead::Unreadable("e".to_string())),
        Some(Err(
            "Failed to color commitment TX: Other(\"Failed to read state file: e\")".to_string()
        ))
    );
    assert_eq!(tx.built.compute_txid().text(), TXID);
    assert_eq!(tx.txid.bytes, [0; 32]);
    assert_eq!(store.changes.len(), 2);
}

#[test]
fn commitments_that_cannot_be_colored() {
    let stuck = |tx: &mut CommitmentTransaction| {
        color(tx, false, &mut PaymentStore::new(), state(9)).is_none()
    };
    assert!(stuck(&mut commitment(vec![htlc(true, 101)])));
    assert!(stuck(&mut commitment(vec![htlc(false, 51)])));
    let mut signed = commitment(vec![]);
    signed.built.input[0].script_sig = vec![1];
    assert!(stuck(&mut signed));
    let mut loose = htlc(true, 1);
    loose.transaction_output_index = None;
    assert!(stuck(&mut commitment(vec![loose])));
}

#[test]
fn commitments_pay_the_side_that_does_not_own_them() {
    assert_eq!(paid_script(true, vec![1], vec![2]), vec![1]);
    assert_eq!(paid_script(false, vec![1], vec![2]), vec![2]);
    let outputs = |counterparty: bool| {
        let mut store = PaymentStore::new();
        let channel = info(100, 50);
        let sums = sum_htlcs(&mut store, &dir(), &ChannelId([3; 32]), &channel, counterparty, &vec![]).unwrap();
        let mut tx = commitment(vec![]);
        tx.revokeable_output_index = Some(if counterparty { 1 } else { 0 });
        let coloring = commitment_coloring(
            sums,
            (100, 50),
            counterparty,
            contract(),
            &tx,
            key_script(7),
            key_script(8),
        );
        assert_eq!(coloring.ln_tx_type, LnTransactionType::Commitment);
        let map = coloring.asset_info_map[0].1.output_map.clone();
        assert_eq!(map.len(), 2);
        (map[&0], map[&1])
    };
    assert_eq!(outputs(true), (100, 50));
    assert_eq!(outputs(false), (100, 50));
}

#[test]
fn the_output_of_the_other_side_is_found_by_its_script() {
    assert_eq!(_counterparty_output_index(&tx(), &key_script(8)), Some(1));
    assert_eq!(_counterparty_output_index(&tx(), &key_script(9)), None);
}

fn spend(tx: &mut Transaction, amount: u64, from: &TransferInfo) -> HtlcColoring {
    let executor = Recorder::new();
    let mut settlements = Settlements::new(Some(&executor));
    let r = color_htlc(&wallet(), tx, &htlc(true, amount), &dir(), from, &disk(1, 1), &mut settlements);
    assert!(executor.calls().is_empty());
    r
}

#[test]
fn spends_of_payments_are_colored_and_noted() {
    let from = TransferInfo { contract_id: contract(), rgb_amount: 0 };
    let mut colored = tx();
    let spent = format!("/data/.ldk/{}_transfer_info", &UTXO[..64]);
    assert_eq!(spent_transfer_info_path(&dir(), &colored).unwrap().text(), spent);
    match spend(&mut colored, 30, &from) {
        HtlcColoring::Noted(record) => {
            assert_eq!(record.path.text(), format!("/data/.ldk/{}_transfer_info", COLORED_TXID));
            assert_eq!(record.info.rgb_amount, 30);
            assert!(record.info.contract_id == contract());
        },
        _ => panic!("not noted"),
    }
    assert!(is_tx_colored(&colored));
    assert_eq!(colored.output.len(), 3);
    assert_eq!(colored.output[2].value, 0);
    assert_eq!(colored.output[2].script_pubkey, op_return(9));
    assert_eq!(colored.compute_txid().text(), COLORED_TXID);
}

#[test]
fn spends_that_are_not_colored_stay_as_they_are() {
    let from = TransferInfo { contract_id: contract(), rgb_amount: 0 };
    let mut one = tx();
    assert!(matches!(spend(&mut one, 0, &from), HtlcColoring::Plain));
    assert_eq!(one.compute_txid().text(), TXID);
    let other = TransferInfo { contract_id: ContractId { bytes: [2; 32] }, rgb_amount: 0 };
    assert!(matches!(spend(&mut one, 1, &other), HtlcColoring::Stuck));
    assert_eq!(one.compute_txid().text(), TXID);
    let mut signed = tx();
    signed.input[0].script_sig = vec![1];
    assert!(matches!(spend(&mut signed, 1, &from), HtlcColoring::Stuck));
    assert_eq!(signed.output.len(), 2);
    let mut empty = tx();
    empty.input.clear();
    assert!(spent_transfer_info_path(&dir(), &empty).is_none());
    assert!(matches!(spend(&mut empty, 1, &from), HtlcColoring::Stuck));
    assert!(!is_tx_colored(&empty));
}

#[test]
fn transfers_are_noted_by_their_transactions() {
    let one = transfer_info_path(&dir(), &Txid { bytes: bytes_up() });
    assert_eq!(one.text(), format!("/data/.ldk/{}_transfer_info", &UTXO[..64]));
    assert!(!one.same(&transfer_info_path(&dir(), &Txid { bytes: [0; 32] })));
}

fn closing() -> ClosingTransaction {
    ClosingTransaction {
        built: tx(),
        to_holder_value_sat: 1000,
        to_counterparty_value_sat: 2000,
        to_holder_script: key_script(7),
        to_counterparty_script: key_script(8),
    }
}

#[test]
fn closings_pay_both_sides() {
    let coloring = closing_coloring(&closing(), &info(60, 40)).unwrap();
    assert_eq!(coloring.asset_info_map.len(), 1);
    assert!(coloring.asset_info_map[0].0 == contract());
    let outputs = &coloring.asset_info_map[0].1.output_map;
    assert_eq!(outputs.len(), 2);
    assert_eq!((outputs[&0], outputs[&1]), (60, 40));
    assert_eq!(coloring.static_blinding, Some(STATIC_BLINDING));
    assert_eq!(STATIC_BLINDING, 777);
    assert_eq!(coloring.ln_tx_type, LnTransactionType::Closing);
    let mut one_side = closing();
    one_side.to_counterparty_value_sat = 0;
    one_side.to_counterparty_script = vec![];
    let coloring = closing_coloring(&one_side, &info(60, 40)).unwrap();
    assert_eq!(coloring.asset_info_map[0].1.output_map.len(), 1);
    let mut lost = closing();
    lost.to_holder_script = key_script(9);
    assert!(closing_coloring(&lost, &info(60, 40)).is_none());
}

fn close_of(
    tx: &mut ClosingTransaction,
    local: u64,
    remote: u64,
    executor: Option<&Recorder>,
) -> Option<TransferRecord> {
    let mut settlements = Settlements::new(executor);
    color_closing(&wallet(), tx, &info(local, remote), &dir(), &disk(local, remote), &mut settlements)
}

#[test]
fn equal_shares_go_to_the_holder() {
    for (holder, other, position) in [(7, 8, 0), (8, 7, 1)] {
        for _ in 0..20 {
            let executor = Recorder::new();
            let mut tx = closing();
            tx.to_holder_script = key_script(holder);
            tx.to_counterparty_script = key_script(other);
            assert_eq!(holder_position(&tx), Some(position));
            close_of(&mut tx, 50, 50, Some(&executor)).unwrap();
            let claim = format!("claim {} {}:{} {}", WITNESS, TXID, position, contract().text());
            assert_eq!(executor.calls()[2], claim);
        }
    }
    let mut unpaid = closing();
    unpaid.to_holder_value_sat = 0;
    assert_eq!(holder_position(&unpaid), None);
}

#[test]
fn closings_are_colored_and_noted() {
    let executor = Recorder::new();
    let mut tx = closing();
    let record =
        close_of(&mut tx, 60, 40, Some(&executor)).unwrap();
    assert_eq!(record.path.text(), format!("/data/.ldk/{}_transfer_info", COLORED_TXID));
    assert_eq!(record.info.rgb_amount, 60);
    assert_eq!(tx.built.compute_txid().text(), COLORED_TXID);
    assert_eq!(executor.calls().len(), 3);
    let mut stuck = closing();
    assert!(close_of(&mut stuck, 60, 40, None).is_none());
    assert_eq!(stuck.built.compute_txid().text(), TXID);
    stuck.to_holder_script = key_script(9);
    assert!(close_of(&mut stuck, 60, 40, Some(&executor)).is_none());
    assert_eq!(executor.calls().len(), 3);
}
