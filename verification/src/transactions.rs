//! The coloring of a channel's transactions: commitments, payments in flight, and closings.

use std::collections::HashMap;
use vstd::prelude::*;

use crate::chain::{
    is_extractable, is_unsigned, lemma_script_from, outputs_view, script_from, script_position, txid_of,
    txid_text, Psbt, PsbtView, Transaction, TxOutView, TxView, Txid,
};
use crate::channel::{is_plain_name, lemma_hex_name, lemma_plain_name, ChannelId, RgbInfo, TransferInfo};
use crate::closing::{goes_to, pays};
use crate::coloring::{
    hashes, AssetColoringInfo, ColoringInfo, Disk, LnTransactionType, OutputMap,
};
use crate::contract::{contract_text, ContractId};
use crate::error::{failure_text, law_failure_text, Failure, RgbLibError};
use crate::executor::{asked_since, goes_on, SettlementExecutor, Settlements};
use crate::path::{FilePath, PathView};
use crate::payments::{
    law_notes_agree, law_totals_exist, notes_agree, readable, sum_htlcs, totals_of, Htlc, HtlcSums,
    HtlcTotals, PaymentStore, StoreView,
};
use crate::state_file::state_hash_of;
use crate::text::join_two;
use crate::types::{Fascia, FileContent, WitnessOrd};
use crate::wallet::Wallet;

verus! {

/// The blinding that all assets are colored with.
pub const STATIC_BLINDING: u64 = 777;

/// An error of a channel.
#[derive(Debug, Clone)]
pub enum ChannelError {
    /// The peer is warned.
    Warn(String),
}

/// A transaction that either side of a channel can publish.
#[derive(Debug, Clone)]
pub struct CommitmentTransaction {
    pub built: Transaction,
    pub txid: Txid,
    /// The payments in flight.
    pub htlcs: Vec<Htlc>,
    /// The output that can be revoked, if there is one.
    pub revokeable_output_index: Option<usize>,
}

/// A transaction that closes a channel.
#[derive(Debug, Clone)]
pub struct ClosingTransaction {
    pub built: Transaction,
    pub to_holder_value_sat: u64,
    pub to_counterparty_value_sat: u64,
    pub to_holder_script: Vec<u8>,
    pub to_counterparty_script: Vec<u8>,
}

/// A note of a transfer, and where it is to be written.
#[derive(Debug, Clone)]
pub struct TransferRecord {
    pub path: FilePath,
    pub info: TransferInfo,
}

/// Where the transfer of a transaction is noted.
pub open spec fn transfer_path(dir: PathView, txid: Seq<u8>) -> PathView {
    dir.join(txid_text(txid) + "_transfer_info"@)
}

/// Where the transfer of a transaction is noted.
pub fn transfer_info_path(ldk_data_dir: &FilePath, txid: &Txid) -> (r: FilePath)
    ensures
        r@ == transfer_path(ldk_data_dir@, txid.bytes@),
{
    ldk_data_dir.join(join_two(txid.text().as_str(), "_transfer_info").as_str())
}

/// The transfers of two transactions are noted in different files.
pub proof fn law_transfer_files(dir: PathView, a: Seq<u8>, b: Seq<u8>)
    requires
        a.len() == 32,
        b.len() == 32,
    ensures
        transfer_path(dir, a).file_name() == transfer_path(dir, b).file_name() <==> a == b,
        transfer_path(dir, a) == transfer_path(dir, b) <==> a == b,
{
    lemma_transfer_name(dir, a);
    lemma_transfer_name(dir, b);
    crate::codec::law_hex_round_trip(a.reverse());
    crate::codec::law_hex_round_trip(b.reverse());
    if transfer_path(dir, a).file_name() == transfer_path(dir, b).file_name() {
        let name_a = txid_text(a) + "_transfer_info"@;
        let name_b = txid_text(b) + "_transfer_info"@;
        assert(name_a.subrange(0, 64) =~= txid_text(a));
        assert(name_b.subrange(0, 64) =~= txid_text(b));
        assert(a =~= a.reverse().reverse());
        assert(b =~= b.reverse().reverse());
    }
}

/// The name of the file is plain.
proof fn lemma_transfer_name(dir: PathView, txid: Seq<u8>)
    requires
        txid.len() == 32,
    ensures
        transfer_path(dir, txid).file_name() == Some(txid_text(txid) + "_transfer_info"@),
        txid_text(txid).len() == 64,
{
    reveal_strlit("_transfer_info");
    lemma_hex_name(txid.reverse());
    let name = txid_text(txid) + "_transfer_info"@;
    assert(is_plain_name(name)) by {
        assert forall|i: int| 0 <= i < name.len() implies name[i] != '/' && name[i] != '.' by {
            if i < 64 {
                assert(name[i] == txid_text(txid)[i]);
            } else {
                assert(name[i] == "_transfer_info"@[i - 64]);
            }
        }
    }
    lemma_plain_name(dir, name);
}

/// The number of an output, as transactions count.
pub open spec fn vout_of(index: int) -> u32 {
    (index as usize) as u32
}

/// The number of an output, as transactions count.
fn vout_at(index: usize) -> (r: u32)
    ensures
        r == vout_of(index as int),
{
    #[verifier::truncate]
    (index as u32)
}

/// The sides of a channel without the payments in flight. None, where more is in flight than
/// a side has.
pub open spec fn sides(totals: HtlcTotals, channel: RgbInfo) -> Option<(u64, u64)> {
    match totals.last {
        None => Some((channel.local_rgb_amount, channel.remote_rgb_amount)),
        Some(last) => if totals.offered <= last.local_rgb_amount && totals.received
            <= last.remote_rgb_amount {
            Some(
                (
                    (last.local_rgb_amount - totals.offered) as u64,
                    (last.remote_rgb_amount - totals.received) as u64,
                ),
            )
        } else {
            None
        },
    }
}

/// The sides of a channel without the payments in flight.
pub fn split_sides(sums: &HtlcSums, channel: &RgbInfo) -> (r: Option<(u64, u64)>)
    ensures
        forall|store: StoreView|
            r == #[trigger] sides(sums.with_store(store), *channel),
        sums.last matches Some(last) ==> sums.offered <= last.local_rgb_amount && sums.received
            <= last.remote_rgb_amount ==> (r matches Some((local, remote)) && local + sums.offered
            == last.local_rgb_amount && remote + sums.received == last.remote_rgb_amount),
{
    match &sums.last {
        None => Some((channel.local_rgb_amount, channel.remote_rgb_amount)),
        Some(last) => {
            if sums.offered <= last.local_rgb_amount && sums.received <= last.remote_rgb_amount {
                Some(
                    (
                        last.local_rgb_amount - sums.offered,
                        last.remote_rgb_amount - sums.received,
                    ),
                )
            } else {
                None
            }
        },
    }
}

/// Nothing is lost in a commitment: what the sides keep and what is in flight is what the
/// channel has, as the last payment noted it.
pub proof fn law_sides(totals: HtlcTotals, channel: RgbInfo)
    ensures
        sides(totals, channel) matches Some((local, remote)) ==> match totals.last {
            Some(last) => {
                &&& local + totals.offered == last.local_rgb_amount
                &&& remote + totals.received == last.remote_rgb_amount
            },
            None => local == channel.local_rgb_amount && remote == channel.remote_rgb_amount,
        },
{
}

/// A commitment of a channel whose notes agree with its sides shares out all that the channel
/// has: what each side keeps, with what it has in flight, is what the side has.
pub proof fn law_commitment_balance(
    store: StoreView,
    dir: PathView,
    channel_id: Seq<u8>,
    channel: RgbInfo,
    counterparty: bool,
    htlcs: Seq<Htlc>,
    totals: HtlcTotals,
)
    requires
        channel_id.len() == 32,
        notes_agree(store, dir, channel_id, channel),
        totals_of(store, dir, channel_id, channel, counterparty, htlcs, htlcs.len()) == Some(
            totals,
        ),
    ensures
        sides(totals, channel) matches Some((local, remote)) ==> {
            &&& local + totals.offered == channel.local_rgb_amount
            &&& remote + totals.received == channel.remote_rgb_amount
        },
{
    law_notes_agree(store, dir, channel_id, channel, counterparty, htlcs, htlcs.len());
}

/// What goes to the output of the other side and to the own one. The commitment of the
/// counterparty pays the local side as the other one.
pub open spec fn output_amounts(sides: (u64, u64), counterparty: bool) -> (u64, u64) {
    if counterparty {
        (sides.0, sides.1)
    } else {
        (sides.1, sides.0)
    }
}

/// What goes to the output of the other side and to the own one.
fn paid_amounts(split: (u64, u64), counterparty: bool) -> (r: (u64, u64))
    ensures
        r == output_amounts(split, counterparty),
{
    if counterparty {
        (split.0, split.1)
    } else {
        (split.1, split.0)
    }
}

/// How much goes to which output of a commitment.
pub open spec fn commitment_outputs(
    totals: HtlcTotals,
    amounts: (u64, u64),
    outputs: Seq<TxOutView>,
    payment_script: Seq<u8>,
    revokeable: Option<usize>,
) -> Map<u32, u64> {
    let paid = match script_from(outputs, payment_script, 0) {
        Some(index) => totals.outputs.insert(vout_of(index), amounts.0),
        None => totals.outputs,
    };
    match revokeable {
        Some(index) => paid.insert(vout_of(index as int), amounts.1),
        None => paid,
    }
}

/// The coloring of a transaction with one asset.
fn color_one(
    contract_id: ContractId,
    output_map: OutputMap,
    nonce: Option<u64>,
    ln_tx_type: LnTransactionType,
) -> (r: ColoringInfo)
    ensures
        colors_one(r, contract_id, output_map@, nonce, ln_tx_type),
{
    let mut asset_info_map: Vec<(ContractId, AssetColoringInfo)> = Vec::new();
    asset_info_map.push(
        (contract_id, AssetColoringInfo { output_map, static_blinding: Some(STATIC_BLINDING) }),
    );
    ColoringInfo { asset_info_map, static_blinding: Some(STATIC_BLINDING), nonce, ln_tx_type }
}

/// Whether a coloring is that of a transaction with this asset alone.
pub open spec fn colors_one(
    info: ColoringInfo,
    contract_id: ContractId,
    outputs: Map<u32, u64>,
    nonce: Option<u64>,
    kind: LnTransactionType,
) -> bool {
    &&& info.well_formed()
    &&& info.asset_info_map@.len() == 1
    &&& info.asset_info_map@[0].0 == contract_id
    &&& info.asset_info_map@[0].1.output_map@ == outputs
    &&& info.asset_info_map@[0].1.static_blinding == Some(STATIC_BLINDING)
    &&& info.static_blinding == Some(STATIC_BLINDING)
    &&& info.nonce == nonce
    &&& info.ln_tx_type == kind
}

/// The script of the output that pays the side that does not own a commitment. The counterparty's
/// commitment pays the holder, and the holder's own one the counterparty.
pub open spec fn other_script(counterparty: bool, holder: Seq<u8>, other: Seq<u8>) -> Seq<u8> {
    if counterparty {
        holder
    } else {
        other
    }
}

/// The script of the output that pays the side that does not own a commitment.
pub fn paid_script(counterparty: bool, holder: Vec<u8>, other: Vec<u8>) -> (r: Vec<u8>)
    ensures
        r@ == other_script(counterparty, holder@, other@),
{
    if counterparty {
        holder
    } else {
        other
    }
}

/// The coloring of a commitment, given what each side has without the payments in flight, and the
/// script that pays each side.
pub fn commitment_coloring(
    sums: HtlcSums,
    split: (u64, u64),
    counterparty: bool,
    contract_id: ContractId,
    commitment: &CommitmentTransaction,
    holder_script: Vec<u8>,
    counterparty_script: Vec<u8>,
) -> (r: ColoringInfo)
    ensures
        forall|store: StoreView|
            colors_one(
                r,
                contract_id,
                #[trigger] commitment_outputs(
                    sums.with_store(store),
                    output_amounts(split, counterparty),
                    commitment.built@.output,
                    other_script(counterparty, holder_script@, counterparty_script@),
                    commitment.revokeable_output_index,
                ),
                None,
                LnTransactionType::Commitment,
            ),
{
    broadcast use vstd::std_specs::hash::group_hash_axioms;

    let amounts: (u64, u64) = paid_amounts(split, counterparty);
    let payment_script: Vec<u8> = paid_script(counterparty, holder_script, counterparty_script);
    let mut outputs: OutputMap = sums.outputs;
    assert(outputs_view(commitment.built.output@) =~= commitment.built@.output);
    if let Some(index) = _counterparty_output_index(&commitment.built, &payment_script) {
        outputs.insert(vout_at(index), amounts.0);
    }
    if let Some(index) = commitment.revokeable_output_index {
        outputs.insert(vout_at(index), amounts.1);
    }
    color_one(contract_id, outputs, None, LnTransactionType::Commitment)
}

/// The output that pays the other side, by the script that locks it.
pub fn _counterparty_output_index(tx: &Transaction, payment_script: &Vec<u8>) -> (r: Option<usize>)
    ensures
        match r {
            Some(index) => script_from(tx@.output, payment_script@, 0) == Some(index as int) && index
                < tx.output.len(),
            None => script_from(tx@.output, payment_script@, 0) is None,
        },
{
    assert(outputs_view(tx.output@) =~= tx@.output);
    script_position(&tx.output, payment_script)
}

/// The transaction that coloring makes of another.
pub open spec fn colored_tx(tx: TxView, hash: Seq<u8>) -> TxView {
    PsbtView { unsigned_tx: tx, output_records: tx.output.len() }.colored(hash).unsigned_tx
}

/// What coloring a transaction gave.
enum Colored {
    /// The transaction that carries the hash.
    Tx(Transaction),
    /// There is no state hash.
    NoHash(RgbLibError),
    /// The transaction is signed already, or pays more than it spends.
    BadTx,
}

/// Colors a transaction of a channel.
fn color_tx<E: SettlementExecutor>(
    wallet: &Wallet,
    tx: &Transaction,
    coloring: &ColoringInfo,
    own: Option<u32>,
    disk: &Disk,
    settlements: &mut Settlements<'_, E>,
) -> (r: Colored)
    requires
        coloring.asset_info_map@.len() == 1,
    ensures
        goes_on(*old(settlements), *final(settlements)),
        if !is_unsigned(tx@) {
            &&& r is BadTx
            &&& asked_since(*old(settlements), *final(settlements)).len() == 0
        } else {
            exists|hash: Result<Seq<u8>, Failure>|
                {
                    &&& #[trigger] hashes(
                        wallet.ldk_data_dir@,
                        *disk,
                        coloring.ln_tx_type,
                        coloring.asset_info_map@[0].0@,
                        tx@,
                        coloring.asset_info_map@[0].1.output_map@,
                        own,
                        asked_since(*old(settlements), *final(settlements)),
                        hash,
                    )
                    &&& match (hash, r) {
                        (Ok(h), Colored::Tx(colored)) => is_extractable(colored_tx(tx@, h))
                            && colored@ == colored_tx(tx@, h),
                        (Ok(h), Colored::BadTx) => !is_extractable(colored_tx(tx@, h)),
                        (Err(e), Colored::NoHash(error)) => crate::error::failure(error) == e,
                        _ => false,
                    }
                }
        },
{
    let mut psbt: Psbt = match Psbt::from_unsigned_tx(tx.copy()) {
        Some(psbt) => psbt,
        None => {
            return Colored::BadTx;
        },
    };
    assert(psbt@ == (PsbtView { unsigned_tx: tx@, output_records: tx@.output.len() }));
    let answer: Result<(Fascia, FileContent), RgbLibError> = wallet.color_psbt_for(
        &mut psbt,
        coloring,
        own,
        disk,
        settlements,
    );
    match answer {
        Err(e) => Colored::NoHash(e),
        Ok((fascia, _)) => match psbt.extract_tx() {
            None => Colored::BadTx,
            Some(colored) => {
                let consumed: Result<(), RgbLibError> = wallet.consume_fascia(
                    fascia,
                    colored.compute_txid(),
                    Some(WitnessOrd::Ignored),
                );
                Colored::Tx(colored)
            },
        },
    }
}

/// What is transferred to the holder of a commitment.
pub open spec fn held_amount(totals: HtlcTotals, amounts: (u64, u64), counterparty: bool) -> nat {
    if counterparty {
        amounts.0 as nat + totals.offered
    } else {
        amounts.1 as nat + totals.received
    }
}

/// What coloring a commitment comes to.
pub enum CommitmentView {
    /// The commitment carries the hash, and the transfer is noted.
    Done { tx: TxView, rgb_amount: u64 },
    /// The commitment stays as it is, and the peer is warned.
    Warned(Seq<char>),
    /// The commitment cannot be colored.
    Stuck,
}

/// What coloring a commitment comes to, given what the payments in flight come to and the hash
/// of the state.
pub open spec fn commitment_view(
    totals: Option<HtlcTotals>,
    channel: RgbInfo,
    counterparty: bool,
    tx: TxView,
    hash: Result<Seq<u8>, Failure>,
) -> CommitmentView {
    match totals {
        None => CommitmentView::Stuck,
        Some(totals) => match sides(totals, channel) {
            None => CommitmentView::Stuck,
            Some(split) => if !is_unsigned(tx) {
                CommitmentView::Stuck
            } else {
                match hash {
                    Err(e) => CommitmentView::Warned(
                        "Failed to color commitment TX: "@ + failure_text(e),
                    ),
                    Ok(hash) => {
                        let held = held_amount(
                            totals,
                            output_amounts(split, counterparty),
                            counterparty,
                        );
                        if is_extractable(colored_tx(tx, hash)) && held <= u64::MAX {
                            CommitmentView::Done {
                                tx: colored_tx(tx, hash),
                                rgb_amount: held as u64,
                            }
                        } else {
                            CommitmentView::Stuck
                        }
                    },
                }
            },
        },
    }
}

/// Whether a commitment became and noted what coloring it comes to.
pub open spec fn commits(
    expected: CommitmentView,
    before: CommitmentTransaction,
    after: CommitmentTransaction,
    contract_id: ContractId,
    ldk_data_dir: PathView,
    r: Option<Result<TransferRecord, ChannelError>>,
) -> bool {
    &&& after.htlcs == before.htlcs
    &&& after.revokeable_output_index == before.revokeable_output_index
    &&& match (expected, r) {
        (CommitmentView::Done { tx, rgb_amount }, Some(Ok(record))) => {
            &&& after.built@ == tx
            &&& after.txid.bytes@ == txid_of(tx)
            &&& record.path@ == transfer_path(ldk_data_dir, txid_of(tx))
            &&& record.info == (TransferInfo { contract_id, rgb_amount })
        },
        (CommitmentView::Warned(text), Some(Err(ChannelError::Warn(message)))) => {
            &&& message@ == text
            &&& after.built@ == before.built@
            &&& after.txid == before.txid
        },
        (CommitmentView::Stuck, None) => {
            &&& after.built@ == before.built@
            &&& after.txid == before.txid
        },
        _ => false,
    }
}

/// A commitment that is colored holds the colored transaction and its identifier, and is noted under
/// that identifier with the channel's contract and the amount. One that is not stays as it is, with the
/// warning or nothing to note. The payments in flight and the output that can be revoked stay.
pub proof fn law_commitment_noted(
    expected: CommitmentView,
    before: CommitmentTransaction,
    after: CommitmentTransaction,
    contract_id: ContractId,
    ldk_data_dir: PathView,
    r: Option<Result<TransferRecord, ChannelError>>,
)
    requires
        commits(expected, before, after, contract_id, ldk_data_dir, r),
    ensures
        after.htlcs@ == before.htlcs@,
        after.revokeable_output_index == before.revokeable_output_index,
        expected !is Done ==> after.built@ == before.built@ && after.txid.bytes@
            == before.txid.bytes@,
        match expected {
            CommitmentView::Done { tx, rgb_amount } => {
                &&& r matches Some(answer)
                &&& answer matches Ok(record)
                &&& after.built@ == tx
                &&& after.txid.bytes@ == txid_of(after.built@)
                &&& record.info.contract_id == contract_id
                &&& record.info.rgb_amount == rgb_amount
                &&& txid_of(tx).len() == 32 ==> record.path@.file_name() == Some(
                    txid_text(txid_of(tx)) + "_transfer_info"@,
                )
            },
            CommitmentView::Warned(text) => {
                &&& r matches Some(answer)
                &&& answer matches Err(ChannelError::Warn(message))
                &&& message@ == text
            },
            CommitmentView::Stuck => r is None,
        },
{
    if let CommitmentView::Done { tx, rgb_amount } = expected {
        if txid_of(tx).len() == 32 {
            lemma_transfer_name(ldk_data_dir, txid_of(tx));
        }
    }
}

/// Colors a commitment of a channel: notes the payments in flight, splits the channel between
/// its sides, and puts the hash of the genesis into the transaction. `holder_script` and
/// `counterparty_script` are the scripts that pay each side. Nothing is settled. None, where the
/// commitment cannot be colored.
pub fn color_commitment<E: SettlementExecutor>(
    wallet: &Wallet,
    channel_id: &ChannelId,
    ldk_data_dir: &FilePath,
    channel: &RgbInfo,
    holder_script: Vec<u8>,
    counterparty_script: Vec<u8>,
    commitment: &mut CommitmentTransaction,
    counterparty: bool,
    store: &mut PaymentStore,
    disk: &Disk,
    settlements: &mut Settlements<'_, E>,
) -> (r: Option<Result<TransferRecord, ChannelError>>)
    ensures
        final(settlements).executor() == old(settlements).executor(),
        final(settlements).calls() == old(settlements).calls(),
        ({
            let totals = totals_of(
                old(store)@,
                ldk_data_dir@,
                channel_id.0@,
                *channel,
                counterparty,
                old(commitment).htlcs@,
                old(commitment).htlcs@.len(),
            );
            let hash = state_hash_of(
                wallet.ldk_data_dir@,
                disk.state_file@,
                contract_text(channel.contract_id@),
            );
            &&& final(commitment).htlcs == old(commitment).htlcs
            &&& final(commitment).revokeable_output_index == old(
                commitment,
            ).revokeable_output_index
            &&& totals matches Some(t) ==> final(store)@ == t.store
            &&& match (
                commitment_view(totals, *channel, counterparty, old(commitment).built@, hash),
                r,
            ) {
                (CommitmentView::Done { tx, rgb_amount }, Some(Ok(record))) => {
                    &&& final(commitment).built@ == tx
                    &&& final(commitment).txid.bytes@ == txid_of(tx)
                    &&& record.path@ == transfer_path(ldk_data_dir@, txid_of(tx))
                    &&& record.info == (TransferInfo {
                        contract_id: channel.contract_id,
                        rgb_amount,
                    })
                },
                (CommitmentView::Warned(text), Some(Err(ChannelError::Warn(message)))) => {
                    &&& message@ == text
                    &&& final(commitment).built@ == old(commitment).built@
                    &&& final(commitment).txid == old(commitment).txid
                },
                (CommitmentView::Stuck, None) => {
                    &&& final(commitment).built@ == old(commitment).built@
                    &&& final(commitment).txid == old(commitment).txid
                },
                _ => false,
            }
            &&& commits(
                commitment_view(totals, *channel, counterparty, old(commitment).built@, hash),
                *old(commitment),
                *final(commitment),
                channel.contract_id,
                ldk_data_dir@,
                r,
            )
        }),
{
    let sums: HtlcSums = match sum_htlcs(
        store,
        ldk_data_dir,
        channel_id,
        channel,
        counterparty,
        &commitment.htlcs,
    ) {
        Some(sums) => sums,
        None => {
            return None;
        },
    };
    let ghost totals = sums.with_store(store@);
    let split: (u64, u64) = match split_sides(&sums, channel) {
        Some(split) => split,
        None => {
            assert(sides(totals, *channel) is None);
            return None;
        },
    };
    assert(sides(totals, *channel) == Some(split));
    let amounts: (u64, u64) = paid_amounts(split, counterparty);
    let offered: u64 = sums.offered;
    let received: u64 = sums.received;
    let coloring: ColoringInfo = commitment_coloring(
        sums,
        split,
        counterparty,
        channel.contract_id,
        commitment,
        holder_script,
        counterparty_script,
    );
    assert(colors_one(
        coloring,
        channel.contract_id,
        commitment_outputs(
            totals,
            amounts,
            commitment.built@.output,
            other_script(counterparty, holder_script@, counterparty_script@),
            commitment.revokeable_output_index,
        ),
        None,
        LnTransactionType::Commitment,
    ));
    let ghost before = *settlements;
    let colored: Colored = color_tx(
        wallet,
        &commitment.built,
        &coloring,
        None,
        disk,
        settlements,
    );
    assert(settlements.calls() =~= before.calls()) by {
        assert(asked_since(before, *settlements).len() == 0);
    }
    let tx: Transaction = match colored {
        Colored::BadTx => {
            return None;
        },
        Colored::NoHash(e) => {
            proof {
                law_failure_text(e);
            }
            return Some(
                Err(
                    ChannelError::Warn(
                        join_two("Failed to color commitment TX: ", e.text().as_str()),
                    ),
                ),
            );
        },
        Colored::Tx(tx) => tx,
    };
    let held: Option<u64> = if counterparty {
        amounts.0.checked_add(offered)
    } else {
        amounts.1.checked_add(received)
    };
    let rgb_amount: u64 = match held {
        Some(rgb_amount) => rgb_amount,
        None => {
            return None;
        },
    };
    let txid: Txid = tx.compute_txid();
    commitment.built = tx;
    commitment.txid = txid;
    Some(
        Ok(
            TransferRecord {
                path: transfer_info_path(ldk_data_dir, &txid),
                info: TransferInfo { contract_id: channel.contract_id, rgb_amount },
            },
        ),
    )
}

/// What coloring a transaction that spends a payment in flight comes to.
pub enum HtlcColoring {
    /// No asset is paid, and nothing is colored.
    Plain,
    /// The transaction carries the hash. Holds the note of the transfer.
    Noted(TransferRecord),
    /// The transaction cannot be colored.
    Stuck,
}

/// The note of the commitment that a transaction spends.
pub open spec fn spent_transfer_path(dir: PathView, tx: TxView) -> Option<PathView> {
    if tx.input.len() == 0 {
        None
    } else {
        Some(transfer_path(dir, tx.input[0].txid))
    }
}

/// The note of the commitment that a transaction spends.
pub fn spent_transfer_info_path(ldk_data_dir: &FilePath, tx: &Transaction) -> (r: Option<FilePath>)
    ensures
        match r {
            Some(path) => spent_transfer_path(ldk_data_dir@, tx@) == Some(path@),
            None => spent_transfer_path(ldk_data_dir@, tx@) is None,
        },
{
    if tx.input.len() == 0 {
        None
    } else {
        assert(tx@.input[0] == tx.input@[0]@);
        Some(transfer_info_path(ldk_data_dir, &tx.input[0].previous_output.txid))
    }
}

/// What coloring a transaction that spends a payment in flight makes of it and notes, given the
/// hash of the state. Where the transaction is not colored, it stays as it is.
pub open spec fn spends_htlc(
    before: TxView,
    after: TxView,
    htlc: Htlc,
    contract_id: ContractId,
    ldk_data_dir: PathView,
    hash: Result<Seq<u8>, Failure>,
    r: HtlcColoring,
) -> bool {
    &&& !(r is Noted) ==> after == before
    &&& match htlc.asset_amount() {
        None => r is Plain,
        Some(amount) => if before.input.len() == 0 || !is_unsigned(before) || hash is Err {
            r is Stuck
        } else {
            let tx = colored_tx(before, hash->Ok_0);
            &&& after == tx
            &&& r matches HtlcColoring::Noted(record)
            &&& record.path@ == transfer_path(ldk_data_dir, txid_of(tx))
            &&& record.info == (TransferInfo { contract_id, rgb_amount: amount })
        },
    }
}

/// A transaction that spends a payment in flight stays plain where no asset is paid. Else it is colored
/// whenever it spends something, is not signed and the hash is known: it differs in the carried hash
/// alone, and is noted under its own identifier with the contract and all that the payment pays. In any
/// other case it cannot be colored, and stays as it is.
pub proof fn law_htlc_spent(
    before: TxView,
    after: TxView,
    htlc: Htlc,
    contract_id: ContractId,
    ldk_data_dir: PathView,
    hash: Result<Seq<u8>, Failure>,
    r: HtlcColoring,
)
    requires
        spends_htlc(before, after, htlc, contract_id, ldk_data_dir, hash, r),
    ensures
        ({
            let pays = htlc.rgb_payment is Some && (htlc.rgb_payment->0).1 > 0;
            let unsigned = forall|i: int|
                0 <= i < before.input.len() ==> (#[trigger] before.input[i]).script_sig.len() == 0;
            &&& !pays ==> r is Plain && after == before
            &&& pays && !(before.input.len() > 0 && unsigned && hash is Ok) ==> r is Stuck && after
                == before
            &&& pays && before.input.len() > 0 && unsigned && hash is Ok ==> {
                &&& r matches HtlcColoring::Noted(record)
                &&& after == (PsbtView {
                    unsigned_tx: before,
                    output_records: before.output.len(),
                }).colored(hash->Ok_0).unsigned_tx
                &&& record.info.contract_id == contract_id
                &&& record.info.rgb_amount == (htlc.rgb_payment->0).1
                &&& txid_of(after).len() == 32 ==> record.path@.file_name() == Some(
                    txid_text(txid_of(after)) + "_transfer_info"@,
                )
            }
        }),
{
    if txid_of(after).len() == 32 {
        lemma_transfer_name(ldk_data_dir, txid_of(after));
    }
}

/// Colors a transaction that spends a payment in flight: puts the hash of the genesis into it, and
/// notes the transfer. `commitment` is the note of the commitment that is spent. Nothing is
/// settled. Where the transaction is not colored, it stays as it is.
pub fn color_htlc<E: SettlementExecutor>(
    wallet: &Wallet,
    htlc_tx: &mut Transaction,
    htlc: &Htlc,
    ldk_data_dir: &FilePath,
    commitment: &TransferInfo,
    disk: &Disk,
    settlements: &mut Settlements<'_, E>,
) -> (r: HtlcColoring)
    ensures
        final(settlements).executor() == old(settlements).executor(),
        final(settlements).calls() == old(settlements).calls(),
        ({
            let hash = state_hash_of(
                wallet.ldk_data_dir@,
                disk.state_file@,
                contract_text(commitment.contract_id@),
            );
            &&& !(r is Noted) ==> final(htlc_tx)@ == old(htlc_tx)@
            &&& match htlc.asset_amount() {
                None => r is Plain,
                Some(amount) => if old(htlc_tx)@.input.len() == 0 || !is_unsigned(old(htlc_tx)@)
                    || hash is Err {
                    r is Stuck
                } else {
                    let tx = colored_tx(old(htlc_tx)@, hash->Ok_0);
                    let txid = txid_of(tx);
                    &&& final(htlc_tx)@ == tx
                    &&& r matches HtlcColoring::Noted(record)
                    &&& record.path@ == transfer_path(ldk_data_dir@, txid)
                    &&& record.info == (TransferInfo {
                        contract_id: commitment.contract_id,
                        rgb_amount: amount,
                    })
                },
            }
            &&& spends_htlc(
                old(htlc_tx)@,
                final(htlc_tx)@,
                *htlc,
                commitment.contract_id,
                ldk_data_dir@,
                hash,
                r,
            )
        }),
{
    broadcast use vstd::std_specs::hash::group_hash_axioms;

    let amount: u64 = match htlc.rgb_amount() {
        Some(amount) => amount,
        None => {
            return HtlcColoring::Plain;
        },
    };
    if htlc_tx.input.len() == 0 {
        return HtlcColoring::Stuck;
    }
    let mut outputs: OutputMap = HashMap::new();
    outputs.insert(0, amount);
    let coloring: ColoringInfo = color_one(
        commitment.contract_id,
        outputs,
        Some(1),
        LnTransactionType::Htlc,
    );
    let ghost before = *settlements;
    let colored: Colored = color_tx(wallet, htlc_tx, &coloring, None, disk, settlements);
    assert(settlements.calls() =~= before.calls()) by {
        assert(asked_since(before, *settlements).len() == 0);
    }
    match colored {
        Colored::BadTx => HtlcColoring::Stuck,
        Colored::NoHash(_) => HtlcColoring::Stuck,
        Colored::Tx(tx) => {
            let txid: Txid = tx.compute_txid();
            *htlc_tx = tx;
            HtlcColoring::Noted(
                TransferRecord {
                    path: transfer_info_path(ldk_data_dir, &txid),
                    info: TransferInfo { contract_id: commitment.contract_id, rgb_amount: amount },
                },
            )
        },
    }
}

/// How much goes to which output of a transaction that closes a channel. None, where a side is
/// to be paid and no output is locked by its script.
pub open spec fn closing_outputs(closing: ClosingTransaction, channel: RgbInfo) -> Option<
    Map<u32, u64>,
> {
    let outputs = closing.built@.output;
    let holder = if closing.to_holder_value_sat > 0 {
        match script_from(outputs, closing.to_holder_script@, 0) {
            Some(index) => Some(
                Map::<u32, u64>::empty().insert(vout_of(index), channel.local_rgb_amount),
            ),
            None => None,
        }
    } else {
        Some(Map::empty())
    };
    match holder {
        None => None,
        Some(paid) => if closing.to_counterparty_value_sat > 0 {
            match script_from(outputs, closing.to_counterparty_script@, 0) {
                Some(index) => Some(paid.insert(vout_of(index), channel.remote_rgb_amount)),
                None => None,
            }
        } else {
            Some(paid)
        },
    }
}

/// The holder's output in a transaction that closes a channel, where the holder is paid.
pub open spec fn holder_vout(closing: ClosingTransaction) -> Option<u32> {
    if closing.to_holder_value_sat > 0 {
        match script_from(closing.built@.output, closing.to_holder_script@, 0) {
            Some(index) => Some(vout_of(index)),
            None => None,
        }
    } else {
        None
    }
}

/// The holder's output in a transaction that closes a channel, where the holder is paid.
pub fn holder_position(closing: &ClosingTransaction) -> (r: Option<u32>)
    ensures
        r == holder_vout(*closing),
{
    if closing.to_holder_value_sat > 0 {
        assert(outputs_view(closing.built.output@) =~= closing.built@.output);
        match script_position(&closing.built.output, &closing.to_holder_script) {
            Some(index) => Some(vout_at(index)),
            None => None,
        }
    } else {
        None
    }
}

/// Where the holder is paid and the sides have different scripts, the holder's output gets the
/// holder's amount, and the holder's share of a settlement with that amount goes there and nowhere
/// else, also where the other side has the same amount.
pub proof fn law_closing_pays_holder(closing: ClosingTransaction, channel: RgbInfo, vout: u32)
    requires
        closing_outputs(closing, channel) is Some,
        closing.to_holder_value_sat > 0,
        closing.to_holder_script@ != closing.to_counterparty_script@,
        closing.built@.output.len() <= u32::MAX,
    ensures
        ({
            let outputs = closing_outputs(closing, channel)->0;
            let amount = channel.local_rgb_amount;
            &&& holder_vout(closing) matches Some(own)
            &&& closing.built@.output[own as int].script == closing.to_holder_script@
            &&& pays(outputs, own, amount)
            &&& goes_to(outputs, Some(own), amount, vout) <==> vout == own
        }),
        closing.to_counterparty_value_sat > 0 ==> exists|other: u32| pays(
            closing_outputs(closing, channel)->0,
            other,
            channel.remote_rgb_amount,
        ),
{
    let outputs = closing.built@.output;
    lemma_script_from(outputs, closing.to_holder_script@, 0);
    lemma_script_from(outputs, closing.to_counterparty_script@, 0);
    let paid = closing_outputs(closing, channel)->0;
    let holder = script_from(outputs, closing.to_holder_script@, 0)->0;
    assert(vout_of(holder) == holder);
    if closing.to_counterparty_value_sat > 0 {
        let counterparty = script_from(outputs, closing.to_counterparty_script@, 0)->0;
        assert(vout_of(counterparty) == counterparty);
        assert(holder != counterparty);
        assert(pays(paid, vout_of(counterparty), channel.remote_rgb_amount));
    }
    assert(pays(paid, vout_of(holder), channel.local_rgb_amount));
}

/// The coloring of a transaction that closes a channel.
pub fn closing_coloring(closing: &ClosingTransaction, channel: &RgbInfo) -> (r: Option<ColoringInfo>)
    ensures
        match (r, closing_outputs(*closing, *channel)) {
            (Some(info), Some(outputs)) => colors_one(
                info,
                channel.contract_id,
                outputs,
                None,
                LnTransactionType::Closing,
            ),
            (None, None) => true,
            _ => false,
        },
{
    broadcast use vstd::std_specs::hash::group_hash_axioms;

    assert(outputs_view(closing.built.output@) =~= closing.built@.output);
    let mut outputs: OutputMap = HashMap::new();
    assert(outputs@ =~= Map::empty());
    if closing.to_holder_value_sat > 0 {
        match script_position(&closing.built.output, &closing.to_holder_script) {
            Some(index) => {
                outputs.insert(vout_at(index), channel.local_rgb_amount);
            },
            None => {
                return None;
            },
        }
    }
    if closing.to_counterparty_value_sat > 0 {
        match script_position(&closing.built.output, &closing.to_counterparty_script) {
            Some(index) => {
                outputs.insert(vout_at(index), channel.remote_rgb_amount);
            },
            None => {
                return None;
            },
        }
    }
    Some(color_one(channel.contract_id, outputs, None, LnTransactionType::Closing))
}

/// What coloring a transaction that closes a channel makes of it and notes, given the hash of
/// the settled state.
pub open spec fn closed_with(
    before: ClosingTransaction,
    after: ClosingTransaction,
    channel: RgbInfo,
    ldk_data_dir: PathView,
    hash: Result<Seq<u8>, Failure>,
    r: Option<TransferRecord>,
) -> bool {
    match hash {
        Err(_) => r is None && after.built@ == before.built@,
        Ok(hash) => {
            let tx = colored_tx(before.built@, hash);
            &&& after.built@ == tx
            &&& r matches Some(record)
            &&& record.path@ == transfer_path(ldk_data_dir, txid_of(tx))
            &&& record.info == (TransferInfo {
                contract_id: channel.contract_id,
                rgb_amount: channel.local_rgb_amount,
            })
        },
    }
}

/// Colors a transaction that closes a channel: the channel is settled, the holder's share is
/// claimed for the holder's output, and the transaction carries the hash of the settled state.
/// None, where it cannot be colored; it then stays as it is.
pub fn color_closing<E: SettlementExecutor>(
    wallet: &Wallet,
    closing: &mut ClosingTransaction,
    channel: &RgbInfo,
    ldk_data_dir: &FilePath,
    disk: &Disk,
    settlements: &mut Settlements<'_, E>,
) -> (r: Option<TransferRecord>)
    ensures
        goes_on(*old(settlements), *final(settlements)),
        final(closing).to_holder_value_sat == old(closing).to_holder_value_sat,
        final(closing).to_counterparty_value_sat == old(closing).to_counterparty_value_sat,
        final(closing).to_holder_script == old(closing).to_holder_script,
        final(closing).to_counterparty_script == old(closing).to_counterparty_script,
        match closing_outputs(*old(closing), *channel) {
            None => {
                &&& r is None
                &&& final(closing).built@ == old(closing).built@
                &&& final(settlements).calls() == old(settlements).calls()
            },
            Some(outputs) => if !is_unsigned(old(closing).built@) {
                &&& r is None
                &&& final(closing).built@ == old(closing).built@
                &&& final(settlements).calls() == old(settlements).calls()
            } else {
                exists|hash: Result<Seq<u8>, Failure>|
                    {
                        &&& #[trigger] hashes(
                            wallet.ldk_data_dir@,
                            *disk,
                            LnTransactionType::Closing,
                            channel.contract_id@,
                            old(closing).built@,
                            outputs,
                            holder_vout(*old(closing)),
                            asked_since(*old(settlements), *final(settlements)),
                            hash,
                        )
                        &&& closed_with(
                            *old(closing),
                            *final(closing),
                            *channel,
                            ldk_data_dir@,
                            hash,
                            r,
                        )
                    }
            },
        },
{
    let coloring: ColoringInfo = match closing_coloring(closing, channel) {
        Some(coloring) => coloring,
        None => {
            return None;
        },
    };
    let own: Option<u32> = holder_position(closing);
    let ghost before = *settlements;
    let colored: Colored = color_tx(wallet, &closing.built, &coloring, own, disk, settlements);
    proof {
        if !is_unsigned(closing.built@) {
            assert(settlements.calls() =~= before.calls());
        }
    }
    match colored {
        Colored::BadTx => None,
        Colored::NoHash(_) => None,
        Colored::Tx(tx) => {
            let txid: Txid = tx.compute_txid();
            closing.built = tx;
            Some(
                TransferRecord {
                    path: transfer_info_path(ldk_data_dir, &txid),
                    info: TransferInfo {
                        contract_id: channel.contract_id,
                        rgb_amount: channel.local_rgb_amount,
                    },
                },
            )
        },
    }
}

/// The sides of a channel exist whenever no more is in flight than each side has, and only then:
/// with the whole of a side in flight, or nothing of it, as well. They are what is left. Without a
/// payment in flight they are those of the channel.
pub proof fn law_sides_exist(totals: HtlcTotals, channel: RgbInfo)
    ensures
        totals.last is None ==> (sides(totals, channel) matches Some((local, remote)) && local
            == channel.local_rgb_amount && remote == channel.remote_rgb_amount),
        totals.last matches Some(last) ==> (sides(totals, channel) is Some <==> totals.offered
            <= last.local_rgb_amount && totals.received <= last.remote_rgb_amount),
        totals.last matches Some(last) ==> totals.offered <= last.local_rgb_amount
            && totals.received <= last.remote_rgb_amount ==> (sides(totals, channel) matches Some(
            (local, remote),
        ) && local == last.local_rgb_amount - totals.offered && remote == last.remote_rgb_amount
            - totals.received),
{
}

/// A commitment is colored whenever its transaction has an input and none that is signed, what
/// the payments in flight come to is known and no more than each side has, the hash of the state is
/// known, and what the holder then has can be held. The transaction differs in the carried hash
/// alone. The transfer is noted with all that the local side has where the commitment is the
/// counterparty's, and else with what the local side keeps and what comes in.
pub proof fn law_commitment_colored(
    totals: HtlcTotals,
    channel: RgbInfo,
    counterparty: bool,
    tx: TxView,
    hash: Seq<u8>,
    local: u64,
    remote: u64,
)
    requires
        tx.input.len() > 0,
        forall|i: int| 0 <= i < tx.input.len() ==> (#[trigger] tx.input[i]).script_sig.len() == 0,
        match totals.last {
            Some(last) => local == last.local_rgb_amount && remote == last.remote_rgb_amount,
            None => local == channel.local_rgb_amount && remote == channel.remote_rgb_amount
                && totals.offered == 0 && totals.received == 0,
        },
        totals.offered <= local,
        totals.received <= remote,
        counterparty || local - totals.offered + totals.received <= u64::MAX,
    ensures
        commitment_view(Some(totals), channel, counterparty, tx, Ok(hash)) matches CommitmentView::Done {
            tx: after,
            rgb_amount,
        } && rgb_amount == (if counterparty {
            local as int
        } else {
            local - totals.offered + totals.received
        }) && after == (PsbtView { unsigned_tx: tx, output_records: tx.output.len() }).colored(
            hash,
        ).unsigned_tx && after.input == tx.input,
{
}

/// A commitment whose payments in flight and sides are known, and whose transaction is not signed,
/// is left as it is, with a warning that holds the reason, where the hash of the state is not known.
/// It cannot be colored where it is signed, where what is in flight is not known, or where it is
/// more than a side has.
pub proof fn law_commitment_refused(
    totals: HtlcTotals,
    channel: RgbInfo,
    counterparty: bool,
    tx: TxView,
    hash: Result<Seq<u8>, Failure>,
)
    ensures
        commitment_view(None, channel, counterparty, tx, hash) is Stuck,
        totals.last matches Some(last) ==> totals.offered > last.local_rgb_amount
            || totals.received > last.remote_rgb_amount ==> commitment_view(
            Some(totals),
            channel,
            counterparty,
            tx,
            hash,
        ) is Stuck,
        (exists|i: int| 0 <= i < tx.input.len() && (#[trigger] tx.input[i]).script_sig.len() > 0)
            ==> commitment_view(Some(totals), channel, counterparty, tx, hash) is Stuck,
        hash matches Err(e) ==> (forall|i: int|
            0 <= i < tx.input.len() ==> (#[trigger] tx.input[i]).script_sig.len() == 0) ==> (
        totals.last matches Some(last) ==> totals.offered <= last.local_rgb_amount
            && totals.received <= last.remote_rgb_amount) ==> commitment_view(
            Some(totals),
            channel,
            counterparty,
            tx,
            hash,
        ) == CommitmentView::Warned("Failed to color commitment TX: "@ + failure_text(e)),
{
}

/// In a commitment of the counterparty, the output that can be revoked gets what the remote side
/// keeps, and the first output that is locked by the holder's script what the local side keeps. In
/// the holder's own commitment it is the other way round, by the counterparty's script. Where both
/// are one output, it is the one that can be revoked. Every other output gets what the payments in
/// flight say.
pub proof fn law_commitment_outputs(
    totals: HtlcTotals,
    local: u64,
    remote: u64,
    counterparty: bool,
    outputs: Seq<TxOutView>,
    holder_script: Seq<u8>,
    counterparty_script: Seq<u8>,
    revokeable: Option<usize>,
    at: int,
    vout: u32,
)
    requires
        outputs.len() <= u32::MAX,
        revokeable matches Some(index) ==> index < outputs.len(),
        0 <= at <= outputs.len(),
        forall|j: int|
            0 <= j < at ==> (#[trigger] outputs[j]).script != if counterparty {
                holder_script
            } else {
                counterparty_script
            },
        at < outputs.len() ==> outputs[at].script == if counterparty {
            holder_script
        } else {
            counterparty_script
        },
    ensures
        ({
            let paid = commitment_outputs(
                totals,
                output_amounts((local, remote), counterparty),
                outputs,
                other_script(counterparty, holder_script, counterparty_script),
                revokeable,
            );
            &&& revokeable matches Some(index) ==> vout == index ==> paid.contains_key(vout)
                && paid[vout] == if counterparty {
                remote
            } else {
                local
            }
            &&& at < outputs.len() && vout == at && (revokeable matches Some(index) ==> vout
                != index) ==> paid.contains_key(vout) && paid[vout] == if counterparty {
                local
            } else {
                remote
            }
            &&& (at == outputs.len() || vout != at) && (revokeable matches Some(index) ==> vout
                != index) ==> (paid.contains_key(vout) <==> totals.outputs.contains_key(vout)) && (
            totals.outputs.contains_key(vout) ==> paid[vout] == totals.outputs[vout])
        }),
{
    let script = other_script(counterparty, holder_script, counterparty_script);
    lemma_first_with(outputs, script, at);
    assert(at < outputs.len() ==> vout_of(at) == at);
    assert(revokeable matches Some(index) ==> vout_of(index as int) == index);
}

/// The first output with a script is the one that is found.
proof fn lemma_first_with(outputs: Seq<TxOutView>, script: Seq<u8>, at: int)
    requires
        0 <= at <= outputs.len(),
        forall|j: int| 0 <= j < at ==> (#[trigger] outputs[j]).script != script,
        at < outputs.len() ==> outputs[at].script == script,
    ensures
        script_from(outputs, script, 0) == if at < outputs.len() {
            Some(at)
        } else {
            None
        },
{
    lemma_script_from(outputs, script, 0);
    if let Some(i) = script_from(outputs, script, 0) {
        if i < at {
            assert(outputs[i].script != script);
        }
        if at < i {
            assert(outputs[at].script != script);
        }
    } else if at < outputs.len() {
        assert(outputs[at].script != script);
    }
}

/// Whether one of the outputs is locked by a script.
pub open spec fn has_output(outputs: Seq<TxOutView>, script: Seq<u8>) -> bool {
    exists|i: int| 0 <= i < outputs.len() && (#[trigger] outputs[i]).script == script
}

/// A closing transaction can be shared out if and only if each side that is to be paid has an
/// output that is locked by its script.
pub proof fn law_closing_shared(closing: ClosingTransaction, channel: RgbInfo)
    ensures
        closing_outputs(closing, channel) is Some <==> (closing.to_holder_value_sat > 0
            ==> has_output(closing.built@.output, closing.to_holder_script@)) && (
        closing.to_counterparty_value_sat > 0 ==> has_output(
            closing.built@.output,
            closing.to_counterparty_script@,
        )),
{
    let outputs = closing.built@.output;
    lemma_script_from(outputs, closing.to_holder_script@, 0);
    lemma_script_from(outputs, closing.to_counterparty_script@, 0);
    if has_output(outputs, closing.to_holder_script@) {
        let i = choose|i: int|
            0 <= i < outputs.len() && (#[trigger] outputs[i]).script == closing.to_holder_script@;
        assert(script_from(outputs, closing.to_holder_script@, 0) is Some);
    }
    if has_output(outputs, closing.to_counterparty_script@) {
        let i = choose|i: int|
            0 <= i < outputs.len() && (#[trigger] outputs[i]).script
                == closing.to_counterparty_script@;
        assert(script_from(outputs, closing.to_counterparty_script@, 0) is Some);
    }
}

/// In a closing transaction with different scripts for the sides, the first output with the
/// holder's script gets the local amount where the holder is to be paid, the first one with the
/// counterparty's script gets the remote amount where the counterparty is to be paid, and no other
/// output gets anything. The holder's output is the first of these.
pub proof fn law_closing_outputs(
    closing: ClosingTransaction,
    channel: RgbInfo,
    holder: int,
    counterparty: int,
    vout: u32,
)
    requires
        closing.to_holder_script@ != closing.to_counterparty_script@,
        closing.built@.output.len() <= u32::MAX,
        0 <= holder < closing.built@.output.len(),
        0 <= counterparty < closing.built@.output.len(),
        closing.built@.output[holder].script == closing.to_holder_script@,
        closing.built@.output[counterparty].script == closing.to_counterparty_script@,
        forall|j: int|
            0 <= j < holder ==> (#[trigger] closing.built@.output[j]).script
                != closing.to_holder_script@,
        forall|j: int|
            0 <= j < counterparty ==> (#[trigger] closing.built@.output[j]).script
                != closing.to_counterparty_script@,
    ensures
        closing_outputs(closing, channel) matches Some(paid) && (paid.contains_key(vout) <==> (vout
            == holder && closing.to_holder_value_sat > 0) || (vout == counterparty
            && closing.to_counterparty_value_sat > 0)) && (vout == holder
            && closing.to_holder_value_sat > 0 ==> paid[vout] == channel.local_rgb_amount) && (vout
            == counterparty && closing.to_counterparty_value_sat > 0 ==> paid[vout]
            == channel.remote_rgb_amount),
        closing.to_holder_value_sat > 0 ==> (holder_vout(closing) matches Some(own) && own
            == holder),
        closing.to_holder_value_sat == 0 ==> holder_vout(closing) is None,
{
    let outputs = closing.built@.output;
    lemma_first_with(outputs, closing.to_holder_script@, holder);
    lemma_first_with(outputs, closing.to_counterparty_script@, counterparty);
    assert(vout_of(holder) == holder);
    assert(vout_of(counterparty) == counterparty);
}

/// A closing transaction that is colored carries the hash, spends what it spent, and is noted under
/// its own identifier, with the channel's contract and all that the local side has. Without a hash
/// nothing is noted, and it stays as it is.
pub proof fn law_closing_noted(
    before: ClosingTransaction,
    after: ClosingTransaction,
    channel: RgbInfo,
    ldk_data_dir: PathView,
    hash: Result<Seq<u8>, Failure>,
    r: Option<TransferRecord>,
)
    requires
        closed_with(before, after, channel, ldk_data_dir, hash, r),
    ensures
        r is Some <==> hash is Ok,
        hash is Err ==> after.built@ == before.built@,
        hash matches Ok(hash) ==> after.built@ == (PsbtView {
            unsigned_tx: before.built@,
            output_records: before.built@.output.len(),
        }).colored(hash).unsigned_tx,
        r matches Some(record) ==> {
            &&& record.info.contract_id == channel.contract_id
            &&& record.info.rgb_amount == channel.local_rgb_amount
            &&& txid_of(after.built@).len() == 32 ==> record.path@.file_name() == Some(
                txid_text(txid_of(after.built@)) + "_transfer_info"@,
            )
        },
{
    if txid_of(after.built@).len() == 32 {
        lemma_transfer_name(ldk_data_dir, txid_of(after.built@));
    }
}

/// The transfer of a transaction is noted in the node's directory, under the transaction's
/// identifier. What a transaction spends is noted under the transaction of its first input; without
/// an input there is no such note.
pub proof fn law_transfer_named(dir: PathView, tx: TxView, txid: Seq<u8>)
    requires
        txid.len() == 32,
    ensures
        transfer_path(dir, txid).file_name() == Some(txid_text(txid) + "_transfer_info"@),
        tx.input.len() == 0 ==> spent_transfer_path(dir, tx) is None,
        tx.input.len() > 0 && tx.input[0].txid == txid ==> (spent_transfer_path(
            dir,
            tx,
        ) matches Some(path) && path.file_name() == Some(txid_text(txid) + "_transfer_info"@)),
{
    lemma_transfer_name(dir, txid);
}

/// While every note can be read and agrees with the channel's sides, every payment of an asset has
/// its output and all that is paid can be held, what is in flight is known; and where that is no more
/// than each side has, a commitment of a transaction with an input and none that is signed is
/// colored, for every hash. Its transfer is noted with the local side as it is, or with what the
/// payments in flight make of it where the commitment is the holder's own.
pub proof fn law_commitment_live(
    store: StoreView,
    dir: PathView,
    channel_id: Seq<u8>,
    channel: RgbInfo,
    counterparty: bool,
    htlcs: Seq<Htlc>,
    most: nat,
    tx: TxView,
    hash: Seq<u8>,
)
    requires
        channel_id.len() == 32,
        readable(store, most),
        notes_agree(store, dir, channel_id, channel),
        forall|i: int|
            0 <= i < htlcs.len() ==> ((#[trigger] htlcs[i]).rgb_payment matches Some((_, amount))
                ==> amount <= most && htlcs[i].transaction_output_index is Some),
        htlcs.len() * most <= u64::MAX,
        channel.local_rgb_amount + channel.remote_rgb_amount <= u64::MAX,
        tx.input.len() > 0,
        forall|i: int| 0 <= i < tx.input.len() ==> (#[trigger] tx.input[i]).script_sig.len() == 0,
    ensures
        totals_of(store, dir, channel_id, channel, counterparty, htlcs, htlcs.len()) matches Some(
            totals,
        ) && (totals.offered <= channel.local_rgb_amount && totals.received
            <= channel.remote_rgb_amount ==> (commitment_view(
            Some(totals),
            channel,
            counterparty,
            tx,
            Ok(hash),
        ) matches CommitmentView::Done { tx: after, rgb_amount } && rgb_amount == (if counterparty {
            channel.local_rgb_amount as int
        } else {
            channel.local_rgb_amount - totals.offered + totals.received
        }))),
{
    law_totals_exist(store, dir, channel_id, channel, counterparty, htlcs, htlcs.len(), most);
    law_notes_agree(store, dir, channel_id, channel, counterparty, htlcs, htlcs.len());
}

/// A transaction of a channel is colored with one asset alone: the contract, how much goes to which
/// output, one blinding for all, the nonce and what the transaction is for.
pub proof fn law_one_asset(
    info: ColoringInfo,
    contract_id: ContractId,
    outputs: Map<u32, u64>,
    nonce: Option<u64>,
    kind: LnTransactionType,
)
    requires
        colors_one(info, contract_id, outputs, nonce, kind),
    ensures
        info.asset_info_map@.len() == 1,
        info.asset_info_map@[0].0.bytes@ == contract_id.bytes@,
        info.asset_info_map@[0].1.output_map@ == outputs,
        info.asset_info_map@[0].1.static_blinding == Some(777u64),
        info.static_blinding == Some(777u64),
        info.nonce == nonce,
        info.ln_tx_type == kind,
{
}

} // verus!
