//! Coloring: putting the hash of the RGB state into a transaction.

use std::collections::HashMap;
use vstd::prelude::*;

use crate::chain::{outpoint_text, txid_of, txid_text, Psbt, PsbtView, TxView, Txid};
use crate::channel::{
    find_info, find_rgb_info_by_contract, law_first_found, nothing_before, DirEntry, DirListing,
    RgbInfo,
};
use crate::closing::{
    destination_view, destined, goes_to, hash_given, law_settlement_asked, law_settlement_calls,
    law_share_destination, settle_with, settles, share_destination, ClosePlan,
};
use crate::contract::{contract_text, ContractId};
use crate::error::{failure, Failure, RgbLibError};
use crate::executor::{asked_since, goes_on, ExecutorCall, SettlementExecutor, Settlements};
use crate::path::PathView;
use crate::state_file::{funding_of, read_funding_utxo, read_state_hash, state_hash_of, FileRead};
use crate::text::digits;
use crate::types::{Fascia, FileContent, WitnessOrd};
use crate::wallet::Wallet;

verus! {

/// What a transaction of a channel is for.
#[derive(Debug, Clone, Copy, PartialEq, Eq, Structural)]
pub enum LnTransactionType {
    Commitment,
    Htlc,
    Closing,
}

/// How much of an asset goes to which output.
pub type OutputMap = HashMap<u32, u64>;

/// How one asset is colored.
#[derive(Clone)]
pub struct AssetColoringInfo {
    pub output_map: OutputMap,
    pub static_blinding: Option<u64>,
}

/// How a transaction is colored. The assets are held in the order in which they are walked.
#[derive(Clone)]
pub struct ColoringInfo {
    pub asset_info_map: Vec<(ContractId, AssetColoringInfo)>,
    pub static_blinding: Option<u64>,
    pub nonce: Option<u64>,
    pub ln_tx_type: LnTransactionType,
}

impl ColoringInfo {
    /// Whether no asset occurs twice.
    pub open spec fn well_formed(&self) -> bool {
        forall|i: int, j: int|
            0 <= i < j < self.asset_info_map@.len() ==> (#[trigger] self.asset_info_map@[i]).0@ != (
            #[trigger] self.asset_info_map@[j]).0@
    }
}

/// What is on disk when a transaction is colored: the state file, and the files of the node's
/// directory.
pub struct Disk {
    pub state_file: FileRead,
    pub listing: DirListing,
}

/// Whether the settlement of a channel that closes asks the executor exactly `calls` and ends with
/// `answer`, the state hash. `own` is the holder's output, where it is known.
pub open spec fn closes(
    listing: DirListing,
    contract_id: Seq<u8>,
    tx: TxView,
    outputs: Map<u32, u64>,
    own: Option<u32>,
    calls: Seq<ExecutorCall>,
    answer: Result<Seq<u8>, Failure>,
) -> bool {
    if tx.input.len() == 0 {
        &&& calls.len() == 0
        &&& answer == Err::<Seq<u8>, Failure>(Failure::Other("Closing TX has no inputs"@))
    } else {
        match find_info(listing, contract_id) {
            Err(e) => calls.len() == 0 && answer == Err::<Seq<u8>, Failure>(e),
            Ok((info, _)) => exists|destination: Option<Seq<char>>|
                {
                    &&& #[trigger] destined(
                        outputs,
                        own,
                        info.local_rgb_amount,
                        txid_of(tx),
                        destination,
                    )
                    &&& settles(close_plan(contract_id, tx, info, destination), calls) == Some(
                        answer,
                    )
                },
        }
    }
}

/// What the settlement of a channel is about, given the transaction that closes it.
pub open spec fn close_plan(
    contract_id: Seq<u8>,
    tx: TxView,
    info: RgbInfo,
    destination: Option<Seq<char>>,
) -> ClosePlan {
    ClosePlan {
        funding_utxo: outpoint_text(tx.input[0].txid, tx.input[0].vout),
        contract_id: contract_text(contract_id),
        holder_amount: info.local_rgb_amount,
        counterparty_amount: info.remote_rgb_amount,
        destination,
    }
}

/// Whether the state hash for a transaction is `answer`, where the executor is asked exactly
/// `calls`. A transaction that closes the channel is settled; for any other one the hash is that
/// of the genesis, and the executor is not asked.
pub open spec fn hashes(
    ldk_data_dir: PathView,
    disk: Disk,
    kind: LnTransactionType,
    contract_id: Seq<u8>,
    tx: TxView,
    outputs: Map<u32, u64>,
    own: Option<u32>,
    calls: Seq<ExecutorCall>,
    answer: Result<Seq<u8>, Failure>,
) -> bool {
    if kind == LnTransactionType::Closing {
        closes(disk.listing, contract_id, tx, outputs, own, calls, answer)
    } else {
        &&& calls.len() == 0
        &&& answer == state_hash_of(ldk_data_dir, disk.state_file@, contract_text(contract_id))
    }
}

/// What coloring makes of a transaction, given the state hash: it carries the hash, or stays as
/// it is where there is none.
pub open spec fn after_coloring(psbt: PsbtView, hash: Result<Seq<u8>, Failure>) -> PsbtView {
    match hash {
        Ok(hash) => psbt.colored(hash),
        Err(_) => psbt,
    }
}

/// What coloring answers, given the state hash.
pub open spec fn coloring_answer(
    r: Result<(Fascia, FileContent), RgbLibError>,
    hash: Result<Seq<u8>, Failure>,
) -> bool {
    match (r, hash) {
        (Ok(_), Ok(_)) => true,
        (Err(error), Err(e)) => failure(error) == e,
        _ => false,
    }
}

/// Whether coloring makes `after` of the transaction `before` and answers `r`, where the executor
/// is asked exactly `calls`. `own` is the holder's output, where it is known.
pub open spec fn colors(
    ldk_data_dir: PathView,
    coloring_info: ColoringInfo,
    own: Option<u32>,
    disk: Disk,
    before: PsbtView,
    after: PsbtView,
    calls: Seq<ExecutorCall>,
    r: Result<(Fascia, FileContent), RgbLibError>,
) -> bool {
    if coloring_info.asset_info_map@.len() == 0 {
        &&& after == before
        &&& calls.len() == 0
        &&& r matches Err(e) && failure(e) == Failure::Other("No RGB asset info in coloring_info"@)
    } else {
        exists|hash: Result<Seq<u8>, Failure>|
            {
                &&& #[trigger] hashes(
                    ldk_data_dir,
                    disk,
                    coloring_info.ln_tx_type,
                    coloring_info.asset_info_map@[0].0@,
                    before.unsigned_tx,
                    coloring_info.asset_info_map@[0].1.output_map@,
                    own,
                    calls,
                    hash,
                )
                &&& after == after_coloring(before, hash)
                &&& coloring_answer(r, hash)
            }
    }
}

/// Colors a transaction, given the state hash.
pub fn color_with(psbt: &mut Psbt, hash: Result<[u8; 32], RgbLibError>) -> (r: Result<
    (Fascia, FileContent),
    RgbLibError,
>)
    ensures
        ({
            let given = hash_given(hash);
            &&& final(psbt)@ == after_coloring(old(psbt)@, given)
            &&& coloring_answer(r, given)
        }),
{
    match hash {
        Err(e) => Err(e),
        Ok(hash) => {
            psbt.embed(&hash);
            Ok((Fascia, FileContent))
        },
    }
}

impl Wallet {
    /// The state hash of a contract, as the state file holds it.
    pub fn get_f1r3fly_state_hash(&self, contract_id: &ContractId, state_file: &FileRead) -> (r:
        Result<[u8; 32], RgbLibError>)
        ensures
            ({
                let expected = state_hash_of(
                    self.ldk_data_dir@,
                    state_file@,
                    contract_text(contract_id@),
                );
                match r {
                    Ok(hash) => expected == Ok::<Seq<u8>, Failure>(hash@),
                    Err(e) => expected == Err::<Seq<u8>, Failure>(failure(e)),
                }
            }),
    {
        read_state_hash(&self.ldk_data_dir, state_file, contract_id.text().as_str())
    }

    /// The funding output of a contract, as the state file holds it.
    pub fn read_funding_utxo_from_state(&self, contract_id: &str, state_file: &FileRead) -> (r:
        Result<String, RgbLibError>)
        ensures
            ({
                let expected = funding_of(self.ldk_data_dir@, state_file@, contract_id@);
                match r {
                    Ok(utxo) => expected == Ok::<Seq<char>, Failure>(utxo@),
                    Err(e) => expected == Err::<Seq<char>, Failure>(failure(e)),
                }
            }),
    {
        read_funding_utxo(&self.ldk_data_dir, state_file, contract_id)
    }

    /// Settles a channel that closes, and gives the state hash. `own` is the holder's output, where
    /// it is known.
    pub fn close_channel<E: SettlementExecutor>(
        &self,
        psbt: &Psbt,
        contract_id: &ContractId,
        outputs: &OutputMap,
        own: Option<u32>,
        listing: &DirListing,
        settlements: &mut Settlements<'_, E>,
    ) -> (r: Result<[u8; 32], RgbLibError>)
        ensures
            goes_on(*old(settlements), *final(settlements)),
            closes(
                *listing,
                contract_id@,
                psbt@.unsigned_tx,
                outputs@,
                own,
                asked_since(*old(settlements), *final(settlements)),
                hash_given(r),
            ),
            psbt.unsigned_tx.input@.len() > 0 ==> (find_info(
                *listing,
                contract_id@,
            ) matches Ok((info, _)) ==> ({
                let asked = asked_since(*old(settlements), *final(settlements));
                &&& asked.len() > 0
                &&& asked[0] matches ExecutorCall::Settle { holder_amount, counterparty_amount, .. }
                &&& holder_amount == info.local_rgb_amount
                &&& counterparty_amount == info.remote_rgb_amount
            })),
    {
        if psbt.unsigned_tx.input.len() == 0 {
            return Err(RgbLibError::Other("Closing TX has no inputs".to_owned()));
        }
        let utxo: String = psbt.unsigned_tx.input[0].previous_output.text();
        assert(psbt@.unsigned_tx.input[0] == psbt.unsigned_tx.input@[0]@);
        let info: RgbInfo = match find_rgb_info_by_contract(listing, contract_id) {
            Ok((info, _)) => info,
            Err(e) => {
                return Err(e);
            },
        };
        let destination: Option<String> = share_destination(
            outputs,
            own,
            info.local_rgb_amount,
            psbt.unsigned_tx.compute_txid(),
        );
        assert(destined(
            outputs@,
            own,
            info.local_rgb_amount,
            txid_of(psbt@.unsigned_tx),
            destination_view(destination),
        ));
        settle_with(
            utxo,
            contract_id.text(),
            info.local_rgb_amount,
            info.remote_rgb_amount,
            destination,
            settlements,
        )
    }

    /// Colors a transaction of which the holder's output is known, or is not asked for.
    pub(crate) fn color_psbt_for<E: SettlementExecutor>(
        &self,
        psbt: &mut Psbt,
        coloring_info: &ColoringInfo,
        own: Option<u32>,
        disk: &Disk,
        settlements: &mut Settlements<'_, E>,
    ) -> (r: Result<(Fascia, FileContent), RgbLibError>)
        ensures
            goes_on(*old(settlements), *final(settlements)),
            colors(
                self.ldk_data_dir@,
                *coloring_info,
                own,
                *disk,
                old(psbt)@,
                final(psbt)@,
                asked_since(*old(settlements), *final(settlements)),
                r,
            ),
    {
        if coloring_info.asset_info_map.len() == 0 {
            return Err(RgbLibError::Other("No RGB asset info in coloring_info".to_owned()));
        }
        let ghost before = *settlements;
        let contract_id: &ContractId = &coloring_info.asset_info_map[0].0;
        let outputs: &OutputMap = &coloring_info.asset_info_map[0].1.output_map;
        let hash: Result<[u8; 32], RgbLibError> = if coloring_info.ln_tx_type
            == LnTransactionType::Closing {
            self.close_channel(psbt, contract_id, outputs, own, &disk.listing, settlements)
        } else {
            self.get_f1r3fly_state_hash(contract_id, &disk.state_file)
        };
        let ghost given = hash_given(hash);
        assert(hashes(
            self.ldk_data_dir@,
            *disk,
            coloring_info.ln_tx_type,
            contract_id@,
            psbt@.unsigned_tx,
            outputs@,
            own,
            asked_since(before, *settlements),
            given,
        ));
        color_with(psbt, hash)
    }

    /// Colors a transaction: its `OP_RETURN` output is made to carry the hash of the state that
    /// the transaction belongs to.
    pub fn color_psbt<E: SettlementExecutor>(
        &self,
        psbt: &mut Psbt,
        coloring_info: &ColoringInfo,
        disk: &Disk,
        settlements: &mut Settlements<'_, E>,
    ) -> (r: Result<(Fascia, FileContent), RgbLibError>)
        ensures
            goes_on(*old(settlements), *final(settlements)),
            colors(
                self.ldk_data_dir@,
                *coloring_info,
                None,
                *disk,
                old(psbt)@,
                final(psbt)@,
                asked_since(*old(settlements), *final(settlements)),
                r,
            ),
    {
        self.color_psbt_for(psbt, coloring_info, None, disk, settlements)
    }

    /// Takes note of a colored transaction. The state is kept elsewhere, so nothing is noted.
    pub fn consume_fascia(
        &self,
        _fascia: Fascia,
        _txid: Txid,
        _witness_ord: Option<WitnessOrd>,
    ) -> (r: Result<(), RgbLibError>)
        ensures
            r is Ok,
    {
        Ok(())
    }
}

/// A transaction that does not close the channel is colored with the hash of the genesis, and the
/// executor is not asked; the transaction stays as it is where the state file does not give the
/// hash.
pub proof fn law_commitment_hash(
    ldk_data_dir: PathView,
    coloring_info: ColoringInfo,
    own: Option<u32>,
    disk: Disk,
    before: PsbtView,
    after: PsbtView,
    calls: Seq<ExecutorCall>,
    r: Result<(Fascia, FileContent), RgbLibError>,
)
    requires
        coloring_info.ln_tx_type != LnTransactionType::Closing,
        coloring_info.asset_info_map@.len() > 0,
        colors(ldk_data_dir, coloring_info, own, disk, before, after, calls, r),
    ensures
        calls.len() == 0,
        after == match state_hash_of(
            ldk_data_dir,
            disk.state_file@,
            contract_text(coloring_info.asset_info_map@[0].0@),
        ) {
            Ok(hash) => before.colored(hash),
            Err(_) => before,
        },
{
}

/// A transaction that closes the channel is colored only once the sides are settled, with the hash
/// of the settlement. The holder's share is claimed if and only if the holder has one that was not
/// claimed before, once, after the settlement, and for an output of the transaction that gets the
/// holder's amount.
pub proof fn law_closing_claims(
    ldk_data_dir: PathView,
    coloring_info: ColoringInfo,
    own: Option<u32>,
    disk: Disk,
    before: PsbtView,
    after: PsbtView,
    calls: Seq<ExecutorCall>,
    r: Result<(Fascia, FileContent), RgbLibError>,
)
    requires
        coloring_info.ln_tx_type == LnTransactionType::Closing,
        coloring_info.asset_info_map@.len() > 0,
        colors(ldk_data_dir, coloring_info, own, disk, before, after, calls, r),
    ensures
        calls.len() <= 3,
        r is Ok ==> {
            &&& find_info(disk.listing, coloring_info.asset_info_map@[0].0@) matches Ok((info, _))
            &&& calls.len() > 0
            &&& calls[0] matches ExecutorCall::Settle { settled: Ok(hash), .. }
            &&& after == before.colored(hash@)
            &&& (calls.len() > 1) == (info.local_rgb_amount > 0)
        },
        r is Err ==> after == before,
        forall|i: int|
            0 <= i < calls.len() ==> match #[trigger] calls[i] {
                ExecutorCall::Settle { .. } => i == 0,
                ExecutorCall::Check { .. } => i == 1,
                ExecutorCall::Claim { destination_utxo, .. } => {
                    &&& i == 2
                    &&& find_info(
                        disk.listing,
                        coloring_info.asset_info_map@[0].0@,
                    ) matches Ok((info, _))
                    &&& exists|vout: u32| #[trigger]
                        goes_to(
                            coloring_info.asset_info_map@[0].1.output_map@,
                            own,
                            info.local_rgb_amount,
                            vout,
                        ) && destination_utxo == outpoint_text(txid_of(before.unsigned_tx), vout)
                },
            },
        calls.len() > 1 ==> (calls.len() == 3) == (calls[1] matches ExecutorCall::Check {
            checked,
            ..
        } && checked == Ok::<bool, RgbLibError>(false)),
{
    let contract_id = coloring_info.asset_info_map@[0].0@;
    let outputs = coloring_info.asset_info_map@[0].1.output_map@;
    let tx = before.unsigned_tx;
    let hash = choose|hash: Result<Seq<u8>, Failure>|
        {
            &&& #[trigger] hashes(
                ldk_data_dir,
                disk,
                coloring_info.ln_tx_type,
                contract_id,
                tx,
                outputs,
                own,
                calls,
                hash,
            )
            &&& after == after_coloring(before, hash)
            &&& coloring_answer(r, hash)
        };
    if tx.input.len() > 0 {
        if let Ok((info, _)) = find_info(disk.listing, contract_id) {
            let destination = choose|destination: Option<Seq<char>>|
                {
                    &&& #[trigger] destined(
                        outputs,
                        own,
                        info.local_rgb_amount,
                        txid_of(tx),
                        destination,
                    )
                    &&& settles(close_plan(contract_id, tx, info, destination), calls) == Some(hash)
                };
            law_settlement_calls(close_plan(contract_id, tx, info, destination), calls, hash);
        }
    }
}

/// The state hash of a closing and where the holder's share goes.
proof fn lemma_closing(
    ldk_data_dir: PathView,
    coloring_info: ColoringInfo,
    own: Option<u32>,
    disk: Disk,
    before: PsbtView,
    after: PsbtView,
    calls: Seq<ExecutorCall>,
    r: Result<(Fascia, FileContent), RgbLibError>,
    info: RgbInfo,
) -> (given: (Result<Seq<u8>, Failure>, Option<Seq<char>>))
    requires
        coloring_info.ln_tx_type == LnTransactionType::Closing,
        coloring_info.asset_info_map@.len() > 0,
        colors(ldk_data_dir, coloring_info, own, disk, before, after, calls, r),
        before.unsigned_tx.input.len() > 0,
        find_info(disk.listing, coloring_info.asset_info_map@[0].0@) matches Ok((found, _)) && found
            == info,
    ensures
        destined(
            coloring_info.asset_info_map@[0].1.output_map@,
            own,
            info.local_rgb_amount,
            txid_of(before.unsigned_tx),
            given.1,
        ),
        settles(
            close_plan(coloring_info.asset_info_map@[0].0@, before.unsigned_tx, info, given.1),
            calls,
        ) == Some(given.0),
        after == after_coloring(before, given.0),
        coloring_answer(r, given.0),
{
    let contract_id = coloring_info.asset_info_map@[0].0@;
    let outputs = coloring_info.asset_info_map@[0].1.output_map@;
    let tx = before.unsigned_tx;
    let hash = choose|hash: Result<Seq<u8>, Failure>|
        {
            &&& #[trigger] hashes(
                ldk_data_dir,
                disk,
                coloring_info.ln_tx_type,
                contract_id,
                tx,
                outputs,
                own,
                calls,
                hash,
            )
            &&& after == after_coloring(before, hash)
            &&& coloring_answer(r, hash)
        };
    let destination = choose|destination: Option<Seq<char>>|
        {
            &&& #[trigger] destined(outputs, own, info.local_rgb_amount, txid_of(tx), destination)
            &&& settles(close_plan(contract_id, tx, info, destination), calls) == Some(hash)
        };
    (hash, destination)
}

/// The settlement of every closing transaction starts with the settling of the sides: by the output
/// that the first input spends, with the local amount for the holder and the remote amount for the
/// counterparty, as the contract's pending channel file says them. So the two add up to what the
/// channel holds. That call is always made where the transaction has an input and such a file is
/// found.
pub proof fn law_closing_settles(
    ldk_data_dir: PathView,
    coloring_info: ColoringInfo,
    own: Option<u32>,
    disk: Disk,
    before: PsbtView,
    after: PsbtView,
    calls: Seq<ExecutorCall>,
    r: Result<(Fascia, FileContent), RgbLibError>,
    entries: Vec<Result<DirEntry, String>>,
    at: int,
    info: RgbInfo,
)
    requires
        coloring_info.ln_tx_type == LnTransactionType::Closing,
        coloring_info.asset_info_map@.len() > 0,
        colors(ldk_data_dir, coloring_info, own, disk, before, after, calls, r),
        before.unsigned_tx.input.len() > 0,
        disk.listing == DirListing::Entries(entries),
        0 <= at < entries@.len(),
        nothing_before(entries@, coloring_info.asset_info_map@[0].0@, at),
        entries@[at] matches Ok(entry) && entry.path@.extension() == Some("pending"@) && entry.info
            == Some(info),
        info.contract_id.bytes@ == coloring_info.asset_info_map@[0].0@,
    ensures
        calls.len() > 0,
        calls[0] matches ExecutorCall::Settle {
            funding_utxo,
            holder_amount,
            counterparty_amount,
            contract_id,
            ..
        } && funding_utxo == txid_text(before.unsigned_tx.input[0].txid) + ":"@ + digits(
            before.unsigned_tx.input[0].vout as nat,
        ) && holder_amount == info.local_rgb_amount && counterparty_amount
            == info.remote_rgb_amount && holder_amount + counterparty_amount
            == info.local_rgb_amount + info.remote_rgb_amount && contract_id == contract_text(
            info.contract_id.bytes@,
        ),
{
    law_first_found(entries, coloring_info.asset_info_map@[0].0@, at);
    let (hash, destination) = lemma_closing(
        ldk_data_dir,
        coloring_info,
        own,
        disk,
        before,
        after,
        calls,
        r,
        info,
    );
    law_settlement_asked(
        close_plan(coloring_info.asset_info_map@[0].0@, before.unsigned_tx, info, destination),
        calls,
        hash,
    );
}

/// How the coloring of a closing transaction ends. It carries the hash of the settlement where the
/// holder has nothing, had the share claimed before, or claims it now. Else it stays as it is, and the
/// first failure is answered; where the holder has a share and no output gets that amount, nothing is
/// looked up or claimed. The share is claimed for an output of this transaction that gets the holder's
/// amount, the holder's own one where that is known and does.
pub proof fn law_closing_ends(
    ldk_data_dir: PathView,
    coloring_info: ColoringInfo,
    own: Option<u32>,
    disk: Disk,
    before: PsbtView,
    after: PsbtView,
    calls: Seq<ExecutorCall>,
    r: Result<(Fascia, FileContent), RgbLibError>,
    info: RgbInfo,
)
    requires
        coloring_info.ln_tx_type == LnTransactionType::Closing,
        coloring_info.asset_info_map@.len() > 0,
        colors(ldk_data_dir, coloring_info, own, disk, before, after, calls, r),
        before.unsigned_tx.input.len() > 0,
        find_info(disk.listing, coloring_info.asset_info_map@[0].0@) matches Ok((found, _)) && found
            == info,
    ensures
        ({
            let outputs = coloring_info.asset_info_map@[0].1.output_map@;
            let share = info.local_rgb_amount;
            &&& calls.len() > 0
            &&& calls[0] is Settle
            &&& calls[0]->settled matches Err(e) ==> calls.len() == 1 && after == before && (
            r matches Err(error) && failure(error) == failure(e))
            &&& calls[0]->settled matches Ok(hash) ==> {
                &&& share == 0 ==> calls.len() == 1 && r is Ok && after == before.colored(hash@)
                &&& share > 0 && (forall|vout: u32| #[trigger]
                    outputs.contains_key(vout) ==> outputs[vout] != share) ==> calls.len() == 1
                    && after == before && (r matches Err(error) && failure(error) == Failure::Other(
                    "Could not find holder output in output_map (holder_amount="@ + digits(
                        share as nat,
                    ) + ")"@,
                ))
                &&& share > 0 && (exists|vout: u32| #[trigger]
                    outputs.contains_key(vout) && outputs[vout] == share) ==> {
                    &&& calls.len() > 1
                    &&& calls[1] is Check
                    &&& calls[1]->checked matches Err(e) ==> calls.len() == 2 && after == before
                        && (r matches Err(error) && failure(error) == failure(e))
                    &&& calls[1]->checked == Ok::<bool, RgbLibError>(true) ==> calls.len() == 2
                        && r is Ok && after == before.colored(hash@)
                    &&& calls[1]->checked == Ok::<bool, RgbLibError>(false) ==> {
                        &&& calls.len() == 3
                        &&& calls[2] is Claim
                        &&& calls[2]->claimed matches Err(e) ==> after == before && (r matches Err(
                            error,
                        ) && failure(error) == failure(e))
                        &&& calls[2]->claimed is Ok ==> r is Ok && after == before.colored(hash@)
                        &&& exists|vout: u32| #[trigger]
                            outputs.contains_key(vout) && outputs[vout] == share
                                && calls[2]->destination_utxo == txid_text(
                                txid_of(before.unsigned_tx),
                            ) + ":"@ + digits(vout as nat)
                        &&& own matches Some(known) ==> outputs.contains_key(known)
                            && outputs[known] == share ==> calls[2]->destination_utxo == txid_text(
                            txid_of(before.unsigned_tx),
                        ) + ":"@ + digits(known as nat)
                    }
                }
            }
        }),
{
    let (hash, destination) = lemma_closing(
        ldk_data_dir,
        coloring_info,
        own,
        disk,
        before,
        after,
        calls,
        r,
        info,
    );
    let plan = close_plan(
        coloring_info.asset_info_map@[0].0@,
        before.unsigned_tx,
        info,
        destination,
    );
    law_settlement_calls(plan, calls, hash);
    law_settlement_asked(plan, calls, hash);
    law_share_destination(
        coloring_info.asset_info_map@[0].1.output_map@,
        own,
        info.local_rgb_amount,
        txid_of(before.unsigned_tx),
        destination,
    );
}

/// Without an input, or without a file that says what the channel of the contract holds, a closing
/// transaction stays as it is, the executor is not asked, and the reason is answered.
pub proof fn law_closing_refused(
    ldk_data_dir: PathView,
    coloring_info: ColoringInfo,
    own: Option<u32>,
    disk: Disk,
    before: PsbtView,
    after: PsbtView,
    calls: Seq<ExecutorCall>,
    r: Result<(Fascia, FileContent), RgbLibError>,
)
    requires
        coloring_info.ln_tx_type == LnTransactionType::Closing,
        coloring_info.asset_info_map@.len() > 0,
        colors(ldk_data_dir, coloring_info, own, disk, before, after, calls, r),
    ensures
        before.unsigned_tx.input.len() == 0 ==> calls.len() == 0 && after == before && (r matches Err(
            error,
        ) && failure(error) == Failure::Other("Closing TX has no inputs"@)),
        before.unsigned_tx.input.len() > 0 ==> (find_info(
            disk.listing,
            coloring_info.asset_info_map@[0].0@,
        ) matches Err(e) ==> calls.len() == 0 && after == before && (r matches Err(error) && failure(
            error,
        ) == e)),
{
}

/// A transaction that does not close the channel is colored with every hash that the state file gives,
/// and the answer is then no failure; else the answer is why there is no hash. Without an asset nothing
/// is colored.
pub proof fn law_commitment_answer(
    ldk_data_dir: PathView,
    coloring_info: ColoringInfo,
    own: Option<u32>,
    disk: Disk,
    before: PsbtView,
    after: PsbtView,
    calls: Seq<ExecutorCall>,
    r: Result<(Fascia, FileContent), RgbLibError>,
)
    requires
        coloring_info.ln_tx_type is Commitment || coloring_info.ln_tx_type is Htlc,
        colors(ldk_data_dir, coloring_info, own, disk, before, after, calls, r),
    ensures
        calls.len() == 0,
        coloring_info.asset_info_map@.len() == 0 ==> after == before && (r matches Err(error)
            && failure(error) == Failure::Other("No RGB asset info in coloring_info"@)),
        coloring_info.asset_info_map@.len() > 0 ==> match state_hash_of(
            ldk_data_dir,
            disk.state_file@,
            contract_text(coloring_info.asset_info_map@[0].0@),
        ) {
            Ok(hash) => r is Ok && after == before.colored(hash),
            Err(e) => after == before && (r matches Err(error) && failure(error) == e),
        },
{
}

/// The state hash of a closing transaction that has an input, for a contract whose pending channel file
/// is found, comes from a settlement that starts with the settling of the sides: by the output that the
/// first input spends, with the amounts that the file says, for its contract. It is the hash of that
/// settlement, and there is none without it.
pub proof fn law_closing_hash(
    ldk_data_dir: PathView,
    disk: Disk,
    contract_id: Seq<u8>,
    tx: TxView,
    outputs: Map<u32, u64>,
    own: Option<u32>,
    calls: Seq<ExecutorCall>,
    answer: Result<Seq<u8>, Failure>,
    info: RgbInfo,
)
    requires
        hashes(
            ldk_data_dir,
            disk,
            LnTransactionType::Closing,
            contract_id,
            tx,
            outputs,
            own,
            calls,
            answer,
        ),
        tx.input.len() > 0,
        find_info(disk.listing, contract_id) matches Ok((found, _)) && found == info,
    ensures
        calls.len() > 0,
        calls[0] matches ExecutorCall::Settle {
            funding_utxo,
            holder_amount,
            counterparty_amount,
            contract_id: contract,
            settled,
        } && funding_utxo == txid_text(tx.input[0].txid) + ":"@ + digits(tx.input[0].vout as nat)
            && holder_amount == info.local_rgb_amount && counterparty_amount
            == info.remote_rgb_amount && contract == contract_text(contract_id) && (
        answer matches Ok(hash) ==> settled matches Ok(given) && given@ == hash) && (
        settled matches Err(e) ==> answer == Err::<Seq<u8>, Failure>(failure(e))) && (settled is Ok
            && info.local_rgb_amount == 0 ==> answer is Ok),
{
    let destination = choose|destination: Option<Seq<char>>|
        {
            &&& #[trigger] destined(outputs, own, info.local_rgb_amount, txid_of(tx), destination)
            &&& settles(close_plan(contract_id, tx, info, destination), calls) == Some(answer)
        };
    law_settlement_calls(close_plan(contract_id, tx, info, destination), calls, answer);
    law_settlement_asked(close_plan(contract_id, tx, info, destination), calls, answer);
}

} // verus!
