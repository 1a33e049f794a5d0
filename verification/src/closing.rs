//! The settlement of a channel that closes, step by step: the sides are settled, then the holder's
//! share is claimed, unless it was claimed before.

use vstd::prelude::*;
use vstd::std_specs::iter::IteratorSpec;
use vstd::string::StringSliceAdditionalSpecFns;
use vstd::utf8::encode_utf8;

use crate::chain::{outpoint_text, OutPoint, Txid};
use crate::codec::{hex_text, lower_hex, sha256, sha256_digest};
use crate::coloring::OutputMap;
use crate::error::{failure, other, Failure, RgbLibError};
use crate::executor::{asked_since, goes_on, ExecutorCall, SettlementExecutor, Settlements};
use crate::text::{decimal, digits, join_three};

verus! {

/// The witness that holds what a settlement gives to the holder: it is known by the funding
/// output that was settled.
pub open spec fn holder_witness(funding_utxo: Seq<char>) -> Seq<char> {
    let hash = sha256_digest(encode_utf8("witness:"@ + funding_utxo + "holder"@));
    "witness:"@ + lower_hex(hash).subrange(0, 32) + ":0"@
}

/// The witness that holds what a settlement gives to the holder.
pub fn witness_of_holder(funding_utxo: &str) -> (r: String)
    ensures
        r@ == holder_witness(funding_utxo@),
{
    let source: String = join_three("witness:", funding_utxo, "holder");
    let hash: [u8; 32] = sha256(source.as_str().as_bytes());
    let text: String = hex_text(hash.as_slice());
    assert(text@.len() == 64);
    join_three("witness:", text.as_str().substring_char(0, 32), ":0")
}

/// Whether an output gets this amount.
pub open spec fn pays(outputs: Map<u32, u64>, vout: u32, amount: u64) -> bool {
    outputs.contains_key(vout) && outputs[vout] == amount
}

/// An output that gets this amount, if there is one.
pub fn output_with(outputs: &OutputMap, amount: u64) -> (r: Option<u32>)
    ensures
        match r {
            Some(vout) => pays(outputs@, vout, amount),
            None => forall|vout: u32| !pays(outputs@, vout, amount),
        },
{
    broadcast use vstd::std_specs::hash::group_hash_axioms;

    let ghost pairs = outputs.iter().remaining();
    for (vout, sent) in pair: outputs.iter()
        invariant
            pair.seq() == pairs,
            forall|i: int| 0 <= i < pair.index() ==> *(#[trigger] pairs[i]).1 != amount,
    {
        if *sent == amount {
            return Some(*vout);
        }
    }
    None
}

/// Whether the holder's share can go to this output: one that gets the holder's amount, and the
/// holder's own, where that is known and gets it.
pub open spec fn goes_to(
    outputs: Map<u32, u64>,
    own: Option<u32>,
    amount: u64,
    vout: u32,
) -> bool {
    &&& pays(outputs, vout, amount)
    &&& match own {
        Some(known) => pays(outputs, known, amount) ==> vout == known,
        None => true,
    }
}

/// The output that the holder's share goes to, if there is one. `own` is the holder's output,
/// where it is known.
pub fn holder_output(outputs: &OutputMap, own: Option<u32>, amount: u64) -> (r: Option<u32>)
    ensures
        match r {
            Some(vout) => goes_to(outputs@, own, amount, vout),
            None => forall|vout: u32| !pays(outputs@, vout, amount),
        },
{
    broadcast use vstd::std_specs::hash::group_hash_axioms;

    if let Some(known) = own {
        if let Some(sent) = outputs.get(&known) {
            if *sent == amount {
                return Some(known);
            }
        }
    }
    output_with(outputs, amount)
}

/// Whether `destination` is where the holder's share goes in the transaction that closes the
/// channel; none, where no output gets the holder's amount.
pub open spec fn destined(
    outputs: Map<u32, u64>,
    own: Option<u32>,
    amount: u64,
    closing_txid: Seq<u8>,
    destination: Option<Seq<char>>,
) -> bool {
    match destination {
        Some(text) => exists|vout: u32| #[trigger]
            goes_to(outputs, own, amount, vout) && text == outpoint_text(closing_txid, vout),
        None => forall|vout: u32| !pays(outputs, vout, amount),
    }
}

/// What a destination says, where there is one.
pub open spec fn destination_view(destination: Option<String>) -> Option<Seq<char>> {
    match destination {
        Some(text) => Some(text@),
        None => None,
    }
}

/// Where the holder's share goes in the transaction that closes the channel.
pub fn share_destination(
    outputs: &OutputMap,
    own: Option<u32>,
    amount: u64,
    closing_txid: Txid,
) -> (r: Option<String>)
    ensures
        destined(
            outputs@,
            own,
            amount,
            closing_txid.bytes@,
            destination_view(r),
        ),
{
    match holder_output(outputs, own, amount) {
        Some(vout) => {
            let text: String = OutPoint { txid: closing_txid, vout }.text();
            assert(goes_to(outputs@, own, amount, vout) && text@ == outpoint_text(
                closing_txid.bytes@,
                vout,
            ));
            Some(text)
        },
        None => None,
    }
}

/// How far a settlement is. From where it is known, the state hash is carried along.
pub enum CloseStage {
    /// The sides are being settled.
    Settling,
    /// It is being looked up whether the holder's share was claimed before.
    Checking([u8; 32]),
    /// The holder's share is being claimed.
    Claiming([u8; 32]),
    /// Nothing is left to do.
    Done,
}

/// What an action gave.
pub enum CloseEvent {
    /// The state hash of the settlement.
    Settled(Result<[u8; 32], RgbLibError>),
    /// Whether the share was claimed before.
    Checked(Result<bool, RgbLibError>),
    /// The share is claimed, or could not be.
    Claimed(Result<(), RgbLibError>),
}

/// What to do next.
pub enum CloseAction {
    /// Settle the sides of the channel.
    Settle {
        funding_utxo: String,
        holder_amount: u64,
        counterparty_amount: u64,
        contract_id: String,
    },
    /// Look up whether the witness was claimed before.
    Check { witness_id: String, contract_id: String },
    /// Claim the witness for the output.
    Claim { witness_id: String, destination_utxo: String, contract_id: String },
    /// The channel is settled, or could not be.
    Finish(Result<[u8; 32], RgbLibError>),
    /// The event does not belong to this stage.
    Unexpected,
}

/// What to do next.
pub enum CloseActionView {
    Settle {
        funding_utxo: Seq<char>,
        holder_amount: u64,
        counterparty_amount: u64,
        contract_id: Seq<char>,
    },
    Check { witness_id: Seq<char>, contract_id: Seq<char> },
    Claim { witness_id: Seq<char>, destination_utxo: Seq<char>, contract_id: Seq<char> },
    Finish(Result<Seq<u8>, Failure>),
    Unexpected,
}

/// A state hash, or why there is none.
pub open spec fn hash_given(r: Result<[u8; 32], RgbLibError>) -> Result<Seq<u8>, Failure> {
    match r {
        Ok(hash) => Ok(hash@),
        Err(e) => Err(failure(e)),
    }
}

impl View for CloseAction {
    type V = CloseActionView;

    open spec fn view(&self) -> CloseActionView {
        match self {
            CloseAction::Settle {
                funding_utxo,
                holder_amount,
                counterparty_amount,
                contract_id,
            } => CloseActionView::Settle {
                funding_utxo: funding_utxo@,
                holder_amount: *holder_amount,
                counterparty_amount: *counterparty_amount,
                contract_id: contract_id@,
            },
            CloseAction::Check { witness_id, contract_id } => CloseActionView::Check {
                witness_id: witness_id@,
                contract_id: contract_id@,
            },
            CloseAction::Claim {
                witness_id,
                destination_utxo,
                contract_id,
            } => CloseActionView::Claim {
                witness_id: witness_id@,
                destination_utxo: destination_utxo@,
                contract_id: contract_id@,
            },
            CloseAction::Finish(r) => CloseActionView::Finish(hash_given(*r)),
            CloseAction::Unexpected => CloseActionView::Unexpected,
        }
    }
}

/// A settlement under way.
pub struct Closing {
    /// The output that funds the channel.
    pub funding_utxo: String,
    pub contract_id: String,
    pub holder_amount: u64,
    pub counterparty_amount: u64,
    /// Where the holder's share goes, if there is such an output.
    pub destination: Option<String>,
    pub stage: CloseStage,
}

/// What a settlement is about.
pub struct ClosePlan {
    pub funding_utxo: Seq<char>,
    pub contract_id: Seq<char>,
    pub holder_amount: u64,
    pub counterparty_amount: u64,
    pub destination: Option<Seq<char>>,
}

impl Closing {
    /// What the settlement is about.
    pub open spec fn plan(&self) -> ClosePlan {
        ClosePlan {
            funding_utxo: self.funding_utxo@,
            contract_id: self.contract_id@,
            holder_amount: self.holder_amount,
            counterparty_amount: self.counterparty_amount,
            destination: destination_view(self.destination),
        }
    }
}

/// The first step of a settlement: the sides are settled.
pub open spec fn close_start(plan: ClosePlan) -> (CloseStage, CloseActionView) {
    (
        CloseStage::Settling,
        CloseActionView::Settle {
            funding_utxo: plan.funding_utxo,
            holder_amount: plan.holder_amount,
            counterparty_amount: plan.counterparty_amount,
            contract_id: plan.contract_id,
        },
    )
}

/// The failure of finding an output for the holder's share.
pub open spec fn no_holder_output(amount: u64) -> Failure {
    Failure::Other(
        "Could not find holder output in output_map (holder_amount="@ + digits(amount as nat)
            + ")"@,
    )
}

/// The step after `event`: the next stage and what to do.
pub open spec fn close_step(plan: ClosePlan, stage: CloseStage, event: CloseEvent) -> (
    CloseStage,
    CloseActionView,
) {
    match (stage, event) {
        (CloseStage::Settling, CloseEvent::Settled(Err(e))) => (
            CloseStage::Done,
            CloseActionView::Finish(Err(failure(e))),
        ),
        (CloseStage::Settling, CloseEvent::Settled(Ok(hash))) => if plan.holder_amount == 0 {
            (CloseStage::Done, CloseActionView::Finish(Ok(hash@)))
        } else if plan.destination is None {
            (
                CloseStage::Done,
                CloseActionView::Finish(Err(no_holder_output(plan.holder_amount))),
            )
        } else {
            (
                CloseStage::Checking(hash),
                CloseActionView::Check {
                    witness_id: holder_witness(plan.funding_utxo),
                    contract_id: plan.contract_id,
                },
            )
        },
        (CloseStage::Checking(_), CloseEvent::Checked(Err(e))) => (
            CloseStage::Done,
            CloseActionView::Finish(Err(failure(e))),
        ),
        (CloseStage::Checking(hash), CloseEvent::Checked(Ok(true))) => (
            CloseStage::Done,
            CloseActionView::Finish(Ok(hash@)),
        ),
        (CloseStage::Checking(hash), CloseEvent::Checked(Ok(false))) => match plan.destination {
            None => (
                CloseStage::Done,
                CloseActionView::Finish(Err(no_holder_output(plan.holder_amount))),
            ),
            Some(destination) => (
                CloseStage::Claiming(hash),
                CloseActionView::Claim {
                    witness_id: holder_witness(plan.funding_utxo),
                    destination_utxo: destination,
                    contract_id: plan.contract_id,
                },
            ),
        },
        (CloseStage::Claiming(_), CloseEvent::Claimed(Err(e))) => (
            CloseStage::Done,
            CloseActionView::Finish(Err(failure(e))),
        ),
        (CloseStage::Claiming(hash), CloseEvent::Claimed(Ok(_))) => (
            CloseStage::Done,
            CloseActionView::Finish(Ok(hash@)),
        ),
        _ => (stage, CloseActionView::Unexpected),
    }
}

/// The event that a call of the executor is.
pub open spec fn event_of(call: ExecutorCall) -> CloseEvent {
    match call {
        ExecutorCall::Settle { settled, .. } => CloseEvent::Settled(settled),
        ExecutorCall::Check { checked, .. } => CloseEvent::Checked(checked),
        ExecutorCall::Claim { claimed, .. } => CloseEvent::Claimed(claimed),
    }
}

/// Whether a call of the executor is what an action says.
pub open spec fn performs(call: ExecutorCall, action: CloseActionView) -> bool {
    match call {
        ExecutorCall::Settle {
            funding_utxo,
            holder_amount,
            counterparty_amount,
            contract_id,
            ..
        } => action == CloseActionView::Settle {
            funding_utxo,
            holder_amount,
            counterparty_amount,
            contract_id,
        },
        ExecutorCall::Check { witness_id, contract_id, .. } => action == CloseActionView::Check {
            witness_id,
            contract_id,
        },
        ExecutorCall::Claim {
            witness_id,
            destination_utxo,
            contract_id,
            ..
        } => action == CloseActionView::Claim { witness_id, destination_utxo, contract_id },
    }
}

/// How a settlement ends that is at `stage` and next does `action`, where the executor is asked
/// exactly `calls`. None, where these are not the calls of the settlement.
pub open spec fn close_end(
    plan: ClosePlan,
    stage: CloseStage,
    action: CloseActionView,
    calls: Seq<ExecutorCall>,
) -> Option<Result<Seq<u8>, Failure>>
    decreases calls.len(),
{
    match action {
        CloseActionView::Finish(answer) => if calls.len() == 0 {
            Some(answer)
        } else {
            None
        },
        _ => if calls.len() > 0 && performs(calls[0], action) {
            let (next, then) = close_step(plan, stage, event_of(calls[0]));
            close_end(plan, next, then, calls.drop_first())
        } else {
            None
        },
    }
}

/// How a settlement ends in which the executor is asked exactly `calls`.
pub open spec fn settles(plan: ClosePlan, calls: Seq<ExecutorCall>) -> Option<
    Result<Seq<u8>, Failure>,
> {
    let (stage, action) = close_start(plan);
    close_end(plan, stage, action, calls)
}

/// Whether an action belongs to a stage.
spec fn in_step(stage: CloseStage, action: CloseActionView) -> bool {
    match stage {
        CloseStage::Settling => action is Settle,
        CloseStage::Checking(_) => action is Check,
        CloseStage::Claiming(_) => action is Claim,
        CloseStage::Done => action is Finish,
    }
}

/// How many calls of the executor can still come.
spec fn calls_left(stage: CloseStage) -> int {
    match stage {
        CloseStage::Settling => 3,
        CloseStage::Checking(_) => 2,
        CloseStage::Claiming(_) => 1,
        CloseStage::Done => 0,
    }
}

/// Why there is no output for the holder's share.
fn without_holder_output(amount: u64) -> (r: RgbLibError)
    ensures
        failure(r) == no_holder_output(amount),
{
    other(
        join_three(
            "Could not find holder output in output_map (holder_amount=",
            decimal(amount).as_str(),
            ")",
        ),
    )
}

impl Closing {
    /// Begins to settle a channel that closes.
    pub fn begin(
        funding_utxo: String,
        contract_id: String,
        holder_amount: u64,
        counterparty_amount: u64,
        destination: Option<String>,
    ) -> (r: (Closing, CloseAction))
        ensures
            r.0.plan() == (ClosePlan {
                funding_utxo: funding_utxo@,
                contract_id: contract_id@,
                holder_amount,
                counterparty_amount,
                destination: destination_view(destination),
            }),
            (r.0.stage, r.1@) == close_start(r.0.plan()),
    {
        let action: CloseAction = CloseAction::Settle {
            funding_utxo: funding_utxo.clone(),
            holder_amount,
            counterparty_amount,
            contract_id: contract_id.clone(),
        };
        (
            Closing {
                funding_utxo,
                contract_id,
                holder_amount,
                counterparty_amount,
                destination,
                stage: CloseStage::Settling,
            },
            action,
        )
    }

    /// Takes what the last action gave, and says what to do next.
    pub fn step(self, event: CloseEvent) -> (r: (Closing, CloseAction))
        ensures
            r.0.plan() == self.plan(),
            (r.0.stage, r.1@) == close_step(self.plan(), self.stage, event),
    {
        let Closing {
            funding_utxo,
            contract_id,
            holder_amount,
            counterparty_amount,
            destination,
            stage,
        } = self;
        let (stage, action): (CloseStage, CloseAction) = match (stage, event) {
            (CloseStage::Settling, CloseEvent::Settled(Err(e))) => (
                CloseStage::Done,
                CloseAction::Finish(Err(e)),
            ),
            (CloseStage::Settling, CloseEvent::Settled(Ok(hash))) => if holder_amount == 0 {
                (CloseStage::Done, CloseAction::Finish(Ok(hash)))
            } else if destination.is_none() {
                (CloseStage::Done, CloseAction::Finish(Err(without_holder_output(holder_amount))))
            } else {
                (
                    CloseStage::Checking(hash),
                    CloseAction::Check {
                        witness_id: witness_of_holder(funding_utxo.as_str()),
                        contract_id: contract_id.clone(),
                    },
                )
            },
            (CloseStage::Checking(_), CloseEvent::Checked(Err(e))) => (
                CloseStage::Done,
                CloseAction::Finish(Err(e)),
            ),
            (CloseStage::Checking(hash), CloseEvent::Checked(Ok(claimed))) => if claimed {
                (CloseStage::Done, CloseAction::Finish(Ok(hash)))
            } else {
                match &destination {
                    None => (
                        CloseStage::Done,
                        CloseAction::Finish(Err(without_holder_output(holder_amount))),
                    ),
                    Some(output) => (
                        CloseStage::Claiming(hash),
                        CloseAction::Claim {
                            witness_id: witness_of_holder(funding_utxo.as_str()),
                            destination_utxo: output.clone(),
                            contract_id: contract_id.clone(),
                        },
                    ),
                }
            },
            (CloseStage::Claiming(_), CloseEvent::Claimed(Err(e))) => (
                CloseStage::Done,
                CloseAction::Finish(Err(e)),
            ),
            (CloseStage::Claiming(hash), CloseEvent::Claimed(Ok(_))) => (
                CloseStage::Done,
                CloseAction::Finish(Ok(hash)),
            ),
            (stage, _) => (stage, CloseAction::Unexpected),
        };
        (
            Closing {
                funding_utxo,
                contract_id,
                holder_amount,
                counterparty_amount,
                destination,
                stage,
            },
            action,
        )
    }
}

/// Settles a channel that closes: asks the executor what the settlement says, and nothing else.
#[verifier::loop_isolation(false)]
pub fn settle_with<E: SettlementExecutor>(
    funding_utxo: String,
    contract_id: String,
    holder_amount: u64,
    counterparty_amount: u64,
    destination: Option<String>,
    settlements: &mut Settlements<'_, E>,
) -> (r: Result<[u8; 32], RgbLibError>)
    ensures
        goes_on(*old(settlements), *final(settlements)),
        settles(
            ClosePlan {
                funding_utxo: funding_utxo@,
                contract_id: contract_id@,
                holder_amount,
                counterparty_amount,
                destination: destination_view(destination),
            },
            asked_since(*old(settlements), *final(settlements)),
        ) == Some(hash_given(r)),
        asked_since(*old(settlements), *final(settlements)).len() > 0,
        asked_since(*old(settlements), *final(settlements))[0] matches ExecutorCall::Settle {
            funding_utxo: settled_utxo,
            holder_amount: to_holder,
            counterparty_amount: to_counterparty,
            contract_id: settled_contract,
            ..
        } && settled_utxo == funding_utxo@ && to_holder == holder_amount && to_counterparty
            == counterparty_amount && settled_contract == contract_id@,
{
    let ghost before = *settlements;
    let (mut closing, mut action): (Closing, CloseAction) = Closing::begin(
        funding_utxo,
        contract_id,
        holder_amount,
        counterparty_amount,
        destination,
    );
    let ghost plan = closing.plan();
    assert(asked_since(before, *settlements) =~= Seq::empty());
    assert forall|rest: Seq<ExecutorCall>| #[trigger]
        settles(plan, asked_since(before, *settlements) + rest) == close_end(
            plan,
            closing.stage,
            action@,
            rest,
        ) by {
        assert(asked_since(before, *settlements) + rest =~= rest);
    }
    loop
        invariant
            goes_on(before, *settlements),
            closing.plan() == plan,
            in_step(closing.stage, action@),
            forall|rest: Seq<ExecutorCall>| #[trigger]
                settles(plan, asked_since(before, *settlements) + rest) == close_end(
                    plan,
                    closing.stage,
                    action@,
                    rest,
                ),
        decreases calls_left(closing.stage),
    {
        let ghost asked = asked_since(before, *settlements);
        let ghost stage = closing.stage;
        let ghost doing = action@;
        let event: CloseEvent = match action {
            CloseAction::Settle {
                funding_utxo,
                holder_amount,
                counterparty_amount,
                contract_id,
            } => CloseEvent::Settled(
                settlements.execute_settlement(
                    funding_utxo.as_str(),
                    holder_amount,
                    counterparty_amount,
                    contract_id.as_str(),
                ),
            ),
            CloseAction::Check { witness_id, contract_id } => CloseEvent::Checked(
                settlements.is_witness_claimed(witness_id.as_str(), contract_id.as_str()),
            ),
            CloseAction::Claim {
                witness_id,
                destination_utxo,
                contract_id,
            } => CloseEvent::Claimed(
                settlements.claim_from_witness(
                    witness_id.as_str(),
                    destination_utxo.as_str(),
                    contract_id.as_str(),
                ),
            ),
            CloseAction::Finish(answer) => {
                assert(asked + Seq::empty() =~= asked);
                proof {
                    law_settlement_asked(plan, asked, hash_given(answer));
                }
                return answer;
            },
            CloseAction::Unexpected => vstd::pervasive::unreached(),
        };
        let ghost call = settlements.calls().last();
        let (next, then): (Closing, CloseAction) = closing.step(event);
        closing = next;
        action = then;
        proof {
            assert(performs(call, doing));
            assert(asked_since(before, *settlements) =~= asked.push(call));
            assert forall|rest: Seq<ExecutorCall>| #[trigger]
                settles(plan, asked_since(before, *settlements) + rest) == close_end(
                    plan,
                    closing.stage,
                    action@,
                    rest,
                ) by {
                let more = seq![call] + rest;
                assert(asked.push(call) + rest =~= asked + more);
                assert(settles(plan, asked + more) == close_end(plan, stage, doing, more));
                assert(more.drop_first() =~= rest);
            }
        }
    }
}

/// A share is claimed only when the executor has said that it was not claimed before. Whether it
/// was is asked only once the sides are settled, and only for a holder with a share. The sides are
/// not settled again.
pub proof fn law_claim_step(plan: ClosePlan, stage: CloseStage, event: CloseEvent)
    ensures
        ({
            let action = close_step(plan, stage, event).1;
            &&& action is Claim ==> stage is Checking && event == CloseEvent::Checked(
                Ok::<bool, RgbLibError>(false),
            )
            &&& action is Check ==> stage is Settling && (event matches CloseEvent::Settled(settled)
                && settled is Ok) && plan.holder_amount > 0
            &&& !(action is Settle)
        }),
{
}

/// The order of a settlement. The sides are settled first, and once. Then it is asked whether the
/// holder's share was claimed before, where there is a share and an output for it. The share is
/// claimed if and only if it was not claimed before, once, and last. The settlement ends with the
/// first failure, else with the state hash.
pub proof fn law_settlement_calls(
    plan: ClosePlan,
    calls: Seq<ExecutorCall>,
    answer: Result<Seq<u8>, Failure>,
)
    requires
        settles(plan, calls) == Some(answer),
    ensures
        ({
            let witness_id = holder_witness(plan.funding_utxo);
            &&& 1 <= calls.len() <= 3
            &&& calls[0] matches ExecutorCall::Settle { settled, .. }
            &&& performs(calls[0], close_start(plan).1)
            &&& (calls.len() >= 2) == (settled is Ok && plan.holder_amount > 0
                && plan.destination is Some)
            &&& calls.len() == 1 ==> answer == match settled {
                Err(e) => Err::<Seq<u8>, Failure>(failure(e)),
                Ok(hash) => if plan.holder_amount == 0 {
                    Ok::<Seq<u8>, Failure>(hash@)
                } else {
                    Err::<Seq<u8>, Failure>(no_holder_output(plan.holder_amount))
                },
            }
            &&& calls.len() >= 2 ==> {
                &&& calls[1] matches ExecutorCall::Check { checked, .. }
                &&& performs(
                    calls[1],
                    CloseActionView::Check { witness_id, contract_id: plan.contract_id },
                )
                &&& (calls.len() == 3) == (checked == Ok::<bool, RgbLibError>(false))
                &&& calls.len() == 2 ==> answer == match checked {
                    Err(e) => Err::<Seq<u8>, Failure>(failure(e)),
                    Ok(_) => Ok::<Seq<u8>, Failure>(settled->Ok_0@),
                }
            }
            &&& calls.len() == 3 ==> {
                &&& calls[2] matches ExecutorCall::Claim { claimed, .. }
                &&& performs(
                    calls[2],
                    CloseActionView::Claim {
                        witness_id,
                        destination_utxo: plan.destination->0,
                        contract_id: plan.contract_id,
                    },
                )
                &&& answer == match claimed {
                    Err(e) => Err::<Seq<u8>, Failure>(failure(e)),
                    Ok(_) => Ok::<Seq<u8>, Failure>(settled->Ok_0@),
                }
            }
        }),
{
    reveal_with_fuel(close_end, 5);
    let one = calls.drop_first();
    if one.len() > 0 {
        let two = one.drop_first();
        assert(one[0] == calls[1]);
        assert(two.len() > 0 ==> two[0] == calls[2]);
    }
}

/// What a settlement asks, call by call: the sides are settled with the amounts, the funding output
/// and the contract that it is about; then the one witness of that funding output is looked up, and
/// the same witness is claimed for the destination, in that contract.
pub proof fn law_settlement_asked(
    plan: ClosePlan,
    calls: Seq<ExecutorCall>,
    answer: Result<Seq<u8>, Failure>,
)
    requires
        settles(plan, calls) == Some(answer),
    ensures
        calls.len() > 0,
        calls[0] matches ExecutorCall::Settle {
            funding_utxo,
            holder_amount,
            counterparty_amount,
            contract_id,
            ..
        } && funding_utxo == plan.funding_utxo && holder_amount == plan.holder_amount
            && counterparty_amount == plan.counterparty_amount && contract_id == plan.contract_id,
        calls.len() > 1 ==> (calls[1] matches ExecutorCall::Check { witness_id, contract_id, .. }
            && witness_id == holder_witness(plan.funding_utxo) && contract_id == plan.contract_id),
        calls.len() > 2 ==> (calls[2] matches ExecutorCall::Claim {
            witness_id,
            destination_utxo,
            contract_id,
            ..
        } && witness_id == holder_witness(plan.funding_utxo) && plan.destination == Some(
            destination_utxo,
        ) && contract_id == plan.contract_id),
{
    law_settlement_calls(plan, calls, answer);
}

/// Every settlement comes to an end: where the executor answers what is asked, the calls are those
/// of the settlement. It ends well if the sides are settled and the holder has nothing, had the share
/// claimed before, or claims it; and it ends with the first failure.
pub proof fn law_settlement_ends(
    plan: ClosePlan,
    settle: ExecutorCall,
    check: ExecutorCall,
    claim: ExecutorCall,
)
    requires
        settle matches ExecutorCall::Settle {
            funding_utxo,
            holder_amount,
            counterparty_amount,
            contract_id,
            ..
        } && funding_utxo == plan.funding_utxo && holder_amount == plan.holder_amount
            && counterparty_amount == plan.counterparty_amount && contract_id == plan.contract_id,
        check matches ExecutorCall::Check { witness_id, contract_id, .. } && witness_id
            == holder_witness(plan.funding_utxo) && contract_id == plan.contract_id,
        claim matches ExecutorCall::Claim { witness_id, destination_utxo, contract_id, .. }
            && witness_id == holder_witness(plan.funding_utxo) && contract_id == plan.contract_id
            && plan.destination == Some(destination_utxo),
    ensures
        settle->settled matches Err(e) ==> settles(plan, seq![settle]) == Some(
            Err::<Seq<u8>, Failure>(failure(e)),
        ),
        settle->settled matches Ok(hash) ==> {
            &&& plan.holder_amount == 0 ==> settles(plan, seq![settle]) == Some(
                Ok::<Seq<u8>, Failure>(hash@),
            )
            &&& plan.holder_amount > 0 ==> (check->checked matches Err(e) ==> settles(
                plan,
                seq![settle, check],
            ) == Some(Err::<Seq<u8>, Failure>(failure(e))))
            &&& plan.holder_amount > 0 && check->checked == Ok::<bool, RgbLibError>(true)
                ==> settles(plan, seq![settle, check]) == Some(Ok::<Seq<u8>, Failure>(hash@))
            &&& plan.holder_amount > 0 && check->checked == Ok::<bool, RgbLibError>(false) ==> (
            claim->claimed matches Err(e) ==> settles(plan, seq![settle, check, claim]) == Some(
                Err::<Seq<u8>, Failure>(failure(e)),
            ))
            &&& plan.holder_amount > 0 && check->checked == Ok::<bool, RgbLibError>(false)
                && claim->claimed is Ok ==> settles(plan, seq![settle, check, claim]) == Some(
                Ok::<Seq<u8>, Failure>(hash@),
            )
        },
{
    reveal_with_fuel(close_end, 5);
    let one = seq![settle];
    let two = seq![settle, check];
    let three = seq![settle, check, claim];
    assert(one.drop_first() =~= Seq::empty());
    assert(two.drop_first() =~= seq![check]);
    assert(two.drop_first().drop_first() =~= Seq::empty());
    assert(three.drop_first() =~= seq![check, claim]);
    assert(three.drop_first().drop_first() =~= seq![claim]);
    assert(three.drop_first().drop_first().drop_first() =~= Seq::empty());
}

/// A witness is known by its funding output alone: the mark of witnesses, half the digits of a
/// digest that covers the funding output between two marks, and the number of its first output.
pub proof fn law_holder_witness(funding_utxo: Seq<char>)
    ensures
        ({
            let digest = sha256_digest(encode_utf8("witness:"@ + funding_utxo + "holder"@));
            let witness_id = holder_witness(funding_utxo);
            digest.len() == 32 ==> {
                &&& witness_id.len() == 42
                &&& witness_id.subrange(0, 8) == seq!['w', 'i', 't', 'n', 'e', 's', 's', ':']
                &&& witness_id.subrange(8, 40) == lower_hex(digest.subrange(0, 16))
                &&& witness_id.subrange(40, 42) == seq![':', '0']
            }
        }),
{
    reveal_strlit("witness:");
    reveal_strlit(":0");
    let digest = sha256_digest(encode_utf8("witness:"@ + funding_utxo + "holder"@));
    let witness_id = holder_witness(funding_utxo);
    if digest.len() == 32 {
        assert(lower_hex(digest).subrange(0, 32) =~= lower_hex(digest.subrange(0, 16)));
        assert(witness_id.subrange(0, 8) =~= "witness:"@);
        assert(witness_id.subrange(8, 40) =~= lower_hex(digest.subrange(0, 16)));
        assert(witness_id.subrange(40, 42) =~= ":0"@);
        assert("witness:"@ =~= seq!['w', 'i', 't', 'n', 'e', 's', 's', ':']);
        assert(":0"@ =~= seq![':', '0']);
    }
}

/// The holder's share goes to an output that gets exactly the holder's amount: to the holder's own
/// one, where that is known and does. There is nowhere to go if and only if no output gets it.
pub proof fn law_share_destination(
    outputs: Map<u32, u64>,
    own: Option<u32>,
    amount: u64,
    closing_txid: Seq<u8>,
    destination: Option<Seq<char>>,
)
    requires
        destined(outputs, own, amount, closing_txid, destination),
    ensures
        destination is Some <==> exists|vout: u32| #[trigger]
            outputs.contains_key(vout) && outputs[vout] == amount,
        destination matches Some(text) ==> exists|vout: u32| #[trigger]
            outputs.contains_key(vout) && outputs[vout] == amount && text == outpoint_text(
                closing_txid,
                vout,
            ),
        own matches Some(known) ==> outputs.contains_key(known) && outputs[known] == amount
            ==> destination == Some(outpoint_text(closing_txid, known)),
{
    match destination {
        Some(text) => {
            let vout = choose|vout: u32| #[trigger]
                goes_to(outputs, own, amount, vout) && text == outpoint_text(closing_txid, vout);
            assert(outputs.contains_key(vout) && outputs[vout] == amount);
        },
        None => {
            assert forall|vout: u32| #[trigger] outputs.contains_key(vout) implies outputs[vout]
                != amount by {
                assert(!pays(outputs, vout, amount));
            }
        },
    }
}

/// A settlement under way is about the output, the contract, the amounts and the destination that it
/// was begun with; a state hash is given by its bytes, and an error by what it says.
pub proof fn law_settlement_told(closing: Closing, hash: [u8; 32], error: RgbLibError, text: String)
    ensures
        closing.plan().funding_utxo == closing.funding_utxo@,
        closing.plan().contract_id == closing.contract_id@,
        closing.plan().holder_amount == closing.holder_amount,
        closing.plan().counterparty_amount == closing.counterparty_amount,
        closing.destination is None ==> closing.plan().destination is None,
        closing.destination == Some(text) ==> closing.plan().destination == Some(text@),
        hash_given(Ok(hash)) == Ok::<Seq<u8>, Failure>(hash@),
        hash_given(Err(error)) == Err::<Seq<u8>, Failure>(failure(error)),
{
}

/// Step by step, a settlement looks the share up after settling where there is one and an output for
/// it, claims it where it was not claimed before, and ends at the first failure; an event that does not
/// belong to the stage changes nothing, and an end is an end.
pub proof fn law_settlement_steps(
    plan: ClosePlan,
    hash: [u8; 32],
    error: RgbLibError,
    event: CloseEvent,
    destination: Seq<char>,
)
    ensures
        close_start(plan) == (
            CloseStage::Settling,
            CloseActionView::Settle {
                funding_utxo: plan.funding_utxo,
                holder_amount: plan.holder_amount,
                counterparty_amount: plan.counterparty_amount,
                contract_id: plan.contract_id,
            },
        ),
        close_step(plan, CloseStage::Settling, CloseEvent::Settled(Err(error))) == (
            CloseStage::Done,
            CloseActionView::Finish(Err(failure(error))),
        ),
        plan.holder_amount == 0 ==> close_step(
            plan,
            CloseStage::Settling,
            CloseEvent::Settled(Ok(hash)),
        ) == (CloseStage::Done, CloseActionView::Finish(Ok(hash@))),
        plan.holder_amount > 0 && plan.destination == Some(destination) ==> close_step(
            plan,
            CloseStage::Settling,
            CloseEvent::Settled(Ok(hash)),
        ) == (
            CloseStage::Checking(hash),
            CloseActionView::Check {
                witness_id: holder_witness(plan.funding_utxo),
                contract_id: plan.contract_id,
            },
        ),
        plan.destination == Some(destination) ==> close_step(
            plan,
            CloseStage::Checking(hash),
            CloseEvent::Checked(Ok(false)),
        ) == (
            CloseStage::Claiming(hash),
            CloseActionView::Claim {
                witness_id: holder_witness(plan.funding_utxo),
                destination_utxo: destination,
                contract_id: plan.contract_id,
            },
        ),
        close_step(plan, CloseStage::Checking(hash), CloseEvent::Checked(Ok(true))) == (
            CloseStage::Done,
            CloseActionView::Finish(Ok(hash@)),
        ),
        close_step(plan, CloseStage::Checking(hash), CloseEvent::Checked(Err(error))) == (
            CloseStage::Done,
            CloseActionView::Finish(Err(failure(error))),
        ),
        close_step(plan, CloseStage::Claiming(hash), CloseEvent::Claimed(Ok(()))) == (
            CloseStage::Done,
            CloseActionView::Finish(Ok(hash@)),
        ),
        close_step(plan, CloseStage::Claiming(hash), CloseEvent::Claimed(Err(error))) == (
            CloseStage::Done,
            CloseActionView::Finish(Err(failure(error))),
        ),
        close_step(plan, CloseStage::Done, event) == (
            CloseStage::Done,
            CloseActionView::Unexpected,
        ),
        event !is Settled ==> close_step(plan, CloseStage::Settling, event) == (
            CloseStage::Settling,
            CloseActionView::Unexpected,
        ),
        event !is Checked ==> close_step(plan, CloseStage::Checking(hash), event) == (
            CloseStage::Checking(hash),
            CloseActionView::Unexpected,
        ),
        event !is Claimed ==> close_step(plan, CloseStage::Claiming(hash), event) == (
            CloseStage::Claiming(hash),
            CloseActionView::Unexpected,
        ),
{
}

} // verus!
