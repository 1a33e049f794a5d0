//! What the channel code asks of its surroundings: the settlement of a channel that closes, and
//! the reload of the contracts.

use vstd::prelude::*;

use crate::error::{failure, Failure, RgbLibError};

verus! {

/// Settles channels that close.
///
/// Nothing is assumed of the answers. For each operation an implementation may say, as a
/// relation between the arguments and the answer, which answers it can give: all of them, where
/// it says nothing. What is proved of a caller holds for every such relation.
pub trait SettlementExecutor: Send + Sync {
    /// Whether `settle_channel_close` can answer `r` to these arguments.
    open spec fn may_settle(
        &self,
        funding_utxo: Seq<char>,
        holder_amount: u64,
        counterparty_amount: u64,
        contract_id: Seq<char>,
        r: Result<[u8; 32], RgbLibError>,
    ) -> bool {
        true
    }

    /// Whether `claim_from_witness` can answer `r` to these arguments.
    open spec fn may_claim(
        &self,
        witness_id: Seq<char>,
        destination_utxo: Seq<char>,
        contract_id: Seq<char>,
        r: Result<(), RgbLibError>,
    ) -> bool {
        true
    }

    /// Whether `is_witness_claimed` can answer `r` to these arguments.
    open spec fn may_find_claimed(
        &self,
        witness_id: Seq<char>,
        contract_id: Seq<char>,
        r: Result<bool, RgbLibError>,
    ) -> bool {
        true
    }

    /// Settles a channel that closes, and gives the state hash for the closing transaction.
    fn settle_channel_close(
        &self,
        funding_utxo: &str,
        holder_amount: u64,
        counterparty_amount: u64,
        contract_id: &str,
    ) -> (r: Result<[u8; 32], RgbLibError>)
        ensures
            self.may_settle(funding_utxo@, holder_amount, counterparty_amount, contract_id@, r),
    ;

    /// Moves assets from a witness to an output.
    fn claim_from_witness(
        &self,
        witness_id: &str,
        destination_utxo: &str,
        contract_id: &str,
    ) -> (r: Result<(), RgbLibError>)
        ensures
            self.may_claim(witness_id@, destination_utxo@, contract_id@, r),
    ;

    /// Whether the assets of a witness were moved before.
    fn is_witness_claimed(&self, witness_id: &str, contract_id: &str) -> (r: Result<
        bool,
        RgbLibError,
    >)
        ensures
            self.may_find_claimed(witness_id@, contract_id@, r),
    ;
}

/// Reloads the contracts from disk.
pub trait ContractReloader: Send + Sync {
    /// Whether `reload_contracts` can answer `r`.
    open spec fn may_reload(&self, r: Result<(), RgbLibError>) -> bool {
        true
    }

    /// Reloads the contracts, after new ones were written to disk.
    fn reload_contracts(&self) -> (r: Result<(), RgbLibError>)
        ensures
            self.may_reload(r),
    ;
}

/// A place that is filled once: what comes first stays.
pub struct OnceSlot<T> {
    pub value: Option<T>,
}

impl<T> OnceSlot<T> {
    /// A place that holds nothing yet.
    pub fn new() -> (r: OnceSlot<T>)
        ensures
            r.value is None,
    {
        OnceSlot { value: None }
    }

    /// Fills the place, unless it is filled.
    pub fn set(&mut self, value: T)
        ensures
            final(self).value == match old(self).value {
                Some(first) => Some(first),
                None => Some(value),
            },
    {
        if self.value.is_none() {
            self.value = Some(value);
        }
    }
}

/// Makes `executor` the one that settles channels, unless there is one.
pub fn set_settlement_executor<E: SettlementExecutor>(slot: &mut OnceSlot<E>, executor: E)
    ensures
        final(slot).value == match old(slot).value {
            Some(first) => Some(first),
            None => Some(executor),
        },
{
    slot.set(executor);
}

/// Makes `reloader` the one that reloads contracts, unless there is one.
pub fn set_contract_reloader<R: ContractReloader>(slot: &mut OnceSlot<R>, reloader: R)
    ensures
        final(slot).value == match old(slot).value {
            Some(first) => Some(first),
            None => Some(reloader),
        },
{
    slot.set(reloader);
}

/// What was asked of the executor of settlements, and what the answer was.
pub enum ExecutorCall {
    Settle {
        funding_utxo: Seq<char>,
        holder_amount: u64,
        counterparty_amount: u64,
        contract_id: Seq<char>,
        settled: Result<[u8; 32], RgbLibError>,
    },
    Check { witness_id: Seq<char>, contract_id: Seq<char>, checked: Result<bool, RgbLibError> },
    Claim {
        witness_id: Seq<char>,
        destination_utxo: Seq<char>,
        contract_id: Seq<char>,
        claimed: Result<(), RgbLibError>,
    },
}

/// Whether an answer says that there is no executor.
pub open spec fn is_not_initialized<T>(answer: Result<T, RgbLibError>) -> bool {
    answer matches Err(e) && failure(e) == Failure::Other("Settlement executor not initialized"@)
}

/// Whether a call can have its answer: one that the executor can give, or, where there is none,
/// that there is none.
pub open spec fn admits<E: SettlementExecutor>(executor: Option<&E>, call: ExecutorCall) -> bool {
    match call {
        ExecutorCall::Settle {
            funding_utxo,
            holder_amount,
            counterparty_amount,
            contract_id,
            settled,
        } => match executor {
            Some(e) => e.may_settle(
                funding_utxo,
                holder_amount,
                counterparty_amount,
                contract_id,
                settled,
            ),
            None => is_not_initialized(settled),
        },
        ExecutorCall::Check { witness_id, contract_id, checked } => match executor {
            Some(e) => e.may_find_claimed(witness_id, contract_id, checked),
            None => is_not_initialized(checked),
        },
        ExecutorCall::Claim { witness_id, destination_utxo, contract_id, claimed } => match executor {
            Some(e) => e.may_claim(witness_id, destination_utxo, contract_id, claimed),
            None => is_not_initialized(claimed),
        },
    }
}

/// The access to the executor of settlements, where there is one. Every call of the executor goes
/// through it and is kept in mind, in the order of the calls.
pub struct Settlements<'a, E: SettlementExecutor> {
    executor: Option<&'a E>,
    calls: Ghost<Seq<ExecutorCall>>,
}

impl<'a, E: SettlementExecutor> Settlements<'a, E> {
    /// The executor, where there is one.
    pub closed spec fn executor(&self) -> Option<&'a E> {
        self.executor
    }

    /// What was asked so far.
    pub closed spec fn calls(&self) -> Seq<ExecutorCall> {
        self.calls@
    }

    /// The access to an executor that was asked nothing yet.
    pub fn new(executor: Option<&'a E>) -> (r: Settlements<'a, E>)
        ensures
            r.executor() == executor,
            r.calls() == Seq::<ExecutorCall>::empty(),
    {
        Settlements { executor, calls: Ghost(Seq::empty()) }
    }

    /// Settles a channel that closes.
    pub fn execute_settlement(
        &mut self,
        funding_utxo: &str,
        holder_amount: u64,
        counterparty_amount: u64,
        contract_id: &str,
    ) -> (r: Result<[u8; 32], RgbLibError>)
        ensures
            ({
                let call = ExecutorCall::Settle {
                    funding_utxo: funding_utxo@,
                    holder_amount,
                    counterparty_amount,
                    contract_id: contract_id@,
                    settled: r,
                };
                &&& final(self).executor() == old(self).executor()
                &&& final(self).calls() == old(self).calls().push(call)
                &&& admits(old(self).executor(), call)
            }),
    {
        let r: Result<[u8; 32], RgbLibError> = match self.executor {
            Some(e) => e.settle_channel_close(
                funding_utxo,
                holder_amount,
                counterparty_amount,
                contract_id,
            ),
            None => Err(RgbLibError::Other("Settlement executor not initialized".to_owned())),
        };
        let ghost call = ExecutorCall::Settle {
            funding_utxo: funding_utxo@,
            holder_amount,
            counterparty_amount,
            contract_id: contract_id@,
            settled: r,
        };
        self.calls = Ghost(self.calls@.push(call));
        r
    }

    /// Whether the assets of a witness were moved before.
    pub fn is_witness_claimed(&mut self, witness_id: &str, contract_id: &str) -> (r: Result<
        bool,
        RgbLibError,
    >)
        ensures
            ({
                let call = ExecutorCall::Check {
                    witness_id: witness_id@,
                    contract_id: contract_id@,
                    checked: r,
                };
                &&& final(self).executor() == old(self).executor()
                &&& final(self).calls() == old(self).calls().push(call)
                &&& admits(old(self).executor(), call)
            }),
    {
        let r: Result<bool, RgbLibError> = match self.executor {
            Some(e) => e.is_witness_claimed(witness_id, contract_id),
            None => Err(RgbLibError::Other("Settlement executor not initialized".to_owned())),
        };
        let ghost call = ExecutorCall::Check {
            witness_id: witness_id@,
            contract_id: contract_id@,
            checked: r,
        };
        self.calls = Ghost(self.calls@.push(call));
        r
    }

    /// Moves assets from a witness to an output.
    pub fn claim_from_witness(
        &mut self,
        witness_id: &str,
        destination_utxo: &str,
        contract_id: &str,
    ) -> (r: Result<(), RgbLibError>)
        ensures
            ({
                let call = ExecutorCall::Claim {
                    witness_id: witness_id@,
                    destination_utxo: destination_utxo@,
                    contract_id: contract_id@,
                    claimed: r,
                };
                &&& final(self).executor() == old(self).executor()
                &&& final(self).calls() == old(self).calls().push(call)
                &&& admits(old(self).executor(), call)
            }),
    {
        let r: Result<(), RgbLibError> = match self.executor {
            Some(e) => e.claim_from_witness(witness_id, destination_utxo, contract_id),
            None => Err(RgbLibError::Other("Settlement executor not initialized".to_owned())),
        };
        let ghost call = ExecutorCall::Claim {
            witness_id: witness_id@,
            destination_utxo: destination_utxo@,
            contract_id: contract_id@,
            claimed: r,
        };
        self.calls = Ghost(self.calls@.push(call));
        r
    }
}

/// Whether between two moments the executor stayed, what was asked before was kept in mind, and
/// what was asked since has answers that the executor can give.
pub open spec fn goes_on<'a, E: SettlementExecutor>(
    before: Settlements<'a, E>,
    after: Settlements<'a, E>,
) -> bool {
    &&& after.executor() == before.executor()
    &&& before.calls().is_prefix_of(after.calls())
    &&& forall|i: int|
        before.calls().len() <= i < after.calls().len() ==> admits(
            before.executor(),
            #[trigger] after.calls()[i],
        )
}

/// What was asked between two moments.
pub open spec fn asked_since<'a, E: SettlementExecutor>(
    before: Settlements<'a, E>,
    after: Settlements<'a, E>,
) -> Seq<ExecutorCall> {
    after.calls().skip(before.calls().len() as int)
}

/// Reloads the contracts; without a reloader there is nothing to do.
pub fn reload_with<R: ContractReloader>(reloader: Option<&R>) -> (r: Result<(), RgbLibError>)
    ensures
        match reloader {
            Some(reloader) => reloader.may_reload(r),
            None => r is Ok,
        },
{
    match reloader {
        Some(reloader) => reloader.reload_contracts(),
        None => Ok(()),
    }
}

/// The answer of a call is one that the executor can give to exactly what the call asks, with every
/// amount and text in its place. Without an executor the answer is that there is none.
pub proof fn law_answers<E: SettlementExecutor>(executor: &E, call: ExecutorCall)
    ensures
        admits(Some(executor), call) <==> match call {
            ExecutorCall::Settle {
                funding_utxo,
                holder_amount,
                counterparty_amount,
                contract_id,
                settled,
            } => executor.may_settle(
                funding_utxo,
                holder_amount,
                counterparty_amount,
                contract_id,
                settled,
            ),
            ExecutorCall::Check { witness_id, contract_id, checked } => executor.may_find_claimed(
                witness_id,
                contract_id,
                checked,
            ),
            ExecutorCall::Claim {
                witness_id,
                destination_utxo,
                contract_id,
                claimed,
            } => executor.may_claim(witness_id, destination_utxo, contract_id, claimed),
        },
        admits(None::<&E>, call) ==> match call {
            ExecutorCall::Settle { settled, .. } => settled is Err && failure(settled->Err_0)
                == Failure::Other("Settlement executor not initialized"@),
            ExecutorCall::Check { checked, .. } => checked is Err && failure(checked->Err_0)
                == Failure::Other("Settlement executor not initialized"@),
            ExecutorCall::Claim { claimed, .. } => claimed is Err && failure(claimed->Err_0)
                == Failure::Other("Settlement executor not initialized"@),
        },
{
}

/// What was asked is never forgotten: what was asked before, with what was asked since behind it, is all
/// that was asked, of one and the same executor.
pub proof fn law_calls_kept<'a, E: SettlementExecutor>(
    before: Settlements<'a, E>,
    after: Settlements<'a, E>,
)
    requires
        goes_on(before, after),
    ensures
        before.calls() + asked_since(before, after) == after.calls(),
        after.executor() == before.executor(),
        forall|i: int|
            0 <= i < asked_since(before, after).len() ==> admits(
                before.executor(),
                #[trigger] asked_since(before, after)[i],
            ),
{
    assert(before.calls() + asked_since(before, after) =~= after.calls());
    assert forall|i: int| 0 <= i < asked_since(before, after).len() implies admits(
        before.executor(),
        #[trigger] asked_since(before, after)[i],
    ) by {
        assert(asked_since(before, after)[i] == after.calls()[i + before.calls().len()]);
    }
}

} // verus!
