//! The files of payments, and what the payments in flight make of the sides of a channel.

use std::collections::HashMap;
use vstd::prelude::*;

use crate::channel::{
    _append_pending_extension, direction, is_plain_name, lemma_directions, lemma_hex_name,
    lemma_named_file, lemma_pending, path_of_payment, payment_path, pending_path, ChannelId,
    PaymentHash, RgbInfo, RgbPaymentInfo,
};
use crate::codec::{hex_text, lower_hex};
use crate::contract::ContractId;
use crate::path::{FilePath, PathView};
use crate::text::join_two;

verus! {

/// A change to the files of payments.
#[derive(Debug, Clone)]
pub enum FileOp {
    Write(FilePath, RgbPaymentInfo),
    Remove(FilePath),
}

/// A change to the files of payments.
pub enum FileOpView {
    Write(PathView, RgbPaymentInfo),
    Remove(PathView),
}

impl View for FileOp {
    type V = FileOpView;

    open spec fn view(&self) -> FileOpView {
        match self {
            FileOp::Write(path, info) => FileOpView::Write(path@, *info),
            FileOp::Remove(path) => FileOpView::Remove(path@),
        }
    }
}

/// The files of payments: what each says, where it can be read, and the changes that are still
/// to be made on disk, in their order.
pub struct PaymentStore {
    pub files: Vec<(FilePath, Option<RgbPaymentInfo>)>,
    pub changes: Vec<FileOp>,
}

/// The files of payments.
#[verifier::ext_equal]
pub struct StoreView {
    pub files: Map<PathView, Option<RgbPaymentInfo>>,
    pub changes: Seq<FileOpView>,
}

/// What a file says; nothing, where there is none.
pub open spec fn find_file(files: Seq<(FilePath, Option<RgbPaymentInfo>)>, path: PathView) -> Option<
    Option<RgbPaymentInfo>,
>
    decreases files.len(),
{
    if files.len() == 0 {
        None
    } else if files.last().0@ == path {
        Some(files.last().1)
    } else {
        find_file(files.drop_last(), path)
    }
}

/// What some changes say.
pub open spec fn changes_view(changes: Seq<FileOp>) -> Seq<FileOpView> {
    Seq::new(changes.len(), |i: int| changes[i]@)
}

impl View for PaymentStore {
    type V = StoreView;

    open spec fn view(&self) -> StoreView {
        StoreView {
            files: Map::new(
                |path: PathView| find_file(self.files@, path) is Some,
                |path: PathView| find_file(self.files@, path)->0,
            ),
            changes: changes_view(self.changes@),
        }
    }
}

impl StoreView {
    /// Whether there is such a file.
    pub open spec fn has(self, path: PathView) -> bool {
        self.files.contains_key(path)
    }

    /// The files after a file was written.
    pub open spec fn written(self, path: PathView, info: RgbPaymentInfo) -> StoreView {
        StoreView {
            files: self.files.insert(path, Some(info)),
            changes: self.changes.push(FileOpView::Write(path, info)),
        }
    }

    /// The files after a file was removed.
    pub open spec fn removed(self, path: PathView) -> StoreView {
        StoreView {
            files: self.files.remove(path),
            changes: self.changes.push(FileOpView::Remove(path)),
        }
    }
}

impl PaymentStore {
    /// No files.
    pub fn new() -> (r: PaymentStore)
        ensures
            r@.files == Map::<PathView, Option<RgbPaymentInfo>>::empty(),
            r@.changes == Seq::<FileOpView>::empty(),
    {
        let r: PaymentStore = PaymentStore { files: Vec::new(), changes: Vec::new() };
        assert(r@.files =~= Map::empty());
        r
    }

    /// Takes note of a file that is on disk.
    pub fn load(&mut self, path: FilePath, info: Option<RgbPaymentInfo>)
        ensures
            final(self)@.files == old(self)@.files.insert(path@, info),
            final(self)@.changes == old(self)@.changes,
    {
        let ghost before = self.files@;
        let ghost was = self@;
        self.files.push((path, info));
        assert forall|p: PathView| #[trigger] find_file(self.files@, p) == if p == path@ {
            Some(info)
        } else {
            find_file(before, p)
        } by {
            assert(self.files@.drop_last() =~= before);
        }
        assert(self@.files =~= was.files.insert(path@, info));
    }

    /// What a file says; nothing, where there is none.
    pub fn read(&self, path: &FilePath) -> (r: Option<Option<RgbPaymentInfo>>)
        ensures
            match r {
                Some(info) => self@.has(path@) && self@.files[path@] == info,
                None => !self@.has(path@),
            },
    {
        let mut n: usize = self.files.len();
        assert(self.files@.take(n as int) =~= self.files@);
        while n > 0
            invariant
                n <= self.files.len(),
                find_file(self.files@, path@) == find_file(self.files@.take(n as int), path@),
            decreases n,
        {
            assert(self.files@.take(n as int).drop_last() =~= self.files@.take(n - 1));
            if self.files[n - 1].0.same(path) {
                return Some(self.files[n - 1].1);
            }
            n -= 1;
        }
        None
    }

    /// Writes a file.
    pub fn write(&mut self, path: &FilePath, info: RgbPaymentInfo)
        ensures
            final(self)@ == old(self)@.written(path@, info),
    {
        let ghost was = self@;
        let ghost before = self.changes@;
        self.load(path.copy(), Some(info));
        self.changes.push(FileOp::Write(path.copy(), info));
        assert(changes_view(self.changes@) =~= changes_view(before).push(
            FileOpView::Write(path@, info),
        ));
        assert(self@ =~= was.written(path@, info));
    }

    /// Removes a file.
    pub fn remove(&mut self, path: &FilePath)
        ensures
            final(self)@ == old(self)@.removed(path@),
    {
        let ghost was = self@;
        let ghost all = self.files@;
        let ghost before = self.changes@;
        let mut kept: Vec<(FilePath, Option<RgbPaymentInfo>)> = Vec::new();
        let mut i: usize = 0;
        while i < self.files.len()
            invariant
                i <= self.files.len(),
                self.files@ == all,
                self.changes@ == before,
                forall|p: PathView| #[trigger]
                    find_file(kept@, p) == if p == path@ {
                        None
                    } else {
                        find_file(all.take(i as int), p)
                    },
            decreases self.files.len() - i,
        {
            let ghost so_far = kept@;
            if !self.files[i].0.same(path) {
                kept.push((self.files[i].0.copy(), self.files[i].1));
                assert(kept@.drop_last() =~= so_far);
            }
            assert(all.take(i + 1).drop_last() =~= all.take(i as int));
            assert(all.take(i + 1).last() == all[i as int]);
            assert forall|p: PathView| #[trigger] find_file(kept@, p) == if p == path@ {
                None
            } else {
                find_file(all.take(i + 1), p)
            } by {
                assert(find_file(so_far, p) == if p == path@ {
                    None
                } else {
                    find_file(all.take(i as int), p)
                });
            }
            i += 1;
        }
        assert(all.take(i as int) =~= all);
        self.files = kept;
        self.changes.push(FileOp::Remove(path.copy()));
        assert(changes_view(self.changes@) =~= changes_view(before).push(
            FileOpView::Remove(path@),
        ));
        assert(self@.files =~= was.files.remove(path@));
        assert(self@ =~= was.removed(path@));
    }
}

/// A payment in flight, as a commitment transaction holds it.
#[derive(Debug, Clone, Copy)]
pub struct Htlc {
    /// Whether the owner of the commitment offers the payment.
    pub offered: bool,
    pub payment_hash: PaymentHash,
    /// The output of the commitment that holds the payment.
    pub transaction_output_index: Option<u32>,
    /// The contract of the asset that is paid, and how much.
    pub rgb_payment: Option<(ContractId, u64)>,
}

impl Htlc {
    /// How much of an asset is paid, where something is.
    pub open spec fn asset_amount(self) -> Option<u64> {
        match self.rgb_payment {
            Some((_, amount)) => if amount == 0 {
                None
            } else {
                Some(amount)
            },
            None => None,
        }
    }

    /// How much of an asset is paid, where something is.
    pub fn rgb_amount(&self) -> (r: Option<u64>)
        ensures
            r == self.asset_amount(),
    {
        match self.rgb_payment {
            Some((_, amount)) => if amount == 0 {
                None
            } else {
                Some(amount)
            },
            None => None,
        }
    }
}

/// What is noted of a payment for the channel that carries it.
///
/// A pending note becomes the channel's own, with the channel's sides as they are. Where the
/// channel has no note, one is made, for the channel and for the payment. None, where a note
/// cannot be read.
pub open spec fn noted(
    store: StoreView,
    own: PathView,
    general: PathView,
    channel: RgbInfo,
    amount: u64,
    inbound: bool,
) -> Option<(RgbPaymentInfo, StoreView)> {
    let pending = pending_path(general);
    let taken = if store.has(pending) {
        match store.files[pending] {
            None => None,
            Some(info) => Some(
                store.written(
                    own,
                    RgbPaymentInfo {
                        local_rgb_amount: channel.local_rgb_amount,
                        remote_rgb_amount: channel.remote_rgb_amount,
                        ..info
                    },
                ).removed(pending),
            ),
        }
    } else {
        Some(store)
    };
    match taken {
        None => None,
        Some(store) => if store.has(own) {
            match store.files[own] {
                None => None,
                Some(info) => Some((info, store)),
            }
        } else {
            let info = RgbPaymentInfo {
                contract_id: channel.contract_id,
                amount,
                local_rgb_amount: channel.local_rgb_amount,
                remote_rgb_amount: channel.remote_rgb_amount,
                swap_payment: true,
                inbound,
            };
            Some((info, store.written(own, info).written(general, info)))
        },
    }
}

/// Takes a note of a payment for the channel that carries it.
pub fn note_payment(
    store: &mut PaymentStore,
    own: &FilePath,
    general: &FilePath,
    channel: &RgbInfo,
    amount: u64,
    inbound: bool,
) -> (r: Option<RgbPaymentInfo>)
    requires
        general@.extension() matches Some(extension) && !extension.contains('/'),
    ensures
        match r {
            Some(info) => noted(old(store)@, own@, general@, *channel, amount, inbound) == Some(
                (info, final(store)@),
            ),
            None => noted(old(store)@, own@, general@, *channel, amount, inbound) is None,
        },
{
    let pending: FilePath = _append_pending_extension(general);
    match store.read(&pending) {
        Some(None) => {
            return None;
        },
        Some(Some(info)) => {
            let mut own_info: RgbPaymentInfo = info;
            own_info.local_rgb_amount = channel.local_rgb_amount;
            own_info.remote_rgb_amount = channel.remote_rgb_amount;
            store.write(own, own_info);
            store.remove(&pending);
        },
        None => {},
    }
    match store.read(own) {
        Some(info) => info,
        None => {
            let info: RgbPaymentInfo = RgbPaymentInfo {
                contract_id: channel.contract_id,
                amount,
                local_rgb_amount: channel.local_rgb_amount,
                remote_rgb_amount: channel.remote_rgb_amount,
                swap_payment: true,
                inbound,
            };
            store.write(own, info);
            store.write(general, info);
            Some(info)
        },
    }
}

/// What the payments in flight come to.
#[verifier::ext_equal]
pub struct HtlcTotals {
    /// What leaves the local side.
    pub offered: nat,
    /// What leaves the remote side.
    pub received: nat,
    /// What is noted of the last payment.
    pub last: Option<RgbPaymentInfo>,
    /// How much goes to which output.
    pub outputs: Map<u32, u64>,
    pub store: StoreView,
}

/// Where a payment is noted for a channel: under both identifiers.
pub open spec fn own_path(
    dir: PathView,
    channel_id: Seq<u8>,
    hash: Seq<u8>,
    inbound: bool,
) -> PathView {
    payment_path(dir, lower_hex(channel_id) + lower_hex(hash), inbound)
}

/// Where a payment is noted.
pub struct NotePaths {
    /// For the channel that carries it.
    pub own: FilePath,
    /// For any channel.
    pub general: FilePath,
    /// Before a channel carries it.
    pub pending: FilePath,
}

/// Where a payment is noted.
pub fn note_paths(
    ldk_data_dir: &FilePath,
    channel_id: &ChannelId,
    payment_hash: &PaymentHash,
    inbound: bool,
) -> (r: NotePaths)
    ensures
        r.own@ == own_path(ldk_data_dir@, channel_id.0@, payment_hash.0@, inbound),
        r.general@ == payment_path(ldk_data_dir@, lower_hex(payment_hash.0@), inbound),
        r.pending@ == pending_path(r.general@),
{
    let hash: String = hex_text(payment_hash.0.as_slice());
    let both: String = join_two(channel_id.text().as_str(), hash.as_str());
    proof {
        lemma_hex_name(payment_hash.0@);
        lemma_pending(ldk_data_dir@, hash@, inbound);
    }
    let general: FilePath = path_of_payment(ldk_data_dir, hash.as_str(), inbound);
    let pending: FilePath = _append_pending_extension(&general);
    NotePaths { own: path_of_payment(ldk_data_dir, both.as_str(), inbound), general, pending }
}

/// What the payments come to with one more. None, where it has no output, its note cannot be
/// read, or the sum is more than can be held.
pub open spec fn with_htlc(
    totals: HtlcTotals,
    dir: PathView,
    channel_id: Seq<u8>,
    channel: RgbInfo,
    counterparty: bool,
    htlc: Htlc,
) -> Option<HtlcTotals> {
    match htlc.asset_amount() {
        None => Some(totals),
        Some(amount) => match htlc.transaction_output_index {
            None => None,
            Some(vout) => {
                let inbound = htlc.offered == counterparty;
                let hash = htlc.payment_hash.0@;
                match noted(
                    totals.store,
                    own_path(dir, channel_id, hash, inbound),
                    payment_path(dir, lower_hex(hash), inbound),
                    channel,
                    amount,
                    inbound,
                ) {
                    None => None,
                    Some((info, store)) => {
                        let offered = if inbound {
                            totals.offered
                        } else {
                            totals.offered + info.amount as nat
                        };
                        let received = if inbound {
                            totals.received + info.amount as nat
                        } else {
                            totals.received
                        };
                        if offered > u64::MAX || received > u64::MAX {
                            None
                        } else {
                            Some(
                                HtlcTotals {
                                    offered,
                                    received,
                                    last: Some(info),
                                    outputs: totals.outputs.insert(vout, info.amount),
                                    store,
                                },
                            )
                        }
                    },
                }
            },
        },
    }
}

/// What the first `n` payments in flight come to.
pub open spec fn totals_of(
    store: StoreView,
    dir: PathView,
    channel_id: Seq<u8>,
    channel: RgbInfo,
    counterparty: bool,
    htlcs: Seq<Htlc>,
    n: nat,
) -> Option<HtlcTotals>
    decreases n,
{
    if n == 0 {
        Some(
            HtlcTotals { offered: 0, received: 0, last: None, outputs: Map::empty(), store },
        )
    } else {
        match totals_of(store, dir, channel_id, channel, counterparty, htlcs, (n - 1) as nat) {
            None => None,
            Some(totals) => with_htlc(
                totals,
                dir,
                channel_id,
                channel,
                counterparty,
                htlcs[n - 1],
            ),
        }
    }
}

/// What the payments in flight come to.
pub struct HtlcSums {
    pub offered: u64,
    pub received: u64,
    pub last: Option<RgbPaymentInfo>,
    pub outputs: HashMap<u32, u64>,
}

impl HtlcSums {
    /// What the payments in flight come to, with the files of payments.
    pub open spec fn with_store(self, store: StoreView) -> HtlcTotals {
        HtlcTotals {
            offered: self.offered as nat,
            received: self.received as nat,
            last: self.last,
            outputs: self.outputs@,
            store,
        }
    }
}

/// Adds one payment to what the payments come to.
fn add_htlc(
    sums: &mut HtlcSums,
    store: &mut PaymentStore,
    ldk_data_dir: &FilePath,
    channel_id: &ChannelId,
    channel: &RgbInfo,
    counterparty: bool,
    htlc: &Htlc,
) -> (r: bool)
    ensures
        ({
            let after = with_htlc(
                old(sums).with_store(old(store)@),
                ldk_data_dir@,
                channel_id.0@,
                *channel,
                counterparty,
                *htlc,
            );
            &&& r == (after is Some)
            &&& r ==> final(sums).with_store(final(store)@) == after->0
        }),
{
    broadcast use vstd::std_specs::hash::group_hash_axioms;

    let amount: u64 = match htlc.rgb_amount() {
        Some(amount) => amount,
        None => {
            return true;
        },
    };
    let vout: u32 = match htlc.transaction_output_index {
        Some(vout) => vout,
        None => {
            return false;
        },
    };
    let inbound: bool = htlc.offered == counterparty;
    let notes: NotePaths = note_paths(ldk_data_dir, channel_id, &htlc.payment_hash, inbound);
    proof {
        lemma_hex_name(htlc.payment_hash.0@);
        lemma_pending(ldk_data_dir@, lower_hex(htlc.payment_hash.0@), inbound);
    }
    let info: RgbPaymentInfo = match note_payment(
        store,
        &notes.own,
        &notes.general,
        channel,
        amount,
        inbound,
    ) {
        Some(info) => info,
        None => {
            return false;
        },
    };
    if inbound {
        match sums.received.checked_add(info.amount) {
            Some(received) => {
                sums.received = received;
            },
            None => {
                return false;
            },
        }
    } else {
        match sums.offered.checked_add(info.amount) {
            Some(offered) => {
                sums.offered = offered;
            },
            None => {
                return false;
            },
        }
    }
    sums.outputs.insert(vout, info.amount);
    sums.last = Some(info);
    true
}

/// What the payments in flight come to, and what becomes of their files. None, where a payment
/// has no output, a note cannot be read, or the sum is more than can be held.
pub fn sum_htlcs(
    store: &mut PaymentStore,
    ldk_data_dir: &FilePath,
    channel_id: &ChannelId,
    channel: &RgbInfo,
    counterparty: bool,
    htlcs: &Vec<Htlc>,
) -> (r: Option<HtlcSums>)
    ensures
        ({
            let totals = totals_of(
                old(store)@,
                ldk_data_dir@,
                channel_id.0@,
                *channel,
                counterparty,
                htlcs@,
                htlcs@.len(),
            );
            match r {
                Some(sums) => totals == Some(sums.with_store(final(store)@)),
                None => totals is None,
            }
        }),
{
    broadcast use vstd::std_specs::hash::group_hash_axioms;

    let ghost before = store@;
    let mut sums: HtlcSums = HtlcSums {
        offered: 0,
        received: 0,
        last: None,
        outputs: HashMap::new(),
    };
    assert(sums.outputs@ =~= Map::empty());
    let mut i: usize = 0;
    while i < htlcs.len()
        invariant
            i <= htlcs.len(),
            before == old(store)@,
            totals_of(
                before,
                ldk_data_dir@,
                channel_id.0@,
                *channel,
                counterparty,
                htlcs@,
                i as nat,
            ) == Some(sums.with_store(store@)),
        decreases htlcs.len() - i,
    {
        if !add_htlc(
            &mut sums,
            store,
            ldk_data_dir,
            channel_id,
            channel,
            counterparty,
            &htlcs[i],
        ) {
            proof {
                lemma_stays_none(
                    before,
                    ldk_data_dir@,
                    channel_id.0@,
                    *channel,
                    counterparty,
                    htlcs@,
                    (i + 1) as nat,
                    htlcs@.len(),
                );
            }
            return None;
        }
        i += 1;
    }
    Some(sums)
}

/// Where some payments come to nothing that can be held, so do more.
proof fn lemma_stays_none(
    store: StoreView,
    dir: PathView,
    channel_id: Seq<u8>,
    channel: RgbInfo,
    counterparty: bool,
    htlcs: Seq<Htlc>,
    n: nat,
    m: nat,
)
    requires
        n <= m,
        totals_of(store, dir, channel_id, channel, counterparty, htlcs, n) is None,
    ensures
        totals_of(store, dir, channel_id, channel, counterparty, htlcs, m) is None,
    decreases m,
{
    if n < m {
        lemma_stays_none(
            store,
            dir,
            channel_id,
            channel,
            counterparty,
            htlcs,
            n,
            (m - 1) as nat,
        );
    }
}

/// The files of a payment differ: the channel's own note, the general one and the pending one.
proof fn lemma_paths_differ(dir: PathView, channel_id: Seq<u8>, hash: Seq<u8>, inbound: bool)
    requires
        channel_id.len() == 32,
        hash.len() == 32,
    ensures
        ({
            let own = own_path(dir, channel_id, hash, inbound);
            let general = payment_path(dir, lower_hex(hash), inbound);
            &&& own != pending_path(general)
            &&& general != pending_path(general)
            &&& own != general
        }),
{
    let both = lower_hex(channel_id) + lower_hex(hash);
    lemma_hex_name(channel_id);
    lemma_hex_name(hash);
    assert(is_plain_name(both));
    lemma_directions();
    lemma_pending(dir, lower_hex(hash), inbound);
    lemma_named_file(dir, both, direction(inbound));
    lemma_named_file(dir, lower_hex(hash), direction(inbound));
    lemma_named_file(dir, lower_hex(hash), direction(inbound) + "_pending"@);
    assert(both.len() != lower_hex(hash).len());
    reveal_strlit("_pending");
    assert(direction(inbound).len() != (direction(inbound) + "_pending"@).len());
}

/// A pending note becomes the note of the channel that carries the payment: with the amount
/// that was pending and the sides of the channel, and the pending note is gone.
pub proof fn law_pending_taken(
    store: StoreView,
    dir: PathView,
    channel_id: Seq<u8>,
    hash: Seq<u8>,
    channel: RgbInfo,
    amount: u64,
    inbound: bool,
    pending: RgbPaymentInfo,
)
    requires
        channel_id.len() == 32,
        hash.len() == 32,
        ({
            let path = pending_path(payment_path(dir, lower_hex(hash), inbound));
            store.has(path) && store.files[path] == Some(pending)
        }),
    ensures
        ({
            let own = own_path(dir, channel_id, hash, inbound);
            let general = payment_path(dir, lower_hex(hash), inbound);
            &&& noted(store, own, general, channel, amount, inbound) matches Some((info, after))
            &&& info == (RgbPaymentInfo {
                local_rgb_amount: channel.local_rgb_amount,
                remote_rgb_amount: channel.remote_rgb_amount,
                ..pending
            })
            &&& !after.has(pending_path(general))
            &&& after.has(own) && after.files[own] == Some(info)
        }),
{
    lemma_paths_differ(dir, channel_id, hash, inbound);
}

/// Once a payment is noted for a channel, the note stays: whatever becomes of the channel's
/// sides, noting the payment again gives the same note and changes no file.
pub proof fn law_noted_again(
    store: StoreView,
    dir: PathView,
    channel_id: Seq<u8>,
    hash: Seq<u8>,
    channel: RgbInfo,
    later: RgbInfo,
    amount: u64,
    later_amount: u64,
    inbound: bool,
)
    requires
        channel_id.len() == 32,
        hash.len() == 32,
    ensures
        ({
            let own = own_path(dir, channel_id, hash, inbound);
            let general = payment_path(dir, lower_hex(hash), inbound);
            noted(store, own, general, channel, amount, inbound) matches Some((info, after))
                ==> noted(after, own, general, later, later_amount, inbound) == Some((info, after))
        }),
{
    lemma_paths_differ(dir, channel_id, hash, inbound);
}

/// What is in flight is what the payments are noted with: adding one payment adds its amount to
/// one side, and to its output.
pub proof fn law_htlc_added(
    totals: HtlcTotals,
    dir: PathView,
    channel_id: Seq<u8>,
    channel: RgbInfo,
    counterparty: bool,
    htlc: Htlc,
)
    ensures
        with_htlc(totals, dir, channel_id, channel, counterparty, htlc) matches Some(after) ==> {
            &&& htlc.asset_amount() is None ==> after == totals
            &&& htlc.asset_amount() is Some ==> {
                &&& after.last matches Some(info)
                &&& htlc.transaction_output_index matches Some(vout)
                &&& after.offered + after.received == totals.offered + totals.received
                    + info.amount
                &&& after.outputs == totals.outputs.insert(vout, info.amount)
                &&& htlc.offered == counterparty ==> after.offered == totals.offered
                &&& htlc.offered != counterparty ==> after.received == totals.received
            }
        },
{
}

/// Whether the channel's own notes agree with its sides.
pub open spec fn notes_agree(
    store: StoreView,
    dir: PathView,
    channel_id: Seq<u8>,
    channel: RgbInfo,
) -> bool {
    forall|hash: Seq<u8>, inbound: bool| #![trigger own_path(dir, channel_id, hash, inbound)]
        {
            let path = own_path(dir, channel_id, hash, inbound);
            hash.len() == 32 && store.has(path) && store.files[path] is Some ==> has_sides(
                store.files[path]->0,
                channel,
            )
        }
}

/// Whether a note has the sides of a channel.
pub open spec fn has_sides(info: RgbPaymentInfo, channel: RgbInfo) -> bool {
    info.local_rgb_amount == channel.local_rgb_amount && info.remote_rgb_amount
        == channel.remote_rgb_amount
}

/// A channel's own note of a payment stands in no general or pending file of another.
proof fn lemma_own_paths(
    dir: PathView,
    channel_id: Seq<u8>,
    hash: Seq<u8>,
    inbound: bool,
    other: Seq<u8>,
    other_inbound: bool,
)
    requires
        channel_id.len() == 32,
        hash.len() == 32,
        other.len() == 32,
    ensures
        ({
            let own = own_path(dir, channel_id, hash, inbound);
            let general = payment_path(dir, lower_hex(other), other_inbound);
            own != general && own != pending_path(general)
        }),
{
    let both = lower_hex(channel_id) + lower_hex(hash);
    lemma_hex_name(channel_id);
    lemma_hex_name(hash);
    lemma_hex_name(other);
    assert(is_plain_name(both));
    lemma_directions();
    lemma_pending(dir, lower_hex(other), other_inbound);
    lemma_named_file(dir, both, direction(inbound));
    lemma_named_file(dir, lower_hex(other), direction(other_inbound));
    lemma_named_file(dir, lower_hex(other), direction(other_inbound) + "_pending"@);
    assert(both.len() != lower_hex(other).len());
}

/// Taking a note keeps the notes in agreement, and gives one that agrees.
proof fn lemma_noted_agrees(
    store: StoreView,
    dir: PathView,
    channel_id: Seq<u8>,
    hash: Seq<u8>,
    channel: RgbInfo,
    amount: u64,
    inbound: bool,
)
    requires
        channel_id.len() == 32,
        hash.len() == 32,
        notes_agree(store, dir, channel_id, channel),
    ensures
        noted(
            store,
            own_path(dir, channel_id, hash, inbound),
            payment_path(dir, lower_hex(hash), inbound),
            channel,
            amount,
            inbound,
        ) matches Some((info, after)) ==> has_sides(info, channel) && notes_agree(
            after,
            dir,
            channel_id,
            channel,
        ),
{
    let own = own_path(dir, channel_id, hash, inbound);
    let general = payment_path(dir, lower_hex(hash), inbound);
    lemma_own_paths(dir, channel_id, hash, inbound, hash, inbound);
    if let Some((info, after)) = noted(store, own, general, channel, amount, inbound) {
        assert forall|h: Seq<u8>, i: bool| #![trigger own_path(dir, channel_id, h, i)]
            {
                let path = own_path(dir, channel_id, h, i);
                h.len() == 32 && after.has(path) && after.files[path] is Some ==> has_sides(
                    after.files[path]->0,
                    channel,
                )
            } by {
            if h.len() == 32 {
                lemma_own_paths(dir, channel_id, h, i, hash, inbound);
            }
        }
    }
}

/// While a channel's own notes agree with its sides, so does the last payment in flight: what
/// the payments come to is taken from the sides that the channel has. Without a payment, nothing
/// is in flight.
pub proof fn law_notes_agree(
    store: StoreView,
    dir: PathView,
    channel_id: Seq<u8>,
    channel: RgbInfo,
    counterparty: bool,
    htlcs: Seq<Htlc>,
    n: nat,
)
    requires
        channel_id.len() == 32,
        n <= htlcs.len(),
        notes_agree(store, dir, channel_id, channel),
    ensures
        totals_of(store, dir, channel_id, channel, counterparty, htlcs, n) matches Some(totals) ==> {
            &&& notes_agree(totals.store, dir, channel_id, channel)
            &&& totals.last matches Some(last) ==> has_sides(last, channel)
            &&& totals.last is None ==> totals.offered == 0 && totals.received == 0
        },
    decreases n,
{
    if n > 0 {
        law_notes_agree(
            store,
            dir,
            channel_id,
            channel,
            counterparty,
            htlcs,
            (n - 1) as nat,
        );
        if let Some(totals) = totals_of(
            store,
            dir,
            channel_id,
            channel,
            counterparty,
            htlcs,
            (n - 1) as nat,
        ) {
            let htlc = htlcs[n - 1];
            if let Some(amount) = htlc.asset_amount() {
                lemma_noted_agrees(
                    totals.store,
                    dir,
                    channel_id,
                    htlc.payment_hash.0@,
                    channel,
                    amount,
                    htlc.offered == counterparty,
                );
            }
        }
    }
}

/// A payment pays an asset if and only if it names one and more than nothing of it is paid.
pub proof fn law_asset_amount(htlc: Htlc)
    ensures
        htlc.asset_amount() is Some <==> htlc.rgb_payment is Some && (htlc.rgb_payment->0).1 > 0,
        htlc.asset_amount() matches Some(amount) ==> amount == (htlc.rgb_payment->0).1,
{
}

/// What a write leaves in the files: the file that was written says what was written, a file
/// that was removed is gone, every other file is as before, and the change is still to be made on
/// disk, behind those before it.
pub proof fn law_files_changed(
    store: StoreView,
    path: PathView,
    info: RgbPaymentInfo,
    other: PathView,
)
    ensures
        store.written(path, info).has(path),
        store.written(path, info).files[path] == Some(info),
        !store.removed(path).has(path),
        other != path ==> {
            &&& store.written(path, info).has(other) <==> store.has(other)
            &&& store.removed(path).has(other) <==> store.has(other)
            &&& store.has(other) ==> store.written(path, info).files[other] == store.files[other]
            &&& store.has(other) ==> store.removed(path).files[other] == store.files[other]
        },
        store.written(path, info).changes == store.changes + seq![FileOpView::Write(path, info)],
        store.removed(path).changes == store.changes + seq![FileOpView::Remove(path)],
        store.has(path) <==> store.files.dom().contains(path),
{
}

/// A payment that nothing is noted of is noted for the channel and for the payment with one and
/// the same note: the channel's contract and sides as they are, the amount that is paid and the
/// direction. No other file changes.
pub proof fn law_first_note(
    store: StoreView,
    dir: PathView,
    channel_id: Seq<u8>,
    hash: Seq<u8>,
    channel: RgbInfo,
    amount: u64,
    inbound: bool,
    other: PathView,
)
    requires
        channel_id.len() == 32,
        hash.len() == 32,
        !store.has(pending_path(payment_path(dir, lower_hex(hash), inbound))),
        !store.has(own_path(dir, channel_id, hash, inbound)),
    ensures
        ({
            let own = own_path(dir, channel_id, hash, inbound);
            let general = payment_path(dir, lower_hex(hash), inbound);
            &&& noted(store, own, general, channel, amount, inbound) matches Some((info, after))
            &&& info.contract_id == channel.contract_id
            &&& info.amount == amount
            &&& info.local_rgb_amount == channel.local_rgb_amount
            &&& info.remote_rgb_amount == channel.remote_rgb_amount
            &&& info.swap_payment
            &&& info.inbound == inbound
            &&& after.has(own) && after.files[own] == Some(info)
            &&& after.has(general) && after.files[general] == Some(info)
            &&& other != own && other != general ==> (after.has(other) <==> store.has(other))
            &&& other != own && other != general && store.has(other) ==> after.files[other]
                == store.files[other]
            &&& after.changes == store.changes + seq![
                FileOpView::Write(own, info),
                FileOpView::Write(general, info),
            ]
        }),
{
    lemma_paths_differ(dir, channel_id, hash, inbound);
}

/// A payment that the channel has a note of, and that is not pending, keeps that note: it is
/// given as it is, whatever the channel and the amount are now, and no file changes.
pub proof fn law_note_kept(
    store: StoreView,
    dir: PathView,
    channel_id: Seq<u8>,
    hash: Seq<u8>,
    channel: RgbInfo,
    amount: u64,
    inbound: bool,
    known: RgbPaymentInfo,
)
    requires
        !store.has(pending_path(payment_path(dir, lower_hex(hash), inbound))),
        store.has(own_path(dir, channel_id, hash, inbound)),
        store.files[own_path(dir, channel_id, hash, inbound)] == Some(known),
    ensures
        noted(
            store,
            own_path(dir, channel_id, hash, inbound),
            payment_path(dir, lower_hex(hash), inbound),
            channel,
            amount,
            inbound,
        ) == Some((known, store)),
{
}

/// What becomes of the files when a pending note is taken: the channel's own note is written,
/// then the pending one is removed, and every other file stays, the general one too.
pub proof fn law_pending_moved(
    store: StoreView,
    dir: PathView,
    channel_id: Seq<u8>,
    hash: Seq<u8>,
    channel: RgbInfo,
    amount: u64,
    inbound: bool,
    pending: RgbPaymentInfo,
    other: PathView,
)
    requires
        channel_id.len() == 32,
        hash.len() == 32,
        store.has(pending_path(payment_path(dir, lower_hex(hash), inbound))),
        store.files[pending_path(payment_path(dir, lower_hex(hash), inbound))] == Some(pending),
    ensures
        ({
            let own = own_path(dir, channel_id, hash, inbound);
            let general = payment_path(dir, lower_hex(hash), inbound);
            &&& noted(store, own, general, channel, amount, inbound) matches Some((info, after))
            &&& info.contract_id == pending.contract_id
            &&& info.amount == pending.amount
            &&& info.local_rgb_amount == channel.local_rgb_amount
            &&& info.remote_rgb_amount == channel.remote_rgb_amount
            &&& info.swap_payment == pending.swap_payment
            &&& info.inbound == pending.inbound
            &&& after.changes == store.changes + seq![
                FileOpView::Write(own, info),
                FileOpView::Remove(pending_path(general)),
            ]
            &&& other != own && other != pending_path(general) ==> (after.has(other) <==> store.has(
                other,
            ))
            &&& other != own && other != pending_path(general) && store.has(other)
                ==> after.files[other] == store.files[other]
        }),
{
    lemma_paths_differ(dir, channel_id, hash, inbound);
}

/// Whether every file can be read, and says of no payment that more is paid.
pub open spec fn readable(store: StoreView, most: nat) -> bool {
    forall|path: PathView|
        store.files.contains_key(path) ==> (#[trigger] store.files[path] matches Some(info)
            && info.amount <= most)
}

/// While every file can be read, every payment can be noted, and the files can still be read. A
/// payment cannot be noted if and only if its pending file cannot be read, or there is none and the
/// channel's own note cannot be read.
pub proof fn law_notes_readable(
    store: StoreView,
    dir: PathView,
    channel_id: Seq<u8>,
    hash: Seq<u8>,
    channel: RgbInfo,
    amount: u64,
    inbound: bool,
    most: nat,
)
    requires
        channel_id.len() == 32,
        hash.len() == 32,
        amount <= most,
    ensures
        ({
            let own = own_path(dir, channel_id, hash, inbound);
            let general = payment_path(dir, lower_hex(hash), inbound);
            let pending = pending_path(general);
            let answer = noted(store, own, general, channel, amount, inbound);
            &&& answer is None <==> store.has(pending) && store.files[pending] is None
                || !store.has(pending) && store.has(own) && store.files[own] is None
            &&& readable(store, most) ==> (answer matches Some((info, after)) && info.amount <= most
                && readable(after, most))
        }),
{
    lemma_paths_differ(dir, channel_id, hash, inbound);
    let own = own_path(dir, channel_id, hash, inbound);
    let general = payment_path(dir, lower_hex(hash), inbound);
    let pending = pending_path(general);
    if readable(store, most) {
        assert(store.has(pending) ==> store.files[pending] is Some);
        assert(store.has(own) ==> store.files[own] is Some);
    }
}

/// One more payment of an asset is counted with what is noted of it, on one side alone: what the
/// owner of the counterparty's commitment offers, or the holder receives in its own one, leaves the
/// remote side, and the rest the local one. Its output gets that amount. It is not counted if and
/// only if it has no output, cannot be noted, or the sum is more than can be held.
pub proof fn law_htlc_counted(
    totals: HtlcTotals,
    dir: PathView,
    channel_id: Seq<u8>,
    channel: RgbInfo,
    counterparty: bool,
    htlc: Htlc,
)
    requires
        htlc.rgb_payment is Some,
        (htlc.rgb_payment->0).1 > 0,
        totals.offered <= u64::MAX,
        totals.received <= u64::MAX,
    ensures
        ({
            let inbound = (htlc.offered && counterparty) || (!htlc.offered && !counterparty);
            let hash = htlc.payment_hash.0@;
            let answer = noted(
                totals.store,
                own_path(dir, channel_id, hash, inbound),
                payment_path(dir, lower_hex(hash), inbound),
                channel,
                (htlc.rgb_payment->0).1,
                inbound,
            );
            let after = with_htlc(totals, dir, channel_id, channel, counterparty, htlc);
            &&& answer is None ==> after is None
            &&& htlc.transaction_output_index is None ==> after is None
            &&& htlc.transaction_output_index is Some && answer is Some ==> {
                let info = (answer->0).0;
                let vout = htlc.transaction_output_index->0;
                &&& inbound ==> (after is Some <==> totals.received + info.amount <= u64::MAX)
                &&& !inbound ==> (after is Some <==> totals.offered + info.amount <= u64::MAX)
                &&& after is Some ==> {
                    &&& inbound ==> after->0.received == totals.received + info.amount
                        && after->0.offered == totals.offered
                    &&& !inbound ==> after->0.offered == totals.offered + info.amount
                        && after->0.received == totals.received
                    &&& after->0.last == Some(info)
                    &&& after->0.outputs.contains_key(vout) && after->0.outputs[vout]
                        == info.amount
                    &&& forall|other: u32|
                        other != vout ==> (#[trigger] after->0.outputs.contains_key(other)
                            <==> totals.outputs.contains_key(other)) && (
                        totals.outputs.contains_key(other) ==> after->0.outputs[other]
                            == totals.outputs[other])
                    &&& after->0.store == (answer->0).1
                }
            }
        }),
{
}

/// The payments in flight are counted one by one, in their order, each once: without any,
/// nothing is in flight and no file changes; a payment without an asset changes nothing; and once
/// one cannot be counted, none of them can.
pub proof fn law_totals_in_order(
    store: StoreView,
    dir: PathView,
    channel_id: Seq<u8>,
    channel: RgbInfo,
    counterparty: bool,
    htlcs: Seq<Htlc>,
    n: nat,
)
    requires
        n < htlcs.len(),
    ensures
        totals_of(store, dir, channel_id, channel, counterparty, htlcs, 0) matches Some(none)
            && none.offered == 0 && none.received == 0 && none.last is None && none.outputs.dom()
            == Set::<u32>::empty() && none.store == store,
        ({
            let before = totals_of(store, dir, channel_id, channel, counterparty, htlcs, n);
            let after = totals_of(store, dir, channel_id, channel, counterparty, htlcs, n + 1);
            &&& before is None ==> after is None
            &&& before matches Some(totals) ==> after == with_htlc(
                totals,
                dir,
                channel_id,
                channel,
                counterparty,
                htlcs[n as int],
            )
            &&& htlcs[n as int].rgb_payment is None ==> after == before
            &&& htlcs[n as int].rgb_payment matches Some((_, amount)) ==> amount == 0 ==> after
                == before
        }),
{
}

/// While every note can be read, every payment of an asset has its output, and all that is paid can
/// be held, the payments in flight come to something: to no more than that.
pub proof fn law_totals_exist(
    store: StoreView,
    dir: PathView,
    channel_id: Seq<u8>,
    channel: RgbInfo,
    counterparty: bool,
    htlcs: Seq<Htlc>,
    n: nat,
    most: nat,
)
    requires
        channel_id.len() == 32,
        n <= htlcs.len(),
        readable(store, most),
        forall|i: int|
            0 <= i < htlcs.len() ==> ((#[trigger] htlcs[i]).rgb_payment matches Some((_, amount))
                ==> amount <= most && htlcs[i].transaction_output_index is Some),
        n * most <= u64::MAX,
    ensures
        totals_of(store, dir, channel_id, channel, counterparty, htlcs, n) matches Some(totals)
            && totals.offered + totals.received <= n * most && readable(totals.store, most),
    decreases n,
{
    if n > 0 {
        let before = (n - 1) as nat;
        assert(before * most + most == n * most) by (nonlinear_arith)
            requires
                before == n - 1,
        ;
        law_totals_exist(
            store,
            dir,
            channel_id,
            channel,
            counterparty,
            htlcs,
            before,
            most,
        );
        let htlc = htlcs[n - 1];
        if let Some(amount) = htlc.asset_amount() {
            let totals = totals_of(
                store,
                dir,
                channel_id,
                channel,
                counterparty,
                htlcs,
                before,
            )->0;
            law_notes_readable(
                totals.store,
                dir,
                channel_id,
                htlc.payment_hash.0@,
                channel,
                amount,
                htlc.offered == counterparty,
                most,
            );
        }
    }
}

/// The channel's own note of a payment stands in the node's directory, under the channel's
/// identifier with the hash of the payment behind it, with the extension of its direction.
pub proof fn law_own_file(dir: PathView, channel_id: Seq<u8>, hash: Seq<u8>)
    requires
        channel_id.len() == 32,
        hash.len() == 32,
    ensures
        own_path(dir, channel_id, hash, true).file_name() == Some(
            lower_hex(channel_id) + lower_hex(hash) + ".inbound"@,
        ),
        own_path(dir, channel_id, hash, false).file_name() == Some(
            lower_hex(channel_id) + lower_hex(hash) + ".outbound"@,
        ),
        own_path(dir, channel_id, hash, true).parent() == Some(dir.trimmed()),
        own_path(dir, channel_id, hash, false).parent() == Some(dir.trimmed()),
{
    let both = lower_hex(channel_id) + lower_hex(hash);
    lemma_hex_name(channel_id);
    lemma_hex_name(hash);
    assert(is_plain_name(both));
    lemma_directions();
    lemma_named_file(dir, both, direction(true));
    lemma_named_file(dir, both, direction(false));
    reveal_strlit(".");
    reveal_strlit("inbound");
    reveal_strlit("outbound");
    reveal_strlit(".inbound");
    reveal_strlit(".outbound");
    assert(both + "."@ + direction(true) =~= both + ".inbound"@);
    assert(both + "."@ + direction(false) =~= both + ".outbound"@);
}

/// What is told of the files and of the sums: a write by its path and its note, a removal by its path,
/// and each sum by its own amount.
pub proof fn law_payments_told(
    path: FilePath,
    info: RgbPaymentInfo,
    sums: HtlcSums,
    store: StoreView,
)
    ensures
        FileOp::Write(path, info)@ == FileOpView::Write(path@, info),
        FileOp::Remove(path)@ == FileOpView::Remove(path@),
        sums.with_store(store).offered == sums.offered,
        sums.with_store(store).received == sums.received,
        sums.with_store(store).last == sums.last,
        sums.with_store(store).outputs == sums.outputs@,
        sums.with_store(store).store == store,
{
}

/// A file of the store says what the last entry for its path says; a path without an entry has no file.
pub proof fn law_store_told(
    store: PaymentStore,
    more: PaymentStore,
    path: FilePath,
    info: Option<RgbPaymentInfo>,
    other: PathView,
)
    requires
        more.files@ == store.files@.push((path, info)),
    ensures
        store.files@.len() == 0 ==> !store@.has(other),
        more@.has(path@) && more@.files[path@] == info,
        other != path@ ==> (more@.has(other) <==> store@.has(other)),
        other != path@ && store@.has(other) ==> more@.files[other] == store@.files[other],
{
    assert(more.files@.drop_last() =~= store.files@);
    assert(find_file(more.files@, path@) == Some(info));
    assert(find_file(more.files@, other) == if other == path@ {
        Some(info)
    } else {
        find_file(store.files@, other)
    });
}

} // verus!
