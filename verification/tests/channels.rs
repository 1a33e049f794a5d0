//! Channels and payments on disk.

use rgb_channels::channel::{
    channel_info_paths, filter_first_hops, find_rgb_info_by_contract, get_rgb_channel_info_path,
    get_rgb_payment_info_path, is_channel_rgb, is_payment_rgb, read_rgb_channel_info, rename_rgb_files,
    update_rgb_channel_amount, write_rgb_payment_info_file, ChannelId, DirEntry, DirListing, FirstHop,
    InfoFile, PaymentHash, RgbInfo, RgbPaymentInfo, _append_pending_extension,
};
use rgb_channels::contract::ContractId;
use rgb_channels::error::RgbLibError;
use rgb_channels::path::FilePath;
use rgb_channels::payments::{note_paths, note_payment, sum_htlcs, FileOp, Htlc, PaymentStore};
use rgb_channels::types::AssetSchema;

fn dir() -> FilePath {
    FilePath::from_text("/data/.ldk")
}

fn contract(n: u8) -> ContractId {
    ContractId { bytes: [n; 32] }
}

fn info(local: u64, remote: u64) -> RgbInfo {
    RgbInfo {
        contract_id: contract(1),
        schema: AssetSchema::Nia,
        local_rgb_amount: local,
        remote_rgb_amount: remote,
    }
}

fn message<T>(r: Result<T, RgbLibError>) -> String {
    match r {
        Err(RgbLibError::Other(text)) => text,
        Err(e) => panic!("{:?}", e),
        Ok(_) => panic!("no error"),
    }
}

#[test]
fn where_the_files_stand() {
    let hash = PaymentHash([0xcd; 32]);
    let name = "cd".repeat(32);
    let inbound = get_rgb_payment_info_path(&hash, &dir(), true);
    assert_eq!(inbound.text(), format!("/data/.ldk/{}.inbound", name));
    let outbound = get_rgb_payment_info_path(&hash, &dir(), false);
    assert_eq!(outbound.text(), format!("/data/.ldk/{}.outbound", name));
    assert_eq!(
        _append_pending_extension(&inbound).text(),
        format!("/data/.ldk/{}.inbound_pending", name)
    );
    assert_eq!(get_rgb_channel_info_path("ab", &dir(), false).text(), "/data/.ldk/ab");
    assert_eq!(get_rgb_channel_info_path("ab", &dir(), true).text(), "/data/.ldk/ab.pending");
    let (path, pending) = channel_info_paths(&ChannelId([0x0f; 32]), &dir());
    assert_eq!(path.text(), format!("/data/.ldk/{}", "0f".repeat(32)));
    assert_eq!(pending.text(), format!("/data/.ldk/{}.pending", "0f".repeat(32)));
    assert_eq!(pending.extension(), Some("pending".to_string()));
    assert_eq!(pending.file_stem(), Some("0f".repeat(32)));
}

#[test]
fn payments_are_noted_before_they_are_made() {
    let files = write_rgb_payment_info_file(&dir(), &PaymentHash([2; 32]), contract(5), 42, true, false);
    assert_eq!(files.path.text(), format!("/data/.ldk/{}.outbound", "02".repeat(32)));
    assert_eq!(files.pending_path.text(), format!("/data/.ldk/{}.outbound_pending", "02".repeat(32)));
    assert!(files.info.contract_id == contract(5));
    assert_eq!(files.info.amount, 42);
    assert_eq!(files.info.local_rgb_amount, 0);
    assert_eq!(files.info.remote_rgb_amount, 0);
    assert!(files.info.swap_payment);
    assert!(!files.info.inbound);
}

#[test]
fn files_tell_what_carries_an_asset() {
    let id = ChannelId([3; 32]);
    let hash = PaymentHash([4; 32]);
    let (path, pending) = channel_info_paths(&id, &dir());
    assert!(is_channel_rgb(&id, &dir(), &vec![pending.copy(), path]));
    assert!(!is_channel_rgb(&id, &dir(), &vec![pending]));
    assert!(!is_channel_rgb(&id, &dir(), &vec![]));
    let inbound = get_rgb_payment_info_path(&hash, &dir(), true);
    let outbound = get_rgb_payment_info_path(&hash, &dir(), false);
    assert!(is_payment_rgb(&dir(), &hash, &vec![inbound]));
    assert!(is_payment_rgb(&dir(), &hash, &vec![outbound.copy()]));
    assert!(!is_payment_rgb(&dir(), &PaymentHash([5; 32]), &vec![outbound]));
}

#[test]
fn the_final_file_of_a_channel_comes_first() {
    let amount = |r: Option<RgbInfo>| r.map(|i| i.local_rgb_amount);
    let one = InfoFile::Info(info(1, 0));
    let two = InfoFile::Info(info(2, 0));
    assert_eq!(amount(read_rgb_channel_info(&one, &two)), Some(1));
    assert_eq!(amount(read_rgb_channel_info(&InfoFile::Missing, &two)), Some(2));
    assert_eq!(amount(read_rgb_channel_info(&InfoFile::Bad, &two)), None);
    assert_eq!(amount(read_rgb_channel_info(&InfoFile::Missing, &InfoFile::Bad)), None);
    assert_eq!(amount(read_rgb_channel_info(&InfoFile::Missing, &InfoFile::Missing)), None);
}

#[test]
fn amounts_move_between_the_sides() {
    let after = update_rgb_channel_amount(&info(100, 50), 30, 10).unwrap();
    assert_eq!((after.local_rgb_amount, after.remote_rgb_amount), (80, 70));
    assert!(after.contract_id == contract(1));
    let back = update_rgb_channel_amount(&after, 10, 30).unwrap();
    assert_eq!((back.local_rgb_amount, back.remote_rgb_amount), (100, 50));
    let same = update_rgb_channel_amount(&info(1, 2), 7, 7).unwrap();
    assert_eq!((same.local_rgb_amount, same.remote_rgb_amount), (1, 2));
    let all = update_rgb_channel_amount(&info(0, u64::MAX), 0, u64::MAX).unwrap();
    assert_eq!((all.local_rgb_amount, all.remote_rgb_amount), (u64::MAX, 0));
}

#[test]
fn sides_cannot_be_overdrawn() {
    assert!(update_rgb_channel_amount(&info(5, 0), 6, 0).is_none());
    assert!(update_rgb_channel_amount(&info(0, 5), 0, 6).is_none());
    assert!(update_rgb_channel_amount(&info(5, u64::MAX), 1, 0).is_none());
    assert!(update_rgb_channel_amount(&info(u64::MAX, 5), 0, 1).is_none());
}

#[test]
fn channels_get_their_final_names() {
    let id = ChannelId([0x11; 32]);
    let temporary = ChannelId([0x22; 32]);
    let (to, from) = ("11".repeat(32), "22".repeat(32));
    let pairs = |existing: Vec<FilePath>| {
        rename_rgb_files(&id, &temporary, &dir(), &existing)
            .iter()
            .map(|(a, b)| (a.text(), b.text()))
            .collect::<Vec<_>>()
    };
    let both = vec![
        (format!("/data/.ldk/{}", from), format!("/data/.ldk/{}", to)),
        (format!("/data/.ldk/{}.pending", from), format!("/data/.ldk/{}.pending", to)),
    ];
    assert_eq!(pairs(vec![]), both);
    let mut all = both.clone();
    all.push((
        format!("/data/.ldk/consignment_{}", from),
        format!("/data/.ldk/consignment_{}", to),
    ));
    assert_eq!(pairs(vec![dir().join(&format!("consignment_{}", from))]), all);
    assert_eq!(pairs(vec![dir().join(&format!("consignment_{}", to))]), both);
}

#[test]
fn only_channels_that_can_carry_a_payment_are_kept() {
    let payment = RgbPaymentInfo {
        contract_id: contract(1),
        amount: 10,
        local_rgb_amount: 0,
        remote_rgb_amount: 0,
        swap_payment: false,
        inbound: false,
    };
    let mut other = info(99, 0);
    other.contract_id = contract(2);
    let hop = |n: u8, info| FirstHop { channel_id: ChannelId([n; 32]), info };
    let mut hops = vec![
        hop(1, Some(info(10, 0))),
        hop(2, Some(info(9, 100))),
        hop(3, None),
        hop(4, Some(other)),
        hop(5, Some(info(11, 0))),
    ];
    let (id, amount) = filter_first_hops(&payment, &mut hops);
    assert!(id == contract(1));
    assert_eq!(amount, 10);
    assert_eq!(hops.iter().map(|h| h.channel_id.0[0]).collect::<Vec<_>>(), vec![1, 5]);
    let mut none = vec![];
    filter_first_hops(&payment, &mut none);
    assert!(none.is_empty());
}

fn entry(name: &str, info: Option<RgbInfo>) -> Result<DirEntry, String> {
    Ok(DirEntry { path: dir().join(name), info })
}

#[test]
fn channels_are_found_by_their_contract() {
    let mut other = info(1, 1);
    other.contract_id = contract(2);
    let listing = DirListing::Entries(vec![
        entry("aa", Some(info(9, 9))),
        entry("bb.pending", None),
        entry("cc.pending", Some(other)),
        entry("dd.pending", Some(info(7, 8))),
        entry("ee.pending", Some(info(5, 5))),
    ]);
    let (found, name) = find_rgb_info_by_contract(&listing, &contract(1)).unwrap();
    assert_eq!(name, "dd");
    assert_eq!((found.local_rgb_amount, found.remote_rgb_amount), (7, 8));
    assert_eq!(find_rgb_info_by_contract(&listing, &contract(2)).unwrap().1, "cc");
    assert_eq!(
        message(find_rgb_info_by_contract(&listing, &contract(3))),
        format!("No RgbInfo file found for contract {}", contract(3).text())
    );
}

#[test]
fn why_no_channel_is_found() {
    assert_eq!(
        message(find_rgb_info_by_contract(&DirListing::Unreadable("e".to_string()), &contract(1))),
        "Failed to read ldk_data_dir: e"
    );
    let broken = DirListing::Entries(vec![
        entry("aa", None),
        Err("e".to_string()),
        entry("bb.pending", Some(info(1, 1))),
    ]);
    assert_eq!(
        message(find_rgb_info_by_contract(&broken, &contract(1))),
        "Failed to read dir entry: e"
    );
}

fn note(amount: u64, local: u64, remote: u64) -> RgbPaymentInfo {
    RgbPaymentInfo {
        contract_id: contract(1),
        amount,
        local_rgb_amount: local,
        remote_rgb_amount: remote,
        swap_payment: false,
        inbound: true,
    }
}

fn changes(store: &PaymentStore) -> Vec<String> {
    store
        .changes
        .iter()
        .map(|change| match change {
            FileOp::Write(path, info) => format!("write {} {}", path.text(), info.amount),
            FileOp::Remove(path) => format!("remove {}", path.text()),
        })
        .collect()
}

#[test]
fn files_of_payments_are_kept() {
    let (a, b) = (FilePath::from_text("a"), FilePath::from_text("b"));
    let mut store = PaymentStore::new();
    assert!(store.read(&a).is_none());
    store.load(a.copy(), None);
    assert!(matches!(store.read(&a), Some(None)));
    store.write(&a, note(1, 0, 0));
    store.write(&b, note(2, 0, 0));
    assert_eq!(store.read(&a).unwrap().unwrap().amount, 1);
    assert_eq!(store.read(&b).unwrap().unwrap().amount, 2);
    store.write(&a, note(3, 0, 0));
    assert_eq!(store.read(&a).unwrap().unwrap().amount, 3);
    store.remove(&a);
    assert!(store.read(&a).is_none());
    assert_eq!(store.read(&b).unwrap().unwrap().amount, 2);
    assert_eq!(changes(&store), vec!["write a 1", "write b 2", "write a 3", "remove a"]);
}

#[test]
fn pending_notes_become_the_notes_of_the_channel() {
    let own = FilePath::from_text("own.inbound");
    let general = FilePath::from_text("pay.inbound");
    let pending = FilePath::from_text("pay.inbound_pending");
    let mut store = PaymentStore::new();
    store.load(pending.copy(), Some(note(30, 0, 0)));
    let noted = note_payment(&mut store, &own, &general, &info(100, 50), 7, true).unwrap();
    assert_eq!((noted.amount, noted.local_rgb_amount, noted.remote_rgb_amount), (30, 100, 50));
    assert!(!noted.swap_payment);
    assert_eq!(changes(&store), vec!["write own.inbound 30", "remove pay.inbound_pending"]);
    let again = note_payment(&mut store, &own, &general, &info(1, 1), 9, true).unwrap();
    assert_eq!((again.amount, again.local_rgb_amount, again.remote_rgb_amount), (30, 100, 50));
    assert_eq!(store.changes.len(), 2);
}

#[test]
fn payments_without_a_note_get_one() {
    let own = FilePath::from_text("own.outbound");
    let general = FilePath::from_text("pay.outbound");
    let mut store = PaymentStore::new();
    let noted = note_payment(&mut store, &own, &general, &info(100, 50), 7, false).unwrap();
    assert!(noted.contract_id == contract(1));
    assert_eq!((noted.amount, noted.local_rgb_amount, noted.remote_rgb_amount), (7, 100, 50));
    assert!(noted.swap_payment && !noted.inbound);
    assert_eq!(changes(&store), vec!["write own.outbound 7", "write pay.outbound 7"]);
    let mut unreadable = PaymentStore::new();
    unreadable.load(own.copy(), None);
    assert!(note_payment(&mut unreadable, &own, &general, &info(1, 1), 7, false).is_none());
    let mut unreadable = PaymentStore::new();
    unreadable.load(FilePath::from_text("pay.outbound_pending"), None);
    assert!(note_payment(&mut unreadable, &own, &general, &info(1, 1), 7, false).is_none());
}

fn htlc(n: u8, offered: bool, vout: Option<u32>, amount: Option<u64>) -> Htlc {
    Htlc {
        offered,
        payment_hash: PaymentHash([n; 32]),
        transaction_output_index: vout,
        rgb_payment: amount.map(|a| (contract(1), a)),
    }
}

#[test]
fn payments_in_flight_are_summed() {
    let mut store = PaymentStore::new();
    let htlcs = vec![
        htlc(1, true, Some(3), Some(10)),
        htlc(2, false, Some(4), Some(20)),
        htlc(3, true, None, None),
        htlc(4, true, None, Some(0)),
        htlc(5, true, Some(5), Some(1)),
    ];
    let sums =
        sum_htlcs(&mut store, &dir(), &ChannelId([9; 32]), &info(100, 50), false, &htlcs).unwrap();
    assert_eq!((sums.offered, sums.received), (11, 20));
    assert_eq!(sums.outputs.len(), 3);
    assert_eq!(sums.outputs[&3], 10);
    assert_eq!(sums.outputs[&4], 20);
    assert_eq!(sums.outputs[&5], 1);
    let last = sums.last.unwrap();
    assert_eq!((last.amount, last.local_rgb_amount, last.remote_rgb_amount), (1, 100, 50));
    let both = format!("{}{}", "09".repeat(32), "02".repeat(32));
    assert_eq!(
        store.read(&dir().join(&format!("{}.inbound", both))).unwrap().unwrap().amount,
        20
    );
    assert_eq!(store.changes.len(), 6);
}

#[test]
fn the_counterparty_sees_payments_from_the_other_side() {
    let mut store = PaymentStore::new();
    let htlcs = vec![htlc(1, true, Some(0), Some(10))];
    let sums =
        sum_htlcs(&mut store, &dir(), &ChannelId([9; 32]), &info(100, 50), true, &htlcs).unwrap();
    assert_eq!((sums.offered, sums.received), (0, 10));
    assert!(sums.last.unwrap().inbound);
}

#[test]
fn where_payments_are_noted() {
    let notes = note_paths(&dir(), &ChannelId([0xaa; 32]), &PaymentHash([0xbb; 32]), false);
    let (channel, hash) = ("aa".repeat(32), "bb".repeat(32));
    assert_eq!(notes.own.text(), format!("/data/.ldk/{}{}.outbound", channel, hash));
    assert_eq!(notes.general.text(), format!("/data/.ldk/{}.outbound", hash));
    assert_eq!(notes.pending.text(), format!("/data/.ldk/{}.outbound_pending", hash));
}

#[test]
fn payments_that_are_pending_are_taken_by_their_channel() {
    let files = write_rgb_payment_info_file(&dir(), &PaymentHash([2; 32]), contract(1), 20, false, true);
    let mut store = PaymentStore::new();
    store.load(files.path.copy(), Some(files.info));
    store.load(files.pending_path.copy(), Some(files.info));
    let htlcs = vec![htlc(2, false, Some(4), Some(99))];
    let sums =
        sum_htlcs(&mut store, &dir(), &ChannelId([9; 32]), &info(100, 50), false, &htlcs).unwrap();
    assert_eq!((sums.offered, sums.received), (0, 20));
    assert_eq!(sums.outputs[&4], 20);
    assert!(store.read(&files.pending_path).is_none());
    let again =
        sum_htlcs(&mut store, &dir(), &ChannelId([9; 32]), &info(1, 2), false, &htlcs).unwrap();
    assert_eq!(again.received, 20);
    assert_eq!(again.last.unwrap().remote_rgb_amount, 50);
    assert_eq!(store.changes.len(), 2);
}

#[test]
fn payments_that_cannot_be_summed() {
    let sum = |htlcs: Vec<Htlc>| {
        sum_htlcs(
            &mut PaymentStore::new(),
            &dir(),
            &ChannelId([9; 32]),
            &info(100, 50),
            false,
            &htlcs,
        )
    };
    assert!(sum(vec![htlc(1, true, None, Some(1))]).is_none());
    assert!(sum(vec![htlc(1, true, Some(0), Some(u64::MAX)), htlc(2, true, Some(1), Some(1))]).is_none());
    assert!(sum(vec![htlc(1, true, Some(0), Some(u64::MAX)), htlc(2, false, Some(1), Some(1))]).is_some());
    let none = sum(vec![]).unwrap();
    assert_eq!((none.offered, none.received), (0, 0));
    assert!(none.last.is_none() && none.outputs.is_empty());
}

#[test]
fn files_of_channels_and_payments_differ() {
    let mut paths = Vec::new();
    for n in [1u8, 2] {
        let (path, pending) = channel_info_paths(&ChannelId([n; 32]), &dir());
        paths.push(path);
        paths.push(pending);
        for inbound in [true, false] {
            paths.push(get_rgb_payment_info_path(&PaymentHash([n; 32]), &dir(), inbound));
        }
    }
    for i in 0..paths.len() {
        for j in 0..i {
            assert!(!paths[i].same(&paths[j]));
        }
    }
}
