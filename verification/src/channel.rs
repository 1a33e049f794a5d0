//! What is noted on disk of channels and payments: where the files stand, and how their
//! contents change.

use vstd::prelude::*;

use crate::codec::{hex_encode, hex_text, lower_hex};
use crate::contract::{contract_text, ContractId};
use crate::error::{failure, other_with, Failure, RgbLibError};
use crate::path::{is_part, last_dot, law_file_below, lemma_last_part, stem, FilePath, PathView};
use crate::text::{join_two, same_text};
use crate::types::AssetSchema;

verus! {

/// The identifier of a channel.
#[derive(Debug, Clone, Copy)]
pub struct ChannelId(pub [u8; 32]);

impl ChannelId {
    /// The identifier in hexadecimal.
    pub fn text(&self) -> (r: String)
        ensures
            r@ == lower_hex(self.0@),
    {
        hex_text(self.0.as_slice())
    }
}

/// The hash of a payment.
#[derive(Debug, Clone, Copy)]
pub struct PaymentHash(pub [u8; 32]);

/// The RGB side of a channel.
#[derive(Debug, Clone, Copy)]
pub struct RgbInfo {
    /// The contract of the channel's asset.
    pub contract_id: ContractId,
    /// The schema of the channel's asset.
    pub schema: AssetSchema,
    /// How much is on the local side.
    pub local_rgb_amount: u64,
    /// How much is on the remote side.
    pub remote_rgb_amount: u64,
}

/// The RGB side of a payment.
#[derive(Debug, Clone, Copy)]
pub struct RgbPaymentInfo {
    /// The contract of the asset that is paid.
    pub contract_id: ContractId,
    /// How much is paid.
    pub amount: u64,
    /// How much is on the local side.
    pub local_rgb_amount: u64,
    /// How much is on the remote side.
    pub remote_rgb_amount: u64,
    /// Whether the amount in the route is to be overridden.
    pub swap_payment: bool,
    /// Whether the payment comes in.
    pub inbound: bool,
}

/// The RGB side of a transfer.
#[derive(Debug, Clone, Copy)]
pub struct TransferInfo {
    /// The contract of the asset that is transferred.
    pub contract_id: ContractId,
    /// How much is transferred.
    pub rgb_amount: u64,
}

/// Whether a text can stand as one component of a path, without an extension.
pub open spec fn is_plain_name(name: Seq<char>) -> bool {
    name.len() > 0 && forall|i: int| 0 <= i < name.len() ==> name[i] != '/' && name[i] != '.'
}

/// The last dot before something without a dot is found.
proof fn lemma_last_dot(before: Seq<char>, after: Seq<char>)
    requires
        !after.contains('.'),
    ensures
        last_dot(before + "."@ + after) == before.len(),
    decreases after.len(),
{
    reveal_strlit(".");
    let text = before + "."@ + after;
    if after.len() == 0 {
        assert(text.last() == '.');
    } else {
        assert(text.last() == after.last());
        assert(after.contains(after.last()));
        assert(text.drop_last() =~= before + "."@ + after.drop_last());
        assert forall|c: char| after.drop_last().contains(c) implies after.contains(c) by {
            let i = after.drop_last().index_of(c);
            assert(after[i] == c);
        }
        lemma_last_dot(before, after.drop_last());
    }
}

/// Without a dot, none is found.
proof fn lemma_no_dot(name: Seq<char>)
    requires
        forall|i: int| 0 <= i < name.len() ==> name[i] != '.',
    ensures
        last_dot(name) == -1,
    decreases name.len(),
{
    if name.len() > 0 {
        lemma_no_dot(name.drop_last());
    }
}

/// A plain name below a directory is its file name there, and has no extension.
pub proof fn lemma_plain_name(dir: PathView, name: Seq<char>)
    requires
        is_plain_name(name),
    ensures
        dir.join(name) == (PathView { text: dir.opened() + name }),
        dir.join(name).start() == dir.opened().len(),
        dir.join(name).file_name() == Some(name),
        dir.join(name).parent() == Some(dir.trimmed()),
        stem(name) == name,
{
    reveal_strlit(".");
    reveal_strlit("..");
    reveal_strlit("/");
    lemma_no_dot(name);
    assert("."@[0] == '.' && ".."@[0] == '.');
    assert(name[0] != '.');
    law_file_below(dir, name);
    lemma_last_part(dir.opened(), name);
}

/// The file of a plain name with an extension.
pub proof fn lemma_named_file(dir: PathView, name: Seq<char>, extension: Seq<char>)
    requires
        is_plain_name(name),
        is_plain_name(extension),
    ensures
        ({
            let path = dir.join(name).with_extension(extension);
            &&& path == (PathView { text: dir.opened() + (name + "."@ + extension) })
            &&& path.start() == dir.opened().len()
            &&& path.file_name() == Some(name + "."@ + extension)
            &&& path.extension() == Some(extension)
            &&& path.file_stem() == Some(name)
            &&& path.parent() == Some(dir.trimmed())
        }),
{
    lemma_plain_name(dir, name);
    reveal_strlit(".");
    reveal_strlit("..");
    let full = name + "."@ + extension;
    assert(!extension.contains('.'));
    lemma_last_dot(name, extension);
    reveal_strlit("/");
    assert((dir.opened() + name).subrange(0, (dir.opened() + name).len() as int) =~= dir.opened()
        + name);
    assert(dir.opened() + name + "."@ + extension =~= dir.opened() + full);
    assert(is_part(full)) by {
        assert forall|i: int| 0 <= i < full.len() implies full[i] != '/' by {
            if i < name.len() {
                assert(full[i] == name[i]);
            } else if i > name.len() {
                assert(full[i] == extension[i - name.len() - 1]);
            }
        }
        assert(full.len() > 1);
    }
    lemma_last_part(dir.opened(), full);
    law_file_below(dir, full);
    assert(full[0] == name[0]);
    assert("."@[0] == '.' && ".."@[0] == '.');
    assert(full.subrange(0, name.len() as int) =~= name);
    assert(full.subrange(name.len() as int + 1, full.len() as int) =~= extension);
}

/// Bytes in hexadecimal are a plain name.
pub proof fn lemma_hex_name(bytes: Seq<u8>)
    requires
        bytes.len() > 0,
    ensures
        is_plain_name(lower_hex(bytes)),
{
    let name = lower_hex(bytes);
    assert forall|i: int| 0 <= i < name.len() implies name[i] != '/' && name[i] != '.' by {
        let b = bytes[i / 2];
        assert(0 <= b as int / 16 < 16);
        assert(0 <= b as int % 16 < 16);
    }
}

/// The extension of a payment's file.
pub open spec fn direction(inbound: bool) -> Seq<char> {
    if inbound {
        "inbound"@
    } else {
        "outbound"@
    }
}

/// The extensions are plain names.
pub proof fn lemma_directions()
    ensures
        is_plain_name(direction(true)),
        is_plain_name(direction(false)),
        is_plain_name(direction(true) + "_pending"@),
        is_plain_name(direction(false) + "_pending"@),
        is_plain_name("pending"@),
        !direction(true).contains('/'),
        !direction(false).contains('/'),
        !"pending"@.contains('/'),
        !(direction(true) + "_pending"@).contains('/'),
        !(direction(false) + "_pending"@).contains('/'),
{
    reveal_strlit("inbound");
    reveal_strlit("outbound");
    reveal_strlit("_pending");
    reveal_strlit("pending");
}

/// The extension of a payment's file.
fn direction_text(inbound: bool) -> (r: &'static str)
    ensures
        r@ == direction(inbound),
{
    if inbound {
        "inbound"
    } else {
        "outbound"
    }
}

/// The file of a payment.
pub open spec fn payment_path(dir: PathView, name: Seq<char>, inbound: bool) -> PathView {
    dir.join(name).with_extension(direction(inbound))
}

/// The file of a payment that is pending.
pub open spec fn pending_path(path: PathView) -> PathView {
    match path.extension() {
        Some(extension) => path.with_extension(extension + "_pending"@),
        None => path,
    }
}

/// The file of a payment that goes under `name`.
pub(crate) fn path_of_payment(dir: &FilePath, name: &str, inbound: bool) -> (r: FilePath)
    ensures
        r@ == payment_path(dir@, name@, inbound),
{
    proof {
        lemma_directions();
    }
    let mut path: FilePath = dir.join(name);
    path.set_extension(direction_text(inbound));
    path
}

/// The file of a payment.
pub fn get_rgb_payment_info_path(
    payment_hash: &PaymentHash,
    ldk_data_dir: &FilePath,
    inbound: bool,
) -> (r: FilePath)
    ensures
        r@ == payment_path(ldk_data_dir@, lower_hex(payment_hash.0@), inbound),
{
    path_of_payment(ldk_data_dir, hex_text(payment_hash.0.as_slice()).as_str(), inbound)
}

/// The file of a payment that is pending: its extension is marked so.
pub fn _append_pending_extension(path: &FilePath) -> (r: FilePath)
    requires
        path@.extension() matches Some(extension) && !extension.contains('/'),
    ensures
        r@ == pending_path(path@),
{
    let mut pending: FilePath = path.copy();
    if let Some(extension) = path.extension() {
        let marked: String = join_two(extension.as_str(), "_pending");
        proof {
            reveal_strlit("_pending");
            assert(!marked@.contains('/')) by {
                if marked@.contains('/') {
                    let i = marked@.index_of('/');
                    if i < extension@.len() {
                        assert(extension@[i] == '/');
                    } else {
                        assert(marked@[i] == "_pending"@[i - extension@.len()]);
                    }
                }
            }
        }
        pending.set_extension(marked.as_str());
    }
    pending
}

/// The file of a channel, by the channel's identifier in hexadecimal.
pub open spec fn channel_path(dir: PathView, channel_id: Seq<char>, pending: bool) -> PathView {
    if pending {
        dir.join(channel_id).with_extension("pending"@)
    } else {
        dir.join(channel_id)
    }
}

/// The file of a channel, by the channel's identifier in hexadecimal.
pub fn get_rgb_channel_info_path(channel_id: &str, ldk_data_dir: &FilePath, pending: bool) -> (r:
    FilePath)
    ensures
        r@ == channel_path(ldk_data_dir@, channel_id@, pending),
{
    let mut path: FilePath = ldk_data_dir.join(channel_id);
    if pending {
        proof {
            lemma_directions();
        }
        path.set_extension("pending");
    }
    path
}

/// The final file of a channel and its pending one.
pub fn channel_info_paths(channel_id: &ChannelId, ldk_data_dir: &FilePath) -> (r: (
    FilePath,
    FilePath,
))
    ensures
        r.0@ == channel_path(ldk_data_dir@, lower_hex(channel_id.0@), false),
        r.1@ == channel_path(ldk_data_dir@, lower_hex(channel_id.0@), true),
{
    let name: String = hex_encode(channel_id.0.as_slice());
    (
        get_rgb_channel_info_path(name.as_str(), ldk_data_dir, false),
        get_rgb_channel_info_path(name.as_str(), ldk_data_dir, true),
    )
}

/// Whether two paths name files by different names in one directory.
pub open spec fn names_differ(a: PathView, b: PathView) -> bool {
    &&& a.file_name() is Some && b.file_name() is Some
    &&& a.file_name() != b.file_name()
    &&& a.parent() == b.parent()
}

/// Two channels or payments have different files, and so have the final and the pending side of
/// a channel and the two directions of a payment.
pub proof fn law_files_differ(dir: PathView, a: Seq<u8>, b: Seq<u8>)
    requires
        a.len() == 32,
        b.len() == 32,
    ensures
        a != b ==> names_differ(
            channel_path(dir, lower_hex(a), false),
            channel_path(dir, lower_hex(b), false),
        ),
        a != b ==> names_differ(
            channel_path(dir, lower_hex(a), true),
            channel_path(dir, lower_hex(b), true),
        ),
        a != b ==> names_differ(
            payment_path(dir, lower_hex(a), true),
            payment_path(dir, lower_hex(b), true),
        ),
        a != b ==> names_differ(
            payment_path(dir, lower_hex(a), false),
            payment_path(dir, lower_hex(b), false),
        ),
        names_differ(
            channel_path(dir, lower_hex(a), false),
            channel_path(dir, lower_hex(b), true),
        ),
        names_differ(
            payment_path(dir, lower_hex(a), false),
            payment_path(dir, lower_hex(b), true),
        ),
        names_differ(
            payment_path(dir, lower_hex(a), true),
            channel_path(dir, lower_hex(b), true),
        ),
        names_differ(
            payment_path(dir, lower_hex(a), false),
            channel_path(dir, lower_hex(b), true),
        ),
{
    lemma_hex_name(a);
    lemma_hex_name(b);
    lemma_directions();
    crate::codec::law_hex_round_trip(a);
    crate::codec::law_hex_round_trip(b);
    lemma_plain_name(dir, lower_hex(a));
    lemma_plain_name(dir, lower_hex(b));
    lemma_named_file(dir, lower_hex(a), direction(true));
    lemma_named_file(dir, lower_hex(a), direction(false));
    lemma_named_file(dir, lower_hex(b), direction(true));
    lemma_named_file(dir, lower_hex(b), direction(false));
    lemma_named_file(dir, lower_hex(a), "pending"@);
    lemma_named_file(dir, lower_hex(b), "pending"@);
    lemma_no_dot(lower_hex(a));
    reveal_strlit("inbound");
    reveal_strlit("outbound");
    reveal_strlit("pending");
    assert("inbound"@.len() != "outbound"@.len());
    assert("inbound"@[0] != "pending"@[0]);
    assert("outbound"@[0] != "pending"@[0]);
}

/// The pending file of a channel is known by its extension, and named after the channel.
pub proof fn law_pending_channel(dir: PathView, id: Seq<u8>)
    requires
        id.len() == 32,
    ensures
        channel_path(dir, lower_hex(id), true).extension() == Some("pending"@),
        channel_path(dir, lower_hex(id), true).file_stem() == Some(lower_hex(id)),
        channel_path(dir, lower_hex(id), false).file_name() == Some(lower_hex(id)),
{
    lemma_hex_name(id);
    lemma_directions();
    lemma_plain_name(dir, lower_hex(id));
    lemma_named_file(dir, lower_hex(id), "pending"@);
}

/// The names under which a payment's files stand: the hash with the direction, and the same
/// marked as pending.
pub proof fn law_payment_names(dir: PathView, hash: Seq<u8>, inbound: bool)
    requires
        hash.len() == 32,
    ensures
        payment_path(dir, lower_hex(hash), inbound).file_name() == Some(
            lower_hex(hash) + "."@ + direction(inbound),
        ),
        pending_path(payment_path(dir, lower_hex(hash), inbound)).file_name() == Some(
            lower_hex(hash) + "."@ + (direction(inbound) + "_pending"@),
        ),
        payment_path(dir, lower_hex(hash), inbound).extension() == Some(direction(inbound)),
{
    lemma_hex_name(hash);
    lemma_directions();
    lemma_pending(dir, lower_hex(hash), inbound);
}

/// Where a pending payment's file stands.
pub proof fn lemma_pending(dir: PathView, name: Seq<char>, inbound: bool)
    requires
        is_plain_name(name),
    ensures
        payment_path(dir, name, inbound).extension() == Some(direction(inbound)),
        !direction(inbound).contains('/'),
        payment_path(dir, name, inbound).file_name() == Some(name + "."@ + direction(inbound)),
        pending_path(payment_path(dir, name, inbound)) == dir.join(name).with_extension(
            direction(inbound) + "_pending"@,
        ),
        pending_path(payment_path(dir, name, inbound)).file_name() == Some(
            name + "."@ + (direction(inbound) + "_pending"@),
        ),
{
    lemma_directions();
    let d = direction(inbound);
    lemma_named_file(dir, name, d);
    lemma_named_file(dir, name, d + "_pending"@);
    let path = payment_path(dir, name, inbound);
    lemma_plain_name(dir, name);
    assert(stem(name + "."@ + d) == name);
    let end = (dir.opened().len() + name.len()) as int;
    assert(path.text.subrange(0, end) =~= dir.opened() + name);
    assert(dir.join(name).text.subrange(0, end) =~= dir.opened() + name);
    assert(pending_path(path) =~= dir.join(name).with_extension(d + "_pending"@));
}

/// The files of a payment that is about to be made.
pub struct PaymentFiles {
    pub path: FilePath,
    pub pending_path: FilePath,
    /// What both files are to hold.
    pub info: RgbPaymentInfo,
}

/// Whether these are the files of a payment before the channel that carries it is known: so nothing
/// is known of its sides.
pub open spec fn about_to_be_made(
    files: PaymentFiles,
    dir: PathView,
    payment_hash: Seq<u8>,
    contract_id: ContractId,
    amount: u64,
    swap_payment: bool,
    inbound: bool,
) -> bool {
    &&& files.path@ == payment_path(dir, lower_hex(payment_hash), inbound)
    &&& files.pending_path@ == pending_path(files.path@)
    &&& files.info == (RgbPaymentInfo {
        contract_id,
        amount,
        local_rgb_amount: 0,
        remote_rgb_amount: 0,
        swap_payment,
        inbound,
    })
}

/// A payment that is about to be made is noted with the contract, the amount and the direction that were
/// given and with no sides, in a file for its direction and a pending one.
pub proof fn law_payment_prepared(
    files: PaymentFiles,
    dir: PathView,
    payment_hash: Seq<u8>,
    contract_id: ContractId,
    amount: u64,
    swap_payment: bool,
    inbound: bool,
)
    requires
        payment_hash.len() == 32,
        about_to_be_made(
            files,
            dir,
            payment_hash,
            contract_id,
            amount,
            swap_payment,
            inbound,
        ),
    ensures
        files.info.contract_id == contract_id,
        files.info.amount == amount,
        files.info.local_rgb_amount == 0,
        files.info.remote_rgb_amount == 0,
        files.info.swap_payment == swap_payment,
        files.info.inbound == inbound,
        files.path@.file_name() == Some(
            lower_hex(payment_hash) + if inbound {
                ".inbound"@
            } else {
                ".outbound"@
            },
        ),
        files.pending_path@.file_name() == Some(
            lower_hex(payment_hash) + if inbound {
                ".inbound_pending"@
            } else {
                ".outbound_pending"@
            },
        ),
{
    law_payment_files(dir, payment_hash);
}

/// The files of a payment that is about to be made, before the channel that carries it is
/// known.
pub fn write_rgb_payment_info_file(
    ldk_data_dir: &FilePath,
    payment_hash: &PaymentHash,
    contract_id: ContractId,
    amount_rgb: u64,
    swap_payment: bool,
    inbound: bool,
) -> (r: PaymentFiles)
    ensures
        r.path@ == payment_path(ldk_data_dir@, lower_hex(payment_hash.0@), inbound),
        r.pending_path@ == pending_path(r.path@),
        r.info == (RgbPaymentInfo {
            contract_id,
            amount: amount_rgb,
            local_rgb_amount: 0,
            remote_rgb_amount: 0,
            swap_payment,
            inbound,
        }),
        about_to_be_made(
            r,
            ldk_data_dir@,
            payment_hash.0@,
            contract_id,
            amount_rgb,
            swap_payment,
            inbound,
        ),
{
    let path: FilePath = get_rgb_payment_info_path(payment_hash, ldk_data_dir, inbound);
    proof {
        lemma_hex_name(payment_hash.0@);
        lemma_pending(ldk_data_dir@, lower_hex(payment_hash.0@), inbound);
    }
    let pending: FilePath = _append_pending_extension(&path);
    PaymentFiles {
        path,
        pending_path: pending,
        info: RgbPaymentInfo {
            contract_id,
            amount: amount_rgb,
            local_rgb_amount: 0,
            remote_rgb_amount: 0,
            swap_payment,
            inbound,
        },
    }
}

/// Whether a path is among those of some files.
pub open spec fn is_among(files: Seq<FilePath>, path: PathView) -> bool {
    exists|i: int| 0 <= i < files.len() && (#[trigger] files[i])@ == path
}

/// Whether a path is among those of some files.
fn among(files: &Vec<FilePath>, path: &FilePath) -> (r: bool)
    ensures
        r == is_among(files@, path@),
{
    let mut i: usize = 0;
    while i < files.len()
        invariant
            i <= files.len(),
            forall|j: int| 0 <= j < i ==> (#[trigger] files@[j])@ != path@,
        decreases files.len() - i,
    {
        if files[i].same(path) {
            return true;
        }
        i += 1;
    }
    false
}

/// Whether a channel carries an asset: its final file is among those that exist.
pub open spec fn carries_asset(existing: Seq<FilePath>, dir: PathView, channel_id: Seq<u8>) -> bool {
    is_among(existing, channel_path(dir, lower_hex(channel_id), false))
}

/// Whether a payment is one of an asset: a file of either direction is among those that exist.
pub open spec fn pays_asset(existing: Seq<FilePath>, dir: PathView, payment_hash: Seq<u8>) -> bool {
    is_among(existing, payment_path(dir, lower_hex(payment_hash), false)) || is_among(
        existing,
        payment_path(dir, lower_hex(payment_hash), true),
    )
}

/// A channel carries an asset if and only if one of the files stands where its final file does; a
/// payment is one of an asset if and only if one of the files stands where its outgoing or its incoming
/// one does. Pending files do not count.
pub proof fn law_asset_files(existing: Seq<FilePath>, dir: PathView, id: Seq<u8>)
    requires
        id.len() == 32,
    ensures
        carries_asset(existing, dir, id) <==> exists|i: int|
            0 <= i < existing.len() && (#[trigger] existing[i])@.text == dir.opened() + lower_hex(id),
        pays_asset(existing, dir, id) <==> exists|i: int|
            0 <= i < existing.len() && ((#[trigger] existing[i])@.text == dir.opened() + (lower_hex(
                id,
            ) + ".outbound"@) || existing[i]@.text == dir.opened() + (lower_hex(id) + ".inbound"@)),
{
    let name = lower_hex(id);
    lemma_hex_name(id);
    lemma_directions();
    lemma_plain_name(dir, name);
    lemma_named_file(dir, name, direction(true));
    lemma_named_file(dir, name, direction(false));
    reveal_strlit(".");
    reveal_strlit("inbound");
    reveal_strlit("outbound");
    reveal_strlit(".inbound");
    reveal_strlit(".outbound");
    assert(name + "."@ + direction(true) =~= name + ".inbound"@);
    assert(name + "."@ + direction(false) =~= name + ".outbound"@);
    let channel = channel_path(dir, name, false);
    let incoming = payment_path(dir, name, true);
    let outgoing = payment_path(dir, name, false);
    assert forall|i: int| 0 <= i < existing.len() implies ((#[trigger] existing[i])@ == channel
        <==> existing[i]@.text == channel.text) by {}
    assert forall|i: int| 0 <= i < existing.len() implies ((#[trigger] existing[i])@ == incoming
        <==> existing[i]@.text == incoming.text) by {}
    assert forall|i: int| 0 <= i < existing.len() implies ((#[trigger] existing[i])@ == outgoing
        <==> existing[i]@.text == outgoing.text) by {}
}

/// Whether a channel carries an asset: its file is among those that exist.
pub fn is_channel_rgb(
    channel_id: &ChannelId,
    ldk_data_dir: &FilePath,
    existing: &Vec<FilePath>,
) -> (r: bool)
    ensures
        r == is_among(existing@, channel_path(ldk_data_dir@, lower_hex(channel_id.0@), false)),
        r == carries_asset(existing@, ldk_data_dir@, channel_id.0@),
{
    let name: String = channel_id.text();
    among(existing, &get_rgb_channel_info_path(name.as_str(), ldk_data_dir, false))
}

/// Whether a payment is one of an asset: one of its files is among those that exist.
pub fn is_payment_rgb(
    ldk_data_dir: &FilePath,
    payment_hash: &PaymentHash,
    existing: &Vec<FilePath>,
) -> (r: bool)
    ensures
        r == (is_among(
            existing@,
            payment_path(ldk_data_dir@, lower_hex(payment_hash.0@), false),
        ) || is_among(existing@, payment_path(ldk_data_dir@, lower_hex(payment_hash.0@), true))),
        r == pays_asset(existing@, ldk_data_dir@, payment_hash.0@),
{
    among(existing, &get_rgb_payment_info_path(payment_hash, ldk_data_dir, false)) || among(
        existing,
        &get_rgb_payment_info_path(payment_hash, ldk_data_dir, true),
    )
}

/// What reading the file of a channel gave.
#[derive(Debug, Clone, Copy)]
pub enum InfoFile {
    /// There is no such file.
    Missing,
    /// The file could not be read.
    Bad,
    /// What the file says.
    Info(RgbInfo),
}

/// What is known of a channel: what its final file says, where there is one, else what its
/// pending file says. A file that cannot be read says nothing.
pub open spec fn known_info(final_file: InfoFile, pending_file: InfoFile) -> Option<RgbInfo> {
    match final_file {
        InfoFile::Info(info) => Some(info),
        InfoFile::Bad => None,
        InfoFile::Missing => match pending_file {
            InfoFile::Info(info) => Some(info),
            _ => None,
        },
    }
}

/// What is known of a channel, given what reading its files gave.
pub fn read_rgb_channel_info(final_file: &InfoFile, pending_file: &InfoFile) -> (r: Option<RgbInfo>)
    ensures
        r == known_info(*final_file, *pending_file),
        *final_file matches InfoFile::Info(said) ==> r == Some(said),
        *final_file is Missing ==> (*pending_file matches InfoFile::Info(said) ==> r == Some(said)),
{
    match final_file {
        InfoFile::Info(info) => Some(*info),
        InfoFile::Bad => None,
        InfoFile::Missing => match pending_file {
            InfoFile::Info(info) => Some(*info),
            _ => None,
        },
    }
}

/// The channel after what was offered has gone and what was received has come.
pub open spec fn moved(info: RgbInfo, offered: u64, received: u64) -> Option<RgbInfo> {
    let local = info.local_rgb_amount - offered + received;
    let remote = info.remote_rgb_amount + offered - received;
    if 0 <= local <= u64::MAX && 0 <= remote <= u64::MAX {
        Some(RgbInfo { local_rgb_amount: local as u64, remote_rgb_amount: remote as u64, ..info })
    } else {
        None
    }
}

/// Moves what was offered and what was received between the sides of a channel; none, where
/// a side would have less than nothing or more than it can hold.
pub fn update_rgb_channel_amount(
    info: &RgbInfo,
    rgb_offered_htlc: u64,
    rgb_received_htlc: u64,
) -> (r: Option<RgbInfo>)
    ensures
        r == moved(*info, rgb_offered_htlc, rgb_received_htlc),
        r matches Some(after) ==> after.local_rgb_amount + rgb_offered_htlc == info.local_rgb_amount
            + rgb_received_htlc && after.remote_rgb_amount + rgb_received_htlc
            == info.remote_rgb_amount + rgb_offered_htlc,
{
    let mut updated: RgbInfo = *info;
    if rgb_offered_htlc > rgb_received_htlc {
        let spent: u64 = rgb_offered_htlc - rgb_received_htlc;
        match (info.local_rgb_amount.checked_sub(spent), info.remote_rgb_amount.checked_add(spent)) {
            (Some(local), Some(remote)) => {
                updated.local_rgb_amount = local;
                updated.remote_rgb_amount = remote;
                Some(updated)
            },
            _ => None,
        }
    } else {
        let received: u64 = rgb_received_htlc - rgb_offered_htlc;
        match (
            info.local_rgb_amount.checked_add(received),
            info.remote_rgb_amount.checked_sub(received),
        ) {
            (Some(local), Some(remote)) => {
                updated.local_rgb_amount = local;
                updated.remote_rgb_amount = remote;
                Some(updated)
            },
            _ => None,
        }
    }
}

/// A move between the sides of a channel keeps what the channel holds, its contract and its
/// schema; the opposite move undoes it; and nothing changes where as much comes as goes.
pub proof fn law_moved(info: RgbInfo, offered: u64, received: u64)
    ensures
        moved(info, offered, received) matches Some(after) ==> {
            &&& after.local_rgb_amount + after.remote_rgb_amount == info.local_rgb_amount
                + info.remote_rgb_amount
            &&& after.contract_id == info.contract_id
            &&& after.schema == info.schema
            &&& moved(after, received, offered) == Some(info)
        },
        moved(info, offered, offered) == Some(info),
{
}

/// The renames that give the files of a channel their final names: from where to where.
pub open spec fn renames(
    dir: PathView,
    temporary: Seq<char>,
    channel: Seq<char>,
    has_consignment: bool,
) -> Seq<(PathView, PathView)> {
    let files = seq![
        (channel_path(dir, temporary, false), channel_path(dir, channel, false)),
        (channel_path(dir, temporary, true), channel_path(dir, channel, true)),
    ];
    if has_consignment {
        files.push((consignment_path(dir, temporary), consignment_path(dir, channel)))
    } else {
        files
    }
}

/// The file of a channel's funding consignment.
pub open spec fn consignment_path(dir: PathView, channel_id: Seq<char>) -> PathView {
    dir.join("consignment_"@ + channel_id)
}

/// The file of a channel's funding consignment.
pub fn path_of_consignment(dir: &FilePath, channel_id: &str) -> (r: FilePath)
    ensures
        r@ == consignment_path(dir@, channel_id@),
{
    dir.join(join_two("consignment_", channel_id).as_str())
}

/// What the renames say.
pub open spec fn renames_view(files: Seq<(FilePath, FilePath)>) -> Seq<(PathView, PathView)> {
    Seq::new(files.len(), |i: int| (files[i].0@, files[i].1@))
}

/// The renames that give the files of a channel their final names. The consignment is renamed
/// where it is among the files that exist.
pub fn rename_rgb_files(
    channel_id: &ChannelId,
    temporary_channel_id: &ChannelId,
    ldk_data_dir: &FilePath,
    existing: &Vec<FilePath>,
) -> (r: Vec<(FilePath, FilePath)>)
    ensures
        renames_view(r@) == renames(
            ldk_data_dir@,
            lower_hex(temporary_channel_id.0@),
            lower_hex(channel_id.0@),
            is_among(
                existing@,
                consignment_path(ldk_data_dir@, lower_hex(temporary_channel_id.0@)),
            ),
        ),
{
    let temporary: String = temporary_channel_id.text();
    let channel: String = channel_id.text();
    let mut r: Vec<(FilePath, FilePath)> = Vec::new();
    r.push(
        (
            get_rgb_channel_info_path(temporary.as_str(), ldk_data_dir, false),
            get_rgb_channel_info_path(channel.as_str(), ldk_data_dir, false),
        ),
    );
    r.push(
        (
            get_rgb_channel_info_path(temporary.as_str(), ldk_data_dir, true),
            get_rgb_channel_info_path(channel.as_str(), ldk_data_dir, true),
        ),
    );
    let consignment: FilePath = path_of_consignment(ldk_data_dir, temporary.as_str());
    if among(existing, &consignment) {
        r.push((consignment, path_of_consignment(ldk_data_dir, channel.as_str())));
    }
    assert(renames_view(r@) =~= renames(
        ldk_data_dir@,
        temporary@,
        channel@,
        is_among(existing@, consignment_path(ldk_data_dir@, temporary@)),
    ));
    r
}

/// A channel over which a payment can leave, with what its file says, if there is one.
#[derive(Debug, Clone, Copy)]
pub struct FirstHop {
    pub channel_id: ChannelId,
    pub info: Option<RgbInfo>,
}

/// Whether a channel can carry a payment: it holds the asset, and enough of it.
pub open spec fn can_carry(hop: FirstHop, contract_id: ContractId, amount: u64) -> bool {
    match hop.info {
        Some(info) => info.contract_id.bytes@ == contract_id.bytes@ && info.local_rgb_amount
            >= amount,
        None => false,
    }
}

/// Keeps the channels that can carry a payment, and gives what is paid.
pub fn filter_first_hops(payment: &RgbPaymentInfo, first_hops: &mut Vec<FirstHop>) -> (r: (
    ContractId,
    u64,
))
    ensures
        r == (payment.contract_id, payment.amount),
        final(first_hops)@ == old(first_hops)@.filter(
            |hop: FirstHop| can_carry(hop, payment.contract_id, payment.amount),
        ),
        forall|hop: FirstHop| #[trigger]
            final(first_hops)@.contains(hop) <==> old(first_hops)@.contains(hop) && hop.info is Some
                && hop.info->0.contract_id.bytes@ == payment.contract_id.bytes@
                && hop.info->0.local_rgb_amount >= payment.amount,
{
    let ghost all = first_hops@;
    let ghost keep = |hop: FirstHop| can_carry(hop, payment.contract_id, payment.amount);
    let mut kept: Vec<FirstHop> = Vec::new();
    let mut i: usize = 0;
    assert(all.take(0).filter(keep) =~= Seq::empty()) by {
        reveal(Seq::filter);
    }
    while i < first_hops.len()
        invariant
            i <= first_hops.len(),
            first_hops@ == all,
            keep == (|hop: FirstHop| can_carry(hop, payment.contract_id, payment.amount)),
            kept@ == all.take(i as int).filter(keep),
        decreases first_hops.len() - i,
    {
        let hop: FirstHop = first_hops[i];
        let fits: bool = match hop.info {
            Some(info) => info.contract_id == payment.contract_id && info.local_rgb_amount
                >= payment.amount,
            None => false,
        };
        proof {
            reveal(Seq::filter);
            assert(all.take(i + 1).drop_last() =~= all.take(i as int));
            assert(fits == keep(hop));
        }
        if fits {
            kept.push(hop);
        }
        i += 1;
    }
    assert(all.take(i as int) =~= all);
    proof {
        law_kept_hops(*payment, all, kept@);
    }
    *first_hops = kept;
    (payment.contract_id, payment.amount)
}

/// A file of the node's directory: its path, and what it says of a channel, where it does.
#[derive(Debug, Clone)]
pub struct DirEntry {
    pub path: FilePath,
    pub info: Option<RgbInfo>,
}

/// What listing the node's directory gave: the files in the order in which they came, each or
/// the text of the error; or the text of the error.
#[derive(Debug, Clone)]
pub enum DirListing {
    Unreadable(String),
    Entries(Vec<Result<DirEntry, String>>),
}

/// Whether a file is that of a pending channel with an asset of the contract.
pub open spec fn is_pending_for(entry: DirEntry, contract_id: Seq<u8>) -> bool {
    entry.path@.extension() == Some("pending"@) && match entry.info {
        Some(info) => info.contract_id.bytes@ == contract_id,
        None => false,
    }
}

/// The channel with an asset of the contract: what its file says, and its identifier in
/// hexadecimal.
pub open spec fn find_info_from(
    entries: Seq<Result<DirEntry, String>>,
    contract_id: Seq<u8>,
    at: int,
) -> Result<(RgbInfo, Seq<char>), Failure>
    decreases entries.len() - at,
{
    if at < 0 || at >= entries.len() {
        Err(
            Failure::Other("No RgbInfo file found for contract "@ + contract_text(contract_id)),
        )
    } else {
        match entries[at] {
            Err(e) => Err(Failure::Other("Failed to read dir entry: "@ + e@)),
            Ok(entry) => if is_pending_for(entry, contract_id) {
                match entry.path@.file_stem() {
                    Some(name) => Ok((entry.info->0, name)),
                    None => Err(Failure::Other("Invalid filename"@)),
                }
            } else {
                find_info_from(entries, contract_id, at + 1)
            },
        }
    }
}

/// The channel with an asset of the contract.
pub open spec fn find_info(listing: DirListing, contract_id: Seq<u8>) -> Result<
    (RgbInfo, Seq<char>),
    Failure,
> {
    match listing {
        DirListing::Unreadable(e) => Err(
            Failure::Other("Failed to read ldk_data_dir: "@ + e@),
        ),
        DirListing::Entries(entries) => find_info_from(entries@, contract_id, 0),
    }
}

/// The channel with an asset of the contract, among the files of the node's directory.
pub fn find_rgb_info_by_contract(listing: &DirListing, contract_id: &ContractId) -> (r: Result<
    (RgbInfo, String),
    RgbLibError,
>)
    ensures
        match r {
            Ok((info, name)) => find_info(*listing, contract_id@) == Ok::<
                (RgbInfo, Seq<char>),
                Failure,
            >((info, name@)),
            Err(e) => find_info(*listing, contract_id@) == Err::<
                (RgbInfo, Seq<char>),
                Failure,
            >(failure(e)),
        },
{
    let entries: &Vec<Result<DirEntry, String>> = match listing {
        DirListing::Unreadable(e) => {
            return Err(other_with("Failed to read ldk_data_dir: ", e.as_str()));
        },
        DirListing::Entries(entries) => entries,
    };
    let mut i: usize = 0;
    while i < entries.len()
        invariant
            i <= entries.len(),
            *listing == DirListing::Entries(*entries),
            find_info_from(entries@, contract_id@, 0) == find_info_from(
                entries@,
                contract_id@,
                i as int,
            ),
        decreases entries.len() - i,
    {
        match &entries[i] {
            Err(e) => {
                return Err(other_with("Failed to read dir entry: ", e.as_str()));
            },
            Ok(entry) => {
                let pending: bool = match entry.path.extension() {
                    Some(extension) => same_text(extension.as_str(), "pending"),
                    None => false,
                };
                if pending {
                    if let Some(info) = entry.info {
                        if info.contract_id == *contract_id {
                            return match entry.path.file_stem() {
                                Some(name) => Ok((info, name)),
                                None => Err(RgbLibError::Other("Invalid filename".to_owned())),
                            };
                        }
                    }
                }
            },
        }
        i += 1;
    }
    Err(other_with("No RgbInfo file found for contract ", contract_id.text().as_str()))
}

/// What is found is what a pending file of the contract says, and that file is named after the
/// channel.
pub proof fn law_found_info(listing: DirListing, contract_id: Seq<u8>)
    ensures
        find_info(listing, contract_id) matches Ok((info, name)) ==> {
            &&& info.contract_id.bytes@ == contract_id
            &&& listing matches DirListing::Entries(entries)
            &&& exists|i: int|
                0 <= i < entries@.len() && (#[trigger] entries@[i] matches Ok(entry)
                    && is_pending_for(entry, contract_id) && entry.info == Some(info)
                    && entry.path@.file_stem() == Some(name))
        },
{
    if let DirListing::Entries(entries) = listing {
        lemma_find_info(entries@, contract_id, 0);
    }
}

/// What is found stands in one of the entries.
proof fn lemma_find_info(entries: Seq<Result<DirEntry, String>>, contract_id: Seq<u8>, at: int)
    requires
        0 <= at,
    ensures
        find_info_from(entries, contract_id, at) matches Ok((info, name)) ==> exists|i: int|
            at <= i < entries.len() && (#[trigger] entries[i] matches Ok(entry) && is_pending_for(
                entry,
                contract_id,
            ) && entry.info == Some(info) && entry.path@.file_stem() == Some(name)),
    decreases entries.len() - at,
{
    if at < entries.len() {
        if let Ok(entry) = entries[at] {
            if !is_pending_for(entry, contract_id) {
                lemma_find_info(entries, contract_id, at + 1);
            }
        }
    }
}

/// Where the final file of a channel can be read, what is known is what it says, field by
/// field, whatever the pending file says. Where there is no final file, what is known is what
/// the pending file says. So the sides add up to what the file says the channel holds. Nothing
/// is known from a final file that cannot be read, nor without a file that can.
pub proof fn law_known_info(final_file: InfoFile, pending_file: InfoFile)
    ensures
        final_file matches InfoFile::Info(said) ==> (known_info(
            final_file,
            pending_file,
        ) matches Some(info) && info.contract_id.bytes@ == said.contract_id.bytes@ && info.schema
            == said.schema && info.local_rgb_amount == said.local_rgb_amount
            && info.remote_rgb_amount == said.remote_rgb_amount && info.local_rgb_amount
            + info.remote_rgb_amount == said.local_rgb_amount + said.remote_rgb_amount),
        final_file is Missing ==> (pending_file matches InfoFile::Info(said) ==> (known_info(
            final_file,
            pending_file,
        ) matches Some(info) && info.contract_id.bytes@ == said.contract_id.bytes@ && info.schema
            == said.schema && info.local_rgb_amount == said.local_rgb_amount
            && info.remote_rgb_amount == said.remote_rgb_amount && info.local_rgb_amount
            + info.remote_rgb_amount == said.local_rgb_amount + said.remote_rgb_amount)),
        final_file is Bad ==> known_info(final_file, pending_file) is None,
        final_file is Missing && pending_file !is Info ==> known_info(
            final_file,
            pending_file,
        ) is None,
{
}

/// What is offered leaves the local side for the remote one, and what is received comes the
/// other way. The move can be made if and only if each side can hold what it then has.
pub proof fn law_moved_amounts(info: RgbInfo, offered: u64, received: u64)
    ensures
        moved(info, offered, received) is Some <==> {
            &&& offered <= info.local_rgb_amount + received
            &&& received <= info.remote_rgb_amount + offered
            &&& info.local_rgb_amount + received - offered <= 0xffff_ffff_ffff_ffff
            &&& info.remote_rgb_amount + offered - received <= 0xffff_ffff_ffff_ffff
        },
        moved(info, offered, received) matches Some(after) ==> after.local_rgb_amount + offered
            == info.local_rgb_amount + received && after.remote_rgb_amount + received
            == info.remote_rgb_amount + offered,
{
}

/// A hop is kept if and only if its channel has an info file, the contract there is the
/// payment's, and the local amount there is at least what is paid. The remote amount plays no
/// part.
pub proof fn law_kept_hops(payment: RgbPaymentInfo, before: Seq<FirstHop>, after: Seq<FirstHop>)
    requires
        after == before.filter(
            |hop: FirstHop| can_carry(hop, payment.contract_id, payment.amount),
        ),
    ensures
        forall|hop: FirstHop| #[trigger]
            after.contains(hop) <==> before.contains(hop) && hop.info is Some
                && hop.info->0.contract_id.bytes@ == payment.contract_id.bytes@
                && hop.info->0.local_rgb_amount >= payment.amount,
        forall|a: FirstHop, b: FirstHop|
            before.contains(a) && before.contains(b) && a.info is Some && b.info is Some
                && a.info->0.contract_id == b.info->0.contract_id && a.info->0.local_rgb_amount
                == b.info->0.local_rgb_amount ==> (#[trigger] after.contains(a)
                <==> #[trigger] after.contains(b)),
        after.len() <= before.len(),
{
    let keep = |hop: FirstHop| can_carry(hop, payment.contract_id, payment.amount);
    before.lemma_filter_len(keep);
    assert forall|hop: FirstHop| #[trigger] after.contains(hop) implies before.contains(hop) && keep(
        hop,
    ) by {
        lemma_filtered(before, keep, hop);
    }
    assert forall|hop: FirstHop| before.contains(hop) && keep(hop) implies after.contains(hop) by {
        lemma_filtered(before, keep, hop);
    }
}

/// What a filter keeps is what it is given and accepts.
proof fn lemma_filtered(all: Seq<FirstHop>, keep: spec_fn(FirstHop) -> bool, hop: FirstHop)
    ensures
        all.filter(keep).contains(hop) <==> all.contains(hop) && keep(hop),
    decreases all.len(),
{
    reveal(Seq::filter);
    if all.len() > 0 {
        let rest = all.drop_last();
        lemma_filtered(rest, keep, hop);
        assert(all =~= rest.push(all.last()));
        if rest.contains(hop) {
            let i = rest.index_of(hop);
            assert(all[i] == hop);
        }
        if all.contains(hop) && hop != all.last() {
            let i = all.index_of(hop);
            assert(rest[i] == hop);
        }
        let kept = rest.filter(keep);
        assert(kept.push(all.last()).contains(hop) <==> kept.contains(hop) || hop == all.last())
            by {
            if kept.contains(hop) {
                let i = kept.index_of(hop);
                assert(kept.push(all.last())[i] == hop);
            }
            assert(kept.push(all.last())[kept.len() as int] == all.last());
            if kept.push(all.last()).contains(hop) && hop != all.last() {
                let i = kept.push(all.last()).index_of(hop);
                assert(kept[i] == hop);
            }
        }
        assert(all.contains(all.last()));
    }
}

/// The hops are looked at one by one, in their order: a further hop goes behind those that are
/// kept, once, where its channel has enough of the payment's asset on the local side, and
/// changes nothing otherwise.
pub proof fn law_hop_added(payment: RgbPaymentInfo, hops: Seq<FirstHop>, hop: FirstHop)
    ensures
        ({
            let keep = |hop: FirstHop| can_carry(hop, payment.contract_id, payment.amount);
            &&& Seq::<FirstHop>::empty().filter(keep).len() == 0
            &&& hop.info is None ==> hops.push(hop).filter(keep) == hops.filter(keep)
            &&& hop.info matches Some(info) ==> hops.push(hop).filter(keep) == if
                info.contract_id.bytes@ == payment.contract_id.bytes@ && payment.amount
                <= info.local_rgb_amount {
                hops.filter(keep).push(hop)
            } else {
                hops.filter(keep)
            }
        }),
{
    reveal(Seq::filter);
    assert(hops.push(hop).drop_last() =~= hops);
}

/// The entries before some index tell nothing of the contract.
pub open spec fn nothing_before(
    entries: Seq<Result<DirEntry, String>>,
    contract_id: Seq<u8>,
    at: int,
) -> bool {
    forall|j: int|
        0 <= j < at ==> (#[trigger] entries[j] matches Ok(entry) && (entry.path@.extension()
            != Some("pending"@) || entry.info is None || entry.info->0.contract_id.bytes@
            != contract_id))
}

/// Entries that tell nothing of the contract are passed over.
proof fn lemma_passed_over(entries: Seq<Result<DirEntry, String>>, contract_id: Seq<u8>, at: int)
    requires
        0 <= at <= entries.len(),
        nothing_before(entries, contract_id, at),
    ensures
        find_info_from(entries, contract_id, 0) == find_info_from(entries, contract_id, at),
    decreases at,
{
    if at > 0 {
        lemma_passed_over(entries, contract_id, at - 1);
        assert(entries[at - 1] is Ok);
    }
}

/// The first file with the extension of pending channels that says something of the contract
/// is found, with its own name and what it says. An entry that cannot be read ends the search,
/// where nothing was found before it. Without such a file or entry, nothing is found.
pub proof fn law_first_found(
    entries: Vec<Result<DirEntry, String>>,
    contract_id: Seq<u8>,
    at: int,
)
    requires
        0 <= at <= entries@.len(),
        nothing_before(entries@, contract_id, at),
    ensures
        at < entries@.len() ==> (entries@[at] matches Err(e) ==> find_info(
            DirListing::Entries(entries),
            contract_id,
        ) == Err::<(RgbInfo, Seq<char>), Failure>(
            Failure::Other("Failed to read dir entry: "@ + e@),
        )),
        at < entries@.len() ==> (entries@[at] matches Ok(entry) ==> (entry.path@.extension()
            == Some("pending"@) ==> (entry.info matches Some(info) ==> (
        info.contract_id.bytes@ == contract_id ==> entry.path@.file_stem() is Some && find_info(
            DirListing::Entries(entries),
            contract_id,
        ) == Ok::<(RgbInfo, Seq<char>), Failure>((info, entry.path@.file_stem()->0)))))),
        at == entries@.len() ==> find_info(DirListing::Entries(entries), contract_id) == Err::<
            (RgbInfo, Seq<char>),
            Failure,
        >(Failure::Other("No RgbInfo file found for contract "@ + contract_text(contract_id))),
{
    lemma_passed_over(entries@, contract_id, at);
}

/// A path is among the files if and only if one of them has it.
pub proof fn law_among(files: Seq<FilePath>, file: FilePath, path: PathView)
    ensures
        !is_among(Seq::empty(), path),
        is_among(files.push(file), path) <==> is_among(files, path) || file@ == path,
{
    let more = files.push(file);
    if is_among(files, path) {
        let i = choose|i: int| 0 <= i < files.len() && (#[trigger] files[i])@ == path;
        assert(more[i]@ == path);
    }
    assert(more[files.len() as int] == file);
    if is_among(more, path) && file@ != path {
        let i = choose|i: int| 0 <= i < more.len() && (#[trigger] more[i])@ == path;
        assert(files[i]@ == path);
    }
}

/// A payment's file is named after its hash, with the extension of its direction: what comes
/// in and what goes out never share a file. The pending file has the extension with a mark
/// behind it. Both stand in the node's directory.
pub proof fn law_payment_files(dir: PathView, hash: Seq<u8>)
    requires
        hash.len() == 32,
    ensures
        ({
            let incoming = payment_path(dir, lower_hex(hash), true);
            let outgoing = payment_path(dir, lower_hex(hash), false);
            &&& incoming.file_name() == Some(lower_hex(hash) + ".inbound"@)
            &&& outgoing.file_name() == Some(lower_hex(hash) + ".outbound"@)
            &&& pending_path(incoming).file_name() == Some(lower_hex(hash) + ".inbound_pending"@)
            &&& pending_path(outgoing).file_name() == Some(lower_hex(hash) + ".outbound_pending"@)
            &&& incoming.parent() == Some(dir.trimmed())
            &&& outgoing.parent() == Some(dir.trimmed())
            &&& pending_path(incoming).parent() == Some(dir.trimmed())
            &&& pending_path(outgoing).parent() == Some(dir.trimmed())
        }),
{
    let name = lower_hex(hash);
    lemma_hex_name(hash);
    lemma_directions();
    lemma_pending(dir, name, true);
    lemma_pending(dir, name, false);
    lemma_named_file(dir, name, direction(true));
    lemma_named_file(dir, name, direction(false));
    lemma_named_file(dir, name, direction(true) + "_pending"@);
    lemma_named_file(dir, name, direction(false) + "_pending"@);
    reveal_strlit(".");
    reveal_strlit("inbound");
    reveal_strlit("outbound");
    reveal_strlit("_pending");
    reveal_strlit(".inbound");
    reveal_strlit(".outbound");
    reveal_strlit(".inbound_pending");
    reveal_strlit(".outbound_pending");
    assert(name + "."@ + direction(true) =~= name + ".inbound"@);
    assert(name + "."@ + direction(false) =~= name + ".outbound"@);
    assert(name + "."@ + (direction(true) + "_pending"@) =~= name + ".inbound_pending"@);
    assert(name + "."@ + (direction(false) + "_pending"@) =~= name + ".outbound_pending"@);
}

/// The final file of a channel, its pending one and its consignment lose the temporary
/// identifier for the final one: each keeps its directory, what stands before the identifier
/// and its extension. The consignment is renamed where there is one, and nothing else is.
pub proof fn law_renamed_files(
    dir: PathView,
    temporary: Seq<u8>,
    channel: Seq<u8>,
    has_consignment: bool,
)
    requires
        temporary.len() == 32,
        channel.len() == 32,
    ensures
        ({
            let r = renames(dir, lower_hex(temporary), lower_hex(channel), has_consignment);
            &&& r.len() == if has_consignment {
                3nat
            } else {
                2nat
            }
            &&& r[0].0.file_name() == Some(lower_hex(temporary))
            &&& r[0].1.file_name() == Some(lower_hex(channel))
            &&& r[1].0.file_name() == Some(lower_hex(temporary) + ".pending"@)
            &&& r[1].1.file_name() == Some(lower_hex(channel) + ".pending"@)
            &&& has_consignment ==> r[2].0.file_name() == Some(
                "consignment_"@ + lower_hex(temporary),
            )
            &&& has_consignment ==> r[2].1.file_name() == Some("consignment_"@ + lower_hex(channel))
            &&& forall|i: int|
                0 <= i < r.len() ==> (#[trigger] r[i]).0.parent() == Some(dir.trimmed())
                    && r[i].1.parent() == Some(dir.trimmed())
        }),
{
    lemma_channel_names(dir, temporary);
    lemma_channel_names(dir, channel);
}

/// How the files of a channel are named.
proof fn lemma_channel_names(dir: PathView, id: Seq<u8>)
    requires
        id.len() == 32,
    ensures
        channel_path(dir, lower_hex(id), false).file_name() == Some(lower_hex(id)),
        channel_path(dir, lower_hex(id), false).parent() == Some(dir.trimmed()),
        channel_path(dir, lower_hex(id), true).file_name() == Some(lower_hex(id) + ".pending"@),
        channel_path(dir, lower_hex(id), true).parent() == Some(dir.trimmed()),
        consignment_path(dir, lower_hex(id)).file_name() == Some("consignment_"@ + lower_hex(id)),
        consignment_path(dir, lower_hex(id)).parent() == Some(dir.trimmed()),
{
    let name = lower_hex(id);
    lemma_hex_name(id);
    lemma_directions();
    lemma_plain_name(dir, name);
    lemma_named_file(dir, name, "pending"@);
    reveal_strlit(".");
    reveal_strlit("pending");
    reveal_strlit(".pending");
    assert(name + "."@ + "pending"@ =~= name + ".pending"@);
    reveal_strlit("consignment_");
    let full = "consignment_"@ + name;
    assert forall|i: int| 0 <= i < full.len() implies full[i] != '/' && full[i] != '.' by {
        if i >= 12 {
            assert(full[i] == name[i - 12]);
        }
    }
    lemma_plain_name(dir, full);
}

/// Where the node's directory cannot be listed, nothing is found, and the reason is said.
pub proof fn law_unlisted(reason: String, contract_id: Seq<u8>)
    ensures
        find_info(DirListing::Unreadable(reason), contract_id) == Err::<
            (RgbInfo, Seq<char>),
            Failure,
        >(Failure::Other("Failed to read ldk_data_dir: "@ + reason@)),
{
}

} // verus!
