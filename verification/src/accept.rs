//! The acceptance of a transfer that funds a channel, step by step: each step takes what the
//! last action gave and says what to do next.

use vstd::prelude::*;

use crate::codec::hex_bytes;
use crate::contract::{contract_of_text, ContractId};
use crate::error::{failure, other_with, Failure, RgbLibError};
use crate::json::{content, depth_limit, json_of_text, json_pretty, Json};
use crate::path::{FilePath, PathView};
use crate::proxy::{
    channel_text, consignment_query, path_of_upload, post_acceptor_pubkey_after_accept, query,
    read_channel_reply, read_upload_reply, upload, upload_path, upload_result, wallet_key, was_sent,
    KeyUpload, ProxyReply, ProxyRequest, RequestView, UploadReply, UploadView,
};
use crate::state_file::{
    counterparty_in, fresh_state, given_hash, has_place, holds, law_fresh_state, law_registered,
    law_registered_entries, law_registering, no_parent, registering, state_file_path, state_hash_in,
    state_or, state_path, wallet_dir, wallet_directory, write_acceptor_state_file, ChannelInfo,
    FileRead, FileView, StateWrite, StateWriteView,
};
use crate::text::same_text;
use crate::transport::{transport_text, RgbTransport};
use crate::types::{AssetSchema, Assignment, RgbTransfer};

verus! {

/// How far an acceptance is. From where it is known, what the initiator says is carried along.
pub enum AcceptStage {
    /// The proxy was asked for what the initiator says.
    Asked,
    /// What the initiator says is being read.
    ReadingInfo,
    /// The directory of the wallet is being made.
    MakingDir(ChannelInfo),
    /// The state file is being read.
    ReadingState(ChannelInfo),
    /// The state file is being written.
    WritingState(ChannelInfo),
    /// The contracts are being reloaded.
    Reloading(ChannelInfo),
    /// The wallet's master key is being looked up.
    ReadingKey(ChannelInfo),
    /// The wallet's public key is being uploaded.
    Uploading(ChannelInfo),
    /// The file of the upload is being removed.
    Removing(ChannelInfo, UploadReply),
    /// Nothing is left to do.
    Done,
}

/// What an action gave.
pub enum AcceptEvent {
    /// The reply of the proxy.
    Reply(ProxyReply),
    /// What the initiator says, where its text could be read.
    Info(Option<ChannelInfo>),
    /// The directory is there, or the text of the error.
    DirMade(Option<String>),
    /// What reading the state file gave.
    State(FileRead),
    /// The state file is written, or the text of the error.
    Written(Option<String>),
    /// The contracts are reloaded, or could not be.
    Reloaded(Result<(), RgbLibError>),
    /// The wallet's master key in hexadecimal, if it is set.
    Key(Option<String>),
    /// What became of the upload.
    Uploaded(UploadReply),
    /// The file of the upload is removed.
    Removed,
}

/// What to do next.
pub enum AcceptAction {
    /// Post the request to the proxy.
    Ask(ProxyRequest),
    /// Read what the initiator says from this JSON text.
    ReadInfo(String),
    /// Make the directory, with those above it.
    MakeDir(FilePath),
    /// Read the state file.
    ReadState(FilePath),
    /// Write the text to the state file.
    WriteState(FilePath, String),
    /// Reload the contracts.
    Reload,
    /// Look up the wallet's master key.
    ReadKey,
    /// Write the file and upload it.
    Upload(KeyUpload),
    /// Remove the file.
    Remove(FilePath),
    /// The transfer is accepted, or could not be.
    Finish(Result<(RgbTransfer, Vec<Assignment>), RgbLibError>),
    /// The state file has no place for the contract, or the schema is not supported.
    Stop,
    /// The event does not belong to this stage.
    Unexpected,
}

/// What to do next.
pub enum AcceptActionView {
    Ask(RequestView),
    ReadInfo(Seq<char>),
    MakeDir(PathView),
    ReadState(PathView),
    /// Write this document.
    WriteState(PathView, Json),
    Reload,
    ReadKey,
    Upload(UploadView),
    Remove(PathView),
    Finish(Result<AcceptedView, Failure>),
    Stop,
    Unexpected,
}

/// A transfer that was accepted.
#[verifier::ext_equal]
pub struct AcceptedView {
    pub contract_id: Seq<u8>,
    pub schema: AssetSchema,
    pub assignments: Seq<Assignment>,
}

/// Whether an action is what `expected` says.
pub open spec fn acts(action: AcceptAction, expected: AcceptActionView) -> bool {
    match (action, expected) {
        (AcceptAction::Ask(request), AcceptActionView::Ask(e)) => request@ == e,
        (AcceptAction::ReadInfo(text), AcceptActionView::ReadInfo(e)) => text@ == e,
        (AcceptAction::MakeDir(dir), AcceptActionView::MakeDir(e)) => dir@ == e,
        (AcceptAction::ReadState(path), AcceptActionView::ReadState(e)) => path@ == e,
        (AcceptAction::WriteState(path, text), AcceptActionView::WriteState(e, state)) => path@ == e
            && holds(text@, state),
        (AcceptAction::Reload, AcceptActionView::Reload) => true,
        (AcceptAction::ReadKey, AcceptActionView::ReadKey) => true,
        (AcceptAction::Upload(sent), AcceptActionView::Upload(e)) => sent@ == e,
        (AcceptAction::Remove(path), AcceptActionView::Remove(e)) => path@ == e,
        (AcceptAction::Finish(Ok((transfer, assignments))), AcceptActionView::Finish(Ok(e))) => e == (
        AcceptedView {
            contract_id: transfer.contract_id@,
            schema: transfer.schema,
            assignments: assignments@,
        }),
        (AcceptAction::Finish(Err(error)), AcceptActionView::Finish(Err(e))) => failure(error) == e,
        (AcceptAction::Stop, AcceptActionView::Stop) => true,
        (AcceptAction::Unexpected, AcceptActionView::Unexpected) => true,
        _ => false,
    }
}

/// The schema that an initiator names.
pub open spec fn schema_named(name: Seq<char>) -> Option<AssetSchema> {
    if name == "Nia"@ {
        Some(AssetSchema::Nia)
    } else if name == "Uda"@ {
        Some(AssetSchema::Uda)
    } else if name == "Cfa"@ {
        Some(AssetSchema::Cfa)
    } else if name == "Ifa"@ {
        Some(AssetSchema::Ifa)
    } else {
        None
    }
}

/// The schema that an initiator names.
pub fn read_schema(name: &str) -> (r: Result<AssetSchema, RgbLibError>)
    ensures
        match r {
            Ok(schema) => schema_named(name@) == Some(schema),
            Err(e) => schema_named(name@) is None && failure(e) == Failure::Other(
                "Unknown schema: "@ + name@,
            ),
        },
{
    if same_text(name, "Nia") {
        Ok(AssetSchema::Nia)
    } else if same_text(name, "Uda") {
        Ok(AssetSchema::Uda)
    } else if same_text(name, "Cfa") {
        Ok(AssetSchema::Cfa)
    } else if same_text(name, "Ifa") {
        Ok(AssetSchema::Ifa)
    } else {
        Err(other_with("Unknown schema: ", name))
    }
}

/// What is assigned by a transfer of an asset with this schema: all of a fungible one, or the
/// one of a unique one. Inflatable assets are not supported.
pub open spec fn assignment_of(schema: AssetSchema, amount: u64) -> Option<Assignment> {
    match schema {
        AssetSchema::Nia => Some(Assignment::Fungible(amount)),
        AssetSchema::Cfa => Some(Assignment::Fungible(amount)),
        AssetSchema::Uda => Some(Assignment::NonFungible),
        AssetSchema::Ifa => None,
    }
}

/// The end of an acceptance: the transfer, given the schema and the contract that the initiator
/// names.
pub open spec fn accepted(
    schema: AssetSchema,
    amount: u64,
    contract: Result<Seq<u8>, Seq<char>>,
) -> AcceptActionView {
    match contract {
        Err(e) => AcceptActionView::Finish(Err(Failure::Other("Invalid contract_id: "@ + e))),
        Ok(id) => match assignment_of(schema, amount) {
            None => AcceptActionView::Stop,
            Some(assignment) => AcceptActionView::Finish(
                Ok(AcceptedView { contract_id: id, schema, assignments: seq![assignment] }),
            ),
        },
    }
}

/// The end of an acceptance, given what the contract's identifier is read as.
pub fn accept(schema: AssetSchema, amount: u64, contract: Result<ContractId, String>) -> (r:
    AcceptAction)
    ensures
        acts(
            r,
            accepted(
                schema,
                amount,
                match contract {
                    Ok(id) => Ok::<Seq<u8>, Seq<char>>(id@),
                    Err(e) => Err::<Seq<u8>, Seq<char>>(e@),
                },
            ),
        ),
{
    let id: ContractId = match contract {
        Ok(id) => id,
        Err(e) => {
            return AcceptAction::Finish(Err(other_with("Invalid contract_id: ", e.as_str())));
        },
    };
    let assignment: Assignment = match schema {
        AssetSchema::Nia | AssetSchema::Cfa => Assignment::Fungible(amount),
        AssetSchema::Uda => Assignment::NonFungible,
        AssetSchema::Ifa => {
            return AcceptAction::Stop;
        },
    };
    let mut assignments: Vec<Assignment> = Vec::new();
    assignments.push(assignment);
    assert(assignments@ =~= seq![assignment]);
    AcceptAction::Finish(Ok((RgbTransfer::new(id, schema), assignments)))
}

/// An acceptance under way.
pub struct Acceptance {
    /// The directory of the node.
    pub ldk_data_dir: FilePath,
    /// Where the proxy is, as text.
    pub endpoint: String,
    pub stage: AcceptStage,
}

/// The step after `event`: the next stage and what to do.
pub open spec fn accept_step(
    ldk_data_dir: PathView,
    endpoint: Seq<char>,
    stage: AcceptStage,
    event: AcceptEvent,
) -> (AcceptStage, AcceptActionView) {
    match (stage, event) {
        (AcceptStage::Asked, AcceptEvent::Reply(reply)) => match channel_text(reply@) {
            Err(e) => (AcceptStage::Done, AcceptActionView::Finish(Err(e))),
            Ok(text) => (AcceptStage::ReadingInfo, AcceptActionView::ReadInfo(text)),
        },
        (AcceptStage::ReadingInfo, AcceptEvent::Info(None)) => (
            AcceptStage::Done,
            AcceptActionView::Finish(Err(Failure::InvalidConsignment)),
        ),
        (AcceptStage::ReadingInfo, AcceptEvent::Info(Some(info))) => match schema_named(
            info.schema@,
        ) {
            None => (
                AcceptStage::Done,
                AcceptActionView::Finish(
                    Err(Failure::Other("Unknown schema: "@ + info.schema@)),
                ),
            ),
            Some(_) => match wallet_dir(ldk_data_dir) {
                None => (AcceptStage::Done, AcceptActionView::Finish(Err(no_parent()))),
                Some(dir) => (AcceptStage::MakingDir(info), AcceptActionView::MakeDir(dir)),
            },
        },
        (AcceptStage::MakingDir(info), AcceptEvent::DirMade(Some(e))) => (
            AcceptStage::Done,
            AcceptActionView::Finish(Err(Failure::Other("Cannot create directory: "@ + e@))),
        ),
        (AcceptStage::MakingDir(info), AcceptEvent::DirMade(None)) => match state_path(
            ldk_data_dir,
        ) {
            None => (AcceptStage::Done, AcceptActionView::Finish(Err(no_parent()))),
            Some(path) => (AcceptStage::ReadingState(info), AcceptActionView::ReadState(path)),
        },
        (AcceptStage::ReadingState(info), AcceptEvent::State(file)) => match (
            registering(file@, info),
            state_path(ldk_data_dir),
        ) {
            (StateWriteView::Write(state), Some(path)) => (
                AcceptStage::WritingState(info),
                AcceptActionView::WriteState(path, state),
            ),
            (StateWriteView::Fail(e), Some(_)) => (
                AcceptStage::Done,
                AcceptActionView::Finish(Err(e)),
            ),
            (_, None) => (AcceptStage::Done, AcceptActionView::Finish(Err(no_parent()))),
            _ => (AcceptStage::Done, AcceptActionView::Stop),
        },
        (AcceptStage::WritingState(info), AcceptEvent::Written(Some(e))) => (
            AcceptStage::Done,
            AcceptActionView::Finish(Err(Failure::Other("Failed to write state: "@ + e@))),
        ),
        (AcceptStage::WritingState(info), AcceptEvent::Written(None)) => (
            AcceptStage::Reloading(info),
            AcceptActionView::Reload,
        ),
        (AcceptStage::Reloading(info), AcceptEvent::Reloaded(Err(e))) => (
            AcceptStage::Done,
            AcceptActionView::Finish(Err(failure(e))),
        ),
        (AcceptStage::Reloading(info), AcceptEvent::Reloaded(Ok(_))) => (
            AcceptStage::ReadingKey(info),
            AcceptActionView::ReadKey,
        ),
        (AcceptStage::ReadingKey(info), AcceptEvent::Key(key)) => match wallet_key(
            match key {
                Some(text) => Some(text@),
                None => None,
            },
        ) {
            Err(e) => (AcceptStage::Done, AcceptActionView::Finish(Err(e))),
            Ok(key) => (
                AcceptStage::Uploading(info),
                AcceptActionView::Upload(upload(ldk_data_dir, info.contract_id@, key, endpoint)),
            ),
        },
        (AcceptStage::Uploading(info), AcceptEvent::Uploaded(reply)) => match upload_result(
            reply@,
        ) {
            Err(e) => if was_sent(reply@) {
                (
                    AcceptStage::Removing(info, reply),
                    AcceptActionView::Remove(upload_path(ldk_data_dir, info.contract_id@)),
                )
            } else {
                (AcceptStage::Done, AcceptActionView::Finish(Err(e)))
            },
            Ok(_) => (
                AcceptStage::Removing(info, reply),
                AcceptActionView::Remove(upload_path(ldk_data_dir, info.contract_id@)),
            ),
        },
        (AcceptStage::Removing(info, reply), AcceptEvent::Removed) => match upload_result(reply@) {
            Err(e) => (AcceptStage::Done, AcceptActionView::Finish(Err(e))),
            Ok(_) => match schema_named(info.schema@) {
                None => (
                    AcceptStage::Done,
                    AcceptActionView::Finish(
                        Err(Failure::Other("Unknown schema: "@ + info.schema@)),
                    ),
                ),
                Some(schema) => (
                    AcceptStage::Done,
                    accepted(schema, info.asset_amount, contract_of_text(info.contract_id@)),
                ),
            },
        },
        _ => (stage, AcceptActionView::Unexpected),
    }
}

/// The first step of an acceptance: the proxy is asked for what stands under the funding
/// transaction.
pub open spec fn accept_start(funding_txid: Seq<char>, endpoint: Option<Seq<char>>) -> (
    AcceptStage,
    AcceptActionView,
) {
    match endpoint {
        None => (AcceptStage::Done, AcceptActionView::Finish(Err(Failure::NoConsignment))),
        Some(url) => (AcceptStage::Asked, AcceptActionView::Ask(query(funding_txid, url))),
    }
}

impl Acceptance {
    /// Begins to accept the transfer that funds a channel.
    pub fn begin(
        ldk_data_dir: &FilePath,
        funding_txid: &str,
        endpoint: &Option<RgbTransport>,
    ) -> (r: (Acceptance, AcceptAction))
        ensures
            ({
                let url = match endpoint {
                    Some(transport) => Some(transport_text(transport@)),
                    None => None,
                };
                let (stage, action) = accept_start(funding_txid@, url);
                &&& r.0.ldk_data_dir@ == ldk_data_dir@
                &&& url matches Some(text) ==> r.0.endpoint@ == text
                &&& r.0.stage == stage
                &&& acts(r.1, action)
            }),
    {
        match endpoint {
            None => (
                Acceptance {
                    ldk_data_dir: ldk_data_dir.copy(),
                    endpoint: String::new(),
                    stage: AcceptStage::Done,
                },
                AcceptAction::Finish(Err(RgbLibError::NoConsignment)),
            ),
            Some(transport) => {
                let url: String = transport.text();
                let request: ProxyRequest = consignment_query(funding_txid, url.as_str());
                (
                    Acceptance {
                        ldk_data_dir: ldk_data_dir.copy(),
                        endpoint: url,
                        stage: AcceptStage::Asked,
                    },
                    AcceptAction::Ask(request),
                )
            },
        }
    }

    /// Takes what the last action gave, and says what to do next.
    pub fn step(self, event: AcceptEvent) -> (r: (Acceptance, AcceptAction))
        ensures
            ({
                let (stage, action) = accept_step(
                    self.ldk_data_dir@,
                    self.endpoint@,
                    self.stage,
                    event,
                );
                &&& r.0.ldk_data_dir@ == self.ldk_data_dir@
                &&& r.0.endpoint@ == self.endpoint@
                &&& r.0.stage == stage
                &&& acts(r.1, action)
            }),
    {
        let Acceptance { ldk_data_dir, endpoint, stage } = self;
        let (stage, action): (AcceptStage, AcceptAction) = match (stage, event) {
            (AcceptStage::Asked, AcceptEvent::Reply(reply)) => match read_channel_reply(&reply) {
                Err(e) => (AcceptStage::Done, AcceptAction::Finish(Err(e))),
                Ok(text) => (AcceptStage::ReadingInfo, AcceptAction::ReadInfo(text)),
            },
            (AcceptStage::ReadingInfo, AcceptEvent::Info(None)) => (
                AcceptStage::Done,
                AcceptAction::Finish(Err(RgbLibError::InvalidConsignment)),
            ),
            (AcceptStage::ReadingInfo, AcceptEvent::Info(Some(info))) => match read_schema(
                info.schema.as_str(),
            ) {
                Err(e) => (AcceptStage::Done, AcceptAction::Finish(Err(e))),
                Ok(_) => match wallet_directory(&ldk_data_dir) {
                    Err(e) => (AcceptStage::Done, AcceptAction::Finish(Err(e))),
                    Ok(dir) => (AcceptStage::MakingDir(info), AcceptAction::MakeDir(dir)),
                },
            },
            (AcceptStage::MakingDir(_), AcceptEvent::DirMade(Some(e))) => (
                AcceptStage::Done,
                AcceptAction::Finish(Err(other_with("Cannot create directory: ", e.as_str()))),
            ),
            (AcceptStage::MakingDir(info), AcceptEvent::DirMade(None)) => match state_file_path(
                &ldk_data_dir,
            ) {
                Err(e) => (AcceptStage::Done, AcceptAction::Finish(Err(e))),
                Ok(path) => (AcceptStage::ReadingState(info), AcceptAction::ReadState(path)),
            },
            (AcceptStage::ReadingState(info), AcceptEvent::State(file)) => match state_file_path(
                &ldk_data_dir,
            ) {
                Err(e) => (AcceptStage::Done, AcceptAction::Finish(Err(e))),
                Ok(path) => match write_acceptor_state_file(&file, &info) {
                    StateWrite::Write(text) => (
                        AcceptStage::WritingState(info),
                        AcceptAction::WriteState(path, text),
                    ),
                    StateWrite::Fail(e) => (AcceptStage::Done, AcceptAction::Finish(Err(e))),
                    StateWrite::NoPlace => (AcceptStage::Done, AcceptAction::Stop),
                },
            },
            (AcceptStage::WritingState(_), AcceptEvent::Written(Some(e))) => (
                AcceptStage::Done,
                AcceptAction::Finish(Err(other_with("Failed to write state: ", e.as_str()))),
            ),
            (AcceptStage::WritingState(info), AcceptEvent::Written(None)) => (
                AcceptStage::Reloading(info),
                AcceptAction::Reload,
            ),
            (AcceptStage::Reloading(_), AcceptEvent::Reloaded(Err(e))) => (
                AcceptStage::Done,
                AcceptAction::Finish(Err(e)),
            ),
            (AcceptStage::Reloading(info), AcceptEvent::Reloaded(Ok(_))) => (
                AcceptStage::ReadingKey(info),
                AcceptAction::ReadKey,
            ),
            (
                AcceptStage::ReadingKey(info),
                AcceptEvent::Key(key),
            ) => match post_acceptor_pubkey_after_accept(
                &ldk_data_dir,
                info.contract_id.as_str(),
                endpoint.as_str(),
                &key,
            ) {
                Err(e) => (AcceptStage::Done, AcceptAction::Finish(Err(e))),
                Ok(sent) => (AcceptStage::Uploading(info), AcceptAction::Upload(sent)),
            },
            (AcceptStage::Uploading(info), AcceptEvent::Uploaded(reply)) => {
                let sent: bool = match &reply {
                    UploadReply::Refused => true,
                    UploadReply::Unparsed(_) => true,
                    UploadReply::Answered { .. } => true,
                    _ => false,
                };
                if sent {
                    let path: FilePath = path_of_upload(&ldk_data_dir, info.contract_id.as_str());
                    (AcceptStage::Removing(info, reply), AcceptAction::Remove(path))
                } else {
                    match read_upload_reply(&reply) {
                        Err(e) => (AcceptStage::Done, AcceptAction::Finish(Err(e))),
                        Ok(_) => (AcceptStage::Done, AcceptAction::Stop),
                    }
                }
            },
            (AcceptStage::Removing(info, reply), AcceptEvent::Removed) => match read_upload_reply(
                &reply,
            ) {
                Err(e) => (AcceptStage::Done, AcceptAction::Finish(Err(e))),
                Ok(_) => match read_schema(info.schema.as_str()) {
                    Err(e) => (AcceptStage::Done, AcceptAction::Finish(Err(e))),
                    Ok(schema) => (
                        AcceptStage::Done,
                        accept(
                            schema,
                            info.asset_amount,
                            ContractId::from_text(info.contract_id.as_str()),
                        ),
                    ),
                },
            },
            (stage, _) => (stage, AcceptAction::Unexpected),
        };
        (Acceptance { ldk_data_dir, endpoint, stage }, action)
    }
}

/// A transfer is accepted only when the key was uploaded and its file removed, for the contract
/// that the initiator names, and with exactly one assignment: the amount of a fungible asset,
/// or the one unit of a unique one.
pub proof fn law_accepted(
    ldk_data_dir: PathView,
    endpoint: Seq<char>,
    stage: AcceptStage,
    event: AcceptEvent,
)
    ensures
        accept_step(ldk_data_dir, endpoint, stage, event).1 matches AcceptActionView::Finish(
            Ok(transfer),
        ) ==> {
            &&& stage matches AcceptStage::Removing(info, reply)
            &&& event is Removed
            &&& upload_result(reply@) is Ok
            &&& contract_of_text(info.contract_id@) == Ok::<Seq<u8>, Seq<char>>(
                transfer.contract_id,
            )
            &&& schema_named(info.schema@) == Some(transfer.schema)
            &&& transfer.assignments.len() == 1
            &&& transfer.assignments[0] == if transfer.schema == AssetSchema::Uda {
                Assignment::NonFungible
            } else {
                Assignment::Fungible(info.asset_amount)
            }
        },
{
}

/// The number of a stage, in the order in which they come.
pub open spec fn stage_number(stage: AcceptStage) -> int {
    match stage {
        AcceptStage::Asked => 0,
        AcceptStage::ReadingInfo => 1,
        AcceptStage::MakingDir(_) => 2,
        AcceptStage::ReadingState(_) => 3,
        AcceptStage::WritingState(_) => 4,
        AcceptStage::Reloading(_) => 5,
        AcceptStage::ReadingKey(_) => 6,
        AcceptStage::Uploading(_) => 7,
        AcceptStage::Removing(_, _) => 8,
        AcceptStage::Done => 9,
    }
}

/// An acceptance goes through its stages one by one and skips none, or it ends. What the
/// initiator says never changes on the way. An acceptance that has ended stays ended, and an
/// event that does not belong to a stage changes nothing.
pub proof fn law_accept_progress(
    ldk_data_dir: PathView,
    endpoint: Seq<char>,
    stage: AcceptStage,
    event: AcceptEvent,
)
    ensures
        ({
            let (next, action) = accept_step(ldk_data_dir, endpoint, stage, event);
            &&& action is Unexpected ==> next == stage
            &&& stage is Done ==> action is Unexpected
            &&& !(action is Unexpected) && !(next is Done) ==> stage_number(next) == stage_number(
                stage,
            ) + 1
            &&& info_of(stage) is Some && !(next is Done) ==> info_of(next) == info_of(stage)
            &&& next is Done && !(stage is Done) ==> action is Finish || action is Stop
        }),
{
}

/// The state that an acceptance writes knows the contract that the initiator names: its state
/// hash and the initiator's key, which are read back from it.
pub proof fn law_accept_registers(
    ldk_data_dir: PathView,
    endpoint: Seq<char>,
    stage: AcceptStage,
    event: AcceptEvent,
)
    ensures
        accept_step(ldk_data_dir, endpoint, stage, event).1 matches AcceptActionView::WriteState(
            path,
            state,
        ) ==> {
            &&& stage matches AcceptStage::ReadingState(info)
            &&& state_path(ldk_data_dir) == Some(path)
            &&& given_hash(info.genesis_state_hash@) matches Ok(hash)
            &&& state_hash_in(state, info.contract_id@) == Ok::<Seq<u8>, Failure>(hash)
            &&& counterparty_in(state, info.contract_id@) == Some(info.wallet_pubkey@)
        },
{
    if let (AcceptStage::ReadingState(info), AcceptEvent::State(file)) = (stage, event) {
        if let StateWriteView::Write(state) = registering(file@, info) {
            let before = state_or(file@, fresh_state())->Ok_0;
            let hash = given_hash(info.genesis_state_hash@)->Ok_0;
            let key = Seq::<char>::empty();
            let other = info.contract_id@.push('x');
            reveal_strlit("genesis_utxos");
            reveal_strlit("contracts_metadata");
            reveal_strlit("channel_counterparties");
            assert(key.len() == 0);
            assert(other.len() != info.contract_id@.len());
            law_registered(before, info, hash, other, key);
        }
    }
}

/// What the initiator says, where it is known.
pub open spec fn info_of(stage: AcceptStage) -> Option<ChannelInfo> {
    match stage {
        AcceptStage::MakingDir(info) => Some(info),
        AcceptStage::ReadingState(info) => Some(info),
        AcceptStage::WritingState(info) => Some(info),
        AcceptStage::Reloading(info) => Some(info),
        AcceptStage::ReadingKey(info) => Some(info),
        AcceptStage::Uploading(info) => Some(info),
        AcceptStage::Removing(info, _) => Some(info),
        _ => None,
    }
}

/// An acceptance is live where it reads the state file: whenever the file can be read, what it holds
/// has a place for the contract (or there is no file, or no document in it), and the hash that the
/// initiator gives is 32 bytes in hexadecimal, the state is written next, and nothing else is done.
/// What is written knows the contract, and every other contract as the file did: its genesis, its
/// code and its counterparty; and it keeps all that stands under other keys.
pub proof fn law_accept_live(
    ldk_data_dir: PathView,
    endpoint: Seq<char>,
    info: ChannelInfo,
    file: FileRead,
    state: Json,
    hash: Seq<u8>,
    other: Seq<char>,
    key: Seq<char>,
)
    requires
        ldk_data_dir.parent() is Some,
        hash.len() == 32,
        has_place(state, "genesis_utxos"@),
        has_place(state, "contracts_metadata"@),
        has_place(state, "channel_counterparties"@),
        other != info.contract_id@,
        key != "genesis_utxos"@,
        key != "contracts_metadata"@,
        key != "channel_counterparties"@,
    ensures
        hex_bytes(info.genesis_state_hash@) == Some(hash) && holds_state(file@, state) ==> {
            let (next, action) = accept_step(
                ldk_data_dir,
                endpoint,
                AcceptStage::ReadingState(info),
                AcceptEvent::State(file),
            );
            let id = info.contract_id@;
            &&& next == AcceptStage::WritingState(info)
            &&& action matches AcceptActionView::WriteState(path, after)
            &&& state_path(ldk_data_dir) == Some(path)
            &&& state_hash_in(after, id) == Ok::<Seq<u8>, Failure>(hash)
            &&& counterparty_in(after, id) == Some(info.wallet_pubkey@)
            &&& after.get_two("genesis_utxos"@, other) == state.get_two("genesis_utxos"@, other)
            &&& after.get_two("contracts_metadata"@, other) == state.get_two(
                "contracts_metadata"@,
                other,
            )
            &&& after.get_two("channel_counterparties"@, other) == state.get_two(
                "channel_counterparties"@,
                other,
            )
            &&& after.get(key) == state.get(key)
        },
{
    law_registering(file@, info, state, hash);
    law_registered(state, info, hash, other, key);
    law_registered_entries(state, info, hash, "genesis_utxos"@, other, key);
    law_registered_entries(state, info, hash, "contracts_metadata"@, other, key);
    law_registered_entries(state, info, hash, "channel_counterparties"@, other, key);
}

/// Whether a file is taken for this state when a contract is registered: it holds the state as a
/// document, or there is no file or no document and the state knows no contract.
pub open spec fn holds_state(file: FileView, state: Json) -> bool {
    match file {
        FileView::Missing(_) => state == fresh_state(),
        FileView::Unreadable(_) => false,
        FileView::Text(text) => match json_of_text(text) {
            Ok(document) => state == document,
            Err(_) => state == fresh_state(),
        },
    }
}

/// A fresh wallet accepts: where there is no state file, or one without a document, the state is
/// written whatever the initiator's hash of 32 bytes is.
pub proof fn law_accept_fresh(
    ldk_data_dir: PathView,
    endpoint: Seq<char>,
    info: ChannelInfo,
    file: FileRead,
)
    requires
        ldk_data_dir.parent() is Some,
    ensures
        (file@ is Missing || (file@ matches FileView::Text(text) && json_of_text(text) is Err)) && (
        hex_bytes(info.genesis_state_hash@) matches Some(hash) && hash.len() == 32) ==> {
            let (next, action) = accept_step(
                ldk_data_dir,
                endpoint,
                AcceptStage::ReadingState(info),
                AcceptEvent::State(file),
            );
            next == AcceptStage::WritingState(info) && action is WriteState
        },
{
    law_fresh_state(Seq::empty());
    if let Some(hash) = hex_bytes(info.genesis_state_hash@) {
        law_registering(file@, info, fresh_state(), hash);
    }
}

/// An acceptance goes to its end when every reply is good. The proxy is asked for what stands under
/// the funding transaction; its text is read; the wallet's directory is made and the state file read
/// there; the state is written; the contracts are reloaded; the wallet's key is looked up and
/// uploaded, its file is removed; and the transfer is accepted, for a schema that is supported, with
/// the contract and the amount that the initiator names.
pub proof fn law_accept_ends_well(
    ldk_data_dir: PathView,
    funding_txid: Seq<char>,
    endpoint: Seq<char>,
    reply: ProxyReply,
    text: Seq<char>,
    info: ChannelInfo,
    file: FileRead,
    master_key: String,
    wallet_pubkey: Seq<char>,
    sent: UploadReply,
    contract_id: Seq<u8>,
)
    requires
        ldk_data_dir.parent() is Some,
        info.schema@ == "Nia"@ || info.schema@ == "Cfa"@ || info.schema@ == "Uda"@,
        sent is Refused || sent is Answered,
    ensures
        channel_text(reply@) == Ok::<Seq<char>, Failure>(text) && registering(file@, info) is Write
            && wallet_key(Some(master_key@)) == Ok::<Seq<char>, Failure>(wallet_pubkey)
            && contract_of_text(info.contract_id@) == Ok::<Seq<u8>, Seq<char>>(contract_id) ==> {
            let dir = ldk_data_dir;
            let (s0, a0) = accept_start(funding_txid, Some(endpoint));
            let (s1, a1) = accept_step(dir, endpoint, s0, AcceptEvent::Reply(reply));
            let (s2, a2) = accept_step(dir, endpoint, s1, AcceptEvent::Info(Some(info)));
            let (s3, a3) = accept_step(dir, endpoint, s2, AcceptEvent::DirMade(None));
            let (s4, a4) = accept_step(dir, endpoint, s3, AcceptEvent::State(file));
            let (s5, a5) = accept_step(dir, endpoint, s4, AcceptEvent::Written(None));
            let (s6, a6) = accept_step(dir, endpoint, s5, AcceptEvent::Reloaded(Ok(())));
            let (s7, a7) = accept_step(dir, endpoint, s6, AcceptEvent::Key(Some(master_key)));
            let (s8, a8) = accept_step(dir, endpoint, s7, AcceptEvent::Uploaded(sent));
            let (s9, a9) = accept_step(dir, endpoint, s8, AcceptEvent::Removed);
            &&& a0 == AcceptActionView::Ask(query(funding_txid, endpoint))
            &&& a1 == AcceptActionView::ReadInfo(text)
            &&& wallet_dir(dir) matches Some(wallet) && a2 == AcceptActionView::MakeDir(wallet)
            &&& state_path(dir) matches Some(path) && a3 == AcceptActionView::ReadState(path)
            &&& a4 matches AcceptActionView::WriteState(path, _) && state_path(dir) == Some(path)
            &&& a5 is Reload
            &&& a6 is ReadKey
            &&& a7 == AcceptActionView::Upload(
                upload(dir, info.contract_id@, wallet_pubkey, endpoint),
            )
            &&& a8 == AcceptActionView::Remove(upload_path(dir, info.contract_id@))
            &&& s9 is Done
            &&& a9 matches AcceptActionView::Finish(Ok(transfer))
            &&& transfer.contract_id == contract_id
            &&& transfer.schema == if info.schema@ == "Uda"@ {
                AssetSchema::Uda
            } else if info.schema@ == "Cfa"@ {
                AssetSchema::Cfa
            } else {
                AssetSchema::Nia
            }
            &&& transfer.assignments == if info.schema@ == "Uda"@ {
                seq![Assignment::NonFungible]
            } else {
                seq![Assignment::Fungible(info.asset_amount)]
            }
        },
{
    lemma_schema_names();
}

/// The names of schemas differ.
proof fn lemma_schema_names()
    ensures
        "Nia"@ != "Uda"@,
        "Nia"@ != "Cfa"@,
        "Nia"@ != "Ifa"@,
        "Uda"@ != "Cfa"@,
        "Uda"@ != "Ifa"@,
        "Cfa"@ != "Ifa"@,
{
    reveal_strlit("Nia");
    reveal_strlit("Uda");
    reveal_strlit("Cfa");
    reveal_strlit("Ifa");
    assert("Nia"@[0] == 'N' && "Uda"@[0] == 'U' && "Cfa"@[0] == 'C' && "Ifa"@[0] == 'I');
}

/// A schema is known by exactly one name, as it stands; and a fungible asset is assigned by its amount,
/// a unique one as a whole, an inflatable one not at all.
pub proof fn law_schemas(name: Seq<char>, amount: u64)
    ensures
        schema_named(name) == Some(AssetSchema::Nia) <==> name == "Nia"@,
        schema_named(name) == Some(AssetSchema::Uda) <==> name == "Uda"@,
        schema_named(name) == Some(AssetSchema::Cfa) <==> name == "Cfa"@,
        schema_named(name) == Some(AssetSchema::Ifa) <==> name == "Ifa"@,
        assignment_of(AssetSchema::Nia, amount) == Some(Assignment::Fungible(amount)),
        assignment_of(AssetSchema::Cfa, amount) == Some(Assignment::Fungible(amount)),
        assignment_of(AssetSchema::Uda, amount) == Some(Assignment::NonFungible),
        assignment_of(AssetSchema::Ifa, amount) is None,
{
    lemma_schema_names();
}

/// Where something goes wrong, the acceptance ends and says what did, at every stage. What the text of
/// the initiator could not be read as, the schemas that are not known, a directory that cannot be made,
/// a state that cannot be read or written, contracts that cannot be reloaded, and an upload that was not
/// sent.
pub proof fn law_accept_fails(
    ldk_data_dir: PathView,
    endpoint: Seq<char>,
    reply: ProxyReply,
    info: ChannelInfo,
    reason: String,
    error: RgbLibError,
    e: Failure,
)
    ensures
        ({
            let dir = ldk_data_dir;
            &&& accept_start(Seq::empty(), None) == (
                AcceptStage::Done,
                AcceptActionView::Finish(Err(Failure::NoConsignment)),
            )
            &&& channel_text(reply@) == Err::<Seq<char>, Failure>(e) ==> accept_step(
                dir,
                endpoint,
                AcceptStage::Asked,
                AcceptEvent::Reply(reply),
            ) == (AcceptStage::Done, AcceptActionView::Finish(Err(e)))
            &&& accept_step(dir, endpoint, AcceptStage::ReadingInfo, AcceptEvent::Info(None)) == (
                AcceptStage::Done,
                AcceptActionView::Finish(Err(Failure::InvalidConsignment)),
            )
            &&& info.schema@ != "Nia"@ && info.schema@ != "Uda"@ && info.schema@ != "Cfa"@
                && info.schema@ != "Ifa"@ ==> accept_step(
                dir,
                endpoint,
                AcceptStage::ReadingInfo,
                AcceptEvent::Info(Some(info)),
            ) == (
                AcceptStage::Done,
                AcceptActionView::Finish(Err(Failure::Other("Unknown schema: "@ + info.schema@))),
            )
            &&& dir.parent() is None && (info.schema@ == "Nia"@ || info.schema@ == "Uda"@
                || info.schema@ == "Cfa"@ || info.schema@ == "Ifa"@) ==> accept_step(
                dir,
                endpoint,
                AcceptStage::ReadingInfo,
                AcceptEvent::Info(Some(info)),
            ) == (
                AcceptStage::Done,
                AcceptActionView::Finish(
                    Err(Failure::Other("Cannot get parent directory"@)),
                ),
            )
            &&& accept_step(
                dir,
                endpoint,
                AcceptStage::MakingDir(info),
                AcceptEvent::DirMade(Some(reason)),
            ) == (
                AcceptStage::Done,
                AcceptActionView::Finish(
                    Err(Failure::Other("Cannot create directory: "@ + reason@)),
                ),
            )
            &&& accept_step(
                dir,
                endpoint,
                AcceptStage::WritingState(info),
                AcceptEvent::Written(Some(reason)),
            ) == (
                AcceptStage::Done,
                AcceptActionView::Finish(Err(Failure::Other("Failed to write state: "@ + reason@))),
            )
            &&& accept_step(
                dir,
                endpoint,
                AcceptStage::Reloading(info),
                AcceptEvent::Reloaded(Err(error)),
            ) == (AcceptStage::Done, AcceptActionView::Finish(Err(failure(error))))
            &&& wallet_key(Some(reason@)) == Err::<Seq<char>, Failure>(e) ==> accept_step(
                dir,
                endpoint,
                AcceptStage::ReadingKey(info),
                AcceptEvent::Key(Some(reason)),
            ) == (AcceptStage::Done, AcceptActionView::Finish(Err(e)))
            &&& accept_step(
                dir,
                endpoint,
                AcceptStage::ReadingKey(info),
                AcceptEvent::Key(None),
            ) == (
                AcceptStage::Done,
                AcceptActionView::Finish(
                    Err(Failure::Other("FIREFLY_PRIVATE_KEY not set"@)),
                ),
            )
        }),
{
}

/// What becomes of the upload decides the rest. Where it was not sent, the acceptance ends with why.
/// Where there was a reply, the file is removed; then a reply that was no answer ends it with why. A
/// contract that cannot be read, or an inflatable asset, is not accepted.
pub proof fn law_accept_after_upload(
    ldk_data_dir: PathView,
    endpoint: Seq<char>,
    info: ChannelInfo,
    sent: UploadReply,
    reason: Seq<char>,
)
    ensures
        ({
            let after = accept_step(
                ldk_data_dir,
                endpoint,
                AcceptStage::Uploading(info),
                AcceptEvent::Uploaded(sent),
            );
            let ended = accept_step(
                ldk_data_dir,
                endpoint,
                AcceptStage::Removing(info, sent),
                AcceptEvent::Removed,
            );
            &&& sent is Refused || sent is Unparsed || sent is Answered ==> after == (
                AcceptStage::Removing(info, sent),
                AcceptActionView::Remove(upload_path(ldk_data_dir, info.contract_id@)),
            )
            &&& sent matches UploadReply::WriteFailed(e) ==> after == (
                AcceptStage::Done,
                AcceptActionView::Finish(
                    Err(Failure::Other("Failed to write temp file: "@ + e@)),
                ),
            )
            &&& sent matches UploadReply::AttachFailed(e) ==> after == (
                AcceptStage::Done,
                AcceptActionView::Finish(Err(Failure::Other("Failed to attach file: "@ + e@))),
            )
            &&& sent matches UploadReply::SendFailed(e) ==> after == (
                AcceptStage::Done,
                AcceptActionView::Finish(
                    Err(Failure::Other("Failed to post acceptor pubkey: "@ + e@)),
                ),
            )
            &&& sent matches UploadReply::Unparsed(e) ==> ended == (
                AcceptStage::Done,
                AcceptActionView::Finish(Err(Failure::Other("Failed to parse response: "@ + e@))),
            )
            &&& (sent is Refused || sent is Answered) && info.schema@ == "Nia"@
                && contract_of_text(info.contract_id@) == Err::<Seq<u8>, Seq<char>>(reason)
                ==> ended == (
                AcceptStage::Done,
                AcceptActionView::Finish(Err(Failure::Other("Invalid contract_id: "@ + reason))),
            )
            &&& (sent is Refused || sent is Answered) && info.schema@ == "Ifa"@
                && contract_of_text(info.contract_id@) is Ok ==> ended == (
                AcceptStage::Done,
                AcceptActionView::Stop,
            )
        }),
{
    lemma_schema_names();
}

/// What an action of an acceptance says, value by value: where an action is what was expected, it is of
/// the same kind, and every path, text, request and upload is the one that was expected; the state that
/// is written is read as the one that was expected; and a transfer has the contract, the schema and the
/// assignments that were expected, or the error says what was expected.
pub proof fn law_accept_actions(action: AcceptAction, expected: AcceptActionView)
    requires
        acts(action, expected),
    ensures
        match expected {
            AcceptActionView::Ask(asked) => action matches AcceptAction::Ask(request)
                && request.url@ == asked.url && content(request.body) == asked.body,
            AcceptActionView::ReadInfo(text) => action matches AcceptAction::ReadInfo(held)
                && held@ == text,
            AcceptActionView::MakeDir(path) => action matches AcceptAction::MakeDir(dir)
                && dir.raw@ == path.text,
            AcceptActionView::ReadState(path) => action matches AcceptAction::ReadState(file)
                && file.raw@ == path.text,
            AcceptActionView::WriteState(path, state) => action matches AcceptAction::WriteState(
                file,
                text,
            ) && file.raw@ == path.text && text@ == json_pretty(state) && (json_of_text(
                text@,
            ) matches Ok(found) && found.agrees(state, depth_limit())),
            AcceptActionView::Reload => action is Reload,
            AcceptActionView::ReadKey => action is ReadKey,
            AcceptActionView::Upload(sent) => action matches AcceptAction::Upload(upload)
                && upload.url@ == sent.url && upload.params@ == sent.params && upload.path.raw@
                == sent.path.text && upload.text@ == sent.text,
            AcceptActionView::Remove(path) => action matches AcceptAction::Remove(file)
                && file.raw@ == path.text,
            AcceptActionView::Finish(Ok(accepted)) => action matches AcceptAction::Finish(Ok(given))
                && given.0.contract_id.bytes@ == accepted.contract_id && given.0.schema
                == accepted.schema && given.1@ == accepted.assignments,
            AcceptActionView::Finish(Err(e)) => action matches AcceptAction::Finish(Err(error))
                && failure(error) == e,
            AcceptActionView::Stop => action is Stop,
            AcceptActionView::Unexpected => action is Unexpected,
        },
{
}

} // verus!
