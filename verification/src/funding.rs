//! The funding of a channel, on the side that accepts it.

use vstd::prelude::*;

use crate::accept::{accepted, AcceptActionView};
use crate::channel::{
    channel_path, consignment_path, get_rgb_channel_info_path, law_renamed_files, path_of_consignment,
    renames, ChannelId, RgbInfo,
};
use crate::codec::lower_hex;
use crate::error::{
    failure, failure_text, law_failure_text, quoted_text, Failure, RgbLibError,
};
use crate::path::{FilePath, PathView};
use crate::text::{decimal, digits, join_two};
use crate::types::{schema_name, AssetSchema, Assignment, RgbTransfer};

verus! {

/// Why a channel is not funded: what is sent to the peer, and for which channel. The channel is
/// not closed.
#[derive(Debug, Clone)]
pub struct FundingError {
    pub message: String,
    pub channel_id: ChannelId,
}

/// What is to be written when a channel is funded.
pub struct FundedChannel {
    /// The RGB side of the channel.
    pub info: RgbInfo,
    /// The pending file of the channel.
    pub pending_path: FilePath,
    /// The final file of the channel.
    pub path: FilePath,
    /// The consignment, under the funding transaction and under the channel.
    pub consignment_paths: (FilePath, FilePath),
}

/// What the peer is told when a transfer is not accepted.
pub open spec fn refusal(failure: Failure) -> Seq<char> {
    match failure {
        Failure::InvalidConsignment => "Invalid RGB consignment for funding"@,
        Failure::NoConsignment => "Failed to find RGB consignment"@,
        Failure::UnknownRgbSchema(schema_id) => "Unknown RGB schema: "@ + schema_id,
        Failure::UnsupportedSchema(schema) => "Unsupported RGB schema: "@ + schema_name(schema),
        _ => "Unexpected error: "@ + failure_text(failure),
    }
}

/// What the peer is told when a transfer is not accepted.
pub fn refusal_text(error: &RgbLibError) -> (r: String)
    ensures
        r@ == refusal(failure(*error)),
{
    proof {
        law_failure_text(*error);
    }
    match error {
        RgbLibError::InvalidConsignment => "Invalid RGB consignment for funding".to_owned(),
        RgbLibError::NoConsignment => "Failed to find RGB consignment".to_owned(),
        RgbLibError::UnknownRgbSchema { schema_id } => join_two(
            "Unknown RGB schema: ",
            schema_id.as_str(),
        ),
        RgbLibError::UnsupportedSchema { asset_schema } => join_two(
            "Unsupported RGB schema: ",
            asset_schema.text().as_str(),
        ),
        other => join_two("Unexpected error: ", other.text().as_str()),
    }
}

/// How much the remote side brings into a channel: the amount of a fungible asset, or the one
/// unit of a unique one. No other assignment funds a channel.
pub open spec fn funded_amount(assignment: Assignment) -> Option<u64> {
    match assignment {
        Assignment::Fungible(amount) => Some(amount),
        Assignment::NonFungible => Some(1),
        _ => None,
    }
}

/// What funding comes to.
pub enum FundingView {
    /// The channel is funded: the remote side has it all.
    Funded { contract_id: Seq<u8>, schema: AssetSchema, remote_rgb_amount: u64 },
    /// The peer is told why not.
    Refused(Seq<char>),
    /// The assignment funds no channel.
    Stuck,
}

/// What funding comes to, given the transfer that was accepted.
pub open spec fn funding_of_transfer(
    contract_id: Seq<u8>,
    schema: AssetSchema,
    assignments: Seq<Assignment>,
) -> FundingView {
    if assignments.len() != 1 {
        FundingView::Refused(
            "Unexpected number of RGB assignments: "@ + digits(assignments.len()),
        )
    } else {
        match funded_amount(assignments[0]) {
            Some(remote_rgb_amount) => FundingView::Funded {
                contract_id,
                schema,
                remote_rgb_amount,
            },
            None => FundingView::Stuck,
        }
    }
}

/// What funding comes to, given what accepting the transfer gave.
pub open spec fn funding(accepted: Result<(RgbTransfer, Vec<Assignment>), RgbLibError>) -> FundingView {
    match accepted {
        Err(e) => FundingView::Refused(refusal(failure(e))),
        Ok((transfer, assignments)) => funding_of_transfer(
            transfer.contract_id@,
            transfer.schema,
            assignments@,
        ),
    }
}

/// Whether a channel is funded as `contract_id`, `schema` and `amount` say, and its files stand
/// where they belong.
pub open spec fn is_funded(
    channel: FundedChannel,
    dir: PathView,
    temporary_channel_id: Seq<u8>,
    funding_txid: Seq<char>,
    contract_id: Seq<u8>,
    schema: AssetSchema,
    amount: u64,
) -> bool {
    let name = lower_hex(temporary_channel_id);
    &&& channel.info.contract_id@ == contract_id
    &&& channel.info.schema == schema
    &&& channel.info.local_rgb_amount == 0
    &&& channel.info.remote_rgb_amount == amount
    &&& channel.pending_path@ == channel_path(dir, name, true)
    &&& channel.path@ == channel_path(dir, name, false)
    &&& channel.consignment_paths.0@ == consignment_path(dir, funding_txid)
    &&& channel.consignment_paths.1@ == consignment_path(dir, name)
}

/// Whether the answer to a peer is what funding comes to.
pub open spec fn answers(
    expected: FundingView,
    temporary_channel_id: ChannelId,
    funding_txid: Seq<char>,
    dir: PathView,
    r: Option<Result<FundedChannel, FundingError>>,
) -> bool {
    match (expected, r) {
        (
            FundingView::Funded { contract_id, schema, remote_rgb_amount },
            Some(Ok(channel)),
        ) => is_funded(
            channel,
            dir,
            temporary_channel_id.0@,
            funding_txid,
            contract_id,
            schema,
            remote_rgb_amount,
        ),
        (FundingView::Refused(message), Some(Err(e))) => e.message@ == message && e.channel_id
            == temporary_channel_id,
        (FundingView::Stuck, None) => true,
        _ => false,
    }
}

/// A transfer with one assignment of an amount, or one unique asset, is always answered with a channel
/// of its contract and schema that has that amount, or one unit, on the remote side and nothing on the
/// local one. A transfer that was not accepted, or with any other number of assignments, is always
/// answered with a message for the channel that was to be funded.
pub proof fn law_funding_answered(
    transfer: RgbTransfer,
    assignments: Vec<Assignment>,
    amount: u64,
    error: RgbLibError,
    temporary_channel_id: ChannelId,
    funding_txid: Seq<char>,
    dir: PathView,
    r: Option<Result<FundedChannel, FundingError>>,
)
    ensures
        answers(
            funding(Ok((transfer, assignments))),
            temporary_channel_id,
            funding_txid,
            dir,
            r,
        ) ==> {
            &&& assignments@ == seq![Assignment::Fungible(amount)] || (assignments@
                == seq![Assignment::NonFungible] && amount == 1) ==> (r matches Some(Ok(channel))
                && channel.info.contract_id.bytes@ == transfer.contract_id.bytes@
                && channel.info.schema == transfer.schema && channel.info.local_rgb_amount == 0
                && channel.info.remote_rgb_amount == amount)
            &&& assignments@.len() != 1 ==> (r matches Some(Err(e)) && e.channel_id
                == temporary_channel_id && e.message@ == "Unexpected number of RGB assignments: "@
                + digits(assignments@.len()))
        },
        answers(funding(Err(error)), temporary_channel_id, funding_txid, dir, r) ==> (r matches Some(
            Err(e),
        ) && e.channel_id == temporary_channel_id && e.message@ == refusal(failure(error))),
{
}

/// Handles the funding of a channel, given what accepting the transfer gave. None, where the
/// assignment funds no channel.
pub fn handle_funding(
    temporary_channel_id: &ChannelId,
    funding_txid: &str,
    ldk_data_dir: &FilePath,
    accept_res: Result<(RgbTransfer, Vec<Assignment>), RgbLibError>,
) -> (r: Option<Result<FundedChannel, FundingError>>)
    ensures
        match (funding(accept_res), r) {
            (
                FundingView::Funded { contract_id, schema, remote_rgb_amount },
                Some(Ok(channel)),
            ) => is_funded(
                channel,
                ldk_data_dir@,
                temporary_channel_id.0@,
                funding_txid@,
                contract_id,
                schema,
                remote_rgb_amount,
            ),
            (FundingView::Refused(message), Some(Err(e))) => e.message@ == message && e.channel_id
                == *temporary_channel_id,
            (FundingView::Stuck, None) => true,
            _ => false,
        },
        answers(
            funding(accept_res),
            *temporary_channel_id,
            funding_txid@,
            ldk_data_dir@,
            r,
        ),
{
    let (consignment, assignments): (RgbTransfer, Vec<Assignment>) = match accept_res {
        Ok(res) => res,
        Err(e) => {
            return Some(
                Err(
                    FundingError {
                        message: refusal_text(&e),
                        channel_id: *temporary_channel_id,
                    },
                ),
            );
        },
    };
    let name: String = temporary_channel_id.text();
    let by_txid: FilePath = path_of_consignment(ldk_data_dir, funding_txid);
    let by_channel: FilePath = path_of_consignment(ldk_data_dir, name.as_str());
    if assignments.len() != 1 {
        return Some(
            Err(
                FundingError {
                    message: join_two(
                        "Unexpected number of RGB assignments: ",
                        decimal(assignments.len() as u64).as_str(),
                    ),
                    channel_id: *temporary_channel_id,
                },
            ),
        );
    }
    let remote_rgb_amount: u64 = match assignments[0] {
        Assignment::Fungible(amount) => amount,
        Assignment::NonFungible => 1,
        _ => {
            return None;
        },
    };
    Some(
        Ok(
            FundedChannel {
                info: RgbInfo {
                    contract_id: consignment.contract_id(),
                    schema: consignment.asset_schema(),
                    local_rgb_amount: 0,
                    remote_rgb_amount,
                },
                pending_path: get_rgb_channel_info_path(name.as_str(), ldk_data_dir, true),
                path: get_rgb_channel_info_path(name.as_str(), ldk_data_dir, false),
                consignment_paths: (by_txid, by_channel),
            },
        ),
    )
}

/// A transfer that was accepted always funds its channel, with the contract and the schema that
/// the initiator names, and with all of the asset on the remote side.
pub proof fn law_accepted_funds(
    schema: AssetSchema,
    amount: u64,
    contract: Result<Seq<u8>, Seq<char>>,
)
    ensures
        accepted(schema, amount, contract) matches AcceptActionView::Finish(Ok(transfer)) ==> {
            &&& funding_of_transfer(transfer.contract_id, transfer.schema, transfer.assignments) == (
            FundingView::Funded {
                contract_id: transfer.contract_id,
                schema,
                remote_rgb_amount: if schema == AssetSchema::Uda {
                    1
                } else {
                    amount
                },
            })
            &&& contract == Ok::<Seq<u8>, Seq<char>>(transfer.contract_id)
        },
{
}

/// The files of a funded channel are the ones that are renamed when the channel gets its final
/// identifier.
pub proof fn law_funded_files_renamed(
    channel: FundedChannel,
    dir: PathView,
    temporary_channel_id: Seq<u8>,
    channel_id: Seq<u8>,
    funding_txid: Seq<char>,
    contract_id: Seq<u8>,
    schema: AssetSchema,
    amount: u64,
)
    requires
        is_funded(channel, dir, temporary_channel_id, funding_txid, contract_id, schema, amount),
    ensures
        renames(dir, lower_hex(temporary_channel_id), lower_hex(channel_id), true) == seq![
            (channel.path@, channel_path(dir, lower_hex(channel_id), false)),
            (channel.pending_path@, channel_path(dir, lower_hex(channel_id), true)),
            (channel.consignment_paths.1@, consignment_path(dir, lower_hex(channel_id))),
        ],
{
    assert(renames(dir, lower_hex(temporary_channel_id), lower_hex(channel_id), true) =~= seq![
        (channel.path@, channel_path(dir, lower_hex(channel_id), false)),
        (channel.pending_path@, channel_path(dir, lower_hex(channel_id), true)),
        (channel.consignment_paths.1@, consignment_path(dir, lower_hex(channel_id))),
    ]);
}

/// What funding comes to, case by case. One assignment of an amount funds the channel with that
/// amount, one unique asset with one unit. Any other single assignment funds none. No assignment, or
/// more than one, is refused with their number; and a transfer that was not accepted is refused.
pub proof fn law_funding(
    transfer: RgbTransfer,
    assignments: Vec<Assignment>,
    amount: u64,
    error: RgbLibError,
)
    ensures
        ({
            let answer = funding(Ok((transfer, assignments)));
            &&& assignments@ == seq![Assignment::Fungible(amount)] ==> answer == (
            FundingView::Funded {
                contract_id: transfer.contract_id@,
                schema: transfer.schema,
                remote_rgb_amount: amount,
            })
            &&& assignments@ == seq![Assignment::NonFungible] ==> answer == (FundingView::Funded {
                contract_id: transfer.contract_id@,
                schema: transfer.schema,
                remote_rgb_amount: 1,
            })
            &&& assignments@ == seq![Assignment::Any] ==> answer is Stuck
            &&& assignments@ == seq![Assignment::InflationRight(amount)] ==> answer is Stuck
            &&& assignments@ == seq![Assignment::ReplaceRight] ==> answer is Stuck
            &&& assignments@.len() != 1 ==> answer == FundingView::Refused(
                "Unexpected number of RGB assignments: "@ + digits(assignments@.len()),
            )
        }),
        funding(Err(error)) == FundingView::Refused(refusal(failure(error))),
{
}

/// What the peer is told of each failure.
pub proof fn law_refusal(text: Seq<char>, schema: AssetSchema)
    ensures
        refusal(Failure::InvalidConsignment) == "Invalid RGB consignment for funding"@,
        refusal(Failure::NoConsignment) == "Failed to find RGB consignment"@,
        refusal(Failure::UnknownRgbSchema(text)) == "Unknown RGB schema: "@ + text,
        refusal(Failure::UnsupportedSchema(schema)) == "Unsupported RGB schema: "@ + (
        match schema {
            AssetSchema::Nia => "NIA"@,
            AssetSchema::Uda => "UDA"@,
            AssetSchema::Cfa => "CFA"@,
            AssetSchema::Ifa => "IFA"@,
        }),
        refusal(Failure::Other(text)) == "Unexpected error: "@ + ("Other("@ + quoted_text(text)
            + ")"@),
        refusal(Failure::Rest(text)) == "Unexpected error: "@ + text,
{
}

/// A channel that is funded has nothing on the local side and all that came in on the remote one, so
/// that its sides add up to what came in. Its files carry its temporary identifier, its consignment
/// also the funding transaction's, and all stand in the node's directory.
pub proof fn law_funded_channel(
    channel: FundedChannel,
    dir: PathView,
    temporary_channel_id: Seq<u8>,
    funding_txid: Seq<char>,
    contract_id: Seq<u8>,
    schema: AssetSchema,
    amount: u64,
)
    requires
        temporary_channel_id.len() == 32,
        is_funded(channel, dir, temporary_channel_id, funding_txid, contract_id, schema, amount),
    ensures
        channel.info.contract_id.bytes@ == contract_id,
        channel.info.schema == schema,
        channel.info.local_rgb_amount == 0,
        channel.info.remote_rgb_amount == amount,
        channel.info.local_rgb_amount + channel.info.remote_rgb_amount == amount,
        channel.path@.file_name() == Some(lower_hex(temporary_channel_id)),
        channel.pending_path@.file_name() == Some(lower_hex(temporary_channel_id) + ".pending"@),
        channel.consignment_paths.1@.file_name() == Some(
            "consignment_"@ + lower_hex(temporary_channel_id),
        ),
        channel.consignment_paths.0@ == dir.join("consignment_"@ + funding_txid),
{
    law_renamed_files(dir, temporary_channel_id, temporary_channel_id, true);
    let r = renames(dir, lower_hex(temporary_channel_id), lower_hex(temporary_channel_id), true);
    assert(r[0].0 == channel.path@);
    assert(r[1].0 == channel.pending_path@);
    assert(r[2].0 == channel.consignment_paths.1@);
}

} // verus!
