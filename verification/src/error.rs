//! The errors of the wallet.

use vstd::prelude::*;

use crate::text::{decimal, digits, join_three, join_two};
use crate::types::AssetSchema;

verus! {

/// What can go wrong in the wallet.
#[derive(Debug)]
pub enum RgbLibError {
    InvalidConsignment,
    NoConsignment,
    UnknownRgbSchema { schema_id: String },
    UnsupportedSchema { asset_schema: AssetSchema },
    AllocationsAlreadyAvailable,
    AssetNotFound,
    BatchTransferNotFound,
    CannotEstimateFees,
    CannotFailBatchTransfer,
    EmptyFile,
    FailedBdkSync { details: String },
    FailedBroadcast { details: String },
    FailedIssuance { details: String },
    Inconsistency { details: String },
    Indexer { details: String },
    InsufficientAllocationSlots,
    InsufficientAssignments,
    InsufficientBitcoins { needed: u64, available: u64 },
    InvalidAddress { details: String },
    InvalidAmountZero,
    InvalidAssetID { asset_id: String },
    InvalidAssignment,
    InvalidAttachments { details: String },
    InvalidDetails { details: String },
    InvalidElectrum { details: String },
    InvalidEstimationBlocks,
    InvalidFeeRate { details: String },
    InvalidFilePath,
    InvalidIndexer { details: String },
    InvalidInvoice { details: String },
    InvalidName { details: String },
    InvalidPrecision { details: String },
    InvalidProxyProtocol { version: String },
    InvalidRecipientData { details: String },
    InvalidRecipientID,
    InvalidRecipientNetwork,
    InvalidTicker { details: String },
    InvalidTransportEndpoint { details: String },
    InvalidTransportEndpoints { details: String },
    MaxFeeExceeded { txid: String },
    MinFeeNotMet { txid: String },
    Network { details: String },
    NoIssuanceAmounts,
    NoValidTransportEndpoint,
    OutputBelowDustLimit,
    Proxy { details: String },
    RecipientIDAlreadyUsed,
    TooHighIssuanceAmounts,
    UnsupportedLayer1 { layer_1: String },
    UnsupportedTransportType,
    IO { details: String },
    Other(String),
}

/// What an error says, as far as callers tell errors apart.
pub enum Failure {
    InvalidConsignment,
    NoConsignment,
    UnknownRgbSchema(Seq<char>),
    UnsupportedSchema(AssetSchema),
    Other(Seq<char>),
    /// Any other error, by its text.
    Rest(Seq<char>),
}

/// What an error says.
pub open spec fn failure(error: RgbLibError) -> Failure {
    match error {
        RgbLibError::InvalidConsignment => Failure::InvalidConsignment,
        RgbLibError::NoConsignment => Failure::NoConsignment,
        RgbLibError::UnknownRgbSchema { schema_id } => Failure::UnknownRgbSchema(schema_id@),
        RgbLibError::UnsupportedSchema { asset_schema } => Failure::UnsupportedSchema(asset_schema),
        RgbLibError::Other(text) => Failure::Other(text@),
        _ => Failure::Rest(error_text(error)),
    }
}

/// A text in quotation marks, as `std` writes it for debugging.
pub uninterp spec fn quoted_text(text: Seq<char>) -> Seq<char>;

/// `std`'s `Debug` of a text: the text in quotation marks, with its special characters escaped.
/// What is written is given the name `quoted_text`.
#[verifier::external_body]
fn quoted(text: &str) -> (r: String)
    ensures
        r@ == quoted_text(text@),
{
    format!("{:?}", text)
}

/// The text of an error with one field.
pub open spec fn with_field(name: Seq<char>, field: Seq<char>, value: Seq<char>) -> Seq<char> {
    name + " { "@ + field + ": "@ + value + " }"@
}

/// The name of a schema's variant.
pub open spec fn schema_variant(schema: AssetSchema) -> Seq<char> {
    match schema {
        AssetSchema::Nia => "Nia"@,
        AssetSchema::Uda => "Uda"@,
        AssetSchema::Cfa => "Cfa"@,
        AssetSchema::Ifa => "Ifa"@,
    }
}

/// The text of an error: the variant's name, with the values that it carries.
pub open spec fn error_text(error: RgbLibError) -> Seq<char> {
    match error {
        RgbLibError::InvalidConsignment => "InvalidConsignment"@,
        RgbLibError::NoConsignment => "NoConsignment"@,
        RgbLibError::UnknownRgbSchema { schema_id } => with_field(
            "UnknownRgbSchema"@,
            "schema_id"@,
            quoted_text(schema_id@),
        ),
        RgbLibError::UnsupportedSchema { asset_schema } => with_field(
            "UnsupportedSchema"@,
            "asset_schema"@,
            schema_variant(asset_schema),
        ),
        RgbLibError::AllocationsAlreadyAvailable => "AllocationsAlreadyAvailable"@,
        RgbLibError::AssetNotFound => "AssetNotFound"@,
        RgbLibError::BatchTransferNotFound => "BatchTransferNotFound"@,
        RgbLibError::CannotEstimateFees => "CannotEstimateFees"@,
        RgbLibError::CannotFailBatchTransfer => "CannotFailBatchTransfer"@,
        RgbLibError::EmptyFile => "EmptyFile"@,
        RgbLibError::FailedBdkSync { details } => with_field(
            "FailedBdkSync"@,
            "details"@,
            quoted_text(details@),
        ),
        RgbLibError::FailedBroadcast { details } => with_field(
            "FailedBroadcast"@,
            "details"@,
            quoted_text(details@),
        ),
        RgbLibError::FailedIssuance { details } => with_field(
            "FailedIssuance"@,
            "details"@,
            quoted_text(details@),
        ),
        RgbLibError::Inconsistency { details } => with_field(
            "Inconsistency"@,
            "details"@,
            quoted_text(details@),
        ),
        RgbLibError::Indexer { details } => with_field(
            "Indexer"@,
            "details"@,
            quoted_text(details@),
        ),
        RgbLibError::InsufficientAllocationSlots => "InsufficientAllocationSlots"@,
        RgbLibError::InsufficientAssignments => "InsufficientAssignments"@,
        RgbLibError::InsufficientBitcoins { needed, available } => with_field(
            "InsufficientBitcoins"@,
            "needed"@,
            digits(needed as nat) + ", available: "@ + digits(available as nat),
        ),
        RgbLibError::InvalidAddress { details } => with_field(
            "InvalidAddress"@,
            "details"@,
            quoted_text(details@),
        ),
        RgbLibError::InvalidAmountZero => "InvalidAmountZero"@,
        RgbLibError::InvalidAssetID { asset_id } => with_field(
            "InvalidAssetID"@,
            "asset_id"@,
            quoted_text(asset_id@),
        ),
        RgbLibError::InvalidAssignment => "InvalidAssignment"@,
        RgbLibError::InvalidAttachments { details } => with_field(
            "InvalidAttachments"@,
            "details"@,
            quoted_text(details@),
        ),
        RgbLibError::InvalidDetails { details } => with_field(
            "InvalidDetails"@,
            "details"@,
            quoted_text(details@),
        ),
        RgbLibError::InvalidElectrum { details } => with_field(
            "InvalidElectrum"@,
            "details"@,
            quoted_text(details@),
        ),
        RgbLibError::InvalidEstimationBlocks => "InvalidEstimationBlocks"@,
        RgbLibError::InvalidFeeRate { details } => with_field(
            "InvalidFeeRate"@,
            "details"@,
            quoted_text(details@),
        ),
        RgbLibError::InvalidFilePath => "InvalidFilePath"@,
        RgbLibError::InvalidIndexer { details } => with_field(
            "InvalidIndexer"@,
            "details"@,
            quoted_text(details@),
        ),
        RgbLibError::InvalidInvoice { details } => with_field(
            "InvalidInvoice"@,
            "details"@,
            quoted_text(details@),
        ),
        RgbLibError::InvalidName { details } => with_field(
            "InvalidName"@,
            "details"@,
            quoted_text(details@),
        ),
        RgbLibError::InvalidPrecision { details } => with_field(
            "InvalidPrecision"@,
            "details"@,
            quoted_text(details@),
        ),
        RgbLibError::InvalidProxyProtocol { version } => with_field(
            "InvalidProxyProtocol"@,
            "version"@,
            quoted_text(version@),
        ),
        RgbLibError::InvalidRecipientData { details } => with_field(
            "InvalidRecipientData"@,
            "details"@,
            quoted_text(details@),
        ),
        RgbLibError::InvalidRecipientID => "InvalidRecipientID"@,
        RgbLibError::InvalidRecipientNetwork => "InvalidRecipientNetwork"@,
        RgbLibError::InvalidTicker { details } => with_field(
            "InvalidTicker"@,
            "details"@,
            quoted_text(details@),
        ),
        RgbLibError::InvalidTransportEndpoint { details } => with_field(
            "InvalidTransportEndpoint"@,
            "details"@,
            quoted_text(details@),
        ),
        RgbLibError::InvalidTransportEndpoints { details } => with_field(
            "InvalidTransportEndpoints"@,
            "details"@,
            quoted_text(details@),
        ),
        RgbLibError::MaxFeeExceeded { txid } => with_field(
            "MaxFeeExceeded"@,
            "txid"@,
            quoted_text(txid@),
        ),
        RgbLibError::MinFeeNotMet { txid } => with_field(
            "MinFeeNotMet"@,
            "txid"@,
            quoted_text(txid@),
        ),
        RgbLibError::Network { details } => with_field(
            "Network"@,
            "details"@,
            quoted_text(details@),
        ),
        RgbLibError::NoIssuanceAmounts => "NoIssuanceAmounts"@,
        RgbLibError::NoValidTransportEndpoint => "NoValidTransportEndpoint"@,
        RgbLibError::OutputBelowDustLimit => "OutputBelowDustLimit"@,
        RgbLibError::Proxy { details } => with_field(
            "Proxy"@,
            "details"@,
            quoted_text(details@),
        ),
        RgbLibError::RecipientIDAlreadyUsed => "RecipientIDAlreadyUsed"@,
        RgbLibError::TooHighIssuanceAmounts => "TooHighIssuanceAmounts"@,
        RgbLibError::UnsupportedLayer1 { layer_1 } => with_field(
            "UnsupportedLayer1"@,
            "layer_1"@,
            quoted_text(layer_1@),
        ),
        RgbLibError::UnsupportedTransportType => "UnsupportedTransportType"@,
        RgbLibError::IO { details } => with_field(
            "IO"@,
            "details"@,
            quoted_text(details@),
        ),
        RgbLibError::Other(text) => "Other("@ + quoted_text(text@) + ")"@,
    }
}

/// The text of an error, from what it says.
pub open spec fn failure_text(failure: Failure) -> Seq<char> {
    match failure {
        Failure::InvalidConsignment => "InvalidConsignment"@,
        Failure::NoConsignment => "NoConsignment"@,
        Failure::UnknownRgbSchema(schema_id) => with_field(
            "UnknownRgbSchema"@,
            "schema_id"@,
            quoted_text(schema_id),
        ),
        Failure::UnsupportedSchema(schema) => with_field(
            "UnsupportedSchema"@,
            "asset_schema"@,
            schema_variant(schema),
        ),
        Failure::Other(text) => "Other("@ + quoted_text(text) + ")"@,
        Failure::Rest(text) => text,
    }
}

/// What an error says decides its text.
pub proof fn law_failure_text(error: RgbLibError)
    ensures
        failure_text(failure(error)) == error_text(error),
{
}

/// The text of an error with one field.
fn join_field(name: &str, field: &str, value: &str) -> (r: String)
    ensures
        r@ == with_field(name@, field@, value@),
{
    let mut r: String = join_three(name, " { ", field);
    r.append(": ");
    r.append(value);
    r.append(" }");
    r
}

/// The text of an error with one text.
fn join_text(name: &str, field: &str, value: &String) -> (r: String)
    ensures
        r@ == with_field(name@, field@, quoted_text(value@)),
{
    join_field(name, field, quoted(value.as_str()).as_str())
}

/// The name of a schema's variant.
fn variant_of_schema(schema: &AssetSchema) -> (r: &'static str)
    ensures
        r@ == schema_variant(*schema),
{
    match schema {
        AssetSchema::Nia => "Nia",
        AssetSchema::Uda => "Uda",
        AssetSchema::Cfa => "Cfa",
        AssetSchema::Ifa => "Ifa",
    }
}

impl RgbLibError {
    /// The text of the error.
    pub fn text(&self) -> (r: String)
        ensures
            r@ == error_text(*self),
    {
        match self {
            RgbLibError::InvalidConsignment => "InvalidConsignment".to_owned(),
            RgbLibError::NoConsignment => "NoConsignment".to_owned(),
            RgbLibError::UnknownRgbSchema { schema_id } => join_text(
                "UnknownRgbSchema",
                "schema_id",
                schema_id,
            ),
            RgbLibError::UnsupportedSchema { asset_schema } => join_field(
                "UnsupportedSchema",
                "asset_schema",
                variant_of_schema(asset_schema),
            ),
            RgbLibError::AllocationsAlreadyAvailable => "AllocationsAlreadyAvailable".to_owned(),
            RgbLibError::AssetNotFound => "AssetNotFound".to_owned(),
            RgbLibError::BatchTransferNotFound => "BatchTransferNotFound".to_owned(),
            RgbLibError::CannotEstimateFees => "CannotEstimateFees".to_owned(),
            RgbLibError::CannotFailBatchTransfer => "CannotFailBatchTransfer".to_owned(),
            RgbLibError::EmptyFile => "EmptyFile".to_owned(),
            RgbLibError::FailedBdkSync { details } => join_text(
                "FailedBdkSync",
                "details",
                details,
            ),
            RgbLibError::FailedBroadcast { details } => join_text(
                "FailedBroadcast",
                "details",
                details,
            ),
            RgbLibError::FailedIssuance { details } => join_text(
                "FailedIssuance",
                "details",
                details,
            ),
            RgbLibError::Inconsistency { details } => join_text(
                "Inconsistency",
                "details",
                details,
            ),
            RgbLibError::Indexer { details } => join_text("Indexer", "details", details),
            RgbLibError::InsufficientAllocationSlots => "InsufficientAllocationSlots".to_owned(),
            RgbLibError::InsufficientAssignments => "InsufficientAssignments".to_owned(),
            RgbLibError::InsufficientBitcoins { needed, available } => join_field(
                "InsufficientBitcoins",
                "needed",
                join_three(
                    decimal(*needed).as_str(),
                    ", available: ",
                    decimal(*available).as_str(),
                ).as_str(),
            ),
            RgbLibError::InvalidAddress { details } => join_text(
                "InvalidAddress",
                "details",
                details,
            ),
            RgbLibError::InvalidAmountZero => "InvalidAmountZero".to_owned(),
            RgbLibError::InvalidAssetID { asset_id } => join_text(
                "InvalidAssetID",
                "asset_id",
                asset_id,
            ),
            RgbLibError::InvalidAssignment => "InvalidAssignment".to_owned(),
            RgbLibError::InvalidAttachments { details } => join_text(
                "InvalidAttachments",
                "details",
                details,
            ),
            RgbLibError::InvalidDetails { details } => join_text(
                "InvalidDetails",
                "details",
                details,
            ),
            RgbLibError::InvalidElectrum { details } => join_text(
                "InvalidElectrum",
                "details",
                details,
            ),
            RgbLibError::InvalidEstimationBlocks => "InvalidEstimationBlocks".to_owned(),
            RgbLibError::InvalidFeeRate { details } => join_text(
                "InvalidFeeRate",
                "details",
                details,
            ),
            RgbLibError::InvalidFilePath => "InvalidFilePath".to_owned(),
            RgbLibError::InvalidIndexer { details } => join_text(
                "InvalidIndexer",
                "details",
                details,
            ),
            RgbLibError::InvalidInvoice { details } => join_text(
                "InvalidInvoice",
                "details",
                details,
            ),
            RgbLibError::InvalidName { details } => join_text("InvalidName", "details", details),
            RgbLibError::InvalidPrecision { details } => join_text(
                "InvalidPrecision",
                "details",
                details,
            ),
            RgbLibError::InvalidProxyProtocol { version } => join_text(
                "InvalidProxyProtocol",
                "version",
                version,
            ),
            RgbLibError::InvalidRecipientData { details } => join_text(
                "InvalidRecipientData",
                "details",
                details,
            ),
            RgbLibError::InvalidRecipientID => "InvalidRecipientID".to_owned(),
            RgbLibError::InvalidRecipientNetwork => "InvalidRecipientNetwork".to_owned(),
            RgbLibError::InvalidTicker { details } => join_text(
                "InvalidTicker",
                "details",
                details,
            ),
            RgbLibError::InvalidTransportEndpoint { details } => join_text(
                "InvalidTransportEndpoint",
                "details",
                details,
            ),
            RgbLibError::InvalidTransportEndpoints { details } => join_text(
                "InvalidTransportEndpoints",
                "details",
                details,
            ),
            RgbLibError::MaxFeeExceeded { txid } => join_text("MaxFeeExceeded", "txid", txid),
            RgbLibError::MinFeeNotMet { txid } => join_text("MinFeeNotMet", "txid", txid),
            RgbLibError::Network { details } => join_text("Network", "details", details),
            RgbLibError::NoIssuanceAmounts => "NoIssuanceAmounts".to_owned(),
            RgbLibError::NoValidTransportEndpoint => "NoValidTransportEndpoint".to_owned(),
            RgbLibError::OutputBelowDustLimit => "OutputBelowDustLimit".to_owned(),
            RgbLibError::Proxy { details } => join_text("Proxy", "details", details),
            RgbLibError::RecipientIDAlreadyUsed => "RecipientIDAlreadyUsed".to_owned(),
            RgbLibError::TooHighIssuanceAmounts => "TooHighIssuanceAmounts".to_owned(),
            RgbLibError::UnsupportedLayer1 { layer_1 } => join_text(
                "UnsupportedLayer1",
                "layer_1",
                layer_1,
            ),
            RgbLibError::UnsupportedTransportType => "UnsupportedTransportType".to_owned(),
            RgbLibError::IO { details } => join_text("IO", "details", details),
            RgbLibError::Other(text) => join_three("Other(", quoted(text.as_str()).as_str(), ")"),
        }
    }
}

/// The error that carries a message.
pub(crate) fn other(text: String) -> (r: RgbLibError)
    ensures
        failure(r) == Failure::Other(text@),
{
    RgbLibError::Other(text)
}

/// The error that carries a message with a detail behind it.
pub(crate) fn other_with(text: &str, detail: &str) -> (r: RgbLibError)
    ensures
        failure(r) == Failure::Other(text@ + detail@),
{
    RgbLibError::Other(join_two(text, detail))
}

/// An error that carries nothing is told by its name.
pub proof fn law_plain_errors(error: RgbLibError)
    ensures
        error is InvalidConsignment ==> error_text(error) == "InvalidConsignment"@,
        error is NoConsignment ==> error_text(error) == "NoConsignment"@,
        error is AllocationsAlreadyAvailable ==> error_text(error) == "AllocationsAlreadyAvailable"@,
        error is AssetNotFound ==> error_text(error) == "AssetNotFound"@,
        error is BatchTransferNotFound ==> error_text(error) == "BatchTransferNotFound"@,
        error is CannotEstimateFees ==> error_text(error) == "CannotEstimateFees"@,
        error is CannotFailBatchTransfer ==> error_text(error) == "CannotFailBatchTransfer"@,
        error is EmptyFile ==> error_text(error) == "EmptyFile"@,
        error is InsufficientAllocationSlots ==> error_text(error) == "InsufficientAllocationSlots"@,
        error is InsufficientAssignments ==> error_text(error) == "InsufficientAssignments"@,
        error is InvalidAmountZero ==> error_text(error) == "InvalidAmountZero"@,
        error is InvalidAssignment ==> error_text(error) == "InvalidAssignment"@,
        error is InvalidEstimationBlocks ==> error_text(error) == "InvalidEstimationBlocks"@,
        error is InvalidFilePath ==> error_text(error) == "InvalidFilePath"@,
        error is InvalidRecipientID ==> error_text(error) == "InvalidRecipientID"@,
        error is InvalidRecipientNetwork ==> error_text(error) == "InvalidRecipientNetwork"@,
        error is NoIssuanceAmounts ==> error_text(error) == "NoIssuanceAmounts"@,
        error is NoValidTransportEndpoint ==> error_text(error) == "NoValidTransportEndpoint"@,
        error is OutputBelowDustLimit ==> error_text(error) == "OutputBelowDustLimit"@,
        error is RecipientIDAlreadyUsed ==> error_text(error) == "RecipientIDAlreadyUsed"@,
        error is TooHighIssuanceAmounts ==> error_text(error) == "TooHighIssuanceAmounts"@,
        error is UnsupportedTransportType ==> error_text(error) == "UnsupportedTransportType"@,
{
}

/// An error with one field in the form of a record: what stands before the value, the value, and
/// the end.
proof fn lemma_record(name: Seq<char>, field: Seq<char>, head: Seq<char>, value: Seq<char>)
    requires
        name + " { "@ + field + ": "@ =~= head,
    ensures
        with_field(name, field, value) == head + value + " }"@,
{
}

/// An error that carries a text is told by its name and the field, with the text quoted.
pub proof fn law_detailed_errors(text: String)
    ensures
        error_text(RgbLibError::UnknownRgbSchema { schema_id: text }) == "UnknownRgbSchema { schema_id: "@ + quoted_text(text@) + " }"@,
        error_text(RgbLibError::FailedBdkSync { details: text }) == "FailedBdkSync { details: "@ + quoted_text(text@) + " }"@,
        error_text(RgbLibError::FailedBroadcast { details: text }) == "FailedBroadcast { details: "@ + quoted_text(text@) + " }"@,
        error_text(RgbLibError::FailedIssuance { details: text }) == "FailedIssuance { details: "@ + quoted_text(text@) + " }"@,
        error_text(RgbLibError::Inconsistency { details: text }) == "Inconsistency { details: "@ + quoted_text(text@) + " }"@,
        error_text(RgbLibError::Indexer { details: text }) == "Indexer { details: "@ + quoted_text(text@) + " }"@,
        error_text(RgbLibError::InvalidAddress { details: text }) == "InvalidAddress { details: "@ + quoted_text(text@) + " }"@,
        error_text(RgbLibError::InvalidAssetID { asset_id: text }) == "InvalidAssetID { asset_id: "@ + quoted_text(text@) + " }"@,
        error_text(RgbLibError::InvalidAttachments { details: text }) == "InvalidAttachments { details: "@ + quoted_text(text@) + " }"@,
{
    reveal_strlit(" { ");
    reveal_strlit(": ");
    reveal_strlit("asset_id");
    reveal_strlit("details");
    reveal_strlit("schema_id");
    reveal_strlit("UnknownRgbSchema");
    reveal_strlit("UnknownRgbSchema { schema_id: ");
    lemma_record("UnknownRgbSchema"@, "schema_id"@, "UnknownRgbSchema { schema_id: "@, quoted_text(text@));
    reveal_strlit("FailedBdkSync");
    reveal_strlit("FailedBdkSync { details: ");
    lemma_record("FailedBdkSync"@, "details"@, "FailedBdkSync { details: "@, quoted_text(text@));
    reveal_strlit("FailedBroadcast");
    reveal_strlit("FailedBroadcast { details: ");
    lemma_record("FailedBroadcast"@, "details"@, "FailedBroadcast { details: "@, quoted_text(text@));
    reveal_strlit("FailedIssuance");
    reveal_strlit("FailedIssuance { details: ");
    lemma_record("FailedIssuance"@, "details"@, "FailedIssuance { details: "@, quoted_text(text@));
    reveal_strlit("Inconsistency");
    reveal_strlit("Inconsistency { details: ");
    lemma_record("Inconsistency"@, "details"@, "Inconsistency { details: "@, quoted_text(text@));
    reveal_strlit("Indexer");
    reveal_strlit("Indexer { details: ");
    lemma_record("Indexer"@, "details"@, "Indexer { details: "@, quoted_text(text@));
    reveal_strlit("InvalidAddress");
    reveal_strlit("InvalidAddress { details: ");
    lemma_record("InvalidAddress"@, "details"@, "InvalidAddress { details: "@, quoted_text(text@));
    reveal_strlit("InvalidAssetID");
    reveal_strlit("InvalidAssetID { asset_id: ");
    lemma_record("InvalidAssetID"@, "asset_id"@, "InvalidAssetID { asset_id: "@, quoted_text(text@));
    reveal_strlit("InvalidAttachments");
    reveal_strlit("InvalidAttachments { details: ");
    lemma_record("InvalidAttachments"@, "details"@, "InvalidAttachments { details: "@, quoted_text(text@));
}

/// Further errors that carry a text are told by their name and the field, with the text quoted.
pub proof fn law_further_errors(text: String)
    ensures
        error_text(RgbLibError::InvalidDetails { details: text }) == "InvalidDetails { details: "@ + quoted_text(text@) + " }"@,
        error_text(RgbLibError::InvalidElectrum { details: text }) == "InvalidElectrum { details: "@ + quoted_text(text@) + " }"@,
        error_text(RgbLibError::InvalidFeeRate { details: text }) == "InvalidFeeRate { details: "@ + quoted_text(text@) + " }"@,
        error_text(RgbLibError::InvalidIndexer { details: text }) == "InvalidIndexer { details: "@ + quoted_text(text@) + " }"@,
        error_text(RgbLibError::InvalidInvoice { details: text }) == "InvalidInvoice { details: "@ + quoted_text(text@) + " }"@,
        error_text(RgbLibError::InvalidName { details: text }) == "InvalidName { details: "@ + quoted_text(text@) + " }"@,
        error_text(RgbLibError::InvalidPrecision { details: text }) == "InvalidPrecision { details: "@ + quoted_text(text@) + " }"@,
        error_text(RgbLibError::InvalidProxyProtocol { version: text }) == "InvalidProxyProtocol { version: "@ + quoted_text(text@) + " }"@,
        error_text(RgbLibError::InvalidRecipientData { details: text }) == "InvalidRecipientData { details: "@ + quoted_text(text@) + " }"@,
{
    reveal_strlit(" { ");
    reveal_strlit(": ");
    reveal_strlit("details");
    reveal_strlit("version");
    reveal_strlit("InvalidDetails");
    reveal_strlit("InvalidDetails { details: ");
    lemma_record("InvalidDetails"@, "details"@, "InvalidDetails { details: "@, quoted_text(text@));
    reveal_strlit("InvalidElectrum");
    reveal_strlit("InvalidElectrum { details: ");
    lemma_record("InvalidElectrum"@, "details"@, "InvalidElectrum { details: "@, quoted_text(text@));
    reveal_strlit("InvalidFeeRate");
    reveal_strlit("InvalidFeeRate { details: ");
    lemma_record("InvalidFeeRate"@, "details"@, "InvalidFeeRate { details: "@, quoted_text(text@));
    reveal_strlit("InvalidIndexer");
    reveal_strlit("InvalidIndexer { details: ");
    lemma_record("InvalidIndexer"@, "details"@, "InvalidIndexer { details: "@, quoted_text(text@));
    reveal_strlit("InvalidInvoice");
    reveal_strlit("InvalidInvoice { details: ");
    lemma_record("InvalidInvoice"@, "details"@, "InvalidInvoice { details: "@, quoted_text(text@));
    reveal_strlit("InvalidName");
    reveal_strlit("InvalidName { details: ");
    lemma_record("InvalidName"@, "details"@, "InvalidName { details: "@, quoted_text(text@));
    reveal_strlit("InvalidPrecision");
    reveal_strlit("InvalidPrecision { details: ");
    lemma_record("InvalidPrecision"@, "details"@, "InvalidPrecision { details: "@, quoted_text(text@));
    reveal_strlit("InvalidProxyProtocol");
    reveal_strlit("InvalidProxyProtocol { version: ");
    lemma_record("InvalidProxyProtocol"@, "version"@, "InvalidProxyProtocol { version: "@, quoted_text(text@));
    reveal_strlit("InvalidRecipientData");
    reveal_strlit("InvalidRecipientData { details: ");
    lemma_record("InvalidRecipientData"@, "details"@, "InvalidRecipientData { details: "@, quoted_text(text@));
}

/// The remaining errors that carry a text are told by their name and the field, with the text
/// quoted.
pub proof fn law_remaining_errors(text: String)
    ensures
        error_text(RgbLibError::InvalidTicker { details: text }) == "InvalidTicker { details: "@ + quoted_text(text@) + " }"@,
        error_text(RgbLibError::InvalidTransportEndpoint { details: text }) == "InvalidTransportEndpoint { details: "@ + quoted_text(text@) + " }"@,
        error_text(RgbLibError::InvalidTransportEndpoints { details: text }) == "InvalidTransportEndpoints { details: "@ + quoted_text(text@) + " }"@,
        error_text(RgbLibError::MaxFeeExceeded { txid: text }) == "MaxFeeExceeded { txid: "@ + quoted_text(text@) + " }"@,
        error_text(RgbLibError::MinFeeNotMet { txid: text }) == "MinFeeNotMet { txid: "@ + quoted_text(text@) + " }"@,
        error_text(RgbLibError::Network { details: text }) == "Network { details: "@ + quoted_text(text@) + " }"@,
        error_text(RgbLibError::Proxy { details: text }) == "Proxy { details: "@ + quoted_text(text@) + " }"@,
        error_text(RgbLibError::UnsupportedLayer1 { layer_1: text }) == "UnsupportedLayer1 { layer_1: "@ + quoted_text(text@) + " }"@,
        error_text(RgbLibError::IO { details: text }) == "IO { details: "@ + quoted_text(text@) + " }"@,
{
    reveal_strlit(" { ");
    reveal_strlit(": ");
    reveal_strlit("details");
    reveal_strlit("layer_1");
    reveal_strlit("txid");
    reveal_strlit("InvalidTicker");
    reveal_strlit("InvalidTicker { details: ");
    lemma_record("InvalidTicker"@, "details"@, "InvalidTicker { details: "@, quoted_text(text@));
    reveal_strlit("InvalidTransportEndpoint");
    reveal_strlit("InvalidTransportEndpoint { details: ");
    lemma_record("InvalidTransportEndpoint"@, "details"@, "InvalidTransportEndpoint { details: "@, quoted_text(text@));
    reveal_strlit("InvalidTransportEndpoints");
    reveal_strlit("InvalidTransportEndpoints { details: ");
    lemma_record("InvalidTransportEndpoints"@, "details"@, "InvalidTransportEndpoints { details: "@, quoted_text(text@));
    reveal_strlit("MaxFeeExceeded");
    reveal_strlit("MaxFeeExceeded { txid: ");
    lemma_record("MaxFeeExceeded"@, "txid"@, "MaxFeeExceeded { txid: "@, quoted_text(text@));
    reveal_strlit("MinFeeNotMet");
    reveal_strlit("MinFeeNotMet { txid: ");
    lemma_record("MinFeeNotMet"@, "txid"@, "MinFeeNotMet { txid: "@, quoted_text(text@));
    reveal_strlit("Network");
    reveal_strlit("Network { details: ");
    lemma_record("Network"@, "details"@, "Network { details: "@, quoted_text(text@));
    reveal_strlit("Proxy");
    reveal_strlit("Proxy { details: ");
    lemma_record("Proxy"@, "details"@, "Proxy { details: "@, quoted_text(text@));
    reveal_strlit("UnsupportedLayer1");
    reveal_strlit("UnsupportedLayer1 { layer_1: ");
    lemma_record("UnsupportedLayer1"@, "layer_1"@, "UnsupportedLayer1 { layer_1: "@, quoted_text(text@));
    reveal_strlit("IO");
    reveal_strlit("IO { details: ");
    lemma_record("IO"@, "details"@, "IO { details: "@, quoted_text(text@));
}

/// The errors that carry something else: a schema by its variant, amounts in digits, and any text
/// in brackets.
pub proof fn law_other_errors(schema: AssetSchema, needed: u64, available: u64, text: String)
    ensures
        error_text(RgbLibError::UnsupportedSchema { asset_schema: schema })
            == "UnsupportedSchema { asset_schema: "@ + (match schema {
            AssetSchema::Nia => "Nia"@,
            AssetSchema::Uda => "Uda"@,
            AssetSchema::Cfa => "Cfa"@,
            AssetSchema::Ifa => "Ifa"@,
        }) + " }"@,
        error_text(RgbLibError::InsufficientBitcoins { needed, available })
            == "InsufficientBitcoins { needed: "@ + digits(needed as nat) + ", available: "@
            + digits(available as nat) + " }"@,
        error_text(RgbLibError::Other(text)) == "Other("@ + quoted_text(text@) + ")"@,
        failure(RgbLibError::Other(text)) == Failure::Other(text@),
        failure(RgbLibError::InvalidConsignment) is InvalidConsignment,
        failure(RgbLibError::NoConsignment) is NoConsignment,
        failure(RgbLibError::UnknownRgbSchema { schema_id: text }) == Failure::UnknownRgbSchema(
            text@,
        ),
        failure(RgbLibError::UnsupportedSchema { asset_schema: schema })
            == Failure::UnsupportedSchema(schema),
{
    reveal_strlit(" { ");
    reveal_strlit(": ");
    reveal_strlit("asset_schema");
    reveal_strlit("needed");
    reveal_strlit("UnsupportedSchema");
    reveal_strlit("UnsupportedSchema { asset_schema: ");
    reveal_strlit("InsufficientBitcoins");
    reveal_strlit("InsufficientBitcoins { needed: ");
    lemma_record(
        "UnsupportedSchema"@,
        "asset_schema"@,
        "UnsupportedSchema { asset_schema: "@,
        schema_variant(schema),
    );
    let amounts = digits(needed as nat) + ", available: "@ + digits(available as nat);
    lemma_record("InsufficientBitcoins"@, "needed"@, "InsufficientBitcoins { needed: "@, amounts);
    let head = "InsufficientBitcoins { needed: "@;
    assert(head + amounts + " }"@ =~= head + digits(needed as nat) + ", available: "@ + digits(
        available as nat,
    ) + " }"@);
}

} // verus!
