//! The data that the wallet hands out and takes.

use std::collections::HashMap;
use vstd::prelude::*;

use crate::chain::TxOut;
use crate::contract::ContractId;
use crate::error::{failure, Failure, RgbLibError};
use crate::network::BitcoinNetwork;
use crate::path::FilePath;
use crate::text::{decimal, digits, join_three};
use crate::transport::TransportEndpoint;

verus! {

/// The schema of an asset.
#[derive(Debug, Clone, Copy, PartialEq, Eq, Structural)]
pub enum AssetSchema {
    /// Non-inflatable asset.
    Nia,
    /// Unique digital asset.
    Uda,
    /// Collectible fungible asset.
    Cfa,
    /// Inflatable fungible asset.
    Ifa,
}

/// The name of a schema.
pub open spec fn schema_name(schema: AssetSchema) -> Seq<char> {
    match schema {
        AssetSchema::Nia => "NIA"@,
        AssetSchema::Uda => "UDA"@,
        AssetSchema::Cfa => "CFA"@,
        AssetSchema::Ifa => "IFA"@,
    }
}

impl AssetSchema {
    /// The schema with an identifier: every identifier stands for the non-inflatable asset.
    pub fn from_schema_id(_schema_id: String) -> (r: Result<Self, RgbLibError>)
        ensures
            r == Ok::<AssetSchema, RgbLibError>(AssetSchema::Nia),
    {
        Ok(AssetSchema::Nia)
    }

    /// The name of the schema.
    pub fn text(&self) -> (r: String)
        ensures
            r@ == schema_name(*self),
    {
        match self {
            AssetSchema::Nia => "NIA".to_owned(),
            AssetSchema::Uda => "UDA".to_owned(),
            AssetSchema::Cfa => "CFA".to_owned(),
            AssetSchema::Ifa => "IFA".to_owned(),
        }
    }
}

/// What a recipient is assigned.
#[derive(Debug, Clone, Copy, PartialEq, Eq, Structural)]
pub enum Assignment {
    Fungible(u64),
    NonFungible,
    Any,
    InflationRight(u64),
    ReplaceRight,
}

/// How far the transaction of a witness is.
#[derive(Debug, Clone, Copy, PartialEq, Eq, Structural)]
pub enum WitnessOrd {
    Ignored,
    OffChain,
    OnChain(u64),
    Tentative,
}

/// What a transfer can be extended by.
pub trait ConsignmentExt {

}

/// The content of a file.
#[derive(Debug, Clone)]
pub struct FileContent;

/// The changes that a colored transaction makes to the state.
#[derive(Debug, Clone)]
pub struct Fascia;

/// The transfer of an asset.
#[derive(Debug, Clone)]
pub struct RgbTransfer {
    pub contract_id: ContractId,
    pub schema: AssetSchema,
}

/// The identifier of a schema.
pub open spec fn schema_id_of(schema: AssetSchema) -> Seq<char> {
    match schema {
        AssetSchema::Nia => "nia"@,
        AssetSchema::Uda => "uda"@,
        AssetSchema::Cfa => "cfa"@,
        AssetSchema::Ifa => "ifa"@,
    }
}

impl RgbTransfer {
    /// The transfer of the asset of a contract.
    pub fn new(contract_id: ContractId, schema: AssetSchema) -> (r: Self)
        ensures
            r.contract_id == contract_id,
            r.schema == schema,
    {
        Self { contract_id, schema }
    }

    /// Saves the transfer. Nothing is written, since no file is needed to settle it.
    pub fn save_file(&self, _path: &FilePath) -> (r: Result<(), RgbLibError>)
        ensures
            r is Ok,
    {
        Ok(())
    }

    /// Loads a transfer. There are no files of transfers.
    pub fn load_file(_path: FilePath) -> (r: Result<Self, RgbLibError>)
        ensures
            r matches Err(e) && failure(e) == Failure::Other("Not implemented"@),
    {
        Err(RgbLibError::Other("Not implemented".to_owned()))
    }

    /// The contract of the asset.
    pub fn contract_id(&self) -> (r: ContractId)
        ensures
            r == self.contract_id,
    {
        self.contract_id
    }

    /// The identifier of the asset's schema.
    pub fn schema_id(&self) -> (r: String)
        ensures
            r@ == schema_id_of(self.schema),
    {
        match self.schema {
            AssetSchema::Nia => "nia".to_owned(),
            AssetSchema::Uda => "uda".to_owned(),
            AssetSchema::Cfa => "cfa".to_owned(),
            AssetSchema::Ifa => "ifa".to_owned(),
        }
    }

    /// The schema of the asset.
    pub fn asset_schema(&self) -> (r: AssetSchema)
        ensures
            r == self.schema,
    {
        self.schema
    }
}

/// A collectible fungible asset.
#[derive(Debug, Clone)]
pub struct AssetCFA {
    pub asset_id: String,
    pub added_at: i64,
    pub balance: Balance,
    pub details: Option<String>,
    pub issued_supply: u64,
    pub ticker: String,
    pub name: String,
    pub precision: u8,
    pub timestamp: i64,
    pub media: Option<Media>,
}

/// A non-inflatable asset.
#[derive(Debug, Clone)]
pub struct AssetNIA {
    pub asset_id: String,
    pub added_at: i64,
    pub balance: Balance,
    pub details: Option<String>,
    pub issued_supply: u64,
    pub ticker: String,
    pub name: String,
    pub precision: u8,
    pub timestamp: i64,
    pub media: Option<Media>,
}

/// A unique digital asset.
#[derive(Debug, Clone)]
pub struct AssetUDA {
    pub asset_id: String,
    pub added_at: i64,
    pub balance: Balance,
    pub details: Option<String>,
    pub media_idx: Option<u32>,
    pub ticker: String,
    pub name: String,
    pub precision: u8,
    pub timestamp: i64,
    pub token: Option<TokenLight>,
}

/// The assets of a wallet, by schema.
#[derive(Debug, Clone)]
pub struct Assets {
    pub nia: Option<Vec<AssetNIA>>,
    pub cfa: Option<Vec<AssetCFA>>,
    pub uda: Option<Vec<AssetUDA>>,
}

/// A balance.
#[derive(Debug, Clone, Copy)]
pub struct Balance {
    pub settled: u64,
    pub future: u64,
    pub spendable: u64,
}

/// The bitcoin of a wallet.
#[derive(Debug, Clone)]
pub struct BtcBalance {
    pub vanilla: Balance,
    pub colored: Balance,
}

/// What is known of an asset.
#[derive(Debug, Clone)]
pub struct Metadata {
    pub asset_iface: String,
    pub asset_schema: AssetSchema,
    pub issued_supply: u64,
    pub timestamp: i64,
    pub name: String,
    pub precision: u8,
    pub ticker: Option<String>,
    pub details: Option<String>,
    pub initial_supply: u64,
    pub max_supply: u64,
    pub known_circulating_supply: u64,
    pub token: Option<Token>,
}

/// A wallet that is online.
#[derive(Debug, Clone)]
pub struct Online;

/// The outcome of an operation.
#[derive(Debug, Clone)]
pub struct OperationResult {
    pub txid: String,
}

/// How to sign.
#[derive(Debug, Clone)]
pub struct SignOptions;

/// What a sender needs to know.
#[derive(Debug, Clone)]
pub struct ReceiveData {
    pub recipient_id: String,
    pub invoice: String,
    pub expiration_timestamp: Option<i64>,
    pub batch_transfer_idx: i32,
}

/// The recipient of a transfer.
#[derive(Debug, Clone)]
pub struct Recipient {
    pub recipient_id: String,
    pub witness_data: Option<WitnessData>,
    pub assignment: Assignment,
    pub transport_endpoints: Vec<String>,
}

impl Recipient {
    /// A recipient.
    pub fn new(
        recipient_id: String,
        witness_data: Option<WitnessData>,
        assignment: Assignment,
        transport_endpoints: Vec<String>,
    ) -> (r: Self)
        ensures
            r.recipient_id == recipient_id,
            r.witness_data == witness_data,
            r.assignment == assignment,
            r.transport_endpoints == transport_endpoints,
    {
        Self { recipient_id, witness_data, assignment, transport_endpoints }
    }
}

/// What an invoice says of its recipient.
#[derive(Debug, Clone)]
pub struct RecipientInfo {
    pub recipient_id: String,
    pub recipient_type: RecipientType,
    pub asset_schema: Option<AssetSchema>,
    pub asset_id: Option<String>,
    pub assignment: Assignment,
    pub network: BitcoinNetwork,
    pub expiration_timestamp: Option<i64>,
    pub transport_endpoints: Vec<String>,
}

/// Whether an invoice says nothing but who the recipient is.
pub open spec fn names_only(info: RecipientInfo, recipient_id: Seq<char>) -> bool {
    &&& info.recipient_id@ == recipient_id
    &&& info.recipient_type == RecipientType::Blind
    &&& info.asset_schema is None
    &&& info.asset_id is None
    &&& info.assignment == Assignment::Any
    &&& info.network == BitcoinNetwork::Regtest
    &&& info.expiration_timestamp is None
    &&& info.transport_endpoints@.len() == 0
}

impl RecipientInfo {
    /// What is known of a recipient by its identifier alone.
    pub fn new(recipient_id: String) -> (r: Result<Self, RgbLibError>)
        ensures
            r matches Ok(info) && names_only(info, recipient_id@),
    {
        Ok(
            Self {
                recipient_id,
                recipient_type: RecipientType::Blind,
                asset_schema: None,
                asset_id: None,
                assignment: Assignment::Any,
                network: BitcoinNetwork::Regtest,
                expiration_timestamp: None,
                transport_endpoints: Vec::new(),
            },
        )
    }
}

/// What a refresh changed.
#[derive(Debug, Clone)]
pub struct RefreshResult {
    pub new: Vec<String>,
    pub updated: Vec<String>,
}

/// Media inside a token.
#[derive(Debug, Clone)]
pub struct EmbeddedMedia {
    pub ty: String,
    pub data: Vec<u8>,
    pub mime: String,
}

/// An invoice.
#[derive(Debug, Clone)]
pub struct Invoice {
    pub invoice_data: String,
}

impl Invoice {
    /// An invoice.
    pub fn new(invoice_data: String) -> (r: Result<Self, RgbLibError>)
        ensures
            r matches Ok(invoice) && invoice.invoice_data == invoice_data,
    {
        Ok(Self { invoice_data })
    }

    /// What the invoice says of its recipient: nothing, so far.
    pub fn invoice_data(&self) -> (r: RecipientInfo)
        ensures
            names_only(r, Seq::empty()),
    {
        RecipientInfo {
            recipient_id: String::new(),
            recipient_type: RecipientType::Blind,
            asset_schema: None,
            asset_id: None,
            assignment: Assignment::Any,
            network: BitcoinNetwork::Regtest,
            expiration_timestamp: None,
            transport_endpoints: Vec::new(),
        }
    }
}

/// A media file.
#[derive(Debug, Clone)]
pub struct Media {
    pub digest: String,
    pub mime: String,
    pub file_path: String,
}

/// A proof of reserves.
#[derive(Debug, Clone)]
pub struct ProofOfReserves {
    pub message: String,
    pub utxos: Vec<String>,
    pub utxo: String,
    pub proof: Vec<u8>,
}

/// How a recipient receives.
#[derive(Debug, Clone, PartialEq, Eq, Structural)]
pub enum RecipientType {
    Blind,
    Witness,
}

/// A token of a unique asset.
#[derive(Debug, Clone)]
pub struct Token {
    pub index: u32,
    pub ticker: Option<String>,
    pub name: Option<String>,
    pub details: Option<String>,
    pub embedded_media: Option<EmbeddedMedia>,
    pub media: Option<Media>,
    pub attachments: HashMap<u8, Media>,
    pub reserves: Option<ProofOfReserves>,
}

/// A token of a unique asset, in short.
#[derive(Debug, Clone)]
pub struct TokenLight {
    pub index: u32,
    pub ticker: Option<String>,
    pub name: Option<String>,
    pub details: Option<String>,
    pub embedded_media: bool,
    pub media: Option<Media>,
    pub attachments: HashMap<u8, Media>,
    pub reserves: bool,
}

/// What a transaction is for.
#[derive(Debug, Clone, Copy, PartialEq, Eq, Structural)]
pub enum TransactionType {
    RgbSend,
    Drain,
    CreateUtxos,
    User,
}

/// When a transaction was confirmed.
#[derive(Debug, Clone)]
pub struct ConfirmationTime {
    pub height: u32,
    pub timestamp: u64,
}

/// A transaction of the wallet.
#[derive(Debug, Clone)]
pub struct RgbLibTransaction {
    pub txid: String,
    pub received: u64,
    pub sent: u64,
    pub fee: u64,
    pub confirmation_time: Option<ConfirmationTime>,
    pub transaction_type: TransactionType,
}

/// The kind of a transfer.
#[derive(Debug, Clone, Copy, PartialEq, Eq, Structural)]
pub enum TransferKind {
    Issuance,
    ReceiveBlind,
    ReceiveWitness,
    Send,
    Inflation,
}

/// How far a transfer is.
#[derive(Debug, Clone, Copy, PartialEq, Eq, Structural)]
pub enum TransferStatus {
    WaitingCounterparty,
    WaitingConfirmations,
    Settled,
    Failed,
}

/// A transfer of the wallet.
#[derive(Debug, Clone)]
pub struct Transfer {
    pub idx: i32,
    pub created_at: i64,
    pub updated_at: i64,
    pub status: TransferStatus,
    pub amount: u64,
    pub kind: TransferKind,
    pub txid: Option<String>,
    pub recipient_id: Option<String>,
    pub receive_utxo: Option<Outpoint>,
    pub change_utxo: Option<Outpoint>,
    pub expiration: Option<i64>,
    pub transport_endpoints: Vec<TransportEndpoint>,
    pub asset_spend_status: Vec<u8>,
    pub assignments: Vec<Assignment>,
    pub requested_assignment: Option<Assignment>,
}

/// An asset on an output.
#[derive(Debug, Clone)]
pub struct RgbAllocation {
    pub asset_id: Option<String>,
    pub amount: u64,
    pub assignment: Assignment,
    pub settled: bool,
}

/// An output that is not spent.
#[derive(Debug, Clone)]
pub struct Unspent {
    pub outpoint: Outpoint,
    pub txout: TxOut,
    pub rgb_allocations: Vec<RgbAllocation>,
    pub utxo: Outpoint,
}

/// What a recipient on chain is given.
#[derive(Debug, Clone)]
pub struct WitnessData {
    pub amount_sat: u64,
    pub blinding: Option<u64>,
}

/// The protocol of an indexer.
#[derive(Debug, Clone, Copy, PartialEq, Eq, Structural)]
pub enum IndexerProtocol {
    Electrum,
    Esplora,
}

impl IndexerProtocol {
    /// The name of the protocol.
    pub fn text(&self) -> (r: String)
        ensures
            r@ == match *self {
                IndexerProtocol::Electrum => "electrum"@,
                IndexerProtocol::Esplora => "esplora"@,
            },
    {
        match self {
            IndexerProtocol::Electrum => "electrum".to_owned(),
            IndexerProtocol::Esplora => "esplora".to_owned(),
        }
    }
}

/// The outcome of an update.
#[derive(Debug, Clone)]
pub struct UpdateRes {
    pub failed: Vec<String>,
}

/// The database of a wallet.
pub enum DatabaseType {
    Sqlite,
}

/// An output of the wallet.
#[derive(Debug, Clone)]
pub struct Outpoint {
    pub outpoint: OutpointInner,
    pub txid: String,
    pub vout: u32,
    pub btc_amount: u64,
    pub colorable: bool,
}

/// A transaction and an index.
#[derive(Debug, Clone)]
pub struct OutpointInner {
    pub txid: String,
    pub vout: u32,
}

impl OutpointInner {
    /// The text of the output: the transaction, a colon and the index.
    pub fn text(&self) -> (r: String)
        ensures
            r@ == self.txid@ + ":"@ + digits(self.vout as nat),
    {
        join_three(self.txid.as_str(), ":", decimal(self.vout as u64).as_str())
    }
}

impl Outpoint {
    /// The text of the output.
    pub fn text(&self) -> (r: String)
        ensures
            r@ == self.outpoint.txid@ + ":"@ + digits(self.outpoint.vout as nat),
    {
        self.outpoint.text()
    }
}

/// What a wallet is made from.
pub struct WalletData {
    pub data_dir: FilePath,
    pub bitcoin_network: BitcoinNetwork,
    pub database_type: DatabaseType,
    pub max_allocations_per_utxo: u32,
    pub account_xpub_vanilla: String,
    pub account_xpub_colored: String,
    pub master_fingerprint: String,
    pub mnemonic: String,
    pub vanilla_keychain: Option<String>,
    pub supported_schemas: Vec<AssetSchema>,
}

/// How schemas are named, and how they are identified.
pub proof fn law_schema_names()
    ensures
        schema_name(AssetSchema::Nia) == "NIA"@,
        schema_name(AssetSchema::Uda) == "UDA"@,
        schema_name(AssetSchema::Cfa) == "CFA"@,
        schema_name(AssetSchema::Ifa) == "IFA"@,
        schema_id_of(AssetSchema::Nia) == "nia"@,
        schema_id_of(AssetSchema::Uda) == "uda"@,
        schema_id_of(AssetSchema::Cfa) == "cfa"@,
        schema_id_of(AssetSchema::Ifa) == "ifa"@,
{
}

/// An invoice that says who the recipient is and nothing else.
pub proof fn law_recipient_only(info: RecipientInfo, recipient_id: Seq<char>)
    requires
        names_only(info, recipient_id),
    ensures
        info.recipient_id@ == recipient_id,
        info.recipient_type is Blind,
        info.assignment is Any,
        info.network is Regtest,
        info.asset_schema is None,
        info.asset_id is None,
        info.expiration_timestamp is None,
        info.transport_endpoints@.len() == 0,
{
}

} // verus!
