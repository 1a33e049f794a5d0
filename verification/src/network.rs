//! Bitcoin networks and addresses.

use std::str::FromStr;
use vstd::prelude::*;
use vstd::std_specs::convert::FromSpec;

use crate::codec::{hex_text, law_hex_round_trip, lower_hex};
use crate::error::{failure, Failure, RgbLibError};
use crate::text::{join_two, same_text};

verus! {

/// A bitcoin network, as the configuration names it.
#[derive(Debug, Clone, Copy, PartialEq, Eq, Structural)]
pub enum BitcoinNetwork {
    Mainnet,
    Testnet,
    Testnet4,
    Signet,
    Regtest,
}

/// A bitcoin network, as keys and addresses tell them apart.
#[derive(Debug, Clone, Copy, PartialEq, Eq, Structural)]
pub enum ChainNetwork {
    Bitcoin,
    Testnet,
    Testnet4,
    Signet,
    Regtest,
}

/// The name of a network.
pub open spec fn network_name(network: BitcoinNetwork) -> Seq<char> {
    match network {
        BitcoinNetwork::Mainnet => "mainnet"@,
        BitcoinNetwork::Testnet => "testnet"@,
        BitcoinNetwork::Testnet4 => "testnet4"@,
        BitcoinNetwork::Signet => "signet"@,
        BitcoinNetwork::Regtest => "regtest"@,
    }
}

/// The networks' names differ.
proof fn lemma_names()
    ensures
        forall|a: BitcoinNetwork, b: BitcoinNetwork|
            #[trigger] network_name(a) == #[trigger] network_name(b) ==> a == b,
{
    reveal_strlit("mainnet");
    reveal_strlit("testnet");
    reveal_strlit("testnet4");
    reveal_strlit("signet");
    reveal_strlit("regtest");
    assert forall|a: BitcoinNetwork, b: BitcoinNetwork| #[trigger]
        network_name(a) == #[trigger] network_name(b) implies a == b by {
        assert(network_name(a).len() == network_name(b).len());
        assert(network_name(a)[0] == network_name(b)[0]);
    }
}

/// The network that a text names.
pub open spec fn network_named(text: Seq<char>) -> Option<BitcoinNetwork> {
    if text == "mainnet"@ {
        Some(BitcoinNetwork::Mainnet)
    } else if text == "testnet"@ {
        Some(BitcoinNetwork::Testnet)
    } else if text == "testnet4"@ {
        Some(BitcoinNetwork::Testnet4)
    } else if text == "signet"@ {
        Some(BitcoinNetwork::Signet)
    } else if text == "regtest"@ {
        Some(BitcoinNetwork::Regtest)
    } else {
        None
    }
}

/// A text names a network if and only if it is the network's name.
pub proof fn law_network_named(text: Seq<char>, network: BitcoinNetwork)
    ensures
        network_named(text) == Some(network) <==> text == network_name(network),
        network_named(network_name(network)) == Some(network),
{
    lemma_names();
    assert(network_name(BitcoinNetwork::Mainnet) == "mainnet"@);
    assert(network_name(BitcoinNetwork::Testnet) == "testnet"@);
    assert(network_name(BitcoinNetwork::Testnet4) == "testnet4"@);
    assert(network_name(BitcoinNetwork::Signet) == "signet"@);
    assert(network_name(BitcoinNetwork::Regtest) == "regtest"@);
}

impl BitcoinNetwork {
    /// The network that a text names.
    pub fn from_str(s: &str) -> (r: Result<Self, String>)
        ensures
            match r {
                Ok(network) => s@ == network_name(network),
                Err(e) => e@ == "Invalid bitcoin network: "@ + s@ && forall|network: BitcoinNetwork|
                    s@ != #[trigger] network_name(network),
            },
            match r {
                Ok(network) => network_named(s@) == Some(network),
                Err(_) => network_named(s@) is None,
            },
    {
        if same_text(s, "mainnet") {
            Ok(BitcoinNetwork::Mainnet)
        } else if same_text(s, "testnet") {
            Ok(BitcoinNetwork::Testnet)
        } else if same_text(s, "testnet4") {
            Ok(BitcoinNetwork::Testnet4)
        } else if same_text(s, "signet") {
            Ok(BitcoinNetwork::Signet)
        } else if same_text(s, "regtest") {
            Ok(BitcoinNetwork::Regtest)
        } else {
            Err(join_two("Invalid bitcoin network: ", s))
        }
    }

    /// The name of the network.
    pub fn text(&self) -> (r: String)
        ensures
            r@ == network_name(*self),
    {
        match self {
            BitcoinNetwork::Mainnet => "mainnet".to_owned(),
            BitcoinNetwork::Testnet => "testnet".to_owned(),
            BitcoinNetwork::Testnet4 => "testnet4".to_owned(),
            BitcoinNetwork::Signet => "signet".to_owned(),
            BitcoinNetwork::Regtest => "regtest".to_owned(),
        }
    }
}

impl std::str::FromStr for BitcoinNetwork {
    type Err = String;

    fn from_str(s: &str) -> (r: Result<Self, String>)
        ensures
            match r {
                Ok(network) => s@ == network_name(network),
                Err(e) => e@ == "Invalid bitcoin network: "@ + s@ && forall|network: BitcoinNetwork|
                    s@ != #[trigger] network_name(network),
            },
    {
        BitcoinNetwork::from_str(s)
    }
}

/// Every network is named by one text only, so that its name is read as that network.
pub proof fn law_network_names(a: BitcoinNetwork, b: BitcoinNetwork)
    ensures
        network_name(a) == network_name(b) <==> a == b,
{
    lemma_names();
}

impl From<BitcoinNetwork> for ChainNetwork {
    fn from(network: BitcoinNetwork) -> (r: ChainNetwork) {
        match network {
            BitcoinNetwork::Mainnet => ChainNetwork::Bitcoin,
            BitcoinNetwork::Testnet => ChainNetwork::Testnet,
            BitcoinNetwork::Testnet4 => ChainNetwork::Testnet4,
            BitcoinNetwork::Signet => ChainNetwork::Signet,
            BitcoinNetwork::Regtest => ChainNetwork::Regtest,
        }
    }
}

impl vstd::std_specs::convert::FromSpecImpl<BitcoinNetwork> for ChainNetwork {
    open spec fn obeys_from_spec() -> bool {
        true
    }

    open spec fn from_spec(network: BitcoinNetwork) -> ChainNetwork {
        match network {
            BitcoinNetwork::Mainnet => ChainNetwork::Bitcoin,
            BitcoinNetwork::Testnet => ChainNetwork::Testnet,
            BitcoinNetwork::Testnet4 => ChainNetwork::Testnet4,
            BitcoinNetwork::Signet => ChainNetwork::Signet,
            BitcoinNetwork::Regtest => ChainNetwork::Regtest,
        }
    }
}

/// The network whose keys and addresses are used: both test networks share theirs.
pub open spec fn key_network(network: BitcoinNetwork) -> ChainNetwork {
    match network {
        BitcoinNetwork::Mainnet => ChainNetwork::Bitcoin,
        BitcoinNetwork::Testnet => ChainNetwork::Testnet,
        BitcoinNetwork::Testnet4 => ChainNetwork::Testnet,
        BitcoinNetwork::Signet => ChainNetwork::Signet,
        BitcoinNetwork::Regtest => ChainNetwork::Regtest,
    }
}

/// The network whose keys and addresses are used.
pub(crate) fn network_of_keys(network: BitcoinNetwork) -> (r: ChainNetwork)
    ensures
        r == key_network(network),
{
    match network {
        BitcoinNetwork::Mainnet => ChainNetwork::Bitcoin,
        BitcoinNetwork::Testnet | BitcoinNetwork::Testnet4 => ChainNetwork::Testnet,
        BitcoinNetwork::Signet => ChainNetwork::Signet,
        BitcoinNetwork::Regtest => ChainNetwork::Regtest,
    }
}

/// The address of an output script on a network, as `bitcoin::Address` displays it; none,
/// where the script has no address.
pub uninterp spec fn script_address(script: Seq<u8>, network: ChainNetwork) -> Option<Seq<char>>;

/// The output script that `bitcoin::Address` reads from an address, or the text of the error.
pub uninterp spec fn address_script(address: Seq<char>) -> Result<Seq<u8>, Seq<char>>;

/// Whether `bech32` decodes a text as that of a segwit address, on whatever network.
pub uninterp spec fn segwit_text(text: Seq<char>) -> bool;

/// Whether an address is read as this script.
pub open spec fn locks(address: Seq<char>, script: Seq<u8>) -> bool {
    address_script(address) matches Ok(found) && found == script
}

/// Whether a script is a witness program: a version and a push of 2 to 40 bytes, which for the
/// first version are 20 or 32.
pub open spec fn is_witness_program(script: Seq<u8>) -> bool {
    &&& 4 <= script.len() <= 42
    &&& script[0] == 0 || 0x51 <= script[0] <= 0x60
    &&& script[0] == 0 ==> script.len() == 22 || script.len() == 34
    &&& script[1] == script.len() - 2
}

/// Whether a script pays to the hash of a key: `OP_DUP`, `OP_HASH160`, a push of 20 bytes,
/// `OP_EQUALVERIFY` and `OP_CHECKSIG`.
pub open spec fn is_key_hash(script: Seq<u8>) -> bool {
    &&& script.len() == 25
    &&& script[0] == 0x76 && script[1] == 0xa9 && script[2] == 20
    &&& script[23] == 0x88 && script[24] == 0xac
}

/// Whether a script pays to the hash of a script: `OP_HASH160`, a push of 20 bytes and `OP_EQUAL`.
pub open spec fn is_script_hash(script: Seq<u8>) -> bool {
    script.len() == 23 && script[0] == 0xa9 && script[1] == 20 && script[22] == 0x87
}

/// Whether a script has an address.
pub open spec fn has_address(script: Seq<u8>) -> bool {
    is_key_hash(script) || is_script_hash(script) || is_witness_program(script)
}

/// Whether a text holds upper-case and lower-case letters.
pub open spec fn is_mixed_case(text: Seq<char>) -> bool {
    &&& exists|i: int| 0 <= i < text.len() && 'A' <= #[trigger] text[i] <= 'Z'
    &&& exists|i: int| 0 <= i < text.len() && 'a' <= #[trigger] text[i] <= 'z'
}

/// Whether a recipient carries the marker of a script without an address.
pub open spec fn is_marked(text: Seq<char>) -> bool {
    "rgb:script:"@.is_prefix_of(text)
}

/// `bitcoin::Address::from_script`, displayed: the address is given the name `script_address`.
/// The hash of a key, the hash of a script and a witness program have an address, and no other
/// script has. The address of a witness program is read as that program again. The address of a
/// hash is read as its script again, unless it happens to be a segwit text too: the reader tries
/// that first, and refuses it, since it is of no network. A text with letters of both cases is no
/// segwit text.
#[verifier::external_body]
fn address_from_script(script: &[u8], network: ChainNetwork) -> (r: Option<String>)
    ensures
        match r {
            Some(address) => script_address(script@, network) == Some(address@)
                && has_address(script@) && (if is_witness_program(script@) || !segwit_text(
                address@,
            ) {
                locks(address@, script@)
            } else {
                address_script(address@) is Err
            }) && (is_mixed_case(address@) ==> !segwit_text(address@)),
            None => script_address(script@, network) is None && !has_address(script@),
        },
{
    let network = match network {
        ChainNetwork::Bitcoin => bitcoin::Network::Bitcoin,
        ChainNetwork::Testnet => bitcoin::Network::Testnet,
        ChainNetwork::Testnet4 => bitcoin::Network::Testnet4,
        ChainNetwork::Signet => bitcoin::Network::Signet,
        ChainNetwork::Regtest => bitcoin::Network::Regtest,
    };
    let address = bitcoin::Address::from_script(bitcoin::Script::from_bytes(script), network);
    address.ok().map(|a| a.to_string())
}

/// `bitcoin::bech32::segwit::decode`: whether it takes a text, which is given the name
/// `segwit_text`.
#[verifier::external_body]
fn decodes_as_segwit(text: &str) -> (r: bool)
    ensures
        r == segwit_text(text@),
{
    bitcoin::bech32::segwit::decode(text).is_ok()
}

/// `bitcoin::Address::from_str` and the `script_pubkey` of what it reads, on whatever network:
/// the script, or the text of the error, is given the name `address_script`. A text with the marker
/// of a script is no address: its colon is none of base58, and in bech32 it belongs to the prefix,
/// which is that of no network.
#[verifier::external_body]
fn script_from_address(address: &str) -> (r: Result<Vec<u8>, String>)
    ensures
        match r {
            Ok(script) => address_script(address@) == Ok::<_, Seq<char>>(script@) && !is_marked(
                address@,
            ),
            Err(e) => address_script(address@) == Err::<Seq<u8>, _>(e@),
        },
{
    match bitcoin::Address::from_str(address) {
        Ok(a) => Ok(a.assume_checked().script_pubkey().into_bytes()),
        Err(e) => Err(e.to_string()),
    }
}

/// The recipient of an output script, given its address, if it has one.
pub open spec fn recipient_text(script: Seq<u8>, address: Option<Seq<char>>) -> Seq<char> {
    match address {
        Some(address) => address,
        None => "rgb:script:"@ + lower_hex(script),
    }
}

/// The recipient of an output script, given its address, if it has one: the address, else the
/// script in hexadecimal behind a marker.
pub fn recipient_id(script: &Vec<u8>, address: Option<String>) -> (r: String)
    ensures
        r@ == recipient_text(
            script@,
            match address {
                Some(a) => Some(a@),
                None => None,
            },
        ),
{
    match address {
        Some(a) => a,
        None => join_two("rgb:script:", hex_text(script.as_slice()).as_str()),
    }
}

/// The recipient of an output script: its address on the network, if it has one, which is read as
/// that script again. The one exception is the address of a hash that happens to be a segwit text
/// too, which is refused. A script without an address is marked, so that it is read as no script.
pub fn recipient_id_from_script_buf(script: &Vec<u8>, network: BitcoinNetwork) -> (r: String)
    ensures
        r@ == recipient_text(script@, script_address(script@, key_network(network))),
        has_address(script@) == (script_address(script@, key_network(network)) is Some),
        has_address(script@) ==> if is_witness_program(script@) || !segwit_text(r@) {
            locks(r@, script@)
        } else {
            address_script(r@) is Err
        },
        has_address(script@) && is_mixed_case(r@) ==> locks(r@, script@),
        !has_address(script@) ==> is_marked(r@) && r@ == "rgb:script:"@ + lower_hex(script@),
{
    let address: Option<String> = address_from_script(
        script.as_slice(),
        network_of_keys(network),
    );
    recipient_id(script, address)
}

/// Whether a recipient is a segwit text. One that is not, and stands for a script with an address,
/// is read as that script.
pub fn is_segwit_recipient(recipient_id: &str) -> (r: bool)
    ensures
        r == segwit_text(recipient_id@),
{
    decodes_as_segwit(recipient_id)
}

/// The recipient of a script is the same on both test networks.
pub proof fn law_test_networks(script: Seq<u8>)
    ensures
        recipient_text(script, script_address(script, key_network(BitcoinNetwork::Testnet)))
            == recipient_text(
            script,
            script_address(script, key_network(BitcoinNetwork::Testnet4)),
        ),
{
}

/// The output script of a recipient, given what its address is read as.
pub open spec fn script_or_failure(script: Result<Seq<u8>, Seq<char>>) -> Result<Seq<u8>, Failure> {
    match script {
        Ok(script) => Ok(script),
        Err(e) => Err(Failure::Other("Invalid address in recipient_id: "@ + e)),
    }
}

/// The output script of a recipient, given what its address is read as.
pub fn recipient_script(script: Result<Vec<u8>, String>) -> (r: Result<Vec<u8>, RgbLibError>)
    ensures
        match (script, r) {
            (Ok(found), Ok(script)) => script@ == found@,
            (Err(e), Err(error)) => failure(error) == Failure::Other(
                "Invalid address in recipient_id: "@ + e@,
            ),
            _ => false,
        },
{
    match script {
        Ok(found) => Ok(found),
        Err(e) => Err(
            RgbLibError::Other(join_two("Invalid address in recipient_id: ", e.as_str())),
        ),
    }
}

/// The output script that a recipient's address stands for. A recipient that is marked as a script
/// without an address is refused.
pub fn script_buf_from_recipient_id(recipient_id: String) -> (r: Result<Vec<u8>, RgbLibError>)
    ensures
        match r {
            Ok(script) => script_or_failure(address_script(recipient_id@)) == Ok::<_, Failure>(
                script@,
            ),
            Err(e) => script_or_failure(address_script(recipient_id@)) == Err::<Seq<u8>, _>(
                failure(e),
            ),
        },
        is_marked(recipient_id@) ==> r is Err,
{
    recipient_script(script_from_address(recipient_id.as_str()))
}

/// How the networks are named, and which network of keys and addresses each stands for: its own, but
/// for the second test network, which shares those of the first.
pub proof fn law_networks(network: BitcoinNetwork)
    ensures
        network_name(BitcoinNetwork::Mainnet) == "mainnet"@,
        network_name(BitcoinNetwork::Testnet) == "testnet"@,
        network_name(BitcoinNetwork::Testnet4) == "testnet4"@,
        network_name(BitcoinNetwork::Signet) == "signet"@,
        network_name(BitcoinNetwork::Regtest) == "regtest"@,
        key_network(network) is Bitcoin <==> network is Mainnet,
        key_network(network) is Testnet <==> network is Testnet || network is Testnet4,
        key_network(network) is Signet <==> network is Signet,
        key_network(network) is Regtest <==> network is Regtest,
        ChainNetwork::from_spec(network) is Bitcoin <==> network is Mainnet,
        ChainNetwork::from_spec(network) is Testnet <==> network is Testnet,
        ChainNetwork::from_spec(network) is Testnet4 <==> network is Testnet4,
        ChainNetwork::from_spec(network) is Signet <==> network is Signet,
        ChainNetwork::from_spec(network) is Regtest <==> network is Regtest,
{
}

/// A recipient is the address as it stands; without one it is a mark with the script in hexadecimal
/// behind it, which no other script shares.
pub proof fn law_recipient(script: Seq<u8>, other: Seq<u8>, address: Seq<char>)
    ensures
        recipient_text(script, Some(address)) == address,
        recipient_text(script, None) == "rgb:script:"@ + lower_hex(script),
        is_marked(recipient_text(script, None)),
        recipient_text(script, None) == recipient_text(other, None) ==> script == other,
        script_or_failure(Ok(script)) == Ok::<Seq<u8>, Failure>(script),
        script_or_failure(Err(address)) == Err::<Seq<u8>, Failure>(
            Failure::Other("Invalid address in recipient_id: "@ + address),
        ),
{
    law_hex_round_trip(script);
    law_hex_round_trip(other);
    let mark = "rgb:script:"@;
    let a = mark + lower_hex(script);
    let b = mark + lower_hex(other);
    assert(a.subrange(mark.len() as int, a.len() as int) =~= lower_hex(script));
    assert(b.subrange(mark.len() as int, b.len() as int) =~= lower_hex(other));
}

/// The scripts that have an address: those that pay to the hash of a key or of a script, of 20 bytes
/// each, and the programs of a witness, by their version and the number of bytes.
pub proof fn law_scripts(hash: Seq<u8>, program: Seq<u8>, version: u8)
    ensures
        hash.len() == 20 ==> has_address(
            seq![0x76u8, 0xa9u8, 0x14u8] + hash + seq![0x88u8, 0xacu8],
        ),
        hash.len() == 20 ==> has_address(seq![0xa9u8, 0x14u8] + hash + seq![0x87u8]),
        program.len() == 20 || program.len() == 32 ==> has_address(
            seq![0u8, program.len() as u8] + program,
        ),
        program.len() != 20 && program.len() != 32 && program.len() <= 40 ==> !has_address(
            seq![0u8, program.len() as u8] + program,
        ),
        0x51 <= version <= 0x60 && 2 <= program.len() <= 40 ==> has_address(
            seq![version, program.len() as u8] + program,
        ),
        !has_address(Seq::empty()),
        !has_address(seq![0x6au8] + program),
{
    let locked = seq![0x76u8, 0xa9u8, 0x14u8] + hash + seq![0x88u8, 0xacu8];
    if hash.len() == 20 {
        assert(is_key_hash(locked));
        assert(is_script_hash(seq![0xa9u8, 0x14u8] + hash + seq![0x87u8]));
    }
}

} // verus!
