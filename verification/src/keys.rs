//! The keys of a new wallet.

use std::str::FromStr;
use vstd::arithmetic::power::pow;
use vstd::prelude::*;

use crate::codec::{sha256, sha256_digest};
use crate::error::RgbLibError;
use crate::network::{key_network, network_of_keys, BitcoinNetwork, ChainNetwork};
use crate::path::{FilePath, PathView};
use crate::text::join_three;
use crate::types::{AssetSchema, DatabaseType, WalletData};

verus! {

/// The words that `bip39` gives to 16 bytes.
pub uninterp spec fn mnemonic_words(entropy: Seq<u8>) -> Seq<char>;

/// The seed that `bip39` derives from the words of 16 bytes, without a passphrase.
pub uninterp spec fn mnemonic_seed(entropy: Seq<u8>) -> Seq<u8>;

/// The fingerprint of the master key that a seed gives, if it gives one.
pub uninterp spec fn master_fingerprint(seed: Seq<u8>, network: ChainNetwork) -> Option<Seq<char>>;

/// The public key at a path below the master key that a seed gives, if there is one.
pub uninterp spec fn extended_key(
    seed: Seq<u8>,
    network: ChainNetwork,
    path: Seq<char>,
) -> Option<Seq<char>>;

/// Whether a text is made of `n` words with one space between each two.
pub open spec fn is_phrase(text: Seq<char>, n: nat) -> bool {
    &&& text.len() > 0
    &&& text.to_multiset().count(' ') + 1 == n
    &&& forall|i: int|
        0 <= i < text.len() && #[trigger] text[i] == ' ' ==> 0 < i < text.len() - 1 && text[i + 1]
            != ' '
}

/// `bip39::Mnemonic::from_entropy` of 16 bytes, which it takes, displayed. The words are given
/// the name `mnemonic_words`; they are twelve, with one space between each two.
#[verifier::external_body]
fn words_of(entropy: &[u8; 16]) -> (r: String)
    ensures
        r@ == mnemonic_words(entropy@),
        is_phrase(r@, 12),
{
    bip39::Mnemonic::from_entropy(entropy).expect("16 bytes are 12 words").to_string()
}

/// `bip39::Mnemonic::to_seed` without a passphrase, of the words of 16 bytes. The seed is given
/// the name `mnemonic_seed`.
#[verifier::external_body]
fn seed_of(entropy: &[u8; 16]) -> (r: [u8; 64])
    ensures
        r@ == mnemonic_seed(entropy@),
{
    bip39::Mnemonic::from_entropy(entropy).expect("16 bytes are 12 words").to_seed("")
}

/// `bitcoin::bip32::Xpriv::new_master` and the `fingerprint` of what it gives, displayed: the
/// fingerprint, or that there is no such key, is given the name `master_fingerprint`.
#[verifier::external_body]
fn fingerprint_of(seed: &[u8; 64], network: ChainNetwork) -> (r: Option<String>)
    ensures
        match r {
            Some(text) => master_fingerprint(seed@, network) == Some(text@),
            None => master_fingerprint(seed@, network) is None,
        },
{
    let network = match network {
        ChainNetwork::Bitcoin => bitcoin::Network::Bitcoin,
        ChainNetwork::Testnet => bitcoin::Network::Testnet,
        ChainNetwork::Testnet4 => bitcoin::Network::Testnet4,
        ChainNetwork::Signet => bitcoin::Network::Signet,
        ChainNetwork::Regtest => bitcoin::Network::Regtest,
    };
    let master = bitcoin::bip32::Xpriv::new_master(network, seed).ok()?;
    Some(master.fingerprint(&bitcoin::secp256k1::Secp256k1::new()).to_string())
}

/// `bitcoin::bip32`: `Xpriv::new_master`, `Xpriv::derive_priv` along a path that
/// `DerivationPath::from_str` reads, and `Xpub::from_priv`, displayed. The key, or that there is
/// none, is given the name `extended_key`.
#[verifier::external_body]
fn xpub_of(seed: &[u8; 64], network: ChainNetwork, path: &str) -> (r: Option<String>)
    ensures
        match r {
            Some(text) => extended_key(seed@, network, path@) == Some(text@),
            None => extended_key(seed@, network, path@) is None,
        },
{
    let network = match network {
        ChainNetwork::Bitcoin => bitcoin::Network::Bitcoin,
        ChainNetwork::Testnet => bitcoin::Network::Testnet,
        ChainNetwork::Testnet4 => bitcoin::Network::Testnet4,
        ChainNetwork::Signet => bitcoin::Network::Signet,
        ChainNetwork::Regtest => bitcoin::Network::Regtest,
    };
    let secp = bitcoin::secp256k1::Secp256k1::new();
    let path = bitcoin::bip32::DerivationPath::from_str(path).ok()?;
    let master = bitcoin::bip32::Xpriv::new_master(network, seed).ok()?;
    let account = master.derive_priv(&secp, &path).ok()?;
    Some(bitcoin::bip32::Xpub::from_priv(&secp, &account).to_string())
}

/// `std::time::SystemTime::now`: the nanoseconds since the Unix epoch; none, where the clock
/// stands before it. Nothing is said of the time.
#[verifier::external_body]
fn clock_nanos() -> Option<u128> {
    std::time::SystemTime::now().duration_since(std::time::UNIX_EPOCH).ok().map(|d| d.as_nanos())
}

/// The bytes of a number, the lowest first.
pub open spec fn le_bytes(n: u128) -> Seq<u8> {
    Seq::new(16, |i: int| ((n as int / pow(256, i as nat)) % 256) as u8)
}

/// The bytes of a number, the lowest first.
fn to_le_bytes(n: u128) -> (r: [u8; 16])
    ensures
        r@ == le_bytes(n),
{
    let mut r: [u8; 16] = [0u8; 16];
    let mut rest: u128 = n;
    let mut i: usize = 0;
    assert(pow(256, 0) == 1) by {
        vstd::arithmetic::power::lemma_pow0(256);
    }
    while i < 16
        invariant
            i <= 16,
            rest as int == n as int / pow(256, i as nat),
            forall|j: int| 0 <= j < i ==> #[trigger] r@[j] == le_bytes(n)[j],
        decreases 16 - i,
    {
        r[i] = (rest % 256) as u8;
        proof {
            vstd::arithmetic::power::lemma_pow_positive(256, i as nat);
            vstd::arithmetic::power::lemma_pow_adds(256, i as nat, 1);
            vstd::arithmetic::power::lemma_pow1(256);
            vstd::arithmetic::div_mod::lemma_div_denominator(n as int, pow(256, i as nat), 256);
        }
        rest = rest / 256;
        i += 1;
    }
    assert(r@ =~= le_bytes(n));
    r
}

/// The entropy of a wallet that is made at a time: the first half of the time's hash.
pub open spec fn entropy_at(nanos: u128) -> Seq<u8> {
    sha256_digest(le_bytes(nanos)).subrange(0, 16)
}

/// The entropy of a wallet that is made at a time.
fn entropy_of(nanos: u128) -> (r: [u8; 16])
    ensures
        r@ == entropy_at(nanos),
{
    let bytes: [u8; 16] = to_le_bytes(nanos);
    let hash: [u8; 32] = sha256(bytes.as_slice());
    let mut r: [u8; 16] = [0u8; 16];
    let mut i: usize = 0;
    while i < 16
        invariant
            i <= 16,
            forall|j: int| 0 <= j < i ==> r@[j] == hash@[j],
        decreases 16 - i,
    {
        r[i] = hash[i];
        i += 1;
    }
    assert(r@ =~= hash@.subrange(0, 16));
    r
}

/// The path of an account: native segwit, with the coin of the network.
pub open spec fn account_path(network: ChainNetwork, account: Seq<char>) -> Seq<char> {
    let coin = if network == ChainNetwork::Bitcoin {
        "0"@
    } else {
        "1"@
    };
    "m/84'/"@ + coin + account
}

/// The path of an account.
fn path_of_account(network: ChainNetwork, account: &str) -> (r: String)
    ensures
        r@ == account_path(network, account@),
{
    if network == ChainNetwork::Bitcoin {
        join_three("m/84'/", "0", account)
    } else {
        join_three("m/84'/", "1", account)
    }
}

/// The schemas that a wallet supports.
pub open spec fn supported() -> Seq<AssetSchema> {
    seq![AssetSchema::Nia, AssetSchema::Cfa, AssetSchema::Uda]
}

/// The schemas that a wallet supports.
pub(crate) fn supported_schemas() -> (r: Vec<AssetSchema>)
    ensures
        r@ == supported(),
{
    let mut r: Vec<AssetSchema> = Vec::new();
    r.push(AssetSchema::Nia);
    r.push(AssetSchema::Cfa);
    r.push(AssetSchema::Uda);
    assert(r@ =~= supported());
    r
}

/// Whether a wallet has these keys, and is otherwise as a new one.
pub open spec fn has_keys(
    wallet: WalletData,
    network: BitcoinNetwork,
    words: Seq<char>,
    fingerprint: Seq<char>,
    vanilla: Seq<char>,
    colored: Seq<char>,
) -> bool {
    &&& wallet.data_dir@ == PathView::empty()
    &&& wallet.bitcoin_network == network
    &&& wallet.database_type == DatabaseType::Sqlite
    &&& wallet.max_allocations_per_utxo == 1
    &&& wallet.account_xpub_vanilla@ == vanilla
    &&& wallet.account_xpub_colored@ == colored
    &&& wallet.master_fingerprint@ == fingerprint
    &&& wallet.mnemonic@ == words
    &&& wallet.vanilla_keychain is None
    &&& wallet.supported_schemas@ == supported()
}

/// The wallet with some keys.
pub fn wallet_with_keys(
    network: BitcoinNetwork,
    words: String,
    fingerprint: String,
    vanilla: String,
    colored: String,
) -> (r: WalletData)
    ensures
        has_keys(r, network, words@, fingerprint@, vanilla@, colored@),
{
    WalletData {
        data_dir: FilePath::new(),
        bitcoin_network: network,
        database_type: DatabaseType::Sqlite,
        max_allocations_per_utxo: 1,
        account_xpub_vanilla: vanilla,
        account_xpub_colored: colored,
        master_fingerprint: fingerprint,
        mnemonic: words,
        vanilla_keychain: None,
        supported_schemas: supported_schemas(),
    }
}

/// Whether a wallet is the one made at a time: its keys come from the time's entropy, one
/// account for bitcoin and one for assets. None, where the entropy gives no such keys.
pub open spec fn is_wallet_at(nanos: u128, network: BitcoinNetwork, r: Option<WalletData>) -> bool {
    let entropy = entropy_at(nanos);
    let seed = mnemonic_seed(entropy);
    let chain = key_network(network);
    let fingerprint = master_fingerprint(seed, chain);
    let vanilla = extended_key(seed, chain, account_path(chain, "'/0'"@));
    let colored = extended_key(seed, chain, account_path(chain, "'/1'"@));
    match r {
        Some(wallet) => fingerprint is Some && vanilla is Some && colored is Some && has_keys(
            wallet,
            network,
            mnemonic_words(entropy),
            fingerprint->0,
            vanilla->0,
            colored->0,
        ),
        None => fingerprint is None || vanilla is None || colored is None,
    }
}

/// The wallet that is made at a time. It is known by twelve words.
pub fn keys_at(nanos: u128, bitcoin_network: BitcoinNetwork) -> (r: Option<WalletData>)
    ensures
        is_wallet_at(nanos, bitcoin_network, r),
        r matches Some(wallet) ==> is_phrase(wallet.mnemonic@, 12),
{
    let entropy: [u8; 16] = entropy_of(nanos);
    let words: String = words_of(&entropy);
    let seed: [u8; 64] = seed_of(&entropy);
    let network: ChainNetwork = network_of_keys(bitcoin_network);
    let fingerprint: Option<String> = fingerprint_of(&seed, network);
    let vanilla: Option<String> = xpub_of(
        &seed,
        network,
        path_of_account(network, "'/0'").as_str(),
    );
    let colored: Option<String> = xpub_of(
        &seed,
        network,
        path_of_account(network, "'/1'").as_str(),
    );
    match (fingerprint, vanilla, colored) {
        (Some(fingerprint), Some(vanilla), Some(colored)) => Some(
            wallet_with_keys(bitcoin_network, words, fingerprint, vanilla, colored),
        ),
        _ => None,
    }
}

/// The keys of a new wallet, made from the time. None, where the clock stands before the epoch,
/// or the time gives no keys.
pub fn generate_keys(bitcoin_network: BitcoinNetwork) -> (r: Option<WalletData>)
    ensures
        r is Some ==> exists|nanos: u128| is_wallet_at(nanos, bitcoin_network, r),
        r matches Some(wallet) ==> is_phrase(wallet.mnemonic@, 12),
{
    match clock_nanos() {
        Some(nanos) => keys_at(nanos, bitcoin_network),
        None => None,
    }
}

/// The keys of an account of a wallet.
pub fn get_account_data(_bitcoin_network: BitcoinNetwork, _mnemonic: &str, _colored: bool) -> (r:
    Result<(String, String, String), RgbLibError>)
    ensures
        r matches Ok((path, key, fingerprint)) && path@ == "derivation_path"@ && key@ == "xpub"@
            && fingerprint@ == "fingerprint"@,
{
    Ok(("derivation_path".to_owned(), "xpub".to_owned(), "fingerprint".to_owned()))
}

/// The bytes of a number: the first is the lowest, and the others are the bytes of what is left. There
/// are sixteen.
pub proof fn law_le_bytes(n: u128, i: int)
    requires
        0 <= i < 15,
    ensures
        le_bytes(n).len() == 16,
        le_bytes(n)[0] == n % 256,
        le_bytes(n)[i + 1] == le_bytes((n / 256) as u128)[i],
{
    vstd::arithmetic::power::lemma_pow0(256);
    vstd::arithmetic::power::lemma_pow_positive(256, i as nat);
    vstd::arithmetic::power::lemma_pow_adds(256, 1, i as nat);
    vstd::arithmetic::power::lemma_pow1(256);
    vstd::arithmetic::div_mod::lemma_div_denominator(n as int, 256, pow(256, i as nat));
}

/// The entropy of a time is the first sixteen bytes of its digest.
pub proof fn law_entropy(nanos: u128, i: int)
    ensures
        ({
            let digest = sha256_digest(le_bytes(nanos));
            digest.len() == 32 ==> entropy_at(nanos).len() == 16 && (0 <= i < 16 ==> entropy_at(
                nanos,
            )[i] == digest[i])
        }),
{
}

/// The accounts are native segwit ones: of bitcoin's coin on the main network, and of the test coin on
/// every other.
pub proof fn law_account_paths(network: ChainNetwork)
    ensures
        account_path(ChainNetwork::Bitcoin, "'/0'"@) == "m/84'/0'/0'"@,
        account_path(ChainNetwork::Bitcoin, "'/1'"@) == "m/84'/0'/1'"@,
        network !is Bitcoin ==> account_path(network, "'/0'"@) == "m/84'/1'/0'"@,
        network !is Bitcoin ==> account_path(network, "'/1'"@) == "m/84'/1'/1'"@,
{
    reveal_strlit("m/84'/");
    reveal_strlit("0");
    reveal_strlit("1");
    reveal_strlit("'/0'");
    reveal_strlit("'/1'");
    reveal_strlit("m/84'/0'/0'");
    reveal_strlit("m/84'/0'/1'");
    reveal_strlit("m/84'/1'/0'");
    reveal_strlit("m/84'/1'/1'");
    assert("m/84'/"@ + "0"@ + "'/0'"@ =~= "m/84'/0'/0'"@);
    assert("m/84'/"@ + "0"@ + "'/1'"@ =~= "m/84'/0'/1'"@);
    assert("m/84'/"@ + "1"@ + "'/0'"@ =~= "m/84'/1'/0'"@);
    assert("m/84'/"@ + "1"@ + "'/1'"@ =~= "m/84'/1'/1'"@);
}

/// A wallet that is made at a time has the words of its entropy, the fingerprint of the seed, and the
/// two accounts of its network: the first for bitcoin, the second for assets. It holds one asset in
/// an output, and supports all schemas but the inflatable one.
pub proof fn law_new_wallet(nanos: u128, network: BitcoinNetwork, wallet: WalletData)
    requires
        is_wallet_at(nanos, network, Some(wallet)),
    ensures
        ({
            let entropy = entropy_at(nanos);
            let seed = mnemonic_seed(entropy);
            let chain = key_network(network);
            let first = if network is Mainnet {
                "m/84'/0'/0'"@
            } else {
                "m/84'/1'/0'"@
            };
            let second = if network is Mainnet {
                "m/84'/0'/1'"@
            } else {
                "m/84'/1'/1'"@
            };
            &&& wallet.mnemonic@ == mnemonic_words(entropy)
            &&& master_fingerprint(seed, chain) == Some(wallet.master_fingerprint@)
            &&& extended_key(seed, chain, first) == Some(wallet.account_xpub_vanilla@)
            &&& extended_key(seed, chain, second) == Some(wallet.account_xpub_colored@)
            &&& wallet.bitcoin_network == network
            &&& wallet.database_type is Sqlite
            &&& wallet.max_allocations_per_utxo == 1
            &&& wallet.vanilla_keychain is None
            &&& wallet.data_dir@.text.len() == 0
            &&& forall|schema: AssetSchema| #[trigger]
                wallet.supported_schemas@.contains(schema) <==> schema !is Ifa
        }),
{
    law_account_paths(key_network(network));
    let schemas = wallet.supported_schemas@;
    assert(schemas[0] is Nia && schemas[1] is Cfa && schemas[2] is Uda);
    assert forall|schema: AssetSchema| schema !is Ifa implies #[trigger] schemas.contains(
        schema,
    ) by {
        assert(schema == schemas[0] || schema == schemas[1] || schema == schemas[2]);
    }
}

} // verus!
