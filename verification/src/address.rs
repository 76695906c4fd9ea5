//! Receive and change addresses of an account, derived from its public key
//! alone and rendered by `bitcoin::Address`.

use crate::error::WalletError;
use crate::keys::{bip32_normal_child, normal_child, ExtendedPublicKey, Network, ScriptType};
use bitcoin::bip32::Xpub;
use bitcoin::{Address, CompressedPublicKey, PublicKey};
use vstd::prelude::*;

verus! {

/// The string of the address that `Address::p2pkh` makes for the public key
/// of a serialized extended key, where the bytes are such a key.
pub uninterp spec fn p2pkh_address(key: Seq<u8>, network: Network) -> Option<Seq<char>>;

/// The string of the address that `Address::p2shwpkh` makes for the public
/// key of a serialized extended key, where the bytes are such a key.
pub uninterp spec fn p2shwpkh_address(key: Seq<u8>, network: Network) -> Option<Seq<char>>;

/// The string of the address that `Address::p2wpkh` makes for the public key
/// of a serialized extended key, where the bytes are such a key.
pub uninterp spec fn p2wpkh_address(key: Seq<u8>, network: Network) -> Option<Seq<char>>;

/// Reads a key with `Xpub::decode` and renders the `Address::p2pkh` of its
/// public key. Trusted: success and the string are a function of the key's
/// bytes and the network alone.
#[verifier::external_body]
pub(crate) fn p2pkh(key: &[u8; 78], network: Network) -> (made: Result<
    String,
    bitcoin::bip32::Error,
>)
    ensures
        match made {
            Ok(text) => p2pkh_address(key@, network) == Some(text@),
            Err(_) => p2pkh_address(key@, network) is None,
        },
{
    let kind = match network {
        Network::Bitcoin => bitcoin::Network::Bitcoin,
        Network::Testnet => bitcoin::Network::Testnet,
    };
    let public = PublicKey::new(Xpub::decode(key)?.public_key);
    Ok(Address::p2pkh(public, kind).to_string())
}

/// Reads a key with `Xpub::decode` and renders the `Address::p2shwpkh` of its
/// public key. Trusted: success and the string are a function of the key's
/// bytes and the network alone.
#[verifier::external_body]
pub(crate) fn p2shwpkh(key: &[u8; 78], network: Network) -> (made: Result<
    String,
    bitcoin::bip32::Error,
>)
    ensures
        match made {
            Ok(text) => p2shwpkh_address(key@, network) == Some(text@),
            Err(_) => p2shwpkh_address(key@, network) is None,
        },
{
    let kind = match network {
        Network::Bitcoin => bitcoin::Network::Bitcoin,
        Network::Testnet => bitcoin::Network::Testnet,
    };
    let public = CompressedPublicKey(Xpub::decode(key)?.public_key);
    Ok(Address::p2shwpkh(&public, kind).to_string())
}

/// Reads a key with `Xpub::decode` and renders the `Address::p2wpkh` of its
/// public key. Trusted: success and the string are a function of the key's
/// bytes and the network alone.
#[verifier::external_body]
pub(crate) fn p2wpkh(key: &[u8; 78], network: Network) -> (made: Result<
    String,
    bitcoin::bip32::Error,
>)
    ensures
        match made {
            Ok(text) => p2wpkh_address(key@, network) == Some(text@),
            Err(_) => p2wpkh_address(key@, network) is None,
        },
{
    let kind = match network {
        Network::Bitcoin => bitcoin::Network::Bitcoin,
        Network::Testnet => bitcoin::Network::Testnet,
    };
    let public = CompressedPublicKey(Xpub::decode(key)?.public_key);
    Ok(Address::p2wpkh(&public, kind).to_string())
}

/// An address with its index on its chain.
#[derive(Clone, Debug, PartialEq, Eq)]
pub struct DerivedAddress {
    pub index: u32,
    pub address: String,
}

/// The address of a key as a script type renders it: pay to public key hash
/// for legacy, pay to witness public key hash inside a script hash for nested
/// SegWit, and pay to witness public key hash for native SegWit.
pub open spec fn address_of(script: ScriptType, network: Network, key: Seq<u8>) -> Option<
    Seq<char>,
> {
    match script {
        ScriptType::Bip44 => p2pkh_address(key, network),
        ScriptType::Bip49 => p2shwpkh_address(key, network),
        ScriptType::Bip84 => p2wpkh_address(key, network),
    }
}

/// The address at `<chain>/<index>` below the key `chain_key` of the chain.
pub open spec fn address_on_chain(
    script: ScriptType,
    network: Network,
    chain_key: Seq<u8>,
    index: u32,
) -> Option<Seq<char>> {
    match bip32_normal_child(chain_key, index) {
        Some(key) => address_of(script, network, key),
        None => None,
    }
}

/// `list` holds the addresses of a chain at the indices below its length, in
/// order, index 0 first.
pub open spec fn is_address_list(
    list: Seq<DerivedAddress>,
    script: ScriptType,
    network: Network,
    chain_key: Seq<u8>,
) -> bool {
    forall|i: int|
        0 <= i < list.len() ==> (#[trigger] list[i]).index == i && address_on_chain(
            script,
            network,
            chain_key,
            i as u32,
        ) == Some(list[i].address@)
}

/// What `derive_addresses` owes: the first `count` addresses at
/// `<branch>/<index>` below `account`, or nothing where the key of the branch
/// or one of the addresses is undefined.
pub open spec fn addresses_derived(
    list: Seq<DerivedAddress>,
    account: Seq<u8>,
    script: ScriptType,
    network: Network,
    branch: u32,
    count: u32,
) -> bool {
    &&& list.len() == count
    &&& bip32_normal_child(account, branch) is Some
    &&& is_address_list(list, script, network, bip32_normal_child(account, branch)->Some_0)
}

/// Some address among the first `count` at `<branch>/<index>` below `account`
/// is undefined.
pub open spec fn addresses_undefined(
    account: Seq<u8>,
    script: ScriptType,
    network: Network,
    branch: u32,
    count: u32,
) -> bool {
    bip32_normal_child(account, branch) is None || exists|i: int|
        0 <= i < count && #[trigger] address_on_chain(
            script,
            network,
            bip32_normal_child(account, branch)->Some_0,
            i as u32,
        ) is None
}

/// Renders the address of one key for a script type.
pub fn render_address(script: ScriptType, network: Network, key: &ExtendedPublicKey) -> (made:
    Result<String, WalletError>)
    ensures
        match made {
            Ok(text) => address_of(script, network, key@) == Some(text@),
            Err(e) => e == WalletError::MalformedExtendedKey && address_of(script, network, key@)
                is None,
        },
{
    let made = match script {
        ScriptType::Bip44 => p2pkh(&key.bytes, network),
        ScriptType::Bip49 => p2shwpkh(&key.bytes, network),
        ScriptType::Bip84 => p2wpkh(&key.bytes, network),
    };
    match made {
        Ok(text) => Ok(text),
        Err(_) => Err(WalletError::MalformedExtendedKey),
    }
}

/// Derives the first `count` addresses of a chain of an account, 0 for
/// receiving and 1 for change: for each index from 0 the child at
/// `<branch>/<index>`, by public derivation alone, rendered for the script
/// type. The list is in the order of the indices.
pub fn derive_addresses(
    account: &ExtendedPublicKey,
    script: ScriptType,
    network: Network,
    branch: u32,
    count: u32,
) -> (made: Result<Vec<DerivedAddress>, WalletError>)
    ensures
        match made {
            Ok(list) => addresses_derived(list@, account@, script, network, branch, count),
            Err(e) => e == WalletError::DerivationError && addresses_undefined(
                account@,
                script,
                network,
                branch,
                count,
            ),
        },
{
    let chain_key = match normal_child(&account.bytes, branch) {
        Ok(key) => key,
        Err(_) => {
            return Err(WalletError::DerivationError);
        },
    };
    let mut list: Vec<DerivedAddress> = Vec::new();
    let mut index: u32 = 0;
    while index < count
        invariant
            index <= count,
            list@.len() == index,
            bip32_normal_child(account@, branch) == Some(chain_key@),
            is_address_list(list@, script, network, chain_key@),
        decreases count - index,
    {
        let key = match normal_child(&chain_key, index) {
            Ok(key) => ExtendedPublicKey { bytes: key },
            Err(_) => {
                assert(address_on_chain(script, network, chain_key@, index as int as u32) is None);
                return Err(WalletError::DerivationError);
            },
        };
        let address = match render_address(script, network, &key) {
            Ok(text) => text,
            Err(_) => {
                assert(address_on_chain(script, network, chain_key@, index as int as u32) is None);
                return Err(WalletError::DerivationError);
            },
        };
        list.push(DerivedAddress { index, address });
        index += 1;
    }
    Ok(list)
}

} // verus!
