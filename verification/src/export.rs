//! The record of a wallet that is handed to a serializer.

use crate::keys::{Network, ScriptType};
use crate::text::{hex, push_hex};
use crate::wallet::Wallet;
use vstd::prelude::*;

verus! {

/// The program that made the record.
#[derive(Clone, Debug, PartialEq, Eq)]
pub struct SoftwareInfo {
    pub name: String,
    pub version: String,
    pub repository: String,
}

/// Where the account key comes from.
#[derive(Clone, Debug, PartialEq, Eq)]
pub struct KeyOrigin {
    pub fingerprint: String,
    pub derivation_path: String,
}

/// The account keys. The private key is present only in a record that is not
/// watch-only.
#[derive(Clone, Debug, PartialEq, Eq)]
pub struct Keys {
    pub account_xpub: String,
    pub account_xprv: Option<String>,
}

/// The descriptors of the two chains.
#[derive(Clone, Debug, PartialEq, Eq)]
pub struct Descriptors {
    pub receive: String,
    pub change: String,
}

/// The record of one wallet.
#[derive(Clone, Debug, PartialEq, Eq)]
pub struct WalletExport {
    pub software: SoftwareInfo,
    pub network: String,
    pub script_type: String,
    pub key_origin: KeyOrigin,
    pub watch_only: bool,
    pub keys: Keys,
    pub descriptors: Descriptors,
}

/// The name of a network in a record.
pub open spec fn network_name_of(network: Network) -> Seq<char> {
    match network {
        Network::Bitcoin => "bitcoin"@,
        Network::Testnet => "testnet"@,
    }
}

/// The name of a script type in a record.
pub open spec fn script_type_name_of(script: ScriptType) -> Seq<char> {
    match script {
        ScriptType::Bip44 => "bip44"@,
        ScriptType::Bip49 => "bip49"@,
        ScriptType::Bip84 => "bip84"@,
    }
}

/// The name of a network in a record: `bitcoin` or `testnet`.
pub fn network_name(network: Network) -> (name: String)
    ensures
        name@ == network_name_of(network),
{
    match network {
        Network::Bitcoin => String::from_str("bitcoin"),
        Network::Testnet => String::from_str("testnet"),
    }
}

/// The name of a script type in a record: `bip44`, `bip49` or `bip84`.
pub fn script_type_name(script: ScriptType) -> (name: String)
    ensures
        name@ == script_type_name_of(script),
{
    match script {
        ScriptType::Bip44 => String::from_str("bip44"),
        ScriptType::Bip49 => String::from_str("bip49"),
        ScriptType::Bip84 => String::from_str("bip84"),
    }
}

/// A fingerprint in eight lower-case hexadecimal digits.
pub fn fingerprint_hex(fingerprint: [u8; 4]) -> (text: String)
    ensures
        text@ == hex(fingerprint@),
{
    let mut text = String::new();
    push_hex(&mut text, fingerprint.as_slice());
    text
}

impl WalletExport {
    /// The record tells of `wallet` what a record may tell: network, script
    /// type, key origin, the account's public key and the two descriptors,
    /// and the account's private key if and only if it is not watch-only.
    pub open spec fn records(self, wallet: Wallet, watch_only: bool) -> bool {
        &&& self.network@ == network_name_of(wallet.network)
        &&& self.script_type@ == script_type_name_of(wallet.script)
        &&& self.key_origin.fingerprint@ == hex(wallet.fingerprint@)
        &&& self.key_origin.derivation_path@ == wallet.derivation_path@
        &&& self.watch_only == watch_only
        &&& self.keys.account_xpub@ == wallet.account_xpub@
        &&& match self.keys.account_xprv {
            Some(xprv) => !watch_only && xprv@ == wallet.account_xprv@,
            None => watch_only,
        }
        &&& self.descriptors.receive@ == wallet.receive_descriptor@
        &&& self.descriptors.change@ == wallet.change_descriptor@
    }
}

/// Makes the record of a wallet. A watch-only record holds no private key.
pub fn export_wallet(software: SoftwareInfo, wallet: &Wallet, watch_only: bool) -> (record:
    WalletExport)
    ensures
        record.records(*wallet, watch_only),
        record.software == software,
{
    let account_xprv = if watch_only {
        None
    } else {
        Some(wallet.account_xprv.clone())
    };
    WalletExport {
        software,
        network: network_name(wallet.network),
        script_type: script_type_name(wallet.script),
        key_origin: KeyOrigin {
            fingerprint: fingerprint_hex(wallet.fingerprint),
            derivation_path: wallet.derivation_path.clone(),
        },
        watch_only,
        keys: Keys { account_xpub: wallet.account_xpub.clone(), account_xprv },
        descriptors: Descriptors {
            receive: wallet.receive_descriptor.clone(),
            change: wallet.change_descriptor.clone(),
        },
    }
}

} // verus!
