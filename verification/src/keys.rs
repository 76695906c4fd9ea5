//! Hierarchical keys: the master key of a seed and the account key pair at
//! `m/<purpose>'/<coin_type>'/0'`, derived by `bitcoin::bip32`.
//!
//! A key is held as the 78 bytes of its standard serialization: four version
//! bytes, depth, parent fingerprint, child number, chain code and key.

use crate::big_endian::{be_bytes, be_split};
use crate::error::WalletError;
use bitcoin::bip32::{ChildNumber, Xpriv, Xpub};
use bitcoin::hashes::{sha512, HashEngine, Hmac, HmacEngine};
use bitcoin::secp256k1::{Scalar, Secp256k1, SecretKey};
use vstd::prelude::*;

verus! {

/// Length of a serialized extended key.
pub const KEY_LEN: usize = 78;

/// Where the chain code starts in a serialized key.
pub const CHAIN_CODE_START: usize = 13;

/// Where the chain code ends in a serialized key.
pub const CHAIN_CODE_END: usize = 45;

/// Where the secret starts in a serialized private key.
pub const SECRET_START: usize = 46;

/// Length of the half of a keyed digest that a child's scalar is made of.
pub const SCALAR_LEN: usize = 32;

/// The first child number of the hardened range: an index below it is
/// hardened by adding it.
pub const HARDENED_LIMIT: u32 = 0x8000_0000;

/// The network a wallet is for.
#[derive(Clone, Copy, Debug, PartialEq, Eq, Structural)]
pub enum Network {
    /// The main network.
    Bitcoin,
    /// The test network.
    Testnet,
}

impl Network {
    /// The coin type of the network in a derivation path.
    pub open spec fn coin_type_of(self) -> u32 {
        match self {
            Network::Bitcoin => 0,
            Network::Testnet => 1,
        }
    }

    /// The coin type of the network in a derivation path: 0 for the main
    /// network, 1 for the test network.
    pub fn coin_type(&self) -> (coin: u32)
        ensures
            coin == self.coin_type_of(),
    {
        match self {
            Network::Bitcoin => 0,
            Network::Testnet => 1,
        }
    }
}

/// The script type of a wallet, named by the purpose of its derivation path.
#[derive(Clone, Copy, Debug, PartialEq, Eq, Structural)]
pub enum ScriptType {
    /// Legacy, pay to public key hash.
    Bip44,
    /// Nested SegWit, pay to witness public key hash inside a script hash.
    Bip49,
    /// Native SegWit, pay to witness public key hash.
    Bip84,
}

impl ScriptType {
    /// The purpose of the script type.
    pub open spec fn purpose_of(self) -> u32 {
        match self {
            ScriptType::Bip44 => 44,
            ScriptType::Bip49 => 49,
            ScriptType::Bip84 => 84,
        }
    }

    /// The purpose of the script type: 44, 49 or 84.
    pub fn purpose(&self) -> (purpose: u32)
        ensures
            purpose == self.purpose_of(),
    {
        match self {
            ScriptType::Bip44 => 44,
            ScriptType::Bip49 => 49,
            ScriptType::Bip84 => 84,
        }
    }

    /// The script type with the given purpose, if there is one.
    pub fn from_purpose(purpose: u32) -> (script: Option<ScriptType>)
        ensures
            match script {
                Some(s) => s.purpose_of() == purpose,
                None => purpose != 44 && purpose != 49 && purpose != 84,
            },
    {
        if purpose == 44 {
            Some(ScriptType::Bip44)
        } else if purpose == 49 {
            Some(ScriptType::Bip49)
        } else if purpose == 84 {
            Some(ScriptType::Bip84)
        } else {
            None
        }
    }
}

/// `bitcoin::bip32::Error`.
#[verifier::external_type_specification]
#[verifier::external_body]
pub struct ExBip32Error(bitcoin::bip32::Error);

/// The serialized master key that `Xpriv::new_master` makes of a seed, where
/// it makes one.
pub uninterp spec fn bip32_master(network: Network, seed: Seq<u8>) -> Option<Seq<u8>>;

/// The serialized child that `Xpriv::derive_priv` derives from a serialized
/// private key at one hardened index, where it derives one.
pub uninterp spec fn bip32_hardened_child(parent: Seq<u8>, index: u32) -> Option<Seq<u8>>;

/// The serialized child that `Xpub::derive_pub` derives from a serialized
/// public key at one normal index, where it derives one.
pub uninterp spec fn bip32_normal_child(parent: Seq<u8>, index: u32) -> Option<Seq<u8>>;

/// The serialized public key that `Xpub::from_priv` gives for a serialized
/// private key, where the bytes are such a key.
pub uninterp spec fn bip32_public(private: Seq<u8>) -> Option<Seq<u8>>;

/// The fingerprint that `Xpub::fingerprint` gives for a serialized public
/// key, where the bytes are such a key.
pub uninterp spec fn bip32_fingerprint(public: Seq<u8>) -> Option<Seq<u8>>;

/// Calls `Xpriv::new_master` and serializes the key with `Xpriv::encode`.
/// Trusted: success and the key are a function of network and seed alone.
#[verifier::external_body]
pub(crate) fn master_key(network: Network, seed: &[u8]) -> (made: Result<
    [u8; 78],
    bitcoin::bip32::Error,
>)
    ensures
        match made {
            Ok(key) => bip32_master(network, seed@) == Some(key@),
            Err(_) => bip32_master(network, seed@) is None,
        },
{
    let kind = match network {
        Network::Bitcoin => bitcoin::Network::Bitcoin,
        Network::Testnet => bitcoin::Network::Testnet,
    };
    Ok(Xpriv::new_master(kind, seed)?.encode())
}

/// What HMAC-SHA512 of `bitcoin::hashes` returns for a key and a message.
pub uninterp spec fn hmac_sha512_output(key: Seq<u8>, data: Seq<u8>) -> Seq<u8>;

/// Whether `SecretKey::from_slice` accepts both `left` and `key`, and
/// `SecretKey::add_tweak` their sum: both are scalars of the curve, and so is
/// what they add up to.
pub uninterp spec fn scalar_sum_defined(left: Seq<u8>, key: Seq<u8>) -> bool;

/// Feeds `data` to an `HmacEngine` of SHA-512 under `key` and takes the code
/// with `Hmac::from_engine`. Trusted: the 64 bytes are a function of key and
/// message alone.
#[verifier::external_body]
pub(crate) fn hmac_sha512(key: &[u8], data: &[u8]) -> (mac: [u8; 64])
    ensures
        mac@ == hmac_sha512_output(key@, data@),
{
    let mut engine = HmacEngine::<sha512::Hash>::new(key);
    engine.input(data);
    let mac = <Hmac<sha512::Hash> as bitcoin::hashes::Hash>::from_engine(engine);
    bitcoin::hashes::Hash::to_byte_array(mac)
}

/// Reads both slices with `SecretKey::from_slice` and adds them with
/// `SecretKey::add_tweak`, and tells whether all three succeeded. Trusted:
/// the answer is a function of the bytes alone.
#[verifier::external_body]
pub(crate) fn scalar_sum_is_defined(left: &[u8], key: &[u8]) -> (defined: bool)
    ensures
        defined == scalar_sum_defined(left@, key@),
{
    match (SecretKey::from_slice(left), SecretKey::from_slice(key)) {
        (Ok(scalar), Ok(secret)) => scalar.add_tweak(&Scalar::from(secret)).is_ok(),
        _ => false,
    }
}

/// The chain code of a serialized key.
pub open spec fn chain_code_of(key: Seq<u8>) -> Seq<u8> {
    key.subrange(CHAIN_CODE_START as int, CHAIN_CODE_END as int)
}

/// The secret of a serialized private key.
pub open spec fn secret_of(key: Seq<u8>) -> Seq<u8> {
    key.subrange(SECRET_START as int, KEY_LEN as int)
}

/// The message that is keyed with the parent's chain code for a hardened
/// child: a zero byte, the parent's secret, and the child number, which is
/// the index raised into the hardened range, in four bytes.
pub open spec fn hardened_message(parent: Seq<u8>, index: u32) -> Seq<u8> {
    seq![0u8] + secret_of(parent) + be_bytes((index + HARDENED_LIMIT) as u32)
}

/// The keyed digest of a hardened step gives a child: its left half is a
/// scalar of the curve, and so is the sum of that scalar and the parent's
/// secret.
pub open spec fn hardened_step_defined(parent: Seq<u8>, index: u32) -> bool {
    scalar_sum_defined(
        hmac_sha512_output(chain_code_of(parent), hardened_message(parent, index)).take(
            SCALAR_LEN as int,
        ),
        secret_of(parent),
    )
}

/// Reads a private key with `Xpriv::decode`, derives with `Xpriv::derive_priv`
/// along the one hardened step `index`, and serializes the child. Trusted:
/// success and the child are a function of parent and index alone. The crate
/// unwraps the scalar it makes of the left half of the keyed digest, and the
/// sum of that scalar and the parent's secret: `requires` admits a step only
/// where both are defined.
#[verifier::external_body]
pub(crate) fn hardened_child(parent: &[u8; 78], index: u32) -> (derived: Result<
    [u8; 78],
    bitcoin::bip32::Error,
>)
    requires
        index < HARDENED_LIMIT,
        hardened_step_defined(parent@, index),
    ensures
        match derived {
            Ok(child) => bip32_hardened_child(parent@, index) == Some(child@),
            Err(_) => bip32_hardened_child(parent@, index) is None,
        },
{
    let step = ChildNumber::from_hardened_idx(index)?;
    let key = Xpriv::decode(parent)?;
    Ok(key.derive_priv(&Secp256k1::new(), &step)?.encode())
}

/// Reads a public key with `Xpub::decode`, derives with `Xpub::derive_pub`
/// along the one normal step `index`, and serializes the child. Trusted:
/// success and the child are a function of parent and index alone.
#[verifier::external_body]
pub(crate) fn normal_child(parent: &[u8; 78], index: u32) -> (derived: Result<
    [u8; 78],
    bitcoin::bip32::Error,
>)
    ensures
        match derived {
            Ok(child) => bip32_normal_child(parent@, index) == Some(child@),
            Err(_) => bip32_normal_child(parent@, index) is None,
        },
{
    let step = ChildNumber::from_normal_idx(index)?;
    let key = Xpub::decode(parent)?;
    Ok(key.derive_pub(&Secp256k1::new(), &step)?.encode())
}

/// Reads a private key with `Xpriv::decode` and serializes what
/// `Xpub::from_priv` makes of it. Trusted: success and the public key are a
/// function of the private key's bytes alone.
#[verifier::external_body]
pub(crate) fn public_key(private: &[u8; 78]) -> (made: Result<[u8; 78], bitcoin::bip32::Error>)
    ensures
        match made {
            Ok(public) => bip32_public(private@) == Some(public@),
            Err(_) => bip32_public(private@) is None,
        },
{
    let key = Xpriv::decode(private)?;
    Ok(Xpub::from_priv(&Secp256k1::new(), &key).encode())
}

/// Reads a public key with `Xpub::decode` and takes its fingerprint with
/// `Xpub::fingerprint`. Trusted: success and the four bytes are a function
/// of the key's bytes alone.
#[verifier::external_body]
pub(crate) fn key_fingerprint(public: &[u8; 78]) -> (taken: Result<[u8; 4], bitcoin::bip32::Error>)
    ensures
        match taken {
            Ok(print) => bip32_fingerprint(public@) == Some(print@),
            Err(_) => bip32_fingerprint(public@) is None,
        },
{
    Ok(Xpub::decode(public)?.fingerprint().to_bytes())
}

/// An extended private key, serialized.
#[derive(Clone, Copy, Debug, PartialEq, Eq)]
pub struct ExtendedPrivateKey {
    pub bytes: [u8; 78],
}

/// An extended public key, serialized.
#[derive(Clone, Copy, Debug, PartialEq, Eq)]
pub struct ExtendedPublicKey {
    pub bytes: [u8; 78],
}

impl View for ExtendedPrivateKey {
    type V = Seq<u8>;

    open spec fn view(&self) -> Seq<u8> {
        self.bytes@
    }
}

impl View for ExtendedPublicKey {
    type V = Seq<u8>;

    open spec fn view(&self) -> Seq<u8> {
        self.bytes@
    }
}

/// The private and the public key of an account.
#[derive(Clone, Copy, Debug, PartialEq, Eq)]
pub struct AccountKeyPair {
    pub private: ExtendedPrivateKey,
    pub public: ExtendedPublicKey,
}

/// The master key of `seed` on `network`.
pub fn derive_master(network: Network, seed: &[u8]) -> (made: Result<
    ExtendedPrivateKey,
    WalletError,
>)
    ensures
        match made {
            Ok(key) => bip32_master(network, seed@) == Some(key@),
            Err(e) => e == WalletError::DerivationError && bip32_master(network, seed@) is None,
        },
{
    match master_key(network, seed) {
        Ok(bytes) => Ok(ExtendedPrivateKey { bytes }),
        Err(_) => Err(WalletError::DerivationError),
    }
}

/// The bytes of a serialized key from `from` up to `to`.
pub fn key_bytes(key: &[u8; 78], from: usize, to: usize) -> (part: Vec<u8>)
    requires
        from <= to <= KEY_LEN,
    ensures
        part@ == key@.subrange(from as int, to as int),
{
    let mut part: Vec<u8> = Vec::new();
    let mut i: usize = from;
    while i < to
        invariant
            from <= i <= to <= KEY_LEN,
            part@ == key@.subrange(from as int, i as int),
        decreases to - i,
    {
        part.push(key[i]);
        assert(key@.subrange(from as int, i + 1) =~= key@.subrange(from as int, i as int).push(
            key@[i as int],
        ));
        i += 1;
    }
    part
}

/// Tells whether a keyed digest gives a child of a parent with `secret`: the
/// digest's left half is a scalar of the curve, and so is its sum with the
/// secret.
pub fn digest_gives_child(mac: &[u8; 64], secret: &[u8]) -> (defined: bool)
    ensures
        defined == scalar_sum_defined(mac@.take(SCALAR_LEN as int), secret@),
{
    let mut left: Vec<u8> = Vec::new();
    let mut i: usize = 0;
    while i < SCALAR_LEN
        invariant
            i <= SCALAR_LEN,
            left@ == mac@.take(i as int),
        decreases SCALAR_LEN - i,
    {
        left.push(mac[i]);
        assert(mac@.take(i + 1) =~= mac@.take(i as int).push(mac@[i as int]));
        i += 1;
    }
    scalar_sum_is_defined(left.as_slice(), secret)
}

/// The child of one hardened step: the child that the step derives, where
/// the index can be hardened and the keyed digest of the step gives a child.
pub open spec fn hardened_step(parent: Seq<u8>, index: u32) -> Option<Seq<u8>> {
    if index < HARDENED_LIMIT && hardened_step_defined(parent, index) {
        bip32_hardened_child(parent, index)
    } else {
        None
    }
}

/// Derives the child of `parent` at the hardened index `index`. The parent's
/// chain code keys the digest of a zero byte, the parent's secret and the
/// child number; where the digest gives no child, or the index is outside
/// the range that can be hardened, or the parent is no key or too deep, the
/// step is undefined and fails with `DerivationError`.
pub fn derive_hardened(parent: &ExtendedPrivateKey, index: u32) -> (made: Result<
    ExtendedPrivateKey,
    WalletError,
>)
    ensures
        match made {
            Ok(child) => hardened_step(parent@, index) == Some(child@),
            Err(e) => e == WalletError::DerivationError && hardened_step(parent@, index) is None,
        },
{
    if index >= HARDENED_LIMIT {
        return Err(WalletError::DerivationError);
    }
    let chain_code = key_bytes(&parent.bytes, CHAIN_CODE_START, CHAIN_CODE_END);
    let secret = key_bytes(&parent.bytes, SECRET_START, KEY_LEN);
    let number = be_split(index + HARDENED_LIMIT);
    let mut message: Vec<u8> = Vec::new();
    message.push(0u8);
    message.extend_from_slice(secret.as_slice());
    message.extend_from_slice(number.as_slice());
    assert(message@ =~= hardened_message(parent@, index));
    let mac = hmac_sha512(chain_code.as_slice(), message.as_slice());
    if !digest_gives_child(&mac, secret.as_slice()) {
        return Err(WalletError::DerivationError);
    }
    match hardened_child(&parent.bytes, index) {
        Ok(bytes) => Ok(ExtendedPrivateKey { bytes }),
        Err(_) => Err(WalletError::DerivationError),
    }
}

/// The private key at `m/<purpose>'/<coin_type>'/0'` below `master`: three
/// hardened steps, each defined only where the one before it is.
pub open spec fn account_private(master: Seq<u8>, purpose: u32, coin_type: u32) -> Option<
    Seq<u8>,
> {
    match hardened_step(master, purpose) {
        Some(at_purpose) => match hardened_step(at_purpose, coin_type) {
            Some(at_coin) => hardened_step(at_coin, 0),
            None => None,
        },
        None => None,
    }
}

/// The key pair at `m/<purpose>'/<coin_type>'/0'` below `master`: the private
/// key of three hardened steps, and its public counterpart.
pub open spec fn account_pair(master: Seq<u8>, purpose: u32, coin_type: u32) -> Option<
    (Seq<u8>, Seq<u8>),
> {
    match account_private(master, purpose, coin_type) {
        Some(private) => match bip32_public(private) {
            Some(public) => Some((private, public)),
            None => None,
        },
        None => None,
    }
}

/// Derives the account key pair at `m/<purpose>'/<coin_type>'/0'` below
/// `master`, one hardened step after the other, and fails with
/// `DerivationError` as soon as a step is undefined.
pub fn derive_account(master: &ExtendedPrivateKey, purpose: u32, coin_type: u32) -> (made: Result<
    AccountKeyPair,
    WalletError,
>)
    ensures
        match made {
            Ok(pair) => account_pair(master@, purpose, coin_type) == Some(
                (pair.private@, pair.public@),
            ),
            Err(e) => e == WalletError::DerivationError && account_pair(
                master@,
                purpose,
                coin_type,
            ) is None,
        },
{
    let at_purpose = match derive_hardened(master, purpose) {
        Ok(child) => child,
        Err(e) => {
            return Err(e);
        },
    };
    let at_coin = match derive_hardened(&at_purpose, coin_type) {
        Ok(child) => child,
        Err(e) => {
            return Err(e);
        },
    };
    let private = match derive_hardened(&at_coin, 0) {
        Ok(child) => child,
        Err(e) => {
            return Err(e);
        },
    };
    match public_key(&private.bytes) {
        Ok(public) => Ok(
            AccountKeyPair {
                private,
                public: ExtendedPublicKey { bytes: public },
            },
        ),
        Err(_) => Err(WalletError::DerivationError),
    }
}

/// The fingerprint of a private key: that of its public key, on which alone
/// it depends.
pub open spec fn fingerprint_of(master: Seq<u8>) -> Option<Seq<u8>> {
    match bip32_public(master) {
        Some(public) => bip32_fingerprint(public),
        None => None,
    }
}

/// The fingerprint of `master`: four bytes taken of its public key. Bytes
/// that are no private key have none.
pub fn fingerprint(master: &ExtendedPrivateKey) -> (taken: Result<[u8; 4], WalletError>)
    ensures
        match taken {
            Ok(print) => fingerprint_of(master@) == Some(print@),
            Err(e) => e == WalletError::MalformedExtendedKey && fingerprint_of(master@) is None,
        },
{
    let public = match public_key(&master.bytes) {
        Ok(public) => public,
        Err(_) => {
            return Err(WalletError::MalformedExtendedKey);
        },
    };
    match key_fingerprint(&public) {
        Ok(print) => Ok(print),
        Err(_) => Err(WalletError::MalformedExtendedKey),
    }
}

} // verus!
