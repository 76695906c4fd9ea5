//! Extended keys under the version prefix of their script type.
//!
//! A serialized key starts with four version bytes. Re-encoding a key writes
//! another prefix over them, leaves the other 74 bytes as they are, and
//! renders the 78 bytes as Base58Check.

use crate::base58::{check_decoded, check_encoded, decode_check, encode_check};
use crate::big_endian::{be_bytes, be_number, be_split, lemma_be_bytes_of_number};
use crate::error::WalletError;
use crate::keys::{ExtendedPrivateKey, ExtendedPublicKey, ScriptType, KEY_LEN};
use vstd::prelude::*;

verus! {

/// Length of the version prefix.
pub const VERSION_LEN: usize = 4;

/// Prefix of a standard private key (`xprv`).
pub const VERSION_XPRV: u32 = 0x0488ADE4;

/// Prefix of a standard public key (`xpub`).
pub const VERSION_XPUB: u32 = 0x0488B21E;

/// Prefix of a nested SegWit private key (`yprv`).
pub const VERSION_YPRV: u32 = 0x049D7878;

/// Prefix of a nested SegWit public key (`ypub`).
pub const VERSION_YPUB: u32 = 0x049D7CB2;

/// Prefix of a native SegWit private key (`zprv`).
pub const VERSION_ZPRV: u32 = 0x04B2430C;

/// Prefix of a native SegWit public key (`zpub`).
pub const VERSION_ZPUB: u32 = 0x04B24746;

/// The four bytes of `version`, most significant first.
pub open spec fn version_bytes(version: u32) -> Seq<u8> {
    be_bytes(version)
}

/// The number that four version bytes stand for, most significant first.
pub open spec fn version_number(bytes: Seq<u8>) -> u32 {
    be_number(bytes)
}

/// The version prefix of private keys of a script type.
pub open spec fn private_version_of(script: ScriptType) -> u32 {
    match script {
        ScriptType::Bip44 => VERSION_XPRV,
        ScriptType::Bip49 => VERSION_YPRV,
        ScriptType::Bip84 => VERSION_ZPRV,
    }
}

/// The version prefix of public keys of a script type.
pub open spec fn public_version_of(script: ScriptType) -> u32 {
    match script {
        ScriptType::Bip44 => VERSION_XPUB,
        ScriptType::Bip49 => VERSION_YPUB,
        ScriptType::Bip84 => VERSION_ZPUB,
    }
}

/// The version prefix of private keys of a script type.
pub fn private_version(script: ScriptType) -> (version: u32)
    ensures
        version == private_version_of(script),
{
    match script {
        ScriptType::Bip44 => VERSION_XPRV,
        ScriptType::Bip49 => VERSION_YPRV,
        ScriptType::Bip84 => VERSION_ZPRV,
    }
}

/// The version prefix of public keys of a script type.
pub fn public_version(script: ScriptType) -> (version: u32)
    ensures
        version == public_version_of(script),
{
    match script {
        ScriptType::Bip44 => VERSION_XPUB,
        ScriptType::Bip49 => VERSION_YPUB,
        ScriptType::Bip84 => VERSION_ZPUB,
    }
}

/// `payload` with `version` written over its first four bytes.
pub open spec fn with_version(payload: Seq<u8>, version: u32) -> Seq<u8> {
    version_bytes(version) + payload.skip(4)
}

/// The version that `payload` starts with.
pub open spec fn version_of(payload: Seq<u8>) -> u32 {
    version_number(payload.take(4))
}

/// The Base58Check string of `payload` under `version`.
pub open spec fn reencoded(payload: Seq<u8>, version: u32) -> Seq<char> {
    check_encoded(with_version(payload, version))
}

/// Four bytes stand for a number whose four bytes they are.
pub proof fn lemma_version_bytes_of_number(bytes: Seq<u8>)
    requires
        bytes.len() == 4,
    ensures
        version_bytes(version_number(bytes)) == bytes,
{
    lemma_be_bytes_of_number(bytes);
}

/// Writing a version over a key changes the first four bytes and no other.
pub proof fn lemma_with_version_keeps_payload(payload: Seq<u8>, version: u32)
    requires
        payload.len() == KEY_LEN,
    ensures
        with_version(payload, version).len() == KEY_LEN,
        with_version(payload, version).take(4) == version_bytes(version),
        with_version(payload, version).skip(4) == payload.skip(4),
        forall|i: int| 4 <= i < KEY_LEN ==> with_version(payload, version)[i] == payload[i],
{
    assert(with_version(payload, version).take(4) =~= version_bytes(version));
    assert(with_version(payload, version).skip(4) =~= payload.skip(4));
}

/// Writing a key's own version back over a re-versioned key restores the key.
pub proof fn lemma_version_restored(payload: Seq<u8>, version: u32)
    requires
        payload.len() == KEY_LEN,
    ensures
        with_version(with_version(payload, version), version_of(payload)) == payload,
{
    lemma_version_bytes_of_number(payload.take(4));
    lemma_with_version_keeps_payload(payload, version);
    assert(with_version(with_version(payload, version), version_of(payload)) =~= payload);
}

/// A key rendered under the `zpub` prefix decodes to the same 78 bytes but for
/// the prefix, and writing the key's own prefix back restores it whole.
pub proof fn lemma_zpub_round_trip(key: Seq<u8>, text: Seq<char>)
    requires
        key.len() == KEY_LEN,
        check_decoded(text) == Some(with_version(key, VERSION_ZPUB)),
    ensures
        key_decoded(text) == Ok::<Seq<u8>, WalletError>(with_version(key, VERSION_ZPUB)),
        key_decoded(text)->Ok_0.skip(4) == key.skip(4),
        with_version(key_decoded(text)->Ok_0, version_of(key)) == key,
{
    lemma_with_version_keeps_payload(key, VERSION_ZPUB);
    lemma_version_restored(key, VERSION_ZPUB);
}

/// Splits `version` into its four bytes, most significant first.
pub fn split_version(version: u32) -> (bytes: [u8; 4])
    ensures
        bytes@ == version_bytes(version),
{
    be_split(version)
}

/// Writes `version` over the first four bytes of a serialized key.
pub fn set_version(payload: &[u8; 78], version: u32) -> (out: [u8; 78])
    ensures
        out@ == with_version(payload@, version),
{
    let prefix = split_version(version);
    let mut out: [u8; 78] = *payload;
    let mut i: usize = 0;
    while i < VERSION_LEN
        invariant
            i <= VERSION_LEN,
            prefix@ == version_bytes(version),
            forall|k: int| 0 <= k < i ==> out@[k] == prefix@[k],
            forall|k: int| i <= k < 78 ==> out@[k] == payload@[k],
        decreases VERSION_LEN - i,
    {
        out[i] = prefix[i];
        i += 1;
    }
    assert(out@ =~= with_version(payload@, version));
    out
}

/// Renders a serialized key under another version prefix: the prefix is
/// written over bytes 0 to 3, the first four bytes of the double digest of the
/// 78 bytes are appended, and the 82 bytes are written in Base58. The string
/// decodes, with a checksum that holds, to the key under the new prefix.
pub fn reencode(payload: &[u8; 78], version: u32) -> (text: String)
    ensures
        text@ == reencoded(payload@, version),
        check_decoded(text@) == Some(with_version(payload@, version)),
{
    let out = set_version(payload, version);
    encode_check(out.as_slice())
}

/// Renders a key under the prefix it has.
pub fn encode_key(payload: &[u8; 78]) -> (text: String)
    ensures
        text@ == check_encoded(payload@),
        check_decoded(text@) == Some(payload@),
{
    encode_check(payload.as_slice())
}

/// What decoding `text` as an extended key gives: the 78 bytes that the
/// string stands for, and a failure for every other string.
pub open spec fn key_decoded(text: Seq<char>) -> Result<Seq<u8>, WalletError> {
    match check_decoded(text) {
        Some(payload) => if payload.len() == KEY_LEN {
            Ok(payload)
        } else {
            Err(WalletError::MalformedExtendedKey)
        },
        None => Err(WalletError::MalformedExtendedKey),
    }
}

/// Decodes the Base58Check string of an extended key to its 78 bytes.
pub fn decode_key(text: &str) -> (decoded: Result<[u8; 78], WalletError>)
    ensures
        match decoded {
            Ok(payload) => key_decoded(text@) == Ok::<Seq<u8>, WalletError>(payload@),
            Err(e) => key_decoded(text@) == Err::<Seq<u8>, WalletError>(e),
        },
{
    match decode_check(text) {
        None => Err(WalletError::MalformedExtendedKey),
        Some(data) => {
            if data.len() != KEY_LEN {
                return Err(WalletError::MalformedExtendedKey);
            }
            let mut payload: [u8; 78] = [0u8; 78];
            let mut i: usize = 0;
            while i < KEY_LEN
                invariant
                    i <= KEY_LEN,
                    data@.len() == KEY_LEN,
                    forall|k: int| 0 <= k < i ==> payload@[k] == data@[k],
                decreases KEY_LEN - i,
            {
                payload[i] = data[i];
                i += 1;
            }
            assert(payload@ =~= data@);
            Ok(payload)
        },
    }
}

/// Decodes an extended key from its string and renders it under `version`.
/// A string that does not decode to 78 bytes is a malformed key.
pub fn reencode_text(text: &str, version: u32) -> (out: Result<String, WalletError>)
    ensures
        match out {
            Ok(again) => key_decoded(text@) is Ok && again@ == reencoded(
                key_decoded(text@)->Ok_0,
                version,
            ) && key_decoded(again@) == Ok::<Seq<u8>, WalletError>(
                with_version(key_decoded(text@)->Ok_0, version),
            ),
            Err(e) => key_decoded(text@) == Err::<Seq<u8>, WalletError>(e),
        },
{
    match decode_key(text) {
        Ok(payload) => {
            proof {
                lemma_with_version_keeps_payload(payload@, version);
            }
            Ok(reencode(&payload, version))
        },
        Err(e) => Err(e),
    }
}

/// The public key under `version`.
pub fn convert_xpub_prefix(xpub: &ExtendedPublicKey, version: u32) -> (text: String)
    ensures
        text@ == reencoded(xpub@, version),
        check_decoded(text@) == Some(with_version(xpub@, version)),
{
    reencode(&xpub.bytes, version)
}

/// The private key under the `zprv` prefix of native SegWit.
pub fn xprv_to_zprv(xprv: &ExtendedPrivateKey) -> (text: String)
    ensures
        text@ == reencoded(xprv@, VERSION_ZPRV),
        check_decoded(text@) == Some(with_version(xprv@, VERSION_ZPRV)),
{
    reencode(&xprv.bytes, VERSION_ZPRV)
}

/// The public key under the `zpub` prefix of native SegWit.
pub fn xpub_to_zpub(xpub: &ExtendedPublicKey) -> (text: String)
    ensures
        text@ == reencoded(xpub@, VERSION_ZPUB),
        check_decoded(text@) == Some(with_version(xpub@, VERSION_ZPUB)),
{
    reencode(&xpub.bytes, VERSION_ZPUB)
}

/// The private key under the `yprv` prefix of nested SegWit.
pub fn xprv_to_yprv(xprv: &ExtendedPrivateKey) -> (text: String)
    ensures
        text@ == reencoded(xprv@, VERSION_YPRV),
        check_decoded(text@) == Some(with_version(xprv@, VERSION_YPRV)),
{
    reencode(&xprv.bytes, VERSION_YPRV)
}

/// The public key under the `ypub` prefix of nested SegWit.
pub fn xpub_to_ypub(xpub: &ExtendedPublicKey) -> (text: String)
    ensures
        text@ == reencoded(xpub@, VERSION_YPUB),
        check_decoded(text@) == Some(with_version(xpub@, VERSION_YPUB)),
{
    convert_xpub_prefix(xpub, VERSION_YPUB)
}

/// The account's public key as its script type writes it. The prefix goes by
/// the script type alone: it is the same on the main and the test network.
pub fn account_xpub_text(xpub: &ExtendedPublicKey, script: ScriptType) -> (text: String)
    ensures
        text@ == reencoded(xpub@, public_version_of(script)),
        check_decoded(text@) == Some(with_version(xpub@, public_version_of(script))),
{
    reencode(&xpub.bytes, public_version(script))
}

/// The account's private key as its script type writes it. The prefix goes by
/// the script type alone: it is the same on the main and the test network.
pub fn account_xprv_text(xprv: &ExtendedPrivateKey, script: ScriptType) -> (text: String)
    ensures
        text@ == reencoded(xprv@, private_version_of(script)),
        check_decoded(text@) == Some(with_version(xprv@, private_version_of(script))),
{
    reencode(&xprv.bytes, private_version(script))
}

} // verus!
