//! Base58 and Base58Check, with the alphabet work done by `bitcoin::base58`.

use crate::error::WalletError;
use crate::hash::{hash_twice, sha256d};
use bitcoin::base58::InvalidCharacterError;
use vstd::prelude::*;

verus! {

/// `bitcoin::base58::InvalidCharacterError`: a character outside the alphabet.
#[verifier::external_type_specification]
#[verifier::external_body]
pub struct ExInvalidCharacterError(InvalidCharacterError);

/// The string that `bitcoin::base58::encode` returns for `data`.
pub uninterp spec fn base58_text(data: Seq<u8>) -> Seq<char>;

/// The bytes that `bitcoin::base58::decode` returns for `text`, where it
/// returns any.
pub uninterp spec fn base58_bytes(text: Seq<char>) -> Option<Seq<u8>>;

/// Calls `bitcoin::base58::encode`. Trusted: the string is a function of the
/// bytes alone, and decoding it gives the bytes back.
#[verifier::external_body]
pub(crate) fn base58_encode(data: &[u8]) -> (text: String)
    ensures
        text@ == base58_text(data@),
        base58_bytes(text@) == Some(data@),
{
    bitcoin::base58::encode(data)
}

/// Calls `bitcoin::base58::decode`. Trusted: whether it succeeds, and with
/// which bytes, is a function of the string alone.
#[verifier::external_body]
pub(crate) fn base58_decode(text: &str) -> (decoded: Result<Vec<u8>, InvalidCharacterError>)
    ensures
        match decoded {
            Ok(data) => base58_bytes(text@) == Some(data@),
            Err(_) => base58_bytes(text@) is None,
        },
{
    bitcoin::base58::decode(text)
}

/// Length of the checksum that Base58Check appends.
pub const CHECKSUM_LEN: usize = 4;

/// The checksum of `data`: the first four bytes of its double digest.
pub open spec fn checksum(data: Seq<u8>) -> Seq<u8> {
    sha256d(data).take(4)
}

/// `data` followed by its checksum.
pub open spec fn checked(data: Seq<u8>) -> Seq<u8> {
    data + checksum(data)
}

/// The Base58Check string for `data`.
pub open spec fn check_encoded(data: Seq<u8>) -> Seq<char> {
    base58_text(checked(data))
}

/// The payload of checked bytes: what stands before the last four bytes, if
/// these are the checksum of what stands before them.
pub open spec fn unchecked(raw: Seq<u8>) -> Option<Seq<u8>> {
    if raw.len() >= 4 && raw.skip(raw.len() - 4) == checksum(raw.take(raw.len() - 4)) {
        Some(raw.take(raw.len() - 4))
    } else {
        None
    }
}

/// The payload that a Base58Check string stands for, if it is well formed.
pub open spec fn check_decoded(text: Seq<char>) -> Option<Seq<u8>> {
    match base58_bytes(text) {
        Some(raw) => unchecked(raw),
        None => None,
    }
}

/// Taking the checksum off checked bytes gives the bytes back.
pub proof fn lemma_unchecked_checked(data: Seq<u8>)
    ensures
        unchecked(checked(data)) == Some(data),
{
    let raw = checked(data);
    assert(raw.take(raw.len() - 4) =~= data);
    assert(raw.skip(raw.len() - 4) =~= checksum(data));
}

/// Appends to `data` the first four bytes of its double digest.
pub fn append_checksum(data: &[u8]) -> (raw: Vec<u8>)
    ensures
        raw@ == checked(data@),
        raw@.len() == data@.len() + CHECKSUM_LEN,
{
    let digest = hash_twice(data);
    let mut raw: Vec<u8> = Vec::new();
    raw.extend_from_slice(data);
    let mut i: usize = 0;
    while i < CHECKSUM_LEN
        invariant
            i <= CHECKSUM_LEN,
            digest@ == sha256d(data@),
            digest@.len() == 32,
            raw@ == data@ + digest@.take(i as int),
        decreases CHECKSUM_LEN - i,
    {
        raw.push(digest[i]);
        assert(digest@.take(i + 1) =~= digest@.take(i as int).push(digest@[i as int]));
        i += 1;
    }
    raw
}

/// Encodes `data` as Base58Check: the bytes, then their checksum, in Base58.
/// The string decodes to `data` again, with a checksum that holds.
pub fn encode_check(data: &[u8]) -> (text: String)
    ensures
        text@ == check_encoded(data@),
        check_decoded(text@) == Some(data@),
{
    let raw = append_checksum(data);
    proof {
        lemma_unchecked_checked(data@);
    }
    base58_encode(raw.as_slice())
}

/// Decodes a Base58Check string: the payload, provided that the string is
/// Base58, holds at least a checksum, and the checksum is that of the payload.
pub fn decode_check(text: &str) -> (decoded: Option<Vec<u8>>)
    ensures
        match decoded {
            Some(data) => check_decoded(text@) == Some(data@),
            None => check_decoded(text@) is None,
        },
{
    match base58_decode(text) {
        Err(_) => None,
        Ok(raw) => {
            if raw.len() < CHECKSUM_LEN {
                return None;
            }
            let cut: usize = raw.len() - CHECKSUM_LEN;
            let mut data: Vec<u8> = Vec::new();
            let mut i: usize = 0;
            while i < cut
                invariant
                    i <= cut <= raw@.len(),
                    data@ == raw@.take(i as int),
                decreases cut - i,
            {
                data.push(raw[i]);
                i += 1;
            }
            let digest = hash_twice(data.as_slice());
            let mut k: usize = 0;
            while k < CHECKSUM_LEN
                invariant
                    k <= CHECKSUM_LEN,
                    cut + CHECKSUM_LEN == raw@.len(),
                    raw@.len() <= usize::MAX,
                    base58_bytes(text@) == Some(raw@),
                    data@ == raw@.take(cut as int),
                    digest@ == sha256d(data@),
                    digest@.len() == 32,
                    forall|j: int| 0 <= j < k ==> raw@[cut + j] == digest@[j],
                decreases CHECKSUM_LEN - k,
            {
                if raw[cut + k] != digest[k] {
                    proof {
                        let tail = raw@.skip(raw@.len() - 4);
                        assert(tail[k as int] == raw@[cut + k]);
                        assert(checksum(data@)[k as int] == digest@[k as int]);
                    }
                    return None;
                }
                k += 1;
            }
            proof {
                assert(raw@.skip(raw@.len() - 4) =~= checksum(data@));
            }
            Some(data)
        },
    }
}

} // verus!
