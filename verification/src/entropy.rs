//! The entropy mixer: from dice symbols to the buffer a mnemonic is made of.

use crate::dice::{required_dice, required_dice_count, MAX_ENTROPY_BITS};
use crate::error::WalletError;
use crate::hash::{hash, sha256, DIGEST_LEN};
use crate::random::{random_byte, seeded_generator};
use rand::rngs::{StdRng, SysError};
use vstd::prelude::*;

verus! {

/// Where the entropy comes from.
#[derive(Clone, Copy, Debug, PartialEq, Eq, Structural)]
pub enum EntropyMode {
    /// The dice alone.
    Deterministic,
    /// The dice, combined with randomness of the system.
    Hybrid,
}

/// The digest of a dice sequence.
pub fn dice_hash(dice: &[u8]) -> (digest: Vec<u8>)
    ensures
        digest@ == sha256(dice@),
        digest@.len() == DIGEST_LEN,
{
    hash(dice)
}

/// The digest of `a` followed by `b`: it depends on both and gives away neither.
pub fn combine_entropy(a: &[u8], b: &[u8]) -> (digest: Vec<u8>)
    ensures
        digest@ == sha256(a@ + b@),
        digest@.len() == DIGEST_LEN,
{
    let mut joined: Vec<u8> = Vec::new();
    joined.extend_from_slice(a);
    joined.extend_from_slice(b);
    assert(joined@ =~= a@ + b@);
    hash(joined.as_slice())
}

/// The first `bits / 8` bytes of `entropy`.
pub fn truncate_entropy(entropy: &[u8], bits: usize) -> (head: Vec<u8>)
    requires
        bits / 8 <= entropy@.len(),
    ensures
        head@ == entropy@.take((bits / 8) as int),
{
    let keep: usize = bits / 8;
    let mut head: Vec<u8> = Vec::new();
    let mut i: usize = 0;
    while i < keep
        invariant
            i <= keep <= entropy@.len(),
            head@ == entropy@.take(i as int),
        decreases keep - i,
    {
        head.push(entropy[i]);
        i += 1;
    }
    head
}

/// Draws `bytes` bytes from `generator`, one after the other.
pub fn draw_bytes(generator: &mut StdRng, bytes: usize) -> (buffer: Vec<u8>)
    ensures
        buffer@.len() == bytes,
{
    let mut buffer: Vec<u8> = Vec::new();
    let mut i: usize = 0;
    while i < bytes
        invariant
            i <= bytes,
            buffer@.len() == i,
        decreases bytes - i,
    {
        let byte = random_byte(generator);
        buffer.push(byte);
        i += 1;
    }
    buffer
}

/// What comes of an attempt to seed a generator: `bytes` bytes drawn from it
/// where the system gave a generator, and `RandomnessUnavailable` where it
/// gave its error. A failed seeding yields no buffer: there is no weaker
/// source to fall back on.
pub fn entropy_of_seeding(seeded: Result<StdRng, SysError>, bytes: usize) -> (drawn: Result<
    Vec<u8>,
    WalletError,
>)
    ensures
        drawn is Ok <==> seeded is Ok,
        match drawn {
            Ok(buffer) => buffer@.len() == bytes,
            Err(e) => e == WalletError::RandomnessUnavailable,
        },
{
    match seeded {
        Ok(mut generator) => Ok(draw_bytes(&mut generator, bytes)),
        Err(_) => Err(WalletError::RandomnessUnavailable),
    }
}

/// `bytes` bytes of the system's randomness: the outcome of
/// `entropy_of_seeding` for one attempt to seed, made once and not repeated.
pub fn generate_system_entropy(bytes: usize) -> (drawn: Result<Vec<u8>, WalletError>)
    ensures
        match drawn {
            Ok(buffer) => buffer@.len() == bytes,
            Err(e) => e == WalletError::RandomnessUnavailable,
        },
{
    entropy_of_seeding(seeded_generator(), bytes)
}

/// The digest that is truncated to the entropy buffer: the dice digest alone,
/// or, with a buffer of randomness, the digest of the two joined.
pub open spec fn entropy_source(dice: Seq<u8>, randomness: Option<Seq<u8>>) -> Seq<u8> {
    match randomness {
        None => sha256(dice),
        Some(r) => sha256(sha256(dice) + r),
    }
}

/// What the mixer owes for `dice`, the optional `randomness` and `bits`:
/// the first `bits / 8` bytes of the source digest when the dice suffice,
/// and a report of the shortfall when they do not.
pub open spec fn mixed(dice: Seq<u8>, randomness: Option<Seq<u8>>, bits: nat) -> Result<
    Seq<u8>,
    WalletError,
> {
    if dice.len() < required_dice_count(bits) {
        Err(
            WalletError::InsufficientEntropy {
                provided: dice.len() as usize,
                required: required_dice_count(bits) as usize,
            },
        )
    } else {
        Ok(entropy_source(dice, randomness).take((bits / 8) as int))
    }
}

/// `out` is the outcome `expected`, the buffer taken by its contents.
pub open spec fn is_outcome(
    out: Result<Vec<u8>, WalletError>,
    expected: Result<Seq<u8>, WalletError>,
) -> bool {
    match (out, expected) {
        (Ok(buffer), Ok(bytes)) => buffer@ == bytes,
        (Err(e), Err(f)) => e == f,
        _ => false,
    }
}

/// Mixes `dice` with the buffer `randomness`, if one is given, into an entropy
/// buffer of `bits / 8` bytes. The dice must number at least
/// `required_dice(bits)`: fewer are refused, never padded.
pub fn mix_with(dice: &[u8], randomness: Option<&[u8]>, bits: usize) -> (out: Result<
    Vec<u8>,
    WalletError,
>)
    requires
        bits <= MAX_ENTROPY_BITS,
    ensures
        is_outcome(
            out,
            mixed(
                dice@,
                match randomness {
                    Some(r) => Some(r@),
                    None => None,
                },
                bits as nat,
            ),
        ),
        out is Ok ==> out->Ok_0@.len() == bits / 8,
{
    let required = required_dice(bits);
    if dice.len() < required {
        return Err(WalletError::InsufficientEntropy { provided: dice.len(), required });
    }
    let dice_digest = dice_hash(dice);
    let source = match randomness {
        None => dice_digest,
        Some(r) => combine_entropy(dice_digest.as_slice(), r),
    };
    Ok(truncate_entropy(source.as_slice(), bits))
}

/// Mixes `dice` into an entropy buffer of `bits / 8` bytes. In the hybrid mode
/// one digest's length of the system's randomness is drawn, once, and mixed
/// in; in the deterministic mode the buffer depends on the dice alone.
pub fn mix(dice: &[u8], mode: EntropyMode, bits: usize) -> (out: Result<Vec<u8>, WalletError>)
    requires
        bits <= MAX_ENTROPY_BITS,
    ensures
        mode == EntropyMode::Deterministic ==> is_outcome(out, mixed(dice@, None, bits as nat)),
        dice@.len() < required_dice_count(bits as nat) ==> is_outcome(
            out,
            mixed(dice@, None, bits as nat),
        ),
        mode == EntropyMode::Hybrid && dice@.len() >= required_dice_count(bits as nat)
            ==> match out {
            Ok(buffer) => exists|randomness: Seq<u8>|
                randomness.len() == DIGEST_LEN && buffer@ == #[trigger] entropy_source(
                    dice@,
                    Some(randomness),
                ).take((bits / 8) as int),
            Err(e) => e == WalletError::RandomnessUnavailable,
        },
        out is Ok ==> out->Ok_0@.len() == bits / 8,
{
    match mode {
        EntropyMode::Deterministic => mix_with(dice, None, bits),
        EntropyMode::Hybrid => {
            let required = required_dice(bits);
            if dice.len() < required {
                return Err(WalletError::InsufficientEntropy { provided: dice.len(), required });
            }
            match generate_system_entropy(DIGEST_LEN) {
                Ok(randomness) => {
                    let out = mix_with(dice, Some(randomness.as_slice()), bits);
                    assert(out is Ok ==> out->Ok_0@ == entropy_source(
                        dice@,
                        Some(randomness@),
                    ).take((bits / 8) as int));
                    out
                },
                Err(e) => Err(e),
            }
        },
    }
}

} // verus!
