//! Mnemonic sentences and the seeds derived from them, by the `bip39` crate.

use crate::error::WalletError;
use vstd::prelude::*;

verus! {

/// `bip39::Error`.
#[verifier::external_type_specification]
#[verifier::external_body]
pub struct ExBip39Error(bip39::Error);

/// The positions in the word list that `bip39::Mnemonic::word_indices` gives
/// for the mnemonic of `entropy`, where the entropy has one.
pub uninterp spec fn bip39_indices(entropy: Seq<u8>) -> Option<Seq<u16>>;

/// The English words that `bip39::Mnemonic::words` gives for the mnemonic of
/// `entropy`, where the entropy has one.
pub uninterp spec fn bip39_words(entropy: Seq<u8>) -> Option<Seq<Seq<char>>>;

/// The seed that `bip39::Mnemonic::to_seed` derives from the mnemonic of
/// `entropy` and a passphrase, where the entropy has a mnemonic.
pub uninterp spec fn bip39_seed(entropy: Seq<u8>, passphrase: Seq<char>) -> Option<Seq<u8>>;

/// The entropy lengths that `bip39::Mnemonic::from_entropy` accepts: a
/// multiple of four bytes, from 16 to 32.
pub open spec fn has_mnemonic(entropy: Seq<u8>) -> bool {
    entropy.len() % 4 == 0 && 16 <= entropy.len() <= 32
}

/// Makes the mnemonic with `Mnemonic::from_entropy` and collects its
/// `word_indices`. Trusted: it succeeds exactly on the lengths the crate
/// documents; the positions are a function of the entropy alone, three for
/// every four bytes, each below 2048.
#[verifier::external_body]
pub(crate) fn word_indices_of(entropy: &[u8]) -> (made: Result<Vec<u16>, bip39::Error>)
    ensures
        made is Ok <==> has_mnemonic(entropy@),
        match made {
            Ok(indices) => bip39_indices(entropy@) == Some(indices@) && indices@.len()
                == entropy@.len() * 3 / 4 && forall|i: int|
                0 <= i < indices@.len() ==> #[trigger] indices@[i] < 2048,
            Err(_) => bip39_indices(entropy@) is None,
        },
{
    Ok(bip39::Mnemonic::from_entropy(entropy)?.word_indices().map(|i| i as u16).collect())
}

/// Makes the mnemonic with `Mnemonic::from_entropy` and collects its `words`.
/// Trusted: it succeeds exactly on the lengths the crate documents; the words
/// are a function of the entropy alone, three for every four bytes.
#[verifier::external_body]
pub(crate) fn words_of(entropy: &[u8]) -> (made: Result<Vec<String>, bip39::Error>)
    ensures
        made is Ok <==> has_mnemonic(entropy@),
        match made {
            Ok(words) => bip39_words(entropy@) == Some(words.deep_view()) && words@.len()
                == entropy@.len() * 3 / 4,
            Err(_) => bip39_words(entropy@) is None,
        },
{
    Ok(bip39::Mnemonic::from_entropy(entropy)?.words().map(|w| w.to_string()).collect())
}

/// Makes the mnemonic with `Mnemonic::from_entropy` and derives its seed with
/// `Mnemonic::to_seed`. Trusted: it succeeds exactly on the lengths the crate
/// documents, and the seed is a function of entropy and passphrase alone.
#[verifier::external_body]
pub(crate) fn seed_of(entropy: &[u8], passphrase: &str) -> (made: Result<[u8; 64], bip39::Error>)
    ensures
        made is Ok <==> has_mnemonic(entropy@),
        match made {
            Ok(seed) => bip39_seed(entropy@, passphrase@) == Some(seed@),
            Err(_) => bip39_seed(entropy@, passphrase@) is None,
        },
{
    Ok(bip39::Mnemonic::from_entropy(entropy)?.to_seed(passphrase))
}

/// A mnemonic sentence of 12 or 24 English words: the entropy it was made of,
/// its words, and their positions in the word list.
#[derive(Debug)]
pub struct Mnemonic {
    entropy: Vec<u8>,
    indices: Vec<u16>,
    words: Vec<String>,
}

impl View for Mnemonic {
    type V = Seq<u8>;

    /// A mnemonic stands for the entropy it encodes.
    closed spec fn view(&self) -> Seq<u8> {
        self.entropy@
    }
}

impl Mnemonic {
    #[verifier::type_invariant]
    closed spec fn well_formed(self) -> bool {
        &&& self.entropy@.len() == 16 || self.entropy@.len() == 32
        &&& bip39_indices(self.entropy@) == Some(self.indices@)
        &&& bip39_words(self.entropy@) == Some(self.words.deep_view())
        &&& self.indices@.len() == self.entropy@.len() * 3 / 4
        &&& self.words@.len() == self.indices@.len()
        &&& forall|i: int| 0 <= i < self.indices@.len() ==> #[trigger] self.indices@[i] < 2048
    }

    /// The entropy that the sentence encodes.
    pub fn entropy(&self) -> (entropy: &Vec<u8>)
        ensures
            entropy@ == self@,
            self@.len() == 16 || self@.len() == 32,
    {
        proof {
            use_type_invariant(self);
        }
        &self.entropy
    }

    /// The words of the sentence, in order.
    pub fn words(&self) -> (words: &Vec<String>)
        ensures
            bip39_words(self@) == Some(words.deep_view()),
            words@.len() == self@.len() * 3 / 4,
    {
        proof {
            use_type_invariant(self);
        }
        &self.words
    }

    /// The position of each word in the list of 2048 words, in order.
    pub fn word_indices(&self) -> (indices: &Vec<u16>)
        ensures
            bip39_indices(self@) == Some(indices@),
            indices@.len() == self@.len() * 3 / 4,
            forall|i: int| 0 <= i < indices@.len() ==> #[trigger] indices@[i] < 2048,
    {
        proof {
            use_type_invariant(self);
        }
        &self.indices
    }

    /// The number of words: 12 for 16 bytes of entropy, 24 for 32.
    pub fn word_count(&self) -> (count: usize)
        ensures
            count == self@.len() * 3 / 4,
            count == 12 || count == 24,
    {
        proof {
            use_type_invariant(self);
        }
        self.words.len()
    }
}

/// The mnemonic of an entropy buffer. A buffer that is not exactly 16 or 32
/// bytes long has none.
pub fn to_mnemonic(entropy: &[u8]) -> (made: Result<Mnemonic, WalletError>)
    ensures
        made is Ok <==> (entropy@.len() == 16 || entropy@.len() == 32),
        match made {
            Ok(mnemonic) => mnemonic@ == entropy@,
            Err(e) => e == WalletError::InvalidEntropyLength,
        },
{
    if entropy.len() != 16 && entropy.len() != 32 {
        return Err(WalletError::InvalidEntropyLength);
    }
    let indices = match word_indices_of(entropy) {
        Ok(indices) => indices,
        Err(_) => {
            return Err(WalletError::InvalidEntropyLength);
        },
    };
    let words = match words_of(entropy) {
        Ok(words) => words,
        Err(_) => {
            return Err(WalletError::InvalidEntropyLength);
        },
    };
    let mut copy: Vec<u8> = Vec::new();
    copy.extend_from_slice(entropy);
    assert(copy@ =~= entropy@);
    Ok(Mnemonic { entropy: copy, indices, words })
}

/// The seed of a mnemonic and a passphrase, which may be empty: 64 bytes, ever
/// the same for the same sentence and passphrase.
pub fn to_seed(mnemonic: &Mnemonic, passphrase: &str) -> (seed: [u8; 64])
    ensures
        bip39_seed(mnemonic@, passphrase@) == Some(seed@),
{
    proof {
        use_type_invariant(mnemonic);
    }
    match seed_of(mnemonic.entropy.as_slice(), passphrase) {
        Ok(seed) => seed,
        Err(_) => vstd::pervasive::unreached(),
    }
}

} // verus!
