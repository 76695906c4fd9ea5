//! The whole derivation: from entropy, or from dice, to the keys, descriptors
//! and addresses of one account.

use crate::address::{
    address_on_chain, addresses_derived, addresses_undefined, derive_addresses, DerivedAddress,
};
use crate::descriptor::{
    derivation_path, derivation_path_text, descriptor_text, format_key_origin, key_origin_text,
    script_descriptor,
};
use crate::dice::MAX_ENTROPY_BITS;
use crate::entropy::{entropy_source, is_outcome, mix, mixed, EntropyMode};
use crate::error::WalletError;
use crate::hash::DIGEST_LEN;
use crate::keys::{
    account_pair, bip32_master, derive_account, derive_master, fingerprint, fingerprint_of,
    AccountKeyPair, Network, ScriptType,
};
use crate::mnemonic::{bip39_seed, to_mnemonic, to_seed, Mnemonic};
use crate::slip132::{
    account_xprv_text, account_xpub_text, private_version_of, public_version_of, reencoded,
};
use vstd::prelude::*;

verus! {

/// The number of receive addresses that a wallet lists.
pub const ADDRESS_COUNT: u32 = 10;

/// The chain of the addresses to receive on.
pub const RECEIVE_CHAIN: u32 = 0;

/// The chain of the addresses for change.
pub const CHANGE_CHAIN: u32 = 1;

/// What one derivation yields for display and export.
#[derive(Debug)]
pub struct Wallet {
    pub network: Network,
    pub script: ScriptType,
    pub mnemonic: Mnemonic,
    pub derivation_path: String,
    pub fingerprint: [u8; 4],
    pub account: AccountKeyPair,
    pub account_xprv: String,
    pub account_xpub: String,
    pub key_origin: String,
    pub receive_descriptor: String,
    pub change_descriptor: String,
    pub addresses: Vec<DerivedAddress>,
}

/// The serialized master key of the mnemonic of `entropy` with a passphrase.
pub open spec fn master_of(entropy: Seq<u8>, passphrase: Seq<char>, network: Network) -> Option<
    Seq<u8>,
> {
    match bip39_seed(entropy, passphrase) {
        Some(seed) => bip32_master(network, seed),
        None => None,
    }
}

/// Why no wallet comes of `entropy`, if none does: the first stage of the
/// derivation that fails, with its failure.
pub open spec fn derivation_failure(
    entropy: Seq<u8>,
    passphrase: Seq<char>,
    network: Network,
    script: ScriptType,
    count: u32,
) -> Option<WalletError> {
    let master = master_of(entropy, passphrase, network);
    let pair = account_pair(master->Some_0, script.purpose_of(), network.coin_type_of());
    if entropy.len() != 16 && entropy.len() != 32 {
        Some(WalletError::InvalidEntropyLength)
    } else if master is None {
        Some(WalletError::DerivationError)
    } else if pair is None {
        Some(WalletError::DerivationError)
    } else if fingerprint_of(master->Some_0) is None {
        Some(WalletError::MalformedExtendedKey)
    } else if addresses_undefined(pair->Some_0.1, script, network, RECEIVE_CHAIN, count) {
        Some(WalletError::DerivationError)
    } else {
        None
    }
}

impl Wallet {
    /// The wallet is the one of `entropy`, the passphrase, the network and the
    /// script type, with the first `count` receive addresses: every field is
    /// what its stage of the derivation gives.
    pub open spec fn derived_from(
        self,
        entropy: Seq<u8>,
        passphrase: Seq<char>,
        network: Network,
        script: ScriptType,
        count: u32,
    ) -> bool {
        let purpose = script.purpose_of();
        let coin_type = network.coin_type_of();
        let master = master_of(entropy, passphrase, network);
        &&& self.network == network
        &&& self.script == script
        &&& self.mnemonic@ == entropy
        &&& master is Some
        &&& account_pair(master->Some_0, purpose, coin_type) == Some(
            (self.account.private@, self.account.public@),
        )
        &&& fingerprint_of(master->Some_0) == Some(self.fingerprint@)
        &&& self.derivation_path@ == derivation_path_text(purpose, coin_type)
        &&& self.account_xprv@ == reencoded(self.account.private@, private_version_of(script))
        &&& self.account_xpub@ == reencoded(self.account.public@, public_version_of(script))
        &&& self.key_origin@ == key_origin_text(self.fingerprint@, purpose, coin_type)
        &&& self.receive_descriptor@ == descriptor_text(
            purpose,
            self.key_origin@,
            self.account_xpub@,
            RECEIVE_CHAIN,
        )
        &&& self.change_descriptor@ == descriptor_text(
            purpose,
            self.key_origin@,
            self.account_xpub@,
            CHANGE_CHAIN,
        )
        &&& addresses_derived(
            self.addresses@,
            self.account.public@,
            script,
            network,
            RECEIVE_CHAIN,
            count,
        )
    }
}

/// `made` is what the derivation owes for `entropy`: the wallet where every
/// stage is defined, and else the failure of the first stage that is not.
pub open spec fn is_wallet_outcome(
    made: Result<Wallet, WalletError>,
    entropy: Seq<u8>,
    passphrase: Seq<char>,
    network: Network,
    script: ScriptType,
    count: u32,
) -> bool {
    match made {
        Ok(wallet) => derivation_failure(entropy, passphrase, network, script, count) is None
            && wallet.derived_from(entropy, passphrase, network, script, count),
        Err(e) => derivation_failure(entropy, passphrase, network, script, count) == Some(e),
    }
}

/// Derives the wallet of an entropy buffer: its mnemonic, the seed of mnemonic
/// and passphrase, the master key, the account key pair at
/// `m/<purpose>'/<coin_type>'/0'`, the account keys under the prefix of the
/// script type, both descriptors and the first `count` receive addresses.
/// A failure at any stage ends the derivation: no part of a wallet is given.
pub fn derive_wallet(
    entropy: &[u8],
    passphrase: &str,
    network: Network,
    script: ScriptType,
    count: u32,
) -> (made: Result<Wallet, WalletError>)
    ensures
        is_wallet_outcome(made, entropy@, passphrase@, network, script, count),
{
    let purpose = script.purpose();
    let coin_type = network.coin_type();
    let mnemonic = match to_mnemonic(entropy) {
        Ok(mnemonic) => mnemonic,
        Err(e) => {
            return Err(e);
        },
    };
    let seed = to_seed(&mnemonic, passphrase);
    let master = match derive_master(network, seed.as_slice()) {
        Ok(master) => master,
        Err(e) => {
            return Err(e);
        },
    };
    let account = match derive_account(&master, purpose, coin_type) {
        Ok(account) => account,
        Err(e) => {
            return Err(e);
        },
    };
    let print = match fingerprint(&master) {
        Ok(print) => print,
        Err(e) => {
            return Err(e);
        },
    };
    let addresses = match derive_addresses(
        &account.public,
        script,
        network,
        RECEIVE_CHAIN,
        count,
    ) {
        Ok(addresses) => addresses,
        Err(e) => {
            return Err(e);
        },
    };
    proof {
        let chain_key = crate::keys::bip32_normal_child(account.public@, RECEIVE_CHAIN)->Some_0;
        assert forall|i: int| 0 <= i < count implies #[trigger] address_on_chain(
            script,
            network,
            chain_key,
            i as u32,
        ) is Some by {
            let _ = addresses@[i];
        }
    }
    let account_xprv = account_xprv_text(&account.private, script);
    let account_xpub = account_xpub_text(&account.public, script);
    let key_origin = format_key_origin(print, purpose, coin_type);
    let receive_descriptor = script_descriptor(
        script,
        key_origin.as_str(),
        account_xpub.as_str(),
        RECEIVE_CHAIN,
    );
    let change_descriptor = script_descriptor(
        script,
        key_origin.as_str(),
        account_xpub.as_str(),
        CHANGE_CHAIN,
    );
    Ok(
        Wallet {
            network,
            script,
            mnemonic,
            derivation_path: derivation_path(purpose, coin_type),
            fingerprint: print,
            account,
            account_xprv,
            account_xpub,
            key_origin,
            receive_descriptor,
            change_descriptor,
            addresses,
        },
    )
}

/// Generates a wallet from dice: mixes the dice into `bits / 8` bytes of
/// entropy, in the hybrid mode together with the system's randomness, and
/// derives the wallet of that entropy. Too few dice, or a failure of the
/// system's randomness, end the run before anything is derived.
pub fn generate_wallet(
    dice: &[u8],
    mode: EntropyMode,
    bits: usize,
    passphrase: &str,
    network: Network,
    script: ScriptType,
    count: u32,
) -> (made: Result<Wallet, WalletError>)
    requires
        bits <= MAX_ENTROPY_BITS,
    ensures
        mode == EntropyMode::Deterministic ==> match mixed(dice@, None, bits as nat) {
            Ok(entropy) => is_wallet_outcome(made, entropy, passphrase@, network, script, count),
            Err(e) => made is Err && made->Err_0 == e,
        },
        mode == EntropyMode::Hybrid ==> match mixed(dice@, None, bits as nat) {
            Ok(_) => (made is Err && made->Err_0 == WalletError::RandomnessUnavailable)
                || exists|randomness: Seq<u8>|
                randomness.len() == DIGEST_LEN && is_wallet_outcome(
                    made,
                    #[trigger] entropy_source(dice@, Some(randomness)).take((bits / 8) as int),
                    passphrase@,
                    network,
                    script,
                    count,
                ),
            Err(e) => made is Err && made->Err_0 == e,
        },
{
    match mix(dice, mode, bits) {
        Ok(entropy) => derive_wallet(entropy.as_slice(), passphrase, network, script, count),
        Err(e) => Err(e),
    }
}

/// The deterministic mixer is a function: two outcomes for the same dice and
/// size are the same outcome, and so are the seeds of the two buffers with
/// the same passphrase.
pub proof fn lemma_deterministic(
    dice: Seq<u8>,
    bits: nat,
    passphrase: Seq<char>,
    first: Result<Vec<u8>, WalletError>,
    second: Result<Vec<u8>, WalletError>,
)
    requires
        is_outcome(first, mixed(dice, None, bits)),
        is_outcome(second, mixed(dice, None, bits)),
    ensures
        first is Ok <==> second is Ok,
        first is Ok ==> first->Ok_0@ == second->Ok_0@ && bip39_seed(first->Ok_0@, passphrase)
            == bip39_seed(second->Ok_0@, passphrase),
        first is Err ==> first->Err_0 == second->Err_0,
{
}

/// Two wallets derived from the same entropy, passphrase, network and script
/// type agree in every key, string and address.
pub proof fn lemma_wallet_deterministic(
    first: Wallet,
    second: Wallet,
    entropy: Seq<u8>,
    passphrase: Seq<char>,
    network: Network,
    script: ScriptType,
    count: u32,
)
    requires
        first.derived_from(entropy, passphrase, network, script, count),
        second.derived_from(entropy, passphrase, network, script, count),
    ensures
        first.mnemonic@ == second.mnemonic@,
        first.fingerprint@ == second.fingerprint@,
        first.account.private@ == second.account.private@,
        first.account.public@ == second.account.public@,
        first.account_xprv@ == second.account_xprv@,
        first.account_xpub@ == second.account_xpub@,
        first.key_origin@ == second.key_origin@,
        first.receive_descriptor@ == second.receive_descriptor@,
        first.change_descriptor@ == second.change_descriptor@,
        first.addresses@.len() == second.addresses@.len(),
        forall|i: int|
            0 <= i < first.addresses@.len() ==> first.addresses@[i].index
                == second.addresses@[i].index && first.addresses@[i].address@
                == second.addresses@[i].address@,
{
    assert forall|i: int| 0 <= i < first.addresses@.len() implies first.addresses@[i].index
        == second.addresses@[i].index && first.addresses@[i].address@
        == second.addresses@[i].address@ by {
        let a = first.addresses@[i];
        let b = second.addresses@[i];
    }
}

} // verus!
