use seedctl::args::{contains_flag, select_action, CliAction};
use seedctl::entropy::EntropyMode;
use seedctl::error::WalletError;
use seedctl::export::{
    export_wallet, fingerprint_hex, network_name, script_type_name, SoftwareInfo,
};
use seedctl::keys::{Network, ScriptType};
use seedctl::slogan::{program_name_banner, slogan};
use seedctl::wallet::{derive_wallet, generate_wallet, ADDRESS_COUNT};

fn software() -> SoftwareInfo {
    SoftwareInfo {
        name: "seedctl".to_string(),
        version: "0.1.0".to_string(),
        repository: "https://example.org/seedctl".to_string(),
    }
}

#[test]
fn golden_wallet_of_zero_entropy() {
    let zeros = [0u8; 32];
    let wallet =
        derive_wallet(&zeros[..16], "", Network::Bitcoin, ScriptType::Bip84, ADDRESS_COUNT)
            .unwrap();
    let words: Vec<&str> = wallet.mnemonic.words().iter().map(|w| w.as_str()).collect();
    assert_eq!(
        words.join(" "),
        "abandon abandon abandon abandon abandon abandon abandon abandon abandon abandon abandon about"
    );
    assert_eq!(wallet.derivation_path, "m/84'/0'/0'");
    assert_eq!(wallet.fingerprint, [0x73, 0xc5, 0xda, 0x0a]);
    assert_eq!(
        wallet.account_xpub,
        "zpub6rFR7y4Q2AijBEqTUquhVz398htDFrtymD9xYYfG1m4wAcvPhXNfE3EfH1r1ADqtfSdVCToUG868RvUUkgDKf31mGDtKsAYz2oz2AGutZYs"
    );
    assert_eq!(
        wallet.account_xprv,
        "zprvAdG4iTXWBoARxkkzNpNh8r6Qag3irQB8PzEMkAFeTRXxHpbF9z4QgEvBRmfvqWvGp42t42nvgGpNgYSJA9iefm1yYNZKEm7z6qUWCroSQnE"
    );
    assert_eq!(wallet.key_origin, "[73c5da0a/84h/0h/0h]");
    assert_eq!(
        wallet.receive_descriptor,
        "wpkh([73c5da0a/84h/0h/0h]zpub6rFR7y4Q2AijBEqTUquhVz398htDFrtymD9xYYfG1m4wAcvPhXNfE3EfH1r1ADqtfSdVCToUG868RvUUkgDKf31mGDtKsAYz2oz2AGutZYs/0/*)"
    );
    assert_eq!(
        wallet.change_descriptor,
        "wpkh([73c5da0a/84h/0h/0h]zpub6rFR7y4Q2AijBEqTUquhVz398htDFrtymD9xYYfG1m4wAcvPhXNfE3EfH1r1ADqtfSdVCToUG868RvUUkgDKf31mGDtKsAYz2oz2AGutZYs/1/*)"
    );
    assert_eq!(wallet.addresses.len(), 10);
    assert_eq!(wallet.addresses[0].index, 0);
    assert_eq!(wallet.addresses[0].address, "bc1qcr8te4kr609gcawutmrza0j4xv80jy8z306fyu");
    assert_eq!(wallet.addresses[9].index, 9);
    assert_eq!(wallet.network, Network::Bitcoin);
    assert_eq!(wallet.script, ScriptType::Bip84);
}

#[test]
fn golden_wallet_repeats() {
    let first =
        derive_wallet(&[0u8; 16], "", Network::Bitcoin, ScriptType::Bip84, 10).unwrap();
    let second =
        derive_wallet(&[0u8; 16], "", Network::Bitcoin, ScriptType::Bip84, 10).unwrap();
    assert_eq!(first.mnemonic.words(), second.mnemonic.words());
    assert_eq!(first.account, second.account);
    assert_eq!(first.account_xpub, second.account_xpub);
    assert_eq!(first.account_xprv, second.account_xprv);
    assert_eq!(first.addresses, second.addresses);
}

#[test]
fn wallet_of_each_script_type() {
    let nested =
        derive_wallet(&[0u8; 16], "", Network::Bitcoin, ScriptType::Bip49, 1).unwrap();
    assert_eq!(nested.derivation_path, "m/49'/0'/0'");
    assert!(nested.account_xpub.starts_with("ypub"));
    assert!(nested.account_xprv.starts_with("yprv"));
    assert_eq!(nested.key_origin, "[73c5da0a/49h/0h/0h]");
    assert_eq!(
        nested.receive_descriptor,
        format!("sh(wpkh({}{}/0/*))", nested.key_origin, nested.account_xpub)
    );
    assert_eq!(nested.addresses[0].address, "37VucYSaXLCAsxYyAPfbSi9eh4iEcbShgf");
    let legacy =
        derive_wallet(&[0u8; 16], "", Network::Bitcoin, ScriptType::Bip44, 1).unwrap();
    assert_eq!(legacy.derivation_path, "m/44'/0'/0'");
    assert!(legacy.account_xpub.starts_with("xpub"));
    assert!(legacy.account_xprv.starts_with("xprv"));
    assert_eq!(
        legacy.change_descriptor,
        format!("pkh({}{}/1/*)", legacy.key_origin, legacy.account_xpub)
    );
    assert_eq!(legacy.addresses[0].address, "1LqBGSKuX5yYUonjxT5qGfpUsXKYYWeabA");
}

#[test]
fn wallet_on_the_test_network() {
    let wallet =
        derive_wallet(&[1u8; 32], "pass", Network::Testnet, ScriptType::Bip84, 3).unwrap();
    assert_eq!(wallet.derivation_path, "m/84'/1'/0'");
    assert_eq!(wallet.mnemonic.word_count(), 24);
    assert!(wallet.key_origin.ends_with("/84h/1h/0h]"));
    assert!(wallet.addresses.iter().all(|a| a.address.starts_with("tb1q")));
    assert!(wallet.account_xpub.starts_with("zpub"));
}

#[test]
fn wallet_of_entropy_of_a_wrong_length() {
    for len in [0usize, 15, 20, 24, 33] {
        let entropy = vec![0u8; len];
        let made = derive_wallet(&entropy, "", Network::Bitcoin, ScriptType::Bip84, 10);
        assert!(matches!(made, Err(WalletError::InvalidEntropyLength)));
    }
}

#[test]
fn wallet_without_addresses() {
    let wallet = derive_wallet(&[0u8; 16], "", Network::Bitcoin, ScriptType::Bip84, 0).unwrap();
    assert!(wallet.addresses.is_empty());
    assert_eq!(wallet.key_origin, "[73c5da0a/84h/0h/0h]");
}

#[test]
fn legacy_keys_on_the_test_network_keep_the_standard_prefix() {
    let wallet = derive_wallet(&[0u8; 16], "", Network::Testnet, ScriptType::Bip44, 1).unwrap();
    assert_eq!(wallet.derivation_path, "m/44'/1'/0'");
    assert!(wallet.account_xpub.starts_with("xpub"));
    assert!(wallet.account_xprv.starts_with("xprv"));
    assert_eq!(&wallet.account.public.bytes[0..4], &[0x04, 0x35, 0x87, 0xCF]);
    assert_eq!(&wallet.account.private.bytes[0..4], &[0x04, 0x35, 0x83, 0x94]);
    let decoded = seedctl::slip132::decode_key(&wallet.account_xpub).unwrap();
    assert_eq!(&decoded[0..4], &[0x04, 0x88, 0xB2, 0x1E]);
    assert_eq!(&decoded[4..], &wallet.account.public.bytes[4..]);
    assert!(wallet.addresses[0].address.starts_with('m') || wallet.addresses[0].address.starts_with('n'));
}

#[test]
fn thirty_two_dice_are_too_few_and_fifty_repeat() {
    let short: Vec<u8> =
        "12345612345612345612345612345612".chars().map(|c| c as u8 - b'0').collect();
    let made = generate_wallet(
        &short,
        EntropyMode::Deterministic,
        128,
        "",
        Network::Bitcoin,
        ScriptType::Bip84,
        10,
    );
    assert!(matches!(
        made,
        Err(WalletError::InsufficientEntropy { provided: 32, required: 50 })
    ));
    let enough: Vec<u8> = vec![3u8; 50];
    let first = generate_wallet(
        &enough,
        EntropyMode::Deterministic,
        128,
        "",
        Network::Bitcoin,
        ScriptType::Bip84,
        10,
    )
    .unwrap();
    let second = generate_wallet(
        &enough,
        EntropyMode::Deterministic,
        128,
        "",
        Network::Bitcoin,
        ScriptType::Bip84,
        10,
    )
    .unwrap();
    assert_eq!(first.mnemonic.words(), second.mnemonic.words());
    assert_eq!(first.mnemonic.word_count(), 12);
    assert_eq!(first.account_xpub, second.account_xpub);
    assert_eq!(first.addresses, second.addresses);
}

#[test]
fn hybrid_wallets_differ() {
    let dice: Vec<u8> = vec![6u8; 100];
    let first = generate_wallet(
        &dice,
        EntropyMode::Hybrid,
        256,
        "",
        Network::Bitcoin,
        ScriptType::Bip84,
        1,
    )
    .unwrap();
    let second = generate_wallet(
        &dice,
        EntropyMode::Hybrid,
        256,
        "",
        Network::Bitcoin,
        ScriptType::Bip84,
        1,
    )
    .unwrap();
    assert_eq!(first.mnemonic.word_count(), 24);
    assert_ne!(first.mnemonic.entropy(), second.mnemonic.entropy());
    assert_ne!(first.account_xpub, second.account_xpub);
}

#[test]
fn a_target_that_is_no_mnemonic_strength() {
    let dice: Vec<u8> = vec![6u8; 100];
    let made = generate_wallet(
        &dice,
        EntropyMode::Deterministic,
        64,
        "",
        Network::Bitcoin,
        ScriptType::Bip84,
        1,
    );
    assert!(matches!(made, Err(WalletError::InvalidEntropyLength)));
}

#[test]
fn watch_only_record_holds_no_private_key() {
    let wallet =
        derive_wallet(&[0u8; 16], "", Network::Bitcoin, ScriptType::Bip84, 10).unwrap();
    let record = export_wallet(software(), &wallet, true);
    assert_eq!(record.software, software());
    assert_eq!(record.network, "bitcoin");
    assert_eq!(record.script_type, "bip84");
    assert_eq!(record.key_origin.fingerprint, "73c5da0a");
    assert_eq!(record.key_origin.derivation_path, "m/84'/0'/0'");
    assert!(record.watch_only);
    assert_eq!(record.keys.account_xpub, wallet.account_xpub);
    assert_eq!(record.keys.account_xprv, None);
    assert_eq!(record.descriptors.receive, wallet.receive_descriptor);
    assert_eq!(record.descriptors.change, wallet.change_descriptor);
}

#[test]
fn full_record_holds_the_private_key() {
    let wallet =
        derive_wallet(&[0u8; 16], "", Network::Testnet, ScriptType::Bip49, 1).unwrap();
    let record = export_wallet(software(), &wallet, false);
    assert!(!record.watch_only);
    assert_eq!(record.network, "testnet");
    assert_eq!(record.script_type, "bip49");
    assert_eq!(record.keys.account_xprv, Some(wallet.account_xprv.clone()));
}

#[test]
fn names_in_a_record() {
    assert_eq!(network_name(Network::Bitcoin), "bitcoin");
    assert_eq!(network_name(Network::Testnet), "testnet");
    assert_eq!(script_type_name(ScriptType::Bip44), "bip44");
    assert_eq!(script_type_name(ScriptType::Bip49), "bip49");
    assert_eq!(script_type_name(ScriptType::Bip84), "bip84");
    assert_eq!(fingerprint_hex([0x00, 0xab, 0x0c, 0xff]), "00ab0cff");
}

#[test]
fn emblem_text() {
    let text = slogan();
    assert!(text.starts_with("\n      \t\t....                 ....\n"));
    assert!(text.contains("=++ ._||. :+++-"));
    assert!(text.ends_with("                            :.\n  "));
    assert_eq!(text.lines().count(), 19);
}

#[test]
fn banner_with_a_version() {
    let text = program_name_banner("1.2.3");
    assert!(text.starts_with("\n             ___             _  ___ _____ _\n"));
    assert!(text.ends_with("            |___/\\___\\___\\__,_|\\___| |_| |____| version: 1.2.3\n  "));
    assert_eq!(text.lines().count(), 6);
}

#[test]
fn banner_without_a_version() {
    let text = program_name_banner("");
    assert!(text.ends_with("            |___/\\___\\___\\__,_|\\___| |_| |____| \n  "));
    assert!(!text.contains("version"));
    assert_eq!(
        program_name_banner("x"),
        text.replace("|____| \n", "|____| version: x\n")
    );
}

fn arguments(list: &[&str]) -> Vec<String> {
    list.iter().map(|a| a.to_string()).collect()
}

#[test]
fn action_of_the_arguments() {
    assert_eq!(select_action(&arguments(&["seedctl"])), CliAction::Run);
    assert_eq!(select_action(&arguments(&[])), CliAction::Run);
    assert_eq!(select_action(&arguments(&["seedctl", "--version"])), CliAction::Version);
    assert_eq!(select_action(&arguments(&["seedctl", "-V"])), CliAction::Version);
    assert_eq!(select_action(&arguments(&["seedctl", "--about"])), CliAction::About);
    assert_eq!(select_action(&arguments(&["seedctl", "--help"])), CliAction::About);
    assert_eq!(
        select_action(&arguments(&["seedctl", "--help", "--version"])),
        CliAction::Version
    );
    assert_eq!(select_action(&arguments(&["seedctl", "-v", "--Version"])), CliAction::Run);
    assert_eq!(select_action(&arguments(&["seedctl", "--versions"])), CliAction::Run);
}

#[test]
fn flag_among_the_arguments() {
    let args = arguments(&["a", "--about", "b"]);
    assert!(contains_flag(&args, "--about"));
    assert!(contains_flag(&args, "a"));
    assert!(!contains_flag(&args, "--abou"));
    assert!(!contains_flag(&arguments(&[]), ""));
}
