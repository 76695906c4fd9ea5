use rand::rngs::{StdRng, SysError};
use rand::SeedableRng;
use seedctl::dice::required_dice;
use seedctl::entropy::{
    combine_entropy, dice_hash, draw_bytes, entropy_of_seeding, generate_system_entropy, mix,
    mix_with, truncate_entropy, EntropyMode,
};
use seedctl::error::WalletError;
use seedctl::hash::{hash, hash_twice};
use sha2::{Digest, Sha256};

fn unhex(text: &str) -> Vec<u8> {
    let digits: Vec<u8> = text.chars().map(|c| c.to_digit(16).unwrap() as u8).collect();
    digits.chunks(2).map(|pair| pair[0] * 16 + pair[1]).collect()
}

fn dice_of(text: &str) -> Vec<u8> {
    text.chars().map(|c| c.to_digit(10).unwrap() as u8).collect()
}

#[test]
fn hash_of_nothing() {
    assert_eq!(
        hash(&[]),
        unhex("e3b0c44298fc1c149afbf4c8996fb92427ae41e4649b934ca495991b7852b855")
    );
}

#[test]
fn hash_of_abc() {
    assert_eq!(
        hash(b"abc"),
        unhex("ba7816bf8f01cfea414140de5dae2223b00361a396177a9cb410ff61f20015ad")
    );
}

#[test]
fn hash_twice_is_the_hash_of_the_hash() {
    let once = hash(b"hello");
    assert_eq!(hash_twice(b"hello"), hash(&once));
    assert_eq!(
        hash_twice(b"hello"),
        unhex("9595c9df90075148eb06860365df33584b75bff782a510c6cd4883a419833d50")
    );
}

#[test]
fn dice_hash_hashes_the_faces_as_bytes() {
    let dice: Vec<u8> = vec![1, 2, 3, 4, 5, 6];
    assert_eq!(dice_hash(&dice), Sha256::digest(&dice).to_vec());
    assert_eq!(dice_hash(&dice).len(), 32);
    assert_ne!(dice_hash(&dice), dice);
}

#[test]
fn combine_entropy_hashes_the_two_joined() {
    let a: Vec<u8> = vec![1, 2, 3];
    let b: Vec<u8> = vec![4, 5];
    assert_eq!(combine_entropy(&a, &b), Sha256::digest([1u8, 2, 3, 4, 5]).to_vec());
    let mut hasher = Sha256::new();
    hasher.update(&a);
    hasher.update(&b);
    assert_eq!(combine_entropy(&a, &b), hasher.finalize().to_vec());
    assert_ne!(combine_entropy(&a, &b), combine_entropy(&b, &a));
}

#[test]
fn truncate_entropy_keeps_the_first_bytes() {
    let digest: Vec<u8> = (0u8..32).collect();
    assert_eq!(truncate_entropy(&digest, 128), (0u8..16).collect::<Vec<u8>>());
    assert_eq!(truncate_entropy(&digest, 256), digest);
    assert_eq!(truncate_entropy(&digest, 0), Vec::<u8>::new());
    assert_eq!(truncate_entropy(&digest, 15), vec![0u8]);
}

#[test]
fn system_entropy_has_the_length_asked_for() {
    assert_eq!(generate_system_entropy(32).unwrap().len(), 32);
    assert_eq!(generate_system_entropy(0).unwrap().len(), 0);
    assert_ne!(generate_system_entropy(32).unwrap(), generate_system_entropy(32).unwrap());
}

#[test]
fn mix_refuses_too_few_dice() {
    let dice = dice_of("12345612345612345612345612345612");
    assert_eq!(dice.len(), 32);
    assert!(required_dice(128) > 32);
    assert_eq!(
        mix(&dice, EntropyMode::Deterministic, 128),
        Err(WalletError::InsufficientEntropy { provided: 32, required: 50 })
    );
    assert_eq!(
        mix(&dice, EntropyMode::Hybrid, 128),
        Err(WalletError::InsufficientEntropy { provided: 32, required: 50 })
    );
}

#[test]
fn mix_refuses_one_die_too_few() {
    let dice: Vec<u8> = vec![3; 49];
    assert_eq!(
        mix(&dice, EntropyMode::Deterministic, 128),
        Err(WalletError::InsufficientEntropy { provided: 49, required: 50 })
    );
    let dice: Vec<u8> = vec![3; 99];
    assert_eq!(
        mix(&dice, EntropyMode::Deterministic, 256),
        Err(WalletError::InsufficientEntropy { provided: 99, required: 100 })
    );
}

#[test]
fn mix_deterministic_is_the_truncated_digest() {
    let dice: Vec<u8> = vec![4; 50];
    let entropy = mix(&dice, EntropyMode::Deterministic, 128).unwrap();
    assert_eq!(entropy, Sha256::digest(&dice)[..16].to_vec());
    let dice: Vec<u8> = vec![4; 100];
    let entropy = mix(&dice, EntropyMode::Deterministic, 256).unwrap();
    assert_eq!(entropy, Sha256::digest(&dice).to_vec());
}

#[test]
fn mix_deterministic_repeats() {
    let dice = dice_of("12345612345612345612345612345612345612345612345612");
    assert_eq!(dice.len(), 50);
    let first = mix(&dice, EntropyMode::Deterministic, 128).unwrap();
    let second = mix(&dice, EntropyMode::Deterministic, 128).unwrap();
    assert_eq!(first, second);
    assert_eq!(first.len(), 16);
}

#[test]
fn mix_hybrid_differs_from_run_to_run() {
    let dice: Vec<u8> = vec![2; 100];
    let first = mix(&dice, EntropyMode::Hybrid, 256).unwrap();
    let second = mix(&dice, EntropyMode::Hybrid, 256).unwrap();
    assert_eq!(first.len(), 32);
    assert_eq!(second.len(), 32);
    assert_ne!(first, second);
    assert_ne!(first, mix(&dice, EntropyMode::Deterministic, 256).unwrap());
}

#[test]
fn mix_with_randomness_hashes_digest_and_randomness() {
    let dice: Vec<u8> = vec![5; 50];
    let randomness: Vec<u8> = (100u8..132).collect();
    let mut joined = Sha256::digest(&dice).to_vec();
    joined.extend_from_slice(&randomness);
    let expected = Sha256::digest(&joined)[..16].to_vec();
    assert_eq!(mix_with(&dice, Some(&randomness), 128), Ok(expected));
    assert_eq!(
        mix_with(&dice, None, 128),
        Ok(Sha256::digest(&dice)[..16].to_vec())
    );
    assert_eq!(
        mix_with(&dice[..10], Some(&randomness), 128),
        Err(WalletError::InsufficientEntropy { provided: 10, required: 50 })
    );
}

#[test]
fn insufficient_entropy_message() {
    let e = WalletError::InsufficientEntropy { provided: 32, required: 50 };
    assert_eq!(e.message(), "Insufficient data: 32 provided, minimum 50");
    assert_eq!(WalletError::InvalidEntropyLength.message(), "Invalid entropy length");
    assert_eq!(WalletError::MalformedExtendedKey.message(), "Malformed extended key");
    assert_eq!(WalletError::DerivationError.message(), "Key derivation failed");
    assert_eq!(
        WalletError::RandomnessUnavailable.message(),
        "System randomness unavailable"
    );
}

#[test]
fn failed_seeding_gives_no_buffer() {
    assert_eq!(
        entropy_of_seeding(Err(SysError::UNSUPPORTED), 32),
        Err(WalletError::RandomnessUnavailable)
    );
    assert_eq!(
        entropy_of_seeding(Err(SysError::UNEXPECTED), 0),
        Err(WalletError::RandomnessUnavailable)
    );
}

#[test]
fn seeded_generator_gives_a_buffer() {
    let buffer = entropy_of_seeding(Ok(StdRng::seed_from_u64(3)), 32).unwrap();
    assert_eq!(buffer.len(), 32);
    assert_ne!(buffer, vec![0u8; 32]);
    assert_eq!(entropy_of_seeding(Ok(StdRng::seed_from_u64(3)), 0), Ok(vec![]));
}

#[test]
fn drawn_bytes_follow_the_generator() {
    let mut first = StdRng::seed_from_u64(5);
    let mut second = StdRng::seed_from_u64(5);
    let mut other = StdRng::seed_from_u64(6);
    let a = draw_bytes(&mut first, 64);
    let b = draw_bytes(&mut second, 64);
    let c = draw_bytes(&mut other, 64);
    assert_eq!(a.len(), 64);
    assert_eq!(a, b);
    assert_ne!(a, c);
    assert_ne!(a, draw_bytes(&mut first, 64));
}
