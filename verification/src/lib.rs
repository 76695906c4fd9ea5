//! Bitcoin wallet material from dice.
//!
//! Dice symbols, alone or mixed with the system's randomness, are hashed into
//! an entropy buffer; the buffer gives a mnemonic sentence, the sentence and a
//! passphrase a seed, the seed a master key, and the master key the account
//! key pair at `m/<purpose>'/<coin_type>'/0'`, with its descriptors and its
//! first receive addresses. Hashing, word lists and elliptic-curve arithmetic
//! are those of the `sha2`, `bip39` and `bitcoin` crates: what they return is
//! named, not proved. What this crate does with it is verified.

pub mod address;
pub mod args;
pub mod base58;
pub mod big_endian;
pub mod descriptor;
pub mod dice;
pub mod entropy;
pub mod error;
pub mod export;
pub mod hash;
pub mod keys;
pub mod mnemonic;
pub mod offline;
pub mod pow_bounds;
pub mod random;
pub mod slip132;
pub mod slogan;
pub mod text;
pub mod wallet;
