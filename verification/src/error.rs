//! Failures of the derivation pipeline.

use crate::text::push_decimal_usize;
use vstd::prelude::*;

verus! {

/// Why a wallet could not be derived. Every failure is fatal for the run that
/// met it: nothing derived so far is to be shown.
#[derive(Clone, Copy, Debug, PartialEq, Eq, Structural)]
pub enum WalletError {
    /// Fewer dice symbols were supplied than the target strength needs.
    InsufficientEntropy { provided: usize, required: usize },
    /// An entropy buffer is neither 16 nor 32 bytes long.
    InvalidEntropyLength,
    /// An extended key does not decode to a well-formed 78-byte payload.
    MalformedExtendedKey,
    /// A child key is undefined for this parent and index.
    DerivationError,
    /// The system's source of randomness failed.
    RandomnessUnavailable,
}

impl WalletError {
    /// The text of the message for this failure.
    pub open spec fn message_text(self) -> Seq<char> {
        match self {
            WalletError::InsufficientEntropy { provided, required } => {
                "Insufficient data: "@ + crate::text::decimal(provided as nat) + " provided, minimum "@
                    + crate::text::decimal(required as nat)
            },
            WalletError::InvalidEntropyLength => "Invalid entropy length"@,
            WalletError::MalformedExtendedKey => "Malformed extended key"@,
            WalletError::DerivationError => "Key derivation failed"@,
            WalletError::RandomnessUnavailable => "System randomness unavailable"@,
        }
    }

    /// A one-line message for this failure.
    pub fn message(&self) -> (text: String)
        ensures
            text@ == self.message_text(),
    {
        match self {
            WalletError::InsufficientEntropy { provided, required } => {
                let mut text = String::from_str("Insufficient data: ");
                push_decimal_usize(&mut text, *provided);
                text.append(" provided, minimum ");
                push_decimal_usize(&mut text, *required);
                text
            },
            WalletError::InvalidEntropyLength => String::from_str("Invalid entropy length"),
            WalletError::MalformedExtendedKey => String::from_str("Malformed extended key"),
            WalletError::DerivationError => String::from_str("Key derivation failed"),
            WalletError::RandomnessUnavailable => String::from_str(
                "System randomness unavailable",
            ),
        }
    }
}

} // verus!
