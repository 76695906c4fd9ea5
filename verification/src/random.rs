//! Randomness, drawn through the `rand` crate from the operating system.

use rand::rngs::{StdRng, SysError, SysRng};
use rand::{RngExt, SeedableRng};
use vstd::prelude::*;

verus! {

/// `rand::rngs::StdRng`, the crate's cryptographically secure generator.
#[verifier::external_type_specification]
#[verifier::external_body]
pub struct ExStdRng(StdRng);

/// `rand::rngs::SysError`, the failure of the operating system's source.
#[verifier::external_type_specification]
#[verifier::external_body]
pub struct ExSysError(SysError);

/// Calls `StdRng::try_from_rng` on `SysRng`: a generator seeded by the
/// operating system, or the system's error. Nothing is claimed of either.
#[verifier::external_body]
pub(crate) fn seeded_generator() -> (seeded: Result<StdRng, SysError>) {
    StdRng::try_from_rng(&mut SysRng)
}

/// Calls `RngExt::random_range` with the range `low..=high`, which must not
/// be empty. Trusted: the value lies in that range, as the crate documents;
/// which value it is depends on chance.
#[verifier::external_body]
pub(crate) fn random_in_range(generator: &mut StdRng, low: u8, high: u8) -> (value: u8)
    requires
        low <= high,
    ensures
        low <= value <= high,
{
    generator.random_range(low..=high)
}

/// Calls `RngExt::random` for one byte. Every byte value may come back.
#[verifier::external_body]
pub(crate) fn random_byte(generator: &mut StdRng) -> (byte: u8) {
    generator.random::<u8>()
}

} // verus!
