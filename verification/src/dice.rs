//! Dice as a source of entropy: how many rolls a target needs.

use crate::error::WalletError;
use crate::pow_bounds::{lemma_log6_lower, lemma_log6_upper, lemma_pow_base_le, lemma_pow_base_lt};
use crate::random::{random_in_range, seeded_generator};
use crate::text::{digit_char, push_digit};
use rand::rngs::{StdRng, SysError};
use vstd::arithmetic::power::*;
use vstd::prelude::*;

verus! {

/// The widest entropy the mixer can deliver, in bits: one digest.
pub const MAX_ENTROPY_BITS: usize = 256;

/// `n` rolls of a fair die carry at least `bits` bits of entropy, that is
/// `n * log2(6) >= bits`, written without logarithms as `6^n >= 2^bits`.
pub open spec fn dice_cover(n: nat, bits: nat) -> bool {
    pow(6, n) >= pow(2, bits)
}

/// `n` is the least number of rolls that covers `bits`.
pub open spec fn is_required_dice(n: nat, bits: nat) -> bool {
    &&& dice_cover(n, bits)
    &&& forall|m: nat| m < n ==> !dice_cover(m, bits)
}

/// Rolls that outweigh `bits` at the rate 137/53 bits per roll cover `bits`.
pub proof fn lemma_cover_from_lower_bound(n: nat, bits: nat)
    requires
        137 * n >= 53 * bits,
    ensures
        dice_cover(n, bits),
{
    let a = pow(6, n);
    let b = pow(2, bits);
    lemma_pow_positive(6, n);
    lemma_pow_positive(2, bits);
    if a < b {
        // a^53 < b^53
        lemma_pow_base_lt(a, b, 53);
        // a^53 = 6^(53 n), b^53 = 2^(53 bits)
        lemma_pow_multiplies(6, n, 53);
        lemma_pow_multiplies(2, bits, 53);
        // 2^(53 bits) <= 2^(137 n) = (2^137)^n <= (6^53)^n = 6^(53 n)
        lemma_pow_increases(2, 53 * bits, 137 * n);
        lemma_pow_multiplies(2, 137, n);
        lemma_pow_multiplies(6, 53, n);
        lemma_log6_lower();
        lemma_pow_positive(2, 137);
        lemma_pow_base_le(pow(2, 137), pow(6, 53), n);
        assert(n * 53 == 53 * n && bits * 53 == 53 * bits && 137 * n == n * 137);
        assert(false);
    }
}

/// Rolls that weigh no more than `bits` at the rate 380/147 bits per roll,
/// where `bits` is positive, fall short of `bits`.
pub proof fn lemma_short_from_upper_bound(m: nat, bits: nat)
    requires
        380 * m <= 147 * bits,
        bits > 0,
    ensures
        !dice_cover(m, bits),
{
    let a = pow(6, m);
    let b = pow(2, bits);
    lemma_pow_positive(6, m);
    lemma_pow_positive(2, bits);
    if m == 0 {
        lemma_pow0(6);
        lemma_pow0(2);
        lemma_pow_strictly_increases(2, 0, bits);
    } else if a >= b {
        // b^147 <= a^147
        lemma_pow_base_le(b, a, 147);
        lemma_pow_multiplies(6, m, 147);
        lemma_pow_multiplies(2, bits, 147);
        // 6^(147 m) = (6^147)^m < (2^380)^m = 2^(380 m) <= 2^(147 bits)
        lemma_pow_multiplies(6, 147, m);
        lemma_pow_multiplies(2, 380, m);
        lemma_log6_upper();
        lemma_pow_positive(6, 147);
        lemma_pow_base_lt(pow(6, 147), pow(2, 380), m);
        lemma_pow_increases(2, 380 * m, 147 * bits);
        assert(m * 147 == 147 * m && bits * 147 == 147 * bits && 380 * m == m * 380);
        assert(false);
    }
}

/// More rolls never carry less.
pub proof fn lemma_cover_monotonic(m: nat, n: nat, bits: nat)
    requires
        m <= n,
        dice_cover(m, bits),
    ensures
        dice_cover(n, bits),
{
    lemma_pow_increases(6, m, n);
}

/// The least number of rolls that covers `bits`: `ceil(bits / log2(6))`.
pub open spec fn required_dice_count(bits: nat) -> nat {
    choose|n: nat| is_required_dice(n, bits)
}

/// The least number of rolls is unique.
pub proof fn lemma_required_dice_unique(n1: nat, n2: nat, bits: nat)
    requires
        is_required_dice(n1, bits),
        is_required_dice(n2, bits),
    ensures
        n1 == n2,
{
}

/// The count that the rate of 137 bits in 53 rolls gives, rounded up.
pub open spec fn dice_at_rate(bits: nat) -> nat {
    (bits * 53 + 136) / 137
}

/// Up to the widest entropy, counting at the rate of 137 bits in 53 rolls
/// gives the least number of rolls exactly.
pub proof fn lemma_dice_at_rate(bits: nat)
    requires
        bits <= MAX_ENTROPY_BITS,
    ensures
        is_required_dice(dice_at_rate(bits), bits),
        required_dice_count(bits) == dice_at_rate(bits),
{
    let n = dice_at_rate(bits);
    lemma_cover_from_lower_bound(n, bits);
    assert forall|m: nat| m < n implies !dice_cover(m, bits) by {
        let last = (n - 1) as nat;
        lemma_short_from_upper_bound(last, bits);
        if dice_cover(m, bits) {
            lemma_cover_monotonic(m, last, bits);
        }
    }
    assert(is_required_dice(n, bits));
    lemma_required_dice_unique(n, required_dice_count(bits), bits);
}

/// The least number of die rolls whose entropy reaches `bits` bits:
/// `ceil(bits / log2(6))`.
pub fn required_dice(bits: usize) -> (n: usize)
    requires
        bits <= MAX_ENTROPY_BITS,
    ensures
        is_required_dice(n as nat, bits as nat),
        n == required_dice_count(bits as nat),
        n <= bits,
{
    proof {
        lemma_dice_at_rate(bits as nat);
    }
    (bits * 53 + 136) / 137
}

/// For every supported size the count of `required_dice` brackets the target:
/// that many rolls reach `bits`, and one fewer falls short.
pub proof fn lemma_required_dice_brackets(bits: nat)
    requires
        bits <= MAX_ENTROPY_BITS,
    ensures
        dice_cover(required_dice_count(bits), bits),
        required_dice_count(bits) > 0 ==> !dice_cover(
            (required_dice_count(bits) - 1) as nat,
            bits,
        ),
        bits > 0 ==> required_dice_count(bits) > 0,
{
    lemma_dice_at_rate(bits);
}

/// A 128-bit target needs fifty rolls and a 256-bit target a hundred.
pub proof fn lemma_required_dice_values()
    ensures
        required_dice_count(128) == 50,
        required_dice_count(256) == 100,
{
    lemma_dice_at_rate(128);
    lemma_dice_at_rate(256);
}

/// The lowest face of a die.
pub const LOWEST_FACE: u8 = 1;

/// The highest face of a die.
pub const HIGHEST_FACE: u8 = 6;

/// Every symbol is the face of a die.
pub open spec fn is_dice(symbols: Seq<u8>) -> bool {
    forall|i: int|
        0 <= i < symbols.len() ==> LOWEST_FACE <= #[trigger] symbols[i] <= HIGHEST_FACE
}

/// Tells whether every symbol is the face of a die.
pub fn check_dice(symbols: &[u8]) -> (valid: bool)
    ensures
        valid == is_dice(symbols@),
{
    let mut i: usize = 0;
    while i < symbols.len()
        invariant
            i <= symbols.len(),
            is_dice(symbols@.take(i as int)),
        decreases symbols.len() - i,
    {
        if symbols[i] < LOWEST_FACE || symbols[i] > HIGHEST_FACE {
            return false;
        }
        assert forall|k: int| 0 <= k < i + 1 implies 1 <= #[trigger] symbols@.take(i + 1)[k]
            <= 6 by {
            if k < i {
                assert(symbols@.take(i as int)[k] == symbols@[k]);
            }
        }
        i += 1;
    }
    assert(symbols@.take(symbols.len() as int) =~= symbols@);
    true
}

/// Whether `count` rolls carry `bits_target` bits.
pub fn enough_dice(count: usize, bits_target: usize) -> (ready: bool)
    requires
        bits_target <= MAX_ENTROPY_BITS,
    ensures
        ready == dice_cover(count as nat, bits_target as nat),
        ready == (count >= required_dice_count(bits_target as nat)),
{
    let needed = required_dice(bits_target);
    proof {
        if count >= needed {
            lemma_cover_monotonic(needed as nat, count as nat, bits_target as nat);
        }
    }
    count >= needed
}

/// Rolls a die `count` times with `generator`.
pub fn roll_dice(generator: &mut StdRng, count: usize) -> (dice: Vec<u8>)
    ensures
        dice@.len() == count,
        is_dice(dice@),
{
    let mut dice: Vec<u8> = Vec::new();
    let mut i: usize = 0;
    while i < count
        invariant
            i <= count,
            dice@.len() == i,
            is_dice(dice@),
        decreases count - i,
    {
        let face = random_in_range(generator, LOWEST_FACE, HIGHEST_FACE);
        dice.push(face);
        i += 1;
    }
    dice
}

/// What comes of an attempt to seed a generator: `count` rolls of a die where
/// the system gave a generator, and `RandomnessUnavailable` where it gave its
/// error. A failed seeding yields no dice from anywhere else.
pub fn dice_of_seeding(seeded: Result<StdRng, SysError>, count: usize) -> (rolled: Result<
    Vec<u8>,
    WalletError,
>)
    ensures
        rolled is Ok <==> seeded is Ok,
        match rolled {
            Ok(dice) => dice@.len() == count && is_dice(dice@),
            Err(e) => e == WalletError::RandomnessUnavailable,
        },
{
    match seeded {
        Ok(mut generator) => Ok(roll_dice(&mut generator, count)),
        Err(_) => Err(WalletError::RandomnessUnavailable),
    }
}

/// `count` rolls of a die, drawn from a generator that the system seeds: the
/// outcome of `dice_of_seeding` for one attempt to seed.
pub fn generate_random_dice(count: usize) -> (rolled: Result<Vec<u8>, WalletError>)
    ensures
        match rolled {
            Ok(dice) => dice@.len() == count && is_dice(dice@),
            Err(e) => e == WalletError::RandomnessUnavailable,
        },
{
    dice_of_seeding(seeded_generator(), count)
}

/// The dice written as digits, one per roll.
pub open spec fn dice_text(dice: Seq<u8>) -> Seq<char> {
    Seq::new(dice.len(), |i: int| digit_char(dice[i] as nat))
}

/// Writes the dice as a string of digits, one per roll.
pub fn dice_string(dice: &[u8]) -> (text: String)
    requires
        is_dice(dice@),
    ensures
        text@ == dice_text(dice@),
{
    let mut text = String::new();
    let mut i: usize = 0;
    while i < dice.len()
        invariant
            i <= dice.len(),
            is_dice(dice@),
            text@ == dice_text(dice@.take(i as int)),
        decreases dice.len() - i,
    {
        push_digit(&mut text, dice[i]);
        assert(dice_text(dice@.take(i + 1)) =~= dice_text(dice@.take(i as int)).push(
            digit_char(dice@[i as int] as nat),
        ));
        i += 1;
    }
    assert(dice@.take(dice.len() as int) =~= dice@);
    text
}

/// A key pressed while dice are typed in.
#[derive(Clone, Copy, Debug, PartialEq, Eq, Structural)]
pub enum DiceKey {
    /// A character key.
    Char(char),
    /// The key that takes the last roll back.
    Backspace,
    /// The key that ends the entry.
    Enter,
    /// Any other key.
    Other,
}

/// The face that the character `c` stands for, if it is one of `1` to `6`.
pub open spec fn face_of(c: char) -> Option<u8> {
    if '1' <= c <= '6' {
        Some((c as u8 - 48) as u8)
    } else {
        None
    }
}

/// The rolls entered so far, after `key` was pressed.
pub open spec fn after_key(dice: Seq<u8>, key: DiceKey) -> Seq<u8> {
    match key {
        DiceKey::Char(c) => match face_of(c) {
            Some(face) => dice.push(face),
            None => dice,
        },
        DiceKey::Backspace => if dice.len() > 0 {
            dice.drop_last()
        } else {
            dice
        },
        DiceKey::Enter => dice,
        DiceKey::Other => dice,
    }
}

/// Takes one key of a manual entry: a digit from 1 to 6 adds a roll,
/// backspace removes the last one, and enter ends the entry. Returns whether
/// the entry has ended. What any other key does is nothing.
pub fn press_key(dice: &mut Vec<u8>, key: DiceKey) -> (done: bool)
    requires
        is_dice(old(dice)@),
    ensures
        final(dice)@ == after_key(old(dice)@, key),
        is_dice(final(dice)@),
        done == (key == DiceKey::Enter),
{
    match key {
        DiceKey::Char(c) => {
            if '1' <= c && c <= '6' {
                let face: u8 = c as u8 - 48;
                dice.push(face);
            }
            false
        },
        DiceKey::Backspace => {
            dice.pop();
            false
        },
        DiceKey::Enter => true,
        DiceKey::Other => false,
    }
}

} // verus!
