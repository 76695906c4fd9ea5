//! Numbers of 32 bits as four bytes, most significant first.

use vstd::arithmetic::div_mod::lemma_fundamental_div_mod_converse;
use vstd::prelude::*;

verus! {

/// The four bytes of `n`, most significant first.
pub open spec fn be_bytes(n: u32) -> Seq<u8> {
    seq![
        (n / 0x100_0000) as u8,
        (n / 0x1_0000 % 0x100) as u8,
        (n / 0x100 % 0x100) as u8,
        (n % 0x100) as u8,
    ]
}

/// The number that four bytes stand for, most significant first.
pub open spec fn be_number(bytes: Seq<u8>) -> u32 {
    (bytes[0] as u32 * 0x100_0000 + bytes[1] as u32 * 0x1_0000 + bytes[2] as u32 * 0x100
        + bytes[3] as u32) as u32
}

/// The number made of four bytes splits into those bytes again, each byte
/// shown by the quotient and remainder that pick it out.
pub proof fn lemma_join_then_split(b0: u8, b1: u8, b2: u8, b3: u8)
    ensures
        ({
            let n = b0 as int * 0x100_0000 + b1 as int * 0x1_0000 + b2 as int * 0x100 + b3 as int;
            &&& 0 <= n < 0x1_0000_0000
            &&& n / 0x100_0000 == b0
            &&& n / 0x1_0000 % 0x100 == b1
            &&& n / 0x100 % 0x100 == b2
            &&& n % 0x100 == b3
        }),
{
    let n = b0 as int * 0x100_0000 + b1 as int * 0x1_0000 + b2 as int * 0x100 + b3 as int;
    let top3 = b0 as int * 0x1_0000 + b1 as int * 0x100 + b2 as int;
    let top2 = b0 as int * 0x100 + b1 as int;
    assert(n / 0x100_0000 == b0) by {
        let low = b1 as int * 0x1_0000 + b2 as int * 0x100 + b3 as int;
        lemma_fundamental_div_mod_converse(n, 0x100_0000, b0 as int, low);
    }
    assert(n / 0x1_0000 == top2) by {
        let low = b2 as int * 0x100 + b3 as int;
        lemma_fundamental_div_mod_converse(n, 0x1_0000, top2, low);
    }
    assert(top2 % 0x100 == b1) by {
        lemma_fundamental_div_mod_converse(top2, 0x100, b0 as int, b1 as int);
    }
    assert(n / 0x100 == top3 && n % 0x100 == b3) by {
        lemma_fundamental_div_mod_converse(n, 0x100, top3, b3 as int);
    }
    assert(top3 % 0x100 == b2) by {
        lemma_fundamental_div_mod_converse(top3, 0x100, top2, b2 as int);
    }
}

/// Four bytes stand for a number whose four bytes they are.
pub proof fn lemma_be_bytes_of_number(bytes: Seq<u8>)
    requires
        bytes.len() == 4,
    ensures
        be_bytes(be_number(bytes)) == bytes,
{
    lemma_join_then_split(bytes[0], bytes[1], bytes[2], bytes[3]);
    let n = be_number(bytes);
    assert(n == bytes[0] as int * 0x100_0000 + bytes[1] as int * 0x1_0000 + bytes[2] as int
        * 0x100 + bytes[3] as int);
    let again = be_bytes(n);
    assert(again[0] == bytes[0]);
    assert(again[1] == bytes[1]);
    assert(again[2] == bytes[2]);
    assert(again[3] == bytes[3]);
    assert(again =~= bytes);
}

/// Splits `n` into its four bytes, most significant first.
pub fn be_split(n: u32) -> (bytes: [u8; 4])
    ensures
        bytes@ == be_bytes(n),
{
    let bytes: [u8; 4] = [
        (n / 0x100_0000) as u8,
        (n / 0x1_0000 % 0x100) as u8,
        (n / 0x100 % 0x100) as u8,
        (n % 0x100) as u8,
    ];
    assert(bytes@ =~= be_bytes(n));
    bytes
}

} // verus!
