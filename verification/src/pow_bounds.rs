//! Rational bounds on the binary logarithm of six.
//!
//! One die roll carries `log2(6)` bits. The two facts proved here, `6^53 > 2^137`
//! and `6^147 < 2^380`, enclose that irrational number between `137/53` and
//! `380/147`, which is tight enough to count dice exactly for every entropy
//! size the mixer supports.

use vstd::arithmetic::power::*;
use vstd::prelude::*;

verus! {

/// `6^53 = 174588755932389037098918153698611839369216`.
pub proof fn lemma_six_pow_53()
    ensures
        pow(6, 53) == 174588755932389037098918153698611839369216int,
{
    lemma_pow1(6);
    lemma_pow_adds(6, 1, 1);
    assert(pow(6, 2) == 36int) by {
        assert(6int * 6int == 36int);
    }
    lemma_pow_adds(6, 2, 2);
    assert(pow(6, 4) == 1296int) by {
        assert(36int * 36int == 1296int);
    }
    lemma_pow_adds(6, 4, 4);
    assert(pow(6, 8) == 1679616int) by {
        assert(1296int * 1296int == 1679616int);
    }
    lemma_pow_adds(6, 8, 8);
    assert(pow(6, 16) == 2821109907456int) by {
        assert(1679616int * 1679616int == 2821109907456int);
    }
    lemma_pow_adds(6, 16, 16);
    assert(pow(6, 32) == 7958661109946400884391936int) by {
        assert(2821109907456int * 2821109907456int == 7958661109946400884391936int);
    }
    lemma_pow_adds(6, 32, 16);
    assert(pow(6, 48) == 22452257707354557240087211123792674816int) by {
        assert(7958661109946400884391936int * 2821109907456int == 22452257707354557240087211123792674816int);
    }
    lemma_pow_adds(6, 48, 4);
    assert(pow(6, 52) == 29098125988731506183153025616435306561536int) by {
        assert(22452257707354557240087211123792674816int * 1296int == 29098125988731506183153025616435306561536int);
    }
    lemma_pow_adds(6, 52, 1);
    assert(pow(6, 53) == 174588755932389037098918153698611839369216int) by {
        assert(29098125988731506183153025616435306561536int * 6int == 174588755932389037098918153698611839369216int);
    }
}

/// `2^137 = 174224571863520493293247799005065324265472`.
pub proof fn lemma_two_pow_137()
    ensures
        pow(2, 137) == 174224571863520493293247799005065324265472int,
{
    lemma_pow1(2);
    lemma_pow_adds(2, 1, 1);
    assert(pow(2, 2) == 4int) by {
        assert(2int * 2int == 4int);
    }
    lemma_pow_adds(2, 2, 2);
    assert(pow(2, 4) == 16int) by {
        assert(4int * 4int == 16int);
    }
    lemma_pow_adds(2, 4, 4);
    assert(pow(2, 8) == 256int) by {
        assert(16int * 16int == 256int);
    }
    lemma_pow_adds(2, 8, 8);
    assert(pow(2, 16) == 65536int) by {
        assert(256int * 256int == 65536int);
    }
    lemma_pow_adds(2, 16, 16);
    assert(pow(2, 32) == 4294967296int) by {
        assert(65536int * 65536int == 4294967296int);
    }
    lemma_pow_adds(2, 32, 32);
    assert(pow(2, 64) == 18446744073709551616int) by {
        assert(4294967296int * 4294967296int == 18446744073709551616int);
    }
    lemma_pow_adds(2, 64, 64);
    assert(pow(2, 128) == 340282366920938463463374607431768211456int) by {
        assert(18446744073709551616int * 18446744073709551616int == 340282366920938463463374607431768211456int);
    }
    lemma_pow_adds(2, 128, 8);
    assert(pow(2, 136) == 87112285931760246646623899502532662132736int) by {
        assert(340282366920938463463374607431768211456int * 256int == 87112285931760246646623899502532662132736int);
    }
    lemma_pow_adds(2, 136, 1);
    assert(pow(2, 137) == 174224571863520493293247799005065324265472int) by {
        assert(87112285931760246646623899502532662132736int * 2int == 174224571863520493293247799005065324265472int);
    }
}

/// `6^147`, written out.
pub proof fn lemma_six_pow_147()
    ensures
        pow(6, 147)
            == 2444746349972956194083608044935243159422957210683702349648543934214737968217920868940091707112078529114392164827136int,
{
    lemma_pow1(6);
    lemma_pow_adds(6, 1, 1);
    assert(pow(6, 2) == 36int) by {
        assert(6int * 6int == 36int);
    }
    lemma_pow_adds(6, 2, 2);
    assert(pow(6, 4) == 1296int) by {
        assert(36int * 36int == 1296int);
    }
    lemma_pow_adds(6, 4, 4);
    assert(pow(6, 8) == 1679616int) by {
        assert(1296int * 1296int == 1679616int);
    }
    lemma_pow_adds(6, 8, 8);
    assert(pow(6, 16) == 2821109907456int) by {
        assert(1679616int * 1679616int == 2821109907456int);
    }
    lemma_pow_adds(6, 16, 16);
    assert(pow(6, 32) == 7958661109946400884391936int) by {
        assert(2821109907456int * 2821109907456int == 7958661109946400884391936int);
    }
    lemma_pow_adds(6, 32, 32);
    assert(pow(6, 64) == 63340286662973277706162286946811886609896461828096int) by {
        assert(7958661109946400884391936int * 7958661109946400884391936int == 63340286662973277706162286946811886609896461828096int);
    }
    lemma_pow_adds(6, 64, 64);
    assert(pow(6, 128) == 4011991914547630480065053387702443812690402487741812225955731622655455723258857248542161222254985216int) by {
        assert(63340286662973277706162286946811886609896461828096int * 63340286662973277706162286946811886609896461828096int == 4011991914547630480065053387702443812690402487741812225955731622655455723258857248542161222254985216int);
    }
    lemma_pow_adds(6, 128, 16);
    assert(pow(6, 144) == 11318270138763686083720407615440940552884061160572696063187703399142305408416300319167091236629993190344408170496int) by {
        assert(4011991914547630480065053387702443812690402487741812225955731622655455723258857248542161222254985216int * 2821109907456int == 11318270138763686083720407615440940552884061160572696063187703399142305408416300319167091236629993190344408170496int);
    }
    lemma_pow_adds(6, 144, 2);
    assert(pow(6, 146) == 407457724995492699013934674155873859903826201780617058274757322369122994702986811490015284518679754852398694137856int) by {
        assert(11318270138763686083720407615440940552884061160572696063187703399142305408416300319167091236629993190344408170496int * 36int == 407457724995492699013934674155873859903826201780617058274757322369122994702986811490015284518679754852398694137856int);
    }
    lemma_pow_adds(6, 146, 1);
    assert(pow(6, 147) == 2444746349972956194083608044935243159422957210683702349648543934214737968217920868940091707112078529114392164827136int) by {
        assert(407457724995492699013934674155873859903826201780617058274757322369122994702986811490015284518679754852398694137856int * 6int == 2444746349972956194083608044935243159422957210683702349648543934214737968217920868940091707112078529114392164827136int);
    }
}

/// `2^380`, written out.
pub proof fn lemma_two_pow_380()
    ensures
        pow(2, 380)
            == 2462625387274654950767440006258975862817483704404090416746768337765357610718575663213391640930307227550414249394176int,
{
    lemma_pow1(2);
    lemma_pow_adds(2, 1, 1);
    assert(pow(2, 2) == 4int) by {
        assert(2int * 2int == 4int);
    }
    lemma_pow_adds(2, 2, 2);
    assert(pow(2, 4) == 16int) by {
        assert(4int * 4int == 16int);
    }
    lemma_pow_adds(2, 4, 4);
    assert(pow(2, 8) == 256int) by {
        assert(16int * 16int == 256int);
    }
    lemma_pow_adds(2, 8, 8);
    assert(pow(2, 16) == 65536int) by {
        assert(256int * 256int == 65536int);
    }
    lemma_pow_adds(2, 16, 16);
    assert(pow(2, 32) == 4294967296int) by {
        assert(65536int * 65536int == 4294967296int);
    }
    lemma_pow_adds(2, 32, 32);
    assert(pow(2, 64) == 18446744073709551616int) by {
        assert(4294967296int * 4294967296int == 18446744073709551616int);
    }
    lemma_pow_adds(2, 64, 64);
    assert(pow(2, 128) == 340282366920938463463374607431768211456int) by {
        assert(18446744073709551616int * 18446744073709551616int == 340282366920938463463374607431768211456int);
    }
    lemma_pow_adds(2, 128, 128);
    assert(pow(2, 256) == 115792089237316195423570985008687907853269984665640564039457584007913129639936int) by {
        assert(340282366920938463463374607431768211456int * 340282366920938463463374607431768211456int == 115792089237316195423570985008687907853269984665640564039457584007913129639936int);
    }
    lemma_pow_adds(2, 256, 64);
    assert(pow(2, 320) == 2135987035920910082395021706169552114602704522356652769947041607822219725780640550022962086936576int) by {
        assert(115792089237316195423570985008687907853269984665640564039457584007913129639936int * 18446744073709551616int == 2135987035920910082395021706169552114602704522356652769947041607822219725780640550022962086936576int);
    }
    lemma_pow_adds(2, 320, 32);
    assert(pow(2, 352) == 9173994463960286046443283581208347763186259956673124494950355357547691504353939232280074212440502746218496int) by {
        assert(2135987035920910082395021706169552114602704522356652769947041607822219725780640550022962086936576int * 4294967296int == 9173994463960286046443283581208347763186259956673124494950355357547691504353939232280074212440502746218496int);
    }
    lemma_pow_adds(2, 352, 16);
    assert(pow(2, 368) == 601226901190101306339707032778070279008174732520529886901066488712245510429339761526706943586500787976175353856int) by {
        assert(9173994463960286046443283581208347763186259956673124494950355357547691504353939232280074212440502746218496int * 65536int == 601226901190101306339707032778070279008174732520529886901066488712245510429339761526706943586500787976175353856int);
    }
    lemma_pow_adds(2, 368, 8);
    assert(pow(2, 376) == 153914086704665934422965000391185991426092731525255651046673021110334850669910978950836977558144201721900890587136int) by {
        assert(601226901190101306339707032778070279008174732520529886901066488712245510429339761526706943586500787976175353856int * 256int == 153914086704665934422965000391185991426092731525255651046673021110334850669910978950836977558144201721900890587136int);
    }
    lemma_pow_adds(2, 376, 4);
    assert(pow(2, 380) == 2462625387274654950767440006258975862817483704404090416746768337765357610718575663213391640930307227550414249394176int) by {
        assert(153914086704665934422965000391185991426092731525255651046673021110334850669910978950836977558144201721900890587136int * 16int == 2462625387274654950767440006258975862817483704404090416746768337765357610718575663213391640930307227550414249394176int);
    }
}

/// Fifty-three dice carry more than 137 bits: `log2(6) > 137/53`.
pub proof fn lemma_log6_lower()
    ensures
        pow(2, 137) < pow(6, 53),
{
    lemma_six_pow_53();
    lemma_two_pow_137();
}

/// 147 dice carry less than 380 bits: `log2(6) < 380/147`.
pub proof fn lemma_log6_upper()
    ensures
        pow(6, 147) < pow(2, 380),
{
    lemma_six_pow_147();
    lemma_two_pow_380();
}

/// Raising to a power keeps the order of non-negative bases.
pub proof fn lemma_pow_base_le(x: int, y: int, e: nat)
    requires
        0 <= x <= y,
    ensures
        0 <= pow(x, e) <= pow(y, e),
    decreases e,
{
    reveal(pow);
    if e > 0 {
        lemma_pow_base_le(x, y, (e - 1) as nat);
        let a = pow(x, (e - 1) as nat);
        let b = pow(y, (e - 1) as nat);
        assert(0 <= x * a <= y * b) by (nonlinear_arith)
            requires
                0 <= x <= y,
                0 <= a <= b,
        ;
    }
}

/// Raising to a positive power keeps the strict order of non-negative bases.
pub proof fn lemma_pow_base_lt(x: int, y: int, e: nat)
    requires
        0 <= x < y,
        e > 0,
    ensures
        0 <= pow(x, e) < pow(y, e),
    decreases e,
{
    reveal(pow);
    let a = pow(x, (e - 1) as nat);
    let b = pow(y, (e - 1) as nat);
    if e == 1 {
        assert(pow(x, 0) == 1 && pow(y, 0) == 1);
    } else {
        lemma_pow_base_lt(x, y, (e - 1) as nat);
    }
    assert(0 <= x * a < y * b) by (nonlinear_arith)
        requires
            0 <= x < y,
            0 <= a <= b,
            0 < b,
    ;
}

} // verus!
