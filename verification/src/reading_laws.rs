//! What holds of the judgement of current readings.

use crate::reading::{
    at_least_one, exponent, fraction, lemma_reaches_one_by_exponent, magnitude, reading_of, Reading,
};
use vstd::arithmetic::power2::pow2;
use vstd::prelude::*;

verus! {

/// The patterns of doubles fall into three: from that of 1.0 to that of infinity they reach
/// the threshold; beyond infinity, on either side of the sign, they are no numbers; all
/// others lie below.
pub proof fn law_reading_by_pattern(bits: u64, reading: Reading)
    requires
        call_ensures(Reading::from_bits, (bits,), reading),
    ensures
        reading == Reading::AtLeastThreshold <==> 0x3FF0_0000_0000_0000 <= bits
            <= 0x7FF0_0000_0000_0000,
        reading == Reading::Incomparable <==> (0x7FF0_0000_0000_0000 < bits < 0x8000_0000_0000_0000
            || 0xFFF0_0000_0000_0000 < bits),
        reading == Reading::BelowThreshold <==> (bits < 0x3FF0_0000_0000_0000
            || 0x8000_0000_0000_0000 <= bits <= 0xFFF0_0000_0000_0000),
{
    if exponent(bits) < 0x7FF {
        lemma_reaches_one_by_exponent(bits);
    }
}

/// A normal positive double with exponent `e` and fraction `f` stands for
/// `(1 + f / 2^52) * 2^(e - 1023)`. It reaches the threshold exactly when that is at least
/// one, here with both sides times `2^1074`.
pub proof fn law_reading_by_value(e: u64, f: u64, bits: u64, reading: Reading)
    requires
        1 <= e < 0x7FF,
        f < 0x10_0000_0000_0000,
        bits == e * 0x10_0000_0000_0000 + f,
        call_ensures(Reading::from_bits, (bits,), reading),
    ensures
        reading == Reading::AtLeastThreshold <==> (0x10_0000_0000_0000 + f) * pow2((e - 1) as nat)
            >= pow2(1074),
        reading != Reading::Incomparable,
{
    assert(exponent(bits) == e && fraction(bits) == f);
    lemma_reaches_one_by_exponent(bits);
    law_reading_by_pattern(bits, reading);
    assert(magnitude(bits) == (0x10_0000_0000_0000 + f) * pow2((e - 1) as nat));
}

/// A larger current never reads as less: among numbers that are not negative, whose
/// patterns are ordered as they are, whatever lies above one that reaches the threshold
/// reaches it too.
pub proof fn law_reading_is_monotone(low: u64, high: u64, below: Reading, above: Reading)
    requires
        low <= high <= 0x7FF0_0000_0000_0000,
        call_ensures(Reading::from_bits, (low,), below),
        call_ensures(Reading::from_bits, (high,), above),
    ensures
        below == Reading::AtLeastThreshold ==> above == Reading::AtLeastThreshold,
        above == Reading::BelowThreshold ==> below == Reading::BelowThreshold,
{
    law_reading_by_pattern(low, below);
    law_reading_by_pattern(high, above);
}

/// With its sign turned to minus, a number lies below the threshold, and what is no number
/// stays none.
pub proof fn law_negative_reading(bits: u64, positive: Reading, negative: Reading)
    requires
        bits < 0x8000_0000_0000_0000,
        call_ensures(Reading::from_bits, (bits,), positive),
        call_ensures(Reading::from_bits, ((bits + 0x8000_0000_0000_0000) as u64,), negative),
    ensures
        negative != Reading::AtLeastThreshold,
        negative == Reading::Incomparable <==> positive == Reading::Incomparable,
{
    law_reading_by_pattern(bits, positive);
    law_reading_by_pattern((bits + 0x8000_0000_0000_0000) as u64, negative);
}

/// The judgement says that the threshold is reached of exactly the numbers of at least one,
/// and never says less of a larger one.
pub proof fn law_judgement(bits: u64, higher: u64)
    ensures
        reading_of(bits) == Reading::AtLeastThreshold <==> at_least_one(bits),
        reading_of(bits) == Reading::AtLeastThreshold <==> 0x3FF0_0000_0000_0000 <= bits
            <= 0x7FF0_0000_0000_0000,
        reading_of(bits) == Reading::AtLeastThreshold && bits <= higher <= 0x7FF0_0000_0000_0000
            ==> reading_of(higher) == Reading::AtLeastThreshold,
{
    if exponent(bits) < 0x7FF {
        lemma_reaches_one_by_exponent(bits);
    }
    if exponent(higher) < 0x7FF {
        lemma_reaches_one_by_exponent(higher);
    }
}

} // verus!
