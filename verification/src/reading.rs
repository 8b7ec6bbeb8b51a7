//! What a current reading says about the drier.
//!
//! A reading arrives as the bit pattern of an IEEE 754 double, so that it can be judged
//! by integer comparisons alone.

use vstd::arithmetic::power2::{lemma_pow2_adds, lemma_pow2_pos, lemma_pow2_strictly_increases, pow2};
use vstd::prelude::*;

verus! {

/// How a reading compares with the threshold of one ampere.
#[derive(Clone, Copy, Debug, PartialEq, Eq, Structural)]
pub enum Reading {
    /// One ampere or more.
    AtLeastThreshold,
    /// Less than one ampere.
    BelowThreshold,
    /// Not a number: neither of the two.
    Incomparable,
}

/// The bit pattern of a double that is negative zero: the sign bit alone.
pub const SIGN_BIT: u64 = 0x8000_0000_0000_0000;

/// The bit pattern of the double 1.0.
pub const ONE_AMPERE: u64 = 0x3FF0_0000_0000_0000;

/// The bit pattern of positive infinity. Above it, up to the sign bit, lie patterns that
/// are not numbers.
pub const INFINITE: u64 = 0x7FF0_0000_0000_0000;

/// The sign of a double.
pub open spec fn negative(bits: u64) -> bool {
    bits >= 0x8000_0000_0000_0000
}

/// The biased exponent of a double: the eleven bits after the sign.
pub open spec fn exponent(bits: u64) -> nat {
    (bits / 0x10_0000_0000_0000 % 0x800) as nat
}

/// The fraction of a double: the low fifty-two bits.
pub open spec fn fraction(bits: u64) -> nat {
    (bits % 0x10_0000_0000_0000) as nat
}

/// Whether the pattern stands for no number.
pub open spec fn not_a_number(bits: u64) -> bool {
    exponent(bits) == 0x7FF && fraction(bits) != 0
}

/// Whether the pattern stands for an infinity.
pub open spec fn infinite(bits: u64) -> bool {
    exponent(bits) == 0x7FF && fraction(bits) == 0
}

/// The absolute value of a finite double, counted in units of the smallest positive one,
/// of which `pow2(1074)` make 1.0.
pub open spec fn magnitude(bits: u64) -> nat {
    if exponent(bits) == 0 {
        fraction(bits)
    } else {
        (0x10_0000_0000_0000 + fraction(bits)) * pow2((exponent(bits) - 1) as nat)
    }
}

/// Whether the pattern stands for a number of at least 1.0.
pub open spec fn at_least_one(bits: u64) -> bool {
    &&& !not_a_number(bits)
    &&& !negative(bits)
    &&& infinite(bits) || magnitude(bits) >= pow2(1074)
}

/// What the double with this bit pattern says about the drier.
pub open spec fn reading_of(bits: u64) -> Reading {
    if not_a_number(bits) {
        Reading::Incomparable
    } else if at_least_one(bits) {
        Reading::AtLeastThreshold
    } else {
        Reading::BelowThreshold
    }
}

/// A finite double that is not negative reaches 1.0 exactly when its exponent does.
pub proof fn lemma_reaches_one_by_exponent(bits: u64)
    requires
        exponent(bits) < 0x7FF,
    ensures
        magnitude(bits) >= pow2(1074) <==> exponent(bits) >= 1023,
{
    let e = exponent(bits);
    let f = fraction(bits);
    assert(pow2(52) == 0x10_0000_0000_0000) by {
        vstd::arithmetic::power2::lemma2_to64();
        lemma_pow2_adds(32, 20);
    }
    lemma_pow2_adds(52, 1022);
    assert(pow2(1074) == 0x10_0000_0000_0000 * pow2(1022));
    lemma_pow2_pos(1022);
    if e == 0 {
        assert(0x10_0000_0000_0000 * pow2(1022) >= 0x10_0000_0000_0000) by (nonlinear_arith)
            requires
                pow2(1022) > 0,
        ;
    } else {
        let p = pow2((e - 1) as nat);
        if e >= 1023 {
            if e > 1023 {
                lemma_pow2_strictly_increases(1022, (e - 1) as nat);
            }
            assert((0x10_0000_0000_0000 + f) * p >= 0x10_0000_0000_0000 * pow2(1022))
                by (nonlinear_arith)
                requires
                    p >= pow2(1022),
                    f >= 0,
            ;
        } else {
            lemma_pow2_adds(1, (e - 1) as nat);
            vstd::arithmetic::power2::lemma2_to64();
            if e < 1022 {
                lemma_pow2_strictly_increases(e, 1022);
            }
            lemma_pow2_pos((e - 1) as nat);
            assert((0x10_0000_0000_0000 + f) * p < 0x10_0000_0000_0000 * pow2(1022))
                by (nonlinear_arith)
                requires
                    2 * p <= pow2(1022),
                    0 < p,
                    0 <= f < 0x10_0000_0000_0000,
            ;
        }
    }
}

impl Reading {
    /// Judges the double with the given bit pattern.
    pub fn from_bits(bits: u64) -> (reading: Reading)
        ensures
            reading == reading_of(bits),
    {
        proof {
            if exponent(bits) < 0x7FF {
                lemma_reaches_one_by_exponent(bits);
            }
        }
        let unsigned: u64 = if bits >= SIGN_BIT {
            bits - SIGN_BIT
        } else {
            bits
        };
        if unsigned > INFINITE {
            Reading::Incomparable
        } else if ONE_AMPERE <= bits && bits < SIGN_BIT {
            Reading::AtLeastThreshold
        } else {
            Reading::BelowThreshold
        }
    }
}

} // verus!
