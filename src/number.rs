//! Numbers are IEEE-754 binary64 values, kept as their bit patterns. How a number
//! is written out (a floating, a signed or an unsigned literal) is decided here
//! from the bits alone.

use vstd::arithmetic::div_mod::lemma_small_mod;
use vstd::arithmetic::power2::{
    lemma2_to64, lemma2_to64_rest, lemma_pow2_adds, lemma_pow2_pos, lemma_pow2_strictly_increases,
    pow2,
};
use vstd::prelude::*;

verus! {

/// 2^52: the weight of the lowest exponent bit, and the implicit leading bit.
pub const FRACTION_SPAN: u64 = 4503599627370496;

/// Offset between the biased exponent field and the power of two that scales the
/// integer significand.
pub const EXPONENT_SHIFT: u64 = 1075;

/// The biased exponent field (bits 52..63).
pub open spec fn exponent_field(bits: u64) -> int {
    (bits as int / FRACTION_SPAN as int) % 2048
}

/// The fraction field (bits 0..52).
pub open spec fn fraction_field(bits: u64) -> int {
    bits as int % FRACTION_SPAN as int
}

/// The sign bit.
pub open spec fn sign_bit(bits: u64) -> bool {
    bits as int >= 0x8000_0000_0000_0000
}

/// Neither an infinity nor a NaN.
pub open spec fn is_finite(bits: u64) -> bool {
    exponent_field(bits) < 2047
}

/// The integer significand: the fraction with the implicit leading bit of normal numbers.
pub open spec fn significand(bits: u64) -> int {
    if exponent_field(bits) == 0 {
        fraction_field(bits)
    } else {
        fraction_field(bits) + FRACTION_SPAN as int
    }
}

/// The power of two that the significand is scaled by: |value| = significand * 2^scale.
pub open spec fn scale(bits: u64) -> int {
    if exponent_field(bits) == 0 {
        1 - EXPONENT_SHIFT as int
    } else {
        exponent_field(bits) - EXPONENT_SHIFT as int
    }
}

/// A finite value whose fractional part is zero.
pub open spec fn is_whole(bits: u64) -> bool {
    is_finite(bits) && (scale(bits) >= 0 || significand(bits) % (pow2((-scale(bits)) as nat) as int)
        == 0)
}

/// The absolute value of a whole number.
pub open spec fn whole_magnitude(bits: u64) -> int {
    if scale(bits) >= 0 {
        significand(bits) * pow2(scale(bits) as nat)
    } else {
        significand(bits) / (pow2((-scale(bits)) as nat) as int)
    }
}

/// Strictly below zero (negative zero is not).
pub open spec fn is_negative(bits: u64) -> bool {
    sign_bit(bits) && significand(bits) != 0
}

/// The literal that a number is written as.
#[derive(Clone, Copy, Debug, PartialEq, Eq, Structural)]
pub enum NumberLiteral {
    /// A floating literal of the value itself: the value has a fractional part
    /// (or is not finite).
    Float,
    /// A signed integer literal, saturated to the range of `i64`.
    Signed(i64),
    /// An unsigned integer literal, saturated to the range of `u64`.
    Unsigned(u64),
}

/// The writing rule: a value with a fractional part is a floating literal, a whole
/// negative value a signed integer literal, any other whole value an unsigned one.
/// Integer literals saturate at the bounds of their type.
pub open spec fn literal_of(bits: u64) -> NumberLiteral {
    if !is_whole(bits) {
        NumberLiteral::Float
    } else if is_negative(bits) {
        if whole_magnitude(bits) > 0x8000_0000_0000_0000 {
            NumberLiteral::Signed(i64::MIN)
        } else {
            NumberLiteral::Signed((-whole_magnitude(bits)) as i64)
        }
    } else if whole_magnitude(bits) > u64::MAX {
        NumberLiteral::Unsigned(u64::MAX)
    } else {
        NumberLiteral::Unsigned(whole_magnitude(bits) as u64)
    }
}

/// 2^n as a machine integer.
fn pow2_u64(n: u64) -> (r: u64)
    requires
        n < 64,
    ensures
        r as int == pow2(n as nat),
{
    proof {
        lemma2_to64();
        lemma2_to64_rest();
    }
    let mut r: u64 = 1;
    let mut i: u64 = 0;
    while i < n
        invariant
            i <= n < 64,
            r as int == pow2(i as nat),
        decreases n - i,
    {
        proof {
            lemma2_to64();
            lemma2_to64_rest();
            if i < 62 {
                lemma_pow2_strictly_increases(i as nat, 62);
            }
            lemma_pow2_adds(i as nat, 1);
        }
        r = r * 2;
        i = i + 1;
    }
    r
}

/// Decides how the number with the given bit pattern is written.
pub fn literal_for_bits(bits: u64) -> (r: NumberLiteral)
    ensures
        r == literal_of(bits),
{
    let exponent: u64 = (bits / FRACTION_SPAN) % 2048;
    let fraction: u64 = bits % FRACTION_SPAN;
    if exponent == 2047 {
        return NumberLiteral::Float;
    }
    let sig: u64 = if exponent == 0 { fraction } else { fraction + FRACTION_SPAN };
    let biased: u64 = if exponent == 0 { 1 } else { exponent };
    let negative: bool = bits >= 0x8000_0000_0000_0000 && sig != 0;
    proof {
        lemma2_to64();
        lemma2_to64_rest();
    }
    assert(sig as int == significand(bits));
    let magnitude: u64;
    let saturated: bool;
    if biased >= EXPONENT_SHIFT {
        let shift: u64 = biased - EXPONENT_SHIFT;
        assert(scale(bits) == shift as int);
        if shift >= 12 {
            proof {
                if shift > 12 {
                    lemma_pow2_strictly_increases(12, shift as nat);
                }
                lemma_pow2_pos(shift as nat);
                assert(sig as int * pow2(shift as nat) >= FRACTION_SPAN as int * pow2(12)) by (nonlinear_arith)
                    requires
                        sig as int >= FRACTION_SPAN as int,
                        pow2(shift as nat) >= pow2(12),
                        pow2(12) > 0,
                ;
            }
            magnitude = 0;
            saturated = true;
        } else {
            let p: u64 = pow2_u64(shift);
            proof {
                if shift < 11 {
                    lemma_pow2_strictly_increases(shift as nat, 11);
                }
                assert((sig as int) * (p as int) < 2 * FRACTION_SPAN as int * 2048) by (nonlinear_arith)
                    requires
                        (sig as int) < 2 * FRACTION_SPAN as int,
                        p as int <= 2048,
                ;
            }
            magnitude = sig * p;
            saturated = false;
        }
    } else {
        let shift: u64 = EXPONENT_SHIFT - biased;
        assert(-scale(bits) == shift as int);
        if shift >= 64 {
            proof {
                lemma_pow2_strictly_increases(63, shift as nat);
                lemma_small_mod(sig as nat, pow2(shift as nat));
            }
            if sig != 0 {
                return NumberLiteral::Float;
            }
            magnitude = 0;
            saturated = false;
        } else {
            let p: u64 = pow2_u64(shift);
            if sig % p != 0 {
                return NumberLiteral::Float;
            }
            magnitude = sig / p;
            saturated = false;
        }
    }
    assert(is_whole(bits));
    if negative {
        if saturated || magnitude > 0x8000_0000_0000_0000 {
            NumberLiteral::Signed(i64::MIN)
        } else if magnitude == 0x8000_0000_0000_0000 {
            NumberLiteral::Signed(i64::MIN)
        } else {
            NumberLiteral::Signed(0 - (magnitude as i64))
        }
    } else if saturated {
        NumberLiteral::Unsigned(u64::MAX)
    } else {
        NumberLiteral::Unsigned(magnitude)
    }
}

} // verus!
