//! IEEE 754 binary64 numbers, carried as their 64-bit patterns.
//!
//! A pattern holds a sign (bit 63), a biased exponent (bits 52 to 62) and a
//! fraction (bits 0 to 51). Every pattern that is not a NaN stands for a whole
//! number of units of 2^-1074, the smallest positive binary64 value:
//! `units` gives that number, and the ordering of two numbers is the ordering
//! of their units. The two infinities stand beyond every finite value, at
//! 2^2098 units either way.

use vstd::prelude::*;
use vstd::arithmetic::power2::pow2;
use vstd::arithmetic::power2::lemma_pow2_pos;
use vstd::arithmetic::power2::lemma_pow2_unfold;
use vstd::arithmetic::power2::lemma_pow2_strictly_increases;

verus! {

/// Bit 63: set in the patterns of negative numbers.
pub const SIGN_BIT: u64 = 0x8000_0000_0000_0000;

/// The magnitude of the two infinities; a greater magnitude is a NaN.
pub const INFINITY: u64 = 0x7ff0_0000_0000_0000;

/// Two to the 52: the weight of one step of the exponent within a magnitude,
/// and the implicit leading bit of a normal number's significand.
pub const HIDDEN_BIT: u64 = 0x0010_0000_0000_0000;

/// The pattern without its sign: exponent and fraction.
pub open spec fn spec_magnitude(bits: u64) -> u64 {
    if bits >= SIGN_BIT {
        (bits - SIGN_BIT) as u64
    } else {
        bits
    }
}

/// Whether the sign bit is set. Minus zero has it set too.
pub open spec fn spec_sign(bits: u64) -> bool {
    bits >= SIGN_BIT
}

/// Whether the pattern is a NaN.
pub open spec fn spec_is_nan(bits: u64) -> bool {
    spec_magnitude(bits) > INFINITY
}

/// Whether the pattern is a finite number: neither an infinity nor a NaN.
pub open spec fn spec_is_finite(bits: u64) -> bool {
    spec_magnitude(bits) < INFINITY
}

/// The biased exponent, 0 to 2047.
pub open spec fn exponent(bits: u64) -> nat {
    (spec_magnitude(bits) / HIDDEN_BIT) as nat
}

/// The fraction, below two to the 52.
pub open spec fn fraction(bits: u64) -> nat {
    (spec_magnitude(bits) % HIDDEN_BIT) as nat
}

/// The absolute value in units of 2^-1074. A subnormal number is its
/// fraction; a normal one is its significand, hidden bit included, shifted
/// by one less than its exponent.
pub open spec fn magnitude_units(bits: u64) -> nat {
    if exponent(bits) == 0 {
        fraction(bits)
    } else {
        (HIDDEN_BIT as nat + fraction(bits)) * pow2((exponent(bits) - 1) as nat)
    }
}

/// The value in units of 2^-1074. Both zeros have 0 units.
pub open spec fn units(bits: u64) -> int {
    if spec_sign(bits) {
        -(magnitude_units(bits) as int)
    } else {
        magnitude_units(bits) as int
    }
}

/// `a < b` as IEEE 754 orders them: false when either is a NaN.
pub open spec fn spec_lt(a: u64, b: u64) -> bool {
    !spec_is_nan(a) && !spec_is_nan(b) && units(a) < units(b)
}

/// `a <= b` as IEEE 754 orders them: false when either is a NaN.
pub open spec fn spec_le(a: u64, b: u64) -> bool {
    !spec_is_nan(a) && !spec_is_nan(b) && units(a) <= units(b)
}

/// A number that is zero or above: not a NaN, and not below zero. Minus zero
/// and plus infinity qualify.
pub open spec fn spec_is_non_negative(bits: u64) -> bool {
    !spec_is_nan(bits) && units(bits) >= 0
}

/// A number above zero: not a NaN, not a zero, not negative.
pub open spec fn spec_is_positive(bits: u64) -> bool {
    !spec_is_nan(bits) && units(bits) > 0
}

/// A greater magnitude is a greater absolute value, NaN patterns included.
pub proof fn lemma_magnitude_units_increase(a: u64, b: u64)
    requires
        spec_magnitude(a) < spec_magnitude(b),
    ensures
        magnitude_units(a) < magnitude_units(b),
{
    let h = HIDDEN_BIT as int;
    let (ea, fa) = (exponent(a) as int, fraction(a) as int);
    let (eb, fb) = (exponent(b) as int, fraction(b) as int);
    assert(spec_magnitude(a) == ea * h + fa);
    assert(spec_magnitude(b) == eb * h + fb);
    assert(ea <= eb);
    lemma_pow2_pos((eb - 1) as nat);
    if ea == eb {
        if ea != 0 {
            let p = pow2((ea - 1) as nat) as int;
            assert((h + fa) * p < (h + fb) * p) by (nonlinear_arith)
                requires
                    fa < fb,
                    p > 0,
            ;
        }
    } else {
        let pb = pow2((eb - 1) as nat) as int;
        assert(h * pb <= (h + fb) * pb) by (nonlinear_arith)
            requires
                fb >= 0,
                pb > 0,
        ;
        if ea == 0 {
            assert(h * 1 <= h * pb) by (nonlinear_arith)
                requires
                    pb >= 1,
                    h > 0,
            ;
        } else {
            let pa = pow2((ea - 1) as nat) as int;
            lemma_pow2_pos((ea - 1) as nat);
            lemma_pow2_unfold(ea as nat);
            assert(pow2(ea as nat) == 2 * pa);
            if ea < eb - 1 {
                lemma_pow2_strictly_increases(ea as nat, (eb - 1) as nat);
            }
            assert(2 * pa <= pb);
            assert((h + fa) * pa < h * pb) by (nonlinear_arith)
                requires
                    0 <= fa < h,
                    pa > 0,
                    2 * pa <= pb,
            ;
        }
    }
}

/// Only the two zeros have no units.
pub proof fn lemma_zero_units(bits: u64)
    ensures
        magnitude_units(bits) == 0 <==> spec_magnitude(bits) == 0,
{
    if spec_magnitude(bits) != 0 {
        lemma_magnitude_units_increase(0, bits);
    }
}

/// The pattern without its sign.
#[verifier::when_used_as_spec(spec_magnitude)]
pub fn magnitude(bits: u64) -> (m: u64)
    ensures
        m == spec_magnitude(bits),
{
    if bits >= SIGN_BIT {
        bits - SIGN_BIT
    } else {
        bits
    }
}

/// Whether the sign bit is set.
#[verifier::when_used_as_spec(spec_sign)]
pub fn sign(bits: u64) -> (negative: bool)
    ensures
        negative == spec_sign(bits),
{
    bits >= SIGN_BIT
}

/// Whether the pattern is a NaN.
#[verifier::when_used_as_spec(spec_is_nan)]
pub fn is_nan(bits: u64) -> (nan: bool)
    ensures
        nan == spec_is_nan(bits),
{
    magnitude(bits) > INFINITY
}

/// Whether the pattern is a finite number.
#[verifier::when_used_as_spec(spec_is_finite)]
pub fn is_finite(bits: u64) -> (finite: bool)
    ensures
        finite == spec_is_finite(bits),
{
    magnitude(bits) < INFINITY
}

/// `a < b`, decided on the patterns.
#[verifier::when_used_as_spec(spec_lt)]
pub fn lt(a: u64, b: u64) -> (less: bool)
    ensures
        less == spec_lt(a, b),
{
    if is_nan(a) || is_nan(b) {
        return false;
    }
    let ma = magnitude(a);
    let mb = magnitude(b);
    proof {
        lemma_zero_units(a);
        lemma_zero_units(b);
        if ma < mb {
            lemma_magnitude_units_increase(a, b);
        }
        if mb < ma {
            lemma_magnitude_units_increase(b, a);
        }
        if ma == mb {
            assert(magnitude_units(a) == magnitude_units(b));
        }
    }
    if sign(a) {
        if sign(b) {
            mb < ma
        } else {
            ma != 0 || mb != 0
        }
    } else {
        if sign(b) {
            false
        } else {
            ma < mb
        }
    }
}

/// `a <= b`, decided on the patterns.
#[verifier::when_used_as_spec(spec_le)]
pub fn le(a: u64, b: u64) -> (at_most: bool)
    ensures
        at_most == spec_le(a, b),
{
    if is_nan(a) || is_nan(b) {
        return false;
    }
    !lt(b, a)
}

/// Whether the number is zero or above.
#[verifier::when_used_as_spec(spec_is_non_negative)]
pub fn is_non_negative(bits: u64) -> (ok: bool)
    ensures
        ok == spec_is_non_negative(bits),
{
    proof {
        lemma_zero_units(bits);
    }
    !is_nan(bits) && (!sign(bits) || magnitude(bits) == 0)
}

/// Whether the number is above zero.
#[verifier::when_used_as_spec(spec_is_positive)]
pub fn is_positive(bits: u64) -> (ok: bool)
    ensures
        ok == spec_is_positive(bits),
{
    proof {
        lemma_zero_units(bits);
    }
    !is_nan(bits) && !sign(bits) && magnitude(bits) != 0
}

} // verus!
