//! Samples and gains as IEEE 754 binary32 encodings.
//!
//! Every sample and every gain in this crate is a `u32` that holds the bit
//! pattern of a single-precision number: one sign bit, eight exponent bits and
//! twenty-three fraction bits. Classification, ordering and clamping are
//! decided on the encoding itself and proved against [`scaled_value`], the
//! exact number that a finite encoding denotes. Rounded arithmetic is left to
//! `rustc_apfloat`; its results are given names and nothing else is claimed of
//! them.

use rustc_apfloat::ieee::Single;
use rustc_apfloat::Float;
use vstd::arithmetic::power2::{
    lemma2_to64, lemma_pow2_pos, lemma_pow2_strictly_increases, lemma_pow2_unfold, pow2,
};
use vstd::prelude::*;

verus! {

/// Encoding of positive zero.
pub const ZERO: u32 = 0;

/// Encoding of one.
pub const ONE: u32 = 0x3f80_0000;

/// The sign bit; also the encoding of negative zero.
pub const SIGN: u32 = 0x8000_0000;

/// Encoding of positive infinity; every larger magnitude is a NaN.
pub const INFINITY: u32 = 0x7f80_0000;

/// Number of distinct fractions under one exponent.
pub const FRACTIONS: u32 = 0x0080_0000;

/// The encoding with its sign bit cleared.
pub open spec fn magnitude(bits: u32) -> u32 {
    if bits >= SIGN {
        (bits - SIGN) as u32
    } else {
        bits
    }
}

/// Whether the sign bit is set.
pub open spec fn is_sign_negative(bits: u32) -> bool {
    bits >= SIGN
}

/// Whether the encoding is a NaN.
pub open spec fn is_nan(bits: u32) -> bool {
    magnitude(bits) > INFINITY
}

/// Whether the encoding is a zero, a subnormal or a normal number.
pub open spec fn is_finite(bits: u32) -> bool {
    magnitude(bits) < INFINITY
}

/// The encoding with its sign bit flipped.
pub open spec fn negated(bits: u32) -> u32 {
    if bits >= SIGN {
        (bits - SIGN) as u32
    } else {
        (bits + SIGN) as u32
    }
}

/// Position of an encoding on the number line: the magnitude, negative where
/// the sign bit is set. Both zeros stand at 0.
pub open spec fn ordinal(bits: u32) -> int {
    if is_sign_negative(bits) {
        -(magnitude(bits) as int)
    } else {
        magnitude(bits) as int
    }
}

/// The number that a magnitude below [`INFINITY`] denotes, in units of
/// 2^-149. With biased exponent `e` and fraction `f`, a subnormal is `f` units
/// and a normal number is `(2^23 + f) * 2^(e - 1)` units.
pub open spec fn units(magnitude: int) -> int {
    let e = magnitude / (FRACTIONS as int);
    let f = magnitude % (FRACTIONS as int);
    if e == 0 {
        f
    } else {
        (FRACTIONS as int + f) * (pow2((e - 1) as nat) as int)
    }
}

/// The number that a finite encoding denotes, in units of 2^-149.
pub open spec fn scaled_value(bits: u32) -> int {
    if is_sign_negative(bits) {
        -units(magnitude(bits) as int)
    } else {
        units(magnitude(bits) as int)
    }
}

/// The comparison `a < b` of the two numbers; false where either is a NaN.
pub open spec fn less(a: u32, b: u32) -> bool {
    !is_nan(a) && !is_nan(b) && ordinal(a) < ordinal(b)
}

/// `sample` held between `low` and `high`: `low` where the sample is less,
/// `high` where it is greater, the sample itself otherwise (a NaN too).
pub open spec fn clamped(sample: u32, low: u32, high: u32) -> u32 {
    if less(sample, low) {
        low
    } else if less(high, sample) {
        high
    } else {
        sample
    }
}

/// Clears the sign bit.
pub fn abs(bits: u32) -> (r: u32)
    ensures
        r == magnitude(bits),
{
    if bits >= SIGN {
        bits - SIGN
    } else {
        bits
    }
}

/// Tells whether the encoding is a NaN.
pub fn nan(bits: u32) -> (r: bool)
    ensures
        r == is_nan(bits),
{
    abs(bits) > INFINITY
}

/// Tells whether the encoding is neither an infinity nor a NaN.
pub fn finite(bits: u32) -> (r: bool)
    ensures
        r == is_finite(bits),
{
    abs(bits) < INFINITY
}

/// Flips the sign bit.
pub fn negate(bits: u32) -> (r: u32)
    ensures
        r == negated(bits),
        magnitude(r) == magnitude(bits),
        is_sign_negative(r) != is_sign_negative(bits),
        ordinal(r) == -ordinal(bits),
{
    if bits >= SIGN {
        bits - SIGN
    } else {
        bits + SIGN
    }
}

/// Compares two encodings as numbers.
pub fn lt(a: u32, b: u32) -> (r: bool)
    ensures
        r == less(a, b),
{
    if nan(a) || nan(b) {
        return false;
    }
    let ma: u32 = abs(a);
    let mb: u32 = abs(b);
    if a >= SIGN {
        if b >= SIGN {
            mb < ma
        } else {
            ma > 0 || mb > 0
        }
    } else {
        if b >= SIGN {
            false
        } else {
            ma < mb
        }
    }
}

/// Holds `sample` between `low` and `high`.
pub fn clamp(sample: u32, low: u32, high: u32) -> (r: u32)
    requires
        !is_nan(low),
        !is_nan(high),
        ordinal(low) <= ordinal(high),
    ensures
        r == clamped(sample, low, high),
        is_nan(sample) ==> r == sample,
        !is_nan(sample) ==> !is_nan(r) && ordinal(low) <= ordinal(r) <= ordinal(high),
        !is_nan(sample) && ordinal(low) <= ordinal(sample) <= ordinal(high) ==> r == sample,
{
    if lt(sample, low) {
        low
    } else if lt(high, sample) {
        high
    } else {
        sample
    }
}

/// Name of the rounded sum that [`sum_of`] computes.
pub uninterp spec fn sum(a: u32, b: u32) -> u32;

/// Name of the rounded product that [`product_of`] computes.
pub uninterp spec fn product(a: u32, b: u32) -> u32;

/// Name of the rounded quotient that [`quotient_of`] computes.
pub uninterp spec fn quotient(a: u32, b: u32) -> u32;

/// Name of the rounded encoding of a count that [`count_to_sample`] computes.
pub uninterp spec fn count_value(count: usize) -> u32;

/// Adds two numbers with `rustc_apfloat`: `Single::from_bits` on each
/// encoding, the `+` of `Single`, which rounds to nearest, ties to even, and
/// `to_bits` on the value that comes out. The call reads nothing but its two
/// arguments, so the result is a function of them; it is named [`sum`] and
/// nothing more is claimed of it.
#[verifier::external_body]
pub(crate) fn sum_of(a: u32, b: u32) -> (r: u32)
    ensures
        r == sum(a, b),
{
    let x = Single::from_bits(u128::from(a));
    let y = Single::from_bits(u128::from(b));
    (x + y).value.to_bits() as u32
}

/// Multiplies two numbers with `rustc_apfloat`: `Single::from_bits` on each
/// encoding, the `*` of `Single`, which rounds to nearest, ties to even, and
/// `to_bits` on the value that comes out. The result is a function of the two
/// arguments; it is named [`product`] and nothing more is claimed of it.
#[verifier::external_body]
pub(crate) fn product_of(a: u32, b: u32) -> (r: u32)
    ensures
        r == product(a, b),
{
    let x = Single::from_bits(u128::from(a));
    let y = Single::from_bits(u128::from(b));
    (x * y).value.to_bits() as u32
}

/// Divides `a` by `b` with `rustc_apfloat`: `Single::from_bits` on each
/// encoding, the `/` of `Single`, which rounds to nearest, ties to even, and
/// `to_bits` on the value that comes out. The result is a function of the two
/// arguments; it is named [`quotient`] and nothing more is claimed of it.
#[verifier::external_body]
pub(crate) fn quotient_of(a: u32, b: u32) -> (r: u32)
    ensures
        r == quotient(a, b),
{
    let x = Single::from_bits(u128::from(a));
    let y = Single::from_bits(u128::from(b));
    (x / y).value.to_bits() as u32
}

/// Converts a count to the nearest single-precision number with
/// `rustc_apfloat`: `Single::from_u128`, which rounds to nearest, ties to
/// even, and `to_bits` on the value that comes out. The result is a function
/// of the count; it is named [`count_value`] and nothing more is claimed of
/// it.
#[verifier::external_body]
pub(crate) fn count_to_sample(count: usize) -> (r: u32)
    ensures
        r == count_value(count),
{
    Single::from_u128(count as u128).value.to_bits() as u32
}

/// A larger magnitude denotes a larger number.
pub proof fn lemma_units_increase(low: int, high: int)
    requires
        0 <= low < high,
    ensures
        0 <= units(low) < units(high),
{
    let f: int = FRACTIONS as int;
    let e1 = low / f;
    let f1 = low % f;
    let e2 = high / f;
    let f2 = high % f;
    assert(e1 <= e2);
    if e1 == e2 {
        assert(f1 < f2);
        if e1 != 0 {
            let p = pow2((e1 - 1) as nat) as int;
            lemma_pow2_pos((e1 - 1) as nat);
            assert((f + f1) * p < (f + f2) * p) by (nonlinear_arith)
                requires
                    f1 < f2,
                    p > 0,
            ;
            assert(0 <= (f + f1) * p) by (nonlinear_arith)
                requires
                    f + f1 >= 0,
                    p > 0,
            ;
        }
    } else {
        let p1 = pow2(e1 as nat) as int;
        let p2 = pow2((e2 - 1) as nat) as int;
        lemma_pow2_pos(e1 as nat);
        lemma_pow2_pos((e2 - 1) as nat);
        if e1 < e2 - 1 {
            lemma_pow2_strictly_increases(e1 as nat, (e2 - 1) as nat);
        }
        assert(p1 <= p2);
        assert(0 <= units(low) < f * p1) by {
            if e1 == 0 {
                lemma2_to64();
            } else {
                let q = pow2((e1 - 1) as nat) as int;
                lemma_pow2_pos((e1 - 1) as nat);
                lemma_pow2_unfold(e1 as nat);
                assert(0 <= (f + f1) * q < f * (2 * q)) by (nonlinear_arith)
                    requires
                        0 <= f1 < f,
                        q > 0,
                ;
            }
        }
        assert(f * p1 <= f * p2) by (nonlinear_arith)
            requires
                p1 <= p2,
                f > 0,
        ;
        assert(f * p2 <= (f + f2) * p2) by (nonlinear_arith)
            requires
                f2 >= 0,
                p2 > 0,
        ;
    }
}

/// The order of two finite encodings by [`ordinal`], which is what [`lt`] and
/// [`clamp`] decide by, is the order of the numbers that they denote.
pub proof fn lemma_ordinal_orders_values(a: u32, b: u32)
    requires
        is_finite(a),
        is_finite(b),
    ensures
        ordinal(a) < ordinal(b) <==> scaled_value(a) < scaled_value(b),
        ordinal(a) == ordinal(b) <==> scaled_value(a) == scaled_value(b),
        ordinal(a) == 0 <==> scaled_value(a) == 0,
{
    let ma = magnitude(a) as int;
    let mb = magnitude(b) as int;
    lemma_units_zero();
    if ma < mb {
        lemma_units_increase(ma, mb);
    }
    if mb < ma {
        lemma_units_increase(mb, ma);
    }
    if 0 < ma {
        lemma_units_increase(0, ma);
    }
    if 0 < mb {
        lemma_units_increase(0, mb);
    }
}

/// Zero units is the magnitude zero.
pub proof fn lemma_units_zero()
    ensures
        units(0) == 0,
{
}

} // verus!
