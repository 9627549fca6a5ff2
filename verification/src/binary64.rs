//! The order of IEEE 754 binary64 numbers, read off their bit patterns.
//!
//! An observed quantity is carried as the 64 bits of its binary64 encoding:
//! one sign bit, eleven exponent bits and fifty-two fraction bits. Every
//! finite number of that format is a whole multiple of `2^-1074`, so the
//! model of a pattern is an integer: the number it encodes, counted in units
//! of `2^-1074`. The two infinities get the integers that the same formula
//! gives them, which lie beyond every finite number. The patterns that encode
//! no number compare as IEEE 754 asks: they are neither below, nor above, nor
//! equal to anything.
use vstd::arithmetic::power2::{
    lemma_pow2_pos, lemma_pow2_strictly_increases, lemma_pow2_unfold, pow2,
};
use vstd::prelude::*;

verus! {

/// The pattern with only the sign bit set: negative zero.
pub const SIGN_BIT: u64 = 0x8000_0000_0000_0000;

/// The pattern of positive infinity: all exponent bits set, no fraction bit.
pub const INFINITY: u64 = 0x7ff0_0000_0000_0000;

/// Two to the power fifty-two: one more than the largest fraction field.
pub const FRACTION_RANGE: u64 = 0x0010_0000_0000_0000;

/// The sign bit is set.
pub open spec fn sign(bits: u64) -> bool {
    bits >= SIGN_BIT
}

/// The pattern without its sign bit.
pub open spec fn spec_clear_sign(bits: u64) -> u64 {
    if bits >= SIGN_BIT {
        (bits - SIGN_BIT) as u64
    } else {
        bits
    }
}

/// The exponent field, between 0 and 2047.
pub open spec fn exponent(bits: u64) -> nat {
    (spec_clear_sign(bits) / FRACTION_RANGE) as nat
}

/// The fraction field, below `2^52`.
pub open spec fn fraction(bits: u64) -> nat {
    (spec_clear_sign(bits) % FRACTION_RANGE) as nat
}

/// The pattern encodes no number.
pub open spec fn spec_is_nan(bits: u64) -> bool {
    exponent(bits) == 2047 && fraction(bits) != 0
}

/// The number with these fields, in units of `2^-1074`: the fraction alone
/// where the exponent field is zero, else the fraction under a leading one,
/// doubled once for each step of the exponent above one.
pub open spec fn scaled(exponent: nat, fraction: nat) -> int {
    if exponent == 0 {
        fraction as int
    } else {
        (FRACTION_RANGE + fraction) * pow2((exponent - 1) as nat)
    }
}

/// The absolute value of the encoded number, in units of `2^-1074`.
pub open spec fn magnitude(bits: u64) -> int {
    scaled(exponent(bits), fraction(bits))
}

/// The encoded number, in units of `2^-1074`.
pub open spec fn value(bits: u64) -> int {
    if sign(bits) {
        -magnitude(bits)
    } else {
        magnitude(bits)
    }
}

/// `|a| < |b|` as IEEE 754 compares: false as soon as one side is no number.
pub open spec fn spec_abs_lt(a: u64, b: u64) -> bool {
    !spec_is_nan(a) && !spec_is_nan(b) && magnitude(a) < magnitude(b)
}

/// `a > 0` as IEEE 754 compares.
pub open spec fn spec_is_positive(a: u64) -> bool {
    !spec_is_nan(a) && value(a) > 0
}

/// `a <= 0` as IEEE 754 compares.
pub open spec fn spec_is_not_positive(a: u64) -> bool {
    !spec_is_nan(a) && value(a) <= 0
}

/// A larger exponent field, or the same one with a larger fraction field,
/// makes a larger number.
pub proof fn lemma_scaled_increases(e1: nat, f1: nat, e2: nat, f2: nat)
    requires
        f1 < FRACTION_RANGE,
        f2 < FRACTION_RANGE,
        e1 < e2 || (e1 == e2 && f1 < f2),
    ensures
        scaled(e1, f1) < scaled(e2, f2),
{
    let h = FRACTION_RANGE as int;
    if e1 == e2 {
        if e1 > 0 {
            let p = pow2((e1 - 1) as nat) as int;
            lemma_pow2_pos((e1 - 1) as nat);
            assert((h + f1) * p < (h + f2) * p) by (nonlinear_arith)
                requires
                    p > 0,
                    f1 < f2,
            ;
        }
    } else {
        let p2 = pow2((e2 - 1) as nat) as int;
        lemma_pow2_pos((e2 - 1) as nat);
        assert(h <= (h + f2) * p2) by (nonlinear_arith)
            requires
                p2 >= 1,
                h >= 0,
                f2 >= 0,
        ;
        if e1 > 0 {
            let p1 = pow2((e1 - 1) as nat) as int;
            lemma_pow2_pos((e1 - 1) as nat);
            lemma_pow2_unfold(e1);
            if e1 < e2 - 1 {
                lemma_pow2_strictly_increases(e1, (e2 - 1) as nat);
            }
            assert(2 * p1 <= p2);
            assert((h + f1) * p1 < (h + f2) * p2) by (nonlinear_arith)
                requires
                    2 * p1 <= p2,
                    p1 > 0,
                    0 <= f1 < h,
                    f2 >= 0,
            ;
        }
    }
}

/// The absolute values of two numbers stand in the order of their patterns
/// without the sign bit.
pub proof fn lemma_magnitude_order(a: u64, b: u64)
    ensures
        magnitude(a) < magnitude(b) <==> spec_clear_sign(a) < spec_clear_sign(b),
        magnitude(a) == magnitude(b) <==> spec_clear_sign(a) == spec_clear_sign(b),
{
    let (ea, fa) = (exponent(a), fraction(a));
    let (eb, fb) = (exponent(b), fraction(b));
    assert(spec_clear_sign(a) == ea * FRACTION_RANGE + fa);
    assert(spec_clear_sign(b) == eb * FRACTION_RANGE + fb);
    if spec_clear_sign(a) < spec_clear_sign(b) {
        lemma_scaled_increases(ea, fa, eb, fb);
    } else if spec_clear_sign(b) < spec_clear_sign(a) {
        lemma_scaled_increases(eb, fb, ea, fa);
    }
}

/// No absolute value is negative, and only the two zeros have the absolute
/// value zero.
pub proof fn lemma_magnitude_zero(a: u64)
    ensures
        magnitude(a) >= 0,
        magnitude(a) == 0 <==> spec_clear_sign(a) == 0,
{
    lemma_magnitude_order(a, 0);
}

/// The pattern without its sign bit: the pattern of the absolute value.
pub fn clear_sign(bits: u64) -> (cleared: u64)
    ensures
        cleared == spec_clear_sign(bits),
        cleared < SIGN_BIT,
{
    if bits >= SIGN_BIT {
        bits - SIGN_BIT
    } else {
        bits
    }
}

/// Whether the pattern encodes no number.
pub fn is_nan(bits: u64) -> (nan: bool)
    ensures
        nan == spec_is_nan(bits),
{
    clear_sign(bits) > INFINITY
}

/// Whether `|a| < |b|`.
pub fn abs_lt(a: u64, b: u64) -> (less: bool)
    ensures
        less == spec_abs_lt(a, b),
{
    proof {
        lemma_magnitude_order(a, b);
    }
    !is_nan(a) && !is_nan(b) && clear_sign(a) < clear_sign(b)
}

/// Whether `a > 0`.
pub fn is_positive(a: u64) -> (positive: bool)
    ensures
        positive == spec_is_positive(a),
{
    proof {
        lemma_magnitude_zero(a);
    }
    0 < a && a <= INFINITY
}

} // verus!
