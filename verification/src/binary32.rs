//! IEEE-754 binary32 values as their 32-bit encodings: one sign bit, eight
//! exponent bits, twenty-three fraction bits.

use vstd::prelude::*;

verus! {

/// The sign bit of an encoding.
pub const SIGN_BIT: u32 = 0x8000_0000;

/// Every bit of an encoding but the sign.
pub const MAGNITUDE_MASK: u32 = 0x7fff_ffff;

/// The encoding of positive infinity: the exponent field all ones, the
/// fraction zero. A larger magnitude is a NaN.
pub const INFINITY: u32 = 0x7f80_0000;

/// The encoding of positive zero.
pub const ZERO: u32 = 0;

/// The encoding of 1.0: a biased exponent of 127 and a zero fraction.
pub const ONE: u32 = 0x3f80_0000;

/// The encoding without its sign.
pub open spec fn magnitude(bits: u32) -> u32 {
    bits & MAGNITUDE_MASK
}

/// The value is not a number.
pub open spec fn is_nan(bits: u32) -> bool {
    magnitude(bits) > INFINITY
}

/// The value is positive or negative zero.
pub open spec fn is_zero(bits: u32) -> bool {
    magnitude(bits) == 0
}

/// The encoding of the negated value: the sign bit flipped, all else kept.
pub open spec fn negated(bits: u32) -> u32 {
    bits ^ SIGN_BIT
}

/// Floating-point equality of two encoded values: a NaN equals nothing, the
/// two zeros equal each other, and any other value equals only itself.
pub open spec fn equal(a: u32, b: u32) -> bool {
    &&& !is_nan(a)
    &&& !is_nan(b)
    &&& (a == b || (is_zero(a) && is_zero(b)))
}

/// Negates an encoded value.
pub fn negate(bits: u32) -> (out: u32)
    ensures
        out == negated(bits),
{
    bits ^ SIGN_BIT
}

/// Tells whether an encoded value is a NaN.
pub fn nan(bits: u32) -> (out: bool)
    ensures
        out == is_nan(bits),
{
    (bits & MAGNITUDE_MASK) > INFINITY
}

/// Compares two encoded values as the floating-point `==` does.
pub fn same(a: u32, b: u32) -> (out: bool)
    ensures
        out == equal(a, b),
{
    if nan(a) || nan(b) {
        false
    } else {
        a == b || ((a & MAGNITUDE_MASK) == 0 && (b & MAGNITUDE_MASK) == 0)
    }
}

/// Negating twice gives the encoding back, bit for bit.
pub proof fn lemma_negated_twice(bits: u32)
    ensures
        negated(negated(bits)) == bits,
{
    assert((bits ^ 0x8000_0000u32) ^ 0x8000_0000u32 == bits) by (bit_vector);
}

/// Negation changes the sign and nothing else: the magnitude stays, so a NaN
/// stays a NaN and a zero stays a zero, and the encoding itself always differs.
pub proof fn lemma_negated_magnitude(bits: u32)
    ensures
        magnitude(negated(bits)) == magnitude(bits),
        is_nan(negated(bits)) == is_nan(bits),
        is_zero(negated(bits)) == is_zero(bits),
        negated(bits) != bits,
{
    assert((bits ^ 0x8000_0000u32) & 0x7fff_ffffu32 == bits & 0x7fff_ffffu32) by (bit_vector);
    assert(bits ^ 0x8000_0000u32 != bits) by (bit_vector);
}

/// Equality does not depend on the order of its operands.
pub proof fn lemma_equal_symmetric(a: u32, b: u32)
    ensures
        equal(a, b) == equal(b, a),
{
}

/// A value equals itself unless it is a NaN.
pub proof fn lemma_equal_reflexive(bits: u32)
    ensures
        equal(bits, bits) == !is_nan(bits),
{
}

/// Two values are equal exactly when their negations are.
pub proof fn lemma_equal_negated(a: u32, b: u32)
    ensures
        equal(negated(a), negated(b)) == equal(a, b),
{
    lemma_negated_magnitude(a);
    lemma_negated_magnitude(b);
    assert((a ^ 0x8000_0000u32 == b ^ 0x8000_0000u32) == (a == b)) by (bit_vector);
}

/// A value equals its own negation exactly when it is a zero: the two zeros
/// differ in the sign alone and are equal, and nothing else is.
pub proof fn lemma_equal_own_negation(bits: u32)
    ensures
        equal(negated(bits), bits) == is_zero(bits),
        equal(bits, negated(bits)) == is_zero(bits),
{
    lemma_negated_magnitude(bits);
}

} // verus!
