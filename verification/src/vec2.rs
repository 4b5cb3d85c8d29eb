//! A vector of the plane. The same type serves for a point and for a
//! direction.

use crate::binary32;
use vstd::prelude::*;
use vstd::std_specs::cmp::PartialEqSpecImpl;
use vstd::std_specs::ops::NegSpecImpl;

verus! {

/// Two binary32 components, each held by its encoding. Any pair of encodings
/// is a vector: infinities and NaNs are values like the others.
#[derive(Debug, Clone, Copy)]
pub struct Vec2 {
    pub x: u32,
    pub y: u32,
}

/// A vector read as a displacement.
pub type Direction2D = Vec2;

/// A vector read as a position.
pub type Point2D = Vec2;

impl Vec2 {
    /// One of the components is a NaN.
    pub open spec fn has_nan(self) -> bool {
        binary32::is_nan(self.x) || binary32::is_nan(self.y)
    }

    /// The vector with both components negated.
    pub open spec fn negated(self) -> Vec2 {
        Vec2 { x: binary32::negated(self.x), y: binary32::negated(self.y) }
    }

    /// Both components are equal as floating-point values.
    pub open spec fn equal(self, other: Vec2) -> bool {
        binary32::equal(self.x, other.x) && binary32::equal(self.y, other.y)
    }

    /// The vector with the given components. Every pair of encodings is taken.
    pub fn new(x: u32, y: u32) -> (v: Vec2)
        ensures
            v.x == x,
            v.y == y,
    {
        Vec2 { x, y }
    }

    /// The vector (0, 0), both zeros positive.
    pub fn zeroes() -> (v: Vec2)
        ensures
            v.x == binary32::ZERO,
            v.y == binary32::ZERO,
    {
        Vec2 { x: binary32::ZERO, y: binary32::ZERO }
    }

    /// The vector (1, 1).
    pub fn ones() -> (v: Vec2)
        ensures
            v.x == binary32::ONE,
            v.y == binary32::ONE,
    {
        Vec2 { x: binary32::ONE, y: binary32::ONE }
    }
}

/// The default vector is the zero vector.
impl Default for Vec2 {
    fn default() -> (v: Vec2)
        ensures
            v.x == binary32::ZERO,
            v.y == binary32::ZERO,
    {
        Vec2::zeroes()
    }
}

/// `-v` flips the sign of both components and changes nothing else:
/// the result is `v.negated()`.
impl core::ops::Neg for Vec2 {
    type Output = Vec2;

    fn neg(self) -> (v: Vec2) {
        Vec2 { x: binary32::negate(self.x), y: binary32::negate(self.y) }
    }
}

impl NegSpecImpl for Vec2 {
    open spec fn obeys_neg_spec() -> bool {
        true
    }

    open spec fn neg_req(self) -> bool {
        true
    }

    open spec fn neg_spec(self) -> Vec2 {
        self.negated()
    }
}

/// `==` compares component by component as floating-point values do: the
/// result is `self.equal(other)`, so a vector with a NaN equals nothing.
impl PartialEq for Vec2 {
    fn eq(&self, other: &Vec2) -> (same: bool) {
        binary32::same(self.x, other.x) && binary32::same(self.y, other.y)
    }
}

impl PartialEqSpecImpl for Vec2 {
    open spec fn obeys_eq_spec() -> bool {
        true
    }

    open spec fn eq_spec(&self, other: &Vec2) -> bool {
        self.equal(*other)
    }
}

/// Negating a vector twice gives the vector back, bit for bit.
pub proof fn lemma_neg_involution(v: Vec2)
    ensures
        v.negated().negated() == v,
{
    binary32::lemma_negated_twice(v.x);
    binary32::lemma_negated_twice(v.y);
}

/// Negation keeps NaNs where they are: the result has one exactly when the
/// operand has.
pub proof fn lemma_neg_keeps_nan(v: Vec2)
    ensures
        v.negated().has_nan() == v.has_nan(),
{
    binary32::lemma_negated_magnitude(v.x);
    binary32::lemma_negated_magnitude(v.y);
}

/// A vector with a NaN component equals no vector, itself included; a vector
/// without one equals itself.
pub proof fn lemma_nan_never_equal(a: Vec2, b: Vec2)
    ensures
        a.has_nan() || b.has_nan() ==> !a.equal(b),
        a.equal(a) == !a.has_nan(),
{
}

/// Equality of vectors does not depend on the order of its operands.
pub proof fn lemma_equal_symmetric(a: Vec2, b: Vec2)
    ensures
        a.equal(b) == b.equal(a),
{
}

/// Two vectors are equal exactly when their negations are.
pub proof fn lemma_equal_negated(a: Vec2, b: Vec2)
    ensures
        a.negated().equal(b.negated()) == a.equal(b),
{
    binary32::lemma_equal_negated(a.x, b.x);
    binary32::lemma_equal_negated(a.y, b.y);
}

/// A vector equals its own negation exactly when both components are zeros,
/// of either sign.
pub proof fn lemma_equal_own_negation(v: Vec2)
    ensures
        v.negated().equal(v) == (binary32::is_zero(v.x) && binary32::is_zero(v.y)),
{
    binary32::lemma_equal_own_negation(v.x);
    binary32::lemma_equal_own_negation(v.y);
}

} // verus!
