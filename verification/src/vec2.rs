//! Two-component vectors with componentwise arithmetic.

use vstd::prelude::*;
use crate::Scalar;

verus! {

/// A vector with components `x` and `y`.
#[derive(Copy, Clone, Debug, PartialEq, Eq, Structural)]
pub struct Vec2<T> {
    pub x: T,
    pub y: T,
}

impl<T: Scalar> Vec2<T> {
    /// What `add` returns: componentwise sum.
    pub open spec fn add_spec(self, o: Vec2<T>) -> Vec2<T> {
        Vec2 { x: self.x.add_spec(o.x), y: self.y.add_spec(o.y) }
    }

    /// Componentwise sum.
    pub fn add(self, o: Vec2<T>) -> (r: Self)
        ensures
            r == self.add_spec(o),
    {
        Vec2 { x: self.x.add(o.x), y: self.y.add(o.y) }
    }

    /// What `sub` returns: componentwise difference.
    pub open spec fn sub_spec(self, o: Vec2<T>) -> Vec2<T> {
        Vec2 { x: self.x.sub_spec(o.x), y: self.y.sub_spec(o.y) }
    }

    /// Componentwise difference.
    pub fn sub(self, o: Vec2<T>) -> (r: Self)
        ensures
            r == self.sub_spec(o),
    {
        Vec2 { x: self.x.sub(o.x), y: self.y.sub(o.y) }
    }

    /// What `mul_s` returns: both components scaled.
    pub open spec fn mul_s_spec(self, s: T) -> Vec2<T> {
        Vec2 { x: self.x.mul_spec(s), y: self.y.mul_spec(s) }
    }

    /// Scales both components.
    pub fn mul_s(self, s: T) -> (r: Self)
        ensures
            r == self.mul_s_spec(s),
    {
        Vec2 { x: self.x.mul(s), y: self.y.mul(s) }
    }

    /// What `neg` returns: both components negated.
    pub open spec fn neg_spec(self) -> Vec2<T> {
        Vec2 { x: self.x.neg_spec(), y: self.y.neg_spec() }
    }

    /// Negates both components.
    pub fn neg(self) -> (r: Self)
        ensures
            r == self.neg_spec(),
    {
        Vec2 { x: self.x.neg(), y: self.y.neg() }
    }
}

} // verus!
