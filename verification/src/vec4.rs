//! Four-component vectors with componentwise arithmetic.

use vstd::prelude::*;
use crate::Scalar;

verus! {

/// A vector with components `x`, `y`, `z` and `w`.
#[derive(Copy, Clone, Debug, PartialEq, Eq, Structural)]
pub struct Vec4<T> {
    pub x: T,
    pub y: T,
    pub z: T,
    pub w: T,
}

impl<T: Scalar> Vec4<T> {
    /// What `add` returns: componentwise sum.
    pub open spec fn add_spec(self, o: Vec4<T>) -> Vec4<T> {
        Vec4 { x: self.x.add_spec(o.x), y: self.y.add_spec(o.y), z: self.z.add_spec(o.z), w: self.w.add_spec(o.w) }
    }

    /// Componentwise sum.
    pub fn add(self, o: Vec4<T>) -> (r: Self)
        ensures
            r == self.add_spec(o),
    {
        Vec4 { x: self.x.add(o.x), y: self.y.add(o.y), z: self.z.add(o.z), w: self.w.add(o.w) }
    }

    /// What `sub` returns: componentwise difference.
    pub open spec fn sub_spec(self, o: Vec4<T>) -> Vec4<T> {
        Vec4 { x: self.x.sub_spec(o.x), y: self.y.sub_spec(o.y), z: self.z.sub_spec(o.z), w: self.w.sub_spec(o.w) }
    }

    /// Componentwise difference.
    pub fn sub(self, o: Vec4<T>) -> (r: Self)
        ensures
            r == self.sub_spec(o),
    {
        Vec4 { x: self.x.sub(o.x), y: self.y.sub(o.y), z: self.z.sub(o.z), w: self.w.sub(o.w) }
    }

    /// What `mul_s` returns: both components scaled.
    pub open spec fn mul_s_spec(self, s: T) -> Vec4<T> {
        Vec4 { x: self.x.mul_spec(s), y: self.y.mul_spec(s), z: self.z.mul_spec(s), w: self.w.mul_spec(s) }
    }

    /// Scales both components.
    pub fn mul_s(self, s: T) -> (r: Self)
        ensures
            r == self.mul_s_spec(s),
    {
        Vec4 { x: self.x.mul(s), y: self.y.mul(s), z: self.z.mul(s), w: self.w.mul(s) }
    }

    /// What `neg` returns: both components negated.
    pub open spec fn neg_spec(self) -> Vec4<T> {
        Vec4 { x: self.x.neg_spec(), y: self.y.neg_spec(), z: self.z.neg_spec(), w: self.w.neg_spec() }
    }

    /// Negates both components.
    pub fn neg(self) -> (r: Self)
        ensures
            r == self.neg_spec(),
    {
        Vec4 { x: self.x.neg(), y: self.y.neg(), z: self.z.neg(), w: self.w.neg() }
    }
}

} // verus!
