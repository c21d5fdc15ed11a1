//! Three-component vectors with componentwise arithmetic.

use vstd::prelude::*;
use crate::Scalar;

verus! {

/// A vector with components `x`, `y` and `z`.
#[derive(Copy, Clone, Debug, PartialEq, Eq, Structural)]
pub struct Vec3<T> {
    pub x: T,
    pub y: T,
    pub z: T,
}

impl<T: Scalar> Vec3<T> {
    /// What `add` returns: componentwise sum.
    pub open spec fn add_spec(self, o: Vec3<T>) -> Vec3<T> {
        Vec3 { x: self.x.add_spec(o.x), y: self.y.add_spec(o.y), z: self.z.add_spec(o.z) }
    }

    /// Componentwise sum.
    pub fn add(self, o: Vec3<T>) -> (r: Self)
        ensures
            r == self.add_spec(o),
    {
        Vec3 { x: self.x.add(o.x), y: self.y.add(o.y), z: self.z.add(o.z) }
    }

    /// What `sub` returns: componentwise difference.
    pub open spec fn sub_spec(self, o: Vec3<T>) -> Vec3<T> {
        Vec3 { x: self.x.sub_spec(o.x), y: self.y.sub_spec(o.y), z: self.z.sub_spec(o.z) }
    }

    /// Componentwise difference.
    pub fn sub(self, o: Vec3<T>) -> (r: Self)
        ensures
            r == self.sub_spec(o),
    {
        Vec3 { x: self.x.sub(o.x), y: self.y.sub(o.y), z: self.z.sub(o.z) }
    }

    /// What `mul_s` returns: both components scaled.
    pub open spec fn mul_s_spec(self, s: T) -> Vec3<T> {
        Vec3 { x: self.x.mul_spec(s), y: self.y.mul_spec(s), z: self.z.mul_spec(s) }
    }

    /// Scales both components.
    pub fn mul_s(self, s: T) -> (r: Self)
        ensures
            r == self.mul_s_spec(s),
    {
        Vec3 { x: self.x.mul(s), y: self.y.mul(s), z: self.z.mul(s) }
    }

    /// What `neg` returns: both components negated.
    pub open spec fn neg_spec(self) -> Vec3<T> {
        Vec3 { x: self.x.neg_spec(), y: self.y.neg_spec(), z: self.z.neg_spec() }
    }

    /// Negates both components.
    pub fn neg(self) -> (r: Self)
        ensures
            r == self.neg_spec(),
    {
        Vec3 { x: self.x.neg(), y: self.y.neg(), z: self.z.neg() }
    }
}

} // verus!
