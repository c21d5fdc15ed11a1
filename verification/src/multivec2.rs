//! Multivectors of the plane: a scalar, a vector and a bivector, the full
//! graded basis of two-dimensional geometric algebra.

use vstd::prelude::*;
use crate::{Scalar, Zero};

verus! {

/// A planar multivector: scalar part `r`, vector components `x` and `y`,
/// and the bivector coefficient `xy`. Any coefficient combination is a
/// valid value.
#[derive(Copy, Clone, Debug, PartialEq, Eq, Structural)]
pub struct MultiVec2<T> {
    pub r: T,
    pub x: T,
    pub y: T,
    pub xy: T,
}

impl<T: Scalar> MultiVec2<T> {
    /// What `add` returns: componentwise sum, grade by grade.
    pub open spec fn add_spec(self, o: MultiVec2<T>) -> MultiVec2<T> {
        MultiVec2 {
            r: self.r.add_spec(o.r),
            x: self.x.add_spec(o.x),
            y: self.y.add_spec(o.y),
            xy: self.xy.add_spec(o.xy),
        }
    }

    /// Componentwise sum.
    pub fn add(self, o: MultiVec2<T>) -> (r: Self)
        ensures
            r == self.add_spec(o),
    {
        MultiVec2 {
            r: self.r.add(o.r),
            x: self.x.add(o.x),
            y: self.y.add(o.y),
            xy: self.xy.add(o.xy),
        }
    }

    /// What `sub` returns: componentwise difference, grade by grade.
    pub open spec fn sub_spec(self, o: MultiVec2<T>) -> MultiVec2<T> {
        MultiVec2 {
            r: self.r.sub_spec(o.r),
            x: self.x.sub_spec(o.x),
            y: self.y.sub_spec(o.y),
            xy: self.xy.sub_spec(o.xy),
        }
    }

    /// Componentwise difference.
    pub fn sub(self, o: MultiVec2<T>) -> (r: Self)
        ensures
            r == self.sub_spec(o),
    {
        MultiVec2 {
            r: self.r.sub(o.r),
            x: self.x.sub(o.x),
            y: self.y.sub(o.y),
            xy: self.xy.sub(o.xy),
        }
    }

    /// What `mul` returns: the geometric product of the plane. Each basis
    /// vector squares to one, distinct basis vectors anticommute, and the
    /// bivector squares to minus one.
    pub open spec fn mul_spec(self, o: MultiVec2<T>) -> MultiVec2<T> {
        MultiVec2 {
            r: self.r.mul_spec(o.r).add_spec(self.x.mul_spec(o.x)).add_spec(
                self.y.mul_spec(o.y),
            ).sub_spec(self.xy.mul_spec(o.xy)),
            x: self.r.mul_spec(o.x).add_spec(self.x.mul_spec(o.r)).sub_spec(
                self.y.mul_spec(o.xy),
            ).add_spec(self.xy.mul_spec(o.y)),
            y: self.r.mul_spec(o.y).add_spec(self.y.mul_spec(o.r)).add_spec(
                self.x.mul_spec(o.xy),
            ).sub_spec(self.xy.mul_spec(o.x)),
            xy: self.r.mul_spec(o.xy).add_spec(self.xy.mul_spec(o.r)).add_spec(
                self.x.mul_spec(o.y),
            ).sub_spec(self.y.mul_spec(o.x)),
        }
    }

    /// The geometric product.
    pub fn mul(self, o: MultiVec2<T>) -> (r: Self)
        ensures
            r == self.mul_spec(o),
    {
        MultiVec2 {
            r: self.r.mul(o.r).add(self.x.mul(o.x)).add(self.y.mul(o.y)).sub(
                self.xy.mul(o.xy),
            ),
            x: self.r.mul(o.x).add(self.x.mul(o.r)).sub(self.y.mul(o.xy)).add(
                self.xy.mul(o.y),
            ),
            y: self.r.mul(o.y).add(self.y.mul(o.r)).add(self.x.mul(o.xy)).sub(
                self.xy.mul(o.x),
            ),
            xy: self.r.mul(o.xy).add(self.xy.mul(o.r)).add(self.x.mul(o.y)).sub(
                self.y.mul(o.x),
            ),
        }
    }

    /// What `neg` returns: every coefficient negated.
    pub open spec fn neg_spec(self) -> MultiVec2<T> {
        MultiVec2 {
            r: self.r.neg_spec(),
            x: self.x.neg_spec(),
            y: self.y.neg_spec(),
            xy: self.xy.neg_spec(),
        }
    }

    /// Negates every coefficient.
    pub fn neg(self) -> (r: Self)
        ensures
            r == self.neg_spec(),
    {
        MultiVec2 {
            r: self.r.neg(),
            x: self.x.neg(),
            y: self.y.neg(),
            xy: self.xy.neg(),
        }
    }
}

} // verus!
