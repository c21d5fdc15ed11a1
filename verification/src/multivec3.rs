//! Multivectors of space: scalar, vector, bivector and trivector
//! coefficients, the full graded basis of three-dimensional geometric
//! algebra.

use vstd::prelude::*;
use crate::Scalar;

verus! {

/// A spatial multivector: scalar part `r`, vector components `x`, `y`,
/// `z`, bivector coefficients `xy`, `xz`, `yz`, and the trivector
/// coefficient `xyz`. Any coefficient combination is a valid value.
#[derive(Copy, Clone, Debug, PartialEq, Eq, Structural)]
pub struct MultiVec3<T> {
    pub r: T,
    pub x: T,
    pub y: T,
    pub z: T,
    pub xy: T,
    pub xz: T,
    pub yz: T,
    pub xyz: T,
}

impl<T: Scalar> MultiVec3<T> {
    /// What `add` returns: componentwise sum, grade by grade.
    pub open spec fn add_spec(self, o: MultiVec3<T>) -> MultiVec3<T> {
        MultiVec3 {
            r: self.r.add_spec(o.r),
            x: self.x.add_spec(o.x),
            y: self.y.add_spec(o.y),
            z: self.z.add_spec(o.z),
            xy: self.xy.add_spec(o.xy),
            xz: self.xz.add_spec(o.xz),
            yz: self.yz.add_spec(o.yz),
            xyz: self.xyz.add_spec(o.xyz),
        }
    }

    /// Componentwise sum.
    pub fn add(self, o: MultiVec3<T>) -> (r: Self)
        ensures
            r == self.add_spec(o),
    {
        MultiVec3 {
            r: self.r.add(o.r),
            x: self.x.add(o.x),
            y: self.y.add(o.y),
            z: self.z.add(o.z),
            xy: self.xy.add(o.xy),
            xz: self.xz.add(o.xz),
            yz: self.yz.add(o.yz),
            xyz: self.xyz.add(o.xyz),
        }
    }

    /// What `sub` returns: componentwise difference, grade by grade.
    pub open spec fn sub_spec(self, o: MultiVec3<T>) -> MultiVec3<T> {
        MultiVec3 {
            r: self.r.sub_spec(o.r),
            x: self.x.sub_spec(o.x),
            y: self.y.sub_spec(o.y),
            z: self.z.sub_spec(o.z),
            xy: self.xy.sub_spec(o.xy),
            xz: self.xz.sub_spec(o.xz),
            yz: self.yz.sub_spec(o.yz),
            xyz: self.xyz.sub_spec(o.xyz),
        }
    }

    /// Componentwise difference.
    pub fn sub(self, o: MultiVec3<T>) -> (r: Self)
        ensures
            r == self.sub_spec(o),
    {
        MultiVec3 {
            r: self.r.sub(o.r),
            x: self.x.sub(o.x),
            y: self.y.sub(o.y),
            z: self.z.sub(o.z),
            xy: self.xy.sub(o.xy),
            xz: self.xz.sub(o.xz),
            yz: self.yz.sub(o.yz),
            xyz: self.xyz.sub(o.xyz),
        }
    }

    /// What `mul` returns: the geometric product. Each basis vector
    /// squares to one and distinct basis vectors anticommute; every
    /// coefficient of the result is the signed sum its grade collects.
    pub open spec fn mul_spec(self, o: MultiVec3<T>) -> MultiVec3<T> {
        MultiVec3 {
            r: self.r.mul_spec(o.r).add_spec(
                self.x.mul_spec(o.x),
            ).add_spec(
                self.y.mul_spec(o.y),
            ).add_spec(
                self.z.mul_spec(o.z),
            ).sub_spec(
                self.xy.mul_spec(o.xy),
            ).sub_spec(
                self.xz.mul_spec(o.xz),
            ).sub_spec(
                self.yz.mul_spec(o.yz),
            ).sub_spec(
                self.xyz.mul_spec(o.xyz),
            ),
            x: self.r.mul_spec(o.x).add_spec(
                self.x.mul_spec(o.r),
            ).sub_spec(
                self.y.mul_spec(o.xy),
            ).sub_spec(
                self.z.mul_spec(o.xz),
            ).add_spec(
                self.xy.mul_spec(o.y),
            ).add_spec(
                self.xz.mul_spec(o.z),
            ).sub_spec(
                self.yz.mul_spec(o.xyz),
            ).sub_spec(
                self.xyz.mul_spec(o.yz),
            ),
            y: self.r.mul_spec(o.y).add_spec(
                self.x.mul_spec(o.xy),
            ).add_spec(
                self.y.mul_spec(o.r),
            ).sub_spec(
                self.z.mul_spec(o.yz),
            ).sub_spec(
                self.xy.mul_spec(o.x),
            ).add_spec(
                self.xz.mul_spec(o.xyz),
            ).add_spec(
                self.yz.mul_spec(o.z),
            ).add_spec(
                self.xyz.mul_spec(o.xz),
            ),
            z: self.r.mul_spec(o.z).add_spec(
                self.x.mul_spec(o.xz),
            ).add_spec(
                self.y.mul_spec(o.yz),
            ).add_spec(
                self.z.mul_spec(o.r),
            ).sub_spec(
                self.xy.mul_spec(o.xyz),
            ).sub_spec(
                self.xz.mul_spec(o.x),
            ).sub_spec(
                self.yz.mul_spec(o.y),
            ).sub_spec(
                self.xyz.mul_spec(o.xy),
            ),
            xy: self.r.mul_spec(o.xy).add_spec(
                self.x.mul_spec(o.y),
            ).sub_spec(
                self.y.mul_spec(o.x),
            ).add_spec(
                self.z.mul_spec(o.xyz),
            ).add_spec(
                self.xy.mul_spec(o.r),
            ).sub_spec(
                self.xz.mul_spec(o.yz),
            ).add_spec(
                self.yz.mul_spec(o.xz),
            ).add_spec(
                self.xyz.mul_spec(o.z),
            ),
            xz: self.r.mul_spec(o.xz).add_spec(
                self.x.mul_spec(o.z),
            ).sub_spec(
                self.y.mul_spec(o.xyz),
            ).sub_spec(
                self.z.mul_spec(o.x),
            ).add_spec(
                self.xy.mul_spec(o.yz),
            ).add_spec(
                self.xz.mul_spec(o.r),
            ).sub_spec(
                self.yz.mul_spec(o.xy),
            ).sub_spec(
                self.xyz.mul_spec(o.y),
            ),
            yz: self.r.mul_spec(o.yz).add_spec(
                self.x.mul_spec(o.xyz),
            ).add_spec(
                self.y.mul_spec(o.z),
            ).sub_spec(
                self.z.mul_spec(o.y),
            ).sub_spec(
                self.xy.mul_spec(o.xz),
            ).add_spec(
                self.xz.mul_spec(o.xy),
            ).add_spec(
                self.yz.mul_spec(o.r),
            ).add_spec(
                self.xyz.mul_spec(o.x),
            ),
            xyz: self.r.mul_spec(o.xyz).add_spec(
                self.x.mul_spec(o.yz),
            ).sub_spec(
                self.y.mul_spec(o.xz),
            ).add_spec(
                self.z.mul_spec(o.xy),
            ).add_spec(
                self.xy.mul_spec(o.z),
            ).sub_spec(
                self.xz.mul_spec(o.y),
            ).add_spec(
                self.yz.mul_spec(o.x),
            ).add_spec(
                self.xyz.mul_spec(o.r),
            ),
        }
    }

    /// The geometric product.
    pub fn mul(self, o: MultiVec3<T>) -> (r: Self)
        ensures
            r == self.mul_spec(o),
    {
        MultiVec3 {
            r: self.r.mul(o.r).add(
                self.x.mul(o.x),
            ).add(
                self.y.mul(o.y),
            ).add(
                self.z.mul(o.z),
            ).sub(
                self.xy.mul(o.xy),
            ).sub(
                self.xz.mul(o.xz),
            ).sub(
                self.yz.mul(o.yz),
            ).sub(
                self.xyz.mul(o.xyz),
            ),
            x: self.r.mul(o.x).add(
                self.x.mul(o.r),
            ).sub(
                self.y.mul(o.xy),
            ).sub(
                self.z.mul(o.xz),
            ).add(
                self.xy.mul(o.y),
            ).add(
                self.xz.mul(o.z),
            ).sub(
                self.yz.mul(o.xyz),
            ).sub(
                self.xyz.mul(o.yz),
            ),
            y: self.r.mul(o.y).add(
                self.x.mul(o.xy),
            ).add(
                self.y.mul(o.r),
            ).sub(
                self.z.mul(o.yz),
            ).sub(
                self.xy.mul(o.x),
            ).add(
                self.xz.mul(o.xyz),
            ).add(
                self.yz.mul(o.z),
            ).add(
                self.xyz.mul(o.xz),
            ),
            z: self.r.mul(o.z).add(
                self.x.mul(o.xz),
            ).add(
                self.y.mul(o.yz),
            ).add(
                self.z.mul(o.r),
            ).sub(
                self.xy.mul(o.xyz),
            ).sub(
                self.xz.mul(o.x),
            ).sub(
                self.yz.mul(o.y),
            ).sub(
                self.xyz.mul(o.xy),
            ),
            xy: self.r.mul(o.xy).add(
                self.x.mul(o.y),
            ).sub(
                self.y.mul(o.x),
            ).add(
                self.z.mul(o.xyz),
            ).add(
                self.xy.mul(o.r),
            ).sub(
                self.xz.mul(o.yz),
            ).add(
                self.yz.mul(o.xz),
            ).add(
                self.xyz.mul(o.z),
            ),
            xz: self.r.mul(o.xz).add(
                self.x.mul(o.z),
            ).sub(
                self.y.mul(o.xyz),
            ).sub(
                self.z.mul(o.x),
            ).add(
                self.xy.mul(o.yz),
            ).add(
                self.xz.mul(o.r),
            ).sub(
                self.yz.mul(o.xy),
            ).sub(
                self.xyz.mul(o.y),
            ),
            yz: self.r.mul(o.yz).add(
                self.x.mul(o.xyz),
            ).add(
                self.y.mul(o.z),
            ).sub(
                self.z.mul(o.y),
            ).sub(
                self.xy.mul(o.xz),
            ).add(
                self.xz.mul(o.xy),
            ).add(
                self.yz.mul(o.r),
            ).add(
                self.xyz.mul(o.x),
            ),
            xyz: self.r.mul(o.xyz).add(
                self.x.mul(o.yz),
            ).sub(
                self.y.mul(o.xz),
            ).add(
                self.z.mul(o.xy),
            ).add(
                self.xy.mul(o.z),
            ).sub(
                self.xz.mul(o.y),
            ).add(
                self.yz.mul(o.x),
            ).add(
                self.xyz.mul(o.r),
            ),
        }
    }

    /// What `neg` returns: every coefficient negated.
    pub open spec fn neg_spec(self) -> MultiVec3<T> {
        MultiVec3 {
            r: self.r.neg_spec(),
            x: self.x.neg_spec(),
            y: self.y.neg_spec(),
            z: self.z.neg_spec(),
            xy: self.xy.neg_spec(),
            xz: self.xz.neg_spec(),
            yz: self.yz.neg_spec(),
            xyz: self.xyz.neg_spec(),
        }
    }

    /// Negates every coefficient.
    pub fn neg(self) -> (r: Self)
        ensures
            r == self.neg_spec(),
    {
        MultiVec3 {
            r: self.r.neg(),
            x: self.x.neg(),
            y: self.y.neg(),
            z: self.z.neg(),
            xy: self.xy.neg(),
            xz: self.xz.neg(),
            yz: self.yz.neg(),
            xyz: self.xyz.neg(),
        }
    }
}

} // verus!
