//! Three-by-three matrices: three row vectors, with determinant and inverse
//! by the adjugate.

use vstd::prelude::*;
use crate::{Scalar, Zero, Vec3};

verus! {

/// A matrix of three row vectors `x`, `y` and `z`.
#[derive(Copy, Clone, Debug, PartialEq, Eq, Structural)]
pub struct Mat3x3<T> {
    pub x: Vec3<T>,
    pub y: Vec3<T>,
    pub z: Vec3<T>,
}

impl<T: Scalar> Mat3x3<T> {
    /// What `transpose` returns: rows and columns exchanged.
    pub open spec fn transpose_spec(self) -> Mat3x3<T> {
        Mat3x3 {
            x: Vec3 { x: self.x.x, y: self.y.x, z: self.z.x },
            y: Vec3 { x: self.x.y, y: self.y.y, z: self.z.y },
            z: Vec3 { x: self.x.z, y: self.y.z, z: self.z.z },
        }
    }

    /// Rows become columns.
    pub fn transpose(self) -> (r: Mat3x3<T>)
        ensures
            r == self.transpose_spec(),
    {
        Mat3x3 {
            x: Vec3 { x: self.x.x, y: self.y.x, z: self.z.x },
            y: Vec3 { x: self.x.y, y: self.y.y, z: self.z.y },
            z: Vec3 { x: self.x.z, y: self.y.z, z: self.z.z },
        }
    }

    /// Cofactor of the leading entry.
    pub open spec fn cof_xx_spec(self) -> T {
        self.y.y.mul_spec(self.z.z).sub_spec(self.y.z.mul_spec(self.z.y))
    }

    /// Cofactor of the first entry of the second row.
    pub open spec fn cof_yx_spec(self) -> T {
        self.x.y.mul_spec(self.z.z).sub_spec(self.x.z.mul_spec(self.z.y)).neg_spec()
    }

    /// Cofactor of the first entry of the third row.
    pub open spec fn cof_zx_spec(self) -> T {
        self.x.y.mul_spec(self.y.z).sub_spec(self.x.z.mul_spec(self.y.y))
    }

    /// What `determinant` returns: the cofactor expansion along the first
    /// column.
    pub open spec fn determinant_spec(self) -> T {
        self.x.x.mul_spec(self.cof_xx_spec())
            .add_spec(self.y.x.mul_spec(self.cof_yx_spec()))
            .add_spec(self.z.x.mul_spec(self.cof_zx_spec()))
    }

    /// The determinant, by cofactor expansion along the first column.
    pub fn determinant(self) -> (r: T)
        ensures
            r == self.determinant_spec(),
    {
        let cxx = self.y.y.mul(self.z.z).sub(self.y.z.mul(self.z.y));
        let cyx = self.x.y.mul(self.z.z).sub(self.x.z.mul(self.z.y)).neg();
        let czx = self.x.y.mul(self.y.z).sub(self.x.z.mul(self.y.y));
        self.x.x.mul(cxx).add(self.y.x.mul(cyx)).add(self.z.x.mul(czx))
    }

    /// What `inverse` returns: the transposed cofactor matrix (the
    /// adjugate) with every entry divided by the determinant, or the matrix
    /// itself unchanged where the determinant is the scalar zero.
    pub open spec fn inverse_spec(self) -> Mat3x3<T> {
        if self.determinant_spec() == T::zero_spec() {
            self
        } else {
            let det = self.determinant_spec();
            let cxy = self.y.x.mul_spec(self.z.z).sub_spec(self.y.z.mul_spec(self.z.x)).neg_spec();
            let cxz = self.y.x.mul_spec(self.z.y).sub_spec(self.y.y.mul_spec(self.z.x));
            let cyy = self.x.x.mul_spec(self.z.z).sub_spec(self.x.z.mul_spec(self.z.x));
            let cyz = self.x.x.mul_spec(self.z.y).sub_spec(self.x.y.mul_spec(self.z.x)).neg_spec();
            let czy = self.x.x.mul_spec(self.y.z).sub_spec(self.x.z.mul_spec(self.y.x)).neg_spec();
            let czz = self.x.x.mul_spec(self.y.y).sub_spec(self.x.y.mul_spec(self.y.x));
            Mat3x3 {
                x: Vec3 {
                    x: self.cof_xx_spec().div_spec(det),
                    y: self.cof_yx_spec().div_spec(det),
                    z: self.cof_zx_spec().div_spec(det),
                },
                y: Vec3 { x: cxy.div_spec(det), y: cyy.div_spec(det), z: czy.div_spec(det) },
                z: Vec3 { x: cxz.div_spec(det), y: cyz.div_spec(det), z: czz.div_spec(det) },
            }
        }
    }

    /// The inverse by the adjugate. A singular matrix (determinant equal to
    /// the scalar zero) comes back unchanged rather than as an error.
    pub fn inverse(self) -> (r: Mat3x3<T>)
        ensures
            r == self.inverse_spec(),
    {
        let cxx = self.y.y.mul(self.z.z).sub(self.y.z.mul(self.z.y));
        let cyx = self.x.y.mul(self.z.z).sub(self.x.z.mul(self.z.y)).neg();
        let czx = self.x.y.mul(self.y.z).sub(self.x.z.mul(self.y.y));
        let det = self.x.x.mul(cxx).add(self.y.x.mul(cyx)).add(self.z.x.mul(czx));
        if det.eq_v(T::zero()) {
            return self;
        }
        let cxy = self.y.x.mul(self.z.z).sub(self.y.z.mul(self.z.x)).neg();
        let cxz = self.y.x.mul(self.z.y).sub(self.y.y.mul(self.z.x));
        let cyy = self.x.x.mul(self.z.z).sub(self.x.z.mul(self.z.x));
        let cyz = self.x.x.mul(self.z.y).sub(self.x.y.mul(self.z.x)).neg();
        let czy = self.x.x.mul(self.y.z).sub(self.x.z.mul(self.y.x)).neg();
        let czz = self.x.x.mul(self.y.y).sub(self.x.y.mul(self.y.x));
        Mat3x3 {
            x: Vec3 { x: cxx.div(det), y: cyx.div(det), z: czx.div(det) },
            y: Vec3 { x: cxy.div(det), y: cyy.div(det), z: czy.div(det) },
            z: Vec3 { x: cxz.div(det), y: cyz.div(det), z: czz.div(det) },
        }
    }

    /// What `add` returns: componentwise sum.
    pub open spec fn add_spec(self, o: Mat3x3<T>) -> Mat3x3<T> {
        Mat3x3 { x: self.x.add_spec(o.x), y: self.y.add_spec(o.y), z: self.z.add_spec(o.z) }
    }

    /// Componentwise sum.
    pub fn add(self, o: Mat3x3<T>) -> (r: Mat3x3<T>)
        ensures
            r == self.add_spec(o),
    {
        Mat3x3 { x: self.x.add(o.x), y: self.y.add(o.y), z: self.z.add(o.z) }
    }

    /// What `sub` returns: componentwise difference.
    pub open spec fn sub_spec(self, o: Mat3x3<T>) -> Mat3x3<T> {
        Mat3x3 { x: self.x.sub_spec(o.x), y: self.y.sub_spec(o.y), z: self.z.sub_spec(o.z) }
    }

    /// Componentwise difference.
    pub fn sub(self, o: Mat3x3<T>) -> (r: Mat3x3<T>)
        ensures
            r == self.sub_spec(o),
    {
        Mat3x3 { x: self.x.sub(o.x), y: self.y.sub(o.y), z: self.z.sub(o.z) }
    }

    /// What `mul_s` returns: every entry scaled.
    pub open spec fn mul_s_spec(self, s: T) -> Mat3x3<T> {
        Mat3x3 { x: self.x.mul_s_spec(s), y: self.y.mul_s_spec(s), z: self.z.mul_s_spec(s) }
    }

    /// Scales every entry.
    pub fn mul_s(self, s: T) -> (r: Mat3x3<T>)
        ensures
            r == self.mul_s_spec(s),
    {
        Mat3x3 { x: self.x.mul_s(s), y: self.y.mul_s(s), z: self.z.mul_s(s) }
    }

    /// What `div_s` returns: every entry divided by the scalar.
    pub open spec fn div_s_spec(self, s: T) -> Mat3x3<T> {
        Mat3x3 {
            x: Vec3 {
                x: self.x.x.div_spec(s),
                y: self.x.y.div_spec(s),
                z: self.x.z.div_spec(s),
            },
            y: Vec3 {
                x: self.y.x.div_spec(s),
                y: self.y.y.div_spec(s),
                z: self.y.z.div_spec(s),
            },
            z: Vec3 {
                x: self.z.x.div_spec(s),
                y: self.z.y.div_spec(s),
                z: self.z.z.div_spec(s),
            },
        }
    }

    /// Divides every entry by a nonzero scalar.
    pub fn div_s(self, s: T) -> (r: Mat3x3<T>)
        requires
            s != T::zero_spec(),
        ensures
            r == self.div_s_spec(s),
    {
        Mat3x3 {
            x: Vec3 { x: self.x.x.div(s), y: self.x.y.div(s), z: self.x.z.div(s) },
            y: Vec3 { x: self.y.x.div(s), y: self.y.y.div(s), z: self.y.z.div(s) },
            z: Vec3 { x: self.z.x.div(s), y: self.z.y.div(s), z: self.z.z.div(s) },
        }
    }

    /// What `mul_v` returns: each result component is the matching row
    /// paired against the vector.
    pub open spec fn mul_v_spec(self, v: Vec3<T>) -> Vec3<T> {
        Vec3 {
            x: self.x.x.mul_spec(v.x).add_spec(self.x.y.mul_spec(v.y)).add_spec(
                self.x.z.mul_spec(v.z),
            ),
            y: self.y.x.mul_spec(v.x).add_spec(self.y.y.mul_spec(v.y)).add_spec(
                self.y.z.mul_spec(v.z),
            ),
            z: self.z.x.mul_spec(v.x).add_spec(self.z.y.mul_spec(v.y)).add_spec(
                self.z.z.mul_spec(v.z),
            ),
        }
    }

    /// Matrix times vector.
    pub fn mul_v(self, v: Vec3<T>) -> (r: Vec3<T>)
        ensures
            r == self.mul_v_spec(v),
    {
        Vec3 {
            x: self.x.x.mul(v.x).add(self.x.y.mul(v.y)).add(self.x.z.mul(v.z)),
            y: self.y.x.mul(v.x).add(self.y.y.mul(v.y)).add(self.y.z.mul(v.z)),
            z: self.z.x.mul(v.x).add(self.z.y.mul(v.y)).add(self.z.z.mul(v.z)),
        }
    }

    /// What `mul` returns: the usual row-into-column products.
    pub open spec fn mul_spec(self, o: Mat3x3<T>) -> Mat3x3<T> {
        Mat3x3 {
            x: o.transpose_spec().mul_v_spec(self.x),
            y: o.transpose_spec().mul_v_spec(self.y),
            z: o.transpose_spec().mul_v_spec(self.z),
        }
    }

    /// Matrix product.
    pub fn mul(self, o: Mat3x3<T>) -> (r: Mat3x3<T>)
        ensures
            r == self.mul_spec(o),
    {
        let t = o.transpose();
        Mat3x3 { x: t.mul_v(self.x), y: t.mul_v(self.y), z: t.mul_v(self.z) }
    }

    /// What `neg` returns: every entry negated.
    pub open spec fn neg_spec(self) -> Mat3x3<T> {
        Mat3x3 { x: self.x.neg_spec(), y: self.y.neg_spec(), z: self.z.neg_spec() }
    }

    /// Negates every entry.
    pub fn neg(self) -> (r: Mat3x3<T>)
        ensures
            r == self.neg_spec(),
    {
        Mat3x3 { x: self.x.neg(), y: self.y.neg(), z: self.z.neg() }
    }

    /// Builds the matrix from a flat array of entries in row-major order.
    pub fn from_array(a: [T; 9]) -> (r: Mat3x3<T>)
        ensures
            r == (Mat3x3 {
                x: Vec3 { x: a[0], y: a[1], z: a[2] },
                y: Vec3 { x: a[3], y: a[4], z: a[5] },
                z: Vec3 { x: a[6], y: a[7], z: a[8] },
            }),
    {
        Mat3x3 {
            x: Vec3 { x: a[0], y: a[1], z: a[2] },
            y: Vec3 { x: a[3], y: a[4], z: a[5] },
            z: Vec3 { x: a[6], y: a[7], z: a[8] },
        }
    }
}

/// A singular matrix comes back from `inverse` untouched: where the
/// determinant is the scalar zero, the inverse is the matrix itself.
pub proof fn lemma_singular_inverse_3x3<T: Scalar>(m: Mat3x3<T>)
    requires
        m.determinant_spec() == T::zero_spec(),
    ensures
        m.inverse_spec() == m,
{
}

} // verus!
