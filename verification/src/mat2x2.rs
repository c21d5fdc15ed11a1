//! Two-by-two matrices: two row vectors, with determinant and inverse by
//! the adjugate.

use vstd::prelude::*;
use crate::{Scalar, Zero, Vec2};

verus! {

/// A matrix of two row vectors `x` and `y`.
#[derive(Copy, Clone, Debug, PartialEq, Eq, Structural)]
pub struct Mat2x2<T> {
    pub x: Vec2<T>,
    pub y: Vec2<T>,
}

impl<T: Scalar> Mat2x2<T> {
    /// What `transpose` returns: rows and columns exchanged.
    pub open spec fn transpose_spec(self) -> Mat2x2<T> {
        Mat2x2 {
            x: Vec2 { x: self.x.x, y: self.y.x },
            y: Vec2 { x: self.x.y, y: self.y.y },
        }
    }

    /// Rows become columns.
    pub fn transpose(self) -> (r: Mat2x2<T>)
        ensures
            r == self.transpose_spec(),
    {
        Mat2x2 {
            x: Vec2 { x: self.x.x, y: self.y.x },
            y: Vec2 { x: self.x.y, y: self.y.y },
        }
    }

    /// What `determinant` returns: the cofactor expansion along the first
    /// column.
    pub open spec fn determinant_spec(self) -> T {
        self.x.x.mul_spec(self.y.y).add_spec(self.x.y.mul_spec(self.y.x.neg_spec()))
    }

    /// The determinant, by cofactor expansion along the first column.
    pub fn determinant(self) -> (r: T)
        ensures
            r == self.determinant_spec(),
    {
        let axx = self.y.y;
        let axy = self.y.x.neg();
        self.x.x.mul(axx).add(self.x.y.mul(axy))
    }

    /// What `inverse` returns: the transposed cofactor matrix (the
    /// adjugate) with every entry divided by the determinant, or the matrix
    /// itself unchanged where the determinant is the scalar zero: the
    /// diagonal entries swap, the off-diagonal entries stay and negate.
    pub open spec fn inverse_spec(self) -> Mat2x2<T> {
        if self.determinant_spec() == T::zero_spec() {
            self
        } else {
            let det = self.determinant_spec();
            Mat2x2 {
                x: Vec2 { x: self.y.y.div_spec(det), y: self.x.y.neg_spec().div_spec(det) },
                y: Vec2 { x: self.y.x.neg_spec().div_spec(det), y: self.x.x.div_spec(det) },
            }
        }
    }

    /// The inverse by the adjugate. A singular matrix (determinant equal to
    /// the scalar zero) comes back unchanged rather than as an error.
    pub fn inverse(self) -> (r: Mat2x2<T>)
        ensures
            r == self.inverse_spec(),
    {
        let cxx = self.y.y;
        let cxy = self.y.x.neg();
        let det = self.x.x.mul(cxx).add(self.x.y.mul(cxy));
        if det.eq_v(T::zero()) {
            return self;
        }
        let cyx = self.x.y.neg();
        let cyy = self.x.x;
        Mat2x2 {
            x: Vec2 { x: cxx.div(det), y: cyx.div(det) },
            y: Vec2 { x: cxy.div(det), y: cyy.div(det) },
        }
    }

    /// What `add` returns: componentwise sum.
    pub open spec fn add_spec(self, o: Mat2x2<T>) -> Mat2x2<T> {
        Mat2x2 { x: self.x.add_spec(o.x), y: self.y.add_spec(o.y) }
    }

    /// Componentwise sum.
    pub fn add(self, o: Mat2x2<T>) -> (r: Mat2x2<T>)
        ensures
            r == self.add_spec(o),
    {
        Mat2x2 { x: self.x.add(o.x), y: self.y.add(o.y) }
    }

    /// What `sub` returns: componentwise difference.
    pub open spec fn sub_spec(self, o: Mat2x2<T>) -> Mat2x2<T> {
        Mat2x2 { x: self.x.sub_spec(o.x), y: self.y.sub_spec(o.y) }
    }

    /// Componentwise difference.
    pub fn sub(self, o: Mat2x2<T>) -> (r: Mat2x2<T>)
        ensures
            r == self.sub_spec(o),
    {
        Mat2x2 { x: self.x.sub(o.x), y: self.y.sub(o.y) }
    }

    /// What `mul_s` returns: every entry scaled.
    pub open spec fn mul_s_spec(self, s: T) -> Mat2x2<T> {
        Mat2x2 { x: self.x.mul_s_spec(s), y: self.y.mul_s_spec(s) }
    }

    /// Scales every entry.
    pub fn mul_s(self, s: T) -> (r: Mat2x2<T>)
        ensures
            r == self.mul_s_spec(s),
    {
        Mat2x2 { x: self.x.mul_s(s), y: self.y.mul_s(s) }
    }

    /// What `div_s` returns: every entry divided by the scalar.
    pub open spec fn div_s_spec(self, s: T) -> Mat2x2<T> {
        Mat2x2 {
            x: Vec2 { x: self.x.x.div_spec(s), y: self.x.y.div_spec(s) },
            y: Vec2 { x: self.y.x.div_spec(s), y: self.y.y.div_spec(s) },
        }
    }

    /// Divides every entry by a nonzero scalar.
    pub fn div_s(self, s: T) -> (r: Mat2x2<T>)
        requires
            s != T::zero_spec(),
        ensures
            r == self.div_s_spec(s),
    {
        Mat2x2 {
            x: Vec2 { x: self.x.x.div(s), y: self.x.y.div(s) },
            y: Vec2 { x: self.y.x.div(s), y: self.y.y.div(s) },
        }
    }

    /// What `mul_v` returns: each result component is the matching row
    /// paired against the vector.
    pub open spec fn mul_v_spec(self, v: Vec2<T>) -> Vec2<T> {
        Vec2 {
            x: self.x.x.mul_spec(v.x).add_spec(self.x.y.mul_spec(v.y)),
            y: self.y.x.mul_spec(v.x).add_spec(self.y.y.mul_spec(v.y)),
        }
    }

    /// Matrix times vector.
    pub fn mul_v(self, v: Vec2<T>) -> (r: Vec2<T>)
        ensures
            r == self.mul_v_spec(v),
    {
        Vec2 {
            x: self.x.x.mul(v.x).add(self.x.y.mul(v.y)),
            y: self.y.x.mul(v.x).add(self.y.y.mul(v.y)),
        }
    }

    /// What `mul` returns: the usual row-into-column products.
    pub open spec fn mul_spec(self, o: Mat2x2<T>) -> Mat2x2<T> {
        Mat2x2 {
            x: Vec2 {
                x: self.x.x.mul_spec(o.x.x).add_spec(self.x.y.mul_spec(o.y.x)),
                y: self.x.x.mul_spec(o.x.y).add_spec(self.x.y.mul_spec(o.y.y)),
            },
            y: Vec2 {
                x: self.y.x.mul_spec(o.x.x).add_spec(self.y.y.mul_spec(o.y.x)),
                y: self.y.x.mul_spec(o.x.y).add_spec(self.y.y.mul_spec(o.y.y)),
            },
        }
    }

    /// Matrix product.
    pub fn mul(self, o: Mat2x2<T>) -> (r: Mat2x2<T>)
        ensures
            r == self.mul_spec(o),
    {
        Mat2x2 {
            x: Vec2 {
                x: self.x.x.mul(o.x.x).add(self.x.y.mul(o.y.x)),
                y: self.x.x.mul(o.x.y).add(self.x.y.mul(o.y.y)),
            },
            y: Vec2 {
                x: self.y.x.mul(o.x.x).add(self.y.y.mul(o.y.x)),
                y: self.y.x.mul(o.x.y).add(self.y.y.mul(o.y.y)),
            },
        }
    }

    /// What `neg` returns: every entry negated.
    pub open spec fn neg_spec(self) -> Mat2x2<T> {
        Mat2x2 { x: self.x.neg_spec(), y: self.y.neg_spec() }
    }

    /// Negates every entry.
    pub fn neg(self) -> (r: Mat2x2<T>)
        ensures
            r == self.neg_spec(),
    {
        Mat2x2 { x: self.x.neg(), y: self.y.neg() }
    }

    /// Builds the matrix from a flat array of entries in row-major order.
    pub fn from_array(a: [T; 4]) -> (r: Mat2x2<T>)
        ensures
            r == (Mat2x2 {
                x: Vec2 { x: a[0], y: a[1] },
                y: Vec2 { x: a[2], y: a[3] },
            }),
    {
        Mat2x2 {
            x: Vec2 { x: a[0], y: a[1] },
            y: Vec2 { x: a[2], y: a[3] },
        }
    }
}

/// A singular matrix comes back from `inverse` untouched: where the
/// determinant is the scalar zero, the inverse is the matrix itself.
pub proof fn lemma_singular_inverse_2x2<T: Scalar>(m: Mat2x2<T>)
    requires
        m.determinant_spec() == T::zero_spec(),
    ensures
        m.inverse_spec() == m,
{
}

} // verus!
