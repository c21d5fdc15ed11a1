//! Four-by-four matrices: four row vectors, with determinant and inverse
//! by the adjugate.

use vstd::prelude::*;
use crate::{Scalar, Zero, Vec4};

verus! {

/// A matrix of four row vectors `x`, `y`, `z` and `w`.
#[derive(Copy, Clone, Debug, PartialEq, Eq, Structural)]
pub struct Mat4x4<T> {
    pub x: Vec4<T>,
    pub y: Vec4<T>,
    pub z: Vec4<T>,
    pub w: Vec4<T>,
}

impl<T: Scalar> Mat4x4<T> {
    /// What `transpose` returns: rows and columns exchanged.
    pub open spec fn transpose_spec(self) -> Mat4x4<T> {
        Mat4x4 {
            x: Vec4 { x: self.x.x, y: self.y.x, z: self.z.x, w: self.w.x },
            y: Vec4 { x: self.x.y, y: self.y.y, z: self.z.y, w: self.w.y },
            z: Vec4 { x: self.x.z, y: self.y.z, z: self.z.z, w: self.w.z },
            w: Vec4 { x: self.x.w, y: self.y.w, z: self.z.w, w: self.w.w },
        }
    }

    /// Rows become columns.
    pub fn transpose(self) -> (r: Mat4x4<T>)
        ensures
            r == self.transpose_spec(),
    {
        Mat4x4 {
            x: Vec4 { x: self.x.x, y: self.y.x, z: self.z.x, w: self.w.x },
            y: Vec4 { x: self.x.y, y: self.y.y, z: self.z.y, w: self.w.y },
            z: Vec4 { x: self.x.z, y: self.y.z, z: self.z.z, w: self.w.z },
            w: Vec4 { x: self.x.w, y: self.y.w, z: self.z.w, w: self.w.w },
        }
    }

    /// What `determinant` returns: the cofactor expansion along the first
    /// column, each cofactor a signed three-by-three minor.
    pub open spec fn determinant_spec(self) -> T {
        let cxx = self.y.y.mul_spec(
            self.z.z.mul_spec(self.w.w).sub_spec(self.z.w.mul_spec(self.w.z)),
        ).sub_spec(
            self.y.z.mul_spec(self.z.y.mul_spec(self.w.w).sub_spec(self.z.w.mul_spec(self.w.y))),
        ).add_spec(
            self.y.w.mul_spec(self.z.y.mul_spec(self.w.z).sub_spec(self.z.z.mul_spec(self.w.y))),
        );
        let cyx = self.x.y.mul_spec(
            self.z.z.mul_spec(self.w.w).sub_spec(self.z.w.mul_spec(self.w.z)),
        ).sub_spec(
            self.x.z.mul_spec(self.z.y.mul_spec(self.w.w).sub_spec(self.z.w.mul_spec(self.w.y))),
        ).add_spec(
            self.x.w.mul_spec(self.z.y.mul_spec(self.w.z).sub_spec(self.z.z.mul_spec(self.w.y))),
        ).neg_spec();
        let czx = self.x.y.mul_spec(
            self.y.z.mul_spec(self.w.w).sub_spec(self.y.w.mul_spec(self.w.z)),
        ).sub_spec(
            self.x.z.mul_spec(self.y.y.mul_spec(self.w.w).sub_spec(self.y.w.mul_spec(self.w.y))),
        ).add_spec(
            self.x.w.mul_spec(self.y.y.mul_spec(self.w.z).sub_spec(self.y.z.mul_spec(self.w.y))),
        );
        let cwx = self.x.y.mul_spec(
            self.y.z.mul_spec(self.z.w).sub_spec(self.y.w.mul_spec(self.z.z)),
        ).sub_spec(
            self.x.z.mul_spec(self.y.y.mul_spec(self.z.w).sub_spec(self.y.w.mul_spec(self.z.y))),
        ).add_spec(
            self.x.w.mul_spec(self.y.y.mul_spec(self.z.z).sub_spec(self.y.z.mul_spec(self.z.y))),
        ).neg_spec();
        self.x.x.mul_spec(cxx).add_spec(self.y.x.mul_spec(cyx)).add_spec(self.z.x.mul_spec(czx)).add_spec(
            self.w.x.mul_spec(cwx),
        )
    }

    /// The determinant, by cofactor expansion along the first column.
    pub fn determinant(self) -> (r: T)
        ensures
            r == self.determinant_spec(),
    {
        let cxx = self.y.y.mul(
            self.z.z.mul(self.w.w).sub(self.z.w.mul(self.w.z)),
        ).sub(
            self.y.z.mul(self.z.y.mul(self.w.w).sub(self.z.w.mul(self.w.y))),
        ).add(
            self.y.w.mul(self.z.y.mul(self.w.z).sub(self.z.z.mul(self.w.y))),
        );
        let cyx = self.x.y.mul(
            self.z.z.mul(self.w.w).sub(self.z.w.mul(self.w.z)),
        ).sub(
            self.x.z.mul(self.z.y.mul(self.w.w).sub(self.z.w.mul(self.w.y))),
        ).add(
            self.x.w.mul(self.z.y.mul(self.w.z).sub(self.z.z.mul(self.w.y))),
        ).neg();
        let czx = self.x.y.mul(
            self.y.z.mul(self.w.w).sub(self.y.w.mul(self.w.z)),
        ).sub(
            self.x.z.mul(self.y.y.mul(self.w.w).sub(self.y.w.mul(self.w.y))),
        ).add(
            self.x.w.mul(self.y.y.mul(self.w.z).sub(self.y.z.mul(self.w.y))),
        );
        let cwx = self.x.y.mul(
            self.y.z.mul(self.z.w).sub(self.y.w.mul(self.z.z)),
        ).sub(
            self.x.z.mul(self.y.y.mul(self.z.w).sub(self.y.w.mul(self.z.y))),
        ).add(
            self.x.w.mul(self.y.y.mul(self.z.z).sub(self.y.z.mul(self.z.y))),
        ).neg();
        self.x.x.mul(cxx).add(self.y.x.mul(cyx)).add(self.z.x.mul(czx)).add(
            self.w.x.mul(cwx),
        )
    }

    /// What `inverse` returns: the transposed cofactor matrix (the
    /// adjugate) with every entry divided by the determinant, or the matrix
    /// itself unchanged where the determinant is the scalar zero.
    pub open spec fn inverse_spec(self) -> Mat4x4<T> {
        if self.determinant_spec() == T::zero_spec() {
            self
        } else {
            let det = self.determinant_spec();
            let cxx = self.y.y.mul_spec(
                self.z.z.mul_spec(self.w.w).sub_spec(self.z.w.mul_spec(self.w.z)),
            ).sub_spec(
                self.y.z.mul_spec(self.z.y.mul_spec(self.w.w).sub_spec(self.z.w.mul_spec(self.w.y))),
            ).add_spec(
                self.y.w.mul_spec(self.z.y.mul_spec(self.w.z).sub_spec(self.z.z.mul_spec(self.w.y))),
            );
            let cyx = self.x.y.mul_spec(
                self.z.z.mul_spec(self.w.w).sub_spec(self.z.w.mul_spec(self.w.z)),
            ).sub_spec(
                self.x.z.mul_spec(self.z.y.mul_spec(self.w.w).sub_spec(self.z.w.mul_spec(self.w.y))),
            ).add_spec(
                self.x.w.mul_spec(self.z.y.mul_spec(self.w.z).sub_spec(self.z.z.mul_spec(self.w.y))),
            ).neg_spec();
            let czx = self.x.y.mul_spec(
                self.y.z.mul_spec(self.w.w).sub_spec(self.y.w.mul_spec(self.w.z)),
            ).sub_spec(
                self.x.z.mul_spec(self.y.y.mul_spec(self.w.w).sub_spec(self.y.w.mul_spec(self.w.y))),
            ).add_spec(
                self.x.w.mul_spec(self.y.y.mul_spec(self.w.z).sub_spec(self.y.z.mul_spec(self.w.y))),
            );
            let cwx = self.x.y.mul_spec(
                self.y.z.mul_spec(self.z.w).sub_spec(self.y.w.mul_spec(self.z.z)),
            ).sub_spec(
                self.x.z.mul_spec(self.y.y.mul_spec(self.z.w).sub_spec(self.y.w.mul_spec(self.z.y))),
            ).add_spec(
                self.x.w.mul_spec(self.y.y.mul_spec(self.z.z).sub_spec(self.y.z.mul_spec(self.z.y))),
            ).neg_spec();
            let cxy = self.y.x.mul_spec(
                self.z.z.mul_spec(self.w.w).sub_spec(self.z.w.mul_spec(self.w.z)),
            ).sub_spec(
                self.y.z.mul_spec(self.z.x.mul_spec(self.w.w).sub_spec(self.z.w.mul_spec(self.w.x))),
            ).add_spec(
                self.y.w.mul_spec(self.z.x.mul_spec(self.w.z).sub_spec(self.z.z.mul_spec(self.w.x))),
            ).neg_spec();
            let cxz = self.y.x.mul_spec(
                self.z.y.mul_spec(self.w.w).sub_spec(self.z.w.mul_spec(self.w.y)),
            ).sub_spec(
                self.y.y.mul_spec(self.z.x.mul_spec(self.w.w).sub_spec(self.z.w.mul_spec(self.w.x))),
            ).add_spec(
                self.y.w.mul_spec(self.z.x.mul_spec(self.w.y).sub_spec(self.z.y.mul_spec(self.w.x))),
            );
            let cxw = self.y.x.mul_spec(
                self.z.y.mul_spec(self.w.z).sub_spec(self.z.z.mul_spec(self.w.y)),
            ).sub_spec(
                self.y.y.mul_spec(self.z.x.mul_spec(self.w.z).sub_spec(self.z.z.mul_spec(self.w.x))),
            ).add_spec(
                self.y.z.mul_spec(self.z.x.mul_spec(self.w.y).sub_spec(self.z.y.mul_spec(self.w.x))),
            ).neg_spec();
            let cyy = self.x.x.mul_spec(
                self.z.z.mul_spec(self.w.w).sub_spec(self.z.w.mul_spec(self.w.z)),
            ).sub_spec(
                self.x.z.mul_spec(self.z.x.mul_spec(self.w.w).sub_spec(self.z.w.mul_spec(self.w.x))),
            ).add_spec(
                self.x.w.mul_spec(self.z.x.mul_spec(self.w.z).sub_spec(self.z.z.mul_spec(self.w.x))),
            );
            let cyz = self.x.x.mul_spec(
                self.z.y.mul_spec(self.w.w).sub_spec(self.z.w.mul_spec(self.w.y)),
            ).sub_spec(
                self.x.y.mul_spec(self.z.x.mul_spec(self.w.w).sub_spec(self.z.w.mul_spec(self.w.x))),
            ).add_spec(
                self.x.w.mul_spec(self.z.x.mul_spec(self.w.y).sub_spec(self.z.y.mul_spec(self.w.x))),
            ).neg_spec();
            let cyw = self.x.x.mul_spec(
                self.z.y.mul_spec(self.w.z).sub_spec(self.z.z.mul_spec(self.w.y)),
            ).sub_spec(
                self.x.y.mul_spec(self.z.x.mul_spec(self.w.z).sub_spec(self.z.z.mul_spec(self.w.x))),
            ).add_spec(
                self.x.z.mul_spec(self.z.x.mul_spec(self.w.y).sub_spec(self.z.y.mul_spec(self.w.x))),
            );
            let czy = self.x.x.mul_spec(
                self.y.z.mul_spec(self.w.w).sub_spec(self.y.w.mul_spec(self.w.z)),
            ).sub_spec(
                self.x.z.mul_spec(self.y.x.mul_spec(self.w.w).sub_spec(self.y.w.mul_spec(self.w.x))),
            ).add_spec(
                self.x.w.mul_spec(self.y.x.mul_spec(self.w.z).sub_spec(self.y.z.mul_spec(self.w.x))),
            ).neg_spec();
            let czz = self.x.x.mul_spec(
                self.y.y.mul_spec(self.w.w).sub_spec(self.y.w.mul_spec(self.w.y)),
            ).sub_spec(
                self.x.y.mul_spec(self.y.x.mul_spec(self.w.w).sub_spec(self.y.w.mul_spec(self.w.x))),
            ).add_spec(
                self.x.w.mul_spec(self.y.x.mul_spec(self.w.y).sub_spec(self.y.y.mul_spec(self.w.x))),
            );
            let czw = self.x.x.mul_spec(
                self.y.y.mul_spec(self.w.z).sub_spec(self.y.z.mul_spec(self.w.y)),
            ).sub_spec(
                self.x.y.mul_spec(self.y.x.mul_spec(self.w.z).sub_spec(self.y.z.mul_spec(self.w.x))),
            ).add_spec(
                self.x.z.mul_spec(self.y.x.mul_spec(self.w.y).sub_spec(self.y.y.mul_spec(self.w.x))),
            ).neg_spec();
            let cwy = self.x.x.mul_spec(
                self.y.z.mul_spec(self.z.w).sub_spec(self.y.w.mul_spec(self.z.z)),
            ).sub_spec(
                self.x.z.mul_spec(self.y.x.mul_spec(self.z.w).sub_spec(self.y.w.mul_spec(self.z.x))),
            ).add_spec(
                self.x.w.mul_spec(self.y.x.mul_spec(self.z.z).sub_spec(self.y.z.mul_spec(self.z.x))),
            );
            let cwz = self.x.x.mul_spec(
                self.y.y.mul_spec(self.z.w).sub_spec(self.y.w.mul_spec(self.z.y)),
            ).sub_spec(
                self.x.y.mul_spec(self.y.x.mul_spec(self.z.w).sub_spec(self.y.w.mul_spec(self.z.x))),
            ).add_spec(
                self.x.w.mul_spec(self.y.x.mul_spec(self.z.y).sub_spec(self.y.y.mul_spec(self.z.x))),
            ).neg_spec();
            let cww = self.x.x.mul_spec(
                self.y.y.mul_spec(self.z.z).sub_spec(self.y.z.mul_spec(self.z.y)),
            ).sub_spec(
                self.x.y.mul_spec(self.y.x.mul_spec(self.z.z).sub_spec(self.y.z.mul_spec(self.z.x))),
            ).add_spec(
                self.x.z.mul_spec(self.y.x.mul_spec(self.z.y).sub_spec(self.y.y.mul_spec(self.z.x))),
            );
            Mat4x4 {
                x: Vec4 {
                    x: cxx.div_spec(det),
                    y: cyx.div_spec(det),
                    z: czx.div_spec(det),
                    w: cwx.div_spec(det),
                },
                y: Vec4 {
                    x: cxy.div_spec(det),
                    y: cyy.div_spec(det),
                    z: czy.div_spec(det),
                    w: cwy.div_spec(det),
                },
                z: Vec4 {
                    x: cxz.div_spec(det),
                    y: cyz.div_spec(det),
                    z: czz.div_spec(det),
                    w: cwz.div_spec(det),
                },
                w: Vec4 {
                    x: cxw.div_spec(det),
                    y: cyw.div_spec(det),
                    z: czw.div_spec(det),
                    w: cww.div_spec(det),
                },
            }
        }
    }

    /// The inverse by the adjugate. A singular matrix (determinant equal to
    /// the scalar zero) comes back unchanged rather than as an error.
    pub fn inverse(self) -> (r: Mat4x4<T>)
        ensures
            r == self.inverse_spec(),
    {
        let cxx = self.y.y.mul(
            self.z.z.mul(self.w.w).sub(self.z.w.mul(self.w.z)),
        ).sub(
            self.y.z.mul(self.z.y.mul(self.w.w).sub(self.z.w.mul(self.w.y))),
        ).add(
            self.y.w.mul(self.z.y.mul(self.w.z).sub(self.z.z.mul(self.w.y))),
        );
        let cyx = self.x.y.mul(
            self.z.z.mul(self.w.w).sub(self.z.w.mul(self.w.z)),
        ).sub(
            self.x.z.mul(self.z.y.mul(self.w.w).sub(self.z.w.mul(self.w.y))),
        ).add(
            self.x.w.mul(self.z.y.mul(self.w.z).sub(self.z.z.mul(self.w.y))),
        ).neg();
        let czx = self.x.y.mul(
            self.y.z.mul(self.w.w).sub(self.y.w.mul(self.w.z)),
        ).sub(
            self.x.z.mul(self.y.y.mul(self.w.w).sub(self.y.w.mul(self.w.y))),
        ).add(
            self.x.w.mul(self.y.y.mul(self.w.z).sub(self.y.z.mul(self.w.y))),
        );
        let cwx = self.x.y.mul(
            self.y.z.mul(self.z.w).sub(self.y.w.mul(self.z.z)),
        ).sub(
            self.x.z.mul(self.y.y.mul(self.z.w).sub(self.y.w.mul(self.z.y))),
        ).add(
            self.x.w.mul(self.y.y.mul(self.z.z).sub(self.y.z.mul(self.z.y))),
        ).neg();
        let det = self.x.x.mul(cxx).add(self.y.x.mul(cyx)).add(self.z.x.mul(czx)).add(
            self.w.x.mul(cwx),
        );
        if det.eq_v(T::zero()) {
            return self;
        }
        let cxy = self.y.x.mul(
            self.z.z.mul(self.w.w).sub(self.z.w.mul(self.w.z)),
        ).sub(
            self.y.z.mul(self.z.x.mul(self.w.w).sub(self.z.w.mul(self.w.x))),
        ).add(
            self.y.w.mul(self.z.x.mul(self.w.z).sub(self.z.z.mul(self.w.x))),
        ).neg();
        let cxz = self.y.x.mul(
            self.z.y.mul(self.w.w).sub(self.z.w.mul(self.w.y)),
        ).sub(
            self.y.y.mul(self.z.x.mul(self.w.w).sub(self.z.w.mul(self.w.x))),
        ).add(
            self.y.w.mul(self.z.x.mul(self.w.y).sub(self.z.y.mul(self.w.x))),
        );
        let cxw = self.y.x.mul(
            self.z.y.mul(self.w.z).sub(self.z.z.mul(self.w.y)),
        ).sub(
            self.y.y.mul(self.z.x.mul(self.w.z).sub(self.z.z.mul(self.w.x))),
        ).add(
            self.y.z.mul(self.z.x.mul(self.w.y).sub(self.z.y.mul(self.w.x))),
        ).neg();
        let cyy = self.x.x.mul(
            self.z.z.mul(self.w.w).sub(self.z.w.mul(self.w.z)),
        ).sub(
            self.x.z.mul(self.z.x.mul(self.w.w).sub(self.z.w.mul(self.w.x))),
        ).add(
            self.x.w.mul(self.z.x.mul(self.w.z).sub(self.z.z.mul(self.w.x))),
        );
        let cyz = self.x.x.mul(
            self.z.y.mul(self.w.w).sub(self.z.w.mul(self.w.y)),
        ).sub(
            self.x.y.mul(self.z.x.mul(self.w.w).sub(self.z.w.mul(self.w.x))),
        ).add(
            self.x.w.mul(self.z.x.mul(self.w.y).sub(self.z.y.mul(self.w.x))),
        ).neg();
        let cyw = self.x.x.mul(
            self.z.y.mul(self.w.z).sub(self.z.z.mul(self.w.y)),
        ).sub(
            self.x.y.mul(self.z.x.mul(self.w.z).sub(self.z.z.mul(self.w.x))),
        ).add(
            self.x.z.mul(self.z.x.mul(self.w.y).sub(self.z.y.mul(self.w.x))),
        );
        let czy = self.x.x.mul(
            self.y.z.mul(self.w.w).sub(self.y.w.mul(self.w.z)),
        ).sub(
            self.x.z.mul(self.y.x.mul(self.w.w).sub(self.y.w.mul(self.w.x))),
        ).add(
            self.x.w.mul(self.y.x.mul(self.w.z).sub(self.y.z.mul(self.w.x))),
        ).neg();
        let czz = self.x.x.mul(
            self.y.y.mul(self.w.w).sub(self.y.w.mul(self.w.y)),
        ).sub(
            self.x.y.mul(self.y.x.mul(self.w.w).sub(self.y.w.mul(self.w.x))),
        ).add(
            self.x.w.mul(self.y.x.mul(self.w.y).sub(self.y.y.mul(self.w.x))),
        );
        let czw = self.x.x.mul(
            self.y.y.mul(self.w.z).sub(self.y.z.mul(self.w.y)),
        ).sub(
            self.x.y.mul(self.y.x.mul(self.w.z).sub(self.y.z.mul(self.w.x))),
        ).add(
            self.x.z.mul(self.y.x.mul(self.w.y).sub(self.y.y.mul(self.w.x))),
        ).neg();
        let cwy = self.x.x.mul(
            self.y.z.mul(self.z.w).sub(self.y.w.mul(self.z.z)),
        ).sub(
            self.x.z.mul(self.y.x.mul(self.z.w).sub(self.y.w.mul(self.z.x))),
        ).add(
            self.x.w.mul(self.y.x.mul(self.z.z).sub(self.y.z.mul(self.z.x))),
        );
        let cwz = self.x.x.mul(
            self.y.y.mul(self.z.w).sub(self.y.w.mul(self.z.y)),
        ).sub(
            self.x.y.mul(self.y.x.mul(self.z.w).sub(self.y.w.mul(self.z.x))),
        ).add(
            self.x.w.mul(self.y.x.mul(self.z.y).sub(self.y.y.mul(self.z.x))),
        ).neg();
        let cww = self.x.x.mul(
            self.y.y.mul(self.z.z).sub(self.y.z.mul(self.z.y)),
        ).sub(
            self.x.y.mul(self.y.x.mul(self.z.z).sub(self.y.z.mul(self.z.x))),
        ).add(
            self.x.z.mul(self.y.x.mul(self.z.y).sub(self.y.y.mul(self.z.x))),
        );
        Mat4x4 {
            x: Vec4 {
                x: cxx.div(det),
                y: cyx.div(det),
                z: czx.div(det),
                w: cwx.div(det),
            },
            y: Vec4 {
                x: cxy.div(det),
                y: cyy.div(det),
                z: czy.div(det),
                w: cwy.div(det),
            },
            z: Vec4 {
                x: cxz.div(det),
                y: cyz.div(det),
                z: czz.div(det),
                w: cwz.div(det),
            },
            w: Vec4 {
                x: cxw.div(det),
                y: cyw.div(det),
                z: czw.div(det),
                w: cww.div(det),
            },
        }
    }

    /// What `add` returns: componentwise sum.
    pub open spec fn add_spec(self, o: Mat4x4<T>) -> Mat4x4<T> {
        Mat4x4 {
            x: self.x.add_spec(o.x),
            y: self.y.add_spec(o.y),
            z: self.z.add_spec(o.z),
            w: self.w.add_spec(o.w),
        }
    }

    /// Componentwise sum.
    pub fn add(self, o: Mat4x4<T>) -> (r: Mat4x4<T>)
        ensures
            r == self.add_spec(o),
    {
        Mat4x4 { x: self.x.add(o.x), y: self.y.add(o.y), z: self.z.add(o.z), w: self.w.add(o.w) }
    }

    /// What `sub` returns: componentwise difference.
    pub open spec fn sub_spec(self, o: Mat4x4<T>) -> Mat4x4<T> {
        Mat4x4 {
            x: self.x.sub_spec(o.x),
            y: self.y.sub_spec(o.y),
            z: self.z.sub_spec(o.z),
            w: self.w.sub_spec(o.w),
        }
    }

    /// Componentwise difference.
    pub fn sub(self, o: Mat4x4<T>) -> (r: Mat4x4<T>)
        ensures
            r == self.sub_spec(o),
    {
        Mat4x4 { x: self.x.sub(o.x), y: self.y.sub(o.y), z: self.z.sub(o.z), w: self.w.sub(o.w) }
    }

    /// What `mul_s` returns: every entry scaled.
    pub open spec fn mul_s_spec(self, s: T) -> Mat4x4<T> {
        Mat4x4 {
            x: self.x.mul_s_spec(s),
            y: self.y.mul_s_spec(s),
            z: self.z.mul_s_spec(s),
            w: self.w.mul_s_spec(s),
        }
    }

    /// Scales every entry.
    pub fn mul_s(self, s: T) -> (r: Mat4x4<T>)
        ensures
            r == self.mul_s_spec(s),
    {
        Mat4x4 {
            x: self.x.mul_s(s),
            y: self.y.mul_s(s),
            z: self.z.mul_s(s),
            w: self.w.mul_s(s),
        }
    }

    /// What `div_s` returns: every entry divided by the scalar.
    pub open spec fn div_s_spec(self, s: T) -> Mat4x4<T> {
        Mat4x4 {
            x: Vec4 {
                x: self.x.x.div_spec(s),
                y: self.x.y.div_spec(s),
                z: self.x.z.div_spec(s),
                w: self.x.w.div_spec(s),
            },
            y: Vec4 {
                x: self.y.x.div_spec(s),
                y: self.y.y.div_spec(s),
                z: self.y.z.div_spec(s),
                w: self.y.w.div_spec(s),
            },
            z: Vec4 {
                x: self.z.x.div_spec(s),
                y: self.z.y.div_spec(s),
                z: self.z.z.div_spec(s),
                w: self.z.w.div_spec(s),
            },
            w: Vec4 {
                x: self.w.x.div_spec(s),
                y: self.w.y.div_spec(s),
                z: self.w.z.div_spec(s),
                w: self.w.w.div_spec(s),
            },
        }
    }

    /// Divides every entry by a nonzero scalar.
    pub fn div_s(self, s: T) -> (r: Mat4x4<T>)
        requires
            s != T::zero_spec(),
        ensures
            r == self.div_s_spec(s),
    {
        Mat4x4 {
            x: Vec4 {
                x: self.x.x.div(s),
                y: self.x.y.div(s),
                z: self.x.z.div(s),
                w: self.x.w.div(s),
            },
            y: Vec4 {
                x: self.y.x.div(s),
                y: self.y.y.div(s),
                z: self.y.z.div(s),
                w: self.y.w.div(s),
            },
            z: Vec4 {
                x: self.z.x.div(s),
                y: self.z.y.div(s),
                z: self.z.z.div(s),
                w: self.z.w.div(s),
            },
            w: Vec4 {
                x: self.w.x.div(s),
                y: self.w.y.div(s),
                z: self.w.z.div(s),
                w: self.w.w.div(s),
            },
        }
    }

    /// What `mul_v` returns: each result component is the matching row
    /// paired against the vector.
    pub open spec fn mul_v_spec(self, v: Vec4<T>) -> Vec4<T> {
        Vec4 {
            x: self.x.x.mul_spec(v.x).add_spec(self.x.y.mul_spec(v.y)).add_spec(
                self.x.z.mul_spec(v.z),
            ).add_spec(self.x.w.mul_spec(v.w)),
            y: self.y.x.mul_spec(v.x).add_spec(self.y.y.mul_spec(v.y)).add_spec(
                self.y.z.mul_spec(v.z),
            ).add_spec(self.y.w.mul_spec(v.w)),
            z: self.z.x.mul_spec(v.x).add_spec(self.z.y.mul_spec(v.y)).add_spec(
                self.z.z.mul_spec(v.z),
            ).add_spec(self.z.w.mul_spec(v.w)),
            w: self.w.x.mul_spec(v.x).add_spec(self.w.y.mul_spec(v.y)).add_spec(
                self.w.z.mul_spec(v.z),
            ).add_spec(self.w.w.mul_spec(v.w)),
        }
    }

    /// Matrix times vector.
    pub fn mul_v(self, v: Vec4<T>) -> (r: Vec4<T>)
        ensures
            r == self.mul_v_spec(v),
    {
        Vec4 {
            x: self.x.x.mul(v.x).add(self.x.y.mul(v.y)).add(self.x.z.mul(v.z)).add(
                self.x.w.mul(v.w),
            ),
            y: self.y.x.mul(v.x).add(self.y.y.mul(v.y)).add(self.y.z.mul(v.z)).add(
                self.y.w.mul(v.w),
            ),
            z: self.z.x.mul(v.x).add(self.z.y.mul(v.y)).add(self.z.z.mul(v.z)).add(
                self.z.w.mul(v.w),
            ),
            w: self.w.x.mul(v.x).add(self.w.y.mul(v.y)).add(self.w.z.mul(v.z)).add(
                self.w.w.mul(v.w),
            ),
        }
    }

    /// What `mul` returns: the usual row-into-column products.
    pub open spec fn mul_spec(self, o: Mat4x4<T>) -> Mat4x4<T> {
        Mat4x4 {
            x: o.transpose_spec().mul_v_spec(self.x),
            y: o.transpose_spec().mul_v_spec(self.y),
            z: o.transpose_spec().mul_v_spec(self.z),
            w: o.transpose_spec().mul_v_spec(self.w),
        }
    }

    /// Matrix product.
    pub fn mul(self, o: Mat4x4<T>) -> (r: Mat4x4<T>)
        ensures
            r == self.mul_spec(o),
    {
        let t = o.transpose();
        Mat4x4 { x: t.mul_v(self.x), y: t.mul_v(self.y), z: t.mul_v(self.z), w: t.mul_v(self.w) }
    }

    /// What `neg` returns: every entry negated.
    pub open spec fn neg_spec(self) -> Mat4x4<T> {
        Mat4x4 { x: self.x.neg_spec(), y: self.y.neg_spec(), z: self.z.neg_spec(), w: self.w.neg_spec() }
    }

    /// Negates every entry.
    pub fn neg(self) -> (r: Mat4x4<T>)
        ensures
            r == self.neg_spec(),
    {
        Mat4x4 { x: self.x.neg(), y: self.y.neg(), z: self.z.neg(), w: self.w.neg() }
    }

    /// Builds the matrix from a flat array of entries in row-major order.
    pub fn from_array(a: [T; 16]) -> (r: Mat4x4<T>)
        ensures
            r == (Mat4x4 {
                x: Vec4 { x: a[0], y: a[1], z: a[2], w: a[3] },
                y: Vec4 { x: a[4], y: a[5], z: a[6], w: a[7] },
                z: Vec4 { x: a[8], y: a[9], z: a[10], w: a[11] },
                w: Vec4 { x: a[12], y: a[13], z: a[14], w: a[15] },
            }),
    {
        Mat4x4 {
            x: Vec4 { x: a[0], y: a[1], z: a[2], w: a[3] },
            y: Vec4 { x: a[4], y: a[5], z: a[6], w: a[7] },
            z: Vec4 { x: a[8], y: a[9], z: a[10], w: a[11] },
            w: Vec4 { x: a[12], y: a[13], z: a[14], w: a[15] },
        }
    }
}

/// A singular matrix comes back from `inverse` untouched: where the
/// determinant is the scalar zero, the inverse is the matrix itself.
pub proof fn lemma_singular_inverse_4x4<T: Scalar>(m: Mat4x4<T>)
    requires
        m.determinant_spec() == T::zero_spec(),
    ensures
        m.inverse_spec() == m,
{
}

} // verus!
