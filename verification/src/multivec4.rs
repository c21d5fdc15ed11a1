//! Multivectors of four-dimensional space: the full sixteen-coefficient
//! graded basis, from scalar through pseudoscalar.

use vstd::prelude::*;
use crate::Scalar;

verus! {

/// A four-dimensional multivector: scalar part `r`, four vector
/// components, six bivector coefficients, four trivector coefficients and
/// the pseudoscalar `xyzw`. Any coefficient combination is a valid value.
#[derive(Copy, Clone, Debug, PartialEq, Eq, Structural)]
pub struct MultiVec4<T> {
    pub r: T,
    pub x: T,
    pub y: T,
    pub z: T,
    pub w: T,
    pub xy: T,
    pub xz: T,
    pub xw: T,
    pub yz: T,
    pub yw: T,
    pub zw: T,
    pub xyz: T,
    pub xzw: T,
    pub xyw: T,
    pub yzw: T,
    pub xyzw: T,
}

impl<T: Scalar> MultiVec4<T> {
    /// What `add` returns: componentwise sum, grade by grade.
    pub open spec fn add_spec(self, o: MultiVec4<T>) -> MultiVec4<T> {
        MultiVec4 {
            r: self.r.add_spec(o.r),
            x: self.x.add_spec(o.x),
            y: self.y.add_spec(o.y),
            z: self.z.add_spec(o.z),
            w: self.w.add_spec(o.w),
            xy: self.xy.add_spec(o.xy),
            xz: self.xz.add_spec(o.xz),
            xw: self.xw.add_spec(o.xw),
            yz: self.yz.add_spec(o.yz),
            yw: self.yw.add_spec(o.yw),
            zw: self.zw.add_spec(o.zw),
            xyz: self.xyz.add_spec(o.xyz),
            xzw: self.xzw.add_spec(o.xzw),
            xyw: self.xyw.add_spec(o.xyw),
            yzw: self.yzw.add_spec(o.yzw),
            xyzw: self.xyzw.add_spec(o.xyzw),
        }
    }

    /// Componentwise sum.
    pub fn add(self, o: MultiVec4<T>) -> (r: Self)
        ensures
            r == self.add_spec(o),
    {
        MultiVec4 {
            r: self.r.add(o.r),
            x: self.x.add(o.x),
            y: self.y.add(o.y),
            z: self.z.add(o.z),
            w: self.w.add(o.w),
            xy: self.xy.add(o.xy),
            xz: self.xz.add(o.xz),
            xw: self.xw.add(o.xw),
            yz: self.yz.add(o.yz),
            yw: self.yw.add(o.yw),
            zw: self.zw.add(o.zw),
            xyz: self.xyz.add(o.xyz),
            xzw: self.xzw.add(o.xzw),
            xyw: self.xyw.add(o.xyw),
            yzw: self.yzw.add(o.yzw),
            xyzw: self.xyzw.add(o.xyzw),
        }
    }

    /// What `sub` returns: componentwise difference, grade by grade.
    pub open spec fn sub_spec(self, o: MultiVec4<T>) -> MultiVec4<T> {
        MultiVec4 {
            r: self.r.sub_spec(o.r),
            x: self.x.sub_spec(o.x),
            y: self.y.sub_spec(o.y),
            z: self.z.sub_spec(o.z),
            w: self.w.sub_spec(o.w),
            xy: self.xy.sub_spec(o.xy),
            xz: self.xz.sub_spec(o.xz),
            xw: self.xw.sub_spec(o.xw),
            yz: self.yz.sub_spec(o.yz),
            yw: self.yw.sub_spec(o.yw),
            zw: self.zw.sub_spec(o.zw),
            xyz: self.xyz.sub_spec(o.xyz),
            xzw: self.xzw.sub_spec(o.xzw),
            xyw: self.xyw.sub_spec(o.xyw),
            yzw: self.yzw.sub_spec(o.yzw),
            xyzw: self.xyzw.sub_spec(o.xyzw),
        }
    }

    /// Componentwise difference.
    pub fn sub(self, o: MultiVec4<T>) -> (r: Self)
        ensures
            r == self.sub_spec(o),
    {
        MultiVec4 {
            r: self.r.sub(o.r),
            x: self.x.sub(o.x),
            y: self.y.sub(o.y),
            z: self.z.sub(o.z),
            w: self.w.sub(o.w),
            xy: self.xy.sub(o.xy),
            xz: self.xz.sub(o.xz),
            xw: self.xw.sub(o.xw),
            yz: self.yz.sub(o.yz),
            yw: self.yw.sub(o.yw),
            zw: self.zw.sub(o.zw),
            xyz: self.xyz.sub(o.xyz),
            xzw: self.xzw.sub(o.xzw),
            xyw: self.xyw.sub(o.xyw),
            yzw: self.yzw.sub(o.yzw),
            xyzw: self.xyzw.sub(o.xyzw),
        }
    }

    /// What `mul` returns: the geometric product. Each basis vector
    /// squares to one and distinct basis vectors anticommute; every
    /// coefficient of the result is the signed sum its grade collects.
    pub open spec fn mul_spec(self, o: MultiVec4<T>) -> MultiVec4<T> {
        MultiVec4 {
            r: self.r.mul_spec(o.r).add_spec(
                self.x.mul_spec(o.x),
            ).add_spec(
                self.y.mul_spec(o.y),
            ).add_spec(
                self.z.mul_spec(o.z),
            ).add_spec(
                self.w.mul_spec(o.w),
            ).sub_spec(
                self.xy.mul_spec(o.xy),
            ).sub_spec(
                self.xz.mul_spec(o.xz),
            ).sub_spec(
                self.xw.mul_spec(o.xw),
            ).sub_spec(
                self.yz.mul_spec(o.yz),
            ).sub_spec(
                self.yw.mul_spec(o.yw),
            ).sub_spec(
                self.zw.mul_spec(o.zw),
            ).sub_spec(
                self.xyz.mul_spec(o.xyz),
            ).sub_spec(
                self.xzw.mul_spec(o.xzw),
            ).sub_spec(
                self.xyw.mul_spec(o.xyw),
            ).sub_spec(
                self.yzw.mul_spec(o.yzw),
            ).add_spec(
                self.xyzw.mul_spec(o.xyzw),
            ),
            x: self.r.mul_spec(o.x).add_spec(
                self.x.mul_spec(o.r),
            ).sub_spec(
                self.y.mul_spec(o.xy),
            ).sub_spec(
                self.z.mul_spec(o.xz),
            ).sub_spec(
                self.w.mul_spec(o.xw),
            ).add_spec(
                self.xy.mul_spec(o.y),
            ).add_spec(
                self.xz.mul_spec(o.z),
            ).add_spec(
                self.xw.mul_spec(o.w),
            ).sub_spec(
                self.yz.mul_spec(o.xyz),
            ).sub_spec(
                self.yw.mul_spec(o.xyw),
            ).sub_spec(
                self.zw.mul_spec(o.xzw),
            ).sub_spec(
                self.xyz.mul_spec(o.yz),
            ).sub_spec(
                self.xzw.mul_spec(o.zw),
            ).sub_spec(
                self.xyw.mul_spec(o.yw),
            ).add_spec(
                self.yzw.mul_spec(o.xyzw),
            ).sub_spec(
                self.xyzw.mul_spec(o.yzw),
            ),
            y: self.r.mul_spec(o.y).add_spec(
                self.x.mul_spec(o.xy),
            ).add_spec(
                self.y.mul_spec(o.r),
            ).sub_spec(
                self.z.mul_spec(o.yz),
            ).sub_spec(
                self.w.mul_spec(o.yw),
            ).sub_spec(
                self.xy.mul_spec(o.x),
            ).add_spec(
                self.xz.mul_spec(o.xyz),
            ).add_spec(
                self.xw.mul_spec(o.xyw),
            ).add_spec(
                self.yz.mul_spec(o.z),
            ).add_spec(
                self.yw.mul_spec(o.w),
            ).sub_spec(
                self.zw.mul_spec(o.yzw),
            ).add_spec(
                self.xyz.mul_spec(o.xz),
            ).sub_spec(
                self.xzw.mul_spec(o.xyzw),
            ).add_spec(
                self.xyw.mul_spec(o.xw),
            ).sub_spec(
                self.yzw.mul_spec(o.zw),
            ).add_spec(
                self.xyzw.mul_spec(o.xzw),
            ),
            z: self.r.mul_spec(o.z).add_spec(
                self.x.mul_spec(o.xz),
            ).add_spec(
                self.y.mul_spec(o.yz),
            ).add_spec(
                self.z.mul_spec(o.r),
            ).sub_spec(
                self.w.mul_spec(o.zw),
            ).sub_spec(
                self.xy.mul_spec(o.xyz),
            ).sub_spec(
                self.xz.mul_spec(o.x),
            ).add_spec(
                self.xw.mul_spec(o.xzw),
            ).sub_spec(
                self.yz.mul_spec(o.y),
            ).add_spec(
                self.yw.mul_spec(o.yzw),
            ).add_spec(
                self.zw.mul_spec(o.w),
            ).sub_spec(
                self.xyz.mul_spec(o.xy),
            ).add_spec(
                self.xzw.mul_spec(o.xw),
            ).add_spec(
                self.xyw.mul_spec(o.xyzw),
            ).add_spec(
                self.yzw.mul_spec(o.yw),
            ).sub_spec(
                self.xyzw.mul_spec(o.xyw),
            ),
            w: self.r.mul_spec(o.w).add_spec(
                self.x.mul_spec(o.xw),
            ).add_spec(
                self.y.mul_spec(o.yw),
            ).add_spec(
                self.z.mul_spec(o.zw),
            ).add_spec(
                self.w.mul_spec(o.r),
            ).sub_spec(
                self.xy.mul_spec(o.xyw),
            ).sub_spec(
                self.xz.mul_spec(o.xzw),
            ).sub_spec(
                self.xw.mul_spec(o.x),
            ).sub_spec(
                self.yz.mul_spec(o.yzw),
            ).sub_spec(
                self.yw.mul_spec(o.y),
            ).sub_spec(
                self.zw.mul_spec(o.z),
            ).sub_spec(
                self.xyz.mul_spec(o.xyzw),
            ).sub_spec(
                self.xzw.mul_spec(o.xz),
            ).sub_spec(
                self.xyw.mul_spec(o.xy),
            ).sub_spec(
                self.yzw.mul_spec(o.yz),
            ).add_spec(
                self.xyzw.mul_spec(o.xyz),
            ),
            xy: self.r.mul_spec(o.xy).add_spec(
                self.x.mul_spec(o.y),
            ).sub_spec(
                self.y.mul_spec(o.x),
            ).add_spec(
                self.z.mul_spec(o.xyz),
            ).add_spec(
                self.w.mul_spec(o.xyw),
            ).add_spec(
                self.xy.mul_spec(o.r),
            ).sub_spec(
                self.xz.mul_spec(o.yz),
            ).sub_spec(
                self.xw.mul_spec(o.yw),
            ).add_spec(
                self.yz.mul_spec(o.xz),
            ).add_spec(
                self.yw.mul_spec(o.xw),
            ).sub_spec(
                self.zw.mul_spec(o.xyzw),
            ).add_spec(
                self.xyz.mul_spec(o.z),
            ).sub_spec(
                self.xzw.mul_spec(o.yzw),
            ).add_spec(
                self.xyw.mul_spec(o.w),
            ).add_spec(
                self.yzw.mul_spec(o.xzw),
            ).sub_spec(
                self.xyzw.mul_spec(o.zw),
            ),
            xz: self.r.mul_spec(o.xz).add_spec(
                self.x.mul_spec(o.z),
            ).sub_spec(
                self.y.mul_spec(o.xyz),
            ).sub_spec(
                self.z.mul_spec(o.x),
            ).add_spec(
                self.w.mul_spec(o.xzw),
            ).add_spec(
                self.xy.mul_spec(o.yz),
            ).add_spec(
                self.xz.mul_spec(o.r),
            ).sub_spec(
                self.xw.mul_spec(o.zw),
            ).sub_spec(
                self.yz.mul_spec(o.xy),
            ).add_spec(
                self.yw.mul_spec(o.xyzw),
            ).add_spec(
                self.zw.mul_spec(o.xw),
            ).sub_spec(
                self.xyz.mul_spec(o.y),
            ).add_spec(
                self.xzw.mul_spec(o.w),
            ).add_spec(
                self.xyw.mul_spec(o.yzw),
            ).sub_spec(
                self.yzw.mul_spec(o.xyw),
            ).add_spec(
                self.xyzw.mul_spec(o.yw),
            ),
            xw: self.r.mul_spec(o.xw).add_spec(
                self.x.mul_spec(o.w),
            ).sub_spec(
                self.y.mul_spec(o.xyw),
            ).sub_spec(
                self.z.mul_spec(o.xzw),
            ).sub_spec(
                self.w.mul_spec(o.x),
            ).add_spec(
                self.xy.mul_spec(o.yw),
            ).add_spec(
                self.xz.mul_spec(o.zw),
            ).add_spec(
                self.xw.mul_spec(o.r),
            ).sub_spec(
                self.yz.mul_spec(o.xyzw),
            ).sub_spec(
                self.yw.mul_spec(o.xy),
            ).sub_spec(
                self.zw.mul_spec(o.xz),
            ).sub_spec(
                self.xyz.mul_spec(o.yzw),
            ).sub_spec(
                self.xzw.mul_spec(o.z),
            ).sub_spec(
                self.xyw.mul_spec(o.y),
            ).add_spec(
                self.yzw.mul_spec(o.xyz),
            ).sub_spec(
                self.xyzw.mul_spec(o.yz),
            ),
            yz: self.r.mul_spec(o.yz).add_spec(
                self.x.mul_spec(o.xyz),
            ).add_spec(
                self.y.mul_spec(o.z),
            ).sub_spec(
                self.z.mul_spec(o.y),
            ).add_spec(
                self.w.mul_spec(o.yzw),
            ).sub_spec(
                self.xy.mul_spec(o.xz),
            ).add_spec(
                self.xz.mul_spec(o.xy),
            ).sub_spec(
                self.xw.mul_spec(o.xyzw),
            ).add_spec(
                self.yz.mul_spec(o.r),
            ).sub_spec(
                self.yw.mul_spec(o.zw),
            ).add_spec(
                self.zw.mul_spec(o.yw),
            ).add_spec(
                self.xyz.mul_spec(o.x),
            ).add_spec(
                self.xzw.mul_spec(o.xyw),
            ).sub_spec(
                self.xyw.mul_spec(o.xzw),
            ).add_spec(
                self.yzw.mul_spec(o.w),
            ).sub_spec(
                self.xyzw.mul_spec(o.xw),
            ),
            yw: self.r.mul_spec(o.yw).add_spec(
                self.x.mul_spec(o.xyw),
            ).add_spec(
                self.y.mul_spec(o.w),
            ).sub_spec(
                self.z.mul_spec(o.yzw),
            ).sub_spec(
                self.w.mul_spec(o.y),
            ).sub_spec(
                self.xy.mul_spec(o.xw),
            ).add_spec(
                self.xz.mul_spec(o.xyzw),
            ).add_spec(
                self.xw.mul_spec(o.xy),
            ).add_spec(
                self.yz.mul_spec(o.zw),
            ).add_spec(
                self.yw.mul_spec(o.r),
            ).sub_spec(
                self.zw.mul_spec(o.yz),
            ).add_spec(
                self.xyz.mul_spec(o.xzw),
            ).sub_spec(
                self.xzw.mul_spec(o.xyz),
            ).add_spec(
                self.xyw.mul_spec(o.x),
            ).sub_spec(
                self.yzw.mul_spec(o.z),
            ).add_spec(
                self.xyzw.mul_spec(o.xz),
            ),
            zw: self.r.mul_spec(o.zw).add_spec(
                self.x.mul_spec(o.xzw),
            ).add_spec(
                self.y.mul_spec(o.yzw),
            ).add_spec(
                self.z.mul_spec(o.w),
            ).sub_spec(
                self.w.mul_spec(o.z),
            ).sub_spec(
                self.xy.mul_spec(o.xyzw),
            ).sub_spec(
                self.xz.mul_spec(o.xw),
            ).add_spec(
                self.xw.mul_spec(o.xz),
            ).sub_spec(
                self.yz.mul_spec(o.yw),
            ).add_spec(
                self.yw.mul_spec(o.yz),
            ).add_spec(
                self.zw.mul_spec(o.r),
            ).sub_spec(
                self.xyz.mul_spec(o.xyw),
            ).add_spec(
                self.xzw.mul_spec(o.x),
            ).add_spec(
                self.xyw.mul_spec(o.xyz),
            ).add_spec(
                self.yzw.mul_spec(o.y),
            ).sub_spec(
                self.xyzw.mul_spec(o.xy),
            ),
            xyz: self.r.mul_spec(o.xyz).add_spec(
                self.x.mul_spec(o.yz),
            ).sub_spec(
                self.y.mul_spec(o.xz),
            ).add_spec(
                self.z.mul_spec(o.xy),
            ).sub_spec(
                self.w.mul_spec(o.xyzw),
            ).add_spec(
                self.xy.mul_spec(o.z),
            ).sub_spec(
                self.xz.mul_spec(o.y),
            ).add_spec(
                self.xw.mul_spec(o.yzw),
            ).add_spec(
                self.yz.mul_spec(o.x),
            ).sub_spec(
                self.yw.mul_spec(o.xzw),
            ).add_spec(
                self.zw.mul_spec(o.xyw),
            ).add_spec(
                self.xyz.mul_spec(o.r),
            ).add_spec(
                self.xzw.mul_spec(o.yw),
            ).sub_spec(
                self.xyw.mul_spec(o.zw),
            ).sub_spec(
                self.yzw.mul_spec(o.xw),
            ).add_spec(
                self.xyzw.mul_spec(o.w),
            ),
            xzw: self.r.mul_spec(o.xzw).add_spec(
                self.x.mul_spec(o.zw),
            ).sub_spec(
                self.y.mul_spec(o.xyzw),
            ).sub_spec(
                self.z.mul_spec(o.xw),
            ).add_spec(
                self.w.mul_spec(o.xz),
            ).add_spec(
                self.xy.mul_spec(o.yzw),
            ).add_spec(
                self.xz.mul_spec(o.w),
            ).sub_spec(
                self.xw.mul_spec(o.z),
            ).sub_spec(
                self.yz.mul_spec(o.xyw),
            ).add_spec(
                self.yw.mul_spec(o.xyz),
            ).add_spec(
                self.zw.mul_spec(o.x),
            ).sub_spec(
                self.xyz.mul_spec(o.yw),
            ).add_spec(
                self.xzw.mul_spec(o.r),
            ).add_spec(
                self.xyw.mul_spec(o.yz),
            ).sub_spec(
                self.yzw.mul_spec(o.xy),
            ).add_spec(
                self.xyzw.mul_spec(o.y),
            ),
            xyw: self.r.mul_spec(o.xyw).add_spec(
                self.x.mul_spec(o.yw),
            ).sub_spec(
                self.y.mul_spec(o.xw),
            ).add_spec(
                self.z.mul_spec(o.xyzw),
            ).add_spec(
                self.w.mul_spec(o.xy),
            ).add_spec(
                self.xy.mul_spec(o.w),
            ).sub_spec(
                self.xz.mul_spec(o.yzw),
            ).sub_spec(
                self.xw.mul_spec(o.y),
            ).add_spec(
                self.yz.mul_spec(o.xzw),
            ).add_spec(
                self.yw.mul_spec(o.x),
            ).sub_spec(
                self.zw.mul_spec(o.xyz),
            ).add_spec(
                self.xyz.mul_spec(o.zw),
            ).sub_spec(
                self.xzw.mul_spec(o.yz),
            ).add_spec(
                self.xyw.mul_spec(o.r),
            ).add_spec(
                self.yzw.mul_spec(o.xz),
            ).sub_spec(
                self.xyzw.mul_spec(o.z),
            ),
            yzw: self.r.mul_spec(o.yzw).add_spec(
                self.x.mul_spec(o.xyzw),
            ).add_spec(
                self.y.mul_spec(o.zw),
            ).sub_spec(
                self.z.mul_spec(o.yw),
            ).add_spec(
                self.w.mul_spec(o.yz),
            ).sub_spec(
                self.xy.mul_spec(o.xzw),
            ).add_spec(
                self.xz.mul_spec(o.xyw),
            ).sub_spec(
                self.xw.mul_spec(o.xyz),
            ).add_spec(
                self.yz.mul_spec(o.w),
            ).sub_spec(
                self.yw.mul_spec(o.z),
            ).add_spec(
                self.zw.mul_spec(o.y),
            ).add_spec(
                self.xyz.mul_spec(o.xw),
            ).add_spec(
                self.xzw.mul_spec(o.xy),
            ).sub_spec(
                self.xyw.mul_spec(o.xz),
            ).add_spec(
                self.yzw.mul_spec(o.r),
            ).sub_spec(
                self.xyzw.mul_spec(o.x),
            ),
            xyzw: self.r.mul_spec(o.xyzw).add_spec(
                self.x.mul_spec(o.yzw),
            ).sub_spec(
                self.y.mul_spec(o.xzw),
            ).add_spec(
                self.z.mul_spec(o.xyw),
            ).sub_spec(
                self.w.mul_spec(o.xyz),
            ).add_spec(
                self.xy.mul_spec(o.zw),
            ).sub_spec(
                self.xz.mul_spec(o.yw),
            ).add_spec(
                self.xw.mul_spec(o.yz),
            ).add_spec(
                self.yz.mul_spec(o.xw),
            ).sub_spec(
                self.yw.mul_spec(o.xz),
            ).add_spec(
                self.zw.mul_spec(o.xy),
            ).add_spec(
                self.xyz.mul_spec(o.w),
            ).add_spec(
                self.xzw.mul_spec(o.y),
            ).sub_spec(
                self.xyw.mul_spec(o.z),
            ).sub_spec(
                self.yzw.mul_spec(o.x),
            ).add_spec(
                self.xyzw.mul_spec(o.r),
            ),
        }
    }

    /// The geometric product.
    pub fn mul(self, o: MultiVec4<T>) -> (r: Self)
        ensures
            r == self.mul_spec(o),
    {
        MultiVec4 {
            r: self.r.mul(o.r).add(
                self.x.mul(o.x),
            ).add(
                self.y.mul(o.y),
            ).add(
                self.z.mul(o.z),
            ).add(
                self.w.mul(o.w),
            ).sub(
                self.xy.mul(o.xy),
            ).sub(
                self.xz.mul(o.xz),
            ).sub(
                self.xw.mul(o.xw),
            ).sub(
                self.yz.mul(o.yz),
            ).sub(
                self.yw.mul(o.yw),
            ).sub(
                self.zw.mul(o.zw),
            ).sub(
                self.xyz.mul(o.xyz),
            ).sub(
                self.xzw.mul(o.xzw),
            ).sub(
                self.xyw.mul(o.xyw),
            ).sub(
                self.yzw.mul(o.yzw),
            ).add(
                self.xyzw.mul(o.xyzw),
            ),
            x: self.r.mul(o.x).add(
                self.x.mul(o.r),
            ).sub(
                self.y.mul(o.xy),
            ).sub(
                self.z.mul(o.xz),
            ).sub(
                self.w.mul(o.xw),
            ).add(
                self.xy.mul(o.y),
            ).add(
                self.xz.mul(o.z),
            ).add(
                self.xw.mul(o.w),
            ).sub(
                self.yz.mul(o.xyz),
            ).sub(
                self.yw.mul(o.xyw),
            ).sub(
                self.zw.mul(o.xzw),
            ).sub(
                self.xyz.mul(o.yz),
            ).sub(
                self.xzw.mul(o.zw),
            ).sub(
                self.xyw.mul(o.yw),
            ).add(
                self.yzw.mul(o.xyzw),
            ).sub(
                self.xyzw.mul(o.yzw),
            ),
            y: self.r.mul(o.y).add(
                self.x.mul(o.xy),
            ).add(
                self.y.mul(o.r),
            ).sub(
                self.z.mul(o.yz),
            ).sub(
                self.w.mul(o.yw),
            ).sub(
                self.xy.mul(o.x),
            ).add(
                self.xz.mul(o.xyz),
            ).add(
                self.xw.mul(o.xyw),
            ).add(
                self.yz.mul(o.z),
            ).add(
                self.yw.mul(o.w),
            ).sub(
                self.zw.mul(o.yzw),
            ).add(
                self.xyz.mul(o.xz),
            ).sub(
                self.xzw.mul(o.xyzw),
            ).add(
                self.xyw.mul(o.xw),
            ).sub(
                self.yzw.mul(o.zw),
            ).add(
                self.xyzw.mul(o.xzw),
            ),
            z: self.r.mul(o.z).add(
                self.x.mul(o.xz),
            ).add(
                self.y.mul(o.yz),
            ).add(
                self.z.mul(o.r),
            ).sub(
                self.w.mul(o.zw),
            ).sub(
                self.xy.mul(o.xyz),
            ).sub(
                self.xz.mul(o.x),
            ).add(
                self.xw.mul(o.xzw),
            ).sub(
                self.yz.mul(o.y),
            ).add(
                self.yw.mul(o.yzw),
            ).add(
                self.zw.mul(o.w),
            ).sub(
                self.xyz.mul(o.xy),
            ).add(
                self.xzw.mul(o.xw),
            ).add(
                self.xyw.mul(o.xyzw),
            ).add(
                self.yzw.mul(o.yw),
            ).sub(
                self.xyzw.mul(o.xyw),
            ),
            w: self.r.mul(o.w).add(
                self.x.mul(o.xw),
            ).add(
                self.y.mul(o.yw),
            ).add(
                self.z.mul(o.zw),
            ).add(
                self.w.mul(o.r),
            ).sub(
                self.xy.mul(o.xyw),
            ).sub(
                self.xz.mul(o.xzw),
            ).sub(
                self.xw.mul(o.x),
            ).sub(
                self.yz.mul(o.yzw),
            ).sub(
                self.yw.mul(o.y),
            ).sub(
                self.zw.mul(o.z),
            ).sub(
                self.xyz.mul(o.xyzw),
            ).sub(
                self.xzw.mul(o.xz),
            ).sub(
                self.xyw.mul(o.xy),
            ).sub(
                self.yzw.mul(o.yz),
            ).add(
                self.xyzw.mul(o.xyz),
            ),
            xy: self.r.mul(o.xy).add(
                self.x.mul(o.y),
            ).sub(
                self.y.mul(o.x),
            ).add(
                self.z.mul(o.xyz),
            ).add(
                self.w.mul(o.xyw),
            ).add(
                self.xy.mul(o.r),
            ).sub(
                self.xz.mul(o.yz),
            ).sub(
                self.xw.mul(o.yw),
            ).add(
                self.yz.mul(o.xz),
            ).add(
                self.yw.mul(o.xw),
            ).sub(
                self.zw.mul(o.xyzw),
            ).add(
                self.xyz.mul(o.z),
            ).sub(
                self.xzw.mul(o.yzw),
            ).add(
                self.xyw.mul(o.w),
            ).add(
                self.yzw.mul(o.xzw),
            ).sub(
                self.xyzw.mul(o.zw),
            ),
            xz: self.r.mul(o.xz).add(
                self.x.mul(o.z),
            ).sub(
                self.y.mul(o.xyz),
            ).sub(
                self.z.mul(o.x),
            ).add(
                self.w.mul(o.xzw),
            ).add(
                self.xy.mul(o.yz),
            ).add(
                self.xz.mul(o.r),
            ).sub(
                self.xw.mul(o.zw),
            ).sub(
                self.yz.mul(o.xy),
            ).add(
                self.yw.mul(o.xyzw),
            ).add(
                self.zw.mul(o.xw),
            ).sub(
                self.xyz.mul(o.y),
            ).add(
                self.xzw.mul(o.w),
            ).add(
                self.xyw.mul(o.yzw),
            ).sub(
                self.yzw.mul(o.xyw),
            ).add(
                self.xyzw.mul(o.yw),
            ),
            xw: self.r.mul(o.xw).add(
                self.x.mul(o.w),
            ).sub(
                self.y.mul(o.xyw),
            ).sub(
                self.z.mul(o.xzw),
            ).sub(
                self.w.mul(o.x),
            ).add(
                self.xy.mul(o.yw),
            ).add(
                self.xz.mul(o.zw),
            ).add(
                self.xw.mul(o.r),
            ).sub(
                self.yz.mul(o.xyzw),
            ).sub(
                self.yw.mul(o.xy),
            ).sub(
                self.zw.mul(o.xz),
            ).sub(
                self.xyz.mul(o.yzw),
            ).sub(
                self.xzw.mul(o.z),
            ).sub(
                self.xyw.mul(o.y),
            ).add(
                self.yzw.mul(o.xyz),
            ).sub(
                self.xyzw.mul(o.yz),
            ),
            yz: self.r.mul(o.yz).add(
                self.x.mul(o.xyz),
            ).add(
                self.y.mul(o.z),
            ).sub(
                self.z.mul(o.y),
            ).add(
                self.w.mul(o.yzw),
            ).sub(
                self.xy.mul(o.xz),
            ).add(
                self.xz.mul(o.xy),
            ).sub(
                self.xw.mul(o.xyzw),
            ).add(
                self.yz.mul(o.r),
            ).sub(
                self.yw.mul(o.zw),
            ).add(
                self.zw.mul(o.yw),
            ).add(
                self.xyz.mul(o.x),
            ).add(
                self.xzw.mul(o.xyw),
            ).sub(
                self.xyw.mul(o.xzw),
            ).add(
                self.yzw.mul(o.w),
            ).sub(
                self.xyzw.mul(o.xw),
            ),
            yw: self.r.mul(o.yw).add(
                self.x.mul(o.xyw),
            ).add(
                self.y.mul(o.w),
            ).sub(
                self.z.mul(o.yzw),
            ).sub(
                self.w.mul(o.y),
            ).sub(
                self.xy.mul(o.xw),
            ).add(
                self.xz.mul(o.xyzw),
            ).add(
                self.xw.mul(o.xy),
            ).add(
                self.yz.mul(o.zw),
            ).add(
                self.yw.mul(o.r),
            ).sub(
                self.zw.mul(o.yz),
            ).add(
                self.xyz.mul(o.xzw),
            ).sub(
                self.xzw.mul(o.xyz),
            ).add(
                self.xyw.mul(o.x),
            ).sub(
                self.yzw.mul(o.z),
            ).add(
                self.xyzw.mul(o.xz),
            ),
            zw: self.r.mul(o.zw).add(
                self.x.mul(o.xzw),
            ).add(
                self.y.mul(o.yzw),
            ).add(
                self.z.mul(o.w),
            ).sub(
                self.w.mul(o.z),
            ).sub(
                self.xy.mul(o.xyzw),
            ).sub(
                self.xz.mul(o.xw),
            ).add(
                self.xw.mul(o.xz),
            ).sub(
                self.yz.mul(o.yw),
            ).add(
                self.yw.mul(o.yz),
            ).add(
                self.zw.mul(o.r),
            ).sub(
                self.xyz.mul(o.xyw),
            ).add(
                self.xzw.mul(o.x),
            ).add(
                self.xyw.mul(o.xyz),
            ).add(
                self.yzw.mul(o.y),
            ).sub(
                self.xyzw.mul(o.xy),
            ),
            xyz: self.r.mul(o.xyz).add(
                self.x.mul(o.yz),
            ).sub(
                self.y.mul(o.xz),
            ).add(
                self.z.mul(o.xy),
            ).sub(
                self.w.mul(o.xyzw),
            ).add(
                self.xy.mul(o.z),
            ).sub(
                self.xz.mul(o.y),
            ).add(
                self.xw.mul(o.yzw),
            ).add(
                self.yz.mul(o.x),
            ).sub(
                self.yw.mul(o.xzw),
            ).add(
                self.zw.mul(o.xyw),
            ).add(
                self.xyz.mul(o.r),
            ).add(
                self.xzw.mul(o.yw),
            ).sub(
                self.xyw.mul(o.zw),
            ).sub(
                self.yzw.mul(o.xw),
            ).add(
                self.xyzw.mul(o.w),
            ),
            xzw: self.r.mul(o.xzw).add(
                self.x.mul(o.zw),
            ).sub(
                self.y.mul(o.xyzw),
            ).sub(
                self.z.mul(o.xw),
            ).add(
                self.w.mul(o.xz),
            ).add(
                self.xy.mul(o.yzw),
            ).add(
                self.xz.mul(o.w),
            ).sub(
                self.xw.mul(o.z),
            ).sub(
                self.yz.mul(o.xyw),
            ).add(
                self.yw.mul(o.xyz),
            ).add(
                self.zw.mul(o.x),
            ).sub(
                self.xyz.mul(o.yw),
            ).add(
                self.xzw.mul(o.r),
            ).add(
                self.xyw.mul(o.yz),
            ).sub(
                self.yzw.mul(o.xy),
            ).add(
                self.xyzw.mul(o.y),
            ),
            xyw: self.r.mul(o.xyw).add(
                self.x.mul(o.yw),
            ).sub(
                self.y.mul(o.xw),
            ).add(
                self.z.mul(o.xyzw),
            ).add(
                self.w.mul(o.xy),
            ).add(
                self.xy.mul(o.w),
            ).sub(
                self.xz.mul(o.yzw),
            ).sub(
                self.xw.mul(o.y),
            ).add(
                self.yz.mul(o.xzw),
            ).add(
                self.yw.mul(o.x),
            ).sub(
                self.zw.mul(o.xyz),
            ).add(
                self.xyz.mul(o.zw),
            ).sub(
                self.xzw.mul(o.yz),
            ).add(
                self.xyw.mul(o.r),
            ).add(
                self.yzw.mul(o.xz),
            ).sub(
                self.xyzw.mul(o.z),
            ),
            yzw: self.r.mul(o.yzw).add(
                self.x.mul(o.xyzw),
            ).add(
                self.y.mul(o.zw),
            ).sub(
                self.z.mul(o.yw),
            ).add(
                self.w.mul(o.yz),
            ).sub(
                self.xy.mul(o.xzw),
            ).add(
                self.xz.mul(o.xyw),
            ).sub(
                self.xw.mul(o.xyz),
            ).add(
                self.yz.mul(o.w),
            ).sub(
                self.yw.mul(o.z),
            ).add(
                self.zw.mul(o.y),
            ).add(
                self.xyz.mul(o.xw),
            ).add(
                self.xzw.mul(o.xy),
            ).sub(
                self.xyw.mul(o.xz),
            ).add(
                self.yzw.mul(o.r),
            ).sub(
                self.xyzw.mul(o.x),
            ),
            xyzw: self.r.mul(o.xyzw).add(
                self.x.mul(o.yzw),
            ).sub(
                self.y.mul(o.xzw),
            ).add(
                self.z.mul(o.xyw),
            ).sub(
                self.w.mul(o.xyz),
            ).add(
                self.xy.mul(o.zw),
            ).sub(
                self.xz.mul(o.yw),
            ).add(
                self.xw.mul(o.yz),
            ).add(
                self.yz.mul(o.xw),
            ).sub(
                self.yw.mul(o.xz),
            ).add(
                self.zw.mul(o.xy),
            ).add(
                self.xyz.mul(o.w),
            ).add(
                self.xzw.mul(o.y),
            ).sub(
                self.xyw.mul(o.z),
            ).sub(
                self.yzw.mul(o.x),
            ).add(
                self.xyzw.mul(o.r),
            ),
        }
    }

    /// What `neg` returns: every coefficient negated.
    pub open spec fn neg_spec(self) -> MultiVec4<T> {
        MultiVec4 {
            r: self.r.neg_spec(),
            x: self.x.neg_spec(),
            y: self.y.neg_spec(),
            z: self.z.neg_spec(),
            w: self.w.neg_spec(),
            xy: self.xy.neg_spec(),
            xz: self.xz.neg_spec(),
            xw: self.xw.neg_spec(),
            yz: self.yz.neg_spec(),
            yw: self.yw.neg_spec(),
            zw: self.zw.neg_spec(),
            xyz: self.xyz.neg_spec(),
            xzw: self.xzw.neg_spec(),
            xyw: self.xyw.neg_spec(),
            yzw: self.yzw.neg_spec(),
            xyzw: self.xyzw.neg_spec(),
        }
    }

    /// Negates every coefficient.
    pub fn neg(self) -> (r: Self)
        ensures
            r == self.neg_spec(),
    {
        MultiVec4 {
            r: self.r.neg(),
            x: self.x.neg(),
            y: self.y.neg(),
            z: self.z.neg(),
            w: self.w.neg(),
            xy: self.xy.neg(),
            xz: self.xz.neg(),
            xw: self.xw.neg(),
            yz: self.yz.neg(),
            yw: self.yw.neg(),
            zw: self.zw.neg(),
            xyz: self.xyz.neg(),
            xzw: self.xzw.neg(),
            xyw: self.xyw.neg(),
            yzw: self.yzw.neg(),
            xyzw: self.xyzw.neg(),
        }
    }
}

} // verus!
