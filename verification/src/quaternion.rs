//! Quaternions: the four-dimensional non-commutative algebra of rotations,
//! with the Hamilton product and the closed-form vector rotation.

use vstd::prelude::*;
use crate::{Scalar, Zero, Real, Complex, Vec3};
use crate::modring::{
    lemma_crop_identity, lemma_wmul_neg_right, lemma_wmul_comm, lemma_wadd_neg_cancel,
    lemma_wsub_of_neg, lemma_wadd_swap_right,
};
use vstd::wrapping::i64_specs;

verus! {

/// A quaternion: real part `r` and the three imaginary components `i`, `j`
/// and `k`.
#[derive(Copy, Clone, Debug, PartialEq, Eq, Structural)]
pub struct Quaternion<T> {
    pub r: T,
    pub i: T,
    pub j: T,
    pub k: T,
}

impl<T: Scalar> Quaternion<T> {
    /// What `conj` returns: the three imaginary components negated.
    pub open spec fn conj_spec(self) -> Quaternion<T> {
        Quaternion {
            r: self.r,
            i: self.i.neg_spec(),
            j: self.j.neg_spec(),
            k: self.k.neg_spec(),
        }
    }

    /// The quaternion conjugate.
    pub fn conj(&self) -> (r: Self)
        ensures
            r == self.conj_spec(),
    {
        Quaternion { r: self.r, i: self.i.neg(), j: self.j.neg(), k: self.k.neg() }
    }

    /// What `norm_sqr` returns: the sum of the squares of the four
    /// components.
    pub open spec fn norm_sqr_spec(self) -> T {
        self.r.mul_spec(self.r).add_spec(self.i.mul_spec(self.i)).add_spec(
            self.j.mul_spec(self.j),
        ).add_spec(self.k.mul_spec(self.k))
    }

    /// The squared norm.
    pub fn norm_sqr(&self) -> (r: T)
        ensures
            r == self.norm_sqr_spec(),
    {
        self.r.mul(self.r).add(self.i.mul(self.i)).add(self.j.mul(self.j)).add(
            self.k.mul(self.k),
        )
    }

    /// What `inverse` returns: the conjugate with every component divided
    /// by the squared norm.
    pub open spec fn inverse_spec(self) -> Quaternion<T> {
        let f = self.norm_sqr_spec();
        Quaternion {
            r: self.r.div_spec(f),
            i: self.i.neg_spec().div_spec(f),
            j: self.j.neg_spec().div_spec(f),
            k: self.k.neg_spec().div_spec(f),
        }
    }

    /// The multiplicative inverse: the conjugate over the squared norm. The
    /// squared norm must not be the scalar zero; that is not checked.
    pub fn inverse(&self) -> (r: Quaternion<T>)
        requires
            self.norm_sqr_spec() != T::zero_spec(),
        ensures
            r == self.inverse_spec(),
    {
        let f = self.r.mul(self.r).add(self.i.mul(self.i)).add(self.j.mul(self.j)).add(
            self.k.mul(self.k),
        );
        Quaternion {
            r: self.r.div(f),
            i: self.i.neg().div(f),
            j: self.j.neg().div(f),
            k: self.k.neg().div(f),
        }
    }

    /// What `add` returns: componentwise sum.
    pub open spec fn add_spec(self, o: Quaternion<T>) -> Quaternion<T> {
        Quaternion {
            r: self.r.add_spec(o.r),
            i: self.i.add_spec(o.i),
            j: self.j.add_spec(o.j),
            k: self.k.add_spec(o.k),
        }
    }

    /// Componentwise sum.
    pub fn add(self, o: Quaternion<T>) -> (r: Self)
        ensures
            r == self.add_spec(o),
    {
        Quaternion {
            r: self.r.add(o.r),
            i: self.i.add(o.i),
            j: self.j.add(o.j),
            k: self.k.add(o.k),
        }
    }

    /// What `sub` returns: componentwise difference.
    pub open spec fn sub_spec(self, o: Quaternion<T>) -> Quaternion<T> {
        Quaternion {
            r: self.r.sub_spec(o.r),
            i: self.i.sub_spec(o.i),
            j: self.j.sub_spec(o.j),
            k: self.k.sub_spec(o.k),
        }
    }

    /// Componentwise difference.
    pub fn sub(self, o: Quaternion<T>) -> (r: Self)
        ensures
            r == self.sub_spec(o),
    {
        Quaternion {
            r: self.r.sub(o.r),
            i: self.i.sub(o.i),
            j: self.j.sub(o.j),
            k: self.k.sub(o.k),
        }
    }

    /// What `mul` returns: the Hamilton product, with the standard
    /// non-commutative multiplication table of the three imaginary units.
    pub open spec fn mul_quat_spec(self, o: Quaternion<T>) -> Quaternion<T> {
        Quaternion {
            r: self.r.mul_spec(o.r).sub_spec(self.i.mul_spec(o.i)).sub_spec(
                self.j.mul_spec(o.j),
            ).sub_spec(self.k.mul_spec(o.k)),
            i: self.r.mul_spec(o.i).add_spec(self.i.mul_spec(o.r)).add_spec(
                self.j.mul_spec(o.k),
            ).sub_spec(self.k.mul_spec(o.j)),
            j: self.r.mul_spec(o.j).sub_spec(self.i.mul_spec(o.k)).add_spec(
                self.j.mul_spec(o.r),
            ).add_spec(self.k.mul_spec(o.i)),
            k: self.r.mul_spec(o.k).add_spec(self.i.mul_spec(o.j)).sub_spec(
                self.j.mul_spec(o.i),
            ).add_spec(self.k.mul_spec(o.r)),
        }
    }

    /// The Hamilton product.
    pub fn mul(self, o: Quaternion<T>) -> (r: Self)
        ensures
            r == self.mul_quat_spec(o),
    {
        Quaternion {
            r: self.r.mul(o.r).sub(self.i.mul(o.i)).sub(self.j.mul(o.j)).sub(
                self.k.mul(o.k),
            ),
            i: self.r.mul(o.i).add(self.i.mul(o.r)).add(self.j.mul(o.k)).sub(
                self.k.mul(o.j),
            ),
            j: self.r.mul(o.j).sub(self.i.mul(o.k)).add(self.j.mul(o.r)).add(
                self.k.mul(o.i),
            ),
            k: self.r.mul(o.k).add(self.i.mul(o.j)).sub(self.j.mul(o.i)).add(
                self.k.mul(o.r),
            ),
        }
    }

    /// What `div` returns: the product with the divisor's conjugate, every
    /// component then divided by the divisor's squared norm — division by
    /// the true right inverse.
    pub open spec fn div_quat_spec(self, o: Quaternion<T>) -> Quaternion<T> {
        let f = o.norm_sqr_spec();
        Quaternion {
            r: self.r.mul_spec(o.r).add_spec(self.i.mul_spec(o.i)).add_spec(
                self.j.mul_spec(o.j),
            ).add_spec(self.k.mul_spec(o.k)).div_spec(f),
            i: self.i.mul_spec(o.r).sub_spec(self.j.mul_spec(o.k)).add_spec(
                self.k.mul_spec(o.j),
            ).sub_spec(self.r.mul_spec(o.i)).div_spec(f),
            j: self.j.mul_spec(o.r).sub_spec(self.k.mul_spec(o.i)).sub_spec(
                self.r.mul_spec(o.j),
            ).add_spec(self.i.mul_spec(o.k)).div_spec(f),
            k: self.k.mul_spec(o.r).sub_spec(self.r.mul_spec(o.k)).sub_spec(
                self.i.mul_spec(o.j),
            ).add_spec(self.j.mul_spec(o.i)).div_spec(f),
        }
    }

    /// Quotient by the right inverse. The divisor's squared norm must not
    /// be the scalar zero; that is not checked.
    pub fn div(self, o: Quaternion<T>) -> (r: Self)
        requires
            o.norm_sqr_spec() != T::zero_spec(),
        ensures
            r == self.div_quat_spec(o),
    {
        let f = o.r.mul(o.r).add(o.i.mul(o.i)).add(o.j.mul(o.j)).add(o.k.mul(o.k));
        Quaternion {
            r: self.r.mul(o.r).add(self.i.mul(o.i)).add(self.j.mul(o.j)).add(
                self.k.mul(o.k),
            ).div(f),
            i: self.i.mul(o.r).sub(self.j.mul(o.k)).add(self.k.mul(o.j)).sub(
                self.r.mul(o.i),
            ).div(f),
            j: self.j.mul(o.r).sub(self.k.mul(o.i)).sub(self.r.mul(o.j)).add(
                self.i.mul(o.k),
            ).div(f),
            k: self.k.mul(o.r).sub(self.r.mul(o.k)).sub(self.i.mul(o.j)).add(
                self.j.mul(o.i),
            ).div(f),
        }
    }

    /// What `neg` returns: every component negated.
    pub open spec fn neg_spec(self) -> Quaternion<T> {
        Quaternion {
            r: self.r.neg_spec(),
            i: self.i.neg_spec(),
            j: self.j.neg_spec(),
            k: self.k.neg_spec(),
        }
    }

    /// Negates every component.
    pub fn neg(self) -> (r: Self)
        ensures
            r == self.neg_spec(),
    {
        Quaternion { r: self.r.neg(), i: self.i.neg(), j: self.j.neg(), k: self.k.neg() }
    }

    /// What `add_s` returns: the scalar joins the real part.
    pub open spec fn add_s_spec(self, s: T) -> Quaternion<T> {
        Quaternion { r: self.r.add_spec(s), i: self.i, j: self.j, k: self.k }
    }

    /// Adds a scalar to the real part.
    pub fn add_s(self, s: T) -> (r: Self)
        ensures
            r == self.add_s_spec(s),
    {
        Quaternion { r: self.r.add(s), i: self.i, j: self.j, k: self.k }
    }

    /// What `sub_s` returns: the scalar leaves the real part.
    pub open spec fn sub_s_spec(self, s: T) -> Quaternion<T> {
        Quaternion { r: self.r.sub_spec(s), i: self.i, j: self.j, k: self.k }
    }

    /// Subtracts a scalar from the real part.
    pub fn sub_s(self, s: T) -> (r: Self)
        ensures
            r == self.sub_s_spec(s),
    {
        Quaternion { r: self.r.sub(s), i: self.i, j: self.j, k: self.k }
    }

    /// What `mul_s` returns: every component scaled.
    pub open spec fn mul_s_spec(self, s: T) -> Quaternion<T> {
        Quaternion {
            r: self.r.mul_spec(s),
            i: self.i.mul_spec(s),
            j: self.j.mul_spec(s),
            k: self.k.mul_spec(s),
        }
    }

    /// Scales every component.
    pub fn mul_s(self, s: T) -> (r: Self)
        ensures
            r == self.mul_s_spec(s),
    {
        Quaternion { r: self.r.mul(s), i: self.i.mul(s), j: self.j.mul(s), k: self.k.mul(s) }
    }

    /// What `div_s` returns: every component divided by the scalar.
    pub open spec fn div_s_spec(self, s: T) -> Quaternion<T> {
        Quaternion {
            r: self.r.div_spec(s),
            i: self.i.div_spec(s),
            j: self.j.div_spec(s),
            k: self.k.div_spec(s),
        }
    }

    /// Divides every component by a nonzero scalar.
    pub fn div_s(self, s: T) -> (r: Self)
        requires
            s != T::zero_spec(),
        ensures
            r == self.div_s_spec(s),
    {
        Quaternion { r: self.r.div(s), i: self.i.div(s), j: self.j.div(s), k: self.k.div(s) }
    }

    /// Equality against a plain scalar: the three imaginary components must
    /// be the scalar zero.
    pub fn eq_s(self, s: T) -> (r: bool)
        ensures
            r == (self.r == s && self.i == T::zero_spec() && self.j == T::zero_spec()
                && self.k == T::zero_spec()),
    {
        let z = T::zero();
        self.r.eq_v(s) && self.i.eq_v(z) && self.j.eq_v(z) && self.k.eq_v(z)
    }

    /// Equality against a complex value: the two extra imaginary components
    /// must be the scalar zero.
    pub fn eq_c(self, c: Complex<T>) -> (r: bool)
        ensures
            r == (self.r == c.r && self.i == c.i && self.j == T::zero_spec() && self.k
                == T::zero_spec()),
    {
        let z = T::zero();
        self.r.eq_v(c.r) && self.i.eq_v(c.i) && self.j.eq_v(z) && self.k.eq_v(z)
    }

    /// What `add_c` returns: the complex value joins the matching two
    /// components.
    pub open spec fn add_c_spec(self, c: Complex<T>) -> Quaternion<T> {
        Quaternion { r: self.r.add_spec(c.r), i: self.i.add_spec(c.i), j: self.j, k: self.k }
    }

    /// Adds a complex value onto the matching two components.
    pub fn add_c(self, c: Complex<T>) -> (r: Self)
        ensures
            r == self.add_c_spec(c),
    {
        Quaternion { r: self.r.add(c.r), i: self.i.add(c.i), j: self.j, k: self.k }
    }

    /// What `sub_c` returns: the complex value leaves the matching two
    /// components.
    pub open spec fn sub_c_spec(self, c: Complex<T>) -> Quaternion<T> {
        Quaternion { r: self.r.sub_spec(c.r), i: self.i.sub_spec(c.i), j: self.j, k: self.k }
    }

    /// Subtracts a complex value from the matching two components.
    pub fn sub_c(self, c: Complex<T>) -> (r: Self)
        ensures
            r == self.sub_c_spec(c),
    {
        Quaternion { r: self.r.sub(c.r), i: self.i.sub(c.i), j: self.j, k: self.k }
    }

    /// What `mul_c` returns: the Hamilton product with a complex value read
    /// as a quaternion whose last two components are zero.
    pub open spec fn mul_c_spec(self, c: Complex<T>) -> Quaternion<T> {
        Quaternion {
            r: self.r.mul_spec(c.r).sub_spec(self.i.mul_spec(c.i)),
            i: self.r.mul_spec(c.i).add_spec(self.i.mul_spec(c.r)),
            j: self.j.mul_spec(c.r).add_spec(self.k.mul_spec(c.i)),
            k: self.k.mul_spec(c.r).sub_spec(self.j.mul_spec(c.i)),
        }
    }

    /// The Hamilton product with a complex value on the right.
    pub fn mul_c(self, c: Complex<T>) -> (r: Self)
        ensures
            r == self.mul_c_spec(c),
    {
        Quaternion {
            r: self.r.mul(c.r).sub(self.i.mul(c.i)),
            i: self.r.mul(c.i).add(self.i.mul(c.r)),
            j: self.j.mul(c.r).add(self.k.mul(c.i)),
            k: self.k.mul(c.r).sub(self.j.mul(c.i)),
        }
    }

    /// What `mul_v` returns: the sandwich rotation expanded into the
    /// closed-form matrix applied to the vector, with the doubled cross
    /// terms written out exactly as stated.
    pub open spec fn mul_v_spec(self, v: Vec3<T>) -> Vec3<T> {
        let rr = self.r.mul_spec(self.r);
        let ri = self.r.mul_spec(self.i);
        let rj = self.r.mul_spec(self.j);
        let rk = self.r.mul_spec(self.k);
        let ii = self.i.mul_spec(self.i);
        let ij = self.i.mul_spec(self.j);
        let ik = self.i.mul_spec(self.k);
        let jj = self.j.mul_spec(self.j);
        let jk = self.j.mul_spec(self.k);
        let kk = self.k.mul_spec(self.k);
        let ijprk = ij.add_spec(rk);
        let ijprk2 = ijprk.add_spec(ijprk);
        let ijmrk = ij.sub_spec(rk);
        let ijmrk2 = ijmrk.add_spec(ijmrk);
        let jkpri = jk.add_spec(ri);
        let jkpri2 = jkpri.add_spec(jkpri);
        let jkmri = jk.sub_spec(ri);
        let jkmri2 = jkmri.add_spec(jkmri);
        let ikprj = ik.add_spec(rj);
        let ikprj2 = ikprj.add_spec(ikprj);
        let ikmrj = ik.sub_spec(rj);
        let ikmrj2 = ikmrj.add_spec(ikmrj);
        Vec3 {
            x: rr.add_spec(ii).sub_spec(jj).sub_spec(kk).mul_spec(v.x).add_spec(
                ijmrk2.mul_spec(v.y),
            ).add_spec(ikprj2.mul_spec(v.z)),
            y: rr.sub_spec(ii).add_spec(jj).sub_spec(kk).mul_spec(v.y).add_spec(
                jkmri2.mul_spec(v.z),
            ).add_spec(ijprk2.mul_spec(v.x)),
            z: rr.sub_spec(ii).sub_spec(jj).add_spec(kk).mul_spec(v.z).add_spec(
                ikmrj2.mul_spec(v.x),
            ).add_spec(jkpri2.mul_spec(v.y)),
        }
    }

    /// Rotates a vector by the sandwich product, expanded into the
    /// closed-form rotation with doubled cross terms.
    pub fn mul_v(self, v: Vec3<T>) -> (r: Vec3<T>)
        ensures
            r == self.mul_v_spec(v),
    {
        let rr = self.r.mul(self.r);
        let ri = self.r.mul(self.i);
        let rj = self.r.mul(self.j);
        let rk = self.r.mul(self.k);
        let ii = self.i.mul(self.i);
        let ij = self.i.mul(self.j);
        let ik = self.i.mul(self.k);
        let jj = self.j.mul(self.j);
        let jk = self.j.mul(self.k);
        let kk = self.k.mul(self.k);
        let ijprk = ij.add(rk);
        let ijprk2 = ijprk.add(ijprk);
        let ijmrk = ij.sub(rk);
        let ijmrk2 = ijmrk.add(ijmrk);
        let jkpri = jk.add(ri);
        let jkpri2 = jkpri.add(jkpri);
        let jkmri = jk.sub(ri);
        let jkmri2 = jkmri.add(jkmri);
        let ikprj = ik.add(rj);
        let ikprj2 = ikprj.add(ikprj);
        let ikmrj = ik.sub(rj);
        let ikmrj2 = ikmrj.add(ikmrj);
        Vec3 {
            x: rr.add(ii).sub(jj).sub(kk).mul(v.x).add(ijmrk2.mul(v.y)).add(
                ikprj2.mul(v.z),
            ),
            y: rr.sub(ii).add(jj).sub(kk).mul(v.y).add(jkmri2.mul(v.z)).add(
                ijprk2.mul(v.x),
            ),
            z: rr.sub(ii).sub(jj).add(kk).mul(v.z).add(ikmrj2.mul(v.x)).add(
                jkpri2.mul(v.y),
            ),
        }
    }
}

impl<T: Scalar + Real> Quaternion<T> {
    /// What `norm` returns: the square root of the exact squared norm.
    pub open spec fn norm_spec(self) -> T {
        self.norm_sqr_spec().sqrt_spec()
    }

    /// The norm, through the scalar's own square root of the exact sum of
    /// squares.
    pub fn norm(&self) -> (r: T)
        ensures
            r == self.norm_spec(),
    {
        self.norm_sqr().sqrt()
    }
}

/// A quaternion times its own conjugate is its squared norm with no
/// imaginary components left: exact for the machine integer carrier, for
/// every value, wraparound included.
pub proof fn lemma_quat_conj_product(q: Quaternion<i64>)
    ensures
        q.mul_quat_spec(q.conj_spec()) == (Quaternion {
            r: q.norm_sqr_spec(),
            i: 0i64,
            j: 0i64,
            k: 0i64,
        }),
{
    let r = q.r;
    let i = q.i;
    let j = q.j;
    let k = q.k;
    let ni = i.neg_spec();
    let nj = j.neg_spec();
    let nk = k.neg_spec();
    // real part: each subtracted negated square turns into an added square
    lemma_wmul_neg_right(i, i);
    lemma_wmul_neg_right(j, j);
    lemma_wmul_neg_right(k, k);
    lemma_wsub_of_neg(r.mul_spec(r), i.mul_spec(i));
    lemma_wsub_of_neg(r.mul_spec(r).add_spec(i.mul_spec(i)), j.mul_spec(j));
    lemma_wsub_of_neg(
        r.mul_spec(r).add_spec(i.mul_spec(i)).add_spec(j.mul_spec(j)),
        k.mul_spec(k),
    );
    assert(q.mul_quat_spec(q.conj_spec()).r == q.norm_sqr_spec());
    // first imaginary part: the cross terms cancel pairwise
    lemma_wmul_neg_right(r, i);
    lemma_wmul_comm(i, r);
    lemma_wadd_neg_cancel(r.mul_spec(i));
    lemma_wmul_neg_right(j, k);
    lemma_wmul_neg_right(k, j);
    lemma_wmul_comm(k, j);
    assert(q.mul_quat_spec(q.conj_spec()).i == 0i64);
    // second imaginary part
    lemma_wmul_neg_right(r, j);
    lemma_wmul_neg_right(i, k);
    lemma_wsub_of_neg(r.mul_spec(j).neg_spec(), i.mul_spec(k));
    lemma_wmul_comm(j, r);
    lemma_wadd_swap_right(r.mul_spec(j).neg_spec(), i.mul_spec(k), r.mul_spec(j));
    lemma_wadd_neg_cancel(r.mul_spec(j));
    lemma_wmul_neg_right(k, i);
    lemma_wmul_comm(k, i);
    assert(q.mul_quat_spec(q.conj_spec()).j == 0i64);
    // third imaginary part
    lemma_wmul_neg_right(r, k);
    lemma_wmul_neg_right(i, j);
    lemma_wmul_neg_right(j, i);
    lemma_wmul_comm(j, i);
    lemma_wsub_of_neg(
        r.mul_spec(k).neg_spec().add_spec(i.mul_spec(j).neg_spec()),
        i.mul_spec(j),
    );
    lemma_wadd_swap_right(r.mul_spec(k).neg_spec(), i.mul_spec(j).neg_spec(), i.mul_spec(j));
    lemma_wadd_neg_cancel(i.mul_spec(j));
    lemma_wmul_comm(k, r);
    lemma_wadd_neg_cancel(r.mul_spec(k));
    assert(q.mul_quat_spec(q.conj_spec()).k == 0i64);
}

/// A quaternion whose squared norm is one is inverted by its conjugate
/// alone, and the product with its inverse is then exactly the
/// multiplicative identity. For any other norm the integer divisions
/// truncate, and only an approximate identity can be expected of wider
/// carriers.
pub proof fn lemma_unit_inverse_identity(q: Quaternion<i64>)
    requires
        q.norm_sqr_spec() == 1i64,
    ensures
        q.mul_quat_spec(q.inverse_spec()) == (Quaternion { r: 1i64, i: 0i64, j: 0i64, k: 0i64 }),
{
    // dividing by a squared norm of one changes nothing, so the inverse is
    // the conjugate itself
    assert forall|x: i64| #[trigger] x.div_spec(1i64) == x by {
        if x != 0 && !(x == i64::MIN) {
            if x > 0 {
                assert(x as int / 1 == x) by (nonlinear_arith);
            } else {
                assert((x as int * -1) / 1 == x as int * -1) by (nonlinear_arith);
            }
        } else if x == i64::MIN {
            assert((x as int * -1) / 1 == x as int * -1) by (nonlinear_arith);
        }
    }
    assert(q.inverse_spec() == q.conj_spec());
    lemma_quat_conj_product(q);
}

/// The identity quaternion leaves every vector unchanged under rotation:
/// exact for the machine integer carrier.
pub proof fn lemma_identity_rotation(v: Vec3<i64>)
    ensures
        (Quaternion { r: 1i64, i: 0i64, j: 0i64, k: 0i64 }).mul_v_spec(v) == v,
{
    lemma_crop_identity(1);
    lemma_crop_identity(0);
    lemma_crop_identity(v.x);
    lemma_crop_identity(v.y);
    lemma_crop_identity(v.z);
    let q = Quaternion { r: 1i64, i: 0i64, j: 0i64, k: 0i64 };
    assert(q.r.mul_spec(q.r) == 1i64);
    assert(q.r.mul_spec(q.i) == 0i64);
    assert(q.i.mul_spec(q.i) == 0i64);
    assert(1i64.add_spec(0i64) == 1i64);
    assert(1i64.sub_spec(0i64) == 1i64);
    assert(0i64.add_spec(0i64) == 0i64);
    assert(0i64.sub_spec(0i64) == 0i64);
    assert(1i64.mul_spec(v.x) == v.x);
    assert(0i64.mul_spec(v.y) == 0i64);
    assert(v.x.add_spec(0i64) == v.x);
    assert(q.mul_v_spec(v).x == v.x);
    assert(q.mul_v_spec(v).y == v.y);
    assert(q.mul_v_spec(v).z == v.z);
}

} // verus!
