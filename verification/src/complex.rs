//! Complex numbers over any scalar representation.

use vstd::prelude::*;
use crate::{Scalar, Zero, Real};
use crate::modring::{
    lemma_cong_refl, lemma_cong_sym, lemma_cong_trans, lemma_cong_add, lemma_cong_sub,
    lemma_cong_mul, lemma_wadd_cong, lemma_wsub_cong, lemma_wmul_cong, lemma_cong_i64_eq,
};

verus! {

/// A complex number: real part `r` and imaginary part `i`, both drawn from
/// the same scalar representation.
#[derive(Copy, Clone, Debug, PartialEq, Eq, Structural)]
pub struct Complex<T> {
    pub r: T,
    pub i: T,
}

impl<T: Scalar> Complex<T> {
    /// What `conj` returns: the imaginary part negated.
    pub open spec fn conj_spec(self) -> Complex<T> {
        Complex { r: self.r, i: self.i.neg_spec() }
    }

    /// The complex conjugate.
    pub fn conj(&self) -> (r: Self)
        ensures
            r == self.conj_spec(),
    {
        Complex { r: self.r, i: self.i.neg() }
    }

    /// What `norm_sqr` returns: the sum of the squares of the two parts.
    pub open spec fn norm_sqr_spec(self) -> T {
        self.r.mul_spec(self.r).add_spec(self.i.mul_spec(self.i))
    }

    /// The squared norm.
    pub fn norm_sqr(&self) -> (r: T)
        ensures
            r == self.norm_sqr_spec(),
    {
        self.r.mul(self.r).add(self.i.mul(self.i))
    }

    /// What `inv` returns: the conjugate with both parts divided by the
    /// squared norm.
    pub open spec fn inv_spec(self) -> Complex<T> {
        let f = self.norm_sqr_spec();
        Complex { r: self.r.div_spec(f), i: self.i.neg_spec().div_spec(f) }
    }

    /// The multiplicative inverse: the conjugate over the squared norm. The
    /// squared norm must not be the scalar zero; that is not checked.
    pub fn inv(&self) -> (r: Self)
        requires
            self.norm_sqr_spec() != T::zero_spec(),
        ensures
            r == self.inv_spec(),
    {
        let f = self.r.mul(self.r).add(self.i.mul(self.i));
        Complex { r: self.r.div(f), i: self.i.neg().div(f) }
    }

    /// What `add` returns: componentwise sum.
    pub open spec fn add_spec(self, o: Complex<T>) -> Complex<T> {
        Complex { r: self.r.add_spec(o.r), i: self.i.add_spec(o.i) }
    }

    /// Componentwise sum.
    pub fn add(self, o: Complex<T>) -> (r: Self)
        ensures
            r == self.add_spec(o),
    {
        Complex { r: self.r.add(o.r), i: self.i.add(o.i) }
    }

    /// What `sub` returns: componentwise difference.
    pub open spec fn sub_spec(self, o: Complex<T>) -> Complex<T> {
        Complex { r: self.r.sub_spec(o.r), i: self.i.sub_spec(o.i) }
    }

    /// Componentwise difference.
    pub fn sub(self, o: Complex<T>) -> (r: Self)
        ensures
            r == self.sub_spec(o),
    {
        Complex { r: self.r.sub(o.r), i: self.i.sub(o.i) }
    }

    /// What `mul` returns: the usual product formula.
    pub open spec fn mul_spec(self, o: Complex<T>) -> Complex<T> {
        Complex {
            r: self.r.mul_spec(o.r).sub_spec(self.i.mul_spec(o.i)),
            i: self.r.mul_spec(o.i).add_spec(self.i.mul_spec(o.r)),
        }
    }

    /// Complex product.
    pub fn mul(self, o: Complex<T>) -> (r: Self)
        ensures
            r == self.mul_spec(o),
    {
        Complex {
            r: self.r.mul(o.r).sub(self.i.mul(o.i)),
            i: self.r.mul(o.i).add(self.i.mul(o.r)),
        }
    }

    /// What `div` returns: multiply by the divisor's conjugate, then divide
    /// both parts by the divisor's squared norm.
    pub open spec fn div_spec(self, o: Complex<T>) -> Complex<T> {
        let f = o.norm_sqr_spec();
        Complex {
            r: self.r.mul_spec(o.r).add_spec(self.i.mul_spec(o.i)).div_spec(f),
            i: self.i.mul_spec(o.r).sub_spec(self.r.mul_spec(o.i)).div_spec(f),
        }
    }

    /// Complex quotient. The divisor's squared norm must not be the scalar
    /// zero; that is not checked.
    pub fn div(self, o: Complex<T>) -> (r: Self)
        requires
            o.norm_sqr_spec() != T::zero_spec(),
        ensures
            r == self.div_spec(o),
    {
        let f = o.r.mul(o.r).add(o.i.mul(o.i));
        Complex {
            r: self.r.mul(o.r).add(self.i.mul(o.i)).div(f),
            i: self.i.mul(o.r).sub(self.r.mul(o.i)).div(f),
        }
    }

    /// What `add_s` returns: the scalar joins the real part.
    pub open spec fn add_s_spec(self, s: T) -> Complex<T> {
        Complex { r: self.r.add_spec(s), i: self.i }
    }

    /// Adds a scalar to the real part.
    pub fn add_s(self, s: T) -> (r: Self)
        ensures
            r == self.add_s_spec(s),
    {
        Complex { r: self.r.add(s), i: self.i }
    }

    /// What `sub_s` returns: the scalar leaves the real part.
    pub open spec fn sub_s_spec(self, s: T) -> Complex<T> {
        Complex { r: self.r.sub_spec(s), i: self.i }
    }

    /// Subtracts a scalar from the real part.
    pub fn sub_s(self, s: T) -> (r: Self)
        ensures
            r == self.sub_s_spec(s),
    {
        Complex { r: self.r.sub(s), i: self.i }
    }

    /// What `mul_s` returns: both parts scaled.
    pub open spec fn mul_s_spec(self, s: T) -> Complex<T> {
        Complex { r: self.r.mul_spec(s), i: self.i.mul_spec(s) }
    }

    /// Scales both parts.
    pub fn mul_s(self, s: T) -> (r: Self)
        ensures
            r == self.mul_s_spec(s),
    {
        Complex { r: self.r.mul(s), i: self.i.mul(s) }
    }

    /// What `div_s` returns: both parts divided by the scalar.
    pub open spec fn div_s_spec(self, s: T) -> Complex<T> {
        Complex { r: self.r.div_spec(s), i: self.i.div_spec(s) }
    }

    /// Divides both parts by a nonzero scalar.
    pub fn div_s(self, s: T) -> (r: Self)
        requires
            s != T::zero_spec(),
        ensures
            r == self.div_s_spec(s),
    {
        Complex { r: self.r.div(s), i: self.i.div(s) }
    }

    /// What `neg` returns: both parts negated.
    pub open spec fn neg_spec(self) -> Complex<T> {
        Complex { r: self.r.neg_spec(), i: self.i.neg_spec() }
    }

    /// Negates both parts.
    pub fn neg(self) -> (r: Self)
        ensures
            r == self.neg_spec(),
    {
        Complex { r: self.r.neg(), i: self.i.neg() }
    }
}

impl<T: Scalar + Real> Complex<T> {
    /// What `arg` returns: the arc tangent of the imaginary part over the
    /// real part, the angle of the point the value names.
    pub open spec fn arg_spec(self) -> T {
        self.i.atan2_spec(self.r)
    }

    /// The argument, through the scalar's own two-argument arc tangent.
    pub fn arg(&self) -> (r: T)
        ensures
            r == self.arg_spec(),
    {
        self.i.atan2(self.r)
    }

    /// What `exp` returns: the exponential of the real part, scaling the
    /// cosine and sine of the imaginary part.
    pub open spec fn exp_spec(self) -> Complex<T> {
        let s = self.r.exp_spec();
        Complex { r: s.mul_spec(self.i.cos_spec()), i: s.mul_spec(self.i.sin_spec()) }
    }

    /// The natural exponent, through the scalar's own exponential, sine and
    /// cosine.
    pub fn exp(&self) -> (r: Complex<T>)
        ensures
            r == self.exp_spec(),
    {
        let s = self.r.exp();
        Complex { r: s.mul(self.i.cos()), i: s.mul(self.i.sin()) }
    }
}

/// A complex value times its own conjugate has no imaginary part left, and
/// its real part is the squared norm: both hold exactly for the machine
/// integer carrier, for every value, wraparound included.
pub proof fn lemma_conj_product_real(c: Complex<i64>)
    ensures
        c.mul_spec(c.conj_spec()).i == 0i64,
        c.mul_spec(c.conj_spec()).r == c.norm_sqr_spec(),
{
    let a = c.r;
    let b = c.i;
    let nb = b.neg_spec();
    lemma_wsub_cong(0, b);
    lemma_wmul_cong(a, nb);
    lemma_wmul_cong(b, a);
    lemma_wmul_cong(a, a);
    lemma_wmul_cong(b, nb);
    lemma_wmul_cong(b, b);
    lemma_cong_refl(a as int);
    lemma_cong_refl(b as int);
    // the imaginary part a * (-b) + b * a vanishes modulo the word span
    lemma_cong_mul(a as int, a as int, nb as int, -(b as int));
    lemma_cong_trans(a.mul_spec(nb) as int, a as int * nb as int, a as int * -(b as int));
    lemma_cong_add(
        a.mul_spec(nb) as int,
        a as int * -(b as int),
        b.mul_spec(a) as int,
        b as int * a as int,
    );
    lemma_wadd_cong(a.mul_spec(nb), b.mul_spec(a));
    let im = a.mul_spec(nb) as int + b.mul_spec(a) as int;
    lemma_cong_trans(
        c.mul_spec(c.conj_spec()).i as int,
        im,
        a as int * -(b as int) + b as int * a as int,
    );
    assert(a as int * -(b as int) + b as int * a as int == 0) by (nonlinear_arith);
    lemma_cong_i64_eq(c.mul_spec(c.conj_spec()).i, 0);
    // the real part a * a - b * (-b) equals a * a + b * b, the squared norm
    lemma_cong_mul(b as int, b as int, nb as int, -(b as int));
    lemma_cong_trans(b.mul_spec(nb) as int, b as int * nb as int, b as int * -(b as int));
    lemma_cong_sub(
        a.mul_spec(a) as int,
        a as int * a as int,
        b.mul_spec(nb) as int,
        b as int * -(b as int),
    );
    lemma_wsub_cong(a.mul_spec(a), b.mul_spec(nb));
    lemma_cong_trans(
        c.mul_spec(c.conj_spec()).r as int,
        a.mul_spec(a) as int - b.mul_spec(nb) as int,
        a as int * a as int - b as int * -(b as int),
    );
    lemma_cong_add(
        a.mul_spec(a) as int,
        a as int * a as int,
        b.mul_spec(b) as int,
        b as int * b as int,
    );
    lemma_wadd_cong(a.mul_spec(a), b.mul_spec(b));
    lemma_cong_trans(
        c.norm_sqr_spec() as int,
        a.mul_spec(a) as int + b.mul_spec(b) as int,
        a as int * a as int + b as int * b as int,
    );
    assert(a as int * a as int - b as int * -(b as int) == a as int * a as int + b as int * b
        as int) by (nonlinear_arith);
    lemma_cong_sym(
        c.norm_sqr_spec() as int,
        a as int * a as int + b as int * b as int,
    );
    lemma_cong_trans(
        c.mul_spec(c.conj_spec()).r as int,
        a as int * a as int + b as int * b as int,
        c.norm_sqr_spec() as int,
    );
    lemma_cong_i64_eq(c.mul_spec(c.conj_spec()).r, c.norm_sqr_spec());
}

} // verus!
