//! Euler angles: yaw, pitch and roll, with componentwise arithmetic and no
//! normalization invariant.

use vstd::prelude::*;
use crate::{Scalar, Zero};

verus! {

/// Yaw `y`, pitch `p` and roll `r`.
#[derive(Copy, Clone, Debug, PartialEq, Eq, Structural)]
pub struct Euler<T> {
    pub y: T,
    pub p: T,
    pub r: T,
}

impl<T: Scalar> Euler<T> {
    /// What `add` returns: componentwise sum.
    pub open spec fn add_spec(self, o: Euler<T>) -> Euler<T> {
        Euler { y: self.y.add_spec(o.y), p: self.p.add_spec(o.p), r: self.r.add_spec(o.r) }
    }

    /// Componentwise sum.
    pub fn add(self, o: Euler<T>) -> (r: Self)
        ensures
            r == self.add_spec(o),
    {
        Euler { y: self.y.add(o.y), p: self.p.add(o.p), r: self.r.add(o.r) }
    }

    /// What `sub` returns: componentwise difference.
    pub open spec fn sub_spec(self, o: Euler<T>) -> Euler<T> {
        Euler { y: self.y.sub_spec(o.y), p: self.p.sub_spec(o.p), r: self.r.sub_spec(o.r) }
    }

    /// Componentwise difference.
    pub fn sub(self, o: Euler<T>) -> (r: Self)
        ensures
            r == self.sub_spec(o),
    {
        Euler { y: self.y.sub(o.y), p: self.p.sub(o.p), r: self.r.sub(o.r) }
    }

    /// What `mul_s` returns: every angle scaled.
    pub open spec fn mul_s_spec(self, s: T) -> Euler<T> {
        Euler { y: self.y.mul_spec(s), p: self.p.mul_spec(s), r: self.r.mul_spec(s) }
    }

    /// Scales every angle.
    pub fn mul_s(self, s: T) -> (r: Self)
        ensures
            r == self.mul_s_spec(s),
    {
        Euler { y: self.y.mul(s), p: self.p.mul(s), r: self.r.mul(s) }
    }

    /// What `mul` returns: componentwise product of the angle triples.
    pub open spec fn mul_spec(self, o: Euler<T>) -> Euler<T> {
        Euler { y: self.y.mul_spec(o.y), p: self.p.mul_spec(o.p), r: self.r.mul_spec(o.r) }
    }

    /// Componentwise product.
    pub fn mul(self, o: Euler<T>) -> (r: Self)
        ensures
            r == self.mul_spec(o),
    {
        Euler { y: self.y.mul(o.y), p: self.p.mul(o.p), r: self.r.mul(o.r) }
    }

    /// What `div_s` returns: every angle divided by the scalar.
    pub open spec fn div_s_spec(self, s: T) -> Euler<T> {
        Euler { y: self.y.div_spec(s), p: self.p.div_spec(s), r: self.r.div_spec(s) }
    }

    /// Divides every angle by a nonzero scalar.
    pub fn div_s(self, s: T) -> (r: Self)
        requires
            s != T::zero_spec(),
        ensures
            r == self.div_s_spec(s),
    {
        Euler { y: self.y.div(s), p: self.p.div(s), r: self.r.div(s) }
    }

    /// What `neg` returns: every angle negated.
    pub open spec fn neg_spec(self) -> Euler<T> {
        Euler { y: self.y.neg_spec(), p: self.p.neg_spec(), r: self.r.neg_spec() }
    }

    /// Negates every angle.
    pub fn neg(self) -> (r: Self)
        ensures
            r == self.neg_spec(),
    {
        Euler { y: self.y.neg(), p: self.p.neg(), r: self.r.neg() }
    }
}

} // verus!
