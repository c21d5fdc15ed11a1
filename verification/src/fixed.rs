//! Fixed-point numbers: a machine integer read as a value scaled by a
//! compile-time count of fractional bits. Arithmetic keeps the scale
//! constant; overflow wraps around silently, as the underlying machine
//! integer does, and the contracts say so exactly. The engine is carried
//! by the 64-bit word, with any fraction width below sixty-three bits.

use vstd::prelude::*;
use vstd::arithmetic::power2::{pow2, lemma_pow2_strictly_increases, lemma_pow2_unfold, lemma2_to64};
use vstd::arithmetic::div_mod::{
    lemma_fundamental_div_mod, lemma_fundamental_div_mod_converse, lemma_div_nonincreasing,
    lemma_div_is_ordered_by_denominator, lemma_div_is_ordered, lemma_div_pos_is_pos,
};
use vstd::wrapping::i64_specs;
use crate::truncating_div;

verus! {

/// A fixed-point number: the stored integer is the value times two to the
/// `B`th power, so `B` is the number of bits below the binary point.
#[derive(Copy, Clone, Debug, PartialEq, Eq)]
pub struct Fixed<T, const B: usize>(pub T);

/// Two to the `b`th power, where it fits the stored word.
pub(crate) fn pow2_i64(b: usize) -> (r: i64)
    requires
        b < 63,
    ensures
        r as int == pow2(b as nat),
        r > 0,
{
    let mut acc: i64 = 1;
    let mut i: usize = 0;
    proof {
        lemma2_to64();
    }
    while i < b
        invariant
            i <= b < 63,
            acc as int == pow2(i as nat),
        decreases b - i,
    {
        proof {
            lemma_pow2_unfold((i + 1) as nat);
            if ((i + 1) as nat) < 62 {
                lemma_pow2_strictly_increases((i + 1) as nat, 62);
            }
            lemma2_to64();
            vstd::arithmetic::power2::lemma2_to64_rest();
        }
        acc = acc * 2;
        i = i + 1;
    }
    proof {
        vstd::arithmetic::power2::lemma_pow2_pos(b as nat);
    }
    acc
}

/// Division of a machine word by a positive divisor, rounding toward
/// negative infinity, as an arithmetic right shift does.
fn floor_div_i64(x: i64, p: i64) -> (q: i64)
    requires
        p > 0,
    ensures
        q as int == x as int / p as int,
{
    let qt = match x.checked_div(p) {
        Some(q) => q,
        None => 0,  // unreachable: the divisor is positive
    };
    let rt = match x.checked_rem(p) {
        Some(r) => r,
        None => 0,  // unreachable: the divisor is positive
    };
    if x >= 0 {
        qt
    } else {
        let ghost xi = x as int;
        let ghost pi = p as int;
        let ghost m = -xi;
        proof {
            lemma_div_nonincreasing(m, pi);
            lemma_div_pos_is_pos(m, pi);
            lemma_fundamental_div_mod(m, pi);
        }
        if rt == 0 {
            proof {
                // the division is exact, so rounding direction cannot matter
                assert(pi * (-(m / pi)) + 0 == xi) by (nonlinear_arith)
                    requires
                        m == pi * (m / pi) + m % pi,
                        m % pi == 0,
                        m == -xi,
                ;
                lemma_fundamental_div_mod_converse(xi, pi, -(m / pi), 0);
            }
            qt
        } else {
            proof {
                // p == 1 would divide exactly, so here p is at least two and
                // the truncated quotient has room to step down by one
                assert(m % 1 == 0) by (nonlinear_arith);
                assert(pi >= 2);
                assert(m / pi <= m / 2) by {
                    lemma_div_is_ordered_by_denominator(m, 2, pi);
                }
                assert(m / 2 <= (i64::MAX as int)) by {
                    lemma_div_is_ordered(m, (i64::MAX as int) * 2, 2);
                }
                assert(pi * (-(m / pi) - 1) + (pi - m % pi) == xi) by (nonlinear_arith)
                    requires
                        m == pi * (m / pi) + m % pi,
                        m == -xi,
                ;
                lemma_fundamental_div_mod_converse(xi, pi, -(m / pi) - 1, pi - m % pi);
            }
            qt - 1
        }
    }
}

impl<const B: usize> Fixed<i64, B> {
    /// The stored integer: the represented value times two to the `B`th
    /// power.
    pub open spec fn raw(self) -> int {
        self.0 as int
    }

    /// The scale fits the stored word with the sign bit to spare.
    pub open spec fn bits_ok() -> bool {
        B < 63
    }

    /// Wraps a scaled integer directly.
    pub fn from_raw(v: i64) -> (r: Self)
        ensures
            r.raw() == v as int,
    {
        Fixed(v)
    }

    /// The whole number `v`, scaled. Wraps around if the scaled value
    /// overflows the stored word; where it fits, the stored integer is the
    /// exact product.
    pub fn from_int(v: i64) -> (r: Self)
        requires
            Self::bits_ok(),
        ensures
            r.raw() == i64_specs::signed_crop(v as int * pow2(B as nat)),
            i64::MIN <= v as int * pow2(B as nat) <= i64::MAX ==> r.raw() == v as int * pow2(
                B as nat,
            ),
    {
        proof {
            let x = v as int * pow2(B as nat);
            if i64::MIN <= x <= i64::MAX {
                crate::modring::lemma_crop_identity(x as i64);
            }
        }
        let p = pow2_i64(B);
        Fixed(v.wrapping_mul(p))
    }

    /// Sum: the scales match, so the stored integers add directly.
    pub fn add(self, o: Self) -> (r: Self)
        ensures
            r.0 == i64_specs::wrapping_add(self.0, o.0),
    {
        Fixed(self.0.wrapping_add(o.0))
    }

    /// Difference: the scales match, so the stored integers subtract
    /// directly.
    pub fn sub(self, o: Self) -> (r: Self)
        ensures
            r.0 == i64_specs::wrapping_sub(self.0, o.0),
    {
        Fixed(self.0.wrapping_sub(o.0))
    }

    /// Product: the stored integers multiply, and the doubled scale comes
    /// back down by an arithmetic shift of `B` bits, rounding toward
    /// negative infinity. Low-order bits are lost; a wide product wraps.
    pub fn mul(self, o: Self) -> (r: Self)
        requires
            Self::bits_ok(),
        ensures
            r.raw() == i64_specs::wrapping_mul(self.0, o.0) as int / pow2(B as nat) as int,
    {
        proof {
            vstd::arithmetic::power2::lemma_pow2_pos(B as nat);
        }
        let p = pow2_i64(B);
        Fixed(floor_div_i64(self.0.wrapping_mul(o.0), p))
    }

    /// What `div` returns: the dividend scaled up by `B` bits, wrapping if
    /// it must, then divided by the divisor's stored word, rounding toward
    /// zero; the one overflowing division wraps back onto the smallest
    /// value.
    pub open spec fn div_spec_raw(self, o: Self) -> int {
        let m = i64_specs::signed_crop(self.raw() * pow2(B as nat));
        if m == i64::MIN && o.0 == -1 {
            i64::MIN as int
        } else {
            truncating_div(m as int, o.raw())
        }
    }

    /// Quotient: shift the dividend up by `B` bits, then divide the stored
    /// integers, rounding toward zero.
    pub fn div(self, o: Self) -> (r: Self)
        requires
            Self::bits_ok(),
            o.0 != 0,
        ensures
            r.raw() == self.div_spec_raw(o),
    {
        let p = pow2_i64(B);
        let m = self.0.wrapping_mul(p);
        if m == i64::MIN && o.0 == -1 {
            Fixed(i64::MIN)
        } else {
            Fixed(crate::trunc_div_i64(m, o.0))
        }
    }

    /// Negation, wrapping on the smallest stored value.
    pub fn neg(self) -> (r: Self)
        ensures
            r.0 == i64_specs::wrapping_sub(0, self.0),
    {
        Fixed(0i64.wrapping_sub(self.0))
    }

    /// Exact order: the stored integers compare directly, since the scales
    /// match.
    pub fn lt(self, o: Self) -> (r: bool)
        ensures
            r == (self.raw() < o.raw()),
    {
        self.0 < o.0
    }

    /// Exact equality of the stored integers.
    pub fn eq_v(self, o: Self) -> (r: bool)
        ensures
            r == (self == o),
    {
        self.0 == o.0
    }

    /// What `add_int` returns: the integer is promoted to the scale first,
    /// wrapping where the promotion overflows.
    pub open spec fn promote_spec(s: i64) -> i64 {
        i64_specs::signed_crop(s as int * pow2(B as nat))
    }

    /// Sum with a plain integer, promoted to the scale first.
    pub fn add_int(self, s: i64) -> (r: Self)
        requires
            Self::bits_ok(),
        ensures
            r.0 == i64_specs::wrapping_add(self.0, Self::promote_spec(s)),
    {
        let p = pow2_i64(B);
        Fixed(self.0.wrapping_add(s.wrapping_mul(p)))
    }

    /// Difference with a plain integer, promoted to the scale first.
    pub fn sub_int(self, s: i64) -> (r: Self)
        requires
            Self::bits_ok(),
        ensures
            r.0 == i64_specs::wrapping_sub(self.0, Self::promote_spec(s)),
    {
        let p = pow2_i64(B);
        Fixed(self.0.wrapping_sub(s.wrapping_mul(p)))
    }

    /// Difference the other way round: the promoted integer minus this
    /// value.
    pub fn int_sub(s: i64, o: Self) -> (r: Self)
        requires
            Self::bits_ok(),
        ensures
            r.0 == i64_specs::wrapping_sub(Self::promote_spec(s), o.0),
    {
        let p = pow2_i64(B);
        Fixed(s.wrapping_mul(p).wrapping_sub(o.0))
    }

    /// Product with a plain integer: the stored word scales directly, with
    /// no shift, since only one operand carries fraction bits.
    pub fn mul_int(self, s: i64) -> (r: Self)
        ensures
            r.0 == i64_specs::wrapping_mul(self.0, s),
    {
        Fixed(self.0.wrapping_mul(s))
    }

    /// Quotient by a plain nonzero integer: the stored word divides
    /// directly, rounding toward zero; the one overflowing division is
    /// excluded.
    pub fn div_int(self, s: i64) -> (r: Self)
        requires
            s != 0,
            !(self.0 == i64::MIN && s == -1),
        ensures
            r.raw() == truncating_div(self.raw(), s as int),
    {
        Fixed(crate::trunc_div_i64(self.0, s))
    }

    /// Quotient the other way round: the integer, promoted past both
    /// scales, divided by this value's stored word.
    pub fn int_div(s: i64, o: Self) -> (r: Self)
        requires
            2 * B < 63,
            o.0 != 0,
            !(i64_specs::signed_crop(s as int * pow2((2 * B) as nat)) == i64::MIN && o.0 == -1),
        ensures
            r.raw() == truncating_div(
                i64_specs::signed_crop(s as int * pow2((2 * B) as nat)) as int,
                o.raw(),
            ),
    {
        let p = pow2_i64(2 * B);
        Fixed(crate::trunc_div_i64(s.wrapping_mul(p), o.0))
    }

    /// Equality against a plain integer, promoted to the scale first.
    pub fn eq_int(self, s: i64) -> (r: bool)
        requires
            Self::bits_ok(),
        ensures
            r == (self.0 == Self::promote_spec(s)),
    {
        let p = pow2_i64(B);
        self.0 == s.wrapping_mul(p)
    }

    /// Order against a plain integer, promoted to the scale first.
    pub fn lt_int(self, s: i64) -> (r: bool)
        requires
            Self::bits_ok(),
        ensures
            r == (self.0 < Self::promote_spec(s)),
    {
        let p = pow2_i64(B);
        self.0 < s.wrapping_mul(p)
    }
}

impl<const B: usize> crate::Zero for Fixed<i64, B> {
    open spec fn zero_spec() -> Fixed<i64, B> {
        Fixed(0)
    }

    fn zero() -> Fixed<i64, B> {
        Fixed(0)
    }
}

impl<const B: usize> crate::One for Fixed<i64, B> {
    open spec fn one_spec() -> Fixed<i64, B> {
        // a scale of 63 or more fractional bits cannot represent one at all;
        // it degenerates to zero
        if B < 63 {
            Fixed(pow2(B as nat) as i64)
        } else {
            Fixed(0)
        }
    }

    fn one() -> (r: Fixed<i64, B>) {
        if B < 63 {
            Fixed(pow2_i64(B))
        } else {
            Fixed(0)
        }
    }
}

impl<const B: usize> crate::Scalar for Fixed<i64, B> {
    open spec fn add_spec(self, o: Self) -> Self {
        Fixed(i64_specs::wrapping_add(self.0, o.0))
    }

    open spec fn sub_spec(self, o: Self) -> Self {
        Fixed(i64_specs::wrapping_sub(self.0, o.0))
    }

    open spec fn mul_spec(self, o: Self) -> Self {
        if B < 63 {
            Fixed((i64_specs::wrapping_mul(self.0, o.0) as int / pow2(B as nat) as int) as i64)
        } else {
            Fixed(0)
        }
    }

    open spec fn neg_spec(self) -> Self {
        Fixed(i64_specs::wrapping_sub(0, self.0))
    }

    open spec fn div_spec(self, o: Self) -> Self {
        if B < 63 {
            let m = i64_specs::signed_crop(self.raw() * pow2(B as nat));
            if m == i64::MIN && o.0 == -1 {
                Fixed(i64::MIN)
            } else if o.0 == 0 {
                Fixed(0)
            } else {
                Fixed(truncating_div(m as int, o.raw()) as i64)
            }
        } else {
            Fixed(0)
        }
    }

    fn add(self, o: Self) -> Self {
        Fixed(self.0.wrapping_add(o.0))
    }

    fn sub(self, o: Self) -> Self {
        Fixed(self.0.wrapping_sub(o.0))
    }

    fn mul(self, o: Self) -> (r: Self) {
        if B < 63 {
            proof {
                vstd::arithmetic::power2::lemma_pow2_pos(B as nat);
            }
            let p = pow2_i64(B);
            let m = self.0.wrapping_mul(o.0);
            let q = floor_div_i64(m, p);
            proof {
                lemma_floor_div_in_range(m as int, p as int);
            }
            Fixed(q)
        } else {
            Fixed(0)
        }
    }

    fn neg(self) -> Self {
        Fixed(0i64.wrapping_sub(self.0))
    }

    fn div(self, o: Self) -> (r: Self) {
        if B < 63 {
            let p = pow2_i64(B);
            let m = self.0.wrapping_mul(p);
            if m == i64::MIN && o.0 == -1 {
                Fixed(i64::MIN)
            } else {
                Fixed(crate::trunc_div_i64(m, o.0))
            }
        } else {
            Fixed(0)
        }
    }

    fn eq_v(self, o: Self) -> bool {
        self.0 == o.0
    }
}

/// A quotient with a positive divisor, rounded toward negative infinity,
/// stays within the machine word its dividend came from.
proof fn lemma_floor_div_in_range(x: int, p: int)
    requires
        i64::MIN <= x <= i64::MAX,
        0 < p <= i64::MAX,
    ensures
        i64::MIN <= x / p <= i64::MAX,
{
    if x >= 0 {
        lemma_div_nonincreasing(x, p);
        lemma_div_pos_is_pos(x, p);
    } else {
        let q = x / p;
        let r = x % p;
        lemma_fundamental_div_mod(x, p);
        // dividing a negative value by a positive one moves it toward zero
        assert(x <= q <= 0) by (nonlinear_arith)
            requires
                x == p * q + r,
                0 <= r < p,
                p >= 1,
                x < 0,
        ;
    }
}

/// Adding a fixed-point value and then subtracting it again gives the first
/// operand back exactly, whatever the operands: sums and differences of
/// stored integers lose no precision, even where they wrap.
pub proof fn lemma_fixed_add_sub_cancel<const B: usize>(a: Fixed<i64, B>, b: Fixed<i64, B>)
    ensures
        crate::Scalar::sub_spec(crate::Scalar::add_spec(a, b), b) == a,
{
}

} // verus!
