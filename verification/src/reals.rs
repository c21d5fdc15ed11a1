//! The real-number capability: rounding, sign handling, powers, roots,
//! exponentials, logarithms and trigonometry, one surface shared by every
//! scalar representation that stands for a real number.
//!
//! Floating-point carriers live outside the verified core, so nothing is
//! assumed of what these operations compute: each is pinned only to its
//! own per-implementation specification function, the way the arithmetic
//! of [`crate::Scalar`] is. Formulas written over this trait are thereby
//! fixed as formulas, while the transcendental results themselves stay
//! abstract.

use vstd::prelude::*;

verus! {

/// Rounding, sign, power, exponential, logarithmic and trigonometric
/// operations of a scalar representation standing for a real number. Every
/// operation returns exactly what its own `*_spec` function names.
pub trait Real: Sized + Copy {
    /// What `min_value` returns.
    spec fn min_value_spec() -> Self;

    /// The least value of the representation.
    fn min_value() -> (r: Self)
        ensures
            r == Self::min_value_spec(),
    ;

    /// What `max_value` returns.
    spec fn max_value_spec() -> Self;

    /// The greatest value of the representation.
    fn max_value() -> (r: Self)
        ensures
            r == Self::max_value_spec(),
    ;

    /// What `floor` returns.
    spec fn floor_spec(self) -> Self;

    fn floor(self) -> (r: Self)
        ensures
            r == self.floor_spec(),
    ;

    /// What `ceil` returns.
    spec fn ceil_spec(self) -> Self;

    fn ceil(self) -> (r: Self)
        ensures
            r == self.ceil_spec(),
    ;

    /// What `round` returns.
    spec fn round_spec(self) -> Self;

    fn round(self) -> (r: Self)
        ensures
            r == self.round_spec(),
    ;

    /// What `trunc` returns.
    spec fn trunc_spec(self) -> Self;

    fn trunc(self) -> (r: Self)
        ensures
            r == self.trunc_spec(),
    ;

    /// What `fract` returns.
    spec fn fract_spec(self) -> Self;

    fn fract(self) -> (r: Self)
        ensures
            r == self.fract_spec(),
    ;

    /// What `abs` returns.
    spec fn abs_spec(self) -> Self;

    fn abs(self) -> (r: Self)
        ensures
            r == self.abs_spec(),
    ;

    /// What `signum` returns.
    spec fn signum_spec(self) -> Self;

    fn signum(self) -> (r: Self)
        ensures
            r == self.signum_spec(),
    ;

    /// What `copysign` returns.
    spec fn copysign_spec(self, sign: Self) -> Self;

    fn copysign(self, sign: Self) -> (r: Self)
        ensures
            r == self.copysign_spec(sign),
    ;

    /// What `mul_add` returns.
    spec fn mul_add_spec(self, a: Self, b: Self) -> Self;

    fn mul_add(self, a: Self, b: Self) -> (r: Self)
        ensures
            r == self.mul_add_spec(a, b),
    ;

    /// What `div_euclid` returns.
    spec fn div_euclid_spec(self, rhs: Self) -> Self;

    fn div_euclid(self, rhs: Self) -> (r: Self)
        ensures
            r == self.div_euclid_spec(rhs),
    ;

    /// What `rem_euclid` returns.
    spec fn rem_euclid_spec(self, rhs: Self) -> Self;

    fn rem_euclid(self, rhs: Self) -> (r: Self)
        ensures
            r == self.rem_euclid_spec(rhs),
    ;

    /// What `powi` returns.
    spec fn powi_spec(self, n: i32) -> Self;

    fn powi(self, n: i32) -> (r: Self)
        ensures
            r == self.powi_spec(n),
    ;

    /// What `powf` returns.
    spec fn powf_spec(self, n: Self) -> Self;

    fn powf(self, n: Self) -> (r: Self)
        ensures
            r == self.powf_spec(n),
    ;

    /// What `sqrt` returns.
    spec fn sqrt_spec(self) -> Self;

    fn sqrt(self) -> (r: Self)
        ensures
            r == self.sqrt_spec(),
    ;

    /// What `exp` returns.
    spec fn exp_spec(self) -> Self;

    fn exp(self) -> (r: Self)
        ensures
            r == self.exp_spec(),
    ;

    /// What `exp2` returns.
    spec fn exp2_spec(self) -> Self;

    fn exp2(self) -> (r: Self)
        ensures
            r == self.exp2_spec(),
    ;

    /// What `ln` returns.
    spec fn ln_spec(self) -> Self;

    fn ln(self) -> (r: Self)
        ensures
            r == self.ln_spec(),
    ;

    /// What `log` returns.
    spec fn log_spec(self, base: Self) -> Self;

    fn log(self, base: Self) -> (r: Self)
        ensures
            r == self.log_spec(base),
    ;

    /// What `log2` returns.
    spec fn log2_spec(self) -> Self;

    fn log2(self) -> (r: Self)
        ensures
            r == self.log2_spec(),
    ;

    /// What `log10` returns.
    spec fn log10_spec(self) -> Self;

    fn log10(self) -> (r: Self)
        ensures
            r == self.log10_spec(),
    ;

    /// What `cbrt` returns.
    spec fn cbrt_spec(self) -> Self;

    fn cbrt(self) -> (r: Self)
        ensures
            r == self.cbrt_spec(),
    ;

    /// What `hypot` returns.
    spec fn hypot_spec(self, other: Self) -> Self;

    fn hypot(self, other: Self) -> (r: Self)
        ensures
            r == self.hypot_spec(other),
    ;

    /// What `sin` returns.
    spec fn sin_spec(self) -> Self;

    fn sin(self) -> (r: Self)
        ensures
            r == self.sin_spec(),
    ;

    /// What `cos` returns.
    spec fn cos_spec(self) -> Self;

    fn cos(self) -> (r: Self)
        ensures
            r == self.cos_spec(),
    ;

    /// What `tan` returns.
    spec fn tan_spec(self) -> Self;

    fn tan(self) -> (r: Self)
        ensures
            r == self.tan_spec(),
    ;

    /// What `asin` returns.
    spec fn asin_spec(self) -> Self;

    fn asin(self) -> (r: Self)
        ensures
            r == self.asin_spec(),
    ;

    /// What `acos` returns.
    spec fn acos_spec(self) -> Self;

    fn acos(self) -> (r: Self)
        ensures
            r == self.acos_spec(),
    ;

    /// What `atan` returns.
    spec fn atan_spec(self) -> Self;

    fn atan(self) -> (r: Self)
        ensures
            r == self.atan_spec(),
    ;

    /// What `atan2` returns.
    spec fn atan2_spec(self, other: Self) -> Self;

    fn atan2(self, other: Self) -> (r: Self)
        ensures
            r == self.atan2_spec(other),
    ;

    /// What `sin_cos` returns.
    spec fn sin_cos_spec(self) -> (Self, Self);

    fn sin_cos(self) -> (r: (Self, Self))
        ensures
            r == self.sin_cos_spec(),
    ;

    /// What `exp_m1` returns.
    spec fn exp_m1_spec(self) -> Self;

    fn exp_m1(self) -> (r: Self)
        ensures
            r == self.exp_m1_spec(),
    ;

    /// What `ln_1p` returns.
    spec fn ln_1p_spec(self) -> Self;

    fn ln_1p(self) -> (r: Self)
        ensures
            r == self.ln_1p_spec(),
    ;

    /// What `sinh` returns.
    spec fn sinh_spec(self) -> Self;

    fn sinh(self) -> (r: Self)
        ensures
            r == self.sinh_spec(),
    ;

    /// What `cosh` returns.
    spec fn cosh_spec(self) -> Self;

    fn cosh(self) -> (r: Self)
        ensures
            r == self.cosh_spec(),
    ;

    /// What `tanh` returns.
    spec fn tanh_spec(self) -> Self;

    fn tanh(self) -> (r: Self)
        ensures
            r == self.tanh_spec(),
    ;

    /// What `asinh` returns.
    spec fn asinh_spec(self) -> Self;

    fn asinh(self) -> (r: Self)
        ensures
            r == self.asinh_spec(),
    ;

    /// What `acosh` returns.
    spec fn acosh_spec(self) -> Self;

    fn acosh(self) -> (r: Self)
        ensures
            r == self.acosh_spec(),
    ;

    /// What `atanh` returns.
    spec fn atanh_spec(self) -> Self;

    fn atanh(self) -> (r: Self)
        ensures
            r == self.atanh_spec(),
    ;

    /// What `is_sign_positive` returns.
    spec fn is_sign_positive_spec(self) -> bool;

    fn is_sign_positive(self) -> (r: bool)
        ensures
            r == self.is_sign_positive_spec(),
    ;

    /// What `is_sign_negative` returns.
    spec fn is_sign_negative_spec(self) -> bool;

    fn is_sign_negative(self) -> (r: bool)
        ensures
            r == self.is_sign_negative_spec(),
    ;

    /// What `inv` returns.
    spec fn inv_spec(self) -> Self;

    /// The multiplicative reciprocal.
    fn inv(self) -> (r: Self)
        ensures
            r == self.inv_spec(),
    ;

    /// What `to_degrees` returns.
    spec fn to_degrees_spec(self) -> Self;

    fn to_degrees(self) -> (r: Self)
        ensures
            r == self.to_degrees_spec(),
    ;

    /// What `to_radians` returns.
    spec fn to_radians_spec(self) -> Self;

    fn to_radians(self) -> (r: Self)
        ensures
            r == self.to_radians_spec(),
    ;

    /// What `max` returns.
    spec fn max_spec(self, other: Self) -> Self;

    fn max(self, other: Self) -> (r: Self)
        ensures
            r == self.max_spec(other),
    ;

    /// What `min` returns.
    spec fn min_spec(self, other: Self) -> Self;

    fn min(self, other: Self) -> (r: Self)
        ensures
            r == self.min_spec(other),
    ;

    /// What `clamp` returns.
    spec fn clamp_spec(self, lo: Self, hi: Self) -> Self;

    fn clamp(self, lo: Self, hi: Self) -> (r: Self)
        ensures
            r == self.clamp_spec(lo, hi),
    ;
}

} // verus!
