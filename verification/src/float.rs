//! The floating-point capability: classification and representation limits
//! on top of the real-number surface. Floating-point carriers themselves
//! live outside the verified core; as with [`crate::Real`], each operation
//! is pinned only to its own per-implementation specification function.

use vstd::prelude::*;
use crate::Real;

verus! {

/// Classification and representation limits of a floating-point scalar.
pub trait Float: Real {
    /// What `digits` returns.
    spec fn digits_spec() -> u32;

    /// Decimal digits of guaranteed precision.
    fn digits() -> (r: u32)
        ensures
            r == Self::digits_spec(),
    ;

    /// What `mantissa_digits` returns.
    spec fn mantissa_digits_spec() -> u32;

    /// Bits of mantissa, the implicit one included.
    fn mantissa_digits() -> (r: u32)
        ensures
            r == Self::mantissa_digits_spec(),
    ;

    /// What `epsilon` returns.
    spec fn epsilon_spec() -> Self;

    /// The gap between one and the next representable value above it.
    fn epsilon() -> (r: Self)
        ensures
            r == Self::epsilon_spec(),
    ;

    /// What `min_positive` returns.
    spec fn min_positive_spec() -> Self;

    /// The least positive normal value.
    fn min_positive() -> (r: Self)
        ensures
            r == Self::min_positive_spec(),
    ;

    /// What `min_exp` returns.
    spec fn min_exp_spec() -> i32;

    /// The least normal binary exponent.
    fn min_exp() -> (r: i32)
        ensures
            r == Self::min_exp_spec(),
    ;

    /// What `max_exp` returns.
    spec fn max_exp_spec() -> i32;

    /// The greatest normal binary exponent.
    fn max_exp() -> (r: i32)
        ensures
            r == Self::max_exp_spec(),
    ;

    /// What `min_10_exp` returns.
    spec fn min_10_exp_spec() -> i32;

    /// The least normal decimal exponent.
    fn min_10_exp() -> (r: i32)
        ensures
            r == Self::min_10_exp_spec(),
    ;

    /// What `max_10_exp` returns.
    spec fn max_10_exp_spec() -> i32;

    /// The greatest normal decimal exponent.
    fn max_10_exp() -> (r: i32)
        ensures
            r == Self::max_10_exp_spec(),
    ;

    /// What `nan` returns.
    spec fn nan_spec() -> Self;

    /// A quiet not-a-number value.
    fn nan() -> (r: Self)
        ensures
            r == Self::nan_spec(),
    ;

    /// What `infinity` returns.
    spec fn infinity_spec() -> Self;

    /// Positive infinity.
    fn infinity() -> (r: Self)
        ensures
            r == Self::infinity_spec(),
    ;

    /// What `neg_infinity` returns.
    spec fn neg_infinity_spec() -> Self;

    /// Negative infinity.
    fn neg_infinity() -> (r: Self)
        ensures
            r == Self::neg_infinity_spec(),
    ;

    /// What `radix` returns.
    spec fn radix_spec() -> u32;

    /// The base of the representation.
    fn radix() -> (r: u32)
        ensures
            r == Self::radix_spec(),
    ;

    /// What `is_nan` returns.
    spec fn is_nan_spec(self) -> bool;

    fn is_nan(self) -> (r: bool)
        ensures
            r == self.is_nan_spec(),
    ;

    /// What `is_infinite` returns.
    spec fn is_infinite_spec(self) -> bool;

    fn is_infinite(self) -> (r: bool)
        ensures
            r == self.is_infinite_spec(),
    ;

    /// What `is_finite` returns.
    spec fn is_finite_spec(self) -> bool;

    fn is_finite(self) -> (r: bool)
        ensures
            r == self.is_finite_spec(),
    ;

    /// What `is_subnormal` returns.
    spec fn is_subnormal_spec(self) -> bool;

    fn is_subnormal(self) -> (r: bool)
        ensures
            r == self.is_subnormal_spec(),
    ;

    /// What `is_normal` returns.
    spec fn is_normal_spec(self) -> bool;

    fn is_normal(self) -> (r: bool)
        ensures
            r == self.is_normal_spec(),
    ;
}

} // verus!
