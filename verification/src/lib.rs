//! Generic algebraic value types: complex numbers, quaternions, vectors,
//! matrices, multivectors, fixed-point and rational scalars, all written once
//! over an abstract scalar and instantiated per concrete representation.
//!
//! The rational and fixed-point engines are carried by the 64-bit machine
//! words (`i64` over `u64`, and `i64` respectively); the integer capability
//! covers the fixed widths from 8 to 128 bits.

use vstd::prelude::*;

mod complex;
pub use complex::Complex;
mod fixed;
pub use fixed::Fixed;
mod gcd;
mod modring;
mod mat2x2;
pub use mat2x2::Mat2x2;
mod mat3x3;
pub use mat3x3::Mat3x3;
mod mat4x4;
pub use mat4x4::Mat4x4;
mod reals;
pub use reals::Real;
mod float;
pub use float::Float;
mod euler;
pub use euler::Euler;
mod multivec2;
pub use multivec2::MultiVec2;
mod multivec3;
pub use multivec3::MultiVec3;
mod multivec4;
pub use multivec4::MultiVec4;
mod quaternion;
pub use quaternion::Quaternion;
mod rational;
pub use rational::Rational;
mod signed;
pub use signed::Signed;
mod unsigned;
pub use unsigned::Unsigned;
mod vec2;
pub use vec2::Vec2;
mod vec3;
pub use vec3::Vec3;
mod vec4;
pub use vec4::Vec4;

verus! {

/// Additive identity, one per concrete scalar representation.
pub trait Zero: Sized {
    /// The zero value of the type, as the contracts speak of it.
    spec fn zero_spec() -> Self;

    /// Returns the additive identity.
    fn zero() -> (r: Self)
        ensures
            r == Self::zero_spec(),
    ;
}

/// Multiplicative identity, one per concrete scalar representation.
pub trait One: Sized {
    /// The one value of the type, as the contracts speak of it.
    spec fn one_spec() -> Self;

    /// Returns the multiplicative identity.
    fn one() -> (r: Self)
        ensures
            r == Self::one_spec(),
    ;
}

impl Zero for i64 {
    open spec fn zero_spec() -> i64 {
        0
    }

    fn zero() -> i64 {
        0
    }
}

impl One for i64 {
    open spec fn one_spec() -> i64 {
        1
    }

    fn one() -> i64 {
        1
    }
}

impl Zero for usize {
    open spec fn zero_spec() -> usize {
        0
    }

    fn zero() -> usize {
        0
    }
}

impl One for usize {
    open spec fn one_spec() -> usize {
        1
    }

    fn one() -> usize {
        1
    }
}

impl Zero for u8 {
    open spec fn zero_spec() -> u8 {
        0
    }

    fn zero() -> u8 {
        0
    }
}

impl One for u8 {
    open spec fn one_spec() -> u8 {
        1
    }

    fn one() -> u8 {
        1
    }
}

impl Zero for u16 {
    open spec fn zero_spec() -> u16 {
        0
    }

    fn zero() -> u16 {
        0
    }
}

impl One for u16 {
    open spec fn one_spec() -> u16 {
        1
    }

    fn one() -> u16 {
        1
    }
}

impl Zero for u32 {
    open spec fn zero_spec() -> u32 {
        0
    }

    fn zero() -> u32 {
        0
    }
}

impl One for u32 {
    open spec fn one_spec() -> u32 {
        1
    }

    fn one() -> u32 {
        1
    }
}

impl Zero for u64 {
    open spec fn zero_spec() -> u64 {
        0
    }

    fn zero() -> u64 {
        0
    }
}

impl One for u64 {
    open spec fn one_spec() -> u64 {
        1
    }

    fn one() -> u64 {
        1
    }
}

impl Zero for u128 {
    open spec fn zero_spec() -> u128 {
        0
    }

    fn zero() -> u128 {
        0
    }
}

impl One for u128 {
    open spec fn one_spec() -> u128 {
        1
    }

    fn one() -> u128 {
        1
    }
}

impl Zero for isize {
    open spec fn zero_spec() -> isize {
        0
    }

    fn zero() -> isize {
        0
    }
}

impl One for isize {
    open spec fn one_spec() -> isize {
        1
    }

    fn one() -> isize {
        1
    }
}

impl Zero for i8 {
    open spec fn zero_spec() -> i8 {
        0
    }

    fn zero() -> i8 {
        0
    }
}

impl One for i8 {
    open spec fn one_spec() -> i8 {
        1
    }

    fn one() -> i8 {
        1
    }
}

impl Zero for i16 {
    open spec fn zero_spec() -> i16 {
        0
    }

    fn zero() -> i16 {
        0
    }
}

impl One for i16 {
    open spec fn one_spec() -> i16 {
        1
    }

    fn one() -> i16 {
        1
    }
}

impl Zero for i32 {
    open spec fn zero_spec() -> i32 {
        0
    }

    fn zero() -> i32 {
        0
    }
}

impl One for i32 {
    open spec fn one_spec() -> i32 {
        1
    }

    fn one() -> i32 {
        1
    }
}

impl Zero for i128 {
    open spec fn zero_spec() -> i128 {
        0
    }

    fn zero() -> i128 {
        0
    }
}

impl One for i128 {
    open spec fn one_spec() -> i128 {
        1
    }

    fn one() -> i128 {
        1
    }
}

/// A scalar representation the geometric types can be built over: a carrier
/// with total ring operations and exact equality. Overflowing representations
/// (machine integers, fixed point) wrap around, as the per-type `*_spec`
/// functions state.
pub trait Scalar: Zero + One + Sized + Copy {
    /// What `add` returns.
    spec fn add_spec(self, o: Self) -> Self;

    /// What `sub` returns.
    spec fn sub_spec(self, o: Self) -> Self;

    /// What `mul` returns.
    spec fn mul_spec(self, o: Self) -> Self;

    /// What `neg` returns.
    spec fn neg_spec(self) -> Self;

    /// What `div` returns where the divisor is not zero.
    spec fn div_spec(self, o: Self) -> Self;

    fn add(self, o: Self) -> (r: Self)
        ensures
            r == self.add_spec(o),
    ;

    fn sub(self, o: Self) -> (r: Self)
        ensures
            r == self.sub_spec(o),
    ;

    fn mul(self, o: Self) -> (r: Self)
        ensures
            r == self.mul_spec(o),
    ;

    fn neg(self) -> (r: Self)
        ensures
            r == self.neg_spec(),
    ;

    fn div(self, o: Self) -> (r: Self)
        requires
            o != Self::zero_spec(),
        ensures
            r == self.div_spec(o),
    ;

    /// Exact comparison of two scalar values.
    fn eq_v(self, o: Self) -> (r: bool)
        ensures
            r == (self == o),
    ;
}

impl Scalar for i64 {
    open spec fn add_spec(self, o: i64) -> i64 {
        vstd::wrapping::i64_specs::wrapping_add(self, o)
    }

    open spec fn sub_spec(self, o: i64) -> i64 {
        vstd::wrapping::i64_specs::wrapping_sub(self, o)
    }

    open spec fn mul_spec(self, o: i64) -> i64 {
        vstd::wrapping::i64_specs::wrapping_mul(self, o)
    }

    open spec fn neg_spec(self) -> i64 {
        vstd::wrapping::i64_specs::wrapping_sub(0, self)
    }

    open spec fn div_spec(self, o: i64) -> i64 {
        if o == 0 {
            0
        } else if self == i64::MIN && o == -1 {
            i64::MIN
        } else {
            truncating_div(self as int, o as int) as i64
        }
    }

    fn add(self, o: i64) -> i64 {
        self.wrapping_add(o)
    }

    fn sub(self, o: i64) -> i64 {
        self.wrapping_sub(o)
    }

    fn mul(self, o: i64) -> i64 {
        self.wrapping_mul(o)
    }

    fn neg(self) -> i64 {
        0i64.wrapping_sub(self)
    }

    fn div(self, o: i64) -> (r: i64) {
        if self == i64::MIN && o == -1 {
            i64::MIN
        } else {
            trunc_div_i64(self, o)
        }
    }

    fn eq_v(self, o: i64) -> bool {
        self == o
    }
}

/// Division of machine words rounding toward zero.
pub(crate) fn trunc_div_i64(a: i64, b: i64) -> (q: i64)
    requires
        b != 0,
        !(a == i64::MIN && b == -1),
    ensures
        q as int == truncating_div(a as int, b as int),
{
    proof {
        lemma_truncating_div_in_range(a as int, b as int);
    }
    match a.checked_div(b) {
        Some(q) => q,
        None => 0,  // unreachable: divisor is nonzero and overflow was handled
    }
}

/// Truncating division never leaves the range of the machine integer it came
/// from, except in the one overflowing case (the smallest value divided by
/// minus one), which is excluded here.
pub(crate) proof fn lemma_truncating_div_in_range(a: int, b: int)
    requires
        i64::MIN <= a <= i64::MAX,
        i64::MIN <= b <= i64::MAX,
        b != 0,
        !(a == i64::MIN && b == -1),
    ensures
        i64::MIN <= truncating_div(a, b) <= i64::MAX,
        truncating_div(a, b) == 0 || a != 0,
{
    if a == 0 {
    } else if a > 0 && b > 0 {
        vstd::arithmetic::div_mod::lemma_div_nonincreasing(a, b);
        vstd::arithmetic::div_mod::lemma_div_pos_is_pos(a, b);
    } else if a < 0 && b < 0 {
        vstd::arithmetic::div_mod::lemma_div_pos_is_pos(a * -1, b * -1);
        if b == -1 {
            vstd::arithmetic::div_mod::lemma_div_nonincreasing(a * -1, b * -1);
        } else {
            // the divisor is at least 2, so the quotient is at most half the dividend
            assert((a * -1) / (b * -1) <= (a * -1) / 2) by {
                vstd::arithmetic::div_mod::lemma_div_is_ordered_by_denominator(a * -1, 2, b * -1);
            }
            assert((a * -1) / 2 <= i64::MAX) by {
                vstd::arithmetic::div_mod::lemma_div_is_ordered(a * -1, (i64::MAX as int) * 2, 2);
            }
        }
    } else if a < 0 {
        vstd::arithmetic::div_mod::lemma_div_nonincreasing(a * -1, b);
        vstd::arithmetic::div_mod::lemma_div_pos_is_pos(a * -1, b);
    } else {
        vstd::arithmetic::div_mod::lemma_div_nonincreasing(a, b * -1);
        vstd::arithmetic::div_mod::lemma_div_pos_is_pos(a, b * -1);
    }
}

/// What is left after division rounding toward zero: it carries the
/// dividend's sign, as machine integer remainder does.
pub open spec fn truncating_rem(a: int, b: int) -> int {
    a - b * truncating_div(a, b)
}

/// Remainder of machine words, rounding the quotient toward zero.
pub(crate) fn trunc_rem_i64(a: i64, b: i64) -> (r: i64)
    requires
        b != 0,
        !(a == i64::MIN && b == -1),
    ensures
        r as int == truncating_rem(a as int, b as int),
{
    let ghost ai = a as int;
    let ghost bi = b as int;
    proof {
        if ai >= 0 && bi > 0 {
            vstd::arithmetic::div_mod::lemma_fundamental_div_mod(ai, bi);
        } else if ai >= 0 {
            vstd::arithmetic::div_mod::lemma_fundamental_div_mod(ai, -bi);
            assert(ai - bi * ((ai / (-bi)) * -1) == ai - (-bi) * (ai / (-bi)))
                by (nonlinear_arith);
        } else if bi > 0 {
            vstd::arithmetic::div_mod::lemma_fundamental_div_mod(-ai, bi);
            assert(ai - bi * (((ai * -1) / bi) * -1) == -((-ai) - bi * ((-ai) / bi))
                && (ai * -1) == -ai) by (nonlinear_arith);
        } else {
            vstd::arithmetic::div_mod::lemma_fundamental_div_mod(-ai, -bi);
            assert(ai - bi * ((ai * -1) / (bi * -1)) == -((-ai) - (-bi) * ((-ai) / (-bi)))
                && (ai * -1) == -ai && (bi * -1) == -bi) by (nonlinear_arith);
        }
    }
    match a.checked_rem(b) {
        Some(r) => r,
        None => 0,  // unreachable: divisor is nonzero and overflow was handled
    }
}

/// Division rounding toward zero, as machine integer division does.
pub open spec fn truncating_div(a: int, b: int) -> int {
    if a == 0 {
        0
    } else if a > 0 && b > 0 {
        a / b
    } else if a < 0 && b < 0 {
        (a * -1) / (b * -1)
    } else if a < 0 {
        ((a * -1) / b) * -1
    } else {
        (a / (b * -1)) * -1
    }
}

} // verus!
