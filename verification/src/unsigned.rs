//! The integer capability: range bounds, bit width, powers and Euclidean
//! division and remainder, one surface across the integer widths, their
//! signed counterparts, and exact fractions.

use vstd::prelude::*;
use vstd::math::abs;
use vstd::arithmetic::power::{pow, lemma_pow_increases};
use vstd::arithmetic::div_mod::{lemma_fundamental_div_mod, lemma_fundamental_div_mod_converse};
use crate::rational::{abs_u64, neg_of_u64};

verus! {

/// Euclidean quotient: the unique `q` with `a == q * b + r` and
/// `0 <= r < |b|`.
pub open spec fn euclid_div(a: int, b: int) -> int {
    if b > 0 {
        a / b
    } else {
        -(a / (-b))
    }
}

/// Euclidean remainder: always in `[0, |b|)`.
pub open spec fn euclid_mod(a: int, b: int) -> int {
    a % (abs(b) as int)
}

/// Range bounds, bit width, powers, and Euclidean division and remainder
/// of an integer-like scalar representation.
pub trait Unsigned: Sized + Copy {
    /// The least value of the representation.
    spec fn min_spec() -> Self;

    /// The greatest value of the representation.
    spec fn max_spec() -> Self;

    /// How many bits the representation holds.
    spec fn bits_spec() -> u32;

    /// When raising to a power stays representable.
    spec fn pow_req(self, exp: u32) -> bool;

    /// What `pow` returns.
    spec fn pow_spec(self, exp: u32) -> Self;

    /// When the Euclidean quotient exists and stays representable.
    spec fn div_euclid_req(self, rhs: Self) -> bool;

    /// What `div_euclid` returns.
    spec fn div_euclid_spec(self, rhs: Self) -> Self;

    /// When the Euclidean remainder exists and stays representable.
    spec fn rem_euclid_req(self, rhs: Self) -> bool;

    /// What `rem_euclid` returns.
    spec fn rem_euclid_spec(self, rhs: Self) -> Self;

    /// The least value.
    fn min_value() -> (r: Self)
        ensures
            r == Self::min_spec(),
    ;

    /// The greatest value.
    fn max_value() -> (r: Self)
        ensures
            r == Self::max_spec(),
    ;

    /// The bit width.
    fn bits() -> (r: u32)
        ensures
            r == Self::bits_spec(),
    ;

    /// Raises to a power by repeated multiplication.
    fn pow(self, exp: u32) -> (r: Self)
        requires
            self.pow_req(exp),
        ensures
            r == self.pow_spec(exp),
    ;

    /// The Euclidean quotient.
    fn div_euclid(self, rhs: Self) -> (r: Self)
        requires
            self.div_euclid_req(rhs),
        ensures
            r == self.div_euclid_spec(rhs),
    ;

    /// The Euclidean remainder.
    fn rem_euclid(self, rhs: Self) -> (r: Self)
        requires
            self.rem_euclid_req(rhs),
        ensures
            r == self.rem_euclid_spec(rhs),
    ;
}

/// Raises an unsigned word to a power by repeated multiplication; the
/// final power must fit the word, and then every step fits too.
pub(crate) fn pow_u64(b: u64, e: u32) -> (r: u64)
    requires
        pow(b as int, e as nat) <= u64::MAX,
    ensures
        r as int == pow(b as int, e as nat),
{
    let mut acc: u64 = 1;
    let mut i: u32 = 0;
    proof {
        reveal(pow);
    }
    while i < e
        invariant
            i <= e,
            acc as int == pow(b as int, i as nat),
            pow(b as int, e as nat) <= u64::MAX,
        decreases e - i,
    {
        proof {
            reveal(pow);
            assert(pow(b as int, (i + 1) as nat) == b as int * pow(b as int, i as nat));
            if b == 0 {
                assert(0int * pow(0, i as nat) == 0) by (nonlinear_arith);
            } else {
                lemma_pow_increases(b as nat, (i + 1) as nat, e as nat);
            }
            assert(acc as int * b as int == b as int * pow(b as int, i as nat))
                by (nonlinear_arith)
                requires
                    acc as int == pow(b as int, i as nat),
            ;
        }
        acc = acc * b;
        i = i + 1;
    }
    acc
}

/// The power of a signed base is the power of its magnitude, negated for a
/// negative base at an odd exponent.
pub(crate) proof fn lemma_pow_abs(b: int, e: nat)
    ensures
        pow(b, e) == if b < 0 && e % 2 == 1 {
            -pow(abs(b) as int, e)
        } else {
            pow(abs(b) as int, e)
        },
    decreases e,
{
    reveal(pow);
    if e > 0 {
        lemma_pow_abs(b, (e - 1) as nat);
        let m = abs(b) as int;
        let p = pow(m, (e - 1) as nat);
        assert(pow(m, e) == m * p);
        if b < 0 {
            if e % 2 == 1 {
                assert(b * p == -(m * p)) by (nonlinear_arith)
                    requires
                        m == -b,
                ;
            } else {
                assert(b * (-p) == m * p) by (nonlinear_arith)
                    requires
                        m == -b,
                ;
            }
        }
    }
}

/// Raises a signed word to a power; the power of the magnitude must fit
/// the positive half of the word.
pub(crate) fn pow_i64(b: i64, e: u32) -> (r: i64)
    requires
        pow(abs(b as int) as int, e as nat) <= i64::MAX,
    ensures
        r as int == pow(b as int, e as nat),
{
    proof {
        lemma_pow_abs(b as int, e as nat);
        if abs(b as int) > 0 {
            vstd::arithmetic::power::lemma_pow_positive(abs(b as int) as int, e as nat);
        } else {
            reveal(pow);
        }
    }
    let m = abs_u64(b);
    let mp = pow_u64(m, e);
    if b < 0 && e % 2 == 1 {
        -(mp as i64)
    } else {
        mp as i64
    }
}

/// The Euclidean quotient and remainder recompose the dividend, and the
/// remainder lies below the divisor's magnitude.
pub proof fn lemma_euclid_div_mod(a: int, b: int)
    requires
        b != 0,
    ensures
        a == b * euclid_div(a, b) + euclid_mod(a, b),
        0 <= euclid_mod(a, b) < abs(b),
{
    if b > 0 {
        lemma_fundamental_div_mod(a, b);
    } else {
        lemma_fundamental_div_mod(a, -b);
        assert(b * (-(a / (-b))) == (-b) * (a / (-b))) by (nonlinear_arith);
    }
}

/// For operands of a signed word excluding the one overflowing case, the
/// Euclidean quotient stays within that word.
pub proof fn lemma_euclid_div_in_range(a: int, b: int, hi: int)
    requires
        hi >= 1,
        -hi - 1 <= a <= hi,
        -hi - 1 <= b <= hi,
        b != 0,
        !(a == -hi - 1 && b == -1),
    ensures
        -hi - 1 <= euclid_div(a, b) <= hi,
        0 <= euclid_mod(a, b) <= hi,
{
    let q = euclid_div(a, b);
    let r = euclid_mod(a, b);
    lemma_euclid_div_mod(a, b);
    if q > hi {
        if b > 0 {
            // the dividend would have to exceed its upper bound
            assert(false) by (nonlinear_arith)
                requires
                    b >= 1,
                    q >= hi + 1,
                    a == b * q + r,
                    r >= 0,
                    a <= hi,
                    hi >= 1,
            ;
        } else {
            // only the one excluded overflowing pair reaches this far
            assert(false) by (nonlinear_arith)
                requires
                    b <= -1,
                    q >= hi + 1,
                    a == b * q + r,
                    0 <= r <= -b - 1,
                    a >= -hi - 1,
                    !(a == -hi - 1 && b == -1),
                    hi >= 1,
            ;
        }
    }
    if q < -hi - 1 {
        if b > 0 {
            // the dividend would have to undershoot its lower bound
            assert(false) by (nonlinear_arith)
                requires
                    b >= 1,
                    q <= -hi - 2,
                    a == b * q + r,
                    0 <= r <= b - 1,
                    a >= -hi - 1,
                    hi >= 1,
            ;
        } else {
            // the product of two negatives would push the dividend past
            // its upper bound
            assert(false) by (nonlinear_arith)
                requires
                    b <= -1,
                    q <= -hi - 2,
                    a == b * q + r,
                    r >= 0,
                    a <= hi,
                    hi >= 1,
            ;
        }
    }
    assert(r <= hi);
}

/// Euclidean quotient and remainder of signed words, built on the division
/// of their magnitudes. The divisor must be nonzero, and the one
/// overflowing quotient (the smallest value by minus one) is excluded.
pub(crate) fn euclid_div_rem_i64(a: i64, b: i64) -> (qr: (i64, i64))
    requires
        b != 0,
        !(a == i64::MIN && b == -1),
    ensures
        qr.0 as int == euclid_div(a as int, b as int),
        qr.1 as int == euclid_mod(a as int, b as int),
{
    let ma = abs_u64(a);
    let mb = abs_u64(b);
    let qm = ma / mb;
    let rm = ma % mb;
    let ghost ai = a as int;
    let ghost bi = b as int;
    let ghost mbi = mb as int;
    proof {
        lemma_fundamental_div_mod(ma as int, mbi);
        vstd::arithmetic::div_mod::lemma_div_nonincreasing(ma as int, mbi);
        vstd::arithmetic::div_mod::lemma_div_pos_is_pos(ma as int, mbi);
    }
    if a >= 0 {
        // the magnitude division is already Euclidean
        proof {
            lemma_fundamental_div_mod_converse(ai, mbi, qm as int, rm as int);
        }
        if b > 0 {
            (qm as i64, rm as i64)
        } else {
            (neg_of_u64(qm), rm as i64)
        }
    } else if rm == 0 {
        // the division is exact, so only the quotient's sign is in question
        proof {
            assert(mbi * (-(qm as int)) + 0 == ai) by (nonlinear_arith)
                requires
                    ma as int == mbi * (qm as int) + rm,
                    rm == 0,
                    ai == -(ma as int),
            ;
            lemma_fundamental_div_mod_converse(ai, mbi, -(qm as int), 0);
        }
        if b > 0 {
            (neg_of_u64(qm), 0)
        } else {
            proof {
                // the smallest value by minus one is excluded, so the
                // magnitude quotient fits the positive half of the word
                assert(mbi >= 2 ==> qm as int <= (ma as int) / 2) by {
                    if mbi >= 2 {
                        vstd::arithmetic::div_mod::lemma_div_is_ordered_by_denominator(
                            ma as int,
                            2,
                            mbi,
                        );
                    }
                }
                assert((ma as int) / 2 <= i64::MAX) by {
                    vstd::arithmetic::div_mod::lemma_div_is_ordered(
                        ma as int,
                        (i64::MAX as int) * 2,
                        2,
                    );
                }
            }
            (qm as i64, 0)
        }
    } else {
        // a negative dividend with a remainder steps one divisor further
        // down, leaving the remainder positive
        proof {
            assert(mbi * (-(qm as int) - 1) + (mbi - rm) == ai) by (nonlinear_arith)
                requires
                    ma as int == mbi * (qm as int) + rm,
                    ai == -(ma as int),
            ;
            lemma_fundamental_div_mod_converse(ai, mbi, -(qm as int) - 1, mbi - rm as int);
        }
        proof {
            // a remainder is only possible with a divisor magnitude of at
            // least two, which keeps the stepped quotient in range
            assert(ma as nat % 1nat == 0) by (nonlinear_arith);
            assert(mbi >= 2);
            assert(qm as int <= (ma as int) / 2) by {
                vstd::arithmetic::div_mod::lemma_div_is_ordered_by_denominator(
                    ma as int,
                    2,
                    mbi,
                );
            }
            assert((ma as int) / 2 <= i64::MAX) by {
                vstd::arithmetic::div_mod::lemma_div_is_ordered(
                    ma as int,
                    (i64::MAX as int) * 2,
                    2,
                );
            }
        }
        let r = (mb - rm) as i64;
        if b > 0 {
            (-(qm as i64) - 1, r)
        } else {
            (qm as i64 + 1, r)
        }
    }
}

impl Unsigned for u8 {
    open spec fn min_spec() -> u8 {
        0
    }

    open spec fn max_spec() -> u8 {
        u8::MAX
    }

    open spec fn bits_spec() -> u32 {
        8
    }

    open spec fn pow_req(self, exp: u32) -> bool {
        pow(self as int, exp as nat) <= u8::MAX
    }

    open spec fn pow_spec(self, exp: u32) -> u8 {
        pow(self as int, exp as nat) as u8
    }

    open spec fn div_euclid_req(self, rhs: u8) -> bool {
        rhs != 0
    }

    open spec fn div_euclid_spec(self, rhs: u8) -> u8 {
        (self as int / rhs as int) as u8
    }

    open spec fn rem_euclid_req(self, rhs: u8) -> bool {
        rhs != 0
    }

    open spec fn rem_euclid_spec(self, rhs: u8) -> u8 {
        (self as int % rhs as int) as u8
    }

    fn min_value() -> u8 {
        0
    }

    fn max_value() -> u8 {
        u8::MAX
    }

    fn bits() -> u32 {
        8
    }

    fn pow(self, exp: u32) -> (r: u8) {
        pow_u64(self as u64, exp) as u8
    }

    fn div_euclid(self, rhs: u8) -> (r: u8) {
        self / rhs
    }

    fn rem_euclid(self, rhs: u8) -> (r: u8) {
        self % rhs
    }
}

impl Unsigned for u16 {
    open spec fn min_spec() -> u16 {
        0
    }

    open spec fn max_spec() -> u16 {
        u16::MAX
    }

    open spec fn bits_spec() -> u32 {
        16
    }

    open spec fn pow_req(self, exp: u32) -> bool {
        pow(self as int, exp as nat) <= u16::MAX
    }

    open spec fn pow_spec(self, exp: u32) -> u16 {
        pow(self as int, exp as nat) as u16
    }

    open spec fn div_euclid_req(self, rhs: u16) -> bool {
        rhs != 0
    }

    open spec fn div_euclid_spec(self, rhs: u16) -> u16 {
        (self as int / rhs as int) as u16
    }

    open spec fn rem_euclid_req(self, rhs: u16) -> bool {
        rhs != 0
    }

    open spec fn rem_euclid_spec(self, rhs: u16) -> u16 {
        (self as int % rhs as int) as u16
    }

    fn min_value() -> u16 {
        0
    }

    fn max_value() -> u16 {
        u16::MAX
    }

    fn bits() -> u32 {
        16
    }

    fn pow(self, exp: u32) -> (r: u16) {
        pow_u64(self as u64, exp) as u16
    }

    fn div_euclid(self, rhs: u16) -> (r: u16) {
        self / rhs
    }

    fn rem_euclid(self, rhs: u16) -> (r: u16) {
        self % rhs
    }
}

impl Unsigned for u32 {
    open spec fn min_spec() -> u32 {
        0
    }

    open spec fn max_spec() -> u32 {
        u32::MAX
    }

    open spec fn bits_spec() -> u32 {
        32
    }

    open spec fn pow_req(self, exp: u32) -> bool {
        pow(self as int, exp as nat) <= u32::MAX
    }

    open spec fn pow_spec(self, exp: u32) -> u32 {
        pow(self as int, exp as nat) as u32
    }

    open spec fn div_euclid_req(self, rhs: u32) -> bool {
        rhs != 0
    }

    open spec fn div_euclid_spec(self, rhs: u32) -> u32 {
        (self as int / rhs as int) as u32
    }

    open spec fn rem_euclid_req(self, rhs: u32) -> bool {
        rhs != 0
    }

    open spec fn rem_euclid_spec(self, rhs: u32) -> u32 {
        (self as int % rhs as int) as u32
    }

    fn min_value() -> u32 {
        0
    }

    fn max_value() -> u32 {
        u32::MAX
    }

    fn bits() -> u32 {
        32
    }

    fn pow(self, exp: u32) -> (r: u32) {
        pow_u64(self as u64, exp) as u32
    }

    fn div_euclid(self, rhs: u32) -> (r: u32) {
        self / rhs
    }

    fn rem_euclid(self, rhs: u32) -> (r: u32) {
        self % rhs
    }
}

impl Unsigned for u64 {
    open spec fn min_spec() -> u64 {
        0
    }

    open spec fn max_spec() -> u64 {
        u64::MAX
    }

    open spec fn bits_spec() -> u32 {
        64
    }

    open spec fn pow_req(self, exp: u32) -> bool {
        pow(self as int, exp as nat) <= u64::MAX
    }

    open spec fn pow_spec(self, exp: u32) -> u64 {
        pow(self as int, exp as nat) as u64
    }

    open spec fn div_euclid_req(self, rhs: u64) -> bool {
        rhs != 0
    }

    open spec fn div_euclid_spec(self, rhs: u64) -> u64 {
        (self as int / rhs as int) as u64
    }

    open spec fn rem_euclid_req(self, rhs: u64) -> bool {
        rhs != 0
    }

    open spec fn rem_euclid_spec(self, rhs: u64) -> u64 {
        (self as int % rhs as int) as u64
    }

    fn min_value() -> u64 {
        0
    }

    fn max_value() -> u64 {
        u64::MAX
    }

    fn bits() -> u32 {
        64
    }

    fn pow(self, exp: u32) -> (r: u64) {
        pow_u64(self, exp)
    }

    fn div_euclid(self, rhs: u64) -> (r: u64) {
        self / rhs
    }

    fn rem_euclid(self, rhs: u64) -> (r: u64) {
        self % rhs
    }
}

impl Unsigned for i8 {
    open spec fn min_spec() -> i8 {
        i8::MIN
    }

    open spec fn max_spec() -> i8 {
        i8::MAX
    }

    open spec fn bits_spec() -> u32 {
        8
    }

    open spec fn pow_req(self, exp: u32) -> bool {
        pow(abs(self as int) as int, exp as nat) <= i8::MAX
    }

    open spec fn pow_spec(self, exp: u32) -> i8 {
        pow(self as int, exp as nat) as i8
    }

    open spec fn div_euclid_req(self, rhs: i8) -> bool {
        rhs != 0 && !(self == i8::MIN && rhs == -1)
    }

    open spec fn div_euclid_spec(self, rhs: i8) -> i8 {
        euclid_div(self as int, rhs as int) as i8
    }

    open spec fn rem_euclid_req(self, rhs: i8) -> bool {
        rhs != 0 && !(self == i8::MIN && rhs == -1)
    }

    open spec fn rem_euclid_spec(self, rhs: i8) -> i8 {
        euclid_mod(self as int, rhs as int) as i8
    }

    fn min_value() -> i8 {
        i8::MIN
    }

    fn max_value() -> i8 {
        i8::MAX
    }

    fn bits() -> u32 {
        8
    }

    fn pow(self, exp: u32) -> (r: i8) {
        proof {
            lemma_pow_abs(self as int, exp as nat);
        }
        pow_i64(self as i64, exp) as i8
    }

    fn div_euclid(self, rhs: i8) -> (r: i8) {
        proof {
            lemma_euclid_div_in_range(self as int, rhs as int, i8::MAX as int);
        }
        euclid_div_rem_i64(self as i64, rhs as i64).0 as i8
    }

    fn rem_euclid(self, rhs: i8) -> (r: i8) {
        proof {
            lemma_euclid_div_in_range(self as int, rhs as int, i8::MAX as int);
        }
        euclid_div_rem_i64(self as i64, rhs as i64).1 as i8
    }
}

impl Unsigned for i16 {
    open spec fn min_spec() -> i16 {
        i16::MIN
    }

    open spec fn max_spec() -> i16 {
        i16::MAX
    }

    open spec fn bits_spec() -> u32 {
        16
    }

    open spec fn pow_req(self, exp: u32) -> bool {
        pow(abs(self as int) as int, exp as nat) <= i16::MAX
    }

    open spec fn pow_spec(self, exp: u32) -> i16 {
        pow(self as int, exp as nat) as i16
    }

    open spec fn div_euclid_req(self, rhs: i16) -> bool {
        rhs != 0 && !(self == i16::MIN && rhs == -1)
    }

    open spec fn div_euclid_spec(self, rhs: i16) -> i16 {
        euclid_div(self as int, rhs as int) as i16
    }

    open spec fn rem_euclid_req(self, rhs: i16) -> bool {
        rhs != 0 && !(self == i16::MIN && rhs == -1)
    }

    open spec fn rem_euclid_spec(self, rhs: i16) -> i16 {
        euclid_mod(self as int, rhs as int) as i16
    }

    fn min_value() -> i16 {
        i16::MIN
    }

    fn max_value() -> i16 {
        i16::MAX
    }

    fn bits() -> u32 {
        16
    }

    fn pow(self, exp: u32) -> (r: i16) {
        proof {
            lemma_pow_abs(self as int, exp as nat);
        }
        pow_i64(self as i64, exp) as i16
    }

    fn div_euclid(self, rhs: i16) -> (r: i16) {
        proof {
            lemma_euclid_div_in_range(self as int, rhs as int, i16::MAX as int);
        }
        euclid_div_rem_i64(self as i64, rhs as i64).0 as i16
    }

    fn rem_euclid(self, rhs: i16) -> (r: i16) {
        proof {
            lemma_euclid_div_in_range(self as int, rhs as int, i16::MAX as int);
        }
        euclid_div_rem_i64(self as i64, rhs as i64).1 as i16
    }
}

impl Unsigned for i32 {
    open spec fn min_spec() -> i32 {
        i32::MIN
    }

    open spec fn max_spec() -> i32 {
        i32::MAX
    }

    open spec fn bits_spec() -> u32 {
        32
    }

    open spec fn pow_req(self, exp: u32) -> bool {
        pow(abs(self as int) as int, exp as nat) <= i32::MAX
    }

    open spec fn pow_spec(self, exp: u32) -> i32 {
        pow(self as int, exp as nat) as i32
    }

    open spec fn div_euclid_req(self, rhs: i32) -> bool {
        rhs != 0 && !(self == i32::MIN && rhs == -1)
    }

    open spec fn div_euclid_spec(self, rhs: i32) -> i32 {
        euclid_div(self as int, rhs as int) as i32
    }

    open spec fn rem_euclid_req(self, rhs: i32) -> bool {
        rhs != 0 && !(self == i32::MIN && rhs == -1)
    }

    open spec fn rem_euclid_spec(self, rhs: i32) -> i32 {
        euclid_mod(self as int, rhs as int) as i32
    }

    fn min_value() -> i32 {
        i32::MIN
    }

    fn max_value() -> i32 {
        i32::MAX
    }

    fn bits() -> u32 {
        32
    }

    fn pow(self, exp: u32) -> (r: i32) {
        proof {
            lemma_pow_abs(self as int, exp as nat);
        }
        pow_i64(self as i64, exp) as i32
    }

    fn div_euclid(self, rhs: i32) -> (r: i32) {
        proof {
            lemma_euclid_div_in_range(self as int, rhs as int, i32::MAX as int);
        }
        euclid_div_rem_i64(self as i64, rhs as i64).0 as i32
    }

    fn rem_euclid(self, rhs: i32) -> (r: i32) {
        proof {
            lemma_euclid_div_in_range(self as int, rhs as int, i32::MAX as int);
        }
        euclid_div_rem_i64(self as i64, rhs as i64).1 as i32
    }
}

impl Unsigned for i64 {
    open spec fn min_spec() -> i64 {
        i64::MIN
    }

    open spec fn max_spec() -> i64 {
        i64::MAX
    }

    open spec fn bits_spec() -> u32 {
        64
    }

    open spec fn pow_req(self, exp: u32) -> bool {
        pow(abs(self as int) as int, exp as nat) <= i64::MAX
    }

    open spec fn pow_spec(self, exp: u32) -> i64 {
        pow(self as int, exp as nat) as i64
    }

    open spec fn div_euclid_req(self, rhs: i64) -> bool {
        rhs != 0 && !(self == i64::MIN && rhs == -1)
    }

    open spec fn div_euclid_spec(self, rhs: i64) -> i64 {
        euclid_div(self as int, rhs as int) as i64
    }

    open spec fn rem_euclid_req(self, rhs: i64) -> bool {
        rhs != 0 && !(self == i64::MIN && rhs == -1)
    }

    open spec fn rem_euclid_spec(self, rhs: i64) -> i64 {
        euclid_mod(self as int, rhs as int) as i64
    }

    fn min_value() -> i64 {
        i64::MIN
    }

    fn max_value() -> i64 {
        i64::MAX
    }

    fn bits() -> u32 {
        64
    }

    fn pow(self, exp: u32) -> (r: i64) {
        proof {
            lemma_pow_abs(self as int, exp as nat);
        }
        pow_i64(self, exp)
    }

    fn div_euclid(self, rhs: i64) -> (r: i64) {
        proof {
            lemma_euclid_div_in_range(self as int, rhs as int, i64::MAX as int);
        }
        euclid_div_rem_i64(self as i64, rhs as i64).0 as i64
    }

    fn rem_euclid(self, rhs: i64) -> (r: i64) {
        proof {
            lemma_euclid_div_in_range(self as int, rhs as int, i64::MAX as int);
        }
        euclid_div_rem_i64(self as i64, rhs as i64).1 as i64
    }
}


/// Magnitude of a wide signed value in the unsigned domain.
fn abs_u128(n: i128) -> (r: u128)
    ensures
        r as int == abs(n as int),
{
    if n >= 0 {
        n as u128
    } else if n == i128::MIN {
        170141183460469231731687303715884105728u128
    } else {
        (-n) as u128
    }
}

/// The wide signed value whose magnitude is `m`, negated.
fn neg_of_u128(m: u128) -> (r: i128)
    requires
        m <= 170141183460469231731687303715884105728u128,
    ensures
        r as int == -(m as int),
{
    if m == 170141183460469231731687303715884105728u128 {
        i128::MIN
    } else {
        -(m as i128)
    }
}

/// Raises a wide unsigned word to a power by repeated multiplication; the
/// final power must fit the word, and then every step fits too.
fn pow_u128(b: u128, e: u32) -> (r: u128)
    requires
        pow(b as int, e as nat) <= u128::MAX,
    ensures
        r as int == pow(b as int, e as nat),
{
    let mut acc: u128 = 1;
    let mut i: u32 = 0;
    proof {
        reveal(pow);
    }
    while i < e
        invariant
            i <= e,
            acc as int == pow(b as int, i as nat),
            pow(b as int, e as nat) <= u128::MAX,
        decreases e - i,
    {
        proof {
            reveal(pow);
            assert(pow(b as int, (i + 1) as nat) == b as int * pow(b as int, i as nat));
            if b == 0 {
                assert(0int * pow(0, i as nat) == 0) by (nonlinear_arith);
            } else {
                lemma_pow_increases(b as nat, (i + 1) as nat, e as nat);
            }
            assert(acc as int * b as int == b as int * pow(b as int, i as nat))
                by (nonlinear_arith)
                requires
                    acc as int == pow(b as int, i as nat),
            ;
        }
        acc = acc * b;
        i = i + 1;
    }
    acc
}

/// Raises a wide signed word to a power; the power of the magnitude must
/// fit the positive half of the word.
fn pow_i128(b: i128, e: u32) -> (r: i128)
    requires
        pow(abs(b as int) as int, e as nat) <= i128::MAX,
    ensures
        r as int == pow(b as int, e as nat),
{
    proof {
        lemma_pow_abs(b as int, e as nat);
        if abs(b as int) > 0 {
            vstd::arithmetic::power::lemma_pow_positive(abs(b as int) as int, e as nat);
        } else {
            reveal(pow);
        }
    }
    let m = abs_u128(b);
    let mp = pow_u128(m, e);
    if b < 0 && e % 2 == 1 {
        -(mp as i128)
    } else {
        mp as i128
    }
}

/// Euclidean quotient and remainder of wide signed words, built on the
/// division of their magnitudes, as for the narrower words.
fn euclid_div_rem_i128(a: i128, b: i128) -> (qr: (i128, i128))
    requires
        b != 0,
        !(a == i128::MIN && b == -1),
    ensures
        qr.0 as int == euclid_div(a as int, b as int),
        qr.1 as int == euclid_mod(a as int, b as int),
{
    let ma = abs_u128(a);
    let mb = abs_u128(b);
    let qm = ma / mb;
    let rm = ma % mb;
    let ghost ai = a as int;
    let ghost mbi = mb as int;
    proof {
        lemma_fundamental_div_mod(ma as int, mbi);
        vstd::arithmetic::div_mod::lemma_div_nonincreasing(ma as int, mbi);
        vstd::arithmetic::div_mod::lemma_div_pos_is_pos(ma as int, mbi);
    }
    if a >= 0 {
        proof {
            lemma_fundamental_div_mod_converse(ai, mbi, qm as int, rm as int);
        }
        if b > 0 {
            (qm as i128, rm as i128)
        } else {
            (neg_of_u128(qm), rm as i128)
        }
    } else if rm == 0 {
        proof {
            assert(mbi * (-(qm as int)) + 0 == ai) by (nonlinear_arith)
                requires
                    ma as int == mbi * (qm as int) + rm,
                    rm == 0,
                    ai == -(ma as int),
            ;
            lemma_fundamental_div_mod_converse(ai, mbi, -(qm as int), 0);
        }
        if b > 0 {
            (neg_of_u128(qm), 0)
        } else {
            proof {
                assert(mbi >= 2 ==> qm as int <= (ma as int) / 2) by {
                    if mbi >= 2 {
                        vstd::arithmetic::div_mod::lemma_div_is_ordered_by_denominator(
                            ma as int,
                            2,
                            mbi,
                        );
                    }
                }
                assert((ma as int) / 2 <= i128::MAX) by {
                    vstd::arithmetic::div_mod::lemma_div_is_ordered(
                        ma as int,
                        (i128::MAX as int) * 2,
                        2,
                    );
                }
            }
            (qm as i128, 0)
        }
    } else {
        proof {
            assert(mbi * (-(qm as int) - 1) + (mbi - rm) == ai) by (nonlinear_arith)
                requires
                    ma as int == mbi * (qm as int) + rm,
                    ai == -(ma as int),
            ;
            lemma_fundamental_div_mod_converse(ai, mbi, -(qm as int) - 1, mbi - rm as int);
            assert(ma as nat % 1nat == 0) by (nonlinear_arith);
            assert(mbi >= 2);
            assert(qm as int <= (ma as int) / 2) by {
                vstd::arithmetic::div_mod::lemma_div_is_ordered_by_denominator(
                    ma as int,
                    2,
                    mbi,
                );
            }
            assert((ma as int) / 2 <= i128::MAX) by {
                vstd::arithmetic::div_mod::lemma_div_is_ordered(
                    ma as int,
                    (i128::MAX as int) * 2,
                    2,
                );
            }
        }
        let r = (mb - rm) as i128;
        if b > 0 {
            (-(qm as i128) - 1, r)
        } else {
            (qm as i128 + 1, r)
        }
    }
}

impl Unsigned for u128 {
    open spec fn min_spec() -> u128 {
        0
    }

    open spec fn max_spec() -> u128 {
        u128::MAX
    }

    open spec fn bits_spec() -> u32 {
        128
    }

    open spec fn pow_req(self, exp: u32) -> bool {
        pow(self as int, exp as nat) <= u128::MAX
    }

    open spec fn pow_spec(self, exp: u32) -> u128 {
        pow(self as int, exp as nat) as u128
    }

    open spec fn div_euclid_req(self, rhs: u128) -> bool {
        rhs != 0
    }

    open spec fn div_euclid_spec(self, rhs: u128) -> u128 {
        (self as int / rhs as int) as u128
    }

    open spec fn rem_euclid_req(self, rhs: u128) -> bool {
        rhs != 0
    }

    open spec fn rem_euclid_spec(self, rhs: u128) -> u128 {
        (self as int % rhs as int) as u128
    }

    fn min_value() -> u128 {
        0
    }

    fn max_value() -> u128 {
        u128::MAX
    }

    fn bits() -> u32 {
        128
    }

    fn pow(self, exp: u32) -> (r: u128) {
        pow_u128(self, exp)
    }

    fn div_euclid(self, rhs: u128) -> (r: u128) {
        self / rhs
    }

    fn rem_euclid(self, rhs: u128) -> (r: u128) {
        self % rhs
    }
}

impl Unsigned for i128 {
    open spec fn min_spec() -> i128 {
        i128::MIN
    }

    open spec fn max_spec() -> i128 {
        i128::MAX
    }

    open spec fn bits_spec() -> u32 {
        128
    }

    open spec fn pow_req(self, exp: u32) -> bool {
        pow(abs(self as int) as int, exp as nat) <= i128::MAX
    }

    open spec fn pow_spec(self, exp: u32) -> i128 {
        pow(self as int, exp as nat) as i128
    }

    open spec fn div_euclid_req(self, rhs: i128) -> bool {
        rhs != 0 && !(self == i128::MIN && rhs == -1)
    }

    open spec fn div_euclid_spec(self, rhs: i128) -> i128 {
        euclid_div(self as int, rhs as int) as i128
    }

    open spec fn rem_euclid_req(self, rhs: i128) -> bool {
        rhs != 0 && !(self == i128::MIN && rhs == -1)
    }

    open spec fn rem_euclid_spec(self, rhs: i128) -> i128 {
        euclid_mod(self as int, rhs as int) as i128
    }

    fn min_value() -> i128 {
        i128::MIN
    }

    fn max_value() -> i128 {
        i128::MAX
    }

    fn bits() -> u32 {
        128
    }

    fn pow(self, exp: u32) -> (r: i128) {
        proof {
            lemma_pow_abs(self as int, exp as nat);
        }
        pow_i128(self, exp)
    }

    fn div_euclid(self, rhs: i128) -> (r: i128) {
        proof {
            lemma_euclid_div_in_range(self as int, rhs as int, i128::MAX as int);
        }
        euclid_div_rem_i128(self, rhs).0
    }

    fn rem_euclid(self, rhs: i128) -> (r: i128) {
        proof {
            lemma_euclid_div_in_range(self as int, rhs as int, i128::MAX as int);
        }
        euclid_div_rem_i128(self, rhs).1
    }
}

} // verus!
