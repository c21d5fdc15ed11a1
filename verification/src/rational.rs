//! Exact fractions: a signed numerator over an unsigned, strictly positive
//! denominator, brought to lowest terms after every operation. The engine
//! is carried by the 64-bit words: `i64` numerators over `u64`
//! denominators.

use vstd::prelude::*;
use vstd::math::abs;
use vstd::arithmetic::power::pow;
use vstd::arithmetic::div_mod::{
    lemma_fundamental_div_mod, lemma_fundamental_div_mod_converse, lemma_div_nonincreasing,
};
use crate::gcd::{
    gcd_nat, divides, lemma_gcd_divides, lemma_gcd_zero, lemma_gcd_reduce, lemma_coprime_divides,
    lemma_divides_to_exact_div,
};

verus! {

/// A rational number: numerator `n` over denominator `d`. The denominator
/// lives in the unsigned domain and must be kept nonzero by callers; every
/// operation returns its result in lowest terms.
#[derive(Copy, Clone, Debug, PartialEq, Eq, Structural)]
pub struct Rational<T, UT> {
    pub n: T,
    pub d: UT,
}

/// The greatest common divisor of a signed numerator and a positive
/// denominator, as reduction uses it.
pub open spec fn rat_gcd(n: int, d: int) -> int {
    gcd_nat(abs(n), d as nat) as int
}

/// Numerator of `n / d` in lowest terms.
pub open spec fn canon_n(n: int, d: int) -> int {
    n / rat_gcd(n, d)
}

/// Denominator of `n / d` in lowest terms.
pub open spec fn canon_d(n: int, d: int) -> int {
    d / rat_gcd(n, d)
}

/// A numerator-denominator pair in lowest terms: positive denominator and no
/// common factor.
pub open spec fn reduced_pair(n: int, d: int) -> bool {
    d > 0 && gcd_nat(abs(n), d as nat) == 1
}

/// Everything reduction guarantees: the canonical pair is in lowest terms,
/// stands for the same value, and is no larger than what it came from.
pub proof fn lemma_canon(n: int, d: int)
    requires
        d > 0,
    ensures
        rat_gcd(n, d) > 0,
        reduced_pair(canon_n(n, d), canon_d(n, d)),
        canon_n(n, d) * d == n * canon_d(n, d),
        abs(canon_n(n, d)) == abs(n) as int / rat_gcd(n, d),
        abs(canon_n(n, d)) <= abs(n),
        0 < canon_d(n, d) <= d,
        n == 0 ==> canon_n(n, d) == 0 && canon_d(n, d) == 1,
        n > 0 ==> canon_n(n, d) > 0,
        n < 0 ==> canon_n(n, d) < 0,
{
    let g = rat_gcd(n, d);
    lemma_gcd_zero(abs(n), d as nat);
    lemma_gcd_reduce(abs(n), d as nat);
    let qa = abs(n) / (g as nat);
    let qd = (d as nat) / (g as nat);
    assert(qa * g == abs(n));
    assert(qd * g == d);
    assert(qd > 0) by (nonlinear_arith)
        requires
            qd * g == d,
            d > 0,
            g > 0,
            qd >= 0,
    ;
    assert(canon_d(n, d) == qd);
    lemma_div_nonincreasing(abs(n) as int, g);
    lemma_div_nonincreasing(d, g);
    if n >= 0 {
        assert(canon_n(n, d) == qa);
        if n > 0 {
            assert(qa > 0) by (nonlinear_arith)
                requires
                    qa * g == abs(n),
                    abs(n) > 0,
            ;
        }
    } else {
        // the numerator is negative: division by the common factor is exact,
        // so it carries the sign through unchanged
        assert(g * (-(qa as int)) + 0 == n) by (nonlinear_arith)
            requires
                qa * g == abs(n),
                abs(n) == -n,
        ;
        lemma_fundamental_div_mod_converse(n, g, -(qa as int), 0);
        assert(canon_n(n, d) == -(qa as int));
        assert(qa > 0) by (nonlinear_arith)
            requires
                qa * g == abs(n),
                abs(n) > 0,
        ;
    }
    assert(canon_n(n, d) * d == n * canon_d(n, d)) by (nonlinear_arith)
        requires
            qa * g == abs(n),
            qd * g == d,
            canon_d(n, d) == qd,
            abs(n) == if n >= 0 { n as int } else { -n },
            canon_n(n, d) == if n >= 0 { qa as int } else { -(qa as int) },
    ;
    if n == 0 {
        crate::gcd::lemma_gcd_with_zero(d as nat);
        assert(g == d);
        assert(qd == 1) by (nonlinear_arith)
            requires
                qd * g == d,
                g == d,
                d > 0,
        ;
    }
}

/// Two pairs in lowest terms that stand for the same value are the same
/// pair: lowest terms are unique.
pub proof fn lemma_reduced_unique(n1: int, d1: int, n2: int, d2: int)
    requires
        reduced_pair(n1, d1),
        reduced_pair(n2, d2),
        n1 * d2 == n2 * d1,
    ensures
        n1 == n2,
        d1 == d2,
{
    if n1 == 0 {
        assert(n2 * d1 == 0);
        assert(n2 == 0) by (nonlinear_arith)
            requires
                n2 * d1 == 0,
                d1 > 0,
        ;
        // a zero numerator in lowest terms forces denominator one
        crate::gcd::lemma_gcd_with_zero(d1 as nat);
        crate::gcd::lemma_gcd_with_zero(d2 as nat);
        assert(abs(0) == 0);
    } else {
        assert(n2 != 0) by (nonlinear_arith)
            requires
                n1 * d2 == n2 * d1,
                n1 != 0,
                d1 > 0,
                d2 > 0,
        ;
        // cross products of the magnitudes agree, so each denominator
        // divides the other through coprimality
        assert(abs(n1) * d2 == abs(n2) * d1) by (nonlinear_arith)
            requires
                n1 * d2 == n2 * d1,
                d1 > 0,
                d2 > 0,
                n1 != 0,
                n2 != 0,
        ;
        assert(divides(d1, abs(n1) as int * d2)) by {
            assert(abs(n1) as int * d2 == d1 * (abs(n2) as int));
        }
        assert(abs(n1) as int * d2 == (abs(n1) * (d2 as nat)) as int);
        lemma_coprime_divides(abs(n1), d1 as nat, d2 as nat);
        assert(divides(d2, abs(n2) as int * d1)) by {
            assert(abs(n2) as int * d1 == d2 * (abs(n1) as int));
        }
        assert(abs(n2) as int * d1 == (abs(n2) * (d1 as nat)) as int);
        lemma_coprime_divides(abs(n2), d2 as nat, d1 as nat);
        let k1 = choose|k: int| (d1 as int) == #[trigger] (d2 * k);
        let k2 = choose|k: int| (d2 as int) == #[trigger] (d1 * k);
        assert(d1 == d2) by (nonlinear_arith)
            requires
                d1 == d2 * k1,
                d2 == d1 * k2,
                d1 > 0,
                d2 > 0,
        ;
        assert(n1 == n2) by (nonlinear_arith)
            requires
                n1 * d2 == n2 * d1,
                d1 == d2,
                d1 > 0,
        ;
    }
}

/// `x` fits in the numerator's machine representation.
pub open spec fn in_i64(x: int) -> bool {
    i64::MIN <= x <= i64::MAX
}

/// `x` fits in the denominator's machine representation.
pub open spec fn in_u64(x: int) -> bool {
    0 <= x <= u64::MAX
}

/// The iterative Euclidean algorithm.
fn gcd_u64(a: u64, b: u64) -> (g: u64)
    ensures
        g as nat == gcd_nat(a as nat, b as nat),
{
    let mut x: u64 = a;
    let mut y: u64 = b;
    while y != 0
        invariant
            gcd_nat(x as nat, y as nat) == gcd_nat(a as nat, b as nat),
        decreases y,
    {
        let t = y;
        y = x % y;
        x = t;
    }
    x
}

/// Magnitude of a signed value in the unsigned domain.
pub(crate) fn abs_u64(n: i64) -> (r: u64)
    ensures
        r as int == abs(n as int),
{
    if n >= 0 {
        n as u64
    } else if n == i64::MIN {
        9223372036854775808u64
    } else {
        (-n) as u64
    }
}

/// The signed value whose magnitude is `m`, negated.
pub(crate) fn neg_of_u64(m: u64) -> (r: i64)
    requires
        m <= 9223372036854775808u64,
    ensures
        r as int == -(m as int),
{
    if m == 9223372036854775808u64 {
        i64::MIN
    } else {
        -(m as i64)
    }
}

impl Rational<i64, u64> {
    /// The numerator, as the mathematical integer it stands for.
    pub open spec fn num(self) -> int {
        self.n as int
    }

    /// The denominator, as the mathematical integer it stands for.
    pub open spec fn den(self) -> int {
        self.d as int
    }

    /// The denominator is positive; every operation demands this of its
    /// operands and maintains it in its result.
    pub open spec fn wf(self) -> bool {
        self.d > 0
    }

    /// The fraction is in lowest terms.
    pub open spec fn is_reduced(self) -> bool {
        reduced_pair(self.num(), self.den())
    }

    /// Constructs a fraction from its parts without reducing it. The
    /// denominator must not be zero; that is not checked anywhere later.
    pub fn new(n: i64, d: u64) -> (r: Self)
        requires
            d != 0,
        ensures
            r.num() == n as int,
            r.den() == d as int,
            r.wf(),
    {
        Rational { n, d }
    }

    /// Brings the fraction to lowest terms in place by dividing both parts
    /// by their greatest common divisor.
    pub fn _reduce(&mut self)
        requires
            old(self).wf(),
        ensures
            final(self).num() == canon_n(old(self).num(), old(self).den()),
            final(self).den() == canon_d(old(self).num(), old(self).den()),
            final(self).is_reduced(),
            final(self).num() * old(self).den() == old(self).num() * final(self).den(),
    {
        proof {
            lemma_canon(self.num(), self.den());
        }
        let (n, d) = reduce_parts(self.n, self.d);
        self.n = n;
        self.d = d;
    }

    /// The operands of a sum or difference are small enough that the cross
    /// products and the common denominator fit their machine words.
    pub open spec fn add_ok(self, o: Self) -> bool {
        &&& self.wf()
        &&& o.wf()
        &&& self.den() <= i64::MAX
        &&& o.den() <= i64::MAX
        &&& in_i64(self.num() * o.den())
        &&& in_i64(o.num() * self.den())
        &&& in_i64(self.num() * o.den() + o.num() * self.den())
        &&& in_i64(self.num() * o.den() - o.num() * self.den())
        &&& in_u64(self.den() * o.den())
    }

    /// Sum: cross-multiply to the common denominator, then reduce.
    pub fn add(self, o: Self) -> (r: Self)
        requires
            self.add_ok(o),
        ensures
            r.num() == canon_n(
                self.num() * o.den() + o.num() * self.den(),
                self.den() * o.den(),
            ),
            r.den() == canon_d(
                self.num() * o.den() + o.num() * self.den(),
                self.den() * o.den(),
            ),
            r.is_reduced(),
            abs(r.num()) <= abs(self.num() * o.den() + o.num() * self.den()),
            0 < r.den() <= self.den() * o.den(),
    {
        proof {
            vstd::arithmetic::mul::lemma_mul_strictly_positive(self.den(), o.den());
            lemma_canon(
                self.num() * o.den() + o.num() * self.den(),
                self.den() * o.den(),
            );
        }
        let a = self.n * (o.d as i64);
        let b = o.n * (self.d as i64);
        let (n, d) = reduce_parts(a + b, self.d * o.d);
        Rational { n, d }
    }

    /// Difference: cross-multiply to the common denominator, then reduce.
    pub fn sub(self, o: Self) -> (r: Self)
        requires
            self.add_ok(o),
        ensures
            r.num() == canon_n(
                self.num() * o.den() - o.num() * self.den(),
                self.den() * o.den(),
            ),
            r.den() == canon_d(
                self.num() * o.den() - o.num() * self.den(),
                self.den() * o.den(),
            ),
            r.is_reduced(),
            abs(r.num()) <= abs(self.num() * o.den() - o.num() * self.den()),
            0 < r.den() <= self.den() * o.den(),
    {
        proof {
            vstd::arithmetic::mul::lemma_mul_strictly_positive(self.den(), o.den());
            lemma_canon(
                self.num() * o.den() - o.num() * self.den(),
                self.den() * o.den(),
            );
        }
        let a = self.n * (o.d as i64);
        let b = o.n * (self.d as i64);
        let (n, d) = reduce_parts(a - b, self.d * o.d);
        Rational { n, d }
    }

    /// The operands of a product are small enough that both componentwise
    /// products fit their machine words.
    pub open spec fn mul_ok(self, o: Self) -> bool {
        &&& self.wf()
        &&& o.wf()
        &&& in_i64(self.num() * o.num())
        &&& in_u64(self.den() * o.den())
    }

    /// Product: multiply numerators and denominators, then reduce.
    pub fn mul(self, o: Self) -> (r: Self)
        requires
            self.mul_ok(o),
        ensures
            r.num() == canon_n(self.num() * o.num(), self.den() * o.den()),
            r.den() == canon_d(self.num() * o.num(), self.den() * o.den()),
            r.is_reduced(),
            abs(r.num()) <= abs(self.num() * o.num()),
            0 < r.den() <= self.den() * o.den(),
    {
        proof {
            vstd::arithmetic::mul::lemma_mul_strictly_positive(self.den(), o.den());
            lemma_canon(self.num() * o.num(), self.den() * o.den());
        }
        let (n, d) = reduce_parts(self.n * o.n, self.d * o.d);
        Rational { n, d }
    }

    /// The divisor's numerator is nonzero and the sign-folded cross products
    /// of a quotient fit their machine words.
    pub open spec fn div_ok(self, o: Self) -> bool {
        &&& self.wf()
        &&& o.wf()
        &&& o.num() != 0
        &&& o.den() <= i64::MAX
        &&& in_i64(self.num() * o.den())
        &&& in_i64(-(self.num() * o.den()))
        &&& in_u64(self.den() * abs(o.num()))
    }

    /// Quotient: multiply by the reciprocal of the divisor; a negative
    /// divisor numerator folds its sign into the result's numerator so the
    /// denominator stays positive.
    pub fn div(self, o: Self) -> (r: Self)
        requires
            self.div_ok(o),
        ensures
            r.num() == canon_n(
                if o.num() < 0 { -(self.num() * o.den()) } else { self.num() * o.den() },
                self.den() * abs(o.num()),
            ),
            r.den() == canon_d(
                if o.num() < 0 { -(self.num() * o.den()) } else { self.num() * o.den() },
                self.den() * abs(o.num()),
            ),
            r.is_reduced(),
            abs(r.num()) <= abs(self.num() * o.den()),
            0 < r.den() <= self.den() * abs(o.num()),
    {
        proof {
            assert(self.den() * abs(o.num()) > 0) by (nonlinear_arith)
                requires
                    self.den() > 0,
                    abs(o.num()) > 0,
            ;
            lemma_canon(
                if o.num() < 0 { -(self.num() * o.den()) } else { self.num() * o.den() },
                self.den() * abs(o.num()),
            );
        }
        let a = self.n * (o.d as i64);
        let m = abs_u64(o.n);
        let num = if o.n < 0 { -a } else { a };
        let (n, d) = reduce_parts(num, self.d * m);
        Rational { n, d }
    }

    /// Negation; the parts are otherwise left as they are.
    pub fn neg(self) -> (r: Self)
        requires
            self.num() != i64::MIN,
        ensures
            r.num() == -self.num(),
            r.den() == self.den(),
    {
        Rational { n: -self.n, d: self.d }
    }

    /// Reciprocal: the parts swap, and a negative numerator hands its sign
    /// to the new numerator so the denominator stays positive. Not defined
    /// on a zero numerator.
    pub fn inverse(&self) -> (r: Self)
        requires
            self.wf(),
            self.num() != 0,
            self.den() <= i64::MAX,
        ensures
            r.num() == if self.num() < 0 { -self.den() } else { self.den() },
            r.den() == abs(self.num()),
            r.wf(),
    {
        let m = abs_u64(self.n);
        if self.n < 0 {
            Rational { n: -(self.d as i64), d: m }
        } else {
            Rational { n: self.d as i64, d: m }
        }
    }

    /// Exact value equality by cross multiplication, with no float detour:
    /// `a/b == c/d` exactly when `a*d == c*b`.
    pub fn eq_value(self, o: Self) -> (r: bool)
        requires
            self.wf(),
            o.wf(),
            self.den() <= i64::MAX,
            o.den() <= i64::MAX,
            in_i64(self.num() * o.den()),
            in_i64(o.num() * self.den()),
        ensures
            r == (self.num() * o.den() == o.num() * self.den()),
    {
        self.n * (o.d as i64) == o.n * (self.d as i64)
    }

    /// Exact order by cross multiplication.
    pub fn lt(self, o: Self) -> (r: bool)
        requires
            self.wf(),
            o.wf(),
            self.den() <= i64::MAX,
            o.den() <= i64::MAX,
            in_i64(self.num() * o.den()),
            in_i64(o.num() * self.den()),
        ensures
            r == (self.num() * o.den() < o.num() * self.den()),
    {
        self.n * (o.d as i64) < o.n * (self.d as i64)
    }

    /// Equality against a plain integer: the fraction must be the integer
    /// itself over one.
    pub fn eq_int(self, s: i64) -> (r: bool)
        ensures
            r == (self.den() == 1 && self.num() == s as int),
    {
        self.d == 1 && self.n == s
    }

    /// The integer operand of a mixed sum or difference, promoted over
    /// this fraction's denominator, fits the machine words.
    pub open spec fn add_int_ok(self, s: i64) -> bool {
        &&& self.wf()
        &&& self.den() <= i64::MAX
        &&& in_i64(self.den() * s)
        &&& in_i64(self.num() + self.den() * s)
        &&& in_i64(self.num() - self.den() * s)
        &&& in_i64(self.den() * s - self.num())
    }

    /// Sum with a plain integer, read as that integer over one.
    pub fn add_int(self, s: i64) -> (r: Self)
        requires
            self.add_int_ok(s),
        ensures
            r.num() == canon_n(self.num() + self.den() * s, self.den()),
            r.den() == canon_d(self.num() + self.den() * s, self.den()),
            r.is_reduced(),
    {
        proof {
            lemma_canon(self.num() + self.den() * s, self.den());
        }
        let (n, d) = reduce_parts(self.n + (self.d as i64) * s, self.d);
        Rational { n, d }
    }

    /// Difference with a plain integer, read as that integer over one.
    pub fn sub_int(self, s: i64) -> (r: Self)
        requires
            self.add_int_ok(s),
        ensures
            r.num() == canon_n(self.num() - self.den() * s, self.den()),
            r.den() == canon_d(self.num() - self.den() * s, self.den()),
            r.is_reduced(),
    {
        proof {
            lemma_canon(self.num() - self.den() * s, self.den());
        }
        let (n, d) = reduce_parts(self.n - (self.d as i64) * s, self.d);
        Rational { n, d }
    }

    /// Difference the other way round: the integer minus this fraction.
    pub fn int_sub(s: i64, o: Self) -> (r: Self)
        requires
            o.add_int_ok(s),
        ensures
            r.num() == canon_n(o.den() * s - o.num(), o.den()),
            r.den() == canon_d(o.den() * s - o.num(), o.den()),
            r.is_reduced(),
    {
        proof {
            lemma_canon(o.den() * s - o.num(), o.den());
        }
        let (n, d) = reduce_parts((o.d as i64) * s - o.n, o.d);
        Rational { n, d }
    }

    /// Product with a plain integer, read as that integer over one.
    pub fn mul_int(self, s: i64) -> (r: Self)
        requires
            self.wf(),
            in_i64(self.num() * s),
        ensures
            r.num() == canon_n(self.num() * s, self.den()),
            r.den() == canon_d(self.num() * s, self.den()),
            r.is_reduced(),
    {
        proof {
            lemma_canon(self.num() * s, self.den());
        }
        let (n, d) = reduce_parts(self.n * s, self.d);
        Rational { n, d }
    }

    /// Quotient by a plain nonzero integer: a negative divisor folds its
    /// sign into the numerator so the denominator stays positive.
    pub fn div_int(self, s: i64) -> (r: Self)
        requires
            self.wf(),
            s != 0,
            self.num() != i64::MIN,
            in_u64(self.den() * abs(s as int)),
        ensures
            r.num() == canon_n(
                if s < 0 { -self.num() } else { self.num() },
                self.den() * abs(s as int),
            ),
            r.den() == canon_d(
                if s < 0 { -self.num() } else { self.num() },
                self.den() * abs(s as int),
            ),
            r.is_reduced(),
    {
        proof {
            assert(self.den() * abs(s as int) > 0) by (nonlinear_arith)
                requires
                    self.den() > 0,
                    abs(s as int) > 0,
            ;
            lemma_canon(
                if s < 0 { -self.num() } else { self.num() },
                self.den() * abs(s as int),
            );
        }
        let m = abs_u64(s);
        let n = if s < 0 {
            -self.n
        } else {
            self.n
        };
        let (n2, d2) = reduce_parts(n, self.d * m);
        Rational { n: n2, d: d2 }
    }

    /// Quotient the other way round: the integer divided by this fraction.
    pub fn int_div(s: i64, o: Self) -> (r: Self)
        requires
            o.wf(),
            o.num() != 0,
            o.den() <= i64::MAX,
            in_i64(s * o.den()),
            in_i64(-(s * o.den())),
        ensures
            r.num() == canon_n(
                if o.num() < 0 { -(s * o.den()) } else { s * o.den() },
                abs(o.num()) as int,
            ),
            r.den() == canon_d(
                if o.num() < 0 { -(s * o.den()) } else { s * o.den() },
                abs(o.num()) as int,
            ),
            r.is_reduced(),
    {
        proof {
            lemma_canon(
                if o.num() < 0 { -(s * o.den()) } else { s * o.den() },
                abs(o.num()) as int,
            );
        }
        let a = s * (o.d as i64);
        let m = abs_u64(o.n);
        let num = if o.n < 0 {
            -a
        } else {
            a
        };
        let (n, d) = reduce_parts(num, m);
        Rational { n, d }
    }

    /// Remainder by a plain integer: the numerator takes the machine
    /// remainder and the denominator stays, with no reduction.
    pub fn rem_int(self, s: i64) -> (r: Self)
        requires
            s != 0,
            !(self.num() == i64::MIN && s == -1),
        ensures
            r.num() == crate::truncating_rem(self.num(), s as int),
            r.den() == self.den(),
    {
        Rational { n: crate::trunc_rem_i64(self.n, s), d: self.d }
    }
}

impl crate::Unsigned for Rational<i64, u64> {
    open spec fn min_spec() -> Rational<i64, u64> {
        Rational { n: i64::MIN, d: 1u64 }
    }

    open spec fn max_spec() -> Rational<i64, u64> {
        Rational { n: i64::MAX, d: 1u64 }
    }

    open spec fn bits_spec() -> u32 {
        128
    }

    open spec fn pow_req(self, exp: u32) -> bool {
        &&& self.wf()
        &&& pow(abs(self.num()) as int, exp as nat) <= i64::MAX
        &&& pow(self.den(), exp as nat) <= u64::MAX
    }

    open spec fn pow_spec(self, exp: u32) -> Rational<i64, u64> {
        Rational {
            n: canon_n(pow(self.num(), exp as nat), pow(self.den(), exp as nat)) as i64,
            d: canon_d(pow(self.num(), exp as nat), pow(self.den(), exp as nat)) as u64,
        }
    }

    open spec fn div_euclid_req(self, rhs: Rational<i64, u64>) -> bool {
        self.div_ok(rhs)
    }

    open spec fn div_euclid_spec(self, rhs: Rational<i64, u64>) -> Rational<i64, u64> {
        Rational {
            n: canon_n(
                if rhs.num() < 0 { -(self.num() * rhs.den()) } else { self.num() * rhs.den() },
                self.den() * abs(rhs.num()),
            ) as i64,
            d: canon_d(
                if rhs.num() < 0 { -(self.num() * rhs.den()) } else { self.num() * rhs.den() },
                self.den() * abs(rhs.num()),
            ) as u64,
        }
    }

    open spec fn rem_euclid_req(self, rhs: Rational<i64, u64>) -> bool {
        &&& self.wf()
        &&& rhs.wf()
        &&& rhs.num() != 0
        &&& self.den() <= i64::MAX
        &&& rhs.den() <= i64::MAX
        &&& in_i64(self.num() * rhs.den())
        &&& in_i64(abs(rhs.num()) as int * self.den())
        &&& in_u64(self.den() * rhs.den())
    }

    open spec fn rem_euclid_spec(self, rhs: Rational<i64, u64>) -> Rational<i64, u64> {
        Rational {
            n: canon_n(
                (self.num() * rhs.den()) % (abs(rhs.num()) as int * self.den()),
                self.den() * rhs.den(),
            ) as i64,
            d: canon_d(
                (self.num() * rhs.den()) % (abs(rhs.num()) as int * self.den()),
                self.den() * rhs.den(),
            ) as u64,
        }
    }

    fn min_value() -> Rational<i64, u64> {
        Rational { n: i64::MIN, d: 1u64 }
    }

    fn max_value() -> Rational<i64, u64> {
        Rational { n: i64::MAX, d: 1u64 }
    }

    fn bits() -> u32 {
        128
    }

    /// Raises numerator and denominator to the power, then reduces.
    fn pow(self, exp: u32) -> (r: Rational<i64, u64>) {
        proof {
            if self.den() > 0 {
                vstd::arithmetic::power::lemma_pow_positive(self.den(), exp as nat);
            }
            lemma_canon(pow(self.num(), exp as nat), pow(self.den(), exp as nat));
            crate::unsigned::lemma_pow_abs(self.num(), exp as nat);
        }
        let np = crate::unsigned::pow_i64(self.n, exp);
        let dp = crate::unsigned::pow_u64(self.d, exp);
        let (n, d) = reduce_parts(np, dp);
        Rational { n, d }
    }

    /// Quotient of exact fractions: the same reduction as `div`.
    fn div_euclid(self, rhs: Rational<i64, u64>) -> (r: Rational<i64, u64>) {
        proof {
            assert(self.den() * abs(rhs.num()) > 0) by (nonlinear_arith)
                requires
                    self.den() > 0,
                    abs(rhs.num()) > 0,
            ;
            lemma_canon(
                if rhs.num() < 0 { -(self.num() * rhs.den()) } else { self.num() * rhs.den() },
                self.den() * abs(rhs.num()),
            );
        }
        self.div(rhs)
    }

    /// The Euclidean remainder of exact fractions: what is left after
    /// taking out the divisor's magnitude a whole number of times, always
    /// at least zero and below that magnitude.
    fn rem_euclid(self, rhs: Rational<i64, u64>) -> (r: Rational<i64, u64>) {
        let m2 = abs_u64(rhs.n);
        let q = (m2 * self.d) as i64;
        let p = self.n * (rhs.d as i64);
        proof {
            assert(m2 as int * self.den() > 0) by (nonlinear_arith)
                requires
                    m2 as int == abs(rhs.num()),
                    abs(rhs.num()) > 0,
                    self.den() > 0,
            ;
            vstd::arithmetic::div_mod::lemma_mod_bound(p as int, q as int);
            assert(self.den() * rhs.den() > 0) by (nonlinear_arith)
                requires
                    self.den() > 0,
                    rhs.den() > 0,
            ;
            lemma_canon((p as int) % (q as int), self.den() * rhs.den());
        }
        let rem = match p.checked_rem_euclid(q) {
            Some(r) => r,
            None => 0,  // unreachable: the divisor magnitude is positive
        };
        let (n, d) = reduce_parts(rem, self.d * rhs.d);
        Rational { n, d }
    }
}

/// Adding a fraction and then subtracting it again gives the first operand
/// back exactly, in the very same representation, provided that operand was
/// in lowest terms. The sum and difference are the canonical results that
/// `add` and `sub` return.
#[verifier::rlimit(60)]
pub proof fn lemma_add_sub_cancel(a: Rational<i64, u64>, b: Rational<i64, u64>)
    requires
        a.is_reduced(),
        b.wf(),
    ensures
        canon_n(
            canon_n(a.num() * b.den() + b.num() * a.den(), a.den() * b.den()) * b.den()
                - b.num() * canon_d(a.num() * b.den() + b.num() * a.den(), a.den() * b.den()),
            canon_d(a.num() * b.den() + b.num() * a.den(), a.den() * b.den()) * b.den(),
        ) == a.num(),
        canon_d(
            canon_n(a.num() * b.den() + b.num() * a.den(), a.den() * b.den()) * b.den()
                - b.num() * canon_d(a.num() * b.den() + b.num() * a.den(), a.den() * b.den()),
            canon_d(a.num() * b.den() + b.num() * a.den(), a.den() * b.den()) * b.den(),
        ) == a.den(),
{
    let n1 = a.num();
    let d1 = a.den();
    let n2 = b.num();
    let d2 = b.den();
    let nn = n1 * d2 + n2 * d1;
    let dd = d1 * d2;
    assert(dd > 0) by (nonlinear_arith)
        requires
            dd == d1 * d2,
            d1 > 0,
            d2 > 0,
    ;
    lemma_canon(nn, dd);
    let sn = canon_n(nn, dd);
    let sd = canon_d(nn, dd);
    let nn2 = sn * d2 - n2 * sd;
    let dd2 = sd * d2;
    assert(dd2 > 0) by (nonlinear_arith)
        requires
            dd2 == sd * d2,
            sd > 0,
            d2 > 0,
    ;
    lemma_canon(nn2, dd2);
    let tn = canon_n(nn2, dd2);
    let td = canon_d(nn2, dd2);
    // the difference stands for the first operand's value
    assert(nn2 * d1 == n1 * dd2) by (nonlinear_arith)
        requires
            sn * dd == nn * sd,
            nn == n1 * d2 + n2 * d1,
            dd == d1 * d2,
            nn2 == sn * d2 - n2 * sd,
            dd2 == sd * d2,
            d1 > 0,
            d2 > 0,
            sd > 0,
    ;
    assert(tn * d1 == n1 * td) by (nonlinear_arith)
        requires
            tn * dd2 == nn2 * td,
            nn2 * d1 == n1 * dd2,
            dd2 > 0,
    ;
    lemma_reduced_unique(tn, td, n1, d1);
}

/// Multiplying by a fraction with nonzero numerator and then dividing by it
/// again gives the first operand back exactly, in the very same
/// representation, provided that operand was in lowest terms. The product
/// and quotient are the canonical results that `mul` and `div` return.
pub proof fn lemma_mul_div_cancel(a: Rational<i64, u64>, b: Rational<i64, u64>)
    requires
        a.is_reduced(),
        b.wf(),
        b.num() != 0,
    ensures
        canon_n(
            if b.num() < 0 {
                -(canon_n(a.num() * b.num(), a.den() * b.den()) * b.den())
            } else {
                canon_n(a.num() * b.num(), a.den() * b.den()) * b.den()
            },
            canon_d(a.num() * b.num(), a.den() * b.den()) * abs(b.num()),
        ) == a.num(),
        canon_d(
            if b.num() < 0 {
                -(canon_n(a.num() * b.num(), a.den() * b.den()) * b.den())
            } else {
                canon_n(a.num() * b.num(), a.den() * b.den()) * b.den()
            },
            canon_d(a.num() * b.num(), a.den() * b.den()) * abs(b.num()),
        ) == a.den(),
{
    let n1 = a.num();
    let d1 = a.den();
    let n2 = b.num();
    let d2 = b.den();
    let nn = n1 * n2;
    let dd = d1 * d2;
    assert(dd > 0) by (nonlinear_arith)
        requires
            dd == d1 * d2,
            d1 > 0,
            d2 > 0,
    ;
    lemma_canon(nn, dd);
    let pn = canon_n(nn, dd);
    let pd = canon_d(nn, dd);
    let s: int = if n2 < 0 { -1 } else { 1 };
    let nn2 = if n2 < 0 { -(pn * d2) } else { pn * d2 };
    let dd2 = pd * abs(n2);
    if n2 < 0 {
        assert(nn2 == s * (pn * d2)) by (nonlinear_arith)
            requires
                s == -1,
                nn2 == -(pn * d2),
        ;
        assert(abs(n2) == s * n2) by (nonlinear_arith)
            requires
                s == -1,
                n2 < 0,
                abs(n2) == -n2,
        ;
    } else {
        assert(nn2 == s * (pn * d2)) by (nonlinear_arith)
            requires
                s == 1,
                nn2 == pn * d2,
        ;
    }
    assert(dd2 > 0) by (nonlinear_arith)
        requires
            dd2 == pd * abs(n2),
            pd > 0,
            abs(n2) > 0,
    ;
    lemma_canon(nn2, dd2);
    let tn = canon_n(nn2, dd2);
    let td = canon_d(nn2, dd2);
    // the quotient stands for the first operand's value
    assert(nn2 * d1 == n1 * dd2) by (nonlinear_arith)
        requires
            pn * dd == nn * pd,
            nn == n1 * n2,
            dd == d1 * d2,
            nn2 == s * (pn * d2),
            dd2 == pd * (s * n2),
            s * s == 1,
            d1 > 0,
            d2 > 0,
            pd > 0,
    ;
    assert(tn * d1 == n1 * td) by (nonlinear_arith)
        requires
            tn * dd2 == nn2 * td,
            nn2 * d1 == n1 * dd2,
            dd2 > 0,
    ;
    lemma_reduced_unique(tn, td, n1, d1);
}

/// Divides numerator and denominator by their greatest common divisor.
fn reduce_parts(n: i64, d: u64) -> (r: (i64, u64))
    requires
        d > 0,
    ensures
        r.0 as int == canon_n(n as int, d as int),
        r.1 as int == canon_d(n as int, d as int),
{
    proof {
        lemma_canon(n as int, d as int);
    }
    let m = abs_u64(n);
    let g = gcd_u64(m, d);
    let q = m / g;
    let dd = d / g;
    let num = if n >= 0 {
        q as i64
    } else {
        neg_of_u64(q)
    };
    (num, dd)
}

} // verus!
