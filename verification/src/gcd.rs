//! Greatest common divisors: the Euclidean algorithm, its specification, and
//! the facts about it that reduction of rationals to lowest terms rests on.

use vstd::prelude::*;
use vstd::arithmetic::div_mod::{
    lemma_fundamental_div_mod, lemma_fundamental_div_mod_converse, lemma_mod_multiples_vanish,
    lemma_small_mod,
};
use vstd::arithmetic::mul::lemma_mul_strictly_positive;

verus! {

/// The greatest common divisor, by the Euclidean recursion. `gcd_nat(a, 0)`
/// is `a`, so `gcd_nat(0, 0) == 0`.
pub open spec fn gcd_nat(a: nat, b: nat) -> nat
    decreases b,
{
    if b == 0 {
        a
    } else {
        gcd_nat(b, a % b)
    }
}

/// `d` divides `n`.
pub open spec fn divides(d: int, n: int) -> bool {
    exists|k: int| n == #[trigger] (d * k)
}

/// Whatever divides `b` and `a % b` also divides `a`.
proof fn lemma_divides_mod_back(c: int, a: int, b: int)
    requires
        b > 0,
        divides(c, b),
        divides(c, a % b),
    ensures
        divides(c, a),
{
    let k1 = choose|k: int| b == #[trigger] (c * k);
    let k2 = choose|k: int| a % b == #[trigger] (c * k);
    lemma_fundamental_div_mod(a, b);
    assert(a == (c * k1) * (a / b) + c * k2);
    assert((c * k1) * (a / b) + c * k2 == c * (k1 * (a / b) + k2)) by (nonlinear_arith);
}

/// Whatever divides `a` and `b` also divides `a % b`.
proof fn lemma_divides_mod_forward(c: int, a: int, b: int)
    requires
        b > 0,
        divides(c, a),
        divides(c, b),
    ensures
        divides(c, a % b),
{
    let k1 = choose|k: int| a == #[trigger] (c * k);
    let k2 = choose|k: int| b == #[trigger] (c * k);
    lemma_fundamental_div_mod(a, b);
    assert(a % b == a - b * (a / b));
    assert(c * k1 - (c * k2) * (a / b) == c * (k1 - k2 * (a / b))) by (nonlinear_arith);
}

/// The greatest common divisor divides both of its arguments.
pub proof fn lemma_gcd_divides(a: nat, b: nat)
    ensures
        divides(gcd_nat(a, b) as int, a as int),
        divides(gcd_nat(a, b) as int, b as int),
    decreases b,
{
    if b == 0 {
        assert(a == a as int * 1);
        assert(0 == a as int * 0);
    } else {
        lemma_gcd_divides(b, a % b);
        lemma_divides_mod_back(gcd_nat(b, a % b) as int, a as int, b as int);
    }
}

/// Any common divisor of the two arguments divides their greatest common
/// divisor.
pub proof fn lemma_gcd_greatest(a: nat, b: nat, c: int)
    requires
        divides(c, a as int),
        divides(c, b as int),
    ensures
        divides(c, gcd_nat(a, b) as int),
    decreases b,
{
    if b == 0 {
    } else {
        lemma_divides_mod_forward(c, a as int, b as int);
        lemma_gcd_greatest(b, a % b, c);
    }
}

/// The greatest common divisor of two values is zero only when both are.
pub proof fn lemma_gcd_zero(a: nat, b: nat)
    ensures
        (gcd_nat(a, b) == 0) <==> (a == 0 && b == 0),
    decreases b,
{
    if b == 0 {
    } else {
        lemma_gcd_zero(b, a % b);
    }
}

/// A greatest common divisor with zero on either side is the other argument.
pub proof fn lemma_gcd_with_zero(d: nat)
    requires
        d > 0,
    ensures
        gcd_nat(0, d) == d,
        gcd_nat(d, 0) == d,
{
    assert(gcd_nat(0, d) == gcd_nat(d, 0nat % d));
    assert(0nat % d == 0) by (nonlinear_arith)
        requires
            d > 0,
    ;
}

/// Scaling both arguments scales the greatest common divisor.
pub proof fn lemma_gcd_scale(a: nat, b: nat, c: nat)
    ensures
        gcd_nat(a * c, b * c) == gcd_nat(a, b) * c,
    decreases b,
{
    if c == 0 {
        assert(a * 0 == 0) by (nonlinear_arith);
        assert(b * 0 == 0) by (nonlinear_arith);
        assert(gcd_nat(a, b) * 0 == 0) by (nonlinear_arith);
    } else if b == 0 {
        assert(b * c == 0) by (nonlinear_arith)
            requires
                b == 0,
        ;
    } else {
        let q = a as int / b as int;
        let r = (a % b) as int;
        lemma_mul_strictly_positive(b as int, c as int);
        // (a * c) % (b * c) == (a % b) * c
        lemma_fundamental_div_mod(a as int, b as int);
        assert(a * c == (b * c) * q + r * c) by (nonlinear_arith)
            requires
                a == b * q + r,
        ;
        lemma_mod_multiples_vanish(q, r * c, (b * c) as int);
        assert(r * c < b * c) by (nonlinear_arith)
            requires
                0 <= r < b,
                c > 0,
        ;
        assert(r * c >= 0) by (nonlinear_arith)
            requires
                r >= 0,
                c > 0,
        ;
        lemma_small_mod((r * c) as nat, (b * c) as nat);
        assert((a * c) % (b * c) == (a % b) * c);
        lemma_gcd_scale(b, a % b, c);
    }
}

/// Dividing two values by their greatest common divisor leaves values whose
/// greatest common divisor is one.
pub proof fn lemma_gcd_reduce(a: nat, b: nat)
    requires
        gcd_nat(a, b) > 0,
    ensures
        a % gcd_nat(a, b) == 0,
        b % gcd_nat(a, b) == 0,
        gcd_nat(a / gcd_nat(a, b), b / gcd_nat(a, b)) == 1,
        (a / gcd_nat(a, b)) * gcd_nat(a, b) == a,
        (b / gcd_nat(a, b)) * gcd_nat(a, b) == b,
{
    let g = gcd_nat(a, b);
    lemma_gcd_divides(a, b);
    lemma_divides_to_exact_div(g as int, a as int);
    lemma_divides_to_exact_div(g as int, b as int);
    lemma_gcd_scale(a / g, b / g, g);
    assert(gcd_nat(a, b) == gcd_nat(a / g, b / g) * g);
    if gcd_nat(a / g, b / g) != 1 {
        if gcd_nat(a / g, b / g) == 0 {
            assert(g == 0 * g) by (nonlinear_arith)
                requires
                    g == gcd_nat(a / g, b / g) * g,
                    gcd_nat(a / g, b / g) == 0,
            ;
        } else {
            assert(gcd_nat(a / g, b / g) * g >= 2 * g) by (nonlinear_arith)
                requires
                    gcd_nat(a / g, b / g) >= 2,
                    g > 0,
            ;
        }
    }
}

/// A positive divisor goes into its multiple exactly: the remainder is zero
/// and quotient times divisor gives the multiple back.
pub proof fn lemma_divides_to_exact_div(d: int, n: int)
    requires
        d > 0,
        n >= 0,
        divides(d, n),
    ensures
        n % d == 0,
        (n / d) * d == n,
        n / d >= 0,
{
    let k = choose|k: int| n == #[trigger] (d * k);
    assert(k >= 0) by (nonlinear_arith)
        requires
            d > 0,
            d * k >= 0,
    ;
    lemma_fundamental_div_mod_converse(n, d, k, 0);
    lemma_fundamental_div_mod(n, d);
}

/// If `a` and `b` have no common factor and `b` divides `a * c`, then `b`
/// divides `c` itself.
pub proof fn lemma_coprime_divides(a: nat, b: nat, c: nat)
    requires
        gcd_nat(a, b) == 1,
        b > 0,
        divides(b as int, (a * c) as int),
    ensures
        divides(b as int, c as int),
{
    lemma_gcd_scale(a, b, c);
    assert(gcd_nat(a * c, b * c) == c) by {
        assert(1 * c == c) by (nonlinear_arith);
    }
    assert(divides(b as int, (b * c) as int)) by {
        assert(b * c == b as int * c as int);
    }
    lemma_gcd_greatest(a * c, b * c, b as int);
}

} // verus!
