//! Congruence modulo the machine word: the facts that let ring identities
//! survive wraparound. Two expressions congruent modulo two to the
//! sixty-fourth power and both stored in a signed word are the same value,
//! so any identity of integers carries over to the wrapping operations.

use vstd::prelude::*;
use vstd::wrapping::i64_specs;
use crate::gcd::divides;

verus! {

/// The size of the signed word's value space.
pub open spec fn word_span() -> int {
    0x1_0000_0000_0000_0000
}

/// `a` and `b` agree modulo the word span.
pub open spec fn wrap_cong(a: int, b: int) -> bool {
    divides(word_span(), a - b)
}

/// Congruence holds of a value and itself.
pub proof fn lemma_cong_refl(a: int)
    ensures
        wrap_cong(a, a),
{
    assert(a - a == word_span() * 0) by (nonlinear_arith);
}

/// Congruence runs both ways.
pub proof fn lemma_cong_sym(a: int, b: int)
    requires
        wrap_cong(a, b),
    ensures
        wrap_cong(b, a),
{
    let k = choose|k: int| a - b == #[trigger] (word_span() * k);
    assert(b - a == word_span() * (-k)) by (nonlinear_arith)
        requires
            a - b == word_span() * k,
    ;
}

/// Congruence chains.
pub proof fn lemma_cong_trans(a: int, b: int, c: int)
    requires
        wrap_cong(a, b),
        wrap_cong(b, c),
    ensures
        wrap_cong(a, c),
{
    let k1 = choose|k: int| a - b == #[trigger] (word_span() * k);
    let k2 = choose|k: int| b - c == #[trigger] (word_span() * k);
    assert(a - c == word_span() * (k1 + k2)) by (nonlinear_arith)
        requires
            a - b == word_span() * k1,
            b - c == word_span() * k2,
    ;
}

/// Sums of congruent values are congruent.
pub proof fn lemma_cong_add(a: int, b: int, c: int, d: int)
    requires
        wrap_cong(a, b),
        wrap_cong(c, d),
    ensures
        wrap_cong(a + c, b + d),
{
    let k1 = choose|k: int| a - b == #[trigger] (word_span() * k);
    let k2 = choose|k: int| c - d == #[trigger] (word_span() * k);
    assert((a + c) - (b + d) == word_span() * (k1 + k2)) by (nonlinear_arith)
        requires
            a - b == word_span() * k1,
            c - d == word_span() * k2,
    ;
}

/// Differences of congruent values are congruent.
pub proof fn lemma_cong_sub(a: int, b: int, c: int, d: int)
    requires
        wrap_cong(a, b),
        wrap_cong(c, d),
    ensures
        wrap_cong(a - c, b - d),
{
    let k1 = choose|k: int| a - b == #[trigger] (word_span() * k);
    let k2 = choose|k: int| c - d == #[trigger] (word_span() * k);
    assert((a - c) - (b - d) == word_span() * (k1 - k2)) by (nonlinear_arith)
        requires
            a - b == word_span() * k1,
            c - d == word_span() * k2,
    ;
}

/// Products of congruent values are congruent.
pub proof fn lemma_cong_mul(a: int, b: int, c: int, d: int)
    requires
        wrap_cong(a, b),
        wrap_cong(c, d),
    ensures
        wrap_cong(a * c, b * d),
{
    let k1 = choose|k: int| a - b == #[trigger] (word_span() * k);
    let k2 = choose|k: int| c - d == #[trigger] (word_span() * k);
    assert(a * c - b * d == word_span() * (k1 * c + b * k2)) by (nonlinear_arith)
        requires
            a - b == word_span() * k1,
            c - d == word_span() * k2,
    ;
}

/// Cropping a wide value back into the signed word preserves congruence.
pub proof fn lemma_crop_cong(x: int)
    ensures
        wrap_cong(i64_specs::signed_crop(x) as int, x),
{
    let r = word_span();
    vstd::arithmetic::div_mod::lemma_fundamental_div_mod(x, r);
    assert((x % r) - x == r * (-(x / r))) by (nonlinear_arith)
        requires
            x == r * (x / r) + x % r,
    ;
    if (x % r) > (i64::MAX as int) {
        assert(((x % r) - r) - x == r * (-(x / r) - 1)) by (nonlinear_arith)
            requires
                x == r * (x / r) + x % r,
        ;
    }
}

/// The wrapping sum stands for the exact sum, modulo the word span.
pub proof fn lemma_wadd_cong(a: i64, b: i64)
    ensures
        wrap_cong(i64_specs::wrapping_add(a, b) as int, a + b),
{
    let s = a as int + b as int;
    if s > i64::MAX {
        assert((s - word_span()) - s == word_span() * (-1)) by (nonlinear_arith);
    } else if s < i64::MIN {
        assert((s + word_span()) - s == word_span() * 1) by (nonlinear_arith);
    } else {
        lemma_cong_refl(s);
    }
}

/// The wrapping difference stands for the exact difference, modulo the word
/// span.
pub proof fn lemma_wsub_cong(a: i64, b: i64)
    ensures
        wrap_cong(i64_specs::wrapping_sub(a, b) as int, a - b),
{
    let s = a as int - b as int;
    if s > i64::MAX {
        assert((s - word_span()) - s == word_span() * (-1)) by (nonlinear_arith);
    } else if s < i64::MIN {
        assert((s + word_span()) - s == word_span() * 1) by (nonlinear_arith);
    } else {
        lemma_cong_refl(s);
    }
}

/// The wrapping product stands for the exact product, modulo the word span.
pub proof fn lemma_wmul_cong(a: i64, b: i64)
    ensures
        wrap_cong(i64_specs::wrapping_mul(a, b) as int, a as int * b as int),
{
    lemma_crop_cong(a as int * b as int);
}

/// A value already inside the signed word survives cropping unchanged.
pub proof fn lemma_crop_identity(x: i64)
    ensures
        i64_specs::signed_crop(x as int) == x,
{
    lemma_crop_cong(x as int);
    lemma_cong_i64_eq(i64_specs::signed_crop(x as int), x);
}

/// Multiplying by a wrapped negation is the wrapped negation of the
/// product.
pub proof fn lemma_wmul_neg_right(a: i64, b: i64)
    ensures
        i64_specs::wrapping_mul(a, i64_specs::wrapping_sub(0, b)) == i64_specs::wrapping_sub(
            0,
            i64_specs::wrapping_mul(a, b),
        ),
{
    let nb = i64_specs::wrapping_sub(0, b);
    lemma_wsub_cong(0, b);
    lemma_wmul_cong(a, nb);
    lemma_cong_refl(a as int);
    lemma_cong_mul(a as int, a as int, nb as int, -(b as int));
    lemma_cong_trans(
        i64_specs::wrapping_mul(a, nb) as int,
        a as int * nb as int,
        a as int * -(b as int),
    );
    lemma_wmul_cong(a, b);
    lemma_wsub_cong(0, i64_specs::wrapping_mul(a, b));
    assert(a as int * -(b as int) == -(a as int * b as int)) by (nonlinear_arith);
    lemma_cong_sub(0, 0, i64_specs::wrapping_mul(a, b) as int, a as int * b as int);
    lemma_cong_trans(
        i64_specs::wrapping_sub(0, i64_specs::wrapping_mul(a, b)) as int,
        0 - i64_specs::wrapping_mul(a, b) as int,
        -(a as int * b as int),
    );
    lemma_cong_sym(
        i64_specs::wrapping_sub(0, i64_specs::wrapping_mul(a, b)) as int,
        -(a as int * b as int),
    );
    lemma_cong_trans(
        i64_specs::wrapping_mul(a, nb) as int,
        -(a as int * b as int),
        i64_specs::wrapping_sub(0, i64_specs::wrapping_mul(a, b)) as int,
    );
    lemma_cong_i64_eq(
        i64_specs::wrapping_mul(a, nb),
        i64_specs::wrapping_sub(0, i64_specs::wrapping_mul(a, b)),
    );
}

/// The wrapped product does not mind the order of its factors.
pub proof fn lemma_wmul_comm(a: i64, b: i64)
    ensures
        i64_specs::wrapping_mul(a, b) == i64_specs::wrapping_mul(b, a),
{
    assert(a as int * b as int == b as int * a as int) by (nonlinear_arith);
}

/// Adding the wrapped negation of a value cancels it.
pub proof fn lemma_wadd_neg_cancel(a: i64)
    ensures
        i64_specs::wrapping_add(i64_specs::wrapping_sub(0, a), a) == 0i64,
{
}

/// Subtracting a wrapped negation is adding the value itself.
pub proof fn lemma_wsub_of_neg(a: i64, b: i64)
    ensures
        i64_specs::wrapping_sub(a, i64_specs::wrapping_sub(0, b)) == i64_specs::wrapping_add(
            a,
            b,
        ),
{
    let nb = i64_specs::wrapping_sub(0, b);
    lemma_wsub_cong(0, b);
    lemma_wsub_cong(a, nb);
    lemma_cong_refl(a as int);
    lemma_cong_sub(a as int, a as int, nb as int, -(b as int));
    lemma_cong_trans(
        i64_specs::wrapping_sub(a, nb) as int,
        a as int - nb as int,
        a as int + b as int,
    );
    lemma_wadd_cong(a, b);
    lemma_cong_sym(i64_specs::wrapping_add(a, b) as int, a as int + b as int);
    lemma_cong_trans(
        i64_specs::wrapping_sub(a, nb) as int,
        a as int + b as int,
        i64_specs::wrapping_add(a, b) as int,
    );
    lemma_cong_i64_eq(i64_specs::wrapping_sub(a, nb), i64_specs::wrapping_add(a, b));
}

/// A wrapped sum may take its second summand from either side.
pub proof fn lemma_wadd_swap_right(a: i64, b: i64, c: i64)
    ensures
        i64_specs::wrapping_add(i64_specs::wrapping_add(a, b), c) == i64_specs::wrapping_add(
            i64_specs::wrapping_add(a, c),
            b,
        ),
{
    lemma_wadd_cong(a, b);
    lemma_wadd_cong(i64_specs::wrapping_add(a, b), c);
    lemma_cong_refl(c as int);
    lemma_cong_add(
        i64_specs::wrapping_add(a, b) as int,
        a as int + b as int,
        c as int,
        c as int,
    );
    lemma_cong_trans(
        i64_specs::wrapping_add(i64_specs::wrapping_add(a, b), c) as int,
        i64_specs::wrapping_add(a, b) as int + c as int,
        a as int + b as int + c as int,
    );
    lemma_wadd_cong(a, c);
    lemma_wadd_cong(i64_specs::wrapping_add(a, c), b);
    lemma_cong_refl(b as int);
    lemma_cong_add(
        i64_specs::wrapping_add(a, c) as int,
        a as int + c as int,
        b as int,
        b as int,
    );
    lemma_cong_trans(
        i64_specs::wrapping_add(i64_specs::wrapping_add(a, c), b) as int,
        i64_specs::wrapping_add(a, c) as int + b as int,
        a as int + b as int + c as int,
    );
    lemma_cong_sym(
        i64_specs::wrapping_add(i64_specs::wrapping_add(a, c), b) as int,
        a as int + b as int + c as int,
    );
    lemma_cong_trans(
        i64_specs::wrapping_add(i64_specs::wrapping_add(a, b), c) as int,
        a as int + b as int + c as int,
        i64_specs::wrapping_add(i64_specs::wrapping_add(a, c), b) as int,
    );
    lemma_cong_i64_eq(
        i64_specs::wrapping_add(i64_specs::wrapping_add(a, b), c),
        i64_specs::wrapping_add(i64_specs::wrapping_add(a, c), b),
    );
}

/// Two values of the signed word congruent modulo the word span are equal:
/// the span holds no two distinct representatives.
pub proof fn lemma_cong_i64_eq(a: i64, b: i64)
    requires
        wrap_cong(a as int, b as int),
    ensures
        a == b,
{
    let k = choose|k: int| a as int - b as int == #[trigger] (word_span() * k);
    assert(k == 0) by (nonlinear_arith)
        requires
            a as int - b as int == word_span() * k,
            (a as int - b as int) < word_span(),
            (a as int - b as int) > -word_span(),
    ;
}

} // verus!
