use algebra::{Rational, Unsigned};

fn rat(n: i64, d: u64) -> Rational<i64, u64> {
    Rational::new(n, d)
}

#[test]
fn reduce_two_fourths() {
    let mut r = rat(2, 4);
    r._reduce();
    assert_eq!(r.n, 1);
    assert_eq!(r.d, 2);
}

#[test]
fn reduce_zero_collapses_to_canonical_zero() {
    let mut r = rat(0, 5);
    r._reduce();
    assert_eq!(r.n, 0);
    assert_eq!(r.d, 1);
}

#[test]
fn reduce_negative() {
    let mut r = rat(-6, 4);
    r._reduce();
    assert_eq!(r.n, -3);
    assert_eq!(r.d, 2);
}

#[test]
fn add_reduces() {
    let s = rat(1, 2).add(rat(1, 3));
    assert_eq!(s, rat(5, 6));
}

#[test]
fn add_then_sub_gives_first_operand_back() {
    let a = rat(3, 4);
    let b = rat(5, 6);
    assert_eq!(a.add(b).sub(b), a);
    let c = rat(-7, 3);
    assert_eq!(c.add(b).sub(b), c);
}

#[test]
fn mul_reduces() {
    let p = rat(2, 3).mul(rat(3, 4));
    assert_eq!(p, rat(1, 2));
}

#[test]
fn mul_then_div_gives_first_operand_back() {
    let a = rat(3, 4);
    let b = rat(5, 6);
    assert_eq!(a.mul(b).div(b), a);
    let neg = rat(-2, 7);
    assert_eq!(a.mul(neg).div(neg), a);
}

#[test]
fn div_folds_negative_sign_into_numerator() {
    let q = rat(1, 2).div(rat(-2, 3));
    assert_eq!(q, rat(-3, 4));
}

#[test]
fn neg_flips_numerator() {
    assert_eq!(rat(3, 4).neg(), rat(-3, 4));
}

#[test]
fn inverse_swaps_and_keeps_denominator_positive() {
    let r = rat(-3, 4).inverse();
    assert_eq!(r.n, -4);
    assert_eq!(r.d, 3);
    let p = rat(3, 4).inverse();
    assert_eq!(p.n, 4);
    assert_eq!(p.d, 3);
}

#[test]
fn eq_value_crosses_representations() {
    assert!(rat(1, 2).eq_value(rat(2, 4)));
    assert!(!rat(1, 2).eq_value(rat(2, 3)));
}

#[test]
fn lt_by_cross_multiplication() {
    assert!(rat(1, 3).lt(rat(1, 2)));
    assert!(!rat(1, 2).lt(rat(1, 3)));
    assert!(rat(-1, 2).lt(rat(1, 3)));
}

#[test]
fn eq_int_only_on_whole_values() {
    assert!(rat(7, 1).eq_int(7));
    assert!(!rat(7, 2).eq_int(7));
}

#[test]
fn pow_raises_both_parts() {
    assert_eq!(Unsigned::pow(rat(2, 3), 3), rat(8, 27));
    assert_eq!(Unsigned::pow(rat(-2, 3), 2), rat(4, 9));
    assert_eq!(Unsigned::pow(rat(2, 4), 2), rat(1, 4));
}

#[test]
fn div_euclid_is_plain_division() {
    assert_eq!(Unsigned::div_euclid(rat(7, 2), rat(3, 2)), rat(7, 3));
}

#[test]
fn rem_euclid_leaves_the_positive_remainder() {
    // 7/2 = 2 * (3/2) + 1/2
    assert_eq!(Unsigned::rem_euclid(rat(7, 2), rat(3, 2)), rat(1, 2));
    // -7/2 = -3 * (3/2) + 1
    assert_eq!(Unsigned::rem_euclid(rat(-7, 2), rat(3, 2)), rat(1, 1));
}

#[test]
fn rational_bounds() {
    let lo: Rational<i64, u64> = Unsigned::min_value();
    assert_eq!(lo.n, i64::MIN);
    assert_eq!(lo.d, 1);
    let hi: Rational<i64, u64> = Unsigned::max_value();
    assert_eq!(hi.n, i64::MAX);
    assert_eq!(hi.d, 1);
    assert_eq!(<Rational<i64, u64> as Unsigned>::bits(), 128);
}

#[test]
fn mixed_integer_sums() {
    assert_eq!(rat(1, 2).add_int(3), rat(7, 2));
    assert_eq!(rat(7, 2).sub_int(3), rat(1, 2));
    assert_eq!(Rational::int_sub(3, rat(1, 2)), rat(5, 2));
}

#[test]
fn mixed_integer_products() {
    assert_eq!(rat(3, 4).mul_int(2), rat(3, 2));
    assert_eq!(rat(3, 4).div_int(2), rat(3, 8));
    assert_eq!(rat(3, 4).div_int(-2), rat(-3, 8));
    assert_eq!(Rational::int_div(3, rat(2, 5)), rat(15, 2));
    assert_eq!(Rational::int_div(3, rat(-2, 5)), rat(-15, 2));
}

#[test]
fn rem_int_takes_the_machine_remainder_of_the_numerator() {
    let r = rat(7, 2).rem_int(2);
    assert_eq!(r.n, 1);
    assert_eq!(r.d, 2);
    let s = rat(-7, 2).rem_int(2);
    assert_eq!(s.n, -1);
    assert_eq!(s.d, 2);
}
