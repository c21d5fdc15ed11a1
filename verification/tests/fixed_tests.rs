use algebra::{Fixed, Scalar, Zero, One};

type Fx = Fixed<i64, 16>;

#[test]
fn from_int_scales_by_the_fraction_bits() {
    assert_eq!(Fx::from_int(3).0, 3 << 16);
    assert_eq!(Fx::from_int(-2).0, -(2 << 16));
}

#[test]
fn add_and_sub_work_on_raw_words() {
    let a = Fx::from_int(3);
    let b = Fx::from_int(2);
    assert_eq!(a.add(b), Fx::from_int(5));
    assert_eq!(a.sub(b), Fx::from_int(1));
}

#[test]
fn add_then_sub_is_exact_for_all_values() {
    let a = Fx::from_raw(i64::MAX);
    let b = Fx::from_raw(12345);
    // the sum wraps around, and the difference undoes it exactly
    assert_eq!(a.add(b).sub(b), a);
    let c = Fx::from_raw(-987654321);
    assert_eq!(c.add(b).sub(b), c);
}

#[test]
fn mul_rescales_the_product() {
    assert_eq!(Fx::from_int(3).mul(Fx::from_int(2)), Fx::from_int(6));
    let half = Fx::from_raw(1 << 15);
    assert_eq!(half.mul(half).0, 1 << 14);
}

#[test]
fn mul_shifts_toward_negative_infinity() {
    // -1.5 times 0.5 is exactly -0.75
    let a = Fx::from_raw(-(3 << 15));
    let half = Fx::from_raw(1 << 15);
    assert_eq!(a.mul(half).0, -(3 << 14));
}

#[test]
fn div_keeps_the_fraction_bits() {
    let q = Fx::from_int(3).div(Fx::from_int(2));
    assert_eq!(q.0, 3 << 15);
}

#[test]
fn neg_and_order() {
    let a = Fx::from_int(1);
    assert_eq!(a.neg().0, -(1 << 16));
    assert!(a.neg().lt(a));
    assert!(!a.lt(a));
}

#[test]
fn scalar_identities() {
    let z: Fx = Zero::zero();
    assert_eq!(z.0, 0);
    let o: Fx = One::one();
    assert_eq!(o.0, 1 << 16);
}

#[test]
fn scalar_ops_match_the_inherent_ones() {
    let a = Fx::from_int(3);
    let b = Fx::from_int(2);
    assert_eq!(Scalar::mul(a, b), Fx::from_int(6));
    assert_eq!(Scalar::div(a, b).0, 3 << 15);
    assert!(a.eq_v(a));
    assert!(!a.eq_v(b));
}

#[test]
fn mixed_integer_forms() {
    let a = Fx::from_int(3);
    assert_eq!(a.add_int(2), Fx::from_int(5));
    assert_eq!(a.sub_int(1), Fx::from_int(2));
    assert_eq!(Fx::int_sub(5, a), Fx::from_int(2));
    assert_eq!(a.mul_int(4), Fx::from_int(12));
    assert_eq!(a.div_int(2), Fx::from_raw(3 << 15));
    assert_eq!(Fx::int_div(3, Fx::from_int(2)), Fx::from_raw(3 << 15));
    assert!(a.eq_int(3));
    assert!(!a.eq_int(4));
    assert!(a.lt_int(4));
    assert!(!a.lt_int(3));
}
