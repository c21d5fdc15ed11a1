use algebra::{Zero, One, Unsigned, Scalar};

#[test]
fn identities_per_width() {
    assert_eq!(<i64 as Zero>::zero(), 0);
    assert_eq!(<i64 as One>::one(), 1);
    assert_eq!(<u8 as Zero>::zero(), 0);
    assert_eq!(<u8 as One>::one(), 1);
    assert_eq!(<u128 as One>::one(), 1);
    assert_eq!(<isize as Zero>::zero(), 0);
}

#[test]
fn unsigned_pow() {
    assert_eq!(Unsigned::pow(2u64, 10), 1024);
    assert_eq!(Unsigned::pow(3u8, 5), 243);
    assert_eq!(Unsigned::pow(7u32, 0), 1);
    assert_eq!(Unsigned::pow(0u16, 4), 0);
}

#[test]
fn signed_pow() {
    assert_eq!(Unsigned::pow(-2i64, 3), -8);
    assert_eq!(Unsigned::pow(-2i32, 2), 4);
    assert_eq!(Unsigned::pow(-1i8, 7), -1);
    assert_eq!(Unsigned::pow(5i16, 3), 125);
}

#[test]
fn euclid_division_signed() {
    assert_eq!(Unsigned::div_euclid(-7i64, 3), -3);
    assert_eq!(Unsigned::rem_euclid(-7i64, 3), 2);
    assert_eq!(Unsigned::div_euclid(7i64, -3), -2);
    assert_eq!(Unsigned::rem_euclid(7i64, -3), 1);
    assert_eq!(Unsigned::div_euclid(-7i64, -3), 3);
    assert_eq!(Unsigned::rem_euclid(-7i64, -3), 2);
    assert_eq!(Unsigned::div_euclid(-7i16, 3), -3);
    assert_eq!(Unsigned::rem_euclid(-7i8, 3), 2);
}

#[test]
fn euclid_division_unsigned() {
    assert_eq!(Unsigned::div_euclid(17u64, 5), 3);
    assert_eq!(Unsigned::rem_euclid(17u64, 5), 2);
    assert_eq!(Unsigned::div_euclid(17u8, 5), 3);
}

#[test]
fn bounds_and_widths() {
    assert_eq!(<u8 as Unsigned>::max_value(), u8::MAX);
    assert_eq!(<u8 as Unsigned>::min_value(), 0);
    assert_eq!(<i64 as Unsigned>::min_value(), i64::MIN);
    assert_eq!(<u32 as Unsigned>::bits(), 32);
    assert_eq!(<i16 as Unsigned>::bits(), 16);
}

#[test]
fn machine_scalar_wraps() {
    assert_eq!(Scalar::add(i64::MAX, 1), i64::MIN);
    assert_eq!(Scalar::sub(i64::MIN, 1), i64::MAX);
    assert_eq!(Scalar::mul(3i64, -4), -12);
    assert_eq!(Scalar::neg(5i64), -5);
    assert_eq!(Scalar::neg(i64::MIN), i64::MIN);
    assert_eq!(Scalar::div(7i64, 2), 3);
    assert_eq!(Scalar::div(-7i64, 2), -3);
    assert_eq!(Scalar::div(i64::MIN, -1), i64::MIN);
    assert!(Scalar::eq_v(4i64, 4));
    assert!(!Scalar::eq_v(4i64, 5));
}

#[test]
fn wide_widths() {
    assert_eq!(Unsigned::pow(3u128, 5), 243);
    assert_eq!(Unsigned::pow(-2i128, 3), -8);
    assert_eq!(Unsigned::div_euclid(-7i128, 3), -3);
    assert_eq!(Unsigned::rem_euclid(-7i128, 3), 2);
    assert_eq!(<u128 as Unsigned>::bits(), 128);
}
