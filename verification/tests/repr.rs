use bounded_integer::repr::Repr;

#[test]
fn repr_is_negative() {
    assert!(!Repr::is_negative(0u8));
    assert!(!Repr::is_negative(255u8));
    assert!(Repr::is_negative(-1i8));
    assert!(!Repr::is_negative(0i8));
    assert!(Repr::is_negative(-1i64));
    assert!(!Repr::is_negative(u64::MAX));
}

#[test]
fn repr_checked_add_at_the_width() {
    assert_eq!(Some(255u8), Repr::checked_add(254u8, 1));
    assert_eq!(None, Repr::checked_add(255u8, 1));
    assert_eq!(None, Repr::checked_add(u16::MAX, 1));
    assert_eq!(Some(0i8), Repr::checked_add(-1i8, 1));
    assert_eq!(None, Repr::checked_add(i8::MAX, 1i8));
    assert_eq!(None, Repr::checked_add(i32::MIN, -1i32));
    assert_eq!(Some(u32::MAX), Repr::checked_add(u32::MAX - 1, 1));
    assert_eq!(None, Repr::checked_add(u64::MAX, 1));
    assert_eq!(None, Repr::checked_add(i64::MAX, 1i64));
    assert_eq!(None, Repr::checked_add(i16::MIN, -1i16));
}

#[test]
fn repr_checked_sub_at_the_width() {
    assert_eq!(Some(0u8), Repr::checked_sub(1u8, 1));
    assert_eq!(None, Repr::checked_sub(0u8, 1));
    assert_eq!(None, Repr::checked_sub(0u64, 1));
    assert_eq!(Some(i8::MIN), Repr::checked_sub(-127i8, 1));
    assert_eq!(None, Repr::checked_sub(i8::MIN, 1));
    assert_eq!(None, Repr::checked_sub(i64::MIN, 1));
}

#[test]
fn repr_checked_mul_at_the_width() {
    assert_eq!(Some(254u8), Repr::checked_mul(127u8, 2));
    assert_eq!(None, Repr::checked_mul(128u8, 2));
    assert_eq!(Some(-128i8), Repr::checked_mul(-64i8, 2));
    assert_eq!(None, Repr::checked_mul(-65i8, 2));
    assert_eq!(None, Repr::checked_mul(i16::MIN, -1i16));
    assert_eq!(Some(0u32), Repr::checked_mul(0u32, u32::MAX));
}

#[test]
fn repr_checked_div_truncates_toward_zero() {
    assert_eq!(Some(2u8), Repr::checked_div(7u8, 3));
    assert_eq!(None, Repr::checked_div(7u8, 0));
    assert_eq!(Some(-2i8), Repr::checked_div(-7i8, 3));
    assert_eq!(Some(-2i8), Repr::checked_div(7i8, -3));
    assert_eq!(Some(2i8), Repr::checked_div(-7i8, -3));
    assert_eq!(None, Repr::checked_div(i8::MIN, -1i8));
    assert_eq!(Some(i8::MIN), Repr::checked_div(i8::MIN, 1));
    assert_eq!(None, Repr::checked_div(i64::MIN, -1i64));
}

#[test]
fn repr_checked_rem_has_dividend_sign() {
    assert_eq!(Some(1u8), Repr::checked_rem(7u8, 3));
    assert_eq!(None, Repr::checked_rem(7u8, 0));
    assert_eq!(Some(-1i8), Repr::checked_rem(-7i8, 3));
    assert_eq!(Some(1i8), Repr::checked_rem(7i8, -3));
    assert_eq!(Some(-1i8), Repr::checked_rem(-7i8, -3));
    assert_eq!(None, Repr::checked_rem(i8::MIN, -1i8));
    assert_eq!(Some(0i8), Repr::checked_rem(i8::MIN, 2));
    assert_eq!(None, Repr::checked_rem(i32::MIN, -1i32));
}

#[test]
fn repr_checked_neg() {
    assert_eq!(Some(0u8), Repr::checked_neg(0u8));
    assert_eq!(None, Repr::checked_neg(1u8));
    assert_eq!(None, Repr::checked_neg(1u64));
    assert_eq!(Some(0u16), Repr::checked_neg(0u16));
    assert_eq!(Some(-3i8), Repr::checked_neg(3i8));
    assert_eq!(Some(3i8), Repr::checked_neg(-3i8));
    assert_eq!(None, Repr::checked_neg(i8::MIN));
    assert_eq!(None, Repr::checked_neg(i64::MIN));
    assert_eq!(Some(i64::MAX), Repr::checked_neg(i64::MIN + 1));
}
