use arith_ops::{SaturatingAdd, SaturatingMul, SaturatingNeg, SaturatingSub};

#[test]
fn test_saturating_add() {
    assert_eq!(SaturatingAdd::saturating_add(100i8, 26), 126);
    assert_eq!(SaturatingAdd::saturating_add(100i8, 27), 127);
    assert_eq!(SaturatingAdd::saturating_add(100i8, 28), 127);
    assert_eq!(SaturatingAdd::saturating_add(-100i8, -27), -127);
    assert_eq!(SaturatingAdd::saturating_add(-100i8, -28), -128);
    assert_eq!(SaturatingAdd::saturating_add(-100i8, -29), -128);
    assert_eq!(SaturatingAdd::saturating_add(200u8, 54), 254);
    assert_eq!(SaturatingAdd::saturating_add(200u8, 55), 255);
    assert_eq!(SaturatingAdd::saturating_add(200u8, 56), 255);
}

#[test]
fn test_saturating_mul() {
    assert_eq!(SaturatingMul::saturating_mul(50i8, 2), 100);
    assert_eq!(SaturatingMul::saturating_mul(50i8, 3), 127);
    assert_eq!(SaturatingMul::saturating_mul(50i8, -2), -100);
    assert_eq!(SaturatingMul::saturating_mul(50i8, -3), -128);
    assert_eq!(SaturatingMul::saturating_mul(-50i8, -2), 100);
    assert_eq!(SaturatingMul::saturating_mul(-50i8, -3), 127);
    assert_eq!(SaturatingMul::saturating_mul(50u8, 5), 250);
    assert_eq!(SaturatingMul::saturating_mul(50u8, 6), 255);
}

#[test]
fn test_saturating_neg() {
    assert_eq!(SaturatingNeg::saturating_neg(127i8), -127);
    assert_eq!(SaturatingNeg::saturating_neg(-127i8), 127);
    assert_eq!(SaturatingNeg::saturating_neg(-128i8), 127);
}

#[test]
fn test_saturating_sub() {
    assert_eq!(SaturatingSub::saturating_sub(100i8, -26), 126);
    assert_eq!(SaturatingSub::saturating_sub(100i8, -27), 127);
    assert_eq!(SaturatingSub::saturating_sub(100i8, -28), 127);
    assert_eq!(SaturatingSub::saturating_sub(-100i8, 27), -127);
    assert_eq!(SaturatingSub::saturating_sub(-100i8, 28), -128);
    assert_eq!(SaturatingSub::saturating_sub(-100i8, 29), -128);
    assert_eq!(SaturatingSub::saturating_sub(100u8, 99), 1);
    assert_eq!(SaturatingSub::saturating_sub(100u8, 100), 0);
    assert_eq!(SaturatingSub::saturating_sub(100u8, 101), 0);
}

#[test]
fn test_saturating_neg_unsigned() {
    assert_eq!(SaturatingNeg::saturating_neg(0u8), 0);
    assert_eq!(SaturatingNeg::saturating_neg(1u8), 0);
    assert_eq!(SaturatingNeg::saturating_neg(255u8), 0);
}

#[test]
fn test_saturating_ops_by_reference() {
    assert_eq!(SaturatingAdd::saturating_add(&100i8, 28), 127);
    assert_eq!(SaturatingAdd::saturating_add(100i8, &28), 127);
    assert_eq!(SaturatingAdd::saturating_add(&-100i8, &-29), -128);
    assert_eq!(SaturatingSub::saturating_sub(&100u8, &101), 0);
    assert_eq!(SaturatingMul::saturating_mul(&50i8, &-3), -128);
    assert_eq!(SaturatingNeg::saturating_neg(&-128i8), 127);
}

#[test]
fn test_saturating_ops_wide_types() {
    assert_eq!(SaturatingAdd::saturating_add(i64::MAX, 1i64), i64::MAX);
    assert_eq!(SaturatingSub::saturating_sub(i64::MIN, 1i64), i64::MIN);
    assert_eq!(SaturatingMul::saturating_mul(i128::MIN, -1i128), i128::MAX);
    assert_eq!(SaturatingNeg::saturating_neg(i128::MIN), i128::MAX);
    assert_eq!(SaturatingAdd::saturating_add(usize::MAX, 1usize), usize::MAX);
    assert_eq!(SaturatingMul::saturating_mul(u64::MAX, 2u64), u64::MAX);
}
