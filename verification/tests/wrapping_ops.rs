use arith_ops::{WrappingAdd, WrappingMul, WrappingNeg, WrappingSub};

#[test]
fn test_wrapping_add() {
    assert_eq!(WrappingAdd::wrapping_add(100i8, 27), 127);
    assert_eq!(WrappingAdd::wrapping_add(100i8, 28), -128);
    assert_eq!(WrappingAdd::wrapping_add(-100i8, -28), -128);
    assert_eq!(WrappingAdd::wrapping_add(-100i8, -29), 127);
    assert_eq!(WrappingAdd::wrapping_add(200u8, 55), 255);
    assert_eq!(WrappingAdd::wrapping_add(200u8, 56), 0);
}

#[test]
fn test_wrapping_mul() {
    assert_eq!(WrappingMul::wrapping_mul(8i8, 15), 120);
    assert_eq!(WrappingMul::wrapping_mul(8i8, 16), -128);
    assert_eq!(WrappingMul::wrapping_mul(8i8, -16), -128);
    assert_eq!(WrappingMul::wrapping_mul(3i8, -43), 127);
    assert_eq!(WrappingMul::wrapping_mul(-1i8, -127), 127);
    assert_eq!(WrappingMul::wrapping_mul(-1i8, -128), -128);
    assert_eq!(WrappingMul::wrapping_mul(85u8, 3), 255);
    assert_eq!(WrappingMul::wrapping_mul(16u8, 16), 0);
}

#[test]
fn test_wrapping_neg() {
    assert_eq!(WrappingNeg::wrapping_neg(127i8), -127);
    assert_eq!(WrappingNeg::wrapping_neg(-127i8), 127);
    assert_eq!(WrappingNeg::wrapping_neg(-128i8), -128);
    assert_eq!(WrappingNeg::wrapping_neg(0u8), 0);
    assert_eq!(WrappingNeg::wrapping_neg(1u8), 255);
    assert_eq!(WrappingNeg::wrapping_neg(255u8), 1);
}

#[test]
fn test_wrapping_sub() {
    assert_eq!(WrappingSub::wrapping_sub(100i8, -27), 127);
    assert_eq!(WrappingSub::wrapping_sub(100i8, -28), -128);
    assert_eq!(WrappingSub::wrapping_sub(-100i8, 28), -128);
    assert_eq!(WrappingSub::wrapping_sub(-100i8, 29), 127);
    assert_eq!(WrappingSub::wrapping_sub(100u8, 100), 0);
    assert_eq!(WrappingSub::wrapping_sub(100u8, 101), 255);
}

#[test]
fn test_wrapping_ops_by_reference() {
    assert_eq!(WrappingAdd::wrapping_add(&100i8, 28), -128);
    assert_eq!(WrappingAdd::wrapping_add(100i8, &28), -128);
    assert_eq!(WrappingAdd::wrapping_add(&200u8, &56), 0);
    assert_eq!(WrappingSub::wrapping_sub(&100u8, &101), 255);
    assert_eq!(WrappingMul::wrapping_mul(&16u8, &16), 0);
    assert_eq!(WrappingNeg::wrapping_neg(&-128i8), -128);
}

#[test]
fn test_wrapping_ops_wide_types() {
    assert_eq!(WrappingAdd::wrapping_add(i64::MAX, 1i64), i64::MIN);
    assert_eq!(WrappingSub::wrapping_sub(i64::MIN, 1i64), i64::MAX);
    assert_eq!(WrappingMul::wrapping_mul(i128::MIN, -1i128), i128::MIN);
    assert_eq!(WrappingNeg::wrapping_neg(i128::MIN), i128::MIN);
    assert_eq!(WrappingAdd::wrapping_add(usize::MAX, 2usize), 1);
    assert_eq!(WrappingNeg::wrapping_neg(1usize), usize::MAX);
    assert_eq!(WrappingMul::wrapping_mul(u64::MAX, 2u64), u64::MAX - 1);
}
