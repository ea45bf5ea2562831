use arith_ops::{ArithmeticError, Overflow, RangeError, TryAdd, TryDiv, TryMul, TryNeg, TryRem,
    TrySub, Undefined, Underflow};

#[test]
fn test_try_add() {
    assert_eq!(i8::try_add(100, 27), Ok(127));
    assert_eq!(i8::try_add(100, 28), Err(RangeError::Overflow));
    assert_eq!(i8::try_add(-100, -28), Ok(-128));
    assert_eq!(i8::try_add(-100, -29), Err(RangeError::Underflow));
    assert_eq!(u8::try_add(200, 55), Ok(255));
    assert_eq!(u8::try_add(200, 56), Err(Overflow));
}

#[test]
fn test_try_div() {
    assert_eq!(i8::try_div(100, 10), Ok(10));
    assert_eq!(i8::try_div(100, 0), Err(ArithmeticError::Undefined));
    assert_eq!(i8::try_div(-128, -1), Err(ArithmeticError::Overflow));
    assert_eq!(u8::try_div(100, 10), Ok(10));
    assert_eq!(u8::try_div(100, 0), Err(Undefined));
}

#[test]
fn test_try_mul() {
    assert_eq!(i8::try_mul(15, 8), Ok(120));
    assert_eq!(i8::try_mul(16, 8), Err(RangeError::Overflow));
    assert_eq!(i8::try_mul(16, -8), Ok(-128));
    assert_eq!(i8::try_mul(43, -3), Err(RangeError::Underflow));
    assert_eq!(i8::try_mul(-127, -1), Ok(127));
    assert_eq!(i8::try_mul(-128, -1), Err(RangeError::Overflow));
    assert_eq!(u8::try_mul(85, 3), Ok(255));
    assert_eq!(u8::try_mul(16, 16), Err(Overflow));
}

#[test]
fn test_try_neg() {
    assert_eq!(i8::try_neg(127), Ok(-127));
    assert_eq!(i8::try_neg(-128), Err(Overflow));
    assert_eq!(u8::try_neg(0), Ok(0));
    assert_eq!(u8::try_neg(1), Err(Underflow));
}

#[test]
fn test_try_rem() {
    assert_eq!(i8::try_rem(99, 10), Ok(9));
    assert_eq!(i8::try_rem(99, -10), Ok(9));
    assert_eq!(i8::try_rem(-99, 10), Ok(-9));
    assert_eq!(i8::try_rem(-99, -10), Ok(-9));
    assert_eq!(i8::try_rem(-128, -1), Ok(0)); // Division would overflow.
    assert_eq!(i8::try_rem(99, 0), Err(Undefined));
    assert_eq!(u8::try_rem(99, 10), Ok(9));
    assert_eq!(u8::try_rem(99, 0), Err(Undefined));
}

#[test]
fn test_try_sub() {
    assert_eq!(i8::try_sub(0, -127), Ok(127));
    assert_eq!(i8::try_sub(0, -128), Err(RangeError::Overflow));
    assert_eq!(i8::try_sub(-1, 127), Ok(-128));
    assert_eq!(i8::try_sub(-2, 127), Err(RangeError::Underflow));
    assert_eq!(u8::try_sub(100, 100), Ok(0));
    assert_eq!(u8::try_sub(0, 1), Err(Underflow));
}

#[test]
fn test_try_ops_by_reference() {
    assert_eq!(TryAdd::try_add(&100i8, 27), Ok(127));
    assert_eq!(TryAdd::try_add(100i8, &28), Err(RangeError::Overflow));
    assert_eq!(TryAdd::try_add(&100i8, &27), Ok(127));
    assert_eq!(TrySub::try_sub(&0u8, &1), Err(Underflow));
    assert_eq!(TryMul::try_mul(&16i8, -8), Ok(-128));
    assert_eq!(TryDiv::try_div(&-128i8, &-1), Err(ArithmeticError::Overflow));
    assert_eq!(TryRem::try_rem(&-128i8, &-1), Ok(0));
    assert_eq!(TryNeg::try_neg(&-128i8), Err(Overflow));
}

#[test]
fn test_try_ops_wide_types() {
    assert_eq!(i128::try_div(i128::MIN, -1), Err(ArithmeticError::Overflow));
    assert_eq!(i128::try_rem(i128::MIN, -1), Ok(0));
    assert_eq!(i64::try_add(i64::MAX, 1), Err(RangeError::Overflow));
    assert_eq!(i64::try_sub(i64::MIN, 1), Err(RangeError::Underflow));
    assert_eq!(u128::try_mul(u128::MAX, 2), Err(Overflow));
    assert_eq!(u64::try_add(u64::MAX - 1, 1), Ok(u64::MAX));
    assert_eq!(usize::try_sub(0, 1), Err(Underflow));
    assert_eq!(isize::try_neg(isize::MIN), Err(Overflow));
    assert_eq!(isize::try_neg(isize::MAX), Ok(isize::MIN + 1));
}
