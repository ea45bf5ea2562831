//! The cross-family laws checked on concrete operands: where the checked form
//! succeeds the saturating and wrapping forms agree with it, where it fails
//! the saturating form clamps and the wrapping form reduces modulo the value
//! space.

use arith_ops::{RangeError, SaturatingAdd, SaturatingMul, SaturatingSub, TryAdd, TryMul, TrySub,
    Underflow, WrappingAdd, WrappingMul, WrappingSub};

#[test]
fn test_families_agree_on_success() {
    assert_eq!(i8::try_add(100, 27), Ok(127));
    assert_eq!(SaturatingAdd::saturating_add(100i8, 27), 127);
    assert_eq!(WrappingAdd::wrapping_add(100i8, 27), 127);

    assert_eq!(i16::try_mul(-181, 181), Ok(-32761));
    assert_eq!(SaturatingMul::saturating_mul(-181i16, 181), -32761);
    assert_eq!(WrappingMul::wrapping_mul(-181i16, 181), -32761);

    assert_eq!(u32::try_sub(7, 7), Ok(0));
    assert_eq!(SaturatingSub::saturating_sub(7u32, 7), 0);
    assert_eq!(WrappingSub::wrapping_sub(7u32, 7), 0);
}

#[test]
fn test_families_diverge_on_overflow() {
    assert_eq!(i8::try_add(100, 28), Err(RangeError::Overflow));
    assert_eq!(SaturatingAdd::saturating_add(100i8, 28), i8::MAX);
    assert_eq!(WrappingAdd::wrapping_add(100i8, 28), -128);

    assert_eq!(i8::try_mul(43, -3), Err(RangeError::Underflow));
    assert_eq!(SaturatingMul::saturating_mul(43i8, -3), i8::MIN);
    assert_eq!(WrappingMul::wrapping_mul(43i8, -3), 127);

    assert_eq!(u8::try_sub(0, 1), Err(Underflow));
    assert_eq!(SaturatingSub::saturating_sub(0u8, 1), u8::MIN);
    assert_eq!(WrappingSub::wrapping_sub(0u8, 1), 255);
}
