//! Laws relating the capability families to one another: totality of the
//! checked operators, the saturating clamp law, and wrapping consistency,
//! one proof per integer type.

use vstd::prelude::*;
use crate::error::{Overflow, RangeError, Underflow};
use crate::math::{lemma_mul_sign, lemma_wrap_signed_cases, lemma_wrap_unsigned_cases,
    wrap_signed, wrap_unsigned};
use crate::saturating_ops::{SaturatingAdd, SaturatingMul, SaturatingSub};
use crate::try_ops::{TryAdd, TryDiv, TryMul, TryNeg, TryRem, TrySub};
use crate::wrapping_ops::{WrappingAdd, WrappingMul, WrappingSub};

verus! {

/// Totality: every checked operator on `i8` returns a value exactly when the
/// true result is representable (for the remainder: whenever the divisor is
/// nonzero), and a classified error otherwise.
pub proof fn lemma_try_ops_total_i8(a: i8, b: i8)
    ensures
        a.try_add_spec(b) is Ok <==> i8::MIN <= a + b <= i8::MAX,
        a.try_sub_spec(b) is Ok <==> i8::MIN <= a - b <= i8::MAX,
        a.try_mul_spec(b) is Ok <==> i8::MIN <= a * b <= i8::MAX,
        a.try_div_spec(b) is Ok <==> b != 0 && !(a == i8::MIN && b == -1),
        a.try_rem_spec(b) is Ok <==> b != 0,
        a.try_neg_spec() is Ok <==> a != i8::MIN,
{
}

/// The saturating clamp law on `i8`: wherever the checked form of add, sub
/// or mul fails with `Overflow` the saturating form returns `i8::MAX`,
/// wherever it fails with `Underflow` the saturating form returns
/// `i8::MIN`, and wherever it succeeds both forms return the same value.
pub proof fn lemma_saturating_clamp_i8(a: i8, b: i8)
    ensures
        a.try_add_spec(b) is Ok ==> a.saturating_add_spec(b) == a.try_add_spec(b)->Ok_0,
        a.try_add_spec(b) == Err::<i8, RangeError>(RangeError::Overflow)
            ==> a.saturating_add_spec(b) == i8::MAX,
        a.try_add_spec(b) == Err::<i8, RangeError>(RangeError::Underflow)
            ==> a.saturating_add_spec(b) == i8::MIN,
        a.try_sub_spec(b) is Ok ==> a.saturating_sub_spec(b) == a.try_sub_spec(b)->Ok_0,
        a.try_sub_spec(b) == Err::<i8, RangeError>(RangeError::Overflow)
            ==> a.saturating_sub_spec(b) == i8::MAX,
        a.try_sub_spec(b) == Err::<i8, RangeError>(RangeError::Underflow)
            ==> a.saturating_sub_spec(b) == i8::MIN,
        a.try_mul_spec(b) is Ok ==> a.saturating_mul_spec(b) == a.try_mul_spec(b)->Ok_0,
        a.try_mul_spec(b) == Err::<i8, RangeError>(RangeError::Overflow)
            ==> a.saturating_mul_spec(b) == i8::MAX,
        a.try_mul_spec(b) == Err::<i8, RangeError>(RangeError::Underflow)
            ==> a.saturating_mul_spec(b) == i8::MIN,
{
}

/// Wrapping consistency on `i8`: the wrapping form of add, sub or mul is
/// the true result reduced into the representable range modulo the size of
/// the value space, and so agrees with the checked form whenever the latter
/// succeeds.
pub proof fn lemma_wrapping_consistency_i8(a: i8, b: i8)
    ensures
        a.wrapping_add_spec(b) == wrap_signed(a + b, i8::MAX as int, 2 * (i8::MAX as int + 1)),
        a.wrapping_sub_spec(b) == wrap_signed(a - b, i8::MAX as int, 2 * (i8::MAX as int + 1)),
        a.wrapping_mul_spec(b) == wrap_signed(a * b, i8::MAX as int, 2 * (i8::MAX as int + 1)),
        a.try_add_spec(b) is Ok ==> a.wrapping_add_spec(b) == a.try_add_spec(b)->Ok_0,
        a.try_sub_spec(b) is Ok ==> a.wrapping_sub_spec(b) == a.try_sub_spec(b)->Ok_0,
        a.try_mul_spec(b) is Ok ==> a.wrapping_mul_spec(b) == a.try_mul_spec(b)->Ok_0,
{
    lemma_wrap_signed_cases(a + b, i8::MAX as int, 2 * (i8::MAX as int + 1));
    lemma_wrap_signed_cases(a - b, i8::MAX as int, 2 * (i8::MAX as int + 1));
    lemma_wrap_signed_cases(a * b, i8::MAX as int, 2 * (i8::MAX as int + 1));
}

/// Totality: every checked operator on `i16` returns a value exactly when the
/// true result is representable (for the remainder: whenever the divisor is
/// nonzero), and a classified error otherwise.
pub proof fn lemma_try_ops_total_i16(a: i16, b: i16)
    ensures
        a.try_add_spec(b) is Ok <==> i16::MIN <= a + b <= i16::MAX,
        a.try_sub_spec(b) is Ok <==> i16::MIN <= a - b <= i16::MAX,
        a.try_mul_spec(b) is Ok <==> i16::MIN <= a * b <= i16::MAX,
        a.try_div_spec(b) is Ok <==> b != 0 && !(a == i16::MIN && b == -1),
        a.try_rem_spec(b) is Ok <==> b != 0,
        a.try_neg_spec() is Ok <==> a != i16::MIN,
{
}

/// The saturating clamp law on `i16`: wherever the checked form of add, sub
/// or mul fails with `Overflow` the saturating form returns `i16::MAX`,
/// wherever it fails with `Underflow` the saturating form returns
/// `i16::MIN`, and wherever it succeeds both forms return the same value.
pub proof fn lemma_saturating_clamp_i16(a: i16, b: i16)
    ensures
        a.try_add_spec(b) is Ok ==> a.saturating_add_spec(b) == a.try_add_spec(b)->Ok_0,
        a.try_add_spec(b) == Err::<i16, RangeError>(RangeError::Overflow)
            ==> a.saturating_add_spec(b) == i16::MAX,
        a.try_add_spec(b) == Err::<i16, RangeError>(RangeError::Underflow)
            ==> a.saturating_add_spec(b) == i16::MIN,
        a.try_sub_spec(b) is Ok ==> a.saturating_sub_spec(b) == a.try_sub_spec(b)->Ok_0,
        a.try_sub_spec(b) == Err::<i16, RangeError>(RangeError::Overflow)
            ==> a.saturating_sub_spec(b) == i16::MAX,
        a.try_sub_spec(b) == Err::<i16, RangeError>(RangeError::Underflow)
            ==> a.saturating_sub_spec(b) == i16::MIN,
        a.try_mul_spec(b) is Ok ==> a.saturating_mul_spec(b) == a.try_mul_spec(b)->Ok_0,
        a.try_mul_spec(b) == Err::<i16, RangeError>(RangeError::Overflow)
            ==> a.saturating_mul_spec(b) == i16::MAX,
        a.try_mul_spec(b) == Err::<i16, RangeError>(RangeError::Underflow)
            ==> a.saturating_mul_spec(b) == i16::MIN,
{
}

/// Wrapping consistency on `i16`: the wrapping form of add, sub or mul is
/// the true result reduced into the representable range modulo the size of
/// the value space, and so agrees with the checked form whenever the latter
/// succeeds.
pub proof fn lemma_wrapping_consistency_i16(a: i16, b: i16)
    ensures
        a.wrapping_add_spec(b) == wrap_signed(a + b, i16::MAX as int, 2 * (i16::MAX as int + 1)),
        a.wrapping_sub_spec(b) == wrap_signed(a - b, i16::MAX as int, 2 * (i16::MAX as int + 1)),
        a.wrapping_mul_spec(b) == wrap_signed(a * b, i16::MAX as int, 2 * (i16::MAX as int + 1)),
        a.try_add_spec(b) is Ok ==> a.wrapping_add_spec(b) == a.try_add_spec(b)->Ok_0,
        a.try_sub_spec(b) is Ok ==> a.wrapping_sub_spec(b) == a.try_sub_spec(b)->Ok_0,
        a.try_mul_spec(b) is Ok ==> a.wrapping_mul_spec(b) == a.try_mul_spec(b)->Ok_0,
{
    lemma_wrap_signed_cases(a + b, i16::MAX as int, 2 * (i16::MAX as int + 1));
    lemma_wrap_signed_cases(a - b, i16::MAX as int, 2 * (i16::MAX as int + 1));
    lemma_wrap_signed_cases(a * b, i16::MAX as int, 2 * (i16::MAX as int + 1));
}

/// Totality: every checked operator on `i32` returns a value exactly when the
/// true result is representable (for the remainder: whenever the divisor is
/// nonzero), and a classified error otherwise.
pub proof fn lemma_try_ops_total_i32(a: i32, b: i32)
    ensures
        a.try_add_spec(b) is Ok <==> i32::MIN <= a + b <= i32::MAX,
        a.try_sub_spec(b) is Ok <==> i32::MIN <= a - b <= i32::MAX,
        a.try_mul_spec(b) is Ok <==> i32::MIN <= a * b <= i32::MAX,
        a.try_div_spec(b) is Ok <==> b != 0 && !(a == i32::MIN && b == -1),
        a.try_rem_spec(b) is Ok <==> b != 0,
        a.try_neg_spec() is Ok <==> a != i32::MIN,
{
}

/// The saturating clamp law on `i32`: wherever the checked form of add, sub
/// or mul fails with `Overflow` the saturating form returns `i32::MAX`,
/// wherever it fails with `Underflow` the saturating form returns
/// `i32::MIN`, and wherever it succeeds both forms return the same value.
pub proof fn lemma_saturating_clamp_i32(a: i32, b: i32)
    ensures
        a.try_add_spec(b) is Ok ==> a.saturating_add_spec(b) == a.try_add_spec(b)->Ok_0,
        a.try_add_spec(b) == Err::<i32, RangeError>(RangeError::Overflow)
            ==> a.saturating_add_spec(b) == i32::MAX,
        a.try_add_spec(b) == Err::<i32, RangeError>(RangeError::Underflow)
            ==> a.saturating_add_spec(b) == i32::MIN,
        a.try_sub_spec(b) is Ok ==> a.saturating_sub_spec(b) == a.try_sub_spec(b)->Ok_0,
        a.try_sub_spec(b) == Err::<i32, RangeError>(RangeError::Overflow)
            ==> a.saturating_sub_spec(b) == i32::MAX,
        a.try_sub_spec(b) == Err::<i32, RangeError>(RangeError::Underflow)
            ==> a.saturating_sub_spec(b) == i32::MIN,
        a.try_mul_spec(b) is Ok ==> a.saturating_mul_spec(b) == a.try_mul_spec(b)->Ok_0,
        a.try_mul_spec(b) == Err::<i32, RangeError>(RangeError::Overflow)
            ==> a.saturating_mul_spec(b) == i32::MAX,
        a.try_mul_spec(b) == Err::<i32, RangeError>(RangeError::Underflow)
            ==> a.saturating_mul_spec(b) == i32::MIN,
{
}

/// Wrapping consistency on `i32`: the wrapping form of add, sub or mul is
/// the true result reduced into the representable range modulo the size of
/// the value space, and so agrees with the checked form whenever the latter
/// succeeds.
pub proof fn lemma_wrapping_consistency_i32(a: i32, b: i32)
    ensures
        a.wrapping_add_spec(b) == wrap_signed(a + b, i32::MAX as int, 2 * (i32::MAX as int + 1)),
        a.wrapping_sub_spec(b) == wrap_signed(a - b, i32::MAX as int, 2 * (i32::MAX as int + 1)),
        a.wrapping_mul_spec(b) == wrap_signed(a * b, i32::MAX as int, 2 * (i32::MAX as int + 1)),
        a.try_add_spec(b) is Ok ==> a.wrapping_add_spec(b) == a.try_add_spec(b)->Ok_0,
        a.try_sub_spec(b) is Ok ==> a.wrapping_sub_spec(b) == a.try_sub_spec(b)->Ok_0,
        a.try_mul_spec(b) is Ok ==> a.wrapping_mul_spec(b) == a.try_mul_spec(b)->Ok_0,
{
    lemma_wrap_signed_cases(a + b, i32::MAX as int, 2 * (i32::MAX as int + 1));
    lemma_wrap_signed_cases(a - b, i32::MAX as int, 2 * (i32::MAX as int + 1));
    lemma_wrap_signed_cases(a * b, i32::MAX as int, 2 * (i32::MAX as int + 1));
}

/// Totality: every checked operator on `i64` returns a value exactly when the
/// true result is representable (for the remainder: whenever the divisor is
/// nonzero), and a classified error otherwise.
pub proof fn lemma_try_ops_total_i64(a: i64, b: i64)
    ensures
        a.try_add_spec(b) is Ok <==> i64::MIN <= a + b <= i64::MAX,
        a.try_sub_spec(b) is Ok <==> i64::MIN <= a - b <= i64::MAX,
        a.try_mul_spec(b) is Ok <==> i64::MIN <= a * b <= i64::MAX,
        a.try_div_spec(b) is Ok <==> b != 0 && !(a == i64::MIN && b == -1),
        a.try_rem_spec(b) is Ok <==> b != 0,
        a.try_neg_spec() is Ok <==> a != i64::MIN,
{
}

/// The saturating clamp law on `i64`: wherever the checked form of add, sub
/// or mul fails with `Overflow` the saturating form returns `i64::MAX`,
/// wherever it fails with `Underflow` the saturating form returns
/// `i64::MIN`, and wherever it succeeds both forms return the same value.
pub proof fn lemma_saturating_clamp_i64(a: i64, b: i64)
    ensures
        a.try_add_spec(b) is Ok ==> a.saturating_add_spec(b) == a.try_add_spec(b)->Ok_0,
        a.try_add_spec(b) == Err::<i64, RangeError>(RangeError::Overflow)
            ==> a.saturating_add_spec(b) == i64::MAX,
        a.try_add_spec(b) == Err::<i64, RangeError>(RangeError::Underflow)
            ==> a.saturating_add_spec(b) == i64::MIN,
        a.try_sub_spec(b) is Ok ==> a.saturating_sub_spec(b) == a.try_sub_spec(b)->Ok_0,
        a.try_sub_spec(b) == Err::<i64, RangeError>(RangeError::Overflow)
            ==> a.saturating_sub_spec(b) == i64::MAX,
        a.try_sub_spec(b) == Err::<i64, RangeError>(RangeError::Underflow)
            ==> a.saturating_sub_spec(b) == i64::MIN,
        a.try_mul_spec(b) is Ok ==> a.saturating_mul_spec(b) == a.try_mul_spec(b)->Ok_0,
        a.try_mul_spec(b) == Err::<i64, RangeError>(RangeError::Overflow)
            ==> a.saturating_mul_spec(b) == i64::MAX,
        a.try_mul_spec(b) == Err::<i64, RangeError>(RangeError::Underflow)
            ==> a.saturating_mul_spec(b) == i64::MIN,
{
}

/// Wrapping consistency on `i64`: the wrapping form of add, sub or mul is
/// the true result reduced into the representable range modulo the size of
/// the value space, and so agrees with the checked form whenever the latter
/// succeeds.
pub proof fn lemma_wrapping_consistency_i64(a: i64, b: i64)
    ensures
        a.wrapping_add_spec(b) == wrap_signed(a + b, i64::MAX as int, 2 * (i64::MAX as int + 1)),
        a.wrapping_sub_spec(b) == wrap_signed(a - b, i64::MAX as int, 2 * (i64::MAX as int + 1)),
        a.wrapping_mul_spec(b) == wrap_signed(a * b, i64::MAX as int, 2 * (i64::MAX as int + 1)),
        a.try_add_spec(b) is Ok ==> a.wrapping_add_spec(b) == a.try_add_spec(b)->Ok_0,
        a.try_sub_spec(b) is Ok ==> a.wrapping_sub_spec(b) == a.try_sub_spec(b)->Ok_0,
        a.try_mul_spec(b) is Ok ==> a.wrapping_mul_spec(b) == a.try_mul_spec(b)->Ok_0,
{
    lemma_wrap_signed_cases(a + b, i64::MAX as int, 2 * (i64::MAX as int + 1));
    lemma_wrap_signed_cases(a - b, i64::MAX as int, 2 * (i64::MAX as int + 1));
    lemma_wrap_signed_cases(a * b, i64::MAX as int, 2 * (i64::MAX as int + 1));
}

/// Totality: every checked operator on `i128` returns a value exactly when the
/// true result is representable (for the remainder: whenever the divisor is
/// nonzero), and a classified error otherwise.
pub proof fn lemma_try_ops_total_i128(a: i128, b: i128)
    ensures
        a.try_add_spec(b) is Ok <==> i128::MIN <= a + b <= i128::MAX,
        a.try_sub_spec(b) is Ok <==> i128::MIN <= a - b <= i128::MAX,
        a.try_mul_spec(b) is Ok <==> i128::MIN <= a * b <= i128::MAX,
        a.try_div_spec(b) is Ok <==> b != 0 && !(a == i128::MIN && b == -1),
        a.try_rem_spec(b) is Ok <==> b != 0,
        a.try_neg_spec() is Ok <==> a != i128::MIN,
{
}

/// The saturating clamp law on `i128`: wherever the checked form of add, sub
/// or mul fails with `Overflow` the saturating form returns `i128::MAX`,
/// wherever it fails with `Underflow` the saturating form returns
/// `i128::MIN`, and wherever it succeeds both forms return the same value.
pub proof fn lemma_saturating_clamp_i128(a: i128, b: i128)
    ensures
        a.try_add_spec(b) is Ok ==> a.saturating_add_spec(b) == a.try_add_spec(b)->Ok_0,
        a.try_add_spec(b) == Err::<i128, RangeError>(RangeError::Overflow)
            ==> a.saturating_add_spec(b) == i128::MAX,
        a.try_add_spec(b) == Err::<i128, RangeError>(RangeError::Underflow)
            ==> a.saturating_add_spec(b) == i128::MIN,
        a.try_sub_spec(b) is Ok ==> a.saturating_sub_spec(b) == a.try_sub_spec(b)->Ok_0,
        a.try_sub_spec(b) == Err::<i128, RangeError>(RangeError::Overflow)
            ==> a.saturating_sub_spec(b) == i128::MAX,
        a.try_sub_spec(b) == Err::<i128, RangeError>(RangeError::Underflow)
            ==> a.saturating_sub_spec(b) == i128::MIN,
        a.try_mul_spec(b) is Ok ==> a.saturating_mul_spec(b) == a.try_mul_spec(b)->Ok_0,
        a.try_mul_spec(b) == Err::<i128, RangeError>(RangeError::Overflow)
            ==> a.saturating_mul_spec(b) == i128::MAX,
        a.try_mul_spec(b) == Err::<i128, RangeError>(RangeError::Underflow)
            ==> a.saturating_mul_spec(b) == i128::MIN,
{
}

/// Wrapping consistency on `i128`: the wrapping form of add, sub or mul is
/// the true result reduced into the representable range modulo the size of
/// the value space, and so agrees with the checked form whenever the latter
/// succeeds.
pub proof fn lemma_wrapping_consistency_i128(a: i128, b: i128)
    ensures
        a.wrapping_add_spec(b) == wrap_signed(a + b, i128::MAX as int, 2 * (i128::MAX as int + 1)),
        a.wrapping_sub_spec(b) == wrap_signed(a - b, i128::MAX as int, 2 * (i128::MAX as int + 1)),
        a.wrapping_mul_spec(b) == wrap_signed(a * b, i128::MAX as int, 2 * (i128::MAX as int + 1)),
        a.try_add_spec(b) is Ok ==> a.wrapping_add_spec(b) == a.try_add_spec(b)->Ok_0,
        a.try_sub_spec(b) is Ok ==> a.wrapping_sub_spec(b) == a.try_sub_spec(b)->Ok_0,
        a.try_mul_spec(b) is Ok ==> a.wrapping_mul_spec(b) == a.try_mul_spec(b)->Ok_0,
{
    lemma_wrap_signed_cases(a + b, i128::MAX as int, 2 * (i128::MAX as int + 1));
    lemma_wrap_signed_cases(a - b, i128::MAX as int, 2 * (i128::MAX as int + 1));
    lemma_wrap_signed_cases(a * b, i128::MAX as int, 2 * (i128::MAX as int + 1));
}

/// Totality: every checked operator on `isize` returns a value exactly when the
/// true result is representable (for the remainder: whenever the divisor is
/// nonzero), and a classified error otherwise.
pub proof fn lemma_try_ops_total_isize(a: isize, b: isize)
    ensures
        a.try_add_spec(b) is Ok <==> isize::MIN <= a + b <= isize::MAX,
        a.try_sub_spec(b) is Ok <==> isize::MIN <= a - b <= isize::MAX,
        a.try_mul_spec(b) is Ok <==> isize::MIN <= a * b <= isize::MAX,
        a.try_div_spec(b) is Ok <==> b != 0 && !(a == isize::MIN && b == -1),
        a.try_rem_spec(b) is Ok <==> b != 0,
        a.try_neg_spec() is Ok <==> a != isize::MIN,
{
}

/// The saturating clamp law on `isize`: wherever the checked form of add, sub
/// or mul fails with `Overflow` the saturating form returns `isize::MAX`,
/// wherever it fails with `Underflow` the saturating form returns
/// `isize::MIN`, and wherever it succeeds both forms return the same value.
pub proof fn lemma_saturating_clamp_isize(a: isize, b: isize)
    ensures
        a.try_add_spec(b) is Ok ==> a.saturating_add_spec(b) == a.try_add_spec(b)->Ok_0,
        a.try_add_spec(b) == Err::<isize, RangeError>(RangeError::Overflow)
            ==> a.saturating_add_spec(b) == isize::MAX,
        a.try_add_spec(b) == Err::<isize, RangeError>(RangeError::Underflow)
            ==> a.saturating_add_spec(b) == isize::MIN,
        a.try_sub_spec(b) is Ok ==> a.saturating_sub_spec(b) == a.try_sub_spec(b)->Ok_0,
        a.try_sub_spec(b) == Err::<isize, RangeError>(RangeError::Overflow)
            ==> a.saturating_sub_spec(b) == isize::MAX,
        a.try_sub_spec(b) == Err::<isize, RangeError>(RangeError::Underflow)
            ==> a.saturating_sub_spec(b) == isize::MIN,
        a.try_mul_spec(b) is Ok ==> a.saturating_mul_spec(b) == a.try_mul_spec(b)->Ok_0,
        a.try_mul_spec(b) == Err::<isize, RangeError>(RangeError::Overflow)
            ==> a.saturating_mul_spec(b) == isize::MAX,
        a.try_mul_spec(b) == Err::<isize, RangeError>(RangeError::Underflow)
            ==> a.saturating_mul_spec(b) == isize::MIN,
{
}

/// Wrapping consistency on `isize`: the wrapping form of add, sub or mul is
/// the true result reduced into the representable range modulo the size of
/// the value space, and so agrees with the checked form whenever the latter
/// succeeds.
pub proof fn lemma_wrapping_consistency_isize(a: isize, b: isize)
    ensures
        a.wrapping_add_spec(b) == wrap_signed(a + b, isize::MAX as int, 2 * (isize::MAX as int + 1)),
        a.wrapping_sub_spec(b) == wrap_signed(a - b, isize::MAX as int, 2 * (isize::MAX as int + 1)),
        a.wrapping_mul_spec(b) == wrap_signed(a * b, isize::MAX as int, 2 * (isize::MAX as int + 1)),
        a.try_add_spec(b) is Ok ==> a.wrapping_add_spec(b) == a.try_add_spec(b)->Ok_0,
        a.try_sub_spec(b) is Ok ==> a.wrapping_sub_spec(b) == a.try_sub_spec(b)->Ok_0,
        a.try_mul_spec(b) is Ok ==> a.wrapping_mul_spec(b) == a.try_mul_spec(b)->Ok_0,
{
    lemma_wrap_signed_cases(a + b, isize::MAX as int, 2 * (isize::MAX as int + 1));
    lemma_wrap_signed_cases(a - b, isize::MAX as int, 2 * (isize::MAX as int + 1));
    lemma_wrap_signed_cases(a * b, isize::MAX as int, 2 * (isize::MAX as int + 1));
}

/// Totality: every checked operator on `u8` returns a value exactly when the
/// true result is representable (for the remainder: whenever the divisor is
/// nonzero), and a classified error otherwise.
pub proof fn lemma_try_ops_total_u8(a: u8, b: u8)
    ensures
        a.try_add_spec(b) is Ok <==> a + b <= u8::MAX,
        a.try_sub_spec(b) is Ok <==> a - b >= 0,
        a.try_mul_spec(b) is Ok <==> a * b <= u8::MAX,
        a.try_div_spec(b) is Ok <==> b != 0,
        a.try_rem_spec(b) is Ok <==> b != 0,
        a.try_neg_spec() is Ok <==> a == 0,
{
}

/// The saturating clamp law on `u8`: wherever the checked form of add or
/// mul fails (always with `Overflow`) the saturating form returns
/// `u8::MAX`, wherever the checked form of sub fails (always with
/// `Underflow`) the saturating form returns `u8::MIN`, and wherever the
/// checked form succeeds both forms return the same value.
pub proof fn lemma_saturating_clamp_u8(a: u8, b: u8)
    ensures
        a.try_add_spec(b) is Ok ==> a.saturating_add_spec(b) == a.try_add_spec(b)->Ok_0,
        a.try_add_spec(b) == Err::<u8, Overflow>(Overflow) ==> a.saturating_add_spec(b)
            == u8::MAX,
        a.try_sub_spec(b) is Ok ==> a.saturating_sub_spec(b) == a.try_sub_spec(b)->Ok_0,
        a.try_sub_spec(b) == Err::<u8, Underflow>(Underflow) ==> a.saturating_sub_spec(b)
            == u8::MIN,
        a.try_mul_spec(b) is Ok ==> a.saturating_mul_spec(b) == a.try_mul_spec(b)->Ok_0,
        a.try_mul_spec(b) == Err::<u8, Overflow>(Overflow) ==> a.saturating_mul_spec(b)
            == u8::MAX,
{
    lemma_mul_sign(a as int, b as int);
}

/// Wrapping consistency on `u8`: the wrapping form of add, sub or mul is
/// the true result reduced into the representable range modulo the size of
/// the value space, and so agrees with the checked form whenever the latter
/// succeeds.
pub proof fn lemma_wrapping_consistency_u8(a: u8, b: u8)
    ensures
        a.wrapping_add_spec(b) == wrap_unsigned(a + b, u8::MAX as int + 1),
        a.wrapping_sub_spec(b) == wrap_unsigned(a - b, u8::MAX as int + 1),
        a.wrapping_mul_spec(b) == wrap_unsigned(a * b, u8::MAX as int + 1),
        a.try_add_spec(b) is Ok ==> a.wrapping_add_spec(b) == a.try_add_spec(b)->Ok_0,
        a.try_sub_spec(b) is Ok ==> a.wrapping_sub_spec(b) == a.try_sub_spec(b)->Ok_0,
        a.try_mul_spec(b) is Ok ==> a.wrapping_mul_spec(b) == a.try_mul_spec(b)->Ok_0,
{
    lemma_mul_sign(a as int, b as int);
    lemma_wrap_unsigned_cases(a + b, u8::MAX as int + 1);
    lemma_wrap_unsigned_cases(a - b, u8::MAX as int + 1);
    lemma_wrap_unsigned_cases(a * b, u8::MAX as int + 1);
}

/// Totality: every checked operator on `u16` returns a value exactly when the
/// true result is representable (for the remainder: whenever the divisor is
/// nonzero), and a classified error otherwise.
pub proof fn lemma_try_ops_total_u16(a: u16, b: u16)
    ensures
        a.try_add_spec(b) is Ok <==> a + b <= u16::MAX,
        a.try_sub_spec(b) is Ok <==> a - b >= 0,
        a.try_mul_spec(b) is Ok <==> a * b <= u16::MAX,
        a.try_div_spec(b) is Ok <==> b != 0,
        a.try_rem_spec(b) is Ok <==> b != 0,
        a.try_neg_spec() is Ok <==> a == 0,
{
}

/// The saturating clamp law on `u16`: wherever the checked form of add or
/// mul fails (always with `Overflow`) the saturating form returns
/// `u16::MAX`, wherever the checked form of sub fails (always with
/// `Underflow`) the saturating form returns `u16::MIN`, and wherever the
/// checked form succeeds both forms return the same value.
pub proof fn lemma_saturating_clamp_u16(a: u16, b: u16)
    ensures
        a.try_add_spec(b) is Ok ==> a.saturating_add_spec(b) == a.try_add_spec(b)->Ok_0,
        a.try_add_spec(b) == Err::<u16, Overflow>(Overflow) ==> a.saturating_add_spec(b)
            == u16::MAX,
        a.try_sub_spec(b) is Ok ==> a.saturating_sub_spec(b) == a.try_sub_spec(b)->Ok_0,
        a.try_sub_spec(b) == Err::<u16, Underflow>(Underflow) ==> a.saturating_sub_spec(b)
            == u16::MIN,
        a.try_mul_spec(b) is Ok ==> a.saturating_mul_spec(b) == a.try_mul_spec(b)->Ok_0,
        a.try_mul_spec(b) == Err::<u16, Overflow>(Overflow) ==> a.saturating_mul_spec(b)
            == u16::MAX,
{
    lemma_mul_sign(a as int, b as int);
}

/// Wrapping consistency on `u16`: the wrapping form of add, sub or mul is
/// the true result reduced into the representable range modulo the size of
/// the value space, and so agrees with the checked form whenever the latter
/// succeeds.
pub proof fn lemma_wrapping_consistency_u16(a: u16, b: u16)
    ensures
        a.wrapping_add_spec(b) == wrap_unsigned(a + b, u16::MAX as int + 1),
        a.wrapping_sub_spec(b) == wrap_unsigned(a - b, u16::MAX as int + 1),
        a.wrapping_mul_spec(b) == wrap_unsigned(a * b, u16::MAX as int + 1),
        a.try_add_spec(b) is Ok ==> a.wrapping_add_spec(b) == a.try_add_spec(b)->Ok_0,
        a.try_sub_spec(b) is Ok ==> a.wrapping_sub_spec(b) == a.try_sub_spec(b)->Ok_0,
        a.try_mul_spec(b) is Ok ==> a.wrapping_mul_spec(b) == a.try_mul_spec(b)->Ok_0,
{
    lemma_mul_sign(a as int, b as int);
    lemma_wrap_unsigned_cases(a + b, u16::MAX as int + 1);
    lemma_wrap_unsigned_cases(a - b, u16::MAX as int + 1);
    lemma_wrap_unsigned_cases(a * b, u16::MAX as int + 1);
}

/// Totality: every checked operator on `u32` returns a value exactly when the
/// true result is representable (for the remainder: whenever the divisor is
/// nonzero), and a classified error otherwise.
pub proof fn lemma_try_ops_total_u32(a: u32, b: u32)
    ensures
        a.try_add_spec(b) is Ok <==> a + b <= u32::MAX,
        a.try_sub_spec(b) is Ok <==> a - b >= 0,
        a.try_mul_spec(b) is Ok <==> a * b <= u32::MAX,
        a.try_div_spec(b) is Ok <==> b != 0,
        a.try_rem_spec(b) is Ok <==> b != 0,
        a.try_neg_spec() is Ok <==> a == 0,
{
}

/// The saturating clamp law on `u32`: wherever the checked form of add or
/// mul fails (always with `Overflow`) the saturating form returns
/// `u32::MAX`, wherever the checked form of sub fails (always with
/// `Underflow`) the saturating form returns `u32::MIN`, and wherever the
/// checked form succeeds both forms return the same value.
pub proof fn lemma_saturating_clamp_u32(a: u32, b: u32)
    ensures
        a.try_add_spec(b) is Ok ==> a.saturating_add_spec(b) == a.try_add_spec(b)->Ok_0,
        a.try_add_spec(b) == Err::<u32, Overflow>(Overflow) ==> a.saturating_add_spec(b)
            == u32::MAX,
        a.try_sub_spec(b) is Ok ==> a.saturating_sub_spec(b) == a.try_sub_spec(b)->Ok_0,
        a.try_sub_spec(b) == Err::<u32, Underflow>(Underflow) ==> a.saturating_sub_spec(b)
            == u32::MIN,
        a.try_mul_spec(b) is Ok ==> a.saturating_mul_spec(b) == a.try_mul_spec(b)->Ok_0,
        a.try_mul_spec(b) == Err::<u32, Overflow>(Overflow) ==> a.saturating_mul_spec(b)
            == u32::MAX,
{
    lemma_mul_sign(a as int, b as int);
}

/// Wrapping consistency on `u32`: the wrapping form of add, sub or mul is
/// the true result reduced into the representable range modulo the size of
/// the value space, and so agrees with the checked form whenever the latter
/// succeeds.
pub proof fn lemma_wrapping_consistency_u32(a: u32, b: u32)
    ensures
        a.wrapping_add_spec(b) == wrap_unsigned(a + b, u32::MAX as int + 1),
        a.wrapping_sub_spec(b) == wrap_unsigned(a - b, u32::MAX as int + 1),
        a.wrapping_mul_spec(b) == wrap_unsigned(a * b, u32::MAX as int + 1),
        a.try_add_spec(b) is Ok ==> a.wrapping_add_spec(b) == a.try_add_spec(b)->Ok_0,
        a.try_sub_spec(b) is Ok ==> a.wrapping_sub_spec(b) == a.try_sub_spec(b)->Ok_0,
        a.try_mul_spec(b) is Ok ==> a.wrapping_mul_spec(b) == a.try_mul_spec(b)->Ok_0,
{
    lemma_mul_sign(a as int, b as int);
    lemma_wrap_unsigned_cases(a + b, u32::MAX as int + 1);
    lemma_wrap_unsigned_cases(a - b, u32::MAX as int + 1);
    lemma_wrap_unsigned_cases(a * b, u32::MAX as int + 1);
}

/// Totality: every checked operator on `u64` returns a value exactly when the
/// true result is representable (for the remainder: whenever the divisor is
/// nonzero), and a classified error otherwise.
pub proof fn lemma_try_ops_total_u64(a: u64, b: u64)
    ensures
        a.try_add_spec(b) is Ok <==> a + b <= u64::MAX,
        a.try_sub_spec(b) is Ok <==> a - b >= 0,
        a.try_mul_spec(b) is Ok <==> a * b <= u64::MAX,
        a.try_div_spec(b) is Ok <==> b != 0,
        a.try_rem_spec(b) is Ok <==> b != 0,
        a.try_neg_spec() is Ok <==> a == 0,
{
}

/// The saturating clamp law on `u64`: wherever the checked form of add or
/// mul fails (always with `Overflow`) the saturating form returns
/// `u64::MAX`, wherever the checked form of sub fails (always with
/// `Underflow`) the saturating form returns `u64::MIN`, and wherever the
/// checked form succeeds both forms return the same value.
pub proof fn lemma_saturating_clamp_u64(a: u64, b: u64)
    ensures
        a.try_add_spec(b) is Ok ==> a.saturating_add_spec(b) == a.try_add_spec(b)->Ok_0,
        a.try_add_spec(b) == Err::<u64, Overflow>(Overflow) ==> a.saturating_add_spec(b)
            == u64::MAX,
        a.try_sub_spec(b) is Ok ==> a.saturating_sub_spec(b) == a.try_sub_spec(b)->Ok_0,
        a.try_sub_spec(b) == Err::<u64, Underflow>(Underflow) ==> a.saturating_sub_spec(b)
            == u64::MIN,
        a.try_mul_spec(b) is Ok ==> a.saturating_mul_spec(b) == a.try_mul_spec(b)->Ok_0,
        a.try_mul_spec(b) == Err::<u64, Overflow>(Overflow) ==> a.saturating_mul_spec(b)
            == u64::MAX,
{
    lemma_mul_sign(a as int, b as int);
}

/// Wrapping consistency on `u64`: the wrapping form of add, sub or mul is
/// the true result reduced into the representable range modulo the size of
/// the value space, and so agrees with the checked form whenever the latter
/// succeeds.
pub proof fn lemma_wrapping_consistency_u64(a: u64, b: u64)
    ensures
        a.wrapping_add_spec(b) == wrap_unsigned(a + b, u64::MAX as int + 1),
        a.wrapping_sub_spec(b) == wrap_unsigned(a - b, u64::MAX as int + 1),
        a.wrapping_mul_spec(b) == wrap_unsigned(a * b, u64::MAX as int + 1),
        a.try_add_spec(b) is Ok ==> a.wrapping_add_spec(b) == a.try_add_spec(b)->Ok_0,
        a.try_sub_spec(b) is Ok ==> a.wrapping_sub_spec(b) == a.try_sub_spec(b)->Ok_0,
        a.try_mul_spec(b) is Ok ==> a.wrapping_mul_spec(b) == a.try_mul_spec(b)->Ok_0,
{
    lemma_mul_sign(a as int, b as int);
    lemma_wrap_unsigned_cases(a + b, u64::MAX as int + 1);
    lemma_wrap_unsigned_cases(a - b, u64::MAX as int + 1);
    lemma_wrap_unsigned_cases(a * b, u64::MAX as int + 1);
}

/// Totality: every checked operator on `u128` returns a value exactly when the
/// true result is representable (for the remainder: whenever the divisor is
/// nonzero), and a classified error otherwise.
pub proof fn lemma_try_ops_total_u128(a: u128, b: u128)
    ensures
        a.try_add_spec(b) is Ok <==> a + b <= u128::MAX,
        a.try_sub_spec(b) is Ok <==> a - b >= 0,
        a.try_mul_spec(b) is Ok <==> a * b <= u128::MAX,
        a.try_div_spec(b) is Ok <==> b != 0,
        a.try_rem_spec(b) is Ok <==> b != 0,
        a.try_neg_spec() is Ok <==> a == 0,
{
}

/// The saturating clamp law on `u128`: wherever the checked form of add or
/// mul fails (always with `Overflow`) the saturating form returns
/// `u128::MAX`, wherever the checked form of sub fails (always with
/// `Underflow`) the saturating form returns `u128::MIN`, and wherever the
/// checked form succeeds both forms return the same value.
pub proof fn lemma_saturating_clamp_u128(a: u128, b: u128)
    ensures
        a.try_add_spec(b) is Ok ==> a.saturating_add_spec(b) == a.try_add_spec(b)->Ok_0,
        a.try_add_spec(b) == Err::<u128, Overflow>(Overflow) ==> a.saturating_add_spec(b)
            == u128::MAX,
        a.try_sub_spec(b) is Ok ==> a.saturating_sub_spec(b) == a.try_sub_spec(b)->Ok_0,
        a.try_sub_spec(b) == Err::<u128, Underflow>(Underflow) ==> a.saturating_sub_spec(b)
            == u128::MIN,
        a.try_mul_spec(b) is Ok ==> a.saturating_mul_spec(b) == a.try_mul_spec(b)->Ok_0,
        a.try_mul_spec(b) == Err::<u128, Overflow>(Overflow) ==> a.saturating_mul_spec(b)
            == u128::MAX,
{
    lemma_mul_sign(a as int, b as int);
}

/// Wrapping consistency on `u128`: the wrapping form of add, sub or mul is
/// the true result reduced into the representable range modulo the size of
/// the value space, and so agrees with the checked form whenever the latter
/// succeeds.
pub proof fn lemma_wrapping_consistency_u128(a: u128, b: u128)
    ensures
        a.wrapping_add_spec(b) == wrap_unsigned(a + b, u128::MAX as int + 1),
        a.wrapping_sub_spec(b) == wrap_unsigned(a - b, u128::MAX as int + 1),
        a.wrapping_mul_spec(b) == wrap_unsigned(a * b, u128::MAX as int + 1),
        a.try_add_spec(b) is Ok ==> a.wrapping_add_spec(b) == a.try_add_spec(b)->Ok_0,
        a.try_sub_spec(b) is Ok ==> a.wrapping_sub_spec(b) == a.try_sub_spec(b)->Ok_0,
        a.try_mul_spec(b) is Ok ==> a.wrapping_mul_spec(b) == a.try_mul_spec(b)->Ok_0,
{
    lemma_mul_sign(a as int, b as int);
    lemma_wrap_unsigned_cases(a + b, u128::MAX as int + 1);
    lemma_wrap_unsigned_cases(a - b, u128::MAX as int + 1);
    lemma_wrap_unsigned_cases(a * b, u128::MAX as int + 1);
}

/// Totality: every checked operator on `usize` returns a value exactly when the
/// true result is representable (for the remainder: whenever the divisor is
/// nonzero), and a classified error otherwise.
pub proof fn lemma_try_ops_total_usize(a: usize, b: usize)
    ensures
        a.try_add_spec(b) is Ok <==> a + b <= usize::MAX,
        a.try_sub_spec(b) is Ok <==> a - b >= 0,
        a.try_mul_spec(b) is Ok <==> a * b <= usize::MAX,
        a.try_div_spec(b) is Ok <==> b != 0,
        a.try_rem_spec(b) is Ok <==> b != 0,
        a.try_neg_spec() is Ok <==> a == 0,
{
}

/// The saturating clamp law on `usize`: wherever the checked form of add or
/// mul fails (always with `Overflow`) the saturating form returns
/// `usize::MAX`, wherever the checked form of sub fails (always with
/// `Underflow`) the saturating form returns `usize::MIN`, and wherever the
/// checked form succeeds both forms return the same value.
pub proof fn lemma_saturating_clamp_usize(a: usize, b: usize)
    ensures
        a.try_add_spec(b) is Ok ==> a.saturating_add_spec(b) == a.try_add_spec(b)->Ok_0,
        a.try_add_spec(b) == Err::<usize, Overflow>(Overflow) ==> a.saturating_add_spec(b)
            == usize::MAX,
        a.try_sub_spec(b) is Ok ==> a.saturating_sub_spec(b) == a.try_sub_spec(b)->Ok_0,
        a.try_sub_spec(b) == Err::<usize, Underflow>(Underflow) ==> a.saturating_sub_spec(b)
            == usize::MIN,
        a.try_mul_spec(b) is Ok ==> a.saturating_mul_spec(b) == a.try_mul_spec(b)->Ok_0,
        a.try_mul_spec(b) == Err::<usize, Overflow>(Overflow) ==> a.saturating_mul_spec(b)
            == usize::MAX,
{
    lemma_mul_sign(a as int, b as int);
}

/// Wrapping consistency on `usize`: the wrapping form of add, sub or mul is
/// the true result reduced into the representable range modulo the size of
/// the value space, and so agrees with the checked form whenever the latter
/// succeeds.
pub proof fn lemma_wrapping_consistency_usize(a: usize, b: usize)
    ensures
        a.wrapping_add_spec(b) == wrap_unsigned(a + b, usize::MAX as int + 1),
        a.wrapping_sub_spec(b) == wrap_unsigned(a - b, usize::MAX as int + 1),
        a.wrapping_mul_spec(b) == wrap_unsigned(a * b, usize::MAX as int + 1),
        a.try_add_spec(b) is Ok ==> a.wrapping_add_spec(b) == a.try_add_spec(b)->Ok_0,
        a.try_sub_spec(b) is Ok ==> a.wrapping_sub_spec(b) == a.try_sub_spec(b)->Ok_0,
        a.try_mul_spec(b) is Ok ==> a.wrapping_mul_spec(b) == a.try_mul_spec(b)->Ok_0,
{
    lemma_mul_sign(a as int, b as int);
    lemma_wrap_unsigned_cases(a + b, usize::MAX as int + 1);
    lemma_wrap_unsigned_cases(a - b, usize::MAX as int + 1);
    lemma_wrap_unsigned_cases(a * b, usize::MAX as int + 1);
}

} // verus!
