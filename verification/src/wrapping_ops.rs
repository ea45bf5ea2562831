//! Wrapping operators: they reduce the true result modulo the type's value
//! space, two's-complement wraparound for signed types and direct modulo for
//! unsigned ones.

use vstd::prelude::*;
use crate::math::{lemma_wrap_signed_cases, lemma_wrap_unsigned_cases, wrap_signed, wrap_unsigned};

verus! {

/// Addition operator which wraps around the type's boundaries in case of
/// overflow or underflow.
pub trait WrappingAdd<Rhs = Self>: Sized {
    type Output;

    /// The exact result `wrapping_add` returns.
    spec fn wrapping_add_spec(self, rhs: Rhs) -> Self::Output;

    fn wrapping_add(self, rhs: Rhs) -> (r: Self::Output)
        ensures
            r == self.wrapping_add_spec(rhs),
    ;
}

/// Multiplication operator which wraps around the type's boundaries in case of
/// overflow or underflow.
pub trait WrappingMul<Rhs = Self>: Sized {
    type Output;

    /// The exact result `wrapping_mul` returns.
    spec fn wrapping_mul_spec(self, rhs: Rhs) -> Self::Output;

    fn wrapping_mul(self, rhs: Rhs) -> (r: Self::Output)
        ensures
            r == self.wrapping_mul_spec(rhs),
    ;
}

/// Negation operator which wraps around the type's boundaries in case of
/// overflow or underflow.
pub trait WrappingNeg: Sized {
    type Output;

    /// The exact result `wrapping_neg` returns.
    spec fn wrapping_neg_spec(self) -> Self::Output;

    fn wrapping_neg(self) -> (r: Self::Output)
        ensures
            r == self.wrapping_neg_spec(),
    ;
}

/// Subtraction operator which wraps around the type's boundaries in case of
/// overflow or underflow.
pub trait WrappingSub<Rhs = Self>: Sized {
    type Output;

    /// The exact result `wrapping_sub` returns.
    spec fn wrapping_sub_spec(self, rhs: Rhs) -> Self::Output;

    fn wrapping_sub(self, rhs: Rhs) -> (r: Self::Output)
        ensures
            r == self.wrapping_sub_spec(rhs),
    ;
}

impl<'a, Rhs, T: WrappingAdd<Rhs> + Copy> WrappingAdd<Rhs> for &'a T {
    type Output = <T as WrappingAdd<Rhs>>::Output;

    open spec fn wrapping_add_spec(self, rhs: Rhs) -> <T as WrappingAdd<Rhs>>::Output {
        (*self).wrapping_add_spec(rhs)
    }

    fn wrapping_add(self, rhs: Rhs) -> (r: <T as WrappingAdd<Rhs>>::Output) {
        WrappingAdd::wrapping_add(*self, rhs)
    }
}

impl<'a, Rhs, T: WrappingMul<Rhs> + Copy> WrappingMul<Rhs> for &'a T {
    type Output = <T as WrappingMul<Rhs>>::Output;

    open spec fn wrapping_mul_spec(self, rhs: Rhs) -> <T as WrappingMul<Rhs>>::Output {
        (*self).wrapping_mul_spec(rhs)
    }

    fn wrapping_mul(self, rhs: Rhs) -> (r: <T as WrappingMul<Rhs>>::Output) {
        WrappingMul::wrapping_mul(*self, rhs)
    }
}

impl<'a, T: WrappingNeg + Copy> WrappingNeg for &'a T {
    type Output = <T as WrappingNeg>::Output;

    open spec fn wrapping_neg_spec(self) -> <T as WrappingNeg>::Output {
        (*self).wrapping_neg_spec()
    }

    fn wrapping_neg(self) -> (r: <T as WrappingNeg>::Output) {
        WrappingNeg::wrapping_neg(*self)
    }
}

impl<'a, Rhs, T: WrappingSub<Rhs> + Copy> WrappingSub<Rhs> for &'a T {
    type Output = <T as WrappingSub<Rhs>>::Output;

    open spec fn wrapping_sub_spec(self, rhs: Rhs) -> <T as WrappingSub<Rhs>>::Output {
        (*self).wrapping_sub_spec(rhs)
    }

    fn wrapping_sub(self, rhs: Rhs) -> (r: <T as WrappingSub<Rhs>>::Output) {
        WrappingSub::wrapping_sub(*self, rhs)
    }
}

impl WrappingAdd for i8 {
    type Output = i8;

    open spec fn wrapping_add_spec(self, rhs: i8) -> i8 {
        wrap_signed(self + rhs, i8::MAX as int, 2 * (i8::MAX as int + 1)) as i8
    }

    fn wrapping_add(self, rhs: i8) -> (r: i8) {
        proof {
            lemma_wrap_signed_cases(self + rhs, i8::MAX as int, 2 * (i8::MAX as int + 1));
        }
        i8::wrapping_add(self, rhs)
    }
}

impl WrappingMul for i8 {
    type Output = i8;

    open spec fn wrapping_mul_spec(self, rhs: i8) -> i8 {
        wrap_signed(self * rhs, i8::MAX as int, 2 * (i8::MAX as int + 1)) as i8
    }

    fn wrapping_mul(self, rhs: i8) -> (r: i8) {
        i8::wrapping_mul(self, rhs)
    }
}

impl WrappingSub for i8 {
    type Output = i8;

    open spec fn wrapping_sub_spec(self, rhs: i8) -> i8 {
        wrap_signed(self - rhs, i8::MAX as int, 2 * (i8::MAX as int + 1)) as i8
    }

    fn wrapping_sub(self, rhs: i8) -> (r: i8) {
        proof {
            lemma_wrap_signed_cases(self - rhs, i8::MAX as int, 2 * (i8::MAX as int + 1));
        }
        i8::wrapping_sub(self, rhs)
    }
}

impl WrappingNeg for i8 {
    type Output = i8;

    open spec fn wrapping_neg_spec(self) -> i8 {
        wrap_signed(-self, i8::MAX as int, 2 * (i8::MAX as int + 1)) as i8
    }

    fn wrapping_neg(self) -> (r: i8) {
        proof {
            lemma_wrap_signed_cases(-self, i8::MAX as int, 2 * (i8::MAX as int + 1));
        }
        i8::wrapping_sub(0, self)
    }
}

impl<'r> WrappingAdd<&'r i8> for i8 {
    type Output = i8;

    open spec fn wrapping_add_spec(self, rhs: &'r i8) -> i8 {
        self.wrapping_add_spec(*rhs)
    }

    fn wrapping_add(self, rhs: &'r i8) -> (r: i8) {
        WrappingAdd::wrapping_add(self, *rhs)
    }
}

impl<'r> WrappingMul<&'r i8> for i8 {
    type Output = i8;

    open spec fn wrapping_mul_spec(self, rhs: &'r i8) -> i8 {
        self.wrapping_mul_spec(*rhs)
    }

    fn wrapping_mul(self, rhs: &'r i8) -> (r: i8) {
        WrappingMul::wrapping_mul(self, *rhs)
    }
}

impl<'r> WrappingSub<&'r i8> for i8 {
    type Output = i8;

    open spec fn wrapping_sub_spec(self, rhs: &'r i8) -> i8 {
        self.wrapping_sub_spec(*rhs)
    }

    fn wrapping_sub(self, rhs: &'r i8) -> (r: i8) {
        WrappingSub::wrapping_sub(self, *rhs)
    }
}

impl WrappingAdd for i16 {
    type Output = i16;

    open spec fn wrapping_add_spec(self, rhs: i16) -> i16 {
        wrap_signed(self + rhs, i16::MAX as int, 2 * (i16::MAX as int + 1)) as i16
    }

    fn wrapping_add(self, rhs: i16) -> (r: i16) {
        proof {
            lemma_wrap_signed_cases(self + rhs, i16::MAX as int, 2 * (i16::MAX as int + 1));
        }
        i16::wrapping_add(self, rhs)
    }
}

impl WrappingMul for i16 {
    type Output = i16;

    open spec fn wrapping_mul_spec(self, rhs: i16) -> i16 {
        wrap_signed(self * rhs, i16::MAX as int, 2 * (i16::MAX as int + 1)) as i16
    }

    fn wrapping_mul(self, rhs: i16) -> (r: i16) {
        i16::wrapping_mul(self, rhs)
    }
}

impl WrappingSub for i16 {
    type Output = i16;

    open spec fn wrapping_sub_spec(self, rhs: i16) -> i16 {
        wrap_signed(self - rhs, i16::MAX as int, 2 * (i16::MAX as int + 1)) as i16
    }

    fn wrapping_sub(self, rhs: i16) -> (r: i16) {
        proof {
            lemma_wrap_signed_cases(self - rhs, i16::MAX as int, 2 * (i16::MAX as int + 1));
        }
        i16::wrapping_sub(self, rhs)
    }
}

impl WrappingNeg for i16 {
    type Output = i16;

    open spec fn wrapping_neg_spec(self) -> i16 {
        wrap_signed(-self, i16::MAX as int, 2 * (i16::MAX as int + 1)) as i16
    }

    fn wrapping_neg(self) -> (r: i16) {
        proof {
            lemma_wrap_signed_cases(-self, i16::MAX as int, 2 * (i16::MAX as int + 1));
        }
        i16::wrapping_sub(0, self)
    }
}

impl<'r> WrappingAdd<&'r i16> for i16 {
    type Output = i16;

    open spec fn wrapping_add_spec(self, rhs: &'r i16) -> i16 {
        self.wrapping_add_spec(*rhs)
    }

    fn wrapping_add(self, rhs: &'r i16) -> (r: i16) {
        WrappingAdd::wrapping_add(self, *rhs)
    }
}

impl<'r> WrappingMul<&'r i16> for i16 {
    type Output = i16;

    open spec fn wrapping_mul_spec(self, rhs: &'r i16) -> i16 {
        self.wrapping_mul_spec(*rhs)
    }

    fn wrapping_mul(self, rhs: &'r i16) -> (r: i16) {
        WrappingMul::wrapping_mul(self, *rhs)
    }
}

impl<'r> WrappingSub<&'r i16> for i16 {
    type Output = i16;

    open spec fn wrapping_sub_spec(self, rhs: &'r i16) -> i16 {
        self.wrapping_sub_spec(*rhs)
    }

    fn wrapping_sub(self, rhs: &'r i16) -> (r: i16) {
        WrappingSub::wrapping_sub(self, *rhs)
    }
}

impl WrappingAdd for i32 {
    type Output = i32;

    open spec fn wrapping_add_spec(self, rhs: i32) -> i32 {
        wrap_signed(self + rhs, i32::MAX as int, 2 * (i32::MAX as int + 1)) as i32
    }

    fn wrapping_add(self, rhs: i32) -> (r: i32) {
        proof {
            lemma_wrap_signed_cases(self + rhs, i32::MAX as int, 2 * (i32::MAX as int + 1));
        }
        i32::wrapping_add(self, rhs)
    }
}

impl WrappingMul for i32 {
    type Output = i32;

    open spec fn wrapping_mul_spec(self, rhs: i32) -> i32 {
        wrap_signed(self * rhs, i32::MAX as int, 2 * (i32::MAX as int + 1)) as i32
    }

    fn wrapping_mul(self, rhs: i32) -> (r: i32) {
        i32::wrapping_mul(self, rhs)
    }
}

impl WrappingSub for i32 {
    type Output = i32;

    open spec fn wrapping_sub_spec(self, rhs: i32) -> i32 {
        wrap_signed(self - rhs, i32::MAX as int, 2 * (i32::MAX as int + 1)) as i32
    }

    fn wrapping_sub(self, rhs: i32) -> (r: i32) {
        proof {
            lemma_wrap_signed_cases(self - rhs, i32::MAX as int, 2 * (i32::MAX as int + 1));
        }
        i32::wrapping_sub(self, rhs)
    }
}

impl WrappingNeg for i32 {
    type Output = i32;

    open spec fn wrapping_neg_spec(self) -> i32 {
        wrap_signed(-self, i32::MAX as int, 2 * (i32::MAX as int + 1)) as i32
    }

    fn wrapping_neg(self) -> (r: i32) {
        proof {
            lemma_wrap_signed_cases(-self, i32::MAX as int, 2 * (i32::MAX as int + 1));
        }
        i32::wrapping_sub(0, self)
    }
}

impl<'r> WrappingAdd<&'r i32> for i32 {
    type Output = i32;

    open spec fn wrapping_add_spec(self, rhs: &'r i32) -> i32 {
        self.wrapping_add_spec(*rhs)
    }

    fn wrapping_add(self, rhs: &'r i32) -> (r: i32) {
        WrappingAdd::wrapping_add(self, *rhs)
    }
}

impl<'r> WrappingMul<&'r i32> for i32 {
    type Output = i32;

    open spec fn wrapping_mul_spec(self, rhs: &'r i32) -> i32 {
        self.wrapping_mul_spec(*rhs)
    }

    fn wrapping_mul(self, rhs: &'r i32) -> (r: i32) {
        WrappingMul::wrapping_mul(self, *rhs)
    }
}

impl<'r> WrappingSub<&'r i32> for i32 {
    type Output = i32;

    open spec fn wrapping_sub_spec(self, rhs: &'r i32) -> i32 {
        self.wrapping_sub_spec(*rhs)
    }

    fn wrapping_sub(self, rhs: &'r i32) -> (r: i32) {
        WrappingSub::wrapping_sub(self, *rhs)
    }
}

impl WrappingAdd for i64 {
    type Output = i64;

    open spec fn wrapping_add_spec(self, rhs: i64) -> i64 {
        wrap_signed(self + rhs, i64::MAX as int, 2 * (i64::MAX as int + 1)) as i64
    }

    fn wrapping_add(self, rhs: i64) -> (r: i64) {
        proof {
            lemma_wrap_signed_cases(self + rhs, i64::MAX as int, 2 * (i64::MAX as int + 1));
        }
        i64::wrapping_add(self, rhs)
    }
}

impl WrappingMul for i64 {
    type Output = i64;

    open spec fn wrapping_mul_spec(self, rhs: i64) -> i64 {
        wrap_signed(self * rhs, i64::MAX as int, 2 * (i64::MAX as int + 1)) as i64
    }

    fn wrapping_mul(self, rhs: i64) -> (r: i64) {
        i64::wrapping_mul(self, rhs)
    }
}

impl WrappingSub for i64 {
    type Output = i64;

    open spec fn wrapping_sub_spec(self, rhs: i64) -> i64 {
        wrap_signed(self - rhs, i64::MAX as int, 2 * (i64::MAX as int + 1)) as i64
    }

    fn wrapping_sub(self, rhs: i64) -> (r: i64) {
        proof {
            lemma_wrap_signed_cases(self - rhs, i64::MAX as int, 2 * (i64::MAX as int + 1));
        }
        i64::wrapping_sub(self, rhs)
    }
}

impl WrappingNeg for i64 {
    type Output = i64;

    open spec fn wrapping_neg_spec(self) -> i64 {
        wrap_signed(-self, i64::MAX as int, 2 * (i64::MAX as int + 1)) as i64
    }

    fn wrapping_neg(self) -> (r: i64) {
        proof {
            lemma_wrap_signed_cases(-self, i64::MAX as int, 2 * (i64::MAX as int + 1));
        }
        i64::wrapping_sub(0, self)
    }
}

impl<'r> WrappingAdd<&'r i64> for i64 {
    type Output = i64;

    open spec fn wrapping_add_spec(self, rhs: &'r i64) -> i64 {
        self.wrapping_add_spec(*rhs)
    }

    fn wrapping_add(self, rhs: &'r i64) -> (r: i64) {
        WrappingAdd::wrapping_add(self, *rhs)
    }
}

impl<'r> WrappingMul<&'r i64> for i64 {
    type Output = i64;

    open spec fn wrapping_mul_spec(self, rhs: &'r i64) -> i64 {
        self.wrapping_mul_spec(*rhs)
    }

    fn wrapping_mul(self, rhs: &'r i64) -> (r: i64) {
        WrappingMul::wrapping_mul(self, *rhs)
    }
}

impl<'r> WrappingSub<&'r i64> for i64 {
    type Output = i64;

    open spec fn wrapping_sub_spec(self, rhs: &'r i64) -> i64 {
        self.wrapping_sub_spec(*rhs)
    }

    fn wrapping_sub(self, rhs: &'r i64) -> (r: i64) {
        WrappingSub::wrapping_sub(self, *rhs)
    }
}

impl WrappingAdd for i128 {
    type Output = i128;

    open spec fn wrapping_add_spec(self, rhs: i128) -> i128 {
        wrap_signed(self + rhs, i128::MAX as int, 2 * (i128::MAX as int + 1)) as i128
    }

    fn wrapping_add(self, rhs: i128) -> (r: i128) {
        proof {
            lemma_wrap_signed_cases(self + rhs, i128::MAX as int, 2 * (i128::MAX as int + 1));
        }
        i128::wrapping_add(self, rhs)
    }
}

impl WrappingMul for i128 {
    type Output = i128;

    open spec fn wrapping_mul_spec(self, rhs: i128) -> i128 {
        wrap_signed(self * rhs, i128::MAX as int, 2 * (i128::MAX as int + 1)) as i128
    }

    fn wrapping_mul(self, rhs: i128) -> (r: i128) {
        i128::wrapping_mul(self, rhs)
    }
}

impl WrappingSub for i128 {
    type Output = i128;

    open spec fn wrapping_sub_spec(self, rhs: i128) -> i128 {
        wrap_signed(self - rhs, i128::MAX as int, 2 * (i128::MAX as int + 1)) as i128
    }

    fn wrapping_sub(self, rhs: i128) -> (r: i128) {
        proof {
            lemma_wrap_signed_cases(self - rhs, i128::MAX as int, 2 * (i128::MAX as int + 1));
        }
        i128::wrapping_sub(self, rhs)
    }
}

impl WrappingNeg for i128 {
    type Output = i128;

    open spec fn wrapping_neg_spec(self) -> i128 {
        wrap_signed(-self, i128::MAX as int, 2 * (i128::MAX as int + 1)) as i128
    }

    fn wrapping_neg(self) -> (r: i128) {
        proof {
            lemma_wrap_signed_cases(-self, i128::MAX as int, 2 * (i128::MAX as int + 1));
        }
        i128::wrapping_sub(0, self)
    }
}

impl<'r> WrappingAdd<&'r i128> for i128 {
    type Output = i128;

    open spec fn wrapping_add_spec(self, rhs: &'r i128) -> i128 {
        self.wrapping_add_spec(*rhs)
    }

    fn wrapping_add(self, rhs: &'r i128) -> (r: i128) {
        WrappingAdd::wrapping_add(self, *rhs)
    }
}

impl<'r> WrappingMul<&'r i128> for i128 {
    type Output = i128;

    open spec fn wrapping_mul_spec(self, rhs: &'r i128) -> i128 {
        self.wrapping_mul_spec(*rhs)
    }

    fn wrapping_mul(self, rhs: &'r i128) -> (r: i128) {
        WrappingMul::wrapping_mul(self, *rhs)
    }
}

impl<'r> WrappingSub<&'r i128> for i128 {
    type Output = i128;

    open spec fn wrapping_sub_spec(self, rhs: &'r i128) -> i128 {
        self.wrapping_sub_spec(*rhs)
    }

    fn wrapping_sub(self, rhs: &'r i128) -> (r: i128) {
        WrappingSub::wrapping_sub(self, *rhs)
    }
}

impl WrappingAdd for isize {
    type Output = isize;

    open spec fn wrapping_add_spec(self, rhs: isize) -> isize {
        wrap_signed(self + rhs, isize::MAX as int, 2 * (isize::MAX as int + 1)) as isize
    }

    fn wrapping_add(self, rhs: isize) -> (r: isize) {
        proof {
            lemma_wrap_signed_cases(self + rhs, isize::MAX as int, 2 * (isize::MAX as int + 1));
        }
        isize::wrapping_add(self, rhs)
    }
}

impl WrappingMul for isize {
    type Output = isize;

    open spec fn wrapping_mul_spec(self, rhs: isize) -> isize {
        wrap_signed(self * rhs, isize::MAX as int, 2 * (isize::MAX as int + 1)) as isize
    }

    fn wrapping_mul(self, rhs: isize) -> (r: isize) {
        isize::wrapping_mul(self, rhs)
    }
}

impl WrappingSub for isize {
    type Output = isize;

    open spec fn wrapping_sub_spec(self, rhs: isize) -> isize {
        wrap_signed(self - rhs, isize::MAX as int, 2 * (isize::MAX as int + 1)) as isize
    }

    fn wrapping_sub(self, rhs: isize) -> (r: isize) {
        proof {
            lemma_wrap_signed_cases(self - rhs, isize::MAX as int, 2 * (isize::MAX as int + 1));
        }
        isize::wrapping_sub(self, rhs)
    }
}

impl WrappingNeg for isize {
    type Output = isize;

    open spec fn wrapping_neg_spec(self) -> isize {
        wrap_signed(-self, isize::MAX as int, 2 * (isize::MAX as int + 1)) as isize
    }

    fn wrapping_neg(self) -> (r: isize) {
        proof {
            lemma_wrap_signed_cases(-self, isize::MAX as int, 2 * (isize::MAX as int + 1));
        }
        isize::wrapping_sub(0, self)
    }
}

impl<'r> WrappingAdd<&'r isize> for isize {
    type Output = isize;

    open spec fn wrapping_add_spec(self, rhs: &'r isize) -> isize {
        self.wrapping_add_spec(*rhs)
    }

    fn wrapping_add(self, rhs: &'r isize) -> (r: isize) {
        WrappingAdd::wrapping_add(self, *rhs)
    }
}

impl<'r> WrappingMul<&'r isize> for isize {
    type Output = isize;

    open spec fn wrapping_mul_spec(self, rhs: &'r isize) -> isize {
        self.wrapping_mul_spec(*rhs)
    }

    fn wrapping_mul(self, rhs: &'r isize) -> (r: isize) {
        WrappingMul::wrapping_mul(self, *rhs)
    }
}

impl<'r> WrappingSub<&'r isize> for isize {
    type Output = isize;

    open spec fn wrapping_sub_spec(self, rhs: &'r isize) -> isize {
        self.wrapping_sub_spec(*rhs)
    }

    fn wrapping_sub(self, rhs: &'r isize) -> (r: isize) {
        WrappingSub::wrapping_sub(self, *rhs)
    }
}

impl WrappingAdd for u8 {
    type Output = u8;

    open spec fn wrapping_add_spec(self, rhs: u8) -> u8 {
        wrap_unsigned(self + rhs, u8::MAX as int + 1) as u8
    }

    fn wrapping_add(self, rhs: u8) -> (r: u8) {
        proof {
            lemma_wrap_unsigned_cases(self + rhs, u8::MAX as int + 1);
        }
        u8::wrapping_add(self, rhs)
    }
}

impl WrappingMul for u8 {
    type Output = u8;

    open spec fn wrapping_mul_spec(self, rhs: u8) -> u8 {
        wrap_unsigned(self * rhs, u8::MAX as int + 1) as u8
    }

    fn wrapping_mul(self, rhs: u8) -> (r: u8) {
        u8::wrapping_mul(self, rhs)
    }
}

impl WrappingSub for u8 {
    type Output = u8;

    open spec fn wrapping_sub_spec(self, rhs: u8) -> u8 {
        wrap_unsigned(self - rhs, u8::MAX as int + 1) as u8
    }

    fn wrapping_sub(self, rhs: u8) -> (r: u8) {
        proof {
            lemma_wrap_unsigned_cases(self - rhs, u8::MAX as int + 1);
        }
        u8::wrapping_sub(self, rhs)
    }
}

impl WrappingNeg for u8 {
    type Output = u8;

    open spec fn wrapping_neg_spec(self) -> u8 {
        wrap_unsigned(-self, u8::MAX as int + 1) as u8
    }

    fn wrapping_neg(self) -> (r: u8) {
        proof {
            lemma_wrap_unsigned_cases(-self, u8::MAX as int + 1);
        }
        u8::wrapping_sub(0, self)
    }
}

impl<'r> WrappingAdd<&'r u8> for u8 {
    type Output = u8;

    open spec fn wrapping_add_spec(self, rhs: &'r u8) -> u8 {
        self.wrapping_add_spec(*rhs)
    }

    fn wrapping_add(self, rhs: &'r u8) -> (r: u8) {
        WrappingAdd::wrapping_add(self, *rhs)
    }
}

impl<'r> WrappingMul<&'r u8> for u8 {
    type Output = u8;

    open spec fn wrapping_mul_spec(self, rhs: &'r u8) -> u8 {
        self.wrapping_mul_spec(*rhs)
    }

    fn wrapping_mul(self, rhs: &'r u8) -> (r: u8) {
        WrappingMul::wrapping_mul(self, *rhs)
    }
}

impl<'r> WrappingSub<&'r u8> for u8 {
    type Output = u8;

    open spec fn wrapping_sub_spec(self, rhs: &'r u8) -> u8 {
        self.wrapping_sub_spec(*rhs)
    }

    fn wrapping_sub(self, rhs: &'r u8) -> (r: u8) {
        WrappingSub::wrapping_sub(self, *rhs)
    }
}

impl WrappingAdd for u16 {
    type Output = u16;

    open spec fn wrapping_add_spec(self, rhs: u16) -> u16 {
        wrap_unsigned(self + rhs, u16::MAX as int + 1) as u16
    }

    fn wrapping_add(self, rhs: u16) -> (r: u16) {
        proof {
            lemma_wrap_unsigned_cases(self + rhs, u16::MAX as int + 1);
        }
        u16::wrapping_add(self, rhs)
    }
}

impl WrappingMul for u16 {
    type Output = u16;

    open spec fn wrapping_mul_spec(self, rhs: u16) -> u16 {
        wrap_unsigned(self * rhs, u16::MAX as int + 1) as u16
    }

    fn wrapping_mul(self, rhs: u16) -> (r: u16) {
        u16::wrapping_mul(self, rhs)
    }
}

impl WrappingSub for u16 {
    type Output = u16;

    open spec fn wrapping_sub_spec(self, rhs: u16) -> u16 {
        wrap_unsigned(self - rhs, u16::MAX as int + 1) as u16
    }

    fn wrapping_sub(self, rhs: u16) -> (r: u16) {
        proof {
            lemma_wrap_unsigned_cases(self - rhs, u16::MAX as int + 1);
        }
        u16::wrapping_sub(self, rhs)
    }
}

impl WrappingNeg for u16 {
    type Output = u16;

    open spec fn wrapping_neg_spec(self) -> u16 {
        wrap_unsigned(-self, u16::MAX as int + 1) as u16
    }

    fn wrapping_neg(self) -> (r: u16) {
        proof {
            lemma_wrap_unsigned_cases(-self, u16::MAX as int + 1);
        }
        u16::wrapping_sub(0, self)
    }
}

impl<'r> WrappingAdd<&'r u16> for u16 {
    type Output = u16;

    open spec fn wrapping_add_spec(self, rhs: &'r u16) -> u16 {
        self.wrapping_add_spec(*rhs)
    }

    fn wrapping_add(self, rhs: &'r u16) -> (r: u16) {
        WrappingAdd::wrapping_add(self, *rhs)
    }
}

impl<'r> WrappingMul<&'r u16> for u16 {
    type Output = u16;

    open spec fn wrapping_mul_spec(self, rhs: &'r u16) -> u16 {
        self.wrapping_mul_spec(*rhs)
    }

    fn wrapping_mul(self, rhs: &'r u16) -> (r: u16) {
        WrappingMul::wrapping_mul(self, *rhs)
    }
}

impl<'r> WrappingSub<&'r u16> for u16 {
    type Output = u16;

    open spec fn wrapping_sub_spec(self, rhs: &'r u16) -> u16 {
        self.wrapping_sub_spec(*rhs)
    }

    fn wrapping_sub(self, rhs: &'r u16) -> (r: u16) {
        WrappingSub::wrapping_sub(self, *rhs)
    }
}

impl WrappingAdd for u32 {
    type Output = u32;

    open spec fn wrapping_add_spec(self, rhs: u32) -> u32 {
        wrap_unsigned(self + rhs, u32::MAX as int + 1) as u32
    }

    fn wrapping_add(self, rhs: u32) -> (r: u32) {
        proof {
            lemma_wrap_unsigned_cases(self + rhs, u32::MAX as int + 1);
        }
        u32::wrapping_add(self, rhs)
    }
}

impl WrappingMul for u32 {
    type Output = u32;

    open spec fn wrapping_mul_spec(self, rhs: u32) -> u32 {
        wrap_unsigned(self * rhs, u32::MAX as int + 1) as u32
    }

    fn wrapping_mul(self, rhs: u32) -> (r: u32) {
        u32::wrapping_mul(self, rhs)
    }
}

impl WrappingSub for u32 {
    type Output = u32;

    open spec fn wrapping_sub_spec(self, rhs: u32) -> u32 {
        wrap_unsigned(self - rhs, u32::MAX as int + 1) as u32
    }

    fn wrapping_sub(self, rhs: u32) -> (r: u32) {
        proof {
            lemma_wrap_unsigned_cases(self - rhs, u32::MAX as int + 1);
        }
        u32::wrapping_sub(self, rhs)
    }
}

impl WrappingNeg for u32 {
    type Output = u32;

    open spec fn wrapping_neg_spec(self) -> u32 {
        wrap_unsigned(-self, u32::MAX as int + 1) as u32
    }

    fn wrapping_neg(self) -> (r: u32) {
        proof {
            lemma_wrap_unsigned_cases(-self, u32::MAX as int + 1);
        }
        u32::wrapping_sub(0, self)
    }
}

impl<'r> WrappingAdd<&'r u32> for u32 {
    type Output = u32;

    open spec fn wrapping_add_spec(self, rhs: &'r u32) -> u32 {
        self.wrapping_add_spec(*rhs)
    }

    fn wrapping_add(self, rhs: &'r u32) -> (r: u32) {
        WrappingAdd::wrapping_add(self, *rhs)
    }
}

impl<'r> WrappingMul<&'r u32> for u32 {
    type Output = u32;

    open spec fn wrapping_mul_spec(self, rhs: &'r u32) -> u32 {
        self.wrapping_mul_spec(*rhs)
    }

    fn wrapping_mul(self, rhs: &'r u32) -> (r: u32) {
        WrappingMul::wrapping_mul(self, *rhs)
    }
}

impl<'r> WrappingSub<&'r u32> for u32 {
    type Output = u32;

    open spec fn wrapping_sub_spec(self, rhs: &'r u32) -> u32 {
        self.wrapping_sub_spec(*rhs)
    }

    fn wrapping_sub(self, rhs: &'r u32) -> (r: u32) {
        WrappingSub::wrapping_sub(self, *rhs)
    }
}

impl WrappingAdd for u64 {
    type Output = u64;

    open spec fn wrapping_add_spec(self, rhs: u64) -> u64 {
        wrap_unsigned(self + rhs, u64::MAX as int + 1) as u64
    }

    fn wrapping_add(self, rhs: u64) -> (r: u64) {
        proof {
            lemma_wrap_unsigned_cases(self + rhs, u64::MAX as int + 1);
        }
        u64::wrapping_add(self, rhs)
    }
}

impl WrappingMul for u64 {
    type Output = u64;

    open spec fn wrapping_mul_spec(self, rhs: u64) -> u64 {
        wrap_unsigned(self * rhs, u64::MAX as int + 1) as u64
    }

    fn wrapping_mul(self, rhs: u64) -> (r: u64) {
        u64::wrapping_mul(self, rhs)
    }
}

impl WrappingSub for u64 {
    type Output = u64;

    open spec fn wrapping_sub_spec(self, rhs: u64) -> u64 {
        wrap_unsigned(self - rhs, u64::MAX as int + 1) as u64
    }

    fn wrapping_sub(self, rhs: u64) -> (r: u64) {
        proof {
            lemma_wrap_unsigned_cases(self - rhs, u64::MAX as int + 1);
        }
        u64::wrapping_sub(self, rhs)
    }
}

impl WrappingNeg for u64 {
    type Output = u64;

    open spec fn wrapping_neg_spec(self) -> u64 {
        wrap_unsigned(-self, u64::MAX as int + 1) as u64
    }

    fn wrapping_neg(self) -> (r: u64) {
        proof {
            lemma_wrap_unsigned_cases(-self, u64::MAX as int + 1);
        }
        u64::wrapping_sub(0, self)
    }
}

impl<'r> WrappingAdd<&'r u64> for u64 {
    type Output = u64;

    open spec fn wrapping_add_spec(self, rhs: &'r u64) -> u64 {
        self.wrapping_add_spec(*rhs)
    }

    fn wrapping_add(self, rhs: &'r u64) -> (r: u64) {
        WrappingAdd::wrapping_add(self, *rhs)
    }
}

impl<'r> WrappingMul<&'r u64> for u64 {
    type Output = u64;

    open spec fn wrapping_mul_spec(self, rhs: &'r u64) -> u64 {
        self.wrapping_mul_spec(*rhs)
    }

    fn wrapping_mul(self, rhs: &'r u64) -> (r: u64) {
        WrappingMul::wrapping_mul(self, *rhs)
    }
}

impl<'r> WrappingSub<&'r u64> for u64 {
    type Output = u64;

    open spec fn wrapping_sub_spec(self, rhs: &'r u64) -> u64 {
        self.wrapping_sub_spec(*rhs)
    }

    fn wrapping_sub(self, rhs: &'r u64) -> (r: u64) {
        WrappingSub::wrapping_sub(self, *rhs)
    }
}

impl WrappingAdd for u128 {
    type Output = u128;

    open spec fn wrapping_add_spec(self, rhs: u128) -> u128 {
        wrap_unsigned(self + rhs, u128::MAX as int + 1) as u128
    }

    fn wrapping_add(self, rhs: u128) -> (r: u128) {
        proof {
            lemma_wrap_unsigned_cases(self + rhs, u128::MAX as int + 1);
        }
        u128::wrapping_add(self, rhs)
    }
}

impl WrappingMul for u128 {
    type Output = u128;

    open spec fn wrapping_mul_spec(self, rhs: u128) -> u128 {
        wrap_unsigned(self * rhs, u128::MAX as int + 1) as u128
    }

    fn wrapping_mul(self, rhs: u128) -> (r: u128) {
        u128::wrapping_mul(self, rhs)
    }
}

impl WrappingSub for u128 {
    type Output = u128;

    open spec fn wrapping_sub_spec(self, rhs: u128) -> u128 {
        wrap_unsigned(self - rhs, u128::MAX as int + 1) as u128
    }

    fn wrapping_sub(self, rhs: u128) -> (r: u128) {
        proof {
            lemma_wrap_unsigned_cases(self - rhs, u128::MAX as int + 1);
        }
        u128::wrapping_sub(self, rhs)
    }
}

impl WrappingNeg for u128 {
    type Output = u128;

    open spec fn wrapping_neg_spec(self) -> u128 {
        wrap_unsigned(-self, u128::MAX as int + 1) as u128
    }

    fn wrapping_neg(self) -> (r: u128) {
        proof {
            lemma_wrap_unsigned_cases(-self, u128::MAX as int + 1);
        }
        u128::wrapping_sub(0, self)
    }
}

impl<'r> WrappingAdd<&'r u128> for u128 {
    type Output = u128;

    open spec fn wrapping_add_spec(self, rhs: &'r u128) -> u128 {
        self.wrapping_add_spec(*rhs)
    }

    fn wrapping_add(self, rhs: &'r u128) -> (r: u128) {
        WrappingAdd::wrapping_add(self, *rhs)
    }
}

impl<'r> WrappingMul<&'r u128> for u128 {
    type Output = u128;

    open spec fn wrapping_mul_spec(self, rhs: &'r u128) -> u128 {
        self.wrapping_mul_spec(*rhs)
    }

    fn wrapping_mul(self, rhs: &'r u128) -> (r: u128) {
        WrappingMul::wrapping_mul(self, *rhs)
    }
}

impl<'r> WrappingSub<&'r u128> for u128 {
    type Output = u128;

    open spec fn wrapping_sub_spec(self, rhs: &'r u128) -> u128 {
        self.wrapping_sub_spec(*rhs)
    }

    fn wrapping_sub(self, rhs: &'r u128) -> (r: u128) {
        WrappingSub::wrapping_sub(self, *rhs)
    }
}

impl WrappingAdd for usize {
    type Output = usize;

    open spec fn wrapping_add_spec(self, rhs: usize) -> usize {
        wrap_unsigned(self + rhs, usize::MAX as int + 1) as usize
    }

    fn wrapping_add(self, rhs: usize) -> (r: usize) {
        proof {
            lemma_wrap_unsigned_cases(self + rhs, usize::MAX as int + 1);
        }
        usize::wrapping_add(self, rhs)
    }
}

impl WrappingMul for usize {
    type Output = usize;

    open spec fn wrapping_mul_spec(self, rhs: usize) -> usize {
        wrap_unsigned(self * rhs, usize::MAX as int + 1) as usize
    }

    fn wrapping_mul(self, rhs: usize) -> (r: usize) {
        usize::wrapping_mul(self, rhs)
    }
}

impl WrappingSub for usize {
    type Output = usize;

    open spec fn wrapping_sub_spec(self, rhs: usize) -> usize {
        wrap_unsigned(self - rhs, usize::MAX as int + 1) as usize
    }

    fn wrapping_sub(self, rhs: usize) -> (r: usize) {
        proof {
            lemma_wrap_unsigned_cases(self - rhs, usize::MAX as int + 1);
        }
        usize::wrapping_sub(self, rhs)
    }
}

impl WrappingNeg for usize {
    type Output = usize;

    open spec fn wrapping_neg_spec(self) -> usize {
        wrap_unsigned(-self, usize::MAX as int + 1) as usize
    }

    fn wrapping_neg(self) -> (r: usize) {
        proof {
            lemma_wrap_unsigned_cases(-self, usize::MAX as int + 1);
        }
        usize::wrapping_sub(0, self)
    }
}

impl<'r> WrappingAdd<&'r usize> for usize {
    type Output = usize;

    open spec fn wrapping_add_spec(self, rhs: &'r usize) -> usize {
        self.wrapping_add_spec(*rhs)
    }

    fn wrapping_add(self, rhs: &'r usize) -> (r: usize) {
        WrappingAdd::wrapping_add(self, *rhs)
    }
}

impl<'r> WrappingMul<&'r usize> for usize {
    type Output = usize;

    open spec fn wrapping_mul_spec(self, rhs: &'r usize) -> usize {
        self.wrapping_mul_spec(*rhs)
    }

    fn wrapping_mul(self, rhs: &'r usize) -> (r: usize) {
        WrappingMul::wrapping_mul(self, *rhs)
    }
}

impl<'r> WrappingSub<&'r usize> for usize {
    type Output = usize;

    open spec fn wrapping_sub_spec(self, rhs: &'r usize) -> usize {
        self.wrapping_sub_spec(*rhs)
    }

    fn wrapping_sub(self, rhs: &'r usize) -> (r: usize) {
        WrappingSub::wrapping_sub(self, *rhs)
    }
}

} // verus!
