//! Saturating operators: when the true result is representable they return
//! it, and otherwise they return the nearest representable value.

use vstd::prelude::*;
use crate::math::{clamp, lemma_mul_sign};

verus! {

/// Addition operator which returns the closest possible value in the event of
/// an overflow or underflow.
pub trait SaturatingAdd<Rhs = Self>: Sized {
    type Output;

    /// The exact result `saturating_add` returns.
    spec fn saturating_add_spec(self, rhs: Rhs) -> Self::Output;

    fn saturating_add(self, rhs: Rhs) -> (r: Self::Output)
        ensures
            r == self.saturating_add_spec(rhs),
    ;
}

/// Multiplication operator which returns the closest possible value in the event of
/// an overflow or underflow.
pub trait SaturatingMul<Rhs = Self>: Sized {
    type Output;

    /// The exact result `saturating_mul` returns.
    spec fn saturating_mul_spec(self, rhs: Rhs) -> Self::Output;

    fn saturating_mul(self, rhs: Rhs) -> (r: Self::Output)
        ensures
            r == self.saturating_mul_spec(rhs),
    ;
}

/// Negation operator which returns the closest possible value in the event of
/// an overflow or underflow.
pub trait SaturatingNeg: Sized {
    type Output;

    /// The exact result `saturating_neg` returns.
    spec fn saturating_neg_spec(self) -> Self::Output;

    fn saturating_neg(self) -> (r: Self::Output)
        ensures
            r == self.saturating_neg_spec(),
    ;
}

/// Subtraction operator which returns the closest possible value in the event of
/// an overflow or underflow.
pub trait SaturatingSub<Rhs = Self>: Sized {
    type Output;

    /// The exact result `saturating_sub` returns.
    spec fn saturating_sub_spec(self, rhs: Rhs) -> Self::Output;

    fn saturating_sub(self, rhs: Rhs) -> (r: Self::Output)
        ensures
            r == self.saturating_sub_spec(rhs),
    ;
}

impl<'a, Rhs, T: SaturatingAdd<Rhs> + Copy> SaturatingAdd<Rhs> for &'a T {
    type Output = <T as SaturatingAdd<Rhs>>::Output;

    open spec fn saturating_add_spec(self, rhs: Rhs) -> <T as SaturatingAdd<Rhs>>::Output {
        (*self).saturating_add_spec(rhs)
    }

    fn saturating_add(self, rhs: Rhs) -> (r: <T as SaturatingAdd<Rhs>>::Output) {
        SaturatingAdd::saturating_add(*self, rhs)
    }
}

impl<'a, Rhs, T: SaturatingMul<Rhs> + Copy> SaturatingMul<Rhs> for &'a T {
    type Output = <T as SaturatingMul<Rhs>>::Output;

    open spec fn saturating_mul_spec(self, rhs: Rhs) -> <T as SaturatingMul<Rhs>>::Output {
        (*self).saturating_mul_spec(rhs)
    }

    fn saturating_mul(self, rhs: Rhs) -> (r: <T as SaturatingMul<Rhs>>::Output) {
        SaturatingMul::saturating_mul(*self, rhs)
    }
}

impl<'a, T: SaturatingNeg + Copy> SaturatingNeg for &'a T {
    type Output = <T as SaturatingNeg>::Output;

    open spec fn saturating_neg_spec(self) -> <T as SaturatingNeg>::Output {
        (*self).saturating_neg_spec()
    }

    fn saturating_neg(self) -> (r: <T as SaturatingNeg>::Output) {
        SaturatingNeg::saturating_neg(*self)
    }
}

impl<'a, Rhs, T: SaturatingSub<Rhs> + Copy> SaturatingSub<Rhs> for &'a T {
    type Output = <T as SaturatingSub<Rhs>>::Output;

    open spec fn saturating_sub_spec(self, rhs: Rhs) -> <T as SaturatingSub<Rhs>>::Output {
        (*self).saturating_sub_spec(rhs)
    }

    fn saturating_sub(self, rhs: Rhs) -> (r: <T as SaturatingSub<Rhs>>::Output) {
        SaturatingSub::saturating_sub(*self, rhs)
    }
}

impl SaturatingAdd for i8 {
    type Output = i8;

    open spec fn saturating_add_spec(self, rhs: i8) -> i8 {
        clamp(self + rhs, i8::MIN as int, i8::MAX as int) as i8
    }

    fn saturating_add(self, rhs: i8) -> (r: i8) {
        match self.checked_add(rhs) {
            Some(n) => n,
            None => if self >= 0 {
                i8::MAX
            } else {
                i8::MIN
            },
        }
    }
}

impl SaturatingMul for i8 {
    type Output = i8;

    open spec fn saturating_mul_spec(self, rhs: i8) -> i8 {
        clamp(self * rhs, i8::MIN as int, i8::MAX as int) as i8
    }

    fn saturating_mul(self, rhs: i8) -> (r: i8) {
        proof {
            lemma_mul_sign(self as int, rhs as int);
        }
        match self.checked_mul(rhs) {
            Some(n) => n,
            None => if (self >= 0) == (rhs >= 0) {
                i8::MAX
            } else {
                i8::MIN
            },
        }
    }
}

impl SaturatingSub for i8 {
    type Output = i8;

    open spec fn saturating_sub_spec(self, rhs: i8) -> i8 {
        clamp(self - rhs, i8::MIN as int, i8::MAX as int) as i8
    }

    fn saturating_sub(self, rhs: i8) -> (r: i8) {
        match self.checked_sub(rhs) {
            Some(n) => n,
            None => if self >= 0 {
                i8::MAX
            } else {
                i8::MIN
            },
        }
    }
}

impl SaturatingNeg for i8 {
    type Output = i8;

    open spec fn saturating_neg_spec(self) -> i8 {
        clamp(-self, i8::MIN as int, i8::MAX as int) as i8
    }

    fn saturating_neg(self) -> (r: i8) {
        if self == i8::MIN {
            i8::MAX
        } else {
            -self
        }
    }
}

impl<'r> SaturatingAdd<&'r i8> for i8 {
    type Output = i8;

    open spec fn saturating_add_spec(self, rhs: &'r i8) -> i8 {
        self.saturating_add_spec(*rhs)
    }

    fn saturating_add(self, rhs: &'r i8) -> (r: i8) {
        SaturatingAdd::saturating_add(self, *rhs)
    }
}

impl<'r> SaturatingMul<&'r i8> for i8 {
    type Output = i8;

    open spec fn saturating_mul_spec(self, rhs: &'r i8) -> i8 {
        self.saturating_mul_spec(*rhs)
    }

    fn saturating_mul(self, rhs: &'r i8) -> (r: i8) {
        SaturatingMul::saturating_mul(self, *rhs)
    }
}

impl<'r> SaturatingSub<&'r i8> for i8 {
    type Output = i8;

    open spec fn saturating_sub_spec(self, rhs: &'r i8) -> i8 {
        self.saturating_sub_spec(*rhs)
    }

    fn saturating_sub(self, rhs: &'r i8) -> (r: i8) {
        SaturatingSub::saturating_sub(self, *rhs)
    }
}

impl SaturatingAdd for i16 {
    type Output = i16;

    open spec fn saturating_add_spec(self, rhs: i16) -> i16 {
        clamp(self + rhs, i16::MIN as int, i16::MAX as int) as i16
    }

    fn saturating_add(self, rhs: i16) -> (r: i16) {
        match self.checked_add(rhs) {
            Some(n) => n,
            None => if self >= 0 {
                i16::MAX
            } else {
                i16::MIN
            },
        }
    }
}

impl SaturatingMul for i16 {
    type Output = i16;

    open spec fn saturating_mul_spec(self, rhs: i16) -> i16 {
        clamp(self * rhs, i16::MIN as int, i16::MAX as int) as i16
    }

    fn saturating_mul(self, rhs: i16) -> (r: i16) {
        proof {
            lemma_mul_sign(self as int, rhs as int);
        }
        match self.checked_mul(rhs) {
            Some(n) => n,
            None => if (self >= 0) == (rhs >= 0) {
                i16::MAX
            } else {
                i16::MIN
            },
        }
    }
}

impl SaturatingSub for i16 {
    type Output = i16;

    open spec fn saturating_sub_spec(self, rhs: i16) -> i16 {
        clamp(self - rhs, i16::MIN as int, i16::MAX as int) as i16
    }

    fn saturating_sub(self, rhs: i16) -> (r: i16) {
        match self.checked_sub(rhs) {
            Some(n) => n,
            None => if self >= 0 {
                i16::MAX
            } else {
                i16::MIN
            },
        }
    }
}

impl SaturatingNeg for i16 {
    type Output = i16;

    open spec fn saturating_neg_spec(self) -> i16 {
        clamp(-self, i16::MIN as int, i16::MAX as int) as i16
    }

    fn saturating_neg(self) -> (r: i16) {
        if self == i16::MIN {
            i16::MAX
        } else {
            -self
        }
    }
}

impl<'r> SaturatingAdd<&'r i16> for i16 {
    type Output = i16;

    open spec fn saturating_add_spec(self, rhs: &'r i16) -> i16 {
        self.saturating_add_spec(*rhs)
    }

    fn saturating_add(self, rhs: &'r i16) -> (r: i16) {
        SaturatingAdd::saturating_add(self, *rhs)
    }
}

impl<'r> SaturatingMul<&'r i16> for i16 {
    type Output = i16;

    open spec fn saturating_mul_spec(self, rhs: &'r i16) -> i16 {
        self.saturating_mul_spec(*rhs)
    }

    fn saturating_mul(self, rhs: &'r i16) -> (r: i16) {
        SaturatingMul::saturating_mul(self, *rhs)
    }
}

impl<'r> SaturatingSub<&'r i16> for i16 {
    type Output = i16;

    open spec fn saturating_sub_spec(self, rhs: &'r i16) -> i16 {
        self.saturating_sub_spec(*rhs)
    }

    fn saturating_sub(self, rhs: &'r i16) -> (r: i16) {
        SaturatingSub::saturating_sub(self, *rhs)
    }
}

impl SaturatingAdd for i32 {
    type Output = i32;

    open spec fn saturating_add_spec(self, rhs: i32) -> i32 {
        clamp(self + rhs, i32::MIN as int, i32::MAX as int) as i32
    }

    fn saturating_add(self, rhs: i32) -> (r: i32) {
        match self.checked_add(rhs) {
            Some(n) => n,
            None => if self >= 0 {
                i32::MAX
            } else {
                i32::MIN
            },
        }
    }
}

impl SaturatingMul for i32 {
    type Output = i32;

    open spec fn saturating_mul_spec(self, rhs: i32) -> i32 {
        clamp(self * rhs, i32::MIN as int, i32::MAX as int) as i32
    }

    fn saturating_mul(self, rhs: i32) -> (r: i32) {
        proof {
            lemma_mul_sign(self as int, rhs as int);
        }
        match self.checked_mul(rhs) {
            Some(n) => n,
            None => if (self >= 0) == (rhs >= 0) {
                i32::MAX
            } else {
                i32::MIN
            },
        }
    }
}

impl SaturatingSub for i32 {
    type Output = i32;

    open spec fn saturating_sub_spec(self, rhs: i32) -> i32 {
        clamp(self - rhs, i32::MIN as int, i32::MAX as int) as i32
    }

    fn saturating_sub(self, rhs: i32) -> (r: i32) {
        match self.checked_sub(rhs) {
            Some(n) => n,
            None => if self >= 0 {
                i32::MAX
            } else {
                i32::MIN
            },
        }
    }
}

impl SaturatingNeg for i32 {
    type Output = i32;

    open spec fn saturating_neg_spec(self) -> i32 {
        clamp(-self, i32::MIN as int, i32::MAX as int) as i32
    }

    fn saturating_neg(self) -> (r: i32) {
        if self == i32::MIN {
            i32::MAX
        } else {
            -self
        }
    }
}

impl<'r> SaturatingAdd<&'r i32> for i32 {
    type Output = i32;

    open spec fn saturating_add_spec(self, rhs: &'r i32) -> i32 {
        self.saturating_add_spec(*rhs)
    }

    fn saturating_add(self, rhs: &'r i32) -> (r: i32) {
        SaturatingAdd::saturating_add(self, *rhs)
    }
}

impl<'r> SaturatingMul<&'r i32> for i32 {
    type Output = i32;

    open spec fn saturating_mul_spec(self, rhs: &'r i32) -> i32 {
        self.saturating_mul_spec(*rhs)
    }

    fn saturating_mul(self, rhs: &'r i32) -> (r: i32) {
        SaturatingMul::saturating_mul(self, *rhs)
    }
}

impl<'r> SaturatingSub<&'r i32> for i32 {
    type Output = i32;

    open spec fn saturating_sub_spec(self, rhs: &'r i32) -> i32 {
        self.saturating_sub_spec(*rhs)
    }

    fn saturating_sub(self, rhs: &'r i32) -> (r: i32) {
        SaturatingSub::saturating_sub(self, *rhs)
    }
}

impl SaturatingAdd for i64 {
    type Output = i64;

    open spec fn saturating_add_spec(self, rhs: i64) -> i64 {
        clamp(self + rhs, i64::MIN as int, i64::MAX as int) as i64
    }

    fn saturating_add(self, rhs: i64) -> (r: i64) {
        match self.checked_add(rhs) {
            Some(n) => n,
            None => if self >= 0 {
                i64::MAX
            } else {
                i64::MIN
            },
        }
    }
}

impl SaturatingMul for i64 {
    type Output = i64;

    open spec fn saturating_mul_spec(self, rhs: i64) -> i64 {
        clamp(self * rhs, i64::MIN as int, i64::MAX as int) as i64
    }

    fn saturating_mul(self, rhs: i64) -> (r: i64) {
        proof {
            lemma_mul_sign(self as int, rhs as int);
        }
        match self.checked_mul(rhs) {
            Some(n) => n,
            None => if (self >= 0) == (rhs >= 0) {
                i64::MAX
            } else {
                i64::MIN
            },
        }
    }
}

impl SaturatingSub for i64 {
    type Output = i64;

    open spec fn saturating_sub_spec(self, rhs: i64) -> i64 {
        clamp(self - rhs, i64::MIN as int, i64::MAX as int) as i64
    }

    fn saturating_sub(self, rhs: i64) -> (r: i64) {
        match self.checked_sub(rhs) {
            Some(n) => n,
            None => if self >= 0 {
                i64::MAX
            } else {
                i64::MIN
            },
        }
    }
}

impl SaturatingNeg for i64 {
    type Output = i64;

    open spec fn saturating_neg_spec(self) -> i64 {
        clamp(-self, i64::MIN as int, i64::MAX as int) as i64
    }

    fn saturating_neg(self) -> (r: i64) {
        if self == i64::MIN {
            i64::MAX
        } else {
            -self
        }
    }
}

impl<'r> SaturatingAdd<&'r i64> for i64 {
    type Output = i64;

    open spec fn saturating_add_spec(self, rhs: &'r i64) -> i64 {
        self.saturating_add_spec(*rhs)
    }

    fn saturating_add(self, rhs: &'r i64) -> (r: i64) {
        SaturatingAdd::saturating_add(self, *rhs)
    }
}

impl<'r> SaturatingMul<&'r i64> for i64 {
    type Output = i64;

    open spec fn saturating_mul_spec(self, rhs: &'r i64) -> i64 {
        self.saturating_mul_spec(*rhs)
    }

    fn saturating_mul(self, rhs: &'r i64) -> (r: i64) {
        SaturatingMul::saturating_mul(self, *rhs)
    }
}

impl<'r> SaturatingSub<&'r i64> for i64 {
    type Output = i64;

    open spec fn saturating_sub_spec(self, rhs: &'r i64) -> i64 {
        self.saturating_sub_spec(*rhs)
    }

    fn saturating_sub(self, rhs: &'r i64) -> (r: i64) {
        SaturatingSub::saturating_sub(self, *rhs)
    }
}

impl SaturatingAdd for i128 {
    type Output = i128;

    open spec fn saturating_add_spec(self, rhs: i128) -> i128 {
        clamp(self + rhs, i128::MIN as int, i128::MAX as int) as i128
    }

    fn saturating_add(self, rhs: i128) -> (r: i128) {
        match self.checked_add(rhs) {
            Some(n) => n,
            None => if self >= 0 {
                i128::MAX
            } else {
                i128::MIN
            },
        }
    }
}

impl SaturatingMul for i128 {
    type Output = i128;

    open spec fn saturating_mul_spec(self, rhs: i128) -> i128 {
        clamp(self * rhs, i128::MIN as int, i128::MAX as int) as i128
    }

    fn saturating_mul(self, rhs: i128) -> (r: i128) {
        proof {
            lemma_mul_sign(self as int, rhs as int);
        }
        match self.checked_mul(rhs) {
            Some(n) => n,
            None => if (self >= 0) == (rhs >= 0) {
                i128::MAX
            } else {
                i128::MIN
            },
        }
    }
}

impl SaturatingSub for i128 {
    type Output = i128;

    open spec fn saturating_sub_spec(self, rhs: i128) -> i128 {
        clamp(self - rhs, i128::MIN as int, i128::MAX as int) as i128
    }

    fn saturating_sub(self, rhs: i128) -> (r: i128) {
        match self.checked_sub(rhs) {
            Some(n) => n,
            None => if self >= 0 {
                i128::MAX
            } else {
                i128::MIN
            },
        }
    }
}

impl SaturatingNeg for i128 {
    type Output = i128;

    open spec fn saturating_neg_spec(self) -> i128 {
        clamp(-self, i128::MIN as int, i128::MAX as int) as i128
    }

    fn saturating_neg(self) -> (r: i128) {
        if self == i128::MIN {
            i128::MAX
        } else {
            -self
        }
    }
}

impl<'r> SaturatingAdd<&'r i128> for i128 {
    type Output = i128;

    open spec fn saturating_add_spec(self, rhs: &'r i128) -> i128 {
        self.saturating_add_spec(*rhs)
    }

    fn saturating_add(self, rhs: &'r i128) -> (r: i128) {
        SaturatingAdd::saturating_add(self, *rhs)
    }
}

impl<'r> SaturatingMul<&'r i128> for i128 {
    type Output = i128;

    open spec fn saturating_mul_spec(self, rhs: &'r i128) -> i128 {
        self.saturating_mul_spec(*rhs)
    }

    fn saturating_mul(self, rhs: &'r i128) -> (r: i128) {
        SaturatingMul::saturating_mul(self, *rhs)
    }
}

impl<'r> SaturatingSub<&'r i128> for i128 {
    type Output = i128;

    open spec fn saturating_sub_spec(self, rhs: &'r i128) -> i128 {
        self.saturating_sub_spec(*rhs)
    }

    fn saturating_sub(self, rhs: &'r i128) -> (r: i128) {
        SaturatingSub::saturating_sub(self, *rhs)
    }
}

impl SaturatingAdd for isize {
    type Output = isize;

    open spec fn saturating_add_spec(self, rhs: isize) -> isize {
        clamp(self + rhs, isize::MIN as int, isize::MAX as int) as isize
    }

    fn saturating_add(self, rhs: isize) -> (r: isize) {
        match self.checked_add(rhs) {
            Some(n) => n,
            None => if self >= 0 {
                isize::MAX
            } else {
                isize::MIN
            },
        }
    }
}

impl SaturatingMul for isize {
    type Output = isize;

    open spec fn saturating_mul_spec(self, rhs: isize) -> isize {
        clamp(self * rhs, isize::MIN as int, isize::MAX as int) as isize
    }

    fn saturating_mul(self, rhs: isize) -> (r: isize) {
        proof {
            lemma_mul_sign(self as int, rhs as int);
        }
        match self.checked_mul(rhs) {
            Some(n) => n,
            None => if (self >= 0) == (rhs >= 0) {
                isize::MAX
            } else {
                isize::MIN
            },
        }
    }
}

impl SaturatingSub for isize {
    type Output = isize;

    open spec fn saturating_sub_spec(self, rhs: isize) -> isize {
        clamp(self - rhs, isize::MIN as int, isize::MAX as int) as isize
    }

    fn saturating_sub(self, rhs: isize) -> (r: isize) {
        match self.checked_sub(rhs) {
            Some(n) => n,
            None => if self >= 0 {
                isize::MAX
            } else {
                isize::MIN
            },
        }
    }
}

impl SaturatingNeg for isize {
    type Output = isize;

    open spec fn saturating_neg_spec(self) -> isize {
        clamp(-self, isize::MIN as int, isize::MAX as int) as isize
    }

    fn saturating_neg(self) -> (r: isize) {
        if self == isize::MIN {
            isize::MAX
        } else {
            -self
        }
    }
}

impl<'r> SaturatingAdd<&'r isize> for isize {
    type Output = isize;

    open spec fn saturating_add_spec(self, rhs: &'r isize) -> isize {
        self.saturating_add_spec(*rhs)
    }

    fn saturating_add(self, rhs: &'r isize) -> (r: isize) {
        SaturatingAdd::saturating_add(self, *rhs)
    }
}

impl<'r> SaturatingMul<&'r isize> for isize {
    type Output = isize;

    open spec fn saturating_mul_spec(self, rhs: &'r isize) -> isize {
        self.saturating_mul_spec(*rhs)
    }

    fn saturating_mul(self, rhs: &'r isize) -> (r: isize) {
        SaturatingMul::saturating_mul(self, *rhs)
    }
}

impl<'r> SaturatingSub<&'r isize> for isize {
    type Output = isize;

    open spec fn saturating_sub_spec(self, rhs: &'r isize) -> isize {
        self.saturating_sub_spec(*rhs)
    }

    fn saturating_sub(self, rhs: &'r isize) -> (r: isize) {
        SaturatingSub::saturating_sub(self, *rhs)
    }
}

impl SaturatingAdd for u8 {
    type Output = u8;

    open spec fn saturating_add_spec(self, rhs: u8) -> u8 {
        clamp(self + rhs, u8::MIN as int, u8::MAX as int) as u8
    }

    fn saturating_add(self, rhs: u8) -> (r: u8) {
        u8::saturating_add(self, rhs)
    }
}

impl SaturatingMul for u8 {
    type Output = u8;

    open spec fn saturating_mul_spec(self, rhs: u8) -> u8 {
        clamp(self * rhs, u8::MIN as int, u8::MAX as int) as u8
    }

    fn saturating_mul(self, rhs: u8) -> (r: u8) {
        match self.checked_mul(rhs) {
            Some(n) => n,
            None => u8::MAX,
        }
    }
}

impl SaturatingSub for u8 {
    type Output = u8;

    open spec fn saturating_sub_spec(self, rhs: u8) -> u8 {
        clamp(self - rhs, u8::MIN as int, u8::MAX as int) as u8
    }

    fn saturating_sub(self, rhs: u8) -> (r: u8) {
        u8::saturating_sub(self, rhs)
    }
}

impl SaturatingNeg for u8 {
    type Output = u8;

    open spec fn saturating_neg_spec(self) -> u8 {
        clamp(-self, u8::MIN as int, u8::MAX as int) as u8
    }

    fn saturating_neg(self) -> (r: u8) {
        0
    }
}

impl<'r> SaturatingAdd<&'r u8> for u8 {
    type Output = u8;

    open spec fn saturating_add_spec(self, rhs: &'r u8) -> u8 {
        self.saturating_add_spec(*rhs)
    }

    fn saturating_add(self, rhs: &'r u8) -> (r: u8) {
        SaturatingAdd::saturating_add(self, *rhs)
    }
}

impl<'r> SaturatingMul<&'r u8> for u8 {
    type Output = u8;

    open spec fn saturating_mul_spec(self, rhs: &'r u8) -> u8 {
        self.saturating_mul_spec(*rhs)
    }

    fn saturating_mul(self, rhs: &'r u8) -> (r: u8) {
        SaturatingMul::saturating_mul(self, *rhs)
    }
}

impl<'r> SaturatingSub<&'r u8> for u8 {
    type Output = u8;

    open spec fn saturating_sub_spec(self, rhs: &'r u8) -> u8 {
        self.saturating_sub_spec(*rhs)
    }

    fn saturating_sub(self, rhs: &'r u8) -> (r: u8) {
        SaturatingSub::saturating_sub(self, *rhs)
    }
}

impl SaturatingAdd for u16 {
    type Output = u16;

    open spec fn saturating_add_spec(self, rhs: u16) -> u16 {
        clamp(self + rhs, u16::MIN as int, u16::MAX as int) as u16
    }

    fn saturating_add(self, rhs: u16) -> (r: u16) {
        u16::saturating_add(self, rhs)
    }
}

impl SaturatingMul for u16 {
    type Output = u16;

    open spec fn saturating_mul_spec(self, rhs: u16) -> u16 {
        clamp(self * rhs, u16::MIN as int, u16::MAX as int) as u16
    }

    fn saturating_mul(self, rhs: u16) -> (r: u16) {
        match self.checked_mul(rhs) {
            Some(n) => n,
            None => u16::MAX,
        }
    }
}

impl SaturatingSub for u16 {
    type Output = u16;

    open spec fn saturating_sub_spec(self, rhs: u16) -> u16 {
        clamp(self - rhs, u16::MIN as int, u16::MAX as int) as u16
    }

    fn saturating_sub(self, rhs: u16) -> (r: u16) {
        u16::saturating_sub(self, rhs)
    }
}

impl SaturatingNeg for u16 {
    type Output = u16;

    open spec fn saturating_neg_spec(self) -> u16 {
        clamp(-self, u16::MIN as int, u16::MAX as int) as u16
    }

    fn saturating_neg(self) -> (r: u16) {
        0
    }
}

impl<'r> SaturatingAdd<&'r u16> for u16 {
    type Output = u16;

    open spec fn saturating_add_spec(self, rhs: &'r u16) -> u16 {
        self.saturating_add_spec(*rhs)
    }

    fn saturating_add(self, rhs: &'r u16) -> (r: u16) {
        SaturatingAdd::saturating_add(self, *rhs)
    }
}

impl<'r> SaturatingMul<&'r u16> for u16 {
    type Output = u16;

    open spec fn saturating_mul_spec(self, rhs: &'r u16) -> u16 {
        self.saturating_mul_spec(*rhs)
    }

    fn saturating_mul(self, rhs: &'r u16) -> (r: u16) {
        SaturatingMul::saturating_mul(self, *rhs)
    }
}

impl<'r> SaturatingSub<&'r u16> for u16 {
    type Output = u16;

    open spec fn saturating_sub_spec(self, rhs: &'r u16) -> u16 {
        self.saturating_sub_spec(*rhs)
    }

    fn saturating_sub(self, rhs: &'r u16) -> (r: u16) {
        SaturatingSub::saturating_sub(self, *rhs)
    }
}

impl SaturatingAdd for u32 {
    type Output = u32;

    open spec fn saturating_add_spec(self, rhs: u32) -> u32 {
        clamp(self + rhs, u32::MIN as int, u32::MAX as int) as u32
    }

    fn saturating_add(self, rhs: u32) -> (r: u32) {
        u32::saturating_add(self, rhs)
    }
}

impl SaturatingMul for u32 {
    type Output = u32;

    open spec fn saturating_mul_spec(self, rhs: u32) -> u32 {
        clamp(self * rhs, u32::MIN as int, u32::MAX as int) as u32
    }

    fn saturating_mul(self, rhs: u32) -> (r: u32) {
        match self.checked_mul(rhs) {
            Some(n) => n,
            None => u32::MAX,
        }
    }
}

impl SaturatingSub for u32 {
    type Output = u32;

    open spec fn saturating_sub_spec(self, rhs: u32) -> u32 {
        clamp(self - rhs, u32::MIN as int, u32::MAX as int) as u32
    }

    fn saturating_sub(self, rhs: u32) -> (r: u32) {
        u32::saturating_sub(self, rhs)
    }
}

impl SaturatingNeg for u32 {
    type Output = u32;

    open spec fn saturating_neg_spec(self) -> u32 {
        clamp(-self, u32::MIN as int, u32::MAX as int) as u32
    }

    fn saturating_neg(self) -> (r: u32) {
        0
    }
}

impl<'r> SaturatingAdd<&'r u32> for u32 {
    type Output = u32;

    open spec fn saturating_add_spec(self, rhs: &'r u32) -> u32 {
        self.saturating_add_spec(*rhs)
    }

    fn saturating_add(self, rhs: &'r u32) -> (r: u32) {
        SaturatingAdd::saturating_add(self, *rhs)
    }
}

impl<'r> SaturatingMul<&'r u32> for u32 {
    type Output = u32;

    open spec fn saturating_mul_spec(self, rhs: &'r u32) -> u32 {
        self.saturating_mul_spec(*rhs)
    }

    fn saturating_mul(self, rhs: &'r u32) -> (r: u32) {
        SaturatingMul::saturating_mul(self, *rhs)
    }
}

impl<'r> SaturatingSub<&'r u32> for u32 {
    type Output = u32;

    open spec fn saturating_sub_spec(self, rhs: &'r u32) -> u32 {
        self.saturating_sub_spec(*rhs)
    }

    fn saturating_sub(self, rhs: &'r u32) -> (r: u32) {
        SaturatingSub::saturating_sub(self, *rhs)
    }
}

impl SaturatingAdd for u64 {
    type Output = u64;

    open spec fn saturating_add_spec(self, rhs: u64) -> u64 {
        clamp(self + rhs, u64::MIN as int, u64::MAX as int) as u64
    }

    fn saturating_add(self, rhs: u64) -> (r: u64) {
        u64::saturating_add(self, rhs)
    }
}

impl SaturatingMul for u64 {
    type Output = u64;

    open spec fn saturating_mul_spec(self, rhs: u64) -> u64 {
        clamp(self * rhs, u64::MIN as int, u64::MAX as int) as u64
    }

    fn saturating_mul(self, rhs: u64) -> (r: u64) {
        match self.checked_mul(rhs) {
            Some(n) => n,
            None => u64::MAX,
        }
    }
}

impl SaturatingSub for u64 {
    type Output = u64;

    open spec fn saturating_sub_spec(self, rhs: u64) -> u64 {
        clamp(self - rhs, u64::MIN as int, u64::MAX as int) as u64
    }

    fn saturating_sub(self, rhs: u64) -> (r: u64) {
        u64::saturating_sub(self, rhs)
    }
}

impl SaturatingNeg for u64 {
    type Output = u64;

    open spec fn saturating_neg_spec(self) -> u64 {
        clamp(-self, u64::MIN as int, u64::MAX as int) as u64
    }

    fn saturating_neg(self) -> (r: u64) {
        0
    }
}

impl<'r> SaturatingAdd<&'r u64> for u64 {
    type Output = u64;

    open spec fn saturating_add_spec(self, rhs: &'r u64) -> u64 {
        self.saturating_add_spec(*rhs)
    }

    fn saturating_add(self, rhs: &'r u64) -> (r: u64) {
        SaturatingAdd::saturating_add(self, *rhs)
    }
}

impl<'r> SaturatingMul<&'r u64> for u64 {
    type Output = u64;

    open spec fn saturating_mul_spec(self, rhs: &'r u64) -> u64 {
        self.saturating_mul_spec(*rhs)
    }

    fn saturating_mul(self, rhs: &'r u64) -> (r: u64) {
        SaturatingMul::saturating_mul(self, *rhs)
    }
}

impl<'r> SaturatingSub<&'r u64> for u64 {
    type Output = u64;

    open spec fn saturating_sub_spec(self, rhs: &'r u64) -> u64 {
        self.saturating_sub_spec(*rhs)
    }

    fn saturating_sub(self, rhs: &'r u64) -> (r: u64) {
        SaturatingSub::saturating_sub(self, *rhs)
    }
}

impl SaturatingAdd for u128 {
    type Output = u128;

    open spec fn saturating_add_spec(self, rhs: u128) -> u128 {
        clamp(self + rhs, u128::MIN as int, u128::MAX as int) as u128
    }

    fn saturating_add(self, rhs: u128) -> (r: u128) {
        u128::saturating_add(self, rhs)
    }
}

impl SaturatingMul for u128 {
    type Output = u128;

    open spec fn saturating_mul_spec(self, rhs: u128) -> u128 {
        clamp(self * rhs, u128::MIN as int, u128::MAX as int) as u128
    }

    fn saturating_mul(self, rhs: u128) -> (r: u128) {
        match self.checked_mul(rhs) {
            Some(n) => n,
            None => u128::MAX,
        }
    }
}

impl SaturatingSub for u128 {
    type Output = u128;

    open spec fn saturating_sub_spec(self, rhs: u128) -> u128 {
        clamp(self - rhs, u128::MIN as int, u128::MAX as int) as u128
    }

    fn saturating_sub(self, rhs: u128) -> (r: u128) {
        u128::saturating_sub(self, rhs)
    }
}

impl SaturatingNeg for u128 {
    type Output = u128;

    open spec fn saturating_neg_spec(self) -> u128 {
        clamp(-self, u128::MIN as int, u128::MAX as int) as u128
    }

    fn saturating_neg(self) -> (r: u128) {
        0
    }
}

impl<'r> SaturatingAdd<&'r u128> for u128 {
    type Output = u128;

    open spec fn saturating_add_spec(self, rhs: &'r u128) -> u128 {
        self.saturating_add_spec(*rhs)
    }

    fn saturating_add(self, rhs: &'r u128) -> (r: u128) {
        SaturatingAdd::saturating_add(self, *rhs)
    }
}

impl<'r> SaturatingMul<&'r u128> for u128 {
    type Output = u128;

    open spec fn saturating_mul_spec(self, rhs: &'r u128) -> u128 {
        self.saturating_mul_spec(*rhs)
    }

    fn saturating_mul(self, rhs: &'r u128) -> (r: u128) {
        SaturatingMul::saturating_mul(self, *rhs)
    }
}

impl<'r> SaturatingSub<&'r u128> for u128 {
    type Output = u128;

    open spec fn saturating_sub_spec(self, rhs: &'r u128) -> u128 {
        self.saturating_sub_spec(*rhs)
    }

    fn saturating_sub(self, rhs: &'r u128) -> (r: u128) {
        SaturatingSub::saturating_sub(self, *rhs)
    }
}

impl SaturatingAdd for usize {
    type Output = usize;

    open spec fn saturating_add_spec(self, rhs: usize) -> usize {
        clamp(self + rhs, usize::MIN as int, usize::MAX as int) as usize
    }

    fn saturating_add(self, rhs: usize) -> (r: usize) {
        usize::saturating_add(self, rhs)
    }
}

impl SaturatingMul for usize {
    type Output = usize;

    open spec fn saturating_mul_spec(self, rhs: usize) -> usize {
        clamp(self * rhs, usize::MIN as int, usize::MAX as int) as usize
    }

    fn saturating_mul(self, rhs: usize) -> (r: usize) {
        match self.checked_mul(rhs) {
            Some(n) => n,
            None => usize::MAX,
        }
    }
}

impl SaturatingSub for usize {
    type Output = usize;

    open spec fn saturating_sub_spec(self, rhs: usize) -> usize {
        clamp(self - rhs, usize::MIN as int, usize::MAX as int) as usize
    }

    fn saturating_sub(self, rhs: usize) -> (r: usize) {
        usize::saturating_sub(self, rhs)
    }
}

impl SaturatingNeg for usize {
    type Output = usize;

    open spec fn saturating_neg_spec(self) -> usize {
        clamp(-self, usize::MIN as int, usize::MAX as int) as usize
    }

    fn saturating_neg(self) -> (r: usize) {
        0
    }
}

impl<'r> SaturatingAdd<&'r usize> for usize {
    type Output = usize;

    open spec fn saturating_add_spec(self, rhs: &'r usize) -> usize {
        self.saturating_add_spec(*rhs)
    }

    fn saturating_add(self, rhs: &'r usize) -> (r: usize) {
        SaturatingAdd::saturating_add(self, *rhs)
    }
}

impl<'r> SaturatingMul<&'r usize> for usize {
    type Output = usize;

    open spec fn saturating_mul_spec(self, rhs: &'r usize) -> usize {
        self.saturating_mul_spec(*rhs)
    }

    fn saturating_mul(self, rhs: &'r usize) -> (r: usize) {
        SaturatingMul::saturating_mul(self, *rhs)
    }
}

impl<'r> SaturatingSub<&'r usize> for usize {
    type Output = usize;

    open spec fn saturating_sub_spec(self, rhs: &'r usize) -> usize {
        self.saturating_sub_spec(*rhs)
    }

    fn saturating_sub(self, rhs: &'r usize) -> (r: usize) {
        SaturatingSub::saturating_sub(self, *rhs)
    }
}

} // verus!
