//! Checked operators: each returns the true result when it is representable
//! and a classified error otherwise, never panicking.

use vstd::prelude::*;
use crate::error::{ArithmeticError, Overflow, RangeError, Undefined, Underflow};
use crate::math::{div_trunc, lemma_div_trunc_facts, lemma_mul_sign, lemma_rem_trunc_facts,
    rem_trunc};

verus! {

/// Checked addition operator which returns a [Result] to indicate success or
/// failure.
pub trait TryAdd<Rhs = Self>: Sized {
    type Output;

    type Error;

    /// The exact result `try_add` returns.
    spec fn try_add_spec(self, rhs: Rhs) -> Result<Self::Output, Self::Error>;

    fn try_add(self, rhs: Rhs) -> (r: Result<Self::Output, Self::Error>)
        ensures
            r == self.try_add_spec(rhs),
    ;
}

/// Checked division operator which returns a [Result] to indicate success or
/// failure.
pub trait TryDiv<Rhs = Self>: Sized {
    type Output;

    type Error;

    /// The exact result `try_div` returns.
    spec fn try_div_spec(self, rhs: Rhs) -> Result<Self::Output, Self::Error>;

    fn try_div(self, rhs: Rhs) -> (r: Result<Self::Output, Self::Error>)
        ensures
            r == self.try_div_spec(rhs),
    ;
}

/// Checked multiplication operator which returns a [Result] to indicate success or
/// failure.
pub trait TryMul<Rhs = Self>: Sized {
    type Output;

    type Error;

    /// The exact result `try_mul` returns.
    spec fn try_mul_spec(self, rhs: Rhs) -> Result<Self::Output, Self::Error>;

    fn try_mul(self, rhs: Rhs) -> (r: Result<Self::Output, Self::Error>)
        ensures
            r == self.try_mul_spec(rhs),
    ;
}

/// Checked negation operator which returns a [Result] to indicate success or
/// failure.
pub trait TryNeg: Sized {
    type Output;

    type Error;

    /// The exact result `try_neg` returns.
    spec fn try_neg_spec(self) -> Result<Self::Output, Self::Error>;

    fn try_neg(self) -> (r: Result<Self::Output, Self::Error>)
        ensures
            r == self.try_neg_spec(),
    ;
}

/// Checked remainder operator which returns a [Result] to indicate success or
/// failure.
pub trait TryRem<Rhs = Self>: Sized {
    type Output;

    type Error;

    /// The exact result `try_rem` returns.
    spec fn try_rem_spec(self, rhs: Rhs) -> Result<Self::Output, Self::Error>;

    fn try_rem(self, rhs: Rhs) -> (r: Result<Self::Output, Self::Error>)
        ensures
            r == self.try_rem_spec(rhs),
    ;
}

/// Checked subtraction operator which returns a [Result] to indicate success or
/// failure.
pub trait TrySub<Rhs = Self>: Sized {
    type Output;

    type Error;

    /// The exact result `try_sub` returns.
    spec fn try_sub_spec(self, rhs: Rhs) -> Result<Self::Output, Self::Error>;

    fn try_sub(self, rhs: Rhs) -> (r: Result<Self::Output, Self::Error>)
        ensures
            r == self.try_sub_spec(rhs),
    ;
}

impl<'a, Rhs, T: TryAdd<Rhs> + Copy> TryAdd<Rhs> for &'a T {
    type Output = <T as TryAdd<Rhs>>::Output;

    type Error = <T as TryAdd<Rhs>>::Error;

    open spec fn try_add_spec(self, rhs: Rhs) -> Result<
        <T as TryAdd<Rhs>>::Output,
        <T as TryAdd<Rhs>>::Error,
    > {
        (*self).try_add_spec(rhs)
    }

    fn try_add(self, rhs: Rhs) -> (r: Result<
        <T as TryAdd<Rhs>>::Output,
        <T as TryAdd<Rhs>>::Error,
    >) {
        TryAdd::try_add(*self, rhs)
    }
}

impl<'a, Rhs, T: TryDiv<Rhs> + Copy> TryDiv<Rhs> for &'a T {
    type Output = <T as TryDiv<Rhs>>::Output;

    type Error = <T as TryDiv<Rhs>>::Error;

    open spec fn try_div_spec(self, rhs: Rhs) -> Result<
        <T as TryDiv<Rhs>>::Output,
        <T as TryDiv<Rhs>>::Error,
    > {
        (*self).try_div_spec(rhs)
    }

    fn try_div(self, rhs: Rhs) -> (r: Result<
        <T as TryDiv<Rhs>>::Output,
        <T as TryDiv<Rhs>>::Error,
    >) {
        TryDiv::try_div(*self, rhs)
    }
}

impl<'a, Rhs, T: TryMul<Rhs> + Copy> TryMul<Rhs> for &'a T {
    type Output = <T as TryMul<Rhs>>::Output;

    type Error = <T as TryMul<Rhs>>::Error;

    open spec fn try_mul_spec(self, rhs: Rhs) -> Result<
        <T as TryMul<Rhs>>::Output,
        <T as TryMul<Rhs>>::Error,
    > {
        (*self).try_mul_spec(rhs)
    }

    fn try_mul(self, rhs: Rhs) -> (r: Result<
        <T as TryMul<Rhs>>::Output,
        <T as TryMul<Rhs>>::Error,
    >) {
        TryMul::try_mul(*self, rhs)
    }
}

impl<'a, T: TryNeg + Copy> TryNeg for &'a T {
    type Output = <T as TryNeg>::Output;

    type Error = <T as TryNeg>::Error;

    open spec fn try_neg_spec(self) -> Result<<T as TryNeg>::Output, <T as TryNeg>::Error> {
        (*self).try_neg_spec()
    }

    fn try_neg(self) -> (r: Result<<T as TryNeg>::Output, <T as TryNeg>::Error>) {
        TryNeg::try_neg(*self)
    }
}

impl<'a, Rhs, T: TryRem<Rhs> + Copy> TryRem<Rhs> for &'a T {
    type Output = <T as TryRem<Rhs>>::Output;

    type Error = <T as TryRem<Rhs>>::Error;

    open spec fn try_rem_spec(self, rhs: Rhs) -> Result<
        <T as TryRem<Rhs>>::Output,
        <T as TryRem<Rhs>>::Error,
    > {
        (*self).try_rem_spec(rhs)
    }

    fn try_rem(self, rhs: Rhs) -> (r: Result<
        <T as TryRem<Rhs>>::Output,
        <T as TryRem<Rhs>>::Error,
    >) {
        TryRem::try_rem(*self, rhs)
    }
}

impl<'a, Rhs, T: TrySub<Rhs> + Copy> TrySub<Rhs> for &'a T {
    type Output = <T as TrySub<Rhs>>::Output;

    type Error = <T as TrySub<Rhs>>::Error;

    open spec fn try_sub_spec(self, rhs: Rhs) -> Result<
        <T as TrySub<Rhs>>::Output,
        <T as TrySub<Rhs>>::Error,
    > {
        (*self).try_sub_spec(rhs)
    }

    fn try_sub(self, rhs: Rhs) -> (r: Result<
        <T as TrySub<Rhs>>::Output,
        <T as TrySub<Rhs>>::Error,
    >) {
        TrySub::try_sub(*self, rhs)
    }
}

impl TryAdd for i8 {
    type Output = i8;

    type Error = RangeError;

    open spec fn try_add_spec(self, rhs: i8) -> Result<i8, RangeError> {
        if self + rhs > i8::MAX {
            Err(RangeError::Overflow)
        } else if self + rhs < i8::MIN {
            Err(RangeError::Underflow)
        } else {
            Ok((self + rhs) as i8)
        }
    }

    fn try_add(self, rhs: i8) -> (r: Result<i8, RangeError>) {
        match self.checked_add(rhs) {
            None => Err(
                if self >= 0 {
                    RangeError::Overflow
                } else {
                    RangeError::Underflow
                },
            ),
            Some(n) => Ok(n),
        }
    }
}

impl TryDiv for i8 {
    type Output = i8;

    type Error = ArithmeticError;

    open spec fn try_div_spec(self, rhs: i8) -> Result<i8, ArithmeticError> {
        if rhs == 0 {
            Err(ArithmeticError::Undefined)
        } else if self == i8::MIN && rhs == -1 {
            Err(ArithmeticError::Overflow)
        } else {
            Ok(div_trunc(self as int, rhs as int) as i8)
        }
    }

    fn try_div(self, rhs: i8) -> (r: Result<i8, ArithmeticError>) {
        proof {
            lemma_div_trunc_facts(self as int, rhs as int, i8::MIN as int, i8::MAX as int);
        }
        match self.checked_div(rhs) {
            None => Err(
                if rhs == 0 {
                    ArithmeticError::Undefined
                } else {
                    ArithmeticError::Overflow
                },
            ),
            Some(n) => Ok(n),
        }
    }
}

impl TryMul for i8 {
    type Output = i8;

    type Error = RangeError;

    open spec fn try_mul_spec(self, rhs: i8) -> Result<i8, RangeError> {
        if self * rhs > i8::MAX {
            Err(RangeError::Overflow)
        } else if self * rhs < i8::MIN {
            Err(RangeError::Underflow)
        } else {
            Ok((self * rhs) as i8)
        }
    }

    fn try_mul(self, rhs: i8) -> (r: Result<i8, RangeError>) {
        proof {
            lemma_mul_sign(self as int, rhs as int);
        }
        match self.checked_mul(rhs) {
            None => Err(
                if (self >= 0) == (rhs >= 0) {
                    RangeError::Overflow
                } else {
                    RangeError::Underflow
                },
            ),
            Some(n) => Ok(n),
        }
    }
}

impl TryNeg for i8 {
    type Output = i8;

    type Error = Overflow;

    open spec fn try_neg_spec(self) -> Result<i8, Overflow> {
        if -self > i8::MAX {
            Err(Overflow)
        } else {
            Ok((-self) as i8)
        }
    }

    fn try_neg(self) -> (r: Result<i8, Overflow>) {
        if self == i8::MIN {
            Err(Overflow)
        } else {
            Ok(-self)
        }
    }
}

impl TryRem for i8 {
    type Output = i8;

    type Error = Undefined;

    open spec fn try_rem_spec(self, rhs: i8) -> Result<i8, Undefined> {
        if rhs == 0 {
            Err(Undefined)
        } else {
            Ok(rem_trunc(self as int, rhs as int) as i8)
        }
    }

    fn try_rem(self, rhs: i8) -> (r: Result<i8, Undefined>) {
        proof {
            lemma_rem_trunc_facts(self as int, rhs as int, i8::MIN as int, i8::MAX as int);
        }
        match self.checked_rem(rhs) {
            None => if rhs == 0 {
                Err(Undefined)
            } else {
                Ok(0)
            },
            Some(n) => Ok(n),
        }
    }
}

impl TrySub for i8 {
    type Output = i8;

    type Error = RangeError;

    open spec fn try_sub_spec(self, rhs: i8) -> Result<i8, RangeError> {
        if self - rhs > i8::MAX {
            Err(RangeError::Overflow)
        } else if self - rhs < i8::MIN {
            Err(RangeError::Underflow)
        } else {
            Ok((self - rhs) as i8)
        }
    }

    fn try_sub(self, rhs: i8) -> (r: Result<i8, RangeError>) {
        match self.checked_sub(rhs) {
            None => Err(
                if self >= 0 {
                    RangeError::Overflow
                } else {
                    RangeError::Underflow
                },
            ),
            Some(n) => Ok(n),
        }
    }
}

impl<'r> TryAdd<&'r i8> for i8 {
    type Output = i8;

    type Error = RangeError;

    open spec fn try_add_spec(self, rhs: &'r i8) -> Result<i8, RangeError> {
        self.try_add_spec(*rhs)
    }

    fn try_add(self, rhs: &'r i8) -> (r: Result<i8, RangeError>) {
        TryAdd::try_add(self, *rhs)
    }
}

impl<'r> TryDiv<&'r i8> for i8 {
    type Output = i8;

    type Error = ArithmeticError;

    open spec fn try_div_spec(self, rhs: &'r i8) -> Result<i8, ArithmeticError> {
        self.try_div_spec(*rhs)
    }

    fn try_div(self, rhs: &'r i8) -> (r: Result<i8, ArithmeticError>) {
        TryDiv::try_div(self, *rhs)
    }
}

impl<'r> TryMul<&'r i8> for i8 {
    type Output = i8;

    type Error = RangeError;

    open spec fn try_mul_spec(self, rhs: &'r i8) -> Result<i8, RangeError> {
        self.try_mul_spec(*rhs)
    }

    fn try_mul(self, rhs: &'r i8) -> (r: Result<i8, RangeError>) {
        TryMul::try_mul(self, *rhs)
    }
}

impl<'r> TryRem<&'r i8> for i8 {
    type Output = i8;

    type Error = Undefined;

    open spec fn try_rem_spec(self, rhs: &'r i8) -> Result<i8, Undefined> {
        self.try_rem_spec(*rhs)
    }

    fn try_rem(self, rhs: &'r i8) -> (r: Result<i8, Undefined>) {
        TryRem::try_rem(self, *rhs)
    }
}

impl<'r> TrySub<&'r i8> for i8 {
    type Output = i8;

    type Error = RangeError;

    open spec fn try_sub_spec(self, rhs: &'r i8) -> Result<i8, RangeError> {
        self.try_sub_spec(*rhs)
    }

    fn try_sub(self, rhs: &'r i8) -> (r: Result<i8, RangeError>) {
        TrySub::try_sub(self, *rhs)
    }
}

impl TryAdd for i16 {
    type Output = i16;

    type Error = RangeError;

    open spec fn try_add_spec(self, rhs: i16) -> Result<i16, RangeError> {
        if self + rhs > i16::MAX {
            Err(RangeError::Overflow)
        } else if self + rhs < i16::MIN {
            Err(RangeError::Underflow)
        } else {
            Ok((self + rhs) as i16)
        }
    }

    fn try_add(self, rhs: i16) -> (r: Result<i16, RangeError>) {
        match self.checked_add(rhs) {
            None => Err(
                if self >= 0 {
                    RangeError::Overflow
                } else {
                    RangeError::Underflow
                },
            ),
            Some(n) => Ok(n),
        }
    }
}

impl TryDiv for i16 {
    type Output = i16;

    type Error = ArithmeticError;

    open spec fn try_div_spec(self, rhs: i16) -> Result<i16, ArithmeticError> {
        if rhs == 0 {
            Err(ArithmeticError::Undefined)
        } else if self == i16::MIN && rhs == -1 {
            Err(ArithmeticError::Overflow)
        } else {
            Ok(div_trunc(self as int, rhs as int) as i16)
        }
    }

    fn try_div(self, rhs: i16) -> (r: Result<i16, ArithmeticError>) {
        proof {
            lemma_div_trunc_facts(self as int, rhs as int, i16::MIN as int, i16::MAX as int);
        }
        match self.checked_div(rhs) {
            None => Err(
                if rhs == 0 {
                    ArithmeticError::Undefined
                } else {
                    ArithmeticError::Overflow
                },
            ),
            Some(n) => Ok(n),
        }
    }
}

impl TryMul for i16 {
    type Output = i16;

    type Error = RangeError;

    open spec fn try_mul_spec(self, rhs: i16) -> Result<i16, RangeError> {
        if self * rhs > i16::MAX {
            Err(RangeError::Overflow)
        } else if self * rhs < i16::MIN {
            Err(RangeError::Underflow)
        } else {
            Ok((self * rhs) as i16)
        }
    }

    fn try_mul(self, rhs: i16) -> (r: Result<i16, RangeError>) {
        proof {
            lemma_mul_sign(self as int, rhs as int);
        }
        match self.checked_mul(rhs) {
            None => Err(
                if (self >= 0) == (rhs >= 0) {
                    RangeError::Overflow
                } else {
                    RangeError::Underflow
                },
            ),
            Some(n) => Ok(n),
        }
    }
}

impl TryNeg for i16 {
    type Output = i16;

    type Error = Overflow;

    open spec fn try_neg_spec(self) -> Result<i16, Overflow> {
        if -self > i16::MAX {
            Err(Overflow)
        } else {
            Ok((-self) as i16)
        }
    }

    fn try_neg(self) -> (r: Result<i16, Overflow>) {
        if self == i16::MIN {
            Err(Overflow)
        } else {
            Ok(-self)
        }
    }
}

impl TryRem for i16 {
    type Output = i16;

    type Error = Undefined;

    open spec fn try_rem_spec(self, rhs: i16) -> Result<i16, Undefined> {
        if rhs == 0 {
            Err(Undefined)
        } else {
            Ok(rem_trunc(self as int, rhs as int) as i16)
        }
    }

    fn try_rem(self, rhs: i16) -> (r: Result<i16, Undefined>) {
        proof {
            lemma_rem_trunc_facts(self as int, rhs as int, i16::MIN as int, i16::MAX as int);
        }
        match self.checked_rem(rhs) {
            None => if rhs == 0 {
                Err(Undefined)
            } else {
                Ok(0)
            },
            Some(n) => Ok(n),
        }
    }
}

impl TrySub for i16 {
    type Output = i16;

    type Error = RangeError;

    open spec fn try_sub_spec(self, rhs: i16) -> Result<i16, RangeError> {
        if self - rhs > i16::MAX {
            Err(RangeError::Overflow)
        } else if self - rhs < i16::MIN {
            Err(RangeError::Underflow)
        } else {
            Ok((self - rhs) as i16)
        }
    }

    fn try_sub(self, rhs: i16) -> (r: Result<i16, RangeError>) {
        match self.checked_sub(rhs) {
            None => Err(
                if self >= 0 {
                    RangeError::Overflow
                } else {
                    RangeError::Underflow
                },
            ),
            Some(n) => Ok(n),
        }
    }
}

impl<'r> TryAdd<&'r i16> for i16 {
    type Output = i16;

    type Error = RangeError;

    open spec fn try_add_spec(self, rhs: &'r i16) -> Result<i16, RangeError> {
        self.try_add_spec(*rhs)
    }

    fn try_add(self, rhs: &'r i16) -> (r: Result<i16, RangeError>) {
        TryAdd::try_add(self, *rhs)
    }
}

impl<'r> TryDiv<&'r i16> for i16 {
    type Output = i16;

    type Error = ArithmeticError;

    open spec fn try_div_spec(self, rhs: &'r i16) -> Result<i16, ArithmeticError> {
        self.try_div_spec(*rhs)
    }

    fn try_div(self, rhs: &'r i16) -> (r: Result<i16, ArithmeticError>) {
        TryDiv::try_div(self, *rhs)
    }
}

impl<'r> TryMul<&'r i16> for i16 {
    type Output = i16;

    type Error = RangeError;

    open spec fn try_mul_spec(self, rhs: &'r i16) -> Result<i16, RangeError> {
        self.try_mul_spec(*rhs)
    }

    fn try_mul(self, rhs: &'r i16) -> (r: Result<i16, RangeError>) {
        TryMul::try_mul(self, *rhs)
    }
}

impl<'r> TryRem<&'r i16> for i16 {
    type Output = i16;

    type Error = Undefined;

    open spec fn try_rem_spec(self, rhs: &'r i16) -> Result<i16, Undefined> {
        self.try_rem_spec(*rhs)
    }

    fn try_rem(self, rhs: &'r i16) -> (r: Result<i16, Undefined>) {
        TryRem::try_rem(self, *rhs)
    }
}

impl<'r> TrySub<&'r i16> for i16 {
    type Output = i16;

    type Error = RangeError;

    open spec fn try_sub_spec(self, rhs: &'r i16) -> Result<i16, RangeError> {
        self.try_sub_spec(*rhs)
    }

    fn try_sub(self, rhs: &'r i16) -> (r: Result<i16, RangeError>) {
        TrySub::try_sub(self, *rhs)
    }
}

impl TryAdd for i32 {
    type Output = i32;

    type Error = RangeError;

    open spec fn try_add_spec(self, rhs: i32) -> Result<i32, RangeError> {
        if self + rhs > i32::MAX {
            Err(RangeError::Overflow)
        } else if self + rhs < i32::MIN {
            Err(RangeError::Underflow)
        } else {
            Ok((self + rhs) as i32)
        }
    }

    fn try_add(self, rhs: i32) -> (r: Result<i32, RangeError>) {
        match self.checked_add(rhs) {
            None => Err(
                if self >= 0 {
                    RangeError::Overflow
                } else {
                    RangeError::Underflow
                },
            ),
            Some(n) => Ok(n),
        }
    }
}

impl TryDiv for i32 {
    type Output = i32;

    type Error = ArithmeticError;

    open spec fn try_div_spec(self, rhs: i32) -> Result<i32, ArithmeticError> {
        if rhs == 0 {
            Err(ArithmeticError::Undefined)
        } else if self == i32::MIN && rhs == -1 {
            Err(ArithmeticError::Overflow)
        } else {
            Ok(div_trunc(self as int, rhs as int) as i32)
        }
    }

    fn try_div(self, rhs: i32) -> (r: Result<i32, ArithmeticError>) {
        proof {
            lemma_div_trunc_facts(self as int, rhs as int, i32::MIN as int, i32::MAX as int);
        }
        match self.checked_div(rhs) {
            None => Err(
                if rhs == 0 {
                    ArithmeticError::Undefined
                } else {
                    ArithmeticError::Overflow
                },
            ),
            Some(n) => Ok(n),
        }
    }
}

impl TryMul for i32 {
    type Output = i32;

    type Error = RangeError;

    open spec fn try_mul_spec(self, rhs: i32) -> Result<i32, RangeError> {
        if self * rhs > i32::MAX {
            Err(RangeError::Overflow)
        } else if self * rhs < i32::MIN {
            Err(RangeError::Underflow)
        } else {
            Ok((self * rhs) as i32)
        }
    }

    fn try_mul(self, rhs: i32) -> (r: Result<i32, RangeError>) {
        proof {
            lemma_mul_sign(self as int, rhs as int);
        }
        match self.checked_mul(rhs) {
            None => Err(
                if (self >= 0) == (rhs >= 0) {
                    RangeError::Overflow
                } else {
                    RangeError::Underflow
                },
            ),
            Some(n) => Ok(n),
        }
    }
}

impl TryNeg for i32 {
    type Output = i32;

    type Error = Overflow;

    open spec fn try_neg_spec(self) -> Result<i32, Overflow> {
        if -self > i32::MAX {
            Err(Overflow)
        } else {
            Ok((-self) as i32)
        }
    }

    fn try_neg(self) -> (r: Result<i32, Overflow>) {
        if self == i32::MIN {
            Err(Overflow)
        } else {
            Ok(-self)
        }
    }
}

impl TryRem for i32 {
    type Output = i32;

    type Error = Undefined;

    open spec fn try_rem_spec(self, rhs: i32) -> Result<i32, Undefined> {
        if rhs == 0 {
            Err(Undefined)
        } else {
            Ok(rem_trunc(self as int, rhs as int) as i32)
        }
    }

    fn try_rem(self, rhs: i32) -> (r: Result<i32, Undefined>) {
        proof {
            lemma_rem_trunc_facts(self as int, rhs as int, i32::MIN as int, i32::MAX as int);
        }
        match self.checked_rem(rhs) {
            None => if rhs == 0 {
                Err(Undefined)
            } else {
                Ok(0)
            },
            Some(n) => Ok(n),
        }
    }
}

impl TrySub for i32 {
    type Output = i32;

    type Error = RangeError;

    open spec fn try_sub_spec(self, rhs: i32) -> Result<i32, RangeError> {
        if self - rhs > i32::MAX {
            Err(RangeError::Overflow)
        } else if self - rhs < i32::MIN {
            Err(RangeError::Underflow)
        } else {
            Ok((self - rhs) as i32)
        }
    }

    fn try_sub(self, rhs: i32) -> (r: Result<i32, RangeError>) {
        match self.checked_sub(rhs) {
            None => Err(
                if self >= 0 {
                    RangeError::Overflow
                } else {
                    RangeError::Underflow
                },
            ),
            Some(n) => Ok(n),
        }
    }
}

impl<'r> TryAdd<&'r i32> for i32 {
    type Output = i32;

    type Error = RangeError;

    open spec fn try_add_spec(self, rhs: &'r i32) -> Result<i32, RangeError> {
        self.try_add_spec(*rhs)
    }

    fn try_add(self, rhs: &'r i32) -> (r: Result<i32, RangeError>) {
        TryAdd::try_add(self, *rhs)
    }
}

impl<'r> TryDiv<&'r i32> for i32 {
    type Output = i32;

    type Error = ArithmeticError;

    open spec fn try_div_spec(self, rhs: &'r i32) -> Result<i32, ArithmeticError> {
        self.try_div_spec(*rhs)
    }

    fn try_div(self, rhs: &'r i32) -> (r: Result<i32, ArithmeticError>) {
        TryDiv::try_div(self, *rhs)
    }
}

impl<'r> TryMul<&'r i32> for i32 {
    type Output = i32;

    type Error = RangeError;

    open spec fn try_mul_spec(self, rhs: &'r i32) -> Result<i32, RangeError> {
        self.try_mul_spec(*rhs)
    }

    fn try_mul(self, rhs: &'r i32) -> (r: Result<i32, RangeError>) {
        TryMul::try_mul(self, *rhs)
    }
}

impl<'r> TryRem<&'r i32> for i32 {
    type Output = i32;

    type Error = Undefined;

    open spec fn try_rem_spec(self, rhs: &'r i32) -> Result<i32, Undefined> {
        self.try_rem_spec(*rhs)
    }

    fn try_rem(self, rhs: &'r i32) -> (r: Result<i32, Undefined>) {
        TryRem::try_rem(self, *rhs)
    }
}

impl<'r> TrySub<&'r i32> for i32 {
    type Output = i32;

    type Error = RangeError;

    open spec fn try_sub_spec(self, rhs: &'r i32) -> Result<i32, RangeError> {
        self.try_sub_spec(*rhs)
    }

    fn try_sub(self, rhs: &'r i32) -> (r: Result<i32, RangeError>) {
        TrySub::try_sub(self, *rhs)
    }
}

impl TryAdd for i64 {
    type Output = i64;

    type Error = RangeError;

    open spec fn try_add_spec(self, rhs: i64) -> Result<i64, RangeError> {
        if self + rhs > i64::MAX {
            Err(RangeError::Overflow)
        } else if self + rhs < i64::MIN {
            Err(RangeError::Underflow)
        } else {
            Ok((self + rhs) as i64)
        }
    }

    fn try_add(self, rhs: i64) -> (r: Result<i64, RangeError>) {
        match self.checked_add(rhs) {
            None => Err(
                if self >= 0 {
                    RangeError::Overflow
                } else {
                    RangeError::Underflow
                },
            ),
            Some(n) => Ok(n),
        }
    }
}

impl TryDiv for i64 {
    type Output = i64;

    type Error = ArithmeticError;

    open spec fn try_div_spec(self, rhs: i64) -> Result<i64, ArithmeticError> {
        if rhs == 0 {
            Err(ArithmeticError::Undefined)
        } else if self == i64::MIN && rhs == -1 {
            Err(ArithmeticError::Overflow)
        } else {
            Ok(div_trunc(self as int, rhs as int) as i64)
        }
    }

    fn try_div(self, rhs: i64) -> (r: Result<i64, ArithmeticError>) {
        proof {
            lemma_div_trunc_facts(self as int, rhs as int, i64::MIN as int, i64::MAX as int);
        }
        match self.checked_div(rhs) {
            None => Err(
                if rhs == 0 {
                    ArithmeticError::Undefined
                } else {
                    ArithmeticError::Overflow
                },
            ),
            Some(n) => Ok(n),
        }
    }
}

impl TryMul for i64 {
    type Output = i64;

    type Error = RangeError;

    open spec fn try_mul_spec(self, rhs: i64) -> Result<i64, RangeError> {
        if self * rhs > i64::MAX {
            Err(RangeError::Overflow)
        } else if self * rhs < i64::MIN {
            Err(RangeError::Underflow)
        } else {
            Ok((self * rhs) as i64)
        }
    }

    fn try_mul(self, rhs: i64) -> (r: Result<i64, RangeError>) {
        proof {
            lemma_mul_sign(self as int, rhs as int);
        }
        match self.checked_mul(rhs) {
            None => Err(
                if (self >= 0) == (rhs >= 0) {
                    RangeError::Overflow
                } else {
                    RangeError::Underflow
                },
            ),
            Some(n) => Ok(n),
        }
    }
}

impl TryNeg for i64 {
    type Output = i64;

    type Error = Overflow;

    open spec fn try_neg_spec(self) -> Result<i64, Overflow> {
        if -self > i64::MAX {
            Err(Overflow)
        } else {
            Ok((-self) as i64)
        }
    }

    fn try_neg(self) -> (r: Result<i64, Overflow>) {
        if self == i64::MIN {
            Err(Overflow)
        } else {
            Ok(-self)
        }
    }
}

impl TryRem for i64 {
    type Output = i64;

    type Error = Undefined;

    open spec fn try_rem_spec(self, rhs: i64) -> Result<i64, Undefined> {
        if rhs == 0 {
            Err(Undefined)
        } else {
            Ok(rem_trunc(self as int, rhs as int) as i64)
        }
    }

    fn try_rem(self, rhs: i64) -> (r: Result<i64, Undefined>) {
        proof {
            lemma_rem_trunc_facts(self as int, rhs as int, i64::MIN as int, i64::MAX as int);
        }
        match self.checked_rem(rhs) {
            None => if rhs == 0 {
                Err(Undefined)
            } else {
                Ok(0)
            },
            Some(n) => Ok(n),
        }
    }
}

impl TrySub for i64 {
    type Output = i64;

    type Error = RangeError;

    open spec fn try_sub_spec(self, rhs: i64) -> Result<i64, RangeError> {
        if self - rhs > i64::MAX {
            Err(RangeError::Overflow)
        } else if self - rhs < i64::MIN {
            Err(RangeError::Underflow)
        } else {
            Ok((self - rhs) as i64)
        }
    }

    fn try_sub(self, rhs: i64) -> (r: Result<i64, RangeError>) {
        match self.checked_sub(rhs) {
            None => Err(
                if self >= 0 {
                    RangeError::Overflow
                } else {
                    RangeError::Underflow
                },
            ),
            Some(n) => Ok(n),
        }
    }
}

impl<'r> TryAdd<&'r i64> for i64 {
    type Output = i64;

    type Error = RangeError;

    open spec fn try_add_spec(self, rhs: &'r i64) -> Result<i64, RangeError> {
        self.try_add_spec(*rhs)
    }

    fn try_add(self, rhs: &'r i64) -> (r: Result<i64, RangeError>) {
        TryAdd::try_add(self, *rhs)
    }
}

impl<'r> TryDiv<&'r i64> for i64 {
    type Output = i64;

    type Error = ArithmeticError;

    open spec fn try_div_spec(self, rhs: &'r i64) -> Result<i64, ArithmeticError> {
        self.try_div_spec(*rhs)
    }

    fn try_div(self, rhs: &'r i64) -> (r: Result<i64, ArithmeticError>) {
        TryDiv::try_div(self, *rhs)
    }
}

impl<'r> TryMul<&'r i64> for i64 {
    type Output = i64;

    type Error = RangeError;

    open spec fn try_mul_spec(self, rhs: &'r i64) -> Result<i64, RangeError> {
        self.try_mul_spec(*rhs)
    }

    fn try_mul(self, rhs: &'r i64) -> (r: Result<i64, RangeError>) {
        TryMul::try_mul(self, *rhs)
    }
}

impl<'r> TryRem<&'r i64> for i64 {
    type Output = i64;

    type Error = Undefined;

    open spec fn try_rem_spec(self, rhs: &'r i64) -> Result<i64, Undefined> {
        self.try_rem_spec(*rhs)
    }

    fn try_rem(self, rhs: &'r i64) -> (r: Result<i64, Undefined>) {
        TryRem::try_rem(self, *rhs)
    }
}

impl<'r> TrySub<&'r i64> for i64 {
    type Output = i64;

    type Error = RangeError;

    open spec fn try_sub_spec(self, rhs: &'r i64) -> Result<i64, RangeError> {
        self.try_sub_spec(*rhs)
    }

    fn try_sub(self, rhs: &'r i64) -> (r: Result<i64, RangeError>) {
        TrySub::try_sub(self, *rhs)
    }
}

impl TryAdd for i128 {
    type Output = i128;

    type Error = RangeError;

    open spec fn try_add_spec(self, rhs: i128) -> Result<i128, RangeError> {
        if self + rhs > i128::MAX {
            Err(RangeError::Overflow)
        } else if self + rhs < i128::MIN {
            Err(RangeError::Underflow)
        } else {
            Ok((self + rhs) as i128)
        }
    }

    fn try_add(self, rhs: i128) -> (r: Result<i128, RangeError>) {
        match self.checked_add(rhs) {
            None => Err(
                if self >= 0 {
                    RangeError::Overflow
                } else {
                    RangeError::Underflow
                },
            ),
            Some(n) => Ok(n),
        }
    }
}

impl TryDiv for i128 {
    type Output = i128;

    type Error = ArithmeticError;

    open spec fn try_div_spec(self, rhs: i128) -> Result<i128, ArithmeticError> {
        if rhs == 0 {
            Err(ArithmeticError::Undefined)
        } else if self == i128::MIN && rhs == -1 {
            Err(ArithmeticError::Overflow)
        } else {
            Ok(div_trunc(self as int, rhs as int) as i128)
        }
    }

    fn try_div(self, rhs: i128) -> (r: Result<i128, ArithmeticError>) {
        proof {
            lemma_div_trunc_facts(self as int, rhs as int, i128::MIN as int, i128::MAX as int);
        }
        match self.checked_div(rhs) {
            None => Err(
                if rhs == 0 {
                    ArithmeticError::Undefined
                } else {
                    ArithmeticError::Overflow
                },
            ),
            Some(n) => Ok(n),
        }
    }
}

impl TryMul for i128 {
    type Output = i128;

    type Error = RangeError;

    open spec fn try_mul_spec(self, rhs: i128) -> Result<i128, RangeError> {
        if self * rhs > i128::MAX {
            Err(RangeError::Overflow)
        } else if self * rhs < i128::MIN {
            Err(RangeError::Underflow)
        } else {
            Ok((self * rhs) as i128)
        }
    }

    fn try_mul(self, rhs: i128) -> (r: Result<i128, RangeError>) {
        proof {
            lemma_mul_sign(self as int, rhs as int);
        }
        match self.checked_mul(rhs) {
            None => Err(
                if (self >= 0) == (rhs >= 0) {
                    RangeError::Overflow
                } else {
                    RangeError::Underflow
                },
            ),
            Some(n) => Ok(n),
        }
    }
}

impl TryNeg for i128 {
    type Output = i128;

    type Error = Overflow;

    open spec fn try_neg_spec(self) -> Result<i128, Overflow> {
        if -self > i128::MAX {
            Err(Overflow)
        } else {
            Ok((-self) as i128)
        }
    }

    fn try_neg(self) -> (r: Result<i128, Overflow>) {
        if self == i128::MIN {
            Err(Overflow)
        } else {
            Ok(-self)
        }
    }
}

impl TryRem for i128 {
    type Output = i128;

    type Error = Undefined;

    open spec fn try_rem_spec(self, rhs: i128) -> Result<i128, Undefined> {
        if rhs == 0 {
            Err(Undefined)
        } else {
            Ok(rem_trunc(self as int, rhs as int) as i128)
        }
    }

    fn try_rem(self, rhs: i128) -> (r: Result<i128, Undefined>) {
        proof {
            lemma_rem_trunc_facts(self as int, rhs as int, i128::MIN as int, i128::MAX as int);
        }
        match self.checked_rem(rhs) {
            None => if rhs == 0 {
                Err(Undefined)
            } else {
                Ok(0)
            },
            Some(n) => Ok(n),
        }
    }
}

impl TrySub for i128 {
    type Output = i128;

    type Error = RangeError;

    open spec fn try_sub_spec(self, rhs: i128) -> Result<i128, RangeError> {
        if self - rhs > i128::MAX {
            Err(RangeError::Overflow)
        } else if self - rhs < i128::MIN {
            Err(RangeError::Underflow)
        } else {
            Ok((self - rhs) as i128)
        }
    }

    fn try_sub(self, rhs: i128) -> (r: Result<i128, RangeError>) {
        match self.checked_sub(rhs) {
            None => Err(
                if self >= 0 {
                    RangeError::Overflow
                } else {
                    RangeError::Underflow
                },
            ),
            Some(n) => Ok(n),
        }
    }
}

impl<'r> TryAdd<&'r i128> for i128 {
    type Output = i128;

    type Error = RangeError;

    open spec fn try_add_spec(self, rhs: &'r i128) -> Result<i128, RangeError> {
        self.try_add_spec(*rhs)
    }

    fn try_add(self, rhs: &'r i128) -> (r: Result<i128, RangeError>) {
        TryAdd::try_add(self, *rhs)
    }
}

impl<'r> TryDiv<&'r i128> for i128 {
    type Output = i128;

    type Error = ArithmeticError;

    open spec fn try_div_spec(self, rhs: &'r i128) -> Result<i128, ArithmeticError> {
        self.try_div_spec(*rhs)
    }

    fn try_div(self, rhs: &'r i128) -> (r: Result<i128, ArithmeticError>) {
        TryDiv::try_div(self, *rhs)
    }
}

impl<'r> TryMul<&'r i128> for i128 {
    type Output = i128;

    type Error = RangeError;

    open spec fn try_mul_spec(self, rhs: &'r i128) -> Result<i128, RangeError> {
        self.try_mul_spec(*rhs)
    }

    fn try_mul(self, rhs: &'r i128) -> (r: Result<i128, RangeError>) {
        TryMul::try_mul(self, *rhs)
    }
}

impl<'r> TryRem<&'r i128> for i128 {
    type Output = i128;

    type Error = Undefined;

    open spec fn try_rem_spec(self, rhs: &'r i128) -> Result<i128, Undefined> {
        self.try_rem_spec(*rhs)
    }

    fn try_rem(self, rhs: &'r i128) -> (r: Result<i128, Undefined>) {
        TryRem::try_rem(self, *rhs)
    }
}

impl<'r> TrySub<&'r i128> for i128 {
    type Output = i128;

    type Error = RangeError;

    open spec fn try_sub_spec(self, rhs: &'r i128) -> Result<i128, RangeError> {
        self.try_sub_spec(*rhs)
    }

    fn try_sub(self, rhs: &'r i128) -> (r: Result<i128, RangeError>) {
        TrySub::try_sub(self, *rhs)
    }
}

impl TryAdd for isize {
    type Output = isize;

    type Error = RangeError;

    open spec fn try_add_spec(self, rhs: isize) -> Result<isize, RangeError> {
        if self + rhs > isize::MAX {
            Err(RangeError::Overflow)
        } else if self + rhs < isize::MIN {
            Err(RangeError::Underflow)
        } else {
            Ok((self + rhs) as isize)
        }
    }

    fn try_add(self, rhs: isize) -> (r: Result<isize, RangeError>) {
        match self.checked_add(rhs) {
            None => Err(
                if self >= 0 {
                    RangeError::Overflow
                } else {
                    RangeError::Underflow
                },
            ),
            Some(n) => Ok(n),
        }
    }
}

impl TryDiv for isize {
    type Output = isize;

    type Error = ArithmeticError;

    open spec fn try_div_spec(self, rhs: isize) -> Result<isize, ArithmeticError> {
        if rhs == 0 {
            Err(ArithmeticError::Undefined)
        } else if self == isize::MIN && rhs == -1 {
            Err(ArithmeticError::Overflow)
        } else {
            Ok(div_trunc(self as int, rhs as int) as isize)
        }
    }

    fn try_div(self, rhs: isize) -> (r: Result<isize, ArithmeticError>) {
        proof {
            lemma_div_trunc_facts(self as int, rhs as int, isize::MIN as int, isize::MAX as int);
        }
        match self.checked_div(rhs) {
            None => Err(
                if rhs == 0 {
                    ArithmeticError::Undefined
                } else {
                    ArithmeticError::Overflow
                },
            ),
            Some(n) => Ok(n),
        }
    }
}

impl TryMul for isize {
    type Output = isize;

    type Error = RangeError;

    open spec fn try_mul_spec(self, rhs: isize) -> Result<isize, RangeError> {
        if self * rhs > isize::MAX {
            Err(RangeError::Overflow)
        } else if self * rhs < isize::MIN {
            Err(RangeError::Underflow)
        } else {
            Ok((self * rhs) as isize)
        }
    }

    fn try_mul(self, rhs: isize) -> (r: Result<isize, RangeError>) {
        proof {
            lemma_mul_sign(self as int, rhs as int);
        }
        match self.checked_mul(rhs) {
            None => Err(
                if (self >= 0) == (rhs >= 0) {
                    RangeError::Overflow
                } else {
                    RangeError::Underflow
                },
            ),
            Some(n) => Ok(n),
        }
    }
}

impl TryNeg for isize {
    type Output = isize;

    type Error = Overflow;

    open spec fn try_neg_spec(self) -> Result<isize, Overflow> {
        if -self > isize::MAX {
            Err(Overflow)
        } else {
            Ok((-self) as isize)
        }
    }

    fn try_neg(self) -> (r: Result<isize, Overflow>) {
        if self == isize::MIN {
            Err(Overflow)
        } else {
            Ok(-self)
        }
    }
}

impl TryRem for isize {
    type Output = isize;

    type Error = Undefined;

    open spec fn try_rem_spec(self, rhs: isize) -> Result<isize, Undefined> {
        if rhs == 0 {
            Err(Undefined)
        } else {
            Ok(rem_trunc(self as int, rhs as int) as isize)
        }
    }

    fn try_rem(self, rhs: isize) -> (r: Result<isize, Undefined>) {
        proof {
            lemma_rem_trunc_facts(self as int, rhs as int, isize::MIN as int, isize::MAX as int);
        }
        match self.checked_rem(rhs) {
            None => if rhs == 0 {
                Err(Undefined)
            } else {
                Ok(0)
            },
            Some(n) => Ok(n),
        }
    }
}

impl TrySub for isize {
    type Output = isize;

    type Error = RangeError;

    open spec fn try_sub_spec(self, rhs: isize) -> Result<isize, RangeError> {
        if self - rhs > isize::MAX {
            Err(RangeError::Overflow)
        } else if self - rhs < isize::MIN {
            Err(RangeError::Underflow)
        } else {
            Ok((self - rhs) as isize)
        }
    }

    fn try_sub(self, rhs: isize) -> (r: Result<isize, RangeError>) {
        match self.checked_sub(rhs) {
            None => Err(
                if self >= 0 {
                    RangeError::Overflow
                } else {
                    RangeError::Underflow
                },
            ),
            Some(n) => Ok(n),
        }
    }
}

impl<'r> TryAdd<&'r isize> for isize {
    type Output = isize;

    type Error = RangeError;

    open spec fn try_add_spec(self, rhs: &'r isize) -> Result<isize, RangeError> {
        self.try_add_spec(*rhs)
    }

    fn try_add(self, rhs: &'r isize) -> (r: Result<isize, RangeError>) {
        TryAdd::try_add(self, *rhs)
    }
}

impl<'r> TryDiv<&'r isize> for isize {
    type Output = isize;

    type Error = ArithmeticError;

    open spec fn try_div_spec(self, rhs: &'r isize) -> Result<isize, ArithmeticError> {
        self.try_div_spec(*rhs)
    }

    fn try_div(self, rhs: &'r isize) -> (r: Result<isize, ArithmeticError>) {
        TryDiv::try_div(self, *rhs)
    }
}

impl<'r> TryMul<&'r isize> for isize {
    type Output = isize;

    type Error = RangeError;

    open spec fn try_mul_spec(self, rhs: &'r isize) -> Result<isize, RangeError> {
        self.try_mul_spec(*rhs)
    }

    fn try_mul(self, rhs: &'r isize) -> (r: Result<isize, RangeError>) {
        TryMul::try_mul(self, *rhs)
    }
}

impl<'r> TryRem<&'r isize> for isize {
    type Output = isize;

    type Error = Undefined;

    open spec fn try_rem_spec(self, rhs: &'r isize) -> Result<isize, Undefined> {
        self.try_rem_spec(*rhs)
    }

    fn try_rem(self, rhs: &'r isize) -> (r: Result<isize, Undefined>) {
        TryRem::try_rem(self, *rhs)
    }
}

impl<'r> TrySub<&'r isize> for isize {
    type Output = isize;

    type Error = RangeError;

    open spec fn try_sub_spec(self, rhs: &'r isize) -> Result<isize, RangeError> {
        self.try_sub_spec(*rhs)
    }

    fn try_sub(self, rhs: &'r isize) -> (r: Result<isize, RangeError>) {
        TrySub::try_sub(self, *rhs)
    }
}

impl TryAdd for u8 {
    type Output = u8;

    type Error = Overflow;

    open spec fn try_add_spec(self, rhs: u8) -> Result<u8, Overflow> {
        if self + rhs > u8::MAX {
            Err(Overflow)
        } else {
            Ok((self + rhs) as u8)
        }
    }

    fn try_add(self, rhs: u8) -> (r: Result<u8, Overflow>) {
        match self.checked_add(rhs) {
            None => Err(Overflow),
            Some(n) => Ok(n),
        }
    }
}

impl TryDiv for u8 {
    type Output = u8;

    type Error = Undefined;

    open spec fn try_div_spec(self, rhs: u8) -> Result<u8, Undefined> {
        if rhs == 0 {
            Err(Undefined)
        } else {
            Ok(self / rhs)
        }
    }

    fn try_div(self, rhs: u8) -> (r: Result<u8, Undefined>) {
        match self.checked_div(rhs) {
            None => Err(Undefined),
            Some(n) => Ok(n),
        }
    }
}

impl TryMul for u8 {
    type Output = u8;

    type Error = Overflow;

    open spec fn try_mul_spec(self, rhs: u8) -> Result<u8, Overflow> {
        if self * rhs > u8::MAX {
            Err(Overflow)
        } else {
            Ok((self * rhs) as u8)
        }
    }

    fn try_mul(self, rhs: u8) -> (r: Result<u8, Overflow>) {
        match self.checked_mul(rhs) {
            None => Err(Overflow),
            Some(n) => Ok(n),
        }
    }
}

impl TryNeg for u8 {
    type Output = u8;

    type Error = Underflow;

    open spec fn try_neg_spec(self) -> Result<u8, Underflow> {
        if self == 0 {
            Ok(0 as u8)
        } else {
            Err(Underflow)
        }
    }

    fn try_neg(self) -> (r: Result<u8, Underflow>) {
        if self == 0 {
            Ok(0)
        } else {
            Err(Underflow)
        }
    }
}

impl TryRem for u8 {
    type Output = u8;

    type Error = Undefined;

    open spec fn try_rem_spec(self, rhs: u8) -> Result<u8, Undefined> {
        if rhs == 0 {
            Err(Undefined)
        } else {
            Ok(self % rhs)
        }
    }

    fn try_rem(self, rhs: u8) -> (r: Result<u8, Undefined>) {
        match self.checked_rem(rhs) {
            None => Err(Undefined),
            Some(n) => Ok(n),
        }
    }
}

impl TrySub for u8 {
    type Output = u8;

    type Error = Underflow;

    open spec fn try_sub_spec(self, rhs: u8) -> Result<u8, Underflow> {
        if self - rhs < 0 {
            Err(Underflow)
        } else {
            Ok((self - rhs) as u8)
        }
    }

    fn try_sub(self, rhs: u8) -> (r: Result<u8, Underflow>) {
        match self.checked_sub(rhs) {
            None => Err(Underflow),
            Some(n) => Ok(n),
        }
    }
}

impl<'r> TryAdd<&'r u8> for u8 {
    type Output = u8;

    type Error = Overflow;

    open spec fn try_add_spec(self, rhs: &'r u8) -> Result<u8, Overflow> {
        self.try_add_spec(*rhs)
    }

    fn try_add(self, rhs: &'r u8) -> (r: Result<u8, Overflow>) {
        TryAdd::try_add(self, *rhs)
    }
}

impl<'r> TryDiv<&'r u8> for u8 {
    type Output = u8;

    type Error = Undefined;

    open spec fn try_div_spec(self, rhs: &'r u8) -> Result<u8, Undefined> {
        self.try_div_spec(*rhs)
    }

    fn try_div(self, rhs: &'r u8) -> (r: Result<u8, Undefined>) {
        TryDiv::try_div(self, *rhs)
    }
}

impl<'r> TryMul<&'r u8> for u8 {
    type Output = u8;

    type Error = Overflow;

    open spec fn try_mul_spec(self, rhs: &'r u8) -> Result<u8, Overflow> {
        self.try_mul_spec(*rhs)
    }

    fn try_mul(self, rhs: &'r u8) -> (r: Result<u8, Overflow>) {
        TryMul::try_mul(self, *rhs)
    }
}

impl<'r> TryRem<&'r u8> for u8 {
    type Output = u8;

    type Error = Undefined;

    open spec fn try_rem_spec(self, rhs: &'r u8) -> Result<u8, Undefined> {
        self.try_rem_spec(*rhs)
    }

    fn try_rem(self, rhs: &'r u8) -> (r: Result<u8, Undefined>) {
        TryRem::try_rem(self, *rhs)
    }
}

impl<'r> TrySub<&'r u8> for u8 {
    type Output = u8;

    type Error = Underflow;

    open spec fn try_sub_spec(self, rhs: &'r u8) -> Result<u8, Underflow> {
        self.try_sub_spec(*rhs)
    }

    fn try_sub(self, rhs: &'r u8) -> (r: Result<u8, Underflow>) {
        TrySub::try_sub(self, *rhs)
    }
}

impl TryAdd for u16 {
    type Output = u16;

    type Error = Overflow;

    open spec fn try_add_spec(self, rhs: u16) -> Result<u16, Overflow> {
        if self + rhs > u16::MAX {
            Err(Overflow)
        } else {
            Ok((self + rhs) as u16)
        }
    }

    fn try_add(self, rhs: u16) -> (r: Result<u16, Overflow>) {
        match self.checked_add(rhs) {
            None => Err(Overflow),
            Some(n) => Ok(n),
        }
    }
}

impl TryDiv for u16 {
    type Output = u16;

    type Error = Undefined;

    open spec fn try_div_spec(self, rhs: u16) -> Result<u16, Undefined> {
        if rhs == 0 {
            Err(Undefined)
        } else {
            Ok(self / rhs)
        }
    }

    fn try_div(self, rhs: u16) -> (r: Result<u16, Undefined>) {
        match self.checked_div(rhs) {
            None => Err(Undefined),
            Some(n) => Ok(n),
        }
    }
}

impl TryMul for u16 {
    type Output = u16;

    type Error = Overflow;

    open spec fn try_mul_spec(self, rhs: u16) -> Result<u16, Overflow> {
        if self * rhs > u16::MAX {
            Err(Overflow)
        } else {
            Ok((self * rhs) as u16)
        }
    }

    fn try_mul(self, rhs: u16) -> (r: Result<u16, Overflow>) {
        match self.checked_mul(rhs) {
            None => Err(Overflow),
            Some(n) => Ok(n),
        }
    }
}

impl TryNeg for u16 {
    type Output = u16;

    type Error = Underflow;

    open spec fn try_neg_spec(self) -> Result<u16, Underflow> {
        if self == 0 {
            Ok(0 as u16)
        } else {
            Err(Underflow)
        }
    }

    fn try_neg(self) -> (r: Result<u16, Underflow>) {
        if self == 0 {
            Ok(0)
        } else {
            Err(Underflow)
        }
    }
}

impl TryRem for u16 {
    type Output = u16;

    type Error = Undefined;

    open spec fn try_rem_spec(self, rhs: u16) -> Result<u16, Undefined> {
        if rhs == 0 {
            Err(Undefined)
        } else {
            Ok(self % rhs)
        }
    }

    fn try_rem(self, rhs: u16) -> (r: Result<u16, Undefined>) {
        match self.checked_rem(rhs) {
            None => Err(Undefined),
            Some(n) => Ok(n),
        }
    }
}

impl TrySub for u16 {
    type Output = u16;

    type Error = Underflow;

    open spec fn try_sub_spec(self, rhs: u16) -> Result<u16, Underflow> {
        if self - rhs < 0 {
            Err(Underflow)
        } else {
            Ok((self - rhs) as u16)
        }
    }

    fn try_sub(self, rhs: u16) -> (r: Result<u16, Underflow>) {
        match self.checked_sub(rhs) {
            None => Err(Underflow),
            Some(n) => Ok(n),
        }
    }
}

impl<'r> TryAdd<&'r u16> for u16 {
    type Output = u16;

    type Error = Overflow;

    open spec fn try_add_spec(self, rhs: &'r u16) -> Result<u16, Overflow> {
        self.try_add_spec(*rhs)
    }

    fn try_add(self, rhs: &'r u16) -> (r: Result<u16, Overflow>) {
        TryAdd::try_add(self, *rhs)
    }
}

impl<'r> TryDiv<&'r u16> for u16 {
    type Output = u16;

    type Error = Undefined;

    open spec fn try_div_spec(self, rhs: &'r u16) -> Result<u16, Undefined> {
        self.try_div_spec(*rhs)
    }

    fn try_div(self, rhs: &'r u16) -> (r: Result<u16, Undefined>) {
        TryDiv::try_div(self, *rhs)
    }
}

impl<'r> TryMul<&'r u16> for u16 {
    type Output = u16;

    type Error = Overflow;

    open spec fn try_mul_spec(self, rhs: &'r u16) -> Result<u16, Overflow> {
        self.try_mul_spec(*rhs)
    }

    fn try_mul(self, rhs: &'r u16) -> (r: Result<u16, Overflow>) {
        TryMul::try_mul(self, *rhs)
    }
}

impl<'r> TryRem<&'r u16> for u16 {
    type Output = u16;

    type Error = Undefined;

    open spec fn try_rem_spec(self, rhs: &'r u16) -> Result<u16, Undefined> {
        self.try_rem_spec(*rhs)
    }

    fn try_rem(self, rhs: &'r u16) -> (r: Result<u16, Undefined>) {
        TryRem::try_rem(self, *rhs)
    }
}

impl<'r> TrySub<&'r u16> for u16 {
    type Output = u16;

    type Error = Underflow;

    open spec fn try_sub_spec(self, rhs: &'r u16) -> Result<u16, Underflow> {
        self.try_sub_spec(*rhs)
    }

    fn try_sub(self, rhs: &'r u16) -> (r: Result<u16, Underflow>) {
        TrySub::try_sub(self, *rhs)
    }
}

impl TryAdd for u32 {
    type Output = u32;

    type Error = Overflow;

    open spec fn try_add_spec(self, rhs: u32) -> Result<u32, Overflow> {
        if self + rhs > u32::MAX {
            Err(Overflow)
        } else {
            Ok((self + rhs) as u32)
        }
    }

    fn try_add(self, rhs: u32) -> (r: Result<u32, Overflow>) {
        match self.checked_add(rhs) {
            None => Err(Overflow),
            Some(n) => Ok(n),
        }
    }
}

impl TryDiv for u32 {
    type Output = u32;

    type Error = Undefined;

    open spec fn try_div_spec(self, rhs: u32) -> Result<u32, Undefined> {
        if rhs == 0 {
            Err(Undefined)
        } else {
            Ok(self / rhs)
        }
    }

    fn try_div(self, rhs: u32) -> (r: Result<u32, Undefined>) {
        match self.checked_div(rhs) {
            None => Err(Undefined),
            Some(n) => Ok(n),
        }
    }
}

impl TryMul for u32 {
    type Output = u32;

    type Error = Overflow;

    open spec fn try_mul_spec(self, rhs: u32) -> Result<u32, Overflow> {
        if self * rhs > u32::MAX {
            Err(Overflow)
        } else {
            Ok((self * rhs) as u32)
        }
    }

    fn try_mul(self, rhs: u32) -> (r: Result<u32, Overflow>) {
        match self.checked_mul(rhs) {
            None => Err(Overflow),
            Some(n) => Ok(n),
        }
    }
}

impl TryNeg for u32 {
    type Output = u32;

    type Error = Underflow;

    open spec fn try_neg_spec(self) -> Result<u32, Underflow> {
        if self == 0 {
            Ok(0 as u32)
        } else {
            Err(Underflow)
        }
    }

    fn try_neg(self) -> (r: Result<u32, Underflow>) {
        if self == 0 {
            Ok(0)
        } else {
            Err(Underflow)
        }
    }
}

impl TryRem for u32 {
    type Output = u32;

    type Error = Undefined;

    open spec fn try_rem_spec(self, rhs: u32) -> Result<u32, Undefined> {
        if rhs == 0 {
            Err(Undefined)
        } else {
            Ok(self % rhs)
        }
    }

    fn try_rem(self, rhs: u32) -> (r: Result<u32, Undefined>) {
        match self.checked_rem(rhs) {
            None => Err(Undefined),
            Some(n) => Ok(n),
        }
    }
}

impl TrySub for u32 {
    type Output = u32;

    type Error = Underflow;

    open spec fn try_sub_spec(self, rhs: u32) -> Result<u32, Underflow> {
        if self - rhs < 0 {
            Err(Underflow)
        } else {
            Ok((self - rhs) as u32)
        }
    }

    fn try_sub(self, rhs: u32) -> (r: Result<u32, Underflow>) {
        match self.checked_sub(rhs) {
            None => Err(Underflow),
            Some(n) => Ok(n),
        }
    }
}

impl<'r> TryAdd<&'r u32> for u32 {
    type Output = u32;

    type Error = Overflow;

    open spec fn try_add_spec(self, rhs: &'r u32) -> Result<u32, Overflow> {
        self.try_add_spec(*rhs)
    }

    fn try_add(self, rhs: &'r u32) -> (r: Result<u32, Overflow>) {
        TryAdd::try_add(self, *rhs)
    }
}

impl<'r> TryDiv<&'r u32> for u32 {
    type Output = u32;

    type Error = Undefined;

    open spec fn try_div_spec(self, rhs: &'r u32) -> Result<u32, Undefined> {
        self.try_div_spec(*rhs)
    }

    fn try_div(self, rhs: &'r u32) -> (r: Result<u32, Undefined>) {
        TryDiv::try_div(self, *rhs)
    }
}

impl<'r> TryMul<&'r u32> for u32 {
    type Output = u32;

    type Error = Overflow;

    open spec fn try_mul_spec(self, rhs: &'r u32) -> Result<u32, Overflow> {
        self.try_mul_spec(*rhs)
    }

    fn try_mul(self, rhs: &'r u32) -> (r: Result<u32, Overflow>) {
        TryMul::try_mul(self, *rhs)
    }
}

impl<'r> TryRem<&'r u32> for u32 {
    type Output = u32;

    type Error = Undefined;

    open spec fn try_rem_spec(self, rhs: &'r u32) -> Result<u32, Undefined> {
        self.try_rem_spec(*rhs)
    }

    fn try_rem(self, rhs: &'r u32) -> (r: Result<u32, Undefined>) {
        TryRem::try_rem(self, *rhs)
    }
}

impl<'r> TrySub<&'r u32> for u32 {
    type Output = u32;

    type Error = Underflow;

    open spec fn try_sub_spec(self, rhs: &'r u32) -> Result<u32, Underflow> {
        self.try_sub_spec(*rhs)
    }

    fn try_sub(self, rhs: &'r u32) -> (r: Result<u32, Underflow>) {
        TrySub::try_sub(self, *rhs)
    }
}

impl TryAdd for u64 {
    type Output = u64;

    type Error = Overflow;

    open spec fn try_add_spec(self, rhs: u64) -> Result<u64, Overflow> {
        if self + rhs > u64::MAX {
            Err(Overflow)
        } else {
            Ok((self + rhs) as u64)
        }
    }

    fn try_add(self, rhs: u64) -> (r: Result<u64, Overflow>) {
        match self.checked_add(rhs) {
            None => Err(Overflow),
            Some(n) => Ok(n),
        }
    }
}

impl TryDiv for u64 {
    type Output = u64;

    type Error = Undefined;

    open spec fn try_div_spec(self, rhs: u64) -> Result<u64, Undefined> {
        if rhs == 0 {
            Err(Undefined)
        } else {
            Ok(self / rhs)
        }
    }

    fn try_div(self, rhs: u64) -> (r: Result<u64, Undefined>) {
        match self.checked_div(rhs) {
            None => Err(Undefined),
            Some(n) => Ok(n),
        }
    }
}

impl TryMul for u64 {
    type Output = u64;

    type Error = Overflow;

    open spec fn try_mul_spec(self, rhs: u64) -> Result<u64, Overflow> {
        if self * rhs > u64::MAX {
            Err(Overflow)
        } else {
            Ok((self * rhs) as u64)
        }
    }

    fn try_mul(self, rhs: u64) -> (r: Result<u64, Overflow>) {
        match self.checked_mul(rhs) {
            None => Err(Overflow),
            Some(n) => Ok(n),
        }
    }
}

impl TryNeg for u64 {
    type Output = u64;

    type Error = Underflow;

    open spec fn try_neg_spec(self) -> Result<u64, Underflow> {
        if self == 0 {
            Ok(0 as u64)
        } else {
            Err(Underflow)
        }
    }

    fn try_neg(self) -> (r: Result<u64, Underflow>) {
        if self == 0 {
            Ok(0)
        } else {
            Err(Underflow)
        }
    }
}

impl TryRem for u64 {
    type Output = u64;

    type Error = Undefined;

    open spec fn try_rem_spec(self, rhs: u64) -> Result<u64, Undefined> {
        if rhs == 0 {
            Err(Undefined)
        } else {
            Ok(self % rhs)
        }
    }

    fn try_rem(self, rhs: u64) -> (r: Result<u64, Undefined>) {
        match self.checked_rem(rhs) {
            None => Err(Undefined),
            Some(n) => Ok(n),
        }
    }
}

impl TrySub for u64 {
    type Output = u64;

    type Error = Underflow;

    open spec fn try_sub_spec(self, rhs: u64) -> Result<u64, Underflow> {
        if self - rhs < 0 {
            Err(Underflow)
        } else {
            Ok((self - rhs) as u64)
        }
    }

    fn try_sub(self, rhs: u64) -> (r: Result<u64, Underflow>) {
        match self.checked_sub(rhs) {
            None => Err(Underflow),
            Some(n) => Ok(n),
        }
    }
}

impl<'r> TryAdd<&'r u64> for u64 {
    type Output = u64;

    type Error = Overflow;

    open spec fn try_add_spec(self, rhs: &'r u64) -> Result<u64, Overflow> {
        self.try_add_spec(*rhs)
    }

    fn try_add(self, rhs: &'r u64) -> (r: Result<u64, Overflow>) {
        TryAdd::try_add(self, *rhs)
    }
}

impl<'r> TryDiv<&'r u64> for u64 {
    type Output = u64;

    type Error = Undefined;

    open spec fn try_div_spec(self, rhs: &'r u64) -> Result<u64, Undefined> {
        self.try_div_spec(*rhs)
    }

    fn try_div(self, rhs: &'r u64) -> (r: Result<u64, Undefined>) {
        TryDiv::try_div(self, *rhs)
    }
}

impl<'r> TryMul<&'r u64> for u64 {
    type Output = u64;

    type Error = Overflow;

    open spec fn try_mul_spec(self, rhs: &'r u64) -> Result<u64, Overflow> {
        self.try_mul_spec(*rhs)
    }

    fn try_mul(self, rhs: &'r u64) -> (r: Result<u64, Overflow>) {
        TryMul::try_mul(self, *rhs)
    }
}

impl<'r> TryRem<&'r u64> for u64 {
    type Output = u64;

    type Error = Undefined;

    open spec fn try_rem_spec(self, rhs: &'r u64) -> Result<u64, Undefined> {
        self.try_rem_spec(*rhs)
    }

    fn try_rem(self, rhs: &'r u64) -> (r: Result<u64, Undefined>) {
        TryRem::try_rem(self, *rhs)
    }
}

impl<'r> TrySub<&'r u64> for u64 {
    type Output = u64;

    type Error = Underflow;

    open spec fn try_sub_spec(self, rhs: &'r u64) -> Result<u64, Underflow> {
        self.try_sub_spec(*rhs)
    }

    fn try_sub(self, rhs: &'r u64) -> (r: Result<u64, Underflow>) {
        TrySub::try_sub(self, *rhs)
    }
}

impl TryAdd for u128 {
    type Output = u128;

    type Error = Overflow;

    open spec fn try_add_spec(self, rhs: u128) -> Result<u128, Overflow> {
        if self + rhs > u128::MAX {
            Err(Overflow)
        } else {
            Ok((self + rhs) as u128)
        }
    }

    fn try_add(self, rhs: u128) -> (r: Result<u128, Overflow>) {
        match self.checked_add(rhs) {
            None => Err(Overflow),
            Some(n) => Ok(n),
        }
    }
}

impl TryDiv for u128 {
    type Output = u128;

    type Error = Undefined;

    open spec fn try_div_spec(self, rhs: u128) -> Result<u128, Undefined> {
        if rhs == 0 {
            Err(Undefined)
        } else {
            Ok(self / rhs)
        }
    }

    fn try_div(self, rhs: u128) -> (r: Result<u128, Undefined>) {
        match self.checked_div(rhs) {
            None => Err(Undefined),
            Some(n) => Ok(n),
        }
    }
}

impl TryMul for u128 {
    type Output = u128;

    type Error = Overflow;

    open spec fn try_mul_spec(self, rhs: u128) -> Result<u128, Overflow> {
        if self * rhs > u128::MAX {
            Err(Overflow)
        } else {
            Ok((self * rhs) as u128)
        }
    }

    fn try_mul(self, rhs: u128) -> (r: Result<u128, Overflow>) {
        match self.checked_mul(rhs) {
            None => Err(Overflow),
            Some(n) => Ok(n),
        }
    }
}

impl TryNeg for u128 {
    type Output = u128;

    type Error = Underflow;

    open spec fn try_neg_spec(self) -> Result<u128, Underflow> {
        if self == 0 {
            Ok(0 as u128)
        } else {
            Err(Underflow)
        }
    }

    fn try_neg(self) -> (r: Result<u128, Underflow>) {
        if self == 0 {
            Ok(0)
        } else {
            Err(Underflow)
        }
    }
}

impl TryRem for u128 {
    type Output = u128;

    type Error = Undefined;

    open spec fn try_rem_spec(self, rhs: u128) -> Result<u128, Undefined> {
        if rhs == 0 {
            Err(Undefined)
        } else {
            Ok(self % rhs)
        }
    }

    fn try_rem(self, rhs: u128) -> (r: Result<u128, Undefined>) {
        match self.checked_rem(rhs) {
            None => Err(Undefined),
            Some(n) => Ok(n),
        }
    }
}

impl TrySub for u128 {
    type Output = u128;

    type Error = Underflow;

    open spec fn try_sub_spec(self, rhs: u128) -> Result<u128, Underflow> {
        if self - rhs < 0 {
            Err(Underflow)
        } else {
            Ok((self - rhs) as u128)
        }
    }

    fn try_sub(self, rhs: u128) -> (r: Result<u128, Underflow>) {
        match self.checked_sub(rhs) {
            None => Err(Underflow),
            Some(n) => Ok(n),
        }
    }
}

impl<'r> TryAdd<&'r u128> for u128 {
    type Output = u128;

    type Error = Overflow;

    open spec fn try_add_spec(self, rhs: &'r u128) -> Result<u128, Overflow> {
        self.try_add_spec(*rhs)
    }

    fn try_add(self, rhs: &'r u128) -> (r: Result<u128, Overflow>) {
        TryAdd::try_add(self, *rhs)
    }
}

impl<'r> TryDiv<&'r u128> for u128 {
    type Output = u128;

    type Error = Undefined;

    open spec fn try_div_spec(self, rhs: &'r u128) -> Result<u128, Undefined> {
        self.try_div_spec(*rhs)
    }

    fn try_div(self, rhs: &'r u128) -> (r: Result<u128, Undefined>) {
        TryDiv::try_div(self, *rhs)
    }
}

impl<'r> TryMul<&'r u128> for u128 {
    type Output = u128;

    type Error = Overflow;

    open spec fn try_mul_spec(self, rhs: &'r u128) -> Result<u128, Overflow> {
        self.try_mul_spec(*rhs)
    }

    fn try_mul(self, rhs: &'r u128) -> (r: Result<u128, Overflow>) {
        TryMul::try_mul(self, *rhs)
    }
}

impl<'r> TryRem<&'r u128> for u128 {
    type Output = u128;

    type Error = Undefined;

    open spec fn try_rem_spec(self, rhs: &'r u128) -> Result<u128, Undefined> {
        self.try_rem_spec(*rhs)
    }

    fn try_rem(self, rhs: &'r u128) -> (r: Result<u128, Undefined>) {
        TryRem::try_rem(self, *rhs)
    }
}

impl<'r> TrySub<&'r u128> for u128 {
    type Output = u128;

    type Error = Underflow;

    open spec fn try_sub_spec(self, rhs: &'r u128) -> Result<u128, Underflow> {
        self.try_sub_spec(*rhs)
    }

    fn try_sub(self, rhs: &'r u128) -> (r: Result<u128, Underflow>) {
        TrySub::try_sub(self, *rhs)
    }
}

impl TryAdd for usize {
    type Output = usize;

    type Error = Overflow;

    open spec fn try_add_spec(self, rhs: usize) -> Result<usize, Overflow> {
        if self + rhs > usize::MAX {
            Err(Overflow)
        } else {
            Ok((self + rhs) as usize)
        }
    }

    fn try_add(self, rhs: usize) -> (r: Result<usize, Overflow>) {
        match self.checked_add(rhs) {
            None => Err(Overflow),
            Some(n) => Ok(n),
        }
    }
}

impl TryDiv for usize {
    type Output = usize;

    type Error = Undefined;

    open spec fn try_div_spec(self, rhs: usize) -> Result<usize, Undefined> {
        if rhs == 0 {
            Err(Undefined)
        } else {
            Ok(self / rhs)
        }
    }

    fn try_div(self, rhs: usize) -> (r: Result<usize, Undefined>) {
        match self.checked_div(rhs) {
            None => Err(Undefined),
            Some(n) => Ok(n),
        }
    }
}

impl TryMul for usize {
    type Output = usize;

    type Error = Overflow;

    open spec fn try_mul_spec(self, rhs: usize) -> Result<usize, Overflow> {
        if self * rhs > usize::MAX {
            Err(Overflow)
        } else {
            Ok((self * rhs) as usize)
        }
    }

    fn try_mul(self, rhs: usize) -> (r: Result<usize, Overflow>) {
        match self.checked_mul(rhs) {
            None => Err(Overflow),
            Some(n) => Ok(n),
        }
    }
}

impl TryNeg for usize {
    type Output = usize;

    type Error = Underflow;

    open spec fn try_neg_spec(self) -> Result<usize, Underflow> {
        if self == 0 {
            Ok(0 as usize)
        } else {
            Err(Underflow)
        }
    }

    fn try_neg(self) -> (r: Result<usize, Underflow>) {
        if self == 0 {
            Ok(0)
        } else {
            Err(Underflow)
        }
    }
}

impl TryRem for usize {
    type Output = usize;

    type Error = Undefined;

    open spec fn try_rem_spec(self, rhs: usize) -> Result<usize, Undefined> {
        if rhs == 0 {
            Err(Undefined)
        } else {
            Ok(self % rhs)
        }
    }

    fn try_rem(self, rhs: usize) -> (r: Result<usize, Undefined>) {
        match self.checked_rem(rhs) {
            None => Err(Undefined),
            Some(n) => Ok(n),
        }
    }
}

impl TrySub for usize {
    type Output = usize;

    type Error = Underflow;

    open spec fn try_sub_spec(self, rhs: usize) -> Result<usize, Underflow> {
        if self - rhs < 0 {
            Err(Underflow)
        } else {
            Ok((self - rhs) as usize)
        }
    }

    fn try_sub(self, rhs: usize) -> (r: Result<usize, Underflow>) {
        match self.checked_sub(rhs) {
            None => Err(Underflow),
            Some(n) => Ok(n),
        }
    }
}

impl<'r> TryAdd<&'r usize> for usize {
    type Output = usize;

    type Error = Overflow;

    open spec fn try_add_spec(self, rhs: &'r usize) -> Result<usize, Overflow> {
        self.try_add_spec(*rhs)
    }

    fn try_add(self, rhs: &'r usize) -> (r: Result<usize, Overflow>) {
        TryAdd::try_add(self, *rhs)
    }
}

impl<'r> TryDiv<&'r usize> for usize {
    type Output = usize;

    type Error = Undefined;

    open spec fn try_div_spec(self, rhs: &'r usize) -> Result<usize, Undefined> {
        self.try_div_spec(*rhs)
    }

    fn try_div(self, rhs: &'r usize) -> (r: Result<usize, Undefined>) {
        TryDiv::try_div(self, *rhs)
    }
}

impl<'r> TryMul<&'r usize> for usize {
    type Output = usize;

    type Error = Overflow;

    open spec fn try_mul_spec(self, rhs: &'r usize) -> Result<usize, Overflow> {
        self.try_mul_spec(*rhs)
    }

    fn try_mul(self, rhs: &'r usize) -> (r: Result<usize, Overflow>) {
        TryMul::try_mul(self, *rhs)
    }
}

impl<'r> TryRem<&'r usize> for usize {
    type Output = usize;

    type Error = Undefined;

    open spec fn try_rem_spec(self, rhs: &'r usize) -> Result<usize, Undefined> {
        self.try_rem_spec(*rhs)
    }

    fn try_rem(self, rhs: &'r usize) -> (r: Result<usize, Undefined>) {
        TryRem::try_rem(self, *rhs)
    }
}

impl<'r> TrySub<&'r usize> for usize {
    type Output = usize;

    type Error = Underflow;

    open spec fn try_sub_spec(self, rhs: &'r usize) -> Result<usize, Underflow> {
        self.try_sub_spec(*rhs)
    }

    fn try_sub(self, rhs: &'r usize) -> (r: Result<usize, Underflow>) {
        TrySub::try_sub(self, *rhs)
    }
}

} // verus!
