//! Arithmetic operator traits that the standard library leaves out.
//!
//! Three independent capability families, each implemented for every
//! primitive integer width and signedness:
//!
//! * checked (fallible) operators that return the true result when it is
//!   representable and a classified error otherwise ([`TryAdd`], [`TrySub`],
//!   [`TryMul`], [`TryDiv`], [`TryRem`], [`TryNeg`]),
//! * saturating operators that clamp an out-of-range result to the nearest
//!   representable value ([`SaturatingAdd`], [`SaturatingSub`],
//!   [`SaturatingMul`], [`SaturatingNeg`]),
//! * wrapping operators that reduce the true result modulo the type's value
//!   space ([`WrappingAdd`], [`WrappingSub`], [`WrappingMul`],
//!   [`WrappingNeg`]).
//!
//! The error taxonomy ([`Overflow`], [`Underflow`], [`Undefined`], and the
//! union kinds [`RangeError`] and [`ArithmeticError`]) classifies every
//! failure of a checked operator, with lossless widening conversions from
//! each narrow kind into the union kinds that can hold it.

mod error;
pub mod laws;
pub mod math;
mod saturating_ops;
mod try_ops;
mod wrapping_ops;

pub use error::{ArithmeticError, Overflow, RangeError, Undefined, Underflow};
pub use saturating_ops::{SaturatingAdd, SaturatingMul, SaturatingNeg, SaturatingSub};
pub use try_ops::{TryAdd, TryDiv, TryMul, TryNeg, TryRem, TrySub};
pub use wrapping_ops::{WrappingAdd, WrappingMul, WrappingNeg, WrappingSub};
