//! The error taxonomy of the checked operators: three narrow kinds and two
//! union kinds, with lossless widening conversions between them.

use vstd::prelude::*;
use vstd::std_specs::convert::FromSpec;

verus! {

/// Error raised when a checked arithmetic operation fails: the result may be
/// undefined, or too low or too high to be represented by the destination
/// type.
#[derive(Clone, Copy, Debug, Eq, Hash, PartialEq, Structural)]
pub enum ArithmeticError {
    Undefined,
    Underflow,
    Overflow,
}

impl ArithmeticError {
    /// The fixed message that `brief` returns for each kind.
    pub open spec fn brief_spec(self) -> Seq<char> {
        match self {
            ArithmeticError::Undefined => "arithmetic result undefined"@,
            ArithmeticError::Underflow => "arithmetic underflow"@,
            ArithmeticError::Overflow => "arithmetic overflow"@,
        }
    }

    /// A fixed, stable, human-readable message for this error kind.
    pub fn brief(self) -> (r: &'static str)
        ensures
            r@ == self.brief_spec(),
    {
        match self {
            ArithmeticError::Undefined => "arithmetic result undefined",
            ArithmeticError::Underflow => "arithmetic underflow",
            ArithmeticError::Overflow => "arithmetic overflow",
        }
    }
}

/// Error raised when the result of a checked arithmetic operation is too high
/// to be represented by the destination type.
#[derive(Clone, Copy, Debug, Eq, Hash, PartialEq, Structural)]
pub struct Overflow;

impl Overflow {
    /// A fixed, stable, human-readable message for this error.
    pub fn brief(self) -> (r: &'static str)
        ensures
            r@ == "arithmetic overflow"@,
    {
        "arithmetic overflow"
    }
}

/// Error raised when the result of a checked arithmetic operation is too high
/// or too low to be represented by the destination type.
#[derive(Clone, Copy, Debug, Eq, Hash, PartialEq, Structural)]
pub enum RangeError {
    Underflow,
    Overflow,
}

impl RangeError {
    /// The fixed message that `brief` returns for each kind.
    pub open spec fn brief_spec(self) -> Seq<char> {
        match self {
            RangeError::Underflow => "arithmetic underflow"@,
            RangeError::Overflow => "arithmetic overflow"@,
        }
    }

    /// A fixed, stable, human-readable message for this error kind.
    pub fn brief(self) -> (r: &'static str)
        ensures
            r@ == self.brief_spec(),
    {
        match self {
            RangeError::Underflow => "arithmetic underflow",
            RangeError::Overflow => "arithmetic overflow",
        }
    }
}

/// Error raised when the result of a checked arithmetic operation is
/// undefined, such as a division or remainder by zero.
#[derive(Clone, Copy, Debug, Eq, Hash, PartialEq, Structural)]
pub struct Undefined;

impl Undefined {
    /// A fixed, stable, human-readable message for this error.
    pub fn brief(self) -> (r: &'static str)
        ensures
            r@ == "arithmetic result undefined"@,
    {
        "arithmetic result undefined"
    }
}

/// Error raised when the result of a checked arithmetic operation is too low
/// to be represented by the destination type.
#[derive(Clone, Copy, Debug, Eq, Hash, PartialEq, Structural)]
pub struct Underflow;

impl Underflow {
    /// A fixed, stable, human-readable message for this error.
    pub fn brief(self) -> (r: &'static str)
        ensures
            r@ == "arithmetic underflow"@,
    {
        "arithmetic underflow"
    }
}

impl From<Overflow> for ArithmeticError {
    fn from(_e: Overflow) -> (r: ArithmeticError) {
        ArithmeticError::Overflow
    }
}

impl vstd::std_specs::convert::FromSpecImpl<Overflow> for ArithmeticError {
    open spec fn obeys_from_spec() -> bool {
        true
    }

    open spec fn from_spec(_e: Overflow) -> ArithmeticError {
        ArithmeticError::Overflow
    }
}

impl From<Underflow> for ArithmeticError {
    fn from(_e: Underflow) -> (r: ArithmeticError) {
        ArithmeticError::Underflow
    }
}

impl vstd::std_specs::convert::FromSpecImpl<Underflow> for ArithmeticError {
    open spec fn obeys_from_spec() -> bool {
        true
    }

    open spec fn from_spec(_e: Underflow) -> ArithmeticError {
        ArithmeticError::Underflow
    }
}

impl From<Undefined> for ArithmeticError {
    fn from(_e: Undefined) -> (r: ArithmeticError) {
        ArithmeticError::Undefined
    }
}

impl vstd::std_specs::convert::FromSpecImpl<Undefined> for ArithmeticError {
    open spec fn obeys_from_spec() -> bool {
        true
    }

    open spec fn from_spec(_e: Undefined) -> ArithmeticError {
        ArithmeticError::Undefined
    }
}

impl From<RangeError> for ArithmeticError {
    fn from(e: RangeError) -> (r: ArithmeticError) {
        match e {
            RangeError::Underflow => ArithmeticError::Underflow,
            RangeError::Overflow => ArithmeticError::Overflow,
        }
    }
}

impl vstd::std_specs::convert::FromSpecImpl<RangeError> for ArithmeticError {
    open spec fn obeys_from_spec() -> bool {
        true
    }

    open spec fn from_spec(e: RangeError) -> ArithmeticError {
        match e {
            RangeError::Underflow => ArithmeticError::Underflow,
            RangeError::Overflow => ArithmeticError::Overflow,
        }
    }
}

impl From<Overflow> for RangeError {
    fn from(_e: Overflow) -> (r: RangeError) {
        RangeError::Overflow
    }
}

impl vstd::std_specs::convert::FromSpecImpl<Overflow> for RangeError {
    open spec fn obeys_from_spec() -> bool {
        true
    }

    open spec fn from_spec(_e: Overflow) -> RangeError {
        RangeError::Overflow
    }
}

impl From<Underflow> for RangeError {
    fn from(_e: Underflow) -> (r: RangeError) {
        RangeError::Underflow
    }
}

impl vstd::std_specs::convert::FromSpecImpl<Underflow> for RangeError {
    open spec fn obeys_from_spec() -> bool {
        true
    }

    open spec fn from_spec(_e: Underflow) -> RangeError {
        RangeError::Underflow
    }
}

/// Conversion losslessness, one direction: each widening conversion maps a
/// narrow error kind to the union variant of the same kind, so matching on
/// the widened value recovers the original kind.
pub proof fn lemma_widening_preserves_kind(e: RangeError)
    ensures
        <RangeError as FromSpec<Overflow>>::from_spec(Overflow) == RangeError::Overflow,
        <RangeError as FromSpec<Underflow>>::from_spec(Underflow) == RangeError::Underflow,
        <ArithmeticError as FromSpec<Overflow>>::from_spec(Overflow) == ArithmeticError::Overflow,
        <ArithmeticError as FromSpec<Underflow>>::from_spec(Underflow)
            == ArithmeticError::Underflow,
        <ArithmeticError as FromSpec<Undefined>>::from_spec(Undefined) == ArithmeticError::Undefined,
        e == RangeError::Overflow ==> <ArithmeticError as FromSpec<RangeError>>::from_spec(e)
            == ArithmeticError::Overflow,
        e == RangeError::Underflow ==> <ArithmeticError as FromSpec<RangeError>>::from_spec(e)
            == ArithmeticError::Underflow,
{
}

/// Conversion losslessness, the other direction: widening is injective, so no
/// two distinct range errors become the same arithmetic error.
pub proof fn lemma_widening_injective(e1: RangeError, e2: RangeError)
    ensures
        <ArithmeticError as FromSpec<RangeError>>::from_spec(e1) == <ArithmeticError as FromSpec<
            RangeError,
        >>::from_spec(e2) ==> e1 == e2,
{
}

} // verus!
