use arith_ops::{ArithmeticError, Overflow, RangeError, Undefined, Underflow};

#[test]
fn test_brief_messages() {
    assert_eq!(Overflow.brief(), "arithmetic overflow");
    assert_eq!(Underflow.brief(), "arithmetic underflow");
    assert_eq!(Undefined.brief(), "arithmetic result undefined");
    assert_eq!(ArithmeticError::Overflow.brief(), "arithmetic overflow");
    assert_eq!(ArithmeticError::Underflow.brief(), "arithmetic underflow");
    assert_eq!(ArithmeticError::Undefined.brief(), "arithmetic result undefined");
    assert_eq!(RangeError::Overflow.brief(), "arithmetic overflow");
    assert_eq!(RangeError::Underflow.brief(), "arithmetic underflow");
}

#[test]
fn test_widening_conversions() {
    assert_eq!(RangeError::from(Overflow), RangeError::Overflow);
    assert_eq!(RangeError::from(Underflow), RangeError::Underflow);
    assert_eq!(ArithmeticError::from(Overflow), ArithmeticError::Overflow);
    assert_eq!(ArithmeticError::from(Underflow), ArithmeticError::Underflow);
    assert_eq!(ArithmeticError::from(Undefined), ArithmeticError::Undefined);
    assert_eq!(ArithmeticError::from(RangeError::Overflow), ArithmeticError::Overflow);
    assert_eq!(ArithmeticError::from(RangeError::Underflow), ArithmeticError::Underflow);
}

#[test]
fn test_widening_round_trip() {
    // Converting a narrow kind into a union kind and matching back recovers it.
    let widened = ArithmeticError::from(RangeError::Overflow);
    let recovered = match widened {
        ArithmeticError::Overflow => RangeError::Overflow,
        ArithmeticError::Underflow => RangeError::Underflow,
        ArithmeticError::Undefined => unreachable!(),
    };
    assert_eq!(recovered, RangeError::Overflow);

    let widened = ArithmeticError::from(RangeError::Underflow);
    let recovered = match widened {
        ArithmeticError::Overflow => RangeError::Overflow,
        ArithmeticError::Underflow => RangeError::Underflow,
        ArithmeticError::Undefined => unreachable!(),
    };
    assert_eq!(recovered, RangeError::Underflow);
}
