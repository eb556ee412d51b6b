use std::num::{NonZeroI16, ParseIntError, TryFromIntError};

use error_accumulator::error::ValidationError;
use error_accumulator::path::FieldName;
use error_accumulator::ErrorAccumulator;

fn n(name: &str) -> FieldName {
    name.parse().unwrap()
}

/// The kind under which the errors of a type are recorded.
trait Kind {
    fn kind_name() -> &'static str;
}

impl Kind for ParseIntError {
    fn kind_name() -> &'static str {
        "ParseIntError"
    }
}

impl Kind for TryFromIntError {
    fn kind_name() -> &'static str {
        "TryFromIntError"
    }
}

fn checked<T, E: std::error::Error + Kind>(result: Result<T, E>) -> Result<T, ValidationError> {
    result.map_err(|error| ValidationError::new(E::kind_name(), &error.to_string()))
}

#[derive(Debug, PartialEq, Eq)]
struct TestThing {
    num: u32,
    non_zero: NonZeroI16,
}

impl TestThing {
    fn new(num: u32, non_zero: NonZeroI16) -> Self {
        Self { num, non_zero }
    }
}

#[test]
fn should_return_ok_values() {
    let (num, non_zero) = ErrorAccumulator::new()
        .field_builder(n("foo"))
        .value(checked("42".parse::<u32>()))
        .finish()
        .field_builder(n("bar"))
        .value(checked(NonZeroI16::try_from(-5)))
        .finish()
        .analyse()
        .unwrap();

    assert_eq!(num, 42);
    assert_eq!(non_zero.get(), -5);
}

#[test]
fn should_return_on_one_error() {
    let err = ErrorAccumulator::new()
        .field("bar".parse().unwrap(), checked("42".parse::<u32>()))
        .field("foo".parse().unwrap(), checked(NonZeroI16::try_from(0)))
        .analyse()
        .unwrap_err();

    assert_eq!(err.len(), 1);
}

#[test]
fn should_return_multiple_errors() {
    let err = ErrorAccumulator::new()
        .field(n("foo"), checked("foo".parse::<u32>()))
        .field(n("bar"), checked(NonZeroI16::try_from(0)))
        .analyse()
        .unwrap_err();

    assert_eq!(err.get_by_type(ParseIntError::kind_name()).len(), 1);
    assert_eq!(err.get_by_type(TryFromIntError::kind_name()).len(), 1);
}

#[test]
fn should_allow_construction_on_success() {
    let thing = ErrorAccumulator::new()
        .field(n("bar"), checked("42".parse::<u32>()))
        .field(n("foo"), checked(NonZeroI16::try_from(-5)))
        .on_ok(TestThing::new)
        .analyse()
        .unwrap();

    assert_eq!(thing, TestThing::new(42, NonZeroI16::new(-5).unwrap()))
}
