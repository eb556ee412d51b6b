use std::num::NonZeroI16;

use error_accumulator::error::ValidationError;
use error_accumulator::path::FieldName;
use error_accumulator::ErrorAccumulator;

fn n(name: &str) -> FieldName {
    name.parse().unwrap()
}

/// The kind under which the errors of a type are recorded.
trait Kind {
    fn kind_name() -> &'static str;
}

impl Kind for std::num::ParseIntError {
    fn kind_name() -> &'static str {
        "ParseIntError"
    }
}

impl Kind for std::num::TryFromIntError {
    fn kind_name() -> &'static str {
        "TryFromIntError"
    }
}

fn checked<T, E: std::error::Error + Kind>(result: Result<T, E>) -> Result<T, ValidationError> {
    result.map_err(|error| ValidationError::new(E::kind_name(), &error.to_string()))
}

#[test]
fn should_allow_multivalue_field_record() {
    let (num,) = ErrorAccumulator::new()
        .field_builder(n("foo"))
        .value(checked("42".parse::<u32>()))
        .value(checked(NonZeroI16::try_from(-5)))
        .on_ok(|v, _| v)
        .finish()
        .analyse()
        .unwrap();

    assert_eq!(num, 42);
}

#[test]
fn should_return_error_on_multivalue_field_record() {
    let err = ErrorAccumulator::new()
        .field_builder(n("bar"))
        .value(checked("42".parse::<u32>()))
        .value(checked(NonZeroI16::try_from(0)))
        .on_ok(|v, _| v)
        .finish()
        .analyse()
        .unwrap_err();

    assert_eq!(err.len(), 1);
}
