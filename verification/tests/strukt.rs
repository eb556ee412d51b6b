use std::{io, num::NonZeroI16};

use error_accumulator::error::ValidationError;
use error_accumulator::path::{FieldName, PathSegment, SourcePath};
use error_accumulator::ErrorAccumulator;

fn n(name: &str) -> FieldName {
    name.parse().unwrap()
}

/// The kind under which the errors of a type are recorded.
trait Kind {
    fn kind_name() -> &'static str;
}

impl Kind for std::num::ParseIntError {
    fn kind_name() -> &'static str {
        "ParseIntError"
    }
}

impl Kind for std::num::TryFromIntError {
    fn kind_name() -> &'static str {
        "TryFromIntError"
    }
}

impl Kind for io::Error {
    fn kind_name() -> &'static str {
        "io::Error"
    }
}

fn checked<T, E: std::error::Error + Kind>(result: Result<T, E>) -> Result<T, ValidationError> {
    result.map_err(|error| ValidationError::new(E::kind_name(), &error.to_string()))
}

#[test]
fn should_record_nested_structs() {
    let foo_struct = ErrorAccumulator::new().strukt(n("foo"));
    let foo_struct = foo_struct
        .field_builder(n("bar"))
        .value(checked("42".parse::<u32>()))
        .value(checked(NonZeroI16::try_from(-5)))
        .on_ok(|v, _| v)
        .finish();
    let foo_baz_struct = foo_struct
        .strukt(n("baz"))
        .field(n("quux"), checked(Ok::<_, io::Error>("god")))
        .on_ok(|s: &str| s.chars().rev().collect::<String>())
        .finish();

    let (res,) = foo_baz_struct
        .on_ok(|num, s| format!("{num}|{s}"))
        .finish()
        .analyse()
        .unwrap();

    assert_eq!(res.as_str(), "42|dog")
}

#[test]
fn should_record_nested_error() {
    let foo_struct = ErrorAccumulator::new().strukt(n("foo"));
    let foo_struct = foo_struct
        .field_builder(n("bar"))
        .value(checked("42".parse::<u32>()))
        .value(checked(NonZeroI16::try_from(-5)))
        .on_ok(|v, _| v)
        .finish();
    let foo_baz_struct = foo_struct
        .strukt(n("baz"))
        .field(
            n("quux"),
            checked(Err::<&str, _>(io::Error::new(io::ErrorKind::AddrInUse, "bad"))),
        )
        .on_ok(|s: &str| s.chars().rev().collect::<String>())
        .finish();

    let res = foo_baz_struct
        .on_ok(|num, s| format!("{num}|{s}"))
        .finish()
        .analyse()
        .unwrap_err();

    assert_eq!(
        res.get_by_path(
            &SourcePath::new()
                .join(PathSegment::Field(n("foo")))
                .join(PathSegment::Field(n("baz")))
                .join(PathSegment::Field(n("quux")))
        )
        .len(),
        1
    );
}
