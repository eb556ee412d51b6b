use error_accumulator::error::ValidationError;
use error_accumulator::path::{FieldName, PathSegment, SourcePath};
use error_accumulator::ErrorAccumulator;

fn n(name: &str) -> FieldName {
    name.parse().unwrap()
}

/// The kind under which the errors of a type are recorded.
trait Kind {
    fn kind_name() -> &'static str;
}

impl Kind for std::num::ParseIntError {
    fn kind_name() -> &'static str {
        "ParseIntError"
    }
}

fn checked<T, E: std::error::Error + Kind>(result: Result<T, E>) -> Result<T, ValidationError> {
    result.map_err(|error| ValidationError::new(E::kind_name(), &error.to_string()))
}

#[derive(Debug, PartialEq, Eq)]
struct Test(u32);

#[test]
fn should_record_array_of_structs() {
    let (res,) = ErrorAccumulator::new()
        .array(n("foo"))
        .of_structs(vec!["42", "21", "33"], |rec, value| {
            rec.field(n("num"), checked(value.parse::<u32>()))
                .on_ok(Test)
                .finish()
        })
        .finish()
        .analyse()
        .unwrap();

    assert_eq!(vec![Test(42), Test(21), Test(33)], res);
}

#[test]
fn should_record_array_of_values() {
    let (res,) = ErrorAccumulator::new()
        .array(n("foo"))
        .of_values(vec![
            checked("42".parse::<u32>()),
            checked("21".parse()),
            checked("33".parse()),
        ])
        .finish()
        .analyse()
        .unwrap();

    assert_eq!(vec![42, 21, 33], res);
}

#[test]
fn should_record_error_in_array() {
    let res = ErrorAccumulator::new()
        .array(n("foo"))
        .of_values(vec![
            checked("42".parse::<u32>()),
            checked("aa".parse()),
            checked("bb".parse()),
        ])
        .finish()
        .analyse()
        .unwrap_err();

    assert_eq!(
        res.get_by_path(&SourcePath::new().join(PathSegment::Array {
            name: n("foo"),
            index: 1
        }))
        .len(),
        1
    );
    assert_eq!(
        res.get_by_path(&SourcePath::new().join(PathSegment::Array {
            name: n("foo"),
            index: 2
        }))
        .len(),
        1
    );
}
