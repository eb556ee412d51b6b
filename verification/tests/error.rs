use std::io;

use error_accumulator::error::{AccumulatedError, ValidationError};
use error_accumulator::path::{FieldName, PathSegment, SourcePath};

fn n(name: &str) -> FieldName {
    name.parse().unwrap()
}

fn described(error: io::Error) -> ValidationError {
    ValidationError::new("io::Error", &error.to_string())
}

#[test]
fn should_include_path_in_display() {
    let path1 = SourcePath::new().join(PathSegment::Field(n("foo")));
    let path2 = SourcePath::new().join(PathSegment::Array {
        name: n("bar"),
        index: 2,
    });
    let mut error = AccumulatedError::default();
    error.append(
        path1.clone(),
        described(io::Error::new(io::ErrorKind::Interrupted, "error1")),
    );
    error.append(
        path2.clone(),
        described(io::Error::new(io::ErrorKind::AlreadyExists, "error2")),
    );

    let display = error.to_string();
    println!("{display}");

    assert!(display.contains(&path1.to_string()));
    assert!(display.contains(&path2.to_string()));
}
