use error_accumulator::error::{AccumulatedError, ValidationError};
use error_accumulator::path::{FieldName, PathSegment, SourcePath};

fn n(name: &str) -> FieldName {
    name.parse().unwrap()
}

fn field(name: &str) -> SourcePath {
    SourcePath::new().join(PathSegment::field(n(name)))
}

fn sample() -> AccumulatedError {
    let mut errors = AccumulatedError::default();
    errors.append(field("a"), ValidationError::new("range", "too large"));
    errors.append(field("b"), ValidationError::new("syntax", "not a number"));
    errors.append(field("a"), ValidationError::new("syntax", "not a date"));
    errors
}

#[test]
fn renders_header_and_one_line_per_error() {
    let mut errors = AccumulatedError::default();
    assert_eq!(errors.to_string(), "Accumulated errors:\n");

    errors.append(field("foo"), ValidationError::new("io", "error1"));
    errors.append(
        SourcePath::new().join(PathSegment::array(n("bar"), 2)),
        ValidationError::new("io", "error2"),
    );
    errors.append(SourcePath::new(), ValidationError::new("io", "error3"));

    assert_eq!(
        errors.to_string(),
        "Accumulated errors:\n- foo: error1\n- bar[2]: error2\n- root: error3\n"
    );
}

#[test]
fn counts_stored_errors() {
    let empty = AccumulatedError::default();
    assert!(empty.is_empty());
    assert_eq!(empty.len(), 0);

    let errors = sample();
    assert!(!errors.is_empty());
    assert_eq!(errors.len(), 3);
}

#[test]
fn finds_errors_by_path_in_accumulation_order() {
    let errors = sample();

    let at_a = errors.get_by_path(&field("a"));
    let messages: Vec<&str> = at_a.iter().map(|error| error.message()).collect();
    assert_eq!(messages, vec!["too large", "not a date"]);

    assert_eq!(errors.get_by_path(&field("b")).len(), 1);
    assert_eq!(errors.get_by_path(&field("c")).len(), 0);
    assert_eq!(errors.get_by_path(&SourcePath::new()).len(), 0);
    assert_eq!(
        errors.get_by_path(&field("a").join(PathSegment::field(n("b")))).len(),
        0
    );
}

#[test]
fn finds_errors_by_kind_in_accumulation_order() {
    let errors = sample();

    let syntax = errors.get_by_type("syntax");
    let found: Vec<(String, &str)> = syntax
        .iter()
        .map(|(path, error)| (path.to_string(), error.message()))
        .collect();
    assert_eq!(
        found,
        vec![("b".to_string(), "not a number"), ("a".to_string(), "not a date")]
    );

    let range = errors.get_by_type("range");
    assert_eq!(range.len(), 1);
    assert_eq!(range[0].1.kind(), "range");
    assert_eq!(errors.get_by_type("other").len(), 0);
    assert_eq!(errors.get_by_type("").len(), 0);
}

#[test]
fn merges_behind_the_errors_already_stored() {
    let mut errors = sample();
    let mut more = AccumulatedError::default();
    more.append(field("c"), ValidationError::new("range", "too small"));
    more.append(field("d"), ValidationError::new("range", "negative"));

    errors.merge(more);

    assert_eq!(
        errors.to_string(),
        "Accumulated errors:\n- a: too large\n- b: not a number\n- a: not a date\n- c: too \
         small\n- d: negative\n"
    );

    errors.merge(AccumulatedError::default());
    assert_eq!(errors.len(), 5);
}

#[test]
fn describes_an_error_by_kind_and_message() {
    let error = ValidationError::new("range", "too large");

    assert_eq!(error.kind(), "range");
    assert_eq!(error.message(), "too large");
    assert_eq!(error.to_string(), "too large");
    assert_eq!(error.clone().kind(), "range");
    assert_eq!(error.clone().message(), "too large");
}
