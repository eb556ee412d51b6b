use error_accumulator::path::{FieldName, PathSegment, SourcePath};

fn n(name: &str) -> FieldName {
    name.parse().unwrap()
}

#[test]
fn should_serialize_root() {
    let path = SourcePath::new();

    let string = path.to_string();

    assert_eq!(string.as_str(), "root");
}

#[test]
fn should_display_multi_segment_path() {
    let path = SourcePath::new()
        .join(PathSegment::field(n("foo")))
        .join(PathSegment::array(n("bar"), 42))
        .join(PathSegment::field(n("baz")));

    let string = path.to_string();

    assert_eq!(string.as_str(), "foo.bar[42].baz");
}

#[test]
fn should_parse_path() {
    let expect = SourcePath::new()
        .join(PathSegment::array(n("foo"), 21))
        .join(PathSegment::field(n("bar")))
        .join(PathSegment::field(n("xyz")));
    let path = "foo[21].bar.xyz";

    let parsed = path.parse::<SourcePath>().unwrap();

    assert_eq!(parsed, expect);
}
