use error_accumulator::path::{Error, FieldName, PathSegment, SourcePath};

fn n(name: &str) -> FieldName {
    name.parse().unwrap()
}

fn path_of(segments: Vec<PathSegment>) -> SourcePath {
    let mut path = SourcePath::new();
    for segment in segments {
        path = path.join(segment);
    }
    path
}

#[test]
fn parsed_path_renders_identically() {
    let text = "foo[21].bar.xyz";

    let parsed = text.parse::<SourcePath>().unwrap();

    assert_eq!(
        parsed,
        path_of(vec![
            PathSegment::array(n("foo"), 21),
            PathSegment::field(n("bar")),
            PathSegment::field(n("xyz")),
        ])
    );
    assert_eq!(parsed.to_string(), text);
}

#[test]
fn rendered_paths_parse_back() {
    let paths = vec![
        path_of(vec![PathSegment::field(n("a"))]),
        path_of(vec![PathSegment::array(n("hosts"), 0)]),
        path_of(vec![
            PathSegment::field(n("outer")),
            PathSegment::array(n("inner"), usize::MAX),
            PathSegment::field(n("")),
            PathSegment::array(n(""), 10),
        ]),
        path_of(vec![PathSegment::field(n("")), PathSegment::field(n(""))]),
        path_of(vec![PathSegment::field(n("with space and +"))]),
    ];

    for path in paths {
        let text = path.to_string();
        assert_eq!(text.parse::<SourcePath>().unwrap(), path);
    }
}

#[test]
fn text_of_the_empty_path_reads_as_a_field() {
    let text = SourcePath::new().to_string();

    let parsed = text.parse::<SourcePath>().unwrap();

    assert_eq!(parsed, path_of(vec![PathSegment::field(n("root"))]));
    assert_ne!(parsed, SourcePath::new());
}

#[test]
fn renders_indices_in_base_ten() {
    assert_eq!(PathSegment::array(n("a"), 0).to_string(), "a[0]");
    assert_eq!(PathSegment::array(n("a"), 9).to_string(), "a[9]");
    assert_eq!(PathSegment::array(n("a"), 10).to_string(), "a[10]");
    assert_eq!(PathSegment::array(n("a"), 1234567890).to_string(), "a[1234567890]");
    assert_eq!(
        PathSegment::array(n("a"), usize::MAX).to_string(),
        format!("a[{}]", usize::MAX)
    );
    assert_eq!(PathSegment::field(n("name")).to_string(), "name");
    assert_eq!(n("name").to_string(), "name");
}

#[test]
fn reads_the_index_between_the_brackets() {
    assert_eq!(
        "foo[21]".parse::<PathSegment>().unwrap(),
        PathSegment::array(n("foo"), 21)
    );
    assert_eq!(
        "foo[+5]".parse::<PathSegment>().unwrap(),
        PathSegment::array(n("foo"), 5)
    );
    assert_eq!(
        "foo[007]".parse::<PathSegment>().unwrap(),
        PathSegment::array(n("foo"), 7)
    );
    assert_eq!(
        "[0]".parse::<PathSegment>().unwrap(),
        PathSegment::array(n(""), 0)
    );
    assert_eq!(
        "ünï[3]".parse::<PathSegment>().unwrap(),
        PathSegment::array(n("ünï"), 3)
    );
    assert_eq!(
        "größe.ünï[3].ß".parse::<SourcePath>().unwrap().to_string(),
        "größe.ünï[3].ß"
    );
    assert_eq!(
        format!("foo[{}]", usize::MAX).parse::<PathSegment>().unwrap(),
        PathSegment::array(n("foo"), usize::MAX)
    );
}

#[test]
fn empty_text_is_one_empty_field() {
    assert_eq!(
        "".parse::<SourcePath>().unwrap(),
        path_of(vec![PathSegment::field(n(""))])
    );
    assert_eq!(
        "a..b".parse::<SourcePath>().unwrap(),
        path_of(vec![
            PathSegment::field(n("a")),
            PathSegment::field(n("")),
            PathSegment::field(n("b")),
        ])
    );
    assert_eq!(
        "a.".parse::<SourcePath>().unwrap(),
        path_of(vec![PathSegment::field(n("a")), PathSegment::field(n(""))])
    );
}

#[test]
fn rejects_names_with_delimiters() {
    for name in ["a.b", "a[b", "a]b", ".", "[", "]x"] {
        match name.parse::<FieldName>() {
            Err(Error::InvalidCharInName(rejected)) => assert_eq!(rejected, name),
            other => panic!("unexpected result for {name}: {other:?}"),
        }
        assert!(matches!(
            FieldName::try_from(name),
            Err(Error::InvalidCharInName(_))
        ));
        assert!(matches!(
            FieldName::try_from(name.to_string()),
            Err(Error::InvalidCharInName(_))
        ));
    }
    match "a[b".parse::<SourcePath>() {
        Err(Error::InvalidCharInName(rejected)) => assert_eq!(rejected, "a[b"),
        other => panic!("unexpected result: {other:?}"),
    }
    match "a]b[3]".parse::<PathSegment>() {
        Err(Error::InvalidCharInName(rejected)) => assert_eq!(rejected, "a]b"),
        other => panic!("unexpected result: {other:?}"),
    }
    match "a.b".parse::<PathSegment>() {
        Err(Error::InvalidCharInName(rejected)) => assert_eq!(rejected, "a.b"),
        other => panic!("unexpected result: {other:?}"),
    }
}

#[test]
fn accepts_names_without_delimiters() {
    for name in ["", "foo", "with space", "a+b", "ünï", "0"] {
        assert_eq!(name.parse::<FieldName>().unwrap().as_str(), name);
        assert_eq!(FieldName::try_from(name).unwrap().as_str(), name);
        assert_eq!(FieldName::try_from(name.to_string()).unwrap().as_str(), name);
    }
    let unchecked = FieldName::new_unchecked("quux");
    assert_eq!(unchecked.as_str(), "quux");
    let borrowed: &str = unchecked.as_ref();
    assert_eq!(borrowed, "quux");
    assert_eq!(unchecked, n("quux"));
    assert_eq!(unchecked.clone(), unchecked);
}

#[test]
fn rejects_array_segments_without_opening_bracket() {
    for segment in ["foo]", "]", "3]"] {
        match segment.parse::<PathSegment>() {
            Err(Error::IncompleteArraySegment(rejected)) => assert_eq!(rejected, segment),
            other => panic!("unexpected result for {segment}: {other:?}"),
        }
    }
    match "a.foo].b".parse::<SourcePath>() {
        Err(Error::IncompleteArraySegment(rejected)) => assert_eq!(rejected, "foo]"),
        other => panic!("unexpected result: {other:?}"),
    }
}

#[test]
fn rejects_indices_that_are_no_numbers() {
    for segment in [
        "foo[]",
        "foo[x]",
        "foo[-1]",
        "foo[+]",
        "foo[1 ]",
        "foo[1][2]",
        "foo[[1]",
        "foo[99999999999999999999999999999999999999999]",
    ] {
        assert!(
            matches!(segment.parse::<PathSegment>(), Err(Error::InvalidIdx(_))),
            "{segment}"
        );
    }
    assert!(matches!(
        "a.foo[x].b".parse::<SourcePath>(),
        Err(Error::InvalidIdx(_))
    ));
}

#[test]
fn reports_a_bad_index_before_a_bad_name() {
    assert!(matches!(
        "a]b[x]".parse::<PathSegment>(),
        Err(Error::InvalidIdx(_))
    ));
}

#[test]
fn reports_the_first_bad_segment() {
    match "a.b]c.d[x].e]".parse::<SourcePath>() {
        Err(Error::InvalidCharInName(rejected)) => assert_eq!(rejected, "b]c"),
        other => panic!("unexpected result: {other:?}"),
    }
    assert!(matches!(
        "a.d[x].e]".parse::<SourcePath>(),
        Err(Error::InvalidIdx(_))
    ));
}

#[test]
fn join_leaves_the_path_unchanged() {
    let base = path_of(vec![PathSegment::field(n("foo"))]);

    let joined = base.join(PathSegment::array(n("bar"), 1));

    assert_eq!(base.to_string(), "foo");
    assert_eq!(joined.to_string(), "foo.bar[1]");
    assert_eq!(SourcePath::default(), SourcePath::new());
}

#[test]
fn matches_bases_that_are_prefixes() {
    let foo = path_of(vec![PathSegment::field(n("foo"))]);
    let foo_bar = foo.join(PathSegment::field(n("bar")));
    let foo_bar_baz = foo_bar.join(PathSegment::array(n("baz"), 3));
    let foo_bar_other = foo_bar.join(PathSegment::array(n("baz"), 4));

    assert!(foo_bar_baz.is_matching_base(&foo_bar));
    assert!(foo_bar_baz.is_matching_base(&foo));
    assert!(foo_bar_baz.is_matching_base(&SourcePath::new()));
    assert!(foo_bar_baz.is_matching_base(&foo_bar_baz));
    assert!(!foo_bar_baz.is_matching_base(&foo_bar_other));
    assert!(!foo_bar.is_matching_base(&foo_bar_baz));
    assert!(!foo.is_matching_base(&path_of(vec![PathSegment::field(n("bar"))])));
    assert!(!path_of(vec![PathSegment::array(n("foo"), 0)]).is_matching_base(&foo));
}

#[test]
fn wraps_the_error_of_a_number_that_is_none() {
    let error = "x".parse::<usize>().unwrap_err();

    assert!(matches!(Error::from(error), Error::InvalidIdx(_)));
}
