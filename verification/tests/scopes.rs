use error_accumulator::builder::ErrorBuilderParent;
use error_accumulator::error::{AccumulatedError, ValidationError};
use error_accumulator::path::{FieldName, PathSegment, SourcePath};
use error_accumulator::ErrorAccumulator;

fn n(name: &str) -> FieldName {
    name.parse().unwrap()
}

fn unsigned(text: &str) -> Result<u32, ValidationError> {
    text.parse::<u32>()
        .map_err(|error| ValidationError::new("ParseIntError", &error.to_string()))
}

fn non_zero(number: i16) -> Result<i16, ValidationError> {
    if number == 0 {
        Err(ValidationError::new("zero", "must be non-zero"))
    } else {
        Ok(number)
    }
}

fn url(text: &str) -> Result<String, ValidationError> {
    if text.starts_with("https://") {
        Ok(text.to_string())
    } else {
        Err(ValidationError::new("url", "not a URL"))
    }
}

#[derive(Debug, PartialEq, Eq)]
struct Host {
    url: String,
    port: u32,
}

#[derive(Debug, PartialEq, Eq)]
struct Config {
    name: String,
    hosts: Vec<Host>,
    retries: u32,
}

fn config(name: &str, hosts: Vec<(&str, &str)>, retries: &str) -> Result<Config, AccumulatedError> {
    ErrorAccumulator::new()
        .field(n("name"), Ok(name.to_string()))
        .array(n("hosts"))
        .of_structs(hosts, |rec, (address, port)| {
            rec.field(n("url"), url(address))
                .field(n("port"), unsigned(port))
                .on_ok(|url, port| Host { url, port })
                .finish()
        })
        .finish()
        .field(n("retries"), unsigned(retries))
        .on_ok(|name, hosts, retries| Config {
            name,
            hosts,
            retries,
        })
        .analyse()
}

#[test]
fn field_parsed_as_unsigned_finishes_ok() {
    let (num,) = ErrorAccumulator::new()
        .field(n("num"), unsigned("42"))
        .analyse()
        .unwrap();

    assert_eq!(num, 42);
}

#[test]
fn one_failed_field_gives_one_entry_at_its_path() {
    let errors = ErrorAccumulator::new()
        .field(n("bar"), unsigned("42"))
        .field(n("foo"), non_zero(0))
        .analyse()
        .unwrap_err();

    assert_eq!(errors.len(), 1);
    assert_eq!(
        errors.to_string(),
        "Accumulated errors:\n- foo: must be non-zero\n"
    );
    let foo = SourcePath::new().join(PathSegment::field(n("foo")));
    assert_eq!(errors.get_by_path(&foo).len(), 1);
    let bar = SourcePath::new().join(PathSegment::field(n("bar")));
    assert_eq!(errors.get_by_path(&bar).len(), 0);
}

#[test]
fn failed_array_elements_are_tagged_by_index() {
    let errors = ErrorAccumulator::new()
        .array(n("hosts"))
        .of_values(vec![url("https://a"), url("b"), url("c")])
        .finish()
        .analyse()
        .unwrap_err();

    assert_eq!(
        errors.to_string(),
        "Accumulated errors:\n- hosts[1]: not a URL\n- hosts[2]: not a URL\n"
    );
}

#[test]
fn nested_struct_error_has_the_full_path() {
    let errors = ErrorAccumulator::new()
        .strukt(n("outer"))
        .strukt(n("inner"))
        .field(n("name"), non_zero(0))
        .on_ok(|name| name)
        .finish()
        .on_ok(|inner: i16| inner)
        .finish()
        .analyse()
        .unwrap_err();

    assert_eq!(
        errors.to_string(),
        "Accumulated errors:\n- outer.inner.name: must be non-zero\n"
    );
}

#[test]
fn input_without_failures_gives_every_value_in_order() {
    let parsed = config(
        "service",
        vec![("https://a", "1"), ("https://b", "2"), ("https://c", "3")],
        "5",
    )
    .unwrap();

    assert_eq!(
        parsed,
        Config {
            name: "service".to_string(),
            hosts: vec![
                Host {
                    url: "https://a".to_string(),
                    port: 1
                },
                Host {
                    url: "https://b".to_string(),
                    port: 2
                },
                Host {
                    url: "https://c".to_string(),
                    port: 3
                },
            ],
            retries: 5,
        }
    );
}

#[test]
fn input_with_failures_gives_one_entry_per_failure() {
    let errors = config(
        "service",
        vec![("a", "1"), ("https://b", "x"), ("https://c", "3"), ("d", "y")],
        "many",
    )
    .unwrap_err();

    assert_eq!(errors.len(), 5);
    assert_eq!(
        errors.to_string(),
        "Accumulated errors:\n- hosts[0].url: not a URL\n- hosts[1].port: invalid digit found in \
         string\n- hosts[3].url: not a URL\n- hosts[3].port: invalid digit found in string\n- \
         retries: invalid digit found in string\n"
    );
    assert_eq!(errors.get_by_type("url").len(), 2);
    assert_eq!(errors.get_by_type("ParseIntError").len(), 3);
}

#[test]
fn earlier_siblings_report_first_and_children_report_together() {
    let errors = ErrorAccumulator::new()
        .field(n("first"), non_zero(0))
        .strukt(n("child"))
        .field(n("a"), non_zero(0))
        .field(n("ok"), non_zero(1))
        .strukt(n("grandchild"))
        .field(n("b"), non_zero(0))
        .on_ok(|b: i16| b)
        .finish()
        .field(n("c"), non_zero(0))
        .on_ok(|a: i16, _ok: i16, b: i16, c: i16| a + b + c)
        .finish()
        .field(n("last"), non_zero(0))
        .array(n("list"))
        .value(7, non_zero(0))
        .value(3, non_zero(0))
        .finish()
        .on_ok(|_: i16, child: i16, _: i16, _: Vec<i16>| child)
        .analyse()
        .unwrap_err();

    assert_eq!(
        errors.to_string(),
        "Accumulated errors:\n- first: must be non-zero\n- child.a: must be non-zero\n- \
         child.grandchild.b: must be non-zero\n- child.c: must be non-zero\n- last: must be \
         non-zero\n- list[7]: must be non-zero\n- list[3]: must be non-zero\n"
    );
}

#[test]
fn validation_of_previous_values_runs_without_errors() {
    let (low, high, span) = ErrorAccumulator::new()
        .field(n("low"), unsigned("3"))
        .field(n("high"), unsigned("10"))
        .with_previous(|low: &u32, high: &u32| Ok::<u32, ValidationError>(high - low))
        .analyse()
        .unwrap();

    assert_eq!((low, high, span), (3, 10, 7));
}

#[test]
fn failed_validation_of_previous_values_is_recorded_at_the_scope() {
    let errors = ErrorAccumulator::new()
        .strukt(n("range"))
        .field(n("low"), unsigned("10"))
        .field(n("high"), unsigned("3"))
        .with_previous(|low: &u32, high: &u32| {
            if low <= high {
                Ok(high - low)
            } else {
                Err(ValidationError::new("order", "low above high"))
            }
        })
        .on_ok(|_, _, span: u32| span)
        .finish()
        .with_previous(|_: &u32| Err::<u32, _>(ValidationError::new("never", "not called")))
        .analyse()
        .unwrap_err();

    assert_eq!(
        errors.to_string(),
        "Accumulated errors:\n- range: low above high\n"
    );

    let at_root = ErrorAccumulator::new()
        .with_previous(|| Err::<u32, _>(ValidationError::new("always", "refused")))
        .analyse()
        .unwrap_err();
    assert_eq!(
        at_root.to_string(),
        "Accumulated errors:\n- root: refused\n"
    );
}

#[test]
fn validation_of_previous_values_is_skipped_after_an_error() {
    let errors = ErrorAccumulator::new()
        .field(n("low"), unsigned("x"))
        .field(n("high"), unsigned("10"))
        .with_previous(|_: &u32, _: &u32| -> Result<u32, ValidationError> {
            panic!("called although the scope holds an error")
        })
        .field(n("after"), unsigned("y"))
        .on_ok(|low: u32, high: u32, span: u32, after: u32| low + high + span + after)
        .analyse()
        .unwrap_err();

    assert_eq!(
        errors.to_string(),
        "Accumulated errors:\n- low: invalid digit found in string\n- after: invalid digit found \
         in string\n"
    );
}

#[test]
fn skipping_is_local_to_the_scope() {
    let errors = ErrorAccumulator::new()
        .field(n("broken"), unsigned("x"))
        .strukt(n("child"))
        .field(n("low"), unsigned("10"))
        .with_previous(|_: &u32| Err::<u32, _>(ValidationError::new("child", "checked")))
        .on_ok(|low: u32, _: u32| low)
        .finish()
        .field_builder(n("field"))
        .value(unsigned("1"))
        .with_previous(|_: &u32| Err::<u32, _>(ValidationError::new("field", "checked too")))
        .on_ok(|value: u32, _: u32| value)
        .finish()
        .on_ok(|_: u32, child: u32, field: u32| child + field)
        .analyse()
        .unwrap_err();

    assert_eq!(
        errors.to_string(),
        "Accumulated errors:\n- broken: invalid digit found in string\n- child: checked\n- field: \
         checked too\n"
    );
}

#[test]
fn field_scope_with_errors_exposes_no_value() {
    let errors = ErrorAccumulator::new()
        .field_builder(n("port"))
        .value(unsigned("80"))
        .value(non_zero(0))
        .value_ok("kept")
        .value(unsigned("no"))
        .on_ok(|port: u32, _: i16, _: &str, _: u32| port)
        .finish()
        .analyse()
        .unwrap_err();

    assert_eq!(
        errors.to_string(),
        "Accumulated errors:\n- port: must be non-zero\n- port: invalid digit found in string\n"
    );
}

#[test]
fn field_scope_takes_values_that_need_no_parsing() {
    let (sum,) = ErrorAccumulator::new()
        .field_builder(n("sum"))
        .value_ok(40u32)
        .value(unsigned("2"))
        .with_previous(|a: &u32, b: &u32| Ok::<u32, ValidationError>(a + b))
        .on_ok(|_, _, sum| sum)
        .finish()
        .analyse()
        .unwrap();

    assert_eq!(sum, 42);

    let (plain,) = ErrorAccumulator::new()
        .field_builder(n("plain"))
        .value_ok("as is")
        .finish()
        .analyse()
        .unwrap();
    assert_eq!(plain, "as is");
}

#[test]
fn empty_scopes_finish_ok() {
    let () = ErrorAccumulator::new().analyse().unwrap();
    let () = ErrorAccumulator::default().analyse().unwrap();

    let constructed = ErrorAccumulator::new().on_ok(|| "made").analyse().unwrap();
    assert_eq!(constructed, "made");

    let (list,): (Vec<u32>,) = ErrorAccumulator::new()
        .array(n("none"))
        .of_values(vec![])
        .finish()
        .analyse()
        .unwrap();
    assert!(list.is_empty());

    let (unit,) = ErrorAccumulator::new()
        .strukt(n("nothing"))
        .on_ok(|| ())
        .finish()
        .analyse()
        .unwrap();
    assert_eq!(unit, ());
}

#[test]
fn array_of_structs_tags_each_element() {
    let errors = ErrorAccumulator::new()
        .array(n("hosts"))
        .of_structs(vec!["1", "x", "3", "y"], |rec, port| {
            rec.field(n("port"), unsigned(port))
                .on_ok(|port: u32| port)
                .finish()
        })
        .finish()
        .analyse()
        .unwrap_err();

    assert_eq!(
        errors.to_string(),
        "Accumulated errors:\n- hosts[1].port: invalid digit found in string\n- hosts[3].port: \
         invalid digit found in string\n"
    );
}

#[test]
fn array_elements_can_be_recorded_one_by_one() {
    let (ports,) = ErrorAccumulator::new()
        .array(n("ports"))
        .value(0, unsigned("1"))
        .strukt(1)
        .field(n("port"), unsigned("2"))
        .on_ok(|port: u32| port + 10)
        .finish()
        .value(2, unsigned("3"))
        .finish()
        .analyse()
        .unwrap();
    assert_eq!(ports, vec![1, 12, 3]);

    let errors = ErrorAccumulator::new()
        .strukt(n("server"))
        .array(n("ports"))
        .value(0, unsigned("1"))
        .strukt(5)
        .field(n("port"), unsigned("x"))
        .on_ok(|port: u32| port)
        .finish()
        .value(9, unsigned("y"))
        .finish()
        .on_ok(|ports: Vec<u32>| ports)
        .finish()
        .analyse()
        .unwrap_err();
    assert_eq!(
        errors.to_string(),
        "Accumulated errors:\n- server.ports[5].port: invalid digit found in string\n- \
         server.ports[9]: invalid digit found in string\n"
    );
}

#[test]
fn parent_records_a_child_result_handed_to_it() {
    let (value,) = ErrorAccumulator::new()
        .finish_child_builder(Ok::<u8, AccumulatedError>(7))
        .analyse()
        .unwrap();
    assert_eq!(value, 7);

    let mut child_errors = AccumulatedError::default();
    child_errors.append(
        SourcePath::new().join(PathSegment::field(n("x"))),
        ValidationError::new("any", "first"),
    );
    child_errors.append(
        SourcePath::new().join(PathSegment::field(n("y"))),
        ValidationError::new("any", "second"),
    );
    let errors = ErrorAccumulator::new()
        .field(n("own"), non_zero(0))
        .finish_child_builder(Err::<u8, _>(child_errors))
        .analyse()
        .unwrap_err();
    assert_eq!(
        errors.to_string(),
        "Accumulated errors:\n- own: must be non-zero\n- x: first\n- y: second\n"
    );
}
