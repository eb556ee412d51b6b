use error_accumulator::cons::{Append, Nil, ToTuple};

#[test]
fn convert_4() {
    let list = Nil
        .append(Some(true))
        .append(Some(4))
        .append(Some('c'))
        .append(Some("str"))
        .unwrap_tuple();
    assert!(list.0);
    assert_eq!(list.1, 4);
    assert_eq!(list.2, 'c');
    assert_eq!(list.3, "str");
}
