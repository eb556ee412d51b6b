use error_accumulator::cons::{Append, AsRefTuple, Cons, Nil, ToTuple};
use error_accumulator::construct::{Constructor, ListValidator};
use error_accumulator::error::ValidationError;

#[test]
fn empty_list_is_the_empty_tuple() {
    let () = Nil.unwrap_tuple();
    let () = Nil.as_unwraped_tuple();
}

#[test]
fn single_value_is_a_one_tuple() {
    let list = Nil.append(Some(7u8));

    assert_eq!(list.as_unwraped_tuple(), (&7u8,));
    assert_eq!(list.unwrap_tuple(), (7u8,));
}

#[test]
fn values_come_out_in_recording_order() {
    let list = Nil
        .append(Some(1u8))
        .append(Some("two"))
        .append(Some(3.0f32))
        .append(Some('4'))
        .append(Some(5u16))
        .append(Some(6u32))
        .append(Some(7u64))
        .append(Some(8i8))
        .append(Some(9i16))
        .append(Some(10i32))
        .append(Some(11i64))
        .append(Some(String::from("twelve")));

    assert_eq!(
        list.as_unwraped_tuple(),
        (
            &1u8,
            &"two",
            &3.0f32,
            &'4',
            &5u16,
            &6u32,
            &7u64,
            &8i8,
            &9i16,
            &10i32,
            &11i64,
            &String::from("twelve")
        )
    );
    assert_eq!(
        list.unwrap_tuple(),
        (
            1u8,
            "two",
            3.0f32,
            '4',
            5u16,
            6u32,
            7u64,
            8i8,
            9i16,
            10i32,
            11i64,
            String::from("twelve")
        )
    );
}

#[test]
fn empty_slot_keeps_its_position() {
    let list = Nil.append(Some(1u8)).append(None::<char>).append(Some("three"));

    assert_eq!(
        list,
        Cons {
            head: Some(1u8),
            tail: Cons {
                head: None::<char>,
                tail: Cons {
                    head: Some("three"),
                    tail: Nil
                }
            }
        }
    );
    assert_eq!(list.clone(), list);
}

#[test]
fn constructor_takes_the_values_as_arguments() {
    assert_eq!((|| 5u8).construct(()), 5);
    assert_eq!((|a: u8| a + 1).construct((1,)), 2);
    assert_eq!((|a: u8, b: &str| format!("{a}{b}")).construct((1, "b")), "1b");
    assert_eq!(
        (|a: u8, b: u8, c: u8, d: u8, e: u8, f: u8, g: u8, h: u8, i: u8, j: u8, k: u8, l: u8| {
            vec![a, b, c, d, e, f, g, h, i, j, k, l]
        })
        .construct((1, 2, 3, 4, 5, 6, 7, 8, 9, 10, 11, 12)),
        vec![1, 2, 3, 4, 5, 6, 7, 8, 9, 10, 11, 12]
    );
}

#[test]
fn validator_borrows_the_values_as_arguments() {
    let none = (|| Ok::<u8, ValidationError>(5)).validate(&Nil);
    assert_eq!(none.unwrap(), 5);

    let list = Nil.append(Some(4u8)).append(Some(6u8));
    let sum = (|a: &u8, b: &u8| Ok::<u8, ValidationError>(a + b)).validate(&list);
    assert_eq!(sum.unwrap(), 10);

    let failed = (|a: &u8, b: &u8| {
        if a < b {
            Err::<u8, _>(ValidationError::new("order", "first is smaller"))
        } else {
            Ok(a - b)
        }
    })
    .validate(&list);
    assert_eq!(failed.unwrap_err().message(), "first is smaller");
    assert_eq!(list.unwrap_tuple(), (4, 6));
}
