use variantly::shapes::TestEnum;
use variantly::shapes::TestEnum::{Int, OtherUnit, Tuple, Unit};

fn tuple(num: u128) -> TestEnum {
    Tuple(num.to_string(), num)
}

#[test]
fn derived_and_single_value_tuple() {
    // True True
    assert_eq!(Int(123).and_int(Int(456)).unwrap_int(), 456);

    // True False
    assert_eq!(Int(123).and_int(Unit).unwrap_int(), 123);

    // False True
    assert!(Unit.and_int(Int(123)).is_unit());

    // False False
    assert!(Unit.and_int(OtherUnit).is_unit());
}

#[test]
fn derived_and_multi_value_tuple() {
    // True True
    assert_eq!(
        tuple(123).and_tuple(tuple(456)).unwrap_tuple(),
        ("456".into(), 456)
    );

    // True False
    assert_eq!(
        tuple(123).and_tuple(Unit).unwrap_tuple(),
        ("123".into(), 123)
    );

    // False True
    assert!(Unit.and_tuple(tuple(123)).is_unit());

    // False False
    assert!(Unit.and_tuple(Unit).is_unit());
}

#[test]
fn derived_and_then_single_value_tuple() {
    let and_then = |val| val + 100;

    // Match
    assert_eq!(Int(123).and_then_int(and_then).unwrap_int(), 223);

    // Non-Match
    assert!(Unit.and_then_int(and_then).is_unit());
}

#[test]
fn derived_and_then_multi_value_tuple() {
    let and_then = |(word, num): (String, u128)| (format!("{}{}", word, word), num + num);

    // Match
    assert_eq!(
        TestEnum::new_tuple(123).and_then_tuple(and_then).unwrap_tuple(),
        ("123123".into(), 246)
    );

    // Non-Match
    assert!(Unit.and_then_tuple(and_then).is_unit());
}

#[test]
fn derived_expect_single_value_tuple() {
    assert_eq!(Int(123).expect_int("This should have been an int"), 123);
}

#[test]
fn derived_expect_multi_value_tuple() {
    assert_eq!(
        TestEnum::new_tuple(123).expect_tuple("This should have been a tuple"),
        ("123".into(), 123)
    );
}

#[test]
fn derived_ok_or_single_value_tuple() {
    // Match
    assert_eq!(Int(123).ok_or_int("ERR").unwrap(), 123);

    // Non-Match
    assert_eq!(Unit.ok_or_int("ERR").unwrap_err(), "ERR");
}

#[test]
fn derived_ok_or_multi_value_tuple() {
    // Match
    assert_eq!(
        TestEnum::new_tuple(123).ok_or_tuple("ERR").unwrap(),
        ("123".into(), 123)
    );

    // Non-Match
    assert_eq!(Unit.ok_or_tuple("ERR").unwrap_err(), "ERR");
}

#[test]
fn derived_ok_or_else_single_value_tuple_deprecated() {
    // Match
    assert_eq!(Int(123).ok_or_else_int(|| "ERR").unwrap(), 123);

    // Non-Match
    assert_eq!(Unit.ok_or_else_int(|| "ERR").unwrap_err(), "ERR");
}

#[test]
fn derived_ok_or_else_multi_value_tuple_deprecated() {
    // Match
    assert_eq!(
        TestEnum::new_tuple(123).ok_or_else_tuple(|| "ERR").unwrap(),
        ("123".into(), 123)
    );

    // Non-Match
    assert_eq!(Unit.ok_or_else_tuple(|| "ERR").unwrap_err(), "ERR");
}

#[test]
fn derived_or_single_value_tuple() {
    // True True
    assert_eq!(Int(123).or_int(Int(456)).unwrap_int(), 123);

    // True False
    assert_eq!(Int(123).or_int(Unit).unwrap_int(), 123);

    // False True
    assert_eq!(Unit.or_int(Int(123)).unwrap_int(), 123);

    // False False
    assert!(Unit.or_int(OtherUnit).is_other_unit());
}

#[test]
fn derived_or_multi_value_tuple() {
    // True True
    assert_eq!(
        tuple(123).or_tuple(tuple(456)).unwrap_tuple(),
        ("123".into(), 123)
    );

    // True False
    assert_eq!(
        tuple(123).or_tuple(Unit).unwrap_tuple(),
        ("123".into(), 123)
    );

    // False True
    assert_eq!(
        Unit.or_tuple(tuple(123)).unwrap_tuple(),
        ("123".into(), 123)
    );

    // False False
    assert!(Unit.or_tuple(Unit).is_unit());
}

#[test]
fn derived_or_else_single_value_tuple() {
    // Match
    assert_eq!(Int(123).or_else_int(|| 456).unwrap_int(), 123);

    // Non-Match
    assert_eq!(Unit.or_else_int(|| 456).unwrap_int(), 456);
}

#[test]
fn derived_or_else_multi_value_tuple() {
    // Match
    assert_eq!(
        TestEnum::new_tuple(123).unwrap_or_else_tuple(|| ("456".into(), 456)),
        ("123".into(), 123)
    );

    // Non-Match
    assert_eq!(
        Unit.unwrap_or_else_tuple(|| ("456".into(), 456)),
        ("456".into(), 456)
    );
}

#[test]
fn derived_unwrap_single_value_tuple() {
    assert_eq!(Int(123).unwrap_int(), 123);
}

#[test]
#[should_panic]
fn derived_unwrap_single_value_tuple_panic() {
    Unit.unwrap_int();
}

#[test]
fn derived_unwrap_multi_value_tuple() {
    assert_eq!(TestEnum::new_tuple(123).unwrap_tuple(), ("123".into(), 123));
}

#[test]
#[should_panic]
fn derived_unwrap_multi_value_tuple_panic() {
    Unit.unwrap_tuple();
}

#[test]
fn derived_unwrap_or_else_single_value_tuple() {
    // Match
    assert_eq!(Int(123).unwrap_or_int(456), 123);

    // Non-Match
    assert_eq!(Unit.unwrap_or_int(456), 456);
}

#[test]
fn derived_unwrap_or_else_multi_value_tuple() {
    // Match
    assert_eq!(
        TestEnum::new_tuple(123).unwrap_or_tuple(("456".into(), 456)),
        ("123".into(), 123)
    );

    // Non-Match
    assert_eq!(
        Unit.unwrap_or_tuple(("456".into(), 456)),
        ("456".into(), 456)
    );
}
