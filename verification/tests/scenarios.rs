use variantly::expanded::TestEnum as Letters;
use variantly::shapes::TestEnum::{Int, Tuple, Unit};

#[test]
fn scenario_unit_int_round_trip() {
    assert_eq!(Int(123).ok_int(), Some(123));
    assert_eq!(Unit.ok_int(), None);
}

#[test]
fn scenario_string_int_tuple_and_then() {
    assert_eq!(
        Tuple("123".into(), 123)
            .and_then_tuple(|(s, n): (String, u128)| (format!("{}{}", s, s), n + n))
            .unwrap_tuple(),
        ("123123".to_string(), 246)
    );
}

#[test]
fn and_or_asymmetry_on_valued_instances() {
    assert_eq!(Int(1).and_int(Int(2)).unwrap_int(), 2);
    assert_eq!(Int(1).or_int(Int(2)).unwrap_int(), 1);
}

#[test]
fn or_else_closure_is_lazy() {
    let mut called = false;
    let kept = Int(5).or_else_int(|| {
        called = true;
        9
    });
    assert!(!called);
    assert_eq!(kept.unwrap_int(), 5);

    let mut called = false;
    let built = Unit.or_else_int(|| {
        called = true;
        9
    });
    assert!(called);
    assert_eq!(built.unwrap_int(), 9);
}

#[test]
fn ok_or_else_closure_runs_at_most_once() {
    let mut calls = 0;
    let ok = Int(1).ok_or_else_int(|| {
        calls += 1;
        "e"
    });
    assert_eq!(calls, 0);
    assert_eq!(ok, Ok(1));

    let mut calls = 0;
    let err = Unit.ok_or_else_int(|| {
        calls += 1;
        "e"
    });
    assert_eq!(calls, 1);
    assert_eq!(err, Err("e"));
}

#[test]
fn three_field_variant_family_works() {
    let v = Letters::F("a".into(), 1, "b".into());
    assert!(v.is_f());
    let v = v.and_then_f(|(x, n, y): (String, u128, String)| (format!("{}{}", x, y), n + 1, y));
    assert_eq!(v.unwrap_f(), ("ab".to_string(), 2, "b".to_string()));

    let mut w = Letters::A;
    let built = w.replace_f(("x".into(), 9, "y".into()));
    assert!(w.is_a());
    assert_eq!(built.unwrap_f(), ("x".to_string(), 9, "y".to_string()));

    let mut v = Letters::F("a".into(), 1, "b".into());
    let old = v.replace_f(("x".into(), 9, "y".into()));
    assert_eq!(old.unwrap_f(), ("a".to_string(), 1, "b".to_string()));
    assert_eq!(v.unwrap_f(), ("x".to_string(), 9, "y".to_string()));
}

#[test]
fn ok_or_argument_is_evaluated_eagerly() {
    let calls = std::cell::Cell::new(0);
    let eager = || {
        calls.set(calls.get() + 1);
        "e"
    };
    // The error value is built by the caller exactly once, match or not.
    let ok = Int(1).ok_or_int(eager());
    assert_eq!(calls.get(), 1);
    assert_eq!(ok, Ok(1));
    let err = Unit.ok_or_int(eager());
    assert_eq!(calls.get(), 2);
    assert_eq!(err, Err("e"));
}
