//! Conversion tests: the aggregation algorithm that the generated
//! conversion follows, run on the per-field evaluation outcomes that the
//! generated code would produce for each scenario.

use valibuk::{convert, FieldEval};

fn is_positive(i: i32) -> Result<i32, String> {
    if i > 0 {
        Ok(i)
    } else {
        Err("wrong".to_string())
    }
}

fn is_at_least<'a>(n: usize) -> impl Fn(&'a str) -> Result<&'a str, String> {
    move |s| {
        if s.len() >= n {
            Ok(s)
        } else {
            Err("wrong".to_string())
        }
    }
}

fn is_at_least_3<'a>(a: &'a str) -> Result<&'a str, String> {
    is_at_least::<'a>(3)(a)
}

/// A schema can mix field types; the evaluations of one conversion then
/// carry the field values in one shared shape.
#[derive(Debug, PartialEq, Clone, Copy)]
enum Val {
    I(i32),
    U(u8),
}

#[derive(Debug, PartialEq)]
struct E;

#[test]
fn test_no_validated_fields() {
    let i: i32 = 1;
    let r: Result<Vec<i32>, Vec<String>> = convert(vec![FieldEval::Unvalidated(i)]);
    assert_eq!(r.expect("valid instance"), vec![i]);
}

#[test]
fn test_one_validated_field() {
    let a: i32 = 1;
    let r: Result<Vec<i32>, Vec<String>> = convert(vec![FieldEval::Validated(is_positive(a))]);
    assert_eq!(r.expect("valid instance"), vec![a]);
}

#[test]
fn test_one_validated_one_not_validated_field() {
    let a: i32 = 1;
    let b: u8 = 2;
    let r: Result<Vec<Val>, Vec<String>> = convert(vec![
        FieldEval::Validated(is_positive(a).map(Val::I)),
        FieldEval::Unvalidated(Val::U(b)),
    ]);
    assert_eq!(r.expect("valid instance"), vec![Val::I(a), Val::U(b)]);
}

#[test]
fn integration_test_test_lifetime() {
    let a: &str = "aaa";
    let r: Result<Vec<&str>, Vec<String>> = convert(vec![FieldEval::Validated(is_at_least_3(a))]);
    assert_eq!(r.expect("valid instance"), vec![a]);
}

#[test]
fn test_generics() {
    let a: i32 = 1;
    let b: u8 = 2;
    let r: Result<Vec<Val>, Vec<String>> = convert(vec![
        FieldEval::Validated(is_positive(a).map(Val::I)),
        FieldEval::Unvalidated(Val::U(b)),
    ]);
    assert_eq!(r.expect("valid instance"), vec![Val::I(a), Val::U(b)]);
}

#[test]
fn test_inline_validator() {
    let f = |a: i32| {
        if a > 0 {
            Ok(a)
        } else {
            Err("validation err".to_string())
        }
    };
    {
        // positive case
        let a: i32 = 1;
        let r: Result<Vec<i32>, Vec<String>> = convert(vec![FieldEval::Validated(f(a))]);
        assert_eq!(r.expect("valid instance"), vec![a]);
    }
    {
        // negative case
        let a: i32 = -1;
        let r: Result<Vec<i32>, Vec<String>> = convert(vec![FieldEval::Validated(f(a))]);
        let expected = Err(vec!["validation err".to_string()]);
        assert_eq!(r, expected);
    }
}

#[test]
fn test_boolean_inline_validator() {
    let pred = |a: i32| a > 0;
    let run = |a: i32| {
        if pred(a) {
            Ok(a)
        } else {
            Err("Error: a should be positive".to_string())
        }
    };
    {
        // positive case
        let a: i32 = 1;
        let r: Result<Vec<i32>, Vec<String>> = convert(vec![FieldEval::Validated(run(a))]);
        assert_eq!(r.expect("valid instance"), vec![a]);
    }
    {
        // negative case
        let a: i32 = -1;
        let r: Result<Vec<i32>, Vec<String>> = convert(vec![FieldEval::Validated(run(a))]);
        let expected = Err(vec!["Error: a should be positive".to_string()]);
        assert_eq!(r, expected);
    }
}

#[test]
fn test_boolean_inline_validator_custom_error() {
    let pred = |a: i32| a > 0;
    let run = |a: i32| if pred(a) { Ok(a) } else { Err(E) };
    {
        // negative case: the failure carries the exact supplied instance
        let a: i32 = -1;
        let r: Result<Vec<i32>, Vec<E>> = convert(vec![FieldEval::Validated(run(a))]);
        let expected = Err(vec![E]);
        assert_eq!(r, expected);
    }
}

#[test]
fn scenario_identity_conversion() {
    // Schema { a: i32 } without validators: conversion of { a: 0 } is the
    // identity.
    let r: Result<Vec<i32>, Vec<String>> = convert(vec![FieldEval::Unvalidated(0)]);
    assert_eq!(r.expect("valid instance"), vec![0]);
}

#[test]
fn scenario_is_positive_rejects_zero() {
    // Schema { a: i32 } with is_positive: 1 converts, 0 is rejected with
    // exactly the validator's message.
    let ok: Result<Vec<i32>, Vec<String>> = convert(vec![FieldEval::Validated(is_positive(1))]);
    assert_eq!(ok.expect("valid instance"), vec![1]);
    let nok: Result<Vec<i32>, Vec<String>> = convert(vec![FieldEval::Validated(is_positive(0))]);
    assert_eq!(nok, Err(vec!["wrong".to_string()]));
}

#[test]
fn scenario_unvalidated_field_never_contributes() {
    // Schema { a: i32, b: u8 } with only a validated: converting
    // { a: -1, b: 5 } yields one single error, from a.
    let r: Result<Vec<Val>, Vec<String>> = convert(vec![
        FieldEval::Validated(is_positive(-1).map(Val::I)),
        FieldEval::Unvalidated(Val::U(5)),
    ]);
    let errors = r.expect_err("invalid instance");
    assert_eq!(errors.len(), 1);
    assert_eq!(errors, vec!["wrong".to_string()]);
}

#[test]
fn test_all_failures_collected_in_order() {
    // Every failing validator contributes, in declaration order, even
    // after an earlier failure; successes never contribute.
    let r: Result<Vec<i32>, Vec<String>> = convert(vec![
        FieldEval::Validated(Err("first".to_string())),
        FieldEval::Validated(Ok(5)),
        FieldEval::Unvalidated(7),
        FieldEval::Validated(Err("second".to_string())),
    ]);
    assert_eq!(r, Err(vec!["first".to_string(), "second".to_string()]));
}

#[test]
fn test_empty_evaluation_list_converts() {
    let r: Result<Vec<i32>, Vec<String>> = convert(vec![]);
    assert_eq!(r.expect("valid instance"), Vec::<i32>::new());
}
