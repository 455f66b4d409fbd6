use http::StatusCode;
use standard_error::{
    Interpolate, LocaleContext, StandardError, StandardErrorMessages, Status, StringMap,
};
use std::num::ParseIntError;

const CATALOG: &str = "\
errors:
  - code: ER-0004
    detail_en_US: \"Should be an integer\"
  - code: ER-0005
    detail_en_US: \"Should be an integer: [err]\"
  - code: ER-0006
    detail_en_US: \"Should be an integer - fname: [fname] | lname: [lname]\"
  - code: ER-0007
    detail_en_US: \"Should be an integer - fname: [fname] | lname: [lname] - [err]\"
";

fn catalog() -> StandardErrorMessages {
    StandardError::load_error_messages(Ok(CATALOG.as_bytes().to_vec())).unwrap()
}

#[test]
fn test_question_mark() {
    let messages = catalog();
    let locale = LocaleContext::default();
    let foo = |a: &str| -> Result<i32, StandardError> {
        a.parse()
            .map_err(|_: ParseIntError| StandardError::new("ER-0004", &messages, &locale))
    };

    let res = foo("a");

    let e = res.unwrap_err();
    assert_eq!(e.status_code(), StatusCode::INTERNAL_SERVER_ERROR.as_u16());
    assert_eq!(e.message().to_string(), "Should be an integer".to_string());
}

#[test]
fn test_status_code() {
    let messages = catalog();
    let locale = LocaleContext::default();
    let foo = |a: &str| -> Result<i32, StandardError> {
        a.parse().map_err(|_: ParseIntError| {
            StandardError::new("ER-0004", &messages, &locale).code(StatusCode::BAD_REQUEST.as_u16())
        })
    };

    let res = foo("a");

    let e = res.unwrap_err();
    assert_eq!(e.status_code(), StatusCode::BAD_REQUEST.as_u16());
    assert_eq!(e.message().to_string(), "Should be an integer".to_string());
}

#[test]
fn test_interpolate_err() {
    let messages = catalog();
    let locale = LocaleContext::default();
    let foo = |a: &str| -> Result<i32, StandardError> {
        a.parse().map_err(|e: ParseIntError| {
            StandardError::new("ER-0005", &messages, &locale).interpolate_err(e.to_string())
        })
    };

    let res = foo("a");

    let e = res.unwrap_err();
    assert_eq!(e.status_code(), StatusCode::INTERNAL_SERVER_ERROR.as_u16());
    assert_eq!(
        e.message().to_string(),
        "Should be an integer: invalid digit found in string".to_string()
    );
}

#[test]
fn test_interpolate_values() {
    let messages = catalog();
    let locale = LocaleContext::default();
    let foo = |a: &str| -> Result<i32, StandardError> {
        a.parse().map_err(|_: ParseIntError| {
            let mut values = StringMap::new();
            values.insert("fname".to_string(), "ashu".to_string());
            values.insert("lname".to_string(), "pednekar".to_string());
            StandardError::new("ER-0006", &messages, &locale).interpolate_values(values)
        })
    };

    let res = foo("a");

    let e = res.unwrap_err();
    assert_eq!(e.status_code(), StatusCode::INTERNAL_SERVER_ERROR.as_u16());
    assert_eq!(
        e.message().to_string(),
        "Should be an integer - fname: ashu | lname: pednekar".to_string()
    );
}

#[test]
fn test_chain() {
    let messages = catalog();
    let locale = LocaleContext::default();
    let foo = |a: &str| -> Result<i32, StandardError> {
        a.parse().map_err(|e: ParseIntError| {
            let mut values = StringMap::new();
            values.insert("fname".to_string(), "ashu".to_string());
            values.insert("lname".to_string(), "pednekar".to_string());
            StandardError::new("ER-0007", &messages, &locale)
                .code(StatusCode::IM_A_TEAPOT.as_u16())
                .interpolate_values(values)
                .interpolate_err(e.to_string())
        })
    };

    let res = foo("a");

    let e = res.unwrap_err();
    assert_eq!(e.status_code(), StatusCode::IM_A_TEAPOT.as_u16());
    assert_eq!(
        e.message().to_string(),
        "Should be an integer - fname: ashu | lname: pednekar - invalid digit found in string"
            .to_string()
    );
}

#[test]
fn test_error_csv_loader() {
    let messages = catalog();
    assert_eq!(messages.len(), 4);
}

#[test]
fn new_error_has_the_stored_template_and_status_500() {
    let messages = catalog();
    let locale = LocaleContext::default();
    let e = StandardError::new("ER-0004", &messages, &locale);
    assert_eq!(e.err_code(), "ER-0004");
    assert_eq!(e.status_code(), 500);
    assert_eq!(e.message(), "Should be an integer");
    assert_eq!(e.template(), "Should be an integer");
    assert!(e.values().is_empty());
}

#[test]
fn detail_is_interpolated_into_the_template() {
    let mut templates = StringMap::new();
    templates.insert("en_US".to_string(), "Should be an integer: [err]".to_string());
    let mut messages = StandardErrorMessages::new();
    messages.insert("ER-0004".to_string(), templates);
    let locale = LocaleContext::default();
    let e = StandardError::new("ER-0004", &messages, &locale)
        .interpolate_err("invalid digit found in string".to_string());
    assert_eq!(e.message(), "Should be an integer: invalid digit found in string");
}

#[test]
fn unknown_code_gives_the_fallback_message() {
    let messages = catalog();
    let locale = LocaleContext::default();
    let e = StandardError::new("ER-9999", &messages, &locale);
    assert_eq!(e.err_code(), "ER-9999");
    assert_eq!(e.message(), "unknown error");
    assert_eq!(e.status_code(), 500);
}

#[test]
fn other_locale_does_not_fall_back_to_english() {
    let messages = catalog();
    let mut locale = LocaleContext::default();
    standard_error::set_current_locale(&mut locale, "fr_FR");
    let e = StandardError::new("ER-0004", &messages, &locale);
    assert_eq!(e.message(), "unknown error");
}

#[test]
fn later_locale_change_leaves_the_message() {
    let messages = catalog();
    let mut locale = LocaleContext::default();
    let mut e = StandardError::new("ER-0005", &messages, &locale);
    standard_error::set_current_locale(&mut locale, "fr_FR");
    let e = e.interpolate_err("oops".to_string());
    assert_eq!(e.message(), "Should be an integer: oops");
}

#[test]
fn chained_transforms_compose_left_to_right() {
    let mut templates = StringMap::new();
    templates.insert("en_US".to_string(), "[a] and [b]".to_string());
    let mut messages = StandardErrorMessages::new();
    messages.insert("E1".to_string(), templates);
    let locale = LocaleContext::default();

    let mut first = StringMap::new();
    first.insert("a".to_string(), "1".to_string());
    let mut second = StringMap::new();
    second.insert("b".to_string(), "2".to_string());

    let mut e = StandardError::new("E1", &messages, &locale);
    let mut with_status = e.code(400);
    assert_eq!(with_status.status_code(), 400);
    assert_eq!(with_status.message(), "[a] and [b]");
    let mut with_first = with_status.interpolate_values(first);
    assert_eq!(with_first.message(), "1 and [b]");
    let done = with_first.interpolate_values(second);
    assert_eq!(done.status_code(), 400);
    assert_eq!(done.message(), "1 and 2");
    assert_eq!(done.err_code(), "E1");
}

#[test]
fn setters_change_the_receiver_and_return_an_equal_value() {
    let messages = catalog();
    let locale = LocaleContext::default();
    let mut e = StandardError::new("ER-0005", &messages, &locale);
    let returned = e.code(404);
    assert_eq!(e.status_code(), 404);
    assert_eq!(returned.status_code(), 404);
    let returned = e.interpolate_err("x".to_string());
    assert_eq!(e.message(), "Should be an integer: x");
    assert_eq!(returned.message(), "Should be an integer: x");
}

#[test]
fn later_value_takes_the_place_of_an_earlier_one() {
    let messages = catalog();
    let locale = LocaleContext::default();
    let mut e = StandardError::new("ER-0005", &messages, &locale);
    let mut e = e.interpolate_err("first".to_string());
    assert_eq!(e.message(), "Should be an integer: first");
    let e = e.interpolate_err("second".to_string());
    assert_eq!(e.message(), "Should be an integer: second");
    assert_eq!(e.values().get("err"), Some(&"second".to_string()));
    assert_eq!(e.values().len(), 1);
}

#[test]
fn values_are_not_read_for_placeholders() {
    let messages = catalog();
    let locale = LocaleContext::default();
    let mut values = StringMap::new();
    values.insert("fname".to_string(), "[lname]".to_string());
    values.insert("lname".to_string(), "[fname]".to_string());
    let e = StandardError::new("ER-0006", &messages, &locale).interpolate_values(values);
    assert_eq!(e.message(), "Should be an integer - fname: [lname] | lname: [fname]");
}

#[test]
fn clone_keeps_everything() {
    let messages = catalog();
    let locale = LocaleContext::default();
    let mut e = StandardError::new("ER-0005", &messages, &locale);
    let e = e.code(418).interpolate_err("x".to_string());
    let copy = e.clone();
    assert_eq!(copy.err_code(), e.err_code());
    assert_eq!(copy.status_code(), 418);
    assert_eq!(copy.message(), "Should be an integer: x");
    assert_eq!(copy.template(), "Should be an integer: [err]");
    assert_eq!(copy.values().get("err"), Some(&"x".to_string()));
}

#[test]
fn pure_transforms_return_the_changed_error() {
    let messages = catalog();
    let locale = LocaleContext::default();
    let mut values = StringMap::new();
    values.insert("fname".to_string(), "ashu".to_string());
    values.insert("lname".to_string(), "pednekar".to_string());
    let e = StandardError::new("ER-0007", &messages, &locale)
        .with_status(400)
        .with_values(values)
        .with_detail("oops".to_string());
    assert_eq!(e.status_code(), 400);
    assert_eq!(e.message(), "Should be an integer - fname: ashu | lname: pednekar - oops");
    assert_eq!(e.values().len(), 3);
}

#[test]
fn errors_compare_by_what_they_hold() {
    let messages = catalog();
    let locale = LocaleContext::default();
    let mut ab = StringMap::new();
    ab.insert("fname".to_string(), "a".to_string());
    ab.insert("lname".to_string(), "b".to_string());
    let mut ba = StringMap::new();
    ba.insert("lname".to_string(), "b".to_string());
    ba.insert("fname".to_string(), "a".to_string());
    assert_eq!(ab, ba);
    let first = StandardError::new("ER-0006", &messages, &locale).with_values(ab);
    let second = StandardError::new("ER-0006", &messages, &locale).with_values(ba);
    assert_eq!(first, second);
    assert_eq!(first.clone(), first);
    assert_ne!(first.clone().with_status(404), first);
    assert_ne!(first.clone().with_detail("x".to_string()), first);
    assert_ne!(StandardError::new("ER-0007", &messages, &locale), StandardError::new("ER-0006", &messages, &locale));
    let mut shorter = StringMap::new();
    shorter.insert("fname".to_string(), "a".to_string());
    let mut other = StringMap::new();
    other.insert("fname".to_string(), "c".to_string());
    assert_ne!(shorter, other);
    assert_ne!(shorter, StringMap::new());
}

#[test]
fn catalog_can_be_copied() {
    let messages = catalog();
    let copy = messages.clone();
    assert_eq!(copy.len(), 4);
    assert_eq!(copy.resolve_template("ER-0004", "en_US"), "Should be an integer");
}
