use openapi_core::registry::MetaSchema;
use openapi_core::types::TypeName;
use openapi_core::types::error::ParseError;
use openapi_core::validation::{
    MaxItems, MaxLength, Maximum, MinItems, MinLength, Minimum, MultipleOf, Pattern, Validator,
    ValidatorSpec, validate_field,
};
use openapi_core::value::{JsonValue, Number};

fn num(n: i64) -> JsonValue {
    if n >= 0 {
        JsonValue::Num(Number::Unsigned(n as u64))
    } else {
        JsonValue::Num(Number::Signed(n))
    }
}

fn field_error(name: &str, value: &JsonValue, vs: &Vec<ValidatorSpec>) -> Option<String> {
    match validate_field(name, value, vs) {
        Ok(()) => None,
        Err(reason) => {
            let ty = TypeName::plain("A");
            Some(ParseError::custom(&ty, reason.as_str()).into_message())
        },
    }
}

#[test]
fn test_multiple_of() {
    let vs = vec![ValidatorSpec::MultipleOf(MultipleOf::new(10).unwrap())];
    assert_eq!(field_error("n", &num(20), &vs), None);
    assert_eq!(
        field_error("n", &num(25), &vs).unwrap(),
        "failed to parse \"A\": field `n` verification failed. multipleOf(10)"
    );
}

#[test]
fn test_maximum() {
    let vs = vec![ValidatorSpec::Maximum(Maximum::new(500, false))];
    assert_eq!(field_error("n", &num(400), &vs), None);
    assert_eq!(field_error("n", &num(500), &vs), None);
    assert_eq!(
        field_error("n", &num(501), &vs).unwrap(),
        "failed to parse \"A\": field `n` verification failed. maximum(500, exclusive: false)"
    );
    assert_eq!(
        field_error("n", &num(530), &vs).unwrap(),
        "failed to parse \"A\": field `n` verification failed. maximum(500, exclusive: false)"
    );
}

#[test]
fn test_maximum_exclusive() {
    let vs = vec![ValidatorSpec::Maximum(Maximum::new(500, true))];
    assert_eq!(field_error("n", &num(400), &vs), None);
    assert_eq!(
        field_error("n", &num(500), &vs).unwrap(),
        "failed to parse \"A\": field `n` verification failed. maximum(500, exclusive: true)"
    );
    assert_eq!(
        field_error("n", &num(530), &vs).unwrap(),
        "failed to parse \"A\": field `n` verification failed. maximum(500, exclusive: true)"
    );
}

#[test]
fn test_minimum() {
    let vs = vec![ValidatorSpec::Minimum(Minimum::new(-3, false))];
    assert_eq!(field_error("n", &num(-3), &vs), None);
    assert_eq!(
        field_error("n", &num(-4), &vs).unwrap(),
        "failed to parse \"A\": field `n` verification failed. minimum(-3, exclusive: false)"
    );
}

#[test]
fn test_max_length() {
    let vs = vec![ValidatorSpec::MaxLength(MaxLength::new(5))];
    assert_eq!(field_error("value", &JsonValue::Str(String::from("abcd")), &vs), None);
    assert_eq!(
        field_error("value", &JsonValue::Str(String::from("abcdef")), &vs).unwrap(),
        "failed to parse \"A\": field `value` verification failed. maxLength(5)"
    );
}

#[test]
fn test_min_length() {
    let vs = vec![ValidatorSpec::MinLength(MinLength::new(5))];
    assert_eq!(field_error("value", &JsonValue::Str(String::from("abcdef")), &vs), None);
    assert_eq!(
        field_error("value", &JsonValue::Str(String::from("abcd")), &vs).unwrap(),
        "failed to parse \"A\": field `value` verification failed. minLength(5)"
    );
}

#[test]
fn test_pattern() {
    let vs = vec![ValidatorSpec::Pattern(
        Pattern::new(String::from(r"\[.*\]")).unwrap(),
    )];
    assert_eq!(field_error("value", &JsonValue::Str(String::from("[123]")), &vs), None);
    assert_eq!(
        field_error("value", &JsonValue::Str(String::from("123")), &vs).unwrap(),
        r#"failed to parse "A": field `value` verification failed. pattern("\[.*\]")"#
    );
}

#[test]
fn test_pattern_rejected_at_build_time() {
    assert!(Pattern::new(String::from("(")).is_none());
    assert!(MultipleOf::new(0).is_none());
}

#[test]
fn test_max_items() {
    let vs = vec![ValidatorSpec::MaxItems(MaxItems::new(3))];
    let three = JsonValue::Arr(vec![
        JsonValue::Str(String::from("1")),
        JsonValue::Str(String::from("2")),
        JsonValue::Str(String::from("3")),
    ]);
    let four = JsonValue::Arr(vec![
        JsonValue::Str(String::from("1")),
        JsonValue::Str(String::from("2")),
        JsonValue::Str(String::from("3")),
        JsonValue::Str(String::from("4")),
    ]);
    assert_eq!(field_error("values", &three, &vs), None);
    assert_eq!(
        field_error("values", &four, &vs).unwrap(),
        "failed to parse \"A\": field `values` verification failed. maxItems(3)"
    );
}

#[test]
fn test_min_items() {
    let vs = vec![ValidatorSpec::MinItems(MinItems::new(4))];
    let three = JsonValue::Arr(vec![
        JsonValue::Str(String::from("1")),
        JsonValue::Str(String::from("2")),
        JsonValue::Str(String::from("3")),
    ]);
    let four = JsonValue::Arr(vec![
        JsonValue::Str(String::from("1")),
        JsonValue::Str(String::from("2")),
        JsonValue::Str(String::from("3")),
        JsonValue::Str(String::from("4")),
    ]);
    assert_eq!(field_error("values", &four, &vs), None);
    assert_eq!(
        field_error("values", &three, &vs).unwrap(),
        "failed to parse \"A\": field `values` verification failed. minItems(4)"
    );
}

#[test]
fn first_failure_wins() {
    let vs = vec![
        ValidatorSpec::Minimum(Minimum::new(0, false)),
        ValidatorSpec::Maximum(Maximum::new(10, false)),
    ];
    // 999 passes the minimum and fails the maximum: the failing validator
    // is the one reported.
    assert_eq!(
        field_error("n", &num(999), &vs).unwrap(),
        "failed to parse \"A\": field `n` verification failed. maximum(10, exclusive: false)"
    );
    // -1 fails the first check; the pipeline short-circuits there.
    assert_eq!(
        field_error("n", &num(-1), &vs).unwrap(),
        "failed to parse \"A\": field `n` verification failed. minimum(0, exclusive: false)"
    );
}

#[test]
fn update_meta_contributions() {
    let mut meta = MetaSchema::new(String::from("integer"));
    Maximum::new(100, true).update_meta(&mut meta);
    Minimum::new(5, false).update_meta(&mut meta);
    MultipleOf::new(10).unwrap().update_meta(&mut meta);
    assert_eq!(meta.maximum, Some(100));
    assert_eq!(meta.exclusive_maximum, Some(true));
    assert_eq!(meta.minimum, Some(5));
    assert_eq!(meta.exclusive_minimum, None);
    assert_eq!(meta.multiple_of, Some(10));

    let mut meta = MetaSchema::new(String::from("string"));
    MaxLength::new(5).update_meta(&mut meta);
    MinLength::new(2).update_meta(&mut meta);
    Pattern::new(String::from("a+")).unwrap().update_meta(&mut meta);
    assert_eq!(meta.max_length, Some(5));
    assert_eq!(meta.min_length, Some(2));
    assert_eq!(meta.pattern, Some(String::from("a+")));

    let mut meta = MetaSchema::new(String::from("array"));
    MaxItems::new(3).update_meta(&mut meta);
    MinItems::new(1).update_meta(&mut meta);
    assert_eq!(meta.max_items, Some(3));
    assert_eq!(meta.min_items, Some(1));
}
