use openapi_core::types::Type;
use openapi_core::types::TypeName;
use openapi_core::types::binary::Base64;
use openapi_core::types::error::ParseError;
use openapi_core::types::password::Password;
use openapi_core::value::{JsonValue, Number};

fn num(n: i64) -> JsonValue {
    if n >= 0 {
        JsonValue::Num(Number::Unsigned(n as u64))
    } else {
        JsonValue::Num(Number::Signed(n))
    }
}

#[test]
fn int_roundtrip() {
    for x in [-128i8, -1, 0, 1, 127] {
        let v = x.to_value();
        assert_eq!(<i8 as Type>::parse(Some(v)).unwrap(), x);
    }
    for x in [i64::MIN, -1, 0, i64::MAX] {
        let v = x.to_value();
        assert_eq!(<i64 as Type>::parse(Some(v)).unwrap(), x);
    }
    for x in [0u64, 1, u64::MAX] {
        let v = x.to_value();
        assert_eq!(<u64 as Type>::parse(Some(v)).unwrap(), x);
    }
}

#[test]
fn int_boundaries() {
    assert_eq!(<i8 as Type>::parse(Some(num(-128))).unwrap(), -128);
    assert_eq!(<i8 as Type>::parse(Some(num(127))).unwrap(), 127);
    assert_eq!(
        <i8 as Type>::parse(Some(num(128))).unwrap_err().into_message(),
        "failed to parse \"integer($int8)\": Only integers from -128 to 127 are accepted."
    );
    assert_eq!(
        <i8 as Type>::parse(Some(num(-129))).unwrap_err().into_message(),
        "failed to parse \"integer($int8)\": Only integers from -128 to 127 are accepted."
    );
    assert_eq!(<u16 as Type>::parse(Some(num(65535))).unwrap(), 65535);
    assert_eq!(
        <u16 as Type>::parse(Some(num(65536))).unwrap_err().into_message(),
        "failed to parse \"integer($uint16)\": Only integers from 0 to 65535 are accepted."
    );
    assert_eq!(
        <u16 as Type>::parse(Some(num(-1))).unwrap_err().into_message(),
        "failed to parse \"integer($uint16)\": Only integers from 0 to 65535 are accepted."
    );
    // The full u64 domain is ranged correctly.
    assert_eq!(
        <u64 as Type>::parse(Some(JsonValue::Num(Number::Unsigned(u64::MAX)))).unwrap(),
        u64::MAX
    );
}

#[test]
fn int_expected_messages() {
    assert_eq!(
        <i32 as Type>::parse(None).unwrap_err().into_message(),
        "Type \"integer($int32)\" expects an input value."
    );
    assert_eq!(
        <i32 as Type>::parse(Some(JsonValue::Str(String::from("abc"))))
            .unwrap_err()
            .into_message(),
        "Expected input type \"integer($int32)\", found \"abc\"."
    );
    assert_eq!(
        <i32 as Type>::parse(Some(JsonValue::Null)).unwrap_err().into_message(),
        "Expected input type \"integer($int32)\", found null."
    );
}

#[test]
fn int_from_str() {
    assert_eq!(<i32 as Type>::parse_from_str(Some("10")).unwrap(), 10);
    assert_eq!(<i32 as Type>::parse_from_str(Some("-42")).unwrap(), -42);
    assert_eq!(<i32 as Type>::parse_from_str(Some("+7")).unwrap(), 7);
    assert_eq!(<u64 as Type>::parse_from_str(Some("18446744073709551615")).unwrap(), u64::MAX);
    assert!(<i32 as Type>::parse_from_str(Some("ten")).is_err());
    assert!(<i32 as Type>::parse_from_str(Some("")).is_err());
    assert_eq!(
        <i8 as Type>::parse_from_str(Some("128")).unwrap_err().into_message(),
        "failed to parse \"integer($int8)\": Only integers from -128 to 127 are accepted."
    );
    assert_eq!(
        <i8 as Type>::parse_from_str(Some("99999999999999999999999999"))
            .unwrap_err()
            .into_message(),
        "failed to parse \"integer($int8)\": Only integers from -128 to 127 are accepted."
    );
    assert_eq!(
        <i32 as Type>::parse_from_str(None).unwrap_err().into_message(),
        "Type \"integer($int32)\" expects an input value."
    );
}

#[test]
fn string_roundtrip() {
    let s = String::from("hello");
    let v = s.to_value();
    assert_eq!(v, JsonValue::Str(String::from("hello")));
    assert_eq!(<String as Type>::parse(Some(v)).unwrap(), "hello");
    assert_eq!(
        <String as Type>::parse(Some(num(100))).unwrap_err().into_message(),
        "Expected input type \"string\", found 100."
    );
    assert_eq!(<String as Type>::parse_from_str(Some("abc")).unwrap(), "abc");
}

#[test]
fn password_roundtrip() {
    let p = Password(String::from("secret"));
    let v = p.to_value();
    assert_eq!(v, JsonValue::Str(String::from("secret")));
    assert_eq!(<Password as Type>::parse(Some(v)).unwrap(), p);
    let name = <Password as Type>::name();
    assert_eq!(name.display(), "string($password)");
}

#[test]
fn base64_roundtrip() {
    let b = Base64(vec![1, 2, 3, 254]);
    let v = b.to_value();
    assert_eq!(<Base64 as Type>::parse(Some(v)).unwrap(), b);
    assert_eq!(
        <Base64 as Type>::parse_from_str(Some("aGVsbG8=")).unwrap(),
        Base64(Vec::from(&b"hello"[..]))
    );
    assert!(<Base64 as Type>::parse_from_str(Some("!!!")).is_err());
}

#[test]
fn optional_absent_is_no_value() {
    // Absent and Null parse to "no value" even though i32 itself requires
    // input, and the wrapper is never required.
    assert_eq!(<Option<i32> as Type>::parse(None).unwrap(), None);
    assert_eq!(<Option<i32> as Type>::parse(Some(JsonValue::Null)).unwrap(), None);
    assert_eq!(<Option<i32> as Type>::parse(Some(num(5))).unwrap(), Some(5));
    assert_eq!(<Option<i32> as Type>::parse_from_str(None).unwrap(), None);
    assert!(!<Option<i32> as Type>::is_required());
    assert!(<i32 as Type>::is_required());
    assert!(!<Option<Vec<i32>> as Type>::is_required());
}

#[test]
fn vec_roundtrip_and_propagation() {
    let xs: Vec<i32> = vec![1, 2, 3];
    let v = xs.to_value();
    assert_eq!(<Vec<i32> as Type>::parse(Some(v)).unwrap(), xs);
    let name = <Vec<i32> as Type>::name();
    assert_eq!(name.display(), "[integer($int32)]");
    // The first failing element's error is propagated, not swallowed.
    let bad = JsonValue::Arr(vec![num(1), JsonValue::Str(String::from("x"))]);
    assert_eq!(
        <Vec<i32> as Type>::parse(Some(bad)).unwrap_err().into_message(),
        "Expected input type \"integer($int32)\", found \"x\". (occurred while parsing \"[integer($int32)]\")"
    );
    assert_eq!(
        <Vec<i32> as Type>::parse_from_str(Some("1,2")).unwrap_err().into_message(),
        "failed to parse \"[integer($int32)]\": not support parsing from parameter"
    );
}

#[test]
fn propagate_only_wraps_other_names() {
    let name_a = TypeName::plain("A");
    let name_b = TypeName::plain("B");
    let e = ParseError::custom(&name_a, "boom");
    let same = e.propagate(&name_a);
    assert_eq!(same.into_message(), "failed to parse \"A\": boom");
    let e = ParseError::custom(&name_a, "boom");
    let other = e.propagate(&name_b);
    assert_eq!(
        other.into_message(),
        "failed to parse \"A\": boom (occurred while parsing \"B\")"
    );
}

#[test]
fn nested_value_rendering() {
    let v = JsonValue::Arr(vec![
        JsonValue::Bool(true),
        JsonValue::Str(String::from("x")),
        num(-3),
    ]);
    assert_eq!(
        <i32 as Type>::parse(Some(v)).unwrap_err().into_message(),
        "Expected input type \"integer($int32)\", found [true,\"x\",-3]."
    );
}
