use openapi_core::error::ParseRequestError;
use openapi_core::multipart::{MultipartPart, find_part, require_part};
use openapi_core::payload::Field;
use openapi_core::payload::PlainText;
use openapi_core::rename::RenameRule;

fn part(name: &str, data: &[u8]) -> MultipartPart {
    MultipartPart {
        name: String::from(name),
        file_name: None,
        content_type: None,
        data: Vec::from(data),
    }
}

#[test]
fn required_fields() {
    let parts = vec![part("name", b"abc")];
    let found = require_part(&parts, "MyObj", "name").unwrap();
    assert_eq!(found.data, Vec::from(&b"abc"[..]));

    let err = require_part(&parts, "MyObj", "file").unwrap_err();
    match err {
        ParseRequestError::ParseRequestBody { ty_name, reason } => {
            assert_eq!(ty_name, "MyObj");
            assert_eq!(reason, "field `file` is required");
        },
        _ => panic!(),
    }
}

#[test]
fn optional_fields() {
    // A declared optional field with no part binds to "no value"; an
    // undeclared part is simply ignored.
    let parts = vec![part("name", b"abc"), part("stray", b"zzz")];
    assert!(find_part(&parts, "file").is_none());
    let found = find_part(&parts, "name").unwrap();
    assert_eq!(found.data, Vec::from(&b"abc"[..]));
}

#[test]
fn rename_fields() {
    // Field names renamed with the UPPERCASE convention match parts by
    // their renamed name.
    let renamed = RenameRule::Upper.rename("name");
    assert_eq!(renamed, "NAME");
    let parts = vec![part("NAME", b"abc")];
    assert!(find_part(&parts, renamed.as_str()).is_some());
    assert!(find_part(&parts, "name").is_none());
}

#[test]
fn field_info() {
    let field = Field::assemble(
        PlainText(String::from("abc")),
        Some(String::from("text/plain")),
        Some(String::from("1.txt")),
    );
    assert_eq!(field.content_type().unwrap(), "text/plain");
    assert_eq!(field.file_name().unwrap(), "1.txt");
    assert_eq!(field.into_inner(), PlainText(String::from("abc")));
}

#[test]
fn first_matching_part_wins() {
    let parts = vec![part("f", b"first"), part("f", b"second")];
    let found = find_part(&parts, "f").unwrap();
    assert_eq!(found.data, Vec::from(&b"first"[..]));
}
