use openapi_core::rename::{RenameRule, RenameTarget};
use openapi_core::registry::MetaSchemaRef;
use openapi_core::types::TypeName;
use openapi_core::types::enumeration::EnumTokens;
use openapi_core::value::JsonValue;

fn screaming_tokens() -> EnumTokens {
    let name = TypeName::plain("MyEnum");
    let tokens = vec![
        RenameTarget::EnumItem.rename("CreateUser"),
        RenameTarget::EnumItem.rename("DeleteUser"),
    ];
    EnumTokens::new(name, tokens).unwrap()
}

#[test]
fn data_type() {
    let e = screaming_tokens();
    assert_eq!(e.tokens, vec![String::from("CREATE_USER"), String::from("DELETE_USER")]);
    let schema = e.schema_ref();
    match schema {
        MetaSchemaRef::Inline(s) => {
            assert_eq!(s.ty, "string");
            assert_eq!(s.enum_items, vec![
                String::from("CREATE_USER"),
                String::from("DELETE_USER"),
            ]);
        },
        MetaSchemaRef::Reference(_) => panic!(),
    }
}

#[test]
fn rename_items() {
    let name = TypeName::plain("MyEnum");
    let rule = RenameRule::Camel;
    let tokens = vec![rule.rename("CreateUser"), rule.rename("DeleteUser")];
    let e = EnumTokens::new(name, tokens).unwrap();

    assert_eq!(e.parse(Some(JsonValue::Str(String::from("createUser")))).unwrap(), 0);
    assert_eq!(e.parse(Some(JsonValue::Str(String::from("deleteUser")))).unwrap(), 1);
    assert_eq!(e.to_value(0), JsonValue::Str(String::from("createUser")));
    assert_eq!(e.to_value(1), JsonValue::Str(String::from("deleteUser")));
}

#[test]
fn rename_item() {
    let name = TypeName::plain("MyEnum");
    let tokens = vec![
        RenameTarget::EnumItem.rename("CreateUser"),
        String::from("delete_user"),
    ];
    let e = EnumTokens::new(name, tokens).unwrap();

    assert_eq!(e.parse(Some(JsonValue::Str(String::from("CREATE_USER")))).unwrap(), 0);
    assert_eq!(e.parse(Some(JsonValue::Str(String::from("delete_user")))).unwrap(), 1);
    assert_eq!(e.to_value(0), JsonValue::Str(String::from("CREATE_USER")));
    assert_eq!(e.to_value(1), JsonValue::Str(String::from("delete_user")));
}

#[test]
fn enum_roundtrip_every_variant() {
    let e = screaming_tokens();
    for i in 0..e.tokens.len() {
        let v = e.to_value(i);
        assert_eq!(e.parse(Some(v)).unwrap(), i);
    }
}

#[test]
fn enum_unknown_token_fixed_message() {
    // The message is fixed and does not carry the enum's name.
    let e = screaming_tokens();
    let err = e.parse(Some(JsonValue::Str(String::from("NO_SUCH")))).unwrap_err();
    assert_eq!(err.into_message(), "expected a valid enumeration value");

    let name = TypeName::plain("AnotherName");
    let other = EnumTokens::new(name, vec![String::from("A")]).unwrap();
    let err = other.parse(Some(JsonValue::Str(String::from("NO_SUCH")))).unwrap_err();
    assert_eq!(err.into_message(), "expected a valid enumeration value");

    let err = screaming_tokens().parse_from_str(Some("NO_SUCH")).unwrap_err();
    assert_eq!(err.into_message(), "expected a valid enumeration value");
}

#[test]
fn enum_duplicate_tokens_rejected() {
    let name = TypeName::plain("MyEnum");
    let tokens = vec![String::from("A"), String::from("B"), String::from("A")];
    assert!(EnumTokens::new(name, tokens).is_none());
}

#[test]
fn rename_rules() {
    assert_eq!(RenameRule::Lower.rename("CreateUser"), "createuser");
    assert_eq!(RenameRule::Upper.rename("CreateUser"), "CREATEUSER");
    assert_eq!(RenameRule::Pascal.rename("create_user"), "CreateUser");
    assert_eq!(RenameRule::Camel.rename("CreateUser"), "createUser");
    assert_eq!(RenameRule::Camel.rename("create_user"), "createUser");
    assert_eq!(RenameRule::Snake.rename("CreateUser"), "create_user");
    assert_eq!(RenameRule::ScreamingSnake.rename("CreateUser"), "CREATE_USER");
    assert_eq!(RenameTarget::Type.rename("my_type"), "MyType");
    assert_eq!(RenameTarget::Field.rename("UserName"), "userName");
}
