use openapi_core::base::Request;
use openapi_core::openapi::schema_value;
use openapi_core::payload::{Json, PlainText};
use openapi_core::registry::{
    HttpMethod, MetaAPI, MetaOperation, MetaPath, MetaProperty, MetaResponse, MetaResponses,
    MetaSchema, MetaSchemaRef,
};
use openapi_core::rename::{RenameRule, RenameTarget};
use openapi_core::types::Type;
use openapi_core::codec::render_json;

fn simple_operation(method: HttpMethod) -> MetaOperation {
    MetaOperation {
        method,
        tags: vec![],
        summary: None,
        description: None,
        params: vec![],
        request: None,
        responses: MetaResponses {
            responses: vec![MetaResponse { description: None, status: Some(200), content: vec![] }],
        },
        deprecated: false,
    }
}

#[test]
fn path_and_method() {
    let api = MetaAPI {
        paths: vec![MetaPath {
            path: String::from("/abc"),
            operations: vec![simple_operation(HttpMethod::Post)],
        }],
    };
    assert_eq!(api.paths[0].path, "/abc");
    assert_eq!(api.paths[0].operations[0].method, HttpMethod::Post);
    assert_eq!(api.paths[0].operations[0].method.key(), "post");
}

#[test]
fn api_deprecated() {
    let mut op = simple_operation(HttpMethod::Get);
    assert!(!op.deprecated);
    op.deprecated = true;
    let api = MetaAPI {
        paths: vec![MetaPath { path: String::from("/abc"), operations: vec![op] }],
    };
    assert!(api.paths[0].operations[0].deprecated);
}

#[test]
fn tag() {
    let mut op = simple_operation(HttpMethod::Get);
    op.tags.push(String::from("t1"));
    let api = MetaAPI {
        paths: vec![MetaPath { path: String::from("/abc"), operations: vec![op] }],
    };
    assert_eq!(api.paths[0].operations[0].tags, vec![String::from("t1")]);
}

#[test]
fn test_meta() {
    let json_meta = <Json<u64> as Request>::meta();
    assert_eq!(json_meta.content[0].content_type, "application/json");
    assert!(json_meta.required);
    let text_meta = <PlainText as Request>::meta();
    assert_eq!(text_meta.content[0].content_type, "text/plain");
}

#[test]
fn schema_rename() {
    // A type's schema name defaults to PascalCase, unless overridden.
    assert_eq!(RenameTarget::Type.rename("abc"), "Abc");
}

#[test]
fn schema_rename_fields() {
    let rule = RenameRule::Camel;
    assert_eq!(rule.rename("create_user"), "createUser");
    assert_eq!(rule.rename("delete_user"), "deleteUser");
}

#[test]
fn schema_deprecated() {
    let mut s = MetaSchema::new(String::from("object"));
    assert!(!s.deprecated);
    s.deprecated = true;
    let rendered = render_json(&schema_value(&s));
    let parsed: serde_json::Value = serde_json::from_str(&rendered).unwrap();
    assert_eq!(parsed["deprecated"], true);
}

#[test]
fn description() {
    let mut s = MetaSchema::new(String::from("object"));
    s.title = Some(String::from("A"));
    s.description = Some(String::from("AB\nCDE"));
    let rendered = render_json(&schema_value(&s));
    let parsed: serde_json::Value = serde_json::from_str(&rendered).unwrap();
    assert_eq!(parsed["title"], "A");
    assert_eq!(parsed["description"], "AB\nCDE");
}

#[test]
fn field_description() {
    let mut inner = match <i32 as Type>::schema_ref() {
        MetaSchemaRef::Inline(s) => s,
        MetaSchemaRef::Reference(_) => panic!(),
    };
    inner.description = Some(String::from("AB\nCDE"));
    let mut s = MetaSchema::new(String::from("object"));
    s.properties.push(MetaProperty {
        name: String::from("a"),
        schema: MetaSchemaRef::Inline(inner),
    });
    let rendered = render_json(&schema_value(&s));
    let parsed: serde_json::Value = serde_json::from_str(&rendered).unwrap();
    assert_eq!(parsed["properties"]["a"]["description"], "AB\nCDE");
}

#[test]
fn field_name() {
    let mut s = MetaSchema::new(String::from("object"));
    s.properties.push(MetaProperty {
        name: String::from("snake_case_name"),
        schema: <i32 as Type>::schema_ref(),
    });
    let rendered = render_json(&schema_value(&s));
    let parsed: serde_json::Value = serde_json::from_str(&rendered).unwrap();
    assert!(parsed["properties"]["snake_case_name"].is_object());
}

#[test]
fn field_skip() {
    // A skipped field is simply never declared: the schema carries only
    // what the builder put in.
    let mut s = MetaSchema::new(String::from("object"));
    s.properties.push(MetaProperty {
        name: String::from("kept"),
        schema: <i32 as Type>::schema_ref(),
    });
    let rendered = render_json(&schema_value(&s));
    let parsed: serde_json::Value = serde_json::from_str(&rendered).unwrap();
    assert!(parsed["properties"]["kept"].is_object());
    assert!(parsed["properties"]["skipped"].is_null());
}
