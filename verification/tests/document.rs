use openapi_core::base::OpenApi;
use openapi_core::codec::render_json;
use openapi_core::openapi::OpenApiService;
use openapi_core::registry::{
    HttpMethod, MetaAPI, MetaOperation, MetaOperationParam, MetaParamIn, MetaPath, MetaProperty,
    MetaResponse, MetaResponses, MetaSchema, MetaSchemaRef, Registry, SchemaBuilder,
};
use openapi_core::strfmt::{i64_to_dec, u64_to_dec, usize_to_dec};
use openapi_core::types::Type;
use openapi_core::types::TypeName;
use openapi_core::validation::{Maximum, Validator};

struct PetBuilder;

impl SchemaBuilder for PetBuilder {
    // Specification-only item, erased at run time and never called.
    fn spec_build(&self, _schemas: vstd::prelude::Seq<(String, MetaSchema)>) -> MetaSchema {
        unreachable!()
    }

    fn build(&self, _registry: &mut Registry) -> MetaSchema {
        let mut s = MetaSchema::new(String::from("object"));
        s.required.push(String::from("id"));
        s.properties.push(MetaProperty {
            name: String::from("id"),
            schema: <i64 as Type>::schema_ref(),
        });
        s
    }
}

struct PetApi;

impl OpenApi for PetApi {
    // The next two trait items are specification-only; they are erased at
    // run time and never called.
    fn spec_api_meta() -> vstd::prelude::Seq<MetaAPI> {
        unreachable!()
    }

    fn spec_register(
        _before: vstd::prelude::Seq<(String, MetaSchema)>,
    ) -> vstd::prelude::Seq<(String, MetaSchema)> {
        unreachable!()
    }

    fn meta() -> Vec<MetaAPI> {
        let mut schema = match <i32 as Type>::schema_ref() {
            MetaSchemaRef::Inline(s) => s,
            MetaSchemaRef::Reference(_) => panic!(),
        };
        Maximum::new(100, true).update_meta(&mut schema);
        vec![MetaAPI {
            paths: vec![MetaPath {
                path: String::from("/abc"),
                operations: vec![MetaOperation {
                    method: HttpMethod::Get,
                    tags: vec![],
                    summary: None,
                    description: None,
                    params: vec![MetaOperationParam {
                        name: String::from("v"),
                        schema: MetaSchemaRef::Inline(schema),
                        in_type: MetaParamIn::Query,
                        description: None,
                        required: true,
                        deprecated: false,
                    }],
                    request: None,
                    responses: MetaResponses {
                        responses: vec![MetaResponse {
                            description: None,
                            status: Some(200),
                            content: vec![],
                        }],
                    },
                    deprecated: false,
                }],
            }],
        }]
    }

    fn register(registry: &mut Registry) {
        registry.create_schema("Pet", &PetBuilder);
    }
}

#[test]
fn document_shape() {
    let service = OpenApiService::new(PetApi)
        .title(String::from("Demo"))
        .version(String::from("1.0"))
        .server(String::from("https://example.com"));
    let doc = service.document();
    let text = render_json(&doc);
    let parsed: serde_json::Value = serde_json::from_str(&text).unwrap();

    assert_eq!(parsed["openapi"], serde_json::Value::String(String::from("3.0.0")));
    assert_eq!(parsed["info"]["title"], serde_json::Value::String(String::from("Demo")));
    assert_eq!(parsed["info"]["version"], serde_json::Value::String(String::from("1.0")));
    assert!(parsed["info"]["description"].is_null());
    assert_eq!(
        parsed["servers"][0]["url"],
        serde_json::Value::String(String::from("https://example.com"))
    );

    let op = &parsed["paths"]["/abc"]["get"];
    assert_eq!(op["parameters"][0]["name"], serde_json::Value::String(String::from("v")));
    assert_eq!(op["parameters"][0]["in"], serde_json::Value::String(String::from("query")));
    assert_eq!(op["parameters"][0]["schema"]["type"], "integer");
    assert_eq!(op["parameters"][0]["schema"]["format"], "int32");
    assert_eq!(op["parameters"][0]["schema"]["maximum"], 100);
    assert_eq!(op["parameters"][0]["schema"]["exclusiveMaximum"], true);
    assert!(op["responses"]["200"].is_object());

    let pet = &parsed["components"]["schemas"]["Pet"];
    assert_eq!(pet["type"], "object");
    assert_eq!(pet["required"][0], "id");
    assert_eq!(pet["properties"]["id"]["type"], "integer");
    assert_eq!(pet["properties"]["id"]["format"], "int64");
}

#[test]
fn schema_reference_renders_as_pointer() {
    let reference = MetaSchemaRef::Reference(String::from("Pet"));
    let v = openapi_core::openapi::schema_ref_value(&reference);
    let text = render_json(&v);
    let parsed: serde_json::Value = serde_json::from_str(&text).unwrap();
    assert_eq!(
        parsed["$ref"],
        serde_json::Value::String(String::from("#/components/schemas/Pet"))
    );
}

#[test]
fn decimal_rendering() {
    assert_eq!(u64_to_dec(0), "0");
    assert_eq!(u64_to_dec(10), "10");
    assert_eq!(u64_to_dec(18446744073709551615), "18446744073709551615");
    assert_eq!(i64_to_dec(-1), "-1");
    assert_eq!(i64_to_dec(-9223372036854775808), "-9223372036854775808");
    assert_eq!(i64_to_dec(42), "42");
    assert_eq!(usize_to_dec(500), "500");
}

#[test]
fn path_template_translation() {
    assert_eq!(openapi_core::openapi::template_path("/abc"), "/abc");
    assert_eq!(openapi_core::openapi::template_path("/k/:v"), "/k/{v}");
    assert_eq!(openapi_core::openapi::template_path(":id"), "{id}");
    assert_eq!(openapi_core::openapi::template_path("/a/:x/b/:y"), "/a/{x}/b/{y}");
    assert_eq!(openapi_core::openapi::template_path("/time/12:30"), "/time/12:30");
}

#[test]
fn type_name_display() {
    assert_eq!(TypeName::plain("string").display(), "string");
    assert_eq!(TypeName::formatted("integer", "int32").display(), "integer($int32)");
    let nested = TypeName::Array(Box::new(TypeName::Array(Box::new(TypeName::formatted(
        "integer", "uint8",
    )))));
    assert_eq!(nested.display(), "[[integer($uint8)]]");
}
