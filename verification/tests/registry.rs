use openapi_core::registry::{
    MetaProperty, MetaSchema, MetaSchemaRef, Registry, SchemaBuilder,
};
use openapi_core::types::Type;

struct BBuilder;

impl SchemaBuilder for BBuilder {
    // Specification-only item, erased at run time and never called.
    fn spec_build(&self, _schemas: vstd::prelude::Seq<(String, MetaSchema)>) -> MetaSchema {
        unreachable!()
    }

    fn build(&self, _registry: &mut Registry) -> MetaSchema {
        let mut s = MetaSchema::new(String::from("object"));
        s.properties.push(MetaProperty {
            name: String::from("c"),
            schema: <i64 as Type>::schema_ref(),
        });
        s
    }
}

struct ABuilder;

impl SchemaBuilder for ABuilder {
    // Specification-only item, erased at run time and never called.
    fn spec_build(&self, _schemas: vstd::prelude::Seq<(String, MetaSchema)>) -> MetaSchema {
        unreachable!()
    }

    fn build(&self, registry: &mut Registry) -> MetaSchema {
        registry.create_schema("B", &BBuilder);
        let mut s = MetaSchema::new(String::from("object"));
        s.properties.push(MetaProperty {
            name: String::from("a"),
            schema: <i32 as Type>::schema_ref(),
        });
        s.properties.push(MetaProperty {
            name: String::from("b"),
            schema: MetaSchemaRef::Reference(String::from("B")),
        });
        s
    }
}

#[test]
fn register() {
    let mut registry = Registry::new();
    registry.create_schema("A", &ABuilder);

    let meta_a = registry.lookup("A").unwrap();
    assert_eq!(meta_a.properties[0].name, "a");
    match &meta_a.properties[0].schema {
        MetaSchemaRef::Inline(s) => {
            assert_eq!(s.ty, "integer");
            assert_eq!(s.format, Some(String::from("int32")));
        },
        MetaSchemaRef::Reference(_) => panic!(),
    }
    assert_eq!(meta_a.properties[1].name, "b");
    assert_eq!(
        meta_a.properties[1].schema,
        MetaSchemaRef::Reference(String::from("B"))
    );

    let meta_b = registry.lookup("B").unwrap();
    assert_eq!(meta_b.properties[0].name, "c");
    match &meta_b.properties[0].schema {
        MetaSchemaRef::Inline(s) => {
            assert_eq!(s.ty, "integer");
            assert_eq!(s.format, Some(String::from("int64")));
        },
        MetaSchemaRef::Reference(_) => panic!(),
    }
}

struct FirstBuilder;

impl SchemaBuilder for FirstBuilder {
    // Specification-only item, erased at run time and never called.
    fn spec_build(&self, _schemas: vstd::prelude::Seq<(String, MetaSchema)>) -> MetaSchema {
        unreachable!()
    }

    fn build(&self, _registry: &mut Registry) -> MetaSchema {
        MetaSchema::new(String::from("string"))
    }
}

struct SecondBuilder;

impl SchemaBuilder for SecondBuilder {
    // Specification-only item, erased at run time and never called.
    fn spec_build(&self, _schemas: vstd::prelude::Seq<(String, MetaSchema)>) -> MetaSchema {
        unreachable!()
    }

    fn build(&self, _registry: &mut Registry) -> MetaSchema {
        MetaSchema::new(String::from("integer"))
    }
}

#[test]
fn create_schema_is_idempotent() {
    let mut registry = Registry::new();
    registry.create_schema("X", &FirstBuilder);
    assert_eq!(registry.lookup("X").unwrap().ty, "string");
    // A second creation under the same name does not rebuild or change the
    // stored definition, even with a different builder.
    registry.create_schema("X", &SecondBuilder);
    assert_eq!(registry.lookup("X").unwrap().ty, "string");
    assert_eq!(registry.schemas.len(), 1);
}

struct TreeBuilder;

impl SchemaBuilder for TreeBuilder {
    // Specification-only item, erased at run time and never called.
    fn spec_build(&self, _schemas: vstd::prelude::Seq<(String, MetaSchema)>) -> MetaSchema {
        unreachable!()
    }

    fn build(&self, registry: &mut Registry) -> MetaSchema {
        // A node's children are nodes: the nested reference finds the
        // placeholder already present and stops instead of recursing.
        registry.create_schema("TreeNode", &TreeBuilder);
        let mut s = MetaSchema::new(String::from("object"));
        s.properties.push(MetaProperty {
            name: String::from("children"),
            schema: MetaSchemaRef::Reference(String::from("TreeNode")),
        });
        s
    }
}

#[test]
fn self_referential_schema_terminates() {
    let mut registry = Registry::new();
    registry.create_schema("TreeNode", &TreeBuilder);
    let node = registry.lookup("TreeNode").unwrap();
    assert_eq!(node.ty, "object");
    assert_eq!(
        node.properties[0].schema,
        MetaSchemaRef::Reference(String::from("TreeNode"))
    );
    assert_eq!(registry.schemas.len(), 1);
}

#[test]
fn registration_is_first_reference_order() {
    let mut registry = Registry::new();
    registry.create_schema("A", &ABuilder);
    registry.create_schema("B", &BBuilder);
    // "A" was referenced first, then its nested "B"; the later explicit
    // registration of "B" changed nothing.
    assert_eq!(registry.schemas[0].0, "A");
    assert_eq!(registry.schemas[1].0, "B");
    assert_eq!(registry.schemas.len(), 2);
}
