//! The string type.

use vstd::prelude::*;
use crate::registry::{MetaSchemaRef, Registry};
use crate::types::{
    ParseError, Type, TypeName, TypeNameModel, inline_normal_schema, msg_expected_input,
    msg_expected_type, display_of, schema_ref_for,
};
use crate::value::{JsonValue, ValueModel};

verus! {

use vstd::string::StringExecFns;

impl Type for String {
    open spec fn spec_name() -> TypeNameModel {
        TypeNameModel::Normal { ty: "string"@, format: None }
    }

    open spec fn spec_required() -> bool {
        true
    }

    open spec fn wire(&self) -> ValueModel {
        ValueModel::Str(self@)
    }

    open spec fn spec_parse(v: Option<ValueModel>) -> Result<Seq<char>, Seq<char>> {
        match v {
            None => Err(msg_expected_input(display_of(Self::spec_name()))),
            Some(m) => match m {
                ValueModel::Str(s) => Ok(s),
                _ => Err(msg_expected_type(display_of(Self::spec_name()), m)),
            },
        }
    }

    open spec fn spec_parse_str(s: Option<Seq<char>>) -> Result<Seq<char>, Seq<char>> {
        match s {
            None => Err(msg_expected_input(display_of(Self::spec_name()))),
            Some(t) => Ok(t),
        }
    }

    open spec fn schema_ok(r: MetaSchemaRef) -> bool {
        inline_normal_schema(r, "string"@, None)
    }

    open spec fn wire_nonnull() -> bool {
        true
    }

    open spec fn roundtrips() -> bool {
        true
    }

    fn name() -> (r: TypeName) {
        TypeName::plain("string")
    }

    fn is_required() -> (r: bool) {
        true
    }

    fn schema_ref() -> (r: MetaSchemaRef) {
        let name = <String as Type>::name();
        schema_ref_for(&name)
    }

    fn register(registry: &mut Registry) {
    }

    fn parse(value: Option<JsonValue>) -> (r: Result<String, ParseError>) {
        let name = <String as Type>::name();
        match value {
            None => Err(ParseError::expected_input(&name)),
            Some(v) => match v {
                JsonValue::Str(s) => Ok(s),
                _ => Err(ParseError::expected_type(&name, &v)),
            },
        }
    }

    fn parse_from_str(value: Option<&str>) -> (r: Result<String, ParseError>) {
        let name = <String as Type>::name();
        match value {
            None => Err(ParseError::expected_input(&name)),
            Some(v) => Ok(String::from_str(v)),
        }
    }

    fn to_value(&self) -> (r: JsonValue) {
        JsonValue::Str(self.clone())
    }

    proof fn lemma_wire_nonnull(x: String) {
    }

    proof fn lemma_wire_roundtrip(x: String) {
    }
}

} // verus!
