//! Binary data carried on the wire as base64 text.

use vstd::prelude::*;
use crate::codec::{base64_bytes_of, base64_decode, base64_encode, base64_text_of};
use crate::registry::{MetaSchemaRef, Registry};
use crate::types::{
    ParseError, Type, TypeName, TypeNameModel, inline_normal_schema, msg_custom,
    msg_expected_input, msg_expected_type, display_of, schema_ref_for,
};
use crate::value::{JsonValue, ValueModel};

verus! {

/// Binary data encoded with base64: wire type `string`, format `byte`.
#[derive(Debug, Clone, PartialEq, Eq)]
pub struct Base64(pub Vec<u8>);

impl DeepView for Base64 {
    type V = Seq<u8>;

    open spec fn deep_view(&self) -> Seq<u8> {
        self.0@
    }
}

impl Type for Base64 {
    open spec fn spec_name() -> TypeNameModel {
        TypeNameModel::Normal { ty: "string"@, format: Some("byte"@) }
    }

    open spec fn spec_required() -> bool {
        true
    }

    open spec fn wire(&self) -> ValueModel {
        ValueModel::Str(base64_text_of(self.0@))
    }

    open spec fn spec_parse(v: Option<ValueModel>) -> Result<Seq<u8>, Seq<char>> {
        match v {
            None => Err(msg_expected_input(display_of(Self::spec_name()))),
            Some(m) => match m {
                ValueModel::Str(s) => match base64_bytes_of(s) {
                    Some(b) => Ok(b),
                    None => Err(msg_custom(display_of(Self::spec_name()), "invalid base64"@)),
                },
                _ => Err(msg_expected_type(display_of(Self::spec_name()), m)),
            },
        }
    }

    open spec fn spec_parse_str(s: Option<Seq<char>>) -> Result<Seq<u8>, Seq<char>> {
        match s {
            None => Err(msg_expected_input(display_of(Self::spec_name()))),
            Some(t) => match base64_bytes_of(t) {
                Some(b) => Ok(b),
                None => Err(msg_custom(display_of(Self::spec_name()), "invalid base64"@)),
            },
        }
    }

    open spec fn schema_ok(r: MetaSchemaRef) -> bool {
        inline_normal_schema(r, "string"@, Some("byte"@))
    }

    open spec fn wire_nonnull() -> bool {
        true
    }

    /// The round-trip law is not provable statically for base64: that its
    /// decoder inverts its encoder is learnt from the codec's contract only
    /// where the codec is called.
    open spec fn roundtrips() -> bool {
        false
    }

    fn name() -> (r: TypeName) {
        TypeName::formatted("string", "byte")
    }

    fn is_required() -> (r: bool) {
        true
    }

    fn schema_ref() -> (r: MetaSchemaRef) {
        let name = <Base64 as Type>::name();
        schema_ref_for(&name)
    }

    fn register(registry: &mut Registry) {
    }

    fn parse(value: Option<JsonValue>) -> (r: Result<Base64, ParseError>) {
        let name = <Base64 as Type>::name();
        match value {
            None => Err(ParseError::expected_input(&name)),
            Some(v) => match &v {
                JsonValue::Str(s) => match base64_decode(s.as_str()) {
                    Some(b) => Ok(Base64(b)),
                    None => Err(ParseError::custom(&name, "invalid base64")),
                },
                _ => Err(ParseError::expected_type(&name, &v)),
            },
        }
    }

    fn parse_from_str(value: Option<&str>) -> (r: Result<Base64, ParseError>) {
        let name = <Base64 as Type>::name();
        match value {
            None => Err(ParseError::expected_input(&name)),
            Some(v) => match base64_decode(v) {
                Some(b) => Ok(Base64(b)),
                None => Err(ParseError::custom(&name, "invalid base64")),
            },
        }
    }

    fn to_value(&self) -> (r: JsonValue) {
        JsonValue::Str(base64_encode(&self.0))
    }

    proof fn lemma_wire_nonnull(x: Base64) {
    }

    proof fn lemma_wire_roundtrip(x: Base64) {
    }
}

} // verus!
