//! The password type: a string whose schema format marks it as a secret.
//! It gives the data no special protection in memory.

use vstd::prelude::*;
use crate::registry::{MetaSchemaRef, Registry};
use crate::types::{
    ParseError, Type, TypeName, TypeNameModel, inline_normal_schema, msg_expected_input,
    msg_expected_type, display_of, schema_ref_for,
};
use crate::value::{JsonValue, ValueModel};

verus! {

use vstd::string::StringExecFns;

/// A password: wire type `string`, format `password`.
#[derive(Debug, Clone, PartialEq, Eq, Hash)]
pub struct Password(pub String);

impl DeepView for Password {
    type V = Seq<char>;

    open spec fn deep_view(&self) -> Seq<char> {
        self.0@
    }
}

impl Password {
    /// The characters of the password.
    pub fn as_str(&self) -> (r: &str)
        ensures
            r@ == self.0@,
    {
        self.0.as_str()
    }
}

impl Type for Password {
    open spec fn spec_name() -> TypeNameModel {
        TypeNameModel::Normal { ty: "string"@, format: Some("password"@) }
    }

    open spec fn spec_required() -> bool {
        true
    }

    open spec fn wire(&self) -> ValueModel {
        ValueModel::Str(self.0@)
    }

    open spec fn spec_parse(v: Option<ValueModel>) -> Result<Seq<char>, Seq<char>> {
        match v {
            None => Err(msg_expected_input(display_of(Self::spec_name()))),
            Some(m) => match m {
                ValueModel::Str(s) => Ok(s),
                _ => Err(msg_expected_type(display_of(Self::spec_name()), m)),
            },
        }
    }

    open spec fn spec_parse_str(s: Option<Seq<char>>) -> Result<Seq<char>, Seq<char>> {
        match s {
            None => Err(msg_expected_input(display_of(Self::spec_name()))),
            Some(t) => Ok(t),
        }
    }

    open spec fn schema_ok(r: MetaSchemaRef) -> bool {
        inline_normal_schema(r, "string"@, Some("password"@))
    }

    open spec fn wire_nonnull() -> bool {
        true
    }

    open spec fn roundtrips() -> bool {
        true
    }

    fn name() -> (r: TypeName) {
        TypeName::formatted("string", "password")
    }

    fn is_required() -> (r: bool) {
        true
    }

    fn schema_ref() -> (r: MetaSchemaRef) {
        let name = <Password as Type>::name();
        schema_ref_for(&name)
    }

    fn register(registry: &mut Registry) {
    }

    fn parse(value: Option<JsonValue>) -> (r: Result<Password, ParseError>) {
        let name = <Password as Type>::name();
        match value {
            None => Err(ParseError::expected_input(&name)),
            Some(v) => match v {
                JsonValue::Str(s) => Ok(Password(s)),
                _ => Err(ParseError::expected_type(&name, &v)),
            },
        }
    }

    fn parse_from_str(value: Option<&str>) -> (r: Result<Password, ParseError>) {
        let name = <Password as Type>::name();
        match value {
            None => Err(ParseError::expected_input(&name)),
            Some(v) => Ok(Password(String::from_str(v))),
        }
    }

    fn to_value(&self) -> (r: JsonValue) {
        JsonValue::Str(self.0.clone())
    }

    proof fn lemma_wire_nonnull(x: Password) {
    }

    proof fn lemma_wire_roundtrip(x: Password) {
    }
}

} // verus!
