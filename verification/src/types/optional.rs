//! The optional wrapper: absent input and `Null` both parse to "no value"
//! without error, and the wrapped type is never required.

use vstd::prelude::*;
use crate::registry::{MetaSchemaRef, Registry};
use crate::types::{ParseError, Type, TypeName, TypeNameModel, spec_propagate, display_of};
use crate::value::{JsonValue, ValueModel};

verus! {

impl<T: Type> Type for Option<T> {
    open spec fn spec_name() -> TypeNameModel {
        T::spec_name()
    }

    open spec fn spec_required() -> bool {
        false
    }

    open spec fn wire(&self) -> ValueModel {
        match self {
            Some(t) => t.wire(),
            None => ValueModel::Null,
        }
    }

    open spec fn spec_parse(v: Option<ValueModel>) -> Result<Option<T::V>, Seq<char>> {
        match v {
            None => Ok(None),
            Some(m) => if m == ValueModel::Null {
                Ok(None)
            } else {
                match T::spec_parse(Some(m)) {
                    Ok(x) => Ok(Some(x)),
                    Err(e) => Err(
                        spec_propagate(
                            e,
                            display_of(T::spec_name()),
                            display_of(Self::spec_name()),
                        ),
                    ),
                }
            },
        }
    }

    open spec fn spec_parse_str(s: Option<Seq<char>>) -> Result<Option<T::V>, Seq<char>> {
        match s {
            None => Ok(None),
            Some(t) => match T::spec_parse_str(Some(t)) {
                Ok(x) => Ok(Some(x)),
                Err(e) => Err(
                    spec_propagate(e, display_of(T::spec_name()), display_of(Self::spec_name())),
                ),
            },
        }
    }

    open spec fn schema_ok(r: MetaSchemaRef) -> bool {
        T::schema_ok(r)
    }

    open spec fn wire_nonnull() -> bool {
        false
    }

    open spec fn roundtrips() -> bool {
        T::roundtrips() && T::wire_nonnull()
    }

    fn name() -> (r: TypeName) {
        T::name()
    }

    fn is_required() -> (r: bool) {
        false
    }

    fn schema_ref() -> (r: MetaSchemaRef) {
        T::schema_ref()
    }

    fn register(registry: &mut Registry) {
        T::register(registry);
    }

    fn parse(value: Option<JsonValue>) -> (r: Result<Option<T>, ParseError>) {
        match value {
            None => Ok(None),
            Some(v) => match &v {
                JsonValue::Null => Ok(None),
                _ => match T::parse(Some(v)) {
                    Ok(x) => Ok(Some(x)),
                    Err(e) => {
                        let name = <Option<T> as Type>::name();
                        Err(e.propagate(&name))
                    },
                },
            },
        }
    }

    fn parse_from_str(value: Option<&str>) -> (r: Result<Option<T>, ParseError>) {
        match value {
            None => Ok(None),
            Some(v) => match T::parse_from_str(Some(v)) {
                Ok(x) => Ok(Some(x)),
                Err(e) => {
                    let name = <Option<T> as Type>::name();
                    Err(e.propagate(&name))
                },
            },
        }
    }

    fn to_value(&self) -> (r: JsonValue) {
        match self {
            Some(t) => t.to_value(),
            None => JsonValue::Null,
        }
    }

    proof fn lemma_wire_nonnull(x: Option<T>) {
    }

    proof fn lemma_wire_roundtrip(x: Option<T>) {
        match x {
            Some(t) => {
                T::lemma_wire_nonnull(t);
                T::lemma_wire_roundtrip(t);
            },
            None => {
            },
        }
    }
}

/// The optional wrapper never requires input, and an absent or `Null`
/// input always parses to "no value" without error, whatever the inner
/// type would have demanded.
pub proof fn lemma_optional_absent<T: Type>()
    ensures
        !<Option<T> as Type>::spec_required(),
        <Option<T> as Type>::spec_parse(None) == Ok::<Option<T::V>, Seq<char>>(None),
        <Option<T> as Type>::spec_parse(Some(ValueModel::Null)) == Ok::<Option<T::V>, Seq<char>>(
            None,
        ),
        <Option<T> as Type>::spec_parse_str(None) == Ok::<Option<T::V>, Seq<char>>(None),
{
}

} // verus!
