//! The type contract: the capability every bindable value type implements —
//! parse from a wire value, parse from a parameter string, serialize back,
//! describe itself, and register its schema.

pub mod binary;
pub mod enumeration;
pub mod error;
pub mod integers;
pub mod optional;
pub mod password;
pub mod sequence;
pub mod text;

use vstd::prelude::*;
use crate::registry::{MetaSchema, MetaSchemaRef, Registry, registry_extends};
use crate::value::{JsonValue, ValueModel};

verus! {

use vstd::string::StringExecFns;
pub use error::ParseError;

/// The mathematical form of a type name.
pub ghost enum TypeNameModel {
    Normal { ty: Seq<char>, format: Option<Seq<char>> },
    Array(Box<TypeNameModel>),
}

/// Represents a type name: a primitive kind with an optional format, or an
/// array of another type name.
#[derive(Debug, PartialEq)]
pub enum TypeName {
    Normal { ty: String, format: Option<String> },
    Array(Box<TypeName>),
}

impl TypeName {
    /// The mathematical form of this name.
    pub open spec fn model(self) -> TypeNameModel
        decreases self,
    {
        match self {
            TypeName::Normal { ty, format } => TypeNameModel::Normal {
                ty: ty@,
                format: match format {
                    Some(f) => Some(f@),
                    None => None,
                },
            },
            TypeName::Array(t) => TypeNameModel::Array(Box::new((*t).model())),
        }
    }
}

impl View for TypeName {
    type V = TypeNameModel;

    open spec fn view(&self) -> TypeNameModel {
        self.model()
    }
}

/// The rendering of a type name: `ty`, `ty($format)`, or `[inner]`.
pub open spec fn display_of(n: TypeNameModel) -> Seq<char>
    decreases n,
{
    match n {
        TypeNameModel::Normal { ty, format } => match format {
            Some(f) => ty + "($"@ + f + ")"@,
            None => ty,
        },
        TypeNameModel::Array(t) => "["@ + display_of(*t) + "]"@,
    }
}

impl TypeName {
    /// Render this name as text.
    pub fn display(&self) -> (r: String)
        ensures
            r@ == display_of(self@),
        decreases *self,
    {
        match self {
            TypeName::Normal { ty, format } => match format {
                Some(f) => {
                    let mut s = ty.clone();
                    s.append("($");
                    s.append(f.as_str());
                    s.append(")");
                    proof {
                        assert(s@ =~= display_of(self@));
                    }
                    s
                },
                None => ty.clone(),
            },
            TypeName::Array(inner) => {
                let mut s = String::from_str("[");
                let shown = inner.display();
                s.append(shown.as_str());
                s.append("]");
                proof {
                    assert(s@ =~= display_of(self@));
                }
                s
            },
        }
    }

    /// A primitive name without a format.
    pub fn plain(ty: &str) -> (r: TypeName)
        ensures
            r@ == (TypeNameModel::Normal { ty: ty@, format: None }),
    {
        TypeName::Normal { ty: String::from_str(ty), format: None }
    }

    /// A primitive name with a format.
    pub fn formatted(ty: &str, format: &str) -> (r: TypeName)
        ensures
            r@ == (TypeNameModel::Normal { ty: ty@, format: Some(format@) }),
    {
        TypeName::Normal { ty: String::from_str(ty), format: Some(String::from_str(format)) }
    }
}

/// The message of an "expected type" failure.
pub open spec fn msg_expected_type(name: Seq<char>, found: ValueModel) -> Seq<char> {
    "Expected input type \""@ + name + "\", found "@ + crate::codec::json_text_of(found) + "."@
}

/// The message of a missing required input.
pub open spec fn msg_expected_input(name: Seq<char>) -> Seq<char> {
    "Type \""@ + name + "\" expects an input value."@
}

/// The message wrapped around any custom failure reason.
pub open spec fn msg_custom(name: Seq<char>, reason: Seq<char>) -> Seq<char> {
    "failed to parse \""@ + name + "\": "@ + reason
}

/// The occurrence context added when an error is propagated to a type
/// with a different name.
pub open spec fn msg_propagated(message: Seq<char>, target: Seq<char>) -> Seq<char> {
    message + " (occurred while parsing \""@ + target + "\")"@
}

/// What propagation does: rewrap only when the names differ.
pub open spec fn spec_propagate(message: Seq<char>, name: Seq<char>, target: Seq<char>) -> Seq<
    char,
> {
    if name != target {
        msg_propagated(message, target)
    } else {
        message
    }
}

/// The inline schema of a primitive: the name's kind and format, nothing else.
pub open spec fn inline_normal_schema(
    r: MetaSchemaRef,
    ty: Seq<char>,
    format: Option<Seq<char>>,
) -> bool {
    &&& r matches MetaSchemaRef::Inline(s)
    &&& s.ty@ == ty
    &&& match (s.format, format) {
        (Some(a), Some(b)) => a@ == b,
        (None, None) => true,
        _ => false,
    }
    &&& s.no_constraints()
    &&& s.items is None
}

/// The inline schema for a primitive type name.
pub fn schema_ref_for(name: &TypeName) -> (r: MetaSchemaRef)
    requires
        name is Normal,
    ensures
        match name@ {
            TypeNameModel::Normal { ty, format } => inline_normal_schema(r, ty, format),
            TypeNameModel::Array(_) => false,
        },
{
    match name {
        TypeName::Normal { ty, format } => {
            let mut s = MetaSchema::new(ty.clone());
            s.format = match format {
                Some(f) => Some(f.clone()),
                None => None,
            };
            MetaSchemaRef::Inline(s)
        },
        TypeName::Array(_) => unreached(),
    }
}

/// How an executable parse result must line up with its specification:
/// success for success with the same abstract value, failure for failure
/// with the same message.
pub open spec fn outcome_ok<T: DeepView>(
    r: Result<T, ParseError>,
    s: Result<T::V, Seq<char>>,
    name: Seq<char>,
) -> bool {
    match r {
        Ok(x) => s == Ok::<T::V, Seq<char>>(x.deep_view()),
        Err(e) => s == Err::<T::V, Seq<char>>(e.message@) && e.ty_name@ == name,
    }
}

/// The model of an optional wire value.
pub open spec fn opt_model(v: Option<JsonValue>) -> Option<ValueModel> {
    match v {
        Some(x) => Some(x@),
        None => None,
    }
}

/// The model of an optional parameter string.
pub open spec fn opt_str_model(v: Option<&str>) -> Option<Seq<char>> {
    match v {
        Some(s) => Some(s@),
        None => None,
    }
}

/// Represents a bindable value type.
///
/// `spec_parse` and `spec_parse_str` pin, for every input, either the
/// abstract value returned or the exact failure message; the executable
/// `parse` and `parse_from_str` must agree with them.
pub trait Type: DeepView + Sized {
    /// The name of this type.
    spec fn spec_name() -> TypeNameModel;

    /// Whether a value of this type must be present.
    spec fn spec_required() -> bool;

    /// The wire form of a value.
    spec fn wire(&self) -> ValueModel;

    /// What parsing an optional wire value returns.
    spec fn spec_parse(v: Option<ValueModel>) -> Result<Self::V, Seq<char>>;

    /// What parsing an optional parameter string returns.
    spec fn spec_parse_str(s: Option<Seq<char>>) -> Result<Self::V, Seq<char>>;

    /// What the schema reference of this type looks like.
    spec fn schema_ok(r: MetaSchemaRef) -> bool;

    /// Whether no value of this type serializes to `Null`.
    spec fn wire_nonnull() -> bool;

    /// Whether parsing recovers every serialized value (the round-trip law
    /// holds for this type).
    spec fn roundtrips() -> bool;

    /// The name of this type.
    fn name() -> (r: TypeName)
        ensures
            r@ == Self::spec_name(),
    ;

    /// Whether a value of this type must be present.
    fn is_required() -> (r: bool)
        ensures
            r == Self::spec_required(),
    ;

    /// The schema reference of this type.
    fn schema_ref() -> (r: MetaSchemaRef)
        ensures
            Self::schema_ok(r),
    ;

    /// Register the schemas this type needs into the registry.  Existing
    /// entries are kept untouched.
    fn register(registry: &mut Registry)
        ensures
            registry_extends(*old(registry), *final(registry)),
    ;

    /// Parse a value from an optional wire value.
    fn parse(value: Option<JsonValue>) -> (r: Result<Self, ParseError>)
        ensures
            outcome_ok(r, Self::spec_parse(opt_model(value)), display_of(Self::spec_name())),
    ;

    /// Parse a value from an optional parameter string.
    fn parse_from_str(value: Option<&str>) -> (r: Result<Self, ParseError>)
        ensures
            outcome_ok(
                r,
                Self::spec_parse_str(opt_str_model(value)),
                display_of(Self::spec_name()),
            ),
    ;

    /// Serialize a value to its wire form; total, never fails.
    fn to_value(&self) -> (r: JsonValue)
        ensures
            r@ == self.wire(),
            r.wf(),
    ;

    /// No value of this type serializes to `Null`.
    proof fn lemma_wire_nonnull(x: Self)
        requires
            Self::wire_nonnull(),
        ensures
            x.wire() != ValueModel::Null,
    ;

    /// The round-trip law: parsing a serialized value gives it back.
    proof fn lemma_wire_roundtrip(x: Self)
        requires
            Self::roundtrips(),
        ensures
            Self::spec_parse(Some(x.wire())) == Ok::<Self::V, Seq<char>>(x.deep_view()),
    ;
}

} // verus!
