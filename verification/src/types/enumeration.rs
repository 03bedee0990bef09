//! Enumerations: a bijection between variant indices and wire-level string
//! tokens.  Serialization is a table lookup and always succeeds; parsing an
//! unknown token fails with one fixed message, independent of the type's
//! name.

use vstd::prelude::*;
use crate::registry::{MetaSchema, MetaSchemaRef};
use crate::types::{ParseError, TypeName, display_of, msg_expected_input};
use crate::value::{JsonValue, ValueModel};

verus! {

use crate::codec::str_eq;
use vstd::string::StringExecFns;

/// The fixed message for an unknown enumeration token.
pub open spec fn msg_invalid_enum_token() -> Seq<char> {
    "expected a valid enumeration value"@
}

/// The first token equal to `s`, if any.
pub open spec fn spec_token_index(tokens: Seq<String>, s: Seq<char>) -> Option<int>
    decreases tokens.len(),
{
    if tokens.len() == 0 {
        None
    } else if tokens[0]@ == s {
        Some(0int)
    } else {
        match spec_token_index(tokens.drop_first(), s) {
            Some(i) => Some(i + 1),
            None => None,
        }
    }
}

/// A found token index lies within the table.
pub proof fn lemma_token_index_bounds(tokens: Seq<String>, s: Seq<char>)
    ensures
        match spec_token_index(tokens, s) {
            Some(i) => 0 <= i < tokens.len() && tokens[i]@ == s,
            None => forall|i: int| 0 <= i < tokens.len() ==> (#[trigger] tokens[i]@) != s,
        },
    decreases tokens.len(),
{
    if tokens.len() > 0 && !(tokens[0]@ == s) {
        lemma_token_index_bounds(tokens.drop_first(), s);
        match spec_token_index(tokens.drop_first(), s) {
            Some(i) => {
                assert(tokens.drop_first()[i] == tokens[i + 1]);
            },
            None => {
                assert forall|i: int| 0 <= i < tokens.len() implies (#[trigger] tokens[i]@)
                    != s by {
                    if i > 0 {
                        assert(tokens.drop_first()[i - 1] == tokens[i]);
                    }
                }
            },
        }
    }
}

/// What parsing a wire value against a token table returns: the index of
/// the matching token, or the exact failure message.
pub open spec fn spec_parse_enum(
    tokens: Seq<String>,
    name: crate::types::TypeNameModel,
    v: Option<ValueModel>,
) -> Result<int, Seq<char>> {
    match v {
        None => Err(msg_expected_input(display_of(name))),
        Some(m) => match m {
            ValueModel::Str(s) => match spec_token_index(tokens, s) {
                Some(i) => Ok(i),
                None => Err(msg_invalid_enum_token()),
            },
            _ => Err(msg_invalid_enum_token()),
        },
    }
}

/// The token table of one enumeration: its schema name and, for each
/// variant in declaration order, its wire token.
#[derive(Debug, PartialEq)]
pub struct EnumTokens {
    pub name: TypeName,
    pub tokens: Vec<String>,
}

impl EnumTokens {
    /// No two variants map to the same token.
    pub open spec fn wf(self) -> bool {
        forall|m: int, n: int|
            0 <= m < n < self.tokens@.len() ==> (#[trigger] self.tokens@[m]@) != (
            #[trigger] self.tokens@[n]@)
    }

    /// Build a token table; a table with a duplicated token is rejected
    /// here, at schema-build time, never at runtime.
    pub fn new(name: TypeName, tokens: Vec<String>) -> (r: Option<EnumTokens>)
        ensures
            match r {
                Some(e) => e.name == name && e.tokens == tokens && e.wf(),
                None => !(EnumTokens { name, tokens }).wf(),
            },
    {
        let mut i: usize = 0;
        while i < tokens.len()
            invariant
                i <= tokens@.len(),
                forall|m: int, n: int|
                    0 <= m < n < tokens@.len() && m < i ==> (#[trigger] tokens@[m]@) != (
                    #[trigger] tokens@[n]@),
            decreases tokens@.len() - i,
        {
            let mut j: usize = i + 1;
            while j < tokens.len()
                invariant
                    i < j <= tokens@.len(),
                    i < tokens@.len(),
                    forall|m: int, n: int|
                        0 <= m < n < tokens@.len() && m < i ==> (#[trigger] tokens@[m]@) != (
                        #[trigger] tokens@[n]@),
                    forall|n: int| i < n < j ==> (#[trigger] tokens@[n]@) != tokens@[i as int]@,
                decreases tokens@.len() - j,
            {
                if str_eq(tokens[i].as_str(), tokens[j].as_str()) {
                    proof {
                        assert(tokens@[i as int]@ == tokens@[j as int]@);
                        let t = EnumTokens { name, tokens };
                        if t.wf() {
                            assert(t.tokens@[i as int]@ != t.tokens@[j as int]@);
                        }
                        assert(!t.wf());
                    }
                    return None;
                }
                j = j + 1;
            }
            i = i + 1;
        }
        Some(EnumTokens { name, tokens })
    }

    /// The inline schema of this enumeration: wire type `string` with the
    /// token list as its admissible values.
    pub fn schema_ref(&self) -> (r: MetaSchemaRef)
        ensures
            r matches MetaSchemaRef::Inline(s) && s.ty@ == "string"@ && s.format is None
                && s.items is None && s.enum_items@.len() == self.tokens@.len() && (forall|i: int|
                0 <= i < self.tokens@.len() ==> (#[trigger] s.enum_items@[i]@)
                    == self.tokens@[i]@) && s.title is None && s.description is None
                && s.default is None && s.required@.len() == 0 && s.properties@.len() == 0
                && s.deprecated == false,
    {
        let mut s = MetaSchema::new(String::from_str("string"));
        let mut items: Vec<String> = Vec::new();
        let mut i: usize = 0;
        while i < self.tokens.len()
            invariant
                i <= self.tokens@.len(),
                items@.len() == i,
                forall|j: int| 0 <= j < i ==> (#[trigger] items@[j]@) == self.tokens@[j]@,
            decreases self.tokens@.len() - i,
        {
            items.push(self.tokens[i].clone());
            i = i + 1;
        }
        s.enum_items = items;
        MetaSchemaRef::Inline(s)
    }

    /// Parse a wire value to a variant index: the first matching token
    /// wins; an unknown token fails with one fixed message.
    pub fn parse(&self, value: Option<JsonValue>) -> (r: Result<usize, ParseError>)
        ensures
            match r {
                Ok(i) => spec_parse_enum(self.tokens@, self.name@, crate::types::opt_model(value))
                    == Ok::<int, Seq<char>>(i as int),
                Err(e) => spec_parse_enum(
                    self.tokens@,
                    self.name@,
                    crate::types::opt_model(value),
                ) == Err::<int, Seq<char>>(e.message@),
            },
    {
        match value {
            None => Err(ParseError::expected_input(&self.name)),
            Some(v) => match &v {
                JsonValue::Str(s) => match self.token_index(s.as_str()) {
                    Some(i) => Ok(i),
                    None => Err(
                        ParseError::new(
                            self.name.display(),
                            String::from_str("expected a valid enumeration value"),
                        ),
                    ),
                },
                _ => Err(
                    ParseError::new(
                        self.name.display(),
                        String::from_str("expected a valid enumeration value"),
                    ),
                ),
            },
        }
    }

    /// Parse a parameter string to a variant index, with the same token
    /// table and the same fixed failure message.
    pub fn parse_from_str(&self, value: Option<&str>) -> (r: Result<usize, ParseError>)
        ensures
            match r {
                Ok(i) => {
                    &&& value matches Some(s) && spec_token_index(self.tokens@, s@) == Some(
                        i as int,
                    )
                },
                Err(e) => match value {
                    None => e.message@ == msg_expected_input(display_of(self.name@)),
                    Some(s) => spec_token_index(self.tokens@, s@) is None && e.message@
                        == msg_invalid_enum_token(),
                },
            },
    {
        match value {
            None => Err(ParseError::expected_input(&self.name)),
            Some(s) => match self.token_index(s) {
                Some(i) => Ok(i),
                None => Err(
                    ParseError::new(
                        self.name.display(),
                        String::from_str("expected a valid enumeration value"),
                    ),
                ),
            },
        }
    }

    /// The index of the first token equal to `s`, if any.
    pub fn token_index(&self, s: &str) -> (r: Option<usize>)
        ensures
            match r {
                Some(i) => spec_token_index(self.tokens@, s@) == Some(i as int),
                None => spec_token_index(self.tokens@, s@) is None,
            },
    {
        let mut i: usize = 0;
        proof {
            assert(self.tokens@.skip(0) =~= self.tokens@);
            lemma_token_index_bounds(self.tokens@, s@);
        }
        while i < self.tokens.len()
            invariant
                i <= self.tokens@.len(),
                match spec_token_index(self.tokens@, s@) {
                    Some(j) => i <= j && spec_token_index(self.tokens@.skip(i as int), s@) == Some(
                        j - i,
                    ),
                    None => spec_token_index(self.tokens@.skip(i as int), s@) is None,
                },
            decreases self.tokens@.len() - i,
        {
            let ghost rest = self.tokens@.skip(i as int);
            proof {
                assert(rest[0] == self.tokens@[i as int]);
                assert(rest.drop_first() =~= self.tokens@.skip(i as int + 1));
                lemma_token_index_bounds(rest.drop_first(), s@);
            }
            if str_eq(self.tokens[i].as_str(), s) {
                return Some(i);
            }
            i = i + 1;
        }
        proof {
            assert(self.tokens@.skip(i as int) =~= Seq::<String>::empty());
        }
        None
    }

    /// Serialize a variant index: a table lookup, total over the table.
    pub fn to_value(&self, index: usize) -> (r: JsonValue)
        requires
            index < self.tokens@.len(),
        ensures
            r@ == ValueModel::Str(self.tokens@[index as int]@),
            r.wf(),
    {
        JsonValue::Str(self.tokens[index].clone())
    }
}

/// Under a duplicate-free table, the token written for a variant parses
/// back to that variant: enum parsing is a left inverse of serialization.
pub proof fn lemma_enum_roundtrip(e: EnumTokens, i: int)
    requires
        e.wf(),
        0 <= i < e.tokens@.len(),
    ensures
        spec_parse_enum(e.tokens@, e.name@, Some(ValueModel::Str(e.tokens@[i]@))) == Ok::<
            int,
            Seq<char>,
        >(i),
{
    lemma_token_first_index(e.tokens@, i);
}

/// Parsing a token that is not in the table always fails with the fixed
/// message, whatever the enumeration's name.
pub proof fn lemma_enum_unknown_token(e: EnumTokens, s: Seq<char>)
    requires
        forall|i: int| 0 <= i < e.tokens@.len() ==> (#[trigger] e.tokens@[i]@) != s,
    ensures
        spec_parse_enum(e.tokens@, e.name@, Some(ValueModel::Str(s))) == Err::<int, Seq<char>>(
            msg_invalid_enum_token(),
        ),
{
    lemma_token_index_bounds(e.tokens@, s);
    if spec_token_index(e.tokens@, s) is Some {
    }
}

/// Under a duplicate-free table, the first index of token `i`'s text is
/// `i` itself.
proof fn lemma_token_first_index(tokens: Seq<String>, i: int)
    requires
        forall|m: int, n: int|
            0 <= m < n < tokens.len() ==> (#[trigger] tokens[m]@) != (#[trigger] tokens[n]@),
        0 <= i < tokens.len(),
    ensures
        spec_token_index(tokens, tokens[i]@) == Some(i),
    decreases tokens.len(),
{
    if i > 0 {
        assert(tokens[0]@ != tokens[i]@);
        assert(tokens.drop_first()[i - 1] == tokens[i]);
        assert(forall|m: int, n: int|
            0 <= m < n < tokens.drop_first().len() ==> (#[trigger] tokens.drop_first()[m]@) != (
            #[trigger] tokens.drop_first()[n]@)) by {
            assert(forall|m: int|
                0 <= m < tokens.drop_first().len() ==> tokens.drop_first()[m] == tokens[m + 1]);
        }
        lemma_token_first_index(tokens.drop_first(), i - 1);
    }
}

} // verus!
