//! The schema registry and the metadata that the documentation is built
//! from.  `create_schema` follows the two-phase protocol — insert a
//! placeholder, build, overwrite — so that self-referential and mutually
//! referential schemas terminate.

use vstd::prelude::*;
use crate::value::JsonValue;

verus! {

use crate::codec::str_eq;
use vstd::string::StringExecFns;

/// An HTTP method of an operation.
#[derive(Debug, Copy, Clone, PartialEq, Eq, Structural)]
pub enum HttpMethod {
    Get,
    Post,
    Put,
    Delete,
    Head,
    Options,
    Connect,
    Patch,
    Trace,
}

/// The lower-case method key used in the emitted document.
pub open spec fn spec_method_key(m: HttpMethod) -> Seq<char> {
    match m {
        HttpMethod::Get => "get"@,
        HttpMethod::Post => "post"@,
        HttpMethod::Put => "put"@,
        HttpMethod::Delete => "delete"@,
        HttpMethod::Head => "head"@,
        HttpMethod::Options => "options"@,
        HttpMethod::Connect => "connect"@,
        HttpMethod::Patch => "patch"@,
        HttpMethod::Trace => "trace"@,
    }
}

impl HttpMethod {
    /// The lower-case method key used in the emitted document.
    pub fn key(&self) -> (r: &'static str)
        ensures
            r@ == spec_method_key(*self),
    {
        match self {
            HttpMethod::Get => "get",
            HttpMethod::Post => "post",
            HttpMethod::Put => "put",
            HttpMethod::Delete => "delete",
            HttpMethod::Head => "head",
            HttpMethod::Options => "options",
            HttpMethod::Connect => "connect",
            HttpMethod::Patch => "patch",
            HttpMethod::Trace => "trace",
        }
    }
}

/// One named property of an object schema.
#[derive(Debug, PartialEq)]
pub struct MetaProperty {
    pub name: String,
    pub schema: MetaSchemaRef,
}

/// A materialized schema definition.
#[derive(Debug, PartialEq)]
pub struct MetaSchema {
    pub ty: String,
    pub format: Option<String>,
    pub title: Option<String>,
    pub description: Option<String>,
    pub default: Option<JsonValue>,
    pub required: Vec<String>,
    pub properties: Vec<MetaProperty>,
    pub items: Option<Box<MetaSchemaRef>>,
    pub enum_items: Vec<String>,
    pub deprecated: bool,
    pub multiple_of: Option<u64>,
    pub maximum: Option<i64>,
    pub exclusive_maximum: Option<bool>,
    pub minimum: Option<i64>,
    pub exclusive_minimum: Option<bool>,
    pub max_length: Option<usize>,
    pub min_length: Option<usize>,
    pub pattern: Option<String>,
    pub max_items: Option<usize>,
    pub min_items: Option<usize>,
}

impl MetaSchema {
    /// Whether the descriptive and constraint fields are all unset.
    pub open spec fn no_constraints(self) -> bool {
        &&& self.title is None
        &&& self.description is None
        &&& self.default is None
        &&& self.required@.len() == 0
        &&& self.properties@.len() == 0
        &&& self.enum_items@.len() == 0
        &&& self.deprecated == false
        &&& self.multiple_of is None
        &&& self.maximum is None
        &&& self.exclusive_maximum is None
        &&& self.minimum is None
        &&& self.exclusive_minimum is None
        &&& self.max_length is None
        &&& self.min_length is None
        &&& self.pattern is None
        &&& self.max_items is None
        &&& self.min_items is None
    }

    /// Whether every optional field is still unset.
    pub open spec fn is_bare(self) -> bool {
        &&& self.no_constraints()
        &&& self.format is None
        &&& self.items is None
    }

    /// A definition with the given type and everything else unset.
    pub fn new(ty: String) -> (r: MetaSchema)
        ensures
            r.ty@ == ty@,
            r.is_bare(),
    {
        MetaSchema {
            ty,
            format: None,
            title: None,
            description: None,
            default: None,
            required: Vec::new(),
            properties: Vec::new(),
            items: None,
            enum_items: Vec::new(),
            deprecated: false,
            multiple_of: None,
            maximum: None,
            exclusive_maximum: None,
            minimum: None,
            exclusive_minimum: None,
            max_length: None,
            min_length: None,
            pattern: None,
            max_items: None,
            min_items: None,
        }
    }
}

/// Either an inline schema or a reference to a registered name.
#[derive(Debug, PartialEq)]
pub enum MetaSchemaRef {
    Inline(MetaSchema),
    Reference(String),
}

impl MetaSchemaRef {
    /// The inline schema; only for a reference that is known to be inline.
    pub fn unwrap_inline(&self) -> (r: &MetaSchema)
        requires
            self is Inline,
        ensures
            *self == MetaSchemaRef::Inline(*r),
    {
        match self {
            MetaSchemaRef::Inline(s) => s,
            MetaSchemaRef::Reference(_) => unreached(),
        }
    }

    /// The referenced name; only for a reference that is known to be named.
    pub fn unwrap_reference(&self) -> (r: &String)
        requires
            self is Reference,
        ensures
            *self == MetaSchemaRef::Reference(*r),
    {
        match self {
            MetaSchemaRef::Inline(_) => unreached(),
            MetaSchemaRef::Reference(n) => n,
        }
    }
}

/// Where a parameter is read from.
#[derive(Debug, Copy, Clone, PartialEq, Eq, Structural)]
pub enum MetaParamIn {
    Query,
    Header,
    Path,
    Cookie,
}

/// One declared operation parameter.
#[derive(Debug, PartialEq)]
pub struct MetaOperationParam {
    pub name: String,
    pub schema: MetaSchemaRef,
    pub in_type: MetaParamIn,
    pub description: Option<String>,
    pub required: bool,
    pub deprecated: bool,
}

/// One payload encoding, keyed by its content type.
#[derive(Debug, PartialEq)]
pub struct MetaMediaType {
    pub content_type: String,
    pub schema: MetaSchemaRef,
}

/// The request body of an operation.
#[derive(Debug, PartialEq)]
pub struct MetaRequest {
    pub description: Option<String>,
    pub content: Vec<MetaMediaType>,
    pub required: bool,
}

/// One declared response variant.
#[derive(Debug, PartialEq)]
pub struct MetaResponse {
    pub description: Option<String>,
    pub status: Option<u16>,
    pub content: Vec<MetaMediaType>,
}

/// All response variants of an operation.
#[derive(Debug, PartialEq)]
pub struct MetaResponses {
    pub responses: Vec<MetaResponse>,
}

/// One operation under a path.
#[derive(Debug, PartialEq)]
pub struct MetaOperation {
    pub method: HttpMethod,
    pub tags: Vec<String>,
    pub summary: Option<String>,
    pub description: Option<String>,
    pub params: Vec<MetaOperationParam>,
    pub request: Option<MetaRequest>,
    pub responses: MetaResponses,
    pub deprecated: bool,
}

/// One path template and its operations.
#[derive(Debug, PartialEq)]
pub struct MetaPath {
    pub path: String,
    pub operations: Vec<MetaOperation>,
}

/// The info block of the emitted document.
#[derive(Debug, PartialEq)]
pub struct MetaInfo {
    pub title: Option<String>,
    pub description: Option<String>,
    pub version: Option<String>,
}

impl Default for MetaInfo {
    /// An info block with nothing set.
    fn default() -> (r: MetaInfo)
        ensures
            r.title is None,
            r.description is None,
            r.version is None,
    {
        MetaInfo { title: None, description: None, version: None }
    }
}

/// One server entry of the emitted document.
#[derive(Debug, PartialEq)]
pub struct MetaServer {
    pub url: String,
    pub description: Option<String>,
}

/// One tag of the emitted document.
#[derive(Debug, PartialEq)]
pub struct MetaTag {
    pub name: String,
    pub description: Option<String>,
}

/// The paths that one API object contributes.
#[derive(Debug, PartialEq)]
pub struct MetaAPI {
    pub paths: Vec<MetaPath>,
}

/// The first schema bound to `key`, scanning the pairs front to back.
pub open spec fn lookup_seq(s: Seq<(String, MetaSchema)>, key: Seq<char>) -> Option<MetaSchema>
    decreases s.len(),
{
    if s.len() == 0 {
        None
    } else if s[0].0@ == key {
        Some(s[0].1)
    } else {
        lookup_seq(s.skip(1), key)
    }
}

/// A lookup succeeds exactly when some entry carries the key.
pub proof fn lemma_lookup_some(s: Seq<(String, MetaSchema)>, key: Seq<char>)
    ensures
        (lookup_seq(s, key) is Some) <==> exists|i: int| 0 <= i < s.len() && #[trigger] s[i].0@ == key,
    decreases s.len(),
{
    if s.len() > 0 {
        lemma_lookup_some(s.skip(1), key);
        if s[0].0@ == key {
        } else if exists|i: int| 0 <= i < s.skip(1).len() && #[trigger] s.skip(1)[i].0@ == key {
            let i = choose|i: int| 0 <= i < s.skip(1).len() && #[trigger] s.skip(1)[i].0@ == key;
            assert(s[i + 1].0@ == key);
        } else if exists|i: int| 0 <= i < s.len() && #[trigger] s[i].0@ == key {
            let i = choose|i: int| 0 <= i < s.len() && #[trigger] s[i].0@ == key;
            assert(s.skip(1)[i - 1].0@ == key);
        }
    }
}

/// Under unique keys, a lookup returns the entry at any index with the key.
pub proof fn lemma_lookup_at(s: Seq<(String, MetaSchema)>, key: Seq<char>, i: int)
    requires
        forall|m: int, n: int|
            0 <= m < n < s.len() ==> (#[trigger] s[m].0@) != (#[trigger] s[n].0@),
        0 <= i < s.len(),
        s[i].0@ == key,
    ensures
        lookup_seq(s, key) == Some(s[i].1),
    decreases s.len(),
{
    if i == 0 {
    } else {
        assert(s[0].0@ != key);
        assert(s.skip(1)[i - 1] == s[i]);
        assert(forall|m: int, n: int|
            0 <= m < n < s.skip(1).len() ==> (#[trigger] s.skip(1)[m].0@) != (#[trigger] s.skip(
                1,
            )[n].0@)) by {
            assert(forall|m: int| 0 <= m < s.skip(1).len() ==> s.skip(1)[m] == s[m + 1]);
        }
        lemma_lookup_at(s.skip(1), key, i - 1);
    }
}

/// The process-scoped, append-only store of named schema definitions.
#[derive(Debug, PartialEq)]
pub struct Registry {
    pub schemas: Vec<(String, MetaSchema)>,
}

impl Registry {
    /// No two entries share a name.
    pub open spec fn wf(self) -> bool {
        forall|m: int, n: int|
            0 <= m < n < self.schemas@.len() ==> (#[trigger] self.schemas@[m].0@) != (
            #[trigger] self.schemas@[n].0@)
    }

    /// The definition stored under a name, if any.
    pub open spec fn spec_lookup(self, key: Seq<char>) -> Option<MetaSchema> {
        lookup_seq(self.schemas@, key)
    }

    /// Whether a name is present.
    pub open spec fn spec_contains(self, key: Seq<char>) -> bool {
        self.spec_lookup(key) is Some
    }

    /// An empty registry.
    pub fn new() -> (r: Registry)
        ensures
            r.schemas@.len() == 0,
            r.wf(),
    {
        Registry { schemas: Vec::new() }
    }

    /// The index of the entry carrying `name`, if any.
    fn index_of(&self, name: &str) -> (r: Option<usize>)
        ensures
            match r {
                Some(i) => i < self.schemas@.len() && self.schemas@[i as int].0@ == name@,
                None => forall|i: int|
                    0 <= i < self.schemas@.len() ==> (#[trigger] self.schemas@[i].0@) != name@,
            },
    {
        let mut i: usize = 0;
        while i < self.schemas.len()
            invariant
                i <= self.schemas@.len(),
                forall|j: int| 0 <= j < i ==> (#[trigger] self.schemas@[j].0@) != name@,
            decreases self.schemas@.len() - i,
        {
            if str_eq(self.schemas[i].0.as_str(), name) {
                return Some(i);
            }
            i = i + 1;
        }
        None
    }

    /// Whether a name is present.
    pub fn contains_key(&self, name: &str) -> (r: bool)
        ensures
            r == self.spec_contains(name@),
    {
        let r = self.index_of(name);
        proof {
            lemma_lookup_some(self.schemas@, name@);
        }
        r.is_some()
    }

    /// The definition stored under a name, if any.
    pub fn lookup(&self, name: &str) -> (r: Option<&MetaSchema>)
        requires
            self.wf(),
        ensures
            match r {
                Some(s) => self.spec_lookup(name@) == Some(*s),
                None => self.spec_lookup(name@) is None,
            },
    {
        let idx = self.index_of(name);
        proof {
            lemma_lookup_some(self.schemas@, name@);
        }
        match idx {
            Some(i) => {
                proof {
                    lemma_lookup_at(self.schemas@, name@, i as int);
                }
                Some(&self.schemas[i].1)
            },
            None => None,
        }
    }
}

/// One entry of the registry is kept: same name, same definition.
pub open spec fn registry_extends(a: Registry, b: Registry) -> bool {
    &&& forall|k: Seq<char>|
        (#[trigger] a.spec_lookup(k)) is Some ==> b.spec_lookup(k) == a.spec_lookup(k)
    &&& (a.wf() ==> b.wf())
}

/// Builds the definition stored under one schema name.
///
/// `spec_build` says which definition the builder produces for a given
/// registry content, so that `create_schema` can promise that exactly this
/// definition ends up stored.  A builder may itself register nested types,
/// but it never removes or rewrites an entry that is already present —
/// that is what makes the placeholder protocol safe for self-referential
/// schemas.
pub trait SchemaBuilder {
    /// The definition this builder produces when it runs over a registry
    /// with the given entries.
    spec fn spec_build(&self, schemas: Seq<(String, MetaSchema)>) -> MetaSchema;

    fn build(&self, registry: &mut Registry) -> (r: MetaSchema)
        ensures
            r == self.spec_build(old(registry).schemas@),
            registry_extends(*old(registry), *final(registry)),
    ;
}

impl Registry {
    /// Create the schema stored under `name` if it is absent; an existing
    /// entry is never rebuilt or changed.
    ///
    /// For a fresh name: a placeholder definition is inserted under `name`
    /// before the builder runs — so a builder that (transitively) asks for
    /// `name` again finds it present and stops instead of recursing — and
    /// the definition stored afterwards is exactly what the builder built
    /// over that placeholder-extended registry.
    pub fn create_schema<F: SchemaBuilder>(&mut self, name: &str, builder: &F)
        requires
            old(self).wf(),
        ensures
            final(self).wf(),
            old(self).spec_contains(name@) ==> *final(self) == *old(self),
            final(self).spec_contains(name@),
            forall|k: Seq<char>|
                k != name@ && (#[trigger] old(self).spec_lookup(k)) is Some
                    ==> final(self).spec_lookup(k) == old(self).spec_lookup(k),
            !old(self).spec_contains(name@) ==> exists|p: (String, MetaSchema)|
                #![auto]
                {
                    &&& p.0@ == name@
                    &&& p.1.ty@ == "fake"@
                    &&& p.1.is_bare()
                    &&& final(self).spec_lookup(name@) == Some(
                        builder.spec_build(old(self).schemas@.push(p)),
                    )
                },
    {
        if !self.contains_key(name) {
            let ghost pre = *self;
            proof {
                lemma_lookup_some(pre.schemas@, name@);
            }
            let placeholder_key = String::from_str(name);
            let placeholder = MetaSchema::new(String::from_str("fake"));
            let ghost p = (placeholder_key, placeholder);
            self.schemas.push((placeholder_key, placeholder));
            let ghost mid = *self;
            proof {
                assert forall|m: int, n: int| 0 <= m < n < mid.schemas@.len() implies (
                #[trigger] mid.schemas@[m].0@) != (#[trigger] mid.schemas@[n].0@) by {
                    if n == mid.schemas@.len() - 1 {
                        assert(pre.schemas@[m] == mid.schemas@[m]);
                    }
                }
                assert(mid.wf());
                lemma_lookup_at(mid.schemas@, name@, mid.schemas@.len() - 1);
            }
            let meta = builder.build(self);
            let ghost built = *self;
            let idx = match self.index_of(name) {
                Some(i) => i,
                None => {
                    proof {
                        lemma_lookup_some(built.schemas@, name@);
                        assert(built.spec_lookup(name@) == mid.spec_lookup(name@));
                    }
                    unreached()
                },
            };
            let key = String::from_str(name);
            self.schemas.remove(idx);
            let ghost removed = self.schemas@;
            self.schemas.insert(idx, (key, meta));
            proof {
                let s1 = built.schemas@;
                let s2 = self.schemas@;
                s1.remove_ensures(idx as int);
                removed.insert_ensures(idx as int, (key, meta));
                assert(s2.len() == s1.len());
                assert forall|j: int| 0 <= j < s1.len() && j != idx implies s2[j] == s1[j] by {
                    if j < idx {
                        assert(s2[j] == removed[j]);
                        assert(removed[j] == s1[j]);
                    } else {
                        assert(s2[(j - 1) + 1] == removed[j - 1]);
                        assert(removed[j - 1] == s1[j]);
                    }
                }
                assert(s2[idx as int] == (key, meta));
                assert(s2[idx as int].0@ == name@);
                assert(built.wf());
                assert forall|m: int, n: int| 0 <= m < n < s2.len() implies (
                #[trigger] s2[m].0@) != (#[trigger] s2[n].0@) by {
                    assert(s1[m].0@ != s1[n].0@);
                    if m != idx && n != idx {
                    } else if m == idx {
                        assert(s1[n].0@ != name@) by {
                            if s1[n].0@ == name@ {
                                assert(s1[idx as int].0@ == name@);
                            }
                        }
                    } else {
                        assert(s1[m].0@ != name@);
                    }
                }
                assert(self.wf());
                lemma_lookup_at(s2, name@, idx as int);
                assert(self.spec_contains(name@));
                assert(mid.schemas@ == pre.schemas@.push(p));
                assert(meta == builder.spec_build(pre.schemas@.push(p)));
                assert(self.spec_lookup(name@) == Some(builder.spec_build(pre.schemas@.push(p))));
                assert forall|k: Seq<char>|
                    k != name@ && (#[trigger] pre.spec_lookup(k)) is Some implies self.spec_lookup(
                    k,
                ) == pre.spec_lookup(k) by {
                    lemma_lookup_some(pre.schemas@, k);
                    let i = choose|i: int|
                        0 <= i < pre.schemas@.len() && #[trigger] pre.schemas@[i].0@ == k;
                    lemma_lookup_at(pre.schemas@, k, i);
                    assert(mid.schemas@[i] == pre.schemas@[i]);
                    lemma_lookup_at(mid.schemas@, k, i);
                    assert(built.spec_lookup(k) == mid.spec_lookup(k));
                    lemma_lookup_some(built.schemas@, k);
                    let j = choose|j: int|
                        0 <= j < built.schemas@.len() && #[trigger] built.schemas@[j].0@ == k;
                    lemma_lookup_at(built.schemas@, k, j);
                    assert(j != idx);
                    assert(s2[j].0@ == k);
                    lemma_lookup_at(s2, k, j);
                }
            }
        }
    }
}

} // verus!
