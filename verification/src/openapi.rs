//! The service container and the emitted document: a JSON object with the
//! fixed top-level keys `openapi`, `info`, `servers`, `tags`, `paths` and
//! `components.schemas`, built entirely from the registered metadata.

use vstd::prelude::*;
use crate::base::OpenApi;
use crate::registry::{
    MetaAPI, MetaInfo, MetaMediaType, MetaOperation, MetaOperationParam, MetaParamIn, MetaPath,
    MetaProperty, MetaRequest, MetaResponse, MetaSchema, MetaSchemaRef, MetaServer, MetaTag,
    Registry, spec_method_key,
};
use crate::strfmt::{dec_nat, u64_to_dec};
use crate::value::{Entry, JsonValue, ValueModel, entries_of, lemma_models_of, models_of};

verus! {

use crate::codec::push_char;
use crate::value::lemma_entries_of;
use vstd::string::{StrSliceExecFns, StringExecFns};

broadcast use {vstd::std_specs::vec::axiom_vec_decreases_to_view, vstd::seq::axiom_seq_index_decreases};

/// A string or, when absent, `null`.
pub open spec fn nullable_str(s: Option<String>) -> ValueModel {
    match s {
        Some(t) => ValueModel::Str(t@),
        None => ValueModel::Null,
    }
}

/// The values of a list of strings.
pub open spec fn strs_values(ss: Seq<String>) -> Seq<ValueModel> {
    Seq::new(ss.len(), |i: int| ValueModel::Str(ss[i]@))
}

/// Appending one entry appends one pair to the object's model.
proof fn lemma_entries_push(s: Seq<Entry>, e: Entry)
    ensures
        entries_of(s.push(e)) == entries_of(s).push((e.key@, e.val.model())),
{
    assert(s.push(e).subrange(0, s.len() as int) =~= s);
    assert(s.push(e)[s.len() as int] == e);
}

/// Push one key/value pair onto an object under construction.
fn push_entry(out: &mut Vec<Entry>, key: &str, val: JsonValue)
    ensures
        entries_of(final(out)@) == entries_of(old(out)@).push((key@, val@)),
{
    let ghost pre = out@;
    let e = Entry { key: String::from_str(key), val };
    proof {
        lemma_entries_push(pre, e);
    }
    out.push(e);
}

/// Turn a list of strings into an array of string values.
fn strs_to_value(ss: &Vec<String>) -> (r: JsonValue)
    ensures
        r@ == ValueModel::Arr(strs_values(ss@)),
{
    let mut items: Vec<JsonValue> = Vec::new();
    let mut i: usize = 0;
    while i < ss.len()
        invariant
            i <= ss@.len(),
            items@.len() == i,
            forall|j: int| 0 <= j < i ==> (#[trigger] items@[j]).model() == ValueModel::Str(
                ss@[j]@,
            ),
        decreases ss@.len() - i,
    {
        items.push(JsonValue::Str(ss[i].clone()));
        i = i + 1;
    }
    let ghost itemsv = items@;
    let r = JsonValue::Arr(items);
    proof {
        lemma_models_of(itemsv);
        assert forall|j: int| 0 <= j < itemsv.len() implies models_of(itemsv)[j] == strs_values(
            ss@,
        )[j] by {
            assert(models_of(itemsv)[j] == itemsv[j].model());
        }
        assert(models_of(itemsv) =~= strs_values(ss@));
    }
    r
}

/// A string value, or `null` when absent.
fn nullable_str_value(s: &Option<String>) -> (r: JsonValue)
    ensures
        r@ == nullable_str(*s),
{
    match s {
        Some(t) => JsonValue::Str(t.clone()),
        None => JsonValue::Null,
    }
}

/// The leading pairs of the object a schema definition renders to:
/// `type` first, then every descriptive field that is set, in a fixed
/// order.
pub open spec fn spec_base_pairs(s: MetaSchema) -> Seq<(Seq<char>, ValueModel)>
    decreases s, 0int,
{
    let p = seq![("type"@, ValueModel::Str(s.ty@))];
    let p = if s.format is Some {
        p.push(("format"@, ValueModel::Str(s.format->0@)))
    } else {
        p
    };
    let p = if s.title is Some {
        p.push(("title"@, ValueModel::Str(s.title->0@)))
    } else {
        p
    };
    let p = if s.description is Some {
        p.push(("description"@, ValueModel::Str(s.description->0@)))
    } else {
        p
    };
    let p = if s.default is Some {
        p.push(("default"@, s.default->0.model()))
    } else {
        p
    };
    let p = if s.required@.len() > 0 {
        p.push(("required"@, ValueModel::Arr(strs_values(s.required@))))
    } else {
        p
    };
    let p = if s.properties@.len() > 0 {
        p.push(("properties"@, ValueModel::Obj(spec_props_pairs(s.properties@))))
    } else {
        p
    };
    let p = if s.items is Some {
        p.push(("items"@, spec_schema_ref_value(*s.items->0)))
    } else {
        p
    };
    let p = if s.enum_items@.len() > 0 {
        p.push(("enum"@, ValueModel::Arr(strs_values(s.enum_items@))))
    } else {
        p
    };
    p
}

/// The constraint pairs a schema definition appends after its leading
/// pairs: each one present exactly when the constraint is set.
pub open spec fn spec_constraint_pairs(s: MetaSchema, p0: Seq<(Seq<char>, ValueModel)>) -> Seq<
    (Seq<char>, ValueModel),
> {
    let p = p0;
    let p = if s.deprecated {
        p.push(("deprecated"@, ValueModel::Bool(true)))
    } else {
        p
    };
    let p = if s.multiple_of is Some {
        p.push(("multipleOf"@, ValueModel::Int(s.multiple_of->0 as int)))
    } else {
        p
    };
    let p = if s.maximum is Some {
        p.push(("maximum"@, ValueModel::Int(s.maximum->0 as int)))
    } else {
        p
    };
    let p = if s.exclusive_maximum is Some {
        p.push(("exclusiveMaximum"@, ValueModel::Bool(s.exclusive_maximum->0)))
    } else {
        p
    };
    let p = if s.minimum is Some {
        p.push(("minimum"@, ValueModel::Int(s.minimum->0 as int)))
    } else {
        p
    };
    let p = if s.exclusive_minimum is Some {
        p.push(("exclusiveMinimum"@, ValueModel::Bool(s.exclusive_minimum->0)))
    } else {
        p
    };
    let p = if s.max_length is Some {
        p.push(("maxLength"@, ValueModel::Int(s.max_length->0 as int)))
    } else {
        p
    };
    let p = if s.min_length is Some {
        p.push(("minLength"@, ValueModel::Int(s.min_length->0 as int)))
    } else {
        p
    };
    let p = if s.pattern is Some {
        p.push(("pattern"@, ValueModel::Str(s.pattern->0@)))
    } else {
        p
    };
    let p = if s.max_items is Some {
        p.push(("maxItems"@, ValueModel::Int(s.max_items->0 as int)))
    } else {
        p
    };
    let p = if s.min_items is Some {
        p.push(("minItems"@, ValueModel::Int(s.min_items->0 as int)))
    } else {
        p
    };
    p
}

/// The pairs of the object a schema definition renders to.
pub open spec fn spec_schema_pairs(s: MetaSchema) -> Seq<(Seq<char>, ValueModel)>
    decreases s, 1int,
{
    spec_constraint_pairs(s, spec_base_pairs(s))
}

/// The value a schema definition renders to.
pub open spec fn spec_schema_value(s: MetaSchema) -> ValueModel
    decreases s, 2int,
{
    ValueModel::Obj(spec_schema_pairs(s))
}

/// The pairs of a `properties` object, one per property, in order.
pub open spec fn spec_props_pairs(ps: Seq<MetaProperty>) -> Seq<(Seq<char>, ValueModel)>
    decreases ps, 0int,
{
    if ps.len() == 0 {
        Seq::empty()
    } else {
        spec_props_pairs(ps.subrange(0, ps.len() - 1)).push(
            (ps[ps.len() - 1].name@, spec_schema_ref_value(ps[ps.len() - 1].schema)),
        )
    }
}

/// The value a schema reference renders to: the inline schema itself, or
/// a `$ref` pointer into `components.schemas`.
pub open spec fn spec_schema_ref_value(r: MetaSchemaRef) -> ValueModel
    decreases r, 3int,
{
    match r {
        MetaSchemaRef::Inline(s) => spec_schema_value(s),
        MetaSchemaRef::Reference(n) => ValueModel::Obj(
            seq![("$ref"@, ValueModel::Str("#/components/schemas/"@ + n@))],
        ),
    }
}

/// Render a schema definition.
#[verifier::rlimit(60)]
pub fn schema_value(s: &MetaSchema) -> (r: JsonValue)
    ensures
        r@ == spec_schema_value(*s),
    decreases *s, 2int,
{
    let mut out: Vec<Entry> = Vec::new();
    proof {
        assert(entries_of(out@) =~= Seq::<(Seq<char>, ValueModel)>::empty());
    }
    push_entry(&mut out, "type", JsonValue::Str(s.ty.clone()));
    proof {
        assert(entries_of(out@) =~= seq![("type"@, ValueModel::Str(s.ty@))]);
    }
    match &s.format {
        Some(f) => push_entry(&mut out, "format", JsonValue::Str(f.clone())),
        None => (),
    }
    match &s.title {
        Some(t) => push_entry(&mut out, "title", JsonValue::Str(t.clone())),
        None => (),
    }
    match &s.description {
        Some(d) => push_entry(&mut out, "description", JsonValue::Str(d.clone())),
        None => (),
    }
    match &s.default {
        Some(d) => push_entry(&mut out, "default", clone_value(d)),
        None => (),
    }
    if s.required.len() > 0 {
        push_entry(&mut out, "required", strs_to_value(&s.required));
    }
    if s.properties.len() > 0 {
        push_entry(&mut out, "properties", props_value(&s.properties));
    }
    match &s.items {
        Some(b) => push_entry(&mut out, "items", schema_ref_value(b)),
        None => (),
    }
    if s.enum_items.len() > 0 {
        push_entry(&mut out, "enum", strs_to_value(&s.enum_items));
    }
    proof {
        assert(entries_of(out@) =~= spec_base_pairs(*s));
    }
    push_constraints(&mut out, s);
    let ghost outv = out@;
    let r = JsonValue::Obj(out);
    proof {
        assert(entries_of(outv) =~= spec_schema_pairs(*s));
    }
    r
}

/// Append the constraint pairs of a schema definition.
#[verifier::rlimit(60)]
fn push_constraints(out: &mut Vec<Entry>, s: &MetaSchema)
    ensures
        entries_of(final(out)@) == spec_constraint_pairs(*s, entries_of(old(out)@)),
{
    if s.deprecated {
        push_entry(out, "deprecated", JsonValue::Bool(true));
    }
    match &s.multiple_of {
        Some(n) => push_entry(
            out,
            "multipleOf",
            JsonValue::Num(crate::value::Number::Unsigned(*n)),
        ),
        None => (),
    }
    match &s.maximum {
        Some(n) => push_entry(out, "maximum", crate::value::int_value(*n as i128)),
        None => (),
    }
    match &s.exclusive_maximum {
        Some(b) => push_entry(out, "exclusiveMaximum", JsonValue::Bool(*b)),
        None => (),
    }
    match &s.minimum {
        Some(n) => push_entry(out, "minimum", crate::value::int_value(*n as i128)),
        None => (),
    }
    match &s.exclusive_minimum {
        Some(b) => push_entry(out, "exclusiveMinimum", JsonValue::Bool(*b)),
        None => (),
    }
    match &s.max_length {
        Some(n) => push_entry(
            out,
            "maxLength",
            JsonValue::Num(crate::value::Number::Unsigned(*n as u64)),
        ),
        None => (),
    }
    match &s.min_length {
        Some(n) => push_entry(
            out,
            "minLength",
            JsonValue::Num(crate::value::Number::Unsigned(*n as u64)),
        ),
        None => (),
    }
    match &s.pattern {
        Some(p) => push_entry(out, "pattern", JsonValue::Str(p.clone())),
        None => (),
    }
    match &s.max_items {
        Some(n) => push_entry(
            out,
            "maxItems",
            JsonValue::Num(crate::value::Number::Unsigned(*n as u64)),
        ),
        None => (),
    }
    match &s.min_items {
        Some(n) => push_entry(
            out,
            "minItems",
            JsonValue::Num(crate::value::Number::Unsigned(*n as u64)),
        ),
        None => (),
    }
}

/// Render a `properties` object.
fn props_value(ps: &Vec<MetaProperty>) -> (r: JsonValue)
    ensures
        r@ == ValueModel::Obj(spec_props_pairs(ps@)),
    decreases ps, 0int,
{
    let mut out: Vec<Entry> = Vec::new();
    let mut i: usize = 0;
    proof {
        assert(entries_of(out@) =~= spec_props_pairs(ps@.subrange(0, 0)));
    }
    while i < ps.len()
        invariant
            i <= ps@.len(),
            entries_of(out@) == spec_props_pairs(ps@.subrange(0, i as int)),
        decreases ps@.len() - i,
    {
        let v = schema_ref_value(&ps[i].schema);
        let ghost pre = out@;
        let e = Entry { key: ps[i].name.clone(), val: v };
        proof {
            lemma_entries_push(pre, e);
        }
        out.push(e);
        proof {
            assert(ps@.subrange(0, i as int + 1).subrange(0, i as int) =~= ps@.subrange(
                0,
                i as int,
            ));
            assert(ps@.subrange(0, i as int + 1)[i as int] == ps@[i as int]);
        }
        i = i + 1;
    }
    proof {
        assert(ps@.subrange(0, i as int) =~= ps@);
    }
    let ghost outv = out@;
    let r = JsonValue::Obj(out);
    proof {
        assert(entries_of(outv) =~= spec_props_pairs(ps@));
    }
    r
}

/// Render a schema reference.
pub fn schema_ref_value(r: &MetaSchemaRef) -> (v: JsonValue)
    ensures
        v@ == spec_schema_ref_value(*r),
    decreases *r, 3int,
{
    match r {
        MetaSchemaRef::Inline(s) => schema_value(s),
        MetaSchemaRef::Reference(n) => {
            let mut target = String::from_str("#/components/schemas/");
            target.append(n.as_str());
            let mut out: Vec<Entry> = Vec::new();
            proof {
                assert(entries_of(out@) =~= Seq::<(Seq<char>, ValueModel)>::empty());
            }
            push_entry(&mut out, "$ref", JsonValue::Str(target));
            let ghost outv = out@;
            let v = JsonValue::Obj(out);
            proof {
                assert(entries_of(outv) =~= seq![
                    ("$ref"@, ValueModel::Str("#/components/schemas/"@ + n@)),
                ]);
            }
            v
        },
    }
}

/// Deep-copy a value.
#[verifier::loop_isolation(false)]
pub fn clone_value(v: &JsonValue) -> (r: JsonValue)
    ensures
        r@ == v@,
    decreases *v,
{
    match v {
        JsonValue::Null => JsonValue::Null,
        JsonValue::Bool(b) => JsonValue::Bool(*b),
        JsonValue::Num(n) => match n {
            crate::value::Number::Unsigned(u) => JsonValue::Num(
                crate::value::Number::Unsigned(*u),
            ),
            crate::value::Number::Signed(i) => JsonValue::Num(crate::value::Number::Signed(*i)),
        },
        JsonValue::Str(s) => JsonValue::Str(s.clone()),
        JsonValue::Arr(xs) => {
            let mut items: Vec<JsonValue> = Vec::new();
            let mut i: usize = 0;
            while i < xs.len()
                invariant
                    i <= xs@.len(),
                    items@.len() == i,
                    forall|j: int| 0 <= j < i ==> (#[trigger] items@[j]).model()
                        == xs@[j].model(),
                decreases xs@.len() - i,
            {
                let c = clone_value(&xs[i]);
                items.push(c);
                i = i + 1;
            }
            let ghost itemsv = items@;
            let r = JsonValue::Arr(items);
            proof {
                lemma_models_of(itemsv);
                lemma_models_of(xs@);
                assert forall|j: int| 0 <= j < itemsv.len() implies models_of(itemsv)[j]
                    == models_of(xs@)[j] by {
                    assert(models_of(itemsv)[j] == itemsv[j].model());
                    assert(models_of(xs@)[j] == xs@[j].model());
                }
                assert(models_of(itemsv) =~= models_of(xs@));
            }
            r
        },
        JsonValue::Obj(ps) => {
            let mut items: Vec<Entry> = Vec::new();
            let mut i: usize = 0;
            while i < ps.len()
                invariant
                    i <= ps@.len(),
                    items@.len() == i,
                    forall|j: int| 0 <= j < i ==> (#[trigger] items@[j]).key@ == ps@[j].key@
                        && items@[j].val.model() == ps@[j].val.model(),
                decreases ps@.len() - i,
            {
                let c = clone_value(&ps[i].val);
                items.push(Entry { key: ps[i].key.clone(), val: c });
                i = i + 1;
            }
            let ghost itemsv = items@;
            let r = JsonValue::Obj(items);
            proof {
                lemma_entries_of(itemsv);
                lemma_entries_of(ps@);
                assert forall|j: int| 0 <= j < itemsv.len() implies entries_of(itemsv)[j]
                    == entries_of(ps@)[j] by {
                    assert(entries_of(itemsv)[j] == (itemsv[j].key@, itemsv[j].val.model()));
                    assert(entries_of(ps@)[j] == (ps@[j].key@, ps@[j].val.model()));
                }
                assert(entries_of(itemsv) =~= entries_of(ps@));
            }
            r
        },
    }
}


/// The value the `info` block renders to: `null` when absent, else its
/// three fields, present even when unset.
pub open spec fn spec_info_value(info: Option<MetaInfo>) -> ValueModel {
    match info {
        None => ValueModel::Null,
        Some(i) => ValueModel::Obj(
            seq![
                ("title"@, nullable_str(i.title)),
                ("description"@, nullable_str(i.description)),
                ("version"@, nullable_str(i.version)),
            ],
        ),
    }
}

/// The value one server entry renders to.
pub open spec fn spec_server_value(s: MetaServer) -> ValueModel {
    ValueModel::Obj(seq![("url"@, ValueModel::Str(s.url@)), ("description"@, nullable_str(s.description))])
}

/// The value one tag renders to.
pub open spec fn spec_tag_value(t: MetaTag) -> ValueModel {
    ValueModel::Obj(seq![("name"@, ValueModel::Str(t.name@)), ("description"@, nullable_str(t.description))])
}

/// Where a parameter is read from, as its document key.
pub open spec fn spec_param_in_key(t: MetaParamIn) -> Seq<char> {
    match t {
        MetaParamIn::Query => "query"@,
        MetaParamIn::Header => "header"@,
        MetaParamIn::Path => "path"@,
        MetaParamIn::Cookie => "cookie"@,
    }
}

/// The value one declared parameter renders to.
pub open spec fn spec_param_value(p: MetaOperationParam) -> ValueModel {
    let q = seq![
        ("name"@, ValueModel::Str(p.name@)),
        ("schema"@, spec_schema_ref_value(p.schema)),
        ("in"@, ValueModel::Str(spec_param_in_key(p.in_type))),
    ];
    let q = if p.description is Some {
        q.push(("description"@, ValueModel::Str(p.description->0@)))
    } else {
        q
    };
    ValueModel::Obj(
        q.push(("required"@, ValueModel::Bool(p.required))).push(
            ("deprecated"@, ValueModel::Bool(p.deprecated)),
        ),
    )
}

/// The pairs of a `content` object: one per media type, keyed by its
/// content type.
pub open spec fn spec_media_pairs(content: Seq<MetaMediaType>) -> Seq<(Seq<char>, ValueModel)> {
    Seq::new(
        content.len(),
        |i: int|
            (
                content[i].content_type@,
                ValueModel::Obj(seq![("schema"@, spec_schema_ref_value(content[i].schema))]),
            ),
    )
}

/// The value a request body renders to.
pub open spec fn spec_request_value(r: MetaRequest) -> ValueModel {
    let q = if r.description is Some {
        seq![("description"@, ValueModel::Str(r.description->0@))]
    } else {
        Seq::empty()
    };
    let q = if r.content.len() > 0 {
        q.push(("content"@, ValueModel::Obj(spec_media_pairs(r.content@))))
    } else {
        q
    };
    ValueModel::Obj(q.push(("required"@, ValueModel::Bool(r.required))))
}

/// The key one response variant is listed under: its status code, or
/// `default` for the catch-all.
pub open spec fn spec_status_key(status: Option<u16>) -> Seq<char> {
    match status {
        Some(code) => dec_nat(code as int),
        None => "default"@,
    }
}

/// The value one response variant renders to.
pub open spec fn spec_response_value(r: MetaResponse) -> ValueModel {
    let q = if r.description is Some {
        seq![("description"@, ValueModel::Str(r.description->0@))]
    } else {
        Seq::empty()
    };
    let q = if r.content.len() > 0 {
        q.push(("content"@, ValueModel::Obj(spec_media_pairs(r.content@))))
    } else {
        q
    };
    ValueModel::Obj(q)
}

/// The pairs of a `responses` object, one per variant under its status key.
pub open spec fn spec_responses_pairs(rs: Seq<MetaResponse>) -> Seq<(Seq<char>, ValueModel)> {
    Seq::new(rs.len(), |i: int| (spec_status_key(rs[i].status), spec_response_value(rs[i])))
}

/// The values of an operation's parameter list.
pub open spec fn spec_params_values(ps: Seq<MetaOperationParam>) -> Seq<ValueModel> {
    Seq::new(ps.len(), |i: int| spec_param_value(ps[i]))
}

/// The value one operation renders to.
pub open spec fn spec_operation_value(op: MetaOperation) -> ValueModel {
    let q = if op.tags.len() > 0 {
        seq![("tags"@, ValueModel::Arr(strs_values(op.tags@)))]
    } else {
        Seq::empty()
    };
    let q = if op.summary is Some {
        q.push(("summary"@, ValueModel::Str(op.summary->0@)))
    } else {
        q
    };
    let q = if op.description is Some {
        q.push(("description"@, ValueModel::Str(op.description->0@)))
    } else {
        q
    };
    let q = if op.params.len() > 0 {
        q.push(("parameters"@, ValueModel::Arr(spec_params_values(op.params@))))
    } else {
        q
    };
    let q = if op.request is Some {
        q.push(("requestBody"@, spec_request_value(op.request->0)))
    } else {
        q
    };
    let q = q.push(("responses"@, ValueModel::Obj(spec_responses_pairs(op.responses.responses@))));
    let q = if op.deprecated {
        q.push(("deprecated"@, ValueModel::Bool(true)))
    } else {
        q
    };
    ValueModel::Obj(q)
}

/// The pairs of one path's object: one operation per method key.
pub open spec fn spec_path_pairs(ops: Seq<MetaOperation>) -> Seq<(Seq<char>, ValueModel)> {
    Seq::new(ops.len(), |i: int| (spec_method_key(ops[i].method), spec_operation_value(ops[i])))
}

/// Every path of every API object, in order of first reference.
pub open spec fn spec_api_paths(apis: Seq<MetaAPI>) -> Seq<MetaPath>
    decreases apis.len(),
{
    if apis.len() == 0 {
        Seq::empty()
    } else {
        spec_api_paths(apis.subrange(0, apis.len() - 1)) + apis[apis.len() - 1].paths@
    }
}


/// What the rest of a path renders to in the emitted document, from
/// position `i` on: a segment written `:name` in the native router syntax
/// becomes `{name}`, everything else is kept.
pub open spec fn template_from(s: Seq<char>, i: int, in_param: bool) -> Seq<char>
    decreases s.len() - i,
{
    if i < 0 || i >= s.len() {
        if in_param {
            seq!['}']
        } else {
            Seq::empty()
        }
    } else {
        let c = s[i];
        if in_param {
            if c == '/' {
                seq!['}', '/'] + template_from(s, i + 1, false)
            } else {
                seq![c] + template_from(s, i + 1, true)
            }
        } else {
            if c == ':' && (i == 0 || s[i - 1] == '/') {
                seq!['{'] + template_from(s, i + 1, true)
            } else {
                seq![c] + template_from(s, i + 1, false)
            }
        }
    }
}

/// The path template as the emitted document writes it: `{name}` for a
/// path parameter, whatever the native router syntax was.
pub open spec fn template_of(s: Seq<char>) -> Seq<char> {
    template_from(s, 0, false)
}

/// Rewrite a native path into the emitted document's template form.
pub fn template_path(path: &str) -> (r: String)
    ensures
        r@ == template_of(path@),
{
    let n = path.unicode_len();
    let mut out = String::new();
    let mut in_param = false;
    let mut i: usize = 0;
    proof {
        assert(template_of(path@) =~= out@ + template_from(path@, 0, false));
    }
    while i < n
        invariant
            i <= n,
            n == path@.len(),
            template_of(path@) == out@ + template_from(path@, i as int, in_param),
        decreases n - i,
    {
        let c = path.get_char(i);
        if in_param {
            if c == '/' {
                push_char(&mut out, '}');
                push_char(&mut out, '/');
                in_param = false;
            } else {
                push_char(&mut out, c);
            }
        } else {
            let starts = c == ':' && (i == 0 || path.get_char(i - 1) == '/');
            if starts {
                push_char(&mut out, '{');
                in_param = true;
            } else {
                push_char(&mut out, c);
            }
        }
        proof {
            assert(template_of(path@) =~= out@ + template_from(path@, i as int + 1, in_param));
        }
        i = i + 1;
    }
    if in_param {
        push_char(&mut out, '}');
    }
    proof {
        assert(out@ =~= template_of(path@));
    }
    out
}

/// The pairs of the `paths` object: one per path template, in order.
pub open spec fn spec_paths_pairs(paths: Seq<MetaPath>) -> Seq<(Seq<char>, ValueModel)> {
    Seq::new(
        paths.len(),
        |i: int| (template_of(paths[i].path@), ValueModel::Obj(spec_path_pairs(paths[i].operations@))),
    )
}

/// The pairs of `components.schemas`: every registered definition under
/// its name, in registration order.
pub open spec fn spec_schemas_pairs(schemas: Seq<(String, MetaSchema)>) -> Seq<
    (Seq<char>, ValueModel),
> {
    Seq::new(schemas.len(), |i: int| (schemas[i].0@, spec_schema_value(schemas[i].1)))
}

/// The whole document: a JSON object with exactly the fixed top-level
/// keys, in order.
pub open spec fn spec_document_value(
    info: Option<MetaInfo>,
    servers: Seq<MetaServer>,
    tags: Seq<MetaTag>,
    apis: Seq<MetaAPI>,
    schemas: Seq<(String, MetaSchema)>,
) -> ValueModel {
    ValueModel::Obj(
        seq![
            ("openapi"@, ValueModel::Str("3.0.0"@)),
            ("info"@, spec_info_value(info)),
            ("servers"@, ValueModel::Arr(Seq::new(servers.len(), |i: int| spec_server_value(servers[i])))),
            ("tags"@, ValueModel::Arr(Seq::new(tags.len(), |i: int| spec_tag_value(tags[i])))),
            ("paths"@, ValueModel::Obj(spec_paths_pairs(spec_api_paths(apis)))),
            (
                "components"@,
                ValueModel::Obj(
                    seq![("schemas"@, ValueModel::Obj(spec_schemas_pairs(schemas)))],
                ),
            ),
        ],
    )
}

/// Render the `info` block.
fn info_value(info: &Option<MetaInfo>) -> (r: JsonValue)
    ensures
        r@ == spec_info_value(*info),
{
    match info {
        None => JsonValue::Null,
        Some(i) => {
            let mut out: Vec<Entry> = Vec::new();
            proof {
                assert(entries_of(out@) =~= Seq::<(Seq<char>, ValueModel)>::empty());
            }
            push_entry(&mut out, "title", nullable_str_value(&i.title));
            push_entry(&mut out, "description", nullable_str_value(&i.description));
            push_entry(&mut out, "version", nullable_str_value(&i.version));
            let ghost outv = out@;
            let r = JsonValue::Obj(out);
            proof {
                assert(entries_of(outv) =~= spec_info_value(*info)->Obj_0);
            }
            r
        },
    }
}

/// Render one declared parameter.
fn param_value(p: &MetaOperationParam) -> (r: JsonValue)
    ensures
        r@ == spec_param_value(*p),
{
    let mut out: Vec<Entry> = Vec::new();
    proof {
        assert(entries_of(out@) =~= Seq::<(Seq<char>, ValueModel)>::empty());
    }
    push_entry(&mut out, "name", JsonValue::Str(p.name.clone()));
    push_entry(&mut out, "schema", schema_ref_value(&p.schema));
    let in_key = match p.in_type {
        MetaParamIn::Query => "query",
        MetaParamIn::Header => "header",
        MetaParamIn::Path => "path",
        MetaParamIn::Cookie => "cookie",
    };
    push_entry(&mut out, "in", JsonValue::Str(String::from_str(in_key)));
    match &p.description {
        Some(d) => push_entry(&mut out, "description", JsonValue::Str(d.clone())),
        None => (),
    }
    push_entry(&mut out, "required", JsonValue::Bool(p.required));
    push_entry(&mut out, "deprecated", JsonValue::Bool(p.deprecated));
    let ghost outv = out@;
    let r = JsonValue::Obj(out);
    proof {
        assert(entries_of(outv) =~= spec_param_value(*p)->Obj_0);
    }
    r
}

/// Render a `content` object.
fn media_value(content: &Vec<MetaMediaType>) -> (r: JsonValue)
    ensures
        r@ == ValueModel::Obj(spec_media_pairs(content@)),
{
    let mut out: Vec<Entry> = Vec::new();
    let mut i: usize = 0;
    while i < content.len()
        invariant
            i <= content@.len(),
            out@.len() == i,
            forall|j: int|
                0 <= j < i ==> (#[trigger] entries_of(out@)[j]) == spec_media_pairs(content@)[j],
        decreases content@.len() - i,
    {
        let mut inner: Vec<Entry> = Vec::new();
        proof {
            assert(entries_of(inner@) =~= Seq::<(Seq<char>, ValueModel)>::empty());
        }
        push_entry(&mut inner, "schema", schema_ref_value(&content[i].schema));
        let ghost innerv = inner@;
        let ghost pre = out@;
        let e = Entry { key: content[i].content_type.clone(), val: JsonValue::Obj(inner) };
        proof {
            lemma_entries_push(pre, e);
            lemma_entries_of(pre);
            lemma_entries_of(pre.push(e));
            assert(entries_of(innerv) =~= seq![
                ("schema"@, spec_schema_ref_value(content@[i as int].schema)),
            ]);
        }
        out.push(e);
        i = i + 1;
    }
    let ghost outv = out@;
    let r = JsonValue::Obj(out);
    proof {
        lemma_entries_of(outv);
        assert(entries_of(outv) =~= spec_media_pairs(content@));
    }
    r
}

/// Render a request body.
fn request_value(rq: &MetaRequest) -> (r: JsonValue)
    ensures
        r@ == spec_request_value(*rq),
{
    let mut out: Vec<Entry> = Vec::new();
    proof {
        assert(entries_of(out@) =~= Seq::<(Seq<char>, ValueModel)>::empty());
    }
    match &rq.description {
        Some(d) => push_entry(&mut out, "description", JsonValue::Str(d.clone())),
        None => (),
    }
    if rq.content.len() > 0 {
        push_entry(&mut out, "content", media_value(&rq.content));
    }
    push_entry(&mut out, "required", JsonValue::Bool(rq.required));
    let ghost outv = out@;
    let r = JsonValue::Obj(out);
    proof {
        assert(entries_of(outv) =~= spec_request_value(*rq)->Obj_0);
    }
    r
}

/// Render one response variant.
fn response_value(rs: &MetaResponse) -> (r: JsonValue)
    ensures
        r@ == spec_response_value(*rs),
{
    let mut out: Vec<Entry> = Vec::new();
    proof {
        assert(entries_of(out@) =~= Seq::<(Seq<char>, ValueModel)>::empty());
    }
    match &rs.description {
        Some(d) => push_entry(&mut out, "description", JsonValue::Str(d.clone())),
        None => (),
    }
    if rs.content.len() > 0 {
        push_entry(&mut out, "content", media_value(&rs.content));
    }
    let ghost outv = out@;
    let r = JsonValue::Obj(out);
    proof {
        assert(entries_of(outv) =~= spec_response_value(*rs)->Obj_0);
    }
    r
}

/// Render one operation.
fn operation_value(op: &MetaOperation) -> (r: JsonValue)
    ensures
        r@ == spec_operation_value(*op),
{
    let mut out: Vec<Entry> = Vec::new();
    proof {
        assert(entries_of(out@) =~= Seq::<(Seq<char>, ValueModel)>::empty());
    }
    if op.tags.len() > 0 {
        push_entry(&mut out, "tags", strs_to_value(&op.tags));
    }
    match &op.summary {
        Some(d) => push_entry(&mut out, "summary", JsonValue::Str(d.clone())),
        None => (),
    }
    match &op.description {
        Some(d) => push_entry(&mut out, "description", JsonValue::Str(d.clone())),
        None => (),
    }
    if op.params.len() > 0 {
        let mut params: Vec<JsonValue> = Vec::new();
        let mut i: usize = 0;
        while i < op.params.len()
            invariant
                i <= op.params@.len(),
                params@.len() == i,
                forall|j: int|
                    0 <= j < i ==> (#[trigger] params@[j]).model() == spec_param_value(
                        op.params@[j],
                    ),
            decreases op.params@.len() - i,
        {
            params.push(param_value(&op.params[i]));
            i = i + 1;
        }
        let ghost paramsv = params@;
        proof {
            lemma_models_of(paramsv);
            assert forall|j: int| 0 <= j < paramsv.len() implies models_of(paramsv)[j]
                == spec_params_values(op.params@)[j] by {
                assert(models_of(paramsv)[j] == paramsv[j].model());
            }
            assert(models_of(paramsv) =~= spec_params_values(op.params@));
        }
        push_entry(&mut out, "parameters", JsonValue::Arr(params));
    }
    match &op.request {
        Some(rq) => push_entry(&mut out, "requestBody", request_value(rq)),
        None => (),
    }
    let mut resps: Vec<Entry> = Vec::new();
    let mut i: usize = 0;
    while i < op.responses.responses.len()
        invariant
            i <= op.responses.responses@.len(),
            resps@.len() == i,
            forall|j: int|
                0 <= j < i ==> (#[trigger] entries_of(resps@)[j]) == spec_responses_pairs(
                    op.responses.responses@,
                )[j],
        decreases op.responses.responses@.len() - i,
    {
        let key = match &op.responses.responses[i].status {
            Some(code) => u64_to_dec(*code as u64),
            None => String::from_str("default"),
        };
        let v = response_value(&op.responses.responses[i]);
        let ghost pre = resps@;
        let e = Entry { key, val: v };
        proof {
            lemma_entries_push(pre, e);
            lemma_entries_of(pre);
            lemma_entries_of(pre.push(e));
        }
        resps.push(e);
        i = i + 1;
    }
    let ghost respsv = resps@;
    proof {
        lemma_entries_of(respsv);
        assert(entries_of(respsv) =~= spec_responses_pairs(op.responses.responses@));
    }
    push_entry(&mut out, "responses", JsonValue::Obj(resps));
    if op.deprecated {
        push_entry(&mut out, "deprecated", JsonValue::Bool(true));
    }
    let ghost outv = out@;
    let r = JsonValue::Obj(out);
    proof {
        assert(entries_of(outv) =~= spec_operation_value(*op)->Obj_0);
    }
    r
}

/// Render the whole document from its parts.
pub fn document_value(
    info: &Option<MetaInfo>,
    servers: &Vec<MetaServer>,
    tags: &Vec<MetaTag>,
    apis: &Vec<MetaAPI>,
    registry: &Registry,
) -> (r: JsonValue)
    ensures
        r@ == spec_document_value(*info, servers@, tags@, apis@, registry.schemas@),
{
    let mut out: Vec<Entry> = Vec::new();
    proof {
        assert(entries_of(out@) =~= Seq::<(Seq<char>, ValueModel)>::empty());
    }
    push_entry(&mut out, "openapi", JsonValue::Str(String::from_str("3.0.0")));

    push_entry(&mut out, "info", info_value(info));

    let mut server_items: Vec<JsonValue> = Vec::new();
    let mut i: usize = 0;
    while i < servers.len()
        invariant
            i <= servers@.len(),
            server_items@.len() == i,
            forall|j: int|
                0 <= j < i ==> (#[trigger] server_items@[j]).model() == spec_server_value(
                    servers@[j],
                ),
        decreases servers@.len() - i,
    {
        let mut o: Vec<Entry> = Vec::new();
        proof {
            assert(entries_of(o@) =~= Seq::<(Seq<char>, ValueModel)>::empty());
        }
        push_entry(&mut o, "url", JsonValue::Str(servers[i].url.clone()));
        push_entry(&mut o, "description", nullable_str_value(&servers[i].description));
        let ghost ov = o@;
        proof {
            assert(entries_of(ov) =~= spec_server_value(servers@[i as int])->Obj_0);
        }
        server_items.push(JsonValue::Obj(o));
        i = i + 1;
    }
    let ghost serversv = server_items@;
    proof {
        lemma_models_of(serversv);
        assert forall|j: int| 0 <= j < serversv.len() implies models_of(serversv)[j]
            == spec_server_value(servers@[j]) by {
            assert(models_of(serversv)[j] == serversv[j].model());
        }
        assert(models_of(serversv) =~= Seq::new(
            servers@.len(),
            |j: int| spec_server_value(servers@[j]),
        ));
    }
    push_entry(&mut out, "servers", JsonValue::Arr(server_items));

    let mut tag_items: Vec<JsonValue> = Vec::new();
    let mut i: usize = 0;
    while i < tags.len()
        invariant
            i <= tags@.len(),
            tag_items@.len() == i,
            forall|j: int|
                0 <= j < i ==> (#[trigger] tag_items@[j]).model() == spec_tag_value(tags@[j]),
        decreases tags@.len() - i,
    {
        let mut o: Vec<Entry> = Vec::new();
        proof {
            assert(entries_of(o@) =~= Seq::<(Seq<char>, ValueModel)>::empty());
        }
        push_entry(&mut o, "name", JsonValue::Str(tags[i].name.clone()));
        push_entry(&mut o, "description", nullable_str_value(&tags[i].description));
        let ghost ov = o@;
        proof {
            assert(entries_of(ov) =~= spec_tag_value(tags@[i as int])->Obj_0);
        }
        tag_items.push(JsonValue::Obj(o));
        i = i + 1;
    }
    let ghost tagsv = tag_items@;
    proof {
        lemma_models_of(tagsv);
        assert forall|j: int| 0 <= j < tagsv.len() implies models_of(tagsv)[j] == spec_tag_value(
            tags@[j],
        ) by {
            assert(models_of(tagsv)[j] == tagsv[j].model());
        }
        assert(models_of(tagsv) =~= Seq::new(tags@.len(), |j: int| spec_tag_value(tags@[j])));
    }
    push_entry(&mut out, "tags", JsonValue::Arr(tag_items));

    let mut path_entries: Vec<Entry> = Vec::new();
    let mut a: usize = 0;
    while a < apis.len()
        invariant
            a <= apis@.len(),
            entries_of(path_entries@) == spec_paths_pairs(
                spec_api_paths(apis@.subrange(0, a as int)),
            ),
        decreases apis@.len() - a,
    {
        let mut p: usize = 0;
        while p < apis[a].paths.len()
            invariant
                a < apis@.len(),
                p <= apis@[a as int].paths@.len(),
                entries_of(path_entries@) == spec_paths_pairs(
                    spec_api_paths(apis@.subrange(0, a as int)) + apis@[a as int].paths@.subrange(
                        0,
                        p as int,
                    ),
                ),
            decreases apis@[a as int].paths@.len() - p,
        {
            let path = &apis[a].paths[p];
            let mut ops: Vec<Entry> = Vec::new();
            let mut o: usize = 0;
            while o < path.operations.len()
                invariant
                    o <= path.operations@.len(),
                    ops@.len() == o,
                    forall|j: int|
                        0 <= j < o ==> (#[trigger] entries_of(ops@)[j]) == spec_path_pairs(
                            path.operations@,
                        )[j],
                decreases path.operations@.len() - o,
            {
                let key = String::from_str(path.operations[o].method.key());
                let v = operation_value(&path.operations[o]);
                let ghost pre = ops@;
                let e = Entry { key, val: v };
                proof {
                    lemma_entries_push(pre, e);
                    lemma_entries_of(pre);
                    lemma_entries_of(pre.push(e));
                }
                ops.push(e);
                o = o + 1;
            }
            let ghost opsv = ops@;
            proof {
                lemma_entries_of(opsv);
                assert(entries_of(opsv) =~= spec_path_pairs(path.operations@));
            }
            let ghost pre = path_entries@;
            let e = Entry { key: template_path(path.path.as_str()), val: JsonValue::Obj(ops) };
            proof {
                lemma_entries_push(pre, e);
            }
            path_entries.push(e);
            proof {
                let full = spec_api_paths(apis@.subrange(0, a as int)) + apis@[a as int].paths@
                    .subrange(0, p as int + 1);
                let prevfull = spec_api_paths(apis@.subrange(0, a as int)) + apis@[a as int]
                    .paths@.subrange(0, p as int);
                assert(full.subrange(0, full.len() - 1) =~= prevfull);
                assert(full[full.len() - 1] == apis@[a as int].paths@[p as int]);
                assert forall|j: int| 0 <= j < full.len() implies spec_paths_pairs(full)[j] == (
                if j < prevfull.len() {
                    spec_paths_pairs(prevfull)[j]
                } else {
                    entries_of(path_entries@)[j]
                }) by {
                    if j < prevfull.len() {
                        assert(full[j] == prevfull[j]);
                    }
                }
                assert(entries_of(path_entries@) =~= spec_paths_pairs(full));
            }
            p = p + 1;
        }
        proof {
            assert(spec_api_paths(apis@.subrange(0, a as int + 1)) =~= spec_api_paths(
                apis@.subrange(0, a as int),
            ) + apis@[a as int].paths@) by {
                assert(apis@.subrange(0, a as int + 1).subrange(0, a as int) =~= apis@.subrange(
                    0,
                    a as int,
                ));
                assert(apis@.subrange(0, a as int + 1)[a as int] == apis@[a as int]);
            }
            assert(apis@[a as int].paths@.subrange(0, apis@[a as int].paths@.len() as int)
                =~= apis@[a as int].paths@);
        }
        a = a + 1;
    }
    proof {
        assert(apis@.subrange(0, a as int) =~= apis@);
    }
    push_entry(&mut out, "paths", JsonValue::Obj(path_entries));

    let mut schema_entries: Vec<Entry> = Vec::new();
    let mut i: usize = 0;
    while i < registry.schemas.len()
        invariant
            i <= registry.schemas@.len(),
            schema_entries@.len() == i,
            forall|j: int|
                0 <= j < i ==> (#[trigger] entries_of(schema_entries@)[j]) == spec_schemas_pairs(
                    registry.schemas@,
                )[j],
        decreases registry.schemas@.len() - i,
    {
        let v = schema_value(&registry.schemas[i].1);
        let ghost pre = schema_entries@;
        let e = Entry { key: registry.schemas[i].0.clone(), val: v };
        proof {
            lemma_entries_push(pre, e);
            lemma_entries_of(pre);
            lemma_entries_of(pre.push(e));
        }
        schema_entries.push(e);
        i = i + 1;
    }
    let ghost schemasv = schema_entries@;
    proof {
        lemma_entries_of(schemasv);
        assert(entries_of(schemasv) =~= spec_schemas_pairs(registry.schemas@));
    }
    let mut components: Vec<Entry> = Vec::new();
    proof {
        assert(entries_of(components@) =~= Seq::<(Seq<char>, ValueModel)>::empty());
    }
    push_entry(&mut components, "schemas", JsonValue::Obj(schema_entries));
    push_entry(&mut out, "components", JsonValue::Obj(components));

    let ghost outv = out@;
    let r = JsonValue::Obj(out);
    proof {
        assert(entries_of(outv) =~= spec_document_value(
            *info,
            servers@,
            tags@,
            apis@,
            registry.schemas@,
        )->Obj_0);
    }
    r
}

/// The service container: one API object together with the document's
/// info, servers and tags.
pub struct OpenApiService<T> {
    pub api: T,
    pub info: Option<MetaInfo>,
    pub servers: Vec<MetaServer>,
    pub tags: Vec<MetaTag>,
}

impl<T> OpenApiService<T> {
    /// Create a service container around an API object.
    pub fn new(api: T) -> (r: OpenApiService<T>)
        ensures
            r.api == api,
            r.info is None,
            r.servers@.len() == 0,
            r.tags@.len() == 0,
    {
        OpenApiService { api, info: None, servers: Vec::new(), tags: Vec::new() }
    }

    /// Set the title of the document's info block.
    pub fn title(self, title: String) -> (r: OpenApiService<T>)
        ensures
            r.api == self.api,
            r.servers == self.servers,
            r.tags == self.tags,
            r.info matches Some(i) && i.title == Some(title) && match self.info {
                Some(i0) => i.description == i0.description && i.version == i0.version,
                None => i.description is None && i.version is None,
            },
    {
        let info = match self.info {
            Some(i0) => MetaInfo { title: Some(title), description: i0.description, version: i0.version },
            None => MetaInfo { title: Some(title), description: None, version: None },
        };
        OpenApiService { api: self.api, info: Some(info), servers: self.servers, tags: self.tags }
    }

    /// Set the description of the document's info block.
    pub fn description(self, description: String) -> (r: OpenApiService<T>)
        ensures
            r.api == self.api,
            r.servers == self.servers,
            r.tags == self.tags,
            r.info matches Some(i) && i.description == Some(description) && match self.info {
                Some(i0) => i.title == i0.title && i.version == i0.version,
                None => i.title is None && i.version is None,
            },
    {
        let info = match self.info {
            Some(i0) => MetaInfo { title: i0.title, description: Some(description), version: i0.version },
            None => MetaInfo { title: None, description: Some(description), version: None },
        };
        OpenApiService { api: self.api, info: Some(info), servers: self.servers, tags: self.tags }
    }

    /// Set the version of the document's info block.
    pub fn version(self, version: String) -> (r: OpenApiService<T>)
        ensures
            r.api == self.api,
            r.servers == self.servers,
            r.tags == self.tags,
            r.info matches Some(i) && i.version == Some(version) && match self.info {
                Some(i0) => i.title == i0.title && i.description == i0.description,
                None => i.title is None && i.description is None,
            },
    {
        let info = match self.info {
            Some(i0) => MetaInfo { title: i0.title, description: i0.description, version: Some(version) },
            None => MetaInfo { title: None, description: None, version: Some(version) },
        };
        OpenApiService { api: self.api, info: Some(info), servers: self.servers, tags: self.tags }
    }

    /// Append a server without a description.
    pub fn server(self, url: String) -> (r: OpenApiService<T>)
        ensures
            r.api == self.api,
            r.info == self.info,
            r.tags == self.tags,
            r.servers@.len() == self.servers@.len() + 1,
            r.servers@.subrange(0, self.servers@.len() as int) == self.servers@,
            r.servers@.last().url@ == url@,
            r.servers@.last().description is None,
    {
        let mut servers = self.servers;
        servers.push(MetaServer { url, description: None });
        proof {
            assert(servers@.subrange(0, servers@.len() - 1) =~= self.servers@);
        }
        OpenApiService { api: self.api, info: self.info, servers, tags: self.tags }
    }

    /// Append a server with a description.
    pub fn server_with_description(self, url: String, description: String) -> (r: OpenApiService<
        T,
    >)
        ensures
            r.api == self.api,
            r.info == self.info,
            r.tags == self.tags,
            r.servers@.len() == self.servers@.len() + 1,
            r.servers@.subrange(0, self.servers@.len() as int) == self.servers@,
            r.servers@.last().url@ == url@,
            r.servers@.last().description matches Some(d) && d@ == description@,
    {
        let mut servers = self.servers;
        servers.push(MetaServer { url, description: Some(description) });
        proof {
            assert(servers@.subrange(0, servers@.len() - 1) =~= self.servers@);
        }
        OpenApiService { api: self.api, info: self.info, servers, tags: self.tags }
    }
}

impl<T: OpenApi> OpenApiService<T> {
    /// Build the whole document: register every schema the API needs into
    /// a fresh registry, then render the fixed top-level object from the
    /// API's own paths and exactly the entries its registration produced.
    pub fn document(&self) -> (r: JsonValue)
        ensures
            r@ == spec_document_value(
                self.info,
                self.servers@,
                self.tags@,
                T::spec_api_meta(),
                T::spec_register(Seq::empty()),
            ),
    {
        let mut registry = Registry::new();
        proof {
            assert(registry.schemas@ =~= Seq::<(String, MetaSchema)>::empty());
        }
        T::register(&mut registry);
        let apis = T::meta();
        document_value(&self.info, &self.servers, &self.tags, &apis, &registry)
    }
}

} // verus!
