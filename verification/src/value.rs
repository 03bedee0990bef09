//! The universal value model: the tagged union that sits between wire bytes
//! and typed values.  Numbers are integers; an object keeps its keys in
//! insertion order.

use vstd::prelude::*;

verus! {

/// The mathematical form of a value: what contracts speak about.
pub ghost enum ValueModel {
    Null,
    Bool(bool),
    Int(int),
    Str(Seq<char>),
    Arr(Seq<ValueModel>),
    Obj(Seq<(Seq<char>, ValueModel)>),
}

/// A wire number.  A non-negative number is always carried as `Unsigned`,
/// so that equal numbers have equal representations.
#[derive(Debug, PartialEq)]
pub enum Number {
    Unsigned(u64),
    Signed(i64),
}

impl Number {
    /// The integer a number stands for.
    pub open spec fn model(self) -> int {
        match self {
            Number::Unsigned(u) => u as int,
            Number::Signed(i) => i as int,
        }
    }

    /// Canonical form: the signed variant is only used for negative values.
    pub open spec fn wf(self) -> bool {
        match self {
            Number::Unsigned(_) => true,
            Number::Signed(i) => i < 0,
        }
    }
}

/// One key/value pair of an object.
#[derive(Debug, PartialEq)]
pub struct Entry {
    pub key: String,
    pub val: JsonValue,
}

/// A JSON-style value.
#[derive(Debug, PartialEq)]
pub enum JsonValue {
    Null,
    Bool(bool),
    Num(Number),
    Str(String),
    Arr(Vec<JsonValue>),
    Obj(Vec<Entry>),
}

/// The models of a sequence of values, element by element.
pub open spec fn models_of(s: Seq<JsonValue>) -> Seq<ValueModel>
    decreases s,
{
    if s.len() == 0 {
        Seq::empty()
    } else {
        models_of(s.subrange(0, s.len() - 1)).push(s[s.len() - 1].model())
    }
}

/// The models of a sequence of object entries, element by element.
pub open spec fn entries_of(s: Seq<Entry>) -> Seq<(Seq<char>, ValueModel)>
    decreases s,
{
    if s.len() == 0 {
        Seq::empty()
    } else {
        entries_of(s.subrange(0, s.len() - 1)).push(
            (s[s.len() - 1].key@, s[s.len() - 1].val.model()),
        )
    }
}

impl JsonValue {
    /// The mathematical value this tree stands for.
    pub open spec fn model(self) -> ValueModel
        decreases self,
    {
        match self {
            JsonValue::Null => ValueModel::Null,
            JsonValue::Bool(b) => ValueModel::Bool(b),
            JsonValue::Num(n) => ValueModel::Int(n.model()),
            JsonValue::Str(s) => ValueModel::Str(s@),
            JsonValue::Arr(xs) => ValueModel::Arr(models_of(xs@)),
            JsonValue::Obj(ps) => ValueModel::Obj(entries_of(ps@)),
        }
    }

    /// Every number in the tree is in canonical form.
    pub open spec fn wf(self) -> bool
        decreases self,
    {
        match self {
            JsonValue::Null => true,
            JsonValue::Bool(_) => true,
            JsonValue::Num(n) => n.wf(),
            JsonValue::Str(_) => true,
            JsonValue::Arr(xs) => forall|i: int| 0 <= i < xs@.len() ==> #[trigger] xs@[i].wf(),
            JsonValue::Obj(ps) => forall|i: int| 0 <= i < ps@.len() ==> #[trigger] ps@[i].val.wf(),
        }
    }
}

/// What `models_of` holds at each index.
pub proof fn lemma_models_of(s: Seq<JsonValue>)
    ensures
        models_of(s).len() == s.len(),
        forall|i: int| 0 <= i < s.len() ==> models_of(s)[i] == #[trigger] s[i].model(),
    decreases s.len(),
{
    if s.len() > 0 {
        let pre = s.subrange(0, s.len() - 1);
        lemma_models_of(pre);
        assert forall|i: int| 0 <= i < s.len() implies models_of(s)[i] == #[trigger] s[i].model() by {
            if i < s.len() - 1 {
                assert(models_of(s)[i] == models_of(pre)[i]);
                assert(pre[i] == s[i]);
            }
        }
    }
}

/// What `entries_of` holds at each index.
pub proof fn lemma_entries_of(s: Seq<Entry>)
    ensures
        entries_of(s).len() == s.len(),
        forall|i: int|
            0 <= i < s.len() ==> entries_of(s)[i] == (#[trigger] s[i].key@, s[i].val.model()),
    decreases s.len(),
{
    if s.len() > 0 {
        let pre = s.subrange(0, s.len() - 1);
        lemma_entries_of(pre);
        assert forall|i: int|
            0 <= i < s.len() implies entries_of(s)[i] == (#[trigger] s[i].key@, s[i].val.model()) by {
            if i < s.len() - 1 {
                assert(entries_of(s)[i] == entries_of(pre)[i]);
                assert(pre[i] == s[i]);
            }
        }
    }
}

impl View for JsonValue {
    type V = ValueModel;

    open spec fn view(&self) -> ValueModel {
        self.model()
    }
}

/// Build a number value in canonical form from any integer in the wire range.
pub fn int_value(n: i128) -> (r: JsonValue)
    requires
        -0x8000_0000_0000_0000 <= n < 0x1_0000_0000_0000_0000,
    ensures
        r@ == ValueModel::Int(n as int),
        r.wf(),
{
    if n >= 0 {
        JsonValue::Num(Number::Unsigned(n as u64))
    } else {
        JsonValue::Num(Number::Signed(n as i64))
    }
}

} // verus!
