//! Arrays: a vector of any bindable element type.  Parsing is element by
//! element, and the first failing element's error is propagated with the
//! array's own name as context, not swallowed.

use vstd::prelude::*;
use crate::registry::{MetaSchema, MetaSchemaRef, Registry, registry_extends};
use crate::types::{
    ParseError, Type, TypeName, TypeNameModel, display_of, msg_custom, msg_expected_input,
    msg_expected_type, spec_propagate,
};
use crate::value::{JsonValue, ValueModel, lemma_models_of, models_of};

verus! {

use vstd::string::StringExecFns;

/// The wire forms of a sequence of typed values.
pub open spec fn wires_of<T: Type>(s: Seq<T>) -> Seq<ValueModel> {
    Seq::new(s.len(), |i: int| s[i].wire())
}

/// The abstract values of a sequence of typed values.
pub open spec fn deep_views_of<T: Type>(s: Seq<T>) -> Seq<T::V> {
    Seq::new(s.len(), |i: int| s[i].deep_view())
}

/// What parsing the elements of an array returns: the parsed elements in
/// order, or the first failing element's error propagated to the array.
pub open spec fn spec_parse_elems<T: Type>(s: Seq<ValueModel>) -> Result<Seq<T::V>, Seq<char>>
    decreases s.len(),
{
    if s.len() == 0 {
        Ok(Seq::empty())
    } else {
        match spec_parse_elems::<T>(s.drop_last()) {
            Ok(pre) => match T::spec_parse(Some(s.last())) {
                Ok(x) => Ok(pre.push(x)),
                Err(e) => Err(
                    spec_propagate(
                        e,
                        display_of(T::spec_name()),
                        display_of(TypeNameModel::Array(Box::new(T::spec_name()))),
                    ),
                ),
            },
            Err(e) => Err(e),
        }
    }
}

/// If every element before `k` parses and element `k` fails, the whole
/// array fails with element `k`'s error, propagated.
proof fn lemma_elems_err<T: Type>(s: Seq<ValueModel>, k: int)
    requires
        0 <= k < s.len(),
        spec_parse_elems::<T>(s.take(k)) is Ok,
        T::spec_parse(Some(s[k])) is Err,
    ensures
        spec_parse_elems::<T>(s) == Err::<Seq<T::V>, Seq<char>>(
            spec_propagate(
                T::spec_parse(Some(s[k]))->Err_0,
                display_of(T::spec_name()),
                display_of(TypeNameModel::Array(Box::new(T::spec_name()))),
            ),
        ),
    decreases s.len(),
{
    if s.len() == k + 1 {
        assert(s.drop_last() =~= s.take(k));
        assert(s.last() == s[k]);
    } else {
        assert(s.drop_last().take(k) =~= s.take(k));
        assert(s.drop_last()[k] == s[k]);
        lemma_elems_err::<T>(s.drop_last(), k);
    }
}

/// Round trip for element sequences: parsing the wires of a sequence gives
/// back its abstract values.
proof fn lemma_elems_roundtrip<T: Type>(s: Seq<T>)
    requires
        T::roundtrips(),
    ensures
        spec_parse_elems::<T>(wires_of(s)) == Ok::<Seq<T::V>, Seq<char>>(deep_views_of(s)),
    decreases s.len(),
{
    if s.len() == 0 {
        assert(wires_of(s) =~= Seq::<ValueModel>::empty());
        assert(deep_views_of(s) =~= Seq::<T::V>::empty());
    } else {
        lemma_elems_roundtrip::<T>(s.drop_last());
        T::lemma_wire_roundtrip(s.last());
        assert(wires_of(s).drop_last() =~= wires_of(s.drop_last()));
        assert(wires_of(s).last() == s.last().wire());
        assert(deep_views_of(s.drop_last()).push(s.last().deep_view()) =~= deep_views_of(s));
    }
}

impl<T: Type> Type for Vec<T> {
    open spec fn spec_name() -> TypeNameModel {
        TypeNameModel::Array(Box::new(T::spec_name()))
    }

    open spec fn spec_required() -> bool {
        true
    }

    open spec fn wire(&self) -> ValueModel {
        ValueModel::Arr(wires_of(self@))
    }

    open spec fn spec_parse(v: Option<ValueModel>) -> Result<Seq<T::V>, Seq<char>> {
        match v {
            None => Err(msg_expected_input(display_of(Self::spec_name()))),
            Some(m) => match m {
                ValueModel::Arr(s) => spec_parse_elems::<T>(s),
                _ => Err(msg_expected_type(display_of(Self::spec_name()), m)),
            },
        }
    }

    open spec fn spec_parse_str(s: Option<Seq<char>>) -> Result<Seq<T::V>, Seq<char>> {
        Err(msg_custom(display_of(Self::spec_name()), "not support parsing from parameter"@))
    }

    open spec fn schema_ok(r: MetaSchemaRef) -> bool {
        &&& r matches MetaSchemaRef::Inline(s)
        &&& s.ty@ == "array"@
        &&& s.format is None
        &&& s.no_constraints()
        &&& s.items matches Some(b) && T::schema_ok(*b)
    }

    open spec fn wire_nonnull() -> bool {
        true
    }

    open spec fn roundtrips() -> bool {
        T::roundtrips()
    }

    fn name() -> (r: TypeName) {
        TypeName::Array(Box::new(T::name()))
    }

    fn is_required() -> (r: bool) {
        true
    }

    fn schema_ref() -> (r: MetaSchemaRef) {
        let mut s = MetaSchema::new(String::from_str("array"));
        s.items = Some(Box::new(T::schema_ref()));
        MetaSchemaRef::Inline(s)
    }

    fn register(registry: &mut Registry) {
        T::register(registry);
    }

    fn parse(value: Option<JsonValue>) -> (r: Result<Vec<T>, ParseError>) {
        let ghost vm0 = crate::types::opt_model(value);
        let name = <Vec<T> as Type>::name();
        match value {
            None => Err(ParseError::expected_input(&name)),
            Some(v) => match v {
                JsonValue::Arr(values) => {
                    let mut values = values;
                    let ghost orig = values@;
                    let ghost ms = models_of(orig);
                    proof {
                        lemma_models_of(orig);
                    }
                    let mut out: Vec<T> = Vec::new();
                    proof {
                        assert(ms.take(0) =~= Seq::<ValueModel>::empty());
                        assert(out.deep_view() =~= Seq::<T::V>::empty());
                    }
                    while values.len() > 0
                        invariant
                            name@ == Self::spec_name(),
                            vm0 == Some(ValueModel::Arr(ms)),
                            vm0 == crate::types::opt_model(value),
                            ms == models_of(orig),
                            ms.len() == orig.len(),
                            forall|i: int|
                                0 <= i < orig.len() ==> ms[i] == #[trigger] orig[i].model(),
                            out@.len() + values@.len() == orig.len(),
                            values@ =~= orig.skip(out@.len() as int),
                            spec_parse_elems::<T>(ms.take(out@.len() as int)) == Ok::<
                                Seq<T::V>,
                                Seq<char>,
                            >(out.deep_view()),
                        decreases values@.len(),
                    {
                        let ghost k = out@.len() as int;
                        let v0 = values.remove(0);
                        proof {
                            assert(orig.skip(k)[0] == orig[k]);
                            assert(values@ =~= orig.skip(k + 1));
                            assert(v0 == orig[k]);
                        }
                        match T::parse(Some(v0)) {
                            Ok(x) => {
                                let ghost prev = out.deep_view();
                                out.push(x);
                                proof {
                                    assert(out.deep_view() =~= prev.push(x.deep_view()));
                                    assert(ms.take(k + 1).drop_last() =~= ms.take(k));
                                    assert(ms.take(k + 1).last() == ms[k]);
                                }
                            },
                            Err(e) => {
                                proof {
                                    lemma_elems_err::<T>(ms, k);
                                }
                                return Err(e.propagate(&name));
                            },
                        }
                    }
                    proof {
                        assert(ms.take(out@.len() as int) =~= ms);
                    }
                    Ok(out)
                },
                _ => Err(ParseError::expected_type(&name, &v)),
            },
        }
    }

    fn parse_from_str(value: Option<&str>) -> (r: Result<Vec<T>, ParseError>) {
        let name = <Vec<T> as Type>::name();
        Err(ParseError::not_support_parsing_from_parameter(&name))
    }

    fn to_value(&self) -> (r: JsonValue) {
        let mut items: Vec<JsonValue> = Vec::new();
        let mut i: usize = 0;
        while i < self.len()
            invariant
                i <= self@.len(),
                items@.len() == i,
                forall|j: int| 0 <= j < i ==> (#[trigger] items@[j]).wf(),
                forall|j: int| 0 <= j < i ==> (#[trigger] items@[j]).model() == self@[j].wire(),
            decreases self@.len() - i,
        {
            let t = &self[i];
            let v = t.to_value();
            items.push(v);
            i = i + 1;
        }
        let ghost itemsv = items@;
        let r = JsonValue::Arr(items);
        proof {
            lemma_models_of(itemsv);
            assert forall|j: int|
                0 <= j < itemsv.len() implies models_of(itemsv)[j] == wires_of(self@)[j] by {
                assert(itemsv[j].model() == self@[j].wire());
            }
            assert(models_of(itemsv) =~= wires_of(self@));
        }
        r
    }

    proof fn lemma_wire_nonnull(x: Vec<T>) {
    }

    proof fn lemma_wire_roundtrip(x: Vec<T>) {
        lemma_elems_roundtrip::<T>(x@);
        assert(x.deep_view() =~= deep_views_of(x@));
    }
}

} // verus!
