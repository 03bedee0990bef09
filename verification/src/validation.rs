//! The validation pipeline: independent, composable constraints attached to
//! a field or parameter, applied in declaration order after a successful
//! parse.  Each validator is both a runtime predicate and a contributor of
//! constraint metadata to the emitted schema.

use vstd::prelude::*;
use crate::codec::{regex_accepts, regex_is_valid, regex_matches, regex_ok};
use crate::registry::MetaSchema;
use crate::strfmt::{dec_int, dec_nat, i64_to_dec, u64_to_dec, usize_to_dec};
use crate::value::{JsonValue, Number, ValueModel};

verus! {

use vstd::string::{StrSliceExecFns, StringExecFns};

/// A runtime predicate over wire values that also contributes constraint
/// metadata to the schema.
pub trait Validator: Sized {
    /// The structural soundness of the validator itself.
    spec fn wf(&self) -> bool;

    /// Whether a wire value passes the check.
    spec fn spec_check(&self, v: ValueModel) -> bool;

    /// The canonical notation of the validator.
    spec fn spec_display(&self) -> Seq<char>;

    /// The metadata the validator contributes to a schema.
    spec fn spec_update(&self, before: MetaSchema) -> MetaSchema;

    /// Whether a wire value passes the check.
    fn check(&self, value: &JsonValue) -> (r: bool)
        requires
            self.wf(),
        ensures
            r == self.spec_check(value@),
    ;

    /// Render the canonical notation of the validator.
    fn display(&self) -> (r: String)
        requires
            self.wf(),
        ensures
            r@ == self.spec_display(),
    ;

    /// Contribute this validator's constraint to the schema.
    fn update_meta(&self, meta: &mut MetaSchema)
        requires
            self.wf(),
        ensures
            *final(meta) == self.spec_update(*old(meta)),
    ;
}

/// The divisor must divide the value: `multipleOf(n)`, `n > 0`.
#[derive(Debug, Clone, PartialEq)]
pub struct MultipleOf {
    pub n: u64,
}

impl MultipleOf {
    /// A divisor check; the divisor must be strictly positive.
    pub fn new(n: u64) -> (r: Option<MultipleOf>)
        ensures
            match r {
                Some(v) => v.n == n && v.wf(),
                None => n == 0,
            },
    {
        if n > 0 {
            Some(MultipleOf { n })
        } else {
            None
        }
    }
}

impl Validator for MultipleOf {
    open spec fn wf(&self) -> bool {
        self.n > 0
    }

    open spec fn spec_check(&self, v: ValueModel) -> bool {
        match v {
            ValueModel::Int(i) => (if i >= 0 {
                i
            } else {
                -i
            }) % (self.n as int) == 0,
            _ => false,
        }
    }

    open spec fn spec_display(&self) -> Seq<char> {
        "multipleOf("@ + dec_nat(self.n as int) + ")"@
    }

    open spec fn spec_update(&self, before: MetaSchema) -> MetaSchema {
        MetaSchema { multiple_of: Some(self.n), ..before }
    }

    fn check(&self, value: &JsonValue) -> (r: bool) {
        match value {
            JsonValue::Num(num) => {
                let v: i128 = match num {
                    Number::Unsigned(u) => *u as i128,
                    Number::Signed(i) => *i as i128,
                };
                let m: i128 = if v >= 0 {
                    v
                } else {
                    -v
                };
                m % (self.n as i128) == 0
            },
            _ => false,
        }
    }

    fn display(&self) -> (r: String) {
        let mut s = String::from_str("multipleOf(");
        let shown = u64_to_dec(self.n);
        s.append(shown.as_str());
        s.append(")");
        proof {
            assert(s@ =~= self.spec_display());
        }
        s
    }

    fn update_meta(&self, meta: &mut MetaSchema) {
        meta.multiple_of = Some(self.n);
    }
}

/// An upper bound: `maximum(n, exclusive: b)`.
#[derive(Debug, Clone, PartialEq)]
pub struct Maximum {
    pub n: i64,
    pub exclusive: bool,
}

impl Maximum {
    /// An upper bound, strict when `exclusive` is set.
    pub fn new(n: i64, exclusive: bool) -> (r: Maximum)
        ensures
            r.n == n && r.exclusive == exclusive,
    {
        Maximum { n, exclusive }
    }
}

impl Validator for Maximum {
    open spec fn wf(&self) -> bool {
        true
    }

    open spec fn spec_check(&self, v: ValueModel) -> bool {
        match v {
            ValueModel::Int(i) => if self.exclusive {
                i < self.n as int
            } else {
                i <= self.n as int
            },
            _ => false,
        }
    }

    open spec fn spec_display(&self) -> Seq<char> {
        "maximum("@ + dec_int(self.n as int) + ", exclusive: "@ + (if self.exclusive {
            "true"@
        } else {
            "false"@
        }) + ")"@
    }

    open spec fn spec_update(&self, before: MetaSchema) -> MetaSchema {
        MetaSchema {
            maximum: Some(self.n),
            exclusive_maximum: if self.exclusive {
                Some(true)
            } else {
                before.exclusive_maximum
            },
            ..before
        }
    }

    fn check(&self, value: &JsonValue) -> (r: bool) {
        match value {
            JsonValue::Num(num) => {
                let v: i128 = match num {
                    Number::Unsigned(u) => *u as i128,
                    Number::Signed(i) => *i as i128,
                };
                if self.exclusive {
                    v < self.n as i128
                } else {
                    v <= self.n as i128
                }
            },
            _ => false,
        }
    }

    fn display(&self) -> (r: String) {
        let mut s = String::from_str("maximum(");
        let shown = i64_to_dec(self.n);
        s.append(shown.as_str());
        s.append(", exclusive: ");
        if self.exclusive {
            s.append("true");
        } else {
            s.append("false");
        }
        s.append(")");
        proof {
            assert(s@ =~= self.spec_display());
        }
        s
    }

    fn update_meta(&self, meta: &mut MetaSchema) {
        meta.maximum = Some(self.n);
        if self.exclusive {
            meta.exclusive_maximum = Some(true);
        }
    }
}

/// A lower bound: `minimum(n, exclusive: b)`.
#[derive(Debug, Clone, PartialEq)]
pub struct Minimum {
    pub n: i64,
    pub exclusive: bool,
}

impl Minimum {
    /// A lower bound, strict when `exclusive` is set.
    pub fn new(n: i64, exclusive: bool) -> (r: Minimum)
        ensures
            r.n == n && r.exclusive == exclusive,
    {
        Minimum { n, exclusive }
    }
}

impl Validator for Minimum {
    open spec fn wf(&self) -> bool {
        true
    }

    open spec fn spec_check(&self, v: ValueModel) -> bool {
        match v {
            ValueModel::Int(i) => if self.exclusive {
                i > self.n as int
            } else {
                i >= self.n as int
            },
            _ => false,
        }
    }

    open spec fn spec_display(&self) -> Seq<char> {
        "minimum("@ + dec_int(self.n as int) + ", exclusive: "@ + (if self.exclusive {
            "true"@
        } else {
            "false"@
        }) + ")"@
    }

    open spec fn spec_update(&self, before: MetaSchema) -> MetaSchema {
        MetaSchema {
            minimum: Some(self.n),
            exclusive_minimum: if self.exclusive {
                Some(true)
            } else {
                before.exclusive_minimum
            },
            ..before
        }
    }

    fn check(&self, value: &JsonValue) -> (r: bool) {
        match value {
            JsonValue::Num(num) => {
                let v: i128 = match num {
                    Number::Unsigned(u) => *u as i128,
                    Number::Signed(i) => *i as i128,
                };
                if self.exclusive {
                    v > self.n as i128
                } else {
                    v >= self.n as i128
                }
            },
            _ => false,
        }
    }

    fn display(&self) -> (r: String) {
        let mut s = String::from_str("minimum(");
        let shown = i64_to_dec(self.n);
        s.append(shown.as_str());
        s.append(", exclusive: ");
        if self.exclusive {
            s.append("true");
        } else {
            s.append("false");
        }
        s.append(")");
        proof {
            assert(s@ =~= self.spec_display());
        }
        s
    }

    fn update_meta(&self, meta: &mut MetaSchema) {
        meta.minimum = Some(self.n);
        if self.exclusive {
            meta.exclusive_minimum = Some(true);
        }
    }
}

/// A longest admissible string, counted in characters: `maxLength(n)`.
#[derive(Debug, Clone, PartialEq)]
pub struct MaxLength {
    pub len: usize,
}

impl MaxLength {
    /// A longest admissible string length.
    pub fn new(len: usize) -> (r: MaxLength)
        ensures
            r.len == len,
    {
        MaxLength { len }
    }
}

impl Validator for MaxLength {
    open spec fn wf(&self) -> bool {
        true
    }

    open spec fn spec_check(&self, v: ValueModel) -> bool {
        match v {
            ValueModel::Str(s) => s.len() <= self.len,
            _ => false,
        }
    }

    open spec fn spec_display(&self) -> Seq<char> {
        "maxLength("@ + dec_nat(self.len as int) + ")"@
    }

    open spec fn spec_update(&self, before: MetaSchema) -> MetaSchema {
        MetaSchema { max_length: Some(self.len), ..before }
    }

    fn check(&self, value: &JsonValue) -> (r: bool) {
        match value {
            JsonValue::Str(s) => s.as_str().unicode_len() <= self.len,
            _ => false,
        }
    }

    fn display(&self) -> (r: String) {
        let mut s = String::from_str("maxLength(");
        let shown = usize_to_dec(self.len);
        s.append(shown.as_str());
        s.append(")");
        proof {
            assert(s@ =~= self.spec_display());
        }
        s
    }

    fn update_meta(&self, meta: &mut MetaSchema) {
        meta.max_length = Some(self.len);
    }
}

/// A shortest admissible string, counted in characters: `minLength(n)`.
#[derive(Debug, Clone, PartialEq)]
pub struct MinLength {
    pub len: usize,
}

impl MinLength {
    /// A shortest admissible string length.
    pub fn new(len: usize) -> (r: MinLength)
        ensures
            r.len == len,
    {
        MinLength { len }
    }
}

impl Validator for MinLength {
    open spec fn wf(&self) -> bool {
        true
    }

    open spec fn spec_check(&self, v: ValueModel) -> bool {
        match v {
            ValueModel::Str(s) => s.len() >= self.len,
            _ => false,
        }
    }

    open spec fn spec_display(&self) -> Seq<char> {
        "minLength("@ + dec_nat(self.len as int) + ")"@
    }

    open spec fn spec_update(&self, before: MetaSchema) -> MetaSchema {
        MetaSchema { min_length: Some(self.len), ..before }
    }

    fn check(&self, value: &JsonValue) -> (r: bool) {
        match value {
            JsonValue::Str(s) => s.as_str().unicode_len() >= self.len,
            _ => false,
        }
    }

    fn display(&self) -> (r: String) {
        let mut s = String::from_str("minLength(");
        let shown = usize_to_dec(self.len);
        s.append(shown.as_str());
        s.append(")");
        proof {
            assert(s@ =~= self.spec_display());
        }
        s
    }

    fn update_meta(&self, meta: &mut MetaSchema) {
        meta.min_length = Some(self.len);
    }
}

/// A regular expression the string must match: `pattern("...")`.
#[derive(Debug, Clone, PartialEq)]
pub struct Pattern {
    pub pattern: String,
}

impl Pattern {
    /// A pattern check; the pattern must be a valid regular expression,
    /// which is decided here, before the system starts serving.
    pub fn new(pattern: String) -> (r: Option<Pattern>)
        ensures
            match r {
                Some(v) => v.pattern@ == pattern@ && v.wf(),
                None => !regex_ok(pattern@),
            },
    {
        if regex_is_valid(pattern.as_str()) {
            Some(Pattern { pattern })
        } else {
            None
        }
    }
}

impl Validator for Pattern {
    open spec fn wf(&self) -> bool {
        regex_ok(self.pattern@)
    }

    open spec fn spec_check(&self, v: ValueModel) -> bool {
        match v {
            ValueModel::Str(s) => regex_accepts(self.pattern@, s),
            _ => false,
        }
    }

    open spec fn spec_display(&self) -> Seq<char> {
        "pattern(\""@ + self.pattern@ + "\")"@
    }

    open spec fn spec_update(&self, before: MetaSchema) -> MetaSchema {
        MetaSchema { pattern: Some(self.pattern), ..before }
    }

    fn check(&self, value: &JsonValue) -> (r: bool) {
        match value {
            JsonValue::Str(s) => match regex_matches(self.pattern.as_str(), s.as_str()) {
                Some(m) => m,
                None => unreached(),
            },
            _ => false,
        }
    }

    fn display(&self) -> (r: String) {
        let mut s = String::from_str("pattern(\"");
        s.append(self.pattern.as_str());
        s.append("\")");
        proof {
            assert(s@ =~= self.spec_display());
        }
        s
    }

    fn update_meta(&self, meta: &mut MetaSchema) {
        meta.pattern = Some(self.pattern.clone());
    }
}

/// A largest admissible element count: `maxItems(n)`.
#[derive(Debug, Clone, PartialEq)]
pub struct MaxItems {
    pub len: usize,
}

impl MaxItems {
    /// A largest admissible element count.
    pub fn new(len: usize) -> (r: MaxItems)
        ensures
            r.len == len,
    {
        MaxItems { len }
    }
}

impl Validator for MaxItems {
    open spec fn wf(&self) -> bool {
        true
    }

    open spec fn spec_check(&self, v: ValueModel) -> bool {
        match v {
            ValueModel::Arr(xs) => xs.len() <= self.len,
            _ => false,
        }
    }

    open spec fn spec_display(&self) -> Seq<char> {
        "maxItems("@ + dec_nat(self.len as int) + ")"@
    }

    open spec fn spec_update(&self, before: MetaSchema) -> MetaSchema {
        MetaSchema { max_items: Some(self.len), ..before }
    }

    fn check(&self, value: &JsonValue) -> (r: bool) {
        match value {
            JsonValue::Arr(xs) => {
                proof {
                    crate::value::lemma_models_of(xs@);
                }
                xs.len() <= self.len
            },
            _ => false,
        }
    }

    fn display(&self) -> (r: String) {
        let mut s = String::from_str("maxItems(");
        let shown = usize_to_dec(self.len);
        s.append(shown.as_str());
        s.append(")");
        proof {
            assert(s@ =~= self.spec_display());
        }
        s
    }

    fn update_meta(&self, meta: &mut MetaSchema) {
        meta.max_items = Some(self.len);
    }
}

/// A smallest admissible element count: `minItems(n)`.
#[derive(Debug, Clone, PartialEq)]
pub struct MinItems {
    pub len: usize,
}

impl MinItems {
    /// A smallest admissible element count.
    pub fn new(len: usize) -> (r: MinItems)
        ensures
            r.len == len,
    {
        MinItems { len }
    }
}

impl Validator for MinItems {
    open spec fn wf(&self) -> bool {
        true
    }

    open spec fn spec_check(&self, v: ValueModel) -> bool {
        match v {
            ValueModel::Arr(xs) => xs.len() >= self.len,
            _ => false,
        }
    }

    open spec fn spec_display(&self) -> Seq<char> {
        "minItems("@ + dec_nat(self.len as int) + ")"@
    }

    open spec fn spec_update(&self, before: MetaSchema) -> MetaSchema {
        MetaSchema { min_items: Some(self.len), ..before }
    }

    fn check(&self, value: &JsonValue) -> (r: bool) {
        match value {
            JsonValue::Arr(xs) => {
                proof {
                    crate::value::lemma_models_of(xs@);
                }
                xs.len() >= self.len
            },
            _ => false,
        }
    }

    fn display(&self) -> (r: String) {
        let mut s = String::from_str("minItems(");
        let shown = usize_to_dec(self.len);
        s.append(shown.as_str());
        s.append(")");
        proof {
            assert(s@ =~= self.spec_display());
        }
        s
    }

    fn update_meta(&self, meta: &mut MetaSchema) {
        meta.min_items = Some(self.len);
    }
}

/// One constraint of the pipeline, of any kind.
#[derive(Debug, Clone, PartialEq)]
pub enum ValidatorSpec {
    MultipleOf(MultipleOf),
    Maximum(Maximum),
    Minimum(Minimum),
    MaxLength(MaxLength),
    MinLength(MinLength),
    Pattern(Pattern),
    MaxItems(MaxItems),
    MinItems(MinItems),
}

impl Validator for ValidatorSpec {
    open spec fn wf(&self) -> bool {
        match self {
            ValidatorSpec::MultipleOf(v) => v.wf(),
            ValidatorSpec::Maximum(v) => v.wf(),
            ValidatorSpec::Minimum(v) => v.wf(),
            ValidatorSpec::MaxLength(v) => v.wf(),
            ValidatorSpec::MinLength(v) => v.wf(),
            ValidatorSpec::Pattern(v) => v.wf(),
            ValidatorSpec::MaxItems(v) => v.wf(),
            ValidatorSpec::MinItems(v) => v.wf(),
        }
    }

    open spec fn spec_check(&self, v: ValueModel) -> bool {
        match self {
            ValidatorSpec::MultipleOf(x) => x.spec_check(v),
            ValidatorSpec::Maximum(x) => x.spec_check(v),
            ValidatorSpec::Minimum(x) => x.spec_check(v),
            ValidatorSpec::MaxLength(x) => x.spec_check(v),
            ValidatorSpec::MinLength(x) => x.spec_check(v),
            ValidatorSpec::Pattern(x) => x.spec_check(v),
            ValidatorSpec::MaxItems(x) => x.spec_check(v),
            ValidatorSpec::MinItems(x) => x.spec_check(v),
        }
    }

    open spec fn spec_display(&self) -> Seq<char> {
        match self {
            ValidatorSpec::MultipleOf(x) => x.spec_display(),
            ValidatorSpec::Maximum(x) => x.spec_display(),
            ValidatorSpec::Minimum(x) => x.spec_display(),
            ValidatorSpec::MaxLength(x) => x.spec_display(),
            ValidatorSpec::MinLength(x) => x.spec_display(),
            ValidatorSpec::Pattern(x) => x.spec_display(),
            ValidatorSpec::MaxItems(x) => x.spec_display(),
            ValidatorSpec::MinItems(x) => x.spec_display(),
        }
    }

    open spec fn spec_update(&self, before: MetaSchema) -> MetaSchema {
        match self {
            ValidatorSpec::MultipleOf(x) => x.spec_update(before),
            ValidatorSpec::Maximum(x) => x.spec_update(before),
            ValidatorSpec::Minimum(x) => x.spec_update(before),
            ValidatorSpec::MaxLength(x) => x.spec_update(before),
            ValidatorSpec::MinLength(x) => x.spec_update(before),
            ValidatorSpec::Pattern(x) => x.spec_update(before),
            ValidatorSpec::MaxItems(x) => x.spec_update(before),
            ValidatorSpec::MinItems(x) => x.spec_update(before),
        }
    }

    fn check(&self, value: &JsonValue) -> (r: bool) {
        match self {
            ValidatorSpec::MultipleOf(x) => x.check(value),
            ValidatorSpec::Maximum(x) => x.check(value),
            ValidatorSpec::Minimum(x) => x.check(value),
            ValidatorSpec::MaxLength(x) => x.check(value),
            ValidatorSpec::MinLength(x) => x.check(value),
            ValidatorSpec::Pattern(x) => x.check(value),
            ValidatorSpec::MaxItems(x) => x.check(value),
            ValidatorSpec::MinItems(x) => x.check(value),
        }
    }

    fn display(&self) -> (r: String) {
        match self {
            ValidatorSpec::MultipleOf(x) => x.display(),
            ValidatorSpec::Maximum(x) => x.display(),
            ValidatorSpec::Minimum(x) => x.display(),
            ValidatorSpec::MaxLength(x) => x.display(),
            ValidatorSpec::MinLength(x) => x.display(),
            ValidatorSpec::Pattern(x) => x.display(),
            ValidatorSpec::MaxItems(x) => x.display(),
            ValidatorSpec::MinItems(x) => x.display(),
        }
    }

    fn update_meta(&self, meta: &mut MetaSchema) {
        match self {
            ValidatorSpec::MultipleOf(x) => x.update_meta(meta),
            ValidatorSpec::Maximum(x) => x.update_meta(meta),
            ValidatorSpec::Minimum(x) => x.update_meta(meta),
            ValidatorSpec::MaxLength(x) => x.update_meta(meta),
            ValidatorSpec::MinLength(x) => x.update_meta(meta),
            ValidatorSpec::Pattern(x) => x.update_meta(meta),
            ValidatorSpec::MaxItems(x) => x.update_meta(meta),
            ValidatorSpec::MinItems(x) => x.update_meta(meta),
        }
    }
}

/// Every validator of a pipeline is structurally sound.
pub open spec fn pipeline_wf(vs: Seq<ValidatorSpec>) -> bool {
    forall|i: int| 0 <= i < vs.len() ==> (#[trigger] vs[i]).wf()
}

/// The canonical notation of the first validator a value fails, if any;
/// the pipeline is a logical AND, checked in declaration order.
pub open spec fn spec_first_failure(vs: Seq<ValidatorSpec>, v: ValueModel) -> Option<Seq<char>>
    decreases vs.len(),
{
    if vs.len() == 0 {
        None
    } else if !vs[0].spec_check(v) {
        Some(vs[0].spec_display())
    } else {
        spec_first_failure(vs.drop_first(), v)
    }
}

/// The pipeline is a logical AND: no validator fails exactly when every
/// validator accepts the value.
pub proof fn lemma_pipeline_conjunction(vs: Seq<ValidatorSpec>, v: ValueModel)
    ensures
        (spec_first_failure(vs, v) is None) <==> (forall|i: int|
            0 <= i < vs.len() ==> (#[trigger] vs[i]).spec_check(v)),
    decreases vs.len(),
{
    if vs.len() > 0 {
        lemma_pipeline_conjunction(vs.drop_first(), v);
        if vs[0].spec_check(v) {
            if spec_first_failure(vs, v) is None {
                assert forall|i: int| 0 <= i < vs.len() implies (#[trigger] vs[i]).spec_check(
                    v,
                ) by {
                    if i > 0 {
                        assert(vs.drop_first()[i - 1] == vs[i]);
                    }
                }
            } else {
                if forall|i: int| 0 <= i < vs.len() ==> (#[trigger] vs[i]).spec_check(v) {
                    assert forall|i: int|
                        0 <= i < vs.drop_first().len() implies (#[trigger] vs.drop_first()[i]).spec_check(v) by {
                        assert(vs.drop_first()[i] == vs[i + 1]);
                    }
                }
            }
        }
    }
}

/// The message of a failed field validation.
pub open spec fn msg_field_failure(field: Seq<char>, shown: Seq<char>) -> Seq<char> {
    "field `"@ + field + "` verification failed. "@ + shown
}

/// The message of a failed parameter validation.
pub open spec fn msg_param_failure(shown: Seq<char>) -> Seq<char> {
    "verification failed. "@ + shown
}

/// Run a pipeline over a value: the first failing validator's notation,
/// or nothing when every check passes.
pub fn first_failure(validators: &Vec<ValidatorSpec>, value: &JsonValue) -> (r: Option<String>)
    requires
        pipeline_wf(validators@),
    ensures
        match r {
            Some(d) => spec_first_failure(validators@, value@) == Some(d@),
            None => spec_first_failure(validators@, value@) is None,
        },
{
    let mut i: usize = 0;
    proof {
        assert(validators@.skip(0) =~= validators@);
    }
    while i < validators.len()
        invariant
            pipeline_wf(validators@),
            i <= validators@.len(),
            spec_first_failure(validators@, value@) == spec_first_failure(
                validators@.skip(i as int),
                value@,
            ),
        decreases validators@.len() - i,
    {
        let ghost rest = validators@.skip(i as int);
        proof {
            assert(rest[0] == validators@[i as int]);
            assert(rest.drop_first() =~= validators@.skip(i as int + 1));
        }
        if !validators[i].check(value) {
            return Some(validators[i].display());
        }
        i = i + 1;
    }
    proof {
        assert(validators@.skip(i as int) =~= Seq::<ValidatorSpec>::empty());
    }
    None
}

/// Validate one named field: the exact failure message names the field and
/// shows the failing validator's canonical notation.
pub fn validate_field(
    field_name: &str,
    value: &JsonValue,
    validators: &Vec<ValidatorSpec>,
) -> (r: Result<(), String>)
    requires
        pipeline_wf(validators@),
    ensures
        match r {
            Ok(()) => spec_first_failure(validators@, value@) is None,
            Err(m) => {
                &&& spec_first_failure(validators@, value@) matches Some(d) && m@
                    == msg_field_failure(field_name@, d)
            },
        },
{
    match first_failure(validators, value) {
        None => Ok(()),
        Some(shown) => {
            let mut m = String::from_str("field `");
            m.append(field_name);
            m.append("` verification failed. ");
            m.append(shown.as_str());
            proof {
                assert(m@ =~= msg_field_failure(
                    field_name@,
                    spec_first_failure(validators@, value@)->Some_0,
                ));
            }
            Err(m)
        },
    }
}

/// Validate one parameter: the exact failure message shows the failing
/// validator's canonical notation.
pub fn validate_param(value: &JsonValue, validators: &Vec<ValidatorSpec>) -> (r: Result<
    (),
    String,
>)
    requires
        pipeline_wf(validators@),
    ensures
        match r {
            Ok(()) => spec_first_failure(validators@, value@) is None,
            Err(m) => {
                &&& spec_first_failure(validators@, value@) matches Some(d) && m@
                    == msg_param_failure(d)
            },
        },
{
    match first_failure(validators, value) {
        None => Ok(()),
        Some(shown) => {
            let mut m = String::from_str("verification failed. ");
            m.append(shown.as_str());
            proof {
                assert(m@ =~= msg_param_failure(
                    spec_first_failure(validators@, value@)->Some_0,
                ));
            }
            Err(m)
        },
    }
}

/// What a whole pipeline contributes to a schema, in declaration order.
pub open spec fn spec_apply_all(vs: Seq<ValidatorSpec>, m: MetaSchema) -> MetaSchema
    decreases vs.len(),
{
    if vs.len() == 0 {
        m
    } else {
        spec_apply_all(vs.drop_first(), vs[0].spec_update(m))
    }
}

/// Contribute a whole pipeline's constraints to a schema.
pub fn apply_all(validators: &Vec<ValidatorSpec>, meta: &mut MetaSchema)
    requires
        pipeline_wf(validators@),
    ensures
        *final(meta) == spec_apply_all(validators@, *old(meta)),
{
    let ghost m0 = *meta;
    let mut i: usize = 0;
    proof {
        assert(validators@.skip(0) =~= validators@);
    }
    while i < validators.len()
        invariant
            pipeline_wf(validators@),
            i <= validators@.len(),
            spec_apply_all(validators@, m0) == spec_apply_all(validators@.skip(i as int), *meta),
        decreases validators@.len() - i,
    {
        let ghost rest = validators@.skip(i as int);
        proof {
            assert(rest[0] == validators@[i as int]);
            assert(rest.drop_first() =~= validators@.skip(i as int + 1));
        }
        validators[i].update_meta(meta);
        i = i + 1;
    }
    proof {
        assert(validators@.skip(i as int) =~= Seq::<ValidatorSpec>::empty());
    }
}

} // verus!
