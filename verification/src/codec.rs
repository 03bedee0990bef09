//! The boundary to the outside wire codecs: JSON text, base64, regular
//! expressions, and UTF-8.  Every item here is trusted; each doc comment
//! names the outside function relied on.

use vstd::prelude::*;
use crate::value::{Entry, JsonValue, Number, ValueModel};

verus! {

/// The JSON text that the codec produces for a value.
pub uninterp spec fn json_text_of(v: ValueModel) -> Seq<char>;

/// The value that the codec reads from a byte sequence, if the bytes are a
/// well-formed JSON document whose numbers are integers in the wire range.
pub uninterp spec fn json_doc_of(bytes: Seq<u8>) -> Option<ValueModel>;

/// Relies on `serde_json::Value`'s constructors: rebuilds the same tree,
/// one variant for one variant.  `From<u64>` and `From<i64>` keep the
/// numeric value.
#[verifier::external_body]
fn to_serde(v: &JsonValue) -> serde_json::Value {
    match v {
        JsonValue::Null => serde_json::Value::Null,
        JsonValue::Bool(b) => serde_json::Value::Bool(*b),
        JsonValue::Num(Number::Unsigned(u)) => serde_json::Value::from(*u),
        JsonValue::Num(Number::Signed(i)) => serde_json::Value::from(*i),
        JsonValue::Str(s) => serde_json::Value::String(s.clone()),
        JsonValue::Arr(xs) => serde_json::Value::Array(xs.iter().map(to_serde).collect()),
        JsonValue::Obj(ps) => serde_json::Value::Object(
            ps.iter().map(|e| (e.key.clone(), to_serde(&e.val))).collect(),
        ),
    }
}

/// Relies on `serde_json::Value`'s accessors: rebuilds the same tree, one
/// variant for one variant.  A number that fits in neither `u64` nor `i64`
/// makes the whole conversion fail.
#[verifier::external_body]
fn from_serde(v: &serde_json::Value) -> Option<JsonValue> {
    match v {
        serde_json::Value::Null => Some(JsonValue::Null),
        serde_json::Value::Bool(b) => Some(JsonValue::Bool(*b)),
        serde_json::Value::Number(n) => match (n.as_u64(), n.as_i64()) {
            (Some(u), _) => Some(JsonValue::Num(Number::Unsigned(u))),
            (None, Some(i)) => Some(JsonValue::Num(Number::Signed(i))),
            _ => None,
        },
        serde_json::Value::String(s) => Some(JsonValue::Str(s.clone())),
        serde_json::Value::Array(xs) => Some(JsonValue::Arr(arr_from_serde(xs)?)),
        serde_json::Value::Object(ps) => Some(JsonValue::Obj(obj_from_serde(ps)?)),
    }
}

/// Relies on iterating a `serde_json` array: converts the elements one by
/// one, in order.
#[verifier::external_body]
fn arr_from_serde(xs: &Vec<serde_json::Value>) -> Option<Vec<JsonValue>> {
    xs.iter().map(from_serde).collect()
}

/// Relies on iterating a `serde_json` object map: converts the entries one
/// by one, keeping insertion order.
#[verifier::external_body]
fn obj_from_serde(ps: &serde_json::Map<String, serde_json::Value>) -> Option<Vec<Entry>> {
    ps.iter().map(|(k, x)| Some(Entry { key: k.clone(), val: from_serde(x)? })).collect()
}

/// Relies on `serde_json::to_string`: a deterministic rendering of the tree,
/// which cannot fail on this value model (every object key is a string).
/// The text depends only on the tree's abstract value: `serde_json` stores
/// any non-negative number the same way, whichever signed form it came from.
#[verifier::external_body]
pub fn render_json(v: &JsonValue) -> (r: String)
    ensures
        r@ == json_text_of(v@),
{
    match serde_json::to_string(&to_serde(v)) {
        Ok(s) => s,
        Err(_) => String::new(),
    }
}

/// Relies on `serde_json::from_slice`: a deterministic parse of a JSON
/// document; the crate is built with its order-preserving object map.
#[verifier::external_body]
pub fn decode_json(bytes: &[u8]) -> (r: Option<JsonValue>)
    ensures
        match r {
            Some(v) => json_doc_of(bytes@) == Some(v@) && v.wf(),
            None => json_doc_of(bytes@) is None,
        },
{
    match serde_json::from_slice::<serde_json::Value>(bytes) {
        Ok(v) => from_serde(&v),
        Err(_) => None,
    }
}

/// The base64 text for a byte sequence.
pub uninterp spec fn base64_text_of(bytes: Seq<u8>) -> Seq<char>;

/// The bytes that base64 decoding accepts for a character sequence.
pub uninterp spec fn base64_bytes_of(text: Seq<char>) -> Option<Seq<u8>>;

/// Relies on `base64::encode` (standard alphabet, padded); its output is
/// exactly what `base64::decode` accepts back.
#[verifier::external_body]
pub fn base64_encode(bytes: &Vec<u8>) -> (r: String)
    ensures
        r@ == base64_text_of(bytes@),
        base64_bytes_of(r@) == Some(bytes@),
{
    base64::encode(bytes)
}

/// Relies on `base64::decode` (standard alphabet, padded): a deterministic
/// decision on the text alone.
#[verifier::external_body]
pub fn base64_decode(text: &str) -> (r: Option<Vec<u8>>)
    ensures
        match r {
            Some(b) => base64_bytes_of(text@) == Some(b@),
            None => base64_bytes_of(text@) is None,
        },
{
    base64::decode(text).ok()
}

/// Whether a pattern is a syntactically valid regular expression.
pub uninterp spec fn regex_ok(pattern: Seq<char>) -> bool;

/// Whether a valid pattern matches somewhere in a text.
pub uninterp spec fn regex_accepts(pattern: Seq<char>, text: Seq<char>) -> bool;

/// Relies on `regex::Regex::new`: compilation succeeds or fails on the
/// pattern text alone.
#[verifier::external_body]
pub fn regex_is_valid(pattern: &str) -> (r: bool)
    ensures
        r == regex_ok(pattern@),
{
    regex::Regex::new(pattern).is_ok()
}

/// Relies on `regex::Regex::new` and `regex::Regex::is_match`: for a valid
/// pattern, the match verdict depends on pattern and text alone.
#[verifier::external_body]
pub fn regex_matches(pattern: &str, text: &str) -> (r: Option<bool>)
    ensures
        match r {
            Some(m) => regex_ok(pattern@) && m == regex_accepts(pattern@, text@),
            None => !regex_ok(pattern@),
        },
{
    match regex::Regex::new(pattern) {
        Ok(re) => Some(re.is_match(text)),
        Err(_) => None,
    }
}

/// Relies on `String::from_utf8`: accepts exactly valid UTF-8 and decodes it.
#[verifier::external_body]
pub fn bytes_to_string(bytes: Vec<u8>) -> (r: Option<String>)
    ensures
        match r {
            Some(s) => vstd::utf8::valid_utf8(bytes@) && s@ == vstd::utf8::decode_utf8(bytes@),
            None => !vstd::utf8::valid_utf8(bytes@),
        },
{
    String::from_utf8(bytes).ok()
}

/// Relies on `String::into_bytes`: returns the UTF-8 encoding of the string.
#[verifier::external_body]
pub fn string_to_bytes(s: String) -> (r: Vec<u8>)
    ensures
        r@ == vstd::utf8::encode_utf8(s@),
{
    s.into_bytes()
}

/// Relies on `str`'s `==`: two string slices are equal exactly when their
/// character sequences are.
#[verifier::external_body]
pub fn str_eq(a: &str, b: &str) -> (r: bool)
    ensures
        r == (a@ == b@),
{
    a == b
}

/// Relies on `String::push`: appends exactly one character.
#[verifier::external_body]
pub fn push_char(s: &mut String, c: char)
    ensures
        final(s)@ == old(s)@.push(c),
{
    s.push(c);
}

} // verus!
