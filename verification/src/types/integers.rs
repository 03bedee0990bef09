//! The integer types of width 8 to 64, signed and unsigned, with strict
//! range checks against each width's bounds.  The check for a width is made
//! in a comparison type that covers the full domain of every width, so even
//! `u64`'s largest values are ranged correctly.

use vstd::prelude::*;
use crate::registry::{MetaSchemaRef, Registry, registry_extends};
use crate::types::{
    ParseError, Type, TypeName, TypeNameModel, display_of, inline_normal_schema, msg_custom,
    msg_expected_input, msg_expected_type, opt_model, opt_str_model, outcome_ok, schema_ref_for,
};
use crate::value::{JsonValue, Number, ValueModel, int_value};

verus! {

use vstd::string::StrSliceExecFns;

/// What parsing an optional wire value as an integer in `[lo, hi]` returns.
pub open spec fn spec_int_parse(
    v: Option<ValueModel>,
    lo: int,
    hi: int,
    name: TypeNameModel,
    range_msg: Seq<char>,
) -> Result<int, Seq<char>> {
    match v {
        None => Err(msg_expected_input(display_of(name))),
        Some(m) => match m {
            ValueModel::Int(n) => if lo <= n && n <= hi {
                Ok(n)
            } else {
                Err(msg_custom(display_of(name), range_msg))
            },
            _ => Err(msg_expected_type(display_of(name), m)),
        },
    }
}

/// Parse an optional wire value as an integer in `[lo, hi]`.
pub fn parse_int_value(
    value: Option<JsonValue>,
    lo: i128,
    hi: i128,
    name: &TypeName,
    range_msg: &str,
) -> (r: Result<i128, ParseError>)
    ensures
        match spec_int_parse(opt_model(value), lo as int, hi as int, name@, range_msg@) {
            Ok(n) => r matches Ok(m) && m as int == n,
            Err(msg) => r matches Err(e) && e.message@ == msg && e.ty_name@ == display_of(name@),
        },
{
    match value {
        None => Err(ParseError::expected_input(name)),
        Some(v) => match &v {
            JsonValue::Num(num) => {
                let n: i128 = match num {
                    Number::Unsigned(u) => *u as i128,
                    Number::Signed(i) => *i as i128,
                };
                if lo <= n && n <= hi {
                    Ok(n)
                } else {
                    Err(ParseError::custom(name, range_msg))
                }
            },
            _ => Err(ParseError::expected_type(name, &v)),
        },
    }
}

/// Whether a character is a decimal digit.
pub open spec fn is_digit(c: char) -> bool {
    48 <= c as u32 && c as u32 <= 57
}

/// The value of one decimal digit character.
pub open spec fn digit_val(c: char) -> int {
    c as u32 - 48
}

/// Whether a non-empty character sequence is all decimal digits.
pub open spec fn all_digits(s: Seq<char>) -> bool {
    s.len() > 0 && forall|i: int| 0 <= i < s.len() ==> is_digit(#[trigger] s[i])
}

/// The numeric value of a digit sequence, most significant first.
pub open spec fn digits_val(s: Seq<char>) -> int
    decreases s.len(),
{
    if s.len() == 0 {
        0
    } else {
        digits_val(s.drop_last()) * 10 + digit_val(s.last())
    }
}

/// The integer a decimal string stands for: an optional sign followed by
/// one or more digits; anything else is not a number.
pub open spec fn dec_str_val(s: Seq<char>) -> Option<int> {
    if s.len() > 0 && s[0] == '-' {
        if all_digits(s.skip(1)) {
            Some(-digits_val(s.skip(1)))
        } else {
            None
        }
    } else if s.len() > 0 && s[0] == '+' {
        if all_digits(s.skip(1)) {
            Some(digits_val(s.skip(1)))
        } else {
            None
        }
    } else {
        if all_digits(s) {
            Some(digits_val(s))
        } else {
            None
        }
    }
}

/// A sequence of digits has a non-negative value.
proof fn lemma_digits_val_nonneg(s: Seq<char>)
    requires
        forall|i: int| 0 <= i < s.len() ==> is_digit(#[trigger] s[i]),
    ensures
        digits_val(s) >= 0,
    decreases s.len(),
{
    if s.len() > 0 {
        lemma_digits_val_nonneg(s.drop_last());
    }
}

/// What parsing an optional parameter string as an integer in `[lo, hi]`
/// returns.
pub open spec fn spec_int_parse_str(
    s: Option<Seq<char>>,
    lo: int,
    hi: int,
    name: TypeNameModel,
    range_msg: Seq<char>,
) -> Result<int, Seq<char>> {
    match s {
        None => Err(msg_expected_input(display_of(name))),
        Some(t) => match dec_str_val(t) {
            Some(n) => if lo <= n && n <= hi {
                Ok(n)
            } else {
                Err(msg_custom(display_of(name), range_msg))
            },
            None => Err(msg_custom(display_of(name), "invalid integer"@)),
        },
    }
}

/// Parse an optional parameter string as an integer in `[lo, hi]`.
pub fn parse_int_str(
    value: Option<&str>,
    lo: i128,
    hi: i128,
    name: &TypeName,
    range_msg: &str,
) -> (r: Result<i128, ParseError>)
    requires
        -0x8000_0000_0000_0000 <= lo,
        hi < 0x1_0000_0000_0000_0000,
    ensures
        match spec_int_parse_str(opt_str_model(value), lo as int, hi as int, name@, range_msg@) {
            Ok(n) => r matches Ok(m) && m as int == n,
            Err(msg) => r matches Err(e) && e.message@ == msg && e.ty_name@ == display_of(name@),
        },
{
    let s = match value {
        None => {
            return Err(ParseError::expected_input(name));
        },
        Some(s) => s,
    };
    let n = s.unicode_len();
    let mut start: usize = 0;
    let mut neg = false;
    if n > 0 {
        let c0 = s.get_char(0);
        if c0 == '-' {
            neg = true;
            start = 1;
        } else if c0 == '+' {
            start = 1;
        }
    }
    let ghost digits = s@.skip(start as int);
    if n == start {
        proof {
            assert(dec_str_val(s@) is None);
        }
        return Err(ParseError::custom(name, "invalid integer"));
    }
    let mut i = start;
    let mut acc: i128 = 0;
    let mut huge = false;
    while i < n
        invariant
            opt_str_model(value) == Some(s@),
            start <= i <= n,
            n == s@.len(),
            digits == s@.skip(start as int),
            start == 0 || start == 1,
            start == 1 ==> (s@[0] == '-' || s@[0] == '+'),
            start == 0 && n > 0 ==> s@[0] != '-' && s@[0] != '+',
            neg ==> start == 1 && s@[0] == '-',
            !neg && start == 1 ==> s@[0] == '+',
            forall|j: int| start <= j < i ==> is_digit(#[trigger] s@[j]),
            !huge ==> acc == digits_val(s@.subrange(start as int, i as int)) && 0 <= acc
                <= 0xffff_ffff_ffff_ffff,
            huge ==> digits_val(s@.subrange(start as int, i as int)) > 0xffff_ffff_ffff_ffff,
        decreases n - i,
    {
        let c = s.get_char(i);
        let d = c as u32;
        if d < 48 || d > 57 {
            proof {
                assert(!is_digit(s@[i as int]));
                assert(s@.skip(start as int)[i - start as int] == s@[i as int]);
                assert(!all_digits(s@.skip(start as int)));
                if start == 0 {
                    assert(s@.skip(0) =~= s@);
                }
                assert(dec_str_val(s@) is None);
            }
            return Err(ParseError::custom(name, "invalid integer"));
        }
        let ghost prefix = s@.subrange(start as int, i as int);
        let ghost prefix2 = s@.subrange(start as int, i as int + 1);
        proof {
            assert(prefix2.drop_last() =~= prefix);
            assert(prefix2.last() == s@[i as int]);
        }
        if !huge {
            acc = acc * 10 + ((d - 48) as i128);
            if acc > 0xffff_ffff_ffff_ffff {
                huge = true;
            }
        } else {
            proof {
                lemma_digits_val_nonneg(prefix);
                assert(digits_val(prefix2) == digits_val(prefix) * 10 + digit_val(s@[i as int]));
            }
        }
        i = i + 1;
    }
    proof {
        assert(s@.subrange(start as int, n as int) =~= digits);
        assert(all_digits(digits));
        if start == 0 {
            assert(s@.skip(0) =~= s@);
        }
        assert(dec_str_val(s@) == Some(if neg {
            -digits_val(digits)
        } else {
            digits_val(digits)
        }));
        lemma_digits_val_nonneg(digits);
    }
    if huge {
        proof {
            assert(digits_val(digits) > 0xffff_ffff_ffff_ffff);
        }
        return Err(ParseError::custom(name, range_msg));
    }
    let v: i128 = if neg {
        -acc
    } else {
        acc
    };
    if lo <= v && v <= hi {
        Ok(v)
    } else {
        Err(ParseError::custom(name, range_msg))
    }
}

/// The `int8` range failure message.
pub open spec fn range_msg_i8() -> Seq<char> {
    "Only integers from -128 to 127 are accepted."@
}

impl Type for i8 {
    open spec fn spec_name() -> TypeNameModel {
        TypeNameModel::Normal { ty: "integer"@, format: Some("int8"@) }
    }

    open spec fn spec_required() -> bool {
        true
    }

    open spec fn wire(&self) -> ValueModel {
        ValueModel::Int(*self as int)
    }

    open spec fn spec_parse(v: Option<ValueModel>) -> Result<i8, Seq<char>> {
        match spec_int_parse(v, -128, 127, Self::spec_name(), range_msg_i8()) {
            Ok(n) => Ok(n as i8),
            Err(m) => Err(m),
        }
    }

    open spec fn spec_parse_str(s: Option<Seq<char>>) -> Result<i8, Seq<char>> {
        match spec_int_parse_str(s, -128, 127, Self::spec_name(), range_msg_i8()) {
            Ok(n) => Ok(n as i8),
            Err(m) => Err(m),
        }
    }

    open spec fn schema_ok(r: MetaSchemaRef) -> bool {
        inline_normal_schema(r, "integer"@, Some("int8"@))
    }

    open spec fn wire_nonnull() -> bool {
        true
    }

    open spec fn roundtrips() -> bool {
        true
    }

    fn name() -> (r: TypeName) {
        TypeName::formatted("integer", "int8")
    }

    fn is_required() -> (r: bool) {
        true
    }

    fn schema_ref() -> (r: MetaSchemaRef) {
        let name = <i8 as Type>::name();
        schema_ref_for(&name)
    }

    fn register(registry: &mut Registry) {
    }

    fn parse(value: Option<JsonValue>) -> (r: Result<i8, ParseError>) {
        let name = <i8 as Type>::name();
        match parse_int_value(value, -128, 127, &name, "Only integers from -128 to 127 are accepted.") {
            Ok(n) => Ok(n as i8),
            Err(e) => Err(e),
        }
    }

    fn parse_from_str(value: Option<&str>) -> (r: Result<i8, ParseError>) {
        let name = <i8 as Type>::name();
        match parse_int_str(value, -128, 127, &name, "Only integers from -128 to 127 are accepted.") {
            Ok(n) => Ok(n as i8),
            Err(e) => Err(e),
        }
    }

    fn to_value(&self) -> (r: JsonValue) {
        int_value(*self as i128)
    }

    proof fn lemma_wire_nonnull(x: i8) {
    }

    proof fn lemma_wire_roundtrip(x: i8) {
    }
}

/// The `int16` range failure message.
pub open spec fn range_msg_i16() -> Seq<char> {
    "Only integers from -32768 to 32767 are accepted."@
}

impl Type for i16 {
    open spec fn spec_name() -> TypeNameModel {
        TypeNameModel::Normal { ty: "integer"@, format: Some("int16"@) }
    }

    open spec fn spec_required() -> bool {
        true
    }

    open spec fn wire(&self) -> ValueModel {
        ValueModel::Int(*self as int)
    }

    open spec fn spec_parse(v: Option<ValueModel>) -> Result<i16, Seq<char>> {
        match spec_int_parse(v, -32768, 32767, Self::spec_name(), range_msg_i16()) {
            Ok(n) => Ok(n as i16),
            Err(m) => Err(m),
        }
    }

    open spec fn spec_parse_str(s: Option<Seq<char>>) -> Result<i16, Seq<char>> {
        match spec_int_parse_str(s, -32768, 32767, Self::spec_name(), range_msg_i16()) {
            Ok(n) => Ok(n as i16),
            Err(m) => Err(m),
        }
    }

    open spec fn schema_ok(r: MetaSchemaRef) -> bool {
        inline_normal_schema(r, "integer"@, Some("int16"@))
    }

    open spec fn wire_nonnull() -> bool {
        true
    }

    open spec fn roundtrips() -> bool {
        true
    }

    fn name() -> (r: TypeName) {
        TypeName::formatted("integer", "int16")
    }

    fn is_required() -> (r: bool) {
        true
    }

    fn schema_ref() -> (r: MetaSchemaRef) {
        let name = <i16 as Type>::name();
        schema_ref_for(&name)
    }

    fn register(registry: &mut Registry) {
    }

    fn parse(value: Option<JsonValue>) -> (r: Result<i16, ParseError>) {
        let name = <i16 as Type>::name();
        match parse_int_value(value, -32768, 32767, &name, "Only integers from -32768 to 32767 are accepted.") {
            Ok(n) => Ok(n as i16),
            Err(e) => Err(e),
        }
    }

    fn parse_from_str(value: Option<&str>) -> (r: Result<i16, ParseError>) {
        let name = <i16 as Type>::name();
        match parse_int_str(value, -32768, 32767, &name, "Only integers from -32768 to 32767 are accepted.") {
            Ok(n) => Ok(n as i16),
            Err(e) => Err(e),
        }
    }

    fn to_value(&self) -> (r: JsonValue) {
        int_value(*self as i128)
    }

    proof fn lemma_wire_nonnull(x: i16) {
    }

    proof fn lemma_wire_roundtrip(x: i16) {
    }
}

/// The `int32` range failure message.
pub open spec fn range_msg_i32() -> Seq<char> {
    "Only integers from -2147483648 to 2147483647 are accepted."@
}

impl Type for i32 {
    open spec fn spec_name() -> TypeNameModel {
        TypeNameModel::Normal { ty: "integer"@, format: Some("int32"@) }
    }

    open spec fn spec_required() -> bool {
        true
    }

    open spec fn wire(&self) -> ValueModel {
        ValueModel::Int(*self as int)
    }

    open spec fn spec_parse(v: Option<ValueModel>) -> Result<i32, Seq<char>> {
        match spec_int_parse(v, -2147483648, 2147483647, Self::spec_name(), range_msg_i32()) {
            Ok(n) => Ok(n as i32),
            Err(m) => Err(m),
        }
    }

    open spec fn spec_parse_str(s: Option<Seq<char>>) -> Result<i32, Seq<char>> {
        match spec_int_parse_str(s, -2147483648, 2147483647, Self::spec_name(), range_msg_i32()) {
            Ok(n) => Ok(n as i32),
            Err(m) => Err(m),
        }
    }

    open spec fn schema_ok(r: MetaSchemaRef) -> bool {
        inline_normal_schema(r, "integer"@, Some("int32"@))
    }

    open spec fn wire_nonnull() -> bool {
        true
    }

    open spec fn roundtrips() -> bool {
        true
    }

    fn name() -> (r: TypeName) {
        TypeName::formatted("integer", "int32")
    }

    fn is_required() -> (r: bool) {
        true
    }

    fn schema_ref() -> (r: MetaSchemaRef) {
        let name = <i32 as Type>::name();
        schema_ref_for(&name)
    }

    fn register(registry: &mut Registry) {
    }

    fn parse(value: Option<JsonValue>) -> (r: Result<i32, ParseError>) {
        let name = <i32 as Type>::name();
        match parse_int_value(value, -2147483648, 2147483647, &name, "Only integers from -2147483648 to 2147483647 are accepted.") {
            Ok(n) => Ok(n as i32),
            Err(e) => Err(e),
        }
    }

    fn parse_from_str(value: Option<&str>) -> (r: Result<i32, ParseError>) {
        let name = <i32 as Type>::name();
        match parse_int_str(value, -2147483648, 2147483647, &name, "Only integers from -2147483648 to 2147483647 are accepted.") {
            Ok(n) => Ok(n as i32),
            Err(e) => Err(e),
        }
    }

    fn to_value(&self) -> (r: JsonValue) {
        int_value(*self as i128)
    }

    proof fn lemma_wire_nonnull(x: i32) {
    }

    proof fn lemma_wire_roundtrip(x: i32) {
    }
}

/// The `int64` range failure message.
pub open spec fn range_msg_i64() -> Seq<char> {
    "Only integers from -9223372036854775808 to 9223372036854775807 are accepted."@
}

impl Type for i64 {
    open spec fn spec_name() -> TypeNameModel {
        TypeNameModel::Normal { ty: "integer"@, format: Some("int64"@) }
    }

    open spec fn spec_required() -> bool {
        true
    }

    open spec fn wire(&self) -> ValueModel {
        ValueModel::Int(*self as int)
    }

    open spec fn spec_parse(v: Option<ValueModel>) -> Result<i64, Seq<char>> {
        match spec_int_parse(v, -9223372036854775808, 9223372036854775807, Self::spec_name(), range_msg_i64()) {
            Ok(n) => Ok(n as i64),
            Err(m) => Err(m),
        }
    }

    open spec fn spec_parse_str(s: Option<Seq<char>>) -> Result<i64, Seq<char>> {
        match spec_int_parse_str(s, -9223372036854775808, 9223372036854775807, Self::spec_name(), range_msg_i64()) {
            Ok(n) => Ok(n as i64),
            Err(m) => Err(m),
        }
    }

    open spec fn schema_ok(r: MetaSchemaRef) -> bool {
        inline_normal_schema(r, "integer"@, Some("int64"@))
    }

    open spec fn wire_nonnull() -> bool {
        true
    }

    open spec fn roundtrips() -> bool {
        true
    }

    fn name() -> (r: TypeName) {
        TypeName::formatted("integer", "int64")
    }

    fn is_required() -> (r: bool) {
        true
    }

    fn schema_ref() -> (r: MetaSchemaRef) {
        let name = <i64 as Type>::name();
        schema_ref_for(&name)
    }

    fn register(registry: &mut Registry) {
    }

    fn parse(value: Option<JsonValue>) -> (r: Result<i64, ParseError>) {
        let name = <i64 as Type>::name();
        match parse_int_value(value, -9223372036854775808, 9223372036854775807, &name, "Only integers from -9223372036854775808 to 9223372036854775807 are accepted.") {
            Ok(n) => Ok(n as i64),
            Err(e) => Err(e),
        }
    }

    fn parse_from_str(value: Option<&str>) -> (r: Result<i64, ParseError>) {
        let name = <i64 as Type>::name();
        match parse_int_str(value, -9223372036854775808, 9223372036854775807, &name, "Only integers from -9223372036854775808 to 9223372036854775807 are accepted.") {
            Ok(n) => Ok(n as i64),
            Err(e) => Err(e),
        }
    }

    fn to_value(&self) -> (r: JsonValue) {
        int_value(*self as i128)
    }

    proof fn lemma_wire_nonnull(x: i64) {
    }

    proof fn lemma_wire_roundtrip(x: i64) {
    }
}

/// The `uint8` range failure message.
pub open spec fn range_msg_u8() -> Seq<char> {
    "Only integers from 0 to 255 are accepted."@
}

impl Type for u8 {
    open spec fn spec_name() -> TypeNameModel {
        TypeNameModel::Normal { ty: "integer"@, format: Some("uint8"@) }
    }

    open spec fn spec_required() -> bool {
        true
    }

    open spec fn wire(&self) -> ValueModel {
        ValueModel::Int(*self as int)
    }

    open spec fn spec_parse(v: Option<ValueModel>) -> Result<u8, Seq<char>> {
        match spec_int_parse(v, 0, 255, Self::spec_name(), range_msg_u8()) {
            Ok(n) => Ok(n as u8),
            Err(m) => Err(m),
        }
    }

    open spec fn spec_parse_str(s: Option<Seq<char>>) -> Result<u8, Seq<char>> {
        match spec_int_parse_str(s, 0, 255, Self::spec_name(), range_msg_u8()) {
            Ok(n) => Ok(n as u8),
            Err(m) => Err(m),
        }
    }

    open spec fn schema_ok(r: MetaSchemaRef) -> bool {
        inline_normal_schema(r, "integer"@, Some("uint8"@))
    }

    open spec fn wire_nonnull() -> bool {
        true
    }

    open spec fn roundtrips() -> bool {
        true
    }

    fn name() -> (r: TypeName) {
        TypeName::formatted("integer", "uint8")
    }

    fn is_required() -> (r: bool) {
        true
    }

    fn schema_ref() -> (r: MetaSchemaRef) {
        let name = <u8 as Type>::name();
        schema_ref_for(&name)
    }

    fn register(registry: &mut Registry) {
    }

    fn parse(value: Option<JsonValue>) -> (r: Result<u8, ParseError>) {
        let name = <u8 as Type>::name();
        match parse_int_value(value, 0, 255, &name, "Only integers from 0 to 255 are accepted.") {
            Ok(n) => Ok(n as u8),
            Err(e) => Err(e),
        }
    }

    fn parse_from_str(value: Option<&str>) -> (r: Result<u8, ParseError>) {
        let name = <u8 as Type>::name();
        match parse_int_str(value, 0, 255, &name, "Only integers from 0 to 255 are accepted.") {
            Ok(n) => Ok(n as u8),
            Err(e) => Err(e),
        }
    }

    fn to_value(&self) -> (r: JsonValue) {
        int_value(*self as i128)
    }

    proof fn lemma_wire_nonnull(x: u8) {
    }

    proof fn lemma_wire_roundtrip(x: u8) {
    }
}

/// The `uint16` range failure message.
pub open spec fn range_msg_u16() -> Seq<char> {
    "Only integers from 0 to 65535 are accepted."@
}

impl Type for u16 {
    open spec fn spec_name() -> TypeNameModel {
        TypeNameModel::Normal { ty: "integer"@, format: Some("uint16"@) }
    }

    open spec fn spec_required() -> bool {
        true
    }

    open spec fn wire(&self) -> ValueModel {
        ValueModel::Int(*self as int)
    }

    open spec fn spec_parse(v: Option<ValueModel>) -> Result<u16, Seq<char>> {
        match spec_int_parse(v, 0, 65535, Self::spec_name(), range_msg_u16()) {
            Ok(n) => Ok(n as u16),
            Err(m) => Err(m),
        }
    }

    open spec fn spec_parse_str(s: Option<Seq<char>>) -> Result<u16, Seq<char>> {
        match spec_int_parse_str(s, 0, 65535, Self::spec_name(), range_msg_u16()) {
            Ok(n) => Ok(n as u16),
            Err(m) => Err(m),
        }
    }

    open spec fn schema_ok(r: MetaSchemaRef) -> bool {
        inline_normal_schema(r, "integer"@, Some("uint16"@))
    }

    open spec fn wire_nonnull() -> bool {
        true
    }

    open spec fn roundtrips() -> bool {
        true
    }

    fn name() -> (r: TypeName) {
        TypeName::formatted("integer", "uint16")
    }

    fn is_required() -> (r: bool) {
        true
    }

    fn schema_ref() -> (r: MetaSchemaRef) {
        let name = <u16 as Type>::name();
        schema_ref_for(&name)
    }

    fn register(registry: &mut Registry) {
    }

    fn parse(value: Option<JsonValue>) -> (r: Result<u16, ParseError>) {
        let name = <u16 as Type>::name();
        match parse_int_value(value, 0, 65535, &name, "Only integers from 0 to 65535 are accepted.") {
            Ok(n) => Ok(n as u16),
            Err(e) => Err(e),
        }
    }

    fn parse_from_str(value: Option<&str>) -> (r: Result<u16, ParseError>) {
        let name = <u16 as Type>::name();
        match parse_int_str(value, 0, 65535, &name, "Only integers from 0 to 65535 are accepted.") {
            Ok(n) => Ok(n as u16),
            Err(e) => Err(e),
        }
    }

    fn to_value(&self) -> (r: JsonValue) {
        int_value(*self as i128)
    }

    proof fn lemma_wire_nonnull(x: u16) {
    }

    proof fn lemma_wire_roundtrip(x: u16) {
    }
}

/// The `uint32` range failure message.
pub open spec fn range_msg_u32() -> Seq<char> {
    "Only integers from 0 to 4294967295 are accepted."@
}

impl Type for u32 {
    open spec fn spec_name() -> TypeNameModel {
        TypeNameModel::Normal { ty: "integer"@, format: Some("uint32"@) }
    }

    open spec fn spec_required() -> bool {
        true
    }

    open spec fn wire(&self) -> ValueModel {
        ValueModel::Int(*self as int)
    }

    open spec fn spec_parse(v: Option<ValueModel>) -> Result<u32, Seq<char>> {
        match spec_int_parse(v, 0, 4294967295, Self::spec_name(), range_msg_u32()) {
            Ok(n) => Ok(n as u32),
            Err(m) => Err(m),
        }
    }

    open spec fn spec_parse_str(s: Option<Seq<char>>) -> Result<u32, Seq<char>> {
        match spec_int_parse_str(s, 0, 4294967295, Self::spec_name(), range_msg_u32()) {
            Ok(n) => Ok(n as u32),
            Err(m) => Err(m),
        }
    }

    open spec fn schema_ok(r: MetaSchemaRef) -> bool {
        inline_normal_schema(r, "integer"@, Some("uint32"@))
    }

    open spec fn wire_nonnull() -> bool {
        true
    }

    open spec fn roundtrips() -> bool {
        true
    }

    fn name() -> (r: TypeName) {
        TypeName::formatted("integer", "uint32")
    }

    fn is_required() -> (r: bool) {
        true
    }

    fn schema_ref() -> (r: MetaSchemaRef) {
        let name = <u32 as Type>::name();
        schema_ref_for(&name)
    }

    fn register(registry: &mut Registry) {
    }

    fn parse(value: Option<JsonValue>) -> (r: Result<u32, ParseError>) {
        let name = <u32 as Type>::name();
        match parse_int_value(value, 0, 4294967295, &name, "Only integers from 0 to 4294967295 are accepted.") {
            Ok(n) => Ok(n as u32),
            Err(e) => Err(e),
        }
    }

    fn parse_from_str(value: Option<&str>) -> (r: Result<u32, ParseError>) {
        let name = <u32 as Type>::name();
        match parse_int_str(value, 0, 4294967295, &name, "Only integers from 0 to 4294967295 are accepted.") {
            Ok(n) => Ok(n as u32),
            Err(e) => Err(e),
        }
    }

    fn to_value(&self) -> (r: JsonValue) {
        int_value(*self as i128)
    }

    proof fn lemma_wire_nonnull(x: u32) {
    }

    proof fn lemma_wire_roundtrip(x: u32) {
    }
}

/// The `uint64` range failure message.
pub open spec fn range_msg_u64() -> Seq<char> {
    "Only integers from 0 to 18446744073709551615 are accepted."@
}

impl Type for u64 {
    open spec fn spec_name() -> TypeNameModel {
        TypeNameModel::Normal { ty: "integer"@, format: Some("uint64"@) }
    }

    open spec fn spec_required() -> bool {
        true
    }

    open spec fn wire(&self) -> ValueModel {
        ValueModel::Int(*self as int)
    }

    open spec fn spec_parse(v: Option<ValueModel>) -> Result<u64, Seq<char>> {
        match spec_int_parse(v, 0, 18446744073709551615, Self::spec_name(), range_msg_u64()) {
            Ok(n) => Ok(n as u64),
            Err(m) => Err(m),
        }
    }

    open spec fn spec_parse_str(s: Option<Seq<char>>) -> Result<u64, Seq<char>> {
        match spec_int_parse_str(s, 0, 18446744073709551615, Self::spec_name(), range_msg_u64()) {
            Ok(n) => Ok(n as u64),
            Err(m) => Err(m),
        }
    }

    open spec fn schema_ok(r: MetaSchemaRef) -> bool {
        inline_normal_schema(r, "integer"@, Some("uint64"@))
    }

    open spec fn wire_nonnull() -> bool {
        true
    }

    open spec fn roundtrips() -> bool {
        true
    }

    fn name() -> (r: TypeName) {
        TypeName::formatted("integer", "uint64")
    }

    fn is_required() -> (r: bool) {
        true
    }

    fn schema_ref() -> (r: MetaSchemaRef) {
        let name = <u64 as Type>::name();
        schema_ref_for(&name)
    }

    fn register(registry: &mut Registry) {
    }

    fn parse(value: Option<JsonValue>) -> (r: Result<u64, ParseError>) {
        let name = <u64 as Type>::name();
        match parse_int_value(value, 0, 18446744073709551615, &name, "Only integers from 0 to 18446744073709551615 are accepted.") {
            Ok(n) => Ok(n as u64),
            Err(e) => Err(e),
        }
    }

    fn parse_from_str(value: Option<&str>) -> (r: Result<u64, ParseError>) {
        let name = <u64 as Type>::name();
        match parse_int_str(value, 0, 18446744073709551615, &name, "Only integers from 0 to 18446744073709551615 are accepted.") {
            Ok(n) => Ok(n as u64),
            Err(e) => Err(e),
        }
    }

    fn to_value(&self) -> (r: JsonValue) {
        int_value(*self as i128)
    }

    proof fn lemma_wire_nonnull(x: u64) {
    }

    proof fn lemma_wire_roundtrip(x: u64) {
    }
}

/// Boundary behaviour of the ranged integer parse: both bounds are
/// accepted, and a value one past either bound fails with the width's
/// range message.
pub proof fn lemma_int_parse_bounds(lo: int, hi: int, name: TypeNameModel, range_msg: Seq<char>)
    requires
        lo <= hi,
    ensures
        spec_int_parse(Some(ValueModel::Int(lo)), lo, hi, name, range_msg) == Ok::<int, Seq<char>>(
            lo,
        ),
        spec_int_parse(Some(ValueModel::Int(hi)), lo, hi, name, range_msg) == Ok::<int, Seq<char>>(
            hi,
        ),
        spec_int_parse(Some(ValueModel::Int(lo - 1)), lo, hi, name, range_msg) == Err::<
            int,
            Seq<char>,
        >(msg_custom(display_of(name), range_msg)),
        spec_int_parse(Some(ValueModel::Int(hi + 1)), lo, hi, name, range_msg) == Err::<
            int,
            Seq<char>,
        >(msg_custom(display_of(name), range_msg)),
{
}

} // verus!
