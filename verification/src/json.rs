//! Read access to `serde_json::Value` trees. A value stays opaque; its
//! top-level shape (its children still as values) is named by `json_shape`,
//! and each accessor of `serde_json` that the library calls states its
//! answer over that shape.
use vstd::prelude::*;
use serde_json::Value;

verus! {

#[verifier::external_type_specification]
#[verifier::external_body]
pub struct ExJsonValue(serde_json::Value);

/// The top level of a JSON value. Integers are the numbers `serde_json`
/// holds as integers (from `i64::MIN` to `u64::MAX`); every other number is
/// a float, whose value the library never reads. An object's members come
/// in the map's order, each key once.
pub enum JsonShape {
    Null,
    Bool(bool),
    Integer(int),
    Float,
    Text(Seq<char>),
    Array(Seq<serde_json::Value>),
    Object(Seq<(Seq<char>, serde_json::Value)>),
}

/// The shape of a `serde_json::Value`.
pub uninterp spec fn json_shape(value: serde_json::Value) -> JsonShape;

/// The nesting depth of a `serde_json::Value` tree: a value nested in
/// another (an array item, an object member) is less deep.
pub uninterp spec fn json_depth(value: serde_json::Value) -> nat;

/// The member named `key`, if the members hold one.
pub open spec fn member(members: Seq<(Seq<char>, serde_json::Value)>, key: Seq<char>) -> Option<
    serde_json::Value,
>
    decreases members.len(),
{
    if members.len() == 0 {
        None
    } else if members[0].0 == key {
        Some(members[0].1)
    } else {
        member(members.drop_first(), key)
    }
}

/// The field `key` of an object value; `None` for a missing field and for
/// a value that is not an object.
pub open spec fn field(value: serde_json::Value, key: Seq<char>) -> Option<serde_json::Value> {
    match json_shape(value) {
        JsonShape::Object(members) => member(members, key),
        _ => None,
    }
}

/// `Value::as_u64`: the value of a non-negative integer.
pub open spec fn as_u64(value: serde_json::Value) -> Option<u64> {
    match json_shape(value) {
        JsonShape::Integer(n) => if 0 <= n { Some(n as u64) } else { None },
        _ => None,
    }
}

/// `Value::as_i64`: the value of an integer that fits `i64`.
pub open spec fn as_i64(value: serde_json::Value) -> Option<i64> {
    match json_shape(value) {
        JsonShape::Integer(n) => if n <= i64::MAX { Some(n as i64) } else { None },
        _ => None,
    }
}

/// The value is a JSON number (integer or float).
pub open spec fn is_number(value: serde_json::Value) -> bool {
    json_shape(value) is Integer || json_shape(value) is Float
}

/// `Value::as_array` (`Some` with the items of an array value, which are
/// nested in it).
#[verifier::external_body]
pub(crate) fn json_items(value: &serde_json::Value) -> (r: Option<&Vec<serde_json::Value>>)
    ensures
        match json_shape(*value) {
            JsonShape::Array(items) => r matches Some(a) && a@ == items,
            _ => r is None,
        },
        r matches Some(a) ==> forall|k: int|
            0 <= k < a@.len() ==> #[trigger] json_depth(a@[k]) < json_depth(*value),
{
    value.as_array()
}

/// `Value::get(key)` with a string key: the field of an object value,
/// which is nested in it.
#[verifier::external_body]
pub(crate) fn json_field<'a>(value: &'a serde_json::Value, key: &str) -> (r: Option<&'a serde_json::Value>)
    ensures
        r matches Some(v) ==> field(*value, key@) == Some(*v) && json_depth(*v) < json_depth(*value),
        r is None ==> field(*value, key@) is None,
{
    value.get(key)
}

/// `Value::as_u64`: `PosInt` numbers only (`NegInt` always holds a
/// negative number).
#[verifier::external_body]
pub(crate) fn json_u64(value: &serde_json::Value) -> (r: Option<u64>)
    ensures
        r == as_u64(*value),
{
    value.as_u64()
}

/// `Value::as_i64`: `NegInt` numbers, and `PosInt` numbers up to
/// `i64::MAX`.
#[verifier::external_body]
pub(crate) fn json_i64(value: &serde_json::Value) -> (r: Option<i64>)
    ensures
        r == as_i64(*value),
{
    value.as_i64()
}

/// `Value::as_str`: the text of a string value.
#[verifier::external_body]
pub(crate) fn json_str(value: &serde_json::Value) -> (r: Option<&str>)
    ensures
        match json_shape(*value) {
            JsonShape::Text(t) => r matches Some(s) && s@ == t,
            _ => r is None,
        },
{
    value.as_str()
}

/// `Value::as_bool`.
#[verifier::external_body]
pub(crate) fn json_bool(value: &serde_json::Value) -> (r: Option<bool>)
    ensures
        match json_shape(*value) {
            JsonShape::Bool(b) => r == Some(b),
            _ => r is None,
        },
{
    value.as_bool()
}

/// `Value::is_null`.
#[verifier::external_body]
pub(crate) fn json_is_null(value: &serde_json::Value) -> (r: bool)
    ensures
        r <==> json_shape(*value) is Null,
{
    value.is_null()
}

/// `Value::is_number`.
#[verifier::external_body]
pub(crate) fn json_is_number(value: &serde_json::Value) -> (r: bool)
    ensures
        r <==> is_number(*value),
{
    value.is_number()
}

/// `Value::is_object`.
#[verifier::external_body]
pub(crate) fn json_is_object(value: &serde_json::Value) -> (r: bool)
    ensures
        r <==> json_shape(*value) is Object,
{
    value.is_object()
}

/// `Value::clone`: a deep copy, equal to the original.
#[verifier::external_body]
pub(crate) fn json_clone(value: &serde_json::Value) -> (r: serde_json::Value)
    ensures
        r == *value,
{
    value.clone()
}

/// The field `key` of `v` as a non-negative integer.
pub open spec fn u64_field(v: Value, key: Seq<char>) -> Option<u64> {
    match field(v, key) {
        Some(f) => as_u64(f),
        None => None,
    }
}

/// The field `key` of `v` as a non-negative integer.
pub(crate) fn field_u64(v: &Value, key: &str) -> (r: Option<u64>)
    ensures
        r == u64_field(*v, key@),
{
    match json_field(v, key) {
        Some(f) => json_u64(f),
        None => None,
    }
}

/// The text of field `key` of `v` when it is a string, else `default`.
pub open spec fn text_field_or(v: Value, key: Seq<char>, default: Seq<char>) -> Seq<char> {
    match field(v, key) {
        Some(f) => match json_shape(f) {
            JsonShape::Text(t) => t,
            _ => default,
        },
        None => default,
    }
}

/// The field `key` of `v`, unless it is absent or `null`.
pub open spec fn present_field(v: Value, key: Seq<char>) -> Option<Value> {
    match field(v, key) {
        Some(f) => if json_shape(f) is Null {
            None
        } else {
            Some(f)
        },
        None => None,
    }
}

/// The text of field `key` of `v` when it is a string, else `default`.
pub(crate) fn field_text_or(v: &Value, key: &str, default: &str) -> (r: String)
    ensures
        r@ == text_field_or(*v, key@, default@),
{
    let text = match json_field(v, key) {
        Some(f) => match json_str(f) {
            Some(t) => t,
            None => default,
        },
        None => default,
    };
    text.to_string()
}

/// The field `key` of `v`, unless it is absent or `null`.
pub(crate) fn field_present<'a>(v: &'a Value, key: &str) -> (r: Option<&'a Value>)
    ensures
        match present_field(*v, key@) {
            Some(f) => r matches Some(x) && *x == f,
            None => r is None,
        },
{
    match json_field(v, key) {
        Some(f) => if json_is_null(f) {
            None
        } else {
            Some(f)
        },
        None => None,
    }
}

/// The boolean field `key` of `v`, else `false`.
pub open spec fn flag_field(v: Value, key: Seq<char>) -> bool {
    match field(v, key) {
        Some(f) => match json_shape(f) {
            JsonShape::Bool(b) => b,
            _ => false,
        },
        None => false,
    }
}

/// The boolean field `key` of `v`, else `false`.
pub(crate) fn field_flag(v: &Value, key: &str) -> (r: bool)
    ensures
        r == flag_field(*v, key@),
{
    match json_field(v, key) {
        Some(f) => match json_bool(f) {
            Some(b) => b,
            None => false,
        },
        None => false,
    }
}

/// The text of field `key` of `v`, when it is a string.
pub open spec fn string_field(v: Value, key: Seq<char>) -> Option<Seq<char>> {
    match field(v, key) {
        Some(f) => match json_shape(f) {
            JsonShape::Text(t) => Some(t),
            _ => None,
        },
        None => None,
    }
}

/// The field `key` of `v` as a non-negative integer, else `default`.
pub open spec fn u64_field_or(v: Value, key: Seq<char>, default: u64) -> u64 {
    match u64_field(v, key) {
        Some(n) => n,
        None => default,
    }
}

/// The field `key` of `v` as a non-negative integer cut to 32 bits, else
/// `default`.
pub open spec fn u32_field_or(v: Value, key: Seq<char>, default: u32) -> u32 {
    match u64_field(v, key) {
        Some(n) => n as u32,
        None => default,
    }
}

/// The boolean field `key` of `v`, else `default`.
pub open spec fn flag_field_or(v: Value, key: Seq<char>, default: bool) -> bool {
    match field(v, key) {
        Some(f) => match json_shape(f) {
            JsonShape::Bool(b) => b,
            _ => default,
        },
        None => default,
    }
}

/// The text of field `key` of `v`, when it is a string.
pub(crate) fn field_string(v: &Value, key: &str) -> (r: Option<String>)
    ensures
        match string_field(*v, key@) {
            Some(t) => r matches Some(s) && s@ == t,
            None => r is None,
        },
{
    match json_field(v, key) {
        Some(f) => match json_str(f) {
            Some(t) => Some(t.to_string()),
            None => None,
        },
        None => None,
    }
}

/// The field `key` of `v` as a non-negative integer, else `default`.
pub(crate) fn field_u64_or(v: &Value, key: &str, default: u64) -> (r: u64)
    ensures
        r == u64_field_or(*v, key@, default),
{
    match field_u64(v, key) {
        Some(n) => n,
        None => default,
    }
}

/// The field `key` of `v` as a non-negative integer cut to 32 bits, else
/// `default`.
pub(crate) fn field_u32_or(v: &Value, key: &str, default: u32) -> (r: u32)
    ensures
        r == u32_field_or(*v, key@, default),
{
    match field_u64(v, key) {
        Some(n) => n as u32,
        None => default,
    }
}

/// The boolean field `key` of `v`, else `default`.
pub(crate) fn field_flag_or(v: &Value, key: &str, default: bool) -> (r: bool)
    ensures
        r == flag_field_or(*v, key@, default),
{
    match json_field(v, key) {
        Some(f) => match json_bool(f) {
            Some(b) => b,
            None => default,
        },
        None => default,
    }
}

/// The value `serde_json::from_str::<Value>` parses from a text, `None`
/// where the text is not one JSON document.
pub uninterp spec fn json_text_value(text: Seq<char>) -> Option<serde_json::Value>;

/// Calls `serde_json::from_str::<serde_json::Value>`, a function of the text
/// alone; a parse error becomes `None`. The contract names the result.
#[verifier::external_body]
pub(crate) fn parse_json_text(text: &str) -> (r: Option<serde_json::Value>)
    ensures
        r == json_text_value(text@),
{
    serde_json::from_str::<serde_json::Value>(text).ok()
}

} // verus!
