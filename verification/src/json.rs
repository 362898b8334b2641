//! A model of JSON documents as plain values.
//!
//! The API under consideration speaks JSON.  Parsing the raw text is left
//! to an outside parser behind a trusted wrapper; everything that inspects
//! the parsed tree — field lookup and typed field extraction — is verified
//! against the spec functions in this module.

use vstd::prelude::*;

verus! {

/// A parsed JSON value.
///
/// Numbers are modelled only as far as the API needs them: every numeric
/// field of the API is an unsigned integer, so a number that fits `u64`
/// is kept and any other number (negative, fractional or too large) is
/// collapsed into [`JsonValue::NumOther`], which no typed extraction
/// accepts.  An object is a sequence of key/value pairs; a lookup takes
/// the first binding of a key.
#[derive(Debug)]
pub enum JsonValue {
    Null,
    Bool(bool),
    UInt(u64),
    NumOther,
    Str(String),
    Arr(Vec<JsonValue>),
    Obj(Vec<(String, JsonValue)>),
}

/// The first binding of `key` in an object's field list, if any.
pub open spec fn obj_get(fields: Seq<(String, JsonValue)>, key: Seq<char>) -> Option<JsonValue>
    decreases fields.len(),
{
    if fields.len() == 0 {
        None
    } else if fields[0].0@ == key {
        Some(fields[0].1)
    } else {
        obj_get(fields.drop_first(), key)
    }
}

/// Character-for-character string equality, decided executably.
pub fn str_eq(a: &str, b: &str) -> (r: bool)
    ensures
        r == (a@ == b@),
{
    let n = a.unicode_len();
    let m = b.unicode_len();
    if n != m {
        proof {
            assert(a@ != b@) by {
                assert(a@.len() != b@.len());
            }
        }
        return false;
    }
    let mut i: usize = 0;
    while i < n
        invariant
            n == a@.len(),
            n == b@.len(),
            i <= n,
            forall|j: int| 0 <= j < i ==> a@[j] == b@[j],
        decreases n - i,
    {
        if a.get_char(i) != b.get_char(i) {
            return false;
        }
        i += 1;
    }
    proof {
        assert(a@ =~= b@);
    }
    true
}

/// The index of the first binding of `key` in `fields`, related to
/// [`obj_get`].
pub fn lookup(fields: &Vec<(String, JsonValue)>, key: &str) -> (r: Option<usize>)
    ensures
        match r {
            Some(i) => {
                &&& i < fields@.len()
                &&& fields@[i as int].0@ == key@
                &&& obj_get(fields@, key@) == Some(fields@[i as int].1)
            },
            None => obj_get(fields@, key@) is None,
        },
{
    let n = fields.len();
    let mut i: usize = 0;
    proof {
        assert(fields@.skip(0) =~= fields@);
    }
    while i < n
        invariant
            n == fields@.len(),
            i <= n,
            obj_get(fields@.skip(i as int), key@) == obj_get(fields@, key@),
        decreases n - i,
    {
        if str_eq(fields[i].0.as_str(), key) {
            proof {
                assert(fields@.skip(i as int)[0] == fields@[i as int]);
            }
            return Some(i);
        }
        proof {
            assert(fields@.skip(i as int).drop_first() =~= fields@.skip(i as int + 1));
        }
        i += 1;
    }
    proof {
        assert(fields@.skip(n as int).len() == 0);
    }
    None
}

#[verifier::external_type_specification]
#[verifier::external_body]
pub struct ExValue(serde_json::Value);

/// The JSON tree denoted by a body text, or `None` when the text is not a
/// well-formed JSON document.  The outside parser is deterministic, so the
/// result is a function of the text alone; nothing further is assumed of
/// it here.
pub uninterp spec fn spec_parse_json(text: Seq<char>) -> Option<JsonValue>;

/// Relies on the shape of `serde_json::Value`: each variant is carried
/// over to the matching variant of [`JsonValue`], field for field, and
/// `serde_json::Number::as_u64` accepts exactly the numbers that fit
/// `u64`; every other number becomes [`JsonValue::NumOther`].  Only
/// [`parse_json_text`] calls this conversion.
#[verifier::external_body]
fn value_to_json(v: &serde_json::Value) -> JsonValue {
    match v {
        serde_json::Value::Null => JsonValue::Null,
        serde_json::Value::Bool(b) => JsonValue::Bool(*b),
        serde_json::Value::Number(n) => match n.as_u64() {
            Some(u) => JsonValue::UInt(u),
            None => JsonValue::NumOther,
        },
        serde_json::Value::String(s) => JsonValue::Str(s.clone()),
        serde_json::Value::Array(a) => JsonValue::Arr(a.iter().map(value_to_json).collect()),
        serde_json::Value::Object(m) => JsonValue::Obj(
            m.iter().map(|(k, x)| (k.clone(), value_to_json(x))).collect(),
        ),
    }
}

/// Relies on `serde_json::from_str::<serde_json::Value>`: a well-formed
/// JSON document parses to a tree of nulls, booleans, numbers, strings,
/// arrays and objects (an object keeps the last binding of a repeated
/// key), and a malformed one is rejected; the result depends on the text
/// alone.
#[verifier::external_body]
pub(crate) fn parse_json_text(text: &str) -> (r: Option<JsonValue>)
    ensures
        r == spec_parse_json(text@),
{
    match serde_json::from_str::<serde_json::Value>(text) {
        Ok(v) => Some(value_to_json(&v)),
        Err(_) => None,
    }
}

/// A required string field: present and a JSON string.
pub open spec fn spec_str_field(fields: Seq<(String, JsonValue)>, key: Seq<char>) -> Option<String> {
    match obj_get(fields, key) {
        Some(JsonValue::Str(s)) => Some(s),
        _ => None,
    }
}

/// A required unsigned integer field.
pub open spec fn spec_u64_field(fields: Seq<(String, JsonValue)>, key: Seq<char>) -> Option<u64> {
    match obj_get(fields, key) {
        Some(JsonValue::UInt(n)) => Some(n),
        _ => None,
    }
}

/// A required unsigned integer field that must fit in `u32`.
pub open spec fn spec_u32_field(fields: Seq<(String, JsonValue)>, key: Seq<char>) -> Option<u32> {
    match spec_u64_field(fields, key) {
        Some(n) => if n <= u32::MAX { Some(n as u32) } else { None },
        None => None,
    }
}

/// A required unsigned integer field that must fit in `u16`.
pub open spec fn spec_u16_field(fields: Seq<(String, JsonValue)>, key: Seq<char>) -> Option<u16> {
    match spec_u64_field(fields, key) {
        Some(n) => if n <= u16::MAX { Some(n as u16) } else { None },
        None => None,
    }
}

/// A required unsigned integer field that must fit in `u8`.
pub open spec fn spec_u8_field(fields: Seq<(String, JsonValue)>, key: Seq<char>) -> Option<u8> {
    match spec_u64_field(fields, key) {
        Some(n) => if n <= u8::MAX { Some(n as u8) } else { None },
        None => None,
    }
}

/// A required boolean field.
pub open spec fn spec_bool_field(fields: Seq<(String, JsonValue)>, key: Seq<char>) -> Option<bool> {
    match obj_get(fields, key) {
        Some(JsonValue::Bool(b)) => Some(b),
        _ => None,
    }
}

/// A boolean flag that defaults to `false` when the field is absent.
pub open spec fn spec_bool_field_or_false(
    fields: Seq<(String, JsonValue)>,
    key: Seq<char>,
) -> Option<bool> {
    match obj_get(fields, key) {
        Some(JsonValue::Bool(b)) => Some(b),
        Some(_) => None,
        None => Some(false),
    }
}

/// An optional string field: absent or `null` mean "no value".
pub open spec fn spec_opt_str_field(
    fields: Seq<(String, JsonValue)>,
    key: Seq<char>,
) -> Option<Option<String>> {
    match obj_get(fields, key) {
        Some(JsonValue::Str(s)) => Some(Some(s)),
        Some(JsonValue::Null) => Some(None),
        Some(_) => None,
        None => Some(None),
    }
}

/// An optional unsigned integer field that must fit in `u16` when present;
/// absent or `null` mean "no value".
pub open spec fn spec_opt_u16_field(
    fields: Seq<(String, JsonValue)>,
    key: Seq<char>,
) -> Option<Option<u16>> {
    match obj_get(fields, key) {
        Some(JsonValue::UInt(n)) => if n <= u16::MAX { Some(Some(n as u16)) } else { None },
        Some(JsonValue::Null) => Some(None),
        Some(_) => None,
        None => Some(None),
    }
}

/// Extracts a required string field.
pub fn str_field(fields: &Vec<(String, JsonValue)>, key: &str) -> (r: Option<String>)
    ensures
        r == spec_str_field(fields@, key@),
{
    match lookup(fields, key) {
        Some(i) => match &fields[i].1 {
            JsonValue::Str(s) => Some(s.clone()),
            _ => None,
        },
        None => None,
    }
}

/// Extracts a required `u64` field.
pub fn u64_field(fields: &Vec<(String, JsonValue)>, key: &str) -> (r: Option<u64>)
    ensures
        r == spec_u64_field(fields@, key@),
{
    match lookup(fields, key) {
        Some(i) => match &fields[i].1 {
            JsonValue::UInt(n) => Some(*n),
            _ => None,
        },
        None => None,
    }
}

/// Extracts a required `u32` field.
pub fn u32_field(fields: &Vec<(String, JsonValue)>, key: &str) -> (r: Option<u32>)
    ensures
        r == spec_u32_field(fields@, key@),
{
    match u64_field(fields, key) {
        Some(n) => if n <= u32::MAX as u64 { Some(n as u32) } else { None },
        None => None,
    }
}

/// Extracts a required `u16` field.
pub fn u16_field(fields: &Vec<(String, JsonValue)>, key: &str) -> (r: Option<u16>)
    ensures
        r == spec_u16_field(fields@, key@),
{
    match u64_field(fields, key) {
        Some(n) => if n <= u16::MAX as u64 { Some(n as u16) } else { None },
        None => None,
    }
}

/// Extracts a required `u8` field.
pub fn u8_field(fields: &Vec<(String, JsonValue)>, key: &str) -> (r: Option<u8>)
    ensures
        r == spec_u8_field(fields@, key@),
{
    match u64_field(fields, key) {
        Some(n) => if n <= u8::MAX as u64 { Some(n as u8) } else { None },
        None => None,
    }
}

/// Extracts a required boolean field.
pub fn bool_field(fields: &Vec<(String, JsonValue)>, key: &str) -> (r: Option<bool>)
    ensures
        r == spec_bool_field(fields@, key@),
{
    match lookup(fields, key) {
        Some(i) => match &fields[i].1 {
            JsonValue::Bool(b) => Some(*b),
            _ => None,
        },
        None => None,
    }
}

/// Extracts a boolean flag, `false` when the field is absent.
pub fn bool_field_or_false(fields: &Vec<(String, JsonValue)>, key: &str) -> (r: Option<bool>)
    ensures
        r == spec_bool_field_or_false(fields@, key@),
{
    match lookup(fields, key) {
        Some(i) => match &fields[i].1 {
            JsonValue::Bool(b) => Some(*b),
            _ => None,
        },
        None => Some(false),
    }
}

/// Extracts an optional string field.
pub fn opt_str_field(fields: &Vec<(String, JsonValue)>, key: &str) -> (r: Option<Option<String>>)
    ensures
        r == spec_opt_str_field(fields@, key@),
{
    match lookup(fields, key) {
        Some(i) => match &fields[i].1 {
            JsonValue::Str(s) => Some(Some(s.clone())),
            JsonValue::Null => Some(None),
            _ => None,
        },
        None => Some(None),
    }
}

/// Extracts an optional `u16` field.
pub fn opt_u16_field(fields: &Vec<(String, JsonValue)>, key: &str) -> (r: Option<Option<u16>>)
    ensures
        r == spec_opt_u16_field(fields@, key@),
{
    match lookup(fields, key) {
        Some(i) => match &fields[i].1 {
            JsonValue::UInt(n) => if *n <= u16::MAX as u64 {
                Some(Some(*n as u16))
            } else {
                None
            },
            JsonValue::Null => Some(None),
            _ => None,
        },
        None => Some(None),
    }
}

} // verus!
