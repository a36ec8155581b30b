//! JSON values (`serde_json`): the fields of settings objects and the JSON
//! encoding of strings.
use serde_json::Value;
use vstd::prelude::*;

verus! {

/// `serde_json::Value`, any JSON value.
#[verifier::external_type_specification]
#[verifier::external_body]
pub struct ExJsonValue(Value);

/// A field of a JSON object, as the settings logic reads it.
pub enum JsonField {
    /// A string
    Text(Seq<char>),
    /// A number that is a non-negative integer fitting in 64 bits
    Unsigned(u64),
    /// Any other value (null, boolean, other number, array, object)
    Other,
}

/// A field of a JSON object, read from a value.
#[derive(Debug, Clone, PartialEq, Eq)]
pub enum FieldValue {
    Text(String),
    Unsigned(u64),
    Other,
}

impl View for FieldValue {
    type V = JsonField;

    open spec fn view(&self) -> JsonField {
        match self {
            FieldValue::Text(s) => JsonField::Text(s@),
            FieldValue::Unsigned(n) => JsonField::Unsigned(*n),
            FieldValue::Other => JsonField::Other,
        }
    }
}

/// The fields of a JSON object by key; no field for a value that is not an object.
pub uninterp spec fn json_object_fields(v: Value) -> Map<Seq<char>, JsonField>;

/// Whether a JSON value is an object.
pub uninterp spec fn json_is_object(v: Value) -> bool;

/// Reads the field `key` of a JSON value (`Value::get`, then `as_str` or
/// `as_u64` on the field). `None` when the value is not an object or has no
/// such field.
#[verifier::external_body]
pub(crate) fn json_field(v: &Value, key: &str) -> (r: Option<FieldValue>)
    ensures
        r is Some <==> json_object_fields(*v).contains_key(key@),
        r matches Some(f) ==> f@ == json_object_fields(*v)[key@],
{
    match v.get(key) {
        None => None,
        Some(Value::String(s)) => Some(FieldValue::Text(s.clone())),
        Some(x) => match x.as_u64() {
            Some(n) => Some(FieldValue::Unsigned(n)),
            None => Some(FieldValue::Other),
        },
    }
}

/// An empty JSON object (`json!({})`).
#[verifier::external_body]
pub(crate) fn json_empty_object() -> (r: Value)
    ensures
        json_is_object(r),
        json_object_fields(r) =~= Map::empty(),
{
    Value::Object(serde_json::Map::new())
}

/// The JSON `null` value (`Value::Null`): no object, no field.
#[verifier::external_body]
pub(crate) fn json_null() -> (r: Value)
    ensures
        !json_is_object(r),
        json_object_fields(r) =~= Map::empty(),
{
    Value::Null
}

/// Sets the field `key` of a JSON object to the number `n`
/// (`as_object_mut`, then `Map::insert` of `Value::Number(n.into())`).
#[verifier::external_body]
pub(crate) fn json_insert_u16(v: &mut Value, key: String, n: u16)
    requires
        json_is_object(*old(v)),
    ensures
        json_is_object(*final(v)),
        json_object_fields(*final(v)) == json_object_fields(*old(v)).insert(
            key@,
            JsonField::Unsigned(n as u64),
        ),
{
    if let Some(obj) = v.as_object_mut() {
        obj.insert(key, Value::Number(n.into()));
    }
}

/// Sets the field `key` of a JSON object to the string `s`
/// (`as_object_mut`, then `Map::insert` of `Value::String(s)`).
#[verifier::external_body]
pub(crate) fn json_insert_string(v: &mut Value, key: String, s: String)
    requires
        json_is_object(*old(v)),
    ensures
        json_is_object(*final(v)),
        json_object_fields(*final(v)) == json_object_fields(*old(v)).insert(
            key@,
            JsonField::Text(s@),
        ),
{
    if let Some(obj) = v.as_object_mut() {
        obj.insert(key, Value::String(s));
    }
}

/// A copy of a JSON value (`Value::clone`).
#[verifier::external_body]
pub(crate) fn json_clone(v: &Value) -> (r: Value)
    ensures
        r == *v,
{
    v.clone()
}

/// What `serde_json::to_string` writes for a string: the JSON string literal.
pub uninterp spec fn json_string_literal(s: Seq<char>) -> Seq<char>;

/// What `serde_json::from_str::<String>` gives for a text: the string it
/// denotes, or the text of the parse error.
pub uninterp spec fn json_string_parse(text: Seq<char>) -> Result<Seq<char>, Seq<char>>;

/// Encodes a string as a JSON string literal (`serde_json::to_string`).
/// Serializing a string cannot fail (it is written into a vector), and
/// parsing the literal gives the string back.
#[verifier::external_body]
pub(crate) fn json_encode_string(s: &str) -> (r: Result<String, String>)
    ensures
        r is Ok,
        r matches Ok(t) ==> t@ == json_string_literal(s@),
        r matches Ok(t) ==> (json_string_parse(t@) matches Ok(x) && x == s@),
{
    serde_json::to_string(s).map_err(|e| e.to_string())
}

/// Parses a JSON string literal (`serde_json::from_str::<String>`); the
/// error is rendered with its `Display` implementation.
#[verifier::external_body]
pub(crate) fn json_decode_string(text: &str) -> (r: Result<String, String>)
    ensures
        r matches Ok(s) ==> (json_string_parse(text@) matches Ok(x) && x == s@),
        r matches Err(m) ==> (json_string_parse(text@) matches Err(x) && x == m@),
{
    serde_json::from_str::<String>(text).map_err(|e| e.to_string())
}

} // verus!
