use vstd::prelude::*;

use crate::json::Json;

verus! {

// serde_json's document type, held opaque: the decoder reads a parsed
// document only through the functions below.
#[verifier::external_type_specification]
#[verifier::external_body]
pub struct ExValue(serde_json::Value);

/// What a parsed document holds, at the model level. serde_json builds a
/// `Value` tree; this names its contents as a mathematical JSON value, so
/// that every accessor below is specified against one model.
pub uninterp spec fn jview(v: serde_json::Value) -> Json;

/// The contents of a sequence of parsed documents, element by element.
pub open spec fn jviews(s: Seq<serde_json::Value>) -> Seq<Json> {
    s.map_values(|v: serde_json::Value| jview(v))
}

/// What serde_json::from_str returns on a text: the parsed document, or the
/// one-based line and column at which the parser stopped. The outcome is a
/// function of the text alone.
pub uninterp spec fn parsed_json(s: Seq<char>) -> Result<Json, (u64, u64)>;

/// Relies on serde_json::from_str::<Value>: parses the whole text in one
/// pass, or reports the position of the syntax error.
#[verifier::external_body]
pub(crate) fn parse_json(s: &str) -> (r: Result<serde_json::Value, (u64, u64)>)
    ensures
        match r {
            Ok(v) => parsed_json(s@) == Ok::<Json, (u64, u64)>(jview(v)),
            Err(pos) => parsed_json(s@) == Err::<Json, (u64, u64)>(pos),
        },
{
    match serde_json::from_str::<serde_json::Value>(s) {
        Ok(v) => Ok(v),
        Err(e) => Err((e.line() as u64, e.column() as u64)),
    }
}

/// Relies on serde_json::Value::is_object.
#[verifier::external_body]
pub(crate) fn val_is_object(v: &serde_json::Value) -> (r: bool)
    ensures
        r == (jview(*v) is Obj),
{
    v.is_object()
}

/// Relies on serde_json::Value::is_null.
#[verifier::external_body]
pub(crate) fn val_is_null(v: &serde_json::Value) -> (r: bool)
    ensures
        r == (jview(*v) is Null),
{
    v.is_null()
}

/// Relies on serde_json::Value::as_bool: the boolean, on a boolean alone.
#[verifier::external_body]
pub(crate) fn val_as_bool(v: &serde_json::Value) -> (r: Option<bool>)
    ensures
        r == (match jview(*v) {
            Json::Bool(b) => Some(b),
            _ => None::<bool>,
        }),
{
    v.as_bool()
}

/// Relies on serde_json::Value::as_u64: the integer, exactly when the parser
/// read the number as a non-negative integer representable in 64 bits.
#[verifier::external_body]
pub(crate) fn val_as_u64(v: &serde_json::Value) -> (r: Option<u64>)
    ensures
        r == (match jview(*v) {
            Json::Num { integer, .. } => integer,
            _ => None::<u64>,
        }),
{
    v.as_u64()
}

/// Relies on serde_json::Value::as_f64 and f64::to_bits: every JSON number
/// has a double encoding, and it depends on the number alone.
#[verifier::external_body]
pub(crate) fn val_num_bits(v: &serde_json::Value) -> (r: Option<u64>)
    ensures
        r == (match jview(*v) {
            Json::Num { bits, .. } => Some(bits),
            _ => None::<u64>,
        }),
{
    v.as_f64().map(|x| x.to_bits())
}

/// Relies on serde_json::Value::as_str and str::to_string: the string's
/// characters, copied, on a string alone.
#[verifier::external_body]
pub(crate) fn val_as_string(v: &serde_json::Value) -> (r: Option<String>)
    ensures
        match jview(*v) {
            Json::Str(s) => r matches Some(x) && x@ == s,
            _ => r is None,
        },
{
    v.as_str().map(|s| s.to_string())
}

/// Relies on serde_json::Value::as_array: the elements, in order, on an
/// array alone.
#[verifier::external_body]
pub(crate) fn val_as_array<'a>(v: &'a serde_json::Value) -> (r: Option<
    &'a Vec<serde_json::Value>,
>)
    ensures
        match jview(*v) {
            Json::Arr(s) => r matches Some(a) && a@.len() == s.len() && (forall|i: int|
                0 <= i < s.len() ==> #[trigger] jview(a@[i]) == s[i]),
            _ => r is None,
        },
{
    v.as_array()
}

/// Relies on serde_json::Value::get with a string index: on an object, the
/// value under the key if there is one; on anything else, nothing.
#[verifier::external_body]
pub(crate) fn val_get<'a>(v: &'a serde_json::Value, key: &str) -> (r: Option<
    &'a serde_json::Value,
>)
    ensures
        match jview(*v) {
            Json::Obj(m) => {
                &&& r is Some <==> m.contains_key(key@)
                &&& (r matches Some(f) ==> jview(*f) == m[key@])
            },
            _ => r is None,
        },
{
    v.get(key)
}

} // verus!
