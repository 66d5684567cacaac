//! Trusted access to serde_json, which parses the forge catalog pages.
//!
//! A parsed value is carried opaquely, but what it holds is named:
//! [`json_view_of`] is the document a value denotes, and [`json_doc_of`]
//! the document a text parses to. Every accessor wrapper speaks of the
//! one name, so the verified reading of the catalog records in the
//! provider modules has an exact contract over the parse of each page.

use vstd::prelude::*;

verus! {

#[verifier::external_type_specification]
#[verifier::external_body]
pub struct ExJsonValue(serde_json::Value);

#[verifier::external_type_specification]
#[verifier::external_body]
pub struct ExJsonError(serde_json::Error);

/// A JSON document, as far as the catalog pages read one: null, booleans,
/// strings, numbers representable as unsigned 64-bit integers, arrays and
/// objects. Other numbers fall under `Other`; no accessor below
/// distinguishes them.
pub enum JsonView {
    Null,
    Bool(bool),
    UInt(u64),
    Str(Seq<char>),
    Array(Seq<JsonView>),
    Object(Map<Seq<char>, JsonView>),
    Other,
}

/// The document a parsed serde_json value holds.
pub uninterp spec fn json_view_of(v: serde_json::Value) -> JsonView;

/// The document a text parses to, or nothing when it does not parse as
/// JSON. A function of the text alone.
pub uninterp spec fn json_doc_of(s: Seq<char>) -> Option<JsonView>;

/// The value a document holds under a key, when it is an object that has
/// it.
pub open spec fn json_field(doc: JsonView, key: Seq<char>) -> Option<JsonView> {
    match doc {
        JsonView::Object(m) => if m.contains_key(key) {
            Some(m[key])
        } else {
            None
        },
        _ => None,
    }
}

/// The text a document holds under a key, when it is an object whose
/// value there is a string.
pub open spec fn json_str_field(doc: JsonView, key: Seq<char>) -> Option<Seq<char>> {
    match json_field(doc, key) {
        Some(JsonView::Str(s)) => Some(s),
        _ => None,
    }
}

/// Relies on serde_json::from_str::<Value>: parses the text as one JSON
/// document; deterministic in the text.
#[verifier::external_body]
pub(crate) fn json_from_str(s: &str) -> (r: core::result::Result<
    serde_json::Value,
    serde_json::Error,
>)
    ensures
        (match r {
            Ok(v) => json_doc_of(s@) == Some(json_view_of(v)),
            Err(_) => json_doc_of(s@) is None,
        }),
{
    serde_json::from_str(s)
}

/// Relies on serde_json::Value::get with a string key: the value under
/// that key when the document is an object that has it.
#[verifier::external_body]
pub(crate) fn json_get<'a>(v: &'a serde_json::Value, key: &str) -> (r: Option<
    &'a serde_json::Value,
>)
    ensures
        (match json_view_of(*v) {
            JsonView::Object(m) => (match r {
                Some(w) => m.contains_key(key@) && json_view_of(*w) == m[key@],
                None => !m.contains_key(key@),
            }),
            _ => r is None,
        }),
{
    v.get(key)
}

/// Relies on serde_json::Value::is_null.
#[verifier::external_body]
pub(crate) fn json_is_null(v: &serde_json::Value) -> (r: bool)
    ensures
        r == (json_view_of(*v) is Null),
{
    v.is_null()
}

/// Relies on serde_json::Value::as_str: the text exactly when the value
/// is a string.
#[verifier::external_body]
pub(crate) fn json_as_str(v: &serde_json::Value) -> (r: Option<String>)
    ensures
        (match r {
            Some(s) => json_view_of(*v) == JsonView::Str(s@),
            None => !(json_view_of(*v) is Str),
        }),
{
    v.as_str().map(str::to_string)
}

/// Relies on serde_json::Value::as_u64: the value exactly when it is a
/// number representable as an unsigned 64-bit integer.
#[verifier::external_body]
pub(crate) fn json_as_u64(v: &serde_json::Value) -> (r: Option<u64>)
    ensures
        (match r {
            Some(n) => json_view_of(*v) == JsonView::UInt(n),
            None => !(json_view_of(*v) is UInt),
        }),
{
    v.as_u64()
}

/// Relies on serde_json::Value::as_array: the elements exactly when the
/// value is an array.
#[verifier::external_body]
pub(crate) fn json_as_array<'a>(v: &'a serde_json::Value) -> (r: Option<
    &'a Vec<serde_json::Value>,
>)
    ensures
        (match r {
            Some(items) => (json_view_of(*v) matches JsonView::Array(elems) && items@.len()
                == elems.len() && (forall|i: int|
                0 <= i < elems.len() ==> json_view_of(#[trigger] items@[i]) == elems[i])),
            None => !(json_view_of(*v) is Array),
        }),
{
    v.as_array()
}

/// Relies on serde_json::Error's display: the parse failure as text.
#[verifier::external_body]
pub(crate) fn json_error_string(e: &serde_json::Error) -> (r: String) {
    e.to_string()
}

} // verus!
