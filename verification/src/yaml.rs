//! Trusted access to serde_yaml, which parses the free-text project
//! descriptions.
//!
//! A parsed value is carried opaquely, but what it holds is named:
//! [`yaml_view_of`] is the document a value denotes, and [`yaml_doc_of`]
//! the document a text parses to. Every accessor wrapper speaks of the
//! one name, so the verified reading of the fields in [`crate::provider`]
//! has an exact contract over the parse of the whole description.

use vstd::prelude::*;

verus! {

#[verifier::external_type_specification]
#[verifier::external_body]
pub struct ExYamlValue(serde_yaml::Value);

#[verifier::external_type_specification]
#[verifier::external_body]
pub struct ExYamlError(serde_yaml::Error);

/// A YAML document, as far as the descriptions read one: scalars,
/// sequences, and the string-keyed entries of mappings. Numbers, tagged
/// values and non-string mapping keys fall under `Other` or are absent
/// from the mapping model; no accessor below distinguishes them.
pub enum YamlView {
    Null,
    Bool(bool),
    Str(Seq<char>),
    Sequence(Seq<YamlView>),
    Mapping(Map<Seq<char>, YamlView>),
    Other,
}

/// The document a parsed serde_yaml value holds.
pub uninterp spec fn yaml_view_of(v: serde_yaml::Value) -> YamlView;

/// The document a text parses to, or nothing when it does not parse as
/// YAML. A function of the text alone.
pub uninterp spec fn yaml_doc_of(s: Seq<char>) -> Option<YamlView>;

/// Relies on serde_yaml::from_str::<Value>: parses the text as one YAML
/// document; deterministic in the text.
#[verifier::external_body]
pub(crate) fn yaml_from_str(s: &str) -> (r: core::result::Result<
    serde_yaml::Value,
    serde_yaml::Error,
>)
    ensures
        (match r {
            Ok(v) => yaml_doc_of(s@) == Some(yaml_view_of(v)),
            Err(_) => yaml_doc_of(s@) is None,
        }),
{
    serde_yaml::from_str(s)
}

/// Relies on serde_yaml::Value::get with a string key: the value under
/// that key when the document is a mapping that has it.
#[verifier::external_body]
pub(crate) fn yaml_get<'a>(v: &'a serde_yaml::Value, key: &str) -> (r: Option<
    &'a serde_yaml::Value,
>)
    ensures
        (match yaml_view_of(*v) {
            YamlView::Mapping(m) => (match r {
                Some(w) => m.contains_key(key@) && yaml_view_of(*w) == m[key@],
                None => !m.contains_key(key@),
            }),
            _ => r is None,
        }),
{
    v.get(key)
}

/// Relies on serde_yaml::Value::is_null.
#[verifier::external_body]
pub(crate) fn yaml_is_null(v: &serde_yaml::Value) -> (r: bool)
    ensures
        r == (yaml_view_of(*v) is Null),
{
    v.is_null()
}

/// Relies on serde_yaml::Value::as_str: the text exactly when the value
/// is a string.
#[verifier::external_body]
pub(crate) fn yaml_as_str(v: &serde_yaml::Value) -> (r: Option<String>)
    ensures
        (match r {
            Some(s) => yaml_view_of(*v) == YamlView::Str(s@),
            None => !(yaml_view_of(*v) is Str),
        }),
{
    v.as_str().map(str::to_string)
}

/// Relies on serde_yaml::Value::as_bool: the value exactly when it is a
/// boolean.
#[verifier::external_body]
pub(crate) fn yaml_as_bool(v: &serde_yaml::Value) -> (r: Option<bool>)
    ensures
        (match r {
            Some(b) => yaml_view_of(*v) == YamlView::Bool(b),
            None => !(yaml_view_of(*v) is Bool),
        }),
{
    v.as_bool()
}

/// Relies on serde_yaml::Value::as_sequence: the elements exactly when
/// the value is a sequence.
#[verifier::external_body]
pub(crate) fn yaml_as_sequence<'a>(v: &'a serde_yaml::Value) -> (r: Option<
    &'a Vec<serde_yaml::Value>,
>)
    ensures
        (match r {
            Some(items) => (yaml_view_of(*v) matches YamlView::Sequence(elems) && items@.len()
                == elems.len() && (forall|i: int|
                0 <= i < elems.len() ==> yaml_view_of(#[trigger] items@[i]) == elems[i])),
            None => !(yaml_view_of(*v) is Sequence),
        }),
{
    v.as_sequence()
}

/// Relies on serde_yaml::Error's display: the parse failure as text.
#[verifier::external_body]
pub(crate) fn yaml_error_string(e: &serde_yaml::Error) -> (r: String) {
    e.to_string()
}

} // verus!
