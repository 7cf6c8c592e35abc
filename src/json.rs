//! The JSON values of serde_json, as far as the settings document reads them.
use vstd::prelude::*;
use crate::settings::is_settings_document;

verus! {

#[verifier::external_type_specification]
#[verifier::external_body]
pub struct ExValue(serde_json::Value);

#[verifier::external_type_specification]
#[verifier::external_body]
pub struct ExError(serde_json::Error);

/// What a JSON value is, one level deep: its children stay values.
pub enum JsonShape {
    /// A number that serde_json holds as a non-negative integer.
    Unsigned(u64),
    Text(Seq<char>),
    List(Seq<serde_json::Value>),
    Object(Map<Seq<char>, serde_json::Value>),
    /// null, a boolean, or a number held as a negative integer or a float.
    Other,
}

/// The shape of a value, as serde_json's accessors report it.
pub uninterp spec fn json_shape(v: serde_json::Value) -> JsonShape;

/// The value that serde_json parses from a text, if the text is JSON.
pub uninterp spec fn json_parse(text: Seq<char>) -> Option<serde_json::Value>;

/// The pretty-printed text that serde_json writes for a value.
pub uninterp spec fn json_pretty(v: serde_json::Value) -> Seq<char>;

/// Relies on `Value::is_object`: true exactly for an object.
pub assume_specification[ serde_json::Value::is_object ](v: &serde_json::Value) -> (r: bool)
    ensures
        r == (json_shape(*v) is Object),
;

/// Relies on `Value::as_u64`: the integer of a non-negative integer number.
pub assume_specification[ serde_json::Value::as_u64 ](v: &serde_json::Value) -> (r: Option<u64>)
    ensures
        r == (match json_shape(*v) {
            JsonShape::Unsigned(n) => Some(n),
            _ => None,
        }),
;

/// Relies on `Value::as_str`: the characters of a string value.
pub assume_specification<'a>[ serde_json::Value::as_str ](v: &'a serde_json::Value) -> (r: Option<&'a str>)
    ensures
        match json_shape(*v) {
            JsonShape::Text(s) => r is Some && r->0@ == s,
            _ => r is None,
        },
;

/// Relies on `Value::as_array`: the elements of an array value.
pub assume_specification<'a>[ serde_json::Value::as_array ](v: &'a serde_json::Value) -> (r: Option<&'a Vec<serde_json::Value>>)
    ensures
        match json_shape(*v) {
            JsonShape::List(items) => r is Some && r->0@ == items,
            _ => r is None,
        },
;

/// Relies on `Value::get` with a string key: the member of an object under that key.
#[verifier::external_body]
pub(crate) fn member<'a>(v: &'a serde_json::Value, key: &str) -> (r: Option<&'a serde_json::Value>)
    ensures
        match json_shape(*v) {
            JsonShape::Object(m) => if m.contains_key(key@) {
                r is Some && *r->0 == m[key@]
            } else {
                r is None
            },
            _ => r is None,
        },
{
    v.get(key)
}

/// Relies on `From<u64> for Value`: a number holding the integer.
#[verifier::external_body]
pub(crate) fn from_unsigned(n: u64) -> (r: serde_json::Value)
    ensures
        json_shape(r) == JsonShape::Unsigned(n),
{
    serde_json::Value::from(n)
}

/// Relies on `From<String> for Value`: a string value holding the characters.
#[verifier::external_body]
pub(crate) fn from_text(s: String) -> (r: serde_json::Value)
    ensures
        json_shape(r) == JsonShape::Text(s@),
{
    serde_json::Value::from(s)
}

/// Relies on `From<Vec<Value>> for Value`: an array of the values, in order.
#[verifier::external_body]
pub(crate) fn from_list(items: Vec<serde_json::Value>) -> (r: serde_json::Value)
    ensures
        json_shape(r) == JsonShape::List(items@),
{
    serde_json::Value::from(items)
}

/// The members of an object built from key-value entries, in order.
pub open spec fn entry_map(entries: Seq<(String, serde_json::Value)>) -> Map<Seq<char>, serde_json::Value>
    decreases entries.len(),
{
    if entries.len() == 0 {
        Map::empty()
    } else {
        let last = entries.last();
        entry_map(entries.drop_last()).insert(last.0@, last.1)
    }
}

/// Relies on `FromIterator<(String, Value)> for Value`: an object with one member
/// for each entry, when no two entries share a key.
#[verifier::external_body]
pub(crate) fn from_entries(entries: Vec<(String, serde_json::Value)>) -> (r: serde_json::Value)
    requires
        forall|i: int, j: int|
            0 <= i < j < entries@.len() ==> entries@[i].0@ != entries@[j].0@,
    ensures
        json_shape(r) == JsonShape::Object(entry_map(entries@)),
{
    entries.into_iter().collect()
}

/// Relies on `serde_json::from_str` into a `Value`: whether it succeeds, and the
/// value it returns, depend on the text alone; and it reads back the value of a
/// settings document from the text that `to_string_pretty` printed for it (an
/// object of a non-negative integer, an array of strings and a string, two levels
/// deep, well within the parser's nesting limit).
#[verifier::external_body]
pub(crate) fn parse(text: &str) -> (r: Result<serde_json::Value, serde_json::Error>)
    ensures
        match json_parse(text@) {
            Some(v) => r == Ok::<serde_json::Value, serde_json::Error>(v),
            None => r is Err,
        },
        forall|v: serde_json::Value|
            is_settings_document(v) && #[trigger] json_pretty(v) == text@ ==> r is Ok && r->Ok_0
                == v,
{
    serde_json::from_str(text)
}

/// Relies on `serde_json::to_string_pretty` of a `Value`: it never fails there (a
/// `Value`'s keys are strings and the text goes into a `Vec`), and the text depends
/// on the value alone.
#[verifier::external_body]
pub(crate) fn pretty(v: &serde_json::Value) -> (r: Result<String, serde_json::Error>)
    ensures
        r is Ok,
        r matches Ok(s) ==> s@ == json_pretty(*v),
{
    serde_json::to_string_pretty(v)
}

/// Relies on serde_json's `Display` of its error: the message, with the line and
/// column where the input went wrong.
#[verifier::external_body]
pub(crate) fn describe(e: &serde_json::Error) -> (r: String) {
    e.to_string()
}

} // verus!
