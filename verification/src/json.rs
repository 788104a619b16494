//! JSON documents as `serde_json` values, with a mathematical model of what
//! such a value holds.
//!
//! `serde_json::Value` is opaque to the verifier. Everything this crate proves
//! about a document is stated over [`JsonValue`], reached through
//! [`json_of`]. The constructors below are the only trusted statements about
//! `serde_json`; each one describes a single constructor or conversion of
//! that crate.

use vstd::prelude::*;

verus! {

/// `serde_json::Value`, opaque to the verifier.
#[verifier::external_type_specification]
#[verifier::external_body]
pub struct ExValue(serde_json::Value);

/// `serde_json::Map`, opaque to the verifier.
#[verifier::external_type_specification]
#[verifier::external_body]
#[verifier::reject_recursive_types(K)]
#[verifier::reject_recursive_types(V)]
pub struct ExMap<K, V>(serde_json::Map<K, V>);

/// The content of a JSON document whose numbers are all integers.
///
/// Objects are maps: a key occurs at most once and the order in which the
/// members were added is not part of the content.
pub enum JsonValue {
    Null,
    Bool(bool),
    Number(int),
    Text(Seq<char>),
    Array(Seq<JsonValue>),
    Object(Map<Seq<char>, JsonValue>),
}

/// The content of a `serde_json::Value`.
pub uninterp spec fn json_of(v: serde_json::Value) -> JsonValue;

/// The members of a `serde_json::Map`.
pub uninterp spec fn fields_of(m: serde_json::Map<String, serde_json::Value>) -> Map<
    Seq<char>,
    JsonValue,
>;

/// What `serde_json::to_string_pretty` makes of a document: the text that it
/// writes, or `None` where it reports an error.
pub uninterp spec fn pretty_text(doc: JsonValue) -> Option<Seq<char>>;

/// An object without members.
pub open spec fn no_fields() -> Map<Seq<char>, JsonValue> {
    Map::empty()
}

/// The contents of a sequence of values, element by element.
pub open spec fn json_of_each(items: Seq<serde_json::Value>) -> Seq<JsonValue> {
    Seq::new(items.len(), |i: int| json_of(items[i]))
}

/// The document for an optional text: the text itself, or `null`.
pub open spec fn text_or_null(t: Option<Seq<char>>) -> JsonValue {
    match t {
        Some(s) => JsonValue::Text(s),
        None => JsonValue::Null,
    }
}

/// The array of texts.
pub open spec fn text_array(items: Seq<Seq<char>>) -> JsonValue {
    JsonValue::Array(Seq::new(items.len(), |i: int| JsonValue::Text(items[i])))
}

/// Trusted: `serde_json::Value::Null` is the JSON `null`.
#[verifier::external_body]
pub(crate) fn null() -> (r: serde_json::Value)
    ensures
        json_of(r) == JsonValue::Null,
{
    serde_json::Value::Null
}

/// Trusted: `serde_json::Value::Bool` holds the given boolean.
#[verifier::external_body]
pub(crate) fn boolean(b: bool) -> (r: serde_json::Value)
    ensures
        json_of(r) == JsonValue::Bool(b),
{
    serde_json::Value::Bool(b)
}

/// Trusted: `<serde_json::Value as From<i64>>::from` gives the JSON number
/// with the same integer value.
#[verifier::external_body]
pub(crate) fn signed(n: i64) -> (r: serde_json::Value)
    ensures
        json_of(r) == JsonValue::Number(n as int),
{
    serde_json::Value::from(n)
}

/// Trusted: `<serde_json::Value as From<u64>>::from` gives the JSON number
/// with the same integer value.
#[verifier::external_body]
pub(crate) fn unsigned(n: u64) -> (r: serde_json::Value)
    ensures
        json_of(r) == JsonValue::Number(n as int),
{
    serde_json::Value::from(n)
}

/// Trusted: `<serde_json::Value as From<&str>>::from` gives the JSON string
/// with the same characters.
#[verifier::external_body]
pub(crate) fn text(s: &str) -> (r: serde_json::Value)
    ensures
        json_of(r) == JsonValue::Text(s@),
{
    serde_json::Value::from(s)
}

/// Trusted: `serde_json::Value::Array` holds the given values in their order.
#[verifier::external_body]
pub(crate) fn array(items: Vec<serde_json::Value>) -> (r: serde_json::Value)
    ensures
        json_of(r) == JsonValue::Array(json_of_each(items@)),
{
    serde_json::Value::Array(items)
}

/// Trusted: `serde_json::Map::new` makes a map without members.
#[verifier::external_body]
pub(crate) fn new_fields() -> (r: serde_json::Map<String, serde_json::Value>)
    ensures
        fields_of(r) == no_fields(),
{
    serde_json::Map::new()
}

/// Trusted: `serde_json::Map::insert` sets the member `key` to `v`, replacing
/// an earlier member of that name, and leaves the other members alone.
#[verifier::external_body]
pub(crate) fn put_field(
    m: &mut serde_json::Map<String, serde_json::Value>,
    key: &str,
    v: serde_json::Value,
)
    ensures
        fields_of(*final(m)) == fields_of(*old(m)).insert(key@, json_of(v)),
{
    m.insert(key.to_string(), v);
}

/// Trusted: `serde_json::Value::Object` holds the members of the given map.
#[verifier::external_body]
pub(crate) fn object(m: serde_json::Map<String, serde_json::Value>) -> (r: serde_json::Value)
    ensures
        json_of(r) == JsonValue::Object(fields_of(m)),
{
    serde_json::Value::Object(m)
}

/// Trusted: what `serde_json::to_string_pretty` returns, the text or the
/// fact that it reports an error, depends on the content of the value alone.
/// The error itself is dropped. Nothing is claimed about which documents it
/// accepts.
#[verifier::external_body]
pub(crate) fn to_pretty(v: &serde_json::Value) -> (r: Option<String>)
    ensures
        r.deep_view() == pretty_text(json_of(*v)),
{
    serde_json::to_string_pretty(v).ok()
}

/// The value for an optional text: the text, or `null` where there is none.
pub fn optional_text(t: &Option<String>) -> (r: serde_json::Value)
    ensures
        json_of(r) == text_or_null(t.deep_view()),
{
    match t {
        Some(s) => text(s.as_str()),
        None => null(),
    }
}

/// The array value that holds the given texts in their order.
pub fn texts(items: &Vec<String>) -> (r: serde_json::Value)
    ensures
        json_of(r) == text_array(items.deep_view()),
{
    let mut out: Vec<serde_json::Value> = Vec::new();
    let mut i: usize = 0;
    while i < items.len()
        invariant
            i <= items.len(),
            out@.len() == i,
            forall|k: int|
                0 <= k < i ==> json_of(#[trigger] out@[k]) == JsonValue::Text(items@[k]@),
        decreases items.len() - i,
    {
        out.push(text(items[i].as_str()));
        i += 1;
    }
    let r = array(out);
    assert(json_of_each(out@) =~= Seq::new(
        items@.len(),
        |i: int| JsonValue::Text(items.deep_view()[i]),
    ));
    r
}

/// The pretty-printed text of a document, as the program prints it: what
/// `serde_json` makes of the document's content, `None` if and only if it
/// reports an error for that content.
pub fn render(v: &serde_json::Value) -> (r: Option<String>)
    ensures
        r.deep_view() == pretty_text(json_of(*v)),
{
    to_pretty(v)
}

} // verus!
