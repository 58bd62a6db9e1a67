//! The JSON layer: serde_json's `Value`, seen through a mathematical model.
use vstd::prelude::*;

verus! {

#[verifier::external_type_specification]
#[verifier::external_body]
pub struct ExValue(serde_json::Value);

#[verifier::external_type_specification]
#[verifier::external_body]
pub struct ExError(serde_json::Error);

/// What a JSON document holds. Numbers are not told apart from one another:
/// nothing in this library reads them.
pub enum JsonView {
    Null,
    Bool(bool),
    Number,
    Str(Seq<char>),
    Array(Seq<JsonView>),
    Object(Map<Seq<char>, JsonView>),
}

/// What a `serde_json::Value` holds.
pub uninterp spec fn json_view(v: serde_json::Value) -> JsonView;

/// The document that serde_json reads from a text, if the text is JSON.
pub uninterp spec fn json_parse(text: Seq<char>) -> Option<JsonView>;

/// The document nests arrays and objects at most `n` levels deep.
pub open spec fn nested_within(j: JsonView, n: nat) -> bool
    decreases n,
{
    match j {
        JsonView::Array(items) => n > 0 && forall|i: int|
            0 <= i < items.len() ==> nested_within(#[trigger] items[i], (n - 1) as nat),
        JsonView::Object(m) => n > 0 && forall|k: Seq<char>|
            m.contains_key(k) ==> nested_within(#[trigger] m[k], (n - 1) as nat),
        _ => true,
    }
}

pub open spec fn views_of(items: Seq<serde_json::Value>) -> Seq<JsonView> {
    items.map_values(|v: serde_json::Value| json_view(v))
}

/// The object that a list of distinct keys and their values makes.
pub open spec fn object_of(entries: Seq<(String, serde_json::Value)>) -> Map<Seq<char>, JsonView>
    decreases entries.len(),
{
    if entries.len() == 0 {
        Map::empty()
    } else {
        let last = entries.last();
        object_of(entries.drop_last()).insert(last.0@, json_view(last.1))
    }
}

pub open spec fn keys_distinct(entries: Seq<(String, serde_json::Value)>) -> bool {
    forall|i: int, j: int|
        0 <= i < j < entries.len() ==> (#[trigger] entries[i]).0@ != (#[trigger] entries[j]).0@
}

/// Relies on serde_json::from_str into a `Value`: it fails exactly when the
/// text is not a JSON document.
#[verifier::external_body]
pub(crate) fn parse_json(text: &str) -> (r: Result<serde_json::Value, serde_json::Error>)
    ensures
        r is Ok <==> json_parse(text@) is Some,
        r matches Ok(v) ==> json_parse(text@) == Some(json_view(v)),
{
    serde_json::from_str::<serde_json::Value>(text)
}

/// Relies on serde_json::to_string on a `Value`: a value whose object keys are
/// strings always serialises, and the text reads back as the same document as
/// long as it nests less deeply than the parser's recursion limit.
#[verifier::external_body]
pub(crate) fn to_json_text(v: &serde_json::Value) -> (r: String)
    requires
        nested_within(json_view(*v), 100),
    ensures
        json_parse(r@) == Some(json_view(*v)),
{
    serde_json::to_string(v).unwrap_or_default()
}

/// Relies on `Value::Null`.
#[verifier::external_body]
pub(crate) fn json_null() -> (r: serde_json::Value)
    ensures
        json_view(r) == JsonView::Null,
{
    serde_json::Value::Null
}

/// Relies on `Value::String`.
#[verifier::external_body]
pub(crate) fn json_string(s: String) -> (r: serde_json::Value)
    ensures
        json_view(r) == JsonView::Str(s@),
{
    serde_json::Value::String(s)
}

/// Relies on `Value::Array`.
#[verifier::external_body]
pub(crate) fn json_array(items: Vec<serde_json::Value>) -> (r: serde_json::Value)
    ensures
        json_view(r) == JsonView::Array(views_of(items@)),
{
    serde_json::Value::Array(items)
}

/// Relies on `Value::Object` and on collecting key/value pairs into
/// serde_json's `Map`, which inserts them one by one.
#[verifier::external_body]
pub(crate) fn json_object(entries: Vec<(String, serde_json::Value)>) -> (r: serde_json::Value)
    requires
        keys_distinct(entries@),
    ensures
        json_view(r) == JsonView::Object(object_of(entries@)),
{
    serde_json::Value::Object(entries.into_iter().collect())
}

/// Relies on `Value::get` with a string index: the member of an object under
/// that key; `None` for another kind of value or a missing key.
#[verifier::external_body]
pub(crate) fn json_member<'a>(v: &'a serde_json::Value, key: &str) -> (r: Option<&'a serde_json::Value>)
    ensures
        r is Some <==> (json_view(*v) is Object && json_view(*v)->Object_0.contains_key(key@)),
        r matches Some(m) ==> json_view(*m) == json_view(*v)->Object_0[key@],
{
    v.get(key)
}

/// Relies on `Value::as_str`: the text of a string value.
#[verifier::external_body]
pub(crate) fn json_as_str(v: &serde_json::Value) -> (r: Option<String>)
    ensures
        r is Some <==> json_view(*v) is Str,
        r matches Some(s) ==> s@ == json_view(*v)->Str_0,
{
    v.as_str().map(String::from)
}

/// Relies on `Value::as_array`: the items of an array value.
#[verifier::external_body]
pub(crate) fn json_as_array(v: &serde_json::Value) -> (r: Option<&Vec<serde_json::Value>>)
    ensures
        r is Some <==> json_view(*v) is Array,
        r matches Some(items) ==> views_of(items@) == json_view(*v)->Array_0,
{
    v.as_array()
}

/// Relies on `Value::is_null`.
#[verifier::external_body]
pub(crate) fn json_is_null(v: &serde_json::Value) -> (r: bool)
    ensures
        r == (json_view(*v) is Null),
{
    v.is_null()
}

} // verus!
