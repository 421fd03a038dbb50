//! JSON values of `serde_json`, and what the library knows of them.

use vstd::prelude::*;

verus! {

/// What a JSON value holds.
pub enum JsonView {
    Null,
    Bool(bool),
    /// A number, as `serde_json` writes it.
    Number(Seq<char>),
    Text(Seq<char>),
    Array(Seq<JsonView>),
    Object(Map<Seq<char>, JsonView>),
}

/// `serde_json::Value`, a JSON value.
#[verifier::external_type_specification]
#[verifier::external_body]
pub struct ExJsonValue(serde_json::Value);

/// `serde_json::Error`, the reason why a text was not read or a value not written.
#[verifier::external_type_specification]
#[verifier::external_body]
pub struct ExJsonError(serde_json::Error);

/// What the value `v` holds.
pub uninterp spec fn json_value(v: serde_json::Value) -> JsonView;

/// What `serde_json` reads out of `text`: nothing if it is not one JSON value.
pub uninterp spec fn json_parsed(text: Seq<char>) -> Option<JsonView>;

/// The indented text that `serde_json` writes for a value.
pub uninterp spec fn json_pretty_text(v: JsonView) -> Seq<char>;

/// `serde_json::from_str` at the type `serde_json::Value`: reads one JSON
/// value; what it reads depends on the text alone.
#[verifier::external_body]
pub(crate) fn json_parse(text: &str) -> (res: Result<serde_json::Value, serde_json::Error>)
    ensures
        json_parsed(text@) == (match res {
            Ok(v) => Some(json_value(v)),
            Err(_) => None,
        }),
{
    serde_json::from_str::<serde_json::Value>(text)
}

/// `serde_json::to_string_pretty` of a `serde_json::Value`: writes the value
/// indented; the text depends on what the value holds alone. Writing a value
/// does not fail: the keys of its objects are strings, and the text goes into
/// memory.
#[verifier::external_body]
pub(crate) fn json_pretty(v: &serde_json::Value) -> (res: Result<String, serde_json::Error>)
    ensures
        res is Ok,
        res->Ok_0@ == json_pretty_text(json_value(*v)),
{
    serde_json::to_string_pretty(v)
}

/// `<serde_json::Value as From<&str>>::from`: the JSON string that holds `text`.
#[verifier::external_body]
pub(crate) fn json_text(text: &str) -> (res: serde_json::Value)
    ensures
        json_value(res) == JsonView::Text(text@),
{
    serde_json::Value::from(text)
}

/// `<serde_json::Value as Clone>::clone`: a value that holds the same.
#[verifier::external_body]
pub(crate) fn json_copy(v: &serde_json::Value) -> (res: serde_json::Value)
    ensures
        json_value(res) == json_value(*v),
{
    v.clone()
}

/// `serde_json::Map::new`, as a value: the JSON object without members.
#[verifier::external_body]
pub(crate) fn json_object() -> (res: serde_json::Value)
    ensures
        json_value(res) == JsonView::Object(Map::empty()),
{
    serde_json::Value::Object(serde_json::Map::new())
}

/// `<serde_json::Value as IndexMut<&str>>::index_mut`, assigned to: the object
/// gets a member of this name with this value, in place of one that it had.
/// On a value that is not an object the call may panic.
#[verifier::external_body]
pub(crate) fn json_insert(object: &mut serde_json::Value, key: &str, value: serde_json::Value)
    requires
        json_value(*old(object)) is Object,
    ensures
        json_value(*final(object)) == JsonView::Object(
            json_value(*old(object))->Object_0.insert(key@, json_value(value)),
        ),
{
    object[key] = value;
}

} // verus!
