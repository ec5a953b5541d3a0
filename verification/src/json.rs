//! JSON trees, held as values of `serde_json` and seen one level deep.
use vstd::prelude::*;
use serde::de::Error as _;
use serde_json::{Error as JsonError, Map as Members, Value};

verus! {

/// A JSON tree. Nothing inside it is known here but what [`json_view`] names.
#[verifier::external_type_specification]
#[verifier::external_body]
pub struct ExValue(serde_json::Value);

/// Why a text is no JSON, or a tree is not what was asked for.
#[verifier::external_type_specification]
#[verifier::external_body]
pub struct ExJsonError(JsonError);

/// The top level of a JSON tree.
pub enum JsonView {
    /// `null`.
    Null,
    /// `true` or `false`.
    Bool(bool),
    /// A number, left opaque.
    Number,
    /// A string.
    Text(Seq<char>),
    /// A list.
    Array(Seq<Value>),
    /// An object: its members by key.
    Object(Map<Seq<char>, Value>),
}

/// What the top level of a JSON tree holds.
pub uninterp spec fn json_view(v: Value) -> JsonView;

/// The text that an error of `serde_json` displays.
pub uninterp spec fn json_error_text(e: JsonError) -> Seq<char>;

/// The tree that a text parses to, or the text of the error.
pub uninterp spec fn json_parse(s: Seq<char>) -> Result<Value, Seq<char>>;

/// The compact text of a tree.
pub uninterp spec fn json_text(v: Value) -> Seq<char>;

/// The indented text of a tree.
pub uninterp spec fn json_pretty(v: Value) -> Seq<char>;

/// The tree that is a string.
pub uninterp spec fn json_string(s: Seq<char>) -> Value;

/// The tree that is a list of trees.
pub uninterp spec fn json_array(items: Seq<Value>) -> Value;

/// The tree that is an object made of members in this order.
pub uninterp spec fn json_object(members: Seq<(Seq<char>, Value)>) -> Value;

/// Members with the characters of their keys.
pub open spec fn keyed(members: Seq<(String, Value)>) -> Seq<(Seq<char>, Value)> {
    members.map_values(|m: (String, Value)| (m.0@, m.1))
}

/// Members by key.
pub open spec fn by_key(members: Seq<(Seq<char>, Value)>) -> Map<Seq<char>, Value>
    decreases members.len(),
{
    if members.len() == 0 {
        Map::empty()
    } else {
        by_key(members.drop_last()).insert(members.last().0, members.last().1)
    }
}

/// The member of a tree under a key, where the tree is an object that has one.
pub open spec fn member(v: Value, key: Seq<char>) -> Option<Value> {
    match json_view(v) {
        JsonView::Object(m) => if m.contains_key(key) {
            Some(m[key])
        } else {
            None
        },
        _ => None,
    }
}

/// The text of a tree that is a string.
pub open spec fn text_in(v: Value) -> Option<Seq<char>> {
    match json_view(v) {
        JsonView::Text(s) => Some(s),
        _ => None,
    }
}

/// `serde_json::from_str`, to a tree: the result depends on the text alone.
#[verifier::external_body]
pub(crate) fn parse(s: &str) -> (r: Result<Value, JsonError>)
    ensures
        match r {
            Ok(v) => json_parse(s@) == Ok::<Value, Seq<char>>(v),
            Err(e) => json_parse(s@) == Err::<Value, Seq<char>>(json_error_text(e)),
        },
{
    serde_json::from_str(s)
}

/// `serde_json::to_string` of a tree, which does not fail: its keys are strings and it writes
/// to memory.
#[verifier::external_body]
pub(crate) fn print(v: &Value) -> (r: Result<String, JsonError>)
    ensures
        match r {
            Ok(s) => s@ == json_text(*v),
            Err(_) => false,
        },
{
    serde_json::to_string(v)
}

/// `serde_json::to_string_pretty` of a tree, which does not fail either.
#[verifier::external_body]
pub(crate) fn print_pretty(v: &Value) -> (r: Result<String, JsonError>)
    ensures
        match r {
            Ok(s) => s@ == json_pretty(*v),
            Err(_) => false,
        },
{
    serde_json::to_string_pretty(v)
}

/// `Display` of an error of `serde_json`.
#[verifier::external_body]
pub(crate) fn error_text(e: &JsonError) -> (r: String)
    ensures
        r@ == json_error_text(*e),
{
    e.to_string()
}

/// `serde::de::Error::missing_field`, which names the field in its text.
#[verifier::external_body]
pub(crate) fn missing_field(name: &'static str) -> (r: JsonError)
    ensures
        json_error_text(r) == "missing field `"@ + name@ + "`"@,
{
    JsonError::missing_field(name)
}

/// `Value::get` with a string: the member of an object under that key.
#[verifier::external_body]
pub(crate) fn get<'a>(v: &'a Value, key: &str) -> (r: Option<&'a Value>)
    ensures
        match r {
            Some(m) => member(*v, key@) == Some(*m),
            None => member(*v, key@) is None,
        },
{
    v.get(key)
}

/// `Value::as_array`: the items of a list.
#[verifier::external_body]
pub(crate) fn items<'a>(v: &'a Value) -> (r: Option<&'a Vec<Value>>)
    ensures
        match r {
            Some(list) => json_view(*v) == JsonView::Array(list@),
            None => !(json_view(*v) is Array),
        },
{
    v.as_array()
}

/// `Value::is_null`.
#[verifier::external_body]
pub(crate) fn is_null(v: &Value) -> (r: bool)
    ensures
        r == (json_view(*v) is Null),
{
    v.is_null()
}

/// `Value::is_object`.
#[verifier::external_body]
pub(crate) fn is_object(v: &Value) -> (r: bool)
    ensures
        r == (json_view(*v) is Object),
{
    v.is_object()
}

/// `serde_json::from_value` to the members of an object: it gives an object back as it is and
/// fails on any other tree. Nothing is said of the error's text.
#[verifier::external_body]
pub(crate) fn object_of(v: Value) -> (r: Result<Value, JsonError>)
    ensures
        match r {
            Ok(o) => json_view(v) is Object && o == v,
            Err(_) => !(json_view(v) is Object),
        },
{
    serde_json::from_value::<Members<String, Value>>(v).map(Value::Object)
}

/// `serde_json::from_value` to a `String`: it gives the text of a tree that is a string and
/// fails on any other. Nothing is said of the error's text.
#[verifier::external_body]
pub(crate) fn string_of(v: Value) -> (r: Result<String, JsonError>)
    ensures
        match r {
            Ok(s) => text_in(v) == Some(s@),
            Err(_) => text_in(v) is None,
        },
{
    serde_json::from_value(v)
}

/// `Clone` of a tree, which gives an equal tree.
#[verifier::external_body]
pub(crate) fn duplicate(v: &Value) -> (r: Value)
    ensures
        r == *v,
{
    v.clone()
}

/// `Value::Null`.
#[verifier::external_body]
pub(crate) fn null() -> (r: Value)
    ensures
        json_view(r) is Null,
{
    Value::Null
}

/// `Value::Bool`.
#[verifier::external_body]
pub(crate) fn boolean(b: bool) -> (r: Value)
    ensures
        json_view(r) == JsonView::Bool(b),
{
    Value::Bool(b)
}

/// `Value::String`.
#[verifier::external_body]
pub(crate) fn string(s: &str) -> (r: Value)
    ensures
        r == json_string(s@),
        json_view(r) == JsonView::Text(s@),
{
    Value::String(s.to_string())
}

/// `Value::Array`.
#[verifier::external_body]
pub(crate) fn array(items: Vec<Value>) -> (r: Value)
    ensures
        r == json_array(items@),
        json_view(r) == JsonView::Array(items@),
{
    Value::Array(items)
}

/// `Value::Object` of `serde_json::Map::from_iter`: the members under their keys, where no key
/// comes twice.
#[verifier::external_body]
pub(crate) fn object(members: Vec<(String, Value)>) -> (r: Value)
    requires
        forall|i: int, j: int|
            0 <= i < j < members@.len() ==> (#[trigger] members@[i]).0@ != (
            #[trigger] members@[j]).0@,
    ensures
        r == json_object(keyed(members@)),
        json_view(r) == JsonView::Object(by_key(keyed(members@))),
{
    Value::Object(Members::from_iter(members))
}

/// `serde_json::Map::insert`: the member under a key becomes the one given, the others stay.
#[verifier::external_body]
pub(crate) fn insert(v: &mut Value, key: &str, item: Value)
    requires
        json_view(*old(v)) is Object,
    ensures
        json_view(*final(v)) == JsonView::Object(json_view(*old(v))->Object_0.insert(key@, item)),
{
    v.as_object_mut().unwrap().insert(key.to_string(), item);
}

} // verus!
