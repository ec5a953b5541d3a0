//! What a request puts on the wire.
use vstd::prelude::*;
use vstd::string::*;
use serde_json::Value;
use crate::json;
use crate::json::{
    by_key, json_array, json_object, json_string, json_text, json_view, keyed, member, text_in,
    JsonView,
};
use crate::text::texts;

verus! {

/// The tree of a request: the name of the method and its parameters.
pub open spec fn request_tree(method: Seq<char>, params: Value) -> Value {
    json_object(seq![("method"@, json_string(method)), ("params"@, params)])
}

/// Whether a tree asks for a method, by name, with parameters, and for nothing else.
pub open spec fn asks_for(v: Value, method: Seq<char>, params: Value) -> bool {
    &&& json_view(v) matches JsonView::Object(m) && m.dom() == set!["method"@, "params"@]
    &&& member(v, "method"@) matches Some(name) && text_in(name) == Some(method)
    &&& member(v, "params"@) == Some(params)
}

/// The text of a request. The name of the method goes out as it was given, known or not.
pub fn request_text(method: &str, params: Value) -> (r: Result<String, serde_json::Error>)
    ensures
        match r {
            Ok(s) => s@ == json_text(request_tree(method@, params)) && asks_for(
                request_tree(method@, params),
                method@,
                params,
            ),
            Err(_) => false,
        },
{
    let name: Value = json::string(method);
    let members: Vec<(String, Value)> = vec![
        ("method".to_owned(), name),
        ("params".to_owned(), params),
    ];
    proof {
        reveal_strlit("method");
        reveal_strlit("params");
        let list = seq![("method"@, name), ("params"@, params)];
        assert("method"@[0] != "params"@[0]);
        assert(keyed(members@) =~= list);
        reveal_with_fuel(by_key, 3);
        assert(list.drop_last().drop_last() =~= Seq::empty());
        assert(list.drop_last().last() == list[0]);
        assert(by_key(list) == Map::empty().insert("method"@, name).insert("params"@, params));
        assert(by_key(list).dom() =~= set!["method"@, "params"@]);
    }
    let tree: Value = json::object(members);
    json::print(&tree)
}

/// The tree of a list of names.
pub open spec fn names_tree(names: Seq<Seq<char>>) -> Value {
    json_array(names.map_values(|s: Seq<char>| json_string(s)))
}

/// Whether a tree is a list of exactly these names.
pub open spec fn lists(v: Value, names: Seq<Seq<char>>) -> bool {
    match json_view(v) {
        JsonView::Array(items) => items.len() == names.len() && forall|i: int|
            0 <= i < names.len() ==> text_in(#[trigger] items[i]) == Some(names[i]),
        _ => false,
    }
}

/// The text of a list of names.
pub fn names_text(names: &Vec<String>) -> (r: Result<String, serde_json::Error>)
    ensures
        match r {
            Ok(s) => s@ == json_text(names_tree(texts(names@))) && lists(
                names_tree(texts(names@)),
                texts(names@),
            ),
            Err(_) => false,
        },
{
    let mut items: Vec<Value> = Vec::new();
    let mut i: usize = 0;
    while i < names.len()
        invariant
            i <= names@.len(),
            items@.len() == i,
            forall|j: int|
                0 <= j < i ==> #[trigger] items@[j] == json_string(names@[j]@) && text_in(items@[j])
                    == Some(names@[j]@),
        decreases names.len() - i,
    {
        items.push(json::string(names[i].as_str()));
        i += 1;
    }
    assert(items@ =~= texts(names@).map_values(|s: Seq<char>| json_string(s)));
    let tree: Value = json::array(items);
    json::print(&tree)
}

} // verus!
