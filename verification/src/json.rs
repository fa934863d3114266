//! JSON values as the agents exchange them, and what is assumed of `serde_json`.

use serde_json::Value;
use vstd::prelude::*;

verus! {

/// What a JSON value holds. Numbers are told apart from the rest, not from each
/// other: nothing here reads one.
pub enum Json {
    Null,
    Bool(bool),
    Number,
    Text(Seq<char>),
    Array(Seq<Json>),
    Object(Map<Seq<char>, Json>),
}

/// `serde_json::Value`, which is opaque here: `json_contents` says what it holds.
#[verifier::external_type_specification]
#[verifier::external_body]
pub struct ExValue(serde_json::Value);

/// What `value` holds.
pub uninterp spec fn json_contents(value: serde_json::Value) -> Json;

/// What each of `values` holds, in order.
pub open spec fn json_items(values: Seq<Value>) -> Seq<Json> {
    values.map_values(|value: Value| json_contents(value))
}

/// `serde_json::Value::as_str`: the text of a JSON string, and `None` for a
/// value of any other kind.
pub assume_specification[ serde_json::Value::as_str ](value: &serde_json::Value) -> (slice: Option<
    &str,
>)
    ensures
        match json_contents(*value) {
            Json::Text(held) => slice is Some && slice->0@ == held,
            _ => slice is None,
        },
;

/// `serde_json::Value::as_array`: the elements of a JSON array, in order, and
/// `None` for a value of any other kind.
pub assume_specification[ serde_json::Value::as_array ](value: &serde_json::Value) -> (items: Option<
    &Vec<serde_json::Value>,
>)
    ensures
        match json_contents(*value) {
            Json::Array(held) => items is Some && json_items(items->0@) == held,
            _ => items is None,
        },
;

/// `serde_json::Value::get` with a string index: the member that a JSON object
/// has under `key`, and `None` for an object without one and for a value that is
/// not an object.
#[verifier::external_body]
pub(crate) fn member<'a>(value: &'a Value, key: &str) -> (found: Option<&'a Value>)
    ensures
        match json_contents(*value) {
            Json::Object(members) => match found {
                Some(held) => members.contains_pair(key@, json_contents(*held)),
                None => !members.dom().contains(key@),
            },
            _ => found is None,
        },
{
    value.get(key)
}

/// Whether no two of `fields` have the same key.
pub open spec fn has_distinct_keys(fields: Seq<(String, String)>) -> bool {
    forall|i: int, j: int|
        0 <= i < j < fields.len() ==> (#[trigger] fields[i]).0@ != (#[trigger] fields[j]).0@
}

/// The members of the object that has the given texts under the given keys.
pub open spec fn text_members(fields: Seq<(String, String)>) -> Map<Seq<char>, Json>
    decreases fields.len(),
{
    if fields.len() == 0 {
        Map::empty()
    } else {
        text_members(fields.drop_last()).insert(
            fields.last().0@,
            Json::Text(fields.last().1@),
        )
    }
}

/// `serde_json::Value::from_iter` over pairs of strings: the JSON object that has
/// the given texts under the given keys, and no other member. Which of two texts
/// under one key would stay is not said: the keys differ.
#[verifier::external_body]
pub(crate) fn text_object(fields: Vec<(String, String)>) -> (object: Value)
    requires
        has_distinct_keys(fields@),
    ensures
        json_contents(object) == Json::Object(text_members(fields@)),
{
    Value::from_iter(fields)
}

/// What several values hold is what each of them holds, in order.
pub proof fn law_values_one_by_one(values: Seq<Value>)
    ensures
        json_items(values).len() == values.len(),
        forall|i: int|
            0 <= i < values.len() ==> #[trigger] json_items(values)[i] == json_contents(values[i]),
{
}

/// The object made of texts holds each of them under its key, and no other member.
pub proof fn law_texts_under_their_keys(fields: Seq<(String, String)>)
    requires
        forall|i: int, j: int|
            0 <= i < j < fields.len() ==> (#[trigger] fields[i]).0@ != (#[trigger] fields[j]).0@,
    ensures
        forall|i: int|
            0 <= i < fields.len() ==> text_members(fields).contains_pair(
                (#[trigger] fields[i]).0@,
                Json::Text(fields[i].1@),
            ),
        forall|key: Seq<char>| #[trigger]
            text_members(fields).dom().contains(key) ==> exists|i: int|
                0 <= i < fields.len() && (#[trigger] fields[i]).0@ == key,
    decreases fields.len(),
{
    if fields.len() > 0 {
        let before = fields.drop_last();
        let n = before.len() as int;
        law_texts_under_their_keys(before);
        assert forall|i: int| 0 <= i < fields.len() implies text_members(fields).contains_pair(
            (#[trigger] fields[i]).0@,
            Json::Text(fields[i].1@),
        ) by {
            if i < n {
                assert(before[i] == fields[i]);
                assert(fields[i].0@ != fields[n].0@);
            }
        }
        assert forall|key: Seq<char>| #[trigger]
            text_members(fields).dom().contains(key) implies exists|i: int|
            0 <= i < fields.len() && (#[trigger] fields[i]).0@ == key by {
            if key == fields[n].0@ {
                assert(fields[n].0@ == key);
            } else {
                assert(text_members(before).dom().contains(key));
                let i = choose|i: int| 0 <= i < before.len() && (#[trigger] before[i]).0@ == key;
                assert(fields[i].0@ == key);
            }
        }
    }
}

} // verus!
