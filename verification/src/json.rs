//! JSON values: the parts of `serde_json` that the wire formats are built on.
//!
//! A `serde_json::Value` is opaque to the proofs. `json_model` names the tree that it holds, and
//! each wrapper below says over that tree what one `serde_json` function does.

use vstd::prelude::*;

verus! {

/// A parsed JSON document.
#[verifier::external_type_specification]
#[verifier::external_body]
pub struct ExValue(serde_json::Value);

/// A JSON tree.
pub enum JsonTree {
    Null,
    Bool(bool),
    /// A number: its value if it is an integer from 0 up to `u64::MAX` that is written without
    /// fraction and exponent, and its text.
    Number { unsigned: Option<u64>, text: Seq<char> },
    Text(Seq<char>),
    Array(Seq<JsonTree>),
    Object(Map<Seq<char>, JsonTree>),
}

/// The tree that a `serde_json::Value` holds.
pub uninterp spec fn json_model(value: serde_json::Value) -> JsonTree;

/// The tree that `serde_json` reads from a text, or `None` if the text is not one JSON document.
pub uninterp spec fn json_parsed(text: Seq<char>) -> Option<JsonTree>;

/// The compact text that `serde_json` writes for a tree.
pub uninterp spec fn json_written(tree: JsonTree) -> Seq<char>;

/// The trees of a list of values.
pub open spec fn json_models(values: Seq<serde_json::Value>) -> Seq<JsonTree> {
    values.map_values(|v: serde_json::Value| json_model(v))
}

/// The member `key` of an object; `None` for an absent key and for anything but an object.
pub open spec fn member(tree: JsonTree, key: Seq<char>) -> Option<JsonTree> {
    match tree {
        JsonTree::Object(entries) => if entries.contains_key(key) {
            Some(entries[key])
        } else {
            None
        },
        _ => None,
    }
}

/// The tree of an unsigned integer.
pub open spec fn number_tree(n: u64) -> JsonTree {
    JsonTree::Number { unsigned: Some(n), text: crate::text::decimal(n as nat) }
}

/// The members that a list of entries stands for; of two entries with one key the later counts.
pub open spec fn entries_map(entries: Seq<(Seq<char>, JsonTree)>) -> Map<Seq<char>, JsonTree>
    decreases entries.len(),
{
    if entries.len() == 0 {
        Map::empty()
    } else {
        entries_map(entries.drop_last()).insert(entries.last().0, entries.last().1)
    }
}

/// The keys and trees of a list of entries.
pub open spec fn entry_models(entries: Seq<(String, serde_json::Value)>) -> Seq<
    (Seq<char>, JsonTree),
> {
    entries.map_values(|e: (String, serde_json::Value)| (e.0@, json_model(e.1)))
}

/// The tree of an optional value.
pub open spec fn optional_model(value: Option<serde_json::Value>) -> Option<JsonTree> {
    match value {
        Some(v) => Some(json_model(v)),
        None => None,
    }
}

/// The tree of an optional reference to a value.
pub open spec fn referred_model(value: Option<&serde_json::Value>) -> Option<JsonTree> {
    match value {
        Some(v) => Some(json_model(*v)),
        None => None,
    }
}

/// `serde_json::from_str` into a `Value`: whether it succeeds, and the tree that comes out,
/// depend on the text alone.
#[verifier::external_body]
pub(crate) fn parse_json(text: &str) -> (r: Option<serde_json::Value>)
    ensures
        optional_model(r) == json_parsed(text@),
{
    serde_json::from_str::<serde_json::Value>(text).ok()
}

/// `Value::to_string`: the text depends on the tree alone.
#[verifier::external_body]
pub(crate) fn write_json(value: &serde_json::Value) -> (r: String)
    ensures
        r@ == json_written(json_model(*value)),
{
    value.to_string()
}

/// `Value::get` with a string: the member of an object, `None` otherwise.
#[verifier::external_body]
pub(crate) fn json_member<'a>(value: &'a serde_json::Value, key: &str) -> (r: Option<
    &'a serde_json::Value,
>)
    ensures
        referred_model(r) == member(json_model(*value), key@),
{
    value.get(key)
}

/// `Value::as_bool`: the boolean of a boolean, `None` otherwise.
#[verifier::external_body]
pub(crate) fn json_bool(value: &serde_json::Value) -> (r: Option<bool>)
    ensures
        r == match json_model(*value) {
            JsonTree::Bool(b) => Some(b),
            _ => None::<bool>,
        },
{
    value.as_bool()
}

/// `Value::as_str`: the characters of a string, `None` otherwise.
#[verifier::external_body]
pub(crate) fn json_str(value: &serde_json::Value) -> (r: Option<&str>)
    ensures
        r is Some <==> json_model(*value) is Text,
        r matches Some(s) ==> json_model(*value) == JsonTree::Text(s@),
{
    value.as_str()
}

/// `Value::as_u64`: the value of a number that is an unsigned integer, `None` otherwise.
#[verifier::external_body]
pub(crate) fn json_u64(value: &serde_json::Value) -> (r: Option<u64>)
    ensures
        r == match json_model(*value) {
            JsonTree::Number { unsigned, .. } => unsigned,
            _ => None::<u64>,
        },
{
    value.as_u64()
}

/// `Value::is_null`.
#[verifier::external_body]
pub(crate) fn json_is_null(value: &serde_json::Value) -> (r: bool)
    ensures
        r == (json_model(*value) is Null),
{
    value.is_null()
}

/// `Value::as_array`: the elements of an array in their order, `None` otherwise.
#[verifier::external_body]
pub(crate) fn json_array(value: &serde_json::Value) -> (r: Option<&Vec<serde_json::Value>>)
    ensures
        r is Some <==> json_model(*value) is Array,
        r matches Some(items) ==> json_model(*value) == JsonTree::Array(json_models(items@)),
{
    value.as_array()
}

/// `Value::as_object`: the keys of an object, each once, `None` otherwise. Nothing is stated of
/// the order of the keys.
#[verifier::external_body]
pub(crate) fn json_keys(value: &serde_json::Value) -> (r: Option<Vec<String>>)
    ensures
        r is Some <==> json_model(*value) is Object,
        r matches Some(keys) ==> {
            &&& crate::text::texts(keys@).no_duplicates()
            &&& crate::text::texts(keys@).to_set() == json_model(*value)->Object_0.dom()
        },
{
    value.as_object().map(|entries| entries.keys().cloned().collect())
}

/// `Value::clone`: a value with the same tree.
#[verifier::external_body]
pub(crate) fn json_copy(value: &serde_json::Value) -> (r: serde_json::Value)
    ensures
        json_model(r) == json_model(*value),
{
    value.clone()
}

/// `Value::Null`.
#[verifier::external_body]
pub(crate) fn json_null() -> (r: serde_json::Value)
    ensures
        json_model(r) == JsonTree::Null,
{
    serde_json::Value::Null
}

/// `Value::Bool`.
#[verifier::external_body]
pub(crate) fn json_of_bool(b: bool) -> (r: serde_json::Value)
    ensures
        json_model(r) == JsonTree::Bool(b),
{
    serde_json::Value::Bool(b)
}

/// `Value::from` for an unsigned integer, which is written in decimal.
#[verifier::external_body]
pub(crate) fn json_of_u64(n: u64) -> (r: serde_json::Value)
    ensures
        json_model(r) == number_tree(n),
{
    serde_json::Value::from(n)
}

/// `Value::String`.
#[verifier::external_body]
pub(crate) fn json_of_text(text: String) -> (r: serde_json::Value)
    ensures
        json_model(r) == JsonTree::Text(text@),
{
    serde_json::Value::String(text)
}

/// `Value::Array`.
#[verifier::external_body]
pub(crate) fn json_of_array(items: Vec<serde_json::Value>) -> (r: serde_json::Value)
    ensures
        json_model(r) == JsonTree::Array(json_models(items@)),
{
    serde_json::Value::Array(items)
}

/// `Value::Object` of the `serde_json::Map` that collects the entries.
#[verifier::external_body]
pub(crate) fn json_of_object(entries: Vec<(String, serde_json::Value)>) -> (r: serde_json::Value)
    ensures
        json_model(r) == JsonTree::Object(entries_map(entry_models(entries@))),
{
    serde_json::Value::Object(entries.into_iter().collect())
}

/// Append an entry.
pub(crate) fn put(
    entries: &mut Vec<(String, serde_json::Value)>,
    key: &str,
    value: serde_json::Value,
)
    ensures
        entry_models(final(entries)@) == entry_models(old(entries)@).push(
            (key@, json_model(value)),
        ),
{
    entries.push((key.to_string(), value));
    assert(entry_models(entries@) =~= entry_models(old(entries)@).push((key@, json_model(value))));
}

/// An optional string; `null` stands for none.
pub open spec fn maybe_text_tree(text: Option<Seq<char>>) -> JsonTree {
    match text {
        Some(s) => JsonTree::Text(s),
        None => JsonTree::Null,
    }
}

/// An optional string; `null` stands for none.
pub(crate) fn write_maybe_text(text: &Option<String>) -> (r: serde_json::Value)
    ensures
        json_model(r) == maybe_text_tree(crate::text::optional_text(*text)),
{
    match text {
        Some(s) => json_of_text(s.clone()),
        None => json_null(),
    }
}

/// An object that is made of entries has each entry under its key, unless a later entry has the
/// same key.
pub proof fn entry_is_member(entries: Seq<(Seq<char>, JsonTree)>, i: int)
    requires
        0 <= i < entries.len(),
        forall|j: int| i < j < entries.len() ==> (#[trigger] entries[j]).0 != entries[i].0,
    ensures
        member(JsonTree::Object(entries_map(entries)), entries[i].0) == Some(entries[i].1),
    decreases entries.len(),
{
    let last = entries.len() - 1;
    if i < last {
        let front = entries.drop_last();
        assert forall|j: int| i < j < front.len() implies (#[trigger] front[j]).0
            != front[i].0 by {
            assert(front[j] == entries[j]);
        }
        entry_is_member(front, i);
        assert(entries[last].0 != entries[i].0);
    }
}

/// An object that is made of entries has no other keys than theirs.
pub proof fn no_other_member(entries: Seq<(Seq<char>, JsonTree)>, key: Seq<char>)
    requires
        forall|j: int| 0 <= j < entries.len() ==> (#[trigger] entries[j]).0 != key,
    ensures
        member(JsonTree::Object(entries_map(entries)), key) is None,
    decreases entries.len(),
{
    if entries.len() > 0 {
        let front = entries.drop_last();
        assert forall|j: int| 0 <= j < front.len() implies (#[trigger] front[j]).0 != key by {
            assert(front[j] == entries[j]);
        }
        no_other_member(front, key);
        assert(entries[entries.len() - 1].0 != key);
    }
}

} // verus!
