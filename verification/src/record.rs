//! Records in JSON.
//!
//! A record is read from an object by the names of its fields, or from an array by their
//! positions; what an object holds beyond the known names is ignored.

use crate::json::{
    json_array, json_bool, json_copy, json_is_null, json_keys, json_member, json_model, json_str,
    json_u64, member, optional_model, referred_model, JsonTree,
};
use crate::text::optional_text;
use vstd::prelude::*;

verus! {

/// The field of a record that is named `key` in an object and stands at `pos` in an array.
pub open spec fn field(tree: JsonTree, key: Seq<char>, pos: int) -> Option<JsonTree> {
    match tree {
        JsonTree::Array(items) => if 0 <= pos < items.len() {
            Some(items[pos])
        } else {
            None
        },
        _ => member(tree, key),
    }
}

/// Whether a tree can be a record of `count` fields: an object, or an array that is not longer.
pub open spec fn is_record(tree: JsonTree, count: int) -> bool {
    match tree {
        JsonTree::Object(_) => true,
        JsonTree::Array(items) => items.len() <= count,
        _ => false,
    }
}

/// A field that has to be a string.
pub open spec fn required_text(tree: Option<JsonTree>) -> Option<Seq<char>> {
    match tree {
        Some(JsonTree::Text(s)) => Some(s),
        _ => None,
    }
}

/// A string that may be absent or `null`; `None` for anything else.
pub open spec fn maybe_text(tree: Option<JsonTree>) -> Option<Option<Seq<char>>> {
    match tree {
        None => Some(None),
        Some(JsonTree::Null) => Some(None),
        Some(JsonTree::Text(s)) => Some(Some(s)),
        _ => None,
    }
}

/// A boolean that may be absent or `null`; `None` for anything else.
pub open spec fn maybe_bool(tree: Option<JsonTree>) -> Option<Option<bool>> {
    match tree {
        None => Some(None),
        Some(JsonTree::Null) => Some(None),
        Some(JsonTree::Bool(b)) => Some(Some(b)),
        _ => None,
    }
}

/// An integer below 2^32 that may be absent or `null`; `None` for anything else.
pub open spec fn maybe_u32(tree: Option<JsonTree>) -> Option<Option<u32>> {
    match tree {
        None => Some(None),
        Some(JsonTree::Null) => Some(None),
        Some(JsonTree::Number { unsigned: Some(n), .. }) => if n <= u32::MAX {
            Some(Some(n as u32))
        } else {
            None
        },
        _ => None,
    }
}

/// Any tree; absent and `null` both stand for no value.
pub open spec fn maybe_tree(tree: Option<JsonTree>) -> Option<JsonTree> {
    match tree {
        None => None,
        Some(JsonTree::Null) => None,
        Some(t) => Some(t),
    }
}

/// The field named `key` in an object, at `pos` in an array.
pub(crate) fn read_field<'a>(value: &'a serde_json::Value, key: &str, pos: usize) -> (r: Option<
    &'a serde_json::Value,
>)
    ensures
        referred_model(r) == field(json_model(*value), key@, pos as int),
{
    match json_array(value) {
        Some(items) => if pos < items.len() {
            Some(&items[pos])
        } else {
            None
        },
        None => json_member(value, key),
    }
}

/// Whether `value` can be a record of `count` fields.
pub(crate) fn fits_record(value: &serde_json::Value, count: usize) -> (r: bool)
    ensures
        r == is_record(json_model(*value), count as int),
{
    match json_array(value) {
        Some(items) => items.len() <= count,
        None => json_keys(value).is_some(),
    }
}

/// A string that has to be there.
pub(crate) fn read_text(value: Option<&serde_json::Value>) -> (r: Option<String>)
    ensures
        optional_text(r) == required_text(referred_model(value)),
{
    match value {
        Some(v) => match json_str(v) {
            Some(s) => Some(s.to_string()),
            None => None,
        },
        None => None,
    }
}

/// A string that may be absent.
pub(crate) fn read_maybe_text(value: Option<&serde_json::Value>) -> (r: Option<Option<String>>)
    ensures
        maybe_text(referred_model(value)) == match r {
            Some(t) => Some(optional_text(t)),
            None => None,
        },
{
    match value {
        Some(v) => if json_is_null(v) {
            Some(None)
        } else {
            match json_str(v) {
                Some(s) => Some(Some(s.to_string())),
                None => None,
            }
        },
        None => Some(None),
    }
}

/// A boolean that may be absent.
pub(crate) fn read_maybe_bool(value: Option<&serde_json::Value>) -> (r: Option<Option<bool>>)
    ensures
        r == maybe_bool(referred_model(value)),
{
    match value {
        Some(v) => if json_is_null(v) {
            Some(None)
        } else {
            match json_bool(v) {
                Some(b) => Some(Some(b)),
                None => None,
            }
        },
        None => Some(None),
    }
}

/// An integer below 2^32 that may be absent.
pub(crate) fn read_maybe_u32(value: Option<&serde_json::Value>) -> (r: Option<Option<u32>>)
    ensures
        r == maybe_u32(referred_model(value)),
{
    match value {
        Some(v) => if json_is_null(v) {
            Some(None)
        } else {
            match json_u64(v) {
                Some(n) => if n <= u32::MAX as u64 {
                    Some(Some(n as u32))
                } else {
                    None
                },
                None => None,
            }
        },
        None => Some(None),
    }
}

/// A JSON value, with `null` for none.
pub(crate) fn read_maybe_json(value: Option<&serde_json::Value>) -> (r: Option<serde_json::Value>)
    ensures
        optional_model(r) == maybe_tree(referred_model(value)),
{
    match value {
        Some(v) => if json_is_null(v) {
            None
        } else {
            Some(json_copy(v))
        },
        None => None,
    }
}

} // verus!
