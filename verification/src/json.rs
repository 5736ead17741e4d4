//! A JSON document as plain values, and the lookups that read API records from it.
//!
//! Objects hold their members in order with distinct keys, as a parsed document
//! does; a lookup takes the first member with the key.

use vstd::prelude::*;
use crate::text::str_eq;

verus! {

/// A JSON number: its value where it is an integer that fits `i64`, and its text.
#[derive(Debug)]
pub struct JsonNumber {
    pub as_i64: Option<i64>,
    pub text: String,
}

/// A JSON value.
#[derive(Debug)]
pub enum Json {
    Null,
    Bool(bool),
    Number(JsonNumber),
    Str(String),
    Array(Vec<Json>),
    Object(Vec<(String, Json)>),
}

/// The value of the first member named `key`.
pub open spec fn lookup(entries: Seq<(String, Json)>, key: Seq<char>) -> Option<Json>
    decreases entries.len(),
{
    if entries.len() == 0 {
        None
    } else if entries[0].0@ == key {
        Some(entries[0].1)
    } else {
        lookup(entries.drop_first(), key)
    }
}

/// The member `key` of an object (`value.get(key)`; `value[key]` gives `null` where this
/// is `None`).
pub open spec fn member(v: Json, key: Seq<char>) -> Option<Json> {
    match v {
        Json::Object(entries) => lookup(entries@, key),
        _ => None,
    }
}

/// The member `key` of a value that may be missing.
pub open spec fn member_of(v: Option<Json>, key: Seq<char>) -> Option<Json> {
    match v {
        Some(x) => member(x, key),
        None => None,
    }
}

/// The element `i` of an array that may be missing.
pub open spec fn element_of(v: Option<Json>, i: int) -> Option<Json> {
    match v {
        Some(Json::Array(items)) => if 0 <= i < items@.len() {
            Some(items@[i])
        } else {
            None
        },
        _ => None,
    }
}

/// The text of a string value (`as_str`).
pub open spec fn text_of(v: Option<Json>) -> Option<Seq<char>> {
    match v {
        Some(Json::Str(s)) => Some(s@),
        _ => None,
    }
}

/// The text of a string value, or `default` (`as_str().unwrap_or(default)`).
pub open spec fn text_or(v: Option<Json>, default: Seq<char>) -> Seq<char> {
    match text_of(v) {
        Some(s) => s,
        None => default,
    }
}

/// The value of an integer that fits `i64` (`as_i64`).
pub open spec fn int_of(v: Option<Json>) -> Option<i64> {
    match v {
        Some(Json::Number(n)) => n.as_i64,
        _ => None,
    }
}

/// A boolean value (`as_bool`).
pub open spec fn bool_of(v: Option<Json>) -> Option<bool> {
    match v {
        Some(Json::Bool(b)) => Some(b),
        _ => None,
    }
}

/// The text of a number, or `"0"` where the value is not a number; the caller reads
/// it as the `f64` that `as_f64().unwrap_or(0.0)` gives.
pub open spec fn number_text_or_zero(v: Option<Json>) -> Seq<char> {
    match v {
        Some(Json::Number(n)) => n.text@,
        _ => seq!['0'],
    }
}

/// The items of an array value (`as_array`).
pub open spec fn items_of(v: Option<Json>) -> Option<Seq<Json>> {
    match v {
        Some(Json::Array(items)) => Some(items@),
        _ => None,
    }
}

pub open spec fn deref_opt(r: Option<&Json>) -> Option<Json> {
    match r {
        Some(x) => Some(*x),
        None => None,
    }
}

/// The member `key` of `v`, if `v` is an object that has one.
pub fn get<'a>(v: &'a Json, key: &str) -> (r: Option<&'a Json>)
    ensures
        deref_opt(r) == member(*v, key@),
{
    match v {
        Json::Object(entries) => {
            let mut i: usize = 0;
            assert(entries@.subrange(0, entries@.len() as int) =~= entries@);
            while i < entries.len()
                invariant
                    i <= entries@.len(),
                    member(*v, key@) == lookup(entries@, key@),
                    lookup(entries@, key@) == lookup(entries@.subrange(i as int, entries@.len() as int), key@),
                decreases entries.len() - i,
            {
                assert(entries@.subrange(i as int, entries@.len() as int).drop_first() =~= entries@.subrange(i + 1, entries@.len() as int));
                if str_eq(entries[i].0.as_str(), key) {
                    assert(entries@.subrange(i as int, entries@.len() as int)[0] == entries@[i as int]);
                    return Some(&entries[i].1);
                }
                i = i + 1;
            }
            None
        },
        _ => None,
    }
}

/// The member `key` of a value that may be missing.
pub fn get_in<'a>(v: Option<&'a Json>, key: &str) -> (r: Option<&'a Json>)
    ensures
        deref_opt(r) == member_of(deref_opt(v), key@),
{
    match v {
        Some(x) => get(x, key),
        None => None,
    }
}

/// The element `i` of an array value that may be missing.
pub fn at<'a>(v: Option<&'a Json>, i: usize) -> (r: Option<&'a Json>)
    ensures
        deref_opt(r) == element_of(deref_opt(v), i as int),
{
    match v {
        Some(Json::Array(items)) => if i < items.len() {
            Some(&items[i])
        } else {
            None
        },
        _ => None,
    }
}

/// The text of a string value.
pub fn as_text<'a>(v: Option<&'a Json>) -> (r: Option<&'a str>)
    ensures
        match r {
            Some(s) => text_of(deref_opt(v)) == Some(s@),
            None => text_of(deref_opt(v)) is None,
        },
{
    match v {
        Some(Json::Str(s)) => Some(s.as_str()),
        _ => None,
    }
}

/// The text of a string value, or `default`.
pub fn text_or_default(v: Option<&Json>, default: &str) -> (r: String)
    ensures
        r@ == text_or(deref_opt(v), default@),
{
    match v {
        Some(Json::Str(s)) => s.clone(),
        _ => String::from_str(default),
    }
}

/// The value of an integer that fits `i64`.
pub fn as_int(v: Option<&Json>) -> (r: Option<i64>)
    ensures
        r == int_of(deref_opt(v)),
{
    match v {
        Some(Json::Number(n)) => n.as_i64,
        _ => None,
    }
}

/// A boolean value.
pub fn as_bool(v: Option<&Json>) -> (r: Option<bool>)
    ensures
        r == bool_of(deref_opt(v)),
{
    match v {
        Some(Json::Bool(b)) => Some(*b),
        _ => None,
    }
}

/// The text of a number, or `"0"`.
pub fn number_text(v: Option<&Json>) -> (r: String)
    ensures
        r@ == number_text_or_zero(deref_opt(v)),
{
    match v {
        Some(Json::Number(n)) => n.text.clone(),
        _ => {
            proof {
                reveal_strlit("0");
            }
            String::from_str("0")
        },
    }
}

/// The items of an array value.
pub fn as_items<'a>(v: Option<&'a Json>) -> (r: Option<&'a Vec<Json>>)
    ensures
        match r {
            Some(items) => items_of(deref_opt(v)) == Some(items@),
            None => items_of(deref_opt(v)) is None,
        },
{
    match v {
        Some(Json::Array(items)) => Some(items),
        _ => None,
    }
}

} // verus!
