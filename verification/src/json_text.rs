//! Reading JSON text with `serde_json`.

use vstd::prelude::*;
use crate::json::{
    decode_document,
    decoded_document,
    entries_view,
    lemma_array_view,
    lemma_object_view,
    FromJson,
    Json,
    JsonView,
};
use crate::views::views_of;

verus! {

/// `serde_json::Value`: a JSON value as `serde_json` holds it. Nothing is seen
/// of it but through the functions below.
#[verifier::external_type_specification]
#[verifier::external_body]
pub struct ExValue(serde_json::Value);

/// `serde_json::Error`: why a text could not be read. Nothing is read of it.
#[verifier::external_type_specification]
#[verifier::external_body]
pub struct ExError(serde_json::Error);

/// The value that `serde_json::from_str` reads from a text, if it reads one.
pub uninterp spec fn json_document(text: Seq<char>) -> Option<JsonView>;

/// The value that a `serde_json::Value` holds. An object's entries stand in the
/// order in which its map hands them out.
pub uninterp spec fn value_view(v: serde_json::Value) -> JsonView;

/// `serde_json::from_str` at `serde_json::Value`: the value that the text
/// spells, or an error where it spells none.
#[verifier::external_body]
fn read_value(text: &str) -> (r: Result<serde_json::Value, serde_json::Error>)
    ensures
        match r {
            Ok(v) => json_document(text@) == Some(value_view(v)),
            Err(_) => json_document(text@) is None,
        },
{
    serde_json::from_str::<serde_json::Value>(text)
}

/// `serde_json::Value::is_null`: whether the value is `null`.
#[verifier::external_body]
fn value_is_null(v: &serde_json::Value) -> (null: bool)
    ensures
        null == (value_view(*v) is Null),
{
    v.is_null()
}

/// `serde_json::Value::as_bool`: the truth value that a boolean holds, and
/// `None` for every other value.
#[verifier::external_body]
fn value_as_bool(v: &serde_json::Value) -> (found: Option<bool>)
    ensures
        found == (match value_view(*v) {
            JsonView::Bool(b) => Some(b),
            _ => None,
        }),
{
    v.as_bool()
}

/// `serde_json::Value::as_i64`: the number that an integer holds where it
/// fits `i64`, and `None` for every other value.
#[verifier::external_body]
fn value_as_i64(v: &serde_json::Value) -> (found: Option<i64>)
    ensures
        found == (match value_view(*v) {
            JsonView::Integer(i) => if i64::MIN <= i <= i64::MAX {
                Some(i as i64)
            } else {
                None
            },
            _ => None,
        }),
{
    v.as_i64()
}

/// `serde_json::Value::as_u64`: the number that an integer holds where it is
/// not negative, and `None` for every other value. An integer that `serde_json`
/// holds is at least `i64::MIN` and at most `u64::MAX`.
#[verifier::external_body]
fn value_as_u64(v: &serde_json::Value) -> (found: Option<u64>)
    ensures
        match value_view(*v) {
            JsonView::Integer(i) => i64::MIN <= i <= u64::MAX && found == (if 0 <= i {
                Some(i as u64)
            } else {
                None
            }),
            _ => found is None,
        },
{
    v.as_u64()
}

/// `serde_json::Value::as_str`: the characters of a string, and `None` for
/// every other value.
#[verifier::external_body]
fn value_as_str(v: &serde_json::Value) -> (found: Option<&str>)
    ensures
        match value_view(*v) {
            JsonView::String(s) => found is Some && found.unwrap()@ == s,
            _ => found is None,
        },
{
    v.as_str()
}

/// `serde_json::Value::as_array`: the elements of an array, and `None` for
/// every other value.
#[verifier::external_body]
fn value_as_array(v: &serde_json::Value) -> (found: Option<&Vec<serde_json::Value>>)
    ensures
        match value_view(*v) {
            JsonView::Array(items) => found is Some && found.unwrap()@.len() == items.len()
                && forall|i: int|
                0 <= i < items.len() ==> value_view(#[trigger] found.unwrap()@[i]) == items[i],
            _ => found is None,
        },
{
    v.as_array()
}

/// `serde_json::Map::iter` on the map of an object: its entries, each key with
/// its value, in the order in which the map hands them out; `None` for every
/// value that is no object.
#[verifier::external_body]
fn value_entries(v: &serde_json::Value) -> (found: Option<Vec<(&String, &serde_json::Value)>>)
    ensures
        match value_view(*v) {
            JsonView::Object(entries) => found is Some && found.unwrap()@.len() == entries.len()
                && forall|i: int|
                0 <= i < entries.len() ==> (#[trigger] found.unwrap()@[i]).0@ == entries[i].0
                    && value_view(*found.unwrap()@[i].1) == entries[i].1,
            _ => found is None,
        },
{
    match v {
        serde_json::Value::Object(map) => Some(map.iter().collect()),
        _ => None,
    }
}

/// The value of the library that holds what a `serde_json::Value` holds.
fn lift(v: &serde_json::Value) -> (j: Json)
    ensures
        j@ == value_view(*v),
    decreases value_view(*v),
{
    if value_is_null(v) {
        return Json::Null;
    }
    if let Some(b) = value_as_bool(v) {
        return Json::Bool(b);
    }
    if let Some(s) = value_as_str(v) {
        return Json::String(s.to_owned());
    }
    if let Some(items) = value_as_array(v) {
        let ghost wanted = value_view(*v)->Array_0;
        let mut lifted: Vec<Json> = Vec::new();
        let mut i: usize = 0;
        while i < items.len()
            invariant
                i <= items.len(),
                lifted.len() == i,
                value_view(*v) == JsonView::Array(wanted),
                items@.len() == wanted.len(),
                forall|k: int| 0 <= k < wanted.len() ==> value_view(#[trigger] items@[k]) == wanted[k],
                forall|k: int| 0 <= k < i ==> lifted@[k]@ == wanted[k],
            decreases items.len() - i,
        {
            assert(decreases_to!(value_view(*v) => value_view(*v)->Array_0));
            lifted.push(lift(&items[i]));
            i += 1;
        }
        proof {
            lemma_array_view(lifted);
            assert(views_of(lifted@) =~= wanted);
        }
        return Json::Array(lifted);
    }
    if let Some(pairs) = value_entries(v) {
        let ghost wanted = value_view(*v)->Object_0;
        let mut lifted: Vec<(String, Json)> = Vec::new();
        let mut i: usize = 0;
        while i < pairs.len()
            invariant
                i <= pairs.len(),
                lifted.len() == i,
                value_view(*v) == JsonView::Object(wanted),
                pairs@.len() == wanted.len(),
                forall|k: int|
                    0 <= k < wanted.len() ==> (#[trigger] pairs@[k]).0@ == wanted[k].0 && value_view(
                        *pairs@[k].1,
                    ) == wanted[k].1,
                forall|k: int| 0 <= k < i ==> lifted@[k].0@ == wanted[k].0 && lifted@[k].1@ == wanted[k].1,
            decreases pairs.len() - i,
        {
            assert(decreases_to!(value_view(*v) => value_view(*v)->Object_0));
            let key: String = pairs[i].0.clone();
            let value = lift(pairs[i].1);
            lifted.push((key, value));
            i += 1;
        }
        proof {
            lemma_object_view(lifted);
            assert(entries_view(lifted@) =~= wanted);
        }
        return Json::Object(lifted);
    }
    if let Some(i) = value_as_i64(v) {
        return Json::Integer(i as i128);
    }
    if let Some(u) = value_as_u64(v) {
        return Json::Integer(u as i128);
    }
    Json::Fraction
}

/// Reads a JSON text: the value that it spells, or `None` where it spells none.
pub fn parse(text: &str) -> (parsed: Option<Json>)
    ensures
        match parsed {
            Some(j) => json_document(text@) == Some(j@),
            None => json_document(text@) is None,
        },
{
    match read_value(text) {
        Ok(v) => Some(lift(&v)),
        Err(_) => None,
    }
}

/// Reads a JSON text in the shape of `T`: `None` where the text spells no JSON
/// value, or one of another shape.
pub fn from_str<T: FromJson>(text: &str) -> (found: Option<T>)
    ensures
        match found {
            Some(x) => decoded_document::<T>(json_document(text@)) == Some(x@),
            None => decoded_document::<T>(json_document(text@)) is None,
        },
{
    let document = parse(text);
    decode_document::<T>(&document)
}

} // verus!
