//! Trusted access to JSON documents through serde_json. Everything here
//! hands plain values to the verified modules; nothing else in the library
//! touches a JSON value.

use vstd::prelude::*;
use crate::listing::{RawChild, RawChildView, child_views};

verus! {

/// The view of an optional owned string.
pub open spec fn opt_text(o: Option<String>) -> Option<Seq<char>> {
    match o {
        Some(s) => Some(s@),
        None => None,
    }
}

/// The string value of the top-level field `field` of `body` read as a JSON
/// document: present exactly when `body` parses as a JSON object and that
/// field holds a string. A function of the two texts alone.
pub uninterp spec fn string_field(body: Seq<char>, field: Seq<char>) -> Option<Seq<char>>;

/// Relies on serde_json::from_str, Value::get and Value::as_str: parses
/// `body` and reads the top-level field `field`; the result is its string
/// value, and nothing on malformed JSON, a missing field or a value of
/// another type.
#[verifier::external_body]
pub(crate) fn json_string_field(body: &str, field: &str) -> (r: Option<String>)
    ensures
        opt_text(r) == string_field(body@, field@),
{
    let doc: serde_json::Value = match serde_json::from_str(body) {
        Ok(v) => v,
        Err(_) => return None,
    };
    doc.get(field).and_then(|v| v.as_str()).map(str::to_owned)
}

/// What an optional vector of listing children holds.
pub open spec fn opt_child_views(o: Option<Vec<RawChild>>) -> Option<Seq<RawChildView>> {
    match o {
        Some(v) => Some(child_views(v@)),
        None => None,
    }
}

/// The children of the listing document `body`: one entry for each element
/// of the array at `/data/children`, its fields read from under the
/// element's `data` object — `id`, `title` and `selftext` present when they
/// hold strings, `score` when it holds an integer. Nothing exactly when
/// `body` is not a JSON document; a document without such an array has no
/// children. A function of the text alone.
pub uninterp spec fn children_of(body: Seq<char>) -> Option<Seq<RawChildView>>;

/// Relies on serde_json::from_str, Value::pointer, Value::as_str,
/// Value::as_array and Value::as_i64: parses `body` and walks the array at
/// `/data/children`, taking each child's fields from under its `data`
/// object; a field of the wrong type is left absent, for the verified
/// callers to skip.
#[verifier::external_body]
pub(crate) fn json_listing_children(body: &str) -> (r: Option<Vec<RawChild>>)
    ensures
        opt_child_views(r) == children_of(body@),
{
    let doc: serde_json::Value = match serde_json::from_str(body) {
        Ok(v) => v,
        Err(_) => return None,
    };
    let children = match doc.pointer("/data/children").and_then(|v| v.as_array()) {
        Some(a) => a,
        None => return Some(Vec::new()),
    };
    Some(children.iter().map(|c| RawChild {
        id: c.pointer("/data/id").and_then(|v| v.as_str()).map(str::to_owned),
        title: c.pointer("/data/title").and_then(|v| v.as_str()).map(str::to_owned),
        selftext: c.pointer("/data/selftext").and_then(|v| v.as_str()).map(str::to_owned),
        score: c.pointer("/data/score").and_then(|v| v.as_i64()),
    }).collect())
}

} // verus!
