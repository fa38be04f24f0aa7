//! The space's open/closed state as reported by a status document.

use vstd::prelude::*;
use crate::json::{json_string_field, opt_text, string_field};

verus! {

use vstd::string::StringExecFns;

/// Whether a state text signals an open space: exactly the text `open`.
pub open spec fn open_state(state: Option<Seq<char>>) -> bool {
    state == Some("open"@)
}

/// True exactly when the state text is `open`; a missing or non-string
/// state counts as closed.
pub fn state_signals_open(state: &Option<String>) -> (r: bool)
    ensures
        r == open_state(opt_text(*state)),
{
    match state {
        Some(s) => s.eq(&String::from_str("open")),
        None => false,
    }
}

/// Whether a status document reports the space open: true exactly when its
/// top-level `state` field holds the string `open`; malformed JSON, a
/// missing field, a non-string value and any other text all count as
/// closed.
pub fn is_open(body: &str) -> (r: bool)
    ensures
        r == open_state(string_field(body@, "state"@)),
{
    let state = json_string_field(body, "state");
    state_signals_open(&state)
}

} // verus!
