//! The text handed to speech synthesis for one post.

use vstd::prelude::*;

verus! {

use vstd::string::StringExecFns;

/// The synthesis input for a post: its title and body joined by a blank
/// line.
pub fn speech_text(title: &str, selftext: &str) -> (r: String)
    ensures
        r@ == title@ + "\n\n"@ + selftext@,
{
    let mut r = String::from_str(title);
    r.append("\n\n");
    r.append(selftext);
    r
}

} // verus!
