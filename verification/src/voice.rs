//! Choosing a narrator voice at random from the fetched catalog.

use vstd::prelude::*;

verus! {

/// Relies on rand::thread_rng and rand::Rng::gen_range: the drawn value
/// lies in the given half-open range. Nothing more is assumed of a random
/// draw.
#[verifier::external_body]
fn random_index(n: usize) -> (r: usize)
    requires
        n >= 1,
    ensures
        r < n,
{
    rand::Rng::gen_range(&mut rand::thread_rng(), 0..n)
}

/// One voice of the catalog, drawn at random; nothing exactly when the
/// catalog is empty.
pub fn pick_voice(voices: &Vec<String>) -> (r: Option<&String>)
    ensures
        r is Some <==> voices@.len() > 0,
        r matches Some(v) ==> exists|i: int|
            0 <= i < voices@.len() && #[trigger] voices@[i] == *v,
{
    if voices.len() == 0 {
        None
    } else {
        let i = random_index(voices.len());
        Some(&voices[i])
    }
}

} // verus!
