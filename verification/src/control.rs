//! One polling iteration's decision, once the space is known to be open
//! and the listing document is in hand: which post to announce, if any,
//! and what to persist and synthesize for it.

use vstd::prelude::*;
use crate::json::children_of;
use crate::listing::fetch_candidates;
use crate::post::{Post, best_index, lemma_best_index, post_views, select_highest};
use crate::listing::posts_of;
use crate::speech::speech_text;
use crate::store::{IdStore, render_ids};

verus! {

/// What one iteration does with a listing document.
#[derive(Debug)]
pub enum Outcome {
    /// The listing was not readable as a JSON document; nothing happens.
    ListingUnreadable,
    /// Not one candidate post was found; nothing happens.
    NoCandidates,
    /// The best candidate was announced before; nothing happens.
    AlreadyAnnounced,
    /// A fresh post. `contents` is the full text to rewrite the identifier
    /// file with, `speech` the synthesis input. The identifier is recorded
    /// before any synthesis or playback is attempted: a post whose
    /// announcement then fails stays skipped on later iterations.
    Announce { post: Post, contents: String, speech: String },
}

/// Decides what to announce from a listing document: the highest-scored
/// candidate, ties broken by document order, skipped when it was announced
/// before; on a fresh post the store gains its identifier. The store is
/// unchanged in every other outcome.
pub fn step(listing_body: &str, store: &mut IdStore) -> (r: Outcome)
    ensures
        children_of(listing_body@) is None ==> r is ListingUnreadable,
        children_of(listing_body@) matches Some(cs) ==> ({
            let ps = posts_of(cs);
            &&& ps.len() == 0 ==> r is NoCandidates
            &&& ps.len() > 0 ==> ({
                let best = ps[best_index(ps)];
                &&& old(store)@.contains(best.id) ==> r is AlreadyAnnounced
                &&& !old(store)@.contains(best.id) ==> {
                    &&& r matches Outcome::Announce { post, contents, speech }
                    &&& post@ == best
                    &&& final(store)@ == old(store)@.push(best.id)
                    &&& contents@ == render_ids(final(store)@)
                    &&& speech@ == best.title + "\n\n"@ + best.selftext
                }
            })
        }),
        !(r is Announce) ==> final(store)@ == old(store)@,
{
    let posts = match fetch_candidates(listing_body) {
        Ok(ps) => ps,
        Err(_) => {
            return Outcome::ListingUnreadable;
        },
    };
    let chosen = match select_highest(&posts) {
        Ok(p) => p,
        Err(_) => {
            return Outcome::NoCandidates;
        },
    };
    let ghost pv = post_views(posts@);
    let ghost bi = best_index(pv);
    proof {
        lemma_best_index(pv);
        assert(pv[bi] == posts@[bi]@);
        assert(chosen.id@ == pv[bi].id);
    }
    if store.contains(&chosen.id) {
        return Outcome::AlreadyAnnounced;
    }
    let post = chosen.duplicate();
    let speech = speech_text(post.title.as_str(), post.selftext.as_str());
    let contents = store.append_and_persist(post.id.clone());
    Outcome::Announce { post, contents, speech }
}

} // verus!
