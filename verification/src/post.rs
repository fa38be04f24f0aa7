//! Candidate posts and the selection of the highest-scored one.

use vstd::prelude::*;

verus! {

/// A candidate post: an opaque identifier, a title, a body and a popularity
/// score. Immutable once fetched.
#[derive(Debug)]
pub struct Post {
    pub id: String,
    pub title: String,
    pub selftext: String,
    pub score: i64,
}

/// The mathematical shape of a post: its texts as character sequences and its
/// score as an unbounded integer.
pub struct PostView {
    pub id: Seq<char>,
    pub title: Seq<char>,
    pub selftext: Seq<char>,
    pub score: int,
}

impl View for Post {
    type V = PostView;

    open spec fn view(&self) -> PostView {
        PostView {
            id: self.id@,
            title: self.title@,
            selftext: self.selftext@,
            score: self.score as int,
        }
    }
}

impl Post {
    /// A field-for-field copy of the post.
    pub fn duplicate(&self) -> (r: Post)
        ensures
            r@ == self@,
    {
        Post {
            id: self.id.clone(),
            title: self.title.clone(),
            selftext: self.selftext.clone(),
            score: self.score,
        }
    }
}

/// The views of a sequence of posts.
pub open spec fn post_views(posts: Seq<Post>) -> Seq<PostView> {
    posts.map_values(|p: Post| p@)
}

/// Selection failed because the candidate sequence was empty.
#[derive(Clone, Copy, Debug, PartialEq, Eq, Structural)]
pub struct NoCandidatesError;

/// The index of the highest-scored post, ties broken towards the earliest
/// position: scanning left to right, a later post replaces the current best
/// only with a strictly greater score.
pub open spec fn best_index(s: Seq<PostView>) -> int
    decreases s.len(),
{
    if s.len() <= 1 {
        0
    } else {
        let b = best_index(s.drop_last());
        if s.last().score > s[b].score {
            s.len() - 1
        } else {
            b
        }
    }
}

/// The selected index is in bounds, carries a maximal score, and strictly
/// exceeds every score before it.
pub proof fn lemma_best_index(s: Seq<PostView>)
    requires
        s.len() > 0,
    ensures
        0 <= best_index(s) < s.len(),
        forall|j: int| 0 <= j < s.len() ==> #[trigger] s[j].score <= s[best_index(s)].score,
        forall|j: int| 0 <= j < best_index(s) ==> #[trigger] s[j].score < s[best_index(s)].score,
    decreases s.len(),
{
    if s.len() > 1 {
        lemma_best_index(s.drop_last());
        assert(forall|j: int| 0 <= j < s.len() - 1 ==> s[j] == s.drop_last()[j]);
    }
}

/// Law: when all scores are pairwise distinct, any position holding a maximal
/// score is the selected one — selection returns the post with the maximum
/// score, and no other.
pub proof fn lemma_select_highest_distinct(s: Seq<PostView>, k: int)
    requires
        forall|i: int, j: int| 0 <= i < j < s.len() ==> #[trigger] s[i].score != #[trigger] s[j].score,
        0 <= k < s.len(),
        forall|j: int| 0 <= j < s.len() ==> #[trigger] s[j].score <= s[k].score,
    ensures
        best_index(s) == k,
{
    lemma_best_index(s);
    let b = best_index(s);
    assert(s[b].score <= s[k].score);
    assert(s[k].score <= s[b].score);
    if b < k {
        assert(s[b].score != s[k].score);
    }
    if k < b {
        assert(s[k].score != s[b].score);
    }
}

/// Among the candidates, the one with the maximum score, ties broken by first
/// encounter; an error exactly when there is no candidate.
pub fn select_highest(posts: &Vec<Post>) -> (r: Result<&Post, NoCandidatesError>)
    ensures
        r is Ok <==> posts@.len() > 0,
        r matches Ok(p) ==> {
            &&& *p == posts@[best_index(post_views(posts@))]
            &&& forall|j: int| 0 <= j < posts@.len()
                ==> #[trigger] post_views(posts@)[j].score <= p@.score
            &&& forall|j: int| 0 <= j < best_index(post_views(posts@))
                ==> #[trigger] post_views(posts@)[j].score < p@.score
        },
{
    if posts.len() == 0 {
        return Err(NoCandidatesError);
    }
    let ghost s = post_views(posts@);
    let mut best: usize = 0;
    let mut i: usize = 1;
    while i < posts.len()
        invariant
            1 <= i <= posts@.len(),
            0 <= best < i,
            s == post_views(posts@),
            s.len() == posts@.len(),
            best == best_index(s.take(i as int)),
            forall|j: int| 0 <= j < i ==> #[trigger] s[j].score <= s[best as int].score,
            forall|j: int| 0 <= j < best ==> #[trigger] s[j].score < s[best as int].score,
        decreases posts@.len() - i,
    {
        assert(s.take(i + 1).drop_last() =~= s.take(i as int));
        assert(s.take(i + 1).last() == s[i as int]);
        if posts[i].score > posts[best].score {
            best = i;
        }
        i = i + 1;
    }
    assert(s.take(posts@.len() as int) =~= s);
    Ok(&posts[best])
}

} // verus!
