//! Candidate posts extracted from a listing document: well-formed children
//! become posts, the rest are skipped.

use vstd::prelude::*;
use crate::json::{children_of, json_listing_children};
use crate::post::{Post, PostView, post_views};

verus! {

/// One child of the listing as read from the document, each required field
/// present exactly when the document held it with the right type.
pub struct RawChild {
    pub id: Option<String>,
    pub title: Option<String>,
    pub selftext: Option<String>,
    pub score: Option<i64>,
}

/// The mathematical shape of a listing child.
pub struct RawChildView {
    pub id: Option<Seq<char>>,
    pub title: Option<Seq<char>>,
    pub selftext: Option<Seq<char>>,
    pub score: Option<int>,
}

impl View for RawChild {
    type V = RawChildView;

    open spec fn view(&self) -> RawChildView {
        RawChildView {
            id: match self.id {
                Some(s) => Some(s@),
                None => None,
            },
            title: match self.title {
                Some(s) => Some(s@),
                None => None,
            },
            selftext: match self.selftext {
                Some(s) => Some(s@),
                None => None,
            },
            score: match self.score {
                Some(n) => Some(n as int),
                None => None,
            },
        }
    }
}

/// The views of a sequence of listing children.
pub open spec fn child_views(cs: Seq<RawChild>) -> Seq<RawChildView> {
    cs.map_values(|c: RawChild| c@)
}

/// A child parses into a post exactly when every required field is present.
pub open spec fn well_formed(c: RawChildView) -> bool {
    c.id is Some && c.title is Some && c.selftext is Some && c.score is Some
}

/// The post a well-formed child carries.
pub open spec fn to_post(c: RawChildView) -> PostView {
    PostView {
        id: match c.id {
            Some(s) => s,
            None => Seq::<char>::empty(),
        },
        title: match c.title {
            Some(s) => s,
            None => Seq::<char>::empty(),
        },
        selftext: match c.selftext {
            Some(s) => s,
            None => Seq::<char>::empty(),
        },
        score: match c.score {
            Some(n) => n,
            None => 0,
        },
    }
}

/// The posts of the well-formed children, in document order.
pub open spec fn posts_of(cs: Seq<RawChildView>) -> Seq<PostView>
    decreases cs.len(),
{
    if cs.len() == 0 {
        Seq::<PostView>::empty()
    } else {
        let r = posts_of(cs.drop_last());
        if well_formed(cs.last()) {
            r.push(to_post(cs.last()))
        } else {
            r
        }
    }
}

/// The listing document could not be read as a JSON document at all. The
/// callers outside this library report transport failures the same way.
#[derive(Clone, Copy, Debug, PartialEq, Eq, Structural)]
pub struct RequestError;

/// The posts of the well-formed children, each child skipped exactly when a
/// required field is missing or of the wrong type.
pub fn posts_from_children(children: &Vec<RawChild>) -> (r: Vec<Post>)
    ensures
        post_views(r@) == posts_of(child_views(children@)),
{
    let ghost cv = child_views(children@);
    let mut r: Vec<Post> = Vec::new();
    let mut i: usize = 0;
    proof {
        assert(post_views(r@) =~= Seq::<PostView>::empty());
        assert(cv.take(0) =~= Seq::<RawChildView>::empty());
    }
    while i < children.len()
        invariant
            0 <= i <= children@.len(),
            cv == child_views(children@),
            cv.len() == children@.len(),
            post_views(r@) == posts_of(cv.take(i as int)),
        decreases children@.len() - i,
    {
        proof {
            assert(cv.take(i + 1).drop_last() =~= cv.take(i as int));
            assert(cv.take(i + 1).last() == cv[i as int]);
        }
        let c = &children[i];
        match (&c.id, &c.title, &c.selftext, &c.score) {
            (Some(id), Some(title), Some(selftext), Some(score)) => {
                let p = Post {
                    id: id.clone(),
                    title: title.clone(),
                    selftext: selftext.clone(),
                    score: *score,
                };
                proof {
                    assert(well_formed(cv[i as int]));
                    assert(p@ == to_post(cv[i as int]));
                    assert(post_views(r@.push(p)) =~= post_views(r@).push(p@));
                }
                r.push(p);
            },
            _ => {
                proof {
                    assert(!well_formed(cv[i as int]));
                }
            },
        }
        i = i + 1;
    }
    proof {
        assert(cv.take(children@.len() as int) =~= cv);
    }
    r
}

/// The candidate posts of a listing document: the posts of its well-formed
/// children, possibly none; an error exactly when the document is not JSON.
pub fn fetch_candidates(body: &str) -> (r: Result<Vec<Post>, RequestError>)
    ensures
        r is Ok <==> children_of(body@) is Some,
        r matches Ok(ps) ==> children_of(body@) matches Some(cs)
            && post_views(ps@) == posts_of(cs),
{
    match json_listing_children(body) {
        Some(children) => Ok(posts_from_children(&children)),
        None => Err(RequestError),
    }
}

} // verus!
