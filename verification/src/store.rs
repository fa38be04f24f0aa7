//! The identifier store: the in-memory record of already-announced post
//! identifiers, and the text form in which it is persisted — one identifier
//! per line.

use vstd::prelude::*;
use crate::lines::{lines_of, lemma_lines_prefix, split_lines, text_views};

verus! {

/// The persisted form of a sequence of identifiers: each identifier followed
/// by a newline.
pub open spec fn render_ids(ids: Seq<Seq<char>>) -> Seq<char>
    decreases ids.len(),
{
    if ids.len() == 0 {
        Seq::<char>::empty()
    } else {
        ids.first() + seq!['\n'] + render_ids(ids.drop_first())
    }
}

/// The segments of `ls` that are not empty, in order.
pub open spec fn kept_ids(ls: Seq<Seq<char>>) -> Seq<Seq<char>>
    decreases ls.len(),
{
    if ls.len() == 0 {
        Seq::<Seq<char>>::empty()
    } else if ls.first().len() > 0 {
        seq![ls.first()] + kept_ids(ls.drop_first())
    } else {
        kept_ids(ls.drop_first())
    }
}

/// The identifiers read back from persisted text: its lines, empty ones
/// skipped.
pub open spec fn parse_ids(s: Seq<char>) -> Seq<Seq<char>> {
    kept_ids(lines_of(s))
}

/// Law: persisting and re-reading is the identity. Identifiers appended one
/// by one and written out one per line are read back exactly, in append
/// order, none lost and none added — provided each identifier is nonempty
/// and contains no newline (an identifier such as a lone empty string, or one
/// holding a newline, would be split or skipped by the line format).
pub proof fn lemma_store_round_trip(ids: Seq<Seq<char>>)
    requires
        forall|i: int| 0 <= i < ids.len()
            ==> (#[trigger] ids[i]).len() > 0 && !ids[i].contains('\n'),
    ensures
        parse_ids(render_ids(ids)) == ids,
    decreases ids.len(),
{
    if ids.len() == 0 {
        let l0 = lines_of(render_ids(ids));
        assert(render_ids(ids) =~= Seq::<char>::empty());
        assert(l0 =~= seq![Seq::<char>::empty()]);
        assert(l0.drop_first() =~= Seq::<Seq<char>>::empty());
        assert(kept_ids(l0.drop_first()) =~= Seq::<Seq<char>>::empty());
        assert(l0.first().len() == 0);
        assert(kept_ids(l0) =~= Seq::<Seq<char>>::empty());
        assert(parse_ids(render_ids(ids)) =~= Seq::<Seq<char>>::empty());
    } else {
        let x = ids.first();
        let rest = render_ids(ids.drop_first());
        let tail = seq!['\n'] + rest;
        assert(render_ids(ids) =~= x + tail);
        assert(tail.first() == '\n');
        assert(tail.drop_first() =~= rest);
        assert(lines_of(tail) =~= seq![Seq::<char>::empty()] + lines_of(rest));
        lemma_lines_prefix(x, tail);
        assert(x + lines_of(tail).first() =~= x);
        assert(lines_of(tail).drop_first() =~= lines_of(rest));
        assert(lines_of(x + tail) =~= seq![x] + lines_of(rest));
        lemma_store_round_trip(ids.drop_first());
        let l = seq![x] + lines_of(rest);
        assert(l.first() == x && x.len() > 0);
        assert(l.drop_first() =~= lines_of(rest));
        assert(kept_ids(l) =~= seq![x] + kept_ids(lines_of(rest)));
        assert(seq![x] + ids.drop_first() =~= ids);
    }
}

/// The record of already-announced post identifiers, in announcement order.
pub struct IdStore {
    ids: Vec<String>,
}

impl View for IdStore {
    type V = Seq<Seq<char>>;

    closed spec fn view(&self) -> Seq<Seq<char>> {
        text_views(self.ids@)
    }
}

impl IdStore {
    /// A store with no identifiers.
    pub fn new() -> (r: IdStore)
        ensures
            r@ == Seq::<Seq<char>>::empty(),
    {
        let r = IdStore { ids: Vec::new() };
        proof {
            assert(r@ =~= Seq::<Seq<char>>::empty());
        }
        r
    }

    /// The store read from persisted text: one identifier per line, empty
    /// lines skipped. Text from a missing backing file is the empty text,
    /// which yields an empty store.
    pub fn load(contents: &str) -> (r: IdStore)
        ensures
            r@ == parse_ids(contents@),
    {
        let ls = split_lines(contents);
        let ghost l = lines_of(contents@);
        let mut kept: Vec<String> = Vec::new();
        let mut i: usize = 0;
        proof {
            assert(text_views(kept@) =~= Seq::<Seq<char>>::empty());
            assert(l.skip(0) =~= l);
            assert(text_views(kept@) + kept_ids(l) =~= kept_ids(l));
        }
        while i < ls.len()
            invariant
                0 <= i <= ls@.len(),
                text_views(ls@) == l,
                parse_ids(contents@) == text_views(kept@) + kept_ids(l.skip(i as int)),
            decreases ls@.len() - i,
        {
            proof {
                assert(l.skip(i as int).first() == ls@[i as int]@);
                assert(l.skip(i as int).drop_first() =~= l.skip(i as int + 1));
            }
            if !ls[i].as_str().is_empty() {
                let id = ls[i].clone();
                proof {
                    assert(text_views(kept@.push(id)) =~= text_views(kept@) + seq![id@]);
                    assert(text_views(kept@) + (seq![id@] + kept_ids(l.skip(i as int + 1)))
                        =~= (text_views(kept@) + seq![id@]) + kept_ids(l.skip(i as int + 1)));
                }
                kept.push(id);
            }
            i = i + 1;
        }
        proof {
            assert(l.skip(ls@.len() as int) =~= Seq::<Seq<char>>::empty());
            assert(text_views(kept@) + kept_ids(l.skip(ls@.len() as int)) =~= text_views(kept@));
        }
        IdStore { ids: kept }
    }

    /// Whether `id` was announced before.
    pub fn contains(&self, id: &String) -> (b: bool)
        ensures
            b == self@.contains(id@),
    {
        let mut i: usize = 0;
        while i < self.ids.len()
            invariant
                0 <= i <= self.ids@.len(),
                forall|k: int| 0 <= k < i ==> #[trigger] self@[k] != id@,
            decreases self.ids@.len() - i,
        {
            if self.ids[i].eq(id) {
                assert(self@[i as int] == id@);
                return true;
            }
            i = i + 1;
        }
        false
    }

    /// The full text under which the store is persisted: one identifier per
    /// line.
    pub fn contents(&self) -> (r: String)
        ensures
            r@ == render_ids(self@),
    {
        let mut out = String::new();
        let mut i: usize = 0;
        proof {
            assert(self@.skip(0) =~= self@);
            assert(out@ + render_ids(self@) =~= render_ids(self@));
        }
        while i < self.ids.len()
            invariant
                0 <= i <= self.ids@.len(),
                self.ids@.len() == self@.len(),
                render_ids(self@) == out@ + render_ids(self@.skip(i as int)),
            decreases self.ids@.len() - i,
        {
            proof {
                reveal_strlit("\n");
                assert("\n"@ =~= seq!['\n']);
                assert(self@.skip(i as int).first() == self@[i as int]);
                assert(self@.skip(i as int).drop_first() =~= self@.skip(i as int + 1));
            }
            out.append(self.ids[i].as_str());
            out.append("\n");
            proof {
                assert(out@ + render_ids(self@.skip(i as int + 1)) =~= render_ids(self@));
            }
            i = i + 1;
        }
        proof {
            assert(self@.skip(self@.len() as int) =~= Seq::<Seq<char>>::empty());
            assert(out@ + render_ids(self@.skip(self@.len() as int)) =~= out@);
        }
        out
    }

    /// Appends a newly announced identifier and hands back the full text to
    /// rewrite the backing file with. The identifier is recorded even if the
    /// caller then fails to write the text out; a post skipped that way stays
    /// skipped, which mirrors the announce-before-synthesis ordering of the
    /// store's users.
    pub fn append_and_persist(&mut self, id: String) -> (contents: String)
        ensures
            final(self)@ == old(self)@.push(id@),
            contents@ == render_ids(final(self)@),
    {
        let ghost before = self@;
        let ghost idv = id@;
        self.ids.push(id);
        proof {
            assert(self@ =~= before.push(idv));
        }
        self.contents()
    }

    /// The identifiers in announcement order.
    pub fn ids(&self) -> (r: &Vec<String>)
        ensures
            text_views(r@) == self@,
    {
        &self.ids
    }
}

} // verus!
