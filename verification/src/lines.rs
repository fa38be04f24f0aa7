//! Splitting text into lines on newline boundaries.

use vstd::prelude::*;

verus! {

use vstd::string::StrSliceExecFns;

/// The segments of `s` between newline characters, in order. Splitting the
/// empty text gives one empty segment; a trailing newline contributes a final
/// empty segment, as splitting on a separator does.
pub open spec fn lines_of(s: Seq<char>) -> Seq<Seq<char>>
    decreases s.len(),
{
    if s.len() == 0 {
        seq![Seq::<char>::empty()]
    } else if s.first() == '\n' {
        seq![Seq::<char>::empty()] + lines_of(s.drop_first())
    } else {
        let rest = lines_of(s.drop_first());
        seq![seq![s.first()] + rest.first()] + rest.drop_first()
    }
}

/// Splitting always yields at least one segment.
pub proof fn lemma_lines_nonempty(s: Seq<char>)
    ensures
        lines_of(s).len() >= 1,
    decreases s.len(),
{
    if s.len() != 0 && s.first() != '\n' {
        lemma_lines_nonempty(s.drop_first());
    }
}

/// A newline-free prefix joins the first segment of what follows it.
pub proof fn lemma_lines_prefix(p: Seq<char>, t: Seq<char>)
    requires
        !p.contains('\n'),
    ensures
        lines_of(p + t) == seq![p + lines_of(t).first()] + lines_of(t).drop_first(),
    decreases p.len(),
{
    lemma_lines_nonempty(t);
    if p.len() == 0 {
        assert(p + t =~= t);
        assert(p + lines_of(t).first() =~= lines_of(t).first());
        assert(seq![lines_of(t).first()] + lines_of(t).drop_first() =~= lines_of(t));
    } else {
        assert(p[0] != '\n');
        let s = p + t;
        assert(s.len() > 0 && s.first() == p[0]);
        assert(s.drop_first() =~= p.drop_first() + t);
        assert(!p.drop_first().contains('\n')) by {
            assert(forall|i: int| 0 <= i < p.drop_first().len()
                ==> #[trigger] p.drop_first()[i] == p[i + 1]);
        }
        lemma_lines_prefix(p.drop_first(), t);
        let rest = lines_of(p.drop_first() + t);
        assert(rest.first() == p.drop_first() + lines_of(t).first());
        assert(seq![s.first()] + rest.first() =~= p + lines_of(t).first());
        assert(rest.drop_first() =~= lines_of(t).drop_first());
        assert(lines_of(s) =~= seq![p + lines_of(t).first()] + lines_of(t).drop_first());
    }
}

/// Newline-free text is a single segment.
pub proof fn lemma_lines_single(p: Seq<char>)
    requires
        !p.contains('\n'),
    ensures
        lines_of(p) == seq![p],
{
    lemma_lines_prefix(p, Seq::<char>::empty());
    assert(p + Seq::<char>::empty() =~= p);
    assert(p + lines_of(Seq::<char>::empty()).first() =~= p);
    assert(seq![p] + lines_of(Seq::<char>::empty()).drop_first() =~= seq![p]);
}

/// The views of a vector of owned strings.
pub open spec fn text_views(v: Seq<String>) -> Seq<Seq<char>> {
    v.map_values(|t: String| t@)
}

/// Splits `s` on newline characters, keeping empty segments.
pub fn split_lines(s: &str) -> (r: Vec<String>)
    ensures
        text_views(r@) == lines_of(s@),
{
    let n = s.unicode_len();
    let mut r: Vec<String> = Vec::new();
    let mut start: usize = 0;
    let mut i: usize = 0;
    proof {
        assert(text_views(r@) =~= Seq::<Seq<char>>::empty());
        assert(s@.skip(0) =~= s@);
        assert(text_views(r@) + lines_of(s@) =~= lines_of(s@));
    }
    while i < n
        invariant
            0 <= start <= i <= n,
            n == s@.len(),
            lines_of(s@) == text_views(r@) + lines_of(s@.skip(start as int)),
            forall|k: int| start <= k < i ==> s@[k] != '\n',
        decreases n - i,
    {
        if s.get_char(i) == '\n' {
            let seg = s.substring_char(start, i).to_owned();
            proof {
                let segv = s@.subrange(start as int, i as int);
                let tail = s@.skip(i as int + 1);
                assert(!segv.contains('\n'));
                assert(s@.skip(start as int) =~= segv + (seq!['\n'] + tail));
                assert((seq!['\n'] + tail).first() == '\n');
                assert((seq!['\n'] + tail).drop_first() =~= tail);
                lemma_lines_prefix(segv, seq!['\n'] + tail);
                assert(lines_of(seq!['\n'] + tail) =~= seq![Seq::<char>::empty()] + lines_of(tail));
                assert(lines_of(seq!['\n'] + tail).first() =~= Seq::<char>::empty());
                assert(segv + Seq::<char>::empty() =~= segv);
                assert(lines_of(seq!['\n'] + tail).drop_first() =~= lines_of(tail));
                assert(lines_of(s@.skip(start as int)) =~= seq![segv] + lines_of(tail));
                assert(text_views(r@.push(seg)) =~= text_views(r@) + seq![segv]);
                assert(text_views(r@) + (seq![segv] + lines_of(tail))
                    =~= (text_views(r@) + seq![segv]) + lines_of(tail));
            }
            r.push(seg);
            start = i + 1;
        }
        i = i + 1;
    }
    let seg = s.substring_char(start, n).to_owned();
    proof {
        let segv = s@.subrange(start as int, n as int);
        assert(!segv.contains('\n'));
        assert(s@.skip(start as int) =~= segv);
        lemma_lines_single(segv);
        assert(text_views(r@.push(seg)) =~= text_views(r@) + seq![segv]);
    }
    r.push(seg);
    r
}

} // verus!
