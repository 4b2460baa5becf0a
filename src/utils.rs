//! Small text utilities.
use vstd::prelude::*;
use crate::detect::segments;
use crate::normalize::{byte_len, byte_length, clip, clip_bytes, lemma_views_push, views};
use crate::text::{chars_of, string_of_range, trim, trim_bounds};

verus! {

/// The text cut to its longest prefix of at most `max_len` bytes, followed by
/// `"..."`, where it is longer than `max_len` bytes; else the text itself.
pub fn truncate(text: &str, max_len: usize) -> (r: String)
    ensures
        byte_len(text@) > max_len ==> r@ == clip(text@, max_len as nat) + "..."@,
        byte_len(text@) <= max_len ==> r@ == text@,
{
    let v = chars_of(text);
    if byte_length(&v) > max_len as u128 {
        let mut out = clip_bytes(text, max_len);
        out.append("...");
        out
    } else {
        text.to_string()
    }
}

/// The trimmed pieces of `segs` that are not empty, in order.
pub open spec fn sentences(segs: Seq<Seq<char>>) -> Seq<Seq<char>>
    decreases segs.len(),
{
    if segs.len() == 0 {
        Seq::empty()
    } else if trim(segs.last()).len() > 0 {
        sentences(segs.drop_last()).push(trim(segs.last()))
    } else {
        sentences(segs.drop_last())
    }
}

/// The sentences of the text: the trimmed, non-empty pieces between `.`, `?`
/// and `!`.
pub fn split_into_sentences(text: &str) -> (r: Vec<String>)
    ensures
        views(r@) == sentences(segments(text@)),
{
    let v = chars_of(text);
    let n = v.len();
    let mut out: Vec<String> = Vec::new();
    let mut st: usize = 0;
    let mut i: usize = 0;
    assert(v@.subrange(0, 0) =~= Seq::<char>::empty());
    assert(views(out@) =~= Seq::<Seq<char>>::empty());
    while i < n
        invariant
            n == v@.len(),
            st <= i <= n,
            segments(v@.subrange(0, i as int)).len() > 0,
            segments(v@.subrange(0, i as int)).last() == v@.subrange(st as int, i as int),
            views(out@) == sentences(segments(v@.subrange(0, i as int)).drop_last()),
        decreases n - i,
    {
        let c = v[i];
        let ghost p = v@.subrange(0, i + 1);
        let ghost prev = segments(v@.subrange(0, i as int));
        assert(p.drop_last() =~= v@.subrange(0, i as int));
        if c == '.' || c == '?' || c == '!' {
            let piece = string_of_range(&v, st, i);
            let pv = chars_of(piece.as_str());
            let (lo, hi) = trim_bounds(&pv);
            assert(segments(p).drop_last() =~= prev);
            assert(prev =~= prev.drop_last().push(prev.last()));
            if lo < hi {
                let t = string_of_range(&pv, lo, hi);
                proof {
                    lemma_views_push(out@, t);
                }
                out.push(t);
            }
            st = i + 1;
            assert(v@.subrange(st as int, i + 1) =~= Seq::<char>::empty());
        } else {
            assert(v@.subrange(st as int, i + 1) =~= v@.subrange(st as int, i as int).push(c));
            assert(segments(p).drop_last() =~= prev.drop_last());
        }
        i += 1;
    }
    assert(v@.subrange(0, n as int) =~= v@);
    let ghost all = segments(v@);
    let piece = string_of_range(&v, st, n);
    let pv = chars_of(piece.as_str());
    let (lo, hi) = trim_bounds(&pv);
    assert(all =~= all.drop_last().push(all.last()));
    if lo < hi {
        let t = string_of_range(&pv, lo, hi);
        proof {
            lemma_views_push(out@, t);
        }
        out.push(t);
    }
    out
}

} // verus!
