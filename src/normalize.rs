//! Text normalisation used for cache keys and by the skill matchers.
use vstd::prelude::*;
use crate::text::{
    chars_of, is_space, is_space_char, lower_of, lowercase, squeeze, squeeze_range, string_of,
    string_of_range, trim, trim_bounds, trim_end, trim_start,
};

verus! {

/// Lowercased, trimmed, and with each run of white space made one space.
pub open spec fn normalized(t: Seq<char>) -> Seq<char> {
    squeeze(trim(lower_of(t)))
}

/// Lowercases the text, trims it, and collapses each white-space run to one space.
pub fn normalize(text: &str) -> (r: String)
    ensures
        r@ == normalized(text@),
{
    let lower = lowercase(text);
    let lv = chars_of(lower.as_str());
    let (lo, hi) = trim_bounds(&lv);
    let out = squeeze_range(&lv, lo, hi);
    string_of(&out)
}

/// No two neighbouring spaces, and every space is `' '`.
pub open spec fn is_squeezed(s: Seq<char>) -> bool {
    &&& forall|i: int| 0 <= i < s.len() && is_space(s[i]) ==> s[i] == ' '
    &&& forall|i: int| 0 <= i < s.len() - 1 ==> !(is_space(#[trigger] s[i]) && is_space(s[i + 1]))
}

proof fn lemma_squeeze_shape(s: Seq<char>)
    ensures
        is_squeezed(squeeze(s)),
        squeeze(s).len() <= s.len(),
        s.len() == 0 <==> squeeze(s).len() == 0,
        s.len() > 0 ==> squeeze(s).last() == if is_space(s.last()) {
            ' '
        } else {
            s.last()
        },
        s.len() > 0 ==> squeeze(s)[0] == if is_space(s[0]) {
            ' '
        } else {
            s[0]
        },
    decreases s.len(),
{
    if s.len() > 0 {
        let d = s.drop_last();
        lemma_squeeze_shape(d);
        if d.len() > 0 {
            assert(d.last() == s[s.len() - 2]);
            assert(d[0] == s[0]);
        }
    }
}

proof fn lemma_squeeze_fixed(s: Seq<char>)
    requires
        is_squeezed(s),
    ensures
        squeeze(s) == s,
    decreases s.len(),
{
    if s.len() > 0 {
        let d = s.drop_last();
        assert(is_squeezed(d)) by {
            assert forall|i: int| 0 <= i < d.len() - 1 implies !(is_space(#[trigger] d[i]) && is_space(
                d[i + 1],
            )) by {
                assert(d[i] == s[i] && d[i + 1] == s[i + 1]);
            }
        }
        lemma_squeeze_fixed(d);
        if s.len() >= 2 {
            assert(!(is_space(s[s.len() - 2]) && is_space(s[s.len() - 1])));
        }
        assert(s =~= d.push(s.last()));
    }
}

proof fn lemma_trim_start_shape(s: Seq<char>)
    ensures
        trim_start(s).len() > 0 ==> !is_space(trim_start(s)[0]),
        trim_start(s).len() > 0 ==> trim_start(s).last() == s.last(),
    decreases s.len(),
{
    if s.len() > 0 && is_space(s[0]) {
        lemma_trim_start_shape(s.drop_first());
    }
}

proof fn lemma_trim_end_shape(s: Seq<char>)
    ensures
        trim_end(s).len() > 0 ==> !is_space(trim_end(s).last()),
        trim_end(s).len() > 0 ==> trim_end(s)[0] == s[0],
    decreases s.len(),
{
    if s.len() > 0 && is_space(s.last()) {
        lemma_trim_end_shape(s.drop_last());
    }
}

proof fn lemma_trim_shape(s: Seq<char>)
    ensures
        trim(s).len() > 0 ==> !is_space(trim(s)[0]) && !is_space(trim(s).last()),
{
    lemma_trim_start_shape(s);
    lemma_trim_end_shape(trim_start(s));
}

proof fn lemma_trim_fixed(s: Seq<char>)
    requires
        s.len() > 0 ==> !is_space(s[0]) && !is_space(s.last()),
    ensures
        trim(s) == s,
{
}

/// Normalising twice gives what normalising once gives, for every text whose
/// normal form lowercasing leaves as it is (the standard library's documentation
/// of `to_lowercase` does not state that lowercasing is idempotent).
pub proof fn lemma_normalize_idempotent(t: Seq<char>)
    requires
        lower_of(normalized(t)) == normalized(t),
    ensures
        normalized(normalized(t)) == normalized(t),
{
    let x = trim(lower_of(t));
    let n = squeeze(x);
    lemma_trim_shape(lower_of(t));
    lemma_squeeze_shape(x);
    lemma_trim_fixed(n);
    lemma_squeeze_fixed(n);
}


/// ASCII punctuation: what the class `[[:punct:]]` matches.
pub open spec fn is_punct(c: char) -> bool {
    let u = c as u32;
    (0x21 <= u && u <= 0x2f) || (0x3a <= u && u <= 0x40) || (0x5b <= u && u <= 0x60) || (0x7b <= u
        && u <= 0x7e)
}

/// The emoji and symbol blocks that are stripped from texts.
pub open spec fn is_emoji(c: char) -> bool {
    let u = c as u32;
    (0x1f600 <= u && u <= 0x1f64f) || (0x1f300 <= u && u <= 0x1f5ff) || (0x1f680 <= u && u
        <= 0x1f6ff) || (0x1f1e0 <= u && u <= 0x1f1ff) || (0x2600 <= u && u <= 0x26ff) || (0x2700
        <= u && u <= 0x27bf)
}

/// `s` without its punctuation.
pub open spec fn without_punct(s: Seq<char>) -> Seq<char>
    decreases s.len(),
{
    if s.len() == 0 {
        s
    } else if is_punct(s.last()) {
        without_punct(s.drop_last())
    } else {
        without_punct(s.drop_last()).push(s.last())
    }
}

/// `s` without its emoji.
pub open spec fn without_emoji(s: Seq<char>) -> Seq<char>
    decreases s.len(),
{
    if s.len() == 0 {
        s
    } else if is_emoji(s.last()) {
        without_emoji(s.drop_last())
    } else {
        without_emoji(s.drop_last()).push(s.last())
    }
}

/// Removes every ASCII punctuation character.
pub fn remove_punctuation(text: &str) -> (r: String)
    ensures
        r@ == without_punct(text@),
{
    let v = chars_of(text);
    let mut out = String::new();
    let mut i: usize = 0;
    assert(v@.subrange(0, 0) =~= Seq::<char>::empty());
    while i < v.len()
        invariant
            i <= v@.len(),
            out@ == without_punct(v@.subrange(0, i as int)),
        decreases v@.len() - i,
    {
        let c = v[i];
        assert(v@.subrange(0, i + 1).drop_last() =~= v@.subrange(0, i as int));
        let u = c as u32;
        if !((0x21 <= u && u <= 0x2f) || (0x3a <= u && u <= 0x40) || (0x5b <= u && u <= 0x60) || (
        0x7b <= u && u <= 0x7e)) {
            out.push(c);
        }
        i += 1;
    }
    assert(v@.subrange(0, v@.len() as int) =~= v@);
    out
}

/// Removes every emoji of the stripped blocks.
pub fn remove_emoji(text: &str) -> (r: String)
    ensures
        r@ == without_emoji(text@),
{
    let v = chars_of(text);
    let mut out = String::new();
    let mut i: usize = 0;
    assert(v@.subrange(0, 0) =~= Seq::<char>::empty());
    while i < v.len()
        invariant
            i <= v@.len(),
            out@ == without_emoji(v@.subrange(0, i as int)),
        decreases v@.len() - i,
    {
        let c = v[i];
        assert(v@.subrange(0, i + 1).drop_last() =~= v@.subrange(0, i as int));
        let u = c as u32;
        if !((0x1f600 <= u && u <= 0x1f64f) || (0x1f300 <= u && u <= 0x1f5ff) || (0x1f680 <= u && u
            <= 0x1f6ff) || (0x1f1e0 <= u && u <= 0x1f1ff) || (0x2600 <= u && u <= 0x26ff) || (
        0x2700 <= u && u <= 0x27bf)) {
            out.push(c);
        }
        i += 1;
    }
    assert(v@.subrange(0, v@.len() as int) =~= v@);
    out
}

/// Strips emoji, then punctuation, then normalises.
pub fn clean_for_analysis(text: &str) -> (r: String)
    ensures
        r@ == normalized(without_punct(without_emoji(text@))),
{
    let a = remove_emoji(text);
    let b = remove_punctuation(a.as_str());
    normalize(b.as_str())
}

/// The views of a sequence of strings.
pub open spec fn views(v: Seq<String>) -> Seq<Seq<char>> {
    v.map_values(|x: String| x@)
}

/// The maximal runs of non-space characters of `s`, in order
/// (what `str::split_whitespace` yields).
pub open spec fn words(s: Seq<char>) -> Seq<Seq<char>>
    decreases s.len(),
{
    if s.len() == 0 {
        Seq::empty()
    } else if is_space(s.last()) {
        words(s.drop_last())
    } else if s.len() >= 2 && !is_space(s[s.len() - 2]) {
        let w = words(s.drop_last());
        w.drop_last().push(w.last().push(s.last()))
    } else {
        words(s.drop_last()).push(seq![s.last()])
    }
}

/// Pushing a string pushes its view.
pub proof fn lemma_views_push(v: Seq<String>, x: String)
    ensures
        views(v.push(x)) == views(v).push(x@),
{
    assert(views(v.push(x)) =~= views(v).push(x@));
}

/// Splits `v` at white space.
pub fn split_words(v: &Vec<char>) -> (r: Vec<String>)
    ensures
        views(r@) == words(v@),
{
    let n = v.len();
    let mut done: Vec<String> = Vec::new();
    let mut st: usize = 0;
    let mut i: usize = 0;
    assert(v@.subrange(0, 0) =~= Seq::<char>::empty());
    assert(views(done@) =~= Seq::<Seq<char>>::empty());
    while i < n
        invariant
            n == v@.len(),
            st <= i <= n,
            (i > 0 && !is_space(v@[i - 1])) ==> st < i && words(v@.subrange(0, i as int))
                == views(done@).push(v@.subrange(st as int, i as int)),
            !(i > 0 && !is_space(v@[i - 1])) ==> words(v@.subrange(0, i as int)) == views(
                done@,
            ),
        decreases n - i,
    {
        let c = v[i];
        let ghost p = v@.subrange(0, i + 1);
        assert(p.drop_last() =~= v@.subrange(0, i as int));
        assert(p.last() == c);
        if i > 0 {
            assert(p[p.len() - 2] == v@[i - 1]);
        }
        let in_word = i > 0 && !is_space_char(v[i - 1]);
        if is_space_char(c) {
            if in_word {
                let w = string_of_range(v, st, i);
                proof {
                    lemma_views_push(done@, w);
                }
                done.push(w);
            }
        } else {
            if in_word {
                assert(v@.subrange(st as int, i + 1) =~= v@.subrange(st as int, i as int).push(c));
                assert(views(done@).push(v@.subrange(st as int, i as int)).drop_last() =~= views(
                    done@,
                ));
            } else {
                st = i;
                assert(v@.subrange(st as int, i + 1) =~= seq![c]);
            }
        }
        i += 1;
    }
    assert(v@.subrange(0, n as int) =~= v@);
    if n > 0 && !is_space_char(v[n - 1]) {
        let w = string_of_range(v, st, n);
        proof {
            lemma_views_push(done@, w);
        }
        done.push(w);
    }
    done
}

/// The number of UTF-8 bytes that encode `c`.
pub open spec fn utf8_len(c: char) -> nat {
    let u = c as u32;
    if u < 0x80 {
        1
    } else if u < 0x800 {
        2
    } else if u < 0x10000 {
        3
    } else {
        4
    }
}

/// The number of UTF-8 bytes that encode `w` (what `str::len` returns).
pub open spec fn byte_len(w: Seq<char>) -> nat
    decreases w.len(),
{
    if w.len() == 0 {
        0
    } else {
        byte_len(w.drop_last()) + utf8_len(w.last())
    }
}

/// The words of `ws` that take more than one byte.
pub open spec fn long_words(ws: Seq<Seq<char>>) -> Seq<Seq<char>>
    decreases ws.len(),
{
    if ws.len() == 0 {
        ws
    } else if byte_len(ws.last()) > 1 {
        long_words(ws.drop_last()).push(ws.last())
    } else {
        long_words(ws.drop_last())
    }
}

proof fn lemma_byte_len_at_least(w: Seq<char>)
    ensures
        byte_len(w) >= w.len(),
        w.len() == 1 ==> byte_len(w) == utf8_len(w[0]),
    decreases w.len(),
{
    if w.len() > 0 {
        lemma_byte_len_at_least(w.drop_last());
    }
}

fn is_long_word(w: &String) -> (r: bool)
    ensures
        r == (byte_len(w@) > 1),
{
    let v = chars_of(w.as_str());
    proof {
        lemma_byte_len_at_least(w@);
    }
    v.len() > 1 || (v.len() == 1 && (v[0] as u32) >= 0x80)
}

/// The words of the normalised text longer than one byte.
pub open spec fn extracted_words(t: Seq<char>) -> Seq<Seq<char>> {
    long_words(words(normalized(t)))
}

/// The words of the normalised text, without one-byte words.
pub fn extract_words(text: &str) -> (r: Vec<String>)
    ensures
        views(r@) == extracted_words(text@),
{
    let n = normalize(text);
    let nv = chars_of(n.as_str());
    let all = split_words(&nv);
    let mut out: Vec<String> = Vec::new();
    let mut i: usize = 0;
    assert(views(all@).subrange(0, 0) =~= Seq::<Seq<char>>::empty());
    assert(views(out@) =~= Seq::<Seq<char>>::empty());
    while i < all.len()
        invariant
            i <= all@.len(),
            views(all@) == words(normalized(text@)),
            views(out@) == long_words(views(all@).subrange(0, i as int)),
        decreases all@.len() - i,
    {
        assert(views(all@).subrange(0, i + 1).drop_last() =~= views(all@).subrange(0, i as int));
        assert(views(all@).subrange(0, i + 1).last() == all@[i as int]@);
        if is_long_word(&all[i]) {
            let w = all[i].clone();
            proof {
                lemma_views_push(out@, w);
            }
            out.push(w);
        }
        i += 1;
    }
    assert(views(all@).subrange(0, all@.len() as int) =~= views(all@));
    out
}

/// The number of extracted words.
pub fn word_count(text: &str) -> (r: usize)
    ensures
        r == extracted_words(text@).len(),
{
    let w = extract_words(text);
    w.len()
}

/// The words joined with single spaces.
pub open spec fn joined(ws: Seq<Seq<char>>) -> Seq<char>
    decreases ws.len(),
{
    if ws.len() == 0 {
        Seq::empty()
    } else if ws.len() == 1 {
        ws[0]
    } else {
        joined(ws.drop_last()) + seq![' '] + ws.last()
    }
}

/// `ws[0..k]` joined with single spaces.
pub fn join_words(ws: &Vec<String>, k: usize) -> (r: String)
    requires
        k <= ws@.len(),
    ensures
        r@ == joined(views(ws@).subrange(0, k as int)),
{
    let mut out = String::new();
    let mut i: usize = 0;
    assert(views(ws@).subrange(0, 0) =~= Seq::<Seq<char>>::empty());
    while i < k
        invariant
            i <= k <= ws@.len(),
            out@ == joined(views(ws@).subrange(0, i as int)),
        decreases k - i,
    {
        let ghost sub = views(ws@).subrange(0, i + 1);
        assert(sub.drop_last() =~= views(ws@).subrange(0, i as int));
        assert(sub.last() == ws@[i as int]@);
        if i > 0 {
            out.push(' ');
        }
        out.append(ws[i].as_str());
        proof {
            if i == 0 {
                assert(out@ =~= sub[0]);
            }
        }
        i += 1;
    }
    out
}

/// The text itself when it has at most `max_words` extracted words; else the
/// first `max_words` of them joined with spaces, followed by `"..."`.
pub fn truncate_words(text: &str, max_words: usize) -> (r: String)
    ensures
        extracted_words(text@).len() <= max_words ==> r@ == text@,
        extracted_words(text@).len() > max_words ==> r@ == joined(
            extracted_words(text@).subrange(0, max_words as int),
        ) + "..."@,
{
    let words = extract_words(text);
    if words.len() <= max_words {
        text.to_string()
    } else {
        let mut r = join_words(&words, max_words);
        r.append("...");
        r
    }
}

/// Every character is ASCII or white space.
pub fn is_latin_only(text: &str) -> (r: bool)
    ensures
        r == forall|i: int| 0 <= i < text@.len() ==> (text@[i] as u32) < 0x80 || is_space(
            #[trigger] text@[i],
        ),
{
    let v = chars_of(text);
    let mut i: usize = 0;
    while i < v.len()
        invariant
            i <= v@.len(),
            v@ == text@,
            forall|j: int| 0 <= j < i ==> (text@[j] as u32) < 0x80 || is_space(#[trigger] text@[j]),
        decreases v@.len() - i,
    {
        if !((v[i] as u32) < 0x80 || is_space_char(v[i])) {
            return false;
        }
        i += 1;
    }
    true
}

/// A character of the Cyrillic block U+0400..U+04FF.
pub open spec fn is_cyrillic(c: char) -> bool {
    0x400 <= (c as u32) && (c as u32) <= 0x4ff
}

/// Some character is Cyrillic.
pub fn contains_cyrillic(text: &str) -> (r: bool)
    ensures
        r == exists|i: int| 0 <= i < text@.len() && is_cyrillic(#[trigger] text@[i]),
{
    let v = chars_of(text);
    let mut i: usize = 0;
    while i < v.len()
        invariant
            i <= v@.len(),
            v@ == text@,
            forall|j: int| 0 <= j < i ==> !is_cyrillic(#[trigger] text@[j]),
        decreases v@.len() - i,
    {
        let u = v[i] as u32;
        if 0x400 <= u && u <= 0x4ff {
            return true;
        }
        i += 1;
    }
    false
}

} // verus!

verus! {

/// The number of UTF-8 bytes of `v` (what `str::len` returns for its text).
pub fn byte_length(v: &Vec<char>) -> (r: u128)
    ensures
        r == byte_len(v@),
{
    let mut sum: u128 = 0;
    let mut i: usize = 0;
    assert(v@.subrange(0, 0) =~= Seq::<char>::empty());
    while i < v.len()
        invariant
            i <= v@.len(),
            sum == byte_len(v@.subrange(0, i as int)),
            sum <= 4 * i,
        decreases v@.len() - i,
    {
        assert(v@.subrange(0, i + 1).drop_last() =~= v@.subrange(0, i as int));
        let u = v[i] as u32;
        let k: u128 = if u < 0x80 {
            1
        } else if u < 0x800 {
            2
        } else if u < 0x10000 {
            3
        } else {
            4
        };
        sum = sum + k;
        i += 1;
    }
    assert(v@.subrange(0, v@.len() as int) =~= v@);
    sum
}

/// The longest prefix of `s` that takes at most `budget` UTF-8 bytes.
pub open spec fn clip(s: Seq<char>, budget: nat) -> Seq<char>
    decreases s.len(),
{
    if s.len() == 0 || utf8_len(s[0]) > budget {
        Seq::empty()
    } else {
        seq![s[0]] + clip(s.drop_first(), (budget - utf8_len(s[0])) as nat)
    }
}

/// The longest prefix of the text that takes at most `budget` bytes.
pub fn clip_bytes(text: &str, budget: usize) -> (r: String)
    ensures
        r@ == clip(text@, budget as nat),
{
    let v = chars_of(text);
    let n = v.len();
    let mut left: usize = budget;
    let mut k: usize = 0;
    assert(v@.subrange(0, n as int) =~= v@);
    assert(v@.subrange(0, 0) + v@ =~= v@);
    while k < n
        invariant
            n == v@.len(),
            v@ == text@,
            k <= n,
            clip(text@, budget as nat) == v@.subrange(0, k as int) + clip(
                v@.subrange(k as int, n as int),
                left as nat,
            ),
        decreases n - k,
    {
        let u = v[k] as u32;
        let w: usize = if u < 0x80 {
            1
        } else if u < 0x800 {
            2
        } else if u < 0x10000 {
            3
        } else {
            4
        };
        let ghost rest = v@.subrange(k as int, n as int);
        assert(rest[0] == v@[k as int]);
        if w > left {
            assert(clip(rest, left as nat) =~= Seq::<char>::empty());
            assert(v@.subrange(0, k as int) + Seq::<char>::empty() =~= v@.subrange(0, k as int));
            return string_of_range(&v, 0, k);
        }
        assert(rest.drop_first() =~= v@.subrange(k + 1, n as int));
        assert(v@.subrange(0, k + 1) =~= v@.subrange(0, k as int) + seq![v@[k as int]]);
        left = left - w;
        k += 1;
    }
    assert(v@.subrange(n as int, n as int) =~= Seq::<char>::empty());
    assert(v@.subrange(0, n as int) + Seq::<char>::empty() =~= v@);
    string_of_range(&v, 0, n)
}

} // verus!
