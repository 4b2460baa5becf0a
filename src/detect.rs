//! Language detection and the table of language codes.
use vstd::prelude::*;
use crate::normalize::{byte_len, is_cyrillic, lemma_views_push, views};
use crate::text::{chars_of, str_eq, string_of_range, trim, trim_bounds};

verus! {

/// What whatlang detects in a text: the ISO 639-3 code of the language, and
/// whether it deems the detection reliable; none where it detects nothing.
pub uninterp spec fn detection(text: Seq<char>) -> Option<(Seq<char>, bool)>;

/// Relies on `whatlang::detect`, `Lang::code` and `Info::is_reliable`: the
/// language detected in the text with its reliability, or none; the detection
/// reads the text alone.
#[verifier::external_body]
fn detect_info(text: &str) -> (r: Option<(String, bool)>)
    ensures
        match r {
            Some((c, reliable)) => detection(text@) == Some((c@, reliable)),
            None => detection(text@) is None,
        },
{
    whatlang::detect(text).map(|info| (info.lang().code().to_string(), info.is_reliable()))
}

/// The ISO 639-3 code of a reliable detection.
pub open spec fn detected_code(text: Seq<char>) -> Option<Seq<char>> {
    match detection(text) {
        Some((c, reliable)) => if reliable {
            Some(c)
        } else {
            None
        },
        None => None,
    }
}

/// The detector reports the language `code`, however confident it is.
pub open spec fn detected_as(text: Seq<char>, code: Seq<char>) -> bool {
    match detection(text) {
        Some((c, _)) => c == code,
        None => false,
    }
}

/// The uppercase ISO 639-1 code of an ISO 639-3 code that the detector reports.
pub open spec fn two_letter(code: Seq<char>) -> Option<Seq<char>> {
    if false {
        None
    } else if code == "epo"@ {
        Some("EO"@)
    } else if code == "eng"@ {
        Some("EN"@)
    } else if code == "rus"@ {
        Some("RU"@)
    } else if code == "cmn"@ {
        Some("ZH"@)
    } else if code == "spa"@ {
        Some("ES"@)
    } else if code == "por"@ {
        Some("PT"@)
    } else if code == "ita"@ {
        Some("IT"@)
    } else if code == "ben"@ {
        Some("BN"@)
    } else if code == "fra"@ {
        Some("FR"@)
    } else if code == "deu"@ {
        Some("DE"@)
    } else if code == "ukr"@ {
        Some("UK"@)
    } else if code == "kat"@ {
        Some("KA"@)
    } else if code == "ara"@ {
        Some("AR"@)
    } else if code == "hin"@ {
        Some("HI"@)
    } else if code == "jpn"@ {
        Some("JA"@)
    } else if code == "heb"@ {
        Some("HE"@)
    } else if code == "yid"@ {
        Some("YI"@)
    } else if code == "pol"@ {
        Some("PL"@)
    } else if code == "amh"@ {
        Some("AM"@)
    } else if code == "jav"@ {
        Some("JV"@)
    } else if code == "kor"@ {
        Some("KO"@)
    } else if code == "nob"@ {
        Some("NB"@)
    } else if code == "dan"@ {
        Some("DA"@)
    } else if code == "swe"@ {
        Some("SV"@)
    } else if code == "fin"@ {
        Some("FI"@)
    } else if code == "tur"@ {
        Some("TR"@)
    } else if code == "nld"@ {
        Some("NL"@)
    } else if code == "hun"@ {
        Some("HU"@)
    } else if code == "ces"@ {
        Some("CS"@)
    } else if code == "ell"@ {
        Some("EL"@)
    } else if code == "bul"@ {
        Some("BG"@)
    } else if code == "bel"@ {
        Some("BE"@)
    } else if code == "mar"@ {
        Some("MR"@)
    } else if code == "kan"@ {
        Some("KN"@)
    } else if code == "ron"@ {
        Some("RO"@)
    } else if code == "slv"@ {
        Some("SL"@)
    } else if code == "hrv"@ {
        Some("HR"@)
    } else if code == "srp"@ {
        Some("SR"@)
    } else if code == "mkd"@ {
        Some("MK"@)
    } else if code == "lit"@ {
        Some("LT"@)
    } else if code == "lav"@ {
        Some("LV"@)
    } else if code == "est"@ {
        Some("ET"@)
    } else if code == "tam"@ {
        Some("TA"@)
    } else if code == "vie"@ {
        Some("VI"@)
    } else if code == "urd"@ {
        Some("UR"@)
    } else if code == "tha"@ {
        Some("TH"@)
    } else if code == "guj"@ {
        Some("GU"@)
    } else if code == "uzb"@ {
        Some("UZ"@)
    } else if code == "pan"@ {
        Some("PA"@)
    } else if code == "aze"@ {
        Some("AZ"@)
    } else if code == "ind"@ {
        Some("ID"@)
    } else if code == "tel"@ {
        Some("TE"@)
    } else if code == "pes"@ {
        Some("FA"@)
    } else if code == "mal"@ {
        Some("ML"@)
    } else if code == "ori"@ {
        Some("OR"@)
    } else if code == "mya"@ {
        Some("MY"@)
    } else if code == "nep"@ {
        Some("NE"@)
    } else if code == "sin"@ {
        Some("SI"@)
    } else if code == "khm"@ {
        Some("KM"@)
    } else if code == "tuk"@ {
        Some("TK"@)
    } else if code == "aka"@ {
        Some("AK"@)
    } else if code == "zul"@ {
        Some("ZU"@)
    } else if code == "sna"@ {
        Some("SN"@)
    } else if code == "afr"@ {
        Some("AF"@)
    } else if code == "lat"@ {
        Some("LA"@)
    } else if code == "slk"@ {
        Some("SK"@)
    } else if code == "cat"@ {
        Some("CA"@)
    } else if code == "tgl"@ {
        Some("TL"@)
    } else if code == "hye"@ {
        Some("HY"@)
    } else {
        None
    }
}

/// Looks up the two-letter code of a detector code.
pub fn two_letter_code(code: &str) -> (r: Option<&'static str>)
    ensures
        match r {
            Some(c) => two_letter(code@) == Some(c@),
            None => two_letter(code@) is None,
        },
{
    if str_eq(code, "epo") {
        return Some("EO");
    }
    if str_eq(code, "eng") {
        return Some("EN");
    }
    if str_eq(code, "rus") {
        return Some("RU");
    }
    if str_eq(code, "cmn") {
        return Some("ZH");
    }
    if str_eq(code, "spa") {
        return Some("ES");
    }
    if str_eq(code, "por") {
        return Some("PT");
    }
    if str_eq(code, "ita") {
        return Some("IT");
    }
    if str_eq(code, "ben") {
        return Some("BN");
    }
    if str_eq(code, "fra") {
        return Some("FR");
    }
    if str_eq(code, "deu") {
        return Some("DE");
    }
    if str_eq(code, "ukr") {
        return Some("UK");
    }
    if str_eq(code, "kat") {
        return Some("KA");
    }
    if str_eq(code, "ara") {
        return Some("AR");
    }
    if str_eq(code, "hin") {
        return Some("HI");
    }
    if str_eq(code, "jpn") {
        return Some("JA");
    }
    if str_eq(code, "heb") {
        return Some("HE");
    }
    if str_eq(code, "yid") {
        return Some("YI");
    }
    if str_eq(code, "pol") {
        return Some("PL");
    }
    if str_eq(code, "amh") {
        return Some("AM");
    }
    if str_eq(code, "jav") {
        return Some("JV");
    }
    if str_eq(code, "kor") {
        return Some("KO");
    }
    if str_eq(code, "nob") {
        return Some("NB");
    }
    if str_eq(code, "dan") {
        return Some("DA");
    }
    if str_eq(code, "swe") {
        return Some("SV");
    }
    if str_eq(code, "fin") {
        return Some("FI");
    }
    if str_eq(code, "tur") {
        return Some("TR");
    }
    if str_eq(code, "nld") {
        return Some("NL");
    }
    if str_eq(code, "hun") {
        return Some("HU");
    }
    if str_eq(code, "ces") {
        return Some("CS");
    }
    if str_eq(code, "ell") {
        return Some("EL");
    }
    if str_eq(code, "bul") {
        return Some("BG");
    }
    if str_eq(code, "bel") {
        return Some("BE");
    }
    if str_eq(code, "mar") {
        return Some("MR");
    }
    if str_eq(code, "kan") {
        return Some("KN");
    }
    if str_eq(code, "ron") {
        return Some("RO");
    }
    if str_eq(code, "slv") {
        return Some("SL");
    }
    if str_eq(code, "hrv") {
        return Some("HR");
    }
    if str_eq(code, "srp") {
        return Some("SR");
    }
    if str_eq(code, "mkd") {
        return Some("MK");
    }
    if str_eq(code, "lit") {
        return Some("LT");
    }
    if str_eq(code, "lav") {
        return Some("LV");
    }
    if str_eq(code, "est") {
        return Some("ET");
    }
    if str_eq(code, "tam") {
        return Some("TA");
    }
    if str_eq(code, "vie") {
        return Some("VI");
    }
    if str_eq(code, "urd") {
        return Some("UR");
    }
    if str_eq(code, "tha") {
        return Some("TH");
    }
    if str_eq(code, "guj") {
        return Some("GU");
    }
    if str_eq(code, "uzb") {
        return Some("UZ");
    }
    if str_eq(code, "pan") {
        return Some("PA");
    }
    if str_eq(code, "aze") {
        return Some("AZ");
    }
    if str_eq(code, "ind") {
        return Some("ID");
    }
    if str_eq(code, "tel") {
        return Some("TE");
    }
    if str_eq(code, "pes") {
        return Some("FA");
    }
    if str_eq(code, "mal") {
        return Some("ML");
    }
    if str_eq(code, "ori") {
        return Some("OR");
    }
    if str_eq(code, "mya") {
        return Some("MY");
    }
    if str_eq(code, "nep") {
        return Some("NE");
    }
    if str_eq(code, "sin") {
        return Some("SI");
    }
    if str_eq(code, "khm") {
        return Some("KM");
    }
    if str_eq(code, "tuk") {
        return Some("TK");
    }
    if str_eq(code, "aka") {
        return Some("AK");
    }
    if str_eq(code, "zul") {
        return Some("ZU");
    }
    if str_eq(code, "sna") {
        return Some("SN");
    }
    if str_eq(code, "afr") {
        return Some("AF");
    }
    if str_eq(code, "lat") {
        return Some("LA");
    }
    if str_eq(code, "slk") {
        return Some("SK");
    }
    if str_eq(code, "cat") {
        return Some("CA");
    }
    if str_eq(code, "tgl") {
        return Some("TL");
    }
    if str_eq(code, "hye") {
        return Some("HY");
    }
    None
}

/// The two-letter code of the language detected in `t`.
pub open spec fn detected(t: Seq<char>) -> Option<Seq<char>> {
    match detected_code(t) {
        Some(c) => two_letter(c),
        None => None,
    }
}

/// The uppercase two-letter code of the language of the text, or none when the
/// detector finds none or is not confident of it.
pub fn detect_language(text: &str) -> (r: Option<String>)
    ensures
        match r {
            Some(c) => detected(text@) == Some(c@),
            None => detected(text@) is None,
        },
{
    match detect_info(text) {
        Some((c, reliable)) => {
            if reliable {
                match two_letter_code(c.as_str()) {
                    Some(t) => Some(t.to_string()),
                    None => None,
                }
            } else {
                None
            }
        },
        None => None,
    }
}

/// The detector reports English, however confident it is.
pub fn is_english(text: &str) -> (r: bool)
    ensures
        r == detected_as(text@, "eng"@),
{
    match detect_info(text) {
        Some((c, _)) => str_eq(c.as_str(), "eng"),
        None => false,
    }
}

/// The detector reports Russian, however confident it is.
pub fn is_russian(text: &str) -> (r: bool)
    ensures
        r == detected_as(text@, "rus"@),
{
    match detect_info(text) {
        Some((c, _)) => str_eq(c.as_str(), "rus"),
        None => false,
    }
}

/// Some character of `t` is Cyrillic.
pub open spec fn has_cyrillic(t: Seq<char>) -> bool {
    exists|i: int| 0 <= i < t.len() && is_cyrillic(#[trigger] t[i])
}

/// The detected code; where there is none, `"RU"` for a text with Cyrillic
/// letters and `"EN"` for any other.
pub open spec fn language_or_default(t: Seq<char>) -> Seq<char> {
    match detected(t) {
        Some(c) => c,
        None => if has_cyrillic(t) {
            "RU"@
        } else {
            "EN"@
        },
    }
}

/// The detected language, with a script-based default.
pub fn detect_language_or_default(text: &str) -> (r: String)
    ensures
        r@ == language_or_default(text@),
{
    match detect_language(text) {
        Some(c) => c,
        None => {
            if crate::normalize::contains_cyrillic(text) {
                "RU".to_string()
            } else {
                "EN".to_string()
            }
        },
    }
}

/// The languages the assistant answers in.
pub open spec fn supported(code: Seq<char>) -> bool {
    code == "EN"@ || code == "RU"@ || code == "DE"@ || code == "FR"@ || code == "ES"@ || code
        == "IT"@ || code == "JA"@ || code == "ZH"@
}

pub fn is_supported_language(lang_code: &str) -> (r: bool)
    ensures
        r == supported(lang_code@),
{
    str_eq(lang_code, "EN") || str_eq(lang_code, "RU") || str_eq(lang_code, "DE") || str_eq(
        lang_code,
        "FR",
    ) || str_eq(lang_code, "ES") || str_eq(lang_code, "IT") || str_eq(lang_code, "JA")
        || str_eq(lang_code, "ZH")
}

/// The name of a language in that language, or `"Unknown"`.
pub open spec fn language_name(code: Seq<char>) -> Seq<char> {
    if code == "EN"@ {
        "English"@
    } else if code == "RU"@ {
        "Русский"@
    } else if code == "DE"@ {
        "Deutsch"@
    } else if code == "FR"@ {
        "Français"@
    } else if code == "ES"@ {
        "Español"@
    } else if code == "IT"@ {
        "Italiano"@
    } else if code == "JA"@ {
        "日本語"@
    } else if code == "ZH"@ {
        "中文"@
    } else if code == "PT"@ {
        "Português"@
    } else if code == "KO"@ {
        "한국어"@
    } else if code == "AR"@ {
        "العربية"@
    } else if code == "HI"@ {
        "हिन्दी"@
    } else {
        "Unknown"@
    }
}

pub fn get_language_name(lang_code: &str) -> (r: &'static str)
    ensures
        r@ == language_name(lang_code@),
{
    if str_eq(lang_code, "EN") {
        "English"
    } else if str_eq(lang_code, "RU") {
        "Русский"
    } else if str_eq(lang_code, "DE") {
        "Deutsch"
    } else if str_eq(lang_code, "FR") {
        "Français"
    } else if str_eq(lang_code, "ES") {
        "Español"
    } else if str_eq(lang_code, "IT") {
        "Italiano"
    } else if str_eq(lang_code, "JA") {
        "日本語"
    } else if str_eq(lang_code, "ZH") {
        "中文"
    } else if str_eq(lang_code, "PT") {
        "Português"
    } else if str_eq(lang_code, "KO") {
        "한국어"
    } else if str_eq(lang_code, "AR") {
        "العربية"
    } else if str_eq(lang_code, "HI") {
        "हिन्दी"
    } else {
        "Unknown"
    }
}

/// A sentence delimiter: `.`, `!` or `?`.
pub open spec fn is_delim(c: char) -> bool {
    c == '.' || c == '!' || c == '?'
}

/// The pieces of `s` between delimiters, empty ones included
/// (what `str::split` on the delimiters yields).
pub open spec fn segments(s: Seq<char>) -> Seq<Seq<char>>
    decreases s.len(),
{
    if s.len() == 0 {
        seq![Seq::empty()]
    } else if is_delim(s.last()) {
        segments(s.drop_last()).push(Seq::empty())
    } else {
        let w = segments(s.drop_last());
        w.drop_last().push(w.last().push(s.last()))
    }
}

/// Splits `v` at each delimiter.
fn split_segments(v: &Vec<char>) -> (r: Vec<String>)
    ensures
        views(r@) == segments(v@),
{
    let n = v.len();
    let mut done: Vec<String> = Vec::new();
    let mut st: usize = 0;
    let mut i: usize = 0;
    assert(v@.subrange(0, 0) =~= Seq::<char>::empty());
    assert(views(done@).push(v@.subrange(0, 0)) =~= seq![Seq::<char>::empty()]);
    while i < n
        invariant
            n == v@.len(),
            st <= i <= n,
            segments(v@.subrange(0, i as int)) == views(done@).push(
                v@.subrange(st as int, i as int),
            ),
        decreases n - i,
    {
        let c = v[i];
        let ghost p = v@.subrange(0, i + 1);
        assert(p.drop_last() =~= v@.subrange(0, i as int));
        if c == '.' || c == '!' || c == '?' {
            let w = string_of_range(v, st, i);
            proof {
                lemma_views_push(done@, w);
            }
            done.push(w);
            st = i + 1;
            assert(v@.subrange(st as int, i + 1) =~= Seq::<char>::empty());
        } else {
            assert(v@.subrange(st as int, i + 1) =~= v@.subrange(st as int, i as int).push(c));
            assert(views(done@).push(v@.subrange(st as int, i as int)).drop_last() =~= views(
                done@,
            ));
        }
        i += 1;
    }
    assert(v@.subrange(0, n as int) =~= v@);
    let w = string_of_range(v, st, n);
    proof {
        lemma_views_push(done@, w);
    }
    done.push(w);
    done
}

proof fn lemma_byte_len_prefix(w: Seq<char>, i: int)
    requires
        0 <= i <= w.len(),
    ensures
        byte_len(w.subrange(0, i)) <= byte_len(w),
    decreases w.len() - i,
{
    if i < w.len() {
        lemma_byte_len_prefix(w, i + 1);
        assert(w.subrange(0, i + 1).drop_last() =~= w.subrange(0, i));
    } else {
        assert(w.subrange(0, i) =~= w);
    }
}

/// `byte_len(v[lo..hi]) > limit`.
fn byte_len_exceeds(v: &Vec<char>, lo: usize, hi: usize, limit: usize) -> (r: bool)
    requires
        lo <= hi <= v@.len(),
        limit < 1000,
    ensures
        r == (byte_len(v@.subrange(lo as int, hi as int)) > limit),
{
    let ghost w = v@.subrange(lo as int, hi as int);
    let mut sum: usize = 0;
    let mut i: usize = lo;
    assert(w.subrange(0, 0) =~= Seq::<char>::empty());
    while i < hi
        invariant
            lo <= i <= hi <= v@.len(),
            w == v@.subrange(lo as int, hi as int),
            sum == byte_len(w.subrange(0, i - lo)),
            sum <= limit < 1000,
        decreases hi - i,
    {
        assert(w.subrange(0, i + 1 - lo).drop_last() =~= w.subrange(0, i - lo));
        let u = v[i] as u32;
        let k: usize = if u < 0x80 {
            1
        } else if u < 0x800 {
            2
        } else if u < 0x10000 {
            3
        } else {
            4
        };
        sum = sum + k;
        i += 1;
        if sum > limit {
            proof {
                lemma_byte_len_prefix(w, i - lo);
            }
            return true;
        }
    }
    assert(w.subrange(0, hi - lo) =~= w);
    false
}

fn contains_string(v: &Vec<String>, s: &str) -> (r: bool)
    ensures
        r == views(v@).contains(s@),
{
    let mut i: usize = 0;
    while i < v.len()
        invariant
            i <= v@.len(),
            forall|j: int| 0 <= j < i ==> views(v@)[j] != s@,
        decreases v@.len() - i,
    {
        if str_eq(v[i].as_str(), s) {
            assert(views(v@)[i as int] == s@);
            return true;
        }
        i += 1;
    }
    false
}

/// The codes detected in the segments whose trimmed text is longer than ten
/// bytes, each once, in order of first appearance.
pub open spec fn mixed_languages(segs: Seq<Seq<char>>) -> Seq<Seq<char>>
    decreases segs.len(),
{
    if segs.len() == 0 {
        Seq::empty()
    } else {
        let acc = mixed_languages(segs.drop_last());
        let t = trim(segs.last());
        if byte_len(t) > 10 {
            match detected(t) {
                Some(c) => if acc.contains(c) {
                    acc
                } else {
                    acc.push(c)
                },
                None => acc,
            }
        } else {
            acc
        }
    }
}

/// The languages detected sentence by sentence, each once.
pub fn detect_mixed_languages(text: &str) -> (r: Vec<String>)
    ensures
        views(r@) == mixed_languages(segments(text@)),
{
    let v = chars_of(text);
    let segs = split_segments(&v);
    let mut out: Vec<String> = Vec::new();
    let mut i: usize = 0;
    assert(views(segs@).subrange(0, 0) =~= Seq::<Seq<char>>::empty());
    assert(views(out@) =~= Seq::<Seq<char>>::empty());
    while i < segs.len()
        invariant
            i <= segs@.len(),
            views(segs@) == segments(text@),
            views(out@) == mixed_languages(views(segs@).subrange(0, i as int)),
        decreases segs@.len() - i,
    {
        let ghost sub = views(segs@).subrange(0, i + 1);
        assert(sub.drop_last() =~= views(segs@).subrange(0, i as int));
        assert(sub.last() == segs@[i as int]@);
        let sv = chars_of(segs[i].as_str());
        let (lo, hi) = trim_bounds(&sv);
        if byte_len_exceeds(&sv, lo, hi, 10) {
            let t = string_of_range(&sv, lo, hi);
            match detect_language(t.as_str()) {
                Some(c) => {
                    if !contains_string(&out, c.as_str()) {
                        proof {
                            lemma_views_push(out@, c);
                        }
                        out.push(c);
                    }
                },
                None => {},
            }
        }
        i += 1;
    }
    assert(views(segs@).subrange(0, segs@.len() as int) =~= views(segs@));
    out
}

} // verus!
