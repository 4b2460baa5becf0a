//! Queries to the knowledge providers and the texts made from their replies.
use vstd::prelude::*;
use crate::math::{decimal, push_decimal};
use crate::text::{
    chars_of, contains_str, has_sub, lower_of, lowercase, replace_str, replaced, str_eq, trim,
    trim_str, upper_str, uppercase,
};

verus! {

/// What `urlencoding::encode` returns for a text.
pub uninterp spec fn url_encoded(s: Seq<char>) -> Seq<char>;

/// Relies on `urlencoding::encode`: percent-encoding of the UTF-8 bytes of the
/// text, every byte but ASCII letters, digits and `-_.~`; it reads the text alone.
#[verifier::external_body]
fn percent_encode(s: &str) -> (r: String)
    ensures
        r@ == url_encoded(s@),
{
    urlencoding::encode(s).into_owned()
}

/// The query words stripped before an encyclopedia lookup.
pub open spec fn stripped_query(l: Seq<char>) -> Seq<char> {
    let a = replaced(l, "what is "@, ""@);
    let a = replaced(a, "что такое "@, ""@);
    let a = replaced(a, "tell me about "@, ""@);
    let a = replaced(a, "расскажи о "@, ""@);
    let a = replaced(a, "explain "@, ""@);
    let a = replaced(a, "объясни "@, ""@);
    let a = replaced(a, "?"@, ""@);
    let a = replaced(a, "!"@, ""@);
    trim(a)
}

/// The article title looked up for a question: known abbreviations spelled
/// out, spaces made underscores.
pub open spec fn article_title(query: Seq<char>) -> Seq<char> {
    let c = stripped_query(lower_of(query));
    if c == "ai"@ || c == "ии"@ {
        "artificial_intelligence"@
    } else if c == "ml"@ {
        "machine_learning"@
    } else if c == "js"@ {
        "javascript"@
    } else if c == "css"@ {
        "cascading_style_sheets"@
    } else if c == "html"@ {
        "html"@
    } else if c == "cpp"@ || c == "c++"@ {
        "c++"@
    } else {
        replaced(c, " "@, "_"@)
    }
}

/// The article title to look up for a question.
pub fn clean_wikipedia_query(query: &str) -> (r: String)
    ensures
        r@ == article_title(query@),
{
    let l = lowercase(query);
    let a = replace_str(l.as_str(), "what is ", "");
    let a = replace_str(a.as_str(), "что такое ", "");
    let a = replace_str(a.as_str(), "tell me about ", "");
    let a = replace_str(a.as_str(), "расскажи о ", "");
    let a = replace_str(a.as_str(), "explain ", "");
    let a = replace_str(a.as_str(), "объясни ", "");
    let a = replace_str(a.as_str(), "?", "");
    let a = replace_str(a.as_str(), "!", "");
    let c = trim_str(a.as_str());
    let s = c.as_str();
    if str_eq(s, "ai") || str_eq(s, "ии") {
        "artificial_intelligence".to_string()
    } else if str_eq(s, "ml") {
        "machine_learning".to_string()
    } else if str_eq(s, "js") {
        "javascript".to_string()
    } else if str_eq(s, "css") {
        "cascading_style_sheets".to_string()
    } else if str_eq(s, "html") {
        "html".to_string()
    } else if str_eq(s, "cpp") || str_eq(s, "c++") {
        "c++".to_string()
    } else {
        replace_str(s, " ", "_")
    }
}

/// An article extract is usable: not empty and not a disambiguation page.
pub open spec fn usable_extract(extract: Seq<char>) -> bool {
    extract.len() > 0 && !has_sub(extract, "may refer to:"@)
}

/// The summary shown for an article.
pub open spec fn summary_text(title: Seq<char>, extract: Seq<char>) -> Seq<char> {
    "📖 **"@ + title + "**\n\n"@ + extract
}

/// The summary of an article, or an error for an empty or disambiguation extract.
pub fn article_summary(title: &str, extract: &str) -> (r: Result<String, String>)
    ensures
        usable_extract(extract@) ==> (r matches Ok(s) && s@ == summary_text(title@, extract@)),
        !usable_extract(extract@) ==> r is Err,
{
    let v = chars_of(extract);
    if v.len() == 0 || contains_str(&v, "may refer to:") {
        return Err("Disambiguation page or empty summary".to_string());
    }
    let mut out = "📖 **".to_string();
    out.append(title);
    out.append("**\n\n");
    out.append(extract);
    Ok(out)
}

/// The address of the article-summary endpoint for a title.
pub fn wikipedia_summary_url(title: &str) -> (r: String)
    ensures
        r@ == "https://en.wikipedia.org/api/rest_v1/page/summary/"@ + url_encoded(title@),
{
    let mut out = "https://en.wikipedia.org/api/rest_v1/page/summary/".to_string();
    let e = percent_encode(title);
    out.append(e.as_str());
    out
}

/// The address of the article-extract query for a title.
pub fn wikipedia_extract_url(title: &str) -> (r: String)
    ensures
        r@ == "https://en.wikipedia.org/w/api.php?action=query&format=json&titles="@
            + url_encoded(title@) + "&prop=extracts&exintro&explaintext&exsectionformat=plain"@,
{
    let mut out = "https://en.wikipedia.org/w/api.php?action=query&format=json&titles=".to_string();
    let e = percent_encode(title);
    out.append(e.as_str());
    out.append("&prop=extracts&exintro&explaintext&exsectionformat=plain");
    out
}

/// The address of the article search for a query.
pub fn wikipedia_search_url(query: &str, limit: u64) -> (r: String)
    ensures
        r@ == "https://en.wikipedia.org/w/api.php?action=opensearch&search="@ + url_encoded(query@)
            + "&limit="@ + decimal(limit as nat) + "&format=json"@,
{
    let mut out = "https://en.wikipedia.org/w/api.php?action=opensearch&search=".to_string();
    let e = percent_encode(query);
    out.append(e.as_str());
    out.append("&limit=");
    push_decimal(&mut out, limit);
    out.append("&format=json");
    out
}

/// The address of the repository search for a query.
pub fn github_search_url(query: &str, per_page: u64) -> (r: String)
    ensures
        r@ == "https://api.github.com/search/repositories?q="@ + url_encoded(query@)
            + "&sort=stars&order=desc&per_page="@ + decimal(per_page as nat),
{
    let mut out = "https://api.github.com/search/repositories?q=".to_string();
    let e = percent_encode(query);
    out.append(e.as_str());
    out.append("&sort=stars&order=desc&per_page=");
    push_decimal(&mut out, per_page);
    out
}

/// The address of the current-weather query for a city.
pub fn weather_url(city: &str, api_key: &str) -> (r: String)
    ensures
        r@ == "https://api.openweathermap.org/data/2.5/weather?q="@ + url_encoded(city@)
            + "&appid="@ + api_key@ + "&units=metric&lang=ru"@,
{
    let mut out = "https://api.openweathermap.org/data/2.5/weather?q=".to_string();
    let e = percent_encode(city);
    out.append(e.as_str());
    out.append("&appid=");
    out.append(api_key);
    out.append("&units=metric&lang=ru");
    out
}

/// Why a knowledge provider gave no result; each carries the text shown to the user.
pub enum LookupError {
    NotFound(String),
    ProviderUnavailable(String),
    MalformedResponse(String),
    /// The provider's key is missing or refused.
    CredentialsMissing(String),
    RateLimited(String),
}

/// The text that a lookup error carries.
pub open spec fn error_text(e: LookupError) -> Seq<char> {
    match e {
        LookupError::NotFound(m) => m@,
        LookupError::ProviderUnavailable(m) => m@,
        LookupError::MalformedResponse(m) => m@,
        LookupError::CredentialsMissing(m) => m@,
        LookupError::RateLimited(m) => m@,
    }
}

impl LookupError {
    /// The text the error carries.
    pub fn message(&self) -> (r: &str)
        ensures
            r@ == error_text(*self),
    {
        match self {
            LookupError::NotFound(m) => m.as_str(),
            LookupError::ProviderUnavailable(m) => m.as_str(),
            LookupError::MalformedResponse(m) => m.as_str(),
            LookupError::CredentialsMissing(m) => m.as_str(),
            LookupError::RateLimited(m) => m.as_str(),
        }
    }
}

/// A repository that the search found.
pub struct Repository {
    pub name: String,
    pub description: String,
    pub url: String,
}

/// One repository as a paragraph.
pub open spec fn repository_paragraph(r: Repository) -> Seq<char> {
    "📂 **"@ + r.name@ + "**\n"@ + r.description@ + "\n🔗 "@ + r.url@
}

/// The paragraphs of `rs`, separated by blank lines.
pub open spec fn repository_list(rs: Seq<Repository>) -> Seq<char>
    decreases rs.len(),
{
    if rs.len() == 0 {
        Seq::empty()
    } else if rs.len() == 1 {
        repository_paragraph(rs[0])
    } else {
        repository_list(rs.drop_last()) + "\n\n"@ + repository_paragraph(rs.last())
    }
}

/// Renders the repositories as paragraphs separated by blank lines.
pub fn format_repositories(repos: &Vec<Repository>) -> (r: String)
    ensures
        r@ == repository_list(repos@),
{
    let mut out = String::new();
    let mut i: usize = 0;
    assert(repos@.subrange(0, 0) =~= Seq::<Repository>::empty());
    while i < repos.len()
        invariant
            i <= repos@.len(),
            out@ == repository_list(repos@.subrange(0, i as int)),
        decreases repos@.len() - i,
    {
        let ghost sub = repos@.subrange(0, i + 1);
        assert(sub.drop_last() =~= repos@.subrange(0, i as int));
        if i > 0 {
            out.append("\n\n");
        }
        out.append("📂 **");
        out.append(repos[i].name.as_str());
        out.append("**\n");
        out.append(repos[i].description.as_str());
        out.append("\n🔗 ");
        out.append(repos[i].url.as_str());
        proof {
            if i == 0 {
                assert(out@ =~= repository_paragraph(sub[0]));
            } else {
                assert(out@ =~= repository_list(sub.drop_last()) + "\n\n"@ + repository_paragraph(
                    sub.last(),
                ));
            }
        }
        i += 1;
    }
    assert(repos@.subrange(0, repos@.len() as int) =~= repos@);
    out
}

/// One repository as an entry of the numbered list of examples.
pub open spec fn example_entry(i: nat, r: Repository) -> Seq<char> {
    decimal(i + 1) + ". 📂 **"@ + r.name@ + "**\n   💡 "@ + (if r.description@.len() == 0 {
        "Нет описания"@
    } else {
        r.description@
    }) + "\n   🔗 "@ + r.url@ + "\n\n"@
}

/// The numbered entries of `rs`.
pub open spec fn example_entries(rs: Seq<Repository>) -> Seq<char>
    decreases rs.len(),
{
    if rs.len() == 0 {
        Seq::empty()
    } else {
        example_entries(rs.drop_last()) + example_entry((rs.len() - 1) as nat, rs.last())
    }
}

/// The answer made of the repositories found for a language's examples.
pub open spec fn examples_text(language: Seq<char>, rs: Seq<Repository>) -> Seq<char> {
    if rs.len() == 0 {
        "❌ Примеры кода для **"@ + upper_str(language)
            + "** не найдены.\n\nПопробуйте поискать:\n• Tutorials\n• Documentation\n• Stack Overflow"@
    } else {
        "🚀 **Примеры кода на "@ + upper_str(language) + ":**\n\n"@ + example_entries(rs)
            + "💡 **Совет:** Изучите README файлы в этих репозиториях для лучшего понимания!"@
    }
}

/// Renders the repositories found for a language's examples.
pub fn format_code_examples(language: &str, repos: &Vec<Repository>) -> (r: String)
    ensures
        r@ == examples_text(language@, repos@),
{
    let up = uppercase(language);
    if repos.len() == 0 {
        let mut out = "❌ Примеры кода для **".to_string();
        out.append(up.as_str());
        out.append(
            "** не найдены.\n\nПопробуйте поискать:\n• Tutorials\n• Documentation\n• Stack Overflow",
        );
        return out;
    }
    let mut out = "🚀 **Примеры кода на ".to_string();
    out.append(up.as_str());
    out.append(":**\n\n");
    let ghost head = out@;
    let mut i: usize = 0;
    assert(repos@.subrange(0, 0) =~= Seq::<Repository>::empty());
    assert(out@ =~= head + example_entries(repos@.subrange(0, 0)));
    while i < repos.len()
        invariant
            i <= repos@.len(),
            out@ == head + example_entries(repos@.subrange(0, i as int)),
        decreases repos@.len() - i,
    {
        let ghost sub = repos@.subrange(0, i + 1);
        assert(sub.drop_last() =~= repos@.subrange(0, i as int));
        push_decimal(&mut out, (i as u64) + 1);
        out.append(". 📂 **");
        out.append(repos[i].name.as_str());
        out.append("**\n   💡 ");
        if repos[i].description.as_str().unicode_len() == 0 {
            out.append("Нет описания");
        } else {
            out.append(repos[i].description.as_str());
        }
        out.append("\n   🔗 ");
        out.append(repos[i].url.as_str());
        out.append("\n\n");
        assert(out@ =~= head + example_entries(sub));
        i += 1;
    }
    assert(repos@.subrange(0, repos@.len() as int) =~= repos@);
    out.append("💡 **Совет:** Изучите README файлы в этих репозиториях для лучшего понимания!");
    out
}

} // verus!
