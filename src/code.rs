//! The code-example skill: recognising a request for code examples, finding
//! the programming language it names, and rendering what the search returned.
use vstd::prelude::*;
use crate::normalize::{split_words, views, words};
use crate::text::{chars_of, contains_str, has_sub, lower_of, lowercase, str_eq};

verus! {

/// The canonical name of a lowercased programming-language name or alias.
pub open spec fn language_alias(l: Seq<char>) -> Seq<char> {
    if l == "js"@ || l == "javascript"@ {
        "javascript"@
    } else if l == "ts"@ || l == "typescript"@ {
        "typescript"@
    } else if l == "py"@ || l == "python"@ {
        "python"@
    } else if l == "cpp"@ || l == "c++"@ {
        "cpp"@
    } else if l == "cs"@ || l == "c#"@ || l == "csharp"@ {
        "csharp"@
    } else if l == "go"@ || l == "golang"@ {
        "go"@
    } else if l == "rs"@ || l == "rust"@ {
        "rust"@
    } else {
        l
    }
}

/// The canonical name of a programming-language name, in any case.
pub open spec fn normalized_language(name: Seq<char>) -> Seq<char> {
    language_alias(lower_of(name))
}

pub fn normalize_language_name(lang: &str) -> (r: String)
    ensures
        r@ == normalized_language(lang@),
{
    let l = lowercase(lang);
    let s = l.as_str();
    if str_eq(s, "js") || str_eq(s, "javascript") {
        "javascript".to_string()
    } else if str_eq(s, "ts") || str_eq(s, "typescript") {
        "typescript".to_string()
    } else if str_eq(s, "py") || str_eq(s, "python") {
        "python".to_string()
    } else if str_eq(s, "cpp") || str_eq(s, "c++") {
        "cpp".to_string()
    } else if str_eq(s, "cs") || str_eq(s, "c#") || str_eq(s, "csharp") {
        "csharp".to_string()
    } else if str_eq(s, "go") || str_eq(s, "golang") {
        "go".to_string()
    } else if str_eq(s, "rs") || str_eq(s, "rust") {
        "rust".to_string()
    } else {
        l
    }
}

/// The programming languages that the skill recognises.
pub open spec fn is_known_language(s: Seq<char>) -> bool {
    s == "rust"@ || s == "python"@ || s == "javascript"@ || s == "java"@ || s == "c++"@ || s == "cpp"@ || s == "c#"@ || s == "csharp"@ || s == "go"@ || s == "kotlin"@ || s == "swift"@ || s == "php"@ || s == "ruby"@ || s == "typescript"@ || s == "scala"@ || s == "haskell"@ || s == "clojure"@ || s == "dart"@ || s == "r"@ || s == "matlab"@ || s == "perl"@ || s == "lua"@ || s == "assembly"@ || s == "bash"@ || s == "powershell"@ || s == "sql"@ || s == "html"@ || s == "css"@
}

fn is_known_language_exec(s: &str) -> (r: bool)
    ensures
        r == is_known_language(s@),
{
    str_eq(s, "rust") || str_eq(s, "python") || str_eq(s, "javascript") || str_eq(s, "java") || str_eq(s, "c++") || str_eq(s, "cpp") || str_eq(s, "c#") || str_eq(s, "csharp") || str_eq(s, "go") || str_eq(s, "kotlin") || str_eq(s, "swift") || str_eq(s, "php") || str_eq(s, "ruby") || str_eq(s, "typescript") || str_eq(s, "scala") || str_eq(s, "haskell") || str_eq(s, "clojure") || str_eq(s, "dart") || str_eq(s, "r") || str_eq(s, "matlab") || str_eq(s, "perl") || str_eq(s, "lua") || str_eq(s, "assembly") || str_eq(s, "bash") || str_eq(s, "powershell") || str_eq(s, "sql") || str_eq(s, "html") || str_eq(s, "css")
}

/// A phrase that asks for code occurs in the lowercased text.
pub open spec fn has_code_keyword(l: Seq<char>) -> bool {
    has_sub(l, "example in"@) || has_sub(l, "пример на"@) || has_sub(l, "код на"@) || has_sub(l, "code in"@) || has_sub(l, "how to write"@) || has_sub(l, "show me"@) || has_sub(l, "покажи"@) || has_sub(l, "найди код"@) || has_sub(l, "examples for"@) || has_sub(l, "tutorial"@) || has_sub(l, "learn"@) || has_sub(l, "изучить"@) || has_sub(l, "syntax"@) || has_sub(l, "синтаксис"@)
}

fn has_code_keyword_exec(v: &Vec<char>) -> (r: bool)
    ensures
        r == has_code_keyword(v@),
{
    contains_str(v, "example in") || contains_str(v, "пример на") || contains_str(v, "код на") || contains_str(v, "code in") || contains_str(v, "how to write") || contains_str(v, "show me") || contains_str(v, "покажи") || contains_str(v, "найди код") || contains_str(v, "examples for") || contains_str(v, "tutorial") || contains_str(v, "learn") || contains_str(v, "изучить") || contains_str(v, "syntax") || contains_str(v, "синтаксис")
}

/// A preposition after which the language name is looked for.
pub open spec fn is_preposition(w: Seq<char>) -> bool {
    w == "на"@ || w == "in"@ || w == "for"@
}

/// The first known language that follows a preposition, from word `i` on.
pub open spec fn language_after_preposition(ps: Seq<Seq<char>>, i: int) -> Option<Seq<char>>
    decreases ps.len() - i,
{
    if i < 0 || i >= ps.len() {
        None
    } else if is_preposition(ps[i]) && i + 1 < ps.len() && is_known_language(
        normalized_language(ps[i + 1]),
    ) {
        Some(normalized_language(ps[i + 1]))
    } else {
        language_after_preposition(ps, i + 1)
    }
}

/// The first word, from word `i` on, that names a known language.
pub open spec fn language_word(ps: Seq<Seq<char>>, i: int) -> Option<Seq<char>>
    decreases ps.len() - i,
{
    if i < 0 || i >= ps.len() {
        None
    } else if is_known_language(normalized_language(ps[i])) {
        Some(normalized_language(ps[i]))
    } else {
        language_word(ps, i + 1)
    }
}

/// The first known language, in the order of the list, that the text mentions anywhere.
pub open spec fn mentioned_language(l: Seq<char>) -> Option<Seq<char>> {
    if has_sub(l, "rust"@) {
        Some(normalized_language("rust"@))
    } else if has_sub(l, "python"@) {
        Some(normalized_language("python"@))
    } else if has_sub(l, "javascript"@) {
        Some(normalized_language("javascript"@))
    } else if has_sub(l, "java"@) {
        Some(normalized_language("java"@))
    } else if has_sub(l, "c++"@) {
        Some(normalized_language("c++"@))
    } else if has_sub(l, "cpp"@) {
        Some(normalized_language("cpp"@))
    } else if has_sub(l, "c#"@) {
        Some(normalized_language("c#"@))
    } else if has_sub(l, "csharp"@) {
        Some(normalized_language("csharp"@))
    } else if has_sub(l, "go"@) {
        Some(normalized_language("go"@))
    } else if has_sub(l, "kotlin"@) {
        Some(normalized_language("kotlin"@))
    } else if has_sub(l, "swift"@) {
        Some(normalized_language("swift"@))
    } else if has_sub(l, "php"@) {
        Some(normalized_language("php"@))
    } else if has_sub(l, "ruby"@) {
        Some(normalized_language("ruby"@))
    } else if has_sub(l, "typescript"@) {
        Some(normalized_language("typescript"@))
    } else if has_sub(l, "scala"@) {
        Some(normalized_language("scala"@))
    } else if has_sub(l, "haskell"@) {
        Some(normalized_language("haskell"@))
    } else if has_sub(l, "clojure"@) {
        Some(normalized_language("clojure"@))
    } else if has_sub(l, "dart"@) {
        Some(normalized_language("dart"@))
    } else if has_sub(l, "r"@) {
        Some(normalized_language("r"@))
    } else if has_sub(l, "matlab"@) {
        Some(normalized_language("matlab"@))
    } else if has_sub(l, "perl"@) {
        Some(normalized_language("perl"@))
    } else if has_sub(l, "lua"@) {
        Some(normalized_language("lua"@))
    } else if has_sub(l, "assembly"@) {
        Some(normalized_language("assembly"@))
    } else if has_sub(l, "bash"@) {
        Some(normalized_language("bash"@))
    } else if has_sub(l, "powershell"@) {
        Some(normalized_language("powershell"@))
    } else if has_sub(l, "sql"@) {
        Some(normalized_language("sql"@))
    } else if has_sub(l, "html"@) {
        Some(normalized_language("html"@))
    } else if has_sub(l, "css"@) {
        Some(normalized_language("css"@))
    } else {
        None
    }
}

fn mentioned_language_exec(v: &Vec<char>) -> (r: Option<String>)
    ensures
        match r {
            Some(x) => mentioned_language(v@) == Some(x@),
            None => mentioned_language(v@) is None,
        },
{
    if contains_str(v, "rust") {
        return Some(normalize_language_name("rust"));
    }
    if contains_str(v, "python") {
        return Some(normalize_language_name("python"));
    }
    if contains_str(v, "javascript") {
        return Some(normalize_language_name("javascript"));
    }
    if contains_str(v, "java") {
        return Some(normalize_language_name("java"));
    }
    if contains_str(v, "c++") {
        return Some(normalize_language_name("c++"));
    }
    if contains_str(v, "cpp") {
        return Some(normalize_language_name("cpp"));
    }
    if contains_str(v, "c#") {
        return Some(normalize_language_name("c#"));
    }
    if contains_str(v, "csharp") {
        return Some(normalize_language_name("csharp"));
    }
    if contains_str(v, "go") {
        return Some(normalize_language_name("go"));
    }
    if contains_str(v, "kotlin") {
        return Some(normalize_language_name("kotlin"));
    }
    if contains_str(v, "swift") {
        return Some(normalize_language_name("swift"));
    }
    if contains_str(v, "php") {
        return Some(normalize_language_name("php"));
    }
    if contains_str(v, "ruby") {
        return Some(normalize_language_name("ruby"));
    }
    if contains_str(v, "typescript") {
        return Some(normalize_language_name("typescript"));
    }
    if contains_str(v, "scala") {
        return Some(normalize_language_name("scala"));
    }
    if contains_str(v, "haskell") {
        return Some(normalize_language_name("haskell"));
    }
    if contains_str(v, "clojure") {
        return Some(normalize_language_name("clojure"));
    }
    if contains_str(v, "dart") {
        return Some(normalize_language_name("dart"));
    }
    if contains_str(v, "r") {
        return Some(normalize_language_name("r"));
    }
    if contains_str(v, "matlab") {
        return Some(normalize_language_name("matlab"));
    }
    if contains_str(v, "perl") {
        return Some(normalize_language_name("perl"));
    }
    if contains_str(v, "lua") {
        return Some(normalize_language_name("lua"));
    }
    if contains_str(v, "assembly") {
        return Some(normalize_language_name("assembly"));
    }
    if contains_str(v, "bash") {
        return Some(normalize_language_name("bash"));
    }
    if contains_str(v, "powershell") {
        return Some(normalize_language_name("powershell"));
    }
    if contains_str(v, "sql") {
        return Some(normalize_language_name("sql"));
    }
    if contains_str(v, "html") {
        return Some(normalize_language_name("html"));
    }
    if contains_str(v, "css") {
        return Some(normalize_language_name("css"));
    }
    None
}

/// The language of a request for code examples in the lowercased text `l`;
/// none when the text does not ask for code.
pub open spec fn code_query_language(l: Seq<char>) -> Option<Seq<char>> {
    if has_code_keyword(l) {
        let ps = words(l);
        if let Some(x) = language_after_preposition(ps, 0) {
            Some(x)
        } else if let Some(x) = language_word(ps, 0) {
            Some(x)
        } else {
            mentioned_language(l)
        }
    } else {
        None
    }
}

/// Whether the input asks for code examples, and in which language.
pub fn detect_code_query(input: &str) -> (r: Option<String>)
    ensures
        match r {
            Some(x) => code_query_language(lower_of(input@)) == Some(x@),
            None => code_query_language(lower_of(input@)) is None,
        },
{
    let l = lowercase(input);
    let v = chars_of(l.as_str());
    if !has_code_keyword_exec(&v) {
        return None;
    }
    let parts = split_words(&v);
    let ghost ps = views(parts@);
    let n = parts.len();
    let mut i: usize = 0;
    while i < n
        invariant
            n == parts@.len(),
            ps == views(parts@),
            ps == words(v@),
            v@ == lower_of(input@),
            has_code_keyword(v@),
            i <= n,
            language_after_preposition(ps, 0) == language_after_preposition(ps, i as int),
        decreases n - i,
    {
        let p = parts[i].as_str();
        assert(ps[i as int] == parts@[i as int]@);
        if (str_eq(p, "на") || str_eq(p, "in") || str_eq(p, "for")) && i + 1 < n {
            assert(ps[i + 1] == parts@[i + 1]@);
            let cand = normalize_language_name(parts[i + 1].as_str());
            if is_known_language_exec(cand.as_str()) {
                return Some(cand);
            }
        }
        i += 1;
    }
    let mut j: usize = 0;
    while j < n
        invariant
            n == parts@.len(),
            ps == views(parts@),
            ps == words(v@),
            v@ == lower_of(input@),
            has_code_keyword(v@),
            j <= n,
            language_after_preposition(ps, 0) is None,
            language_word(ps, 0) == language_word(ps, j as int),
        decreases n - j,
    {
        assert(ps[j as int] == parts@[j as int]@);
        let cand = normalize_language_name(parts[j].as_str());
        if is_known_language_exec(cand.as_str()) {
            return Some(cand);
        }
        j += 1;
    }
    mentioned_language_exec(&v)
}

/// A short example program for a popular language.
pub open spec fn basic_example(lang: Seq<char>) -> Option<Seq<char>> {
    if lang == "rust"@ {
        Some(RUST_EXAMPLE@)
    } else if lang == "python"@ {
        Some(PYTHON_EXAMPLE@)
    } else if lang == "javascript"@ {
        Some(JAVASCRIPT_EXAMPLE@)
    } else if lang == "go"@ {
        Some(GO_EXAMPLE@)
    } else {
        None
    }
}

pub const RUST_EXAMPLE: &'static str = "🦀 **Базовый пример Rust:**\n\n```rust\nfn main() {\n    println!(\"Hello, World!\");\n    \n    let name = \"Rust\";\n    println!(\"Привет от {}!\", name);\n}\n```";

pub const PYTHON_EXAMPLE: &'static str = "🐍 **Базовый пример Python:**\n\n```python\n# Hello World\nprint(\"Hello, World!\")\n\n# Переменные\nname = \"Python\"\nprint(f\"Привет от {name}!\")\n```";

pub const JAVASCRIPT_EXAMPLE: &'static str = "⚡ **Базовый пример JavaScript:**\n\n```javascript\n// Hello World\nconsole.log(\"Hello, World!\");\n\n// Переменные\nconst name = \"JavaScript\";\nconsole.log(`Привет от ${name}!`);\n```";

pub const GO_EXAMPLE: &'static str = "🔵 **Базовый пример Go:**\n\n```go\npackage main\n\nimport \"fmt\"\n\nfunc main() {\n    fmt.Println(\"Hello, World!\")\n    \n    name := \"Go\"\n    fmt.Printf(\"Привет от %s!\\n\", name)\n}\n```";

/// A short example program for the language, where one is known.
pub fn generate_basic_example(language: &str) -> (r: Option<String>)
    ensures
        match r {
            Some(x) => basic_example(normalized_language(language@)) == Some(x@),
            None => basic_example(normalized_language(language@)) is None,
        },
{
    let n = normalize_language_name(language);
    let s = n.as_str();
    if str_eq(s, "rust") {
        Some(RUST_EXAMPLE.to_string())
    } else if str_eq(s, "python") {
        Some(PYTHON_EXAMPLE.to_string())
    } else if str_eq(s, "javascript") {
        Some(JAVASCRIPT_EXAMPLE.to_string())
    } else if str_eq(s, "go") {
        Some(GO_EXAMPLE.to_string())
    } else {
        None
    }
}

} // verus!
