//! The translation adapter's own rules: its errors, how a provider reply
//! becomes a result, and the policy that keeps the source text on failure.
use vstd::prelude::*;
use crate::text::{replace_str, replaced, str_eq};

verus! {

/// Why a translation did not come back.
pub enum TranslationError {
    /// No credentials for the provider are configured.
    CredentialsMissing,
    /// The provider could not be reached or answered with a failure status.
    ProviderUnavailable(String),
    /// The provider's reply could not be read.
    MalformedResponse(String),
    /// The provider returned no translation, or an empty one.
    EmptyResult,
}

/// The description of a translation error.
pub open spec fn translation_error_text(e: TranslationError) -> Seq<char> {
    match e {
        TranslationError::CredentialsMissing => "DeepL API ключ недоступен"@,
        TranslationError::ProviderUnavailable(d) => "Запрос DeepL не удался: "@ + d@,
        TranslationError::MalformedResponse(d) => "Ошибка парсинга JSON DeepL: "@ + d@,
        TranslationError::EmptyResult => "DeepL вернул пустой список переводов"@,
    }
}

impl TranslationError {
    /// The description of the error, never empty.
    pub fn message(&self) -> (r: String)
        ensures
            r@ == translation_error_text(*self),
            r@.len() > 0,
    {
        let mut out = String::new();
        match self {
            TranslationError::CredentialsMissing => out.append("DeepL API ключ недоступен"),
            TranslationError::ProviderUnavailable(d) => {
                out.append("Запрос DeepL не удался: ");
                out.append(d.as_str());
            },
            TranslationError::MalformedResponse(d) => {
                out.append("Ошибка парсинга JSON DeepL: ");
                out.append(d.as_str());
            },
            TranslationError::EmptyResult => out.append("DeepL вернул пустой список переводов"),
        }
        proof {
            reveal_strlit("DeepL API ключ недоступен");
            reveal_strlit("Запрос DeepL не удался: ");
            reveal_strlit("Ошибка парсинга JSON DeepL: ");
            reveal_strlit("DeepL вернул пустой список переводов");
        }
        out
    }
}

/// The translation that a provider reply holds: its first text, where there
/// is one and it is not empty.
pub open spec fn reply_translation(texts: Seq<Seq<char>>) -> Option<Seq<char>> {
    if texts.len() > 0 && texts[0].len() > 0 {
        Some(texts[0])
    } else {
        None
    }
}

/// Turns the texts of a provider reply into the translation, or `EmptyResult`.
pub fn translation_from_reply(texts: Vec<String>) -> (r: Result<String, TranslationError>)
    ensures
        match r {
            Ok(t) => reply_translation(texts@.map_values(|s: String| s@)) == Some(t@),
            Err(e) => reply_translation(texts@.map_values(|s: String| s@)) is None
                && e is EmptyResult,
        },
{
    if texts.len() == 0 {
        return Err(TranslationError::EmptyResult);
    }
    let first = texts[0].clone();
    assert(first@ == texts@[0]@);
    if first.as_str().unicode_len() == 0 {
        return Err(TranslationError::EmptyResult);
    }
    Ok(first)
}

/// The text that goes on after a translation attempt: the translation where it
/// came back non-empty, else the source text.
pub open spec fn kept_or_translated(
    source: Seq<char>,
    outcome: Result<Seq<char>, ()>,
) -> Seq<char> {
    match outcome {
        Ok(t) => if t.len() > 0 {
            t
        } else {
            source
        },
        Err(_) => source,
    }
}

/// The view of a translation outcome.
pub open spec fn outcome_view(outcome: Result<String, TranslationError>) -> Result<
    Seq<char>,
    (),
> {
    match outcome {
        Ok(t) => Ok(t@),
        Err(_) => Err(()),
    }
}

/// Applies the keep-the-source policy to a translation outcome.
pub fn translated_or_source(source: &str, outcome: Result<String, TranslationError>) -> (r:
    String)
    ensures
        r@ == kept_or_translated(source@, outcome_view(outcome)),
{
    match outcome {
        Ok(t) => if t.as_str().unicode_len() > 0 {
            t
        } else {
            source.to_string()
        },
        Err(_) => source.to_string(),
    }
}

/// The word-for-word stand-in translation used when the provider is unavailable.
pub open spec fn fallback_translation(text: Seq<char>, target: Seq<char>) -> Seq<char> {
    if target == "RU"@ {
        replaced(
            replaced(
                replaced(replaced(text, "Hello"@, "Привет"@), "Thank you"@, "Спасибо"@),
                "Goodbye"@,
                "До свидания"@,
            ),
            "Error"@,
            "Ошибка"@,
        )
    } else if target == "EN"@ {
        replaced(
            replaced(
                replaced(replaced(text, "Привет"@, "Hello"@), "Спасибо"@, "Thank you"@),
                "До свидания"@,
                "Goodbye"@,
            ),
            "Ошибка"@,
            "Error"@,
        )
    } else {
        text
    }
}

pub fn simple_translate_fallback(text: &str, target_lang: &str) -> (r: String)
    ensures
        r@ == fallback_translation(text@, target_lang@),
{
    if str_eq(target_lang, "RU") {
        let a = replace_str(text, "Hello", "Привет");
        let a = replace_str(a.as_str(), "Thank you", "Спасибо");
        let a = replace_str(a.as_str(), "Goodbye", "До свидания");
        replace_str(a.as_str(), "Error", "Ошибка")
    } else if str_eq(target_lang, "EN") {
        let a = replace_str(text, "Привет", "Hello");
        let a = replace_str(a.as_str(), "Спасибо", "Thank you");
        let a = replace_str(a.as_str(), "До свидания", "Goodbye");
        replace_str(a.as_str(), "Ошибка", "Error")
    } else {
        text.to_string()
    }
}

} // verus!
