use bot_core::detect::{
    detect_language, detect_language_or_default, detect_mixed_languages, get_language_name,
    is_english, is_russian, is_supported_language, two_letter_code,
};
use bot_core::normalize::{
    clean_for_analysis, contains_cyrillic, extract_words, is_latin_only, normalize,
    remove_emoji, remove_punctuation, truncate_words, word_count,
};
use bot_core::translate::{
    simple_translate_fallback, translated_or_source, translation_from_reply, TranslationError,
};
use bot_core::utils::{split_into_sentences, truncate};

#[test]
fn detection_needs_confidence() {
    assert_eq!(detect_language("Это довольно длинное русское предложение"), Some("RU".to_string()));
    assert_eq!(detect_language("abc"), None);
    assert_eq!(detect_language(""), None);
    assert!(is_russian("Привет мир"));
    assert!(!is_english("Привет мир"));
}

#[test]
fn test_fallback() {
    let result = detect_language_or_default("abc");
    assert!(result == "EN" || result == "RU");
}

#[test]
fn test_supported_languages() {
    assert!(is_supported_language("EN"));
    assert!(is_supported_language("RU"));
    assert!(!is_supported_language("XX"));
}

#[test]
fn test_normalize() {
    assert_eq!(normalize("  Привет   Мир!  "), "привет мир!");
    assert_eq!(normalize("Hello\t\nWorld"), "hello world");
}

#[test]
fn test_word_count() {
    assert_eq!(word_count("Hello world test"), 3);
    assert_eq!(word_count("Привет мир"), 2);
}

#[test]
fn test_language_detection() {
    assert!(is_latin_only("Hello world"));
    assert!(!is_latin_only("Привет мир"));
    assert!(contains_cyrillic("Привет world"));
}

#[test]
fn normalize_is_idempotent_on_samples() {
    for t in ["  Привет   Мир!  ", "Hello\t\nWorld", "", "   ", "A  b\u{2003}C", "ÄÖÜ  x"] {
        let once = normalize(t);
        assert_eq!(normalize(&once), once);
    }
}

#[test]
fn normalize_edge_cases() {
    assert_eq!(normalize(""), "");
    assert_eq!(normalize(" \t\n "), "");
    assert_eq!(normalize("a\u{00a0}\u{3000}b"), "a b");
}

#[test]
fn default_language_uses_script_when_undetected() {
    assert_eq!(detect_language_or_default(""), "EN");
    assert_eq!(detect_language_or_default("Привет, как у тебя дела сегодня?"), "RU");
}

#[test]
fn two_letter_codes_cover_the_detector() {
    assert_eq!(two_letter_code("eng"), Some("EN"));
    assert_eq!(two_letter_code("cmn"), Some("ZH"));
    assert_eq!(two_letter_code("pes"), Some("FA"));
    assert_eq!(two_letter_code("xyz"), None);
}

#[test]
fn language_names() {
    assert_eq!(get_language_name("RU"), "Русский");
    assert_eq!(get_language_name("HI"), "हिन्दी");
    assert_eq!(get_language_name("XX"), "Unknown");
}

#[test]
fn mixed_languages_keep_first_appearance_once() {
    let langs = detect_mixed_languages(
        "Это довольно длинное русское предложение. Short! Это довольно длинное русское предложение?",
    );
    assert_eq!(langs, vec!["RU".to_string()]);
    assert!(detect_mixed_languages("Short. Tiny!").is_empty());
}

#[test]
fn punctuation_and_emoji_are_removed() {
    assert_eq!(remove_punctuation("Hi, there! (ok)"), "Hi there ok");
    assert_eq!(remove_emoji("sun ☀ and 😀 smile"), "sun  and  smile");
    assert_eq!(clean_for_analysis("  Hello,   WORLD! 😀 "), "hello world");
}

#[test]
fn words_skip_one_byte_words() {
    assert_eq!(extract_words("a bb Я c"), vec!["bb".to_string(), "я".to_string()]);
    assert_eq!(word_count(""), 0);
}

#[test]
fn truncate_words_cuts_and_marks() {
    assert_eq!(truncate_words("one two three four", 2), "one two...");
    assert_eq!(truncate_words("One two", 5), "One two");
    assert_eq!(truncate_words("one two three", 0), "...");
}

#[test]
fn fallback_translation_replaces_known_words() {
    assert_eq!(simple_translate_fallback("Hello! Error here", "RU"), "Привет! Ошибка here");
    assert_eq!(simple_translate_fallback("Спасибо и До свидания", "EN"), "Thank you и Goodbye");
    assert_eq!(simple_translate_fallback("Hello", "DE"), "Hello");
}

#[test]
fn translation_failure_keeps_the_source() {
    let failed = translated_or_source("Hallo", Err(TranslationError::CredentialsMissing));
    assert_eq!(failed, "Hallo");
    assert_eq!(translated_or_source("Hallo", Ok("Hello".to_string())), "Hello");
    assert_eq!(translated_or_source("Hallo", Ok(String::new())), "Hallo");
}

#[test]
fn provider_reply_gives_first_text_or_empty_result() {
    assert!(matches!(translation_from_reply(vec![]), Err(TranslationError::EmptyResult)));
    assert!(matches!(
        translation_from_reply(vec![String::new()]),
        Err(TranslationError::EmptyResult)
    ));
    match translation_from_reply(vec!["Hi".to_string(), "Yo".to_string()]) {
        Ok(t) => assert_eq!(t, "Hi"),
        Err(_) => panic!("expected a translation"),
    }
    assert!(!TranslationError::MalformedResponse("x".to_string()).message().is_empty());
}

#[test]
fn truncate_keeps_character_boundaries() {
    assert_eq!(truncate("hello world", 5), "hello...");
    assert_eq!(truncate("hi", 5), "hi");
    assert_eq!(truncate("Привет", 3), "П...");
}

#[test]
fn sentences_are_trimmed_and_non_empty() {
    assert_eq!(
        split_into_sentences(" One. Two?!  Three "),
        vec!["One".to_string(), "Two".to_string(), "Three".to_string()]
    );
    assert!(split_into_sentences("...").is_empty());
}
