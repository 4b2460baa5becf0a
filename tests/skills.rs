use bot_core::chat::{generate_fallback_response, generate_simple_response, GREETING, RUST_SUMMARY};
use bot_core::code::{detect_code_query, generate_basic_example, normalize_language_name};
use bot_core::knowledge::{
    article_summary, clean_wikipedia_query, format_code_examples, format_repositories,
    github_search_url, weather_url, Repository,
};
use bot_core::math::{
    clean_math_expression, format_math_result, is_math_expression, solve_with_explanation,
    whole_number, Number,
};
use bot_core::weather::{
    capitalize_first_letter, extract_city_from_query, get_weather_emoji, get_weather_fallback,
    is_weather_query,
};

fn number(x: f64) -> Number {
    Number { bits: x.to_bits(), fixed: format!("{:.6}", x) }
}

fn evaluate(expr: &str) -> Result<Number, String> {
    meval::eval_str(clean_math_expression(expr)).map(number).map_err(|e| e.to_string())
}

#[test]
fn test_clean_query() {
    assert_eq!(clean_wikipedia_query("What is Rust?"), "rust");
    assert_eq!(clean_wikipedia_query("что такое Python"), "python");
    assert_eq!(clean_wikipedia_query("artificial intelligence"), "artificial_intelligence");
    assert_eq!(clean_wikipedia_query("What is AI?"), "artificial_intelligence");
    assert_eq!(clean_wikipedia_query("C++"), "c++");
}

#[test]
fn test_is_math_expression() {
    assert!(is_math_expression("2 + 3"));
    assert!(is_math_expression("sqrt(16)"));
    assert!(is_math_expression("10 * 5"));
    assert!(!is_math_expression("Hello world"));
}

#[test]
fn test_clean_expression() {
    assert_eq!(clean_math_expression("вычисли 2 + 3"), "2 + 3");
    assert_eq!(clean_math_expression("5 плюс 3"), "5+3");
}

#[test]
fn test_is_weather_query() {
    assert!(is_weather_query("Какая погода в Москве?"));
    assert!(is_weather_query("Weather in London"));
    assert!(is_weather_query("температура сегодня"));
    assert!(!is_weather_query("Hello world"));
}

#[test]
fn test_extract_city() {
    assert_eq!(extract_city_from_query("погода в москве"), Some("москве".to_string()));
    assert_eq!(extract_city_from_query("weather in london"), Some("london".to_string()));
    assert_eq!(extract_city_from_query("hello"), None);
}

#[test]
fn math_patterns_use_unicode_digits() {
    assert!(is_math_expression("٢+٣"));
    assert!(!is_math_expression("plus"));
    assert!(is_math_expression("  7 mod 2  "));
}

#[test]
fn arithmetic_renders_integer_results() {
    let s = solve_with_explanation("2 + 2 * 3", evaluate("2 + 2 * 3")).unwrap();
    assert!(s.contains('8'));
    assert_eq!(s, "🧮 **2 + 2 * 3** = **8**\n\n💡 Выполнили сложение чисел.");
}

#[test]
fn verbal_operator_is_evaluated_once_recognised() {
    let s = solve_with_explanation("5 плюс 3", evaluate("5 плюс 3")).unwrap();
    assert!(s.contains('8'));
}

#[test]
fn arithmetic_fractions_and_division() {
    assert_eq!(format_math_result("7 / 2", &number(3.5)), "🧮 **7 / 2** = **3.500000**");
    let s = solve_with_explanation("8 / 2", Ok(number(4.0))).unwrap();
    assert!(s.ends_with("Выполнили деление нацело."));
    let s = solve_with_explanation("7 / 2", Ok(number(3.5))).unwrap();
    assert!(s.ends_with("Выполнили деление с остатком."));
    assert_eq!(format_math_result("-3", &number(-3.0)), "🧮 **-3** = **-3**");
}

#[test]
fn arithmetic_failure_is_an_error() {
    let e = solve_with_explanation("2 +", Err("unexpected end".to_string())).unwrap_err();
    assert_eq!(e, "Ошибка вычисления: unexpected end");
}

#[test]
fn whole_numbers_from_bits() {
    assert_eq!(whole_number(8.0f64.to_bits()), (true, Some(8)));
    assert_eq!(whole_number((-0.0f64).to_bits()), (true, Some(0)));
    assert_eq!(whole_number(2.5f64.to_bits()), (false, None));
    assert_eq!(whole_number(1e15f64.to_bits()), (true, None));
    assert_eq!(whole_number(999_999_999_999_999f64.to_bits()), (true, Some(999_999_999_999_999)));
    assert_eq!(whole_number(f64::INFINITY.to_bits()), (false, None));
    assert_eq!(whole_number(f64::NAN.to_bits()), (false, None));
    assert_eq!(whole_number(1e300f64.to_bits()), (true, None));
}

#[test]
fn city_extraction_edge_cases() {
    assert_eq!(extract_city_from_query("Weather in  Paris  "), Some("paris".to_string()));
    assert_eq!(extract_city_from_query("weather in "), None);
    assert_eq!(extract_city_from_query("weather in\nparis"), None);
    assert_eq!(extract_city_from_query("weather in rome\nand more"), Some("rome".to_string()));
}

#[test]
fn weather_texts() {
    assert_eq!(get_weather_emoji(Some("Rain")), "🌧️");
    assert_eq!(get_weather_emoji(Some("Fog")), "🌫️");
    assert_eq!(get_weather_emoji(None), "🌤️");
    assert_eq!(capitalize_first_letter("ясно"), "Ясно");
    assert_eq!(capitalize_first_letter(""), "");
    assert!(get_weather_fallback("Москва").starts_with("🌤️ **Информация о погоде в Москва**"));
}

#[test]
fn code_queries() {
    assert_eq!(detect_code_query("Show me an example in JS"), Some("javascript".to_string()));
    assert_eq!(detect_code_query("покажи код на python"), Some("python".to_string()));
    assert_eq!(detect_code_query("tutorial about kotlin please"), Some("kotlin".to_string()));
    assert_eq!(detect_code_query("I like rust"), None);
    assert_eq!(normalize_language_name("C++"), "cpp");
    assert_eq!(normalize_language_name("Haskell"), "haskell");
    assert!(generate_basic_example("golang").unwrap().contains("package main"));
    assert_eq!(generate_basic_example("cobol"), None);
}

#[test]
fn canned_answers() {
    assert_eq!(generate_fallback_response("Tell me about Rust"), RUST_SUMMARY);
    assert_eq!(generate_simple_response("Hello there"), GREETING);
    assert_eq!(generate_simple_response("ok"), "Хм, расскажи больше об этом!");
    let long = "a".repeat(60);
    let r = generate_simple_response(&long);
    assert!(r.starts_with(&format!("Понимаю, что ты говоришь о \"{}\"", "a".repeat(40))));
}

#[test]
fn knowledge_texts_and_addresses() {
    assert_eq!(article_summary("Rust", "A language.").unwrap(), "📖 **Rust**\n\nA language.");
    assert!(article_summary("Mercury", "Mercury may refer to: a planet").is_err());
    assert!(article_summary("X", "").is_err());
    assert_eq!(
        github_search_url("rust example", 3),
        "https://api.github.com/search/repositories?q=rust%20example&sort=stars&order=desc&per_page=3"
    );
    assert!(weather_url("Москва", "k").contains("q=%D0%9C%D0%BE%D1%81%D0%BA%D0%B2%D0%B0&appid=k"));
    let repos = vec![
        Repository { name: "a".into(), description: "first".into(), url: "u1".into() },
        Repository { name: "b".into(), description: String::new(), url: "u2".into() },
    ];
    assert_eq!(format_repositories(&repos), "📂 **a**\nfirst\n🔗 u1\n\n📂 **b**\n\n🔗 u2");
    let ex = format_code_examples("rust", &repos);
    assert!(ex.starts_with("🚀 **Примеры кода на RUST:**"));
    assert!(ex.contains("2. 📂 **b**\n   💡 Нет описания"));
    assert!(format_code_examples("go", &vec![]).contains("**GO**"));
}
