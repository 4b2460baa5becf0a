use bot_core::cache::ResponseCache;
use bot_core::dialog::{DialogContext, SessionStore};
use bot_core::knowledge::{LookupError, Repository};
use bot_core::math::Number;
use bot_core::router::{
    route, skill_answer, Event, Request, Route, Turn, CITY_PROMPT, NO_EXAMPLES, NO_REPOSITORIES,
};
use bot_core::translate::TranslationError;

/// Test doubles for the collaborators, counting the calls they get.
struct Doubles {
    translation_fails: bool,
    lookups: usize,
    weather_calls: usize,
    requests: Vec<String>,
}

impl Doubles {
    fn new() -> Self {
        Doubles { translation_fails: false, lookups: 0, weather_calls: 0, requests: Vec::new() }
    }
}

fn run_turn(
    dialog: &mut DialogContext,
    cache: &mut ResponseCache,
    now: u64,
    input: &str,
    d: &mut Doubles,
) -> String {
    let (mut turn, mut req) = Turn::start(dialog, input);
    for _ in 0..20 {
        let event = match req {
            Request::Reply { text } => return text,
            Request::Translate { text, target } => {
                d.requests.push(format!("translate:{}", target));
                if d.translation_fails {
                    Event::Translated(Err(TranslationError::ProviderUnavailable("down".into())))
                } else {
                    Event::Translated(Ok(text))
                }
            }
            Request::CacheGet { key } => {
                d.requests.push("cache_get".into());
                Event::Cached(cache.get(&key, now))
            }
            Request::CachePut { key, value, ttl_secs } => {
                assert_eq!(ttl_secs, 3600);
                d.requests.push("cache_put".into());
                cache.put(&key, &value, now);
                Event::Stored
            }
            Request::Lookup { title } => {
                d.requests.push("lookup".into());
                d.lookups += 1;
                Event::LookedUp(Ok(format!("📖 **{}**\n\nA systems programming language.", title)))
            }
            Request::Evaluate { expression } => {
                d.requests.push("evaluate".into());
                let v = meval::eval_str(&expression).map_err(|e| e.to_string());
                Event::Evaluated(v.map(|x| Number { bits: x.to_bits(), fixed: format!("{:.6}", x) }))
            }
            Request::Weather { .. } => {
                d.requests.push("weather".into());
                d.weather_calls += 1;
                Event::WeatherReport(Err(LookupError::CredentialsMissing("no key".into())))
            }
            Request::CodeExamples { .. } => {
                d.requests.push("code".into());
                Event::Examples(Ok(vec![Repository {
                    name: "demo".into(),
                    description: "d".into(),
                    url: "u".into(),
                }]))
            }
            Request::Repositories { .. } => {
                d.requests.push("repos".into());
                Event::RepositoriesFound(Err(LookupError::ProviderUnavailable("offline".into())))
            }
        };
        req = turn.advance(dialog, event);
    }
    panic!("the turn did not end");
}

#[test]
fn replies_are_never_empty() {
    let inputs = ["", " ", "?", "weather", "2 + 2", "What is x?", "github", "ok", "Привет",
        "show me code in rust", "blah blah blah blah blah blah blah blah blah blah blah blah"];
    for t in inputs {
        let mut dialog = DialogContext::new();
        let mut cache = ResponseCache::new();
        let mut d = Doubles::new();
        let r = run_turn(&mut dialog, &mut cache, 100, t, &mut d);
        assert!(!r.is_empty(), "empty reply for {:?}", t);
    }
}

#[test]
fn repeated_question_is_answered_from_the_cache() {
    let mut dialog = DialogContext::new();
    let mut cache = ResponseCache::new();
    let mut d = Doubles::new();
    let first = run_turn(&mut dialog, &mut cache, 1_000, "What is Rust?", &mut d);
    assert_eq!(d.lookups, 1);
    let second = run_turn(&mut dialog, &mut cache, 1_000 + 3_599, "What is Rust?", &mut d);
    assert_eq!(second, first);
    assert_eq!(d.lookups, 1);
    let third = run_turn(&mut dialog, &mut cache, 1_000 + 3_600, "What is Rust?", &mut d);
    assert_eq!(third, first);
    assert_eq!(d.lookups, 2);
}

#[test]
fn arithmetic_turn_shows_the_result() {
    let mut dialog = DialogContext::new();
    let mut cache = ResponseCache::new();
    let mut d = Doubles::new();
    let r = run_turn(&mut dialog, &mut cache, 5, "2 + 2 * 3", &mut d);
    assert!(r.contains('8'));
    assert!(d.requests.contains(&"evaluate".to_string()));
}

#[test]
fn weather_without_city_asks_for_one() {
    let mut dialog = DialogContext::new();
    let mut cache = ResponseCache::new();
    let mut d = Doubles::new();
    let r = run_turn(&mut dialog, &mut cache, 5, "weather", &mut d);
    assert_eq!(r, CITY_PROMPT);
    assert_eq!(d.weather_calls, 0);
}

#[test]
fn weather_without_key_gives_the_offline_text() {
    let mut dialog = DialogContext::new();
    let mut cache = ResponseCache::new();
    let mut d = Doubles::new();
    let r = run_turn(&mut dialog, &mut cache, 5, "weather in London", &mut d);
    assert_eq!(d.weather_calls, 1);
    assert!(r.starts_with("🌤️ **Информация о погоде в london**"));
}

#[test]
fn arithmetic_comes_before_weather() {
    assert!(matches!(route("weather 2 + 2"), Route::Arithmetic));
    assert!(matches!(route("what is the weather 2 + 2"), Route::Encyclopedia));
    let mut dialog = DialogContext::new();
    let mut cache = ResponseCache::new();
    let mut d = Doubles::new();
    let r = run_turn(&mut dialog, &mut cache, 5, "weather 2 + 2", &mut d);
    assert!(r.starts_with("❌ Не могу вычислить: **weather 2 + 2**"));
    assert!(d.requests.contains(&"evaluate".to_string()));
    assert_eq!(d.weather_calls, 0);
}

#[test]
fn routes_in_priority_order() {
    assert!(matches!(route("What is Rust?"), Route::Encyclopedia));
    assert!(matches!(route("что такое Rust"), Route::Encyclopedia));
    assert!(matches!(route("weather"), Route::WeatherNoCity));
    match route("weather in Paris") {
        Route::Weather(c) => assert_eq!(c, "paris"),
        _ => panic!("expected a weather route"),
    }
    match route("show me an example in python") {
        Route::Code(l) => assert_eq!(l, "python"),
        _ => panic!("expected a code route"),
    }
    assert!(matches!(route("github please"), Route::Repositories));
    assert!(matches!(route("hello"), Route::Chat));
}

#[test]
fn two_turns_leave_four_ordered_messages() {
    let mut dialog = DialogContext::new();
    let mut cache = ResponseCache::new();
    let mut d = Doubles::new();
    let a1 = run_turn(&mut dialog, &mut cache, 5, "hello", &mut d);
    let a2 = run_turn(&mut dialog, &mut cache, 6, "2 + 3", &mut d);
    let h = &dialog.history;
    assert_eq!(h.len(), 4);
    let who: Vec<&str> = h.iter().map(|m| m.user.as_str()).collect();
    assert_eq!(who, vec!["user", "bot", "user", "bot"]);
    assert_eq!(h[0].text, "hello");
    assert_eq!(h[1].text, a1);
    assert_eq!(h[3].text, a2);
    assert!(h.windows(2).all(|w| w[0].timestamp <= w[1].timestamp));
    assert_eq!(dialog.last_user_input().unwrap().text, "2 + 3");
    assert!(dialog.summary().starts_with("user: hello\nbot: "));
}

#[test]
fn failed_translation_returns_the_untranslated_answer() {
    let mut dialog = DialogContext::new();
    let mut cache = ResponseCache::new();
    let mut d = Doubles::new();
    d.translation_fails = true;
    let input = "Это довольно длинное русское предложение";
    let r = run_turn(&mut dialog, &mut cache, 5, input, &mut d);
    assert_eq!(r, bot_core::chat::generate_simple_response(input));
    assert!(d.requests.iter().any(|x| x.starts_with("translate")));
}

#[test]
fn cache_keeps_the_last_write_until_expiry() {
    let mut cache = ResponseCache::new();
    assert_eq!(cache.get("k", 0), None);
    cache.put("k", "v1", 10);
    cache.put("k", "v2", 20);
    assert_eq!(cache.get("k", 3619), Some("v2".to_string()));
    assert_eq!(cache.get("k", 3620), None);
    cache.put("max", "v", u64::MAX - 1);
    assert_eq!(cache.get("max", u64::MAX - 1), Some("v".to_string()));
}

#[test]
fn finished_turn_repeats_its_reply() {
    let mut dialog = DialogContext::new();
    let (mut turn, req) = Turn::start(&mut dialog, "hello");
    let mut req = req;
    let mut guard = 0;
    while !matches!(req, Request::Reply { .. }) {
        let ev = match req {
            Request::Translate { text, .. } => Event::Translated(Ok(text)),
            _ => Event::Stored,
        };
        req = turn.advance(&mut dialog, ev);
        guard += 1;
        assert!(guard < 10);
    }
    let first = match req {
        Request::Reply { text } => text,
        _ => unreachable!(),
    };
    let again = match turn.advance(&mut dialog, Event::Stored) {
        Request::Reply { text } => text,
        _ => panic!("expected the reply again"),
    };
    assert_eq!(again, first);
    assert_eq!(dialog.history.len(), 2);
}

#[test]
fn sessions_are_kept_per_conversation() {
    let mut store = SessionStore::new();
    let a = store.get_or_create(7);
    store.sessions[a].1.add_message("user", "hi");
    let b = store.get_or_create(8);
    assert_ne!(a, b);
    assert_eq!(store.get_or_create(7), a);
    assert_eq!(store.sessions[a].1.history.len(), 1);
    store.reset(7);
    assert_eq!(store.sessions[store.find(7).unwrap()].1.history.len(), 0);
    assert_eq!(store.find(9), None);
}

#[test]
fn weather_errors_other_than_a_missing_key_are_shown() {
    let route = Route::Weather("atlantis".to_string());
    let shown = skill_answer(
        "weather in atlantis",
        &route,
        Event::WeatherReport(Err(LookupError::NotFound("no such city".into()))),
    );
    assert_eq!(shown, "no such city");
    let offline = skill_answer(
        "weather in atlantis",
        &route,
        Event::WeatherReport(Err(LookupError::RateLimited(String::new()))),
    );
    assert!(offline.starts_with("🌤️ **Информация о погоде в atlantis**"));
    let mismatched = skill_answer("weather in atlantis", &route, Event::Stored);
    assert_eq!(mismatched, offline);
}

#[test]
fn skill_failures_fall_back_to_canned_texts() {
    let r = skill_answer("github", &Route::Repositories, Event::RepositoriesFound(Ok(vec![])));
    assert_eq!(r, NO_EXAMPLES);
    let r = skill_answer(
        "github",
        &Route::Repositories,
        Event::RepositoriesFound(Err(LookupError::RateLimited("slow".into()))),
    );
    assert_eq!(r, NO_REPOSITORIES);
    let r = skill_answer(
        "what is rust",
        &Route::Encyclopedia,
        Event::LookedUp(Ok("No summary found.".into())),
    );
    assert_eq!(r, bot_core::chat::RUST_SUMMARY);
    let r = skill_answer(
        "code in rust",
        &Route::Code("rust".into()),
        Event::Examples(Err(LookupError::NotFound("none".into()))),
    );
    assert_eq!(r, "К сожалению, примеры кода для **rust** сейчас недоступны. Попробуйте позже! 💻");
    let r = skill_answer("2 +", &Route::Arithmetic, Event::Evaluated(Err("bad".into())));
    assert!(r.starts_with("❌ Не могу вычислить: **2 +**"));
}

#[test]
fn cleanup_removes_only_expired_answers() {
    let mut cache = ResponseCache::new();
    cache.put("a", "1", 0);
    cache.put("b", "2", 100);
    assert_eq!(cache.cleanup_expired(3650), 1);
    assert_eq!(cache.get("b", 3650), Some("2".to_string()));
    assert_eq!(cache.get("a", 10), None);
    assert_eq!(cache.cleanup_expired(3650), 0);
    assert_eq!(cache.cleanup_expired(5000), 1);
}
