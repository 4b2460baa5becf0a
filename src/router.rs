//! The intent router: which skill answers a text, what each skill answers for
//! each outcome of its collaborator, and the per-turn state machine that runs
//! detection, translation, the cache, skill dispatch and localisation.
use vstd::prelude::*;
use crate::cache::CACHE_TTL_SECS;
use crate::chat::{
    fallback_summary, generate_fallback_response, generate_simple_response,
    lemma_fallback_summary_nonempty, lemma_simple_response_nonempty, simple_response,
};
use crate::code::{code_query_language, detect_code_query, normalize_language_name, normalized_language};
use crate::detect::{detect_language, detected};
use crate::dialog::{appended, DialogContext};
use crate::knowledge::{
    article_title, clean_wikipedia_query, error_text, examples_text, format_code_examples,
    format_repositories, repository_list, LookupError, Repository,
};
use crate::math::{
    cleaned_expression, clean_math_expression, is_math_expression, looks_like_math, solution_text,
    solve_with_explanation, Number,
};
use crate::text::{
    chars_of, contains_str, has_prefix, has_sub, lower_of, lowercase, starts_with_str, str_eq,
};
use crate::translate::{kept_or_translated, outcome_view, translated_or_source, TranslationError};
use crate::weather::{
    city_of, extract_city_from_query, get_weather_fallback, has_weather_word, is_weather_query,
    weather_fallback_text,
};

verus! {

/// The skill that answers a working-language text.
pub enum Route {
    Encyclopedia,
    Arithmetic,
    /// A weather question naming this city.
    Weather(String),
    /// A weather question that names no city.
    WeatherNoCity,
    /// A request for code examples in this language.
    Code(String),
    Repositories,
    Chat,
}

/// The text asks what something is.
pub open spec fn asks_encyclopedia(t: Seq<char>) -> bool {
    has_prefix(lower_of(t), "what is"@) || has_sub(lower_of(t), "что такое"@)
}

/// The text asks for repositories or code in general.
pub open spec fn asks_repositories(t: Seq<char>) -> bool {
    let l = lower_of(t);
    has_sub(l, "rust example"@) || has_sub(l, "github"@) || has_sub(l, "code"@)
}

/// `r` is the route of `t`: the first skill, in the fixed order encyclopedia,
/// arithmetic, weather, code examples, repositories, chat, whose trigger fires.
pub open spec fn routed(t: Seq<char>, r: Route) -> bool {
    if asks_encyclopedia(t) {
        r is Encyclopedia
    } else if looks_like_math(t) {
        r is Arithmetic
    } else if has_weather_word(lower_of(t)) {
        match city_of(lower_of(t)) {
            Some(c) => r matches Route::Weather(x) && x@ == c,
            None => r is WeatherNoCity,
        }
    } else if let Some(lang) = code_query_language(lower_of(t)) {
        r matches Route::Code(x) && x@ == lang
    } else if asks_repositories(t) {
        r is Repositories
    } else {
        r is Chat
    }
}

/// Chooses the skill for a working-language text.
pub fn route(text_en: &str) -> (r: Route)
    ensures
        routed(text_en@, r),
{
    let l = lowercase(text_en);
    let v = chars_of(l.as_str());
    if starts_with_str(&v, "what is") || contains_str(&v, "что такое") {
        Route::Encyclopedia
    } else if is_math_expression(text_en) {
        Route::Arithmetic
    } else if is_weather_query(text_en) {
        match extract_city_from_query(text_en) {
            Some(c) => Route::Weather(c),
            None => Route::WeatherNoCity,
        }
    } else if let Some(lang) = detect_code_query(text_en) {
        Route::Code(lang)
    } else if contains_str(&v, "rust example") || contains_str(&v, "github") || contains_str(
        &v,
        "code",
    ) {
        Route::Repositories
    } else {
        Route::Chat
    }
}

/// Skill priority: a text that reads as arithmetic and is no encyclopedic
/// question goes to the arithmetic skill, whatever weather, code or other
/// words it also holds.
pub proof fn lemma_arithmetic_wins(t: Seq<char>, r: Route)
    requires
        looks_like_math(t),
        !asks_encyclopedia(t),
        routed(t, r),
    ensures
        r is Arithmetic,
{
}

/// Skill priority: an encyclopedic question goes to the encyclopedia, whatever
/// else the text holds.
pub proof fn lemma_encyclopedia_first(t: Seq<char>, r: Route)
    requires
        asks_encyclopedia(t),
        routed(t, r),
    ensures
        r is Encyclopedia,
{
}

/// What the turn asks of its collaborators next, or its reply.
pub enum Request {
    Translate { text: String, target: String },
    CacheGet { key: String },
    /// Look up the summary of this encyclopedia article.
    Lookup { title: String },
    /// Evaluate this arithmetic expression.
    Evaluate { expression: String },
    Weather { city: String },
    /// Search repositories of code examples.
    CodeExamples { query: String, limit: u64 },
    /// Search repositories in general.
    Repositories { query: String, limit: u64 },
    /// Cache this working-language answer, for the cache's time to live.
    CachePut { key: String, value: String, ttl_secs: u64 },
    /// The turn is over: send this text to the user.
    Reply { text: String },
}

/// What a collaborator answered.
pub enum Event {
    Translated(Result<String, TranslationError>),
    Cached(Option<String>),
    LookedUp(Result<String, LookupError>),
    /// The evaluator's number, or its error text.
    Evaluated(Result<Number, String>),
    WeatherReport(Result<String, LookupError>),
    Examples(Result<Vec<Repository>, LookupError>),
    RepositoriesFound(Result<Vec<Repository>, LookupError>),
    Stored,
}

pub const CITY_PROMPT: &'static str = "🌤️ Укажите город для получения погоды!\n\nПример: \"Погода в Москве\" или \"Weather in London\" 🏙️";

pub const CANNOT_COMPUTE_OPENING: &'static str = "❌ Не могу вычислить: **";

pub const CANNOT_COMPUTE_CLOSING: &'static str = "**\n\n💡 Проверьте правильность выражения. Поддерживаются: +, -, *, /, ^, sqrt(), sin(), cos() и т.д.";

pub const EXAMPLES_UNAVAILABLE_OPENING: &'static str = "К сожалению, примеры кода для **";

pub const EXAMPLES_UNAVAILABLE_CLOSING: &'static str = "** сейчас недоступны. Попробуйте позже! 💻";

pub const NO_EXAMPLES: &'static str = "К сожалению, примеры кода сейчас недоступны. Попробуйте позже! 💻";

pub const NO_REPOSITORIES: &'static str = "Извините, сейчас не могу найти репозитории. Попробуйте позже! 🔧";

pub const NO_SUMMARY: &'static str = "No summary found.";

/// The repository query of a request for code examples.
pub open spec fn examples_query(lang: Seq<char>) -> Seq<char> {
    normalized_language(lang) + " example tutorial"@
}

/// The working-language answer of a skill, for its collaborator's outcome;
/// an event of another kind counts as a failure of the collaborator.
pub open spec fn skill_answer_text(text_en: Seq<char>, route: Route, event: Event) -> Seq<char> {
    match route {
        Route::Encyclopedia => match event {
            Event::LookedUp(Ok(s)) => if s@.len() > 0 && s@ != NO_SUMMARY@ {
                s@
            } else {
                fallback_summary(lower_of(text_en))
            },
            _ => fallback_summary(lower_of(text_en)),
        },
        Route::Arithmetic => match event {
            Event::Evaluated(Ok(n)) => solution_text(text_en, n),
            _ => CANNOT_COMPUTE_OPENING@ + text_en + CANNOT_COMPUTE_CLOSING@,
        },
        Route::Weather(city) => match event {
            Event::WeatherReport(Ok(w)) => if w@.len() > 0 {
                w@
            } else {
                weather_fallback_text(city@)
            },
            Event::WeatherReport(Err(e)) => if !(e is CredentialsMissing) && error_text(e).len() > 0 {
                error_text(e)
            } else {
                weather_fallback_text(city@)
            },
            _ => weather_fallback_text(city@),
        },
        Route::Code(lang) => match event {
            Event::Examples(Ok(rs)) => examples_text(normalized_language(lang@), rs@),
            _ => EXAMPLES_UNAVAILABLE_OPENING@ + lang@ + EXAMPLES_UNAVAILABLE_CLOSING@,
        },
        Route::Repositories => match event {
            Event::RepositoriesFound(Ok(rs)) => if rs@.len() > 0 {
                repository_list(rs@)
            } else {
                NO_EXAMPLES@
            },
            _ => NO_REPOSITORIES@,
        },
        Route::WeatherNoCity => CITY_PROMPT@,
        Route::Chat => simple_response(text_en),
    }
}

/// The working-language answer of a skill for its collaborator's outcome.
pub fn skill_answer(text_en: &str, route: &Route, event: Event) -> (r: String)
    ensures
        r@ == skill_answer_text(text_en@, *route, event),
{
    match route {
        Route::Encyclopedia => match event {
            Event::LookedUp(Ok(s)) => {
                if s.as_str().unicode_len() > 0 && !str_eq(s.as_str(), NO_SUMMARY) {
                    s
                } else {
                    generate_fallback_response(text_en)
                }
            },
            _ => generate_fallback_response(text_en),
        },
        Route::Arithmetic => match event {
            Event::Evaluated(Ok(n)) => {
                match solve_with_explanation(text_en, Ok(n)) {
                    Ok(s) => s,
                    Err(s) => s,
                }
            },
            _ => {
                let mut out = CANNOT_COMPUTE_OPENING.to_string();
                out.append(text_en);
                out.append(CANNOT_COMPUTE_CLOSING);
                out
            },
        },
        Route::Weather(city) => match event {
            Event::WeatherReport(Ok(w)) => {
                if w.as_str().unicode_len() > 0 {
                    w
                } else {
                    get_weather_fallback(city.as_str())
                }
            },
            Event::WeatherReport(Err(e)) => {
                let missing_key = match e {
                    LookupError::CredentialsMissing(_) => true,
                    _ => false,
                };
                let m = e.message();
                if !missing_key && m.unicode_len() > 0 {
                    m.to_string()
                } else {
                    get_weather_fallback(city.as_str())
                }
            },
            _ => get_weather_fallback(city.as_str()),
        },
        Route::Code(lang) => match event {
            Event::Examples(Ok(rs)) => {
                let n = normalize_language_name(lang.as_str());
                format_code_examples(n.as_str(), &rs)
            },
            _ => {
                let mut out = EXAMPLES_UNAVAILABLE_OPENING.to_string();
                out.append(lang.as_str());
                out.append(EXAMPLES_UNAVAILABLE_CLOSING);
                out
            },
        },
        Route::Repositories => match event {
            Event::RepositoriesFound(Ok(rs)) => {
                if rs.len() > 0 {
                    format_repositories(&rs)
                } else {
                    NO_EXAMPLES.to_string()
                }
            },
            _ => NO_REPOSITORIES.to_string(),
        },
        Route::WeatherNoCity => CITY_PROMPT.to_string(),
        Route::Chat => generate_simple_response(text_en),
    }
}

/// Where a turn stands.
pub enum Phase {
    /// Waiting for the input's translation into English.
    ToEnglish,
    /// Waiting for the cache's answer to the working-language text.
    Probe,
    /// Waiting for the chosen skill's collaborator.
    Skill,
    /// Waiting for the cache to store the fresh answer.
    Store,
    /// Waiting for the answer's translation into the user's language.
    Localize,
    /// The reply has been given.
    Done,
}

/// The order of the phases: every step of a turn moves it to a later phase, so
/// a turn ends after at most five steps.
pub open spec fn phase_rank(p: Phase) -> nat {
    match p {
        Phase::ToEnglish => 0,
        Phase::Probe => 1,
        Phase::Skill => 2,
        Phase::Store => 3,
        Phase::Localize => 4,
        Phase::Done => 5,
    }
}

/// One turn of a conversation, from the user's text to the reply.
pub struct Turn {
    /// The user's language, as a two-letter code.
    pub lang: String,
    /// The user's text.
    pub input: String,
    /// The text in the working language.
    pub text_en: String,
    /// The skill chosen on a cache miss.
    pub route: Route,
    /// The answer in the working language.
    pub answer_en: String,
    /// The reply given to the user.
    pub reply: String,
    pub phase: Phase,
}

/// The language of a text, English where none is detected.
pub open spec fn turn_language(input: Seq<char>) -> Seq<char> {
    match detected(input) {
        Some(c) => c,
        None => "EN"@,
    }
}

/// The text that goes on after the translation step of the input.
pub open spec fn english_text(input: Seq<char>, event: Event) -> Seq<char> {
    match event {
        Event::Translated(o) => kept_or_translated(input, outcome_view(o)),
        _ => input,
    }
}

/// A cache answer that counts as a hit: present and not empty.
pub open spec fn cache_hit(event: Event) -> Option<Seq<char>> {
    match event {
        Event::Cached(Some(v)) => if v@.len() > 0 {
            Some(v@)
        } else {
            None
        },
        _ => None,
    }
}

/// The reply after the translation step of the answer.
pub open spec fn localized_text(answer_en: Seq<char>, event: Event) -> Seq<char> {
    match event {
        Event::Translated(o) => kept_or_translated(answer_en, outcome_view(o)),
        _ => answer_en,
    }
}

/// The request that a route makes of its collaborator, or, for a route that
/// needs none, the request to cache its answer.
pub open spec fn dispatched(t: Turn, r: Request) -> bool {
    match t.route {
        Route::Encyclopedia => r matches Request::Lookup { title } && title@ == article_title(
            t.text_en@,
        ),
        Route::Arithmetic => r matches Request::Evaluate { expression } && expression@
            == cleaned_expression(t.text_en@),
        Route::Weather(city) => r matches Request::Weather { city: c } && c@ == city@,
        Route::Code(lang) => r matches Request::CodeExamples { query, limit } && query@
            == examples_query(lang@) && limit == 5,
        Route::Repositories => r matches Request::Repositories { query, limit } && query@
            == "rust example"@ && limit == 3,
        Route::WeatherNoCity | Route::Chat => stores(t, r),
    }
}

/// `r` caches the turn's working-language answer under its working-language text.
pub open spec fn stores(t: Turn, r: Request) -> bool {
    r matches Request::CachePut { key, value, ttl_secs } && key@ == t.text_en@ && value@
        == t.answer_en@ && ttl_secs == CACHE_TTL_SECS
}

/// `r` replies `text`, which was added to the history as the assistant's message.
pub open spec fn replied(
    before: Seq<crate::dialog::Message>,
    after: Seq<crate::dialog::Message>,
    t: Turn,
    r: Request,
    text: Seq<char>,
) -> bool {
    &&& appended(before, after, "bot"@, text)
    &&& r matches Request::Reply { text: x } && x@ == text
    &&& t.reply@ == text
    &&& t.phase is Done
}

/// The step after the working-language answer is known: the reply where the
/// user writes English, else the request to translate the answer.
pub open spec fn localizes(
    before: Seq<crate::dialog::Message>,
    after: Seq<crate::dialog::Message>,
    t: Turn,
    r: Request,
) -> bool {
    if t.lang@ == "EN"@ {
        replied(before, after, t, r, t.answer_en@)
    } else {
        &&& after == before
        &&& r matches Request::Translate { text, target } && text@ == t.answer_en@ && target@
            == t.lang@
        &&& t.phase is Localize
    }
}

impl Turn {
    /// Answers that are to be sent are never empty.
    pub open spec fn wf(&self) -> bool {
        &&& (self.phase is Store || self.phase is Localize || self.phase is Done)
            ==> self.answer_en@.len() > 0
        &&& self.phase is Done ==> self.reply@.len() > 0
    }

    /// Starts a turn on the user's text: records it in the history, detects its
    /// language, and asks for its translation into English, or, for English
    /// text, for the cache's answer.
    pub fn start(dialog: &mut DialogContext, input: &str) -> (r: (Turn, Request))
        ensures
            appended(old(dialog).history@, final(dialog).history@, "user"@, input@),
            r.0.wf(),
            r.0.input@ == input@,
            r.0.lang@ == turn_language(input@),
            phase_rank(r.0.phase) <= 1,
            r.0.lang@ == "EN"@ ==> r.0.phase is Probe && r.0.text_en@ == input@ && (
            r.1 matches Request::CacheGet { key } && key@ == input@),
            r.0.lang@ != "EN"@ ==> r.0.phase is ToEnglish && (
            r.1 matches Request::Translate { text, target } && text@ == input@ && target@ == "EN"@),
    {
        dialog.add_message("user", input);
        let lang = match detect_language(input) {
            Some(c) => c,
            None => "EN".to_string(),
        };
        let mut t = Turn {
            lang,
            input: input.to_string(),
            text_en: input.to_string(),
            route: Route::Chat,
            answer_en: String::new(),
            reply: String::new(),
            phase: Phase::Probe,
        };
        if str_eq(t.lang.as_str(), "EN") {
            (t, Request::CacheGet { key: input.to_string() })
        } else {
            t.phase = Phase::ToEnglish;
            (t, Request::Translate { text: input.to_string(), target: "EN".to_string() })
        }
    }

    fn commit(&mut self, dialog: &mut DialogContext, text: String) -> (r: Request)
        requires
            text@.len() > 0,
            old(self).answer_en@.len() > 0,
        ensures
            replied(old(dialog).history@, final(dialog).history@, *final(self), r, text@),
            final(self).wf(),
            final(self).lang == old(self).lang,
            final(self).input == old(self).input,
            final(self).text_en == old(self).text_en,
            final(self).answer_en == old(self).answer_en,
    {
        dialog.add_message("bot", text.as_str());
        self.reply = text.clone();
        self.phase = Phase::Done;
        Request::Reply { text }
    }

    fn localize(&mut self, dialog: &mut DialogContext) -> (r: Request)
        requires
            old(self).answer_en@.len() > 0,
        ensures
            localizes(old(dialog).history@, final(dialog).history@, *final(self), r),
            final(self).wf(),
            final(self).lang == old(self).lang,
            final(self).input == old(self).input,
            final(self).text_en == old(self).text_en,
            final(self).answer_en == old(self).answer_en,
    {
        if str_eq(self.lang.as_str(), "EN") {
            let a = self.answer_en.clone();
            self.commit(dialog, a)
        } else {
            self.phase = Phase::Localize;
            Request::Translate { text: self.answer_en.clone(), target: self.lang.clone() }
        }
    }

    fn dispatch(&mut self) -> (r: Request)
        ensures
            routed(old(self).text_en@, final(self).route),
            dispatched(*final(self), r),
            final(self).wf(),
            (final(self).route is WeatherNoCity || final(self).route is Chat) ==> final(self).phase is Store
                && final(self).answer_en@ == skill_answer_text(
                final(self).text_en@,
                final(self).route,
                Event::Stored,
            ),
            !(final(self).route is WeatherNoCity || final(self).route is Chat) ==> final(self).phase is Skill,
            final(self).lang == old(self).lang,
            final(self).input == old(self).input,
            final(self).text_en == old(self).text_en,
    {
        let route = route(self.text_en.as_str());
        self.route = route;
        match &self.route {
            Route::Encyclopedia => {
                self.phase = Phase::Skill;
                Request::Lookup { title: clean_wikipedia_query(self.text_en.as_str()) }
            },
            Route::Arithmetic => {
                self.phase = Phase::Skill;
                Request::Evaluate { expression: clean_math_expression(self.text_en.as_str()) }
            },
            Route::Weather(city) => {
                let c = city.clone();
                self.phase = Phase::Skill;
                Request::Weather { city: c }
            },
            Route::Code(lang) => {
                let mut q = normalize_language_name(lang.as_str());
                q.append(" example tutorial");
                self.phase = Phase::Skill;
                Request::CodeExamples { query: q, limit: 5 }
            },
            Route::Repositories => {
                self.phase = Phase::Skill;
                Request::Repositories { query: "rust example".to_string(), limit: 3 }
            },
            Route::WeatherNoCity | Route::Chat => {
                let a = skill_answer(self.text_en.as_str(), &self.route, Event::Stored);
                proof {
                    lemma_skill_answer_nonempty(self.text_en@, self.route, Event::Stored);
                }
                self.answer_en = a;
                self.phase = Phase::Store;
                Request::CachePut {
                    key: self.text_en.clone(),
                    value: self.answer_en.clone(),
                    ttl_secs: CACHE_TTL_SECS,
                }
            },
        }
    }
}

} // verus!

verus! {

proof fn lemma_repository_list_nonempty(rs: Seq<Repository>)
    requires
        rs.len() > 0,
    ensures
        repository_list(rs).len() > 0,
    decreases rs.len(),
{
    reveal_strlit("📂 **");
    if rs.len() > 1 {
        lemma_repository_list_nonempty(rs.drop_last());
    }
}

/// Every skill answer is a non-empty text, whatever its collaborator returned.
pub proof fn lemma_skill_answer_nonempty(text_en: Seq<char>, route: Route, event: Event)
    ensures
        skill_answer_text(text_en, route, event).len() > 0,
{
    lemma_fallback_summary_nonempty(lower_of(text_en));
    lemma_simple_response_nonempty(text_en);
    reveal_strlit("🌤️ Укажите город для получения погоды!\n\nПример: \"Погода в Москве\" или \"Weather in London\" 🏙️");
    reveal_strlit("❌ Не могу вычислить: **");
    reveal_strlit("К сожалению, примеры кода для **");
    reveal_strlit("К сожалению, примеры кода сейчас недоступны. Попробуйте позже! 💻");
    reveal_strlit("Извините, сейчас не могу найти репозитории. Попробуйте позже! 🔧");
    reveal_strlit("🧮 **");
    reveal_strlit("🌤️ **Информация о погоде в ");
    reveal_strlit("❌ Примеры кода для **");
    reveal_strlit("🚀 **Примеры кода на ");
    match route {
        Route::Repositories => match event {
            Event::RepositoriesFound(Ok(rs)) => if rs@.len() > 0 {
                lemma_repository_list_nonempty(rs@);
            },
            _ => {},
        },
        _ => {},
    }
}

impl Turn {
    /// Takes the collaborator's answer to the last request and returns the next
    /// request; a reply ends the turn. An event of another kind than the one the
    /// phase waits for counts as a failure of that collaborator.
    pub fn advance(&mut self, dialog: &mut DialogContext, event: Event) -> (r: Request)
        requires
            old(self).wf(),
        ensures
            final(self).wf(),
            final(self).lang == old(self).lang,
            final(self).input == old(self).input,
            r matches Request::Reply { text } ==> text@.len() > 0,
            old(self).phase is Done || phase_rank(final(self).phase) > phase_rank(old(self).phase),
            final(self).phase is Done <==> r is Reply,
            old(self).phase is ToEnglish ==> {
                &&& final(self).text_en@ == english_text(old(self).input@, event)
                &&& final(self).phase is Probe
                &&& final(dialog).history@ == old(dialog).history@
                &&& r matches Request::CacheGet { key } && key@ == final(self).text_en@
            },
            (old(self).phase is Probe && cache_hit(event) is Some) ==> {
                &&& final(self).text_en == old(self).text_en
                &&& final(self).answer_en@ == cache_hit(event)->0
                &&& localizes(old(dialog).history@, final(dialog).history@, *final(self), r)
            },
            (old(self).phase is Probe && cache_hit(event) is None) ==> {
                &&& final(self).text_en == old(self).text_en
                &&& final(dialog).history@ == old(dialog).history@
                &&& routed(old(self).text_en@, final(self).route)
                &&& dispatched(*final(self), r)
                &&& (final(self).route is WeatherNoCity || final(self).route is Chat) ==> (
                final(self).phase is Store && final(self).answer_en@ == skill_answer_text(
                    final(self).text_en@,
                    final(self).route,
                    event,
                ))
                &&& !(final(self).route is WeatherNoCity || final(self).route is Chat)
                    ==> final(self).phase is Skill
            },
            old(self).phase is Skill ==> {
                &&& final(self).text_en == old(self).text_en
                &&& final(dialog).history@ == old(dialog).history@
                &&& final(self).answer_en@ == skill_answer_text(
                    old(self).text_en@,
                    old(self).route,
                    event,
                )
                &&& stores(*final(self), r)
                &&& final(self).phase is Store
            },
            old(self).phase is Store ==> {
                &&& final(self).text_en == old(self).text_en
                &&& final(self).answer_en == old(self).answer_en
                &&& localizes(old(dialog).history@, final(dialog).history@, *final(self), r)
            },
            old(self).phase is Localize ==> replied(
                old(dialog).history@,
                final(dialog).history@,
                *final(self),
                r,
                localized_text(old(self).answer_en@, event),
            ),
            old(self).phase is Done ==> {
                &&& final(dialog).history@ == old(dialog).history@
                &&& final(self).phase is Done
                &&& r matches Request::Reply { text } && text@ == old(self).reply@
            },
    {
        match self.phase {
            Phase::ToEnglish => {
                let text_en = match event {
                    Event::Translated(o) => translated_or_source(self.input.as_str(), o),
                    _ => self.input.clone(),
                };
                self.text_en = text_en;
                self.phase = Phase::Probe;
                Request::CacheGet { key: self.text_en.clone() }
            },
            Phase::Probe => {
                let ghost ev = event;
                match event {
                    Event::Cached(Some(v)) => {
                        if v.as_str().unicode_len() > 0 {
                            self.answer_en = v;
                            self.localize(dialog)
                        } else {
                            let r = self.dispatch();
                            proof {
                                if self.route is WeatherNoCity || self.route is Chat {
                                    assert(skill_answer_text(self.text_en@, self.route, ev)
                                        == skill_answer_text(self.text_en@, self.route, Event::Stored));
                                }
                            }
                            r
                        }
                    },
                    _ => {
                        let r = self.dispatch();
                        proof {
                            if self.route is WeatherNoCity || self.route is Chat {
                                assert(skill_answer_text(self.text_en@, self.route, ev)
                                    == skill_answer_text(self.text_en@, self.route, Event::Stored));
                            }
                        }
                        r
                    },
                }
            },
            Phase::Skill => {
                let ghost ev = event;
                let a = skill_answer(self.text_en.as_str(), &self.route, event);
                proof {
                    lemma_skill_answer_nonempty(self.text_en@, self.route, ev);
                }
                self.answer_en = a;
                self.phase = Phase::Store;
                Request::CachePut {
                    key: self.text_en.clone(),
                    value: self.answer_en.clone(),
                    ttl_secs: CACHE_TTL_SECS,
                }
            },
            Phase::Store => self.localize(dialog),
            Phase::Localize => {
                let text = match event {
                    Event::Translated(o) => translated_or_source(self.answer_en.as_str(), o),
                    _ => self.answer_en.clone(),
                };
                self.commit(dialog, text)
            },
            Phase::Done => Request::Reply { text: self.reply.clone() },
        }
    }
}

/// A repeated question is answered from the cache: once `value` has been cached
/// for the working-language text `key` at time `now`, a lookup of `key` before the
/// entry expires yields `value`; and a turn in English whose cache probe yields a
/// non-empty answer replies with exactly that answer, asking no skill for it.
pub proof fn lemma_cache_hit_replayed(
    m: Map<Seq<char>, (Seq<char>, u64)>,
    key: Seq<char>,
    value: Seq<char>,
    now: u64,
    t: u64,
    before: Seq<crate::dialog::Message>,
    after: Seq<crate::dialog::Message>,
    turn: Turn,
    r: Request,
)
    requires
        now <= t < crate::cache::expiry(now),
        value.len() > 0,
        turn.lang@ == "EN"@,
        turn.answer_en@ == value,
        localizes(before, after, turn, r),
    ensures
        crate::cache::cached_at(m.insert(key, (value, crate::cache::expiry(now))), key, t) == Some(
            value,
        ),
        r matches Request::Reply { text } && text@ == value,
        !(r is Lookup || r is Evaluate || r is Weather || r is CodeExamples || r is Repositories),
{
    crate::cache::lemma_cache_round_trip(m, key, value, now, t);
}

/// A failed translation degrades to the untranslated text: when translating the
/// input fails, the turn goes on with the input as it is, and when translating
/// the answer fails, the reply is the working-language answer.
pub proof fn lemma_translation_failure_keeps_text(
    input: Seq<char>,
    answer_en: Seq<char>,
    e: TranslationError,
)
    ensures
        english_text(input, Event::Translated(Err(e))) == input,
        localized_text(answer_en, Event::Translated(Err(e))) == answer_en,
{
}

} // verus!
