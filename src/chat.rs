//! Canned answers: the encyclopedia fallback and the chit-chat decision tree.
use vstd::prelude::*;
use crate::normalize::{byte_len, byte_length, clip, clip_bytes};
use crate::text::{chars_of, contains_str, has_sub, lower_of, lowercase};

verus! {

pub const RUST_SUMMARY: &'static str = "🦀 **Rust** - это системный язык программирования, известный своей безопасностью памяти и высокой производительностью. Rust используется для создания операционных систем, веб-серверов, блокчейна и многого другого!\n\nК сожалению, подробную информацию из Wikipedia сейчас получить не удалось, но основы я знаю! 😊";

pub const AI_SUMMARY: &'static str = "🤖 **Искусственный интеллект (ИИ)** - это область компьютерных наук, которая создает системы, способные выполнять задачи, обычно требующие человеческого интеллекта, такие как распознавание речи, принятие решений и обучение.\n\nИзвините, что не могу дать более подробную информацию из Wikipedia прямо сейчас! 🔧";

pub const PROGRAMMING_SUMMARY: &'static str = "💻 **Программирование** - это процесс создания компьютерных программ с помощью языков программирования. Это включает в себя написание кода, отладку и тестирование программного обеспечения.\n\nХотя точную информацию из Wikipedia сейчас получить не удалось, основы я могу объяснить! 😊";

pub const GENERIC_SUMMARY: &'static str = "🤔 Интересный вопрос! К сожалению, сейчас не могу найти подробную информацию из внешних источников, но попробуйте спросить более конкретно - например, о программировании, технологиях или науке. Возможно, у меня есть базовые знания по этой теме! 💡";

/// The encyclopedia answer used when the lookup gives nothing, chosen by the
/// topic words in the lowercased query.
pub open spec fn fallback_summary(l: Seq<char>) -> Seq<char> {
    if has_sub(l, "rust"@) {
        RUST_SUMMARY@
    } else if has_sub(l, "artificial intelligence"@) || has_sub(l, "ai"@) {
        AI_SUMMARY@
    } else if has_sub(l, "programming"@) || has_sub(l, "программирование"@) {
        PROGRAMMING_SUMMARY@
    } else {
        GENERIC_SUMMARY@
    }
}

/// The answer to an encyclopedic question when the lookup gives nothing.
pub fn generate_fallback_response(query: &str) -> (r: String)
    ensures
        r@ == fallback_summary(lower_of(query@)),
{
    let l = lowercase(query);
    let v = chars_of(l.as_str());
    if contains_str(&v, "rust") {
        RUST_SUMMARY.to_string()
    } else if contains_str(&v, "artificial intelligence") || contains_str(&v, "ai") {
        AI_SUMMARY.to_string()
    } else if contains_str(&v, "programming") || contains_str(&v, "программирование") {
        PROGRAMMING_SUMMARY.to_string()
    } else {
        GENERIC_SUMMARY.to_string()
    }
}

pub const GREETING: &'static str = "👋 Привет! Как дела? О чём поговорим?";

pub const WELLBEING: &'static str = "Отлично! Готов помочь с любыми вопросами. Что тебя интересует? 😊";

pub const WELCOME: &'static str = "Пожалуйста! Рад был помочь! Есть ещё вопросы? 😊";

pub const FAREWELL: &'static str = "До свидания! Удачного дня! Обращайся, если что-то понадобится! 👋";

pub const ABOUT: &'static str = "Я Auraya - умный ИИ-ассистент! 🤖 Могу помочь с поиском информации, ответить на вопросы о программировании, найти репозитории на GitHub, решить математические задачи, узнать погоду и многое другое. Чем могу быть полезен?";

pub const HELP: &'static str = "Я умею:\n• 🔍 Искать информацию в Wikipedia\n• 💻 Находить репозитории на GitHub\n• 🧮 Решать математические задачи\n• 🌤️ Узнавать погоду в городах\n• 💡 Показывать примеры кода\n• 🌍 Переводить тексты\n• 💬 Поддерживать диалог на разных языках\n\nПросто задавай вопросы или используй команды /help!";

pub const SHORT_0: &'static str = "Интересно! Расскажи подробнее 🤔";

pub const SHORT_1: &'static str = "Понял! А что именно тебя интересует?";

pub const SHORT_2: &'static str = "Хм, расскажи больше об этом!";

pub const SHORT_3: &'static str = "Интригующе! Продолжай 😊";

pub const QUESTION: &'static str = "Хороший вопрос! 🤔 Попробуй спросить более конкретно:\n\n• 📖 \"Что такое Rust?\" - поиск в Wikipedia\n• 🧮 \"2 + 2 * 3\" - математические вычисления\n• 🌤️ \"Погода в Москве\" - прогноз погоды\n• 💻 \"Примеры кода на Python\" - поиск репозиториев\n\nЯ постараюсь найти информацию!";

pub const LOVE: &'static str = "Приятно слышать! 😊 А что именно тебя вдохновляет?";

pub const HATE: &'static str = "Понимаю, бывают сложные моменты. Может, поговорим о чём-то более позитивном? 🌟";

pub const WEATHER_HINT: &'static str = "🌤️ Хочешь узнать погоду? Скажи мне город!\n\nПример: \"Погода в Москве\" или \"Weather in London\" 🏙️";

pub const TIME: &'static str = "Время лучше проверить на своём устройстве! ⏰ А у меня есть время помочь тебе с любыми вопросами!";

pub const LEARNING: &'static str = "Обучение - это здорово! 📚 Что хочешь изучить?\n\n• 💻 Программирование - покажу примеры кода\n• 🧮 Математика - решу задачи\n• 🌍 Технологии - найдю информацию\n\nПросто спроси конкретно!";

pub const LONG_OPENING: &'static str = "Понимаю, что ты говоришь о \"";

pub const LONG_CLOSING: &'static str = "\". Это интересная тема! 🤔 Попробуй задать более конкретный вопрос - возможно, смогу помочь с:\n\n• 📖 Поиском информации\n• 🧮 Вычислениями\n• 💻 Примерами кода\n• 🌤️ Погодой";

pub const GENERAL_0: &'static str = "Интересно! Могу помочь с поиском информации, вычислениями или примерами кода 🤔";

pub const GENERAL_1: &'static str = "Понял тебя! Попробуй спросить о погоде, математике или программировании 😊";

pub const GENERAL_2: &'static str = "Хм, интригующая тема! Можешь задать более конкретный вопрос? 💡";

pub const GENERAL_3: &'static str = "Это любопытно! Давай обсудим конкретные детали 🚀";

/// The variant for short messages, by the message's byte length modulo four.
pub open spec fn short_variant(k: int) -> Seq<char> {
    if k == 0 {
        SHORT_0@
    } else if k == 1 {
        SHORT_1@
    } else if k == 2 {
        SHORT_2@
    } else {
        SHORT_3@
    }
}

/// The general variant, by the message's byte length modulo four.
pub open spec fn general_variant(k: int) -> Seq<char> {
    if k == 0 {
        GENERAL_0@
    } else if k == 1 {
        GENERAL_1@
    } else if k == 2 {
        GENERAL_2@
    } else {
        GENERAL_3@
    }
}

/// The chit-chat answer to `input`: the first bucket, in a fixed order, whose
/// words occur in the lowercased input; the short- and long-message rules
/// measure the text in UTF-8 bytes, and a long message is quoted by its longest
/// head of at most forty bytes that ends at a character boundary.
pub open spec fn simple_response(input: Seq<char>) -> Seq<char> {
    let l = lower_of(input);
    if has_sub(l, "hello"@) || has_sub(l, "привет"@) || has_sub(l, "hi"@) {
        GREETING@
    } else if has_sub(l, "how are you"@) || has_sub(l, "как дела"@) {
        WELLBEING@
    } else if has_sub(l, "thank"@) || has_sub(l, "спасибо"@) {
        WELCOME@
    } else if has_sub(l, "bye"@) || has_sub(l, "пока"@) || has_sub(l, "до свидания"@) {
        FAREWELL@
    } else if has_sub(l, "what are you"@) || has_sub(l, "кто ты"@) || has_sub(l, "что ты"@) {
        ABOUT@
    } else if has_sub(l, "help"@) || has_sub(l, "помощь"@) || has_sub(l, "что умеешь"@) {
        HELP@
    } else if byte_len(l) < 10 && !(has_sub(l, "?"@) || has_sub(l, "!"@)) {
        short_variant(byte_len(input) as int % 4)
    } else if has_sub(l, "?"@) || has_sub(l, "как"@) || has_sub(l, "что"@) || has_sub(l, "where"@)
        || has_sub(l, "how"@) || has_sub(l, "what"@) {
        QUESTION@
    } else if has_sub(l, "love"@) || has_sub(l, "люблю"@) {
        LOVE@
    } else if has_sub(l, "hate"@) || has_sub(l, "ненавижу"@) {
        HATE@
    } else if has_sub(l, "weather"@) || has_sub(l, "погода"@) {
        WEATHER_HINT@
    } else if has_sub(l, "time"@) || has_sub(l, "время"@) {
        TIME@
    } else if has_sub(l, "learn"@) || has_sub(l, "учить"@) || has_sub(l, "изучать"@) {
        LEARNING@
    } else if byte_len(input) > 50 {
        LONG_OPENING@ + clip(input, 40) + LONG_CLOSING@
    } else {
        general_variant(byte_len(input) as int % 4)
    }
}

fn short_variant_exec(k: u128) -> (r: String)
    requires
        k < 4,
    ensures
        r@ == short_variant(k as int),
{
    if k == 0 {
        SHORT_0.to_string()
    } else if k == 1 {
        SHORT_1.to_string()
    } else if k == 2 {
        SHORT_2.to_string()
    } else {
        SHORT_3.to_string()
    }
}

fn general_variant_exec(k: u128) -> (r: String)
    requires
        k < 4,
    ensures
        r@ == general_variant(k as int),
{
    if k == 0 {
        GENERAL_0.to_string()
    } else if k == 1 {
        GENERAL_1.to_string()
    } else if k == 2 {
        GENERAL_2.to_string()
    } else {
        GENERAL_3.to_string()
    }
}

/// Answers small talk with a canned text.
pub fn generate_simple_response(input: &str) -> (r: String)
    ensures
        r@ == simple_response(input@),
{
    let l = lowercase(input);
    let v = chars_of(l.as_str());
    let iv = chars_of(input);
    let input_len = byte_length(&iv);
    if contains_str(&v, "hello") || contains_str(&v, "привет") || contains_str(&v, "hi") {
        GREETING.to_string()
    } else if contains_str(&v, "how are you") || contains_str(&v, "как дела") {
        WELLBEING.to_string()
    } else if contains_str(&v, "thank") || contains_str(&v, "спасибо") {
        WELCOME.to_string()
    } else if contains_str(&v, "bye") || contains_str(&v, "пока") || contains_str(
        &v,
        "до свидания",
    ) {
        FAREWELL.to_string()
    } else if contains_str(&v, "what are you") || contains_str(&v, "кто ты") || contains_str(
        &v,
        "что ты",
    ) {
        ABOUT.to_string()
    } else if contains_str(&v, "help") || contains_str(&v, "помощь") || contains_str(
        &v,
        "что умеешь",
    ) {
        HELP.to_string()
    } else if byte_length(&v) < 10 && !(contains_str(&v, "?") || contains_str(&v, "!")) {
        short_variant_exec(input_len % 4)
    } else if contains_str(&v, "?") || contains_str(&v, "как") || contains_str(&v, "что")
        || contains_str(&v, "where") || contains_str(&v, "how") || contains_str(&v, "what") {
        QUESTION.to_string()
    } else if contains_str(&v, "love") || contains_str(&v, "люблю") {
        LOVE.to_string()
    } else if contains_str(&v, "hate") || contains_str(&v, "ненавижу") {
        HATE.to_string()
    } else if contains_str(&v, "weather") || contains_str(&v, "погода") {
        WEATHER_HINT.to_string()
    } else if contains_str(&v, "time") || contains_str(&v, "время") {
        TIME.to_string()
    } else if contains_str(&v, "learn") || contains_str(&v, "учить") || contains_str(
        &v,
        "изучать",
    ) {
        LEARNING.to_string()
    } else if input_len > 50 {
        let mut out = LONG_OPENING.to_string();
        let head = clip_bytes(input, 40);
        out.append(head.as_str());
        out.append(LONG_CLOSING);
        out
    } else {
        general_variant_exec(input_len % 4)
    }
}

} // verus!

verus! {

/// The encyclopedia fallback is never empty.
pub proof fn lemma_fallback_summary_nonempty(l: Seq<char>)
    ensures
        fallback_summary(l).len() > 0,
{
    reveal_strlit("🦀 **Rust** - это системный язык программирования, известный своей безопасностью памяти и высокой производительностью. Rust используется для создания операционных систем, веб-серверов, блокчейна и многого другого!\n\nК сожалению, подробную информацию из Wikipedia сейчас получить не удалось, но основы я знаю! 😊");
    reveal_strlit("🤖 **Искусственный интеллект (ИИ)** - это область компьютерных наук, которая создает системы, способные выполнять задачи, обычно требующие человеческого интеллекта, такие как распознавание речи, принятие решений и обучение.\n\nИзвините, что не могу дать более подробную информацию из Wikipedia прямо сейчас! 🔧");
    reveal_strlit("💻 **Программирование** - это процесс создания компьютерных программ с помощью языков программирования. Это включает в себя написание кода, отладку и тестирование программного обеспечения.\n\nХотя точную информацию из Wikipedia сейчас получить не удалось, основы я могу объяснить! 😊");
    reveal_strlit("🤔 Интересный вопрос! К сожалению, сейчас не могу найти подробную информацию из внешних источников, но попробуйте спросить более конкретно - например, о программировании, технологиях или науке. Возможно, у меня есть базовые знания по этой теме! 💡");
}

/// The chit-chat answer is never empty.
pub proof fn lemma_simple_response_nonempty(t: Seq<char>)
    ensures
        simple_response(t).len() > 0,
{
    reveal_strlit("👋 Привет! Как дела? О чём поговорим?");
    reveal_strlit("Отлично! Готов помочь с любыми вопросами. Что тебя интересует? 😊");
    reveal_strlit("Пожалуйста! Рад был помочь! Есть ещё вопросы? 😊");
    reveal_strlit("До свидания! Удачного дня! Обращайся, если что-то понадобится! 👋");
    reveal_strlit("Я Auraya - умный ИИ-ассистент! 🤖 Могу помочь с поиском информации, ответить на вопросы о программировании, найти репозитории на GitHub, решить математические задачи, узнать погоду и многое другое. Чем могу быть полезен?");
    reveal_strlit("Я умею:\n• 🔍 Искать информацию в Wikipedia\n• 💻 Находить репозитории на GitHub\n• 🧮 Решать математические задачи\n• 🌤️ Узнавать погоду в городах\n• 💡 Показывать примеры кода\n• 🌍 Переводить тексты\n• 💬 Поддерживать диалог на разных языках\n\nПросто задавай вопросы или используй команды /help!");
    reveal_strlit("Интересно! Расскажи подробнее 🤔");
    reveal_strlit("Понял! А что именно тебя интересует?");
    reveal_strlit("Хм, расскажи больше об этом!");
    reveal_strlit("Интригующе! Продолжай 😊");
    reveal_strlit("Хороший вопрос! 🤔 Попробуй спросить более конкретно:\n\n• 📖 \"Что такое Rust?\" - поиск в Wikipedia\n• 🧮 \"2 + 2 * 3\" - математические вычисления\n• 🌤️ \"Погода в Москве\" - прогноз погоды\n• 💻 \"Примеры кода на Python\" - поиск репозиториев\n\nЯ постараюсь найти информацию!");
    reveal_strlit("Приятно слышать! 😊 А что именно тебя вдохновляет?");
    reveal_strlit("Понимаю, бывают сложные моменты. Может, поговорим о чём-то более позитивном? 🌟");
    reveal_strlit("🌤️ Хочешь узнать погоду? Скажи мне город!\n\nПример: \"Погода в Москве\" или \"Weather in London\" 🏙️");
    reveal_strlit("Время лучше проверить на своём устройстве! ⏰ А у меня есть время помочь тебе с любыми вопросами!");
    reveal_strlit("Обучение - это здорово! 📚 Что хочешь изучить?\n\n• 💻 Программирование - покажу примеры кода\n• 🧮 Математика - решу задачи\n• 🌍 Технологии - найдю информацию\n\nПросто спроси конкретно!");
    reveal_strlit("Понимаю, что ты говоришь о \"");
    reveal_strlit("\". Это интересная тема! 🤔 Попробуй задать более конкретный вопрос - возможно, смогу помочь с:\n\n• 📖 Поиском информации\n• 🧮 Вычислениями\n• 💻 Примерами кода\n• 🌤️ Погодой");
    reveal_strlit("Интересно! Могу помочь с поиском информации, вычислениями или примерами кода 🤔");
    reveal_strlit("Понял тебя! Попробуй спросить о погоде, математике или программировании 😊");
    reveal_strlit("Хм, интригующая тема! Можешь задать более конкретный вопрос? 💡");
    reveal_strlit("Это любопытно! Давай обсудим конкретные детали 🚀");
    if byte_len(t) > 50 {
        assert((LONG_OPENING@ + clip(t, 40) + LONG_CLOSING@).len() >= LONG_OPENING@.len());
    }
}

} // verus!
