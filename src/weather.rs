//! The weather skill: recognising a weather question, finding the city in it,
//! and the texts that do not need the weather provider.
use vstd::prelude::*;
use crate::text::{
    chars_of, contains_str, has_sub, lower_of, lowercase, matches_at, occurs_at, str_eq,
    string_of_range, trim, trim_str,
};

verus! {

/// A weather word occurs in the lowercased text.
pub open spec fn has_weather_word(l: Seq<char>) -> bool {
    has_sub(l, "погода"@) || has_sub(l, "weather"@) || has_sub(l, "температура"@) || has_sub(
        l,
        "temperature"@,
    ) || has_sub(l, "дождь"@) || has_sub(l, "rain"@) || has_sub(l, "снег"@) || has_sub(
        l,
        "snow"@,
    ) || has_sub(l, "солнце"@) || has_sub(l, "sunny"@) || has_sub(l, "облачно"@) || has_sub(
        l,
        "cloudy"@,
    ) || has_sub(l, "туман"@) || has_sub(l, "fog"@) || has_sub(l, "ветер"@) || has_sub(
        l,
        "wind"@,
    )
}

/// Whether the input asks about the weather.
pub fn is_weather_query(input: &str) -> (r: bool)
    ensures
        r == has_weather_word(lower_of(input@)),
{
    let l = lowercase(input);
    let v = chars_of(l.as_str());
    contains_str(&v, "погода") || contains_str(&v, "weather") || contains_str(&v, "температура")
        || contains_str(&v, "temperature") || contains_str(&v, "дождь") || contains_str(&v, "rain")
        || contains_str(&v, "снег") || contains_str(&v, "snow") || contains_str(&v, "солнце")
        || contains_str(&v, "sunny") || contains_str(&v, "облачно") || contains_str(&v, "cloudy")
        || contains_str(&v, "туман") || contains_str(&v, "fog") || contains_str(&v, "ветер")
        || contains_str(&v, "wind")
}

/// The first position at or after `j` that holds a line feed, or the length of `s`.
pub open spec fn line_end(s: Seq<char>, j: int) -> int
    decreases s.len() - j,
{
    if j >= s.len() || s[j] == '\n' {
        j
    } else {
        line_end(s, j + 1)
    }
}

/// What the pattern `p(.+)` captures in `s`, searching from position `k` on:
/// the rest of the line after the leftmost `p` that is followed by at least one
/// character of the same line.
pub open spec fn capture_from(s: Seq<char>, p: Seq<char>, k: int) -> Option<Seq<char>>
    decreases s.len() + 1 - k,
{
    if k < 0 || k > s.len() {
        None
    } else if occurs_at(s, p, k) && k + p.len() < s.len() && s[k + p.len()] != '\n' {
        Some(s.subrange(k + p.len(), line_end(s, k + p.len())))
    } else {
        capture_from(s, p, k + 1)
    }
}

proof fn lemma_line_end_bounds(s: Seq<char>, j: int)
    requires
        0 <= j <= s.len(),
    ensures
        j <= line_end(s, j) <= s.len(),
    decreases s.len() - j,
{
    if j < s.len() && s[j] != '\n' {
        lemma_line_end_bounds(s, j + 1);
    }
}

fn find_line_end(v: &Vec<char>, j: usize) -> (r: usize)
    requires
        j <= v@.len(),
    ensures
        r == line_end(v@, j as int),
{
    let mut i = j;
    while i < v.len() && v[i] != '\n'
        invariant
            j <= i <= v@.len(),
            line_end(v@, j as int) == line_end(v@, i as int),
        decreases v@.len() - i,
    {
        i += 1;
    }
    i
}

/// The capture of `p(.+)` in `v`.
fn capture(v: &Vec<char>, p: &str) -> (r: Option<String>)
    ensures
        match r {
            Some(c) => capture_from(v@, p@, 0) == Some(c@),
            None => capture_from(v@, p@, 0) is None,
        },
{
    let pv = chars_of(p);
    let n = v.len();
    let mut k: usize = 0;
    while k <= n
        invariant
            n == v@.len(),
            pv@ == p@,
            capture_from(v@, p@, 0) == capture_from(v@, p@, k as int),
        decreases n + 1 - k,
    {
        if matches_at(v, &pv, k) && pv.len() < n - k && v[k + pv.len()] != '\n' {
            let st = k + pv.len();
            let e = find_line_end(v, st);
            proof {
                lemma_line_end_bounds(v@, st as int);
            }
            return Some(string_of_range(v, st, e));
        }
        if k == n {
            return None;
        }
        k += 1;
    }
    None
}

/// The city of a weather question: the trimmed capture of the first of the
/// city patterns that matches the lowercased text.
pub open spec fn city_of(l: Seq<char>) -> Option<Seq<char>> {
    if let Some(c) = capture_from(l, "погода в "@, 0) {
        Some(trim(c))
    } else if let Some(c) = capture_from(l, "weather in "@, 0) {
        Some(trim(c))
    } else if let Some(c) = capture_from(l, "температура в "@, 0) {
        Some(trim(c))
    } else if let Some(c) = capture_from(l, "какая погода в "@, 0) {
        Some(trim(c))
    } else if let Some(c) = capture_from(l, "how is weather in "@, 0) {
        Some(trim(c))
    } else {
        None
    }
}

/// Finds the city that a weather question names.
pub fn extract_city_from_query(input: &str) -> (r: Option<String>)
    ensures
        match r {
            Some(c) => city_of(lower_of(input@)) == Some(c@),
            None => city_of(lower_of(input@)) is None,
        },
{
    let l = lowercase(input);
    let v = chars_of(l.as_str());
    if let Some(c) = capture(&v, "погода в ") {
        return Some(trim_str(c.as_str()));
    }
    if let Some(c) = capture(&v, "weather in ") {
        return Some(trim_str(c.as_str()));
    }
    if let Some(c) = capture(&v, "температура в ") {
        return Some(trim_str(c.as_str()));
    }
    if let Some(c) = capture(&v, "какая погода в ") {
        return Some(trim_str(c.as_str()));
    }
    if let Some(c) = capture(&v, "how is weather in ") {
        return Some(trim_str(c.as_str()));
    }
    None
}

/// The emoji for the main weather condition that the provider reports.
pub open spec fn condition_emoji(main: Option<Seq<char>>) -> Seq<char> {
    match main {
        Some(m) => if m == "Clear"@ {
            "☀️"@
        } else if m == "Clouds"@ {
            "☁️"@
        } else if m == "Rain"@ {
            "🌧️"@
        } else if m == "Drizzle"@ {
            "🌦️"@
        } else if m == "Thunderstorm"@ {
            "⛈️"@
        } else if m == "Snow"@ {
            "❄️"@
        } else if m == "Mist"@ || m == "Fog"@ {
            "🌫️"@
        } else {
            "🌤️"@
        },
        None => "🌤️"@,
    }
}

pub fn get_weather_emoji(main: Option<&str>) -> (r: &'static str)
    ensures
        r@ == condition_emoji(
            match main {
                Some(m) => Some(m@),
                None => None,
            },
        ),
{
    match main {
        Some(m) => if str_eq(m, "Clear") {
            "☀️"
        } else if str_eq(m, "Clouds") {
            "☁️"
        } else if str_eq(m, "Rain") {
            "🌧️"
        } else if str_eq(m, "Drizzle") {
            "🌦️"
        } else if str_eq(m, "Thunderstorm") {
            "⛈️"
        } else if str_eq(m, "Snow") {
            "❄️"
        } else if str_eq(m, "Mist") || str_eq(m, "Fog") {
            "🌫️"
        } else {
            "🌤️"
        },
        None => "🌤️",
    }
}

/// What `char::to_uppercase` yields for a character.
pub uninterp spec fn upper_of(c: char) -> Seq<char>;

/// Relies on `char::to_uppercase`: the Unicode uppercase mapping of one
/// character, which depends on that character alone.
#[verifier::external_body]
fn uppercase_char(c: char) -> (r: String)
    ensures
        r@ == upper_of(c),
{
    c.to_uppercase().collect::<String>()
}

/// `s` with its first character uppercased.
pub open spec fn capitalized(s: Seq<char>) -> Seq<char> {
    if s.len() == 0 {
        s
    } else {
        upper_of(s[0]) + s.drop_first()
    }
}

pub fn capitalize_first_letter(s: &str) -> (r: String)
    ensures
        r@ == capitalized(s@),
{
    let v = chars_of(s);
    if v.len() == 0 {
        return String::new();
    }
    let mut out = uppercase_char(v[0]);
    let rest = string_of_range(&v, 1, v.len());
    out.append(rest.as_str());
    assert(v@.subrange(1, v@.len() as int) =~= s@.drop_first());
    out
}

/// The offline answer about the weather in a city.
pub open spec fn weather_fallback_text(city: Seq<char>) -> Seq<char> {
    "🌤️ **Информация о погоде в "@ + city
        + "**\n\nК сожалению, актуальные данные недоступны.\n\n💡 **Для получения погоды:**\n• Добавьте OPENWEATHER_API_KEY в .env\n• Зарегистрируйтесь на openweathermap.org\n• Получите бесплатный API ключ\n\n📱 **Альтернативы:** Яндекс.Погода, AccuWeather, Weather.com"@
}

pub fn get_weather_fallback(city: &str) -> (r: String)
    ensures
        r@ == weather_fallback_text(city@),
{
    let mut out = "🌤️ **Информация о погоде в ".to_string();
    out.append(city);
    out.append(
        "**\n\nК сожалению, актуальные данные недоступны.\n\n💡 **Для получения погоды:**\n• Добавьте OPENWEATHER_API_KEY в .env\n• Зарегистрируйтесь на openweathermap.org\n• Получите бесплатный API ключ\n\n📱 **Альтернативы:** Яндекс.Погода, AccuWeather, Weather.com",
    );
    out
}

} // verus!
