//! The arithmetic skill: recognising an expression, cleaning it for the
//! evaluator, and rendering the evaluator's result with an explanation.
use vstd::prelude::*;
use vstd::arithmetic::power2::{
    lemma2_to64, lemma2_to64_rest, lemma_pow2_pos, lemma_pow2_strictly_increases,
    lemma_pow2_unfold, pow2,
};
use crate::text::{chars_of, has_sub, replace_str, replaced, trim, trim_str, contains_str};

verus! {

/// Whether the regular expression `pattern` compiles and matches somewhere in `text`.
pub uninterp spec fn pattern_found(pattern: Seq<char>, text: Seq<char>) -> bool;

/// Relies on `regex::Regex::new` and `Regex::is_match`: the pattern is compiled
/// and searched for in the text; a pattern that does not compile matches nothing.
#[verifier::external_body]
fn regex_is_match(pattern: &str, text: &str) -> (r: bool)
    ensures
        r == pattern_found(pattern@, text@),
{
    match regex::Regex::new(pattern) {
        Ok(re) => re.is_match(text),
        Err(_) => false,
    }
}

/// Two numbers joined by a binary operator.
pub const BINARY_PATTERN: &'static str = "\\d+\\s*[\\+\\-\\*/\\^]\\s*\\d+";

/// A number followed by `= ?`.
pub const UNKNOWN_PATTERN: &'static str = "\\d+\\s*=\\s*\\?";

/// A square root of a number.
pub const ROOT_PATTERN: &'static str = "sqrt\\(\\d+\\)";

/// Two numbers joined by `mod`.
pub const MOD_PATTERN: &'static str = "\\d+\\s*mod\\s*\\d+";

/// An operator word or symbol occurs in `s`.
pub open spec fn has_operator(s: Seq<char>) -> bool {
    has_sub(s, "+"@) || has_sub(s, "-"@) || has_sub(s, "*"@) || has_sub(s, "/"@) || has_sub(s, "="@)
        || has_sub(s, "^"@) || has_sub(s, "sqrt"@) || has_sub(s, "mod"@) || has_sub(s, "sin"@)
        || has_sub(s, "cos"@) || has_sub(s, "tan"@) || has_sub(s, "log"@) || has_sub(s, "ln"@)
}

/// An ASCII digit occurs in `s`.
pub open spec fn has_ascii_digit(s: Seq<char>) -> bool {
    exists|i: int| 0 <= i < s.len() && '0' <= #[trigger] s[i] && s[i] <= '9'
}

/// One of the arithmetic patterns matches `s`.
pub open spec fn has_math_pattern(s: Seq<char>) -> bool {
    pattern_found(BINARY_PATTERN@, s) || pattern_found(UNKNOWN_PATTERN@, s) || pattern_found(
        ROOT_PATTERN@,
        s,
    ) || pattern_found(MOD_PATTERN@, s)
}

/// The trimmed text holds an operator and a digit, or matches an arithmetic pattern.
pub open spec fn looks_like_math(t: Seq<char>) -> bool {
    let s = trim(t);
    (has_operator(s) && has_ascii_digit(s)) || has_math_pattern(s)
}

fn has_ascii_digit_exec(v: &Vec<char>) -> (r: bool)
    ensures
        r == has_ascii_digit(v@),
{
    let mut i: usize = 0;
    while i < v.len()
        invariant
            i <= v@.len(),
            forall|j: int| 0 <= j < i ==> !('0' <= #[trigger] v@[j] && v@[j] <= '9'),
        decreases v@.len() - i,
    {
        if '0' <= v[i] && v[i] <= '9' {
            return true;
        }
        i += 1;
    }
    false
}

/// Whether the input reads as an arithmetic expression.
pub fn is_math_expression(input: &str) -> (r: bool)
    ensures
        r == looks_like_math(input@),
{
    let clean = trim_str(input);
    let v = chars_of(clean.as_str());
    let has_operators = contains_str(&v, "+") || contains_str(&v, "-") || contains_str(&v, "*")
        || contains_str(&v, "/") || contains_str(&v, "=") || contains_str(&v, "^")
        || contains_str(&v, "sqrt") || contains_str(&v, "mod") || contains_str(&v, "sin")
        || contains_str(&v, "cos") || contains_str(&v, "tan") || contains_str(&v, "log")
        || contains_str(&v, "ln");
    let has_numbers = has_ascii_digit_exec(&v);
    let has_pattern = regex_is_match(BINARY_PATTERN, clean.as_str()) || regex_is_match(
        UNKNOWN_PATTERN,
        clean.as_str(),
    ) || regex_is_match(ROOT_PATTERN, clean.as_str()) || regex_is_match(
        MOD_PATTERN,
        clean.as_str(),
    );
    has_operators && has_numbers || has_pattern
}

/// The expression with command words, `=` and `?` removed, and the Russian
/// operator words replaced by symbols, trimmed at both ends.
pub open spec fn cleaned_expression(input: Seq<char>) -> Seq<char> {
    let a = trim(input);
    let a = replaced(a, "вычисли"@, ""@);
    let a = replaced(a, "посчитай"@, ""@);
    let a = replaced(a, "calculate"@, ""@);
    let a = replaced(a, "равно"@, ""@);
    let a = replaced(a, "equals"@, ""@);
    let a = replaced(a, "="@, ""@);
    let a = replaced(a, "?"@, ""@);
    let a = replaced(a, " плюс "@, "+"@);
    let a = replaced(a, " минус "@, "-"@);
    let a = replaced(a, " умножить на "@, "*"@);
    let a = replaced(a, " разделить на "@, "/"@);
    let a = replaced(a, " в степени "@, "^"@);
    trim(a)
}

/// Prepares an expression for the evaluator.
pub fn clean_math_expression(input: &str) -> (r: String)
    ensures
        r@ == cleaned_expression(input@),
{
    let a = trim_str(input);
    let a = replace_str(a.as_str(), "вычисли", "");
    let a = replace_str(a.as_str(), "посчитай", "");
    let a = replace_str(a.as_str(), "calculate", "");
    let a = replace_str(a.as_str(), "равно", "");
    let a = replace_str(a.as_str(), "equals", "");
    let a = replace_str(a.as_str(), "=", "");
    let a = replace_str(a.as_str(), "?", "");
    let a = replace_str(a.as_str(), " плюс ", "+");
    let a = replace_str(a.as_str(), " минус ", "-");
    let a = replace_str(a.as_str(), " умножить на ", "*");
    let a = replace_str(a.as_str(), " разделить на ", "/");
    let a = replace_str(a.as_str(), " в степени ", "^");
    trim_str(a.as_str())
}

/// An evaluated number: the bit pattern of the IEEE-754 double that the
/// evaluator returned, and that double written with six decimals.
pub struct Number {
    pub bits: u64,
    pub fixed: String,
}

/// The biased exponent field of a double.
pub open spec fn exponent_field(b: u64) -> int {
    (b as int / 0x10000000000000) % 2048
}

/// The fraction field of a double.
pub open spec fn fraction_field(b: u64) -> int {
    b as int % 0x10000000000000
}

/// The sign bit of a double is set.
pub open spec fn sign_set(b: u64) -> bool {
    b as int >= 0x8000000000000000
}

/// The double is finite and has no fractional part (`fract() == 0.0`).
pub open spec fn is_whole(b: u64) -> bool {
    let e = exponent_field(b);
    let m = fraction_field(b);
    if e == 2047 {
        false
    } else if e == 0 {
        m == 0
    } else if e >= 1075 {
        true
    } else if e < 1023 {
        false
    } else {
        (0x10000000000000 + m) % (pow2((1075 - e) as nat) as int) == 0
    }
}

/// The absolute value of a whole double.
pub open spec fn whole_magnitude(b: u64) -> int {
    let e = exponent_field(b);
    let m = fraction_field(b);
    if e == 0 {
        0
    } else if e >= 1075 {
        (0x10000000000000 + m) * pow2((e - 1075) as nat)
    } else {
        (0x10000000000000 + m) / (pow2((1075 - e) as nat) as int)
    }
}

/// The value of a whole double of absolute value below 10^15, which is shown
/// as an integer; none for any other double.
pub open spec fn whole_value(b: u64) -> Option<int> {
    if is_whole(b) && whole_magnitude(b) < 1_000_000_000_000_000 {
        Some(
            if sign_set(b) {
                -whole_magnitude(b)
            } else {
                whole_magnitude(b)
            },
        )
    } else {
        None
    }
}

fn pow2_u64(k: u64) -> (r: u64)
    requires
        k <= 52,
    ensures
        r as nat == pow2(k as nat),
{
    proof {
        lemma2_to64();
        lemma2_to64_rest();
    }
    let mut p: u64 = 1;
    let mut i: u64 = 0;
    while i < k
        invariant
            i <= k <= 52,
            p as nat == pow2(i as nat),
            pow2(52) == 0x10000000000000,
        decreases k - i,
    {
        proof {
            lemma_pow2_unfold((i + 1) as nat);
            if i < 52 {
                lemma_pow2_strictly_increases(i as nat, 52);
            }
        }
        p = p * 2;
        i += 1;
    }
    p
}

/// Whether the double is whole, and its value where it is shown as an integer.
pub fn whole_number(b: u64) -> (r: (bool, Option<i64>))
    ensures
        r.0 == is_whole(b),
        r.1 matches Some(v) ==> -1_000_000_000_000_000 < v < 1_000_000_000_000_000,
        match r.1 {
            Some(v) => whole_value(b) == Some(v as int),
            None => whole_value(b) is None,
        },
{
    let e = (b / 0x10000000000000) % 2048;
    let m = b % 0x10000000000000;
    let neg = b >= 0x8000000000000000;
    if e == 2047 {
        return (false, None);
    }
    if e == 0 {
        if m == 0 {
            return (true, Some(0));
        } else {
            return (false, None);
        }
    }
    if e >= 1075 {
        proof {
            let x = (exponent_field(b) - 1075) as nat;
            lemma_pow2_pos(x);
            assert((0x10000000000000 + m) * pow2(x) >= 0x10000000000000) by (nonlinear_arith)
                requires
                    pow2(x) >= 1,
                    m >= 0,
            ;
        }
        return (true, None);
    }
    if e < 1023 {
        return (false, None);
    }
    let p = pow2_u64(1075 - e);
    proof {
        lemma_pow2_pos((1075 - e) as nat);
    }
    let full = 0x10000000000000 + m;
    if full % p != 0 {
        return (false, None);
    }
    let mag = full / p;
    if mag >= 1_000_000_000_000_000 {
        return (true, None);
    }
    let v: i64 = if neg {
        -(mag as i64)
    } else {
        mag as i64
    };
    (true, Some(v))
}

/// The character of a decimal digit.
pub open spec fn digit_char(d: nat) -> char {
    ((d + 48) as u8) as char
}

/// The decimal numeral of `n`.
pub open spec fn decimal(n: nat) -> Seq<char>
    decreases n,
{
    if n < 10 {
        seq![digit_char(n)]
    } else {
        decimal(n / 10).push(digit_char(n % 10))
    }
}

/// The decimal numeral of `v`, with a minus sign when it is negative.
pub open spec fn signed_decimal(v: int) -> Seq<char> {
    if v < 0 {
        seq!['-'] + decimal((-v) as nat)
    } else {
        decimal(v as nat)
    }
}

/// Appends the decimal numeral of `n`.
pub fn push_decimal(out: &mut String, n: u64)
    ensures
        final(out)@ == old(out)@ + decimal(n as nat),
    decreases n,
{
    if n >= 10 {
        push_decimal(out, n / 10);
    }
    let d = (n % 10) as u8;
    out.push((d + 48) as char);
    assert(final(out)@ =~= old(out)@ + decimal(n as nat));
}

/// Appends the decimal numeral of `v`, with its sign.
pub fn push_signed_decimal(out: &mut String, v: i64)
    requires
        v > i64::MIN,
    ensures
        final(out)@ == old(out)@ + signed_decimal(v as int),
{
    if v < 0 {
        out.push('-');
        push_decimal(out, (-v) as u64);
        assert(final(out)@ =~= old(out)@ + signed_decimal(v as int));
    } else {
        push_decimal(out, v as u64);
    }
}

/// How a number is shown: as an integer where it is whole and below 10^15,
/// else with six decimals.
pub open spec fn number_text(n: Number) -> Seq<char> {
    match whole_value(n.bits) {
        Some(v) => signed_decimal(v),
        None => n.fixed@,
    }
}

/// The line that shows the cleaned expression and its value.
pub open spec fn math_result_text(expression: Seq<char>, n: Number) -> Seq<char> {
    "🧮 **"@ + cleaned_expression(expression) + "** = **"@ + number_text(n) + "**"@
}

/// Shows the cleaned expression and its value.
pub fn format_math_result(expression: &str, result: &Number) -> (r: String)
    ensures
        r@ == math_result_text(expression@, *result),
{
    let cleaned = clean_math_expression(expression);
    let mut out = String::new();
    out.append("🧮 **");
    out.append(cleaned.as_str());
    out.append("** = **");
    let (_, whole) = whole_number(result.bits);
    match whole {
        Some(v) => push_signed_decimal(&mut out, v),
        None => out.append(result.fixed.as_str()),
    }
    out.append("**");
    out
}

/// The sentence that explains the computation, by the first operator found in
/// the cleaned expression.
pub open spec fn explanation(cleaned: Seq<char>, whole: bool) -> Seq<char> {
    if has_sub(cleaned, "+"@) {
        "Выполнили сложение чисел."@
    } else if has_sub(cleaned, "-"@) {
        "Выполнили вычитание чисел."@
    } else if has_sub(cleaned, "*"@) {
        "Выполнили умножение чисел."@
    } else if has_sub(cleaned, "/"@) {
        if whole {
            "Выполнили деление нацело."@
        } else {
            "Выполнили деление с остатком."@
        }
    } else if has_sub(cleaned, "^"@) {
        "Возвели число в степень."@
    } else if has_sub(cleaned, "sqrt"@) {
        "Извлекли квадратный корень."@
    } else {
        "Выполнили математическое вычисление."@
    }
}

fn generate_explanation(expression: &str, result: &Number) -> (r: String)
    ensures
        r@ == explanation(cleaned_expression(expression@), is_whole(result.bits)),
{
    let cleaned = clean_math_expression(expression);
    let v = chars_of(cleaned.as_str());
    let (whole, _) = whole_number(result.bits);
    if contains_str(&v, "+") {
        "Выполнили сложение чисел.".to_string()
    } else if contains_str(&v, "-") {
        "Выполнили вычитание чисел.".to_string()
    } else if contains_str(&v, "*") {
        "Выполнили умножение чисел.".to_string()
    } else if contains_str(&v, "/") {
        if whole {
            "Выполнили деление нацело.".to_string()
        } else {
            "Выполнили деление с остатком.".to_string()
        }
    } else if contains_str(&v, "^") {
        "Возвели число в степень.".to_string()
    } else if contains_str(&v, "sqrt") {
        "Извлекли квадратный корень.".to_string()
    } else {
        "Выполнили математическое вычисление.".to_string()
    }
}

/// The rendered solution: the result line, a blank line, and the explanation.
pub open spec fn solution_text(input: Seq<char>, n: Number) -> Seq<char> {
    math_result_text(input, n) + "\n\n💡 "@ + explanation(cleaned_expression(input), is_whole(n.bits))
}

/// Renders the evaluator's outcome for the expression in `input`: the solution
/// with its explanation, or the evaluator's error behind a fixed prefix.
pub fn solve_with_explanation(input: &str, evaluated: Result<Number, String>) -> (r: Result<
    String,
    String,
>)
    ensures
        match evaluated {
            Ok(n) => r matches Ok(s) && s@ == solution_text(input@, n),
            Err(e) => r matches Err(s) && s@ == "Ошибка вычисления: "@ + e@,
        },
{
    match evaluated {
        Ok(n) => {
            let mut s = format_math_result(input, &n);
            s.append("\n\n💡 ");
            let ex = generate_explanation(input, &n);
            s.append(ex.as_str());
            Ok(s)
        },
        Err(e) => {
            let mut s = "Ошибка вычисления: ".to_string();
            s.append(e.as_str());
            Err(s)
        },
    }
}

} // verus!
