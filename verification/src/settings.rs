//! The focused-streak setting, stored as decimal text in the settings table.
use vstd::prelude::*;

verus! {

/// Focused windows that raise a focus check when nothing valid is stored.
pub const DEFAULT_FOCUSED_STREAK_WINDOW: i32 = 15;

/// The user's streak settings.
#[derive(Debug, Clone, Copy, PartialEq, Eq)]
pub struct StreakSettings {
    pub focused_streak_window: i64,
}

pub open spec fn is_decimal_digit(c: char) -> bool {
    '0' <= c && c <= '9'
}

pub open spec fn all_decimal_digits(s: Seq<char>) -> bool {
    forall|i: int| 0 <= i < s.len() ==> is_decimal_digit(#[trigger] s[i])
}

/// The value of a string of decimal digits.
pub open spec fn digits_value(s: Seq<char>) -> int
    decreases s.len(),
{
    if s.len() == 0 {
        0
    } else {
        digits_value(s.drop_last()) * 10 + (s.last() as int - '0' as int)
    }
}

/// The integer that `s` writes in decimal: an optional `+` or `-` followed by
/// one or more ASCII digits, and nothing else.
pub open spec fn decimal_value(s: Seq<char>) -> Option<int> {
    if s.len() > 0 && (s[0] == '+' || s[0] == '-') {
        let d = s.drop_first();
        if d.len() > 0 && all_decimal_digits(d) {
            Some(
                if s[0] == '-' {
                    -digits_value(d)
                } else {
                    digits_value(d)
                },
            )
        } else {
            None
        }
    } else if s.len() > 0 && all_decimal_digits(s) {
        Some(digits_value(s))
    } else {
        None
    }
}

/// What `str::parse::<i64>` accepts: a decimal integer within range.
pub open spec fn parsed_i64(s: Seq<char>) -> Option<i64> {
    match decimal_value(s) {
        Some(v) => if i64::MIN <= v <= i64::MAX {
            Some(v as i64)
        } else {
            None
        },
        None => None,
    }
}

/// What `str::parse::<i32>` accepts: a decimal integer within range.
pub open spec fn parsed_i32(s: Seq<char>) -> Option<i32> {
    match decimal_value(s) {
        Some(v) => if i32::MIN <= v <= i32::MAX {
            Some(v as i32)
        } else {
            None
        },
        None => None,
    }
}

pub open spec fn digit_char(d: nat) -> char {
    ('0' as int + d) as char
}

/// Decimal digits of a natural number, without leading zeros.
pub open spec fn digits_text(n: nat) -> Seq<char>
    decreases n,
{
    if n < 10 {
        seq![digit_char(n)]
    } else {
        digits_text(n / 10).push(digit_char(n % 10))
    }
}

/// The decimal text of an integer: a `-` for negatives, then its digits.
pub open spec fn decimal_text(v: int) -> Seq<char> {
    if v < 0 {
        seq!['-'] + digits_text((-v) as nat)
    } else {
        digits_text(v as nat)
    }
}

/// Calls `str::parse::<i64>`. Its documentation: an optional `+` or `-`
/// followed by ASCII digits only, any other character is an error, and an
/// out-of-range value is an error.
#[verifier::external_body]
fn parse_i64(s: &str) -> (r: Option<i64>)
    ensures
        r == parsed_i64(s@),
{
    s.parse::<i64>().ok()
}

/// Calls `str::parse::<i32>`, documented as for `parse_i64` with the range of `i32`.
#[verifier::external_body]
fn parse_i32(s: &str) -> (r: Option<i32>)
    ensures
        r == parsed_i32(s@),
{
    s.parse::<i32>().ok()
}

/// Calls `ToString::to_string` on an `i64`, whose `Display` writes the
/// decimal text: a `-` for negatives, then the digits without leading zeros.
#[verifier::external_body]
fn format_i64(v: i64) -> (r: String)
    ensures
        r@ == decimal_text(v as int),
{
    v.to_string()
}

/// The stored focused-streak window, or the default when none is stored or
/// the text is not an `i64`.
pub open spec fn streak_window_of(value: Option<String>) -> i64 {
    match value {
        Some(v) => match parsed_i64(v@) {
            Some(x) => x,
            None => DEFAULT_FOCUSED_STREAK_WINDOW as i64,
        },
        None => DEFAULT_FOCUSED_STREAK_WINDOW as i64,
    }
}

/// The stored focused-streak window as the loop's threshold, or the default
/// when none is stored or the text is not an `i32`.
pub open spec fn streak_threshold_of(value: Option<String>) -> i32 {
    match value {
        Some(v) => match parsed_i32(v@) {
            Some(x) => x,
            None => DEFAULT_FOCUSED_STREAK_WINDOW,
        },
        None => DEFAULT_FOCUSED_STREAK_WINDOW,
    }
}

/// The streak settings shown to the user, from the stored text.
pub fn streak_settings_from(value: Option<String>) -> (r: StreakSettings)
    ensures
        r.focused_streak_window == streak_window_of(value),
{
    let focused_streak_window = match &value {
        Some(v) => match parse_i64(v.as_str()) {
            Some(x) => x,
            None => DEFAULT_FOCUSED_STREAK_WINDOW as i64,
        },
        None => DEFAULT_FOCUSED_STREAK_WINDOW as i64,
    };
    StreakSettings { focused_streak_window }
}

/// The focus-check threshold of the prediction loop, from the stored text.
pub fn focused_streak_threshold(value: Option<String>) -> (r: i32)
    ensures
        r == streak_threshold_of(value),
{
    match &value {
        Some(v) => match parse_i32(v.as_str()) {
            Some(x) => x,
            None => DEFAULT_FOCUSED_STREAK_WINDOW,
        },
        None => DEFAULT_FOCUSED_STREAK_WINDOW,
    }
}

/// The text stored for the user's streak settings.
pub fn streak_setting_text(settings: &StreakSettings) -> (r: String)
    ensures
        r@ == decimal_text(settings.focused_streak_window as int),
{
    format_i64(settings.focused_streak_window)
}

proof fn lemma_digits_text(n: nat)
    ensures
        digits_text(n).len() > 0,
        all_decimal_digits(digits_text(n)),
        digits_value(digits_text(n)) == n,
        digits_text(n)[0] != '-' && digits_text(n)[0] != '+',
    decreases n,
{
    if n >= 10 {
        lemma_digits_text(n / 10);
        let t = digits_text(n);
        assert(t.drop_last() =~= digits_text(n / 10));
        assert(t[0] == digits_text(n / 10)[0]);
        assert(t.last() == digit_char(n % 10));
        assert((n / 10) * 10 + n % 10 == n) by (nonlinear_arith);
        assert(digits_value(t) == digits_value(digits_text(n / 10)) * 10 + (n % 10));
    } else {
        let t = digits_text(n);
        assert(t.drop_last() =~= Seq::<char>::empty());
        assert(digits_value(t) == digits_value(t.drop_last()) * 10 + (t.last() as int - '0' as int));
    }
}

/// Reading back decimal text gives the integer it was written from.
pub proof fn lemma_decimal_round_trip(v: int)
    ensures
        decimal_value(decimal_text(v)) == Some(v),
{
    if v < 0 {
        let d = digits_text((-v) as nat);
        lemma_digits_text((-v) as nat);
        let t = decimal_text(v);
        assert(t.drop_first() =~= d);
        assert(t[0] == '-');
    } else {
        lemma_digits_text(v as nat);
    }
}

/// Saving a streak setting and reading it back gives the saved window; and
/// the prediction loop takes it as its threshold whenever it fits an `i32`.
pub proof fn lemma_streak_setting_reads_back(settings: StreakSettings, stored: String)
    requires
        stored@ == decimal_text(settings.focused_streak_window as int),
    ensures
        streak_window_of(Some(stored)) == settings.focused_streak_window,
        i32::MIN <= settings.focused_streak_window <= i32::MAX ==> streak_threshold_of(Some(stored))
            == settings.focused_streak_window,
{
    lemma_decimal_round_trip(settings.focused_streak_window as int);
}

} // verus!
