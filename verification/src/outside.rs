//! The calls that leave the library: the clock and calendar of `chrono`, the
//! call stack of `backtrace`, and std's Unicode upper-casing. Each function
//! here is trusted: its contract is believed, not proved.
use vstd::prelude::*;
use crate::levels::ascii_upper;
use vstd::utf8::is_ascii_chars;
use chrono::Datelike;

verus! {

/// What `str::to_uppercase` returns for text `s`.
pub uninterp spec fn upper_case(s: Seq<char>) -> Seq<char>;

/// What `chrono::NaiveDate::parse_from_str(s, "%Y-%m-%d")` yields for `s`,
/// as the date's day number counted from the first day of the common era
/// (`Datelike::num_days_from_ce`), or `None` where the text is no such date.
pub uninterp spec fn ymd_day_number(s: Seq<char>) -> Option<i32>;

/// `%Y-%m-%d %H:%M:%S`
pub open spec fn timestamp_format() -> Seq<char> {
    seq!['%', 'Y', '-', '%', 'm', '-', '%', 'd', ' ', '%', 'H', ':', '%', 'M', ':', '%', 'S']
}

/// `%Y-%m-%d`
pub open spec fn day_format() -> Seq<char> {
    seq!['%', 'Y', '-', '%', 'm', '-', '%', 'd']
}

/// Calls `str::to_uppercase`. Trusted: the result is named `upper_case` of
/// the argument, and for ASCII text it is the ASCII upper-case form (the
/// Unicode upper-case mapping of `a`..`z` is `A`..`Z`, and it leaves every
/// other ASCII character alone). Nothing is claimed of non-ASCII text beyond
/// the name.
#[verifier::external_body]
pub(crate) fn to_upper(s: &str) -> (r: String)
    ensures
        r@ == upper_case(s@),
        is_ascii_chars(s@) ==> r@ == ascii_upper(s@),
{
    s.to_uppercase()
}

/// An ASCII decimal digit.
pub open spec fn is_digit(c: char) -> bool {
    '0' <= c <= '9'
}

/// Two decimal digits whose value lies between `lo` and `hi`.
pub open spec fn two_digits_in(s: Seq<char>, lo: int, hi: int) -> bool {
    &&& s.len() == 2
    &&& is_digit(s[0]) && is_digit(s[1])
    &&& lo <= (s[0] as int - '0' as int) * 10 + (s[1] as int - '0' as int) <= hi
}

/// A year as chrono's `%Y` writes it: four digits, or, outside the years
/// 0 to 9999, a sign and at least four digits.
pub open spec fn year_text(y: Seq<char>) -> bool {
    ||| y.len() == 4 && forall|i: int| 0 <= i < 4 ==> is_digit(#[trigger] y[i])
    ||| y.len() >= 5 && (y[0] == '+' || y[0] == '-') && forall|i: int|
        1 <= i < y.len() ==> is_digit(#[trigger] y[i])
}

/// A date as `%Y-%m-%d` writes it: the year, `-`, the month 01 to 12, `-`,
/// the day 01 to 31.
pub open spec fn date_text(s: Seq<char>) -> bool {
    let n = s.len() as int;
    &&& n >= 10
    &&& year_text(s.take(n - 6))
    &&& s[n - 6] == '-'
    &&& two_digits_in(s.subrange(n - 5, n - 3), 1, 12)
    &&& s[n - 3] == '-'
    &&& two_digits_in(s.skip(n - 2), 1, 31)
}

/// A time as `%Y-%m-%d %H:%M:%S` writes it: the date, a space, the hour 00
/// to 23, `:`, the minute 00 to 59, `:`, the second 00 to 60 (a leap
/// second shows as 60).
pub open spec fn timestamp_text(s: Seq<char>) -> bool {
    let n = s.len() as int;
    &&& n >= 19
    &&& date_text(s.take(n - 9))
    &&& s[n - 9] == ' '
    &&& two_digits_in(s.subrange(n - 8, n - 6), 0, 23)
    &&& s[n - 6] == ':'
    &&& two_digits_in(s.subrange(n - 5, n - 3), 0, 59)
    &&& s[n - 3] == ':'
    &&& two_digits_in(s.skip(n - 2), 0, 60)
}

/// Calls `chrono::Local::now()` and renders it with `format(fmt)`. Trusted:
/// which instant it shows depends on the clock and the time zone, so only
/// the shape of the text is claimed, as chrono's format documentation gives
/// it (`%Y` a year zero-padded to four digits, signed outside 0 to 9999;
/// `%m`, `%d`, `%H`, `%M`, `%S` zero-padded to two digits, within their
/// documented ranges). `fmt` is held to the two formats the library uses,
/// both of which chrono renders without error (a format it could not render
/// makes `to_string` panic).
#[verifier::external_body]
pub(crate) fn local_now_text(fmt: &str) -> (r: String)
    requires
        fmt@ == timestamp_format() || fmt@ == day_format(),
    ensures
        fmt@ == timestamp_format() ==> timestamp_text(r@),
        fmt@ == day_format() ==> date_text(r@),
{
    chrono::Local::now().format(fmt).to_string()
}

/// Calls `chrono::Local::now().naive_local().date().num_days_from_ce()`:
/// today's day number in local time. Trusted only to return; it depends on
/// the clock, so nothing is claimed of it.
#[verifier::external_body]
pub(crate) fn local_day_number() -> (r: i32) {
    chrono::Local::now().naive_local().date().num_days_from_ce()
}

/// Calls `chrono::NaiveDate::parse_from_str(s, "%Y-%m-%d")` and takes the
/// parsed date's `num_days_from_ce`. Trusted: the result is named
/// `ymd_day_number` of `s`.
#[verifier::external_body]
pub(crate) fn parse_ymd_day_number(s: &str) -> (r: Option<i32>)
    ensures
        r == ymd_day_number(s@),
{
    match chrono::NaiveDate::parse_from_str(s, "%Y-%m-%d") {
        Ok(d) => Some(d.num_days_from_ce()),
        Err(_) => None,
    }
}

/// Calls `backtrace::Backtrace::new()` and hands out its frames as plain
/// values: for each frame, in order, for each of its symbols, in order, the
/// last component of the symbol's file name (lossily as text) and its line
/// number, each where the symbol has one. Trusted only to return: the call
/// stack is the machine's, so nothing is claimed of the result.
#[verifier::external_body]
pub(crate) fn captured_frames() -> (r: Vec<Vec<(Option<String>, Option<u32>)>>) {
    let bt = backtrace::Backtrace::new();
    let place = |s: &backtrace::BacktraceSymbol| {
        let file = s.filename().and_then(|p| p.file_name());
        (file.map(|n| n.to_string_lossy().into_owned()), s.lineno())
    };
    bt.frames().iter().map(|f| f.symbols().iter().map(place).collect()).collect()
}

/// Calls `backtrace::Backtrace::new()` and renders it with its `Debug`
/// form. Trusted only to return: the call stack is the machine's, so nothing
/// is claimed of the text.
#[verifier::external_body]
pub(crate) fn backtrace_text() -> (r: String) {
    format!("{:?}", backtrace::Backtrace::new())
}

} // verus!
