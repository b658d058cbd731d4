//! Dates and times of day, as the journal needs them: calendar validity,
//! weekday and month names, parsing of `YYYY-MM-DD` query dates, and the
//! splitting of a `YYYY-MM-DD HH:MM` string into the pieces the forecast
//! request wants.

use vstd::prelude::*;
use vstd::string::StrSliceExecFns;
use vstd::string::StringExecFns;

use crate::strutil::all_dec_digits;
use crate::strutil::char_is_space;
use crate::strutil::dec_value;
use crate::strutil::is_space;
use crate::strutil::parse_usize;
use crate::strutil::read_digit_range;
use crate::strutil::replaced;
use crate::strutil::replace_char;
use crate::strutil::usize_accepts;
use crate::strutil::usize_read;

verus! {

/// A calendar date.
#[derive(Clone, Copy, Debug, PartialEq, Eq, Structural)]
pub struct Date {
    pub year: u32,
    pub month: u32,
    pub day: u32,
}

/// A calendar date with a time of day, already in its target timezone.
#[derive(Clone, Copy, Debug, PartialEq, Eq, Structural)]
pub struct Timestamp {
    pub date: Date,
    pub hour: u32,
    pub minute: u32,
    pub second: u32,
}

pub open spec fn is_leap_year(y: int) -> bool {
    y % 4 == 0 && (y % 100 != 0 || y % 400 == 0)
}

/// How many days the month has, leap years included.
pub open spec fn days_in_month(y: int, m: int) -> int {
    if m == 2 {
        if is_leap_year(y) {
            29
        } else {
            28
        }
    } else if m == 4 || m == 6 || m == 9 || m == 11 {
        30
    } else {
        31
    }
}

impl Date {
    /// A real calendar date with a four-digit year.
    pub open spec fn wf(self) -> bool {
        1 <= self.year <= 9999 && 1 <= self.month <= 12 && 1 <= self.day <= days_in_month(
            self.year as int,
            self.month as int,
        )
    }
}

impl Timestamp {
    pub open spec fn wf(self) -> bool {
        self.date.wf() && self.hour < 24 && self.minute < 60 && self.second < 60
    }
}

pub fn leap_year(y: u32) -> (r: bool)
    ensures
        r == is_leap_year(y as int),
{
    y % 4 == 0 && (y % 100 != 0 || y % 400 == 0)
}

pub fn month_length(y: u32, m: u32) -> (r: u32)
    requires
        1 <= m <= 12,
    ensures
        r == days_in_month(y as int, m as int),
{
    if m == 2 {
        if leap_year(y) {
            29
        } else {
            28
        }
    } else if m == 4 || m == 6 || m == 9 || m == 11 {
        30
    } else {
        31
    }
}

/// The running day-count each month starts on, in a common year, counted for
/// the weekday formula.
pub open spec fn month_anchor(m: int) -> int {
    if m == 1 {
        0
    } else if m == 2 {
        3
    } else if m == 3 {
        2
    } else if m == 4 {
        5
    } else if m == 5 {
        0
    } else if m == 6 {
        3
    } else if m == 7 {
        5
    } else if m == 8 {
        1
    } else if m == 9 {
        4
    } else if m == 10 {
        6
    } else if m == 11 {
        2
    } else {
        4
    }
}

/// The weekday of a date, 0 for Sunday through 6 for Saturday, by Sakamoto's
/// congruence.
pub open spec fn weekday_index(y: int, m: int, d: int) -> int {
    let yy = if m < 3 {
        y - 1
    } else {
        y
    };
    (yy + yy / 4 - yy / 100 + yy / 400 + month_anchor(m) + d) % 7
}

pub fn weekday_of(date: &Date) -> (w: u32)
    requires
        date.wf(),
    ensures
        w == weekday_index(date.year as int, date.month as int, date.day as int),
        w < 7,
{
    let yy: u32 = if date.month < 3 {
        date.year - 1
    } else {
        date.year
    };
    let anchor: u32 = match date.month {
        1 => 0,
        2 => 3,
        3 => 2,
        4 => 5,
        5 => 0,
        6 => 3,
        7 => 5,
        8 => 1,
        9 => 4,
        10 => 6,
        11 => 2,
        _ => 4,
    };
    assert(yy / 100 <= yy) by (nonlinear_arith);
    let total: u32 = yy + yy / 4 + yy / 400 + anchor + date.day - yy / 100;
    total % 7
}

pub open spec fn weekday_abbrev(w: int) -> Seq<char> {
    if w == 0 {
        "Sun"@
    } else if w == 1 {
        "Mon"@
    } else if w == 2 {
        "Tue"@
    } else if w == 3 {
        "Wed"@
    } else if w == 4 {
        "Thu"@
    } else if w == 5 {
        "Fri"@
    } else {
        "Sat"@
    }
}

pub fn weekday_abbrev_of(w: u32) -> (r: &'static str)
    requires
        w < 7,
    ensures
        r@ == weekday_abbrev(w as int),
{
    match w {
        0 => "Sun",
        1 => "Mon",
        2 => "Tue",
        3 => "Wed",
        4 => "Thu",
        5 => "Fri",
        _ => "Sat",
    }
}

pub open spec fn month_abbrev(m: int) -> Seq<char> {
    if m == 1 {
        "Jan"@
    } else if m == 2 {
        "Feb"@
    } else if m == 3 {
        "Mar"@
    } else if m == 4 {
        "Apr"@
    } else if m == 5 {
        "May"@
    } else if m == 6 {
        "Jun"@
    } else if m == 7 {
        "Jul"@
    } else if m == 8 {
        "Aug"@
    } else if m == 9 {
        "Sep"@
    } else if m == 10 {
        "Oct"@
    } else if m == 11 {
        "Nov"@
    } else {
        "Dec"@
    }
}

pub fn month_abbrev_of(m: u32) -> (r: &'static str)
    requires
        1 <= m <= 12,
    ensures
        r@ == month_abbrev(m as int),
{
    match m {
        1 => "Jan",
        2 => "Feb",
        3 => "Mar",
        4 => "Apr",
        5 => "May",
        6 => "Jun",
        7 => "Jul",
        8 => "Aug",
        9 => "Sep",
        10 => "Oct",
        11 => "Nov",
        _ => "Dec",
    }
}

pub open spec fn month_full_name(m: int) -> Seq<char> {
    if m == 1 {
        "January"@
    } else if m == 2 {
        "February"@
    } else if m == 3 {
        "March"@
    } else if m == 4 {
        "April"@
    } else if m == 5 {
        "May"@
    } else if m == 6 {
        "June"@
    } else if m == 7 {
        "July"@
    } else if m == 8 {
        "August"@
    } else if m == 9 {
        "September"@
    } else if m == 10 {
        "October"@
    } else if m == 11 {
        "November"@
    } else {
        "December"@
    }
}

pub fn month_full_name_of(m: u32) -> (r: &'static str)
    requires
        1 <= m <= 12,
    ensures
        r@ == month_full_name(m as int),
{
    match m {
        1 => "January",
        2 => "February",
        3 => "March",
        4 => "April",
        5 => "May",
        6 => "June",
        7 => "July",
        8 => "August",
        9 => "September",
        10 => "October",
        11 => "November",
        _ => "December",
    }
}

/// Whether `s` is a well-formed `YYYY-MM-DD` date: digits and dashes in their
/// places, and a real calendar day.
pub open spec fn date_text_ok(s: Seq<char>) -> bool {
    &&& s.len() == 10
    &&& s[4] == '-'
    &&& s[7] == '-'
    &&& all_dec_digits(s.subrange(0, 4))
    &&& all_dec_digits(s.subrange(5, 7))
    &&& all_dec_digits(s.subrange(8, 10))
    &&& 1 <= dec_value(s.subrange(0, 4))
    &&& 1 <= dec_value(s.subrange(5, 7)) <= 12
    &&& 1 <= dec_value(s.subrange(8, 10)) <= days_in_month(
        dec_value(s.subrange(0, 4)) as int,
        dec_value(s.subrange(5, 7)) as int,
    )
}

pub open spec fn date_text_value(s: Seq<char>) -> Date {
    Date {
        year: dec_value(s.subrange(0, 4)) as u32,
        month: dec_value(s.subrange(5, 7)) as u32,
        day: dec_value(s.subrange(8, 10)) as u32,
    }
}

/// Reads a `YYYY-MM-DD` string: `Some` exactly on well-formed calendar dates.
pub fn parse_date(s: &str) -> (r: Option<Date>)
    ensures
        r is Some <==> date_text_ok(s@),
        r matches Some(d) ==> d == date_text_value(s@) && d.wf(),
{
    let n: usize = s.unicode_len();
    if n != 10 {
        return None;
    }
    if s.get_char(4) != '-' || s.get_char(7) != '-' {
        return None;
    }
    let year = match read_digit_range(s, 0, 4) {
        Some(v) => v,
        None => {
            return None;
        },
    };
    let month = match read_digit_range(s, 5, 7) {
        Some(v) => v,
        None => {
            return None;
        },
    };
    let day = match read_digit_range(s, 8, 10) {
        Some(v) => v,
        None => {
            return None;
        },
    };
    proof {
        crate::strutil::lemma_dec_value_bound(s@.subrange(0, 4));
        assert(crate::strutil::ten_pow(4) == 10000) by {
            reveal_with_fuel(crate::strutil::ten_pow, 5);
        }
    }
    if year == 0 {
        return None;
    }
    if month == 0 || month > 12 {
        return None;
    }
    if day == 0 || day > month_length(year, month) {
        return None;
    }
    Some(Date { year, month, day })
}

/// The index of the first character from `i` on that fails `keep_space`
/// (when `keep_space` is true, the first non-space; otherwise the first
/// space), or the string's end.
pub open spec fn scan_from(s: Seq<char>, i: int, keep_space: bool) -> int
    decreases s.len() - i,
{
    if i < s.len() && is_space(s[i]) == keep_space {
        scan_from(s, i + 1, keep_space)
    } else {
        i
    }
}

/// Where the whitespace run starting at `i` ends.
pub open spec fn token_start(s: Seq<char>, i: int) -> int {
    scan_from(s, i, true)
}

/// Where the token starting at `i` ends.
pub open spec fn token_end(s: Seq<char>, i: int) -> int {
    scan_from(s, i, false)
}

/// The position of the first `:` in `t`, or its length.
pub open spec fn colon_split(t: Seq<char>, i: int) -> int
    decreases t.len() - i,
{
    if i < t.len() {
        if t[i] == ':' {
            i
        } else {
            colon_split(t, i + 1)
        }
    } else {
        t.len() as int
    }
}

/// The `YYYY-MM-DD HH:MM` query shape: two whitespace-separated tokens, the
/// second one starting, up to its first `:`, with a number that reads as a
/// `usize`.
pub open spec fn datetime_query_ok(s: Seq<char>) -> bool {
    let a = token_start(s, 0);
    let b = token_end(s, a);
    let c = token_start(s, b);
    let e = token_end(s, c);
    b > a && e > c && usize_accepts(s.subrange(c, e).subrange(0, colon_split(s.subrange(c, e), 0)))
}

/// The first token: the date part of the query.
pub open spec fn datetime_query_date(s: Seq<char>) -> Seq<char> {
    s.subrange(token_start(s, 0), token_end(s, token_start(s, 0)))
}

/// The hour: the second token read as a number up to its first `:`.
pub open spec fn datetime_query_hour(s: Seq<char>) -> nat {
    let b = token_end(s, token_start(s, 0));
    let c = token_start(s, b);
    let e = token_end(s, c);
    usize_read(s.subrange(c, e).subrange(0, colon_split(s.subrange(c, e), 0)))
}

/// Finds the end of a whitespace run (`keep_space`) or of a token (not
/// `keep_space`), starting at `from`.
fn scan(s: &str, n: usize, from: usize, keep_space: bool) -> (r: usize)
    requires
        n == s@.len(),
        0 <= from <= n,
    ensures
        r == scan_from(s@, from as int, keep_space),
        from <= r <= n,
{
    let mut i: usize = from;
    while i < n && char_is_space(s.get_char(i)) == keep_space
        invariant
            from <= i <= n,
            n == s@.len(),
            scan_from(s@, from as int, keep_space) == scan_from(s@, i as int, keep_space),
        decreases n - i,
    {
        i = i + 1;
    }
    i
}

/// Splits a `YYYY-MM-DD HH:MM` string into the date and the hour: `Some`
/// exactly on the query shape.
pub fn split_datetime(s: &str) -> (r: Option<(String, usize)>)
    ensures
        r is Some <==> datetime_query_ok(s@),
        r matches Some(p) ==> p.0@ == datetime_query_date(s@) && p.1 == datetime_query_hour(s@),
{
    let n: usize = s.unicode_len();
    let a = scan(s, n, 0, true);
    let b = scan(s, n, a, false);
    if b == a {
        return None;
    }
    let c = scan(s, n, b, true);
    let e = scan(s, n, c, false);
    if e == c {
        return None;
    }
    let token2 = s.substring_char(c, e);
    let t2n: usize = token2.unicode_len();
    let mut j: usize = 0;
    while j < t2n && token2.get_char(j) != ':'
        invariant
            0 <= j <= t2n,
            t2n == token2@.len(),
            colon_split(token2@, 0) == colon_split(token2@, j as int),
        decreases t2n - j,
    {
        j = j + 1;
    }
    let hour_str = token2.substring_char(0, j);
    match parse_usize(hour_str) {
        Some(hour) => {
            let date_part = String::from_str(s.substring_char(a, b));
            Some((date_part, hour))
        },
        None => None,
    }
}

/// Splits the combined date-and-time string into the ISO date and the hour
/// for the forecast request.  The caller checks the shape first; on it the
/// reference tool would abort.
pub fn preprocess_datetime_for_url(date: &str) -> (r: (String, usize))
    requires
        datetime_query_ok(date@),
    ensures
        r.0@ == datetime_query_date(date@),
        r.1 == datetime_query_hour(date@),
{
    match split_datetime(date) {
        Some(p) => p,
        None => {
            proof {
                assert(false);
            }
            (String::new(), 0)
        },
    }
}

/// Makes a timezone name URL-ready: every `/` becomes `%2F`.
pub fn preprocess_timezone_for_url(timezone: &str) -> (r: String)
    ensures
        r@ == replaced(timezone@, '/', "%2F"@),
{
    replace_char(timezone, '/', "%2F")
}

} // verus!
