//! Calendar dates and clock times of the proleptic Gregorian calendar, in the
//! range that chrono's `NaiveDate` can represent. The date arithmetic that
//! chrono performs for the app is reached through the wrappers at the end of
//! this file; the rest is stated and proved here.
use chrono::{Datelike, Days, NaiveDate, NaiveTime, Timelike};
use vstd::prelude::*;
use crate::text::{decimal, zero_pad};

verus! {

/// The first year a date may have.
pub const MIN_YEAR: i32 = -262143;

/// The last year a date may have.
pub const MAX_YEAR: i32 = 262142;

/// The mathematical value of a date.
pub struct DateView {
    pub year: int,
    pub month: int,
    pub day: int,
}

pub open spec fn ymd(year: int, month: int, day: int) -> DateView {
    DateView { year, month, day }
}

pub open spec fn is_leap_year(year: int) -> bool {
    year % 4 == 0 && (year % 100 != 0 || year % 400 == 0)
}

/// Number of days of `month` in `year` (meaningful for months 1 to 12).
pub open spec fn month_length(year: int, month: int) -> int {
    if month == 2 {
        if is_leap_year(year) { 29 } else { 28 }
    } else if month == 4 || month == 6 || month == 9 || month == 11 {
        30
    } else {
        31
    }
}

pub open spec fn valid_ymd(year: int, month: int, day: int) -> bool {
    &&& MIN_YEAR <= year <= MAX_YEAR
    &&& 1 <= month <= 12
    &&& 1 <= day <= month_length(year, month)
}

pub open spec fn valid_date(v: DateView) -> bool {
    valid_ymd(v.year, v.month, v.day)
}

/// Chronological order of two dates.
pub open spec fn date_before(a: DateView, b: DateView) -> bool {
    ||| a.year < b.year
    ||| a.year == b.year && a.month < b.month
    ||| a.year == b.year && a.month == b.month && a.day < b.day
}

/// The calendar day after `v`, if it is still in range.
pub open spec fn next_date(v: DateView) -> Option<DateView> {
    if v.day < month_length(v.year, v.month) {
        Some(ymd(v.year, v.month, v.day + 1))
    } else if v.month < 12 {
        Some(ymd(v.year, v.month + 1, 1))
    } else if v.year < MAX_YEAR {
        Some(ymd(v.year + 1, 1, 1))
    } else {
        None
    }
}

/// The calendar day before `v`, if it is still in range.
pub open spec fn prev_date(v: DateView) -> Option<DateView> {
    if v.day > 1 {
        Some(ymd(v.year, v.month, v.day - 1))
    } else if v.month > 1 {
        Some(ymd(v.year, v.month - 1, month_length(v.year, v.month - 1)))
    } else if v.year > MIN_YEAR {
        Some(ymd(v.year - 1, 12, 31))
    } else {
        None
    }
}

pub open spec fn days_before_year(year: int) -> int {
    365 * (year - 1) + (year - 1) / 4 - (year - 1) / 100 + (year - 1) / 400
}

pub open spec fn days_before_month(year: int, month: int) -> int {
    let base: int = if month == 1 {
        0
    } else if month == 2 {
        31
    } else if month == 3 {
        59
    } else if month == 4 {
        90
    } else if month == 5 {
        120
    } else if month == 6 {
        151
    } else if month == 7 {
        181
    } else if month == 8 {
        212
    } else if month == 9 {
        243
    } else if month == 10 {
        273
    } else if month == 11 {
        304
    } else {
        334
    };
    if month > 2 && is_leap_year(year) { base + 1 } else { base }
}

/// Days since 31 December of year 0; 1 January of year 1 is day 1.
pub open spec fn day_number(v: DateView) -> int {
    days_before_year(v.year) + days_before_month(v.year, v.month) + v.day
}

pub open spec fn first_day_number() -> int {
    day_number(ymd(MIN_YEAR as int, 1, 1))
}

pub open spec fn last_day_number() -> int {
    day_number(ymd(MAX_YEAR as int, 12, 31))
}

/// Day of the week counted from Sunday (0) to Saturday (6).
pub open spec fn weekday_from_sunday(v: DateView) -> int {
    day_number(v) % 7
}

/// Year as chrono prints it: four digits, with a sign outside 0..=9999.
pub open spec fn year_text(year: int) -> Seq<char> {
    if 0 <= year <= 9999 {
        zero_pad(decimal(year as nat), 4)
    } else if year < 0 {
        seq!['-'] + zero_pad(decimal((-year) as nat), 4)
    } else {
        seq!['+'] + zero_pad(decimal(year as nat), 4)
    }
}

/// The `YYYY-MM-DD` text of a date.
pub open spec fn date_text(v: DateView) -> Seq<char> {
    year_text(v.year) + seq!['-'] + zero_pad(decimal(v.month as nat), 2) + seq!['-'] + zero_pad(
        decimal(v.day as nat),
        2,
    )
}

/// A calendar date with year in `MIN_YEAR..=MAX_YEAR`.
#[derive(Clone, Copy, Debug, PartialEq, Eq, Structural, Hash)]
pub struct Date {
    year: i32,
    month: u32,
    day: u32,
}

impl View for Date {
    type V = DateView;

    closed spec fn view(&self) -> DateView {
        ymd(self.year as int, self.month as int, self.day as int)
    }
}

/// The date whose value is `v`.
pub open spec fn date_of(v: DateView) -> Date {
    choose|d: Date| d@ == v
}

impl Date {
    #[verifier::type_invariant]
    pub closed spec fn inv(self) -> bool {
        valid_ymd(self.year as int, self.month as int, self.day as int)
    }

    /// Two dates with the same value are the same date.
    pub proof fn lemma_view_injective(a: Date, b: Date)
        requires
            a@ == b@,
        ensures
            a == b,
    {
    }

    /// The date whose value is that of `d` is `d`.
    pub proof fn lemma_date_of(d: Date)
        ensures
            date_of(d@) == d,
    {
        assert(exists|e: Date| e@ == d@) by {
            assert(d@ == d@);
        }
        Date::lemma_view_injective(date_of(d@), d);
    }

    /// Every date is a valid calendar date within the year range.
    pub proof fn law_always_valid(d: Date)
        requires
            d.inv(),
        ensures
            valid_date(d@),
    {
    }

    /// The date `year-month-day`, when it exists in range.
    pub fn from_ymd_opt(year: i32, month: u32, day: u32) -> (r: Option<Date>)
        ensures
            r is Some <==> valid_ymd(year as int, month as int, day as int),
            r matches Some(d) ==> d@ == ymd(year as int, month as int, day as int),
    {
        if year < MIN_YEAR || year > MAX_YEAR || month < 1 || month > 12 {
            return None;
        }
        let length = month_length_of(year, month);
        if day < 1 || day > length {
            return None;
        }
        Some(Date { year, month, day })
    }

    pub fn year(&self) -> (r: i32)
        ensures
            r == self@.year,
            valid_date(self@),
    {
        proof {
            use_type_invariant(self);
        }
        self.year
    }

    pub fn month(&self) -> (r: u32)
        ensures
            r == self@.month,
            valid_date(self@),
    {
        proof {
            use_type_invariant(self);
        }
        self.month
    }

    pub fn day(&self) -> (r: u32)
        ensures
            r == self@.day,
            valid_date(self@),
    {
        proof {
            use_type_invariant(self);
        }
        self.day
    }

    /// Whether `self` comes strictly before `other`.
    pub fn is_before(&self, other: &Date) -> (r: bool)
        ensures
            r == date_before(self@, other@),
    {
        if self.year != other.year {
            self.year < other.year
        } else if self.month != other.month {
            self.month < other.month
        } else {
            self.day < other.day
        }
    }

    /// The next calendar day, or `None` on the last representable day.
    pub fn succ_opt(&self) -> (r: Option<Date>)
        ensures
            r matches Some(d) ==> next_date(self@) == Some(d@),
            r is None ==> next_date(self@) is None,
    {
        proof {
            use_type_invariant(self);
        }
        let length = month_length_of(self.year, self.month);
        if self.day < length {
            Some(Date { year: self.year, month: self.month, day: self.day + 1 })
        } else if self.month < 12 {
            Some(Date { year: self.year, month: self.month + 1, day: 1 })
        } else if self.year < MAX_YEAR {
            Some(Date { year: self.year + 1, month: 1, day: 1 })
        } else {
            None
        }
    }

    /// The previous calendar day, or `None` on the first representable day.
    pub fn pred_opt(&self) -> (r: Option<Date>)
        ensures
            r matches Some(d) ==> prev_date(self@) == Some(d@),
            r is None ==> prev_date(self@) is None,
    {
        proof {
            use_type_invariant(self);
        }
        if self.day > 1 {
            Some(Date { year: self.year, month: self.month, day: self.day - 1 })
        } else if self.month > 1 {
            let length = month_length_of(self.year, self.month - 1);
            Some(Date { year: self.year, month: self.month - 1, day: length })
        } else if self.year > MIN_YEAR {
            Some(Date { year: self.year - 1, month: 12, day: 31 })
        } else {
            None
        }
    }
}

/// The earlier of two dates (the first one when they are equal).
pub fn min_date(a: Date, b: Date) -> (r: Date)
    ensures
        r == (if date_before(b@, a@) { b } else { a }),
{
    if b.is_before(&a) {
        b
    } else {
        a
    }
}

/// Whether `year` is a leap year, for a year in range.
pub fn is_leap_year_of(year: i32) -> (r: bool)
    requires
        MIN_YEAR <= year <= MAX_YEAR,
    ensures
        r == is_leap_year(year as int),
{
    let shifted: i64 = year as i64 + 400000;
    assert(shifted % 4 == (year as int) % 4) by (nonlinear_arith)
        requires
            shifted == year + 400000,
    ;
    assert(shifted % 100 == (year as int) % 100) by (nonlinear_arith)
        requires
            shifted == year + 400000,
    ;
    assert(shifted % 400 == (year as int) % 400) by (nonlinear_arith)
        requires
            shifted == year + 400000,
    ;
    shifted % 4 == 0 && (shifted % 100 != 0 || shifted % 400 == 0)
}

/// Number of days of `month` in `year`.
pub fn month_length_of(year: i32, month: u32) -> (r: u32)
    requires
        MIN_YEAR <= year <= MAX_YEAR,
        1 <= month <= 12,
    ensures
        r == month_length(year as int, month as int),
        28 <= r <= 31,
{
    if month == 2 {
        if is_leap_year_of(year) {
            29
        } else {
            28
        }
    } else if month == 4 || month == 6 || month == 9 || month == 11 {
        30
    } else {
        31
    }
}

/// Three-letter English name of a weekday counted from Sunday.
pub open spec fn weekday_abbrev(w: int) -> Seq<char> {
    if w == 0 {
        seq!['S', 'u', 'n']
    } else if w == 1 {
        seq!['M', 'o', 'n']
    } else if w == 2 {
        seq!['T', 'u', 'e']
    } else if w == 3 {
        seq!['W', 'e', 'd']
    } else if w == 4 {
        seq!['T', 'h', 'u']
    } else if w == 5 {
        seq!['F', 'r', 'i']
    } else {
        seq!['S', 'a', 't']
    }
}

/// The result of chrono's `NaiveDate::parse_from_str(text, "%Y-%m-%d")`.
pub uninterp spec fn iso_date_parse(text: Seq<char>) -> Option<DateView>;

/// The result of chrono's `NaiveDate::checked_add_days(d, Days::new(n))`.
pub uninterp spec fn days_later(d: DateView, n: int) -> Option<DateView>;

/// The result of chrono's `NaiveDate::checked_sub_days(d, Days::new(n))`.
pub uninterp spec fn days_earlier(d: DateView, n: int) -> Option<DateView>;

/// Calls chrono's `NaiveDate::checked_add_days`. Claimed: the result is
/// `days_later` of the arguments; it lies `n` days after `d`, and there is
/// none exactly when `n` exceeds `i32::MAX` or the day falls after the last
/// representable date.
#[verifier::external_body]
pub(crate) fn checked_add_days(d: Date, n: u64) -> (r: Option<Date>)
    ensures
        r matches Some(x) ==> days_later(d@, n as int) == Some(x@),
        r is None ==> days_later(d@, n as int) is None,
        r is None <==> (n > i32::MAX || day_number(d@) + n > last_day_number()),
        r matches Some(x) ==> day_number(x@) == day_number(d@) + n,
{
    let start = NaiveDate::from_ymd_opt(d.year, d.month, d.day).unwrap();
    match start.checked_add_days(Days::new(n)) {
        Some(x) => Some(Date { year: x.year(), month: x.month(), day: x.day() }),
        None => None,
    }
}

/// Calls chrono's `NaiveDate::checked_sub_days`. Claimed: the result is
/// `days_earlier` of the arguments; it lies `n` days before `d`, and there is
/// none exactly when `n` exceeds `i32::MAX` or the day falls before the
/// first representable date.
#[verifier::external_body]
pub(crate) fn checked_sub_days(d: Date, n: u64) -> (r: Option<Date>)
    ensures
        r matches Some(x) ==> days_earlier(d@, n as int) == Some(x@),
        r is None ==> days_earlier(d@, n as int) is None,
        r is None <==> (n > i32::MAX || day_number(d@) - n < first_day_number()),
        r matches Some(x) ==> day_number(x@) == day_number(d@) - n,
{
    let start = NaiveDate::from_ymd_opt(d.year, d.month, d.day).unwrap();
    match start.checked_sub_days(Days::new(n)) {
        Some(x) => Some(Date { year: x.year(), month: x.month(), day: x.day() }),
        None => None,
    }
}

/// Calls chrono's `Weekday::num_days_from_sunday` on the weekday of `d`.
/// Claimed: it counts from Sunday, 1 January of year 1 being a Monday.
#[verifier::external_body]
pub(crate) fn weekday_number(d: Date) -> (r: u32)
    ensures
        r == weekday_from_sunday(d@),
{
    NaiveDate::from_ymd_opt(d.year, d.month, d.day).unwrap().weekday().num_days_from_sunday()
}

/// Calls chrono's `NaiveDate::parse_from_str(text, "%Y-%m-%d")`. Claimed:
/// the result is `iso_date_parse` of the text; what that is, chrono's
/// parser decides.
#[verifier::external_body]
pub(crate) fn parse_iso_date(text: &str) -> (r: Option<Date>)
    ensures
        r matches Some(x) ==> iso_date_parse(text@) == Some(x@),
        r is None ==> iso_date_parse(text@) is None,
{
    match NaiveDate::parse_from_str(text, "%Y-%m-%d") {
        Ok(x) => Some(Date { year: x.year(), month: x.month(), day: x.day() }),
        Err(_) => None,
    }
}

/// Calls chrono's `Display` of `NaiveDate`. Claimed: `YYYY-MM-DD`, the year
/// with four digits and a sign outside 0..=9999.
#[verifier::external_body]
pub(crate) fn date_to_string(d: Date) -> (r: String)
    ensures
        r@ == date_text(d@),
{
    NaiveDate::from_ymd_opt(d.year, d.month, d.day).unwrap().to_string()
}

/// Calls chrono's `NaiveDate::format("%a %Y-%m-%d")`. Claimed: the English
/// three-letter weekday, a space, then the date as `date_to_string` gives it.
#[verifier::external_body]
pub(crate) fn date_heading_string(d: Date) -> (r: String)
    ensures
        r@ == weekday_abbrev(weekday_from_sunday(d@)) + seq![' '] + date_text(d@),
{
    NaiveDate::from_ymd_opt(d.year, d.month, d.day).unwrap().format("%a %Y-%m-%d").to_string()
}

/// The mathematical value of a clock time.
pub struct TimeView {
    pub hour: int,
    pub minute: int,
}

/// A clock time of day to the minute.
#[derive(Clone, Copy, Debug, PartialEq, Eq, Structural, Hash)]
pub struct Time {
    hour: u32,
    minute: u32,
}

impl View for Time {
    type V = TimeView;

    closed spec fn view(&self) -> TimeView {
        TimeView { hour: self.hour as int, minute: self.minute as int }
    }
}

pub open spec fn valid_time(t: TimeView) -> bool {
    0 <= t.hour < 24 && 0 <= t.minute < 60
}

/// The `HH:MM` text of a time.
pub open spec fn time_text(t: TimeView) -> Seq<char> {
    zero_pad(decimal(t.hour as nat), 2) + seq![':'] + zero_pad(decimal(t.minute as nat), 2)
}

/// The time whose value is `v`, if any.
pub open spec fn time_of(v: Option<TimeView>) -> Option<Time> {
    match v {
        Some(t) => Some(choose|x: Time| x@ == t),
        None => None,
    }
}

impl Time {
    #[verifier::type_invariant]
    pub closed spec fn inv(self) -> bool {
        self.hour < 24 && self.minute < 60
    }

    /// Two times with the same value are the same time.
    pub proof fn lemma_view_injective(a: Time, b: Time)
        requires
            a@ == b@,
        ensures
            a == b,
    {
    }

    /// The time whose value is that of `t` is `t`.
    pub proof fn lemma_time_of(t: Option<Time>)
        ensures
            time_of(match t {
                Some(x) => Some(x@),
                None => None,
            }) == t,
    {
        if let Some(x) = t {
            assert(exists|e: Time| e@ == x@) by {
                assert(x@ == x@);
            }
            let c = choose|e: Time| e@ == x@;
            Time::lemma_view_injective(c, x);
        }
    }

    /// The time `hour:minute`, when it exists.
    pub fn from_hm_opt(hour: u32, minute: u32) -> (r: Option<Time>)
        ensures
            r is Some <==> (hour < 24 && minute < 60),
            r matches Some(t) ==> t@ == (TimeView { hour: hour as int, minute: minute as int }),
    {
        if hour < 24 && minute < 60 {
            Some(Time { hour, minute })
        } else {
            None
        }
    }

    pub fn hour(&self) -> (r: u32)
        ensures
            r == self@.hour,
            valid_time(self@),
    {
        proof {
            use_type_invariant(self);
        }
        self.hour
    }

    pub fn minute(&self) -> (r: u32)
        ensures
            r == self@.minute,
            valid_time(self@),
    {
        proof {
            use_type_invariant(self);
        }
        self.minute
    }
}

/// The result of chrono's `NaiveTime::parse_from_str(text, format)`, as hour
/// and minute.
pub uninterp spec fn clock_time_parse(text: Seq<char>, format: Seq<char>) -> Option<TimeView>;

/// Calls chrono's `NaiveTime::parse_from_str`, for a format without seconds.
/// Claimed: the hour and minute of the result are `clock_time_parse` of the
/// arguments; chrono's parser decides which texts it accepts.
#[verifier::external_body]
pub(crate) fn parse_clock_time(text: &str, format: &str) -> (r: Option<Time>)
    ensures
        r matches Some(t) ==> clock_time_parse(text@, format@) == Some(t@),
        r is None ==> clock_time_parse(text@, format@) is None,
{
    match NaiveTime::parse_from_str(text, format) {
        Ok(x) => Some(Time { hour: x.hour(), minute: x.minute() }),
        Err(_) => None,
    }
}

/// Calls chrono's `NaiveTime::format("%H:%M")`. Claimed: two-digit hour and
/// minute with a colon between.
#[verifier::external_body]
pub(crate) fn time_to_string(t: Time) -> (r: String)
    ensures
        r@ == time_text(t@),
{
    NaiveTime::from_hms_opt(t.hour, t.minute, 0).unwrap().format("%H:%M").to_string()
}

} // verus!
