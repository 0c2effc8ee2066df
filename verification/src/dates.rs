//! Calendar dates and UTC instants, and the OData text of both.
//! Parsing, day arithmetic and formatting are done by chrono.

use chrono::Datelike;
use vstd::prelude::*;

verus! {

/// A day of the proleptic Gregorian calendar.
#[derive(Debug, Clone, Copy, PartialEq, Eq, Structural)]
pub struct CalendarDate {
    pub year: i32,
    pub month: u32,
    pub day: u32,
}

/// A leap year of the proleptic Gregorian calendar.
pub open spec fn is_leap_year(y: int) -> bool {
    y % 4 == 0 && (y % 100 != 0 || y % 400 == 0)
}

/// Number of days of month `m` (1 to 12) of year `y`.
pub open spec fn days_in_month(y: int, m: int) -> int {
    if m == 2 {
        if is_leap_year(y) { 29 } else { 28 }
    } else if m == 4 || m == 6 || m == 9 || m == 11 {
        30
    } else {
        31
    }
}

/// `(y, m, d)` names an existing day.
pub open spec fn is_valid_ymd(y: int, m: int, d: int) -> bool {
    1 <= m <= 12 && 1 <= d <= days_in_month(y, m)
}

/// The day before `d`.
pub open spec fn previous_day_spec(d: CalendarDate) -> (int, int, int) {
    if d.day > 1 {
        (d.year as int, d.month as int, d.day - 1)
    } else if d.month > 1 {
        (d.year as int, d.month - 1, days_in_month(d.year as int, d.month - 1))
    } else {
        (d.year - 1, 12, 31)
    }
}

/// The day after `d`.
pub open spec fn next_day_spec(d: CalendarDate) -> (int, int, int) {
    if d.day < days_in_month(d.year as int, d.month as int) {
        (d.year as int, d.month as int, d.day + 1)
    } else if d.month < 12 {
        (d.year as int, d.month + 1, 1)
    } else {
        (d.year + 1, 1, 1)
    }
}

/// The calendar date with fields `ymd`.
pub open spec fn date_of(ymd: (int, int, int)) -> CalendarDate {
    CalendarDate { year: ymd.0 as i32, month: ymd.1 as u32, day: ymd.2 as u32 }
}

/// Value of an ASCII digit.
pub open spec fn digit_value(c: char) -> int {
    c as int - '0' as int
}

/// Value of the decimal numeral `s[from..to]`.
pub open spec fn numeral_value(s: Seq<char>, from: int, to: int) -> int
    decreases to - from,
{
    if to <= from {
        0
    } else {
        numeral_value(s, from, to - 1) * 10 + digit_value(s[to - 1])
    }
}

/// The ASCII digit of `n` (0 to 9).
pub open spec fn digit_char(n: int) -> char {
    (n + '0' as int) as char
}

/// The decimal numeral of `n`, without leading zeros.
pub open spec fn decimal_text(n: nat) -> Seq<char>
    decreases n,
{
    if n < 10 {
        seq![digit_char(n as int)]
    } else {
        decimal_text(n / 10).push(digit_char((n % 10) as int))
    }
}

/// The decimal numeral of `n`, zero-padded on the left to `width` digits.
pub open spec fn padded_text(n: nat, width: nat) -> Seq<char> {
    let t = decimal_text(n);
    if t.len() >= width {
        t
    } else {
        Seq::new((width - t.len()) as nat, |i: int| '0') + t
    }
}

/// How chrono writes a year with `%Y`: four digits for years 0 to 9999,
/// otherwise a sign and at least four digits.
pub open spec fn year_text(y: int) -> Seq<char> {
    if 0 <= y <= 9999 {
        padded_text(y as nat, 4)
    } else if y < 0 {
        seq!['-'] + padded_text((-y) as nat, 4)
    } else {
        seq!['+'] + padded_text(y as nat, 4)
    }
}

/// Midnight UTC of day `d` as chrono formats it with
/// `%Y-%m-%dT%H:%M:%S%.3fZ`.
pub open spec fn midnight_text(d: CalendarDate) -> Seq<char> {
    year_text(d.year as int) + seq!['-'] + padded_text(d.month as nat, 2) + seq!['-']
        + padded_text(d.day as nat, 2) + "T00:00:00.000Z"@
}

/// Parses eight ASCII digits `YYYYMMDD` into a date with chrono's
/// `NaiveDate::parse_from_str(text, "%Y%m%d")`. The contract claims: the
/// result is the date those digits name when it exists, else chrono's
/// out-of-range error, whose message is `input is out of range`.
#[verifier::external_body]
pub(crate) fn parse_compact_date(text: &str) -> (r: Result<CalendarDate, String>)
    requires
        text@.len() == 8,
        forall|i: int| 0 <= i < 8 ==> '0' <= #[trigger] text@[i] <= '9',
    ensures
        ({
            let y = numeral_value(text@, 0, 4);
            let m = numeral_value(text@, 4, 6);
            let d = numeral_value(text@, 6, 8);
            if is_valid_ymd(y, m, d) {
                r == Ok::<CalendarDate, String>(date_of((y, m, d)))
            } else {
                r matches Err(msg) && msg@ == "input is out of range"@
            }
        }),
{
    match chrono::NaiveDate::parse_from_str(text, "%Y%m%d") {
        Ok(d) => Ok(CalendarDate { year: d.year(), month: d.month(), day: d.day() }),
        Err(e) => Err(e.to_string()),
    }
}

/// The day before `d`, by chrono's `NaiveDate::pred_opt`. The contract
/// claims the calendar's previous day, which chrono has for every date of
/// years 0 to 9999.
#[verifier::external_body]
pub(crate) fn previous_day(d: CalendarDate) -> (r: Option<CalendarDate>)
    requires
        is_valid_ymd(d.year as int, d.month as int, d.day as int),
        0 <= d.year <= 9999,
    ensures
        r == Some(date_of(previous_day_spec(d))),
{
    match chrono::NaiveDate::from_ymd_opt(d.year, d.month, d.day).unwrap().pred_opt() {
        Some(p) => Some(CalendarDate { year: p.year(), month: p.month(), day: p.day() }),
        None => None,
    }
}

/// The day after `d`, by chrono's `NaiveDate::succ_opt`. The contract claims
/// the calendar's next day, which chrono has for every date of years 0 to 9999.
#[verifier::external_body]
pub(crate) fn next_day(d: CalendarDate) -> (r: Option<CalendarDate>)
    requires
        is_valid_ymd(d.year as int, d.month as int, d.day as int),
        0 <= d.year <= 9999,
    ensures
        r == Some(date_of(next_day_spec(d))),
{
    match chrono::NaiveDate::from_ymd_opt(d.year, d.month, d.day).unwrap().succ_opt() {
        Some(p) => Some(CalendarDate { year: p.year(), month: p.month(), day: p.day() }),
        None => None,
    }
}

/// Midnight of day `d` written by chrono's `format("%Y-%m-%dT%H:%M:%S%.3fZ")`
/// (after `and_hms_milli_opt(0, 0, 0, 0)`). The contract claims the text of
/// `midnight_text`: year as `%Y` writes it, then two-digit month and day,
/// then `T00:00:00.000Z`.
#[verifier::external_body]
pub(crate) fn midnight_odata_text(d: CalendarDate) -> (r: String)
    requires
        is_valid_ymd(d.year as int, d.month as int, d.day as int),
        -1 <= d.year <= 10000,
    ensures
        r@ == midnight_text(d),
{
    chrono::NaiveDate::from_ymd_opt(d.year, d.month, d.day)
        .unwrap()
        .and_hms_milli_opt(0, 0, 0, 0)
        .unwrap()
        .format("%Y-%m-%dT%H:%M:%S%.3fZ")
        .to_string()
}

/// The text chrono's `format("%Y-%m-%dT%H:%M:%S%.3fZ")` writes for the UTC
/// instant `secs` seconds (and `nanos` nanoseconds) after the Unix epoch, or
/// `None` when `DateTime::from_timestamp` rejects those values.
pub uninterp spec fn instant_text(secs: int, nanos: int) -> Option<Seq<char>>;

/// chrono's `DateTime::<Utc>::from_timestamp(secs, nanos)` formatted with
/// `%Y-%m-%dT%H:%M:%S%.3fZ`. The contract names the result `instant_text`.
#[verifier::external_body]
fn format_instant(secs: i64, nanos: u32) -> (r: Option<String>)
    ensures
        match r {
            Some(t) => instant_text(secs as int, nanos as int) == Some(t@),
            None => instant_text(secs as int, nanos as int) is None,
        },
{
    match chrono::DateTime::from_timestamp(secs, nanos) {
        Some(dt) => Some(dt.format("%Y-%m-%dT%H:%M:%S%.3fZ").to_string()),
        None => None,
    }
}

/// What chrono's `NaiveDate::parse_from_str(text, "%Y-%m-%d")` makes of
/// `text`: the Unix time in seconds of the date's midnight in UTC, or the
/// message of its parse error.
pub uninterp spec fn day_parse(text: Seq<char>) -> Result<int, Seq<char>>;

/// Reads a `YYYY-MM-DD` date with chrono's `NaiveDate::parse_from_str` and
/// gives the Unix time of its midnight in UTC (`and_time(NaiveTime::MIN)`,
/// `and_utc`, `timestamp`), or the parse error's message. The contract names
/// the outcome `day_parse`, and claims that the midnight of a date chrono
/// parsed is an instant chrono represents (`instant_text` is some text).
#[verifier::external_body]
fn parse_day_start(text: &str) -> (r: Result<i64, String>)
    ensures
        match r {
            Ok(secs) => day_parse(text@) == Ok::<int, Seq<char>>(secs as int) && instant_text(
                secs as int,
                0,
            ) is Some,
            Err(m) => day_parse(text@) == Err::<int, Seq<char>>(m@),
        },
{
    match chrono::NaiveDate::parse_from_str(text, "%Y-%m-%d") {
        Ok(d) => Ok(d.and_time(chrono::NaiveTime::MIN).and_utc().timestamp()),
        Err(e) => Err(e.to_string()),
    }
}

/// An instant in UTC: seconds since the Unix epoch and nanoseconds within
/// the second (a leap second has 1e9 or more), within the range of chrono's
/// `DateTime<Utc>`.
#[derive(Debug, Clone, Copy)]
pub struct UtcDateTime {
    secs: i64,
    nanos: u32,
}

impl UtcDateTime {
    #[verifier::type_invariant]
    spec fn in_range(self) -> bool {
        instant_text(self.secs as int, self.nanos as int) is Some
    }

    /// Seconds since the Unix epoch.
    pub closed spec fn secs_spec(self) -> int {
        self.secs as int
    }

    /// Nanoseconds within the second.
    pub closed spec fn nanos_spec(self) -> int {
        self.nanos as int
    }

    /// The instant `secs` seconds and `nanos` nanoseconds after the Unix
    /// epoch, when chrono can represent it (`DateTime::from_timestamp`).
    pub fn from_timestamp(secs: i64, nanos: u32) -> (r: Option<UtcDateTime>)
        ensures
            match r {
                Some(t) => t.secs_spec() == secs && t.nanos_spec() == nanos && instant_text(
                    secs as int,
                    nanos as int,
                ) is Some,
                None => instant_text(secs as int, nanos as int) is None,
            },
    {
        match format_instant(secs, nanos) {
            Some(_) => Some(UtcDateTime { secs, nanos }),
            None => None,
        }
    }

    /// Midnight UTC of the `YYYY-MM-DD` date `text`, or the message of
    /// chrono's error reading it (see `day_parse`).
    pub fn parse_day(text: &str) -> (r: Result<UtcDateTime, String>)
        ensures
            match (r, day_parse(text@)) {
                (Ok(t), Ok(secs)) => t.secs_spec() == secs && t.nanos_spec() == 0,
                (Err(m), Err(e)) => m@ == e,
                _ => false,
            },
    {
        match parse_day_start(text) {
            Ok(secs) => match UtcDateTime::from_timestamp(secs, 0) {
                Some(t) => Ok(t),
                None => {
                    proof {
                        assert(false);
                    }
                    Err(String::new())
                },
            },
            Err(m) => Err(m),
        }
    }

    /// Seconds since the Unix epoch.
    pub fn timestamp(&self) -> (r: i64)
        ensures
            r == self.secs_spec(),
    {
        self.secs
    }

    /// Nanoseconds within the second.
    pub fn timestamp_subsec_nanos(&self) -> (r: u32)
        ensures
            r == self.nanos_spec(),
    {
        self.nanos
    }

    /// The OData text of this instant: `instant_text` of its parts.
    pub open spec fn text_spec(self) -> Seq<char> {
        instant_text(self.secs_spec(), self.nanos_spec())->0
    }

    /// Writes this instant as `%Y-%m-%dT%H:%M:%S%.3fZ`.
    pub fn odata_text(&self) -> (r: String)
        ensures
            r@ == self.text_spec(),
    {
        proof {
            use_type_invariant(self);
        }
        match format_instant(self.secs, self.nanos) {
            Some(t) => t,
            None => String::new(),
        }
    }

    /// `self` is a later instant than `other` (chrono's order on `DateTime`:
    /// by seconds, then by nanoseconds).
    pub open spec fn is_after(self, other: UtcDateTime) -> bool {
        self.secs_spec() > other.secs_spec() || (self.secs_spec() == other.secs_spec()
            && self.nanos_spec() > other.nanos_spec())
    }

    /// Whether `self` is later than `other`.
    pub fn after(&self, other: &UtcDateTime) -> (r: bool)
        ensures
            r == self.is_after(*other),
    {
        self.secs > other.secs || (self.secs == other.secs && self.nanos > other.nanos)
    }
}

} // verus!

verus! {

/// The decimal numeral of `n`.
pub fn decimal_string(n: u64) -> (r: String)
    ensures
        r@ == decimal_text(n as nat),
    decreases n,
{
    if n < 10 {
        let mut s = String::new();
        crate::text::push_char(&mut s, ((n as u8) + 48u8) as char);
        s
    } else {
        let mut s = decimal_string(n / 10);
        crate::text::push_char(&mut s, (((n % 10) as u8) + 48u8) as char);
        s
    }
}

} // verus!
