//! Calendar dates, instants and identifiers as plain values.
//!
//! A [`Date`] is a day number in the proleptic Gregorian calendar
//! (0001-01-01 is day 1), the numbering chrono's `num_days_from_ce` uses;
//! a [`Timestamp`] is a count of microseconds since the Unix epoch, UTC;
//! identifiers are the 128-bit values of UUIDs. The conversions that need
//! calendar tables, the clock or randomness go through chrono and uuid.

use vstd::prelude::*;
use vstd::arithmetic::power2::pow2;

verus! {

/// Day number of chrono's `NaiveDate::MIN` (-262143-01-01).
pub const DATE_MIN_DAY: i32 = -95_746_129;

/// Day number of chrono's `NaiveDate::MAX` (262142-12-31).
pub const DATE_MAX_DAY: i32 = 95_745_399;

/// Lowest year chrono represents.
pub const YEAR_MIN: i32 = -262_143;

/// Highest year chrono represents.
pub const YEAR_MAX: i32 = 262_142;

pub open spec fn day_in_range(n: int) -> bool {
    DATE_MIN_DAY <= n <= DATE_MAX_DAY
}

/// A calendar date, held as its day number.
#[derive(Clone, Copy, Debug, PartialEq, Eq, Structural, Hash)]
pub struct Date {
    days: i32,
}

impl View for Date {
    type V = int;

    closed spec fn view(&self) -> int {
        self.days as int
    }
}

/// A leap year of the proleptic Gregorian calendar (year 0 is 1 BCE).
pub open spec fn is_leap_year(y: int) -> bool {
    y % 4 == 0 && (y % 100 != 0 || y % 400 == 0)
}

/// The number of days of month `m` (1..=12) of year `y`.
pub open spec fn days_in_month(y: int, m: int) -> int {
    if m == 2 {
        if is_leap_year(y) {
            29
        } else {
            28
        }
    } else if m == 4 || m == 6 || m == 9 || m == 11 {
        30
    } else {
        31
    }
}

/// The number of days of year `y` before the first of month `m`.
pub open spec fn days_before_month(y: int, m: int) -> int
    decreases m,
{
    if m <= 1 {
        0
    } else {
        days_before_month(y, m - 1) + days_in_month(y, m - 1)
    }
}

/// The day number of `y-m-d`, 0001-01-01 being day 1: the days of the
/// whole years before `y` (365 each, plus the leap days), then those of
/// the months before `m`, then `d`.
pub open spec fn civil_day(y: int, m: int, d: int) -> int {
    365 * (y - 1) + (y - 1) / 4 - (y - 1) / 100 + (y - 1) / 400 + days_before_month(y, m) + d
}

/// What chrono's `NaiveDate::from_ymd_opt(..)` then `num_days_from_ce()`
/// gives: the day number of a date that exists in the calendar and in
/// chrono's year range.
pub open spec fn calendar_day(year: i32, month: u32, day: u32) -> Option<i32> {
    if YEAR_MIN <= year <= YEAR_MAX && 1 <= month <= 12 && 1 <= day <= days_in_month(
        year as int,
        month as int,
    ) {
        Some(civil_day(year as int, month as int, day as int) as i32)
    } else {
        None
    }
}

/// The year, month and day of day number `days`: the date whose day
/// number it is.
pub open spec fn calendar_ymd(days: i32) -> (i32, u32, u32) {
    choose|t: (i32, u32, u32)| calendar_day(t.0, t.1, t.2) == Some(days)
}

/// chrono `NaiveDate::from_ymd_opt` followed by `num_days_from_ce`. Claims
/// the result is `calendar_day` (Gregorian day numbering, None for a date
/// that does not exist or lies outside chrono's years) and that a day
/// number chrono hands out lies within chrono's date range.
#[verifier::external_body]
fn chrono_day_of_ymd(year: i32, month: u32, day: u32) -> (r: Option<i32>)
    ensures
        r == calendar_day(year, month, day),
        r matches Some(n) ==> day_in_range(n as int),
{
    chrono::NaiveDate::from_ymd_opt(year, month, day).map(|d| chrono::Datelike::num_days_from_ce(&d))
}

/// chrono `NaiveDate::from_num_days_from_ce_opt` (which succeeds on every
/// day number in chrono's range) and the `year`, `month`, `day` accessors.
/// Claims the result is the date with that day number (`calendar_ymd`),
/// with month and day in their calendar ranges and the year in chrono's.
#[verifier::external_body]
fn chrono_ymd_of_day(days: i32) -> (r: (i32, u32, u32))
    requires
        day_in_range(days as int),
    ensures
        calendar_day(r.0, r.1, r.2) == Some(days),
        r == calendar_ymd(days),
        YEAR_MIN <= r.0 <= YEAR_MAX,
        1 <= r.1 <= 12,
        1 <= r.2 <= 31,
{
    let d = chrono::NaiveDate::from_num_days_from_ce_opt(days).unwrap();
    (chrono::Datelike::year(&d), chrono::Datelike::month(&d), chrono::Datelike::day(&d))
}

/// chrono `Utc::now().date_naive()`, as a day number. The current date
/// depends on the clock: nothing is claimed beyond chrono's range.
#[verifier::external_body]
fn chrono_today() -> (r: i32)
    ensures
        day_in_range(r as int),
{
    chrono::Datelike::num_days_from_ce(&chrono::Utc::now().date_naive())
}

/// chrono `Utc::now()`, in microseconds since the Unix epoch. Depends on
/// the clock: nothing is claimed of the value.
#[verifier::external_body]
fn chrono_now_micros() -> (r: i64) {
    chrono::Utc::now().timestamp_micros()
}

/// uuid `Uuid::new_v4()`, as its 128-bit value. Random: nothing is claimed
/// of the value.
#[verifier::external_body]
fn uuid_new_v4() -> (r: u128) {
    uuid::Uuid::new_v4().as_u128()
}

/// uuid `Uuid::parse_str(..)`, as its 128-bit value.
pub uninterp spec fn uuid_parsed(text: Seq<char>) -> Option<u128>;

/// uuid `Uuid::parse_str`; the outcome, success and value, is named by
/// `uuid_parsed` of the text. Also claims that the hyphenated form
/// `Uuid::to_string` writes parses back to the same value.
#[verifier::external_body]
fn uuid_parse_str(text: &str) -> (r: Option<u128>)
    ensures
        r == uuid_parsed(text@),
        forall|id: u128| #[trigger] hyphenated(id) == text@ ==> r == Some(id),
{
    uuid::Uuid::parse_str(text).ok().map(|u| u.as_u128())
}

/// The lower-case hexadecimal digit for `n` in `0..16`.
pub open spec fn hex_digit(n: int) -> char {
    if n < 10 {
        (48 + n) as char
    } else {
        (87 + n) as char
    }
}

/// The `k`-th hexadecimal digit of `id`, most significant first
/// (`k` in `0..32`).
pub open spec fn nibble(id: u128, k: int) -> int {
    (id as int / (pow2((4 * (31 - k)) as nat) as int)) % 16
}

/// The hyphenated lower-case form of an identifier, 8-4-4-4-12 hex
/// digits, such as `67e55044-10b1-426f-9247-bb680e5fe0c8`.
pub open spec fn hyphenated(id: u128) -> Seq<char> {
    let hex = Seq::new(32, |k: int| hex_digit(nibble(id, k)));
    hex.subrange(0, 8) + seq!['-'] + hex.subrange(8, 12) + seq!['-'] + hex.subrange(12, 16)
        + seq!['-'] + hex.subrange(16, 20) + seq!['-'] + hex.subrange(20, 32)
}

/// uuid `Uuid::from_u128(id).to_string()`, which writes the hyphenated
/// lower-case form.
#[verifier::external_body]
fn uuid_text(id: u128) -> (r: String)
    ensures
        r@ == hyphenated(id),
{
    uuid::Uuid::from_u128(id).to_string()
}

impl Date {
    /// The date with day number `days`, if chrono can represent it.
    pub fn from_day_number(days: i32) -> (r: Option<Date>)
        ensures
            r matches Some(d) ==> d@ == days as int,
            r is Some <==> day_in_range(days as int),
    {
        if DATE_MIN_DAY <= days && days <= DATE_MAX_DAY {
            Some(Date { days })
        } else {
            None
        }
    }

    /// The date `year-month-day`, if it exists in the calendar and in
    /// chrono's range.
    pub fn from_ymd(year: i32, month: u32, day: u32) -> (r: Option<Date>)
        ensures
            r matches Some(d) ==> calendar_day(year, month, day) == Some(d@ as i32),
            r is Some <==> calendar_day(year, month, day) is Some,
    {
        match chrono_day_of_ymd(year, month, day) {
            Some(n) => Some(Date { days: n }),
            None => None,
        }
    }

    /// The day number.
    pub fn day_number(&self) -> (r: i32)
        ensures
            r as int == self@,
            day_in_range(r as int),
    {
        proof {
            use_type_invariant(self);
        }
        self.days
    }

    /// Year, month and day of this date.
    pub fn ymd(&self) -> (r: (i32, u32, u32))
        ensures
            r == calendar_ymd(self@ as i32),
            YEAR_MIN <= r.0 <= YEAR_MAX,
            1 <= r.1 <= 12,
            1 <= r.2 <= 31,
    {
        proof {
            use_type_invariant(self);
        }
        chrono_ymd_of_day(self.days)
    }

    /// Today's date (UTC) from the system clock.
    pub fn today() -> (r: Date)
        ensures
            day_in_range(r@),
    {
        Date { days: chrono_today() }
    }

    /// `self + Duration::days(n)`.
    pub fn plus_days(&self, n: i32) -> (r: Date)
        requires
            day_in_range(self@ + n),
        ensures
            r@ == self@ + n,
    {
        Date { days: self.days + n }
    }

    /// `(self - other).num_days()`.
    pub fn days_since(&self, other: &Date) -> (r: i64)
        ensures
            r == self@ - other@,
    {
        proof {
            use_type_invariant(self);
            use_type_invariant(other);
        }
        self.days as i64 - other.days as i64
    }

    /// `self < other`.
    pub fn is_before(&self, other: &Date) -> (r: bool)
        ensures
            r == (self@ < other@),
    {
        self.days < other.days
    }

    #[verifier::type_invariant]
    spec fn in_range(self) -> bool {
        day_in_range(self.days as int)
    }
}

/// An instant, in microseconds since 1970-01-01T00:00:00Z.
#[derive(Clone, Copy, Debug, PartialEq, Eq, Structural, Hash)]
pub struct Timestamp {
    pub micros: i64,
}

/// Microseconds in a day.
pub const MICROS_PER_DAY: i64 = 86_400_000_000;

impl Timestamp {
    /// The current instant from the system clock.
    pub fn now() -> (r: Timestamp) {
        Timestamp { micros: chrono_now_micros() }
    }

    /// `self < other`.
    pub fn is_before(&self, other: &Timestamp) -> (r: bool)
        ensures
            r == (self.micros < other.micros),
    {
        self.micros < other.micros
    }

    /// `self + Duration::seconds(secs)`, if the instant is representable
    /// in microseconds.
    pub fn plus_seconds(&self, secs: i64) -> (r: Option<Timestamp>)
        ensures
            r is Some <==> i64::MIN <= self.micros + secs * 1_000_000 <= i64::MAX,
            r matches Some(t) ==> t.micros == self.micros + secs * 1_000_000,
    {
        let total: i128 = self.micros as i128 + (secs as i128) * 1_000_000i128;
        if total < i64::MIN as i128 || total > i64::MAX as i128 {
            None
        } else {
            Some(Timestamp { micros: total as i64 })
        }
    }

    /// `(self - earlier).num_days()`: the number of whole days between
    /// the two, negative when `earlier` is after `self` (rounded toward
    /// zero).
    pub fn whole_days_since(&self, earlier: &Timestamp) -> (r: i64)
        ensures
            self.micros >= earlier.micros ==> r == (self.micros - earlier.micros) / (
            MICROS_PER_DAY as int),
            self.micros < earlier.micros ==> r == -((earlier.micros - self.micros) / (
            MICROS_PER_DAY as int)),
    {
        if self.micros >= earlier.micros {
            let diff: i128 = self.micros as i128 - earlier.micros as i128;
            (diff / 86_400_000_000i128) as i64
        } else {
            let diff: i128 = earlier.micros as i128 - self.micros as i128;
            -((diff / 86_400_000_000i128) as i64)
        }
    }
}

/// A fresh random identifier (UUID version 4).
pub fn new_id() -> (r: u128) {
    uuid_new_v4()
}

/// The identifier written in `text`, if `text` is a UUID. The text
/// [`id_text`] writes reads back as the same identifier.
pub fn parse_id(text: &str) -> (r: Option<u128>)
    ensures
        r == uuid_parsed(text@),
        forall|id: u128| #[trigger] hyphenated(id) == text@ ==> r == Some(id),
{
    uuid_parse_str(text)
}

/// The canonical (hyphenated, lower-case) text of an identifier.
pub fn id_text(id: u128) -> (r: String)
    ensures
        r@ == hyphenated(id),
{
    uuid_text(id)
}

} // verus!
