use vstd::prelude::*;

verus! {

/// The earliest year a date may have.
pub const MIN_YEAR: i32 = -262143;

/// The latest year a date may have.
pub const MAX_YEAR: i32 = 262142;

/// Leap years of the proleptic Gregorian calendar.
pub open spec fn is_leap_year(y: int) -> bool {
    y % 4 == 0 && (y % 100 != 0 || y % 400 == 0)
}

/// Number of days in month `m` of year `y`.
pub open spec fn days_in_month(y: int, m: int) -> int {
    if m == 2 {
        if is_leap_year(y) {
            29
        } else {
            28
        }
    } else if m == 4 || m == 6 || m == 9 || m == 11 {
        30
    } else {
        31
    }
}

/// A calendar date within the supported range of years.
pub open spec fn valid_ymd(y: i32, m: u32, d: u32) -> bool {
    MIN_YEAR <= y <= MAX_YEAR && 1 <= m <= 12 && 1 <= d <= days_in_month(y as int, m as int)
}

/// A time of day; a nanosecond count of a second or more marks a leap
/// second, and only in the last second of a minute.
pub open spec fn valid_hmsn(h: u32, m: u32, s: u32, n: u32) -> bool {
    h < 24 && m < 60 && s < 60 && n < 2_000_000_000 && (n >= 1_000_000_000 ==> s == 59)
}

/// The decimal digit for `n`, which is below ten.
pub open spec fn digit(n: int) -> char {
    seq!['0', '1', '2', '3', '4', '5', '6', '7', '8', '9'][n]
}

/// `n`, below one hundred, as two decimal digits.
pub open spec fn two_digits(n: int) -> Seq<char> {
    seq![digit(n / 10), digit(n % 10)]
}

/// `n`, below ten thousand, as four decimal digits.
pub open spec fn four_digits(n: int) -> Seq<char> {
    two_digits(n / 100) + two_digits(n % 100)
}

/// How a date is written: year, month and day joined by dashes.
pub open spec fn date_text_spec(y: i32, m: u32, d: u32) -> Seq<char> {
    four_digits(y as int) + "-"@ + two_digits(m as int) + "-"@ + two_digits(d as int)
}

/// How a time is written as hours and minutes.
pub open spec fn clock_text_spec(h: u32, m: u32) -> Seq<char> {
    two_digits(h as int) + ":"@ + two_digits(m as int)
}

/// A calendar date, without a time zone.
#[derive(Debug, Clone, Copy, PartialEq, Eq, Structural)]
pub struct Date {
    year: i32,
    month: u32,
    day: u32,
}

/// A time of day to the nanosecond, without a time zone.
#[derive(Debug, Clone, Copy, PartialEq, Eq, Structural)]
pub struct Time {
    hour: u32,
    minute: u32,
    second: u32,
    nano: u32,
}

impl View for Date {
    type V = (i32, u32, u32);

    closed spec fn view(&self) -> (i32, u32, u32) {
        (self.year, self.month, self.day)
    }
}

impl View for Time {
    type V = (u32, u32, u32, u32);

    closed spec fn view(&self) -> (u32, u32, u32, u32) {
        (self.hour, self.minute, self.second, self.nano)
    }
}

impl Date {
    #[verifier::type_invariant]
    spec fn inv(&self) -> bool {
        valid_ymd(self.year, self.month, self.day)
    }

    /// The date with these year, month and day, if it exists.
    pub fn new(year: i32, month: u32, day: u32) -> (r: Option<Date>)
        ensures
            r.is_some() == valid_ymd(year, month, day),
            r matches Some(d) ==> d@ == (year, month, day),
    {
        if date_is_valid(year, month, day) {
            Some(Date { year, month, day })
        } else {
            None
        }
    }

    /// Dates with the same year, month and day are the same date.
    pub proof fn lemma_view_injective(a: Date, b: Date)
        ensures
            a@ == b@ <==> a == b,
    {
    }

    pub fn year(&self) -> (r: i32)
        ensures
            r == self@.0,
    {
        self.year
    }

    pub fn month(&self) -> (r: u32)
        ensures
            r == self@.1,
    {
        self.month
    }

    pub fn day(&self) -> (r: u32)
        ensures
            r == self@.2,
    {
        self.day
    }

    /// The date written as year-month-day; a year from 0 to 9999 takes four
    /// digits.
    pub fn to_text(&self) -> (r: String)
        ensures
            0 <= self@.0 <= 9999 ==> r@ == date_text_spec(self@.0, self@.1, self@.2),
    {
        proof {
            use_type_invariant(self);
        }
        date_text(self.year, self.month, self.day)
    }
}

impl Time {
    #[verifier::type_invariant]
    spec fn inv(&self) -> bool {
        valid_hmsn(self.hour, self.minute, self.second, self.nano)
    }

    /// The time with these hour, minute, second and nanosecond, if it exists.
    pub fn new(hour: u32, minute: u32, second: u32, nano: u32) -> (r: Option<Time>)
        ensures
            r.is_some() == valid_hmsn(hour, minute, second, nano),
            r matches Some(t) ==> t@ == (hour, minute, second, nano),
    {
        if time_is_valid(hour, minute, second, nano) {
            Some(Time { hour, minute, second, nano })
        } else {
            None
        }
    }

    /// Times with the same fields are the same time.
    pub proof fn lemma_view_injective(a: Time, b: Time)
        ensures
            a@ == b@ <==> a == b,
    {
    }

    pub fn hour(&self) -> (r: u32)
        ensures
            r == self@.0,
    {
        self.hour
    }

    pub fn minute(&self) -> (r: u32)
        ensures
            r == self@.1,
    {
        self.minute
    }

    pub fn second(&self) -> (r: u32)
        ensures
            r == self@.2,
    {
        self.second
    }

    pub fn nano(&self) -> (r: u32)
        ensures
            r == self@.3,
    {
        self.nano
    }

    /// The hour and minute, written as two digits each around a colon.
    pub fn to_clock_text(&self) -> (r: String)
        ensures
            r@ == clock_text_spec(self@.0, self@.1),
    {
        proof {
            use_type_invariant(self);
        }
        clock_text(self.hour, self.minute, self.second, self.nano)
    }
}

/// Relies on chrono's `NaiveDate::from_ymd_opt`: it gives a date exactly for
/// the calendar dates of the supported years.
#[verifier::external_body]
fn date_is_valid(year: i32, month: u32, day: u32) -> (r: bool)
    ensures
        r == valid_ymd(year, month, day),
{
    chrono::NaiveDate::from_ymd_opt(year, month, day).is_some()
}

/// Relies on chrono's `NaiveTime::from_hms_nano_opt`: it gives a time
/// exactly for the valid hour, minute, second and nanosecond counts.
#[verifier::external_body]
fn time_is_valid(hour: u32, minute: u32, second: u32, nano: u32) -> (r: bool)
    ensures
        r == valid_hmsn(hour, minute, second, nano),
{
    chrono::NaiveTime::from_hms_nano_opt(hour, minute, second, nano).is_some()
}

/// Relies on the `Display` of chrono's `NaiveDate`: a year from 0 to 9999 as
/// four digits, then month and day as two digits each, joined by dashes.
#[verifier::external_body]
fn date_text(year: i32, month: u32, day: u32) -> (r: String)
    requires
        valid_ymd(year, month, day),
    ensures
        0 <= year <= 9999 ==> r@ == date_text_spec(year, month, day),
{
    chrono::NaiveDate::from_ymd_opt(year, month, day).unwrap().to_string()
}

/// Relies on chrono's `NaiveTime::format` with `%H:%M`: hour and minute as
/// two digits each around a colon.
#[verifier::external_body]
fn clock_text(hour: u32, minute: u32, second: u32, nano: u32) -> (r: String)
    requires
        valid_hmsn(hour, minute, second, nano),
    ensures
        r@ == clock_text_spec(hour, minute),
{
    chrono::NaiveTime::from_hms_nano_opt(hour, minute, second, nano).unwrap().format("%H:%M").to_string()
}

} // verus!
