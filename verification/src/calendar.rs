//! The moment by which a results file is named.

use chrono::NaiveDate;
use vstd::prelude::*;

verus! {

/// The earliest year that a reference time can lie in.
pub const MIN_YEAR: i32 = -262143;

/// The latest year that a reference time can lie in.
pub const MAX_YEAR: i32 = 262142;

/// A moment in UTC by calendar date and time of day, to the second.
#[derive(Debug, Clone, Copy, PartialEq, Eq)]
pub struct ReferenceTime {
    year: i32,
    month: u32,
    day: u32,
    hour: u32,
    minute: u32,
    second: u32,
}

/// A reference time as a mathematical value.
pub struct Moment {
    pub year: int,
    pub month: int,
    pub day: int,
    pub hour: int,
    pub minute: int,
    pub second: int,
}

/// Whether a year of the proleptic Gregorian calendar has a 29th of February.
pub open spec fn is_leap_year(year: int) -> bool {
    year % 4 == 0 && (year % 100 != 0 || year % 400 == 0)
}

/// The number of days of a month.
pub open spec fn days_in_month(year: int, month: int) -> int {
    if month == 2 {
        if is_leap_year(year) {
            29
        } else {
            28
        }
    } else if month == 4 || month == 6 || month == 9 || month == 11 {
        30
    } else {
        31
    }
}

/// The three letters by which a month is named.
pub open spec fn month_abbreviation(month: int) -> Seq<char> {
    if month == 1 {
        seq!['J', 'a', 'n']
    } else if month == 2 {
        seq!['F', 'e', 'b']
    } else if month == 3 {
        seq!['M', 'a', 'r']
    } else if month == 4 {
        seq!['A', 'p', 'r']
    } else if month == 5 {
        seq!['M', 'a', 'y']
    } else if month == 6 {
        seq!['J', 'u', 'n']
    } else if month == 7 {
        seq!['J', 'u', 'l']
    } else if month == 8 {
        seq!['A', 'u', 'g']
    } else if month == 9 {
        seq!['S', 'e', 'p']
    } else if month == 10 {
        seq!['O', 'c', 't']
    } else if month == 11 {
        seq!['N', 'o', 'v']
    } else {
        seq!['D', 'e', 'c']
    }
}

/// The decimal digits.
pub open spec fn digits() -> Seq<char> {
    seq!['0', '1', '2', '3', '4', '5', '6', '7', '8', '9']
}

/// A number below one hundred in two decimal digits.
pub open spec fn two_digits(n: int) -> Seq<char>
    recommends
        0 <= n < 100,
{
    seq![digits()[n / 10], digits()[n % 10]]
}

impl Moment {
    /// Whether the date exists and the time of day is one of its seconds.
    pub open spec fn valid(self) -> bool {
        &&& MIN_YEAR <= self.year <= MAX_YEAR
        &&& 1 <= self.month <= 12
        &&& 1 <= self.day <= days_in_month(self.year, self.month)
        &&& 0 <= self.hour < 24
        &&& 0 <= self.minute < 60
        &&& 0 <= self.second < 60
    }

    /// The moment as month, day, hour, minute and second, parted by hyphens:
    /// `Jan-05-14-30-02`.
    pub open spec fn stamp(self) -> Seq<char> {
        month_abbreviation(self.month) + seq!['-'] + two_digits(self.day) + seq!['-'] + two_digits(
            self.hour,
        ) + seq!['-'] + two_digits(self.minute) + seq!['-'] + two_digits(self.second)
    }
}

/// `NaiveDate::from_ymd_opt`, `NaiveDate::and_hms_opt`, `NaiveDateTime::and_utc`
/// and `DateTime::format` with the pattern `%b-%d-%H-%M-%S`: for a date that
/// exists and a time of day without leap second, the English abbreviation of
/// the month, then day, hour, minute and second in two digits each.
#[verifier::external_body]
fn format_stamp(year: i32, month: u32, day: u32, hour: u32, minute: u32, second: u32) -> (r:
    Option<String>)
    ensures
        (Moment {
            year: year as int,
            month: month as int,
            day: day as int,
            hour: hour as int,
            minute: minute as int,
            second: second as int,
        }).valid() ==> r is Some && r->Some_0@ == (Moment {
            year: year as int,
            month: month as int,
            day: day as int,
            hour: hour as int,
            minute: minute as int,
            second: second as int,
        }).stamp(),
{
    let date = NaiveDate::from_ymd_opt(year, month, day)?;
    let moment = date.and_hms_opt(hour, minute, second)?;
    Some(moment.and_utc().format("%b-%d-%H-%M-%S").to_string())
}

impl View for ReferenceTime {
    type V = Moment;

    closed spec fn view(&self) -> Moment {
        Moment {
            year: self.year as int,
            month: self.month as int,
            day: self.day as int,
            hour: self.hour as int,
            minute: self.minute as int,
            second: self.second as int,
        }
    }
}

/// Whether a year has a 29th of February.
fn leap_year(year: i32) -> (r: bool)
    requires
        MIN_YEAR <= year <= MAX_YEAR,
    ensures
        r == is_leap_year(year as int),
{
    // 262400 is a multiple of 400, so the shifted year has the same remainders.
    let shifted: i32 = year + 262400;
    assert((year as int) % 4 == (shifted as int) % 4 && (year as int) % 100 == (shifted as int)
        % 100 && (year as int) % 400 == (shifted as int) % 400);
    shifted % 4 == 0 && (shifted % 100 != 0 || shifted % 400 == 0)
}

impl ReferenceTime {
    #[verifier::type_invariant]
    spec fn wf(self) -> bool {
        self@.valid()
    }

    /// The moment with the given date and time of day, if there is one.
    pub fn new(year: i32, month: u32, day: u32, hour: u32, minute: u32, second: u32) -> (r: Option<
        ReferenceTime,
    >)
        ensures
            match r {
                Some(t) => t@ == (Moment {
                    year: year as int,
                    month: month as int,
                    day: day as int,
                    hour: hour as int,
                    minute: minute as int,
                    second: second as int,
                }) && t@.valid(),
                None => !(Moment {
                    year: year as int,
                    month: month as int,
                    day: day as int,
                    hour: hour as int,
                    minute: minute as int,
                    second: second as int,
                }).valid(),
            },
    {
        if year < MIN_YEAR || year > MAX_YEAR || month < 1 || month > 12 || day < 1 {
            return None;
        }
        let days: u32 = if month == 2 {
            if leap_year(year) {
                29
            } else {
                28
            }
        } else if month == 4 || month == 6 || month == 9 || month == 11 {
            30
        } else {
            31
        };
        if day > days || hour >= 24 || minute >= 60 || second >= 60 {
            return None;
        }
        Some(ReferenceTime { year, month, day, hour, minute, second })
    }

    /// The moment as month, day, hour, minute and second: `Jan-05-14-30-02`.
    pub fn stamp(&self) -> (r: String)
        ensures
            self@.valid(),
            r@ == self@.stamp(),
    {
        proof {
            use_type_invariant(self);
        }
        match format_stamp(self.year, self.month, self.day, self.hour, self.minute, self.second) {
            Some(text) => text,
            None => String::new(),
        }
    }
}

} // verus!
