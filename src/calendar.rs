//! Build dates of nightly releases.

use crate::text::{
    all_digits, decimal, decimal_value, lemma_decimal_reads_back, lemma_leading_zero, push_decimal,
};
use core::cmp::Ordering;
use vstd::prelude::*;

verus! {

#[verifier::external_type_specification]
#[verifier::external_body]
pub struct ExNaiveDate(chrono::NaiveDate);

/// The last year that `chrono::NaiveDate` can hold.
pub const LAST_YEAR: u32 = 262142;

pub open spec fn is_leap_year(y: int) -> bool {
    (y % 4 == 0 && y % 100 != 0) || y % 400 == 0
}

pub open spec fn days_in_month(y: int, m: int) -> int {
    if m == 2 {
        if is_leap_year(y) {
            29
        } else {
            28
        }
    } else if m == 4 || m == 6 || m == 9 || m == 11 {
        30
    } else {
        31
    }
}

/// A day of the proleptic Gregorian calendar within the years that `chrono` covers.
pub open spec fn calendar_date(y: int, m: int, d: int) -> bool {
    -262143 <= y <= LAST_YEAR && 1 <= m <= 12 && 1 <= d <= days_in_month(y, m)
}

/// Relies on `chrono::NaiveDate::from_ymd_opt`: `None` exactly where the day does not
/// exist, the month or day is invalid, or the year is out of range.
pub assume_specification[ chrono::NaiveDate::from_ymd_opt ](year: i32, month: u32, day: u32) -> (r: Option<chrono::NaiveDate>)
    ensures
        r is Some == calendar_date(year as int, month as int, day as int),
;

/// A calendar day on which a nightly build was published.
#[derive(Debug, Clone, Copy, PartialEq, Eq, Structural)]
pub struct BuildDate {
    year: u32,
    month: u32,
    day: u32,
}

/// `n` written with at least two digits.
pub open spec fn two_digits(n: nat) -> Seq<char> {
    if n < 10 {
        seq!['0'] + decimal(n)
    } else {
        decimal(n)
    }
}

/// A year as `chrono` writes `%Y`: four digits, or a sign and all digits past 9999.
pub open spec fn year_digits(y: nat) -> Seq<char> {
    if y < 10 {
        seq!['0', '0', '0'] + decimal(y)
    } else if y < 100 {
        seq!['0', '0'] + decimal(y)
    } else if y < 1000 {
        seq!['0'] + decimal(y)
    } else if y < 10000 {
        decimal(y)
    } else {
        seq!['+'] + decimal(y)
    }
}

/// The `%Y%m%d` stamp of a day.
pub open spec fn date_stamp(d: (u32, u32, u32)) -> Seq<char> {
    year_digits(d.0 as nat) + two_digits(d.1 as nat) + two_digits(d.2 as nat)
}

/// Chronological order of two days.
pub open spec fn date_order(a: (u32, u32, u32), b: (u32, u32, u32)) -> Ordering {
    if a.0 != b.0 {
        if a.0 < b.0 {
            Ordering::Less
        } else {
            Ordering::Greater
        }
    } else if a.1 != b.1 {
        if a.1 < b.1 {
            Ordering::Less
        } else {
            Ordering::Greater
        }
    } else if a.2 != b.2 {
        if a.2 < b.2 {
            Ordering::Less
        } else {
            Ordering::Greater
        }
    } else {
        Ordering::Equal
    }
}

/// A year up to 9999 is written as four digits that read back as the year.
pub proof fn lemma_year_digits(y: nat)
    requires
        y <= 9999,
    ensures
        year_digits(y).len() == 4,
        all_digits(year_digits(y)),
        decimal_value(year_digits(y)) == y,
{
    lemma_decimal_reads_back(y);
    let t = decimal(y);
    if y < 10 {
        lemma_leading_zero(t);
        lemma_leading_zero(seq!['0'] + t);
        lemma_leading_zero(seq!['0'] + (seq!['0'] + t));
        assert(seq!['0', '0', '0'] + t == seq!['0'] + (seq!['0'] + (seq!['0'] + t)));
    } else if y < 100 {
        lemma_leading_zero(t);
        lemma_leading_zero(seq!['0'] + t);
        assert(seq!['0', '0'] + t == seq!['0'] + (seq!['0'] + t));
    } else if y < 1000 {
        lemma_leading_zero(t);
    }
}

/// A number up to 99 is written as two digits that read back as the number.
pub proof fn lemma_two_digits(n: nat)
    requires
        n <= 99,
    ensures
        two_digits(n).len() == 2,
        all_digits(two_digits(n)),
        decimal_value(two_digits(n)) == n,
{
    lemma_decimal_reads_back(n);
    if n < 10 {
        lemma_leading_zero(decimal(n));
    }
}

fn push_two_digits(out: &mut String, n: u32)
    ensures
        final(out)@ == old(out)@ + two_digits(n as nat),
{
    if n < 10 {
        out.push('0');
    }
    push_decimal(out, n as u64);
}

impl View for BuildDate {
    type V = (u32, u32, u32);

    closed spec fn view(&self) -> (u32, u32, u32) {
        (self.year, self.month, self.day)
    }
}

impl BuildDate {
    #[verifier::type_invariant]
    closed spec fn inv(&self) -> bool {
        calendar_date(self.year as int, self.month as int, self.day as int)
    }

    /// The day with this year, month and day of month, where the calendar has one.
    pub fn new(year: u32, month: u32, day: u32) -> (r: Option<BuildDate>)
        ensures
            r is Some == calendar_date(year as int, month as int, day as int),
            r is Some ==> r->Some_0@ == (year, month, day),
    {
        if year > LAST_YEAR {
            return None;
        }
        match chrono::NaiveDate::from_ymd_opt(year as i32, month, day) {
            Some(_) => Some(BuildDate { year, month, day }),
            None => None,
        }
    }

    pub fn year(&self) -> (r: u32)
        ensures
            r == self@.0,
    {
        self.year
    }

    pub fn month(&self) -> (r: u32)
        ensures
            r == self@.1,
    {
        self.month
    }

    pub fn day(&self) -> (r: u32)
        ensures
            r == self@.2,
    {
        self.day
    }

    /// States that the date is a day of the calendar.
    pub fn show_valid(&self)
        ensures
            calendar_date(self@.0 as int, self@.1 as int, self@.2 as int),
    {
        proof {
            use_type_invariant(self);
        }
    }

    /// Appends the `%Y%m%d` stamp of the day to `out`.
    pub fn push_stamp(&self, out: &mut String)
        ensures
            final(out)@ == old(out)@ + date_stamp(self@),
    {
        let y = self.year;
        if y < 10 {
            out.push('0');
            out.push('0');
            out.push('0');
        } else if y < 100 {
            out.push('0');
            out.push('0');
        } else if y < 1000 {
            out.push('0');
        } else if y >= 10000 {
            out.push('+');
        }
        push_decimal(out, y as u64);
        push_two_digits(out, self.month);
        push_two_digits(out, self.day);
    }

    /// Chronological order.
    pub fn compare(&self, other: &BuildDate) -> (r: Ordering)
        ensures
            r == date_order(self@, other@),
    {
        if self.year != other.year {
            if self.year < other.year {
                Ordering::Less
            } else {
                Ordering::Greater
            }
        } else if self.month != other.month {
            if self.month < other.month {
                Ordering::Less
            } else {
                Ordering::Greater
            }
        } else if self.day != other.day {
            if self.day < other.day {
                Ordering::Less
            } else {
                Ordering::Greater
            }
        } else {
            Ordering::Equal
        }
    }
}

} // verus!
