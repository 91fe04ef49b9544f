use vstd::prelude::*;

use crate::text::digit_char;
use crate::text::digit_str;

verus! {

/// Whether `y` is a leap year in the proleptic Gregorian calendar.
pub open spec fn spec_is_leap_year(y: nat) -> bool {
    (y % 4 == 0 && y % 100 != 0) || y % 400 == 0
}

/// The number of days in month `m` of year `y`; meaningful for
/// `1 <= m <= 12`.
pub open spec fn spec_days_in_month(y: nat, m: nat) -> nat {
    if m == 4 || m == 6 || m == 9 || m == 11 {
        30
    } else if m == 2 {
        if spec_is_leap_year(y) {
            29
        } else {
            28
        }
    } else {
        31
    }
}

/// `n` in decimal, zero-padded to four digits; meaningful for `n <= 9999`.
pub open spec fn spec_pad4(n: nat) -> Seq<char> {
    seq![
        digit_char(n / 1000),
        digit_char(n / 100 % 10),
        digit_char(n / 10 % 10),
        digit_char(n % 10),
    ]
}

/// `n` in decimal, zero-padded to two digits; meaningful for `n <= 99`.
pub open spec fn spec_pad2(n: nat) -> Seq<char> {
    seq![digit_char(n / 10), digit_char(n % 10)]
}

/// A calendar date with no time-of-day component, rendered on the wire as
/// ISO-8601 `YYYY-MM-DD`.
#[derive(Debug, Clone, Copy, PartialEq, Eq, Structural)]
pub struct Date {
    pub year: u16,
    pub month: u8,
    pub day: u8,
}

impl Date {
    /// A real calendar date with a four-digit year.
    pub open spec fn valid(self) -> bool {
        &&& self.year <= 9999
        &&& 1 <= self.month <= 12
        &&& 1 <= self.day <= spec_days_in_month(self.year as nat, self.month as nat)
    }

    /// Builds the date when the fields name a real calendar date.
    pub fn new(year: u16, month: u8, day: u8) -> (r: Option<Date>)
        ensures
            r is Some <==> (Date { year, month, day }).valid(),
            r matches Some(d) ==> d == (Date { year, month, day }),
    {
        if year <= 9999 && 1 <= month && month <= 12 && 1 <= day && day <= days_in_month(
            year,
            month,
        ) {
            Some(Date { year, month, day })
        } else {
            None
        }
    }

    /// The ISO-8601 rendering, `YYYY-MM-DD`, zero-padded.
    pub open spec fn spec_iso8601(self) -> Seq<char> {
        spec_pad4(self.year as nat) + seq!['-'] + spec_pad2(self.month as nat) + seq!['-']
            + spec_pad2(self.day as nat)
    }

    /// Renders the date as ISO-8601 `YYYY-MM-DD`.
    pub fn iso8601(&self) -> (r: String)
        requires
            self.valid(),
        ensures
            r@ == self.spec_iso8601(),
    {
        let y = self.year;
        let mut r = String::new();
        r.append(digit_str((y / 1000) as u8));
        r.append(digit_str((y / 100 % 10) as u8));
        r.append(digit_str((y / 10 % 10) as u8));
        r.append(digit_str((y % 10) as u8));
        r.append("-");
        r.append(digit_str(self.month / 10));
        r.append(digit_str(self.month % 10));
        r.append("-");
        r.append(digit_str(self.day / 10));
        r.append(digit_str(self.day % 10));
        proof {
            reveal_strlit("-");
            assert(r@ =~= self.spec_iso8601());
        }
        r
    }
}

/// Whether `year` is a leap year.
pub fn is_leap_year(year: u16) -> (r: bool)
    ensures
        r == spec_is_leap_year(year as nat),
{
    (year % 4 == 0 && year % 100 != 0) || year % 400 == 0
}

/// The number of days in `month` of `year`.
pub fn days_in_month(year: u16, month: u8) -> (r: u8)
    requires
        1 <= month <= 12,
    ensures
        r as nat == spec_days_in_month(year as nat, month as nat),
{
    if month == 4 || month == 6 || month == 9 || month == 11 {
        30
    } else if month == 2 {
        if is_leap_year(year) {
            29
        } else {
            28
        }
    } else {
        31
    }
}

} // verus!
