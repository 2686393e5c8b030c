//! Calendar data for the printed issue date: a plain day/month/year value,
//! the Thai month-abbreviation table, and the Buddhist-era year offset.

use crate::numfmt::{i64_to_string, spec_i64_digits, spec_u64_digits, u64_to_string};
use chrono::Datelike;
use vstd::prelude::*;

verus! {

/// Years added to the common-era year to obtain the Buddhist-era year
/// printed on a receipt.
pub const BUDDHIST_ERA_OFFSET: i64 = 543;

/// A calendar date as plain values. The well-formedness bounds are those
/// the system clock is known to respect.
pub struct BillDate {
    /// Day of month, starting from 1.
    pub day: u32,
    /// Month number, starting from 1.
    pub month: u32,
    /// Common-era year number.
    pub year: i32,
}

/// Mathematical view of a date.
pub struct BillDateView {
    pub day: nat,
    pub month: nat,
    pub year: int,
}

impl View for BillDate {
    type V = BillDateView;

    open spec fn view(&self) -> BillDateView {
        BillDateView { day: self.day as nat, month: self.month as nat, year: self.year as int }
    }
}

impl BillDateView {
    /// Ranges that the clock source documents for each field.
    pub open spec fn wf(self) -> bool {
        1 <= self.day <= 31 && 1 <= self.month <= 12 && -262143 <= self.year <= 262143
    }
}

impl BillDate {
    /// Ranges that the clock source documents for each field.
    pub open spec fn wf(self) -> bool {
        self@.wf()
    }
}

/// Reads the current local date from the system clock.
///
/// Relies on chrono's `Local::now` and the `Datelike` accessors `day`,
/// `month` and `year`: chrono documents `day` as ranging over 1 to 31,
/// `month` over 1 to 12, and the year as limited to about 262,000 years
/// either side of the common era. Nothing else holds of the result, which
/// depends on the clock.
#[verifier::external_body]
pub(crate) fn today() -> (d: BillDate)
    ensures
        d.wf(),
{
    let now = chrono::Local::now();
    BillDate { day: now.day(), month: now.month(), year: now.year() }
}

/// The Thai abbreviation of a month number, or empty when the number is
/// outside 1 to 12.
pub open spec fn spec_month_abbrev(m: nat) -> Seq<char> {
    if m == 1 {
        "ม.ค."@
    } else if m == 2 {
        "ก.พ."@
    } else if m == 3 {
        "มี.ค."@
    } else if m == 4 {
        "เม.ย."@
    } else if m == 5 {
        "พ.ค."@
    } else if m == 6 {
        "มิ.ย."@
    } else if m == 7 {
        "ก.ค."@
    } else if m == 8 {
        "ส.ค."@
    } else if m == 9 {
        "ก.ย."@
    } else if m == 10 {
        "ต.ค."@
    } else if m == 11 {
        "พ.ย."@
    } else if m == 12 {
        "ธ.ค."@
    } else {
        ""@
    }
}

/// The Thai abbreviation of a month number, empty outside 1 to 12.
pub fn month_abbrev(m: u32) -> (r: &'static str)
    ensures
        r@ == spec_month_abbrev(m as nat),
{
    if m == 1 {
        "ม.ค."
    } else if m == 2 {
        "ก.พ."
    } else if m == 3 {
        "มี.ค."
    } else if m == 4 {
        "เม.ย."
    } else if m == 5 {
        "พ.ค."
    } else if m == 6 {
        "มิ.ย."
    } else if m == 7 {
        "ก.ค."
    } else if m == 8 {
        "ส.ค."
    } else if m == 9 {
        "ก.ย."
    } else if m == 10 {
        "ต.ค."
    } else if m == 11 {
        "พ.ย."
    } else if m == 12 {
        "ธ.ค."
    } else {
        ""
    }
}

/// The day of month rendered as the clock source prints it: always two
/// digits, zero-padded below ten.
pub open spec fn spec_padded_day(day: nat) -> Seq<char> {
    if day < 10 {
        "0"@ + spec_u64_digits(day)
    } else {
        spec_u64_digits(day)
    }
}

/// The issue-date line of a receipt: zero-padded day, Thai month
/// abbreviation and Buddhist-era year, separated by single spaces.
pub open spec fn spec_issue_date_text(d: BillDateView) -> Seq<char> {
    spec_padded_day(d.day) + " "@ + spec_month_abbrev(d.month) + " "@ + spec_i64_digits(
        d.year + BUDDHIST_ERA_OFFSET as int,
    )
}

/// Formats the issue-date line for a receipt.
pub fn issue_date_text(d: &BillDate) -> (r: String)
    requires
        d.wf(),
    ensures
        r@ == spec_issue_date_text(d@),
{
    let mut s = if d.day < 10 {
        let mut padded = String::from_str("0");
        padded.append(u64_to_string(d.day as u64).as_str());
        proof {
            assert(padded@ =~= spec_padded_day(d@.day));
        }
        padded
    } else {
        u64_to_string(d.day as u64)
    };
    s.append(" ");
    s.append(month_abbrev(d.month));
    s.append(" ");
    let buddhist_year: i64 = d.year as i64 + BUDDHIST_ERA_OFFSET;
    s.append(i64_to_string(buddhist_year).as_str());
    proof {
        assert(s@ =~= spec_issue_date_text(d@));
    }
    s
}

} // verus!
