//! Calendar dates as the seasons use them: read from `YYYY-MM-DD` text and shown the
//! way chrono's `NaiveDate` displays itself.
use chrono::Datelike;
use vstd::prelude::*;
use vstd::string::*;

use crate::text::{push_char, zero_padded, zero_padded_text};

verus! {

/// A calendar date (proleptic Gregorian).
#[derive(Clone, Copy, Debug, PartialEq, Eq, Structural)]
pub struct Date {
    pub year: i32,
    pub month: u32,
    pub day: u32,
}

/// What chrono's `NaiveDate::parse_from_str(s, "%Y-%m-%d")` reads from `s`, as
/// (year, month, day), or `None` when it rejects `s`.
pub uninterp spec fn parsed_ymd(s: Seq<char>) -> Option<(i32, u32, u32)>;

/// Calls chrono's `NaiveDate::parse_from_str` with the format `%Y-%m-%d` and reads the
/// parsed date's year, month and day. The result is named by `parsed_ymd`; a date that
/// chrono produces is a valid calendar date, so its month is 1..=12 and its day 1..=31.
#[verifier::external_body]
fn chrono_parse_ymd(s: &str) -> (r: Option<(i32, u32, u32)>)
    ensures
        r == parsed_ymd(s@),
        r matches Some(t) ==> 1 <= t.1 <= 12 && 1 <= t.2 <= 31,
{
    match chrono::NaiveDate::parse_from_str(s, "%Y-%m-%d") {
        Ok(d) => Some((d.year(), d.month(), d.day())),
        Err(_) => None,
    }
}

pub open spec fn date_of(t: (i32, u32, u32)) -> Date {
    Date { year: t.0, month: t.1, day: t.2 }
}

/// How a year is shown: four digits when it lies in 0..=9999, otherwise an explicit
/// sign followed by at least four digits.
pub open spec fn year_text(y: i32) -> Seq<char> {
    if 0 <= y && y <= 9999 {
        zero_padded(y as nat, 4)
    } else if y >= 0 {
        seq!['+'] + zero_padded(y as nat, 4)
    } else {
        seq!['-'] + zero_padded((-y) as nat, 4)
    }
}

/// `YYYY-MM-DD`, as chrono displays a `NaiveDate`.
pub open spec fn date_text(d: Date) -> Seq<char> {
    year_text(d.year) + seq!['-'] + zero_padded(d.month as nat, 2) + seq!['-'] + zero_padded(
        d.day as nat,
        2,
    )
}

impl Date {
    pub open spec fn wf(self) -> bool {
        1 <= self.month <= 12 && 1 <= self.day <= 31
    }

    /// Chronological order: `self` comes strictly after `other`.
    pub open spec fn later_than(self, other: Date) -> bool {
        ||| self.year > other.year
        ||| self.year == other.year && self.month > other.month
        ||| self.year == other.year && self.month == other.month && self.day > other.day
    }

    /// Reads a `YYYY-MM-DD` date (chrono's `%Y-%m-%d`).
    pub fn parse(s: &str) -> (r: Option<Date>)
        ensures
            r == (match parsed_ymd(s@) {
                Some(t) => Some(date_of(t)),
                None => None,
            }),
            r matches Some(d) ==> d.wf(),
    {
        match chrono_parse_ymd(s) {
            Some(t) => Some(Date { year: t.0, month: t.1, day: t.2 }),
            None => None,
        }
    }

    pub fn is_later_than(&self, other: &Date) -> (r: bool)
        ensures
            r == self.later_than(*other),
    {
        self.year > other.year || (self.year == other.year && self.month > other.month) || (
        self.year == other.year && self.month == other.month && self.day > other.day)
    }

    /// The date as text, `YYYY-MM-DD`.
    pub fn text(&self) -> (s: String)
        ensures
            s@ == date_text(*self),
    {
        let y = self.year;
        let mut s = if 0 <= y && y <= 9999 {
            zero_padded_text(y as u64, 4)
        } else if y >= 0 {
            let mut s = String::new();
            push_char(&mut s, '+');
            let d = zero_padded_text(y as u64, 4);
            s.append(d.as_str());
            s
        } else {
            let mut s = String::new();
            push_char(&mut s, '-');
            let m: u64 = (0 - (y as i64)) as u64;
            let d = zero_padded_text(m, 4);
            s.append(d.as_str());
            s
        };
        push_char(&mut s, '-');
        let m = zero_padded_text(self.month as u64, 2);
        s.append(m.as_str());
        push_char(&mut s, '-');
        let d = zero_padded_text(self.day as u64, 2);
        s.append(d.as_str());
        proof {
            assert(s@ =~= date_text(*self));
        }
        s
    }
}

/// Dates are ordered chronologically: a date in an earlier year, or an earlier month of
/// the same year, or an earlier day of the same month, is never later than the other;
/// the order is strict, total and transitive.
pub proof fn lemma_later_than_chronological(a: Date, b: Date, c: Date)
    ensures
        a.year < b.year ==> !a.later_than(b) && b.later_than(a),
        a.year == b.year && a.month < b.month ==> !a.later_than(b) && b.later_than(a),
        a.year == b.year && a.month == b.month ==> (a.later_than(b) <==> a.day > b.day),
        !a.later_than(a),
        a.later_than(b) ==> !b.later_than(a),
        a != b ==> a.later_than(b) || b.later_than(a),
        a.later_than(b) && b.later_than(c) ==> a.later_than(c),
{
}

} // verus!
