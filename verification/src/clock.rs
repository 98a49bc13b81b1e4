//! Readings of the local wall clock and their text.

use crate::text::{four_digit_string, magnitude, two_digit_string, zero_padded};
use vstd::prelude::*;

verus! {

/// A reading of the local wall clock, to the second: the calendar date and
/// the time of day as a clock face shows them.
#[derive(Clone, Copy, Debug, PartialEq, Eq, Structural)]
pub struct Timestamp {
    pub year: i32,
    pub month: u32,
    pub day: u32,
    pub hour: u32,
    pub minute: u32,
    pub second: u32,
}

/// Whether the six numbers can stand on a calendar and a clock face: a month
/// from 1 to 12, a day from 1 to 31, an hour below 24, a minute and a second
/// below 60. The length of the month is not looked at.
pub open spec fn on_clock_face(month: int, day: int, hour: int, minute: int, second: int) -> bool {
    &&& 1 <= month <= 12
    &&& 1 <= day <= 31
    &&& 0 <= hour <= 23
    &&& 0 <= minute <= 59
    &&& 0 <= second <= 59
}

/// The text of a year: four digits from 0 to 9999, and a sign in front of at
/// least four digits for every other year.
pub open spec fn year_text(year: int) -> Seq<char> {
    if 0 <= year <= 9999 {
        zero_padded(year as nat, 4)
    } else if year < 0 {
        seq!['-'] + zero_padded((-year) as nat, 4)
    } else {
        seq!['+'] + zero_padded(year as nat, 4)
    }
}

impl Timestamp {
    /// A reading is well formed when its fields can stand on a clock face.
    pub open spec fn wf(&self) -> bool {
        on_clock_face(
            self.month as int,
            self.day as int,
            self.hour as int,
            self.minute as int,
            self.second as int,
        )
    }

    /// The reading as date and time of day, `2024-03-09 07:05:00`: every
    /// field but the year padded with a zero to two characters.
    pub open spec fn text(&self) -> Seq<char> {
        year_text(self.year as int) + seq!['-'] + zero_padded(self.month as nat, 2) + seq!['-']
            + zero_padded(self.day as nat, 2) + seq![' '] + zero_padded(self.hour as nat, 2)
            + seq![':'] + zero_padded(self.minute as nat, 2) + seq![':'] + zero_padded(
            self.second as nat,
            2,
        )
    }

    /// Makes a reading from its six fields, if they can stand on a clock face.
    pub fn new(year: i32, month: u32, day: u32, hour: u32, minute: u32, second: u32) -> (made:
        Option<Timestamp>)
        ensures
            on_clock_face(month as int, day as int, hour as int, minute as int, second as int)
                ==> made == Some(Timestamp { year, month, day, hour, minute, second }),
            !on_clock_face(month as int, day as int, hour as int, minute as int, second as int)
                ==> made.is_none(),
    {
        if 1 <= month && month <= 12 && 1 <= day && day <= 31 && hour <= 23 && minute <= 59
            && second <= 59 {
            Some(Timestamp { year, month, day, hour, minute, second })
        } else {
            None
        }
    }

    /// Writes the reading out as date and time of day.
    pub fn to_text(&self) -> (s: String)
        ensures
            s@ == self.text(),
    {
        let sign = if self.year < 0 {
            "-"
        } else if self.year > 9999 {
            "+"
        } else {
            ""
        };
        let mut s = String::from_str(sign);
        let year = four_digit_string(magnitude(self.year as i64));
        s.append(year.as_str());
        s.append("-");
        let month = two_digit_string(self.month as u64);
        s.append(month.as_str());
        s.append("-");
        let day = two_digit_string(self.day as u64);
        s.append(day.as_str());
        s.append(" ");
        let hour = two_digit_string(self.hour as u64);
        s.append(hour.as_str());
        s.append(":");
        let minute = two_digit_string(self.minute as u64);
        s.append(minute.as_str());
        s.append(":");
        let second = two_digit_string(self.second as u64);
        s.append(second.as_str());
        proof {
            reveal_strlit("-");
            reveal_strlit("+");
            reveal_strlit("");
            reveal_strlit(" ");
            reveal_strlit(":");
            assert(s@ =~= self.text());
        }
        s
    }
}

/// Reads the local wall clock with `chrono::Local::now` and takes the six
/// fields from it with the getters of chrono's `Datelike` and `Timelike`.
/// Nothing is claimed of which moment comes back, only the ranges that chrono
/// documents for those getters.
#[verifier::external_body]
pub(crate) fn local_now() -> (now: Timestamp)
    ensures
        now.wf(),
{
    let now = chrono::Local::now();
    Timestamp {
        year: chrono::Datelike::year(&now),
        month: chrono::Datelike::month(&now),
        day: chrono::Datelike::day(&now),
        hour: chrono::Timelike::hour(&now),
        minute: chrono::Timelike::minute(&now),
        second: chrono::Timelike::second(&now),
    }
}

} // verus!
