//! Instants as the local clock reads them.
//!
//! The crate keeps no calendar of its own. A `Moment` holds an instant together
//! with the calendar fields that the clock reported for it, and the rules of the
//! crate read those fields.

use chrono::{Datelike, Timelike};
use vstd::prelude::*;

verus! {

/// What a `Moment` says.
pub struct MomentView {
    /// Seconds since 1970-01-01 00:00:00 UTC, leap seconds not counted.
    pub timestamp: i64,
    /// Nanoseconds since the last full second; a leap second goes on into the
    /// second thousand million.
    pub nanos: u32,
    /// The calendar year on the local clock.
    pub year: i32,
    pub month: u32,
    pub day: u32,
    pub hour: u32,
    pub minute: u32,
}

impl MomentView {
    /// This instant is not later than `other`: it has fewer full seconds, or
    /// as many and no more nanoseconds.
    pub open spec fn not_after(self, other: MomentView) -> bool {
        ||| self.timestamp < other.timestamp
        ||| (self.timestamp == other.timestamp && self.nanos <= other.nanos)
    }

    /// Each field is one that a clock can show.
    pub open spec fn valid(self) -> bool {
        &&& self.nanos < 2_000_000_000
        &&& 1 <= self.month <= 12
        &&& 1 <= self.day <= 31
        &&& self.hour <= 23
        &&& self.minute <= 59
    }
}

/// An instant and its reading on the local clock.
#[derive(Debug, PartialEq, Eq, Hash)]
pub struct Moment {
    timestamp: i64,
    nanos: u32,
    year: i32,
    month: u32,
    day: u32,
    hour: u32,
    minute: u32,
}

impl View for Moment {
    type V = MomentView;

    closed spec fn view(&self) -> MomentView {
        MomentView {
            timestamp: self.timestamp,
            nanos: self.nanos,
            year: self.year,
            month: self.month,
            day: self.day,
            hour: self.hour,
            minute: self.minute,
        }
    }
}

impl Clone for Moment {
    fn clone(&self) -> (r: Self)
        ensures
            r == *self,
    {
        proof {
            use_type_invariant(self);
        }
        Moment {
            timestamp: self.timestamp,
            nanos: self.nanos,
            year: self.year,
            month: self.month,
            day: self.day,
            hour: self.hour,
            minute: self.minute,
        }
    }
}

impl Copy for Moment {

}

/// Reads the local clock: calls `chrono::Local::now` and, on the `DateTime`
/// that it returns, `timestamp`, `timestamp_subsec_nanos`, `year`, `month`,
/// `day`, `hour` and `minute`, and hands their results back in this order.
///
/// Nothing is claimed of the instant. The ranges are those that chrono
/// documents: `Datelike::month` ranges from 1 to 12 and `Datelike::day` from 1
/// to 31, `Timelike::hour` from 0 to 23 and `Timelike::minute` from 0 to 59;
/// the nanoseconds are those of `Timelike::nanosecond`, which stay below two
/// thousand million, a leap second included.
#[verifier::external_body]
fn read_local_clock() -> (r: (i64, u32, i32, u32, u32, u32, u32))
    ensures
        r.1 < 2_000_000_000,
        1 <= r.3 <= 12,
        1 <= r.4 <= 31,
        r.5 <= 23,
        r.6 <= 59,
{
    let now = chrono::Local::now();
    (
        now.timestamp(),
        now.timestamp_subsec_nanos(),
        now.year(),
        now.month(),
        now.day(),
        now.hour(),
        now.minute(),
    )
}

impl Moment {
    #[verifier::type_invariant]
    closed spec fn shown_by_a_clock(&self) -> bool {
        self@.valid()
    }

    /// The moment with these fields, where a clock can show them.
    pub fn new(
        timestamp: i64,
        nanos: u32,
        year: i32,
        month: u32,
        day: u32,
        hour: u32,
        minute: u32,
    ) -> (r: Option<Moment>)
        ensures
            ({
                let view = MomentView { timestamp, nanos, year, month, day, hour, minute };
                match r {
                    Some(m) => view.valid() && m@ == view,
                    None => !view.valid(),
                }
            }),
    {
        if nanos < 2_000_000_000 && 1 <= month && month <= 12 && 1 <= day && day <= 31 && hour
            <= 23 && minute <= 59 {
            Some(Moment { timestamp, nanos, year, month, day, hour, minute })
        } else {
            None
        }
    }

    /// The present moment on the local clock.
    pub fn now() -> (r: Moment)
        ensures
            r@.valid(),
    {
        let (timestamp, nanos, year, month, day, hour, minute) = read_local_clock();
        Moment { timestamp, nanos, year, month, day, hour, minute }
    }

    /// Whether this instant is not later than `other`.
    pub fn is_not_after(&self, other: &Moment) -> (r: bool)
        ensures
            r == self@.not_after(other@),
    {
        self.timestamp < other.timestamp || (self.timestamp == other.timestamp && self.nanos
            <= other.nanos)
    }

    /// The seconds since 1970-01-01 00:00:00 UTC, leap seconds not counted.
    pub fn timestamp(&self) -> (r: i64)
        ensures
            r == self@.timestamp,
    {
        self.timestamp
    }

    /// The nanoseconds since the last full second.
    pub fn timestamp_subsec_nanos(&self) -> (r: u32)
        ensures
            r == self@.nanos,
            r < 2_000_000_000,
    {
        proof {
            use_type_invariant(self);
        }
        self.nanos
    }

    /// The calendar year on the local clock.
    pub fn year(&self) -> (r: i32)
        ensures
            r == self@.year,
    {
        self.year
    }

    /// The month of the year, from 1.
    pub fn month(&self) -> (r: u32)
        ensures
            r == self@.month,
            1 <= r <= 12,
    {
        proof {
            use_type_invariant(self);
        }
        self.month
    }

    /// The day of the month, from 1.
    pub fn day(&self) -> (r: u32)
        ensures
            r == self@.day,
            1 <= r <= 31,
    {
        proof {
            use_type_invariant(self);
        }
        self.day
    }

    /// The hour of the day.
    pub fn hour(&self) -> (r: u32)
        ensures
            r == self@.hour,
            r <= 23,
    {
        proof {
            use_type_invariant(self);
        }
        self.hour
    }

    /// The minute of the hour.
    pub fn minute(&self) -> (r: u32)
        ensures
            r == self@.minute,
            r <= 59,
    {
        proof {
            use_type_invariant(self);
        }
        self.minute
    }
}

} // verus!
