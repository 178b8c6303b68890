//! Calendar days and instants as plain numbers.
//!
//! A [`Date`] counts days in the proleptic Gregorian calendar, day 1 being
//! January 1 of year 1; a [`Timestamp`] adds the time of day. Ratings are
//! grouped by the date of their timestamp.

use chrono::{Datelike, Timelike, Utc};
use vstd::prelude::*;

verus! {

/// A calendar day.
#[derive(Clone, Copy, Debug, PartialEq, Eq, Structural, Hash)]
pub struct Date {
    pub days_from_ce: i32,
}

/// An instant without a time zone: a day and the time passed since its
/// midnight.
#[derive(Clone, Copy, Debug, PartialEq, Eq, Structural, Hash)]
pub struct Timestamp {
    pub date: Date,
    pub seconds_from_midnight: u32,
    pub nanoseconds: u32,
}

/// The day count of January 1, 1970, from which the system clock counts.
pub const UNIX_EPOCH_DAY: i32 = 719_163;

impl Timestamp {
    /// The time of day lies within the day, and in no leap second: fewer
    /// than 86 400 seconds since midnight, and less than a second since the
    /// last whole second.
    pub open spec fn within_day(self) -> bool {
        self.seconds_from_midnight < 86_400 && self.nanoseconds < 1_000_000_000
    }

    /// The midnight that begins `date`.
    pub open spec fn midnight_of(date: Date) -> Timestamp {
        Timestamp { date, seconds_from_midnight: 0, nanoseconds: 0 }
    }

    /// The day on which this instant falls.
    pub fn date(&self) -> (r: Date)
        ensures
            r == self.date,
    {
        self.date
    }

    /// The midnight that begins `date`.
    pub fn at_midnight(date: Date) -> (r: Timestamp)
        ensures
            r == Timestamp::midnight_of(date),
    {
        Timestamp { date, seconds_from_midnight: 0, nanoseconds: 0 }
    }

    /// This instant moved back to the midnight of its day.
    pub fn truncated_to_day(&self) -> (r: Timestamp)
        ensures
            r == Timestamp::midnight_of(self.date),
    {
        Timestamp::at_midnight(self.date)
    }

    /// The current instant in UTC. The clock decides which; it is a time of
    /// day on a day not before 1970.
    pub fn now() -> (r: Timestamp)
        ensures
            r.within_day(),
            r.date.days_from_ce >= UNIX_EPOCH_DAY,
    {
        utc_now()
    }
}

/// `chrono`'s `Utc::now`, read as a day count, the seconds since midnight and
/// the nanoseconds since that second. Assumed: `Utc::now` builds the instant
/// from the whole seconds and the nanoseconds that the system clock counts
/// since 1970, so the day is not before 1970, the seconds since midnight
/// are fewer than 86 400 and the nanoseconds fewer than a second's. Which
/// instant it is, the clock decides. `Utc::now` panics where the system clock
/// stands before 1970; the clock is taken to be set.
#[verifier::external_body]
fn utc_now() -> (r: Timestamp)
    ensures
        r.within_day(),
        r.date.days_from_ce >= UNIX_EPOCH_DAY,
{
    let now = Utc::now().naive_utc();
    Timestamp {
        date: Date { days_from_ce: now.date().num_days_from_ce() },
        seconds_from_midnight: now.time().num_seconds_from_midnight(),
        nanoseconds: now.time().nanosecond(),
    }
}

} // verus!
