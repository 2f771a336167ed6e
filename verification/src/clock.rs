//! The wall clock and the local calendar.
//!
//! The solar clock works on civil dates, so each cycle needs the present
//! instant, its date in the local time zone, and the date one day later.
//! Both come from `chrono`; what they are depends on the machine's clock and
//! time zone, and the library takes them as they come.

use vstd::prelude::*;
use chrono::Datelike;
use chrono::TimeZone;

verus! {

/// A date of the civil calendar.
#[derive(Debug, Clone, Copy, PartialEq, Eq, Structural)]
pub struct CivilDate {
    pub year: i32,
    pub month: u32,
    pub day: u32,
}

/// One look at the clock: the instant, in seconds since the epoch, its
/// local date, and the local date a day later.
#[derive(Debug, Clone, Copy, PartialEq, Eq, Structural)]
pub struct ClockReading {
    pub now: i64,
    pub today: CivilDate,
    pub tomorrow: CivilDate,
}

/// The length of the step from today to tomorrow, in seconds.
pub const SECONDS_PER_DAY: i64 = 86_400;

/// The first instant that the calendar reaches: midnight, in universal
/// time, on the first day of the year -262143.
pub const CALENDAR_FIRST: i64 = -8_334_601_228_800;

/// The last instant that the calendar reaches: the last second, in
/// universal time, of the year 262142.
pub const CALENDAR_LAST: i64 = 8_210_266_876_799;

/// The calendar reaches this instant.
pub open spec fn in_reach(instant: int) -> bool {
    CALENDAR_FIRST <= instant <= CALENDAR_LAST
}

impl CivilDate {
    /// The month and the day are in the ranges of the calendar.
    pub open spec fn in_calendar(self) -> bool {
        1 <= self.month <= 12 && 1 <= self.day <= 31
    }
}

impl ClockReading {
    /// Both dates are in the ranges of the calendar.
    pub open spec fn in_calendar(self) -> bool {
        self.today.in_calendar() && self.tomorrow.in_calendar()
    }
}

/// Trusted: `chrono::Local::now` and `DateTime::timestamp`. The result is
/// the present instant in whole seconds since the epoch; nothing is claimed
/// of it.
#[verifier::external_body]
fn unix_now() -> (now: i64) {
    chrono::Local::now().timestamp()
}

/// Trusted: `TimeZone::timestamp_opt` on `chrono::Local`, then
/// `Datelike::year`, `month` and `day`. The result is the local date of the
/// given instant. Two things are claimed. There is a date exactly for the
/// instants that `chrono` can hold, which are those of its years -262143 to
/// 262142 in universal time, whatever the time zone is. And, which date it
/// is being a matter of the time zone, `chrono` counts months from 1 to 12
/// and days of the month from 1 to 31. Where the platform cannot tell the
/// offset of the local zone, `chrono` panics.
#[verifier::external_body]
fn local_date(instant: i64) -> (date: Option<CivilDate>)
    ensures
        date is Some <==> in_reach(instant as int),
        date matches Some(d) ==> d.in_calendar(),
{
    match chrono::Local.timestamp_opt(instant, 0).single() {
        Some(time) => Some(CivilDate { year: time.year(), month: time.month(), day: time.day() }),
        None => None,
    }
}

impl ClockReading {
    /// Puts a reading together from an instant and the two dates that the
    /// calendar gave for it. There is a reading where both dates are there.
    pub fn from_dates(now: i64, today: Option<CivilDate>, tomorrow: Option<CivilDate>) -> (reading:
        Option<ClockReading>)
        ensures
            reading == match (today, tomorrow) {
                (Some(today), Some(tomorrow)) => Some(ClockReading { now, today, tomorrow }),
                _ => None,
            },
    {
        match (today, tomorrow) {
            (Some(today), Some(tomorrow)) => Some(ClockReading { now, today, tomorrow }),
            _ => None,
        }
    }
}

/// The reading for a given instant: its local date and that of the instant
/// one day later. There is a reading exactly where the calendar reaches
/// both instants.
pub fn reading_at(now: i64) -> (reading: Option<ClockReading>)
    ensures
        reading is Some <==> in_reach(now as int) && in_reach(now + SECONDS_PER_DAY),
        reading matches Some(r) ==> r.now == now && r.in_calendar(),
{
    match now.checked_add(SECONDS_PER_DAY) {
        Some(later) => ClockReading::from_dates(now, local_date(now), local_date(later)),
        None => None,
    }
}

/// Reads the clock. See [`reading_at`] for when there is no reading.
pub fn read_clock() -> (reading: Option<ClockReading>)
    ensures
        reading matches Some(r) ==> {
            &&& in_reach(r.now as int)
            &&& in_reach(r.now + SECONDS_PER_DAY)
            &&& r.in_calendar()
        },
{
    reading_at(unix_now())
}

} // verus!
