//! Points in time: seconds since 1970-01-01 00:00:00 UTC and nanoseconds within the second.
use vstd::prelude::*;

verus! {

/// A point in time in UTC.
#[derive(Clone, Copy, Debug, PartialEq, Eq, Structural)]
pub struct DateTime {
    pub seconds: i64,
    pub nanos: u32,
}

/// The first second of the calendar, the start of the year -262143.
pub const MIN_SECONDS: i64 = -8334601228800;

/// The last second of the calendar, the end of the year 262142.
pub const MAX_SECONDS: i64 = 8210266876799;

/// Whether the calendar has this point in time. A second counts up to 999,999,999 nanoseconds,
/// and the last of a minute another 1,000,000,000 to make room for a leap second.
pub open spec fn on_calendar(seconds: int, nanos: int) -> bool {
    &&& MIN_SECONDS <= seconds <= MAX_SECONDS
    &&& 0 <= nanos
    &&& (nanos < 1_000_000_000 || (nanos < 2_000_000_000 && seconds % 60 == 59))
}

/// Whether the system's clock can show this point in time: one since 1970 that the calendar has,
/// outside any leap second.
pub open spec fn clock_time(t: DateTime) -> bool {
    &&& on_calendar(t.seconds as int, t.nanos as int)
    &&& 0 <= t.seconds
    &&& t.nanos < 1_000_000_000
}

/// `chrono::DateTime::from_timestamp`: gives back the point in time with these seconds and
/// nanoseconds if the calendar has it, and nothing otherwise.
#[verifier::external_body]
fn chrono_from_timestamp(seconds: i64, nanos: u32) -> (r: Option<DateTime>)
    ensures
        r == if on_calendar(seconds as int, nanos as int) {
            Some(DateTime { seconds, nanos })
        } else {
            None
        },
{
    chrono::DateTime::from_timestamp(seconds, nanos).map(
        |t| DateTime { seconds: t.timestamp(), nanos: t.timestamp_subsec_nanos() },
    )
}

/// `chrono::Utc::now`: a point in time since 1970 that the calendar has, outside any leap second.
/// It takes the system's clock to be set to such a time, and panics otherwise.
#[verifier::external_body]
fn chrono_utc_now() -> (r: DateTime)
    ensures
        clock_time(r),
{
    let t = chrono::Utc::now();
    DateTime { seconds: t.timestamp(), nanos: t.timestamp_subsec_nanos() }
}

/// `chrono::DateTime::checked_add_signed` with `chrono::Duration::hours`: moves the seconds,
/// and leaves a leap second behind. Nothing comes back where the calendar ends before.
#[verifier::external_body]
fn chrono_add_hours(t: DateTime, hours: i64) -> (r: Option<DateTime>)
    requires
        on_calendar(t.seconds as int, t.nanos as int),
        0 < hours <= 1_000_000,
    ensures
        r == later_by(t, hours as int),
{
    chrono::DateTime::from_timestamp(t.seconds, t.nanos)?.checked_add_signed(
        chrono::Duration::hours(hours),
    ).map(|t| DateTime { seconds: t.timestamp(), nanos: t.timestamp_subsec_nanos() })
}

/// The point in time so many hours after `t`, if the calendar reaches it.
pub open spec fn later_by(t: DateTime, hours: int) -> Option<DateTime> {
    if t.seconds + 3600 * hours <= MAX_SECONDS {
        Some(
            DateTime {
                seconds: (t.seconds + 3600 * hours) as i64,
                nanos: (t.nanos as int % 1_000_000_000) as u32,
            },
        )
    } else {
        None
    }
}

/// The current time. Which time that is depends on the system's clock alone.
pub fn now() -> (r: DateTime)
    ensures
        clock_time(r),
{
    chrono_utc_now()
}

/// The point in time with these seconds and nanoseconds, if the calendar has it.
pub fn from_timestamp(seconds: i64, nanos: u32) -> (r: Option<DateTime>)
    ensures
        r == if on_calendar(seconds as int, nanos as int) {
            Some(DateTime { seconds, nanos })
        } else {
            None
        },
{
    chrono_from_timestamp(seconds, nanos)
}

/// The point in time so many hours after `t`, if `t` is on the calendar and that point too.
pub fn add_hours(t: DateTime, hours: i64) -> (r: Option<DateTime>)
    requires
        0 < hours <= 1_000_000,
    ensures
        r == if on_calendar(t.seconds as int, t.nanos as int) {
            later_by(t, hours as int)
        } else {
            None
        },
{
    if chrono_from_timestamp(t.seconds, t.nanos).is_some() {
        chrono_add_hours(t, hours)
    } else {
        None
    }
}

} // verus!
