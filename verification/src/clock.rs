//! The clock and the time zone of the view.
//!
//! A frontend formats every time from the view's "now", never from the system
//! clock directly. The app uses [`Clock::System`]. Demo scenarios and tests use
//! [`Clock::Fixed`], so a rendered screen is the same on each run, on each
//! date, and in each time zone.

use vstd::prelude::*;

verus! {

/// The first second that a calendar time can hold: -262143-01-01 00:00:00 UTC.
pub const FIRST_SECOND: i64 = -8_334_601_228_800;

/// The last second that a calendar time can hold: 262142-12-31 23:59:59 UTC.
pub const LAST_SECOND: i64 = 8_210_266_876_799;

/// Seconds of one day. The offset of a zone is less than a day.
pub const DAY_SECONDS: i32 = 86_400;

/// Calls `chrono::FixedOffset::east_opt` and reads the offset back with
/// `local_minus_utc`. Trusted: there is a zone with this offset exactly when
/// the offset is less than a day in either direction, and the zone keeps it.
#[verifier::external_body]
fn zone_offset(seconds: i32) -> (r: Option<i32>)
    ensures
        r == (if -DAY_SECONDS < seconds < DAY_SECONDS {
            Some(seconds)
        } else {
            None
        }),
{
    chrono::FixedOffset::east_opt(seconds).map(|zone| zone.local_minus_utc())
}

/// Calls `chrono::DateTime::from_timestamp` with no nanoseconds and reads the
/// seconds back with `timestamp`. Trusted: there is a calendar time for these
/// Unix seconds exactly when its year is from -262143 to 262142, and the time
/// keeps the seconds.
#[verifier::external_body]
fn calendar_second(seconds: i64) -> (r: Option<i64>)
    ensures
        r == (if FIRST_SECOND <= seconds <= LAST_SECOND {
            Some(seconds)
        } else {
            None
        }),
{
    chrono::DateTime::from_timestamp(seconds, 0).map(|time| time.timestamp())
}

/// Where "now" and the time zone come from.
#[derive(Debug, Clone, Copy, PartialEq, Eq, Structural)]
pub enum Clock {
    /// The system clock and the local time zone.
    System,
    /// A fixed time (Unix seconds) in a zone with a fixed UTC offset.
    Fixed { now: i64, utc_offset_secs: i32 },
}

impl Default for Clock {
    fn default() -> (r: Self)
        ensures
            r == Clock::System,
    {
        Clock::System
    }
}

/// "Now" with its time zone. A frontend turns each message time into a local
/// time with this zone. The local zone keeps its daylight saving rules, so
/// each time gets the offset of its own date.
#[derive(Debug, Clone, Copy, PartialEq, Eq, Structural)]
pub enum ViewNow {
    /// These Unix seconds of the system clock, in the local zone.
    Local { timestamp: i64 },
    /// These Unix seconds, in the zone with this offset.
    Fixed { timestamp: i64, utc_offset_secs: i32 },
}

/// "Now" of a clock while the system clock shows `system`. An offset out of
/// range is UTC. A time out of range is the start of 1970.
pub open spec fn now_of(clock: Clock, system: i64) -> ViewNow {
    match clock {
        Clock::System => ViewNow::Local { timestamp: system },
        Clock::Fixed { now, utc_offset_secs } => ViewNow::Fixed {
            timestamp: if FIRST_SECOND <= now <= LAST_SECOND {
                now
            } else {
                0
            },
            utc_offset_secs: if -DAY_SECONDS < utc_offset_secs < DAY_SECONDS {
                utc_offset_secs
            } else {
                0
            },
        },
    }
}

impl Clock {
    /// A fixed time in UTC.
    pub fn fixed_utc(now: i64) -> (r: Self)
        ensures
            r == (Clock::Fixed { now, utc_offset_secs: 0 }),
    {
        Clock::Fixed { now, utc_offset_secs: 0 }
    }

    /// Now, in the zone of this clock. `system`: the Unix seconds of the system
    /// clock.
    pub fn now(self, system: i64) -> (r: ViewNow)
        ensures
            r == now_of(self, system),
    {
        match self {
            Clock::System => ViewNow::Local { timestamp: system },
            Clock::Fixed { now, utc_offset_secs } => {
                let zone: i32 = match zone_offset(utc_offset_secs) {
                    Some(seconds) => seconds,
                    None => 0,
                };
                let timestamp: i64 = match calendar_second(now) {
                    Some(seconds) => seconds,
                    None => 0,
                };
                ViewNow::Fixed { timestamp, utc_offset_secs: zone }
            },
        }
    }
}

/// A fixed clock is the same on each call: the system clock does not change it.
pub proof fn law_fixed_clock_stands_still(
    now: i64,
    utc_offset_secs: i32,
    system: i64,
    later: i64,
)
    ensures
        now_of(Clock::Fixed { now, utc_offset_secs }, system) == now_of(
            Clock::Fixed { now, utc_offset_secs },
            later,
        ),
{
}

/// The system clock is shown as it is. A fixed clock shows its own time and its
/// own offset, whatever the system clock shows, when a calendar holds them.
pub proof fn law_clock_shows_its_time(now: i64, utc_offset_secs: i32, system: i64)
    ensures
        now_of(Clock::System, system) == (ViewNow::Local { timestamp: system }),
        now_of(Clock::Fixed { now, utc_offset_secs }, system) is Fixed,
        -8_334_601_228_800 <= now <= 8_210_266_876_799 ==> now_of(
            Clock::Fixed { now, utc_offset_secs },
            system,
        )->Fixed_timestamp == now,
        -86_400 < utc_offset_secs < 86_400 ==> now_of(
            Clock::Fixed { now, utc_offset_secs },
            system,
        )->Fixed_utc_offset_secs == utc_offset_secs,
        utc_offset_secs <= -86_400 || utc_offset_secs >= 86_400 ==> now_of(
            Clock::Fixed { now, utc_offset_secs },
            system,
        )->Fixed_utc_offset_secs == 0,
{
}

} // verus!
