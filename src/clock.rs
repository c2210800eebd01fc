use vstd::prelude::*;

use crate::outside::{calendar_valid, civil_date, civil_of, ymd_valid};

verus! {

/// An instant as seconds since 1970-01-01 00:00 UTC, with the local zone's
/// offset from UTC in seconds at that instant.
#[derive(Debug, Clone, Copy, PartialEq, Eq)]
pub struct Instant {
    pub utc_secs: i64,
    pub local_offset_secs: i32,
}

/// A calendar date.
#[derive(Debug, Clone, Copy, PartialEq, Eq)]
pub struct CalendarDate {
    pub year: i32,
    pub month: u8,
    pub day: u8,
}

/// Seconds in an hour.
pub const SECS_PER_HOUR: i64 = 3600;

/// The largest number of hours whose seconds fit in an `i64`.
pub const MAX_HOURS: i64 = 2562047788015215;

/// The seconds since the epoch whose date is asked for: local time without
/// an offset, else UTC shifted by `offset` hours, where that shift fits in
/// an `i64`.
pub open spec fn shifted_secs(now: Instant, offset: Option<i64>) -> Option<int> {
    match offset {
        None => Some(now.utc_secs + now.local_offset_secs),
        Some(o) => if -MAX_HOURS <= o <= MAX_HOURS {
            Some(now.utc_secs + o * 3600)
        } else {
            None
        },
    }
}

/// The date of `now` in local time (no offset) or at UTC plus `offset`
/// hours, where it is a date that the calendar holds.
pub open spec fn date_spec(now: Instant, offset: Option<i64>) -> Option<CalendarDate> {
    let secs = shifted_secs(now, offset)->Some_0;
    if shifted_secs(now, offset) is None || secs < i64::MIN || secs > i64::MAX {
        None
    } else {
        match civil_of(secs as i64) {
            Some((y, m, d)) => if m <= 255 && d <= 255 && calendar_valid(y, m as u8, d as u8) {
                Some(CalendarDate { year: y, month: m as u8, day: d as u8 })
            } else {
                None
            },
            None => None,
        }
    }
}

/// The date of the instant `now`: local without an offset, else in UTC
/// shifted by `offset` hours; `None` where that date cannot be represented.
pub fn date_at(now: Instant, offset: Option<i64>) -> (r: Option<CalendarDate>)
    ensures
        r == date_spec(now, offset),
{
    let secs: i64 = match offset {
        None => {
            let local = now.utc_secs as i128 + now.local_offset_secs as i128;
            if local < i64::MIN as i128 || local > i64::MAX as i128 {
                return None;
            }
            local as i64
        },
        Some(o) => {
            if o < -MAX_HOURS || o > MAX_HOURS {
                return None;
            }
            assert(i64::MIN <= o * 3600 <= i64::MAX) by (nonlinear_arith)
                requires
                    -2562047788015215 <= o <= 2562047788015215,
            ;
            let shift = o * SECS_PER_HOUR;
            let total = now.utc_secs as i128 + shift as i128;
            if total < i64::MIN as i128 || total > i64::MAX as i128 {
                return None;
            }
            total as i64
        },
    };
    match civil_date(secs) {
        Some((y, m, d)) => {
            let month = m as u8;
            let day = d as u8;
            if ymd_valid(y, month, day) {
                Some(CalendarDate { year: y, month, day })
            } else {
                None
            }
        },
        None => None,
    }
}

} // verus!
