use rust_core::clock::{date_at, CalendarDate, Instant};
use rust_core::world::SystemWorld;

fn date(year: i32, month: u8, day: u8) -> CalendarDate {
    CalendarDate { year, month, day }
}

#[test]
fn epoch_is_first_of_january_1970() {
    let now = Instant { utc_secs: 0, local_offset_secs: 0 };
    assert_eq!(date_at(now, None), Some(date(1970, 1, 1)));
}

#[test]
fn offset_in_hours_shifts_the_date() {
    let now = Instant { utc_secs: 0, local_offset_secs: 0 };
    assert_eq!(date_at(now, Some(24)), Some(date(1970, 1, 2)));
    assert_eq!(date_at(now, Some(-1)), Some(date(1969, 12, 31)));
}

#[test]
fn local_offset_applies_without_an_offset() {
    let now = Instant { utc_secs: 86_399, local_offset_secs: 3_600 };
    assert_eq!(date_at(now, None), Some(date(1970, 1, 2)));
    assert_eq!(date_at(now, Some(0)), Some(date(1970, 1, 1)));
}

#[test]
fn leap_day() {
    // 2024-02-29 12:00 UTC
    let now = Instant { utc_secs: 1_709_208_000, local_offset_secs: 0 };
    assert_eq!(date_at(now, None), Some(date(2024, 2, 29)));
}

#[test]
fn unrepresentable_dates_are_none() {
    let now = Instant { utc_secs: 0, local_offset_secs: 0 };
    assert_eq!(date_at(now, Some(i64::MAX)), None);
    assert_eq!(date_at(now, Some(2_562_047_788_015_215)), None);
    let late = Instant { utc_secs: i64::MAX, local_offset_secs: 3_600 };
    assert_eq!(date_at(late, None), None);
}

#[test]
fn today_reads_the_clock_once() {
    let mut w = SystemWorld::new(".".to_string(), String::new());
    assert!(w.now.is_none());
    let first = w.today(None);
    let captured = w.now;
    assert!(captured.is_some());
    assert!(first.is_some());
    assert_eq!(w.today(None), first);
    assert_eq!(w.now, captured);
    w.reset_pass();
    assert_eq!(w.now, captured);
}
