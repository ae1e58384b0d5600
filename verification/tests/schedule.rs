use chrono::Datelike;
use chrono::TimeZone;
use fti_notify::schedule::{next_poll_delay, routine_delay, ScheduleError, URGENT_POLL_SECONDS};
use fti_notify::snapshot::{Snapshot, Stamp};

fn stamp(dt: chrono::DateTime<chrono::Local>) -> Stamp {
    Stamp { epoch: dt.timestamp(), day: dt.date_naive().num_days_from_ce() as i64 }
}

#[test]
fn emptying_today_polls_every_fifteen_minutes() {
    // An emptying scheduled today means a 900-second delay, whatever the
    // time of day `now` is.
    let now = chrono::Local::now();
    let mut status = Snapshot::new();
    status.insert("Plastic".to_string(), stamp(now), stamp(now));

    assert_eq!(next_poll_delay(&status, stamp(now)), Ok(900));

    let early = now.date_naive().and_hms_opt(0, 30, 0).unwrap();
    let early = chrono::Local.from_local_datetime(&early).single().unwrap();
    assert_eq!(next_poll_delay(&status, stamp(early)), Ok(URGENT_POLL_SECONDS));

    let late = now.date_naive().and_hms_opt(23, 30, 0).unwrap();
    let late = chrono::Local.from_local_datetime(&late).single().unwrap();
    assert_eq!(next_poll_delay(&status, stamp(late)), Ok(URGENT_POLL_SECONDS));
}

#[test]
fn nothing_today_waits_for_tomorrow_morning() {
    // With no emptying scheduled today, the delay runs until 07:00 local
    // time tomorrow, to the second.
    let now = chrono::Local::now();
    let last_week = now - chrono::Duration::days(7);
    let mut status = Snapshot::new();
    status.insert("Plastic".to_string(), stamp(last_week), stamp(last_week));

    let tomorrow = now.date_naive().succ_opt().unwrap();
    let target = tomorrow.and_hms_opt(7, 0, 0).unwrap();
    let target = chrono::Local.from_local_datetime(&target).single().unwrap();
    let expected = (target.timestamp() - now.timestamp()) as u64;

    assert_eq!(next_poll_delay(&status, stamp(now)), Ok(expected));
}

#[test]
fn empty_snapshot_is_routine() {
    // No containers at all: nothing is due today, so the routine delay
    // until tomorrow morning applies.
    let now = chrono::Local::now();
    let status = Snapshot::new();

    let tomorrow = now.date_naive().succ_opt().unwrap();
    let target = tomorrow.and_hms_opt(7, 0, 0).unwrap();
    let target = chrono::Local.from_local_datetime(&target).single().unwrap();
    let expected = (target.timestamp() - now.timestamp()) as u64;

    assert_eq!(next_poll_delay(&status, stamp(now)), Ok(expected));
}

#[test]
fn unresolved_local_time_is_an_error() {
    assert_eq!(routine_delay(0, None), Err(ScheduleError::LocalTimeUnresolved));
}

#[test]
fn target_behind_now_is_an_error() {
    assert_eq!(routine_delay(1000, Some(1000)), Err(ScheduleError::TargetNotAhead));
    assert_eq!(routine_delay(1000, Some(999)), Err(ScheduleError::TargetNotAhead));
}

#[test]
fn routine_delay_is_exact() {
    assert_eq!(routine_delay(1000, Some(1001)), Ok(1));
    assert_eq!(routine_delay(-100, Some(100)), Ok(200));
    assert_eq!(routine_delay(i64::MIN, Some(i64::MAX)), Ok(u64::MAX));
}
