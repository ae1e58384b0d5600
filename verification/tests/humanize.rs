use fti_notify::humanize::{days_in_the_future, time_phrase, TimePhrase};
use fti_notify::snapshot::Stamp;

fn check_time(duration: chrono::Duration) -> TimePhrase {
    let now = chrono::Local::now();
    let then = now + duration;
    time_phrase(now.timestamp(), then.timestamp())
}

#[test]
fn time_a_day_ago() {
    assert_eq!(check_time(-chrono::Duration::days(1)), TimePhrase::DaysAgo(1));
}

#[test]
fn time_5_days_ago() {
    assert_eq!(check_time(-chrono::Duration::days(5)), TimePhrase::DaysAgo(5));
}

#[test]
fn time_an_hour_ago() {
    assert_eq!(check_time(-chrono::Duration::hours(1)), TimePhrase::HoursAgo(1));
}

#[test]
fn time_5_hours_ago() {
    assert_eq!(check_time(-chrono::Duration::hours(5)), TimePhrase::HoursAgo(5));
}

#[test]
fn time_a_minute_ago() {
    assert_eq!(check_time(-chrono::Duration::minutes(1)), TimePhrase::MinutesAgo(1));
}

#[test]
fn time_5_minutes_ago() {
    assert_eq!(check_time(-chrono::Duration::minutes(5)), TimePhrase::MinutesAgo(5));
}

#[test]
fn time_a_second_ago() {
    assert_eq!(check_time(-chrono::Duration::seconds(1)), TimePhrase::SecondsAgo(1));
}

#[test]
fn time_5_seconds_ago() {
    assert_eq!(check_time(-chrono::Duration::seconds(5)), TimePhrase::SecondsAgo(5));
}

#[test]
fn time_buckets_at_their_edges() {
    assert_eq!(time_phrase(0, 0), TimePhrase::Now);
    assert_eq!(time_phrase(0, 1), TimePhrase::InTheFuture);
    assert_eq!(time_phrase(0, -59), TimePhrase::SecondsAgo(59));
    assert_eq!(time_phrase(0, -60), TimePhrase::MinutesAgo(1));
    assert_eq!(time_phrase(0, -3599), TimePhrase::MinutesAgo(59));
    assert_eq!(time_phrase(0, -3600), TimePhrase::HoursAgo(1));
    assert_eq!(time_phrase(0, -86399), TimePhrase::HoursAgo(23));
    assert_eq!(time_phrase(0, -86400), TimePhrase::DaysAgo(1));
    assert_eq!(time_phrase(0, -2678399), TimePhrase::DaysAgo(30));
    assert_eq!(time_phrase(0, -2678400), TimePhrase::ReallyLongAgo);
}

#[test]
fn days_in_the_future_counts_calendar_days() {
    let now = Stamp { epoch: 1_000_000, day: 738_000 };
    let in_three_days = Stamp { epoch: 1_000_000 + 3 * 86_400, day: 738_003 };
    assert_eq!(days_in_the_future(now, in_three_days), 3);
    assert_eq!(days_in_the_future(now, now), 0);
    let yesterday = Stamp { epoch: 1_000_000 - 86_400, day: 737_999 };
    assert_eq!(days_in_the_future(now, yesterday), -1);
}
