//! Turning instants into the quantities the human-readable reports speak of:
//! how long ago a container was emptied, bucketed by unit, and how many
//! calendar days away the next emptying is. Picking the words for either is
//! the renderer's business, not this module's.

use vstd::prelude::*;

use crate::snapshot::Stamp;

verus! {

/// How long ago an instant lies, bucketed the way the report phrases it.
/// Each count is measured in the bucket's own unit, truncated toward zero.
#[derive(Clone, Copy, PartialEq, Eq, Structural, Debug)]
pub enum TimePhrase {
    /// More than 31 days ago.
    ReallyLongAgo,
    /// Between one day and 31 days ago: the number of whole days.
    DaysAgo(i64),
    /// Between one hour and one day ago: the number of whole hours.
    HoursAgo(i64),
    /// Between one minute and one hour ago: the number of whole minutes.
    MinutesAgo(i64),
    /// Less than a minute ago: the number of seconds.
    SecondsAgo(i64),
    /// The very same second.
    Now,
    /// Ahead of the reference instant; the report does not phrase those.
    InTheFuture,
}

/// The bucket a signed difference in seconds (`then - now`) falls in.
pub open spec fn spec_time_phrase(delta: int) -> TimePhrase {
    if delta <= -2678400 {
        TimePhrase::ReallyLongAgo
    } else if delta <= -86400 {
        TimePhrase::DaysAgo(((-delta) / 86400) as i64)
    } else if delta <= -3600 {
        TimePhrase::HoursAgo(((-delta) / 3600) as i64)
    } else if delta <= -60 {
        TimePhrase::MinutesAgo(((-delta) / 60) as i64)
    } else if delta <= -1 {
        TimePhrase::SecondsAgo((-delta) as i64)
    } else if delta == 0 {
        TimePhrase::Now
    } else {
        TimePhrase::InTheFuture
    }
}

/// Buckets the instant `then` relative to the instant `now`, both in seconds
/// since the Unix epoch.
pub fn time_phrase(now_epoch: i64, then_epoch: i64) -> (r: TimePhrase)
    requires
        -(i64::MAX as int) <= then_epoch - now_epoch <= i64::MAX,
    ensures
        r == spec_time_phrase(then_epoch - now_epoch),
{
    let delta: i64 = then_epoch - now_epoch;
    if delta <= -2678400 {
        TimePhrase::ReallyLongAgo
    } else if delta <= -86400 {
        TimePhrase::DaysAgo((-delta) / 86400)
    } else if delta <= -3600 {
        TimePhrase::HoursAgo((-delta) / 3600)
    } else if delta <= -60 {
        TimePhrase::MinutesAgo((-delta) / 60)
    } else if delta <= -1 {
        TimePhrase::SecondsAgo(-delta)
    } else if delta == 0 {
        TimePhrase::Now
    } else {
        TimePhrase::InTheFuture
    }
}

/// How many local calendar days ahead of `now` the instant `then` lies:
/// the difference of the calendar days alone, whatever the times of day.
pub fn days_in_the_future(now: Stamp, then: Stamp) -> (r: i64)
    requires
        -(i64::MAX as int) <= then.day - now.day <= i64::MAX,
    ensures
        r == then.day - now.day,
{
    then.day - now.day
}

} // verus!
