//! Adaptive polling: when a container is due to be emptied today, poll again
//! after a short fixed delay; otherwise wait until early next morning.

use vstd::prelude::*;

use crate::snapshot::{Entry, Snapshot, Stamp};

verus! {

/// The delay between polls while an emptying is expected today, in seconds.
pub const URGENT_POLL_SECONDS: u64 = 900;

/// The local wall-clock hour of the routine next-morning poll.
pub const ROUTINE_POLL_HOUR: u32 = 7;

/// Why no next poll could be scheduled.
#[derive(Clone, Copy, PartialEq, Eq, Structural, Debug)]
pub enum ScheduleError {
    /// The target local wall-clock time does not exist, or exists twice,
    /// in the local time zone (a daylight-saving transition), or the
    /// target day is out of the calendar's range.
    LocalTimeUnresolved,
    /// The target instant is not ahead of the present one.
    TargetNotAhead,
}

/// Whether some entry's next scheduled emptying falls on the given local
/// calendar day.
pub open spec fn urgent(s: Seq<Entry>, today: i64) -> bool {
    exists|i: int| 0 <= i < s.len() && s[i].scheduled.day == today
}

/// Resolves a local wall-clock time to an instant, in seconds since the
/// Unix epoch: the time-of-day on the local calendar day given in days from
/// the start of the Common Era.
///
/// Relies on chrono's `TimeZone::from_local_datetime` for the local zone
/// (the day and time-of-day are built with chrono's `NaiveDate` and
/// `NaiveTime` constructors): `None` when the wall-clock time does not exist
/// or exists twice there, or when the day is outside chrono's calendar
/// range. The result depends on the machine's time zone, so nothing is
/// stated of it; `routine_delay` takes it as an argument and carries the
/// exact contract.
#[verifier::external_body]
fn local_instant_at(day: i64, hour: u32, minute: u32, second: u32) -> (r: Option<i64>) {
    let day32 = i32::try_from(day).ok()?;
    let date = chrono::NaiveDate::from_num_days_from_ce_opt(day32)?;
    let time = chrono::NaiveTime::from_hms_opt(hour, minute, second)?;
    let naive = date.and_time(time);
    let resolved = chrono::TimeZone::from_local_datetime(&chrono::Local, &naive).single()?;
    Some(resolved.timestamp())
}

/// The routine-mode delay, given the present instant and the resolved target
/// instant (or its absence): the exact number of seconds from the former to
/// the latter. An unresolved target or one not strictly ahead is a
/// scheduling error, never a made-up delay.
pub fn routine_delay(now_epoch: i64, target_epoch: Option<i64>) -> (r: Result<u64, ScheduleError>)
    ensures
        target_epoch is None ==> r == Err::<u64, ScheduleError>(ScheduleError::LocalTimeUnresolved),
        (target_epoch matches Some(t) && t <= now_epoch) ==> r == Err::<u64, ScheduleError>(
            ScheduleError::TargetNotAhead,
        ),
        (target_epoch matches Some(t) && t > now_epoch) ==> r == Ok::<u64, ScheduleError>(
            ((target_epoch->Some_0 - now_epoch) as u64),
        ),
{
    match target_epoch {
        None => Err(ScheduleError::LocalTimeUnresolved),
        Some(t) => {
            if t <= now_epoch {
                Err(ScheduleError::TargetNotAhead)
            } else {
                let delay: i128 = t as i128 - now_epoch as i128;
                Ok(delay as u64)
            }
        },
    }
}

/// How long to wait before the next poll. If any container's next scheduled
/// emptying falls on the present local calendar day, the delay is exactly
/// `URGENT_POLL_SECONDS`, whatever the time of day. Otherwise the target is
/// the next calendar day at `ROUTINE_POLL_HOUR` local time; resolving that
/// wall-clock time depends on the machine's time zone, and a delay is
/// returned only when the target resolves to an instant strictly ahead of
/// `now`, so a returned routine delay is always positive.
pub fn next_poll_delay(status: &Snapshot, now: Stamp) -> (r: Result<u64, ScheduleError>)
    requires
        now.day < i64::MAX,
    ensures
        urgent(status@, now.day) ==> r == Ok::<u64, ScheduleError>(URGENT_POLL_SECONDS),
        (!urgent(status@, now.day) && r matches Ok(d)) ==> r->Ok_0 > 0,
{
    let n = status.entries.len();
    let mut i: usize = 0;
    while i < n
        invariant
            n == status@.len(),
            i <= n,
            forall|j: int| 0 <= j < i ==> status@[j].scheduled.day != now.day,
        decreases n - i,
    {
        if status.entries[i].scheduled.day == now.day {
            return Ok(URGENT_POLL_SECONDS);
        }
        i += 1;
    }
    let target = local_instant_at(now.day + 1, ROUTINE_POLL_HOUR, 0, 0);
    routine_delay(now.epoch, target)
}

} // verus!
