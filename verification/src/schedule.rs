//! The scheduler's decisions: the snapshot writer fires once per calendar
//! day in a fixed reference timezone, an overlapping trigger is skipped
//! rather than queued, and a failed run does not stop the next day's
//! trigger.  The waiting loop itself lives outside the library; everything
//! here is the decision logic plus the clock readings it needs.

use vstd::prelude::*;
use chrono::Datelike;
use chrono::Timelike;
use crate::snapshot::Date;

verus! {

/// Relies on chrono's `Utc::now` and `Datelike`: `month` returns 1 to 12
/// and `day` 1 to 31.
#[verifier::external_body]
fn utc_today_raw() -> (r: (i32, u32, u32))
    ensures
        1 <= r.1 <= 12,
        1 <= r.2 <= 31,
{
    let d = chrono::Utc::now().date_naive();
    (d.year(), d.month(), d.day())
}

/// Relies on chrono's `Timelike::hour`: the hour number is 0 to 23.
#[verifier::external_body]
fn utc_hour_raw() -> (h: u32)
    ensures
        h < 24,
{
    chrono::Utc::now().hour()
}

/// Relies on chrono's `DateTime::timestamp`: seconds since the epoch.  The
/// value depends on the wall clock, so nothing is promised of it.
#[verifier::external_body]
fn unix_now_raw() -> (t: i64) {
    chrono::Utc::now().timestamp()
}

/// The wall clock as seconds since the epoch, clamped at zero: the
/// freshness clock handed to the cache.
pub fn now_seconds() -> u64 {
    let t = unix_now_raw();
    if t < 0 {
        0
    } else {
        t as u64
    }
}

/// Today's calendar date in the reference timezone.
pub fn today() -> (d: Date)
    ensures
        d.wf(),
{
    let (year, month, day) = utc_today_raw();
    Date { year, month, day }
}

/// Whether a cycle at `hour` (0 to 23) also appends history rows: history
/// is written only before hour twenty-two, so a run late in the day cannot
/// add that day's row twice.
pub fn should_update_history(hour: u32) -> (r: bool)
    ensures
        r == (hour < 22),
{
    hour < 22
}

/// Whether history rows should be appended by a cycle run right now.
pub fn history_due_now() -> bool {
    let hour = utc_hour_raw();
    should_update_history(hour)
}

/// Decides whether the daily cycle fires: never while a run is still in
/// progress (the overlapping trigger is skipped, not queued), and never
/// twice for the same date.
pub fn should_fire(today: Date, last_run: Option<Date>, run_in_progress: bool) -> (r: bool)
    ensures
        r == (!run_in_progress && (match last_run {
            Some(d) => d != today,
            None => true,
        })),
{
    if run_in_progress {
        return false;
    }
    match last_run {
        Some(d) => d != today,
        None => true,
    }
}

} // verus!
