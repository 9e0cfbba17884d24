//! How long to wait for a trigger.
//!
//! A trigger at a fixed instant is waited for exactly as long as it lies
//! ahead; one that lies behind is reported, with the time by which it was
//! missed, and the caller decides what to do. A daily trigger is waited for
//! until its time of day next comes round, which takes less than a day.

use vstd::prelude::*;
use crate::schedule::TriggerSpec;
use crate::time::{nanos_between, Instant, TimeOfDay, Wait, NANOS_PER_DAY};

verus! {

/// A trigger at a fixed instant had already passed when the wait for it was
/// computed.
#[derive(Clone, Copy, Debug, PartialEq, Eq, Structural)]
pub struct ElapsedTriggerError {
    /// How long before now the trigger lay.
    pub overdue: Wait,
}

/// The wait, in nanoseconds, from `now_of_day` nanoseconds after midnight
/// until the clock next shows `target_of_day` nanoseconds after midnight:
/// their difference, moved forward by one day when it is negative.
pub open spec fn daily_wait_nanos(now_of_day: int, target_of_day: int) -> int {
    let raw = target_of_day - now_of_day;
    if raw < 0 {
        raw + NANOS_PER_DAY
    } else {
        raw
    }
}

/// The wait for `trigger` as seen at `now`.
pub open spec fn wait_for(now: Instant, trigger: TriggerSpec) -> Result<Wait, ElapsedTriggerError> {
    match trigger {
        TriggerSpec::Absolute(at) => if at.nanos >= now.nanos {
            Ok(Wait { nanos: (at.nanos - now.nanos) as u64 })
        } else {
            Err(ElapsedTriggerError { overdue: Wait { nanos: (now.nanos - at.nanos) as u64 } })
        },
        TriggerSpec::DailyTimeOfDay(time) => Ok(
            Wait { nanos: daily_wait_nanos(now.nanos_of_day(), time.nanos_of_day()) as u64 },
        ),
    }
}

/// Computes how long to wait at `now` until `trigger` fires.
///
/// Fails exactly when the trigger is a fixed instant before `now`.
pub fn wait(now: Instant, trigger: &TriggerSpec) -> (r: Result<Wait, ElapsedTriggerError>)
    ensures
        r == wait_for(now, *trigger),
{
    match trigger {
        TriggerSpec::Absolute(at) => {
            if at.nanos >= now.nanos {
                let ahead: i128 = at.nanos as i128 - now.nanos as i128;
                Ok(Wait { nanos: ahead as u64 })
            } else {
                let behind: i128 = now.nanos as i128 - at.nanos as i128;
                Err(ElapsedTriggerError { overdue: Wait { nanos: behind as u64 } })
            }
        },
        TriggerSpec::DailyTimeOfDay(time) => {
            let raw: i64 = nanos_between(now.time_of_day(), *time);
            let ahead: i64 = if raw < 0 {
                raw + 86_400_000_000_000
            } else {
                raw
            };
            Ok(Wait { nanos: ahead as u64 })
        },
    }
}

/// From any time of day, the wait for any other is at least zero and less
/// than one day, and the clock shows the awaited time of day when the wait
/// is over.
pub proof fn lemma_daily_wait_reaches_target(now_of_day: int, target_of_day: int)
    requires
        0 <= now_of_day < NANOS_PER_DAY,
        0 <= target_of_day < NANOS_PER_DAY,
    ensures
        0 <= daily_wait_nanos(now_of_day, target_of_day) < NANOS_PER_DAY,
        (now_of_day + daily_wait_nanos(now_of_day, target_of_day)) % (NANOS_PER_DAY as int)
            == target_of_day,
{
}

/// At any instant, the wait for a daily trigger succeeds, is less than one
/// day, and ends at an instant whose time of day is the trigger's.
pub proof fn lemma_daily_trigger_wait(now: Instant, time: TimeOfDay)
    requires
        time.wf(),
    ensures
        wait_for(now, TriggerSpec::DailyTimeOfDay(time)) matches Ok(w) && {
            &&& w.nanos < NANOS_PER_DAY
            &&& (now.nanos + w.nanos) % (NANOS_PER_DAY as int) == time.nanos_of_day()
            &&& (now.nanos_of_day() + w.nanos) % (NANOS_PER_DAY as int) == time.nanos_of_day()
        },
{
    time.lemma_in_day();
}

/// The wait for a daily trigger goes by the time of day alone: it is the
/// same on every day.
pub proof fn lemma_daily_wait_ignores_the_date(first: Instant, second: Instant, time: TimeOfDay)
    requires
        first.nanos_of_day() == second.nanos_of_day(),
    ensures
        wait_for(first, TriggerSpec::DailyTimeOfDay(time)) == wait_for(
            second,
            TriggerSpec::DailyTimeOfDay(time),
        ),
{
}

/// The wait for a trigger at a fixed instant that has not passed is the
/// distance to it, however far ahead it lies: no day is added or taken off.
pub proof fn lemma_future_absolute_wait_is_exact(now: Instant, at: Instant)
    requires
        at.nanos >= now.nanos,
    ensures
        wait_for(now, TriggerSpec::Absolute(at)) matches Ok(w) && w.nanos == at.nanos - now.nanos,
{
}

/// A trigger at a fixed instant is refused exactly when it lies before now,
/// and the error tells by how much.
pub proof fn lemma_elapsed_exactly_when_past(now: Instant, at: Instant)
    ensures
        wait_for(now, TriggerSpec::Absolute(at)) is Err <==> at.nanos < now.nanos,
        wait_for(now, TriggerSpec::Absolute(at)) matches Err(e) ==> e.overdue.nanos == now.nanos
            - at.nanos,
{
}

/// The wait depends on the instant and the trigger alone: whatever two
/// calls of `wait` return for the same pair is the same.
pub proof fn lemma_wait_is_deterministic(
    now: Instant,
    trigger: TriggerSpec,
    first: Result<Wait, ElapsedTriggerError>,
    second: Result<Wait, ElapsedTriggerError>,
)
    requires
        first == wait_for(now, trigger),
        second == wait_for(now, trigger),
    ensures
        first == second,
{
}

} // verus!
