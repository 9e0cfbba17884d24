use device_scheduler::occurrence::{wait, ElapsedTriggerError};
use device_scheduler::schedule::TriggerSpec;
use device_scheduler::time::{Instant, TimeOfDay, Wait, NANOS_PER_DAY};

const SEC: u64 = 1_000_000_000;

fn at(h: u32, m: u32, s: u32) -> Instant {
    Instant { nanos: (h as i64 * 3600 + m as i64 * 60 + s as i64) * SEC as i64 }
}

fn daily(h: u32, m: u32, s: u32) -> TriggerSpec {
    TriggerSpec::DailyTimeOfDay(TimeOfDay::from_hms(h, m, s).unwrap())
}

#[test]
fn daily_trigger_just_missed_waits_until_tomorrow() {
    let got = wait(at(10, 0, 0), &daily(9, 59, 59));
    assert_eq!(got, Ok(Wait { nanos: (23 * 3600 + 59 * 60 + 59) * SEC }));
}

#[test]
fn daily_trigger_just_ahead_waits_one_second() {
    let got = wait(at(10, 0, 0), &daily(10, 0, 1));
    assert_eq!(got, Ok(Wait { nanos: SEC }));
}

#[test]
fn daily_trigger_at_this_very_moment_waits_nothing() {
    assert_eq!(wait(at(8, 0, 0), &daily(8, 0, 0)), Ok(Wait { nanos: 0 }));
}

#[test]
fn daily_trigger_one_nanosecond_behind_waits_almost_a_day() {
    let now = Instant { nanos: 1 };
    let trigger = TriggerSpec::DailyTimeOfDay(TimeOfDay::new(0, 0).unwrap());
    assert_eq!(wait(now, &trigger), Ok(Wait { nanos: NANOS_PER_DAY - 1 }));
}

#[test]
fn daily_wait_counts_nanoseconds() {
    let now = Instant { nanos: 36_000 * SEC as i64 + 999_999_999 };
    let trigger = TriggerSpec::DailyTimeOfDay(TimeOfDay::new(36_001, 1).unwrap());
    assert_eq!(wait(now, &trigger), Ok(Wait { nanos: 2 }));
}

#[test]
fn daily_wait_goes_by_the_time_of_day_only() {
    let today = at(10, 0, 0);
    let in_a_week = Instant { nanos: today.nanos + 7 * NANOS_PER_DAY as i64 };
    let long_ago = Instant { nanos: today.nanos - 20_000 * NANOS_PER_DAY as i64 };
    let trigger = daily(12, 30, 0);
    let expected = Ok(Wait { nanos: (2 * 3600 + 30 * 60) * SEC });
    assert_eq!(wait(today, &trigger), expected);
    assert_eq!(wait(in_a_week, &trigger), expected);
    assert_eq!(wait(long_ago, &trigger), expected);
}

#[test]
fn daily_wait_is_below_a_day_and_lands_on_the_trigger() {
    let times = [
        (0u32, 0u32),
        (0, 1),
        (1, 0),
        (35_999, 999_999_999),
        (36_000, 0),
        (43_200, 500_000_000),
        (86_399, 0),
        (86_399, 999_999_999),
    ];
    for (now_secs, now_nanos) in times {
        for (secs, nanos) in times {
            let now = Instant { nanos: now_secs as i64 * SEC as i64 + now_nanos as i64 };
            let target = TimeOfDay::new(secs, nanos).unwrap();
            let pause = wait(now, &TriggerSpec::DailyTimeOfDay(target)).unwrap();
            assert!(pause.nanos < NANOS_PER_DAY);
            let reached = (now.nanos as u64 + pause.nanos) % NANOS_PER_DAY;
            assert_eq!(reached, target.as_nanos());
            let woken = Instant { nanos: now.nanos + pause.nanos as i64 };
            assert_eq!(woken.time_of_day(), target);
        }
    }
}

#[test]
fn absolute_trigger_ahead_waits_the_exact_distance() {
    let now = at(10, 0, 0);
    let later = Instant { nanos: now.nanos + 90 * SEC as i64 };
    assert_eq!(wait(now, &TriggerSpec::Absolute(later)), Ok(Wait { nanos: 90 * SEC }));
}

#[test]
fn absolute_trigger_days_ahead_is_not_wrapped() {
    let now = at(10, 0, 0);
    let later = Instant { nanos: now.nanos + 3 * NANOS_PER_DAY as i64 + 5 };
    assert_eq!(
        wait(now, &TriggerSpec::Absolute(later)),
        Ok(Wait { nanos: 3 * NANOS_PER_DAY + 5 })
    );
}

#[test]
fn absolute_trigger_at_this_very_moment_waits_nothing() {
    let now = at(10, 0, 0);
    assert_eq!(wait(now, &TriggerSpec::Absolute(now)), Ok(Wait { nanos: 0 }));
}

#[test]
fn absolute_trigger_behind_is_refused_with_its_delay() {
    let now = at(10, 0, 0);
    let earlier = Instant { nanos: now.nanos - 1 };
    assert_eq!(
        wait(now, &TriggerSpec::Absolute(earlier)),
        Err(ElapsedTriggerError { overdue: Wait { nanos: 1 } })
    );
    let yesterday = Instant { nanos: now.nanos - NANOS_PER_DAY as i64 };
    assert_eq!(
        wait(now, &TriggerSpec::Absolute(yesterday)),
        Err(ElapsedTriggerError { overdue: Wait { nanos: NANOS_PER_DAY } })
    );
}

#[test]
fn absolute_wait_spans_the_whole_range_of_instants() {
    let first = Instant { nanos: i64::MIN };
    let last = Instant { nanos: i64::MAX };
    assert_eq!(wait(first, &TriggerSpec::Absolute(last)), Ok(Wait { nanos: u64::MAX }));
    assert_eq!(
        wait(last, &TriggerSpec::Absolute(first)),
        Err(ElapsedTriggerError { overdue: Wait { nanos: u64::MAX } })
    );
}

#[test]
fn the_same_question_gets_the_same_answer() {
    let now = at(17, 45, 12);
    let triggers = [
        daily(6, 0, 0),
        daily(17, 45, 12),
        TriggerSpec::Absolute(at(18, 0, 0)),
        TriggerSpec::Absolute(at(1, 0, 0)),
    ];
    for trigger in triggers {
        let first = wait(now, &trigger);
        let second = wait(now, &trigger);
        assert_eq!(first, second);
    }
}
