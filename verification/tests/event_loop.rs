use device_scheduler::dispatch::{
    AttemptOutcome, DispatchResult, DispatchStep, FailureReason, RetryPolicy,
};
use device_scheduler::event_loop::{DispatchLoop, Failure, LoopAction, LoopState, RunMode};
use device_scheduler::schedule::{Device, Event, TriggerSpec};
use device_scheduler::time::{Instant, TimeOfDay, Wait, NANOS_PER_DAY};

const SEC: u64 = 1_000_000_000;
const HOUR: u64 = 3_600 * SEC;

fn at(h: u32, m: u32, s: u32) -> Instant {
    Instant { nanos: (h as i64 * 3600 + m as i64 * 60 + s as i64) * SEC as i64 }
}

fn daily(h: u32, m: u32, on: bool) -> Event {
    Event { trigger: TriggerSpec::DailyTimeOfDay(TimeOfDay::from_hms(h, m, 0).unwrap()), on }
}

fn once(instant: Instant, on: bool) -> Event {
    Event { trigger: TriggerSpec::Absolute(instant), on }
}

fn pump(events: Vec<Event>) -> Device {
    Device {
        name: "pump".to_string(),
        on: "http://pump.local/on".to_string(),
        off: "http://pump.local/off".to_string(),
        events,
    }
}

fn delivered(attempts: u32) -> DispatchResult {
    DispatchResult::Delivered { attempts }
}

fn failed(reason: FailureReason, attempts: u32) -> DispatchResult {
    DispatchResult::DispatchFailed { reason, attempts }
}

/// What a loop shows of itself, to tell whether anything touched it.
fn snapshot(lp: &DispatchLoop) -> (LoopState, u64, u64, Option<Failure>, String, Event) {
    (lp.state(), lp.fired(), lp.failed(), lp.last_failure(), lp.endpoint().clone(), lp.event())
}

#[test]
fn a_new_loop_waits_and_has_counted_nothing() {
    let device = pump(vec![daily(8, 0, true)]);
    let lp = DispatchLoop::new(4, &device, device.events[0], RunMode::Recurring);
    assert_eq!(lp.state(), LoopState::Waiting);
    assert_eq!(lp.fired(), 0);
    assert_eq!(lp.failed(), 0);
    assert_eq!(lp.last_failure(), None);
    assert_eq!(lp.device(), 4);
    assert_eq!(lp.name(), "pump");
    assert_eq!(lp.event(), daily(8, 0, true));
}

#[test]
fn the_action_flag_picks_exactly_one_endpoint() {
    let device = pump(vec![daily(8, 0, true), daily(8, 0, false)]);
    let on = DispatchLoop::new(0, &device, device.events[0], RunMode::Recurring);
    let off = DispatchLoop::new(0, &device, device.events[1], RunMode::Recurring);
    assert_eq!(on.endpoint(), "http://pump.local/on");
    assert_eq!(off.endpoint(), "http://pump.local/off");
    assert_eq!(device.endpoint(true), "http://pump.local/on");
    assert_eq!(device.endpoint(false), "http://pump.local/off");
}

#[test]
fn a_loop_keeps_its_own_copy_of_the_device() {
    let mut device = pump(vec![daily(8, 0, true)]);
    let lp = DispatchLoop::new(0, &device, device.events[0], RunMode::Recurring);
    device.name = "lamp".to_string();
    device.on = "http://lamp.local/on".to_string();
    assert_eq!(lp.name(), "pump");
    assert_eq!(lp.endpoint(), "http://pump.local/on");
}

#[test]
fn schedule_gives_the_wait_and_leaves_the_loop_waiting() {
    let device = pump(vec![daily(8, 0, true)]);
    let mut lp = DispatchLoop::new(0, &device, device.events[0], RunMode::Recurring);
    assert_eq!(lp.schedule(at(6, 0, 0)), LoopAction::Sleep(Wait { nanos: 2 * HOUR }));
    assert_eq!(lp.state(), LoopState::Waiting);
    assert_eq!(lp.schedule(at(9, 0, 0)), LoopAction::Sleep(Wait { nanos: 23 * HOUR }));
    assert_eq!(lp.state(), LoopState::Waiting);
    assert_eq!((lp.fired(), lp.failed()), (0, 0));
}

#[test]
fn a_one_shot_loop_fires_once_and_is_done() {
    let now = at(10, 0, 0);
    let device = pump(vec![once(Instant { nanos: now.nanos + 5 * SEC as i64 }, false)]);
    let mut lp = DispatchLoop::new(0, &device, device.events[0], RunMode::Recurring);
    assert_eq!(lp.schedule(now), LoopAction::Sleep(Wait { nanos: 5 * SEC }));
    assert_eq!(lp.on_wake(false), LoopAction::Fire);
    assert_eq!(lp.state(), LoopState::Firing);
    assert_eq!(lp.endpoint(), "http://pump.local/off");
    let later = Instant { nanos: now.nanos + 6 * SEC as i64 };
    assert_eq!(lp.on_fired(delivered(1), false, later), LoopAction::Stop);
    assert_eq!(lp.state(), LoopState::Done);
    assert_eq!((lp.fired(), lp.failed()), (1, 0));
    assert_eq!(lp.last_failure(), None);
}

#[test]
fn a_daily_loop_waits_again_after_firing() {
    let device = pump(vec![daily(8, 0, true)]);
    let mut lp = DispatchLoop::new(0, &device, device.events[0], RunMode::Recurring);
    assert_eq!(lp.schedule(at(7, 59, 0)), LoopAction::Sleep(Wait { nanos: 60 * SEC }));
    assert_eq!(lp.on_wake(false), LoopAction::Fire);
    assert_eq!(
        lp.on_fired(delivered(1), false, at(8, 0, 1)),
        LoopAction::Sleep(Wait { nanos: NANOS_PER_DAY - SEC })
    );
    assert_eq!(lp.state(), LoopState::Waiting);
    assert_eq!(lp.on_wake(false), LoopAction::Fire);
    assert_eq!(
        lp.on_fired(delivered(2), false, at(8, 0, 0)),
        LoopAction::Sleep(Wait { nanos: 0 })
    );
    assert_eq!((lp.fired(), lp.failed()), (2, 0));
}

#[test]
fn a_failed_firing_is_counted_and_a_daily_loop_goes_on() {
    let device = pump(vec![daily(8, 0, true)]);
    let mut lp = DispatchLoop::new(0, &device, device.events[0], RunMode::Recurring);
    lp.schedule(at(7, 0, 0));
    lp.on_wake(false);
    let action = lp.on_fired(failed(FailureReason::TransportFailure, 3), false, at(8, 0, 30));
    assert_eq!(action, LoopAction::Sleep(Wait { nanos: NANOS_PER_DAY - 30 * SEC }));
    assert_eq!(lp.state(), LoopState::Waiting);
    assert_eq!((lp.fired(), lp.failed()), (0, 1));
    assert_eq!(
        lp.last_failure(),
        Some(Failure { reason: FailureReason::TransportFailure, attempts: 3 })
    );
    lp.on_wake(false);
    lp.on_fired(delivered(1), false, at(8, 0, 0));
    assert_eq!((lp.fired(), lp.failed()), (1, 1));
    assert_eq!(
        lp.last_failure(),
        Some(Failure { reason: FailureReason::TransportFailure, attempts: 3 })
    );
    lp.on_wake(false);
    lp.on_fired(failed(FailureReason::RemoteRejected, 2), false, at(8, 0, 0));
    assert_eq!((lp.fired(), lp.failed()), (1, 2));
    assert_eq!(
        lp.last_failure(),
        Some(Failure { reason: FailureReason::RemoteRejected, attempts: 2 })
    );
}

#[test]
fn a_failed_one_shot_firing_ends_the_loop() {
    let now = at(10, 0, 0);
    let device = pump(vec![once(now, true)]);
    let mut lp = DispatchLoop::new(0, &device, device.events[0], RunMode::Recurring);
    assert_eq!(lp.schedule(now), LoopAction::Sleep(Wait { nanos: 0 }));
    assert_eq!(lp.on_wake(false), LoopAction::Fire);
    assert_eq!(lp.on_fired(failed(FailureReason::RemoteRejected, 3), false, now), LoopAction::Stop);
    assert_eq!(lp.state(), LoopState::Done);
    assert_eq!((lp.fired(), lp.failed()), (0, 1));
}

#[test]
fn an_elapsed_trigger_ends_its_loop_and_no_other() {
    let now = at(10, 0, 0);
    let device = pump(vec![
        once(Instant { nanos: now.nanos - 1 }, true),
        once(Instant { nanos: now.nanos + 1 }, true),
        daily(9, 0, false),
    ]);
    let mut late = DispatchLoop::new(0, &device, device.events[0], RunMode::Recurring);
    let mut due = DispatchLoop::new(0, &device, device.events[1], RunMode::Recurring);
    let mut every_day = DispatchLoop::new(0, &device, device.events[2], RunMode::Recurring);
    assert_eq!(due.schedule(now), LoopAction::Sleep(Wait { nanos: 1 }));
    assert_eq!(every_day.schedule(now), LoopAction::Sleep(Wait { nanos: 23 * HOUR }));
    let due_before = snapshot(&due);
    let every_day_before = snapshot(&every_day);

    assert_eq!(late.schedule(now), LoopAction::Stop);
    assert_eq!(late.state(), LoopState::Done);
    assert_eq!((late.fired(), late.failed()), (0, 1));
    assert_eq!(
        late.last_failure(),
        Some(Failure { reason: FailureReason::ElapsedTrigger, attempts: 0 })
    );

    assert_eq!(snapshot(&due), due_before);
    assert_eq!(snapshot(&every_day), every_day_before);
}

#[test]
fn both_events_of_the_pump_reach_their_own_endpoint_once() {
    let device = pump(vec![daily(8, 0, true), daily(8, 0, false)]);
    let mut loops = vec![
        DispatchLoop::new(0, &device, device.events[0], RunMode::Recurring),
        DispatchLoop::new(0, &device, device.events[1], RunMode::Recurring),
    ];
    let start = at(7, 0, 0);
    for order in [[0usize, 1], [1, 0]] {
        let mut requests: Vec<String> = Vec::new();
        for lp in loops.iter_mut() {
            assert_eq!(lp.schedule(start), LoopAction::Sleep(Wait { nanos: HOUR }));
        }
        for which in order {
            let lp = &mut loops[which];
            assert_eq!(lp.on_wake(false), LoopAction::Fire);
            requests.push(lp.endpoint().clone());
            let next = lp.on_fired(delivered(1), false, at(8, 0, 0));
            assert_eq!(next, LoopAction::Sleep(Wait { nanos: 0 }));
        }
        let to_on = requests.iter().filter(|r| r.as_str() == "http://pump.local/on").count();
        let to_off = requests.iter().filter(|r| r.as_str() == "http://pump.local/off").count();
        assert_eq!((to_on, to_off), (1, 1));
        assert_eq!(requests.len(), 2);
    }
    assert_eq!((loops[0].fired(), loops[0].failed()), (2, 0));
    assert_eq!((loops[1].fired(), loops[1].failed()), (2, 0));
}

#[test]
fn third_attempt_delivers_and_the_siblings_are_untouched() {
    let device = pump(vec![daily(8, 0, true), daily(8, 0, false), daily(20, 0, true)]);
    let mut loops: Vec<DispatchLoop> = (0..3)
        .map(|i| DispatchLoop::new(0, &device, device.events[i], RunMode::Recurring))
        .collect();
    for lp in loops.iter_mut() {
        lp.schedule(at(7, 0, 0));
    }
    let before_second = snapshot(&loops[1]);
    let before_third = snapshot(&loops[2]);

    assert_eq!(loops[0].on_wake(false), LoopAction::Fire);
    let policy = RetryPolicy::standard();
    let outcomes = [
        AttemptOutcome::TransportFailure,
        AttemptOutcome::TransportFailure,
        AttemptOutcome::Delivered,
    ];
    let mut attempt = 1;
    let mut result = None;
    for outcome in outcomes {
        match policy.after_attempt(attempt, outcome) {
            DispatchStep::Finished(r) => {
                result = Some(r);
                break;
            }
            DispatchStep::RetryAfter(_) => attempt += 1,
        }
    }
    assert_eq!(result, Some(DispatchResult::Delivered { attempts: 3 }));
    loops[0].on_fired(result.unwrap(), false, at(8, 0, 2));

    assert_eq!((loops[0].fired(), loops[0].failed()), (1, 0));
    assert_eq!(loops[0].last_failure(), None);
    assert_eq!(snapshot(&loops[1]), before_second);
    assert_eq!(snapshot(&loops[2]), before_third);
    assert_eq!((loops[1].fired(), loops[1].failed()), (0, 0));
    assert_eq!((loops[2].fired(), loops[2].failed()), (0, 0));
}

#[test]
fn shutdown_stops_waiting_loops_and_lets_firing_loops_finish() {
    let device = pump(vec![
        daily(8, 0, true),
        daily(9, 0, false),
        daily(10, 0, true),
        daily(7, 0, true),
        daily(7, 0, false),
    ]);
    let mut loops: Vec<DispatchLoop> = (0..5)
        .map(|i| DispatchLoop::new(0, &device, device.events[i], RunMode::Recurring))
        .collect();
    for lp in loops.iter_mut() {
        assert!(matches!(lp.schedule(at(6, 59, 0)), LoopAction::Sleep(_)));
    }
    assert_eq!(loops[3].on_wake(false), LoopAction::Fire);
    assert_eq!(loops[4].on_wake(false), LoopAction::Fire);
    let states: Vec<LoopState> = loops.iter().map(|lp| lp.state()).collect();
    assert_eq!(
        states,
        vec![
            LoopState::Waiting,
            LoopState::Waiting,
            LoopState::Waiting,
            LoopState::Firing,
            LoopState::Firing
        ]
    );

    // The signal is raised here. The waiting loops wake up and see it.
    for lp in loops.iter_mut().take(3) {
        assert_eq!(lp.on_wake(true), LoopAction::Stop);
        assert_eq!(lp.state(), LoopState::Done);
        assert_eq!((lp.fired(), lp.failed()), (0, 0));
        assert_eq!(lp.last_failure(), None);
    }
    // The requests under way come back, and only then do their loops stop.
    assert_eq!(loops[3].state(), LoopState::Firing);
    assert_eq!(loops[4].state(), LoopState::Firing);
    assert_eq!(loops[3].on_fired(delivered(1), true, at(7, 0, 1)), LoopAction::Stop);
    assert_eq!(
        loops[4].on_fired(failed(FailureReason::RemoteRejected, 3), true, at(7, 0, 9)),
        LoopAction::Stop
    );
    assert_eq!(loops[3].state(), LoopState::Done);
    assert_eq!(loops[4].state(), LoopState::Done);
    assert_eq!((loops[3].fired(), loops[3].failed()), (1, 0));
    assert_eq!((loops[4].fired(), loops[4].failed()), (0, 1));
    assert_eq!(
        loops[4].last_failure(),
        Some(Failure { reason: FailureReason::RemoteRejected, attempts: 3 })
    );
}

#[test]
fn shutdown_after_a_firing_ends_a_daily_loop() {
    let device = pump(vec![daily(8, 0, true)]);
    let mut lp = DispatchLoop::new(0, &device, device.events[0], RunMode::Recurring);
    lp.schedule(at(7, 0, 0));
    assert_eq!(lp.on_wake(false), LoopAction::Fire);
    assert_eq!(lp.on_fired(delivered(1), true, at(8, 0, 0)), LoopAction::Stop);
    assert_eq!(lp.state(), LoopState::Done);
    assert_eq!(lp.fired(), 1);
}

#[test]
fn the_report_carries_what_the_loop_counted() {
    let device = pump(vec![daily(8, 0, false)]);
    let mut lp = DispatchLoop::new(7, &device, device.events[0], RunMode::Recurring);
    lp.schedule(at(7, 0, 0));
    lp.on_wake(false);
    lp.on_fired(delivered(1), false, at(8, 0, 0));
    lp.on_wake(false);
    lp.on_fired(failed(FailureReason::TransportFailure, 3), true, at(8, 0, 0));
    let report = lp.into_report();
    assert_eq!(report.device, 7);
    assert_eq!(report.name, "pump");
    assert_eq!(report.event, daily(8, 0, false));
    assert_eq!(report.fired, 1);
    assert_eq!(report.failed, 1);
    assert_eq!(
        report.last_failure,
        Some(Failure { reason: FailureReason::TransportFailure, attempts: 3 })
    );
}

#[test]
fn in_a_one_shot_run_a_daily_loop_fires_once() {
    let device = pump(vec![daily(8, 0, true)]);
    let mut lp = DispatchLoop::new(0, &device, device.events[0], RunMode::OneShot);
    assert_eq!(lp.mode(), RunMode::OneShot);
    assert_eq!(lp.schedule(at(9, 0, 0)), LoopAction::Sleep(Wait { nanos: 23 * HOUR }));
    assert_eq!(lp.on_wake(false), LoopAction::Fire);
    assert_eq!(lp.on_fired(delivered(1), false, at(8, 0, 0)), LoopAction::Stop);
    assert_eq!(lp.state(), LoopState::Done);
    assert_eq!((lp.fired(), lp.failed()), (1, 0));
}

#[test]
fn a_one_shot_loop_ends_in_a_recurring_run_too() {
    let now = at(10, 0, 0);
    let device = pump(vec![once(Instant { nanos: now.nanos + 1 }, true)]);
    let mut lp = DispatchLoop::new(0, &device, device.events[0], RunMode::Recurring);
    assert_eq!(lp.mode(), RunMode::Recurring);
    lp.schedule(now);
    lp.on_wake(false);
    assert_eq!(lp.on_fired(failed(FailureReason::TransportFailure, 3), false, now), LoopAction::Stop);
    assert_eq!(lp.state(), LoopState::Done);
}
