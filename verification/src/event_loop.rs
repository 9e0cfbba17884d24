//! The loop of one event: wait, fire, and wait again or stop.
//!
//! A loop is in one of three states. It starts out waiting. When the host
//! has slept for the wait that [`DispatchLoop::schedule`] gave it, it calls
//! [`DispatchLoop::on_wake`], which moves the loop on to firing unless a
//! shutdown has been asked for. When the request has been dealt with, the
//! host calls [`DispatchLoop::on_fired`], which counts the result and sends
//! a daily event of a recurring run back to waiting and any other to done.
//! A shutdown is looked at only at these two points, never while a request
//! is under way.
//!
//! A trigger at a fixed instant that has already passed when the loop
//! first asks for its wait is skipped: the loop is done without firing and
//! carries the failure in its report. No other loop is touched by that.

use vstd::prelude::*;
use crate::dispatch::{DispatchResult, FailureReason};
use crate::occurrence::{wait, wait_for};
use crate::schedule::{selected_endpoint, Device, Event};
use crate::time::{Instant, Wait};

verus! {

/// How a run ends.
#[derive(Clone, Copy, Debug, PartialEq, Eq, Structural)]
pub enum RunMode {
    /// Every loop ends after its first firing, and the run with the last
    /// loop. A daily trigger is taken for its next occurrence only.
    OneShot,
    /// Loops with a daily trigger go on until a shutdown is asked for.
    Recurring,
}

/// Where a loop stands.
#[derive(Clone, Copy, Debug, PartialEq, Eq, Structural)]
pub enum LoopState {
    /// Waiting for the trigger. Every loop starts here.
    Waiting,
    /// A request is under way.
    Firing,
    /// The loop has ended and will do nothing more.
    Done,
}

/// What the host does next for a loop.
#[derive(Clone, Copy, Debug, PartialEq, Eq, Structural)]
pub enum LoopAction {
    /// Sleep for this long, then call `on_wake`.
    Sleep(Wait),
    /// Send the request to the loop's endpoint, then call `on_fired`.
    Fire,
    /// Nothing: the loop is done.
    Stop,
}

/// How a loop last failed.
#[derive(Clone, Copy, Debug, PartialEq, Eq, Structural)]
pub struct Failure {
    pub reason: FailureReason,
    /// The attempts that the failed firing made; 0 where nothing was sent.
    pub attempts: u32,
}

/// What a loop hands up when it has ended.
#[derive(Clone, Debug)]
pub struct LoopReport {
    /// The position of the loop's device in the list of devices.
    pub device: usize,
    /// The name of the loop's device.
    pub name: String,
    /// The loop's event.
    pub event: Event,
    /// How many firings were delivered.
    pub fired: u64,
    /// How many firings failed, a skipped trigger counted as one.
    pub failed: u64,
    /// The last failure, if there was any.
    pub last_failure: Option<Failure>,
}

/// The loop of one event of one device. It holds its own copy of the
/// device's name and addresses.
#[derive(Debug)]
pub struct DispatchLoop {
    device: usize,
    name: String,
    on: String,
    off: String,
    event: Event,
    mode: RunMode,
    state: LoopState,
    fired: u64,
    failed: u64,
    last_failure: Option<Failure>,
}

/// A loop as the contracts see it.
pub struct LoopView {
    pub device: usize,
    pub name: Seq<char>,
    pub on: Seq<char>,
    pub off: Seq<char>,
    pub event: Event,
    pub mode: RunMode,
    pub state: LoopState,
    pub fired: u64,
    pub failed: u64,
    pub last_failure: Option<Failure>,
}

impl LoopView {
    /// The loop for `event` of the device at `device` in a run of the
    /// given mode, before anything has happened: waiting, with nothing
    /// counted.
    pub open spec fn initial(
        device: usize,
        name: Seq<char>,
        on: Seq<char>,
        off: Seq<char>,
        event: Event,
        mode: RunMode,
    ) -> LoopView {
        LoopView {
            device,
            name,
            on,
            off,
            event,
            mode,
            state: LoopState::Waiting,
            fired: 0,
            failed: 0,
            last_failure: None,
        }
    }

    /// The address that the loop's requests go to.
    pub open spec fn endpoint(self) -> Seq<char> {
        selected_endpoint(self.on, self.off, self.event.on)
    }

    /// The loop and the host's next action after the loop, waiting, has
    /// asked at `now` how long to sleep. A trigger that has passed ends the
    /// loop with a failure.
    pub open spec fn scheduled(self, now: Instant) -> (LoopView, LoopAction) {
        match wait_for(now, self.event.trigger) {
            Ok(pause) => (self, LoopAction::Sleep(pause)),
            Err(_) => (
                LoopView {
                    state: LoopState::Done,
                    failed: (self.failed + 1) as u64,
                    last_failure: Some(
                        Failure { reason: FailureReason::ElapsedTrigger, attempts: 0 },
                    ),
                    ..self
                },
                LoopAction::Stop,
            ),
        }
    }

    /// The loop and the host's next action after the loop, waiting, has
    /// woken up: done if a shutdown is pending, else firing.
    pub open spec fn woken(self, shutdown: bool) -> (LoopView, LoopAction) {
        if shutdown {
            (LoopView { state: LoopState::Done, ..self }, LoopAction::Stop)
        } else {
            (LoopView { state: LoopState::Firing, ..self }, LoopAction::Fire)
        }
    }

    /// The loop after it has counted how a firing ended.
    pub open spec fn counted(self, result: DispatchResult) -> LoopView {
        match result {
            DispatchResult::Delivered { attempts } => LoopView {
                fired: (self.fired + 1) as u64,
                ..self
            },
            DispatchResult::DispatchFailed { reason, attempts } => LoopView {
                failed: (self.failed + 1) as u64,
                last_failure: Some(Failure { reason, attempts }),
                ..self
            },
        }
    }

    /// Whether the loop goes on after a firing: the run is a recurring
    /// one, the loop's trigger is a daily one, and no shutdown is pending.
    pub open spec fn goes_on(self, shutdown: bool) -> bool {
        self.mode is Recurring && self.event.trigger.recurs() && !shutdown
    }

    /// The loop and the host's next action after a firing of the loop has
    /// ended with `result`: counted, and then back to waiting, with the
    /// wait as seen at `now`, or done.
    pub open spec fn fired_with(self, result: DispatchResult, shutdown: bool, now: Instant) -> (
        LoopView,
        LoopAction,
    ) {
        let counted = self.counted(result);
        if self.goes_on(shutdown) {
            (
                LoopView { state: LoopState::Waiting, ..counted },
                LoopAction::Sleep(wait_for(now, self.event.trigger).unwrap()),
            )
        } else {
            (LoopView { state: LoopState::Done, ..counted }, LoopAction::Stop)
        }
    }
}

impl View for DispatchLoop {
    type V = LoopView;

    closed spec fn view(&self) -> LoopView {
        LoopView {
            device: self.device,
            name: self.name@,
            on: self.on@,
            off: self.off@,
            event: self.event,
            mode: self.mode,
            state: self.state,
            fired: self.fired,
            failed: self.failed,
            last_failure: self.last_failure,
        }
    }
}

impl DispatchLoop {
    /// A new loop for `event` of `device`, which stands at `position` in
    /// the host's list, in a run of the given mode. The loop is waiting
    /// and has counted nothing.
    pub fn new(position: usize, device: &Device, event: Event, mode: RunMode) -> (lp:
        DispatchLoop)
        ensures
            lp@ == LoopView::initial(
                position,
                device.name@,
                device.on@,
                device.off@,
                event,
                mode,
            ),
    {
        DispatchLoop {
            device: position,
            name: device.name.clone(),
            on: device.on.clone(),
            off: device.off.clone(),
            event,
            mode,
            state: LoopState::Waiting,
            fired: 0,
            failed: 0,
            last_failure: None,
        }
    }

    /// Where the loop stands.
    pub fn state(&self) -> (s: LoopState)
        ensures
            s == self@.state,
    {
        self.state
    }

    /// The loop's event.
    pub fn event(&self) -> (e: Event)
        ensures
            e == self@.event,
    {
        self.event
    }

    /// The mode of the run that the loop belongs to.
    pub fn mode(&self) -> (m: RunMode)
        ensures
            m == self@.mode,
    {
        self.mode
    }

    /// The position of the loop's device in the host's list.
    pub fn device(&self) -> (position: usize)
        ensures
            position == self@.device,
    {
        self.device
    }

    /// The name of the loop's device.
    pub fn name(&self) -> (name: &String)
        ensures
            name@ == self@.name,
    {
        &self.name
    }

    /// How many firings of this loop were delivered.
    pub fn fired(&self) -> (n: u64)
        ensures
            n == self@.fired,
    {
        self.fired
    }

    /// How many firings of this loop failed.
    pub fn failed(&self) -> (n: u64)
        ensures
            n == self@.failed,
    {
        self.failed
    }

    /// The last failure of this loop, if there was any.
    pub fn last_failure(&self) -> (f: Option<Failure>)
        ensures
            f == self@.last_failure,
    {
        self.last_failure
    }

    /// The address that the loop's requests go to: the device's address
    /// for "on" if the event switches on, else the one for "off".
    pub fn endpoint(&self) -> (address: &String)
        ensures
            address@ == self@.endpoint(),
    {
        if self.event.on {
            &self.on
        } else {
            &self.off
        }
    }

    /// Asks, for a waiting loop, how long to sleep from `now`.
    ///
    /// The answer is `Sleep` with the wait for the loop's trigger, and the
    /// loop stays as it is. Only where the trigger is a fixed instant
    /// before `now` is the answer `Stop`: the loop is then done and has
    /// counted one failure, for the reason `ElapsedTrigger`.
    pub fn schedule(&mut self, now: Instant) -> (action: LoopAction)
        requires
            old(self)@.state == LoopState::Waiting,
            old(self)@.failed < u64::MAX,
        ensures
            (final(self)@, action) == old(self)@.scheduled(now),
    {
        match wait(now, &self.event.trigger) {
            Ok(pause) => LoopAction::Sleep(pause),
            Err(_) => {
                self.state = LoopState::Done;
                self.failed = self.failed + 1;
                self.last_failure = Some(
                    Failure { reason: FailureReason::ElapsedTrigger, attempts: 0 },
                );
                LoopAction::Stop
            },
        }
    }

    /// Tells a waiting loop that its sleep is over. `shutdown` says whether
    /// a shutdown is pending.
    ///
    /// With a shutdown pending the loop is done and has not fired. Else it
    /// is firing, and the host sends the request.
    pub fn on_wake(&mut self, shutdown: bool) -> (action: LoopAction)
        requires
            old(self)@.state == LoopState::Waiting,
        ensures
            (final(self)@, action) == old(self)@.woken(shutdown),
    {
        if shutdown {
            self.state = LoopState::Done;
            LoopAction::Stop
        } else {
            self.state = LoopState::Firing;
            LoopAction::Fire
        }
    }

    /// Tells a firing loop how the firing ended. `shutdown` says whether a
    /// shutdown is pending now, and `now` is the time at which the loop
    /// would start to wait again.
    ///
    /// The result is counted in any case. In a recurring run, a loop with
    /// a daily trigger then waits again, unless a shutdown is pending;
    /// every other loop is done.
    pub fn on_fired(&mut self, result: DispatchResult, shutdown: bool, now: Instant) -> (action:
        LoopAction)
        requires
            old(self)@.state == LoopState::Firing,
            old(self)@.fired < u64::MAX,
            old(self)@.failed < u64::MAX,
        ensures
            (final(self)@, action) == old(self)@.fired_with(result, shutdown, now),
    {
        match result {
            DispatchResult::Delivered { attempts } => {
                self.fired = self.fired + 1;
            },
            DispatchResult::DispatchFailed { reason, attempts } => {
                self.failed = self.failed + 1;
                self.last_failure = Some(Failure { reason, attempts });
            },
        }
        let recurring_run = match self.mode {
            RunMode::Recurring => true,
            RunMode::OneShot => false,
        };
        if recurring_run && self.event.trigger.is_recurring() && !shutdown {
            match wait(now, &self.event.trigger) {
                Ok(pause) => {
                    self.state = LoopState::Waiting;
                    LoopAction::Sleep(pause)
                },
                Err(_) => {
                    self.state = LoopState::Done;
                    LoopAction::Stop
                },
            }
        } else {
            self.state = LoopState::Done;
            LoopAction::Stop
        }
    }

    /// Ends the loop's life and hands out its report.
    pub fn into_report(self) -> (report: LoopReport)
        ensures
            report.device == self@.device,
            report.name@ == self@.name,
            report.event == self@.event,
            report.fired == self@.fired,
            report.failed == self@.failed,
            report.last_failure == self@.last_failure,
    {
        LoopReport {
            device: self.device,
            name: self.name,
            event: self.event,
            fired: self.fired,
            failed: self.failed,
            last_failure: self.last_failure,
        }
    }
}

/// A loop's requests go to exactly one of its device's two addresses: to
/// the one for "on" if its event switches on, to the one for "off" if not.
pub proof fn lemma_one_endpoint(lp: LoopView)
    ensures
        lp.event.on ==> lp.endpoint() == lp.on,
        !lp.event.on ==> lp.endpoint() == lp.off,
{
}

/// A waiting loop that wakes up to a pending shutdown is done without
/// having fired: nothing is sent and nothing is counted, and nothing else
/// of the loop changes.
pub proof fn lemma_shutdown_while_waiting(lp: LoopView)
    ensures
        lp.woken(true).1 == LoopAction::Stop,
        lp.woken(true).0.state == LoopState::Done,
        lp.woken(true).0.fired == lp.fired,
        lp.woken(true).0.failed == lp.failed,
        lp.woken(true).0.last_failure == lp.last_failure,
        lp.woken(true).0 == (LoopView { state: LoopState::Done, ..lp }),
{
}

/// A shutdown that is asked for while a loop is firing does not cut the
/// firing short: its result, delivered or failed, is counted once, as any
/// other is, and only then is the loop done. The answer is `Stop`: the loop
/// starts no new wait and no new firing, whatever its trigger and the mode
/// of the run. (The counts are stated for a counter that has room for one
/// more.)
pub proof fn lemma_shutdown_while_firing(lp: LoopView, result: DispatchResult, now: Instant)
    ensures
        ({
            let (after, action) = lp.fired_with(result, true, now);
            &&& action == LoopAction::Stop
            &&& after.state == LoopState::Done
            &&& after == (LoopView { state: LoopState::Done, ..lp.counted(result) })
            &&& after == (LoopView { state: LoopState::Done, ..lp.fired_with(result, false, now).0 })
            &&& result matches DispatchResult::Delivered { attempts } ==> {
                &&& lp.fired < u64::MAX ==> after.fired == lp.fired + 1
                &&& after.failed == lp.failed
                &&& after.last_failure == lp.last_failure
            }
            &&& result matches DispatchResult::DispatchFailed { reason, attempts } ==> {
                &&& after.fired == lp.fired
                &&& lp.failed < u64::MAX ==> after.failed == lp.failed + 1
                &&& after.last_failure == Some(Failure { reason, attempts })
            }
        }),
{
}

/// A firing is counted whether or not a shutdown is pending, as delivered
/// or as failed and never as both, and a pending shutdown ends the loop
/// after it.
pub proof fn lemma_firing_is_counted(
    lp: LoopView,
    result: DispatchResult,
    shutdown: bool,
    now: Instant,
)
    requires
        lp.fired < u64::MAX,
        lp.failed < u64::MAX,
    ensures
        ({
            let after = lp.fired_with(result, shutdown, now).0;
            &&& result is Delivered ==> after.fired == lp.fired + 1 && after.failed == lp.failed
            &&& result is DispatchFailed ==> after.fired == lp.fired && after.failed == lp.failed
                + 1
            &&& shutdown ==> after.state == LoopState::Done
        }),
{
}

/// A trigger at a fixed instant is used up by one firing, and in a
/// one-shot run so is every trigger: the loop is done after it. In a
/// recurring run a loop with a daily trigger waits again, for less than a
/// day, as long as no shutdown is pending.
pub proof fn lemma_after_firing(lp: LoopView, result: DispatchResult, shutdown: bool, now: Instant)
    ensures
        ({
            let (after, action) = lp.fired_with(result, shutdown, now);
            &&& after.state == LoopState::Done <==> action == LoopAction::Stop
            &&& after.state != LoopState::Firing
            &&& lp.event.trigger is Absolute || lp.mode is OneShot ==> after.state
                == LoopState::Done
            &&& lp.goes_on(shutdown) ==> after.state == LoopState::Waiting
            &&& lp.goes_on(shutdown) && lp.event.trigger->DailyTimeOfDay_0.wf() ==> (action
                matches LoopAction::Sleep(pause) && pause.nanos < crate::time::NANOS_PER_DAY)
        }),
{
    if lp.goes_on(shutdown) && lp.event.trigger->DailyTimeOfDay_0.wf() {
        crate::occurrence::lemma_daily_trigger_wait(now, lp.event.trigger->DailyTimeOfDay_0);
    }
}

} // verus!
