//! From a list of devices to the loops that run it, and from the loops'
//! reports to one result.
//!
//! The host starts a run with [`Orchestrator::start`], which checks the
//! list and makes its loops, runs every loop it got, and hands each loop's
//! report to [`Orchestrator::report`]. When all loops have reported, or
//! when the time allowed for shutting down is over, it takes the result
//! with [`Orchestrator::finish`]; a loop that has not reported by then is
//! recorded as timed out.

use vstd::prelude::*;
use crate::aggregate::{AggregateResult, AggregateView};
use crate::event_loop::{DispatchLoop, LoopReport, LoopState, LoopView, RunMode};
use crate::schedule::{ConfigError, Device, Event};

verus! {

/// No device of the list has anything wrong with it.
pub open spec fn faultless(devices: Seq<Device>) -> bool {
    forall|i: int| 0 <= i < devices.len() ==> (#[trigger] devices[i]).fault(i as usize) is None
}

/// `e` is what is wrong with the first device of the list that has
/// anything wrong with it.
pub open spec fn first_fault_is(devices: Seq<Device>, e: ConfigError) -> bool {
    exists|i: int|
        0 <= i < devices.len() && (#[trigger] devices[i]).fault(i as usize) == Some(e)
            && faultless(devices.take(i))
}

/// The loops of one device, new, in the order of its events.
pub open spec fn device_loops(position: usize, device: Device, mode: RunMode) -> Seq<LoopView> {
    Seq::new(
        device.events@.len(),
        |j: int|
            LoopView::initial(
                position,
                device.name@,
                device.on@,
                device.off@,
                device.events@[j],
                mode,
            ),
    )
}

/// The loops of a list of devices, new: those of the first device, then
/// those of the second, and so on.
pub open spec fn planned_loops(devices: Seq<Device>, mode: RunMode) -> Seq<LoopView>
    decreases devices.len(),
{
    if devices.len() == 0 {
        Seq::empty()
    } else {
        planned_loops(devices.drop_last(), mode) + device_loops(
            (devices.len() - 1) as usize,
            devices.last(),
            mode,
        )
    }
}

/// The number of events of all devices of a list together.
pub open spec fn event_count(devices: Seq<Device>) -> nat
    decreases devices.len(),
{
    if devices.len() == 0 {
        0
    } else {
        event_count(devices.drop_last()) + devices.last().events@.len()
    }
}

/// The loops as the contracts see them, one by one.
pub open spec fn views_of(loops: Seq<DispatchLoop>) -> Seq<LoopView> {
    loops.map_values(|lp: DispatchLoop| lp@)
}

/// Some event of some device of the list has a daily trigger.
pub open spec fn any_recurring(devices: Seq<Device>) -> bool {
    exists|i: int, j: int|
        0 <= i < devices.len() && 0 <= j < devices[i].events@.len() && (
        #[trigger] devices[i].events@[j]).trigger.recurs()
}

/// There is one planned loop for every event of every device.
pub proof fn lemma_one_loop_per_event(devices: Seq<Device>, mode: RunMode)
    ensures
        planned_loops(devices, mode).len() == event_count(devices),
    decreases devices.len(),
{
    if devices.len() > 0 {
        lemma_one_loop_per_event(devices.drop_last(), mode);
    }
}

/// The planned loop of event `j` of device `i` stands behind the loops of
/// all earlier devices, at place `j` among its own device's, and is new:
/// it carries that device's name and addresses and that event.
pub proof fn lemma_planned_loop_at(devices: Seq<Device>, mode: RunMode, i: int, j: int)
    requires
        0 <= i < devices.len(),
        0 <= j < devices[i].events@.len(),
    ensures
        event_count(devices.take(i)) + j < planned_loops(devices, mode).len(),
        planned_loops(devices, mode)[event_count(devices.take(i)) + j] == LoopView::initial(
            i as usize,
            devices[i].name@,
            devices[i].on@,
            devices[i].off@,
            devices[i].events@[j],
            mode,
        ),
    decreases devices.len(),
{
    lemma_one_loop_per_event(devices, mode);
    if i < devices.len() - 1 {
        let front = devices.drop_last();
        lemma_planned_loop_at(front, mode, i, j);
        assert(front.take(i) =~= devices.take(i));
    }
}

/// Checks a list of devices and makes its loops for a run of the given
/// mode.
///
/// The list is refused, before any loop is made, if a device has an
/// address that is not a URL; the error names the first such device and
/// address. Else there is one new loop for every event of every device, in
/// the order of the list.
pub fn plan(devices: &Vec<Device>, mode: RunMode) -> (r: Result<Vec<DispatchLoop>, ConfigError>)
    ensures
        r is Ok <==> faultless(devices@),
        r matches Ok(loops) ==> views_of(loops@) == planned_loops(devices@, mode) && loops@.len()
            == event_count(devices@),
        r matches Err(e) ==> first_fault_is(devices@, e),
{
    let mut checked: usize = 0;
    while checked < devices.len()
        invariant
            checked <= devices.len(),
            faultless(devices@.take(checked as int)),
        decreases devices.len() - checked,
    {
        match devices[checked].validate(checked) {
            Ok(()) => {},
            Err(e) => {
                return Err(e);
            },
        }
        checked = checked + 1;
    }

    let mut loops: Vec<DispatchLoop> = Vec::new();
    let mut i: usize = 0;
    while i < devices.len()
        invariant
            i <= devices.len(),
            views_of(loops@) == planned_loops(devices@.take(i as int), mode),
        decreases devices.len() - i,
    {
        let device = &devices[i];
        let ghost before = views_of(loops@);
        let mut j: usize = 0;
        while j < device.events.len()
            invariant
                j <= device.events.len(),
                views_of(loops@) == before + device_loops(i, *device, mode).take(j as int),
            decreases device.events.len() - j,
        {
            let ghost so_far = loops@;
            let lp = DispatchLoop::new(i, device, device.events[j], mode);
            loops.push(lp);
            assert(views_of(loops@) =~= views_of(so_far).push(lp@));
            j = j + 1;
        }
        assert(devices@.take(i + 1).drop_last() =~= devices@.take(i as int));
        i = i + 1;
    }
    proof {
        assert(devices@.take(i as int) =~= devices@);
        lemma_one_loop_per_event(devices@, mode);
    }
    Ok(loops)
}

/// Tells whether any event of any device has a daily trigger. A list with
/// such an event runs until it is cancelled; one without ends by itself.
pub fn has_recurring(devices: &Vec<Device>) -> (b: bool)
    ensures
        b == any_recurring(devices@),
{
    let mut i: usize = 0;
    while i < devices.len()
        invariant
            i <= devices.len(),
            forall|a: int, b: int|
                0 <= a < i && 0 <= b < devices@[a].events@.len() ==> !(
                #[trigger] devices@[a].events@[b]).trigger.recurs(),
        decreases devices.len() - i,
    {
        let device = &devices[i];
        let mut j: usize = 0;
        while j < device.events.len()
            invariant
                j <= device.events.len(),
                i < devices.len(),
                *device == devices@[i as int],
                forall|b: int| 0 <= b < j ==> !(#[trigger] device.events@[b]).trigger.recurs(),
            decreases device.events.len() - j,
        {
            if device.events[j].trigger.is_recurring() {
                return true;
            }
            j = j + 1;
        }
        i = i + 1;
    }
    false
}

/// Every planned loop belongs to a device of the list and to a run of the
/// given mode, and is new: it waits, and it has counted nothing.
pub proof fn lemma_planned_devices_in_list(devices: Seq<Device>, mode: RunMode, k: int)
    requires
        0 <= k < planned_loops(devices, mode).len(),
    ensures
        planned_loops(devices, mode)[k].device < devices.len(),
        planned_loops(devices, mode)[k].state == LoopState::Waiting,
        planned_loops(devices, mode)[k].mode == mode,
        planned_loops(devices, mode)[k].fired == 0,
        planned_loops(devices, mode)[k].failed == 0,
        planned_loops(devices, mode)[k].last_failure is None,
    decreases devices.len(),
{
    if devices.len() > 0 {
        let front = planned_loops(devices.drop_last(), mode);
        if k < front.len() {
            lemma_planned_devices_in_list(devices.drop_last(), mode, k);
        }
    }
}

/// A loop that has not reported yet: the position of its device and its
/// event.
pub type Pending = Option<(usize, Event)>;

/// What is still owed by the loops of a planned list: for every loop, in
/// the order of the plan, its device and event.
pub open spec fn owed_by(planned: Seq<LoopView>) -> Seq<Pending> {
    Seq::new(planned.len(), |k: int| Some((planned[k].device, planned[k].event)))
}

/// The result after every loop that has not reported is recorded as timed
/// out, in the order of the plan.
pub open spec fn timed_out(result: AggregateView, pending: Seq<Pending>) -> AggregateView
    decreases pending.len(),
{
    if pending.len() == 0 {
        result
    } else {
        let before = timed_out(result, pending.drop_last());
        match pending.last() {
            Some((device, event)) => before.with_timeout(device, event),
            None => before,
        }
    }
}

/// The books of one run: what the loops have reported so far, and which
/// loops have not reported yet.
#[derive(Debug)]
pub struct Orchestrator {
    result: AggregateResult,
    pending: Vec<Pending>,
}

/// The books of a run as the contracts see them.
pub struct OrchestratorView {
    /// What has been reported so far.
    pub result: AggregateView,
    /// For every planned loop, in the order of the plan: its device and
    /// event while its report is owed, `None` when it has reported.
    pub pending: Seq<Pending>,
}

impl OrchestratorView {
    /// The counts add up, and every loop that owes its report belongs to a
    /// device that has a tally.
    pub open spec fn wf(self) -> bool {
        &&& self.result.consistent()
        &&& forall|k: int|
            0 <= k < self.pending.len() ==> (#[trigger] self.pending[k] matches Some(loop_of)
                ==> loop_of.0 < self.result.devices.len())
    }

    /// The books at the start of a run of `devices` in the given mode:
    /// nothing counted, and every planned loop owes its report.
    pub open spec fn at_start(self, devices: Seq<Device>, mode: RunMode) -> bool {
        &&& self.result.fired == 0
        &&& self.result.failed == 0
        &&& self.result.failures.len() == 0
        &&& self.result.devices.len() == devices.len()
        &&& forall|i: int|
            0 <= i < devices.len() ==> {
                &&& (#[trigger] self.result.devices[i]).name@ == devices[i].name@
                &&& self.result.devices[i].fired == 0
                &&& self.result.devices[i].failed == 0
            }
        &&& self.pending == owed_by(planned_loops(devices, mode))
    }

    /// Every loop has reported.
    pub open spec fn done(self) -> bool {
        forall|k: int| 0 <= k < self.pending.len() ==> (#[trigger] self.pending[k]) is None
    }

    /// The loop at `place` of the plan owes its report, and `report` is
    /// for that loop's device and event.
    pub open spec fn accepts(self, place: usize, report: LoopReport) -> bool {
        place < self.pending.len() && self.pending[place as int] == Some(
            (report.device, report.event),
        )
    }

    /// The books after the loop at `place` has handed in `report`: the
    /// report is recorded and the loop owes nothing more. A report that is
    /// not accepted changes nothing.
    pub open spec fn reported(self, place: usize, report: LoopReport) -> OrchestratorView {
        if self.accepts(place, report) {
            OrchestratorView {
                result: self.result.with_report(report),
                pending: self.pending.update(place as int, None),
            }
        } else {
            self
        }
    }
}

impl View for Orchestrator {
    type V = OrchestratorView;

    closed spec fn view(&self) -> OrchestratorView {
        OrchestratorView { result: self.result@, pending: self.pending@ }
    }
}

impl Orchestrator {
    /// Starts a run of the given mode: checks the list of devices, makes
    /// its loops, and opens the books.
    ///
    /// The list is refused as by [`plan`], before any loop is made. Else
    /// the loops are those that `plan` makes, and in the books nothing is
    /// counted yet and every loop owes its report. For an empty list there
    /// are no loops and the run is done at once.
    pub fn start(devices: &Vec<Device>, mode: RunMode) -> (r: Result<
        (Orchestrator, Vec<DispatchLoop>),
        ConfigError,
    >)
        ensures
            r is Ok <==> faultless(devices@),
            r matches Err(e) ==> first_fault_is(devices@, e),
            r matches Ok((books, loops)) ==> {
                &&& views_of(loops@) == planned_loops(devices@, mode)
                &&& loops@.len() == event_count(devices@)
                &&& books@.wf()
                &&& books@.at_start(devices@, mode)
            },
    {
        let loops = match plan(devices, mode) {
            Ok(loops) => loops,
            Err(e) => {
                return Err(e);
            },
        };
        let result = AggregateResult::for_devices(devices);
        let mut pending: Vec<Pending> = Vec::new();
        let mut k: usize = 0;
        while k < loops.len()
            invariant
                k <= loops.len(),
                pending@ == owed_by(views_of(loops@)).take(k as int),
            decreases loops.len() - k,
        {
            pending.push(Some((loops[k].device(), loops[k].event())));
            k = k + 1;
        }
        let books = Orchestrator { result, pending };
        proof {
            let owed = owed_by(views_of(loops@));
            assert(owed.take(k as int) =~= owed);
            assert forall|at: int| 0 <= at < books@.pending.len() implies (
            #[trigger] books@.pending[at] matches Some(loop_of) ==> loop_of.0
                < books@.result.devices.len()) by {
                lemma_planned_devices_in_list(devices@, mode, at);
            }
        }
        Ok((books, loops))
    }

    /// Tells whether every loop has reported.
    pub fn is_done(&self) -> (done: bool)
        ensures
            done == self@.done(),
    {
        let mut k: usize = 0;
        while k < self.pending.len()
            invariant
                k <= self.pending.len(),
                forall|at: int| 0 <= at < k ==> (#[trigger] self.pending@[at]) is None,
            decreases self.pending.len() - k,
        {
            if self.pending[k].is_some() {
                return false;
            }
            k = k + 1;
        }
        true
    }

    /// What has been reported so far.
    pub fn result(&self) -> (result: &AggregateResult)
        ensures
            result@ == self@.result,
    {
        &self.result
    }

    /// The device and event of the loop at `place` of the plan if that
    /// loop owes its report, and `None` if it has reported or if the plan
    /// has no such place.
    pub fn owes(&self, place: usize) -> (loop_of: Pending)
        ensures
            loop_of == if place < self@.pending.len() {
                self@.pending[place as int]
            } else {
                None
            },
    {
        if place < self.pending.len() {
            self.pending[place]
        } else {
            None
        }
    }

    /// Takes the report of the loop at `place` of the plan.
    ///
    /// Returns `false`, and changes nothing, unless that loop owes its
    /// report and the report is for its device and event. So a loop's
    /// report is counted once, however often it is handed in.
    pub fn report(&mut self, place: usize, report: LoopReport) -> (accepted: bool)
        requires
            old(self)@.wf(),
            old(self)@.result.fired + report.fired <= u64::MAX,
            old(self)@.result.failed + report.failed <= u64::MAX,
        ensures
            accepted == old(self)@.accepts(place, report),
            final(self)@ == old(self)@.reported(place, report),
            final(self)@.wf(),
    {
        if place >= self.pending.len() {
            return false;
        }
        match self.pending[place] {
            None => false,
            Some((device, event)) => {
                if device != report.device || event != report.event {
                    return false;
                }
                self.result.record(report);
                self.pending.set(place, None);
                true
            },
        }
    }

    /// Closes the books and hands out the result. Every loop that has not
    /// reported is recorded as timed out, in the order of the plan.
    pub fn finish(self) -> (result: AggregateResult)
        requires
            self@.wf(),
            self@.result.failed + self@.pending.len() <= u64::MAX,
        ensures
            result@ == timed_out(self@.result, self@.pending),
            result@.consistent(),
            self@.done() ==> result@ == self@.result,
    {
        let Orchestrator { mut result, pending } = self;
        let ghost opened = result@;
        let mut k: usize = 0;
        while k < pending.len()
            invariant
                k <= pending.len(),
                result@ == timed_out(opened, pending@.take(k as int)),
                result@.consistent(),
                result@.devices.len() == opened.devices.len(),
                result@.failed <= opened.failed + k,
                opened.failed + pending@.len() <= u64::MAX,
                forall|at: int|
                    0 <= at < pending@.len() ==> (#[trigger] pending@[at] matches Some(loop_of)
                        ==> loop_of.0 < opened.devices.len()),
                (forall|at: int| 0 <= at < k ==> (#[trigger] pending@[at]) is None) ==> result@
                    == opened,
            decreases pending.len() - k,
        {
            assert(pending@.take(k + 1).drop_last() =~= pending@.take(k as int));
            match pending[k] {
                Some((device, event)) => {
                    result.record_timeout(device, event);
                },
                None => {},
            }
            k = k + 1;
        }
        assert(pending@.take(k as int) =~= pending@);
        result
    }
}

} // verus!
