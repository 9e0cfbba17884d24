//! What all loops of a run came to, counted in all and for each device.

use vstd::prelude::*;
use crate::dispatch::FailureReason;
use crate::event_loop::LoopReport;
use crate::schedule::{Device, Event};

verus! {

/// The firings of one device, counted.
#[derive(Clone, Debug)]
pub struct DeviceTally {
    /// The device's name.
    pub name: String,
    /// How many firings were delivered.
    pub fired: u64,
    /// How many firings failed.
    pub failed: u64,
}

/// One failure: the device's name, the event, why it failed, and after
/// how many attempts.
#[derive(Clone, Debug)]
pub struct FailureRecord {
    pub device: String,
    pub event: Event,
    pub reason: FailureReason,
    pub attempts: u32,
}

/// The delivered firings of all tallies together.
pub open spec fn total_fired(tallies: Seq<DeviceTally>) -> nat
    decreases tallies.len(),
{
    if tallies.len() == 0 {
        0
    } else {
        total_fired(tallies.drop_last()) + tallies.last().fired as nat
    }
}

/// The failed firings of all tallies together.
pub open spec fn total_failed(tallies: Seq<DeviceTally>) -> nat
    decreases tallies.len(),
{
    if tallies.len() == 0 {
        0
    } else {
        total_failed(tallies.drop_last()) + tallies.last().failed as nat
    }
}

/// Changing one tally changes the totals by as much as that tally changed.
pub proof fn lemma_totals_after_update(tallies: Seq<DeviceTally>, at: int, tally: DeviceTally)
    requires
        0 <= at < tallies.len(),
    ensures
        total_fired(tallies.update(at, tally)) == total_fired(tallies) - tallies[at].fired
            + tally.fired,
        total_failed(tallies.update(at, tally)) == total_failed(tallies) - tallies[at].failed
            + tally.failed,
        tallies[at].fired <= total_fired(tallies),
        tallies[at].failed <= total_failed(tallies),
    decreases tallies.len(),
{
    let changed = tallies.update(at, tally);
    if at == tallies.len() - 1 {
        assert(changed.drop_last() =~= tallies.drop_last());
    } else {
        lemma_totals_after_update(tallies.drop_last(), at, tally);
        assert(changed.drop_last() =~= tallies.drop_last().update(at, tally));
    }
}

/// What all loops of a run came to: the firings delivered and failed, in
/// all and for each device, and the failures one by one.
#[derive(Debug)]
pub struct AggregateResult {
    fired: u64,
    failed: u64,
    failures: Vec<FailureRecord>,
    devices: Vec<DeviceTally>,
}

/// A result as the contracts see it.
pub struct AggregateView {
    pub fired: u64,
    pub failed: u64,
    pub failures: Seq<FailureRecord>,
    pub devices: Seq<DeviceTally>,
}

impl AggregateView {
    /// The counts for all devices are the sums of the counts for each.
    pub open spec fn consistent(self) -> bool {
        self.fired == total_fired(self.devices) && self.failed == total_failed(self.devices)
    }

    /// The result after `report` has been recorded: its counts are added to
    /// those of its device and to those of all, and its last failure, if it
    /// has one, is put at the end of the failures. A report for a device
    /// that the result does not know changes nothing.
    pub open spec fn with_report(self, report: LoopReport) -> AggregateView {
        if report.device < self.devices.len() {
            let tally = self.devices[report.device as int];
            AggregateView {
                fired: (self.fired + report.fired) as u64,
                failed: (self.failed + report.failed) as u64,
                failures: match report.last_failure {
                    Some(failure) => self.failures.push(
                        FailureRecord {
                            device: report.name,
                            event: report.event,
                            reason: failure.reason,
                            attempts: failure.attempts,
                        },
                    ),
                    None => self.failures,
                },
                devices: self.devices.update(
                    report.device as int,
                    DeviceTally {
                        name: tally.name,
                        fired: (tally.fired + report.fired) as u64,
                        failed: (tally.failed + report.failed) as u64,
                    },
                ),
            }
        } else {
            self
        }
    }

    /// The result after the loop for `event` of the device at `device` has
    /// been recorded as timed out: one failure more for that device and in
    /// all, and a failure for the reason `ShutdownTimeout` at the end of
    /// the failures. A device that the result does not know changes nothing.
    pub open spec fn with_timeout(self, device: usize, event: Event) -> AggregateView {
        if device < self.devices.len() {
            let tally = self.devices[device as int];
            AggregateView {
                fired: self.fired,
                failed: (self.failed + 1) as u64,
                failures: self.failures.push(
                    FailureRecord {
                        device: tally.name,
                        event,
                        reason: FailureReason::ShutdownTimeout,
                        attempts: 0,
                    },
                ),
                devices: self.devices.update(
                    device as int,
                    DeviceTally {
                        name: tally.name,
                        fired: tally.fired,
                        failed: (tally.failed + 1) as u64,
                    },
                ),
            }
        } else {
            self
        }
    }
}

impl View for AggregateResult {
    type V = AggregateView;

    closed spec fn view(&self) -> AggregateView {
        AggregateView {
            fired: self.fired,
            failed: self.failed,
            failures: self.failures@,
            devices: self.devices@,
        }
    }
}

impl AggregateResult {
    /// The result of a run of `devices` in which nothing has happened yet:
    /// no failure, and a tally of zero for every device. For an empty list
    /// that is already the result of the whole run.
    pub fn for_devices(devices: &Vec<Device>) -> (result: AggregateResult)
        ensures
            result@.consistent(),
            result@.fired == 0,
            result@.failed == 0,
            result@.failures.len() == 0,
            result@.devices.len() == devices@.len(),
            forall|i: int|
                0 <= i < devices@.len() ==> {
                    &&& (#[trigger] result@.devices[i]).name@ == devices@[i].name@
                    &&& result@.devices[i].fired == 0
                    &&& result@.devices[i].failed == 0
                },
    {
        let mut tallies: Vec<DeviceTally> = Vec::new();
        let mut i: usize = 0;
        while i < devices.len()
            invariant
                i <= devices.len(),
                tallies@.len() == i,
                total_fired(tallies@) == 0,
                total_failed(tallies@) == 0,
                forall|k: int|
                    0 <= k < i ==> {
                        &&& (#[trigger] tallies@[k]).name@ == devices@[k].name@
                        &&& tallies@[k].fired == 0
                        &&& tallies@[k].failed == 0
                    },
            decreases devices.len() - i,
        {
            let ghost before = tallies@;
            tallies.push(DeviceTally { name: devices[i].name.clone(), fired: 0, failed: 0 });
            assert(tallies@.drop_last() =~= before);
            i = i + 1;
        }
        AggregateResult { fired: 0, failed: 0, failures: Vec::new(), devices: tallies }
    }

    /// The firings delivered, of all devices together.
    pub fn fired(&self) -> (n: u64)
        ensures
            n == self@.fired,
    {
        self.fired
    }

    /// The firings failed, of all devices together.
    pub fn failed(&self) -> (n: u64)
        ensures
            n == self@.failed,
    {
        self.failed
    }

    /// The failures, in the order in which they were recorded.
    pub fn failures(&self) -> (list: &Vec<FailureRecord>)
        ensures
            list@ == self@.failures,
    {
        &self.failures
    }

    /// The tallies of the devices, in the order of the list of devices.
    pub fn devices(&self) -> (list: &Vec<DeviceTally>)
        ensures
            list@ == self@.devices,
    {
        &self.devices
    }

    /// Records what a loop reported when it ended.
    ///
    /// Returns `false`, and records nothing, if the report names a device
    /// that this result has no tally for.
    pub fn record(&mut self, report: LoopReport) -> (known: bool)
        requires
            old(self)@.consistent(),
            old(self)@.fired + report.fired <= u64::MAX,
            old(self)@.failed + report.failed <= u64::MAX,
        ensures
            known == (report.device < old(self)@.devices.len()),
            final(self)@ == old(self)@.with_report(report),
            final(self)@.consistent(),
    {
        let at = report.device;
        if at >= self.devices.len() {
            return false;
        }
        proof {
            lemma_totals_after_update(
                self.devices@,
                at as int,
                DeviceTally {
                    name: self.devices@[at as int].name,
                    fired: (self.devices@[at as int].fired + report.fired) as u64,
                    failed: (self.devices@[at as int].failed + report.failed) as u64,
                },
            );
        }
        let tally = DeviceTally {
            name: self.devices[at].name.clone(),
            fired: self.devices[at].fired + report.fired,
            failed: self.devices[at].failed + report.failed,
        };
        self.devices.set(at, tally);
        self.fired = self.fired + report.fired;
        self.failed = self.failed + report.failed;
        match report.last_failure {
            Some(failure) => {
                self.failures.push(
                    FailureRecord {
                        device: report.name,
                        event: report.event,
                        reason: failure.reason,
                        attempts: failure.attempts,
                    },
                );
            },
            None => {},
        }
        true
    }

    /// Records that the loop for `event` of the device at `device` had not
    /// ended when the time allowed for shutting down was over.
    ///
    /// Returns `false`, and records nothing, if this result has no tally
    /// for that device.
    pub fn record_timeout(&mut self, device: usize, event: Event) -> (known: bool)
        requires
            old(self)@.consistent(),
            old(self)@.failed < u64::MAX,
        ensures
            known == (device < old(self)@.devices.len()),
            final(self)@ == old(self)@.with_timeout(device, event),
            final(self)@.consistent(),
    {
        if device >= self.devices.len() {
            return false;
        }
        proof {
            lemma_totals_after_update(
                self.devices@,
                device as int,
                DeviceTally {
                    name: self.devices@[device as int].name,
                    fired: self.devices@[device as int].fired,
                    failed: (self.devices@[device as int].failed + 1) as u64,
                },
            );
        }
        let tally = DeviceTally {
            name: self.devices[device].name.clone(),
            fired: self.devices[device].fired,
            failed: self.devices[device].failed + 1,
        };
        self.failures.push(
            FailureRecord {
                device: self.devices[device].name.clone(),
                event,
                reason: FailureReason::ShutdownTimeout,
                attempts: 0,
            },
        );
        self.devices.set(device, tally);
        self.failed = self.failed + 1;
        true
    }
}

} // verus!
