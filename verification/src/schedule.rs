//! The schedule: devices, their events, and when an event fires.
//!
//! These are plain values. The host builds them once from its
//! configuration; nothing in the crate changes one afterwards.

use vstd::prelude::*;
use crate::time::{Instant, TimeOfDay};

verus! {

/// When an event fires.
#[derive(Clone, Copy, Debug, PartialEq, Eq, Structural)]
pub enum TriggerSpec {
    /// Once, at this instant.
    Absolute(Instant),
    /// Every day, at this time of day.
    DailyTimeOfDay(TimeOfDay),
}

impl TriggerSpec {
    /// Whether the trigger comes round again after it has fired.
    pub open spec fn recurs(self) -> bool {
        self is DailyTimeOfDay
    }

    /// Whether the trigger comes round again after it has fired.
    pub fn is_recurring(&self) -> (b: bool)
        ensures
            b == self.recurs(),
    {
        match self {
            TriggerSpec::Absolute(_) => false,
            TriggerSpec::DailyTimeOfDay(_) => true,
        }
    }
}

/// One scheduled action of a device: switch it on or off when the trigger
/// fires.
#[derive(Clone, Copy, Debug, PartialEq, Eq, Structural)]
pub struct Event {
    /// When the event fires.
    pub trigger: TriggerSpec,
    /// `true` to switch the device on, `false` to switch it off.
    pub on: bool,
}

/// A controllable device: its name, the address that switches it on, the
/// address that switches it off, and its events in the order given.
#[derive(Clone, Debug)]
pub struct Device {
    pub name: String,
    pub on: String,
    pub off: String,
    pub events: Vec<Event>,
}

/// Which of a device's two addresses an action goes to: the one for "on"
/// when `on` holds, else the one for "off".
pub open spec fn selected_endpoint(on_endpoint: Seq<char>, off_endpoint: Seq<char>, on: bool) -> Seq<
    char,
> {
    if on {
        on_endpoint
    } else {
        off_endpoint
    }
}

/// Why a list of devices cannot be run.
#[derive(Clone, Copy, Debug, PartialEq, Eq, Structural)]
pub enum ConfigError {
    /// The address for "on" of the device at this position in the list is
    /// not a URL.
    OnEndpoint { device: usize },
    /// The address for "off" of the device at this position in the list is
    /// not a URL.
    OffEndpoint { device: usize },
}

/// Whether the `url` crate's parser takes `text` for an absolute URL.
pub uninterp spec fn url_accepts(text: Seq<char>) -> bool;

/// The `url` crate's `Url::parse`, asked only whether it succeeds.
///
/// Claimed of it: whether it succeeds depends on the text alone.
#[verifier::external_body]
fn parses_as_url(text: &str) -> (accepted: bool)
    ensures
        accepted == url_accepts(text@),
{
    url::Url::parse(text).is_ok()
}

/// What is wrong with the device at `position`, given whether its address
/// for "on" and its address for "off" are URLs: the first of the two that
/// is not one, or nothing.
pub open spec fn endpoint_fault(position: usize, on_ok: bool, off_ok: bool) -> Option<
    ConfigError,
> {
    if !on_ok {
        Some(ConfigError::OnEndpoint { device: position })
    } else if !off_ok {
        Some(ConfigError::OffEndpoint { device: position })
    } else {
        None
    }
}

/// Names what is wrong with the device at `position`, if anything, from
/// the two answers on its addresses.
pub fn check_endpoints(position: usize, on_ok: bool, off_ok: bool) -> (fault: Option<ConfigError>)
    ensures
        fault == endpoint_fault(position, on_ok, off_ok),
{
    if !on_ok {
        Some(ConfigError::OnEndpoint { device: position })
    } else if !off_ok {
        Some(ConfigError::OffEndpoint { device: position })
    } else {
        None
    }
}

impl Device {
    /// What is wrong with this device, standing at `position`, if anything.
    pub open spec fn fault(self, position: usize) -> Option<ConfigError> {
        endpoint_fault(position, url_accepts(self.on@), url_accepts(self.off@))
    }

    /// Checks that both addresses of this device, which stands at
    /// `position` in the list, are URLs, and names the first that is not.
    pub fn validate(&self, position: usize) -> (r: Result<(), ConfigError>)
        ensures
            r is Ok <==> self.fault(position) is None,
            r matches Err(e) ==> self.fault(position) == Some(e),
    {
        let on_ok = parses_as_url(self.on.as_str());
        let off_ok = parses_as_url(self.off.as_str());
        match check_endpoints(position, on_ok, off_ok) {
            Some(e) => Err(e),
            None => Ok(()),
        }
    }

    /// The address that an action of this device goes to.
    pub fn endpoint(&self, on: bool) -> (address: &String)
        ensures
            address@ == selected_endpoint(self.on@, self.off@, on),
            on ==> *address == self.on,
            !on ==> *address == self.off,
    {
        if on {
            &self.on
        } else {
            &self.off
        }
    }
}

} // verus!
