//! A scheduler for networked devices such as lights and pumps.
//!
//! Every device has an "on" and an "off" endpoint and a list of events. An
//! event fires either once, at a fixed instant, or every day at a fixed time
//! of day. The crate holds the decisions of such a scheduler as verified
//! code: how long to wait for a trigger, whether a failed request is tried
//! again and after which pause, how one event's loop moves between waiting,
//! firing and done, and how the outcomes of all loops add up. Sleeping and
//! sending requests are left to the host, which feeds what it observed back
//! into these functions.
//!
//! The modules, from the ground up:
//!
//! - [`time`]: a time of day, an instant, the length of a wait, a signed
//!   length of time;
//! - [`schedule`]: devices, events and triggers, and the check of a
//!   device's addresses;
//! - [`occurrence`]: how long to wait for a trigger;
//! - [`dispatch`]: what follows an attempt to reach a device;
//! - [`event_loop`]: the states of one event's loop;
//! - [`aggregate`]: the counts and failures of a run;
//! - [`orchestrator`]: the loops of a list of devices and the books of a
//!   run;
//! - [`display`]: a length of time written out for messages.

pub mod aggregate;
pub mod dispatch;
pub mod display;
pub mod event_loop;
pub mod occurrence;
pub mod orchestrator;
pub mod schedule;
pub mod time;
