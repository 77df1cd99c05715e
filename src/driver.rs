//! The whole run as a machine from phase and event to next phase and
//! action: scanning, connecting, waiting for services, walking the
//! attribute tree, then toggling. The caller performs each action and hands
//! back what came of it as the next event.

use vstd::prelude::*;
use crate::scan::{Probe, is_first_match, no_match, select_device};
use crate::toggle::{TOGGLE_INTERVAL_MS, off_bytes, on_bytes, payload};

verus! {

/// Milliseconds between two passes over the known devices.
pub const SCAN_INTERVAL_MS: u64 = 2000;

/// Milliseconds allowed for connecting to the selected device.
pub const CONNECT_TIMEOUT_MS: u64 = 1000;

/// Milliseconds between two requests for the connected device's services.
pub const SERVICE_POLL_MS: u64 = 1000;

/// Where the run stands.
#[derive(Debug, Clone, Copy, PartialEq, Eq, Structural)]
pub enum Phase {
    /// Passing over the known devices until one advertises the wanted UUID.
    Scanning,
    /// Discovery is being stopped and the selected device connected.
    Connecting,
    /// Asking the device for its GATT services until it reports some.
    WaitingForServices,
    /// The first service is being described and its characteristics listed.
    ListingCharacteristics,
    /// The first characteristic is being described and its descriptors listed.
    ListingDescriptors,
    /// A payload is being written; `sent_on` tells which.
    Toggling { sent_on: bool },
    /// The service had no characteristic: the run ends without error.
    Finished,
    /// A fatal error ended the run.
    Failed,
}

/// What came of the last action.
#[derive(Debug, PartialEq, Eq)]
pub enum Event {
    /// One pass over the known devices, in the order the adapter gave them,
    /// or the error that listing them gave.
    Devices(Result<Vec<Probe>, String>),
    /// Stopping discovery and connecting succeeded, or failed.
    Connected(Result<(), String>),
    /// The paths of the device's GATT services, or the error.
    Services(Result<Vec<String>, String>),
    /// The paths of the service's characteristics, or the error.
    Characteristics(Result<Vec<String>, String>),
    /// Listing the characteristic's descriptors succeeded, or failed.
    Descriptors(Result<(), String>),
    /// The last write succeeded, or failed.
    Written(Result<(), String>),
}

/// Why the run stopped with an error.
#[derive(Debug, PartialEq, Eq)]
pub enum Fatal {
    /// A structural Bluetooth operation failed with this message.
    Bluetooth(String),
    /// An event came that the current phase does not wait for.
    UnexpectedEvent,
}

/// What the caller is to do next.
#[derive(Debug, PartialEq, Eq)]
pub enum Action {
    /// Wait `delay_ms`, then inspect every known device and report a pass.
    Scan { delay_ms: u64 },
    /// Stop discovery and connect to device number `device` of the last pass.
    Connect { device: usize, timeout_ms: u64 },
    /// Wait `delay_ms`, then ask the device for its GATT services.
    ListServices { delay_ms: u64 },
    /// Describe the service at this path and list its characteristics.
    WalkService { service: String },
    /// Describe the characteristic at this path and list its descriptors.
    WalkCharacteristic { characteristic: String },
    /// Wait `delay_ms`, then write `payload` to the characteristic.
    Write { payload: Vec<u8>, delay_ms: u64 },
    /// End the run without error.
    Finish,
    /// End the run with this error.
    Fail(Fatal),
}

/// The phase that is left with error `m`, and the action that reports it.
pub open spec fn fails_with(q: Phase, a: Action, m: String) -> bool {
    q == Phase::Failed && a == Action::Fail(Fatal::Bluetooth(m))
}

/// Event `e` in phase `p` leads to phase `q` and action `a`.
pub open spec fn transition(p: Phase, e: Event, q: Phase, a: Action) -> bool {
    match (p, e) {
        (Phase::Scanning, Event::Devices(Err(m))) => fails_with(q, a, m),
        (Phase::Scanning, Event::Devices(Ok(pass))) => if no_match(pass@) {
            q == Phase::Scanning && a == (Action::Scan { delay_ms: SCAN_INTERVAL_MS })
        } else {
            &&& q == Phase::Connecting
            &&& a is Connect
            &&& is_first_match(pass@, a->device as int)
            &&& a->timeout_ms == CONNECT_TIMEOUT_MS
        },
        (Phase::Connecting, Event::Connected(Err(m))) => fails_with(q, a, m),
        (Phase::Connecting, Event::Connected(Ok(_))) => {
            q == Phase::WaitingForServices && a == (Action::ListServices { delay_ms: 0 })
        },
        (Phase::WaitingForServices, Event::Services(Err(m))) => fails_with(q, a, m),
        (Phase::WaitingForServices, Event::Services(Ok(svcs))) => if svcs@.len() == 0 {
            q == Phase::WaitingForServices && a == (Action::ListServices {
                delay_ms: SERVICE_POLL_MS,
            })
        } else {
            q == Phase::ListingCharacteristics && a == (Action::WalkService { service: svcs@[0] })
        },
        (Phase::ListingCharacteristics, Event::Characteristics(Err(m))) => fails_with(q, a, m),
        (Phase::ListingCharacteristics, Event::Characteristics(Ok(chs))) => if chs@.len() == 0 {
            q == Phase::Finished && a == Action::Finish
        } else {
            q == Phase::ListingDescriptors && a == (Action::WalkCharacteristic {
                characteristic: chs@[0],
            })
        },
        (Phase::ListingDescriptors, Event::Descriptors(Err(m))) => fails_with(q, a, m),
        (Phase::ListingDescriptors, Event::Descriptors(Ok(_))) => {
            &&& q == (Phase::Toggling { sent_on: false })
            &&& a matches Action::Write { payload, delay_ms } && payload@ == off_bytes() && delay_ms
                == 0
        },
        (Phase::Toggling { sent_on: _ }, Event::Written(Err(m))) => fails_with(q, a, m),
        (Phase::Toggling { sent_on }, Event::Written(Ok(_))) => {
            &&& q == (Phase::Toggling { sent_on: !sent_on })
            &&& a matches Action::Write { payload, delay_ms } && payload@ == (if sent_on {
                off_bytes()
            } else {
                on_bytes()
            }) && delay_ms == TOGGLE_INTERVAL_MS
        },
        _ => q == Phase::Failed && a == Action::Fail(Fatal::UnexpectedEvent),
    }
}

/// The state of one run.
pub struct Driver {
    pub phase: Phase,
}

impl Driver {
    /// Starts a run: scanning, with a first pass right away.
    pub fn start() -> (r: (Driver, Action))
        ensures
            r.0.phase == Phase::Scanning,
            r.1 == (Action::Scan { delay_ms: 0 }),
    {
        (Driver { phase: Phase::Scanning }, Action::Scan { delay_ms: 0 })
    }

    /// Takes what came of the last action and says what to do next.
    pub fn step(&mut self, event: Event) -> (a: Action)
        ensures
            transition(old(self).phase, event, final(self).phase, a),
    {
        let (q, a) = match (self.phase, event) {
            (Phase::Scanning, Event::Devices(Err(m))) => (
                Phase::Failed,
                Action::Fail(Fatal::Bluetooth(m)),
            ),
            (Phase::Scanning, Event::Devices(Ok(pass))) => match select_device(&pass) {
                Some(i) => (
                    Phase::Connecting,
                    Action::Connect { device: i, timeout_ms: CONNECT_TIMEOUT_MS },
                ),
                None => (Phase::Scanning, Action::Scan { delay_ms: SCAN_INTERVAL_MS }),
            },
            (Phase::Connecting, Event::Connected(Err(m))) => (
                Phase::Failed,
                Action::Fail(Fatal::Bluetooth(m)),
            ),
            (Phase::Connecting, Event::Connected(Ok(_))) => (
                Phase::WaitingForServices,
                Action::ListServices { delay_ms: 0 },
            ),
            (Phase::WaitingForServices, Event::Services(Err(m))) => (
                Phase::Failed,
                Action::Fail(Fatal::Bluetooth(m)),
            ),
            (Phase::WaitingForServices, Event::Services(Ok(svcs))) => if svcs.len() == 0 {
                (Phase::WaitingForServices, Action::ListServices { delay_ms: SERVICE_POLL_MS })
            } else {
                (Phase::ListingCharacteristics, Action::WalkService { service: svcs[0].clone() })
            },
            (Phase::ListingCharacteristics, Event::Characteristics(Err(m))) => (
                Phase::Failed,
                Action::Fail(Fatal::Bluetooth(m)),
            ),
            (Phase::ListingCharacteristics, Event::Characteristics(Ok(chs))) => if chs.len()
                == 0 {
                (Phase::Finished, Action::Finish)
            } else {
                (
                    Phase::ListingDescriptors,
                    Action::WalkCharacteristic { characteristic: chs[0].clone() },
                )
            },
            (Phase::ListingDescriptors, Event::Descriptors(Err(m))) => (
                Phase::Failed,
                Action::Fail(Fatal::Bluetooth(m)),
            ),
            (Phase::ListingDescriptors, Event::Descriptors(Ok(_))) => (
                Phase::Toggling { sent_on: false },
                Action::Write { payload: payload(false), delay_ms: 0 },
            ),
            (Phase::Toggling { sent_on: _ }, Event::Written(Err(m))) => (
                Phase::Failed,
                Action::Fail(Fatal::Bluetooth(m)),
            ),
            (Phase::Toggling { sent_on }, Event::Written(Ok(_))) => (
                Phase::Toggling { sent_on: !sent_on },
                Action::Write { payload: payload(!sent_on), delay_ms: TOGGLE_INTERVAL_MS },
            ),
            _ => (Phase::Failed, Action::Fail(Fatal::UnexpectedEvent)),
        };
        self.phase = q;
        a
    }
}

} // verus!
