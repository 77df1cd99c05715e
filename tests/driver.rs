use ble_toggle::driver::{
    Action, Driver, Event, Fatal, Phase, CONNECT_TIMEOUT_MS, SCAN_INTERVAL_MS, SERVICE_POLL_MS,
};
use ble_toggle::scan::{Probe, TARGET_UUID};
use ble_toggle::toggle::{payload, payload_off, payload_on, TOGGLE_INTERVAL_MS};

const OFF: [u8; 7] = [0x01, 0x00, 0x02, 0x06, 0x09, 0x00, 0x03];
const ON: [u8; 8] = [0x01, 0x00, 0x02, 0x06, 0x09, 0x02, 0x05, 0x03];

fn advertising(list: &[&str]) -> Probe {
    Probe::Advertises(list.iter().map(|s| s.to_string()).collect())
}

fn connected_driver() -> Driver {
    let (mut d, _) = Driver::start();
    d.step(Event::Devices(Ok(vec![advertising(&[TARGET_UUID])])));
    d.step(Event::Connected(Ok(())));
    d
}

fn toggling_driver() -> (Driver, Action) {
    let mut d = connected_driver();
    d.step(Event::Services(Ok(vec!["/org/bluez/hci0/dev_AA/service0010".to_string()])));
    d.step(Event::Characteristics(Ok(vec!["/org/bluez/hci0/dev_AA/service0010/char0011".to_string()])));
    let a = d.step(Event::Descriptors(Ok(())));
    (d, a)
}

#[test]
fn payloads_are_fixed() {
    assert_eq!(payload_off(), OFF.to_vec());
    assert_eq!(payload_on(), ON.to_vec());
    assert_eq!(payload(false), OFF.to_vec());
    assert_eq!(payload(true), ON.to_vec());
}

#[test]
fn start_scans_at_once() {
    let (d, a) = Driver::start();
    assert_eq!(d.phase, Phase::Scanning);
    assert_eq!(a, Action::Scan { delay_ms: 0 });
}

#[test]
fn empty_passes_rescan_forever() {
    let (mut d, _) = Driver::start();
    for _ in 0..1000 {
        let a = d.step(Event::Devices(Ok(Vec::new())));
        assert_eq!(a, Action::Scan { delay_ms: SCAN_INTERVAL_MS });
        assert_eq!(d.phase, Phase::Scanning);
    }
    assert_eq!(SCAN_INTERVAL_MS, 2000);
}

#[test]
fn rejected_device_selectable_later() {
    let (mut d, _) = Driver::start();
    let a = d.step(Event::Devices(Ok(vec![advertising(&["0000180f-0000-1000-8000-00805f9b34fb"])])));
    assert_eq!(a, Action::Scan { delay_ms: SCAN_INTERVAL_MS });
    let a = d.step(Event::Devices(Ok(vec![advertising(&[
        "0000180f-0000-1000-8000-00805f9b34fb",
        TARGET_UUID,
    ])])));
    assert_eq!(a, Action::Connect { device: 0, timeout_ms: CONNECT_TIMEOUT_MS });
    assert_eq!(d.phase, Phase::Connecting);
    assert_eq!(CONNECT_TIMEOUT_MS, 1000);
}

#[test]
fn scan_picks_first_qualifying_after_failures() {
    let (mut d, _) = Driver::start();
    let a = d.step(Event::Devices(Ok(vec![
        Probe::Unreadable,
        advertising(&[]),
        advertising(&[TARGET_UUID]),
        advertising(&[TARGET_UUID]),
    ])));
    assert_eq!(a, Action::Connect { device: 2, timeout_ms: CONNECT_TIMEOUT_MS });
}

#[test]
fn listing_devices_error_is_fatal() {
    let (mut d, _) = Driver::start();
    let a = d.step(Event::Devices(Err("adapter gone".to_string())));
    assert_eq!(a, Action::Fail(Fatal::Bluetooth("adapter gone".to_string())));
    assert_eq!(d.phase, Phase::Failed);
}

#[test]
fn connect_error_is_fatal() {
    let (mut d, _) = Driver::start();
    d.step(Event::Devices(Ok(vec![advertising(&[TARGET_UUID])])));
    let a = d.step(Event::Connected(Err("timeout".to_string())));
    assert_eq!(a, Action::Fail(Fatal::Bluetooth("timeout".to_string())));
    assert_eq!(d.phase, Phase::Failed);
}

#[test]
fn waits_until_services_appear() {
    let (mut d, _) = Driver::start();
    d.step(Event::Devices(Ok(vec![advertising(&[TARGET_UUID])])));
    let a = d.step(Event::Connected(Ok(())));
    assert_eq!(a, Action::ListServices { delay_ms: 0 });
    for _ in 0..5 {
        let a = d.step(Event::Services(Ok(Vec::new())));
        assert_eq!(a, Action::ListServices { delay_ms: SERVICE_POLL_MS });
        assert_eq!(d.phase, Phase::WaitingForServices);
    }
    let a = d.step(Event::Services(Ok(vec!["/svc1".to_string(), "/svc2".to_string()])));
    assert_eq!(a, Action::WalkService { service: "/svc1".to_string() });
    assert_eq!(d.phase, Phase::ListingCharacteristics);
}

#[test]
fn services_error_is_fatal() {
    let mut d = connected_driver();
    let a = d.step(Event::Services(Err("disconnected".to_string())));
    assert_eq!(a, Action::Fail(Fatal::Bluetooth("disconnected".to_string())));
}

#[test]
fn characteristics_error_is_fatal() {
    let mut d = connected_driver();
    d.step(Event::Services(Ok(vec!["/svc".to_string()])));
    let a = d.step(Event::Characteristics(Err("no access".to_string())));
    assert_eq!(a, Action::Fail(Fatal::Bluetooth("no access".to_string())));
}

#[test]
fn no_characteristics_finishes() {
    let mut d = connected_driver();
    d.step(Event::Services(Ok(vec!["/svc".to_string()])));
    let a = d.step(Event::Characteristics(Ok(Vec::new())));
    assert_eq!(a, Action::Finish);
    assert_eq!(d.phase, Phase::Finished);
}

#[test]
fn first_characteristic_is_walked() {
    let mut d = connected_driver();
    d.step(Event::Services(Ok(vec!["/svc".to_string()])));
    let a = d.step(Event::Characteristics(Ok(vec!["/svc/c1".to_string(), "/svc/c2".to_string()])));
    assert_eq!(a, Action::WalkCharacteristic { characteristic: "/svc/c1".to_string() });
}

#[test]
fn descriptors_error_is_fatal() {
    let mut d = connected_driver();
    d.step(Event::Services(Ok(vec!["/svc".to_string()])));
    d.step(Event::Characteristics(Ok(vec!["/svc/c1".to_string()])));
    let a = d.step(Event::Descriptors(Err("gone".to_string())));
    assert_eq!(a, Action::Fail(Fatal::Bluetooth("gone".to_string())));
}

#[test]
fn toggle_alternates_without_drift() {
    let (mut d, first) = toggling_driver();
    assert_eq!(first, Action::Write { payload: OFF.to_vec(), delay_ms: 0 });
    for k in 1..2001u32 {
        let a = d.step(Event::Written(Ok(())));
        let expected = if k % 2 == 0 { OFF.to_vec() } else { ON.to_vec() };
        assert_eq!(a, Action::Write { payload: expected, delay_ms: TOGGLE_INTERVAL_MS });
    }
    assert_eq!(TOGGLE_INTERVAL_MS, 1000);
}

#[test]
fn write_error_stops_toggling() {
    let (mut d, _) = toggling_driver();
    d.step(Event::Written(Ok(())));
    let a = d.step(Event::Written(Err("write refused".to_string())));
    assert_eq!(a, Action::Fail(Fatal::Bluetooth("write refused".to_string())));
    assert_eq!(d.phase, Phase::Failed);
}

#[test]
fn unexpected_event_is_fatal() {
    let (mut d, _) = Driver::start();
    let a = d.step(Event::Written(Ok(())));
    assert_eq!(a, Action::Fail(Fatal::UnexpectedEvent));
    assert_eq!(d.phase, Phase::Failed);
}
